//! Asynchronous resources over streams.
use super::Task;
use crate::buffer;
use crate::error::{replace, Polled, StreamError, StreamResult};
use bytes::Bytes;
use vstd::prelude::*;
use vstd::slice::slice_subrange;

verus! {

/// An input stream, as its users implement it.
pub trait InputStream: Sized {
    /// Reading up to `size` bytes from `before` may return `r` and leave
    /// `after`. Whoever implements the stream may say more of it.
    open spec fn reads(before: Self, size: usize, r: StreamResult<Bytes>, after: Self) -> bool {
        true
    }

    /// Reads up to `size` bytes, without waiting. No bytes are read where
    /// there are none yet.
    fn read(&mut self, size: usize) -> (r: StreamResult<Bytes>)
        ensures
            Self::reads(*old(self), size, r, *final(self)),
    ;
}

/// An output stream, as its users implement it.
pub trait OutputStream: Sized {
    /// Asking `before` how much may be written may return `r` and leave
    /// `after`.
    open spec fn checks(before: Self, r: StreamResult<usize>, after: Self) -> bool {
        true
    }

    /// Writing the bytes to `before` may return `r` and leave `after`.
    open spec fn writes(before: Self, bytes: Bytes, r: StreamResult<()>, after: Self) -> bool {
        true
    }

    /// Flushing `before` may return `r` and leave `after`.
    open spec fn flushes(before: Self, r: StreamResult<()>, after: Self) -> bool {
        true
    }

    /// How many bytes may be written. Nothing may be where the stream is not
    /// ready.
    fn check_write(&mut self) -> (r: StreamResult<usize>)
        ensures
            Self::checks(*old(self), r, *final(self)),
    ;

    /// Writes no more bytes than the last check allowed.
    fn write(&mut self, bytes: Bytes) -> (r: StreamResult<()>)
        ensures
            Self::writes(*old(self), bytes, r, *final(self)),
    ;

    /// Requests that what was written is passed on.
    fn flush(&mut self) -> (r: StreamResult<()>)
        ensures
            Self::flushes(*old(self), r, *final(self)),
    ;
}

/// How often a stream may be found without progress in one poll, though it
/// was reported ready.
pub const MAX_ATTEMPTS: usize = 10;

/// A stream, between polls.
#[derive(Debug)]
pub enum IoStreamState<IO> {
    Ready(IO),
    /// A task that holds the stream waits for it to be ready.
    Pending(Task),
    Closed,
}

/// What a poll goes on with.
#[derive(Debug)]
pub enum PollEvent<IO> {
    /// It begins.
    Start,
    /// A task was made, which waits for the stream to be ready.
    Waiting(Task),
    /// The task was polled. It hands over the stream once it is ready.
    Polled(Polled<IO>),
}

/// What is to be done for a poll.
#[derive(Debug)]
pub enum PollStep<IO, T> {
    /// Poll the task.
    Poll(Task),
    /// Make a task that waits for the stream to be ready.
    Wait(IO),
    /// Nothing: this is what the poll came to.
    Return(Polled<T>),
}

/// How a poll goes on, before the stream is used.
#[derive(Clone, Copy, Debug, PartialEq, Eq, Structural)]
pub enum PollTurn {
    /// The stream is there to be used.
    Apply,
    /// The task is to be polled.
    Poll(Task),
    /// The stream is not ready.
    Pending,
    /// There is no stream any more.
    Closed,
}

impl<IO> IoStreamState<IO> {
    /// How a poll goes on with `event`.
    pub open spec fn turn(self, event: PollEvent<IO>) -> PollTurn {
        match event {
            PollEvent::Start => match self {
                IoStreamState::Ready(_) => PollTurn::Apply,
                IoStreamState::Pending(task) => PollTurn::Poll(task),
                IoStreamState::Closed => PollTurn::Closed,
            },
            PollEvent::Waiting(task) => PollTurn::Poll(task),
            PollEvent::Polled(Polled::Ready(_)) => PollTurn::Apply,
            PollEvent::Polled(Polled::Pending) => PollTurn::Pending,
        }
    }

    /// The state in which a poll goes on with `event`.
    pub open spec fn turned(self, event: PollEvent<IO>) -> IoStreamState<IO> {
        match event {
            PollEvent::Waiting(task) => IoStreamState::Pending(task),
            PollEvent::Polled(Polled::Ready(io)) => IoStreamState::Ready(io),
            _ => self,
        }
    }

    pub fn poll_event(&mut self, event: PollEvent<IO>) -> (r: PollTurn)
        ensures
            r == old(self).turn(event),
            *final(self) == old(self).turned(event),
    {
        match event {
            PollEvent::Start => match self {
                IoStreamState::Ready(_) => PollTurn::Apply,
                IoStreamState::Pending(task) => PollTurn::Poll(*task),
                IoStreamState::Closed => PollTurn::Closed,
            },
            PollEvent::Waiting(task) => {
                *self = IoStreamState::Pending(task);
                PollTurn::Poll(task)
            },
            PollEvent::Polled(Polled::Ready(io)) => {
                *self = IoStreamState::Ready(io);
                PollTurn::Apply
            },
            PollEvent::Polled(Polled::Pending) => PollTurn::Pending,
        }
    }

    /// Takes in what using the stream came to, the `attempt`-th time in this
    /// poll. Where it made no progress, the stream is to be waited for, but
    /// not for ever: a stream that is ready ought to make progress.
    pub fn poll_ready<T>(&mut self, attempt: usize, polled: Polled<StreamResult<T>>) -> (r:
        PollStep<IO, StreamResult<T>>)
        requires
            *old(self) is Ready,
        ensures
            settles(attempt as nat, (*old(self))->Ready_0, polled, r, *final(self)),
    {
        match polled {
            Polled::Ready(Ok(value)) => PollStep::Return(Polled::Ready(Ok(value))),
            Polled::Ready(Err(e)) => {
                *self = IoStreamState::Closed;
                PollStep::Return(Polled::Ready(Err(e)))
            },
            Polled::Pending => {
                let taken: IoStreamState<IO> = replace(self, IoStreamState::Closed);
                match taken {
                    IoStreamState::Ready(io) if attempt <= MAX_ATTEMPTS => PollStep::Wait(io),
                    _ => PollStep::Return(
                        Polled::Ready(Err(StreamError::trap("bad stream implementation"))),
                    ),
                }
            },
        }
    }
}

/// `step` and `state` are what a poll comes to once the stream, which is `io`
/// now, was used for the `attempt`-th time and that came to `polled`.
pub open spec fn settles<IO, T>(
    attempt: nat,
    io: IO,
    polled: Polled<StreamResult<T>>,
    step: PollStep<IO, StreamResult<T>>,
    state: IoStreamState<IO>,
) -> bool {
    match polled {
        Polled::Ready(Ok(value)) => {
            &&& step == PollStep::<IO, StreamResult<T>>::Return(Polled::Ready(Ok(value)))
            &&& state == IoStreamState::Ready(io)
        },
        Polled::Ready(Err(e)) => {
            &&& step == PollStep::<IO, StreamResult<T>>::Return(Polled::Ready(Err(e)))
            &&& state == IoStreamState::<IO>::Closed
        },
        Polled::Pending => {
            &&& state == IoStreamState::<IO>::Closed
            &&& if attempt <= MAX_ATTEMPTS {
                step == PollStep::<IO, StreamResult<T>>::Wait(io)
            } else {
                step matches PollStep::Return(Polled::Ready(Err(e))) && e.is_trap(
                    "bad stream implementation"@,
                )
            }
        },
    }
}

/// Why an asynchronous operation on a stream failed.
#[derive(Debug)]
pub enum TransportError {
    /// The stream is closed.
    BrokenPipe,
    /// The stream failed in another way.
    Other(StreamError),
}

/// An asynchronous reader over an input stream.
#[derive(Debug)]
pub struct InputStreamReader<IO>(pub IoStreamState<IO>);

/// What using an input stream comes to, given what a read has returned.
pub open spec fn read_polled(outcome: StreamResult<Bytes>) -> Polled<StreamResult<Bytes>> {
    match outcome {
        Ok(bytes) => if buffer::content(bytes).len() == 0 {
            Polled::Pending
        } else {
            Polled::Ready(Ok(bytes))
        },
        Err(e) => Polled::Ready(Err(e)),
    }
}

/// `r` is the reader's step for `step`: a closed stream is the end of what is
/// there to be read.
pub open spec fn is_read_step<IO>(
    step: PollStep<IO, StreamResult<Bytes>>,
    r: PollStep<IO, Result<Bytes, TransportError>>,
) -> bool {
    match step {
        PollStep::Poll(task) => r == PollStep::<IO, Result<Bytes, TransportError>>::Poll(task),
        PollStep::Wait(io) => r == PollStep::<IO, Result<Bytes, TransportError>>::Wait(io),
        PollStep::Return(Polled::Pending) => r == PollStep::<
            IO,
            Result<Bytes, TransportError>,
        >::Return(Polled::Pending),
        PollStep::Return(Polled::Ready(Ok(bytes))) => r == PollStep::<
            IO,
            Result<Bytes, TransportError>,
        >::Return(Polled::Ready(Ok(bytes))),
        PollStep::Return(Polled::Ready(Err(e))) => if e == StreamError::Closed {
            r matches PollStep::Return(Polled::Ready(Ok(bytes))) && buffer::content(bytes).len()
                == 0
        } else {
            r == PollStep::<IO, Result<Bytes, TransportError>>::Return(
                Polled::Ready(Err(TransportError::Other(e))),
            )
        },
    }
}

/// `r` and `state` are what a poll comes to by way of `step`, once the stream,
/// which is `io` now, was used for the `attempt`-th time and has returned
/// `outcome`.
pub open spec fn read_turn<IO>(
    attempt: nat,
    io: IO,
    outcome: StreamResult<Bytes>,
    step: PollStep<IO, StreamResult<Bytes>>,
    r: PollStep<IO, Result<Bytes, TransportError>>,
    state: IoStreamState<IO>,
) -> bool {
    is_read_step(step, r) && settles(attempt, io, read_polled(outcome), step, state)
}

impl<IO> InputStreamReader<IO> {
    pub fn new(resource: IO) -> (r: InputStreamReader<IO>)
        ensures
            r.0 == IoStreamState::Ready(resource),
    {
        InputStreamReader(IoStreamState::Ready(resource))
    }

    fn map_result(step: PollStep<IO, StreamResult<Bytes>>) -> (r: PollStep<
        IO,
        Result<Bytes, TransportError>,
    >)
        ensures
            is_read_step(step, r),
    {
        match step {
            PollStep::Poll(task) => PollStep::Poll(task),
            PollStep::Wait(io) => PollStep::Wait(io),
            PollStep::Return(Polled::Pending) => PollStep::Return(Polled::Pending),
            PollStep::Return(Polled::Ready(r)) => PollStep::Return(
                Polled::Ready(
                    match r {
                        Ok(bytes) => Ok(bytes),
                        Err(StreamError::Closed) => Ok(buffer::empty()),
                        Err(e) => Err(TransportError::Other(e)),
                    },
                ),
            ),
        }
    }

    /// Takes in what a read has returned: see [`IoStreamState::poll_ready`].
    pub fn read_done(&mut self, attempt: usize, outcome: StreamResult<Bytes>) -> (r: PollStep<
        IO,
        Result<Bytes, TransportError>,
    >)
        requires
            old(self).0 is Ready,
        ensures
            exists|step: PollStep<IO, StreamResult<Bytes>>|
                #[trigger] read_turn(
                    attempt as nat,
                    old(self).0->Ready_0,
                    outcome,
                    step,
                    r,
                    final(self).0,
                ),
    {
        let polled: Polled<StreamResult<Bytes>> = match outcome {
            Ok(bytes) => if bytes.is_empty() {
                Polled::Pending
            } else {
                Polled::Ready(Ok(bytes))
            },
            Err(e) => Polled::Ready(Err(e)),
        };
        let step: PollStep<IO, StreamResult<Bytes>> = self.0.poll_ready(attempt, polled);
        let ghost before = step;
        let r: PollStep<IO, Result<Bytes, TransportError>> = Self::map_result(step);
        assert(read_turn(attempt as nat, old(self).0->Ready_0, outcome, before, r, self.0));
        r
    }
}

impl<IO: InputStream> InputStreamReader<IO> {
    /// Polls for bytes that fill a buffer with room for `remaining` more.
    /// `attempts` counts how often the stream was used in this poll. Where
    /// the poll returns bytes, none of them is the end of the stream, unless
    /// there was no room.
    ///
    /// What a read of `remaining` bytes returns is for the stream to say: the
    /// poll goes on with it as [`InputStreamReader::read_done`] does.
    pub fn poll_read(&mut self, attempts: &mut usize, event: PollEvent<IO>, remaining: usize) -> (r:
        PollStep<IO, Result<Bytes, TransportError>>)
        requires
            *old(attempts) <= MAX_ATTEMPTS,
        ensures
            match old(self).0.turn(event) {
                PollTurn::Poll(task) => {
                    &&& r == PollStep::<IO, Result<Bytes, TransportError>>::Poll(task)
                    &&& final(self).0 == old(self).0.turned(event)
                    &&& *final(attempts) == *old(attempts)
                },
                PollTurn::Pending => {
                    &&& r == PollStep::<IO, Result<Bytes, TransportError>>::Return(Polled::Pending)
                    &&& final(self).0 == old(self).0.turned(event)
                    &&& *final(attempts) == *old(attempts)
                },
                PollTurn::Closed => {
                    &&& r matches PollStep::Return(Polled::Ready(Ok(bytes)))
                    &&& buffer::content(bytes).len() == 0
                    &&& final(self).0 == old(self).0
                    &&& *final(attempts) == *old(attempts)
                },
                PollTurn::Apply => {
                    &&& *final(attempts) == *old(attempts) + 1
                    &&& if remaining == 0 {
                        &&& r matches PollStep::Return(Polled::Ready(Ok(bytes)))
                        &&& buffer::content(bytes).len() == 0
                        &&& final(self).0 == old(self).0.turned(event)
                    } else {
                        exists|
                            io: IO,
                            outcome: StreamResult<Bytes>,
                            step: PollStep<IO, StreamResult<Bytes>>,
                        |
                            {
                                &&& #[trigger] read_turn(
                                    *final(attempts) as nat,
                                    io,
                                    outcome,
                                    step,
                                    r,
                                    final(self).0,
                                )
                                &&& IO::reads(
                                    old(self).0.turned(event)->Ready_0,
                                    remaining,
                                    outcome,
                                    io,
                                )
                            }
                    }
                },
            },
    {
        match self.0.poll_event(event) {
            PollTurn::Poll(task) => PollStep::Poll(task),
            PollTurn::Pending => PollStep::Return(Polled::Pending),
            PollTurn::Closed => PollStep::Return(Polled::Ready(Ok(buffer::empty()))),
            PollTurn::Apply => {
                *attempts = *attempts + 1;
                if remaining == 0 {
                    return PollStep::Return(Polled::Ready(Ok(buffer::empty())));
                }
                match replace(&mut self.0, IoStreamState::Closed) {
                    IoStreamState::Ready(io) => {
                        let mut io: IO = io;
                        let outcome: StreamResult<Bytes> = io.read(remaining);
                        self.0 = IoStreamState::Ready(io);
                        self.read_done(*attempts, outcome)
                    },
                    _ => PollStep::Return(Polled::Ready(Ok(buffer::empty()))),
                }
            },
        }
    }
}

/// An asynchronous writer over an output stream.
#[derive(Debug)]
pub struct OutputStreamReader<IO>(pub IoStreamState<IO>);

/// What using an output stream to write `buf` comes to, given how much it
/// says may be written, and what the write has returned.
pub open spec fn write_polled(
    buf: Seq<u8>,
    check: StreamResult<usize>,
    written: StreamResult<()>,
) -> Polled<StreamResult<usize>> {
    if buf.len() == 0 {
        Polled::Ready(Ok(0))
    } else {
        match check {
            Ok(permit) => if permit == 0 {
                Polled::Pending
            } else {
                Polled::Ready(
                    match written {
                        Ok(_) => Ok(vstd::math::min(buf.len() as int, permit as int) as usize),
                        Err(e) => Err(e),
                    },
                )
            },
            Err(e) => Polled::Ready(Err(e)),
        }
    }
}

/// Of `buf`, what the stream takes was written to `before`, by way of `mid`,
/// and that left `after`: it was asked how much may be written, and as many
/// bytes were handed to it. An empty buffer asks for nothing.
pub open spec fn writes_from<IO: OutputStream>(
    before: IO,
    buf: Seq<u8>,
    check: StreamResult<usize>,
    mid: IO,
    bytes: Bytes,
    written: StreamResult<()>,
    after: IO,
) -> bool {
    if buf.len() == 0 {
        after == before
    } else {
        &&& IO::checks(before, check, mid)
        &&& if check matches Ok(permit) && permit > 0 {
            &&& buffer::content(bytes) == buf.take(
                vstd::math::min(buf.len() as int, check->Ok_0 as int),
            )
            &&& IO::writes(mid, bytes, written, after)
        } else {
            after == mid
        }
    }
}

/// `before` was flushed and, where that succeeded, asked how much may be
/// written, and that left `after`.
pub open spec fn drains<IO: OutputStream>(
    before: IO,
    flushed: StreamResult<()>,
    mid: IO,
    check: StreamResult<usize>,
    after: IO,
) -> bool {
    &&& IO::flushes(before, flushed, mid)
    &&& if flushed is Ok {
        IO::checks(mid, check, after)
    } else {
        after == mid
    }
}

/// What using an output stream to shut it down comes to, given what a flush
/// has returned, and how much may be written after it.
pub open spec fn shutdown_polled(
    flushed: StreamResult<()>,
    check: StreamResult<usize>,
) -> Polled<StreamResult<()>> {
    match flushed {
        Err(e) => Polled::Ready(Err(e)),
        Ok(_) => match check {
            Ok(permit) => if permit == 0 {
                Polled::Pending
            } else {
                Polled::Ready(Ok(()))
            },
            Err(e) => Polled::Ready(Err(e)),
        },
    }
}

/// The writer's step for `step`: to write to a closed stream is to write to a
/// broken pipe.
pub open spec fn write_step<IO, T>(step: PollStep<IO, StreamResult<T>>) -> PollStep<
    IO,
    Result<T, TransportError>,
> {
    match step {
        PollStep::Poll(task) => PollStep::Poll(task),
        PollStep::Wait(io) => PollStep::Wait(io),
        PollStep::Return(Polled::Pending) => PollStep::Return(Polled::Pending),
        PollStep::Return(Polled::Ready(r)) => PollStep::Return(
            Polled::Ready(
                match r {
                    Ok(value) => Ok(value),
                    Err(StreamError::Closed) => Err(TransportError::BrokenPipe),
                    Err(e) => Err(TransportError::Other(e)),
                },
            ),
        ),
    }
}

/// `r` and `state` are what a poll comes to by way of `step`, once the stream,
/// which is `io` now, was used for the `attempt`-th time and that came to
/// `polled`.
pub open spec fn write_turn<IO, T>(
    attempt: nat,
    io: IO,
    polled: Polled<StreamResult<T>>,
    step: PollStep<IO, StreamResult<T>>,
    r: PollStep<IO, Result<T, TransportError>>,
    state: IoStreamState<IO>,
) -> bool {
    r == write_step(step) && settles(attempt, io, polled, step, state)
}

/// The bytes of `buf` that are written at once where `permit` may be.
pub fn write_chunk(buf: &[u8], permit: usize) -> (r: Bytes)
    ensures
        buffer::content(r) == buf@.take(vstd::math::min(buf@.len() as int, permit as int)),
{
    let count: usize = if buf.len() < permit {
        buf.len()
    } else {
        permit
    };
    Bytes::copy_from_slice(slice_subrange(buf, 0, count))
}

impl<IO> OutputStreamReader<IO> {
    pub fn new(resource: IO) -> (r: OutputStreamReader<IO>)
        ensures
            r.0 == IoStreamState::Ready(resource),
    {
        OutputStreamReader(IoStreamState::Ready(resource))
    }

    fn map_err<T>(step: PollStep<IO, StreamResult<T>>) -> (r: PollStep<
        IO,
        Result<T, TransportError>,
    >)
        ensures
            r == write_step(step),
    {
        match step {
            PollStep::Poll(task) => PollStep::Poll(task),
            PollStep::Wait(io) => PollStep::Wait(io),
            PollStep::Return(Polled::Pending) => PollStep::Return(Polled::Pending),
            PollStep::Return(Polled::Ready(r)) => PollStep::Return(
                Polled::Ready(
                    match r {
                        Ok(value) => Ok(value),
                        Err(StreamError::Closed) => Err(TransportError::BrokenPipe),
                        Err(e) => Err(TransportError::Other(e)),
                    },
                ),
            ),
        }
    }

    /// Takes in what using the stream came to: see
    /// [`IoStreamState::poll_ready`].
    pub fn write_done<T>(&mut self, attempt: usize, polled: Polled<StreamResult<T>>) -> (r:
        PollStep<IO, Result<T, TransportError>>)
        requires
            old(self).0 is Ready,
        ensures
            exists|step: PollStep<IO, StreamResult<T>>|
                #[trigger] write_turn(
                    attempt as nat,
                    old(self).0->Ready_0,
                    polled,
                    step,
                    r,
                    final(self).0,
                ),
    {
        let step: PollStep<IO, StreamResult<T>> = self.0.poll_ready(attempt, polled);
        let ghost before = step;
        let r: PollStep<IO, Result<T, TransportError>> = Self::map_err(step);
        assert(write_turn(attempt as nat, old(self).0->Ready_0, polled, before, r, self.0));
        r
    }

    /// What a poll that goes on without the stream comes to.
    pub open spec fn idle<T>(self, event: PollEvent<IO>) -> PollStep<IO, Result<T, TransportError>> {
        match self.0.turn(event) {
            PollTurn::Poll(task) => PollStep::Poll(task),
            PollTurn::Pending => PollStep::Return(Polled::Pending),
            _ => PollStep::Return(Polled::Ready(Err(TransportError::BrokenPipe))),
        }
    }

    fn begin<T>(&mut self, attempts: &mut usize, event: PollEvent<IO>) -> (r: Result<
        IO,
        PollStep<IO, Result<T, TransportError>>,
    >)
        requires
            *old(attempts) <= MAX_ATTEMPTS,
        ensures
            match old(self).0.turn(event) {
                PollTurn::Apply => {
                    &&& r matches Ok(io)
                    &&& io == old(self).0.turned(event)->Ready_0
                    &&& *final(attempts) == *old(attempts) + 1
                },
                _ => {
                    &&& r == Err::<IO, _>(old(self).idle::<T>(event))
                    &&& final(self).0 == old(self).0.turned(event)
                    &&& *final(attempts) == *old(attempts)
                },
            },
    {
        match self.0.poll_event(event) {
            PollTurn::Poll(task) => Err(PollStep::Poll(task)),
            PollTurn::Pending => Err(PollStep::Return(Polled::Pending)),
            PollTurn::Closed => Err(
                PollStep::Return(Polled::Ready(Err(TransportError::BrokenPipe))),
            ),
            PollTurn::Apply => {
                *attempts = *attempts + 1;
                match replace(&mut self.0, IoStreamState::Closed) {
                    IoStreamState::Ready(io) => Ok(io),
                    _ => Err(PollStep::Return(Polled::Ready(Err(TransportError::BrokenPipe)))),
                }
            },
        }
    }
}

impl<IO: OutputStream> OutputStreamReader<IO> {
    /// Polls to write of `buf` what the stream takes; how many bytes that is,
    /// where it succeeds. `attempts` counts how often the stream was used in
    /// this poll.
    ///
    /// What the stream's own methods return is for it to say.
    pub fn poll_write(&mut self, attempts: &mut usize, event: PollEvent<IO>, buf: &[u8]) -> (r:
        PollStep<IO, Result<usize, TransportError>>)
        requires
            *old(attempts) <= MAX_ATTEMPTS,
        ensures
            match old(self).0.turn(event) {
                PollTurn::Apply => {
                    &&& *final(attempts) == *old(attempts) + 1
                    &&& exists|
                        check: StreamResult<usize>,
                        mid: IO,
                        bytes: Bytes,
                        written: StreamResult<()>,
                        io: IO,
                        step: PollStep<IO, StreamResult<usize>>,
                    |
                        {
                            &&& #[trigger] writes_from(
                                old(self).0.turned(event)->Ready_0,
                                buf@,
                                check,
                                mid,
                                bytes,
                                written,
                                io,
                            )
                            &&& #[trigger] write_turn(
                                *final(attempts) as nat,
                                io,
                                write_polled(buf@, check, written),
                                step,
                                r,
                                final(self).0,
                            )
                        }
                },
                _ => {
                    &&& r == old(self).idle::<usize>(event)
                    &&& final(self).0 == old(self).0.turned(event)
                    &&& *final(attempts) == *old(attempts)
                },
            },
    {
        let mut io: IO = match self.begin(attempts, event) {
            Ok(io) => io,
            Err(step) => return step,
        };
        let ghost before = io;
        let ghost mid = io;
        let ghost chunk: Bytes = arbitrary();
        let ghost check: StreamResult<usize> = Ok(0);
        let ghost written: StreamResult<()> = Ok(());
        let polled: Polled<StreamResult<usize>> = if buf.len() == 0 {
            Polled::Ready(Ok(0))
        } else {
            let checked: StreamResult<usize> = io.check_write();
            proof {
                check = checked;
                mid = io;
            }
            match checked {
                Ok(permit) => {
                    if permit == 0 {
                        Polled::Pending
                    } else {
                        let count: usize = if buf.len() < permit {
                            buf.len()
                        } else {
                            permit
                        };
                        let data: Bytes = write_chunk(buf, permit);
                        proof {
                            chunk = data;
                        }
                        let result: StreamResult<()> = io.write(data);
                        proof {
                            written = result;
                        }
                        match result {
                            Ok(()) => Polled::Ready(Ok(count)),
                            Err(e) => Polled::Ready(Err(e)),
                        }
                    }
                },
                Err(e) => Polled::Ready(Err(e)),
            }
        };
        assert(polled == write_polled(buf@, check, written));
        assert(writes_from(before, buf@, check, mid, chunk, written, io));
        self.0 = IoStreamState::Ready(io);
        self.write_done(*attempts, polled)
    }

    /// Polls to flush the stream. That it is ready again, the next poll to
    /// write finds out.
    ///
    /// What the stream's own methods return is for it to say.
    pub fn poll_flush(&mut self, attempts: &mut usize, event: PollEvent<IO>) -> (r: PollStep<
        IO,
        Result<(), TransportError>,
    >)
        requires
            *old(attempts) <= MAX_ATTEMPTS,
        ensures
            match old(self).0.turn(event) {
                PollTurn::Apply => {
                    &&& *final(attempts) == *old(attempts) + 1
                    &&& exists|
                        io: IO,
                        flushed: StreamResult<()>,
                        step: PollStep<IO, StreamResult<()>>,
                    |
                        {
                            &&& #[trigger] write_turn(
                                *final(attempts) as nat,
                                io,
                                Polled::Ready(flushed),
                                step,
                                r,
                                final(self).0,
                            )
                            &&& IO::flushes(old(self).0.turned(event)->Ready_0, flushed, io)
                        }
                },
                _ => {
                    &&& r == old(self).idle::<()>(event)
                    &&& final(self).0 == old(self).0.turned(event)
                    &&& *final(attempts) == *old(attempts)
                },
            },
    {
        let mut io: IO = match self.begin(attempts, event) {
            Ok(io) => io,
            Err(step) => return step,
        };
        let flushed: StreamResult<()> = io.flush();
        self.0 = IoStreamState::Ready(io);
        self.write_done(*attempts, Polled::Ready(flushed))
    }

    /// Polls to shut the stream down. Streams know no shutdown: the best that
    /// can be done is to flush it, wait for that, and drop it.
    ///
    /// What the stream's own methods return is for it to say.
    pub fn poll_shutdown(&mut self, attempts: &mut usize, event: PollEvent<IO>) -> (r: PollStep<
        IO,
        Result<(), TransportError>,
    >)
        requires
            *old(attempts) <= MAX_ATTEMPTS,
        ensures
            r matches PollStep::Return(Polled::Ready(_)) ==> final(self).0 == IoStreamState::<
                IO,
            >::Closed,
            match old(self).0.turn(event) {
                PollTurn::Apply => {
                    &&& *final(attempts) == *old(attempts) + 1
                    &&& exists|
                        flushed: StreamResult<()>,
                        mid: IO,
                        check: StreamResult<usize>,
                        io: IO,
                        step: PollStep<IO, StreamResult<()>>,
                        state: IoStreamState<IO>,
                    |
                        {
                            &&& #[trigger] drains(
                                old(self).0.turned(event)->Ready_0,
                                flushed,
                                mid,
                                check,
                                io,
                            )
                            &&& #[trigger] write_turn(
                                *final(attempts) as nat,
                                io,
                                shutdown_polled(flushed, check),
                                step,
                                r,
                                state,
                            )
                            &&& !(r is Return) ==> final(self).0 == state
                        }
                },
                _ => {
                    &&& r == old(self).idle::<()>(event)
                    &&& !(r is Return) || r == PollStep::<IO, Result<(), TransportError>>::Return(
                        Polled::Pending,
                    ) ==> final(self).0 == old(self).0.turned(event)
                    &&& *final(attempts) == *old(attempts)
                },
            },
    {
        let begun: Result<IO, PollStep<IO, Result<(), TransportError>>> = self.begin(
            attempts,
            event,
        );
        let step: PollStep<IO, Result<(), TransportError>> = match begun {
            Err(step) => step,
            Ok(io) => {
                let mut io: IO = io;
                let ghost before = io;
                let ghost check: StreamResult<usize> = Ok(0);
                let flushed: StreamResult<()> = io.flush();
                let ghost result = flushed;
                let ghost mid = io;
                let polled: Polled<StreamResult<()>> = match flushed {
                    Ok(()) => {
                        let checked: StreamResult<usize> = io.check_write();
                        proof {
                            check = checked;
                        }
                        match checked {
                            Ok(permit) => if permit == 0 {
                                Polled::Pending
                            } else {
                                Polled::Ready(Ok(()))
                            },
                            Err(e) => Polled::Ready(Err(e)),
                        }
                    },
                    Err(e) => Polled::Ready(Err(e)),
                };
                assert(polled == shutdown_polled(result, check));
                assert(drains(before, result, mid, check, io));
                self.0 = IoStreamState::Ready(io);
                self.write_done(*attempts, polled)
            },
        };
        match step {
            PollStep::Return(Polled::Ready(r)) => {
                self.0 = IoStreamState::Closed;
                PollStep::Return(Polled::Ready(r))
            },
            other => other,
        }
    }
}

/// Whatever the stream does, a poll ends: a stream that makes no progress is
/// waited for after each of the first ten times that it is used, and the
/// eleventh time is an error after which the stream is gone.
pub proof fn law_poll_ends<IO, T>(
    attempt: nat,
    io: IO,
    polled: Polled<StreamResult<T>>,
    step: PollStep<IO, StreamResult<T>>,
    state: IoStreamState<IO>,
)
    requires
        settles(attempt, io, polled, step, state),
    ensures
        step is Wait <==> polled is Pending && attempt <= 10,
        attempt > 10 ==> step is Return,
        attempt > 10 && polled is Pending ==> state is Closed,
{
}

/// Once a poll has returned an error the stream is gone, and every later poll
/// finds it closed.
pub proof fn law_failed_stream_stays_closed<IO, T>(
    attempt: nat,
    io: IO,
    polled: Polled<StreamResult<T>>,
    step: PollStep<IO, StreamResult<T>>,
    state: IoStreamState<IO>,
)
    requires
        settles(attempt, io, polled, step, state),
        step matches PollStep::Return(Polled::Ready(Err(_))),
    ensures
        state == IoStreamState::<IO>::Closed,
        state.turn(PollEvent::Start) == PollTurn::Closed,
        state.turned(PollEvent::Start) == state,
{
}

/// A poll begins with the stream, where that is there; otherwise with the task
/// that waits for it, or it finds the stream closed. A task that was made is
/// kept and polled; the stream that it hands over is there to be used, and
/// while it hands over none, the stream is not ready. Nothing else changes.
pub proof fn law_polls_begin_with_what_is_there(
    state: &mut IoStreamState<u64>,
    event: PollEvent<u64>,
    r: PollTurn,
)
    requires
        call_ensures(IoStreamState::<u64>::poll_event, (state, event), r),
    ensures
        match event {
            PollEvent::Start => {
                &&& *final(state) == *old(state)
                &&& *old(state) is Ready <==> r is Apply
                &&& *old(state) is Closed <==> r is Closed
                &&& *old(state) matches IoStreamState::Pending(task) ==> r == PollTurn::Poll(task)
            },
            PollEvent::Waiting(task) => r == PollTurn::Poll(task) && *final(state)
                == IoStreamState::<u64>::Pending(task),
            PollEvent::Polled(Polled::Ready(io)) => r is Apply && *final(state)
                == IoStreamState::Ready(io),
            PollEvent::Polled(Polled::Pending) => r is Pending && *final(state) == *old(state),
        },
{
}

/// What using the stream came to is what the poll comes to, and the stream is
/// kept; an error is handed on, and the stream dropped. Where nothing came of
/// it the stream is waited for, but no more than ten times in one poll: then it
/// is broken.
pub proof fn law_polls_come_to_what_the_stream_does(
    state: &mut IoStreamState<u64>,
    attempt: usize,
    polled: Polled<StreamResult<u64>>,
    r: PollStep<u64, StreamResult<u64>>,
)
    requires
        *old(state) is Ready,
        call_ensures(IoStreamState::<u64>::poll_ready::<u64>, (state, attempt, polled), r),
    ensures
        match polled {
            Polled::Ready(Ok(value)) => {
                &&& r == PollStep::<u64, StreamResult<u64>>::Return(Polled::Ready(Ok(value)))
                &&& *final(state) == *old(state)
            },
            Polled::Ready(Err(e)) => {
                &&& r == PollStep::<u64, StreamResult<u64>>::Return(Polled::Ready(Err(e)))
                &&& *final(state) is Closed
            },
            Polled::Pending => {
                &&& *final(state) is Closed
                &&& attempt <= 10 ==> r == PollStep::<u64, StreamResult<u64>>::Wait(
                    (*old(state))->Ready_0,
                )
                &&& attempt > 10 ==> (r matches PollStep::Return(
                    Polled::Ready(Err(StreamError::Trap(m))),
                ) && m@ == "bad stream implementation"@)
            },
        },
{
}

/// `r` and `state` are what a read is told, and what is kept of the stream,
/// which is `io` now, where a read has returned `outcome`: bytes are handed on
/// and the stream kept; a closed stream is the end of what there is to be read;
/// where there are none yet the stream is waited for, as long as it is worth
/// it; any other error is handed on.
pub open spec fn tells_reader<IO>(
    attempt: int,
    io: IO,
    outcome: StreamResult<Bytes>,
    r: PollStep<IO, Result<Bytes, TransportError>>,
    state: IoStreamState<IO>,
) -> bool {
    match outcome {
        Ok(bytes) => if buffer::content(bytes).len() > 0 {
            &&& r matches PollStep::Return(Polled::Ready(Ok(given))) && given == bytes
            &&& state == IoStreamState::Ready(io)
        } else if attempt <= 10 {
            (r matches PollStep::Wait(given) && given == io) && state is Closed
        } else {
            &&& r matches PollStep::Return(
                Polled::Ready(Err(TransportError::Other(StreamError::Trap(_)))),
            )
            &&& state is Closed
        },
        Err(StreamError::Closed) => {
            &&& r matches PollStep::Return(Polled::Ready(Ok(given))) && buffer::content(
                given,
            ).len() == 0
            &&& state is Closed
        },
        Err(e) => {
            &&& r matches PollStep::Return(Polled::Ready(Err(TransportError::Other(f)))) && f == e
            &&& state is Closed
        },
    }
}

/// `r` and `state` are what a writer is told, and what is kept of the stream,
/// which is `io` now, where using it came to `polled`: what was done is told and
/// the stream kept; a closed stream is a broken pipe; where nothing came of it
/// the stream is waited for, as long as it is worth it; any other error is
/// handed on.
pub open spec fn tells_writer<IO, T>(
    attempt: int,
    io: IO,
    polled: Polled<StreamResult<T>>,
    r: PollStep<IO, Result<T, TransportError>>,
    state: IoStreamState<IO>,
) -> bool {
    match polled {
        Polled::Ready(Ok(value)) => {
            &&& r matches PollStep::Return(Polled::Ready(Ok(given))) && given == value
            &&& state == IoStreamState::Ready(io)
        },
        Polled::Ready(Err(StreamError::Closed)) => {
            &&& r matches PollStep::Return(Polled::Ready(Err(TransportError::BrokenPipe)))
            &&& state is Closed
        },
        Polled::Ready(Err(e)) => {
            &&& r matches PollStep::Return(Polled::Ready(Err(TransportError::Other(f)))) && f == e
            &&& state is Closed
        },
        Polled::Pending => if attempt <= 10 {
            (r matches PollStep::Wait(given) && given == io) && state is Closed
        } else {
            &&& r matches PollStep::Return(
                Polled::Ready(Err(TransportError::Other(StreamError::Trap(_)))),
            )
            &&& state is Closed
        },
    }
}

/// A reader and a writer begin with their stream, and take in what using it
/// came to.
pub proof fn law_readers_and_writers_tell_what_the_stream_does(
    io: u64,
    reader: InputStreamReader<u64>,
    writer: OutputStreamReader<u64>,
    reading: &mut InputStreamReader<u64>,
    writing: &mut OutputStreamReader<u64>,
    attempt: usize,
    outcome: StreamResult<Bytes>,
    polled: Polled<StreamResult<u64>>,
    r: PollStep<u64, Result<Bytes, TransportError>>,
    w: PollStep<u64, Result<u64, TransportError>>,
)
    requires
        call_ensures(InputStreamReader::<u64>::new, (io,), reader),
        call_ensures(OutputStreamReader::<u64>::new, (io,), writer),
        old(reading).0 == IoStreamState::Ready(io),
        old(writing).0 == IoStreamState::Ready(io),
        call_ensures(InputStreamReader::<u64>::read_done, (reading, attempt, outcome), r),
        call_ensures(OutputStreamReader::<u64>::write_done::<u64>, (writing, attempt, polled), w),
    ensures
        reader.0 == IoStreamState::Ready(io),
        writer.0 == IoStreamState::Ready(io),
        tells_reader(attempt as int, io, outcome, r, final(reading).0),
        tells_writer(attempt as int, io, polled, w, final(writing).0),
{
}

/// What is written at once is the beginning of the buffer: as much as is
/// permitted, or all of it.
pub proof fn law_chunks_are_the_next_bytes(buf: &[u8], permit: usize, r: Bytes)
    requires
        call_ensures(write_chunk, (buf, permit), r),
    ensures
        buffer::content(r).len() <= permit,
        buffer::content(r).len() <= buf@.len(),
        buffer::content(r).len() < permit ==> buffer::content(r).len() == buf@.len(),
        forall|i: int|
            0 <= i < buffer::content(r).len() ==> #[trigger] buffer::content(r)[i] == buf@[i],
{
}

/// A poll to read uses the stream where it is there, once, for as many bytes as
/// there is room for, and tells what that came to; where there is no room it
/// uses nothing. Otherwise the stream is waited for, or there is nothing more to
/// be read.
pub proof fn law_reading_asks_the_stream<IO: InputStream>(
    reader: &mut InputStreamReader<IO>,
    attempts: &mut usize,
    event: PollEvent<IO>,
    remaining: usize,
    r: PollStep<IO, Result<Bytes, TransportError>>,
)
    requires
        *old(attempts) <= 10,
        call_ensures(
            InputStreamReader::<IO>::poll_read,
            (reader, attempts, event, remaining),
            r,
        ),
    ensures
        ({
            match stream_there(old(reader).0, event) {
                Some(io) => {
                    &&& *final(attempts) == *old(attempts) + 1
                    &&& if remaining == 0 {
                        &&& r matches PollStep::Return(Polled::Ready(Ok(bytes)))
                            && buffer::content(bytes).len() == 0
                        &&& final(reader).0 == IoStreamState::Ready(io)
                    } else {
                        exists|outcome: StreamResult<Bytes>, after: IO|
                            {
                                &&& #[trigger] IO::reads(io, remaining, outcome, after)
                                &&& tells_reader(
                                    *old(attempts) + 1,
                                    after,
                                    outcome,
                                    r,
                                    final(reader).0,
                                )
                            }
                    }
                },
                None => {
                    &&& *final(attempts) == *old(attempts)
                    &&& match (event, old(reader).0) {
                        (PollEvent::Start, IoStreamState::Closed) => {
                            &&& r matches PollStep::Return(Polled::Ready(Ok(bytes)))
                                && buffer::content(bytes).len() == 0
                            &&& final(reader).0 is Closed
                        },
                        (PollEvent::Start, IoStreamState::Pending(task)) => {
                            (r matches PollStep::Poll(t) && t == task) && final(reader).0 == old(
                                reader,
                            ).0
                        },
                        (PollEvent::Waiting(task), _) => {
                            &&& r matches PollStep::Poll(t) && t == task
                            &&& final(reader).0 == IoStreamState::<IO>::Pending(task)
                        },
                        _ => {
                            &&& r matches PollStep::Return(Polled::Pending)
                            &&& final(reader).0 == old(reader).0
                        },
                    }
                },
            }
        }),
{
    if let Some(io) = stream_there(old(reader).0, event) {
        if remaining > 0 {
            let (after, outcome, step) = choose|
                after: IO,
                outcome: StreamResult<Bytes>,
                step: PollStep<IO, StreamResult<Bytes>>,
            |
                {
                    &&& #[trigger] read_turn(
                        *final(attempts) as nat,
                        after,
                        outcome,
                        step,
                        r,
                        final(reader).0,
                    )
                    &&& IO::reads(io, remaining, outcome, after)
                };
            assert(IO::reads(io, remaining, outcome, after));
        }
    }
}

/// What a writer does where its stream is not there to be used: it is waited
/// for, or it is gone.
pub open spec fn waits_for_writer<IO, T>(
    before: IoStreamState<IO>,
    event: PollEvent<IO>,
    r: PollStep<IO, Result<T, TransportError>>,
) -> bool {
    match (event, before) {
        (PollEvent::Start, IoStreamState::Pending(task)) => r matches PollStep::Poll(t) && t
            == task,
        (PollEvent::Waiting(task), _) => r matches PollStep::Poll(t) && t == task,
        (PollEvent::Polled(Polled::Pending), _) => r matches PollStep::Return(Polled::Pending),
        _ => r matches PollStep::Return(Polled::Ready(Err(TransportError::BrokenPipe))),
    }
}

/// The stream that a poll finds to be used, if any.
pub open spec fn stream_there<IO>(before: IoStreamState<IO>, event: PollEvent<IO>) -> Option<IO> {
    match (event, before) {
        (PollEvent::Start, IoStreamState::Ready(io)) => Some(io),
        (PollEvent::Polled(Polled::Ready(io)), _) => Some(io),
        _ => None,
    }
}

/// A poll to write asks the stream, where it is there, how much it takes, and
/// hands it just so many of the bytes, from the first on; how many that were is
/// what it tells. Nothing is asked for no bytes. A stream that takes none yet is
/// waited for.
pub proof fn law_writing_asks_the_stream<IO: OutputStream>(
    writer: &mut OutputStreamReader<IO>,
    attempts: &mut usize,
    event: PollEvent<IO>,
    buf: &[u8],
    r: PollStep<IO, Result<usize, TransportError>>,
)
    requires
        *old(attempts) <= 10,
        call_ensures(OutputStreamReader::<IO>::poll_write, (writer, attempts, event, buf), r),
    ensures
        match stream_there(old(writer).0, event) {
            None => {
                &&& *final(attempts) == *old(attempts)
                &&& waits_for_writer(old(writer).0, event, r)
                &&& r matches PollStep::Return(Polled::Ready(_)) ==> final(writer).0 is Closed
            },
            Some(io) => {
                &&& *final(attempts) == *old(attempts) + 1
                &&& buf@.len() == 0 ==> {
                    &&& r matches PollStep::Return(Polled::Ready(Ok(n))) && n == 0
                    &&& final(writer).0 == IoStreamState::Ready(io)
                }
                &&& buf@.len() > 0 ==> exists|check: StreamResult<usize>, mid: IO|
                    {
                        &&& #[trigger] IO::checks(io, check, mid)
                        &&& match check {
                            Err(e) => tells_writer::<IO, usize>(
                                *old(attempts) + 1,
                                mid,
                                Polled::Ready(Err(e)),
                                r,
                                final(writer).0,
                            ),
                            Ok(0usize) => tells_writer::<IO, usize>(
                                *old(attempts) + 1,
                                mid,
                                Polled::Pending,
                                r,
                                final(writer).0,
                            ),
                            Ok(permit) => exists|
                                bytes: Bytes,
                                written: StreamResult<()>,
                                after: IO,
                            |
                                {
                                    &&& #[trigger] IO::writes(mid, bytes, written, after)
                                    &&& 0 < buffer::content(bytes).len() <= permit
                                    &&& buffer::content(bytes).len() < permit ==> buffer::content(
                                        bytes,
                                    ).len() == buf@.len()
                                    &&& buffer::content(bytes).is_prefix_of(buf@)
                                    &&& tells_writer::<IO, usize>(
                                        *old(attempts) + 1,
                                        after,
                                        Polled::Ready(
                                            match written {
                                                Ok(_) => Ok(buffer::content(bytes).len() as usize),
                                                Err(e) => Err(e),
                                            },
                                        ),
                                        r,
                                        final(writer).0,
                                    )
                                },
                        }
                    }
            },
        },
{
    if let Some(io) = stream_there(old(writer).0, event) {
        if buf@.len() > 0 {
            let (check, mid, bytes, written, after, step) = choose|
                check: StreamResult<usize>,
                mid: IO,
                bytes: Bytes,
                written: StreamResult<()>,
                after: IO,
                step: PollStep<IO, StreamResult<usize>>,
            |
                {
                    &&& #[trigger] writes_from(io, buf@, check, mid, bytes, written, after)
                    &&& #[trigger] write_turn(
                        *final(attempts) as nat,
                        after,
                        write_polled(buf@, check, written),
                        step,
                        r,
                        final(writer).0,
                    )
                };
            assert(IO::checks(io, check, mid));
            if let Ok(permit) = check {
                if permit > 0 {
                    assert(IO::writes(mid, bytes, written, after));
                }
            }
        }
    }
}

/// A poll to flush has the stream flushed, where it is there, and tells what
/// that came to.
pub proof fn law_flushing_asks_the_stream<IO: OutputStream>(
    writer: &mut OutputStreamReader<IO>,
    attempts: &mut usize,
    event: PollEvent<IO>,
    r: PollStep<IO, Result<(), TransportError>>,
)
    requires
        *old(attempts) <= 10,
        call_ensures(OutputStreamReader::<IO>::poll_flush, (writer, attempts, event), r),
    ensures
        match stream_there(old(writer).0, event) {
            None => {
                &&& *final(attempts) == *old(attempts)
                &&& waits_for_writer(old(writer).0, event, r)
            },
            Some(io) => {
                &&& *final(attempts) == *old(attempts) + 1
                &&& exists|flushed: StreamResult<()>, after: IO|
                    {
                        &&& #[trigger] IO::flushes(io, flushed, after)
                        &&& tells_writer(
                            *old(attempts) + 1,
                            after,
                            Polled::Ready(flushed),
                            r,
                            final(writer).0,
                        )
                    }
            },
        },
{
    if let Some(io) = stream_there(old(writer).0, event) {
        let (after, flushed, step) = choose|
            after: IO,
            flushed: StreamResult<()>,
            step: PollStep<IO, StreamResult<()>>,
        |
            {
                &&& #[trigger] write_turn(
                    *final(attempts) as nat,
                    after,
                    Polled::Ready(flushed),
                    step,
                    r,
                    final(writer).0,
                )
                &&& IO::flushes(io, flushed, after)
            };
        assert(IO::flushes(io, flushed, after));
    }
}

/// A poll to shut down has the stream flushed, where it is there, and waits
/// until that is done, which is when the stream takes something again. Then, or
/// where it fails, it is over and the stream is gone.
pub proof fn law_shutting_down_flushes_the_stream<IO: OutputStream>(
    writer: &mut OutputStreamReader<IO>,
    attempts: &mut usize,
    event: PollEvent<IO>,
    r: PollStep<IO, Result<(), TransportError>>,
)
    requires
        *old(attempts) <= 10,
        call_ensures(OutputStreamReader::<IO>::poll_shutdown, (writer, attempts, event), r),
    ensures
        r matches PollStep::Return(Polled::Ready(_)) ==> final(writer).0 is Closed,
        match stream_there(old(writer).0, event) {
            None => {
                &&& *final(attempts) == *old(attempts)
                &&& waits_for_writer(old(writer).0, event, r)
            },
            Some(io) => {
                &&& *final(attempts) == *old(attempts) + 1
                &&& exists|flushed: StreamResult<()>, mid: IO|
                    {
                        &&& #[trigger] IO::flushes(io, flushed, mid)
                        &&& match flushed {
                            Err(StreamError::Closed) => r matches PollStep::Return(
                                Polled::Ready(Err(TransportError::BrokenPipe)),
                            ),
                            Err(e) => r matches PollStep::Return(
                                Polled::Ready(Err(TransportError::Other(f))),
                            ) && f == e,
                            Ok(_) => exists|check: StreamResult<usize>, after: IO|
                                {
                                    &&& #[trigger] IO::checks(mid, check, after)
                                    &&& match check {
                                        Ok(0usize) => r matches PollStep::Wait(given) && given
                                            == after || *old(attempts) == 10 && r is Return,
                                        Ok(_) => r matches PollStep::Return(Polled::Ready(Ok(_))),
                                        Err(StreamError::Closed) => r matches PollStep::Return(
                                            Polled::Ready(Err(TransportError::BrokenPipe)),
                                        ),
                                        Err(e) => r matches PollStep::Return(
                                            Polled::Ready(Err(TransportError::Other(f))),
                                        ) && f == e,
                                    }
                                },
                        }
                    }
            },
        },
{
    if let Some(io) = stream_there(old(writer).0, event) {
        let (flushed, mid, check, after, step, state) = choose|
            flushed: StreamResult<()>,
            mid: IO,
            check: StreamResult<usize>,
            after: IO,
            step: PollStep<IO, StreamResult<()>>,
            state: IoStreamState<IO>,
        |
            {
                &&& #[trigger] drains(io, flushed, mid, check, after)
                &&& #[trigger] write_turn(
                    *final(attempts) as nat,
                    after,
                    shutdown_polled(flushed, check),
                    step,
                    r,
                    state,
                )
                &&& !(r is Return) ==> final(writer).0 == state
            };
        assert(IO::flushes(io, flushed, mid));
        if flushed is Ok {
            assert(IO::checks(mid, check, after));
        }
    }
}

} // verus!
