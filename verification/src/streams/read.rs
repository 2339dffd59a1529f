//! An input stream over an asynchronous resource.
use super::try_io;
use super::Task;
use crate::buffer;
use crate::error::{replace, Failure, IoError, IoErrorKind, Polled, StreamError, StreamResult};
use bytes::{Bytes, BytesMut};
use vstd::prelude::*;

verus! {

#[derive(Debug)]
pub enum AsyncReadState<IO> {
    /// The resource, and what was read from it and not yet handed out.
    Ready(IO, Bytes),
    /// A task that holds the resource reads from it.
    Reading(Task),
    /// The task was told to wrap up; the error is for the guest.
    Canceling(Task, StreamError),
    /// The error is for the guest, once.
    Closed(StreamError),
}

/// The state of a stream, as far as it matters.
#[verifier::ext_equal]
pub enum ReadStateView<IO> {
    Ready(IO, Seq<u8>),
    Reading(Task),
    Canceling(Task, StreamError),
    Closed(StreamError),
}

impl<IO> View for AsyncReadState<IO> {
    type V = ReadStateView<IO>;

    open spec fn view(&self) -> ReadStateView<IO> {
        match self {
            AsyncReadState::Ready(io, bytes) => ReadStateView::Ready(*io, buffer::content(*bytes)),
            AsyncReadState::Reading(task) => ReadStateView::Reading(*task),
            AsyncReadState::Canceling(task, e) => ReadStateView::Canceling(*task, *e),
            AsyncReadState::Closed(e) => ReadStateView::Closed(*e),
        }
    }
}

/// What a background read has come to: the resource and what was read.
pub type ReadOutcome<IO> = Result<(IO, Bytes), IoError>;

/// What is to be done for a read.
#[derive(Debug)]
pub enum ReadStep {
    /// Nothing: this is the result.
    Done(StreamResult<Bytes>),
    /// Attempt to fill the buffer from the resource, without waiting.
    Try(BytesMut),
}

/// What is to be done once a read was attempted.
#[derive(Debug)]
pub enum ReadAttempt<IO> {
    /// Nothing: this is the result.
    Done(StreamResult<Bytes>),
    /// Fill the buffer from the resource in a background task.
    Spawn(IO, BytesMut),
}

/// What a read gives the guest, or how many bytes are to be read for it.
pub enum ReadStepView {
    Done(StreamResult<Seq<u8>>),
    Try(nat),
}

/// What an attempt to read gives the guest, or what is to be filled for it.
pub enum ReadAttemptView<IO> {
    Done(StreamResult<Seq<u8>>),
    Spawn(IO, Seq<u8>),
}

impl<IO> ReadStateView<IO> {
    /// The state once the background task, if there is one, was polled.
    pub open spec fn polled(self, polled: Polled<ReadOutcome<IO>>) -> ReadStateView<IO> {
        match (self, polled) {
            (ReadStateView::Reading(_), Polled::Ready(Ok((io, bytes)))) => if buffer::content(
                bytes,
            ).len() == 0 {
                ReadStateView::Closed(StreamError::Closed)
            } else {
                ReadStateView::Ready(io, buffer::content(bytes))
            },
            (ReadStateView::Reading(_), Polled::Ready(Err(e))) => ReadStateView::Closed(
                StreamError::LastOperationFailed(Failure::Io(e)),
            ),
            (ReadStateView::Canceling(_, error), Polled::Ready(_)) => ReadStateView::Closed(error),
            _ => self,
        }
    }

    /// Nothing is pending: there is something to read, or the stream is
    /// closed.
    pub open spec fn is_ready(self) -> bool {
        self is Ready || self is Closed
    }

    /// What a read of `size` bytes comes to in this state.
    pub open spec fn read(self, size: usize, max_read: usize) -> ReadStepView {
        match self {
            ReadStateView::Ready(_, bytes) => if size == 0 {
                ReadStepView::Done(Ok(Seq::empty()))
            } else if bytes.len() > 0 {
                ReadStepView::Done(Ok(bytes.take(vstd::math::min(bytes.len() as int, size as int))))
            } else {
                ReadStepView::Try(vstd::math::min(max_read as int, size as int) as nat)
            },
            ReadStateView::Reading(_) | ReadStateView::Canceling(..) => ReadStepView::Done(
                Ok(Seq::empty()),
            ),
            ReadStateView::Closed(e) => ReadStepView::Done(Err(e)),
        }
    }

    /// The state that a read of `size` bytes leaves behind.
    pub open spec fn after_read(self, size: usize) -> ReadStateView<IO> {
        match self {
            ReadStateView::Ready(io, bytes) => ReadStateView::Ready(
                io,
                bytes.skip(vstd::math::min(bytes.len() as int, size as int)),
            ),
            ReadStateView::Closed(_) => ReadStateView::Closed(StreamError::Closed),
            _ => self,
        }
    }

    /// What an attempt to read comes to that has filled `buf` as far as
    /// `outcome` says.
    pub open spec fn attempt(self, outcome: Result<usize, IoError>, buf: Seq<u8>) -> ReadAttemptView<
        IO,
    > {
        match outcome {
            Ok(n) => ReadAttemptView::Done(
                if n == 0 {
                    Err(StreamError::Closed)
                } else {
                    Ok(buf.take(n as int))
                },
            ),
            Err(e) => if e.kind == IoErrorKind::WouldBlock {
                ReadAttemptView::Spawn(self->Ready_0, buf)
            } else {
                ReadAttemptView::Done(Err(StreamError::LastOperationFailed(Failure::Io(e))))
            },
        }
    }

    /// The state that an attempt to read leaves behind. Where it has to wait,
    /// the resource belongs to whoever goes on with it.
    pub open spec fn after_attempt(self, outcome: Result<usize, IoError>) -> ReadStateView<IO> {
        if outcome matches Ok(n) && n > 0 {
            self
        } else {
            ReadStateView::Closed(StreamError::Closed)
        }
    }

    /// The state that a cancellation leaves behind.
    pub open spec fn canceled(self, error: StreamError) -> ReadStateView<IO> {
        match self {
            ReadStateView::Reading(task) => ReadStateView::Canceling(task, error),
            ReadStateView::Ready(..) => ReadStateView::Closed(error),
            _ => self,
        }
    }
}

impl ReadStep {
    /// `self` is what `step` says.
    pub open spec fn is(self, step: ReadStepView) -> bool {
        match (self, step) {
            (ReadStep::Done(Ok(bytes)), ReadStepView::Done(Ok(seq))) => buffer::content(bytes)
                == seq,
            (ReadStep::Done(Err(e)), ReadStepView::Done(Err(f))) => e == f,
            (ReadStep::Try(buf), ReadStepView::Try(n)) => buffer::content_mut(buf) == Seq::new(
                n,
                |i: int| 0u8,
            ),
            _ => false,
        }
    }
}

impl<IO> ReadAttempt<IO> {
    /// `self` is what `attempt` says.
    pub open spec fn is(self, attempt: ReadAttemptView<IO>) -> bool {
        match (self, attempt) {
            (ReadAttempt::Done(Ok(bytes)), ReadAttemptView::Done(Ok(seq))) => buffer::content(bytes)
                == seq,
            (ReadAttempt::Done(Err(e)), ReadAttemptView::Done(Err(f))) => e == f,
            (ReadAttempt::Spawn(io, buf), ReadAttemptView::Spawn(resource, seq)) => {
                io == resource && buffer::content_mut(buf) == seq
            },
            _ => false,
        }
    }
}

/// An input stream over a resource of type `IO`. Where a read has to wait, a
/// background task waits for it.
#[derive(Debug)]
pub struct AsyncReadStream<IO> {
    pub state: AsyncReadState<IO>,
    pub max_read: usize,
}

/// Ends a read in the background: the resource, and what was read from it.
pub fn background_read<IO>(io: IO, buf: BytesMut, r: Result<usize, IoError>) -> (outcome:
    ReadOutcome<IO>)
    requires
        r matches Ok(n) ==> n <= buffer::content_mut(buf).len(),
    ensures
        match r {
            Ok(n) => outcome matches Ok((inner, bytes)) && inner == io && buffer::content(bytes)
                == buffer::content_mut(buf).take(n as int),
            Err(e) => outcome == Err::<(IO, Bytes), IoError>(e),
        },
{
    let mut buf: BytesMut = buf;
    match r {
        Ok(bytes_read) => {
            buf.truncate(bytes_read);
            Ok((io, buf.freeze()))
        },
        Err(e) => Err(e),
    }
}

impl<IO> AsyncReadStream<IO> {
    pub fn new(max_read: usize, resource: IO) -> (r: AsyncReadStream<IO>)
        ensures
            r.state@ == ReadStateView::Ready(resource, Seq::empty()),
            r.max_read == max_read,
    {
        AsyncReadStream { state: AsyncReadState::Ready(resource, buffer::empty()), max_read }
    }

    /// The task to poll before a read or for readiness, if any.
    pub fn task(&self) -> (r: Option<Task>)
        ensures
            r == match self.state@ {
                ReadStateView::Reading(task) => Some(task),
                ReadStateView::Canceling(task, _) => Some(task),
                _ => None,
            },
    {
        match &self.state {
            AsyncReadState::Reading(task) => Some(*task),
            AsyncReadState::Canceling(task, _) => Some(*task),
            _ => None,
        }
    }

    /// Reads up to `size` bytes. `task` is what polling the background task,
    /// if there is one, came to. What is to be read at once has to fit into a
    /// vector.
    pub fn read(&mut self, size: usize, task: Polled<ReadOutcome<IO>>) -> (r: ReadStep)
        requires
            old(self).state@.polled(task).read(size, old(self).max_read) matches ReadStepView::Try(
                n,
            ) ==> n <= isize::MAX,
        ensures
            r.is(old(self).state@.polled(task).read(size, old(self).max_read)),
            final(self).state@ == old(self).state@.polled(task).after_read(size),
            final(self).max_read == old(self).max_read,
    {
        // Attempt to join finished background tasks first:
        let _ = self.poll_ready(task);
        let max_read: usize = self.max_read;
        match replace(&mut self.state, AsyncReadState::Closed(StreamError::Closed)) {
            AsyncReadState::Ready(io, bytes) => {
                let mut bytes: Bytes = bytes;
                if size == 0 {
                    self.state = AsyncReadState::Ready(io, bytes);
                    proof {
                        let held = buffer::content(bytes);
                        assert(held.skip(0) =~= held);
                    }
                    return ReadStep::Done(Ok(buffer::empty()));
                }
                // Attempt to read from the in-memory buffer:
                let held: usize = bytes.len();
                let at: usize = if held < size {
                    held
                } else {
                    size
                };
                let chunk: Bytes = bytes.split_to(at);
                self.state = AsyncReadState::Ready(io, bytes);
                if !chunk.is_empty() {
                    return ReadStep::Done(Ok(chunk));
                }
                let len: usize = if max_read < size {
                    max_read
                } else {
                    size
                };
                ReadStep::Try(BytesMut::zeroed(len))
            },
            AsyncReadState::Closed(e) => ReadStep::Done(Err(e)),
            pending => {
                self.state = pending;
                ReadStep::Done(Ok(buffer::empty()))
            },
        }
    }

    /// Takes in what the attempt to fill `buf` came to.
    pub fn read_attempted(&mut self, buf: BytesMut, polled: Polled<Result<usize, IoError>>) -> (r:
        ReadAttempt<IO>)
        requires
            old(self).state@ is Ready,
            polled matches Polled::Ready(Ok(n)) ==> n <= buffer::content_mut(buf).len(),
        ensures
            final(self).max_read == old(self).max_read,
            r.is(old(self).state@.attempt(super::attempted(polled), buffer::content_mut(buf))),
            final(self).state@ == old(self).state@.after_attempt(super::attempted(polled)),
    {
        let mut buf: BytesMut = buf;
        match try_io(polled) {
            Ok(bytes_read) => {
                if bytes_read == 0 {
                    self.state = AsyncReadState::Closed(StreamError::Closed);
                    return ReadAttempt::Done(Err(StreamError::Closed));
                }
                buf.truncate(bytes_read);
                ReadAttempt::Done(Ok(buf.freeze()))
            },
            Err(e) => {
                let taken: AsyncReadState<IO> = replace(
                    &mut self.state,
                    AsyncReadState::Closed(StreamError::Closed),
                );
                match taken {
                    AsyncReadState::Ready(io, _) => if e.kind == IoErrorKind::WouldBlock {
                        // Perform read in the background.
                        ReadAttempt::Spawn(io, buf)
                    } else {
                        ReadAttempt::Done(Err(StreamError::LastOperationFailed(Failure::Io(e))))
                    },
                    _ => ReadAttempt::Done(
                        Err(StreamError::LastOperationFailed(Failure::Io(e))),
                    ),
                }
            },
        }
    }

    /// The read goes on in `task`.
    pub fn read_spawned(&mut self, task: Task) -> (r: StreamResult<Bytes>)
        ensures
            r matches Ok(bytes) && buffer::content(bytes).len() == 0,
            final(self).state@ == ReadStateView::<IO>::Reading(task),
            final(self).max_read == old(self).max_read,
    {
        self.state = AsyncReadState::Reading(task);
        Ok(buffer::empty())
    }

    /// Initiate cancellation of the stream. This stops the stream from
    /// accepting new reads. Any active read operation is to be aborted and
    /// pending buffers are dropped; the task to abort is returned. The first
    /// following read that finds the operation ended returns the provided
    /// `error` value. If the stream is already closed, this function does
    /// nothing.
    ///
    /// Cancellation is not guaranteed to finish instantly. Use
    /// [`AsyncReadStream::poll_ready`] to wait for its completion.
    pub fn cancel(&mut self, error: StreamError) -> (r: Option<Task>)
        ensures
            r == match old(self).state@ {
                ReadStateView::Reading(task) => Some(task),
                _ => None,
            },
            final(self).state@ == old(self).state@.canceled(error),
            final(self).max_read == old(self).max_read,
    {
        match replace(&mut self.state, AsyncReadState::Closed(StreamError::Closed)) {
            AsyncReadState::Reading(task) => {
                self.state = AsyncReadState::Canceling(task, error);
                Some(task)
            },
            AsyncReadState::Ready(..) => {
                self.state = AsyncReadState::Closed(error);
                None
            },
            unchanged => {
                self.state = unchanged;
                None
            },
        }
    }

    /// Poll the stream to be ready for reading or to be closed. `task` is
    /// what polling the background task, if there is one, came to.
    pub fn poll_ready(&mut self, task: Polled<ReadOutcome<IO>>) -> (r: Polled<()>)
        ensures
            final(self).state@ == old(self).state@.polled(task),
            final(self).max_read == old(self).max_read,
            r == if old(self).state@.is_ready() || task is Ready {
                Polled::Ready(())
            } else {
                Polled::Pending
            },
    {
        match replace(&mut self.state, AsyncReadState::Closed(StreamError::Closed)) {
            AsyncReadState::Reading(handle) => match task {
                Polled::Pending => {
                    self.state = AsyncReadState::Reading(handle);
                    return Polled::Pending;
                },
                Polled::Ready(Ok((io, bytes))) => {
                    self.state = if bytes.is_empty() {
                        AsyncReadState::Closed(StreamError::Closed)
                    } else {
                        AsyncReadState::Ready(io, bytes)
                    };
                },
                Polled::Ready(Err(e)) => {
                    self.state = AsyncReadState::Closed(
                        StreamError::LastOperationFailed(Failure::Io(e)),
                    );
                },
            },
            AsyncReadState::Canceling(handle, error) => match task {
                Polled::Pending => {
                    self.state = AsyncReadState::Canceling(handle, error);
                    return Polled::Pending;
                },
                Polled::Ready(_) => {
                    self.state = AsyncReadState::Closed(error);
                },
            },
            unchanged => {
                self.state = unchanged;
            },
        }
        Polled::Ready(())
    }
}

/// After a cancellation with `error`, nothing more is read. While the read
/// that was active has not ended, a read gives no bytes; the first one that
/// finds it ended gives `error`, and each one from then on finds the stream
/// closed.
pub proof fn law_canceled_read_gives_error_once<IO>(
    state: ReadStateView<IO>,
    error: StreamError,
    pending: Polled<ReadOutcome<IO>>,
    ended: Polled<ReadOutcome<IO>>,
    later: Polled<ReadOutcome<IO>>,
    size: usize,
    max_read: usize,
)
    requires
        state is Ready || state is Reading,
        pending is Pending,
        ended is Ready,
    ensures
        ({
            let canceled = state.canceled(error);
            &&& state is Reading ==> {
                &&& canceled.polled(pending).read(size, max_read) == ReadStepView::Done(
                    Ok(Seq::empty()),
                )
                &&& canceled.polled(pending).after_read(size) == canceled
            }
            &&& canceled.polled(ended).read(size, max_read) == ReadStepView::Done(Err(error))
            &&& canceled.polled(ended).after_read(size).polled(later).read(size, max_read)
                == ReadStepView::Done(Err(StreamError::Closed))
            &&& canceled.polled(ended).after_read(size).polled(later).after_read(size)
                == canceled.polled(ended).after_read(size)
        }),
{
}

/// A closed stream stays closed, whatever is done with it: its error is given
/// to the first read, and a cancellation does not change it.
pub proof fn law_closed_read_stream_stays_closed<IO>(
    first: StreamError,
    error: StreamError,
    task: Polled<ReadOutcome<IO>>,
    size: usize,
    max_read: usize,
)
    ensures
        ({
            let state = ReadStateView::<IO>::Closed(first);
            &&& state.polled(task) == state
            &&& state.canceled(error) == state
            &&& state.read(size, max_read) == ReadStepView::Done(Err(first))
            &&& state.after_read(size) == ReadStateView::<IO>::Closed(StreamError::Closed)
        }),
{
}

/// What a background read has brought is handed out in order and in full:
/// what a read gives, and then what it leaves, is what was there.
pub proof fn law_buffered_bytes_are_kept<IO>(io: IO, bytes: Seq<u8>, size: usize, max_read: usize)
    requires
        bytes.len() > 0,
        size > 0,
    ensures
        ({
            let state = ReadStateView::Ready(io, bytes);
            &&& state.read(size, max_read) matches ReadStepView::Done(Ok(chunk))
            &&& chunk.len() > 0
            &&& chunk.len() <= size
            &&& state.after_read(size) matches ReadStateView::Ready(_, rest)
            &&& chunk + rest == bytes
        }),
{
    let n = vstd::math::min(bytes.len() as int, size as int);
    assert(bytes.take(n) + bytes.skip(n) =~= bytes);
}

/// What is done with a stream that is not cancelled.
pub enum ReadEvent<IO> {
    /// It is polled, with what polling its task came to.
    Poll(Polled<ReadOutcome<IO>>),
    /// It is read, with what polling its task came to. Where that takes an
    /// attempt, `outcome` and `buf` are what it came to; where the attempt has
    /// to wait, `task` goes on with it.
    Read {
        size: usize,
        polled: Polled<ReadOutcome<IO>>,
        outcome: Result<usize, IoError>,
        buf: Seq<u8>,
        task: Task,
    },
}

/// A stream from its beginning on: its state, the bytes that its reads have
/// given so far, those that its resource has produced so far, and how many the
/// last task was to read at most.
#[verifier::ext_equal]
pub struct ReadHistory<IO> {
    pub state: ReadStateView<IO>,
    pub given: Seq<u8>,
    pub produced: Seq<u8>,
    pub asked: nat,
}

impl<IO> ReadHistory<IO> {
    /// A new stream.
    pub open spec fn begin(resource: IO) -> ReadHistory<IO> {
        ReadHistory {
            state: ReadStateView::Ready(resource, Seq::empty()),
            given: Seq::empty(),
            produced: Seq::empty(),
            asked: 0,
        }
    }

    /// What was produced and not given.
    pub open spec fn held(self) -> Seq<u8> {
        match self.state {
            ReadStateView::Ready(_, bytes) => bytes,
            _ => Seq::empty(),
        }
    }

    /// A task reads no more than it was to.
    pub open spec fn allows_outcome(self, polled: Polled<ReadOutcome<IO>>) -> bool {
        match (self.state, polled) {
            (ReadStateView::Reading(_), Polled::Ready(Ok((_, bytes)))) => buffer::content(
                bytes,
            ).len() <= self.asked,
            _ => true,
        }
    }

    /// The task was polled. What it has read, the resource has produced.
    pub open spec fn polled(self, polled: Polled<ReadOutcome<IO>>) -> ReadHistory<IO> {
        ReadHistory {
            state: self.state.polled(polled),
            produced: match (self.state, polled) {
                (
                    ReadStateView::Reading(_),
                    Polled::Ready(Ok((_, bytes))),
                ) => self.produced + buffer::content(bytes),
                _ => self.produced,
            },
            ..self
        }
    }

    /// A resource fills no more than the buffer that it is given.
    pub open spec fn allows(self, event: ReadEvent<IO>, max_read: usize) -> bool {
        match event {
            ReadEvent::Poll(polled) => self.allows_outcome(polled),
            ReadEvent::Read { size, polled, outcome, buf, .. } => {
                &&& self.allows_outcome(polled)
                &&& self.state.polled(polled).read(size, max_read) matches ReadStepView::Try(n)
                    ==> buf.len() == n && (outcome matches Ok(k) ==> k <= n)
            },
        }
    }

    /// The stream after an event.
    pub open spec fn after(self, event: ReadEvent<IO>, max_read: usize) -> ReadHistory<IO> {
        match event {
            ReadEvent::Poll(polled) => self.polled(polled),
            ReadEvent::Read { size, polled, outcome, buf, task } => {
                let ready = self.polled(polled);
                let state = ready.state.after_read(size);
                match ready.state.read(size, max_read) {
                    ReadStepView::Done(Ok(bytes)) => ReadHistory {
                        state,
                        given: ready.given + bytes,
                        ..ready
                    },
                    ReadStepView::Done(Err(_)) => ReadHistory { state, ..ready },
                    ReadStepView::Try(n) => match state.attempt(outcome, buf) {
                        ReadAttemptView::Done(Ok(bytes)) => ReadHistory {
                            state: state.after_attempt(outcome),
                            given: ready.given + bytes,
                            produced: ready.produced + bytes,
                            ..ready
                        },
                        ReadAttemptView::Done(Err(_)) => ReadHistory {
                            state: state.after_attempt(outcome),
                            ..ready
                        },
                        ReadAttemptView::Spawn(_, _) => ReadHistory {
                            state: ReadStateView::Reading(task),
                            asked: n,
                            ..ready
                        },
                    },
                }
            },
        }
    }

    /// The stream after some events.
    pub open spec fn run(self, events: Seq<ReadEvent<IO>>, max_read: usize) -> ReadHistory<IO>
        decreases events.len(),
    {
        if events.len() == 0 {
            self
        } else {
            self.run(events.drop_last(), max_read).after(events.last(), max_read)
        }
    }

    /// Each of the events is one that can happen.
    pub open spec fn runs(self, events: Seq<ReadEvent<IO>>, max_read: usize) -> bool
        decreases events.len(),
    {
        events.len() == 0 || {
            &&& self.runs(events.drop_last(), max_read)
            &&& self.run(events.drop_last(), max_read).allows(events.last(), max_read)
        }
    }

    /// Nothing is lost, repeated or reordered, and no more is held than may be
    /// read at once.
    pub open spec fn is_faithful(self, max_read: usize) -> bool {
        &&& self.given + self.held() == self.produced
        &&& self.held().len() <= max_read
        &&& self.state is Reading ==> self.asked <= max_read
    }
}

/// An event leaves the history of a stream faithful, and gives no more than was
/// asked for or may be read at once.
proof fn lemma_event_is_faithful<IO>(
    history: ReadHistory<IO>,
    event: ReadEvent<IO>,
    max_read: usize,
)
    requires
        history.is_faithful(max_read),
        history.allows(event, max_read),
    ensures
        history.after(event, max_read).is_faithful(max_read),
        event matches ReadEvent::Read { size, .. } ==> exists|chunk: Seq<u8>|
            {
                &&& history.after(event, max_read).given == #[trigger] (history.given + chunk)
                &&& chunk.len() <= size
                &&& chunk.len() <= max_read
            },
{
    let polled = match event {
        ReadEvent::Poll(polled) => polled,
        ReadEvent::Read { polled, .. } => polled,
    };
    let ready = history.polled(polled);
    assert(ready.is_faithful(max_read)) by {
        assert(history.state is Reading ==> history.given + history.held() =~= history.given);
        assert(ready.given + ready.held() =~= ready.produced);
    }
    match event {
        ReadEvent::Poll(_) => {},
        ReadEvent::Read { size, outcome, buf, .. } => {
            let after = history.after(event, max_read);
            let held = ready.held();
            let n = vstd::math::min(held.len() as int, size as int);
            match ready.state.read(size, max_read) {
                ReadStepView::Done(Ok(bytes)) => {
                    assert(held.take(n) + held.skip(n) =~= held);
                    assert(bytes =~= held.take(n));
                    assert(after.held() =~= held.skip(n));
                    assert(after.given + after.held() =~= ready.given + held);
                    assert(after.given == history.given + bytes);
                },
                ReadStepView::Done(Err(_)) => {
                    assert(after.given =~= history.given + Seq::empty());
                },
                ReadStepView::Try(_) => {
                    assert(held.len() == 0);
                    assert(ready.given + held =~= ready.given);
                    assert(after.held().len() == 0);
                    assert(after.given + after.held() =~= after.given);
                    match ready.state.after_read(size).attempt(outcome, buf) {
                        ReadAttemptView::Done(Ok(bytes)) => {
                            assert(after.given == history.given + bytes);
                        },
                        _ => {
                            assert(after.given =~= history.given + Seq::empty());
                        },
                    }
                },
            }
        },
    }
}

/// Whatever is done with a stream that is not cancelled, what its reads have
/// given, in order, is the beginning of what its resource has produced: nothing
/// is lost, repeated or reordered, and what is missing is still held. A read
/// gives no more than was asked for, nor than may be read at once.
pub proof fn law_reads_give_what_was_produced<IO>(
    resource: IO,
    events: Seq<ReadEvent<IO>>,
    next: ReadEvent<IO>,
    max_read: usize,
)
    requires
        ReadHistory::begin(resource).runs(events, max_read),
        ReadHistory::begin(resource).run(events, max_read).allows(next, max_read),
    ensures
        ({
            let history = ReadHistory::begin(resource).run(events, max_read);
            &&& history.is_faithful(max_read)
            &&& history.given.is_prefix_of(history.produced)
            &&& next matches ReadEvent::Read { size, .. } ==> exists|chunk: Seq<u8>|
                {
                    &&& history.after(next, max_read).given == #[trigger] (history.given + chunk)
                    &&& chunk.len() <= size
                    &&& chunk.len() <= max_read
                }
        }),
    decreases events.len(),
{
    let history = ReadHistory::begin(resource).run(events, max_read);
    if events.len() == 0 {
        assert(history.given + history.held() =~= history.produced);
    } else {
        law_reads_give_what_was_produced(
            resource,
            events.drop_last(),
            events.last(),
            max_read,
        );
        lemma_event_is_faithful(
            ReadHistory::begin(resource).run(events.drop_last(), max_read),
            events.last(),
            max_read,
        );
    }
    assert(history.given.is_prefix_of(history.given + history.held()));
    lemma_event_is_faithful(history, next, max_read);
}

/// A new stream is ready, over its resource, with its limit, and has read
/// nothing.
pub proof fn law_new_read_streams<IO>(max_read: usize, resource: IO, r: AsyncReadStream<IO>)
    requires
        call_ensures(AsyncReadStream::<IO>::new, (max_read, resource), r),
    ensures
        r.max_read == max_read,
        r.state@ matches ReadStateView::Ready(io, held) && io == resource && held.len() == 0,
{
}

/// The task that is polled is the one that is at work for the stream.
pub proof fn law_read_tasks<IO>(stream: AsyncReadStream<IO>, r: Option<Task>)
    requires
        call_ensures(AsyncReadStream::<IO>::task, (&stream,), r),
    ensures
        match stream.state@ {
            ReadStateView::Reading(task) | ReadStateView::Canceling(task, _) => r == Some(task),
            ReadStateView::Ready(..) | ReadStateView::Closed(_) => r is None,
        },
{
}

/// While a task is at work the stream is not ready, and nothing changes. What it
/// has read is held, with the resource, and the stream is ready; nothing is the
/// end of what there is to be read. A failure is kept to be told, and after a
/// cancellation the error that was given is, whatever the task came to.
pub proof fn law_read_tasks_are_taken_in<IO>(
    stream: &mut AsyncReadStream<IO>,
    task: Polled<ReadOutcome<IO>>,
    r: Polled<()>,
)
    requires
        call_ensures(AsyncReadStream::<IO>::poll_ready, (stream, task), r),
    ensures
        final(stream).max_read == old(stream).max_read,
        r is Pending <==> task is Pending && (old(stream).state@ is Reading
            || old(stream).state@ is Canceling),
        task is Pending ==> final(stream).state@ == old(stream).state@,
        task matches Polled::Ready(outcome) ==> match old(stream).state@ {
            ReadStateView::Reading(_) => match outcome {
                Ok((io, bytes)) => if buffer::content(bytes).len() == 0 {
                    final(stream).state@ == ReadStateView::<IO>::Closed(StreamError::Closed)
                } else {
                    final(stream).state@ == ReadStateView::Ready(io, buffer::content(bytes))
                },
                Err(e) => final(stream).state@ == ReadStateView::<IO>::Closed(
                    StreamError::LastOperationFailed(Failure::Io(e)),
                ),
            },
            ReadStateView::Canceling(_, error) => final(stream).state@ == ReadStateView::<
                IO,
            >::Closed(error),
            _ => final(stream).state@ == old(stream).state@,
        },
{
}

/// A read joins the task first. What is held is given first, from its beginning
/// on, and what is not given is held on to; only where nothing is held is the
/// resource read, for no more than was asked for and no more than the limit. A
/// read of no bytes gives none, and takes none; while a task is at work there
/// are none. An error is told, and the stream is closed from then on.
pub proof fn law_reads_give_what_is_held_first<IO>(
    stream: &mut AsyncReadStream<IO>,
    size: usize,
    task: Polled<ReadOutcome<IO>>,
    joined: &mut AsyncReadStream<IO>,
    polled: Polled<()>,
    r: ReadStep,
)
    requires
        old(joined).state@ == old(stream).state@,
        old(joined).max_read == old(stream).max_read,
        call_ensures(AsyncReadStream::<IO>::poll_ready, (joined, task), polled),
        call_ensures(AsyncReadStream::<IO>::read, (stream, size, task), r),
    ensures
        final(stream).max_read == old(stream).max_read,
        match final(joined).state@ {
            ReadStateView::Ready(io, held) => {
                &&& final(stream).state@ matches ReadStateView::Ready(after, rest)
                &&& after == io
                &&& match r {
                    ReadStep::Done(Ok(bytes)) => {
                        &&& buffer::content(bytes) + rest == held
                        &&& buffer::content(bytes).len() <= size
                        &&& rest.len() > 0 ==> buffer::content(bytes).len() == size
                        &&& held.len() > 0 || size == 0
                    },
                    ReadStep::Done(Err(_)) => false,
                    ReadStep::Try(buf) => {
                        &&& held.len() == 0 && rest.len() == 0
                        &&& size > 0
                        &&& buffer::content_mut(buf).len() == vstd::math::min(
                            size as int,
                            old(stream).max_read as int,
                        )
                    },
                }
            },
            ReadStateView::Reading(_) | ReadStateView::Canceling(..) => {
                &&& r matches ReadStep::Done(Ok(bytes)) && buffer::content(bytes).len() == 0
                &&& final(stream).state@ == final(joined).state@
            },
            ReadStateView::Closed(e) => {
                &&& r matches ReadStep::Done(Err(f)) && f == e
                &&& final(stream).state@ == ReadStateView::<IO>::Closed(StreamError::Closed)
            },
        },
{
    if let ReadStateView::Ready(_, held) = final(joined).state@ {
        let n = vstd::math::min(held.len() as int, size as int);
        assert(held.take(n) + held.skip(n) =~= held);
        if size == 0 {
            assert(Seq::<u8>::empty() + held.skip(0) =~= held);
        }
    }
}

/// What was read at once is what the guest gets: as many bytes of the buffer as
/// were filled, from its beginning on. None is the end of the stream. A resource
/// that has to be waited for is waited for by a task, with the buffer; any other
/// failure is told, and closes the stream.
pub proof fn law_attempted_reads_give_what_was_read<IO>(
    stream: &mut AsyncReadStream<IO>,
    buf: BytesMut,
    polled: Polled<Result<usize, IoError>>,
    r: ReadAttempt<IO>,
    spawned: &mut AsyncReadStream<IO>,
    task: Task,
    told: StreamResult<Bytes>,
)
    requires
        old(stream).state@ is Ready,
        polled matches Polled::Ready(Ok(n)) ==> n <= buffer::content_mut(buf).len(),
        call_ensures(AsyncReadStream::<IO>::read_attempted, (stream, buf, polled), r),
        call_ensures(AsyncReadStream::<IO>::read_spawned, (spawned, task), told),
    ensures
        final(stream).max_read == old(stream).max_read,
        match polled {
            Polled::Ready(Ok(n)) => if n == 0 {
                &&& r matches ReadAttempt::Done(Err(e)) && e == StreamError::Closed
                &&& final(stream).state@ == ReadStateView::<IO>::Closed(StreamError::Closed)
            } else {
                &&& r matches ReadAttempt::Done(Ok(bytes))
                &&& buffer::content(bytes).len() == n
                &&& forall|i: int|
                    0 <= i < n ==> #[trigger] buffer::content(bytes)[i] == buffer::content_mut(
                        buf,
                    )[i]
                &&& final(stream).state@ == old(stream).state@
            },
            Polled::Ready(Err(e)) => if e.kind == IoErrorKind::WouldBlock {
                &&& r matches ReadAttempt::Spawn(io, b)
                &&& io == old(stream).state@->Ready_0
                &&& buffer::content_mut(b) == buffer::content_mut(buf)
            } else {
                &&& r matches ReadAttempt::Done(Err(f)) && f == StreamError::LastOperationFailed(
                    Failure::Io(e),
                )
                &&& final(stream).state@ == ReadStateView::<IO>::Closed(StreamError::Closed)
            },
            Polled::Pending => {
                &&& r matches ReadAttempt::Spawn(io, b)
                &&& io == old(stream).state@->Ready_0
                &&& buffer::content_mut(b) == buffer::content_mut(buf)
            },
        },
        told matches Ok(bytes) && buffer::content(bytes).len() == 0,
        final(spawned).state@ == ReadStateView::<IO>::Reading(task),
        final(spawned).max_read == old(spawned).max_read,
{
}

/// A cancellation ends the stream: what it holds is dropped, a task that reads
/// is to be aborted, and the error is told once that has ended, or next where
/// none reads. A stream that has ended otherwise keeps what it has to tell.
pub proof fn law_cancellation_ends_reading<IO>(
    stream: &mut AsyncReadStream<IO>,
    error: StreamError,
    r: Option<Task>,
)
    requires
        call_ensures(AsyncReadStream::<IO>::cancel, (stream, error), r),
    ensures
        final(stream).max_read == old(stream).max_read,
        match old(stream).state@ {
            ReadStateView::Reading(task) => {
                &&& r == Some(task)
                &&& final(stream).state@ == ReadStateView::<IO>::Canceling(task, error)
            },
            ReadStateView::Ready(..) => {
                &&& r is None
                &&& final(stream).state@ == ReadStateView::<IO>::Closed(error)
            },
            _ => r is None && final(stream).state@ == old(stream).state@,
        },
{
}

/// What a task has read is as many bytes of its buffer as were filled, from its
/// beginning on, and it gives its resource back with them.
pub proof fn law_background_reads_give_what_was_read<IO>(
    io: IO,
    buf: BytesMut,
    r: Result<usize, IoError>,
    outcome: ReadOutcome<IO>,
)
    requires
        r matches Ok(n) ==> n <= buffer::content_mut(buf).len(),
        call_ensures(background_read::<IO>, (io, buf, r), outcome),
    ensures
        match r {
            Ok(n) => {
                &&& outcome matches Ok((resource, bytes))
                &&& resource == io
                &&& buffer::content(bytes).len() == n
                &&& forall|i: int|
                    0 <= i < n ==> #[trigger] buffer::content(bytes)[i] == buffer::content_mut(
                        buf,
                    )[i]
            },
            Err(e) => outcome matches Err(f) && f == e,
        },
{
}

} // verus!
