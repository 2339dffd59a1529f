//! An output stream over an asynchronous resource.
use super::try_io;
use super::Task;
use crate::buffer;
use crate::error::{replace, Failure, IoError, IoErrorKind, Polled, StreamError, StreamResult};
use bytes::Bytes;
use vstd::prelude::*;

verus! {

#[derive(Debug)]
pub enum AsyncWriteState<IO> {
    /// The resource, and how many bytes the guest may write.
    Ready(IO, usize),
    /// A task that holds the resource writes to it.
    Writing(Task),
    /// A task that holds the resource flushes it.
    Flushing(Task),
    /// A task that holds the resource shuts it down.
    Closing(Task),
    /// The task was told to wrap up; the error is for the guest.
    Canceling(Task, StreamError),
    /// The stream was cancelled; the error is for the guest's first operation
    /// from then on.
    Canceled(StreamError),
    /// The error is for the guest, once.
    Closed(StreamError),
}

/// What a background task has come to: the resource, once it is done with it.
pub type WriteOutcome<IO> = Result<IO, IoError>;

impl<IO> AsyncWriteState<IO> {
    /// The state once the background task, if there is one, was polled.
    pub open spec fn polled(self, polled: Polled<WriteOutcome<IO>>) -> AsyncWriteState<IO> {
        match polled {
            Polled::Pending => self,
            Polled::Ready(outcome) => match self {
                AsyncWriteState::Writing(_) | AsyncWriteState::Flushing(_) => match outcome {
                    Ok(io) => AsyncWriteState::Ready(io, 0),
                    Err(e) => AsyncWriteState::Closed(
                        StreamError::LastOperationFailed(Failure::Io(e)),
                    ),
                },
                AsyncWriteState::Closing(_) => match outcome {
                    Ok(_) => AsyncWriteState::Closed(StreamError::Closed),
                    Err(e) => AsyncWriteState::Closed(
                        StreamError::LastOperationFailed(Failure::Io(e)),
                    ),
                },
                AsyncWriteState::Canceling(_, error) => AsyncWriteState::Canceled(error),
                AsyncWriteState::Ready(..)
                | AsyncWriteState::Canceled(_)
                | AsyncWriteState::Closed(_) => self,
            },
        }
    }

    /// Nothing is pending: there may be written, or the stream is closed.
    pub open spec fn is_ready(self) -> bool {
        self is Ready || self is Canceled || self is Closed
    }

    /// The task that is active, and was not told to wrap up.
    pub open spec fn active(self) -> Option<Task> {
        match self {
            AsyncWriteState::Writing(task) => Some(task),
            AsyncWriteState::Flushing(task) => Some(task),
            AsyncWriteState::Closing(task) => Some(task),
            _ => None,
        }
    }

    /// How much the guest is told that it may write.
    pub open spec fn writable(self, max_write: usize) -> StreamResult<usize> {
        match self {
            AsyncWriteState::Ready(..) => Ok(max_write),
            AsyncWriteState::Canceled(e) | AsyncWriteState::Closed(e) => Err(e),
            _ => Ok(0),
        }
    }

    /// The state once the guest was told how much it may write.
    pub open spec fn checked(self, max_write: usize) -> AsyncWriteState<IO> {
        match self {
            AsyncWriteState::Ready(io, _) => AsyncWriteState::Ready(io, max_write),
            AsyncWriteState::Canceled(_) | AsyncWriteState::Closed(_) => AsyncWriteState::Closed(
                StreamError::Closed,
            ),
            _ => self,
        }
    }

    /// The guest may write `len` bytes.
    pub open spec fn permits(self, len: nat) -> bool {
        self matches AsyncWriteState::Ready(_, permit) && len <= permit
    }

    /// The state once a write was asked for. The error of a cancellation is
    /// given once.
    pub open spec fn after_write(self) -> AsyncWriteState<IO> {
        match self {
            AsyncWriteState::Canceled(_) => AsyncWriteState::Closed(StreamError::Closed),
            _ => self,
        }
    }

    /// The state that a cancellation leaves behind.
    pub open spec fn canceled(self, error: StreamError) -> AsyncWriteState<IO> {
        match self {
            AsyncWriteState::Writing(task)
            | AsyncWriteState::Flushing(task)
            | AsyncWriteState::Closing(task) => AsyncWriteState::Canceling(task, error),
            AsyncWriteState::Ready(..) => AsyncWriteState::Canceled(error),
            _ => self,
        }
    }

    /// What a shutdown takes in this state.
    pub open spec fn shutdown(self) -> DrainStep {
        match self {
            AsyncWriteState::Ready(..) => DrainStep::Try,
            AsyncWriteState::Writing(task) | AsyncWriteState::Flushing(task) => {
                DrainStep::SpawnAfter(task)
            },
            AsyncWriteState::Closing(_) | AsyncWriteState::Canceling(..) => DrainStep::Done(Ok(())),
            AsyncWriteState::Canceled(_) | AsyncWriteState::Closed(_) => DrainStep::Done(
                Err(StreamError::Closed),
            ),
        }
    }

    /// The state once a shutdown has begun. While what it takes is not done,
    /// a task that was active belongs to whoever does it.
    pub open spec fn after_shutdown(self) -> AsyncWriteState<IO> {
        match self {
            AsyncWriteState::Writing(_) | AsyncWriteState::Flushing(_) => AsyncWriteState::Closed(
                StreamError::Closed,
            ),
            _ => self,
        }
    }

    /// The state once a shutdown was attempted on the resource. Where it has
    /// to wait, the resource belongs to whoever goes on with it.
    pub open spec fn after_shutdown_attempt(self, outcome: Result<(), IoError>) -> AsyncWriteState<
        IO,
    > {
        match outcome {
            Err(e) if e.kind != IoErrorKind::WouldBlock => AsyncWriteState::Closed(
                StreamError::LastOperationFailed(Failure::Io(e)),
            ),
            _ => AsyncWriteState::Closed(StreamError::Closed),
        }
    }
}

/// What is to be done for a write.
#[derive(Debug)]
pub enum WriteStep {
    /// Nothing: this is the result.
    Done(StreamResult<()>),
    /// Attempt to write the bytes to the resource, without waiting.
    Try(Bytes),
}

/// What is to be done once a write was attempted.
#[derive(Debug)]
pub enum WriteAttempt<IO> {
    /// Nothing: this is the result.
    Done(StreamResult<()>),
    /// Write all of the bytes to the resource in a background task.
    Spawn(IO, Bytes),
}

/// What is to be done for a flush or a shutdown.
#[derive(Debug)]
pub enum DrainStep {
    /// Nothing: this is the result.
    Done(StreamResult<()>),
    /// Attempt it on the resource, without waiting.
    Try,
    /// Do it in a background task, once the given task has handed over the
    /// resource.
    SpawnAfter(Task),
}

/// What is to be done once a flush or a shutdown was attempted.
#[derive(Debug)]
pub enum DrainAttempt<IO> {
    /// Nothing: this is the result.
    Done(StreamResult<()>),
    /// Do it on the resource in a background task.
    Spawn(IO),
}

/// An output stream over a resource of type `IO`. Where a write has to wait,
/// a background task waits for it.
#[derive(Debug)]
pub struct AsyncWriteStream<IO> {
    pub state: AsyncWriteState<IO>,
    pub max_write: usize,
}

impl<IO> AsyncWriteStream<IO> {
    pub fn new(max_write: usize, resource: IO) -> (r: AsyncWriteStream<IO>)
        ensures
            r == (AsyncWriteStream { state: AsyncWriteState::Ready(resource, 0), max_write }),
    {
        AsyncWriteStream { state: AsyncWriteState::Ready(resource, 0), max_write }
    }

    /// The task to poll before a check or for readiness, if any.
    pub fn task(&self) -> (r: Option<Task>)
        ensures
            r == match self.state {
                AsyncWriteState::Canceling(task, _) => Some(task),
                _ => self.state.active(),
            },
    {
        match &self.state {
            AsyncWriteState::Writing(task) => Some(*task),
            AsyncWriteState::Flushing(task) => Some(*task),
            AsyncWriteState::Closing(task) => Some(*task),
            AsyncWriteState::Canceling(task, _) => Some(*task),
            AsyncWriteState::Ready(..)
            | AsyncWriteState::Canceled(_)
            | AsyncWriteState::Closed(_) => None,
        }
    }

    /// How much the guest may write. `task` is what polling the background
    /// task, if there is one, came to.
    pub fn check_write(&mut self, task: Polled<WriteOutcome<IO>>) -> (r: StreamResult<usize>)
        ensures
            r == old(self).state.polled(task).writable(old(self).max_write),
            *final(self) == (AsyncWriteStream {
                state: old(self).state.polled(task).checked(old(self).max_write),
                ..*old(self)
            }),
    {
        // Attempt to join finished background task first:
        let _ = self.poll_ready(task);
        let max_write: usize = self.max_write;
        match replace(&mut self.state, AsyncWriteState::Closed(StreamError::Closed)) {
            AsyncWriteState::Ready(io, _) => {
                self.state = AsyncWriteState::Ready(io, max_write);
                Ok(max_write)
            },
            AsyncWriteState::Canceled(e) => Err(e),
            AsyncWriteState::Closed(e) => Err(e),
            pending => {
                self.state = pending;
                Ok(0)
            },
        }
    }

    /// Writes the bytes, which must be no more than the guest may write. The
    /// first write to a stream that was cancelled gives the error of the
    /// cancellation instead; to a stream that is closed no write is permitted.
    pub fn write(&mut self, bytes: Bytes) -> (r: WriteStep)
        ensures
            *final(self) == (AsyncWriteStream { state: old(self).state.after_write(), ..*old(self) }),
            if old(self).state is Canceled {
                r == WriteStep::Done(Err(old(self).state->Canceled_0))
            } else if !old(self).state.permits(buffer::content(bytes).len()) {
                r matches WriteStep::Done(Err(e)) && e.is_trap("write not permitted"@)
            } else if buffer::content(bytes).len() == 0 {
                r == WriteStep::Done(Ok(()))
            } else {
                r == WriteStep::Try(bytes)
            },
    {
        if let AsyncWriteState::Canceled(_) = &self.state {
            if let AsyncWriteState::Canceled(e) = replace(
                &mut self.state,
                AsyncWriteState::Closed(StreamError::Closed),
            ) {
                return WriteStep::Done(Err(e));
            }
        }
        let permitted: bool = match &self.state {
            AsyncWriteState::Ready(_, permit) => bytes.len() <= *permit,
            _ => false,
        };
        if !permitted {
            return WriteStep::Done(Err(StreamError::trap("write not permitted")));
        }
        if bytes.is_empty() {
            return WriteStep::Done(Ok(()));
        }
        WriteStep::Try(bytes)
    }

    fn take_ready(&mut self) -> (r: Option<IO>)
        ensures
            r == match old(self).state {
                AsyncWriteState::Ready(io, _) => Some(io),
                _ => None,
            },
            *final(self) == (AsyncWriteStream {
                state: AsyncWriteState::Closed(StreamError::Closed),
                ..*old(self)
            }),
    {
        match replace(&mut self.state, AsyncWriteState::Closed(StreamError::Closed)) {
            AsyncWriteState::Ready(io, _) => Some(io),
            _ => None,
        }
    }

    /// Takes in what the attempt to write `bytes` came to. What was not
    /// written is written in the background.
    pub fn write_attempted(&mut self, bytes: Bytes, polled: Polled<Result<usize, IoError>>) -> (r:
        WriteAttempt<IO>)
        requires
            old(self).state is Ready,
            polled matches Polled::Ready(Ok(n)) ==> n <= buffer::content(bytes).len(),
        ensures
            ({
                let closed = AsyncWriteStream {
                    state: AsyncWriteState::Closed(StreamError::Closed),
                    ..*old(self)
                };
                match super::attempted(polled) {
                    Ok(n) => if n == 0 {
                        &&& r == WriteAttempt::<IO>::Done(Err(StreamError::Closed))
                        &&& *final(self) == closed
                    } else if n == buffer::content(bytes).len() {
                        &&& r == WriteAttempt::<IO>::Done(Ok(()))
                        &&& *final(self) == *old(self)
                    } else {
                        &&& r matches WriteAttempt::Spawn(io, rest)
                        &&& io == old(self).state->Ready_0
                        &&& buffer::content(rest) == buffer::content(bytes).skip(n as int)
                        &&& *final(self) == closed
                    },
                    Err(e) => {
                        &&& *final(self) == closed
                        &&& r == if e.kind == IoErrorKind::WouldBlock {
                            WriteAttempt::Spawn(old(self).state->Ready_0, bytes)
                        } else if e.kind == IoErrorKind::BrokenPipe {
                            WriteAttempt::Done(Err(StreamError::Closed))
                        } else {
                            WriteAttempt::Done(
                                Err(StreamError::LastOperationFailed(Failure::Io(e))),
                            )
                        }
                    },
                }
            }),
    {
        let mut bytes: Bytes = bytes;
        match try_io(polled) {
            Ok(n) => {
                if n == 0 {
                    self.state = AsyncWriteState::Closed(StreamError::Closed);
                    return WriteAttempt::Done(Err(StreamError::Closed));
                }
                buffer::advance(&mut bytes, n);
                if bytes.is_empty() {
                    return WriteAttempt::Done(Ok(()));
                }
            },
            Err(e) => if e.kind == IoErrorKind::WouldBlock {
            } else if e.kind == IoErrorKind::BrokenPipe {
                self.state = AsyncWriteState::Closed(StreamError::Closed);
                return WriteAttempt::Done(Err(StreamError::Closed));
            } else {
                self.state = AsyncWriteState::Closed(StreamError::Closed);
                return WriteAttempt::Done(Err(StreamError::LastOperationFailed(Failure::Io(e))));
            },
        }
        // Perform remainder of the write in the background.
        match self.take_ready() {
            Some(io) => WriteAttempt::Spawn(io, bytes),
            None => WriteAttempt::Done(Ok(())),
        }
    }

    /// The write goes on in `task`.
    pub fn write_spawned(&mut self, task: Task) -> (r: StreamResult<()>)
        ensures
            r is Ok,
            *final(self) == (AsyncWriteStream {
                state: AsyncWriteState::Writing(task),
                ..*old(self)
            }),
    {
        self.state = AsyncWriteState::Writing(task);
        Ok(())
    }

    /// Flushes the stream. What the guest was allowed to write, it no longer
    /// is.
    pub fn flush(&mut self) -> (r: DrainStep)
        ensures
            r == match old(self).state {
                AsyncWriteState::Ready(..) => DrainStep::Try,
                AsyncWriteState::Writing(task) => DrainStep::SpawnAfter(task),
                AsyncWriteState::Canceled(e) | AsyncWriteState::Closed(e) => DrainStep::Done(
                    Err(e),
                ),
                _ => DrainStep::Done(Ok(())),
            },
            *final(self) == (AsyncWriteStream {
                state: match old(self).state {
                    AsyncWriteState::Ready(io, _) => AsyncWriteState::Ready(io, 0),
                    AsyncWriteState::Writing(_)
                    | AsyncWriteState::Canceled(_)
                    | AsyncWriteState::Closed(_) => AsyncWriteState::Closed(StreamError::Closed),
                    unchanged => unchanged,
                },
                ..*old(self)
            }),
    {
        match replace(&mut self.state, AsyncWriteState::Closed(StreamError::Closed)) {
            AsyncWriteState::Ready(io, _) => {
                self.state = AsyncWriteState::Ready(io, 0);
                DrainStep::Try
            },
            // Schedule flush after the current write has finished:
            AsyncWriteState::Writing(task) => DrainStep::SpawnAfter(task),
            AsyncWriteState::Canceled(e) => DrainStep::Done(Err(e)),
            AsyncWriteState::Closed(e) => DrainStep::Done(Err(e)),
            unchanged => {
                self.state = unchanged;
                DrainStep::Done(Ok(()))
            },
        }
    }

    /// Takes in what the attempt to flush came to.
    pub fn flush_attempted(&mut self, polled: Polled<Result<(), IoError>>) -> (r: DrainAttempt<IO>)
        requires
            old(self).state is Ready,
        ensures
            match super::attempted(polled) {
                Ok(_) => r == DrainAttempt::<IO>::Done(Ok(())) && *final(self) == *old(self),
                Err(e) => {
                    &&& *final(self) == (AsyncWriteStream {
                        state: AsyncWriteState::Closed(StreamError::Closed),
                        ..*old(self)
                    })
                    &&& r == if e.kind == IoErrorKind::WouldBlock {
                        DrainAttempt::Spawn(old(self).state->Ready_0)
                    } else {
                        DrainAttempt::Done(Err(StreamError::LastOperationFailed(Failure::Io(e))))
                    }
                },
            },
    {
        match try_io(polled) {
            Ok(()) => DrainAttempt::Done(Ok(())),
            Err(e) => {
                // Perform flush in the background.
                let io: Option<IO> = self.take_ready();
                match io {
                    Some(io) if e.kind == IoErrorKind::WouldBlock => DrainAttempt::Spawn(io),
                    _ => DrainAttempt::Done(Err(StreamError::LastOperationFailed(Failure::Io(e)))),
                }
            },
        }
    }

    /// The flush goes on in `task`.
    pub fn flush_spawned(&mut self, task: Task) -> (r: StreamResult<()>)
        ensures
            r is Ok,
            *final(self) == (AsyncWriteStream {
                state: AsyncWriteState::Flushing(task),
                ..*old(self)
            }),
    {
        self.state = AsyncWriteState::Flushing(task);
        Ok(())
    }

    /// Initiate graceful shutdown on the underlying resource. This stops the
    /// stream from accepting new writes and the stream won't report readiness
    /// until the shutdown sequence has completed.
    ///
    /// If the stream is already closed, this function does nothing and
    /// returns `Err(StreamError::Closed)`.
    pub fn shutdown(&mut self) -> (r: DrainStep)
        ensures
            r == old(self).state.shutdown(),
            *final(self) == (AsyncWriteStream {
                state: old(self).state.after_shutdown(),
                ..*old(self)
            }),
    {
        match replace(&mut self.state, AsyncWriteState::Closed(StreamError::Closed)) {
            // No write in progress, immediately shut down:
            AsyncWriteState::Ready(io, permit) => {
                self.state = AsyncWriteState::Ready(io, permit);
                DrainStep::Try
            },
            // Schedule the shutdown after the current write has finished:
            AsyncWriteState::Writing(task) => DrainStep::SpawnAfter(task),
            AsyncWriteState::Flushing(task) => DrainStep::SpawnAfter(task),
            AsyncWriteState::Canceled(e) => {
                self.state = AsyncWriteState::Canceled(e);
                DrainStep::Done(Err(StreamError::Closed))
            },
            AsyncWriteState::Closed(e) => {
                self.state = AsyncWriteState::Closed(e);
                DrainStep::Done(Err(StreamError::Closed))
            },
            unchanged => {
                self.state = unchanged;
                DrainStep::Done(Ok(()))
            },
        }
    }

    /// Takes in what the attempt to shut down came to. A failure is for the
    /// guest to learn later.
    pub fn shutdown_attempted(&mut self, polled: Polled<Result<(), IoError>>) -> (r: DrainAttempt<
        IO,
    >)
        requires
            old(self).state is Ready,
        ensures
            r == match super::attempted(polled) {
                Err(e) if e.kind == IoErrorKind::WouldBlock => DrainAttempt::Spawn(
                    old(self).state->Ready_0,
                ),
                _ => DrainAttempt::Done(Ok(())),
            },
            *final(self) == (AsyncWriteStream {
                state: old(self).state.after_shutdown_attempt(super::attempted(polled)),
                ..*old(self)
            }),
    {
        match try_io(polled) {
            Ok(()) => {
                self.state = AsyncWriteState::Closed(StreamError::Closed);
                DrainAttempt::Done(Ok(()))
            },
            Err(e) => if e.kind == IoErrorKind::WouldBlock {
                // Execute shutdown sequence in the background.
                match self.take_ready() {
                    Some(io) => DrainAttempt::Spawn(io),
                    None => DrainAttempt::Done(Ok(())),
                }
            } else {
                self.state = AsyncWriteState::Closed(
                    StreamError::LastOperationFailed(Failure::Io(e)),
                );
                DrainAttempt::Done(Ok(()))
            },
        }
    }

    /// The shutdown goes on in `task`.
    pub fn shutdown_spawned(&mut self, task: Task) -> (r: StreamResult<()>)
        ensures
            r is Ok,
            *final(self) == (AsyncWriteStream {
                state: AsyncWriteState::Closing(task),
                ..*old(self)
            }),
    {
        self.state = AsyncWriteState::Closing(task);
        Ok(())
    }

    /// Initiate cancellation of the stream. This stops the stream from
    /// accepting new writes. Any active write operation is to be aborted and
    /// pending buffers are dropped; the task to abort is returned. The first
    /// following write from the guest returns the provided `error` value.
    ///
    /// Cancellation is not guaranteed to finish instantly. Use
    /// [`AsyncWriteStream::poll_ready`] to wait for its completion; until then
    /// no write is permitted.
    ///
    /// If the stream is already closed, this function does nothing.
    pub fn cancel(&mut self, error: StreamError) -> (r: Option<Task>)
        ensures
            r == old(self).state.active(),
            *final(self) == (AsyncWriteStream {
                state: old(self).state.canceled(error),
                ..*old(self)
            }),
    {
        match replace(&mut self.state, AsyncWriteState::Closed(StreamError::Closed)) {
            AsyncWriteState::Writing(task) => {
                self.state = AsyncWriteState::Canceling(task, error);
                Some(task)
            },
            AsyncWriteState::Flushing(task) => {
                self.state = AsyncWriteState::Canceling(task, error);
                Some(task)
            },
            AsyncWriteState::Closing(task) => {
                self.state = AsyncWriteState::Canceling(task, error);
                Some(task)
            },
            AsyncWriteState::Ready(..) => {
                self.state = AsyncWriteState::Canceled(error);
                None
            },
            unchanged => {
                self.state = unchanged;
                None
            },
        }
    }

    /// Poll the stream to be ready for writing or to be closed. `task` is
    /// what polling the background task, if there is one, came to.
    pub fn poll_ready(&mut self, task: Polled<WriteOutcome<IO>>) -> (r: Polled<()>)
        ensures
            r == if old(self).state.is_ready() || task is Ready {
                Polled::Ready(())
            } else {
                Polled::Pending
            },
            *final(self) == (AsyncWriteStream { state: old(self).state.polled(task), ..*old(self) }),
    {
        let outcome: WriteOutcome<IO> = match task {
            Polled::Pending => return match &self.state {
                AsyncWriteState::Ready(..)
                | AsyncWriteState::Canceled(_)
                | AsyncWriteState::Closed(_) => Polled::Ready(()),
                _ => Polled::Pending,
            },
            Polled::Ready(outcome) => outcome,
        };
        match replace(&mut self.state, AsyncWriteState::Closed(StreamError::Closed)) {
            AsyncWriteState::Writing(_) | AsyncWriteState::Flushing(_) => {
                self.state = match outcome {
                    Ok(io) => AsyncWriteState::Ready(io, 0),
                    Err(e) => AsyncWriteState::Closed(
                        StreamError::LastOperationFailed(Failure::Io(e)),
                    ),
                };
            },
            AsyncWriteState::Closing(_) => {
                self.state = match outcome {
                    Ok(_) => AsyncWriteState::Closed(StreamError::Closed),
                    Err(e) => AsyncWriteState::Closed(
                        StreamError::LastOperationFailed(Failure::Io(e)),
                    ),
                };
            },
            AsyncWriteState::Canceling(_, error) => {
                self.state = AsyncWriteState::Canceled(error);
            },
            unchanged => {
                self.state = unchanged;
            },
        }
        Polled::Ready(())
    }
}

/// After a cancellation with `error`, nothing is written. While the operation
/// that was active has not ended, the guest is told to wait; once it has, the
/// first write or check gives `error`. From then on a check finds the stream
/// closed, and no write is permitted.
pub proof fn law_canceled_write_gives_error_once<IO>(
    state: AsyncWriteState<IO>,
    error: StreamError,
    pending: Polled<WriteOutcome<IO>>,
    ended: Polled<WriteOutcome<IO>>,
    later: Polled<WriteOutcome<IO>>,
    max_write: usize,
    len: nat,
)
    requires
        !(state is Canceling) && !(state is Canceled) && !(state is Closed),
        pending is Pending,
        ended is Ready,
    ensures
        ({
            let canceled = state.canceled(error);
            let over = canceled.polled(ended);
            &&& !canceled.permits(len)
            &&& state.active() is None ==> canceled == AsyncWriteState::<IO>::Canceled(error)
            &&& state.active() is Some ==> {
                &&& canceled.polled(pending).writable(max_write) == Ok::<usize, StreamError>(0)
                &&& canceled.polled(pending).checked(max_write) == canceled
                &&& !canceled.polled(pending).permits(len)
            }
            &&& over == AsyncWriteState::<IO>::Canceled(error)
            &&& over.after_write() == AsyncWriteState::<IO>::Closed(StreamError::Closed)
            &&& over.writable(max_write) == Err::<usize, StreamError>(error)
            &&& over.checked(max_write) == over.after_write()
            &&& over.after_write().polled(later) == over.after_write()
            &&& over.after_write().writable(max_write) == Err::<usize, StreamError>(
                StreamError::Closed,
            )
            &&& !over.after_write().permits(len)
        }),
{
}

/// Of two cancellations the first counts: the second changes nothing, so that
/// its error is never given.
pub proof fn law_second_cancellation_does_nothing<IO>(
    state: AsyncWriteState<IO>,
    task: Polled<WriteOutcome<IO>>,
    first: StreamError,
    second: StreamError,
)
    ensures
        state.canceled(first).polled(task).canceled(second) == state.canceled(first).polled(task),
        state.canceled(first).polled(task).active() is None,
{
}

/// A shutdown that has ended is not begun again: another one does nothing and
/// is told that the stream is closed.
pub proof fn law_second_shutdown_is_told_closed<IO>(
    state: AsyncWriteState<IO>,
    outcome: Result<(), IoError>,
    task: Task,
    ended: WriteOutcome<IO>,
)
    requires
        state is Ready,
    ensures
        ({
            let attempted = state.after_shutdown().after_shutdown_attempt(outcome);
            let waited = AsyncWriteState::<IO>::Closing(task).polled(Polled::Ready(ended));
            &&& attempted.shutdown() == DrainStep::Done(Err(StreamError::Closed))
            &&& attempted.after_shutdown() == attempted
            &&& waited.shutdown() == DrainStep::Done(Err(StreamError::Closed))
            &&& waited.after_shutdown() == waited
        }),
{
}

/// From a shutdown on no write is accepted, whatever the stream was doing; where
/// the shutdown is attempted at once, from the attempt on.
pub proof fn law_shutdown_ends_writing<IO>(
    state: AsyncWriteState<IO>,
    outcome: Result<(), IoError>,
    len: nat,
)
    ensures
        !(state.shutdown() is Try) ==> !state.after_shutdown().permits(len),
        state.shutdown() is Try ==> !state.after_shutdown().after_shutdown_attempt(
            outcome,
        ).permits(len),
{
}

/// Once a shutdown goes on in the background, no write is accepted and the
/// stream reports no readiness until the shutdown has ended; then the stream
/// is closed, and the guest learns once of a failure.
pub proof fn law_shutdown_accepts_no_writes<IO>(
    task: Task,
    pending: Polled<WriteOutcome<IO>>,
    outcome: WriteOutcome<IO>,
    max_write: usize,
    len: nat,
)
    requires
        pending is Pending,
    ensures
        ({
            let closing = AsyncWriteState::<IO>::Closing(task);
            let ended = closing.polled(Polled::Ready(outcome));
            &&& !closing.permits(len)
            &&& !closing.polled(pending).is_ready()
            &&& closing.polled(pending).writable(max_write) == Ok::<usize, StreamError>(0)
            &&& ended == AsyncWriteState::<IO>::Closed(
                match outcome {
                    Ok(_) => StreamError::Closed,
                    Err(e) => StreamError::LastOperationFailed(Failure::Io(e)),
                },
            )
            &&& !ended.permits(len)
            &&& ended.checked(max_write).writable(max_write) == Err::<usize, StreamError>(
                StreamError::Closed,
            )
            &&& closing.shutdown() == DrainStep::Done(Ok(()))
            &&& ended.shutdown() == DrainStep::Done(Err(StreamError::Closed))
        }),
{
}

/// A stream that has not been asked how much may be written, or that was made
/// ready by a task, accepts no byte; one that was asked accepts up to what it
/// answered.
pub proof fn law_writes_follow_a_check<IO>(
    state: AsyncWriteState<IO>,
    task: Polled<WriteOutcome<IO>>,
    max_write: usize,
    len: nat,
)
    ensures
        state.polled(task).checked(max_write).permits(len) <==> (state.polled(task).writable(
            max_write,
        ) matches Ok(permit) && state.polled(task) is Ready && len <= permit),
        !(state is Ready) && state.polled(task).permits(len) ==> len == 0,
{
}

impl<IO> AsyncWriteState<IO> {
    /// There may be nothing more written to the stream, now or later: it is
    /// being closed, or it is closed.
    pub open spec fn has_ended(self) -> bool {
        !(self is Ready) && !(self is Writing) && !(self is Flushing)
    }
}

/// A shutdown takes over what is active: it is done once the write or the flush
/// has handed over the resource. Where nothing is active it is attempted at
/// once; where it is done or being done already there is nothing to do, and a
/// closed stream is told to be. But for what is to be attempted, the stream has
/// ended from then on.
pub proof fn law_shutdown_takes_over<IO>(stream: &mut AsyncWriteStream<IO>, r: DrainStep)
    requires
        call_ensures(AsyncWriteStream::<IO>::shutdown, (stream,), r),
    ensures
        final(stream).max_write == old(stream).max_write,
        match old(stream).state {
            AsyncWriteState::Writing(task) | AsyncWriteState::Flushing(task) => r
                == DrainStep::SpawnAfter(task),
            AsyncWriteState::Ready(..) => r is Try && *final(stream) == *old(stream),
            AsyncWriteState::Closing(_) | AsyncWriteState::Canceling(..) => r == DrainStep::Done(
                Ok(()),
            ) && *final(stream) == *old(stream),
            AsyncWriteState::Canceled(_) | AsyncWriteState::Closed(_) => r == DrainStep::Done(
                Err(StreamError::Closed),
            ) && *final(stream) == *old(stream),
        },
        !(r is Try) ==> final(stream).state.has_ended(),
{
}

/// A shutdown that was attempted has ended the stream, whatever came of it: a
/// failure is kept to be told, and one that has to wait goes on in a task, with
/// the resource, as one does that comes after another task.
pub proof fn law_attempted_shutdown_ends_the_stream<IO>(
    stream: &mut AsyncWriteStream<IO>,
    polled: Polled<Result<(), IoError>>,
    r: DrainAttempt<IO>,
    spawned: &mut AsyncWriteStream<IO>,
    task: Task,
    told: StreamResult<()>,
)
    requires
        old(stream).state is Ready,
        call_ensures(AsyncWriteStream::<IO>::shutdown_attempted, (stream, polled), r),
        call_ensures(AsyncWriteStream::<IO>::shutdown_spawned, (spawned, task), told),
    ensures
        final(stream).max_write == old(stream).max_write,
        final(stream).state.has_ended(),
        match polled {
            Polled::Ready(Ok(_)) => r == DrainAttempt::<IO>::Done(Ok(())) && final(stream).state
                == AsyncWriteState::<IO>::Closed(StreamError::Closed),
            Polled::Ready(Err(e)) => if e.kind == IoErrorKind::WouldBlock {
                r == DrainAttempt::Spawn(old(stream).state->Ready_0)
            } else {
                &&& r == DrainAttempt::<IO>::Done(Ok(()))
                &&& final(stream).state == AsyncWriteState::<IO>::Closed(
                    StreamError::LastOperationFailed(Failure::Io(e)),
                )
            },
            Polled::Pending => r == DrainAttempt::Spawn(old(stream).state->Ready_0),
        },
        told is Ok,
        final(spawned).state == AsyncWriteState::<IO>::Closing(task),
        final(spawned).max_write == old(spawned).max_write,
{
}

/// A stream that has ended stays so, whatever is done with it: it is never ready
/// again, nothing is permitted to be written, and no operation is attempted or
/// begun for it.
pub proof fn law_ended_stream_stays_ended<IO>(
    polling: &mut AsyncWriteStream<IO>,
    checking: &mut AsyncWriteStream<IO>,
    writing: &mut AsyncWriteStream<IO>,
    flushing: &mut AsyncWriteStream<IO>,
    closing: &mut AsyncWriteStream<IO>,
    canceling: &mut AsyncWriteStream<IO>,
    task: Polled<WriteOutcome<IO>>,
    bytes: Bytes,
    error: StreamError,
    polled: Polled<()>,
    checked: StreamResult<usize>,
    written: WriteStep,
    flushed: DrainStep,
    closed: DrainStep,
    canceled: Option<Task>,
)
    requires
        old(polling).state.has_ended(),
        old(checking).state.has_ended(),
        old(writing).state.has_ended(),
        old(flushing).state.has_ended(),
        old(closing).state.has_ended(),
        old(canceling).state.has_ended(),
        call_ensures(AsyncWriteStream::<IO>::poll_ready, (polling, task), polled),
        call_ensures(AsyncWriteStream::<IO>::check_write, (checking, task), checked),
        call_ensures(AsyncWriteStream::<IO>::write, (writing, bytes), written),
        call_ensures(AsyncWriteStream::<IO>::flush, (flushing,), flushed),
        call_ensures(AsyncWriteStream::<IO>::shutdown, (closing,), closed),
        call_ensures(AsyncWriteStream::<IO>::cancel, (canceling, error), canceled),
    ensures
        final(polling).state.has_ended(),
        final(checking).state.has_ended(),
        final(writing).state.has_ended(),
        final(flushing).state.has_ended(),
        final(closing).state.has_ended(),
        final(canceling).state.has_ended(),
        checked matches Ok(n) ==> n == 0,
        written matches WriteStep::Done(Err(_)),
        flushed is Done,
        closed is Done,
{
}

/// A new stream is ready, over its resource, with its limit, and permits nothing
/// before it was asked.
pub proof fn law_new_write_streams<IO>(max_write: usize, resource: IO, r: AsyncWriteStream<IO>)
    requires
        call_ensures(AsyncWriteStream::<IO>::new, (max_write, resource), r),
    ensures
        r.max_write == max_write,
        r.state == AsyncWriteState::Ready(resource, 0),
{
}

/// The task that is polled is the one that is at work for the stream.
pub proof fn law_write_tasks<IO>(stream: AsyncWriteStream<IO>, r: Option<Task>)
    requires
        call_ensures(AsyncWriteStream::<IO>::task, (&stream,), r),
    ensures
        match stream.state {
            AsyncWriteState::Writing(task)
            | AsyncWriteState::Flushing(task)
            | AsyncWriteState::Closing(task)
            | AsyncWriteState::Canceling(task, _) => r == Some(task),
            AsyncWriteState::Ready(..)
            | AsyncWriteState::Canceled(_)
            | AsyncWriteState::Closed(_) => r is None,
        },
{
}

/// While a task is at work the stream is not ready, and nothing changes. A write
/// or a flush that has ended gives the resource back, and the stream is ready
/// with it, or keeps its failure to be told; a shutdown that has ended leaves
/// the stream closed, or its failure to be told; after a cancellation the error
/// that was given is to be told, whatever the task came to.
pub proof fn law_write_tasks_are_taken_in<IO>(
    stream: &mut AsyncWriteStream<IO>,
    task: Polled<WriteOutcome<IO>>,
    r: Polled<()>,
)
    requires
        call_ensures(AsyncWriteStream::<IO>::poll_ready, (stream, task), r),
    ensures
        final(stream).max_write == old(stream).max_write,
        r is Pending <==> task is Pending && (old(stream).state is Writing
            || old(stream).state is Flushing || old(stream).state is Closing
            || old(stream).state is Canceling),
        task is Pending ==> *final(stream) == *old(stream),
        task matches Polled::Ready(outcome) ==> match old(stream).state {
            AsyncWriteState::Writing(_) | AsyncWriteState::Flushing(_) => match outcome {
                Ok(io) => final(stream).state == AsyncWriteState::Ready(io, 0),
                Err(e) => final(stream).state == AsyncWriteState::<IO>::Closed(
                    StreamError::LastOperationFailed(Failure::Io(e)),
                ),
            },
            AsyncWriteState::Closing(_) => match outcome {
                Ok(_) => final(stream).state == AsyncWriteState::<IO>::Closed(StreamError::Closed),
                Err(e) => final(stream).state == AsyncWriteState::<IO>::Closed(
                    StreamError::LastOperationFailed(Failure::Io(e)),
                ),
            },
            AsyncWriteState::Canceling(_, error) => final(stream).state == AsyncWriteState::<
                IO,
            >::Canceled(error),
            _ => *final(stream) == *old(stream),
        },
{
}

/// A check joins the task first. A stream that is ready then may be written to,
/// up to its limit, and permits just that; where something is at work nothing
/// may be written yet. An error is told, and the stream is closed from then on.
pub proof fn law_checks_permit_up_to_the_limit<IO>(
    stream: &mut AsyncWriteStream<IO>,
    task: Polled<WriteOutcome<IO>>,
    joined: &mut AsyncWriteStream<IO>,
    polled: Polled<()>,
    r: StreamResult<usize>,
)
    requires
        *old(joined) == *old(stream),
        call_ensures(AsyncWriteStream::<IO>::poll_ready, (joined, task), polled),
        call_ensures(AsyncWriteStream::<IO>::check_write, (stream, task), r),
    ensures
        final(stream).max_write == old(stream).max_write,
        match final(joined).state {
            AsyncWriteState::Ready(io, _) => {
                &&& r == Ok::<usize, StreamError>(old(stream).max_write)
                &&& final(stream).state == AsyncWriteState::Ready(io, old(stream).max_write)
            },
            AsyncWriteState::Canceled(e) | AsyncWriteState::Closed(e) => {
                &&& r == Err::<usize, StreamError>(e)
                &&& final(stream).state == AsyncWriteState::<IO>::Closed(StreamError::Closed)
            },
            _ => {
                &&& r == Ok::<usize, StreamError>(0)
                &&& final(stream).state == final(joined).state
            },
        },
{
}

/// What is written is handed to the resource as it is, where as much is
/// permitted; nothing has to be done for no bytes. More than is permitted stops
/// the guest, as does any write while something is at work or once the stream
/// is closed; but the first one after a cancellation is told of that.
pub proof fn law_writes_are_handed_on<IO>(
    stream: &mut AsyncWriteStream<IO>,
    bytes: Bytes,
    r: WriteStep,
)
    requires
        call_ensures(AsyncWriteStream::<IO>::write, (stream, bytes), r),
    ensures
        final(stream).max_write == old(stream).max_write,
        match old(stream).state {
            AsyncWriteState::Ready(_, permit) => {
                &&& *final(stream) == *old(stream)
                &&& if buffer::content(bytes).len() > permit {
                    r matches WriteStep::Done(Err(StreamError::Trap(m))) && m@
                        == "write not permitted"@
                } else if buffer::content(bytes).len() == 0 {
                    r == WriteStep::Done(Ok(()))
                } else {
                    r == WriteStep::Try(bytes)
                }
            },
            AsyncWriteState::Canceled(e) => {
                &&& r == WriteStep::Done(Err(e))
                &&& final(stream).state == AsyncWriteState::<IO>::Closed(StreamError::Closed)
            },
            _ => {
                &&& r matches WriteStep::Done(Err(StreamError::Trap(m))) && m@
                    == "write not permitted"@
                &&& *final(stream) == *old(stream)
            },
        },
{
}

/// Of what was handed to the resource, every byte is written, once and in
/// order: what it did not take at once is written by a task, with the resource,
/// from the first byte on that it did not take. Where it takes none, or its
/// other side is gone, the stream is closed; any other failure is told.
pub proof fn law_no_byte_is_lost<IO>(
    stream: &mut AsyncWriteStream<IO>,
    bytes: Bytes,
    polled: Polled<Result<usize, IoError>>,
    r: WriteAttempt<IO>,
    spawned: &mut AsyncWriteStream<IO>,
    task: Task,
    told: StreamResult<()>,
)
    requires
        old(stream).state is Ready,
        buffer::content(bytes).len() > 0,
        polled matches Polled::Ready(Ok(n)) ==> n <= buffer::content(bytes).len(),
        call_ensures(AsyncWriteStream::<IO>::write_attempted, (stream, bytes, polled), r),
        call_ensures(AsyncWriteStream::<IO>::write_spawned, (spawned, task), told),
    ensures
        final(stream).max_write == old(stream).max_write,
        r matches WriteAttempt::Spawn(io, rest) ==> {
            &&& io == old(stream).state->Ready_0
            &&& match polled {
                Polled::Ready(Ok(n)) => {
                    &&& 0 < n < buffer::content(bytes).len()
                    &&& buffer::content(bytes).take(n as int) + buffer::content(rest)
                        == buffer::content(bytes)
                },
                _ => buffer::content(rest) == buffer::content(bytes),
            }
        },
        r matches WriteAttempt::Done(result) ==> match polled {
            Polled::Ready(Ok(n)) => if n == buffer::content(bytes).len() {
                result is Ok && *final(stream) == *old(stream)
            } else {
                &&& n == 0
                &&& result == Err::<(), StreamError>(StreamError::Closed)
                &&& final(stream).state == AsyncWriteState::<IO>::Closed(StreamError::Closed)
            },
            Polled::Ready(Err(e)) => {
                &&& e.kind != IoErrorKind::WouldBlock
                &&& result == Err::<(), StreamError>(
                    if e.kind == IoErrorKind::BrokenPipe {
                        StreamError::Closed
                    } else {
                        StreamError::LastOperationFailed(Failure::Io(e))
                    },
                )
                &&& final(stream).state == AsyncWriteState::<IO>::Closed(StreamError::Closed)
            },
            Polled::Pending => false,
        },
        told is Ok,
        final(spawned).state == AsyncWriteState::<IO>::Writing(task),
        final(spawned).max_write == old(spawned).max_write,
{
    let all = buffer::content(bytes);
    if let Polled::Ready(Ok(n)) = polled {
        assert(all.take(n as int) + all.skip(n as int) =~= all);
    }
}

/// A flush is attempted where nothing is at work, and takes back what was
/// permitted; after a write it is done by a task that follows that. While
/// something else is at work there is nothing to flush, and a closed stream
/// tells why it is.
pub proof fn law_flushes_follow_writes<IO>(
    stream: &mut AsyncWriteStream<IO>,
    r: DrainStep,
    attempted: &mut AsyncWriteStream<IO>,
    polled: Polled<Result<(), IoError>>,
    s: DrainAttempt<IO>,
    spawned: &mut AsyncWriteStream<IO>,
    task: Task,
    told: StreamResult<()>,
)
    requires
        call_ensures(AsyncWriteStream::<IO>::flush, (stream,), r),
        old(attempted).state is Ready,
        call_ensures(AsyncWriteStream::<IO>::flush_attempted, (attempted, polled), s),
        call_ensures(AsyncWriteStream::<IO>::flush_spawned, (spawned, task), told),
    ensures
        final(stream).max_write == old(stream).max_write,
        match old(stream).state {
            AsyncWriteState::Ready(io, _) => r is Try && final(stream).state
                == AsyncWriteState::Ready(io, 0),
            AsyncWriteState::Writing(write) => r == DrainStep::SpawnAfter(write),
            AsyncWriteState::Canceled(e) | AsyncWriteState::Closed(e) => r == DrainStep::Done(
                Err(e),
            ) && final(stream).state == AsyncWriteState::<IO>::Closed(StreamError::Closed),
            _ => r == DrainStep::Done(Ok(())) && *final(stream) == *old(stream),
        },
        match polled {
            Polled::Ready(Ok(_)) => s == DrainAttempt::<IO>::Done(Ok(())) && *final(attempted)
                == *old(attempted),
            Polled::Ready(Err(e)) => {
                &&& final(attempted).state == AsyncWriteState::<IO>::Closed(StreamError::Closed)
                &&& s == if e.kind == IoErrorKind::WouldBlock {
                    DrainAttempt::Spawn(old(attempted).state->Ready_0)
                } else {
                    DrainAttempt::Done(Err(StreamError::LastOperationFailed(Failure::Io(e))))
                }
            },
            Polled::Pending => s == DrainAttempt::Spawn(old(attempted).state->Ready_0),
        },
        told is Ok,
        final(spawned).state == AsyncWriteState::<IO>::Flushing(task),
        final(spawned).max_write == old(spawned).max_write,
{
}

/// A cancellation ends the stream. The task that is at work, if there is one, is
/// to be aborted, and the error is told once that has ended; where none is, the
/// error is told next. A stream that has ended otherwise keeps what it has to
/// tell.
pub proof fn law_cancellation_ends_the_stream<IO>(
    stream: &mut AsyncWriteStream<IO>,
    error: StreamError,
    r: Option<Task>,
)
    requires
        call_ensures(AsyncWriteStream::<IO>::cancel, (stream, error), r),
    ensures
        final(stream).max_write == old(stream).max_write,
        final(stream).state.has_ended(),
        match old(stream).state {
            AsyncWriteState::Writing(task)
            | AsyncWriteState::Flushing(task)
            | AsyncWriteState::Closing(task) => {
                &&& r == Some(task)
                &&& final(stream).state == AsyncWriteState::<IO>::Canceling(task, error)
            },
            AsyncWriteState::Ready(..) => {
                &&& r is None
                &&& final(stream).state == AsyncWriteState::<IO>::Canceled(error)
            },
            _ => r is None && *final(stream) == *old(stream),
        },
{
}

} // verus!
