//! The writing half of a TLS connection.
use crate::buffer;
use crate::error::{replace, Failure, IoError, StreamError};
use crate::streams::Task;
use bytes::Bytes;
use vstd::prelude::*;

verus! {

/// How much may be written at once.
pub const READY_SIZE: usize = 1073741824;

#[derive(Debug)]
pub enum WriteState<IO> {
    Ready(IO),
    /// A task that holds the stream writes to it.
    Writing(Task),
    /// A task that holds the stream shuts it down.
    Closing(Task),
    Closed,
    /// The last I/O operation failed with this error.
    Error(IoError),
}

/// Writes to a TLS connection, in the background.
#[derive(Debug)]
pub struct TlsWriter<IO> {
    pub state: WriteState<IO>,
}

/// What is to be done for a write.
#[derive(Debug)]
pub enum TlsWrite<IO> {
    /// Nothing.
    Done,
    /// Write the bytes to the stream, in a background task.
    Spawn(IO, WriteLoop),
}

/// What is to be done to close a connection.
#[derive(Debug)]
pub enum CloseNotify<IO> {
    /// Shut the stream down, in a background task.
    Shutdown(IO),
    /// Shut the stream down that the task hands over once it is done, in
    /// another background task.
    ShutdownAfter(Task),
    /// Nothing: the connection is being closed.
    Closing,
    /// Nothing: the connection is closed.
    Closed(Result<(), IoError>),
}

/// What a background task came to.
#[derive(Debug)]
pub enum TlsOutcome<IO> {
    /// A write: the stream again, unless it failed.
    Written(Result<IO, IoError>),
    /// A shutdown.
    ShutDown(Result<(), IoError>),
}

/// Bytes being written to a stream.
#[derive(Debug)]
pub struct WriteLoop {
    pub bytes: Bytes,
}

impl WriteLoop {
    /// There is nothing left to be written.
    pub fn is_done(&self) -> (r: bool)
        ensures
            r == (buffer::content(self.bytes).len() == 0),
    {
        self.bytes.is_empty()
    }

    /// Takes in how many of the bytes that are left were written.
    pub fn written(&mut self, n: usize)
        requires
            n <= buffer::content(old(self).bytes).len(),
        ensures
            buffer::content(final(self).bytes) == buffer::content(old(self).bytes).skip(n as int),
    {
        let _ = self.bytes.split_to(n);
    }
}

impl<IO> WriteState<IO> {
    /// How much may be written.
    pub open spec fn writable(self) -> Result<usize, StreamError> {
        match self {
            WriteState::Ready(_) => Ok(READY_SIZE),
            WriteState::Writing(_) | WriteState::Closing(_) => Ok(0),
            WriteState::Closed => Err(StreamError::Closed),
            WriteState::Error(e) => Err(StreamError::LastOperationFailed(Failure::Io(e))),
        }
    }

    /// The state once a failure was reported: it is closed then.
    pub open spec fn reported(self) -> WriteState<IO> {
        match self {
            WriteState::Error(_) => WriteState::Closed,
            _ => self,
        }
    }

    /// What is to be done to close the connection.
    pub open spec fn close_notify(self) -> CloseNotify<IO> {
        match self {
            WriteState::Ready(io) => CloseNotify::Shutdown(io),
            WriteState::Writing(task) => CloseNotify::ShutdownAfter(task),
            WriteState::Closing(_) => CloseNotify::Closing,
            WriteState::Closed => CloseNotify::Closed(Ok(())),
            WriteState::Error(e) => CloseNotify::Closed(Err(e)),
        }
    }

    /// The state once the background task, if there is one, came to `outcome`.
    pub open spec fn joined(self, outcome: TlsOutcome<IO>) -> WriteState<IO> {
        match (self, outcome) {
            (WriteState::Writing(_), TlsOutcome::Written(Ok(io))) => WriteState::Ready(io),
            (WriteState::Writing(_), TlsOutcome::Written(Err(e))) => WriteState::Error(e),
            (WriteState::Closing(_), TlsOutcome::ShutDown(Ok(_))) => WriteState::Closed,
            (WriteState::Closing(_), TlsOutcome::ShutDown(Err(e))) => WriteState::Error(e),
            _ => self,
        }
    }
}

impl<IO> TlsWriter<IO> {
    pub fn new(stream: IO) -> (r: TlsWriter<IO>)
        ensures
            r.state == WriteState::Ready(stream),
    {
        TlsWriter { state: WriteState::Ready(stream) }
    }

    /// Writes the bytes, which takes a stream that was checked to be ready.
    pub fn write(&mut self, bytes: Bytes) -> (r: Result<TlsWrite<IO>, StreamError>)
        ensures
            match old(self).state {
                WriteState::Ready(io) => if buffer::content(bytes).len() == 0 {
                    &&& r == Ok::<TlsWrite<IO>, StreamError>(TlsWrite::Done)
                    &&& *final(self) == *old(self)
                } else {
                    &&& r == Ok::<TlsWrite<IO>, StreamError>(
                        TlsWrite::Spawn(io, WriteLoop { bytes }),
                    )
                    &&& final(self).state == WriteState::<IO>::Closed
                },
                _ => {
                    &&& r matches Err(e)
                    &&& e.is_trap("unpermitted: must call check_write first"@)
                    &&& *final(self) == *old(self)
                },
            },
    {
        match replace(&mut self.state, WriteState::Closed) {
            WriteState::Ready(stream) => {
                if bytes.is_empty() {
                    self.state = WriteState::Ready(stream);
                    return Ok(TlsWrite::Done);
                }
                Ok(TlsWrite::Spawn(stream, WriteLoop { bytes }))
            },
            other => {
                self.state = other;
                Err(StreamError::trap("unpermitted: must call check_write first"))
            },
        }
    }

    /// The write goes on in `task`.
    pub fn write_spawned(&mut self, task: Task)
        ensures
            final(self).state == WriteState::<IO>::Writing(task),
    {
        self.state = WriteState::Writing(task);
    }

    /// There is no buffer to flush. That a write is done, the next check finds
    /// out.
    pub fn flush(&self) -> (r: Result<(), StreamError>)
        ensures
            self.state is Closed ==> r == Err::<(), StreamError>(StreamError::Closed),
            !(self.state is Closed) ==> r is Ok,
    {
        match self.state {
            WriteState::Closed => Err(StreamError::Closed),
            _ => Ok(()),
        }
    }

    /// How much may be written. A failure is reported here, once.
    pub fn check_write(&mut self) -> (r: Result<usize, StreamError>)
        ensures
            r == old(self).state.writable(),
            final(self).state == old(self).state.reported(),
    {
        match replace(&mut self.state, WriteState::Closed) {
            WriteState::Ready(stream) => {
                self.state = WriteState::Ready(stream);
                Ok(READY_SIZE)
            },
            WriteState::Writing(task) => {
                self.state = WriteState::Writing(task);
                Ok(0)
            },
            WriteState::Closing(task) => {
                self.state = WriteState::Closing(task);
                Ok(0)
            },
            WriteState::Closed => Err(StreamError::Closed),
            WriteState::Error(e) => Err(StreamError::LastOperationFailed(Failure::Io(e))),
        }
    }

    /// Closes the connection: no write is in progress and it is shut down at
    /// once, or that is scheduled after the current write. A failure is
    /// reported here, once.
    pub fn close_notify(&mut self) -> (r: CloseNotify<IO>)
        ensures
            r == old(self).state.close_notify(),
            final(self).state == match old(self).state {
                WriteState::Closing(task) => WriteState::<IO>::Closing(task),
                _ => WriteState::Closed,
            },
    {
        match replace(&mut self.state, WriteState::Closed) {
            // No write in progress, immediately shut down:
            WriteState::Ready(stream) => CloseNotify::Shutdown(stream),
            // Schedule the shutdown after the current write has finished:
            WriteState::Writing(write) => CloseNotify::ShutdownAfter(write),
            WriteState::Closing(task) => {
                self.state = WriteState::Closing(task);
                CloseNotify::Closing
            },
            WriteState::Closed => CloseNotify::Closed(Ok(())),
            WriteState::Error(e) => CloseNotify::Closed(Err(e)),
        }
    }

    /// The shutdown goes on in `task`.
    pub fn close_spawned(&mut self, task: Task)
        ensures
            final(self).state == WriteState::<IO>::Closing(task),
    {
        self.state = WriteState::Closing(task);
    }

    /// Closes the stream at once. The task to cancel is returned.
    pub fn cancel(&mut self) -> (r: Option<Task>)
        ensures
            r == match old(self).state {
                WriteState::Writing(task) => Some(task),
                WriteState::Closing(task) => Some(task),
                _ => None,
            },
            final(self).state == WriteState::<IO>::Closed,
    {
        match replace(&mut self.state, WriteState::Closed) {
            WriteState::Writing(task) => Some(task),
            WriteState::Closing(task) => Some(task),
            _ => None,
        }
    }

    /// The task to wait for before the stream is ready.
    pub fn task(&self) -> (r: Option<Task>)
        ensures
            r == match self.state {
                WriteState::Writing(task) => Some(task),
                WriteState::Closing(task) => Some(task),
                _ => None,
            },
    {
        match &self.state {
            WriteState::Writing(task) => Some(*task),
            WriteState::Closing(task) => Some(*task),
            _ => None,
        }
    }

    /// The stream is ready: the task that it waited for, if any, came to
    /// `outcome`.
    pub fn ready(&mut self, outcome: TlsOutcome<IO>)
        requires
            old(self).state is Writing ==> outcome is Written,
            old(self).state is Closing ==> outcome is ShutDown,
        ensures
            final(self).state == old(self).state.joined(outcome),
    {
        match replace(&mut self.state, WriteState::Closed) {
            WriteState::Writing(task) => {
                self.state = match outcome {
                    TlsOutcome::Written(Ok(stream)) => WriteState::Ready(stream),
                    TlsOutcome::Written(Err(e)) => WriteState::Error(e),
                    TlsOutcome::ShutDown(_) => WriteState::Writing(task),
                };
            },
            WriteState::Closing(task) => {
                self.state = match outcome {
                    TlsOutcome::ShutDown(Ok(())) => WriteState::Closed,
                    TlsOutcome::ShutDown(Err(e)) => WriteState::Error(e),
                    TlsOutcome::Written(_) => WriteState::Closing(task),
                };
            },
            other => {
                self.state = other;
            },
        }
    }
}

/// A writer that is shared, as far as it could be locked; where it could not
/// be, the guest uses it twice at a time and is stopped.
pub fn try_lock_for_stream<T>(locked: Option<T>) -> (r: Result<T, StreamError>)
    ensures
        match locked {
            Some(value) => r == Ok::<T, StreamError>(value),
            None => r matches Err(e) && e.is_trap("concurrent access to resource not supported"@),
        },
{
    match locked {
        Some(value) => Ok(value),
        None => Err(StreamError::trap("concurrent access to resource not supported")),
    }
}

/// Once a connection is being closed, nothing may be written, and that stays
/// so: closing it again changes nothing, and when the shutdown has ended the
/// writer is closed or has an error to report.
pub proof fn law_closing_ends_writing<IO>(task: Task, outcome: Result<(), IoError>)
    ensures
        ({
            let closing = WriteState::<IO>::Closing(task);
            let ended = closing.joined(TlsOutcome::ShutDown(outcome));
            &&& closing.writable() == Ok::<usize, StreamError>(0)
            &&& closing.close_notify() == CloseNotify::<IO>::Closing
            &&& ended == match outcome {
                Ok(_) => WriteState::<IO>::Closed,
                Err(e) => WriteState::Error(e),
            }
            &&& ended.reported() == WriteState::<IO>::Closed
            &&& ended.reported().writable() == Err::<usize, StreamError>(StreamError::Closed)
        }),
{
}

/// A failure is reported once, by a check or by a request to close, whichever
/// comes first.
pub proof fn law_tls_failure_is_reported_once<IO>(e: IoError)
    ensures
        ({
            let failed = WriteState::<IO>::Error(e);
            &&& failed.writable() == Err::<usize, StreamError>(
                StreamError::LastOperationFailed(Failure::Io(e)),
            )
            &&& failed.reported().writable() == Err::<usize, StreamError>(StreamError::Closed)
            &&& failed.close_notify() == CloseNotify::<IO>::Closed(Err(e))
            &&& failed.reported().close_notify() == CloseNotify::<IO>::Closed(Ok(()))
        }),
{
}

/// A writer begins ready, with its stream. It writes what it is given, all of
/// it, in a task that has the stream, and nothing for no bytes; while a task is
/// at work, or once the writer is closed or has failed, the guest is stopped
/// for writing.
pub proof fn law_tls_writes_are_handed_on(
    stream: u64,
    made: TlsWriter<u64>,
    writer: &mut TlsWriter<u64>,
    bytes: Bytes,
    r: Result<TlsWrite<u64>, StreamError>,
    spawned: &mut TlsWriter<u64>,
    task: Task,
)
    requires
        call_ensures(TlsWriter::<u64>::new, (stream,), made),
        call_ensures(TlsWriter::<u64>::write, (writer, bytes), r),
        call_ensures(TlsWriter::<u64>::write_spawned, (spawned, task), ()),
    ensures
        made.state == WriteState::Ready(stream),
        r is Ok <==> old(writer).state is Ready,
        r matches Ok(TlsWrite::Done) ==> buffer::content(bytes).len() == 0 && *final(writer)
            == *old(writer),
        r matches Ok(TlsWrite::Spawn(io, rest)) ==> {
            &&& buffer::content(bytes).len() > 0
            &&& old(writer).state == WriteState::Ready(io)
            &&& buffer::content(rest.bytes) == buffer::content(bytes)
            &&& !(final(writer).state is Ready)
        },
        r matches Err(e) ==> {
            &&& e matches StreamError::Trap(m) && m@ == "unpermitted: must call check_write first"@
            &&& *final(writer) == *old(writer)
        },
        final(spawned).state == WriteState::<u64>::Writing(task),
{
}

/// What is left to be written is what was not: from the first byte on that the
/// stream did not take, until there is none.
pub proof fn law_tls_writes_lose_no_byte(rest: &mut WriteLoop, n: usize, current: WriteLoop, done: bool)
    requires
        n <= buffer::content(old(rest).bytes).len(),
        call_ensures(WriteLoop::written, (rest, n), ()),
        call_ensures(WriteLoop::is_done, (&current,), done),
    ensures
        buffer::content(old(rest).bytes).take(n as int) + buffer::content(final(rest).bytes)
            == buffer::content(old(rest).bytes),
        done <==> buffer::content(current.bytes).len() == 0,
{
    let all = buffer::content(old(rest).bytes);
    assert(all.take(n as int) + all.skip(n as int) =~= all);
}

/// A writer that is ready may be written to; one that has a task at work may not
/// yet. A failure is told once, and closes the writer; a flush has nothing to do
/// until the writer is closed. Neither changes anything else.
pub proof fn law_tls_checks_tell_failures(
    writer: &mut TlsWriter<u64>,
    r: Result<usize, StreamError>,
    flushed: Result<(), StreamError>,
    task: Option<Task>,
)
    requires
        call_ensures(TlsWriter::<u64>::check_write, (writer,), r),
        call_ensures(TlsWriter::<u64>::flush, (old(writer),), flushed),
        call_ensures(TlsWriter::<u64>::task, (old(writer),), task),
    ensures
        match old(writer).state {
            WriteState::Ready(_) => {
                &&& r == Ok::<usize, StreamError>(1073741824)
                &&& flushed is Ok
                &&& task is None
                &&& final(writer).state == old(writer).state
            },
            WriteState::Writing(t) | WriteState::Closing(t) => {
                &&& r == Ok::<usize, StreamError>(0)
                &&& flushed is Ok
                &&& task == Some(t)
                &&& final(writer).state == old(writer).state
            },
            WriteState::Closed => {
                &&& r == Err::<usize, StreamError>(StreamError::Closed)
                &&& flushed == Err::<(), StreamError>(StreamError::Closed)
                &&& task is None
                &&& final(writer).state is Closed
            },
            WriteState::Error(e) => {
                &&& r == Err::<usize, StreamError>(StreamError::LastOperationFailed(Failure::Io(e)))
                &&& flushed is Ok
                &&& task is None
                &&& final(writer).state is Closed
            },
        },
{
}

/// Closing a connection shuts the stream down: the stream itself, where it is
/// there, or the one that the task at work will hand over. Where that is being
/// done or was done, there is nothing to do, and a failure is told once. From
/// then on nothing can be written; a cancellation closes the writer at once, and
/// the task at work is to be cancelled.
pub proof fn law_tls_closing_shuts_down(
    writer: &mut TlsWriter<u64>,
    r: CloseNotify<u64>,
    spawned: &mut TlsWriter<u64>,
    task: Task,
    canceled: &mut TlsWriter<u64>,
    aborted: Option<Task>,
)
    requires
        call_ensures(TlsWriter::<u64>::close_notify, (writer,), r),
        call_ensures(TlsWriter::<u64>::close_spawned, (spawned, task), ()),
        call_ensures(TlsWriter::<u64>::cancel, (canceled,), aborted),
    ensures
        !(final(writer).state is Ready || final(writer).state is Writing),
        match old(writer).state {
            WriteState::Ready(io) => r == CloseNotify::Shutdown(io),
            WriteState::Writing(write) => r == CloseNotify::<u64>::ShutdownAfter(write),
            WriteState::Closing(t) => r is Closing && final(writer).state == WriteState::<
                u64,
            >::Closing(t),
            WriteState::Closed => (r matches CloseNotify::Closed(result) && result is Ok)
                && final(writer).state is Closed,
            WriteState::Error(e) => (r matches CloseNotify::Closed(result) && result == Err::<
                (),
                IoError,
            >(e)) && final(writer).state is Closed,
        },
        final(spawned).state == WriteState::<u64>::Closing(task),
        final(canceled).state is Closed,
        match old(canceled).state {
            WriteState::Writing(t) | WriteState::Closing(t) => aborted == Some(t),
            _ => aborted is None,
        },
{
}

/// A write that has ended gives the stream back, and the writer is ready with
/// it; a shutdown that has ended leaves it closed; a failure of either is kept
/// to be told. A writer that has no task at work stays as it is.
pub proof fn law_tls_tasks_are_taken_in(writer: &mut TlsWriter<u64>, outcome: TlsOutcome<u64>)
    requires
        old(writer).state is Writing ==> outcome is Written,
        old(writer).state is Closing ==> outcome is ShutDown,
        call_ensures(TlsWriter::<u64>::ready, (writer, outcome), ()),
    ensures
        match (old(writer).state, outcome) {
            (WriteState::Writing(_), TlsOutcome::Written(Ok(io))) => final(writer).state
                == WriteState::Ready(io),
            (WriteState::Writing(_), TlsOutcome::Written(Err(e))) => final(writer).state
                == WriteState::<u64>::Error(e),
            (WriteState::Closing(_), TlsOutcome::ShutDown(Ok(_))) => final(writer).state is Closed,
            (WriteState::Closing(_), TlsOutcome::ShutDown(Err(e))) => final(writer).state
                == WriteState::<u64>::Error(e),
            _ => final(writer).state == old(writer).state,
        },
{
}

/// A writer that could be locked is used, and the guest is stopped where it
/// could not be.
pub proof fn law_writers_are_used_by_one_at_a_time(
    locked: Option<u64>,
    r: Result<u64, StreamError>,
)
    requires
        call_ensures(try_lock_for_stream::<u64>, (locked,), r),
    ensures
        locked matches Some(value) ==> r == Ok::<u64, StreamError>(value),
        locked is None ==> (r matches Err(StreamError::Trap(m)) && m@
            == "concurrent access to resource not supported"@),
{
}

} // verus!
