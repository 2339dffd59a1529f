//! Streams over files.
use super::descriptor::File;
use super::types::Handle;
use crate::buffer;
use crate::error::{Failure, IoError, IoErrorKind, StreamError};
use bytes::{Bytes, BytesMut};
use vstd::prelude::*;

verus! {

/// Reads a file from a position on.
#[derive(Clone, Copy, Debug, PartialEq, Eq, Structural)]
pub struct FileInputStream {
    pub file: File,
    pub position: u64,
}

/// A read to be made: fill `buf` from `position` on.
#[derive(Debug)]
pub struct FileRead {
    pub file: Handle,
    pub position: u64,
    pub buf: BytesMut,
}

/// How many bytes a read of `size` bytes has given the guest.
pub open spec fn read_result_spec(r: Result<usize, IoError>, size: usize) -> Result<
    usize,
    StreamError,
> {
    match r {
        Ok(n) => if n == 0 && size > 0 {
            Err(StreamError::Closed)
        } else {
            Ok(n)
        },
        Err(e) => if e.kind == IoErrorKind::Interrupted {
            Ok(0)
        } else {
            Err(StreamError::LastOperationFailed(Failure::Io(e)))
        },
    }
}

/// Nothing read where something was asked for is the end of the file; a read
/// that was interrupted has given nothing yet.
pub fn read_result(r: Result<usize, IoError>, size: usize) -> (result: Result<usize, StreamError>)
    ensures
        result == read_result_spec(r, size),
{
    match r {
        Ok(n) => if n == 0 && size > 0 {
            Err(StreamError::Closed)
        } else {
            Ok(n)
        },
        Err(e) => if e.kind == IoErrorKind::Interrupted {
            Ok(0)
        } else {
            Err(StreamError::LastOperationFailed(Failure::Io(e)))
        },
    }
}

impl FileInputStream {
    pub fn new(file: &File, position: u64) -> (r: FileInputStream)
        ensures
            r == (FileInputStream { file: *file, position }),
    {
        FileInputStream { file: *file, position }
    }

    /// Starts a read of `size` bytes, which have to fit into a vector;
    /// [`FileInputStream::read_done`] ends it.
    pub fn read(&self, size: usize) -> (r: FileRead)
        requires
            size <= isize::MAX,
        ensures
            r.file == self.file.file,
            r.position == self.position,
            buffer::content_mut(r.buf) == Seq::new(size as nat, |i: int| 0u8),
    {
        FileRead { file: self.file.file, position: self.position, buf: BytesMut::zeroed(size) }
    }

    /// Ends a read of `size` bytes that filled `buf`. The stream moves on by
    /// what was read, and stays where it is where nothing was.
    pub fn read_done(&mut self, buf: BytesMut, r: Result<usize, IoError>, size: usize) -> (result:
        Result<Bytes, StreamError>)
        requires
            buffer::content_mut(buf).len() == size,
            r matches Ok(n) ==> n <= size && old(self).position + n <= u64::MAX,
        ensures
            match read_result_spec(r, size) {
                Ok(n) => {
                    &&& result matches Ok(bytes)
                    &&& buffer::content(bytes) == buffer::content_mut(buf).take(n as int)
                    &&& *final(self) == (FileInputStream {
                        position: (old(self).position + n) as u64,
                        ..*old(self)
                    })
                },
                Err(e) => result == Err::<Bytes, StreamError>(e) && *final(self) == *old(self),
            },
    {
        let mut buf: BytesMut = buf;
        let n: usize = read_result(r, size)?;
        buf.truncate(n);
        self.position = self.position + n as u64;
        Ok(buf.freeze())
    }

    /// Ends a read that was made to skip bytes: how many there were.
    pub fn skip_done(&mut self, buf: BytesMut, r: Result<usize, IoError>, nelem: usize) -> (result:
        Result<usize, StreamError>)
        requires
            buffer::content_mut(buf).len() == nelem,
            r matches Ok(n) ==> n <= nelem && old(self).position + n <= u64::MAX,
        ensures
            result == read_result_spec(r, nelem),
            *final(self) == match read_result_spec(r, nelem) {
                Ok(n) => FileInputStream {
                    position: (old(self).position + n) as u64,
                    ..*old(self)
                },
                Err(_) => *old(self),
            },
    {
        let bs: Bytes = self.read_done(buf, r, nelem)?;
        Ok(bs.len())
    }
}

/// Where a stream writes.
#[derive(Clone, Copy, Debug, PartialEq, Eq, Structural)]
pub enum FileOutputMode {
    /// From this position on.
    Position(u64),
    /// At the end of the file, wherever that is.
    Append,
}

#[derive(Clone, Copy, Debug, PartialEq, Eq, Structural)]
pub enum OutputState {
    Ready,
    /// A write is being made in the background.
    Waiting(Handle),
    /// The last I/O operation failed with this error.
    Error(IoError),
    Closed,
}

/// Writes to a file.
#[derive(Clone, Copy, Debug, PartialEq, Eq, Structural)]
pub struct FileOutputStream {
    pub file: File,
    pub mode: FileOutputMode,
    pub state: OutputState,
}

/// How much may be written at once.
pub const FILE_WRITE_CAPACITY: usize = 1048576;

/// What became of a write that was handed to the operating system.
#[derive(Clone, Copy, Debug, PartialEq, Eq)]
pub enum SpawnBlocking {
    /// It is done; so many bytes were written.
    Done(Result<usize, IoError>),
    /// It is being made in the background.
    Spawned(Handle),
}

impl FileOutputMode {
    /// Where the stream writes once `n` more bytes are written.
    pub open spec fn advanced(self, n: nat) -> FileOutputMode {
        match self {
            FileOutputMode::Position(p) => FileOutputMode::Position((p + n) as u64),
            FileOutputMode::Append => FileOutputMode::Append,
        }
    }

    /// `n` more bytes can be counted.
    pub open spec fn has_room(self, n: nat) -> bool {
        self matches FileOutputMode::Position(p) ==> p + n <= u64::MAX
    }
}

/// A write being carried out, piece by piece.
#[derive(Debug)]
pub struct WriteJob {
    /// Where the next piece goes.
    pub mode: FileOutputMode,
    /// What has not been written.
    pub buf: Bytes,
    /// How many bytes have been written.
    pub total: usize,
}

/// A [`WriteJob`], as far as it matters.
#[verifier::ext_equal]
pub struct WriteJobView {
    pub mode: FileOutputMode,
    pub rest: Seq<u8>,
    pub total: nat,
}

impl View for WriteJob {
    type V = WriteJobView;

    open spec fn view(&self) -> WriteJobView {
        WriteJobView { mode: self.mode, rest: buffer::content(self.buf), total: self.total as nat }
    }
}

impl WriteJobView {
    /// The bytes, written and not, can be counted.
    pub open spec fn is_valid(self) -> bool {
        self.total + self.rest.len() <= usize::MAX
    }

    /// The job once `n` more bytes are written.
    pub open spec fn advanced(self, n: nat) -> WriteJobView {
        WriteJobView {
            mode: self.mode.advanced(n),
            rest: self.rest.skip(n as int),
            total: self.total + n,
        }
    }

    /// The job after a sequence of writes.
    pub open spec fn run(self, counts: Seq<nat>) -> WriteJobView
        decreases counts.len(),
    {
        if counts.len() == 0 {
            self
        } else {
            self.run(counts.drop_last()).advanced(counts.last())
        }
    }

    /// Each write of the sequence writes no more than there is.
    pub open spec fn runs(self, counts: Seq<nat>) -> bool
        decreases counts.len(),
    {
        counts.len() == 0 || self.runs(counts.drop_last()) && counts.last() <= self.run(
            counts.drop_last(),
        ).rest.len()
    }
}

/// What a [`WriteJob`] asks for next.
#[derive(Clone, Copy, Debug, PartialEq, Eq)]
pub enum WriteJobStep {
    /// Write what is left, at the job's mode.
    Write,
    /// The job is over.
    Done(Result<usize, IoError>),
}

impl WriteJob {
    /// A job begins with a write, even of nothing.
    pub fn new(mode: FileOutputMode, buf: Bytes) -> (r: WriteJob)
        ensures
            r@ == (WriteJobView { mode, rest: buffer::content(buf), total: 0 }),
            r@.is_valid(),
    {
        let _: usize = buf.len();
        WriteJob { mode, buf, total: 0 }
    }

    /// Takes in what the last write came to.
    pub fn step(&mut self, written: Result<usize, IoError>) -> (r: WriteJobStep)
        requires
            old(self)@.is_valid(),
            written matches Ok(n) ==> n <= old(self)@.rest.len() && old(self)@.mode.has_room(
                n as nat,
            ),
        ensures
            final(self)@.is_valid(),
            match written {
                Err(e) => r == WriteJobStep::Done(Err(e)) && final(self)@ == old(self)@,
                Ok(n) => {
                    &&& final(self)@ == old(self)@.advanced(n as nat)
                    &&& r == if final(self)@.rest.len() == 0 {
                        WriteJobStep::Done(Ok(final(self).total))
                    } else {
                        WriteJobStep::Write
                    }
                },
            },
    {
        let nwritten: usize = match written {
            Ok(n) => n,
            Err(e) => return WriteJobStep::Done(Err(e)),
        };
        let _ = self.buf.split_to(nwritten);
        match self.mode {
            FileOutputMode::Position(p) => {
                self.mode = FileOutputMode::Position(p + nwritten as u64);
            },
            FileOutputMode::Append => {},
        }
        self.total = self.total + nwritten;
        if self.buf.is_empty() {
            WriteJobStep::Done(Ok(self.total))
        } else {
            WriteJobStep::Write
        }
    }
}

impl FileOutputStream {
    /// A stream that writes from `position` on.
    pub open spec fn at_position(file: File, position: u64) -> FileOutputStream {
        FileOutputStream {
            file,
            mode: FileOutputMode::Position(position),
            state: OutputState::Ready,
        }
    }

    /// A stream that appends.
    pub open spec fn at_end(file: File) -> FileOutputStream {
        FileOutputStream { file, mode: FileOutputMode::Append, state: OutputState::Ready }
    }

    pub fn write_at(file: &File, position: u64) -> (r: FileOutputStream)
        ensures
            r == FileOutputStream::at_position(*file, position),
    {
        FileOutputStream {
            file: *file,
            mode: FileOutputMode::Position(position),
            state: OutputState::Ready,
        }
    }

    pub fn append(file: &File) -> (r: FileOutputStream)
        ensures
            r == FileOutputStream::at_end(*file),
    {
        FileOutputStream { file: *file, mode: FileOutputMode::Append, state: OutputState::Ready }
    }

    /// Starts a write, to be carried out by the job that is returned and
    /// ended by [`FileOutputStream::write_spawned`]. Nothing may be written
    /// while a write is pending, or before its failure was reported.
    pub fn write(&self, buf: Bytes) -> (r: Result<WriteJob, StreamError>)
        ensures
            match self.state {
                OutputState::Ready => r matches Ok(job) && job@.is_valid() && job@ == (
                WriteJobView { mode: self.mode, rest: buffer::content(buf), total: 0 }),
                OutputState::Closed => r matches Err(StreamError::Closed),
                OutputState::Waiting(_) | OutputState::Error(_) => r matches Err(e) && e.is_trap(
                    "write not permitted: check_write not called first"@,
                ),
            },
    {
        match self.state {
            OutputState::Ready => {},
            OutputState::Closed => return Err(StreamError::Closed),
            OutputState::Waiting(_) | OutputState::Error(_) => {
                // a write is pending - this call was not permitted
                return Err(StreamError::trap("write not permitted: check_write not called first"));
            },
        }
        Ok(WriteJob::new(self.mode, buf))
    }

    /// The stream once a write has come to `r`.
    pub open spec fn after_write(self, r: Result<usize, IoError>) -> FileOutputStream {
        match r {
            Ok(n) => FileOutputStream {
                mode: self.mode.advanced(n as nat),
                state: OutputState::Ready,
                ..self
            },
            Err(e) => FileOutputStream { state: OutputState::Error(e), ..self },
        }
    }

    fn settle(&mut self, r: Result<usize, IoError>)
        requires
            r matches Ok(n) ==> old(self).mode.has_room(n as nat),
        ensures
            *final(self) == old(self).after_write(r),
    {
        match r {
            Ok(n) => {
                match self.mode {
                    FileOutputMode::Position(p) => {
                        self.mode = FileOutputMode::Position(p + n as u64);
                    },
                    FileOutputMode::Append => {},
                }
                self.state = OutputState::Ready;
            },
            Err(e) => {
                self.state = OutputState::Error(e);
            },
        }
    }

    /// Takes in what became of the job that [`FileOutputStream::write`]
    /// started.
    pub fn write_spawned(&mut self, result: SpawnBlocking)
        requires
            old(self).state == OutputState::Ready,
            result matches SpawnBlocking::Done(Ok(n)) ==> old(self).mode.has_room(n as nat),
        ensures
            *final(self) == match result {
                SpawnBlocking::Done(r) => old(self).after_write(r),
                SpawnBlocking::Spawned(task) => FileOutputStream {
                    state: OutputState::Waiting(task),
                    ..*old(self)
                },
            },
    {
        match result {
            SpawnBlocking::Done(r) => self.settle(r),
            SpawnBlocking::Spawned(task) => {
                self.state = OutputState::Waiting(task);
            },
        }
    }

    /// The stream once a failure was reported: it is closed then.
    pub open spec fn reported(self) -> FileOutputStream {
        match self.state {
            OutputState::Error(_) => FileOutputStream { state: OutputState::Closed, ..self },
            _ => self,
        }
    }

    /// What a flush comes to.
    pub open spec fn flushed(self) -> Result<(), StreamError> {
        match self.state {
            OutputState::Ready | OutputState::Waiting(_) => Ok(()),
            OutputState::Closed => Err(StreamError::Closed),
            OutputState::Error(e) => Err(StreamError::LastOperationFailed(Failure::Io(e))),
        }
    }

    /// How much may be written.
    pub open spec fn writable(self) -> Result<usize, StreamError> {
        match self.state {
            OutputState::Ready => Ok(FILE_WRITE_CAPACITY),
            OutputState::Waiting(_) => Ok(0),
            OutputState::Closed => Err(StreamError::Closed),
            OutputState::Error(e) => Err(StreamError::LastOperationFailed(Failure::Io(e))),
        }
    }

    /// There is nothing to flush: writes are only buffered in the background
    /// task. A failed write is reported here, once.
    pub fn flush(&mut self) -> (r: Result<(), StreamError>)
        ensures
            r == old(self).flushed(),
            *final(self) == old(self).reported(),
    {
        match self.state {
            OutputState::Ready | OutputState::Waiting(_) => Ok(()),
            OutputState::Closed => Err(StreamError::Closed),
            OutputState::Error(e) => {
                self.state = OutputState::Closed;
                Err(StreamError::LastOperationFailed(Failure::Io(e)))
            },
        }
    }

    /// How much may be written now. A failed write is reported here, once.
    pub fn check_write(&mut self) -> (r: Result<usize, StreamError>)
        ensures
            r == old(self).writable(),
            *final(self) == old(self).reported(),
    {
        match self.state {
            OutputState::Ready => Ok(FILE_WRITE_CAPACITY),
            OutputState::Waiting(_) => Ok(0),
            OutputState::Closed => Err(StreamError::Closed),
            OutputState::Error(e) => {
                self.state = OutputState::Closed;
                Err(StreamError::LastOperationFailed(Failure::Io(e)))
            },
        }
    }

    /// The background task to wait for before the stream is ready.
    pub fn pending(&self) -> (r: Option<Handle>)
        ensures
            r == match self.state {
                OutputState::Waiting(task) => Some(task),
                _ => None,
            },
    {
        match self.state {
            OutputState::Waiting(task) => Some(task),
            _ => None,
        }
    }

    /// The stream is ready: the background task it waited for, if any, came to
    /// `outcome`.
    pub fn ready(&mut self, outcome: Result<usize, IoError>)
        requires
            old(self).state is Waiting && outcome is Ok ==> old(self).mode.has_room(
                outcome->Ok_0 as nat,
            ),
        ensures
            *final(self) == match old(self).state {
                OutputState::Waiting(_) => old(self).after_write(outcome),
                _ => *old(self),
            },
    {
        match self.state {
            OutputState::Waiting(_) => self.settle(outcome),
            _ => {},
        }
    }
}

/// How many bytes a sequence of writes has written.
pub open spec fn total(counts: Seq<nat>) -> nat
    decreases counts.len(),
{
    if counts.len() == 0 {
        0
    } else {
        total(counts.drop_last()) + counts.last()
    }
}

/// Whatever part of its bytes each write takes, a job writes them in order,
/// each of them once, to the place that follows the last: what is left is what
/// no write took, and it goes that many bytes after the start.
pub proof fn law_write_job_writes_in_order(
    mode: FileOutputMode,
    bytes: Seq<u8>,
    counts: Seq<nat>,
)
    requires
        mode.has_room(bytes.len()),
        (WriteJobView { mode, rest: bytes, total: 0 }).runs(counts),
    ensures
        total(counts) <= bytes.len(),
        (WriteJobView { mode, rest: bytes, total: 0 }).run(counts) == (WriteJobView {
            mode: mode.advanced(total(counts)),
            rest: bytes.skip(total(counts) as int),
            total: total(counts),
        }),
    decreases counts.len(),
{
    let job = WriteJobView { mode, rest: bytes, total: 0 };
    if counts.len() == 0 {
        assert(bytes.skip(0) =~= bytes);
    } else {
        let before = counts.drop_last();
        law_write_job_writes_in_order(mode, bytes, before);
        assert(bytes.skip(total(before) as int).skip(counts.last() as int) =~= bytes.skip(
            total(counts) as int,
        ));
    }
}

/// A failed write is reported by the next flush or readiness check, whichever
/// comes first, and by no later one: from then on the stream is closed.
pub proof fn law_failed_write_is_reported_once(stream: FileOutputStream, error: IoError)
    requires
        stream.state == OutputState::Error(error),
    ensures
        stream.writable() == Err::<usize, StreamError>(
            StreamError::LastOperationFailed(Failure::Io(error)),
        ),
        stream.flushed() == Err::<(), StreamError>(
            StreamError::LastOperationFailed(Failure::Io(error)),
        ),
        stream.reported().writable() == Err::<usize, StreamError>(StreamError::Closed),
        stream.reported().flushed() == Err::<(), StreamError>(StreamError::Closed),
        stream.reported().reported() == stream.reported(),
{
}

/// A stream reads the file that it is over, from where it is; a read fills as
/// many bytes as were asked for.
pub proof fn law_reads_are_at_the_position(stream: FileInputStream, size: usize, r: FileRead)
    requires
        call_ensures(FileInputStream::read, (&stream, size), r),
    ensures
        r.file == stream.file.file,
        r.position == stream.position,
        buffer::content_mut(r.buf).len() == size,
{
}

/// What a read brought is what the guest gets, and the stream moves on by just
/// as much, so that the next read goes on where this one has ended. Nothing
/// where something was asked for is the end of the file. A read that was
/// interrupted has brought nothing yet, and one that failed leaves the stream
/// where it is.
pub proof fn law_reads_go_on_where_the_last_ended(
    stream: &mut FileInputStream,
    buf: BytesMut,
    r: Result<usize, IoError>,
    size: usize,
    result: Result<Bytes, StreamError>,
)
    requires
        buffer::content_mut(buf).len() == size,
        r matches Ok(n) ==> n <= size && old(stream).position + n <= u64::MAX,
        call_ensures(FileInputStream::read_done, (stream, buf, r, size), result),
    ensures
        final(stream).file == old(stream).file,
        match result {
            Ok(bytes) => {
                &&& final(stream).position == old(stream).position + buffer::content(bytes).len()
                &&& forall|i: int|
                    0 <= i < buffer::content(bytes).len() ==> #[trigger] buffer::content(bytes)[i]
                        == buffer::content_mut(buf)[i]
            },
            Err(_) => final(stream).position == old(stream).position,
        },
        match r {
            Ok(n) => if n == 0 && size > 0 {
                result == Err::<Bytes, StreamError>(StreamError::Closed)
            } else {
                result matches Ok(bytes) && buffer::content(bytes).len() == n
            },
            Err(e) => if e.kind == IoErrorKind::Interrupted {
                result matches Ok(bytes) && buffer::content(bytes).len() == 0
            } else {
                result == Err::<Bytes, StreamError>(
                    StreamError::LastOperationFailed(Failure::Io(e)),
                )
            },
        },
{
}

/// To skip bytes is to read them and to give but their number: the stream
/// moves on by that.
pub proof fn law_skips_are_reads(
    stream: &mut FileInputStream,
    buf: BytesMut,
    r: Result<usize, IoError>,
    size: usize,
    result: Result<usize, StreamError>,
    read: Result<usize, StreamError>,
)
    requires
        buffer::content_mut(buf).len() == size,
        r matches Ok(n) ==> n <= size && old(stream).position + n <= u64::MAX,
        call_ensures(FileInputStream::skip_done, (stream, buf, r, size), result),
        call_ensures(read_result, (r, size), read),
    ensures
        result == read,
        final(stream).file == old(stream).file,
        result matches Ok(n) ==> final(stream).position == old(stream).position + n,
        result is Err ==> final(stream).position == old(stream).position,
        match r {
            Ok(n) => result == if n == 0 && size > 0 {
                Err::<usize, StreamError>(StreamError::Closed)
            } else {
                Ok(n)
            },
            Err(e) => result == if e.kind == IoErrorKind::Interrupted {
                Ok::<usize, StreamError>(0)
            } else {
                Err(StreamError::LastOperationFailed(Failure::Io(e)))
            },
        },
{
}

/// A stream that writes from a position on begins there, one that appends
/// begins at the end; both are ready, over the file that they are made of, as a
/// stream that reads is.
pub proof fn law_new_file_streams(
    file: File,
    position: u64,
    reads: FileInputStream,
    writes: FileOutputStream,
    appends: FileOutputStream,
)
    requires
        call_ensures(FileInputStream::new, (&file, position), reads),
        call_ensures(FileOutputStream::write_at, (&file, position), writes),
        call_ensures(FileOutputStream::append, (&file,), appends),
    ensures
        reads.file == file && reads.position == position,
        writes.file == file && writes.state is Ready,
        writes.mode == FileOutputMode::Position(position),
        appends.file == file && appends.state is Ready && appends.mode is Append,
{
}

/// A write is carried out by a job for all of its bytes, which begins where the
/// stream is. It takes a stream that is ready: while a write is pending, or has
/// failed, the guest is stopped, and a closed stream stays closed.
pub proof fn law_writes_begin_where_the_stream_is(
    stream: FileOutputStream,
    buf: Bytes,
    r: Result<WriteJob, StreamError>,
)
    requires
        call_ensures(FileOutputStream::write, (&stream, buf), r),
    ensures
        r is Ok <==> stream.state is Ready,
        r matches Ok(job) ==> {
            &&& job.mode == stream.mode
            &&& buffer::content(job.buf) == buffer::content(buf)
            &&& job.total == 0
        },
        r == Err::<WriteJob, StreamError>(StreamError::Closed) <==> stream.state is Closed,
        r matches Err(StreamError::Trap(m)) ==> m@
            == "write not permitted: check_write not called first"@ && (stream.state is Waiting
            || stream.state is Error),
        !(r matches Err(StreamError::LastOperationFailed(_))),
{
}

/// Each write of a job takes bytes from the front of what is left, and what
/// follows goes directly behind it: to the position that many bytes further on,
/// or to the end. The job is over once nothing is left, and has then written
/// all of its bytes; a failure ends it too.
pub proof fn law_job_steps_take_the_next_bytes(
    job: &mut WriteJob,
    written: Result<usize, IoError>,
    r: WriteJobStep,
)
    requires
        old(job)@.is_valid(),
        written matches Ok(n) ==> n <= old(job)@.rest.len() && old(job)@.mode.has_room(n as nat),
        call_ensures(WriteJob::step, (job, written), r),
    ensures
        match written {
            Ok(n) => {
                &&& final(job).total == old(job).total + n
                &&& buffer::content(old(job).buf).take(n as int) + buffer::content(final(job).buf)
                    == buffer::content(old(job).buf)
                &&& match old(job).mode {
                    FileOutputMode::Position(p) => final(job).mode matches FileOutputMode::Position(
                        q,
                    ) && q == p + n,
                    FileOutputMode::Append => final(job).mode is Append,
                }
                &&& r is Write <==> buffer::content(final(job).buf).len() > 0
                &&& r matches WriteJobStep::Done(result) ==> result == Ok::<usize, IoError>(
                    final(job).total,
                )
            },
            Err(e) => {
                &&& r == WriteJobStep::Done(Err(e))
                &&& final(job).total == old(job).total
                &&& buffer::content(final(job).buf) == buffer::content(old(job).buf)
                &&& final(job).mode == old(job).mode
            },
        },
{
    let all = buffer::content(old(job).buf);
    assert(old(job)@.rest == all);
    assert(final(job)@.rest == buffer::content(final(job).buf));
    assert(final(job)@.total == final(job).total);
    assert(final(job)@.mode == final(job).mode);
    if let Ok(n) = written {
        assert(all.take(n as int) + all.skip(n as int) =~= all);
    }
}

/// Whatever part of its bytes each write takes, a job that began at a position
/// is as many bytes further on as were written, and one that appends appends.
pub proof fn law_job_positions_add_up(position: u64, bytes: Seq<u8>, counts: Seq<nat>)
    requires
        position + bytes.len() <= u64::MAX,
        (WriteJobView { mode: FileOutputMode::Position(position), rest: bytes, total: 0 }).runs(
            counts,
        ),
        (WriteJobView { mode: FileOutputMode::Append, rest: bytes, total: 0 }).runs(counts),
    ensures
        (WriteJobView { mode: FileOutputMode::Position(position), rest: bytes, total: 0 }).run(
            counts,
        ).mode matches FileOutputMode::Position(p) && p == position + total(counts),
        (WriteJobView { mode: FileOutputMode::Append, rest: bytes, total: 0 }).run(
            counts,
        ).mode is Append,
{
    law_write_job_writes_in_order(FileOutputMode::Position(position), bytes, counts);
    law_write_job_writes_in_order(FileOutputMode::Append, bytes, counts);
}

/// A job begins with all of its bytes, where it is to begin, and has written
/// none.
pub proof fn law_new_jobs(mode: FileOutputMode, buf: Bytes, r: WriteJob)
    requires
        call_ensures(WriteJob::new, (mode, buf), r),
    ensures
        r@.mode == mode,
        r@.rest == buffer::content(buf),
        r@.total == 0,
{
}

/// Once a write has ended well, whether at once or in the background, the
/// stream is ready again behind what was written. A failed write moves it
/// nowhere, and is kept to be told. While a write is in the background, the
/// stream waits for that one.
pub proof fn law_writes_move_the_stream_on(
    stream: &mut FileOutputStream,
    result: SpawnBlocking,
)
    requires
        old(stream).state is Ready,
        result matches SpawnBlocking::Done(Ok(n)) ==> old(stream).mode.has_room(n as nat),
        call_ensures(FileOutputStream::write_spawned, (stream, result), ()),
    ensures
        final(stream).file == old(stream).file,
        match result {
            SpawnBlocking::Done(Ok(n)) => {
                &&& final(stream).state is Ready
                &&& old(stream).mode matches FileOutputMode::Position(p) ==> (
                final(stream).mode matches FileOutputMode::Position(q) && q == p + n)
                &&& old(stream).mode is Append ==> final(stream).mode is Append
            },
            SpawnBlocking::Done(Err(e)) => {
                &&& final(stream).state == OutputState::Error(e)
                &&& final(stream).mode == old(stream).mode
            },
            SpawnBlocking::Spawned(task) => {
                &&& final(stream).state == OutputState::Waiting(task)
                &&& final(stream).mode == old(stream).mode
            },
        },
{
}

/// A stream that waits for a write takes in what became of it, as of one that
/// was made at once; a stream that waits for nothing stays as it is.
pub proof fn law_pending_writes_are_taken_in(
    stream: &mut FileOutputStream,
    outcome: Result<usize, IoError>,
)
    requires
        old(stream).state is Waiting && outcome is Ok ==> old(stream).mode.has_room(
            outcome->Ok_0 as nat,
        ),
        call_ensures(FileOutputStream::ready, (stream, outcome), ()),
    ensures
        !(old(stream).state is Waiting) ==> *final(stream) == *old(stream),
        old(stream).state is Waiting ==> {
            &&& final(stream).file == old(stream).file
            &&& match outcome {
                Ok(n) => {
                    &&& final(stream).state is Ready
                    &&& old(stream).mode matches FileOutputMode::Position(p) ==> (
                    final(stream).mode matches FileOutputMode::Position(q) && q == p + n)
                    &&& old(stream).mode is Append ==> final(stream).mode is Append
                },
                Err(e) => {
                    &&& final(stream).state == OutputState::Error(e)
                    &&& final(stream).mode == old(stream).mode
                },
            }
        },
{
}

/// A stream that is ready may be written to, one that waits may not yet; a
/// flush has nothing to do for either. A failure is told by whichever asks
/// first, and closes the stream; nothing else changes it.
pub proof fn law_checks_and_flushes_tell_failures(
    checked: &mut FileOutputStream,
    flushed: &mut FileOutputStream,
    writable: Result<usize, StreamError>,
    r: Result<(), StreamError>,
    pending: Option<Handle>,
)
    requires
        *old(checked) == *old(flushed),
        call_ensures(FileOutputStream::check_write, (checked,), writable),
        call_ensures(FileOutputStream::flush, (flushed,), r),
        call_ensures(FileOutputStream::pending, (old(checked),), pending),
    ensures
        *final(checked) == *final(flushed),
        final(checked).file == old(checked).file && final(checked).mode == old(checked).mode,
        match old(checked).state {
            OutputState::Ready => {
                &&& writable == Ok::<usize, StreamError>(1048576)
                &&& r is Ok
                &&& pending is None
                &&& *final(checked) == *old(checked)
            },
            OutputState::Waiting(task) => {
                &&& writable == Ok::<usize, StreamError>(0)
                &&& r is Ok
                &&& pending == Some(task)
                &&& *final(checked) == *old(checked)
            },
            OutputState::Error(e) => {
                &&& writable == Err::<usize, StreamError>(
                    StreamError::LastOperationFailed(Failure::Io(e)),
                )
                &&& r == Err::<(), StreamError>(StreamError::LastOperationFailed(Failure::Io(e)))
                &&& pending is None
                &&& final(checked).state is Closed
            },
            OutputState::Closed => {
                &&& writable == Err::<usize, StreamError>(StreamError::Closed)
                &&& r == Err::<(), StreamError>(StreamError::Closed)
                &&& pending is None
                &&& final(checked).state is Closed
            },
        },
{
}

} // verus!
