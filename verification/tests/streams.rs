use bytes::{Bytes, BytesMut};
use std::collections::VecDeque;
use wasi_host::error::{Failure, IoError, IoErrorKind, Polled, StreamError, StreamResult};
use wasi_host::streams::adapter::{
    write_chunk, InputStream, InputStreamReader, IoStreamState, OutputStream, OutputStreamReader,
    PollEvent, PollStep, TransportError, MAX_ATTEMPTS,
};
use wasi_host::streams::read::{
    background_read, AsyncReadState, AsyncReadStream, ReadAttempt, ReadStep,
};
use wasi_host::streams::shared::{
    SharedAsyncReadStream, SharedAsyncWriteStream,
};
use wasi_host::streams::try_io;
use wasi_host::streams::write::{
    AsyncWriteState, AsyncWriteStream, DrainAttempt, DrainStep, WriteAttempt, WriteStep,
};

fn io(kind: IoErrorKind) -> IoError {
    IoError { kind, raw_os_error: None }
}

fn failed(e: IoError) -> StreamError {
    StreamError::LastOperationFailed(Failure::Io(e))
}

fn not_permitted() -> StreamError {
    StreamError::Trap("write not permitted".to_string())
}

fn done(step: ReadStep) -> StreamResult<Bytes> {
    match step {
        ReadStep::Done(r) => r,
        ReadStep::Try(_) => panic!("not done"),
    }
}

fn filled(data: &[u8]) -> BytesMut {
    let mut buf = BytesMut::zeroed(data.len());
    buf[..].copy_from_slice(data);
    buf
}

/// A stream with these bytes in its buffer.
fn buffered(data: &'static [u8]) -> AsyncReadStream<&'static str> {
    let mut s = AsyncReadStream::new(100, "io");
    let ReadStep::Try(buf) = s.read(50, Polled::Pending) else { panic!("no attempt") };
    let ReadAttempt::Spawn(io, _) = s.read_attempted(buf, Polled::Pending) else {
        panic!("no task")
    };
    assert_eq!(s.read_spawned(1), Ok(Bytes::new()));
    let outcome = background_read(io, filled(data), Ok(data.len()));
    assert_eq!(s.poll_ready(Polled::Ready(outcome)), Polled::Ready(()));
    s
}

#[test]
fn attempts_do_not_wait() {
    assert_eq!(try_io(Polled::Ready(Ok(3))), Ok(3));
    assert_eq!(
        try_io::<u8>(Polled::Pending),
        Err(IoError { kind: IoErrorKind::WouldBlock, raw_os_error: None })
    );
}

#[test]
fn reads_attempt_at_once() {
    let mut s = AsyncReadStream::new(4, "io");
    assert_eq!(done(s.read(0, Polled::Pending)), Ok(Bytes::new()));
    let ReadStep::Try(buf) = s.read(10, Polled::Pending) else { panic!("no attempt") };
    assert_eq!(&buf[..], &[0, 0, 0, 0]);
    let ReadAttempt::Done(r) = s.read_attempted(filled(b"abcd"), Polled::Ready(Ok(3))) else {
        panic!("not done")
    };
    assert_eq!(r, Ok(Bytes::from_static(b"abc")));
    let ReadStep::Try(buf) = s.read(3, Polled::Pending) else { panic!("no attempt") };
    assert_eq!(buf.len(), 3);
    let ReadAttempt::Done(r) = s.read_attempted(buf, Polled::Ready(Ok(0))) else {
        panic!("not done")
    };
    assert_eq!(r, Err(StreamError::Closed));
    assert_eq!(done(s.read(3, Polled::Pending)), Err(StreamError::Closed));
    assert_eq!(done(s.read(0, Polled::Pending)), Err(StreamError::Closed));
}

#[test]
fn failed_reads_close_the_stream() {
    let mut s = AsyncReadStream::new(4, "io");
    let ReadStep::Try(buf) = s.read(10, Polled::Pending) else { panic!("no attempt") };
    let e = io(IoErrorKind::ConnectionReset);
    let ReadAttempt::Done(r) = s.read_attempted(buf, Polled::Ready(Err(e))) else {
        panic!("not done")
    };
    assert_eq!(r, Err(failed(e)));
    assert_eq!(done(s.read(3, Polled::Pending)), Err(StreamError::Closed));
}

#[test]
fn reads_go_on_in_the_background() {
    let mut s = buffered(b"hello");
    assert!(matches!(s.state, AsyncReadState::Ready("io", _)));
    assert_eq!(s.task(), None);
    assert_eq!(done(s.read(2, Polled::Pending)), Ok(Bytes::from_static(b"he")));
    assert_eq!(done(s.read(9, Polled::Pending)), Ok(Bytes::from_static(b"llo")));
    assert!(matches!(s.read(9, Polled::Pending), ReadStep::Try(_)));

    let mut s: AsyncReadStream<u8> = AsyncReadStream::new(4, 7);
    s.read_spawned(5).unwrap();
    assert_eq!(s.task(), Some(5));
    assert_eq!(done(s.read(3, Polled::Pending)), Ok(Bytes::new()));
    assert_eq!(s.poll_ready(Polled::Pending), Polled::Pending);
    let e = io(IoErrorKind::TimedOut);
    let outcome = background_read(7, BytesMut::zeroed(4), Err(e));
    assert_eq!(done(s.read(3, Polled::Ready(outcome))), Err(failed(e)));
    assert_eq!(done(s.read(3, Polled::Pending)), Err(StreamError::Closed));

    let mut s: AsyncReadStream<u8> = AsyncReadStream::new(4, 7);
    s.read_spawned(5).unwrap();
    let outcome = background_read(7, BytesMut::zeroed(4), Ok(0));
    assert_eq!(s.poll_ready(Polled::Ready(outcome)), Polled::Ready(()));
    assert_eq!(done(s.read(3, Polled::Pending)), Err(StreamError::Closed));
}

#[test]
fn reads_give_what_was_produced() {
    let produced = b"the quick brown fox jumps over the lazy dog";
    let max = 5;
    let mut at = 0;
    let mut given: Vec<u8> = vec![];
    let mut s: AsyncReadStream<u8> = AsyncReadStream::new(max, 7);
    let mut background: Option<usize> = None;
    for round in 0..200 {
        let size = 1 + round % 7;
        let task = match background.take() {
            Some(len) => {
                let n = len.min(produced.len() - at);
                let mut buf = BytesMut::zeroed(len);
                buf[..n].copy_from_slice(&produced[at..at + n]);
                at += n;
                Polled::Ready(background_read(7, buf, Ok(n)))
            }
            None => Polled::Pending,
        };
        let r = match s.read(size, task) {
            ReadStep::Done(r) => r,
            ReadStep::Try(mut buf) => {
                assert_eq!(buf.len(), size.min(max));
                let n = buf.len().min(produced.len() - at).min(1 + round % 3);
                let polled = if round % 2 == 0 {
                    Polled::Pending
                } else {
                    buf[..n].copy_from_slice(&produced[at..at + n]);
                    at += n;
                    Polled::Ready(Ok(n))
                };
                match s.read_attempted(buf, polled) {
                    ReadAttempt::Done(r) => r,
                    ReadAttempt::Spawn(_, buf) => {
                        background = Some(buf.len());
                        s.read_spawned(1)
                    }
                }
            }
        };
        match r {
            Ok(bytes) => {
                assert!(bytes.len() <= size && bytes.len() <= max);
                given.extend_from_slice(&bytes);
                assert!(produced[..at].starts_with(&given));
            }
            Err(e) => {
                assert_eq!(e, StreamError::Closed);
                break;
            }
        }
    }
    assert_eq!(&given[..], &produced[..]);
}

#[test]
fn canceled_reads_give_the_error_once() {
    let mut s = buffered(b"hello");
    let e = failed(io(IoErrorKind::Other));
    assert_eq!(s.cancel(e.clone()), None);
    assert_eq!(done(s.read(2, Polled::Pending)), Err(e.clone()));
    assert_eq!(done(s.read(2, Polled::Pending)), Err(StreamError::Closed));
    assert_eq!(s.cancel(e.clone()), None);
    assert_eq!(done(s.read(2, Polled::Pending)), Err(StreamError::Closed));

    let mut s: AsyncReadStream<u8> = AsyncReadStream::new(4, 7);
    s.read_spawned(5).unwrap();
    assert_eq!(s.cancel(e.clone()), Some(5));
    assert_eq!(s.task(), Some(5));
    assert_eq!(s.cancel(StreamError::Closed), None);
    assert_eq!(done(s.read(3, Polled::Pending)), Ok(Bytes::new()));
    let outcome = background_read(7, filled(b"late"), Ok(4));
    assert_eq!(done(s.read(3, Polled::Ready(outcome))), Err(e));
    assert_eq!(done(s.read(3, Polled::Pending)), Err(StreamError::Closed));
}

fn ready(max: usize) -> AsyncWriteStream<u8> {
    let mut s = AsyncWriteStream::new(max, 7);
    assert_eq!(s.check_write(Polled::Pending), Ok(max));
    s
}

#[test]
fn writes_need_a_permit() {
    let mut s = AsyncWriteStream::new(4, 7u8);
    assert!(matches!(s.write(Bytes::from_static(b"a")), WriteStep::Done(Err(e)) if e == not_permitted()));
    assert!(matches!(s.write(Bytes::new()), WriteStep::Done(Ok(()))));
    assert_eq!(s.check_write(Polled::Pending), Ok(4));
    assert!(matches!(s.write(Bytes::from_static(b"abcde")), WriteStep::Done(Err(e)) if e == not_permitted()));
    let WriteStep::Try(bytes) = s.write(Bytes::from_static(b"abcd")) else {
        panic!("no attempt")
    };
    assert!(matches!(
        s.write_attempted(bytes, Polled::Ready(Ok(4))),
        WriteAttempt::Done(Ok(()))
    ));
    assert!(matches!(s.state, AsyncWriteState::Ready(7, 4)));
}

#[test]
fn the_rest_is_written_in_the_background() {
    let mut s = ready(9);
    let WriteStep::Try(bytes) = s.write(Bytes::from_static(b"abcd")) else {
        panic!("no attempt")
    };
    let WriteAttempt::Spawn(io, rest) = s.write_attempted(bytes, Polled::Ready(Ok(1))) else {
        panic!("no task")
    };
    assert_eq!((io, &rest[..]), (7, &b"bcd"[..]));
    assert_eq!(s.write_spawned(3), Ok(()));
    assert_eq!(s.task(), Some(3));
    assert_eq!(s.check_write(Polled::Pending), Ok(0));
    assert!(matches!(s.write(Bytes::new()), WriteStep::Done(Err(e)) if e == not_permitted()));
    assert_eq!(s.check_write(Polled::Ready(Ok(8))), Ok(9));
    assert!(matches!(s.state, AsyncWriteState::Ready(8, 9)));

    let WriteAttempt::Spawn(_, rest) = s.write_attempted(Bytes::from_static(b"ab"), Polled::Pending)
    else {
        panic!("no task")
    };
    assert_eq!(&rest[..], b"ab");
    s.write_spawned(4).unwrap();
    let e = io_error();
    assert_eq!(s.check_write(Polled::Ready(Err(e))), Err(failed(e)));
    assert_eq!(s.check_write(Polled::Pending), Err(StreamError::Closed));
}

fn io_error() -> IoError {
    io(IoErrorKind::ConnectionReset)
}

#[test]
fn failed_writes_close_the_stream() {
    for (polled, expected) in [
        (Ok(0), StreamError::Closed),
        (Err(io(IoErrorKind::BrokenPipe)), StreamError::Closed),
        (Err(io_error()), failed(io_error())),
    ] {
        let mut s = ready(9);
        match s.write_attempted(Bytes::from_static(b"ab"), Polled::Ready(polled)) {
            WriteAttempt::Done(Err(e)) => assert_eq!(e, expected),
            other => panic!("{:?}", other),
        }
        assert!(matches!(s.write(Bytes::new()), WriteStep::Done(Err(f)) if f == not_permitted()));
        assert_eq!(s.check_write(Polled::Pending), Err(StreamError::Closed));
    }
}

#[test]
fn flushes_follow_writes() {
    let mut s = ready(9);
    assert!(matches!(s.flush(), DrainStep::Try));
    assert!(matches!(s.state, AsyncWriteState::Ready(7, 0)));
    assert!(matches!(s.flush_attempted(Polled::Ready(Ok(()))), DrainAttempt::Done(Ok(()))));
    assert!(matches!(s.flush_attempted(Polled::Pending), DrainAttempt::Spawn(7)));
    s.flush_spawned(2).unwrap();
    assert!(matches!(s.state, AsyncWriteState::Flushing(2)));
    assert!(matches!(s.flush(), DrainStep::Done(Ok(()))));
    assert_eq!(s.poll_ready(Polled::Ready(Ok(7))), Polled::Ready(()));
    s.write_spawned(3).unwrap();
    assert!(matches!(s.flush(), DrainStep::SpawnAfter(3)));
    s.flush_spawned(4).unwrap();
    assert_eq!(s.poll_ready(Polled::Pending), Polled::Pending);
    assert_eq!(s.poll_ready(Polled::Ready(Ok(7))), Polled::Ready(()));
    let e = io_error();
    match s.flush_attempted(Polled::Ready(Err(e))) {
        DrainAttempt::Done(Err(f)) => assert_eq!(f, failed(e)),
        other => panic!("{:?}", other),
    }
    assert!(matches!(s.flush(), DrainStep::Done(Err(StreamError::Closed))));
}

#[test]
fn shutdowns_accept_no_writes() {
    let mut s = ready(9);
    assert!(matches!(s.shutdown(), DrainStep::Try));
    assert!(matches!(s.shutdown_attempted(Polled::Pending), DrainAttempt::Spawn(7)));
    s.shutdown_spawned(2).unwrap();
    assert!(matches!(s.state, AsyncWriteState::Closing(2)));
    assert_eq!(s.check_write(Polled::Pending), Ok(0));
    assert!(matches!(s.write(Bytes::new()), WriteStep::Done(Err(e)) if e == not_permitted()));
    assert!(matches!(s.shutdown(), DrainStep::Done(Ok(()))));
    assert_eq!(s.poll_ready(Polled::Pending), Polled::Pending);
    assert_eq!(s.check_write(Polled::Ready(Ok(7))), Err(StreamError::Closed));
    assert!(matches!(s.shutdown(), DrainStep::Done(Err(StreamError::Closed))));

    let mut s = ready(9);
    s.write_spawned(3).unwrap();
    assert!(matches!(s.shutdown(), DrainStep::SpawnAfter(3)));
    s.shutdown_spawned(4).unwrap();
    let e = io_error();
    assert_eq!(s.poll_ready(Polled::Ready(Err(e))), Polled::Ready(()));
    assert!(matches!(s.shutdown(), DrainStep::Done(Err(StreamError::Closed))));
    assert_eq!(s.check_write(Polled::Pending), Err(failed(e)));

    let mut s = ready(9);
    assert!(matches!(
        s.shutdown_attempted(Polled::Ready(Err(e))),
        DrainAttempt::Done(Ok(()))
    ));
    assert_eq!(s.check_write(Polled::Pending), Err(failed(e)));
    let mut s = ready(9);
    assert!(matches!(
        s.shutdown_attempted(Polled::Ready(Ok(()))),
        DrainAttempt::Done(Ok(()))
    ));
    assert_eq!(s.check_write(Polled::Pending), Err(StreamError::Closed));
}

#[test]
fn canceled_writes_give_the_error_once() {
    let e = failed(io_error());
    let mut s = ready(9);
    assert_eq!(s.cancel(e.clone()), None);
    assert_eq!(s.check_write(Polled::Pending), Err(e.clone()));
    assert_eq!(s.check_write(Polled::Pending), Err(StreamError::Closed));
    for permit in [0, 9] {
        let mut s = ready(permit);
        assert_eq!(s.cancel(e.clone()), None);
        assert_eq!(s.cancel(StreamError::Closed), None);
        let first = s.write(Bytes::from_static(b"a"));
        assert!(matches!(first, WriteStep::Done(Err(f)) if f == e));
        let second = s.write(Bytes::from_static(b"a"));
        assert!(matches!(second, WriteStep::Done(Err(f)) if f == not_permitted()));
        assert_eq!(s.check_write(Polled::Pending), Err(StreamError::Closed));
    }
    let mut s = ready(9);
    assert_eq!(s.cancel(e.clone()), None);
    assert!(matches!(s.shutdown(), DrainStep::Done(Err(StreamError::Closed))));
    assert!(matches!(&s.state, AsyncWriteState::Canceled(f) if *f == e));
    assert!(matches!(s.flush(), DrainStep::Done(Err(f)) if f == e));
    assert!(matches!(s.state, AsyncWriteState::Closed(StreamError::Closed)));
    let mut s = AsyncWriteStream::new(8, 7u8);
    assert_eq!(s.cancel(StreamError::Closed), None);
    let first = s.write(Bytes::from_static(b"x"));
    assert!(matches!(first, WriteStep::Done(Err(StreamError::Closed))));
    let mut s = ready(9);
    s.write_spawned(3).unwrap();
    assert_eq!(s.cancel(e.clone()), Some(3));
    assert_eq!(s.check_write(Polled::Pending), Ok(0));
    assert!(matches!(s.write(Bytes::new()), WriteStep::Done(Err(f)) if f == not_permitted()));
    assert_eq!(s.cancel(StreamError::Closed), None);
    assert!(matches!(s.shutdown(), DrainStep::Done(Ok(()))));
    assert_eq!(s.check_write(Polled::Ready(Ok(7))), Err(e));
    assert_eq!(s.check_write(Polled::Pending), Err(StreamError::Closed));
}

#[test]
fn shared_streams_are_the_same_stream() {
    let guest = SharedAsyncWriteStream::new(9, 7u8);
    let manager = guest.handle();
    let mut guard = guest.lock();
    assert_eq!(guard.stream.check_write(Polled::Pending), Ok(9));
    guard.stream.write_spawned(3).unwrap();
    guard.unlock();
    let mut begun = manager.shutdown();
    assert!(matches!(begun.step, DrainStep::SpawnAfter(3)));
    begun.guard.stream.shutdown_spawned(4).unwrap();
    begun.guard.unlock();
    let again = manager.shutdown();
    assert!(matches!(again.step, DrainStep::Done(Ok(()))));
    assert!(matches!(again.guard.stream.state, AsyncWriteState::Closing(4)));
    again.guard.unlock();
    let e = failed(io_error());
    let (task, guard) = manager.cancel(e.clone());
    assert_eq!(task, Some(4));
    assert!(matches!(&guard.stream.state, AsyncWriteState::Canceling(4, f) if *f == e));
    guard.unlock();
    let (task, guard) = manager.cancel(StreamError::Closed);
    assert_eq!(task, None);
    guard.unlock();
    let mut guard = guest.lock();
    assert_eq!(guard.stream.check_write(Polled::Ready(Ok(7))), Err(e));
    guard.unlock();
    let closed = manager.shutdown();
    assert!(matches!(closed.step, DrainStep::Done(Err(StreamError::Closed))));
    closed.guard.unlock();

    let guest = SharedAsyncWriteStream::new(8, 7u8);
    let manager = guest.handle();
    let mut begun = manager.shutdown();
    assert!(matches!(begun.step, DrainStep::Try));
    begun.guard.stream.shutdown_attempted(Polled::Ready(Ok(())));
    begun.guard.unlock();
    let again = manager.shutdown();
    assert!(matches!(again.step, DrainStep::Done(Err(StreamError::Closed))));
    again.guard.unlock();
    let mut guard = guest.lock();
    assert_eq!(guard.stream.check_write(Polled::Pending), Err(StreamError::Closed));
    guard.unlock();

    let guest = SharedAsyncReadStream::new(9, 7u8);
    let manager = guest.handle();
    let mut guard = manager.lock();
    guard.stream.read_spawned(5).unwrap();
    guard.unlock();
    let (task, guard) = manager.cancel(StreamError::Closed);
    assert_eq!(task, Some(5));
    guard.unlock();
    let guard = guest.lock();
    assert!(matches!(guard.stream.state, AsyncReadState::Canceling(5, StreamError::Closed)));
    guard.unlock();
}

/// A stream that answers as it is told.
#[derive(Debug)]
struct Scripted {
    reads: VecDeque<StreamResult<Bytes>>,
    checks: VecDeque<StreamResult<usize>>,
    written: Vec<u8>,
    write: StreamResult<()>,
    flush: StreamResult<()>,
    asked: Vec<usize>,
}

fn scripted() -> Scripted {
    Scripted {
        reads: VecDeque::new(),
        checks: VecDeque::new(),
        written: vec![],
        write: Ok(()),
        flush: Ok(()),
        asked: vec![],
    }
}

impl InputStream for Scripted {
    fn read(&mut self, size: usize) -> StreamResult<Bytes> {
        self.asked.push(size);
        self.reads.pop_front().unwrap_or(Ok(Bytes::new()))
    }
}

impl OutputStream for Scripted {
    fn check_write(&mut self) -> StreamResult<usize> {
        self.checks.pop_front().unwrap_or(Ok(0))
    }

    fn write(&mut self, bytes: Bytes) -> StreamResult<()> {
        self.written.extend_from_slice(&bytes);
        self.write.clone()
    }

    fn flush(&mut self) -> StreamResult<()> {
        self.flush.clone()
    }
}

#[test]
fn readers_wait_for_bytes() {
    let mut stream = scripted();
    stream.reads.push_back(Ok(Bytes::new()));
    stream.reads.push_back(Ok(Bytes::from_static(b"abc")));
    stream.reads.push_back(Err(StreamError::Closed));
    let mut reader = InputStreamReader::new(stream);
    let mut attempts = 0;
    let PollStep::Wait(stream) = reader.poll_read(&mut attempts, PollEvent::Start, 10) else {
        panic!("no wait")
    };
    assert_eq!(stream.asked, vec![10]);
    assert!(matches!(
        reader.poll_read(&mut attempts, PollEvent::Waiting(5), 10),
        PollStep::Poll(5)
    ));
    assert!(matches!(
        reader.poll_read(&mut attempts, PollEvent::Polled(Polled::Pending), 10),
        PollStep::Return(Polled::Pending)
    ));
    let mut attempts = 0;
    assert!(matches!(
        reader.poll_read(&mut attempts, PollEvent::Start, 10),
        PollStep::Poll(5)
    ));
    let PollStep::Return(Polled::Ready(Ok(bytes))) =
        reader.poll_read(&mut attempts, PollEvent::Polled(Polled::Ready(stream)), 10)
    else {
        panic!("no bytes")
    };
    assert_eq!(&bytes[..], b"abc");
    assert_eq!(attempts, 1);
    let mut attempts = 0;
    assert!(matches!(
        reader.poll_read(&mut attempts, PollEvent::Start, 0),
        PollStep::Return(Polled::Ready(Ok(b))) if b.is_empty()
    ));
    let mut attempts = 0;
    assert!(matches!(
        reader.poll_read(&mut attempts, PollEvent::Start, 10),
        PollStep::Return(Polled::Ready(Ok(b))) if b.is_empty()
    ));
    assert!(matches!(reader.0, IoStreamState::Closed));
    assert!(matches!(
        reader.poll_read(&mut attempts, PollEvent::Start, 10),
        PollStep::Return(Polled::Ready(Ok(b))) if b.is_empty()
    ));
}

#[test]
fn readers_pass_failures_on() {
    let mut stream = scripted();
    let e = failed(io_error());
    stream.reads.push_back(Err(e.clone()));
    let mut reader = InputStreamReader::new(stream);
    let mut attempts = 0;
    match reader.poll_read(&mut attempts, PollEvent::Start, 10) {
        PollStep::Return(Polled::Ready(Err(TransportError::Other(f)))) => assert_eq!(f, e),
        other => panic!("{:?}", other),
    }
}

#[test]
fn polls_give_up_on_bad_streams() {
    let mut reader = InputStreamReader::new(scripted());
    let mut attempts = 0;
    let mut event = PollEvent::Start;
    let mut waits = 0;
    loop {
        match reader.poll_read(&mut attempts, event, 10) {
            PollStep::Wait(stream) => {
                waits += 1;
                assert!(matches!(
                    reader.poll_read(&mut attempts, PollEvent::Waiting(1), 10),
                    PollStep::Poll(1)
                ));
                event = PollEvent::Polled(Polled::Ready(stream));
            }
            PollStep::Return(Polled::Ready(Err(TransportError::Other(e)))) => {
                assert_eq!(e, StreamError::Trap("bad stream implementation".to_string()));
                break;
            }
            other => panic!("{:?}", other),
        }
    }
    assert_eq!(waits, MAX_ATTEMPTS);
    assert_eq!(attempts, MAX_ATTEMPTS + 1);
    assert!(matches!(reader.0, IoStreamState::Closed));
}

#[test]
fn writers_write_what_is_permitted() {
    assert_eq!(&write_chunk(b"abcd", 2)[..], b"ab");
    assert_eq!(&write_chunk(b"abcd", 9)[..], b"abcd");
    let mut stream = scripted();
    stream.checks.push_back(Ok(3));
    stream.checks.push_back(Ok(0));
    let mut writer = OutputStreamReader::new(stream);
    let mut attempts = 0;
    assert!(matches!(
        writer.poll_write(&mut attempts, PollEvent::Start, b""),
        PollStep::Return(Polled::Ready(Ok(0)))
    ));
    let mut attempts = 0;
    assert!(matches!(
        writer.poll_write(&mut attempts, PollEvent::Start, b"abcde"),
        PollStep::Return(Polled::Ready(Ok(3)))
    ));
    let mut attempts = 0;
    let PollStep::Wait(mut stream) = writer.poll_write(&mut attempts, PollEvent::Start, b"de")
    else {
        panic!("no wait")
    };
    assert_eq!(stream.written, b"abc");
    stream.checks.push_back(Err(StreamError::Closed));
    assert!(matches!(
        writer.poll_write(&mut attempts, PollEvent::Polled(Polled::Ready(stream)), b"de"),
        PollStep::Return(Polled::Ready(Err(TransportError::BrokenPipe)))
    ));
    assert!(matches!(
        writer.poll_write(&mut attempts, PollEvent::Start, b"de"),
        PollStep::Return(Polled::Ready(Err(TransportError::BrokenPipe)))
    ));
    let mut stream = scripted();
    stream.checks.push_back(Ok(3));
    let e = failed(io_error());
    stream.write = Err(e.clone());
    let mut writer = OutputStreamReader::new(stream);
    let mut attempts = 0;
    match writer.poll_write(&mut attempts, PollEvent::Start, b"de") {
        PollStep::Return(Polled::Ready(Err(TransportError::Other(f)))) => assert_eq!(f, e),
        other => panic!("{:?}", other),
    }
}

#[test]
fn writers_flush_and_shut_down() {
    let mut stream = scripted();
    stream.checks.push_back(Ok(0));
    stream.checks.push_back(Ok(1));
    let mut writer = OutputStreamReader::new(stream);
    let mut attempts = 0;
    assert!(matches!(
        writer.poll_flush(&mut attempts, PollEvent::Start),
        PollStep::Return(Polled::Ready(Ok(())))
    ));
    let mut attempts = 0;
    let PollStep::Wait(stream) = writer.poll_shutdown(&mut attempts, PollEvent::Start) else {
        panic!("no wait")
    };
    assert!(matches!(
        writer.poll_shutdown(&mut attempts, PollEvent::Waiting(3)),
        PollStep::Poll(3)
    ));
    assert!(matches!(
        writer.poll_shutdown(&mut attempts, PollEvent::Polled(Polled::Pending)),
        PollStep::Return(Polled::Pending)
    ));
    assert!(matches!(writer.0, IoStreamState::Pending(3)));
    let mut attempts = 0;
    assert!(matches!(
        writer.poll_shutdown(&mut attempts, PollEvent::Polled(Polled::Ready(stream))),
        PollStep::Return(Polled::Ready(Ok(())))
    ));
    assert!(matches!(writer.0, IoStreamState::Closed));
    assert!(matches!(
        writer.poll_flush(&mut attempts, PollEvent::Start),
        PollStep::Return(Polled::Ready(Err(TransportError::BrokenPipe)))
    ));

    let mut stream = scripted();
    stream.flush = Err(StreamError::Closed);
    let mut writer = OutputStreamReader::new(stream);
    let mut attempts = 0;
    assert!(matches!(
        writer.poll_shutdown(&mut attempts, PollEvent::Start),
        PollStep::Return(Polled::Ready(Err(TransportError::BrokenPipe)))
    ));
}
