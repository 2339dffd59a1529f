use bytes::Bytes;
use wasi_host::errno::{Errnos, Platform};
use wasi_host::error::{Failure, IoError, IoErrorKind, Polled, StreamError};
use wasi_host::filesystem::host::filesystem_error_code;
use wasi_host::filesystem::types::ErrorCode;
use wasi_host::streams::adapter::{InputStream as Reads, OutputStream as Writes};
use wasi_host::streams::write::DrainStep;
use wasi_host::table::{drop_resource, Entry, EntryKind, InputStream, OutputStream, TableError};
use wasi_host::tls::client::{
    close_output, FutureState, FutureStreams, HandshakeCause, HandshakeError, TlsError, TlsHalves,
    TlsTrap, TrapReason, WasiTlsCtx, MAX_READ, MAX_WRITE,
};
use wasi_host::tls::host;
use wasi_host::tls::host::{ClientConnection, Connected, FutureClientStreams, Tombstone, Tombstones};
use wasi_host::tls::writer::{
    try_lock_for_stream, CloseNotify, TlsOutcome, TlsWrite, TlsWriter, WriteLoop, WriteState,
    READY_SIZE,
};
use wasmtime::component::{Resource, ResourceTable};

#[test]
fn test_future_client_streams_ready_can_be_canceled() {
    let mut future_streams: FutureStreams<()> = FutureStreams(FutureState::Pending(1));

    assert_eq!(future_streams.ready(Polled::Pending), Polled::Pending);

    //cancel the readiness check
    match future_streams.0 {
        FutureState::Consumed => panic!("First future should be in Pending/ready state"),
        _ => (),
    }

    // make it ready and wait for it to progress
    assert_eq!(future_streams.ready(Polled::Ready(Ok(()))), Polled::Ready(()));

    match future_streams.0 {
        FutureState::Ready(Ok(())) => (),
        _ => panic!("First future should be in Ready(Err) state"),
    }
}

fn io(kind: IoErrorKind) -> IoError {
    IoError { kind, raw_os_error: None }
}

fn put(table: &mut ResourceTable, entry: Entry) -> u32 {
    table.push(entry).unwrap().rep()
}

fn at(table: &ResourceTable, key: u32) -> &Entry {
    table.get(&Resource::<Entry>::new_borrow(key)).unwrap()
}

fn consumed() -> StreamError {
    StreamError::Trap("stream has been consumed".to_string())
}

#[test]
fn futures_are_ready_once() {
    let mut f: FutureStreams<u8> = FutureStreams(FutureState::Consumed);
    assert_eq!(f.ready(Polled::Pending), Polled::Ready(()));
    assert_eq!(f, FutureStreams(FutureState::Consumed));
    let mut f: FutureStreams<u8> = FutureStreams(FutureState::Ready(Ok(1)));
    assert_eq!(f.ready(Polled::Ready(Ok(2))), Polled::Ready(()));
    assert_eq!(f, FutureStreams(FutureState::Ready(Ok(1))));
}

fn reason(message: &str) -> TrapReason {
    TrapReason { message: message.to_string(), cause: None }
}

#[test]
fn handshake_errors_are_told_apart() {
    let from = |kind: IoErrorKind, cause: HandshakeCause| {
        TlsError::from_handshake(HandshakeError { kind, cause })
    };
    let abrupt = TlsError::Tls("underlying transport closed abruptly".to_string());
    assert_eq!(from(IoErrorKind::BrokenPipe, HandshakeCause::Other("late".to_string())), abrupt);
    assert_eq!(
        from(IoErrorKind::UnexpectedEof, HandshakeCause::Stream(StreamError::Closed)),
        abrupt
    );
    let failure = Failure::Io(io(IoErrorKind::ConnectionReset));
    assert_eq!(
        from(
            IoErrorKind::Other,
            HandshakeCause::Stream(StreamError::LastOperationFailed(failure.clone()))
        ),
        TlsError::Io(failure)
    );
    assert_eq!(
        from(IoErrorKind::Other, HandshakeCause::Stream(StreamError::Trap("t".to_string()))),
        TlsError::Trap(reason("t"))
    );
    assert_eq!(
        from(IoErrorKind::Other, HandshakeCause::Tls("bad certificate".to_string())),
        TlsError::Tls("bad certificate".to_string())
    );
    assert_eq!(
        from(IoErrorKind::TimedOut, HandshakeCause::Other("late".to_string())),
        TlsError::Trap(TrapReason {
            message: "unknown wasi-tls error".to_string(),
            cause: Some("late".to_string()),
        })
    );
}

fn handshake(table: &mut ResourceTable, name: &str) -> (u32, u32, u32) {
    let i = put(table, Entry::InputStream(InputStream::Host(1)));
    let o = put(table, Entry::OutputStream(OutputStream::Host(2)));
    let h = WasiTlsCtx::new(table).new_handshake(name.to_string(), i, o).unwrap();
    (i, o, h)
}

#[test]
fn handshakes_take_their_streams() {
    let mut table = ResourceTable::new();
    let (i, o, h) = handshake(&mut table, "example.com");
    assert!(matches!(at(&table, h), Entry::ClientHandShake(_)));
    assert!(i == h || !table.get(&Resource::<Entry>::new_borrow(i)).is_ok());
    assert!(o == h || !table.get(&Resource::<Entry>::new_borrow(o)).is_ok());
    let mut ctx = WasiTlsCtx::new(&mut table);
    assert_eq!(
        ctx.new_handshake("a".to_string(), 99, 98),
        Err(TableError::NotPresent)
    );
    assert_eq!(
        ctx.new_handshake("a".to_string(), h, 98),
        Err(TableError::WrongType)
    );
    let i = put(&mut table, Entry::InputStream(InputStream::Host(1)));
    let mut ctx = WasiTlsCtx::new(&mut table);
    assert_eq!(
        ctx.new_handshake("a".to_string(), i, 98),
        Err(TableError::NotPresent)
    );
    assert!(table.get(&Resource::<Entry>::new_borrow(i)).is_err());
}

#[test]
fn servers_need_names() {
    for (name, valid) in [
        ("example.com", true),
        ("127.0.0.1", true),
        ("::1", true),
        ("", false),
        ("not a name", false),
        ("-bad-.com", false),
    ] {
        let mut table = ResourceTable::new();
        let (_, _, h) = handshake(&mut table, name);
        let taken = WasiTlsCtx::new(&mut table).finish(h).unwrap();
        assert!(WasiTlsCtx::new(&mut table).finish(h).is_err());
        match taken.connect() {
            Ok((n, _)) => {
                assert!(valid);
                assert_eq!(n, name);
            }
            Err(e) => {
                assert!(!valid);
                assert_eq!(e, TlsError::Tls("invalid server name".to_string()));
            }
        }
    }
}

fn end(table: &mut ResourceTable, future: u32, result: Result<TlsHalves, TlsError>) {
    match table.get_mut(&Resource::<Entry>::new_borrow(future)) {
        Ok(Entry::FutureClientStreams(f)) => {
            assert_eq!(f.ready(Polled::Ready(result)), Polled::Ready(()));
        }
        _ => panic!("no future"),
    }
}

#[test]
fn connections_are_given_once() {
    let mut table = ResourceTable::new();
    let f = WasiTlsCtx::new(&mut table).finish_spawned(3).unwrap();
    assert_eq!(WasiTlsCtx::new(&mut table).get(f), Ok(None));
    end(&mut table, f, Ok(TlsHalves { rx: 10, tx: 11 }));
    let Ok(Some(Ok(Ok((c, i, o))))) = WasiTlsCtx::new(&mut table).get(f) else {
        panic!("no connection")
    };
    assert_eq!(WasiTlsCtx::new(&mut table).get(f), Ok(Some(Err(()))));
    assert!(matches!(
        at(&table, i),
        Entry::InputStream(InputStream::Async(s)) if s.max_read == MAX_READ
    ));
    let Entry::OutputStream(OutputStream::Shared(s)) = at(&table, o) else {
        panic!("no stream")
    };
    let mut guard = s.lock();
    assert_eq!(guard.stream.check_write(Polled::Pending), Ok(MAX_WRITE));
    guard.unlock();
    match close_output(&table, c) {
        Ok(begun) => {
            assert!(matches!(begun.step, DrainStep::Try));
            let mut guard = begun.guard;
            assert!(matches!(
                guard.stream.state,
                wasi_host::streams::write::AsyncWriteState::Ready(11, _)
            ));
            guard.stream.shutdown_attempted(Polled::Ready(Ok(())));
            guard.unlock();
        }
        Err(e) => panic!("{:?}", e),
    }
    let mut guard = s.lock();
    assert_eq!(guard.stream.check_write(Polled::Pending), Err(StreamError::Closed));
    guard.unlock();
    match close_output(&table, c) {
        Ok(again) => {
            assert!(matches!(again.step, DrainStep::Done(Err(StreamError::Closed))));
            again.guard.unlock();
        }
        Err(e) => panic!("{:?}", e),
    }
    assert!(matches!(close_output(&table, i), Err(TableError::WrongType)));
    assert!(matches!(close_output(&table, 99), Err(TableError::NotPresent)));
    assert_eq!(
        drop_resource(&mut table, c, EntryKind::ClientConnection),
        Err(TableError::HasChildren)
    );
    assert_eq!(drop_resource(&mut table, i, EntryKind::InputStream), Ok(()));
    assert_eq!(drop_resource(&mut table, o, EntryKind::OutputStream), Ok(()));
    assert_eq!(drop_resource(&mut table, c, EntryKind::ClientConnection), Ok(()));
    assert_eq!(drop_resource(&mut table, f, EntryKind::FutureClientStreams), Ok(()));
    assert_eq!(
        WasiTlsCtx::new(&mut table).get(f),
        Err(TlsTrap::Table(TableError::NotPresent))
    );
}

#[test]
fn failed_handshakes_are_told() {
    let platform = Platform { errnos: Errnos::host(), windows: false };
    let errnos = platform.errnos;
    let mut table = ResourceTable::new();
    let f = WasiTlsCtx::new(&mut table).finish_spawned(3).unwrap();
    end(&mut table, f, Err(TlsError::Trap(reason("t"))));
    assert_eq!(
        WasiTlsCtx::new(&mut table).get(f),
        Err(TlsTrap::Handshake(reason("t")))
    );
    assert_eq!(WasiTlsCtx::new(&mut table).get(f), Ok(Some(Err(()))));

    let f = WasiTlsCtx::new(&mut table).finish_spawned(3).unwrap();
    let e = IoError { kind: IoErrorKind::Other, raw_os_error: Some(errnos.pipe) };
    end(&mut table, f, Err(TlsError::Io(Failure::Io(e))));
    let Ok(Some(Ok(Err(error)))) = WasiTlsCtx::new(&mut table).get(f) else {
        panic!("no error")
    };
    assert_eq!(filesystem_error_code(&table, &platform, error), Ok(Some(ErrorCode::Pipe)));

    let f = WasiTlsCtx::new(&mut table).finish_spawned(3).unwrap();
    end(&mut table, f, Err(TlsError::Tls("m".to_string())));
    let Ok(Some(Ok(Err(error)))) = WasiTlsCtx::new(&mut table).get(f) else {
        panic!("no error")
    };
    assert!(matches!(at(&table, error), Entry::Error(Failure::Tls(m)) if m == "m"));
    assert_eq!(filesystem_error_code(&table, &platform, error), Ok(None));
    assert_eq!(filesystem_error_code(&table, &platform, f), Err(TableError::WrongType));
    assert_eq!(filesystem_error_code(&table, &platform, 99), Err(TableError::NotPresent));
}

#[test]
fn tls_writes_go_on_in_the_background() {
    assert_eq!(READY_SIZE, 1024 * 1024 * 1024);
    let mut w = TlsWriter::new(7u8);
    assert_eq!(w.check_write(), Ok(READY_SIZE));
    assert!(matches!(w.write(Bytes::new()), Ok(TlsWrite::Done)));
    let Ok(TlsWrite::Spawn(7, mut rest)) = w.write(Bytes::from_static(b"abc")) else {
        panic!("no task")
    };
    w.write_spawned(3);
    assert!(!rest.is_done());
    rest.written(2);
    assert_eq!(&rest.bytes[..], b"c");
    rest.written(1);
    assert!(rest.is_done());
    assert_eq!(w.task(), Some(3));
    assert_eq!(w.check_write(), Ok(0));
    assert_eq!(w.flush(), Ok(()));
    assert_eq!(
        w.write(Bytes::new()).unwrap_err(),
        StreamError::Trap("unpermitted: must call check_write first".to_string())
    );
    w.ready(TlsOutcome::Written(Ok(8)));
    assert!(matches!(w.state, WriteState::Ready(8)));
    w.write_spawned(4);
    let e = io(IoErrorKind::ConnectionReset);
    w.ready(TlsOutcome::Written(Err(e)));
    assert_eq!(w.flush(), Ok(()));
    assert_eq!(
        w.check_write(),
        Err(StreamError::LastOperationFailed(Failure::Io(e)))
    );
    assert_eq!(w.check_write(), Err(StreamError::Closed));
    assert_eq!(w.flush(), Err(StreamError::Closed));
    assert!(WriteLoop { bytes: Bytes::new() }.is_done());
}

#[test]
fn tls_connections_are_closed_after_writes() {
    let mut table = ResourceTable::new();
    let mut w = TlsWriter::new(7u8);
    let answer = w.close_notify();
    assert!(matches!(answer, CloseNotify::Shutdown(7)));
    assert_eq!(host::close_notified(&mut table, &answer), Ok(None));
    w.close_spawned(5);
    assert_eq!(w.check_write(), Ok(0));
    assert!(matches!(w.close_notify(), CloseNotify::Closing));
    assert_eq!(w.task(), Some(5));
    w.ready(TlsOutcome::ShutDown(Ok(())));
    let answer = w.close_notify();
    assert!(matches!(answer, CloseNotify::Closed(Ok(()))));
    assert_eq!(host::close_notified(&mut table, &answer), Ok(Some(Ok(()))));

    let mut w = TlsWriter::new(7u8);
    w.write_spawned(6);
    assert!(matches!(w.close_notify(), CloseNotify::ShutdownAfter(6)));
    w.close_spawned(7);
    let e = io(IoErrorKind::ConnectionReset);
    w.ready(TlsOutcome::ShutDown(Err(e)));
    let answer = w.close_notify();
    let Ok(Some(Err(key))) = host::close_notified(&mut table, &answer) else {
        panic!("no error")
    };
    assert!(matches!(at(&table, key), Entry::Error(Failure::Io(f)) if *f == e));
    assert!(matches!(w.close_notify(), CloseNotify::Closed(Ok(()))));

    let mut w = TlsWriter::new(7u8);
    w.write_spawned(6);
    assert_eq!(w.cancel(), Some(6));
    assert_eq!(w.cancel(), None);
    assert_eq!(w.check_write(), Err(StreamError::Closed));
    assert_eq!(try_lock_for_stream(Some(1)), Ok(1));
    assert_eq!(
        try_lock_for_stream::<u8>(None),
        Err(StreamError::Trap("concurrent access to resource not supported".to_string()))
    );
}

#[test]
fn tombstones_stand_for_streams() {
    let mut t = Tombstone;
    assert_eq!(Reads::read(&mut t, 3), Err(consumed()));
    assert_eq!(Writes::check_write(&mut t), Err(consumed()));
    assert_eq!(Writes::write(&mut t, Bytes::new()), Err(consumed()));
    assert_eq!(Writes::flush(&mut t), Err(consumed()));

    let mut table = ResourceTable::new();
    let parent = put(&mut table, Entry::Error(Failure::Other("parent".to_string())));
    let i = table
        .push_child(
            Entry::InputStream(InputStream::Host(1)),
            &Resource::<Entry>::new_borrow(parent),
        )
        .unwrap()
        .rep();
    let o = put(&mut table, Entry::OutputStream(OutputStream::Host(2)));
    let h = host::new_handshake(&mut table, "example.com".to_string(), i, o).unwrap();
    assert!(matches!(at(&table, i), Entry::InputStream(InputStream::Tombstone)));
    assert!(matches!(at(&table, o), Entry::OutputStream(OutputStream::Tombstone)));
    assert_eq!(
        drop_resource(&mut table, parent, EntryKind::Error),
        Err(TableError::HasChildren)
    );
    assert_eq!(
        host::new_handshake(&mut table, "a".to_string(), o, i),
        Err(TableError::WrongType)
    );
    assert_eq!(
        host::new_handshake(&mut table, "a".to_string(), 99, i),
        Err(TableError::NotPresent)
    );
    let Ok(handshake) = host::finish(&mut table, h) else { panic!("no handshake") };
    let Ok(handshake) = handshake.connect() else { panic!("no server") };
    assert_eq!(handshake.server_name, "example.com");
    assert_eq!(handshake.tombstones, Tombstones { input: i, output: o });
    assert!(matches!(handshake.input, InputStream::Host(1)));
    assert!(matches!(handshake.output, OutputStream::Host(2)));
    let f = host::finish_spawned(&mut table, handshake.tombstones, 4).unwrap();
    assert_eq!(host::get(&mut table, f), Ok(None));
    let connected =
        Connected { rx: 10, writer: 11, protocol_version: 0x0304, cipher_suite: 0x1301 };
    match table.get_mut(&Resource::<Entry>::new_borrow(f)) {
        Ok(Entry::HandshakeStreams(s)) => {
            assert_eq!(s.ready(Polled::Pending), Polled::Pending);
            assert_eq!(s.ready(Polled::Ready(Ok(connected))), Polled::Ready(()));
        }
        _ => panic!("no future"),
    }
    let Ok(Some(Ok(Ok((c, ci, co))))) = host::get(&mut table, f) else {
        panic!("no connection")
    };
    assert_eq!(host::get(&mut table, f), Ok(Some(Err(()))));
    assert_eq!(
        host::connection(&table, c),
        Ok(ClientConnection {
            tombstones: Tombstones { input: i, output: o },
            writer: 11,
            protocol_version: 0x0304,
            cipher_suite: 0x1301,
        })
    );
    assert_eq!(host::connection(&table, f), Err(TableError::WrongType));
    assert_eq!(host::drop_streams(&mut table, f), Ok(()));
    assert!(matches!(at(&table, i), Entry::InputStream(InputStream::Tombstone)));
    assert_eq!(host::drop_connection(&mut table, c), Err(TableError::HasChildren));
    drop_resource(&mut table, ci, EntryKind::InputStream).unwrap();
    drop_resource(&mut table, co, EntryKind::OutputStream).unwrap();
    assert_eq!(host::drop_connection(&mut table, c), Ok(()));
    assert!(table.get(&Resource::<Entry>::new_borrow(i)).is_err());
    assert!(table.get(&Resource::<Entry>::new_borrow(o)).is_err());
    assert_eq!(drop_resource(&mut table, parent, EntryKind::Error), Ok(()));
    assert_eq!(host::get(&mut table, 99), Err(TableError::NotPresent));
}

#[test]
fn tombstones_go_with_what_has_them() {
    let mut table = ResourceTable::new();
    let i = put(&mut table, Entry::InputStream(InputStream::Host(1)));
    let o = put(&mut table, Entry::OutputStream(OutputStream::Host(2)));
    let h = host::new_handshake(&mut table, "a".to_string(), i, o).unwrap();
    assert_eq!(host::drop_handshake(&mut table, h), Ok(()));
    assert!(table.get(&Resource::<Entry>::new_borrow(i)).is_err());
    assert_eq!(host::drop_handshake(&mut table, 99), Err(TableError::NotPresent));

    let i = put(&mut table, Entry::InputStream(InputStream::Tombstone));
    let o = put(&mut table, Entry::OutputStream(OutputStream::Tombstone));
    let t = Tombstones { input: i, output: o };
    let mut future = FutureClientStreams::Pending(t, 4);
    assert_eq!(future.ready(Polled::Ready(Err(()))), Polled::Ready(()));
    assert_eq!(future, FutureClientStreams::Ready(t, Err(())));
    assert_eq!(future.ready(Polled::Pending), Polled::Ready(()));
    let f = put(&mut table, Entry::HandshakeStreams(future));
    assert_eq!(host::get(&mut table, f), Ok(Some(Ok(Err(())))));
    assert_eq!(host::get(&mut table, f), Ok(Some(Err(()))));
    assert_eq!(host::drop_streams(&mut table, f), Ok(()));
    assert!(table.get(&Resource::<Entry>::new_borrow(o)).is_err());
    assert_eq!(t.delete(&mut table), Err(TableError::NotPresent));
}

#[test]
fn a_handshake_needs_the_name_of_a_server() {
    let tombstones = Tombstones { input: 3, output: 4 };
    let named = |name: &str| host::ClientHandshake {
        tombstones,
        server_name: name.to_string(),
        input: InputStream::Host(1),
        output: OutputStream::Host(2),
    };
    for name in ["example.com", "127.0.0.1", "::1"] {
        let Ok(handshake) = named(name).connect() else { panic!("{}", name) };
        assert_eq!(handshake.server_name, name);
        assert!(matches!(handshake.input, InputStream::Host(1)));
        assert!(matches!(handshake.output, OutputStream::Host(2)));
        assert_eq!(handshake.tombstones, tombstones);
    }
    for name in ["", "not a name", "a..b"] {
        let Err(left) = named(name).connect() else { panic!("{}", name) };
        assert_eq!(left, tombstones);
    }
}
