use std::collections::VecDeque;
use wasi_host::errno::{Errnos, Platform};
use wasi_host::error::{IoError, IoErrorKind, Polled, StreamError};
use wasi_host::sockets::address::{
    IpAddress, IpAddressFamily, IpSocketAddress, Ipv4SocketAddress, Ipv6SocketAddress,
};
use wasi_host::sockets::errors::{ErrorCode, SocketError, SocketTrap};
use wasi_host::sockets::guest;
use wasi_host::sockets::guest::{
    HostCall, Procedure, Reply, Step, StreamStatus, Subscription, TcpSock, WriteReply, WriteStep,
};
use wasi_host::sockets::host;
use wasi_host::sockets::name_lookup::{Lookup, Network, ResolveAddressStream};
use wasi_host::sockets::tcp::{
    ConnectPoll, EndedStreams, FinishConnect, PoolOutcome, Readiness, ShutdownType, TcpSocket, TcpState,
};
use wasi_host::sockets::udp::{
    hop_limit_answered, HopLimitStep, IncomingDatagram, IncomingDatagramStream, OutgoingDatagram,
    OutgoingDatagramStream, ReceiveStep, SendStep, StreamStep, UdpSocket, UdpState,
    MAX_UDP_DATAGRAM_SIZE,
};
use wasi_host::sockets::{buffer_size, SocketCall};
use wasi_host::streams::read::{AsyncReadState, AsyncReadStream};
use wasi_host::streams::write::{AsyncWriteState, AsyncWriteStream};
use wasi_host::table::{Entry, EntryKind, TableError};
use wasmtime::component::ResourceTable;

fn posix() -> Platform {
    Platform { errnos: Errnos::host(), windows: false }
}

fn windows() -> Platform {
    Platform { errnos: Errnos { bounded: false, ..Errnos::host() }, windows: true }
}

fn os(raw: i32) -> IoError {
    IoError { kind: IoErrorKind::Other, raw_os_error: Some(raw) }
}

fn of_kind(kind: IoErrorKind) -> IoError {
    IoError { kind, raw_os_error: None }
}

fn code(c: ErrorCode) -> SocketError {
    SocketError::Code(c)
}

fn trap(e: TableError) -> SocketError {
    SocketError::Trap(SocketTrap::Table(e))
}

fn v4(port: u16) -> IpSocketAddress {
    IpSocketAddress::new(IpAddress::ipv4_loopback(), port)
}

fn v6(port: u16) -> IpSocketAddress {
    IpSocketAddress::new(IpAddress::ipv6_loopback(), port)
}

fn tcp(state: TcpState) -> TcpSocket {
    TcpSocket { inner: 5, state, family: IpAddressFamily::Ipv4, backlog: None }
}

const ALL_TCP_STATES: [TcpState; 9] = [
    TcpState::Default,
    TcpState::BindStarted,
    TcpState::Bound,
    TcpState::ListenStarted,
    TcpState::Listening,
    TcpState::Connecting,
    TcpState::ConnectReady,
    TcpState::ConnectFailed,
    TcpState::Connected,
];

#[test]
fn addresses_keep_their_parts() {
    let a = IpSocketAddress::new(IpAddress::Ipv4((10, 0, 0, 1)), 80);
    assert_eq!(a, IpSocketAddress::Ipv4(Ipv4SocketAddress { port: 80, address: (10, 0, 0, 1) }));
    assert_eq!(a.ip(), IpAddress::Ipv4((10, 0, 0, 1)));
    assert_eq!(a.port(), 80);
    assert_eq!(a.family(), IpAddressFamily::Ipv4);
    let b = v6(443);
    assert_eq!(
        b,
        IpSocketAddress::Ipv6(Ipv6SocketAddress {
            port: 443,
            flow_info: 0,
            address: (0, 0, 0, 0, 0, 0, 0, 1),
            scope_id: 0,
        })
    );
    assert_eq!(b.ip().family(), IpAddressFamily::Ipv6);
    assert_ne!(a, b);
    assert_ne!(IpAddress::ipv4_loopback(), IpAddress::ipv4_mapped_loopback());
    assert_eq!(
        IpAddress::ipv4_mapped_loopback(),
        IpAddress::Ipv6((0, 0, 0, 0, 0, 0xFFFF, 0x7F00, 0x0001))
    );
    for family in [IpAddressFamily::Ipv4, IpAddressFamily::Ipv6] {
        assert_eq!(IpAddress::new_loopback(family).family(), family);
        assert!(IpAddress::new_unspecified(family).is_unspecified());
        assert!(!IpAddress::new_loopback(family).is_unspecified());
    }
    assert_eq!(IpAddress::new_unspecified(IpAddressFamily::Ipv4), IpAddress::Ipv4((0, 0, 0, 0)));
}

#[test]
fn error_numbers_come_in_the_order_of_their_names() {
    let mut a = [0; 20];
    let mut b = [0; 20];
    let mut c = [0; 18];
    for i in 0..20 {
        a[i] = 1 + i as i32;
        b[i] = 21 + i as i32;
    }
    for i in 0..18 {
        c[i] = 41 + i as i32;
    }
    let e = Errnos::from_numbers(a, b, c, true);
    assert_eq!((e.access, e.addrinuse, e.inprogress), (1, 2, 20));
    assert_eq!((e.intr, e.looped, e.nospc), (21, 26, 40));
    assert_eq!((e.nosys, e.pipe, e.wouldblock), (41, 51, 58));
    assert!(e.bounded);
    assert!(!Errnos::from_numbers(a, b, c, false).bounded);
}

#[test]
fn error_numbers_have_a_range() {
    let past = std::io::Error::from_raw_os_error(4096);
    assert_eq!(Errnos::host().bounded, rustix::io::Errno::from_io_error(&past).is_none());
    let bounded = Errnos { timedout: 10060, bounded: true, ..Errnos::host() };
    let unbounded = Errnos { bounded: false, ..bounded };
    assert_eq!(unbounded.errno(os(10060)), Some(10060));
    assert_eq!(unbounded.socket_error(os(10060)), code(ErrorCode::Timeout));
    assert_eq!(bounded.errno(os(10060)), None);
    assert_eq!(bounded.socket_error(os(10060)), SocketError::Trap(SocketTrap::Unknown));
    assert_eq!(bounded.errno(os(4095)), Some(4095));
    assert_eq!(bounded.errno(os(4096)), None);
    assert_eq!(bounded.errno(os(1)), Some(1));
    assert_eq!(unbounded.errno(os(-1)), Some(-1));
    assert_eq!(bounded.errno(os(-1)), None);
    assert_eq!(unbounded.errno(os(0)), None);
    let refused = IoError { kind: IoErrorKind::ConnectionRefused, raw_os_error: Some(10061) };
    assert_eq!(bounded.errno(refused), Some(bounded.connrefused));
    assert_eq!(unbounded.errno(refused), Some(10061));
}

#[test]
fn socket_errors_are_told_apart() {
    let h = Errnos::host();
    for (raw, expected) in [
        (h.wouldblock, ErrorCode::WouldBlock),
        (h.again, ErrorCode::WouldBlock),
        (h.intr, ErrorCode::WouldBlock),
        (h.access, ErrorCode::AccessDenied),
        (h.perm, ErrorCode::AccessDenied),
        (h.addrinuse, ErrorCode::AddressInUse),
        (h.addrnotavail, ErrorCode::AddressNotBindable),
        (h.already, ErrorCode::ConcurrencyConflict),
        (h.connrefused, ErrorCode::ConnectionRefused),
        (h.connreset, ErrorCode::ConnectionReset),
        (h.netreset, ErrorCode::ConnectionReset),
        (h.inval, ErrorCode::InvalidArgument),
        (h.destaddrreq, ErrorCode::InvalidArgument),
        (h.hostunreach, ErrorCode::RemoteUnreachable),
        (h.hostdown, ErrorCode::RemoteUnreachable),
        (h.netdown, ErrorCode::RemoteUnreachable),
        (h.netunreach, ErrorCode::RemoteUnreachable),
        (h.isconn, ErrorCode::InvalidState),
        (h.notconn, ErrorCode::InvalidState),
        (h.mfile, ErrorCode::NewSocketLimit),
        (h.nfile, ErrorCode::NewSocketLimit),
        (h.msgsize, ErrorCode::DatagramTooLarge),
        (h.nomem, ErrorCode::OutOfMemory),
        (h.nobufs, ErrorCode::OutOfMemory),
        (h.timedout, ErrorCode::Timeout),
        (h.opnotsupp, ErrorCode::NotSupported),
        (h.noprotoopt, ErrorCode::NotSupported),
        (h.pfnosupport, ErrorCode::NotSupported),
        (h.protonosupport, ErrorCode::NotSupported),
        (h.prototype, ErrorCode::NotSupported),
        (h.socktnosupport, ErrorCode::NotSupported),
        (h.afnosupport, ErrorCode::NotSupported),
    ] {
        assert_eq!(h.socket_errno(raw), code(expected));
        assert_eq!(h.socket_error(os(raw)), code(expected));
    }
    for (raw, expected) in [
        (h.connaborted, SocketTrap::ConnectionAborted),
        (h.inprogress, SocketTrap::InProgress),
        (h.fault, SocketTrap::SafetyViolation),
        (h.nosys, SocketTrap::SafetyViolation),
        (h.badf, SocketTrap::SafetyViolation),
        (h.badfd, SocketTrap::SafetyViolation),
        (h.notsock, SocketTrap::SafetyViolation),
        (h.noent, SocketTrap::Unknown),
    ] {
        assert_eq!(h.socket_errno(raw), SocketError::Trap(expected));
    }
    for (kind, expected) in [
        (IoErrorKind::AddrInUse, code(ErrorCode::AddressInUse)),
        (IoErrorKind::AddrNotAvailable, code(ErrorCode::AddressNotBindable)),
        (IoErrorKind::AlreadyExists, SocketError::Trap(SocketTrap::Unknown)),
        (IoErrorKind::BrokenPipe, SocketError::Trap(SocketTrap::Unknown)),
        (IoErrorKind::ConnectionAborted, SocketError::Trap(SocketTrap::ConnectionAborted)),
        (IoErrorKind::ConnectionRefused, code(ErrorCode::ConnectionRefused)),
        (IoErrorKind::ConnectionReset, code(ErrorCode::ConnectionReset)),
        (IoErrorKind::Interrupted, code(ErrorCode::WouldBlock)),
        (IoErrorKind::InvalidInput, code(ErrorCode::InvalidArgument)),
        (IoErrorKind::NotConnected, code(ErrorCode::InvalidState)),
        (IoErrorKind::NotFound, SocketError::Trap(SocketTrap::Unknown)),
        (IoErrorKind::OutOfMemory, code(ErrorCode::OutOfMemory)),
        (IoErrorKind::PermissionDenied, code(ErrorCode::AccessDenied)),
        (IoErrorKind::TimedOut, code(ErrorCode::Timeout)),
        (IoErrorKind::Unsupported, code(ErrorCode::NotSupported)),
        (IoErrorKind::WouldBlock, code(ErrorCode::WouldBlock)),
        (IoErrorKind::UnexpectedEof, SocketError::Trap(SocketTrap::Unknown)),
        (IoErrorKind::Other, SocketError::Trap(SocketTrap::Unknown)),
    ] {
        assert_eq!(h.socket_error(of_kind(kind)), expected);
    }
    let out_of_range = IoError { kind: IoErrorKind::TimedOut, raw_os_error: Some(0) };
    assert_eq!(h.socket_error(out_of_range), code(ErrorCode::Timeout));
    assert_eq!(h.socket_result(Ok(1)), Ok(1));
    assert_eq!(h.socket_result::<u8>(Err(os(h.timedout))), Err(code(ErrorCode::Timeout)));
    assert_eq!(SocketTrap::Unknown.message(), "Unknown network error");
    assert_eq!(SocketTrap::SafetyViolation.message(), "Safety violation");
    assert_eq!(
        SocketTrap::ConnectionAborted.message(),
        "ECONNABORTED should have been handled by accept()"
    );
    assert_eq!(
        SocketTrap::InProgress.message(),
        "EINPROGRESS should have been handled by start-connect()"
    );
    assert_eq!(SocketTrap::StreamsNotDropped.message(), "UDP streams not dropped yet");
    assert_eq!(SocketTrap::Table(TableError::Full).message(), "resource table has no free keys");
    assert_eq!(TableError::NotPresent.message(), "resource not present");
    assert_eq!(TableError::WrongType.message(), "resource is of another type");
    assert_eq!(TableError::HasChildren.message(), "resource has children");
}

#[test]
fn tcp_sockets_are_bound_in_two_steps() {
    let p = posix();
    let h = p.errnos;
    let mut s = TcpSocket::new(5, IpAddressFamily::Ipv4);
    assert_eq!(s.start_bind(v6(0)), Err(ErrorCode::InvalidArgument));
    assert_eq!(s.start_bind(v4(0)), Ok(SocketCall::TcpBind { socket: 5, address: v4(0) }));
    assert_eq!(
        s.bind_started(&p, PoolOutcome::Refused(of_kind(IoErrorKind::PermissionDenied))),
        Err(code(ErrorCode::AccessDenied))
    );
    assert_eq!(
        s.bind_started(&p, PoolOutcome::Asked(Err(os(h.afnosupport)))),
        Err(code(ErrorCode::InvalidArgument))
    );
    assert_eq!(
        s.bind_started(&p, PoolOutcome::Asked(Err(os(h.addrinuse)))),
        Err(code(ErrorCode::AddressInUse))
    );
    assert_eq!(
        s.bind_started(&p, PoolOutcome::Asked(Err(os(h.nobufs)))),
        Err(code(ErrorCode::OutOfMemory))
    );
    assert_eq!(
        s.bind_started(&windows(), PoolOutcome::Asked(Err(os(h.nobufs)))),
        Err(code(ErrorCode::AddressInUse))
    );
    assert_eq!(s.state, TcpState::Default);
    assert_eq!(s.bind_started(&p, PoolOutcome::Asked(Ok(()))), Ok(()));
    assert_eq!(s.state, TcpState::BindStarted);
    assert_eq!(s.start_bind(v4(0)), Err(ErrorCode::ConcurrencyConflict));
    assert_eq!(s.finish_bind(), Ok(()));
    assert_eq!(s.state, TcpState::Bound);
    assert_eq!(s.finish_bind(), Err(ErrorCode::NotInProgress));
    assert_eq!(s.start_bind(v4(0)), Err(ErrorCode::InvalidState));
}

#[test]
fn tcp_sockets_connect_in_two_steps() {
    let p = posix();
    let h = p.errnos;
    let s = tcp(TcpState::Default);
    assert_eq!(s.start_connect(v6(1)), Err(ErrorCode::InvalidArgument));
    assert_eq!(s.start_connect(v4(0)), Err(ErrorCode::InvalidArgument));
    assert_eq!(
        s.start_connect(IpSocketAddress::new(IpAddress::ipv4_unspecified(), 1)),
        Err(ErrorCode::InvalidArgument)
    );
    assert_eq!(s.start_connect(v4(1)), Ok(SocketCall::TcpConnect { socket: 5, address: v4(1) }));
    assert_eq!(tcp(TcpState::Bound).start_connect(v4(1)), Err(ErrorCode::InvalidState));
    assert_eq!(tcp(TcpState::Connecting).start_connect(v4(1)), Err(ErrorCode::ConcurrencyConflict));

    let started = |platform: &Platform, outcome: PoolOutcome| {
        let mut s = tcp(TcpState::Default);
        let r = s.connect_started(platform, outcome);
        (r, s.state)
    };
    assert_eq!(
        started(&p, PoolOutcome::Refused(of_kind(IoErrorKind::PermissionDenied))),
        (Err(code(ErrorCode::AccessDenied)), TcpState::Default)
    );
    assert_eq!(started(&p, PoolOutcome::Asked(Ok(()))), (Ok(()), TcpState::ConnectReady));
    let asked = |raw: i32| PoolOutcome::Asked(Err(os(raw)));
    assert_eq!(started(&p, asked(h.inprogress)), (Ok(()), TcpState::Connecting));
    assert_eq!(started(&windows(), asked(h.wouldblock)), (Ok(()), TcpState::Connecting));
    let failed = TcpState::ConnectFailed;
    assert_eq!(
        started(&p, asked(h.wouldblock)),
        (Err(code(ErrorCode::AddressInUse)), failed)
    );
    assert_eq!(
        started(&windows(), asked(h.inprogress)),
        (Err(SocketError::Trap(SocketTrap::InProgress)), failed)
    );
    assert_eq!(
        started(&p, asked(h.afnosupport)),
        (Err(code(ErrorCode::InvalidArgument)), failed)
    );
    assert_eq!(started(&p, asked(h.addrnotavail)), (Err(code(ErrorCode::AddressInUse)), failed));
    assert_eq!(
        started(&windows(), asked(h.addrnotavail)),
        (Err(code(ErrorCode::InvalidArgument)), failed)
    );
    assert_eq!(
        started(&p, asked(h.connrefused)),
        (Err(code(ErrorCode::ConnectionRefused)), failed)
    );

    let mut s = tcp(TcpState::Connecting);
    assert_eq!(
        s.finish_connect(),
        Ok(FinishConnect::Ask(SocketCall::TcpConnectEnded { socket: 5 }))
    );
    assert_eq!(
        s.connect_finished(&p, ConnectPoll::NotReady),
        Err(code(ErrorCode::WouldBlock))
    );
    assert_eq!(s.state, TcpState::Connecting);
    assert_eq!(s.connect_finished(&p, ConnectPoll::Ended(Ok(()))), Ok(()));
    assert_eq!(s.state, TcpState::Connected);
    let mut s = tcp(TcpState::Connecting);
    assert_eq!(
        s.connect_finished(&p, ConnectPoll::Ended(Err(h.connrefused))),
        Err(code(ErrorCode::ConnectionRefused))
    );
    assert_eq!(s.state, failed);
    assert_eq!(s.start_connect(v4(1)), Err(ErrorCode::InvalidState));
    assert_eq!(tcp(TcpState::ConnectReady).finish_connect(), Ok(FinishConnect::Ready));
}

#[test]
fn tcp_sockets_listen_in_two_steps() {
    let p = posix();
    let h = p.errnos;
    let mut s = tcp(TcpState::Bound);
    assert_eq!(s.start_listen(), Ok(SocketCall::TcpListen { socket: 5, backlog: None }));
    for (raw, expected) in [
        (h.destaddrreq, ErrorCode::InvalidState),
        (h.inval, ErrorCode::InvalidState),
        (h.mfile, ErrorCode::NewSocketLimit),
        (h.addrinuse, ErrorCode::AddressInUse),
    ] {
        assert_eq!(s.listen_started(&p, Err(os(raw))), Err(code(expected)));
    }
    assert_eq!(
        s.listen_started(&windows(), Err(os(h.mfile))),
        Err(code(ErrorCode::OutOfMemory))
    );
    assert_eq!(s.state, TcpState::Bound);
    assert_eq!(s.listen_started(&p, Ok(())), Ok(()));
    assert_eq!(s.start_listen(), Err(ErrorCode::ConcurrencyConflict));
    assert_eq!(s.finish_listen(), Ok(()));
    assert_eq!(s.state, TcpState::Listening);
    assert_eq!(s.finish_listen(), Err(ErrorCode::NotInProgress));
    assert_eq!(
        s.set_listen_backlog_size(32),
        Ok(Some(SocketCall::TcpListen { socket: 5, backlog: Some(32) }))
    );
    assert_eq!(s.set_listen_backlog_size(1 << 31), Err(ErrorCode::OutOfMemory));
    assert_eq!(s, tcp(TcpState::Listening));
    for state in ALL_TCP_STATES {
        let mut s = tcp(state);
        match state {
            TcpState::Bound => {
                assert_eq!(s.set_listen_backlog_size(1 << 31), Err(ErrorCode::OutOfMemory));
                assert_eq!(s, tcp(state));
                assert_eq!(s.set_listen_backlog_size((1 << 31) - 1), Ok(None));
                assert_eq!(
                    s.start_listen(),
                    Ok(SocketCall::TcpListen { socket: 5, backlog: Some(i32::MAX) })
                );
            }
            TcpState::Listening => {}
            _ => {
                assert_eq!(s.set_listen_backlog_size(32), Err(ErrorCode::NotInProgress));
                assert_eq!(s, tcp(state));
            }
        }
    }
}

#[test]
fn accepts_skip_transient_errors() {
    let p = posix();
    let h = p.errnos;
    let s = tcp(TcpState::Listening);
    assert_eq!(s.accept(), Ok(SocketCall::TcpAccept { socket: 5 }));
    assert_eq!(
        s.accepted(&p, Ok(9)),
        Ok(TcpSocket { inner: 9, ..tcp(TcpState::Connected) })
    );
    for raw in [
        h.connaborted, h.connreset, h.netreset, h.hostunreach, h.hostdown, h.netdown,
        h.netunreach, h.proto, h.noprotoopt, h.nonet, h.opnotsupp, h.wouldblock,
    ] {
        assert_eq!(s.accepted(&p, Err(os(raw))), Err(code(ErrorCode::WouldBlock)));
    }
    for raw in [h.nomem, h.nobufs, h.mfile, h.nfile] {
        assert_eq!(s.accepted(&p, Err(os(raw))), Err(code(ErrorCode::OutOfMemory)));
    }
    assert_eq!(s.accepted(&p, Err(os(h.inval))), Err(code(ErrorCode::InvalidState)));
    assert_eq!(
        s.accepted(&p, Err(os(h.inprogress))),
        Err(SocketError::Trap(SocketTrap::InProgress))
    );
    assert_eq!(
        s.accepted(&windows(), Err(os(h.inprogress))),
        Err(code(ErrorCode::WouldBlock))
    );
    assert_eq!(
        s.accepted(&p, Err(of_kind(IoErrorKind::Other))),
        Err(SocketError::Trap(SocketTrap::Unknown))
    );
}

#[test]
fn shutdowns_end_streams() {
    let p = posix();
    let s = tcp(TcpState::Connected);
    for (how, input, output) in [
        (ShutdownType::Receive, true, false),
        (ShutdownType::Send, false, true),
        (ShutdownType::Both, true, true),
    ] {
        let ended = s.shut_down(&p, how, Ok(())).unwrap();
        assert_eq!(ended, EndedStreams { input, output });

        let mut stream = AsyncReadStream::new(9, 7u64);
        assert_eq!(ended.end_input(&mut stream), None);
        assert_eq!(matches!(stream.state, AsyncReadState::Ready(7, _)), !input);
        let mut stream = AsyncReadStream { state: AsyncReadState::<u64>::Reading(3), max_read: 9 };
        assert_eq!(ended.end_input(&mut stream), if input { Some(3) } else { None });

        let mut stream = AsyncWriteStream::new(9, 7u64);
        assert_eq!(ended.end_output(&mut stream), None);
        assert_eq!(
            stream.check_write(Polled::Pending),
            if output { Err(StreamError::Closed) } else { Ok(9) }
        );
        let mut stream =
            AsyncWriteStream { state: AsyncWriteState::<u64>::Writing(3), max_write: 9 };
        assert_eq!(ended.end_output(&mut stream), if output { Some(3) } else { None });
        assert_eq!(stream.check_write(Polled::Pending), Ok(0));
    }
    assert_eq!(
        s.shut_down(&p, ShutdownType::Both, Err(os(p.errnos.notconn))),
        Err(p.errnos.socket_error(os(p.errnos.notconn)))
    );
}

#[test]
fn tcp_socket_options() {
    let s4 = tcp(TcpState::Bound);
    let s6 = TcpSocket { family: IpAddressFamily::Ipv6, ..tcp(TcpState::Default) };
    assert_eq!(s4.address_family(), IpAddressFamily::Ipv4);
    assert_eq!(s4.unicast_hop_limit(), SocketCall::IpTtl { socket: 5 });
    assert_eq!(s6.unicast_hop_limit(), SocketCall::Ipv6UnicastHops { socket: 5 });
    assert_eq!(s4.set_unicast_hop_limit(9), SocketCall::SetIpTtl { socket: 5, value: 9 });
    assert_eq!(
        s6.set_unicast_hop_limit(9),
        SocketCall::SetIpv6UnicastHops { socket: 5, value: 9 }
    );
    assert_eq!(
        s6.set_ipv6_only(true),
        Ok(SocketCall::SetIpv6Only { socket: 5, value: true })
    );
    let s6 = TcpSocket { state: TcpState::BindStarted, ..s6 };
    assert_eq!(s6.set_ipv6_only(true), Err(ErrorCode::ConcurrencyConflict));
    for state in ALL_TCP_STATES {
        let expected = match state {
            TcpState::BindStarted | TcpState::ListenStarted | TcpState::ConnectReady => {
                Readiness::Immediate
            }
            _ => Readiness::ReadableOrWritable(5),
        };
        assert_eq!(tcp(state).subscribe(), expected);
    }
    assert_eq!(
        tcp(TcpState::Connected).shutdown(ShutdownType::Send),
        Ok(SocketCall::Shutdown { socket: 5, shutdown_type: ShutdownType::Send })
    );
    for state in [TcpState::Connecting, TcpState::ConnectReady] {
        assert_eq!(
            tcp(state).shutdown(ShutdownType::Both),
            Err(ErrorCode::ConcurrencyConflict)
        );
    }
    assert_eq!(tcp(TcpState::Listening).shutdown(ShutdownType::Both), Err(ErrorCode::InvalidState));
    assert_eq!(buffer_size(16000), Ok(16000));
    assert_eq!(
        s4.set_receive_buffer_size(16000),
        Ok(SocketCall::SetReceiveBufferSize { socket: 5, value: 16000 })
    );
    assert_eq!(
        s4.set_send_buffer_size(16001),
        Ok(SocketCall::SetSendBufferSize { socket: 5, value: 16001 })
    );
    let u = UdpSocket::new(6, IpAddressFamily::Ipv6);
    assert_eq!(
        u.set_receive_buffer_size(16000),
        Ok(SocketCall::SetReceiveBufferSize { socket: 6, value: 16000 })
    );
    assert_eq!(
        u.set_send_buffer_size(16001),
        Ok(SocketCall::SetSendBufferSize { socket: 6, value: 16001 })
    );
    for state in ALL_TCP_STATES {
        assert_eq!(tcp(state).close(&posix()), None);
        let wakes = match state {
            TcpState::Listening | TcpState::Connecting | TcpState::Connected => {
                Some(SocketCall::Shutdown { socket: 5, shutdown_type: ShutdownType::Both })
            }
            _ => None,
        };
        assert_eq!(tcp(state).close(&windows()), wakes);
    }
    assert_eq!(tcp(TcpState::Connecting).local_address(), Err(ErrorCode::InvalidState));
    assert_eq!(
        tcp(TcpState::Connected).remote_address(),
        Ok(SocketCall::PeerAddress { socket: 5 })
    );
}

#[test]
fn one_tcp_operation_at_a_time() {
    for state in [
        TcpState::BindStarted,
        TcpState::ListenStarted,
        TcpState::Connecting,
        TcpState::ConnectReady,
    ] {
        let s = tcp(state);
        assert_eq!(s.start_bind(v4(0)), Err(ErrorCode::ConcurrencyConflict));
        assert_eq!(s.start_connect(v4(1)), Err(ErrorCode::ConcurrencyConflict));
        assert_eq!(s.start_listen(), Err(ErrorCode::ConcurrencyConflict));
    }
}

#[test]
fn udp_sockets_are_bound_in_two_steps() {
    let p = posix();
    let mut s = UdpSocket::new(5, IpAddressFamily::Ipv4);
    assert_eq!(s.address_family(), IpAddressFamily::Ipv4);
    assert_eq!(s.start_bind(v4(7)), Ok(SocketCall::UdpBind { socket: 5, address: v4(7) }));
    assert_eq!(
        s.bind_started(&p, PoolOutcome::Refused(of_kind(IoErrorKind::PermissionDenied))),
        Err(code(ErrorCode::AccessDenied))
    );
    assert_eq!(
        s.bind_started(&p, PoolOutcome::Asked(Err(os(p.errnos.addrinuse)))),
        Err(code(ErrorCode::AddressInUse))
    );
    assert_eq!(s.finish_bind(), Err(ErrorCode::NotInProgress));
    assert_eq!(s.bind_started(&p, PoolOutcome::Asked(Ok(()))), Ok(()));
    assert_eq!(s.start_bind(v4(7)), Err(ErrorCode::ConcurrencyConflict));
    assert_eq!(s.finish_bind(), Ok(()));
    assert_eq!(s.start_bind(v4(7)), Err(ErrorCode::InvalidState));
    assert_eq!(s.stream(false, None), Ok(StreamStep::Open));
    assert_eq!(
        s.stream(false, Some(v4(8))),
        Ok(StreamStep::Connect(SocketCall::UdpConnect { socket: 5, address: v4(8) }))
    );
    assert_eq!(
        s.stream(true, None),
        Err(SocketError::Trap(SocketTrap::StreamsNotDropped))
    );
    assert_eq!(
        s.stream_connected(&p, Err(p.errnos.netunreach)),
        Err(code(ErrorCode::RemoteUnreachable))
    );
    assert_eq!(s.state, UdpState::Bound);
    assert_eq!(s.stream_connected(&p, Ok(())), Ok(()));
    assert_eq!(s.stream(false, None), Err(code(ErrorCode::NotSupported)));
    assert_eq!(
        UdpSocket::new(5, IpAddressFamily::Ipv4).stream(false, None),
        Err(code(ErrorCode::InvalidState))
    );
    assert_eq!(hop_limit_answered(&p, Ok(3u8)), HopLimitStep::Done(Ok(3)));
    assert_eq!(
        hop_limit_answered::<u8>(&p, Err(p.errnos.noprotoopt)),
        HopLimitStep::TryIpv4
    );
    assert_eq!(
        hop_limit_answered::<u8>(&p, Err(p.errnos.badf)),
        HopLimitStep::Done(Err(SocketError::Trap(SocketTrap::SafetyViolation)))
    );
    assert_eq!(MAX_UDP_DATAGRAM_SIZE, 65535);
}

#[test]
fn datagrams_are_received_up_to_a_limit() {
    let p = posix();
    let stream = IncomingDatagramStream { inner: 5, remote_address: None };
    assert!(matches!(stream.receive(0).next(), ReceiveStep::Done(Ok(v)) if v.is_empty()));
    let ReceiveStep::Attempt(call, receiving) = stream.receive(2).next() else {
        panic!("no attempt")
    };
    assert_eq!(call, SocketCall::ReceiveFrom { socket: 5 });
    let ReceiveStep::Attempt(_, receiving) = receiving.received(&p, Ok((vec![1], v4(1)))) else {
        panic!("no attempt")
    };
    let ReceiveStep::Done(Ok(datagrams)) = receiving.received(&p, Ok((vec![2], v4(2)))) else {
        panic!("not done")
    };
    assert_eq!(
        datagrams,
        vec![
            IncomingDatagram { data: vec![1], remote_address: v4(1) },
            IncomingDatagram { data: vec![2], remote_address: v4(2) },
        ]
    );
    let ReceiveStep::Attempt(_, receiving) = stream.receive(2).next() else {
        panic!("no attempt")
    };
    let ReceiveStep::Attempt(_, receiving) = receiving.received(&p, Ok((vec![1], v4(1)))) else {
        panic!("no attempt")
    };
    assert!(matches!(
        receiving.received(&p, Err(os(p.errnos.wouldblock))),
        ReceiveStep::Done(Ok(v)) if v.len() == 1
    ));
    let ReceiveStep::Attempt(_, receiving) = stream.receive(2).next() else {
        panic!("no attempt")
    };
    assert!(matches!(
        receiving.received(&p, Err(os(p.errnos.wouldblock))),
        ReceiveStep::Done(Err(SocketError::Code(ErrorCode::WouldBlock)))
    ));
    let connected = IncomingDatagramStream { inner: 5, remote_address: Some(v4(1)) };
    let ReceiveStep::Attempt(_, receiving) = connected.receive(2).next() else {
        panic!("no attempt")
    };
    let ReceiveStep::Attempt(_, receiving) = receiving.received(&p, Ok((vec![1], v4(1)))) else {
        panic!("no attempt")
    };
    assert!(matches!(
        receiving.received(&p, Ok((vec![2], v4(2)))),
        ReceiveStep::Done(Ok(v)) if v.len() == 1
    ));
}

#[test]
fn sending_never_fails_after_a_datagram() {
    let p = posix();
    let to = |a: Option<IpSocketAddress>| OutgoingDatagram { data: vec![1], remote_address: a };
    let open = OutgoingDatagramStream { inner: 5, remote_address: None };
    let connected = OutgoingDatagramStream { inner: 5, remote_address: Some(v4(1)) };
    assert_eq!(open.send(vec![]).next(), SendStep::Done(Ok(0)));
    assert_eq!(open.send(vec![to(Some(v4(2)))]).next(), SendStep::SendTo(0, v4(2)));
    assert_eq!(
        open.send(vec![to(None)]).next(),
        SendStep::Done(Err(code(ErrorCode::InvalidArgument)))
    );
    assert_eq!(connected.send(vec![to(None)]).next(), SendStep::SendTo(0, v4(1)));
    assert_eq!(connected.send(vec![to(Some(v4(1)))]).next(), SendStep::SendTo(0, v4(1)));
    assert_eq!(
        connected.send(vec![to(Some(v4(2)))]).next(),
        SendStep::Done(Err(code(ErrorCode::InvalidArgument)))
    );
    let mut sending = open.send(vec![to(Some(v4(2))), to(Some(v4(3))), to(None)]);
    assert_eq!(
        sending.sent(&p, Err(os(p.errnos.msgsize))),
        SendStep::Done(Err(code(ErrorCode::DatagramTooLarge)))
    );
    assert_eq!(sending.sent(&p, Ok(())), SendStep::SendTo(1, v4(3)));
    assert_eq!(sending.sent(&p, Err(os(p.errnos.msgsize))), SendStep::Done(Ok(1)));
    assert_eq!(sending.sent(&p, Ok(())), SendStep::Done(Ok(2)));
    let mut sending = connected.send(vec![to(None)]);
    assert_eq!(sending.sent(&p, Ok(())), SendStep::Done(Ok(1)));
}

#[test]
fn names_are_looked_up_where_allowed() {
    let p = posix();
    let closed = Network { pool: 1, allow_ip_name_lookup: false };
    let open = Network { pool: 1, allow_ip_name_lookup: true };
    assert_eq!(
        closed.resolve_addresses("a".to_string(), None, false),
        Err(ErrorCode::PermanentResolverFailure)
    );
    let lookup = open.resolve_addresses("a".to_string(), None, true).unwrap();
    assert_eq!(lookup, Lookup { name: "a".to_string(), family: None });
    let found = vec![
        IpAddress::ipv6_loopback(),
        IpAddress::ipv4_loopback(),
        IpAddress::ipv6_unspecified(),
    ];
    assert_eq!(lookup.found(found.clone()), found);
    let only = |family| Lookup { name: "a".to_string(), family: Some(family) };
    assert_eq!(only(IpAddressFamily::Ipv4).found(found.clone()), vec![IpAddress::ipv4_loopback()]);
    assert_eq!(
        only(IpAddressFamily::Ipv6).found(found),
        vec![IpAddress::ipv6_loopback(), IpAddress::ipv6_unspecified()]
    );

    let mut s = ResolveAddressStream::Waiting(3);
    assert_eq!(s.resolve_next_address(&p, None), Err(code(ErrorCode::WouldBlock)));
    let addresses = VecDeque::from(vec![IpAddress::ipv4_loopback(), IpAddress::ipv6_loopback()]);
    assert_eq!(
        s.resolve_next_address(&p, Some(Ok(addresses))),
        Ok(Some(IpAddress::ipv4_loopback()))
    );
    assert_eq!(s.resolve_next_address(&p, None), Ok(Some(IpAddress::ipv6_loopback())));
    assert_eq!(s.resolve_next_address(&p, None), Ok(None));
    let mut s = ResolveAddressStream::Waiting(3);
    s.ready(Err(os(p.errnos.timedout)));
    assert_eq!(s.resolve_next_address(&p, None), Err(code(ErrorCode::Timeout)));
    assert_eq!(s.resolve_next_address(&p, None), Ok(None));
}

fn run(p: &mut Procedure, reply: Reply<u8>) -> Step<u8> {
    p.go_on(reply)
}

#[test]
fn guests_wait_until_it_is_done() {
    let sock = TcpSock::new(Ok(4)).unwrap();
    assert_eq!(TcpSock::new(Err(ErrorCode::NewSocketLimit)), Err(ErrorCode::NewSocketLimit));
    assert_eq!(
        TcpSock::create(IpAddressFamily::Ipv6),
        HostCall::CreateTcpSocket(IpAddressFamily::Ipv6)
    );
    assert_eq!(sock.close(), HostCall::DropTcpSocket(4));
    let mut p = sock.bind(1, v4(0));
    assert_eq!(run(&mut p, Reply::Begin), Step::Call(HostCall::SubscribeSocket(4)));
    assert_eq!(
        run(&mut p, Reply::Subscribed(8)),
        Step::Call(HostCall::StartBind { socket: 4, network: 1, address: v4(0) })
    );
    assert_eq!(
        run(&mut p, Reply::Started(Err(ErrorCode::InvalidArgument))),
        Step::Return(Err(ErrorCode::InvalidArgument))
    );
    assert_eq!(run(&mut p, Reply::Started(Ok(()))), Step::Call(HostCall::FinishBind(4)));
    assert_eq!(
        run(&mut p, Reply::Finished(Err(ErrorCode::WouldBlock))),
        Step::Call(HostCall::PollOneoff(8))
    );
    assert_eq!(run(&mut p, Reply::Polled(false)), Step::Call(HostCall::PollOneoff(8)));
    assert_eq!(run(&mut p, Reply::Polled(true)), Step::Call(HostCall::FinishBind(4)));
    assert_eq!(run(&mut p, Reply::Finished(Ok(3))), Step::Return(Ok(3)));
    assert_eq!(p.subscription.unwrap().close(), HostCall::DropPollable(8));

    let mut p = sock.accept();
    assert_eq!(run(&mut p, Reply::Subscribed(8)), Step::Call(HostCall::Accept(4)));
    let mut p = sock.listen();
    assert_eq!(run(&mut p, Reply::Subscribed(8)), Step::Call(HostCall::StartListen(4)));
    assert_eq!(run(&mut p, Reply::Started(Ok(()))), Step::Call(HostCall::FinishListen(4)));
    let mut p = sock.connect(1, v4(9));
    assert_eq!(
        run(&mut p, Reply::Subscribed(8)),
        Step::Call(HostCall::StartConnect { socket: 4, network: 1, address: v4(9) })
    );
    assert_eq!(run(&mut p, Reply::Started(Ok(()))), Step::Call(HostCall::FinishConnect(4)));
    assert_eq!(TcpSock::accepted(Ok((6, 7, 8))), Ok((TcpSock { fd: 6 }, 7, 8)));
    assert_eq!(
        TcpSock::accepted(Err(ErrorCode::InvalidState)),
        Err(ErrorCode::InvalidState)
    );
    let s = Subscription::new(3);
    assert_eq!(s.wait(None), Some(HostCall::PollOneoff(3)));
    assert_eq!(s.wait(Some(false)), Some(HostCall::PollOneoff(3)));
    assert_eq!(s.wait(Some(true)), None);
}

#[test]
fn guests_write_in_chunks() {
    let mut w = guest::write(2, b"abcde");
    assert_eq!(w.go_on(WriteReply::Begin), WriteStep::Call(HostCall::SubscribeOutput(2)));
    assert_eq!(w.go_on(WriteReply::Subscribed(8)), WriteStep::Call(HostCall::PollOneoff(8)));
    assert_eq!(w.go_on(WriteReply::Polled(false)), WriteStep::Call(HostCall::PollOneoff(8)));
    assert_eq!(w.go_on(WriteReply::Polled(true)), WriteStep::Call(HostCall::CheckWrite(2)));
    assert_eq!(
        w.go_on(WriteReply::Checked(Ok(3))),
        WriteStep::Call(HostCall::Write(2, 0, 3))
    );
    assert_eq!(w.go_on(WriteReply::Written(Ok(()))), WriteStep::Call(HostCall::BlockingFlush(2)));
    assert_eq!(w.go_on(WriteReply::Flushed(Ok(()))), WriteStep::Call(HostCall::PollOneoff(8)));
    assert_eq!(
        w.go_on(WriteReply::Checked(Ok(u64::MAX))),
        WriteStep::Call(HostCall::Write(2, 3, 5))
    );
    for broken in [
        WriteReply::Checked(Err(())),
        WriteReply::Written(Err(())),
        WriteReply::Flushed(Err(())),
    ] {
        let mut w = w;
        assert_eq!(w.go_on(broken), WriteStep::Return(3, StreamStatus::Ended));
    }
    assert_eq!(
        w.go_on(WriteReply::Flushed(Ok(()))),
        WriteStep::Return(5, StreamStatus::Open)
    );
    let mut w = guest::write(2, b"");
    assert_eq!(w.go_on(WriteReply::Subscribed(8)), WriteStep::Return(0, StreamStatus::Open));
}

fn put(table: &mut ResourceTable, entry: Entry) -> u32 {
    table.push(entry).unwrap().rep()
}

#[test]
fn the_host_keeps_sockets_in_its_table() {
    let p = posix();
    let mut table = ResourceTable::new();
    let net = Network { pool: 1, allow_ip_name_lookup: false };
    let n = put(&mut table, Entry::Network(net));
    let t = host::create_tcp_socket(&mut table, &p, IpAddressFamily::Ipv4, Ok(5)).unwrap();
    assert_eq!(
        host::create_tcp_socket(
            &mut table,
            &p,
            IpAddressFamily::Ipv4,
            Err(os(p.errnos.mfile))
        ),
        Err(code(ErrorCode::NewSocketLimit))
    );
    assert_eq!(
        host::start_bind(&table, t, n, v4(0)),
        Ok((SocketCall::TcpBind { socket: 5, address: v4(0) }, net))
    );
    assert_eq!(host::start_bind(&table, t, n, v6(0)), Err(code(ErrorCode::InvalidArgument)));
    assert_eq!(host::start_bind(&table, t, t, v4(0)), Err(trap(TableError::WrongType)));
    assert_eq!(host::start_bind(&table, 99, n, v4(0)), Err(trap(TableError::NotPresent)));
    assert_eq!(
        host::start_connect(&table, t, n, v4(1)),
        Ok((SocketCall::TcpConnect { socket: 5, address: v4(1) }, net))
    );
    let mut s = host::tcp_socket(&table, t).unwrap();
    s.connect_started(&p, PoolOutcome::Asked(Err(os(p.errnos.inprogress)))).unwrap();
    host::update_tcp_socket(&mut table, t, s).unwrap();
    assert_eq!(
        host::finish_connect(&mut table, &p, t, ConnectPoll::NotReady, 20, 21),
        Err(code(ErrorCode::WouldBlock))
    );
    let (i, o) =
        host::finish_connect(&mut table, &p, t, ConnectPoll::Ended(Ok(())), 20, 21).unwrap();
    assert_ne!(i, o);
    assert_eq!(host::tcp_socket(&table, t).unwrap().state, TcpState::Connected);
    assert_eq!(
        host::finish_connect(&mut table, &p, t, ConnectPoll::Ended(Ok(())), 20, 21),
        Err(code(ErrorCode::NotInProgress))
    );
    let drop = wasi_host::table::drop_resource;
    assert_eq!(drop(&mut table, t, EntryKind::TcpSocket), Err(TableError::HasChildren));
    assert_eq!(drop(&mut table, i, EntryKind::InputStream), Ok(()));
    assert_eq!(drop(&mut table, t, EntryKind::TcpSocket), Err(TableError::HasChildren));
    assert_eq!(drop(&mut table, o, EntryKind::OutputStream), Ok(()));
    assert_eq!(host::drop_tcp_socket(&mut table, &p, t), Ok(None));
    assert_eq!(host::drop_tcp_socket(&mut table, &p, t), Err(TableError::NotPresent));
    let t = put(&mut table, Entry::TcpSocket(tcp(TcpState::Connected)));
    assert_eq!(
        host::drop_tcp_socket(&mut table, &windows(), t),
        Ok(Some(SocketCall::Shutdown { socket: 5, shutdown_type: ShutdownType::Both }))
    );

    let failing = put(&mut table, Entry::TcpSocket(tcp(TcpState::Connecting)));
    assert_eq!(
        host::finish_connect(
            &mut table,
            &p,
            failing,
            ConnectPoll::Ended(Err(p.errnos.connrefused)),
            20,
            21
        ),
        Err(code(ErrorCode::ConnectionRefused))
    );
    assert_eq!(host::tcp_socket(&table, failing).unwrap().state, TcpState::ConnectFailed);

    let l = put(&mut table, Entry::TcpSocket(tcp(TcpState::Listening)));
    assert_eq!(
        host::accept(&mut table, &p, l, Err(os(p.errnos.connaborted)), 30, 31),
        Err(code(ErrorCode::WouldBlock))
    );
    let (s, i, o) = host::accept(&mut table, &p, l, Ok(6), 30, 31).unwrap();
    assert_eq!(
        host::tcp_socket(&table, s),
        Ok(TcpSocket { inner: 6, ..tcp(TcpState::Connected) })
    );
    assert!(s != i && s != o && i != o);
    assert_eq!(drop(&mut table, s, EntryKind::TcpSocket), Err(TableError::HasChildren));
    assert_eq!(
        host::accept(&mut table, &p, s, Ok(6), 30, 31),
        Err(code(ErrorCode::InvalidState))
    );
    assert_eq!(host::tcp_socket(&table, n), Err(trap(TableError::WrongType)));
    assert_eq!(drop(&mut table, n, EntryKind::Network), Ok(()));
}

#[test]
fn udp_streams_are_exclusive() {
    let p = posix();
    let mut table = ResourceTable::new();
    let n = put(
        &mut table,
        Entry::Network(Network { pool: 1, allow_ip_name_lookup: false }),
    );
    let bound = UdpSocket { inner: 5, state: UdpState::Bound, family: IpAddressFamily::Ipv4 };
    let u = put(&mut table, Entry::UdpSocket(bound));
    assert_eq!(
        host::udp_start_bind(&table, u, n, v4(0)),
        Err(code(ErrorCode::InvalidState))
    );
    assert_eq!(host::udp_stream(&table, 99, None), Err(trap(TableError::NotPresent)));
    assert_eq!(host::udp_stream(&table, n, None), Err(trap(TableError::WrongType)));
    assert_eq!(host::udp_stream(&table, u, None), Ok(StreamStep::Open));
    let (i, o) = host::streams_opened(&mut table, &p, u, None, Ok(())).unwrap();
    assert_eq!(host::udp_socket(&table, u), Ok(bound));
    let active = Err(SocketError::Trap(SocketTrap::StreamsNotDropped));
    assert_eq!(host::udp_stream(&table, u, None), active);
    let drop = wasi_host::table::drop_resource;
    assert_eq!(drop(&mut table, i, EntryKind::IncomingDatagramStream), Ok(()));
    assert_eq!(host::udp_stream(&table, u, None), active);
    assert_eq!(drop(&mut table, o, EntryKind::OutgoingDatagramStream), Ok(()));
    assert!(matches!(
        host::udp_stream(&table, u, Some(v4(9))),
        Ok(StreamStep::Connect(_))
    ));
    assert_eq!(
        host::streams_opened(&mut table, &p, u, Some(v4(9)), Err(p.errnos.netunreach)),
        Err(code(ErrorCode::RemoteUnreachable))
    );
    let (i, _) = host::streams_opened(&mut table, &p, u, Some(v4(9)), Ok(())).unwrap();
    assert_eq!(host::udp_socket(&table, u).unwrap().state, UdpState::Connected);
    let resource = wasmtime::component::Resource::<Entry>::new_borrow(i);
    assert!(matches!(
        table.get(&resource),
        Ok(Entry::IncomingDatagramStream(s)) if s.remote_address == Some(v4(9))
    ));
    let other = table
        .push_child("foreign".to_string(), &wasmtime::component::Resource::<Entry>::new_borrow(n))
        .unwrap();
    assert_eq!(drop(&mut table, n, EntryKind::Network), Err(TableError::HasChildren));
    table.delete(other).unwrap();
    assert_eq!(drop(&mut table, n, EntryKind::Network), Ok(()));
}

#[test]
fn the_host_looks_names_up() {
    let p = posix();
    let mut table = ResourceTable::new();
    let closed = put(
        &mut table,
        Entry::Network(Network { pool: 1, allow_ip_name_lookup: false }),
    );
    let open = put(
        &mut table,
        Entry::Network(Network { pool: 1, allow_ip_name_lookup: true }),
    );
    assert_eq!(
        host::resolve_addresses(&table, closed, "a".to_string(), None, false),
        Err(code(ErrorCode::PermanentResolverFailure))
    );
    assert_eq!(
        host::resolve_addresses(&table, 99, "a".to_string(), None, false),
        Err(trap(TableError::NotPresent))
    );
    assert_eq!(
        host::resolve_addresses(
            &table,
            open,
            "a".to_string(),
            Some(IpAddressFamily::Ipv4),
            false
        ),
        Ok(Lookup { name: "a".to_string(), family: Some(IpAddressFamily::Ipv4) })
    );
    let s = host::resolving(&mut table, 4).unwrap();
    assert_eq!(
        host::resolve_next_address(&mut table, &p, s, None),
        Err(code(ErrorCode::WouldBlock))
    );
    let found = VecDeque::from(vec![IpAddress::ipv4_loopback()]);
    assert_eq!(
        host::resolve_next_address(&mut table, &p, s, Some(Ok(found))),
        Ok(Some(IpAddress::ipv4_loopback()))
    );
    assert_eq!(host::resolve_next_address(&mut table, &p, s, None), Ok(None));
    assert_eq!(
        host::resolve_next_address(&mut table, &p, open, None),
        Err(trap(TableError::WrongType))
    );
}
