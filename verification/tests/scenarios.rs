//! Whole conversations: a guest's blocking operations, served by the host's
//! decisions, over a network that exists in memory.
use bytes::Bytes;
use std::collections::{BTreeMap, BTreeSet, VecDeque};
use wasi_host::errno::{Errnos, Platform};
use wasi_host::error::{IoError, IoErrorKind, Polled, StreamError, StreamResult};
use wasi_host::sockets::address::{IpAddress, IpAddressFamily, IpSocketAddress};
use wasi_host::sockets::errors::{ErrorCode, SocketError, SocketResult};
use wasi_host::sockets::guest;
use wasi_host::sockets::guest::{
    HostCall, Procedure, Reply, Step, StreamStatus, TcpSock, WriteReply, WriteStep,
};
use wasi_host::sockets::host;
use wasi_host::sockets::name_lookup::Network;
use wasi_host::sockets::tcp::{ConnectPoll, FinishConnect, PoolOutcome, ShutdownType};
use wasi_host::sockets::SocketCall;
use wasi_host::streams::read::{background_read, AsyncReadStream, ReadAttempt, ReadStep};
use wasi_host::table::{drop_resource, Entry, EntryKind, Key};
use wasmtime::component::ResourceTable;

const PERMIT: u64 = 5;

/// A network in memory.
#[derive(Default)]
struct Os {
    last_handle: u64,
    last_port: u16,
    bound: BTreeMap<u64, IpSocketAddress>,
    listening: BTreeSet<u64>,
    backlogs: BTreeMap<u64, i32>,
    v6only: BTreeSet<u64>,
    waiting: BTreeMap<u64, VecDeque<u64>>,
    peers: BTreeMap<u64, u64>,
    inbox: BTreeMap<u64, VecDeque<u8>>,
    ended: BTreeSet<u64>,
    failed: BTreeSet<u64>,
    in_progress: BTreeSet<u64>,
}

fn os_error(raw: i32) -> IoError {
    IoError { kind: IoErrorKind::Other, raw_os_error: Some(raw) }
}

impl Os {
    fn open(&mut self) -> u64 {
        self.last_handle += 1;
        self.inbox.insert(self.last_handle, VecDeque::new());
        self.last_handle
    }

    fn bind(&mut self, socket: u64, address: IpSocketAddress) -> Result<(), IoError> {
        let e = Errnos::host();
        let ip = address.ip();
        let local = [
            IpAddress::ipv4_loopback(),
            IpAddress::ipv6_loopback(),
            IpAddress::ipv4_unspecified(),
            IpAddress::ipv6_unspecified(),
            IpAddress::ipv4_mapped_loopback(),
        ];
        if !local.contains(&ip) {
            return Err(os_error(e.addrnotavail));
        }
        if ip == IpAddress::ipv4_mapped_loopback() && self.v6only.contains(&socket) {
            return Err(os_error(e.inval));
        }
        let mut port = address.port();
        if port == 0 {
            self.last_port += 1;
            port = 40000 + self.last_port;
        }
        let address = IpSocketAddress::new(ip, port);
        if self.bound.values().any(|other| *other == address) {
            return Err(os_error(e.addrinuse));
        }
        self.bound.insert(socket, address);
        Ok(())
    }

    fn connect(&mut self, socket: u64, address: IpSocketAddress) -> Result<(), IoError> {
        let listener = self
            .bound
            .iter()
            .find(|(h, a)| **a == address && self.listening.contains(*h))
            .map(|(h, _)| *h);
        match listener {
            Some(listener) => {
                let server = self.open();
                self.peers.insert(socket, server);
                self.peers.insert(server, socket);
                self.bound.insert(server, address);
                self.waiting.entry(listener).or_default().push_back(server);
                let ip = address.ip();
                self.bind(socket, IpSocketAddress::new(ip, 0))?;
            }
            None => {
                self.failed.insert(socket);
            }
        }
        self.in_progress.insert(socket);
        Err(os_error(Errnos::host().inprogress))
    }

    fn connect_ended(&mut self, socket: u64) -> ConnectPoll {
        if self.in_progress.remove(&socket) {
            ConnectPoll::NotReady
        } else if self.failed.contains(&socket) {
            ConnectPoll::Ended(Err(Errnos::host().connrefused))
        } else {
            ConnectPoll::Ended(Ok(()))
        }
    }

    fn accept(&mut self, socket: u64) -> Result<u64, IoError> {
        match self.waiting.entry(socket).or_default().pop_front() {
            Some(server) => Ok(server),
            None => Err(os_error(Errnos::host().wouldblock)),
        }
    }

    fn send(&mut self, socket: u64, bytes: &[u8]) {
        let peer = self.peers[&socket];
        self.inbox.get_mut(&peer).unwrap().extend(bytes);
    }

    fn shutdown(&mut self, socket: u64) {
        let peer = self.peers[&socket];
        self.ended.insert(peer);
    }

    fn recv(&mut self, socket: u64, buf: &mut [u8]) -> Polled<Result<usize, IoError>> {
        let inbox = self.inbox.get_mut(&socket).unwrap();
        if inbox.is_empty() {
            return if self.ended.contains(&socket) {
                Polled::Ready(Ok(0))
            } else {
                Polled::Pending
            };
        }
        let n = inbox.len().min(buf.len());
        for (i, byte) in inbox.drain(..n).enumerate() {
            buf[i] = byte;
        }
        Polled::Ready(Ok(n))
    }
}

/// An input stream of the guest: the buffer and the task of a background read
/// are kept beside it.
struct Input {
    socket: u64,
    stream: AsyncReadStream<u64>,
    reading: Option<(u64, bytes::BytesMut)>,
    aborted: bool,
}

impl Input {
    fn new(socket: u64) -> Input {
        Input {
            socket,
            stream: AsyncReadStream::new(1024, socket),
            reading: None,
            aborted: false,
        }
    }

    fn poll_task(&mut self, os: &mut Os) -> Polled<Result<(u64, Bytes), IoError>> {
        if self.aborted {
            let e = IoError { kind: IoErrorKind::Interrupted, raw_os_error: None };
            return Polled::Ready(Err(e));
        }
        let Some((socket, mut buf)) = self.reading.take() else { return Polled::Pending };
        match os.recv(socket, &mut buf) {
            Polled::Pending => {
                self.reading = Some((socket, buf));
                Polled::Pending
            }
            Polled::Ready(r) => Polled::Ready(background_read(socket, buf, r)),
        }
    }

    fn ready(&mut self, os: &mut Os) -> Polled<()> {
        let task = self.poll_task(os);
        self.stream.poll_ready(task)
    }

    fn read(&mut self, os: &mut Os, size: usize) -> StreamResult<Bytes> {
        let task = self.poll_task(os);
        match self.stream.read(size, task) {
            ReadStep::Done(r) => r,
            ReadStep::Try(mut buf) => {
                let socket = match &self.stream.state {
                    wasi_host::streams::read::AsyncReadState::Ready(io, _) => *io,
                    _ => panic!("no resource"),
                };
                let polled = os.recv(socket, &mut buf);
                match self.stream.read_attempted(buf, polled) {
                    ReadAttempt::Done(r) => r,
                    ReadAttempt::Spawn(io, buf) => {
                        self.reading = Some((io, buf));
                        self.stream.read_spawned(1)
                    }
                }
            }
        }
    }

    fn blocking_read(&mut self, os: &mut Os, size: usize) -> StreamResult<Bytes> {
        loop {
            let bytes = self.read(os, size)?;
            if !bytes.is_empty() || size == 0 {
                return Ok(bytes);
            }
            assert_eq!(self.ready(os), Polled::Ready(()));
        }
    }
}

struct World {
    os: Os,
    platform: Platform,
    table: ResourceTable,
    network: Key,
    inputs: BTreeMap<Key, Input>,
    outputs: BTreeMap<Key, u64>,
}

fn told<T>(r: SocketResult<T>) -> Result<T, ErrorCode> {
    match r {
        Ok(value) => Ok(value),
        Err(SocketError::Code(code)) => Err(code),
        Err(SocketError::Trap(trap)) => panic!("{}", trap.message()),
    }
}

impl World {
    fn new() -> World {
        let mut table = ResourceTable::new();
        let network = table
            .push(Entry::Network(Network { pool: 1, allow_ip_name_lookup: true }))
            .unwrap()
            .rep();
        World {
            os: Os::default(),
            platform: Platform { errnos: Errnos::host(), windows: false },
            table,
            network,
            inputs: BTreeMap::new(),
            outputs: BTreeMap::new(),
        }
    }

    fn sock(&mut self, family: IpAddressFamily) -> TcpSock {
        let HostCall::CreateTcpSocket(family) = TcpSock::create(family) else {
            panic!("no socket")
        };
        let inner = self.os.open();
        TcpSock::new(told(host::create_tcp_socket(
            &mut self.table,
            &self.platform,
            family,
            Ok(inner),
        )))
        .unwrap()
    }

    fn start_bind(&mut self, fd: Key, address: IpSocketAddress) -> Result<(), ErrorCode> {
        let (call, net) = told(host::start_bind(&self.table, fd, self.network, address))?;
        assert_eq!(net.pool, 1);
        let SocketCall::TcpBind { socket, address } = call else { panic!("no bind") };
        let outcome = PoolOutcome::Asked(self.os.bind(socket, address));
        let mut s = told(host::tcp_socket(&self.table, fd))?;
        let r = s.bind_started(&self.platform, outcome);
        told(host::update_tcp_socket(&mut self.table, fd, s))?;
        told(r)
    }

    fn start_connect(&mut self, fd: Key, address: IpSocketAddress) -> Result<(), ErrorCode> {
        let (call, _) = told(host::start_connect(&self.table, fd, self.network, address))?;
        let SocketCall::TcpConnect { socket, address } = call else { panic!("no connect") };
        let outcome = PoolOutcome::Asked(self.os.connect(socket, address));
        let mut s = told(host::tcp_socket(&self.table, fd))?;
        let r = s.connect_started(&self.platform, outcome);
        told(host::update_tcp_socket(&mut self.table, fd, s))?;
        told(r)
    }

    fn start_listen(&mut self, fd: Key) -> Result<(), ErrorCode> {
        let mut s = told(host::tcp_socket(&self.table, fd))?;
        let SocketCall::TcpListen { socket, backlog } = s.start_listen()? else {
            panic!("no listen")
        };
        self.os.listening.insert(socket);
        self.os.backlogs.insert(socket, backlog.unwrap_or(128));
        let r = s.listen_started(&self.platform, Ok(()));
        told(host::update_tcp_socket(&mut self.table, fd, s))?;
        told(r)
    }

    fn finish_bind(&mut self, fd: Key) -> Result<(), ErrorCode> {
        let mut s = told(host::tcp_socket(&self.table, fd))?;
        s.finish_bind()?;
        told(host::update_tcp_socket(&mut self.table, fd, s))
    }

    fn set_listen_backlog_size(&mut self, fd: Key, value: u64) -> Result<(), ErrorCode> {
        let mut s = told(host::tcp_socket(&self.table, fd))?;
        match s.set_listen_backlog_size(value)? {
            None => {}
            Some(SocketCall::TcpListen { socket, backlog: Some(backlog) }) => {
                self.os.backlogs.insert(socket, backlog);
            }
            Some(_) => panic!("no listen"),
        }
        told(host::update_tcp_socket(&mut self.table, fd, s))
    }

    fn finish_listen(&mut self, fd: Key) -> Result<(), ErrorCode> {
        let mut s = told(host::tcp_socket(&self.table, fd))?;
        s.finish_listen()?;
        told(host::update_tcp_socket(&mut self.table, fd, s))
    }

    fn finish_connect(&mut self, fd: Key) -> Result<(Key, Key), ErrorCode> {
        let s = told(host::tcp_socket(&self.table, fd))?;
        let poll = match s.finish_connect()? {
            FinishConnect::Ready => ConnectPoll::Ended(Ok(())),
            FinishConnect::Ask(SocketCall::TcpConnectEnded { socket }) => {
                self.os.connect_ended(socket)
            }
            FinishConnect::Ask(_) => panic!("not asked"),
        };
        let (i, o) = told(host::finish_connect(
            &mut self.table,
            &self.platform,
            fd,
            poll,
            s.inner,
            s.inner,
        ))?;
        self.inputs.insert(i, Input::new(s.inner));
        self.outputs.insert(o, s.inner);
        Ok((i, o))
    }

    fn accept(&mut self, fd: Key) -> Result<(Key, Key, Key), ErrorCode> {
        let s = told(host::tcp_socket(&self.table, fd))?;
        let SocketCall::TcpAccept { socket } = s.accept()? else { panic!("no accept") };
        let outcome = self.os.accept(socket);
        let inner = outcome.unwrap_or(0);
        let (s, i, o) = told(host::accept(
            &mut self.table,
            &self.platform,
            fd,
            outcome,
            inner,
            inner,
        ))?;
        self.inputs.insert(i, Input::new(inner));
        self.outputs.insert(o, inner);
        Ok((s, i, o))
    }

    fn call<T>(
        &mut self,
        call: HostCall,
        finish: fn(&mut World, Key) -> Result<T, ErrorCode>,
    ) -> Reply<T> {
        match call {
            HostCall::SubscribeSocket(fd) => Reply::Subscribed(fd + 1000),
            HostCall::PollOneoff(_) => Reply::Polled(true),
            HostCall::StartBind { socket, network, address } => {
                assert_eq!(network, self.network);
                Reply::Started(self.start_bind(socket, address))
            }
            HostCall::StartConnect { socket, address, .. } => {
                Reply::Started(self.start_connect(socket, address))
            }
            HostCall::StartListen(fd) => Reply::Started(self.start_listen(fd)),
            HostCall::FinishBind(fd)
            | HostCall::FinishListen(fd)
            | HostCall::FinishConnect(fd)
            | HostCall::Accept(fd) => Reply::Finished(finish(self, fd)),
            other => panic!("{other:?}"),
        }
    }

    fn run<T>(
        &mut self,
        mut procedure: Procedure,
        finish: fn(&mut World, Key) -> Result<T, ErrorCode>,
    ) -> Result<T, ErrorCode> {
        let mut reply = Reply::Begin;
        loop {
            match procedure.go_on(reply) {
                Step::Call(call) => reply = self.call(call, finish),
                Step::Return(result) => return result,
            }
        }
    }

    fn bind(&mut self, sock: TcpSock, address: IpSocketAddress) -> Result<(), ErrorCode> {
        self.run(sock.bind(self.network, address), World::finish_bind)
    }

    fn listen(&mut self, sock: TcpSock) -> Result<(), ErrorCode> {
        self.run(sock.listen(), World::finish_listen)
    }

    fn connect(&mut self, sock: TcpSock, to: IpSocketAddress) -> Result<(Key, Key), ErrorCode> {
        self.run(sock.connect(self.network, to), World::finish_connect)
    }

    fn blocking_accept(&mut self, sock: TcpSock) -> Result<(TcpSock, Key, Key), ErrorCode> {
        TcpSock::accepted(self.run(sock.accept(), World::accept))
    }

    fn local_address(&mut self, fd: Key) -> Result<IpSocketAddress, ErrorCode> {
        match told(host::tcp_socket(&self.table, fd))?.local_address()? {
            SocketCall::LocalAddress { socket } => Ok(self.os.bound[&socket]),
            _ => panic!("no address"),
        }
    }

    fn set_ipv6_only(&mut self, fd: Key, value: bool) -> Result<(), ErrorCode> {
        match told(host::tcp_socket(&self.table, fd))?.set_ipv6_only(value)? {
            SocketCall::SetIpv6Only { socket, value: true } => self.os.v6only.insert(socket),
            SocketCall::SetIpv6Only { socket, value: false } => self.os.v6only.remove(&socket),
            _ => panic!("no option"),
        };
        Ok(())
    }

    fn write(&mut self, output: Key, bytes: &[u8]) -> (usize, StreamStatus) {
        let mut writing = guest::write(output, bytes);
        let mut reply = WriteReply::Begin;
        loop {
            let call = match writing.go_on(reply) {
                WriteStep::Call(call) => call,
                WriteStep::Return(n, status) => return (n, status),
            };
            reply = match call {
                HostCall::SubscribeOutput(_) => WriteReply::Subscribed(9),
                HostCall::PollOneoff(_) => WriteReply::Polled(true),
                HostCall::CheckWrite(_) => WriteReply::Checked(Ok(PERMIT)),
                HostCall::Write(_, from, to) => {
                    assert!(to - from <= PERMIT as usize);
                    let socket = self.outputs[&output];
                    self.os.send(socket, &bytes[from..to]);
                    WriteReply::Written(Ok(()))
                }
                HostCall::BlockingFlush(_) => WriteReply::Flushed(Ok(())),
                other => panic!("{other:?}"),
            };
        }
    }

    fn read(&mut self, input: Key, size: usize) -> StreamResult<Bytes> {
        self.inputs.get_mut(&input).unwrap().read(&mut self.os, size)
    }

    fn blocking_read(&mut self, input: Key, size: usize) -> StreamResult<Bytes> {
        self.inputs.get_mut(&input).unwrap().blocking_read(&mut self.os, size)
    }

    fn ready(&mut self, input: Key) -> Polled<()> {
        self.inputs.get_mut(&input).unwrap().ready(&mut self.os)
    }

    fn drop_streams(&mut self, input: Key, output: Key) {
        self.inputs.remove(&input);
        self.outputs.remove(&output);
        drop_resource(&mut self.table, input, EntryKind::InputStream).unwrap();
        drop_resource(&mut self.table, output, EntryKind::OutputStream).unwrap();
    }

    fn shutdown(&mut self, fd: Key, how: ShutdownType) -> Result<(), ErrorCode> {
        let s = told(host::tcp_socket(&self.table, fd))?;
        let SocketCall::Shutdown { socket, shutdown_type } = s.shutdown(how)? else {
            panic!("no shutdown")
        };
        if shutdown_type != ShutdownType::Receive {
            self.os.shutdown(socket);
        }
        let ended = told(s.shut_down(&self.platform, shutdown_type, Ok(())))?;
        for input in self.inputs.values_mut().filter(|input| input.socket == socket) {
            if ended.end_input(&mut input.stream).is_some() {
                input.aborted = true;
            }
        }
        Ok(())
    }

    fn listener(&mut self, family: IpAddressFamily) -> (TcpSock, IpSocketAddress) {
        let sock = self.sock(family);
        self.bind(sock, IpSocketAddress::new(IpAddress::new_loopback(family), 0)).unwrap();
        self.listen(sock).unwrap();
        let address = self.local_address(sock.fd).unwrap();
        (sock, address)
    }
}

const FAMILIES: [IpAddressFamily; 2] = [IpAddressFamily::Ipv4, IpAddressFamily::Ipv6];

fn local_ips() -> [IpAddress; 4] {
    [
        IpAddress::ipv4_loopback(),
        IpAddress::ipv6_loopback(),
        IpAddress::ipv4_unspecified(),
        IpAddress::ipv6_unspecified(),
    ]
}

#[test]
fn test_tcp_bind_ephemeral_port() {
    for ip in local_ips() {
        let mut w = World::new();
        let bind_addr = IpSocketAddress::new(ip, 0);
        let sock = w.sock(ip.family());
        w.bind(sock, bind_addr).unwrap();
        let bound_addr = w.local_address(sock.fd).unwrap();
        assert_eq!(bind_addr.ip(), bound_addr.ip());
        assert_ne!(bind_addr.port(), bound_addr.port());
    }
}

#[test]
fn test_tcp_bind_specific_port() {
    for ip in local_ips() {
        let mut w = World::new();
        let bind_addr = IpSocketAddress::new(ip, 54321);
        let sock = w.sock(ip.family());
        w.bind(sock, bind_addr).unwrap();
        let bound_addr = w.local_address(sock.fd).unwrap();
        assert_eq!(bind_addr.ip(), bound_addr.ip());
        assert_eq!(bind_addr.port(), bound_addr.port());
    }
}

#[test]
fn test_tcp_bind_addrinuse() {
    for ip in local_ips() {
        let mut w = World::new();
        let sock1 = w.sock(ip.family());
        w.bind(sock1, IpSocketAddress::new(ip, 0)).unwrap();
        w.listen(sock1).unwrap();
        let bound_addr = w.local_address(sock1.fd).unwrap();
        let sock2 = w.sock(ip.family());
        assert_eq!(w.bind(sock2, bound_addr), Err(ErrorCode::AddressInUse));
    }
}

#[test]
fn test_tcp_bind_addrnotavail() {
    for ip in [
        IpAddress::Ipv4((192, 0, 2, 0)),
        IpAddress::Ipv6((0x2001, 0x0db8, 0, 0, 0, 0, 0, 0)),
    ] {
        let mut w = World::new();
        let sock = w.sock(ip.family());
        assert_eq!(
            w.bind(sock, IpSocketAddress::new(ip, 0)),
            Err(ErrorCode::AddressNotBindable)
        );
    }
}

#[test]
fn test_tcp_bind_wrong_family() {
    for family in FAMILIES {
        let wrong_ip = match family {
            IpAddressFamily::Ipv4 => IpAddress::ipv6_loopback(),
            IpAddressFamily::Ipv6 => IpAddress::ipv4_loopback(),
        };
        let mut w = World::new();
        let sock = w.sock(family);
        let result = w.bind(sock, IpSocketAddress::new(wrong_ip, 0));
        assert!(matches!(result, Err(ErrorCode::InvalidArgument)));
    }
}

#[test]
fn test_tcp_bind_dual_stack() {
    let mut w = World::new();
    let sock = w.sock(IpAddressFamily::Ipv6);
    let addr = IpSocketAddress::new(IpAddress::ipv4_mapped_loopback(), 0);
    w.set_ipv6_only(sock.fd, true).unwrap();
    // Binding a IPv4-mapped-IPv6 address on a ipv6-only socket should fail:
    assert!(matches!(w.bind(sock, addr), Err(ErrorCode::InvalidArgument)));
    w.set_ipv6_only(sock.fd, false).unwrap();
    w.bind(sock, addr).unwrap();
    let bound_addr = w.local_address(sock.fd).unwrap();
    assert_eq!(bound_addr.family(), IpAddressFamily::Ipv6);
}

#[test]
fn test_tcp_listen() {
    for family in FAMILIES {
        World::new().listener(family);
    }
}

#[test]
fn test_tcp_accept() {
    for family in FAMILIES {
        let mut w = World::new();
        let (listener, bound_addr) = w.listener(family);
        let client = w.sock(bound_addr.family());
        let (input1, output1) = w.connect(client, bound_addr).unwrap();
        let (_accepted, input2, output2) = w.blocking_accept(listener).unwrap();
        w.drop_streams(input2, output2);
        w.drop_streams(input1, output1);
    }
}

#[test]
fn connections_are_refused_without_a_listener() {
    let mut w = World::new();
    let client = w.sock(IpAddressFamily::Ipv4);
    let nowhere = IpSocketAddress::new(IpAddress::ipv4_loopback(), 1);
    assert_eq!(w.connect(client, nowhere), Err(ErrorCode::ConnectionRefused));
    assert_eq!(w.connect(client, nowhere), Err(ErrorCode::InvalidState));
}

#[test]
fn test_sample_application() {
    for family in FAMILIES {
        let first_message = b"Hello, world!";
        let second_message = b"Greetings, planet!";
        let mut w = World::new();
        let sock = w.sock(family);
        w.bind(sock, IpSocketAddress::new(IpAddress::new_loopback(family), 0)).unwrap();
        w.set_listen_backlog_size(sock.fd, 32).unwrap();
        w.listen(sock).unwrap();
        let addr = w.local_address(sock.fd).unwrap();
        let inner = host::tcp_socket(&w.table, sock.fd).unwrap().inner;
        assert_eq!(w.os.backlogs[&inner], 32);

        let client = w.sock(family);
        let (client_input, client_output) = w.connect(client, addr).unwrap();
        assert_eq!(w.write(client_output, &[]), (0, StreamStatus::Open));
        assert_eq!(
            w.write(client_output, first_message),
            (first_message.len(), StreamStatus::Open)
        );
        w.drop_streams(client_input, client_output);

        let (accepted, input, output) = w.blocking_accept(sock).unwrap();
        assert!(w.read(input, 0).unwrap().is_empty());
        let data = w.blocking_read(input, first_message.len()).unwrap();
        w.drop_streams(input, output);
        assert_eq!(&data[..], first_message);
        assert_eq!(accepted.close(), HostCall::DropTcpSocket(accepted.fd));
        assert_eq!(host::drop_tcp_socket(&mut w.table, &w.platform, accepted.fd), Ok(None));

        // Another client
        let client = w.sock(family);
        let (client_input, client_output) = w.connect(client, addr).unwrap();
        assert_eq!(
            w.write(client_output, second_message),
            (second_message.len(), StreamStatus::Open)
        );
        w.drop_streams(client_input, client_output);

        let (_accepted, input, output) = w.blocking_accept(sock).unwrap();
        let data = w.blocking_read(input, second_message.len()).unwrap();
        w.drop_streams(input, output);
        assert_eq!(&data[..], second_message);
    }
}

#[test]
fn test_tcp_unbound_state_invariants() {
    for family in FAMILIES {
        let mut w = World::new();
        let sock = w.sock(family);
        assert_eq!(w.finish_bind(sock.fd), Err(ErrorCode::NotInProgress));
        assert_eq!(w.finish_connect(sock.fd), Err(ErrorCode::NotInProgress));
        assert_eq!(w.start_listen(sock.fd), Err(ErrorCode::NotBound));
        assert_eq!(w.finish_listen(sock.fd), Err(ErrorCode::NotInProgress));
        assert_eq!(w.accept(sock.fd), Err(ErrorCode::NotListening));
        assert_eq!(w.shutdown(sock.fd, ShutdownType::Both), Err(ErrorCode::NotConnected));
        assert_eq!(w.local_address(sock.fd), Err(ErrorCode::NotBound));
        let s = host::tcp_socket(&w.table, sock.fd).unwrap();
        assert_eq!(s.remote_address(), Err(ErrorCode::NotConnected));
        assert_eq!(s.address_family(), family);
        if family == IpAddressFamily::Ipv6 {
            assert!(matches!(s.ipv6_only(), Ok(_)));
            assert!(matches!(s.set_ipv6_only(true), Ok(_)));
        } else {
            assert_eq!(s.ipv6_only(), Err(ErrorCode::Ipv6OnlyOperation));
            assert_eq!(s.set_ipv6_only(true), Err(ErrorCode::Ipv6OnlyOperation));
        }
        assert!(matches!(s.set_receive_buffer_size(16000), Ok(_)));
        assert!(matches!(s.set_send_buffer_size(16000), Ok(_)));
    }
}

#[test]
fn test_tcp_bound_state_invariants() {
    for family in FAMILIES {
        let mut w = World::new();
        let bind_address = IpSocketAddress::new(IpAddress::new_loopback(family), 0);
        let sock = w.sock(family);
        w.bind(sock, bind_address).unwrap();
        assert_eq!(w.start_bind(sock.fd, bind_address), Err(ErrorCode::InvalidState));
        assert_eq!(w.finish_bind(sock.fd), Err(ErrorCode::NotInProgress));
        assert_eq!(w.finish_connect(sock.fd), Err(ErrorCode::NotInProgress));
        assert_eq!(w.finish_listen(sock.fd), Err(ErrorCode::NotInProgress));
        assert_eq!(w.accept(sock.fd), Err(ErrorCode::InvalidState));
        assert_eq!(w.shutdown(sock.fd, ShutdownType::Both), Err(ErrorCode::InvalidState));
        assert!(matches!(w.local_address(sock.fd), Ok(_)));
        let s = host::tcp_socket(&w.table, sock.fd).unwrap();
        assert_eq!(s.remote_address(), Err(ErrorCode::InvalidState));
        assert_eq!(s.address_family(), family);
        if family == IpAddressFamily::Ipv6 {
            assert!(matches!(s.ipv6_only(), Ok(_)));
            assert_eq!(s.set_ipv6_only(true), Err(ErrorCode::InvalidState));
        } else {
            assert_eq!(s.ipv6_only(), Err(ErrorCode::NotSupported));
            assert_eq!(s.set_ipv6_only(true), Err(ErrorCode::NotSupported));
        }
        assert!(matches!(s.set_receive_buffer_size(16000), Ok(_)));
        assert!(matches!(s.set_send_buffer_size(16000), Ok(_)));
    }
}

#[test]
fn test_tcp_connected_state_invariants() {
    for family in FAMILIES {
        let mut w = World::new();
        let bind_address = IpSocketAddress::new(IpAddress::new_loopback(family), 0);
        let (_listener, addr_listener) = w.listener(family);
        let sock = w.sock(family);
        let (input, output) = w.connect(sock, addr_listener).unwrap();
        assert_eq!(w.start_bind(sock.fd, bind_address), Err(ErrorCode::InvalidState));
        assert_eq!(w.finish_bind(sock.fd), Err(ErrorCode::NotInProgress));
        assert_eq!(w.start_connect(sock.fd, addr_listener), Err(ErrorCode::InvalidState));
        assert_eq!(w.finish_connect(sock.fd), Err(ErrorCode::NotInProgress));
        assert_eq!(w.start_listen(sock.fd), Err(ErrorCode::InvalidState));
        assert_eq!(w.finish_listen(sock.fd), Err(ErrorCode::NotInProgress));
        assert_eq!(w.accept(sock.fd), Err(ErrorCode::InvalidState));
        assert!(matches!(w.local_address(sock.fd), Ok(_)));
        let s = host::tcp_socket(&w.table, sock.fd).unwrap();
        assert!(matches!(s.remote_address(), Ok(_)));
        assert_eq!(s.address_family(), family);
        if family == IpAddressFamily::Ipv6 {
            assert!(matches!(s.ipv6_only(), Ok(_)));
            assert_eq!(s.set_ipv6_only(true), Err(ErrorCode::InvalidState));
        } else {
            assert_eq!(s.ipv6_only(), Err(ErrorCode::NotSupported));
            assert_eq!(s.set_ipv6_only(true), Err(ErrorCode::NotSupported));
        }
        assert!(matches!(s.set_receive_buffer_size(16000), Ok(_)));
        assert!(matches!(s.set_send_buffer_size(16000), Ok(_)));
        w.drop_streams(input, output);
    }
}

struct Side {
    fd: Key,
    input: Key,
    output: Key,
}

fn setup(w: &mut World, family: IpAddressFamily) -> (Side, Side) {
    let (listener, bound_address) = w.listener(family);
    let client = w.sock(family);
    let (client_input, client_output) = w.connect(client, bound_address).unwrap();
    let (accepted, input, output) = w.blocking_accept(listener).unwrap();
    (
        Side { fd: accepted.fd, input, output },
        Side { fd: client.fd, input: client_input, output: client_output },
    )
}

#[test]
fn test_tcp_input_stream_should_be_closed_by_remote_shutdown() {
    for family in FAMILIES {
        let mut w = World::new();
        let (server, client) = setup(&mut w, family);
        assert!(w.read(client.input, 10).unwrap().is_empty());
        assert_eq!(w.ready(client.input), Polled::Pending);
        w.shutdown(server.fd, ShutdownType::Both).unwrap();
        w.drop_streams(server.input, server.output);
        assert_eq!(w.ready(client.input), Polled::Ready(()));
        assert!(matches!(w.read(client.input, 10), Err(StreamError::Closed)));
        // Stream should still be closed, even when requesting 0 bytes:
        assert!(matches!(w.read(client.input, 0), Err(StreamError::Closed)));
        w.drop_streams(client.input, client.output);
    }
}

#[test]
fn test_tcp_input_stream_should_be_closed_by_local_shutdown() {
    for family in FAMILIES {
        let mut w = World::new();
        let (server, client) = setup(&mut w, family);
        // Reading goes on after a shutdown for receiving, as far as the
        // operating system is concerned, so let there be something to read:
        let message = b"Lorem ipsum dolor sit amet, consectetur adipiscing elit, sed do eiusmod tempor incididunt ut labore et dolore magna aliqua.";
        assert_eq!(w.write(server.output, message), (message.len(), StreamStatus::Open));
        assert_eq!(w.ready(client.input), Polled::Ready(()));
        // The stream should be readable:
        assert_eq!(w.read(client.input, 10).unwrap().len(), 10);
        // Also test the 0 input length edge case:
        assert_eq!(w.read(client.input, 0).unwrap().len(), 0);
        w.shutdown(client.fd, ShutdownType::Receive).unwrap();
        // Stream should be closed:
        assert!(matches!(w.read(client.input, 10), Err(StreamError::Closed)));
        // Stream should still be closed, even when requesting 0 bytes:
        assert!(matches!(w.read(client.input, 0), Err(StreamError::Closed)));
    }
}

#[test]
fn a_local_shutdown_ends_a_read_that_waits() {
    for (how, closes) in [
        (ShutdownType::Receive, true),
        (ShutdownType::Both, true),
        (ShutdownType::Send, false),
    ] {
        let mut w = World::new();
        let (server, client) = setup(&mut w, IpAddressFamily::Ipv4);
        assert!(w.read(client.input, 10).unwrap().is_empty());
        assert_eq!(w.ready(client.input), Polled::Pending);
        w.shutdown(client.fd, how).unwrap();
        assert_eq!(w.write(server.output, b"late"), (4, StreamStatus::Open));
        assert_eq!(w.ready(client.input), Polled::Ready(()));
        let read = w.read(client.input, 10);
        if closes {
            assert!(matches!(read, Err(StreamError::Closed)));
            assert!(matches!(w.read(client.input, 0), Err(StreamError::Closed)));
        } else {
            assert_eq!(&read.unwrap()[..], b"late");
        }
    }
}

#[test]
fn backlogs_can_be_changed_before_and_while_listening() {
    let mut w = World::new();
    let sock = w.sock(IpAddressFamily::Ipv4);
    assert_eq!(w.set_listen_backlog_size(sock.fd, 32), Err(ErrorCode::NotInProgress));
    w.bind(sock, IpSocketAddress::new(IpAddress::ipv4_loopback(), 0)).unwrap();
    assert_eq!(w.set_listen_backlog_size(sock.fd, 32), Ok(()));
    assert_eq!(w.set_listen_backlog_size(sock.fd, 1 << 31), Err(ErrorCode::OutOfMemory));
    w.listen(sock).unwrap();
    let inner = host::tcp_socket(&w.table, sock.fd).unwrap().inner;
    assert_eq!(w.os.backlogs[&inner], 32);
    assert_eq!(w.set_listen_backlog_size(sock.fd, 64), Ok(()));
    assert_eq!(w.os.backlogs[&inner], 64);
}
