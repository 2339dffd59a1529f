//! Sockets, as a host with a resource table offers them to a guest.
use super::address::{IpAddress, IpAddressFamily, IpSocketAddress};
use super::errors::{ErrorCode, SocketError, SocketResult, SocketTrap};
use super::name_lookup::{Lookup, Network, ResolveAddressStream, ResolveView, Resolved};
use super::tcp::{ConnectPoll, ShutdownType, TcpSocket, TcpState};
use super::udp::{IncomingDatagramStream, OutgoingDatagramStream, StreamStep, UdpSocket};
use super::{SocketCall, SocketHandle};
use crate::errno::Platform;
use crate::error::IoError;
use crate::streams::Task;
use crate::table;
use crate::table::{Entry, InputStream, Key, OutputStream, TableError};
use vstd::prelude::*;
use wasmtime::component::ResourceTable;

verus! {

/// The refusal of the table stops the guest.
pub open spec fn trap(e: TableError) -> SocketError {
    SocketError::Trap(SocketTrap::Table(e))
}

fn trapped(e: TableError) -> (r: SocketError)
    ensures
        r == trap(e),
{
    SocketError::Trap(SocketTrap::Table(e))
}

/// The TCP socket under a key.
pub open spec fn tcp_socket_at(table: ResourceTable, this: Key) -> Result<TcpSocket, TableError> {
    match table::lookup(table, this) {
        Ok(Entry::TcpSocket(socket)) => Ok(socket),
        Ok(_) => Err(TableError::WrongType),
        Err(e) => Err(e),
    }
}

/// The UDP socket under a key.
pub open spec fn udp_socket_at(table: ResourceTable, this: Key) -> Result<UdpSocket, TableError> {
    match table::lookup(table, this) {
        Ok(Entry::UdpSocket(socket)) => Ok(socket),
        Ok(_) => Err(TableError::WrongType),
        Err(e) => Err(e),
    }
}

/// The network under a key.
pub open spec fn network_at(table: ResourceTable, network: Key) -> Result<Network, TableError> {
    match table::lookup(table, network) {
        Ok(Entry::Network(n)) => Ok(n),
        Ok(_) => Err(TableError::WrongType),
        Err(e) => Err(e),
    }
}

/// The TCP socket under a key, on which an operation is to be made.
pub fn tcp_socket(table: &ResourceTable, this: Key) -> (r: SocketResult<TcpSocket>)
    ensures
        r == match tcp_socket_at(*table, this) {
            Ok(socket) => Ok::<TcpSocket, SocketError>(socket),
            Err(e) => Err(trap(e)),
        },
{
    match table::get(table, this) {
        Ok(Entry::TcpSocket(socket)) => Ok(*socket),
        Ok(_) => Err(trapped(TableError::WrongType)),
        Err(e) => Err(trapped(e)),
    }
}

/// The UDP socket under a key, on which an operation is to be made.
pub fn udp_socket(table: &ResourceTable, this: Key) -> (r: SocketResult<UdpSocket>)
    ensures
        r == match udp_socket_at(*table, this) {
            Ok(socket) => Ok::<UdpSocket, SocketError>(socket),
            Err(e) => Err(trap(e)),
        },
{
    match table::get(table, this) {
        Ok(Entry::UdpSocket(socket)) => Ok(*socket),
        Ok(_) => Err(trapped(TableError::WrongType)),
        Err(e) => Err(trapped(e)),
    }
}

fn network(table: &ResourceTable, key: Key) -> (r: SocketResult<Network>)
    ensures
        r == match network_at(*table, key) {
            Ok(n) => Ok::<Network, SocketError>(n),
            Err(e) => Err(trap(e)),
        },
{
    match table::get(table, key) {
        Ok(Entry::Network(n)) => Ok(*n),
        Ok(_) => Err(trapped(TableError::WrongType)),
        Err(e) => Err(trapped(e)),
    }
}

/// The TCP socket under a key is now in another state.
pub fn update_tcp_socket(table: &mut ResourceTable, this: Key, socket: TcpSocket) -> (r:
    SocketResult<()>)
    ensures
        match tcp_socket_at(*old(table), this) {
            Ok(_) => r is Ok && table::replaced(
                *old(table),
                this,
                Entry::TcpSocket(socket),
                *final(table),
            ),
            Err(e) => r == Err::<(), SocketError>(trap(e)) && table::unchanged(
                *old(table),
                *final(table),
            ),
        },
{
    match table::get_mut(table, this) {
        Ok(entry) => match entry {
            Entry::TcpSocket(s) => {
                *s = socket;
                Ok(())
            },
            _ => {
                assert(table::entries(*table) =~= table::entries(*old(table)));
                Err(trapped(TableError::WrongType))
            },
        },
        Err(e) => Err(trapped(e)),
    }
}

/// The UDP socket under a key is now in another state.
pub fn update_udp_socket(table: &mut ResourceTable, this: Key, socket: UdpSocket) -> (r:
    SocketResult<()>)
    ensures
        match udp_socket_at(*old(table), this) {
            Ok(_) => r is Ok && table::replaced(
                *old(table),
                this,
                Entry::UdpSocket(socket),
                *final(table),
            ),
            Err(e) => r == Err::<(), SocketError>(trap(e)) && table::unchanged(
                *old(table),
                *final(table),
            ),
        },
{
    match table::get_mut(table, this) {
        Ok(entry) => match entry {
            Entry::UdpSocket(s) => {
                *s = socket;
                Ok(())
            },
            _ => {
                assert(table::entries(*table) =~= table::entries(*old(table)));
                Err(trapped(TableError::WrongType))
            },
        },
        Err(e) => Err(trapped(e)),
    }
}

/// What storing an entry comes to: its key, or a trap where the table is full.
pub open spec fn stored(
    before: ResourceTable,
    entry: Entry,
    r: SocketResult<Key>,
    after: ResourceTable,
) -> bool {
    match r {
        Ok(key) => table::push_result(before, entry, Ok(key), after),
        Err(SocketError::Trap(SocketTrap::Table(e))) => table::push_result(
            before,
            entry,
            Err(e),
            after,
        ),
        _ => false,
    }
}

fn store(table: &mut ResourceTable, entry: Entry) -> (r: SocketResult<Key>)
    ensures
        stored(*old(table), entry, r, *final(table)),
{
    match table::push(table, entry) {
        Ok(key) => Ok(key),
        Err(e) => Err(trapped(e)),
    }
}

/// A socket was made, or could not be: the guest gets it.
pub fn create_tcp_socket(
    table: &mut ResourceTable,
    platform: &Platform,
    address_family: IpAddressFamily,
    made: Result<SocketHandle, IoError>,
) -> (r: SocketResult<Key>)
    ensures
        match made {
            Ok(inner) => stored(
                *old(table),
                Entry::TcpSocket(
                    TcpSocket {
                        inner,
                        state: TcpState::Default,
                        family: address_family,
                        backlog: None,
                    },
                ),
                r,
                *final(table),
            ),
            Err(e) => {
                &&& r == Err::<Key, SocketError>(platform.errnos.socket_error_spec(e))
                &&& *final(table) == *old(table)
            },
        },
{
    let inner: SocketHandle = match made {
        Ok(inner) => inner,
        Err(e) => return Err(platform.errnos.socket_error(e)),
    };
    store(table, Entry::TcpSocket(TcpSocket::new(inner, address_family)))
}

/// Binds a TCP socket: what the operating system is to do, as far as the
/// network allows it.
pub fn start_bind(table: &ResourceTable, this: Key, net: Key, local_address: IpSocketAddress) -> (r:
    SocketResult<(SocketCall, Network)>)
    ensures
        r == match (tcp_socket_at(*table, this), network_at(*table, net)) {
            (Err(e), _) => Err::<(SocketCall, Network), SocketError>(trap(e)),
            (Ok(_), Err(e)) => Err(trap(e)),
            (Ok(socket), Ok(n)) => match socket.bind_request(local_address) {
                Ok(call) => Ok((call, n)),
                Err(e) => Err(SocketError::Code(e)),
            },
        },
{
    let socket: TcpSocket = tcp_socket(table, this)?;
    let n: Network = network(table, net)?;
    match socket.start_bind(local_address) {
        Ok(call) => Ok((call, n)),
        Err(e) => Err(SocketError::Code(e)),
    }
}

/// Connects a TCP socket: what the operating system is to do, as far as the
/// network allows it.
pub fn start_connect(table: &ResourceTable, this: Key, net: Key, remote_address: IpSocketAddress) ->
    (r: SocketResult<(SocketCall, Network)>)
    ensures
        r == match (tcp_socket_at(*table, this), network_at(*table, net)) {
            (Err(e), _) => Err::<(SocketCall, Network), SocketError>(trap(e)),
            (Ok(_), Err(e)) => Err(trap(e)),
            (Ok(socket), Ok(n)) => match socket.connect_request(remote_address) {
                Ok(call) => Ok((call, n)),
                Err(e) => Err(SocketError::Code(e)),
            },
        },
{
    let socket: TcpSocket = tcp_socket(table, this)?;
    let n: Network = network(table, net)?;
    match socket.start_connect(remote_address) {
        Ok(call) => Ok((call, n)),
        Err(e) => Err(SocketError::Code(e)),
    }
}

/// What storing two children comes to: their keys, or a trap.
pub open spec fn pair_stored(
    before: ResourceTable,
    first: Entry,
    second: Entry,
    parent: Key,
    r: SocketResult<(Key, Key)>,
    after: ResourceTable,
) -> bool {
    match r {
        Ok(keys) => table::push_pair_result(before, first, second, parent, Ok(keys), after),
        Err(SocketError::Trap(SocketTrap::Table(e))) => table::push_pair_result(
            before,
            first,
            second,
            parent,
            Err(e),
            after,
        ),
        _ => false,
    }
}

/// An entry was put in the place of another, and then two children of it were
/// stored; or they could not be.
pub open spec fn replaced_with_pair(
    before: ResourceTable,
    this: Key,
    entry: Entry,
    first: Entry,
    second: Entry,
    r: SocketResult<(Key, Key)>,
    after: ResourceTable,
) -> bool {
    exists|mid: ResourceTable|
        {
            &&& #[trigger] table::replaced(before, this, entry, mid)
            &&& pair_stored(mid, first, second, this, r, after)
        }
}

fn store_pair(table: &mut ResourceTable, first: Entry, second: Entry, parent: Key) -> (r:
    SocketResult<(Key, Key)>)
    ensures
        pair_stored(*old(table), first, second, parent, r, *final(table)),
{
    match table::push_pair(table, first, second, parent) {
        Ok(keys) => Ok(keys),
        Err(e) => Err(trapped(e)),
    }
}

/// How a connection attempt has ended, by the socket's state and, where that
/// does not tell, by what the operating system says.
pub open spec fn connect_end(socket: TcpSocket, poll: ConnectPoll) -> Option<ConnectPoll> {
    match socket.state {
        TcpState::ConnectReady => Some(ConnectPoll::Ended(Ok(()))),
        TcpState::Connecting => Some(poll),
        _ => None,
    }
}

/// Ends a connection attempt: the guest gets the two streams of the
/// connection, which are the socket's children. `poll` is what the operating
/// system says of the attempt, where [`TcpSocket::finish_connect`] has asked.
pub fn finish_connect(
    table: &mut ResourceTable,
    platform: &Platform,
    this: Key,
    poll: ConnectPoll,
    input: u64,
    output: u64,
) -> (r: SocketResult<(Key, Key)>)
    ensures
        match tcp_socket_at(*old(table), this) {
            Err(e) => r == Err::<(Key, Key), SocketError>(trap(e)) && table::unchanged(
                *old(table),
                *final(table),
            ),
            Ok(socket) => match connect_end(socket, poll) {
                None => {
                    &&& r == Err::<(Key, Key), SocketError>(
                        SocketError::Code(ErrorCode::NotInProgress),
                    )
                    &&& table::unchanged(*old(table), *final(table))
                },
                Some(ConnectPoll::NotReady) => {
                    &&& r == Err::<(Key, Key), SocketError>(
                        SocketError::Code(ErrorCode::WouldBlock),
                    )
                    &&& table::replaced(
                        *old(table),
                        this,
                        Entry::TcpSocket(socket),
                        *final(table),
                    )
                },
                Some(ConnectPoll::Ended(Err(errno))) => {
                    &&& r == Err::<(Key, Key), SocketError>(
                        platform.errnos.socket_errno_spec(errno),
                    )
                    &&& table::replaced(
                        *old(table),
                        this,
                        Entry::TcpSocket(socket.in_state(TcpState::ConnectFailed)),
                        *final(table),
                    )
                },
                Some(ConnectPoll::Ended(Ok(_))) => replaced_with_pair(
                    *old(table),
                    this,
                    Entry::TcpSocket(socket.in_state(TcpState::Connected)),
                    Entry::InputStream(InputStream::Host(input)),
                    Entry::OutputStream(OutputStream::Host(output)),
                    r,
                    *final(table),
                ),
            },
        },
{
    let socket: TcpSocket = tcp_socket(table, this)?;
    let end: ConnectPoll = match socket.state {
        TcpState::ConnectReady => ConnectPoll::Ended(Ok(())),
        TcpState::Connecting => poll,
        _ => return Err(SocketError::Code(ErrorCode::NotInProgress)),
    };
    let mut connected: TcpSocket = socket;
    let finished: SocketResult<()> = connected.connect_finished(platform, end);
    update_tcp_socket(table, this, connected)?;
    match finished {
        Ok(()) => {},
        Err(e) => return Err(e),
    }
    let ghost mid = *table;
    assert(table::replaced(
        *old(table),
        this,
        Entry::TcpSocket(socket.in_state(TcpState::Connected)),
        mid,
    ));
    store_pair(
        table,
        Entry::InputStream(InputStream::Host(input)),
        Entry::OutputStream(OutputStream::Host(output)),
        this,
    )
}

/// What storing an accepted connection comes to: the keys of the socket and of
/// its two streams, which are its children; or a trap.
pub open spec fn connection_stored(
    before: ResourceTable,
    socket: TcpSocket,
    input: u64,
    output: u64,
    r: SocketResult<(Key, Key, Key)>,
    after: ResourceTable,
) -> bool {
    let entry = Entry::TcpSocket(socket);
    let first = Entry::InputStream(InputStream::Host(input));
    let second = Entry::OutputStream(OutputStream::Host(output));
    match r {
        Ok(keys) => table::push_family_result(before, entry, first, second, Ok(keys), after),
        Err(SocketError::Trap(SocketTrap::Table(e))) => table::push_family_result(
            before,
            entry,
            first,
            second,
            Err(e),
            after,
        ),
        _ => false,
    }
}

/// Accepts a connection, given what the operating system has to say: the
/// guest gets a socket for it and its two streams, which are the socket's
/// children.
pub fn accept(
    table: &mut ResourceTable,
    platform: &Platform,
    this: Key,
    outcome: Result<SocketHandle, IoError>,
    input: u64,
    output: u64,
) -> (r: SocketResult<(Key, Key, Key)>)
    ensures
        match tcp_socket_at(*old(table), this) {
            Err(e) => r == Err::<(Key, Key, Key), SocketError>(trap(e)) && *final(table) == *old(
                table,
            ),
            Ok(socket) => match socket.accept_request() {
                Err(e) => {
                    &&& r == Err::<(Key, Key, Key), SocketError>(SocketError::Code(e))
                    &&& *final(table) == *old(table)
                },
                Ok(_) => match outcome {
                    Err(e) => {
                        &&& r == Err::<(Key, Key, Key), SocketError>(
                            TcpSocket::accept_failure(*platform, e),
                        )
                        &&& *final(table) == *old(table)
                    },
                    Ok(inner) => connection_stored(
                        *old(table),
                        TcpSocket {
                            inner,
                            state: TcpState::Connected,
                            family: socket.family,
                            backlog: None,
                        },
                        input,
                        output,
                        r,
                        *final(table),
                    ),
                },
            },
        },
{
    let listener: TcpSocket = tcp_socket(table, this)?;
    match listener.accept() {
        Ok(_) => {},
        Err(e) => return Err(SocketError::Code(e)),
    }
    let socket: TcpSocket = listener.accepted(platform, outcome)?;
    match table::push_family(
        table,
        Entry::TcpSocket(socket),
        Entry::InputStream(InputStream::Host(input)),
        Entry::OutputStream(OutputStream::Host(output)),
    ) {
        Ok(keys) => Ok(keys),
        Err(e) => Err(trapped(e)),
    }
}

/// The TCP socket that is taken out of the table; or why none is.
pub open spec fn takeable_tcp_socket(table: ResourceTable, this: Key) -> Result<
    TcpSocket,
    TableError,
> {
    match table::takeable(table, this) {
        Ok(Entry::TcpSocket(socket)) => Ok(socket),
        Ok(_) => Err(TableError::WrongType),
        Err(e) => Err(e),
    }
}

/// Drops a TCP socket, and tells what is asked of the operating system before
/// it is closed: see [`TcpSocket::close`].
pub fn drop_tcp_socket(table: &mut ResourceTable, platform: &Platform, this: Key) -> (r: Result<
    Option<SocketCall>,
    TableError,
>)
    ensures
        table::taken(*old(table), this, *final(table)),
        match takeable_tcp_socket(*old(table), this) {
            Ok(socket) => r == Ok::<Option<SocketCall>, TableError>(
                if platform.windows && socket.may_be_awaited() {
                    Some(
                        SocketCall::Shutdown {
                            socket: socket.inner,
                            shutdown_type: ShutdownType::Both,
                        },
                    )
                } else {
                    None
                },
            ),
            Err(e) => r == Err::<Option<SocketCall>, TableError>(e),
        },
{
    match table::delete(table, this) {
        Ok(Entry::TcpSocket(socket)) => Ok(socket.close(platform)),
        Ok(_) => Err(TableError::WrongType),
        Err(e) => Err(e),
    }
}

/// Binds a UDP socket: what the operating system is to do, as far as the
/// network allows it.
pub fn udp_start_bind(
    table: &ResourceTable,
    this: Key,
    net: Key,
    local_address: IpSocketAddress,
) -> (r: SocketResult<(SocketCall, Network)>)
    ensures
        r == match (udp_socket_at(*table, this), network_at(*table, net)) {
            (Err(e), _) => Err::<(SocketCall, Network), SocketError>(trap(e)),
            (Ok(_), Err(e)) => Err(trap(e)),
            (Ok(socket), Ok(n)) => match socket.bind_request(local_address) {
                Ok(call) => Ok((call, n)),
                Err(e) => Err(SocketError::Code(e)),
            },
        },
{
    let socket: UdpSocket = udp_socket(table, this)?;
    let n: Network = network(table, net)?;
    match socket.start_bind(local_address) {
        Ok(call) => Ok((call, n)),
        Err(e) => Err(SocketError::Code(e)),
    }
}

/// The entry is a stream of datagrams.
pub open spec fn is_datagram_stream(entry: Entry) -> bool {
    entry is IncomingDatagramStream || entry is OutgoingDatagramStream
}

/// The socket's streams, or one of them, are still there.
pub open spec fn streams_active(table: ResourceTable, this: Key) -> bool {
    exists|child: Key|
        {
            &&& #[trigger] table::is_child(table, child, this)
            &&& table::lookup(table, child) matches Ok(entry)
            &&& is_datagram_stream(entry)
        }
}

fn has_active_streams(table: &ResourceTable, this: Key) -> (r: SocketResult<bool>)
    ensures
        r == if table::entries(*table).contains_key(this) {
            Ok::<bool, SocketError>(streams_active(*table, this))
        } else {
            Err(trap(TableError::NotPresent))
        },
{
    let children: Vec<Option<&Entry>> = match table::children(table, this) {
        Ok(children) => children,
        Err(e) => return Err(trapped(e)),
    };
    let mut i: usize = 0;
    while i < children.len()
        invariant
            i <= children@.len(),
            forall|k: int|
                0 <= k < children@.len() ==> table::is_of_child(
                    *table,
                    #[trigger] children@[k],
                    this,
                ),
            forall|child: Key| #[trigger]
                table::is_child(*table, child, this) ==> table::is_listed(
                    *table,
                    child,
                    children@,
                ),
            forall|k: int|
                0 <= k < i ==> !((#[trigger] children@[k]) matches Some(entry)
                    && is_datagram_stream(*entry)),
            table::entries(*table).contains_key(this),
        decreases children@.len() - i,
    {
        let active: bool = match children[i] {
            Some(Entry::IncomingDatagramStream(_)) => true,
            Some(Entry::OutgoingDatagramStream(_)) => true,
            _ => false,
        };
        if active {
            assert(table::is_of_child(*table, children@[i as int], this));
            return Ok(true);
        }
        i = i + 1;
    }
    Ok(false)
}

/// Opens the streams of a UDP socket: what the operating system is to do for
/// it. [`streams_opened`] goes on with what came of it.
pub fn udp_stream(
    table: &ResourceTable,
    this: Key,
    remote_address: Option<IpSocketAddress>,
) -> (r: SocketResult<StreamStep>)
    ensures
        r == if !table::entries(*table).contains_key(this) {
            Err::<StreamStep, SocketError>(trap(TableError::NotPresent))
        } else if streams_active(*table, this) {
            Err(SocketError::Trap(SocketTrap::StreamsNotDropped))
        } else {
            match udp_socket_at(*table, this) {
                Ok(socket) => socket.stream_request(false, remote_address),
                Err(e) => Err(trap(e)),
            }
        },
{
    if has_active_streams(table, this)? {
        return Err(SocketError::Trap(SocketTrap::StreamsNotDropped));
    }
    let socket: UdpSocket = udp_socket(table, this)?;
    socket.stream(false, remote_address)
}

/// A UDP socket can have its streams, once it was connected where it has to
/// be: the guest gets them, as children of the socket.
pub fn streams_opened(
    table: &mut ResourceTable,
    platform: &Platform,
    this: Key,
    remote_address: Option<IpSocketAddress>,
    connected: Result<(), i32>,
) -> (r: SocketResult<(Key, Key)>)
    ensures
        match udp_socket_at(*old(table), this) {
            Err(e) => r == Err::<(Key, Key), SocketError>(trap(e)) && table::unchanged(
                *old(table),
                *final(table),
            ),
            Ok(socket) => match (remote_address, connected) {
                (Some(_), Err(errno)) => {
                    &&& r == Err::<(Key, Key), SocketError>(
                        platform.errnos.socket_errno_spec(errno),
                    )
                    &&& table::unchanged(*old(table), *final(table))
                },
                _ => replaced_with_pair(
                    *old(table),
                    this,
                    Entry::UdpSocket(socket.opened(remote_address)),
                    Entry::IncomingDatagramStream(
                        IncomingDatagramStream { inner: socket.inner, remote_address },
                    ),
                    Entry::OutgoingDatagramStream(
                        OutgoingDatagramStream { inner: socket.inner, remote_address },
                    ),
                    r,
                    *final(table),
                ),
            },
        },
{
    let found: UdpSocket = udp_socket(table, this)?;
    let mut socket: UdpSocket = found;
    if remote_address.is_some() {
        socket.stream_connected(platform, connected)?;
    }
    let (incoming, outgoing): (IncomingDatagramStream, OutgoingDatagramStream) = socket.streams(
        remote_address,
    );
    update_udp_socket(table, this, socket)?;
    let ghost mid = *table;
    assert(table::replaced(
        *old(table),
        this,
        Entry::UdpSocket(found.opened(remote_address)),
        mid,
    ));
    store_pair(
        table,
        Entry::IncomingDatagramStream(incoming),
        Entry::OutgoingDatagramStream(outgoing),
        this,
    )
}

/// Asks for the addresses of a name, where the network allows it.
pub fn resolve_addresses(
    table: &ResourceTable,
    net: Key,
    name: String,
    family: Option<IpAddressFamily>,
    include_unavailable: bool,
) -> (r: SocketResult<Lookup>)
    ensures
        r == match network_at(*table, net) {
            Err(e) => Err::<Lookup, SocketError>(trap(e)),
            Ok(n) => if n.allow_ip_name_lookup {
                Ok(Lookup { name, family })
            } else {
                Err(SocketError::Code(ErrorCode::PermanentResolverFailure))
            },
        },
{
    let n: Network = network(table, net)?;
    match n.resolve_addresses(name, family, include_unavailable) {
        Ok(lookup) => Ok(lookup),
        Err(e) => Err(SocketError::Code(e)),
    }
}

/// A task looks the addresses up: the guest gets a stream of them.
pub fn resolving(table: &mut ResourceTable, task: Task) -> (r: SocketResult<Key>)
    ensures
        stored(
            *old(table),
            Entry::ResolveAddressStream(ResolveAddressStream::Waiting(task)),
            r,
            *final(table),
        ),
{
    store(table, Entry::ResolveAddressStream(ResolveAddressStream::Waiting(task)))
}

/// The table, where a stream of addresses is now as far as this.
pub open spec fn addresses_replaced(
    before: ResourceTable,
    stream: Key,
    view: ResolveView,
    after: ResourceTable,
) -> bool {
    exists|addresses: ResolveAddressStream|
        {
            &&& #[trigger] table::replaced(
                before,
                stream,
                Entry::ResolveAddressStream(addresses),
                after,
            )
            &&& addresses@ == view
        }
}

/// The next address of a name; nothing once there is none left. `resolved` is
/// what the task, if there is one, came to.
pub fn resolve_next_address(
    table: &mut ResourceTable,
    platform: &Platform,
    stream: Key,
    resolved: Resolved,
) -> (r: SocketResult<Option<IpAddress>>)
    ensures
        match table::lookup(*old(table), stream) {
            Ok(Entry::ResolveAddressStream(addresses)) => {
                &&& r == addresses@.joined(resolved).next(*platform)
                &&& addresses_replaced(
                    *old(table),
                    stream,
                    addresses@.joined(resolved).after_next(),
                    *final(table),
                )
            },
            Ok(_) => {
                &&& r == Err::<Option<IpAddress>, SocketError>(trap(TableError::WrongType))
                &&& table::unchanged(*old(table), *final(table))
            },
            Err(e) => {
                &&& r == Err::<Option<IpAddress>, SocketError>(trap(e))
                &&& table::unchanged(*old(table), *final(table))
            },
        },
{
    match table::get_mut(table, stream) {
        Ok(entry) => match entry {
            Entry::ResolveAddressStream(addresses) => {
                let r: SocketResult<Option<IpAddress>> = addresses.resolve_next_address(
                    platform,
                    resolved,
                );
                let ghost after = *addresses;
                assert(table::replaced(
                    *old(table),
                    stream,
                    Entry::ResolveAddressStream(after),
                    *table,
                ));
                r
            },
            _ => {
                assert(table::entries(*table) =~= table::entries(*old(table)));
                Err(trapped(TableError::WrongType))
            },
        },
        Err(e) => Err(trapped(e)),
    }
}

/// As long as a stream of a UDP socket is there, no other can be opened: the
/// guest is stopped.
pub proof fn law_udp_streams_are_exclusive(
    before: ResourceTable,
    this: Key,
    incoming: IncomingDatagramStream,
    outgoing: OutgoingDatagramStream,
    a: Key,
    b: Key,
    after: ResourceTable,
)
    requires
        table::pushed_pair(
            before,
            a,
            Entry::IncomingDatagramStream(incoming),
            b,
            Entry::OutgoingDatagramStream(outgoing),
            this,
            after,
        ),
    ensures
        streams_active(after, this),
        table::has_children(after, this),
{
    assert(table::is_child(after, b, this));
    assert(table::lookup(after, b) == Ok::<Entry, TableError>(
        Entry::OutgoingDatagramStream(outgoing),
    ));
}

/// The sockets that are worked on are those under the keys; another resource
/// there, or none, stops the guest.
pub proof fn law_sockets_are_found_under_their_keys(
    table: ResourceTable,
    this: Key,
    tcp: SocketResult<TcpSocket>,
    udp: SocketResult<UdpSocket>,
)
    requires
        call_ensures(tcp_socket, (&table, this), tcp),
        call_ensures(udp_socket, (&table, this), udp),
    ensures
        match table::lookup(table, this) {
            Ok(Entry::TcpSocket(socket)) => tcp == Ok::<_, SocketError>(socket),
            Ok(_) => tcp == Err::<TcpSocket, _>(
                SocketError::Trap(SocketTrap::Table(TableError::WrongType)),
            ),
            Err(e) => tcp == Err::<TcpSocket, _>(SocketError::Trap(SocketTrap::Table(e))),
        },
        match table::lookup(table, this) {
            Ok(Entry::UdpSocket(socket)) => udp == Ok::<_, SocketError>(socket),
            Ok(_) => udp == Err::<UdpSocket, _>(
                SocketError::Trap(SocketTrap::Table(TableError::WrongType)),
            ),
            Err(e) => udp == Err::<UdpSocket, _>(SocketError::Trap(SocketTrap::Table(e))),
        },
{
}

/// A socket that has changed is found as it is now; nothing else in the table
/// changes, and nothing at all where there is no such socket.
pub proof fn law_updated_sockets_are_found(
    a: &mut ResourceTable,
    b: &mut ResourceTable,
    this: Key,
    tcp: TcpSocket,
    udp: UdpSocket,
    other: Key,
    r: SocketResult<()>,
    s: SocketResult<()>,
)
    requires
        call_ensures(update_tcp_socket, (a, this, tcp), r),
        call_ensures(update_udp_socket, (b, this, udp), s),
        other != this,
    ensures
        r is Ok <==> table::lookup(*old(a), this) matches Ok(Entry::TcpSocket(_)),
        s is Ok <==> table::lookup(*old(b), this) matches Ok(Entry::UdpSocket(_)),
        r is Ok ==> table::lookup(*final(a), this) == Ok::<_, TableError>(Entry::TcpSocket(tcp)),
        s is Ok ==> table::lookup(*final(b), this) == Ok::<_, TableError>(Entry::UdpSocket(udp)),
        r is Err ==> table::unchanged(*old(a), *final(a)),
        s is Err ==> table::unchanged(*old(b), *final(b)),
        table::lookup(*final(a), other) == table::lookup(*old(a), other),
        table::lookup(*final(b), other) == table::lookup(*old(b), other),
{
}

/// A socket that was made is found under the key that the guest gets, of the
/// family that it was asked for, and unused; that none could be made is told.
pub proof fn law_created_sockets_are_found(
    table: &mut ResourceTable,
    platform: Platform,
    family: IpAddressFamily,
    made: Result<SocketHandle, IoError>,
    told: SocketError,
    other: Key,
    r: SocketResult<Key>,
)
    requires
        call_ensures(create_tcp_socket, (table, &platform, family, made), r),
        made matches Err(e) ==> call_ensures(
            crate::errno::Errnos::socket_error,
            (&platform.errnos, e),
            told,
        ),
    ensures
        r matches Ok(key) ==> {
            &&& made matches Ok(inner)
            &&& table::lookup(*old(table), key) == Err::<Entry, _>(TableError::NotPresent)
            &&& table::lookup(*final(table), key) matches Ok(Entry::TcpSocket(socket))
            &&& socket.inner == inner
            &&& socket.family == family
            &&& socket.state is Default
            &&& other != key ==> table::lookup(*final(table), other) == table::lookup(
                *old(table),
                other,
            )
        },
        r is Err ==> table::unchanged(*old(table), *final(table)),
        made is Err ==> r == Err::<Key, _>(told),
        made is Ok ==> (r is Ok <==> !table::is_full(*old(table))),
{
}

/// A socket is bound or connected on the network under the key that is given,
/// as the socket itself says: to the address that is given. A key that is not
/// one stops the guest, the socket's first.
pub proof fn law_binding_and_connecting_are_on_the_network_given(
    table: ResourceTable,
    this: Key,
    net: Key,
    address: IpSocketAddress,
    bound: SocketResult<(SocketCall, Network)>,
    connected: SocketResult<(SocketCall, Network)>,
    udp_bound: SocketResult<(SocketCall, Network)>,
)
    requires
        call_ensures(start_bind, (&table, this, net, address), bound),
        call_ensures(start_connect, (&table, this, net, address), connected),
        call_ensures(udp_start_bind, (&table, this, net, address), udp_bound),
    ensures
        bound matches Ok((call, network)) ==> {
            &&& table::lookup(table, this) matches Ok(Entry::TcpSocket(socket))
            &&& table::lookup(table, net) == Ok::<_, TableError>(Entry::Network(network))
            &&& call == (SocketCall::TcpBind { socket: socket.inner, address })
            &&& socket.state is Default
        },
        connected matches Ok((call, network)) ==> {
            &&& table::lookup(table, this) matches Ok(Entry::TcpSocket(socket))
            &&& table::lookup(table, net) == Ok::<_, TableError>(Entry::Network(network))
            &&& call == (SocketCall::TcpConnect { socket: socket.inner, address })
            &&& socket.state is Default
        },
        udp_bound matches Ok((call, network)) ==> {
            &&& table::lookup(table, this) matches Ok(Entry::UdpSocket(socket))
            &&& table::lookup(table, net) == Ok::<_, TableError>(Entry::Network(network))
            &&& call == (SocketCall::UdpBind { socket: socket.inner, address })
            &&& socket.state is Default
        },
        !(table::lookup(table, this) matches Ok(Entry::TcpSocket(_))) || !(table::lookup(
            table,
            net,
        ) matches Ok(Entry::Network(_))) ==> {
            &&& bound matches Err(SocketError::Trap(SocketTrap::Table(_)))
            &&& connected matches Err(SocketError::Trap(SocketTrap::Table(_)))
        },
        !(table::lookup(table, this) matches Ok(Entry::UdpSocket(_))) || !(table::lookup(
            table,
            net,
        ) matches Ok(Entry::Network(_))) ==> (udp_bound matches Err(
            SocketError::Trap(SocketTrap::Table(_)),
        )),
        (table::lookup(table, this) matches Ok(Entry::TcpSocket(socket)) && socket.state is Default
            && socket.family == address.family()) && (table::lookup(table, net) matches Ok(
            Entry::Network(_),
        )) ==> bound is Ok && (connected is Ok <==> address.port() != 0
            && !address.ip().is_unspecified()),
        (table::lookup(table, this) matches Ok(Entry::UdpSocket(socket)) && socket.state is Default)
            && (table::lookup(table, net) matches Ok(Entry::Network(_))) ==> udp_bound is Ok,
        (table::lookup(table, this) matches Ok(Entry::TcpSocket(socket))) && (table::lookup(
            table,
            net,
        ) matches Ok(Entry::Network(_))) ==> (bound matches Err(e) ==> e is Code) && (
        connected matches Err(e) ==> e is Code),
{
}

/// A connection attempt that has ended well gives the guest the two streams of
/// the connection, in this order: one to read from, over the half that is read,
/// and one to write to, over the half that is written. They are children of the
/// socket, which is connected from then on. One that has failed is told and
/// leaves the socket failed, and one that goes on leaves it as it is; where none
/// was begun there is none to finish.
pub proof fn law_connected_streams_are_found(
    table: &mut ResourceTable,
    platform: Platform,
    this: Key,
    poll: ConnectPoll,
    input: u64,
    output: u64,
    told: SocketError,
    other: Key,
    r: SocketResult<(Key, Key)>,
)
    requires
        call_ensures(finish_connect, (table, &platform, this, poll, input, output), r),
        poll matches ConnectPoll::Ended(Err(n)) ==> call_ensures(
            crate::errno::Errnos::socket_errno,
            (&platform.errnos, n),
            told,
        ),
    ensures
        r matches Ok((i, o)) ==> {
            &&& table::lookup(*old(table), this) matches Ok(Entry::TcpSocket(socket))
            &&& socket.state is ConnectReady || socket.state is Connecting && (
                poll matches ConnectPoll::Ended(Ok(_)))
            &&& table::lookup(*final(table), this) == Ok::<_, TableError>(
                Entry::TcpSocket(TcpSocket { state: TcpState::Connected, ..socket }),
            )
            &&& i != o && i != this && o != this
            &&& table::lookup(*old(table), i) is Err && table::lookup(*old(table), o) is Err
            &&& table::lookup(*final(table), i) == Ok::<_, TableError>(
                Entry::InputStream(InputStream::Host(input)),
            )
            &&& table::lookup(*final(table), o) == Ok::<_, TableError>(
                Entry::OutputStream(OutputStream::Host(output)),
            )
            &&& table::is_child(*final(table), i, this) && table::is_child(*final(table), o, this)
            &&& other != this && other != i && other != o ==> table::lookup(*final(table), other)
                == table::lookup(*old(table), other)
        },
        table::lookup(*old(table), this) matches Ok(Entry::TcpSocket(socket)) ==> {
            &&& !(socket.state is ConnectReady || socket.state is Connecting) ==> r == Err::<
                (Key, Key),
                _,
            >(SocketError::Code(ErrorCode::NotInProgress)) && table::unchanged(
                *old(table),
                *final(table),
            )
            &&& socket.state is Connecting && poll is NotReady ==> {
                &&& r == Err::<(Key, Key), _>(SocketError::Code(ErrorCode::WouldBlock))
                &&& table::lookup(*final(table), this) == table::lookup(*old(table), this)
            }
            &&& socket.state is Connecting && (poll matches ConnectPoll::Ended(Err(_))) ==> {
                &&& r == Err::<(Key, Key), _>(told)
                &&& table::lookup(*final(table), this) == Ok::<_, TableError>(
                    Entry::TcpSocket(TcpSocket { state: TcpState::ConnectFailed, ..socket }),
                )
            }
            &&& socket.state is ConnectReady || socket.state is Connecting && (
                poll matches ConnectPoll::Ended(Ok(_))) ==> (r is Ok || r matches Err(
                SocketError::Trap(SocketTrap::Table(_)),
            ))
        },
        !(table::lookup(*old(table), this) matches Ok(Entry::TcpSocket(_))) ==> (r matches Err(
            SocketError::Trap(SocketTrap::Table(_)),
        )) && table::unchanged(*old(table), *final(table)),
{
    if let Ok((i, o)) = r {
        if let Ok(Entry::TcpSocket(socket)) = table::lookup(*old(table), this) {
            let connected = Entry::TcpSocket(socket.in_state(TcpState::Connected));
            let first = Entry::InputStream(InputStream::Host(input));
            let second = Entry::OutputStream(OutputStream::Host(output));
            let mid = choose|mid: ResourceTable|
                {
                    &&& #[trigger] table::replaced(*old(table), this, connected, mid)
                    &&& pair_stored(mid, first, second, this, r, *final(table))
                };
            table::law_pairs_are_found(mid, i, first, o, second, this, *final(table), this);
            assert(table::lookup(mid, i) is Err);
            assert(table::lookup(mid, o) is Err);
        }
    }
}

/// A connection that was accepted gives the guest a socket of its own and the
/// two streams of the connection, in this order: one to read from, over the
/// half that is read, and one to write to, over the half that is written. The
/// streams are children of the new socket, which is connected, and of the
/// family of the one that listens; that one, and everything else, stays. Where
/// none was accepted, nothing changes, and the guest is told what an accept
/// tells.
pub proof fn law_accepted_connections_are_found(
    table: &mut ResourceTable,
    platform: Platform,
    this: Key,
    outcome: Result<SocketHandle, IoError>,
    input: u64,
    output: u64,
    listener: TcpSocket,
    own: SocketResult<TcpSocket>,
    other: Key,
    r: SocketResult<(Key, Key, Key)>,
)
    requires
        call_ensures(accept, (table, &platform, this, outcome, input, output), r),
        table::lookup(*old(table), this) == Ok::<_, TableError>(Entry::TcpSocket(listener)),
        call_ensures(TcpSocket::accepted, (&listener, &platform, outcome), own),
    ensures
        r matches Ok((s, i, o)) ==> {
            &&& listener.state is Listening
            &&& outcome matches Ok(inner)
            &&& s != i && s != o && i != o && s != this && i != this && o != this
            &&& table::lookup(*final(table), s) matches Ok(Entry::TcpSocket(socket))
            &&& socket.inner == inner
            &&& socket.state is Connected
            &&& socket.family == listener.family
            &&& table::lookup(*final(table), i) == Ok::<_, TableError>(
                Entry::InputStream(InputStream::Host(input)),
            )
            &&& table::lookup(*final(table), o) == Ok::<_, TableError>(
                Entry::OutputStream(OutputStream::Host(output)),
            )
            &&& table::is_child(*final(table), i, s) && table::is_child(*final(table), o, s)
            &&& other != s && other != i && other != o ==> table::lookup(*final(table), other)
                == table::lookup(*old(table), other)
        },
        listener.state is Default ==> r == Err::<(Key, Key, Key), _>(
            SocketError::Code(ErrorCode::NotListening),
        ),
        !(listener.state is Default || listener.state is Listening) ==> r == Err::<
            (Key, Key, Key),
            _,
        >(SocketError::Code(ErrorCode::InvalidState)),
        listener.state is Listening && outcome is Err ==> (own matches Err(e) && r == Err::<
            (Key, Key, Key),
            _,
        >(e)),
        !(listener.state is Listening) || outcome is Err ==> *final(table) == *old(table),
        listener.state is Listening && outcome is Ok ==> (r is Ok || r matches Err(
            SocketError::Trap(SocketTrap::Table(_)),
        )),
{
    if let Ok((s, i, o)) = r {
        if let Ok(inner) = outcome {
            let entry = Entry::TcpSocket(
                TcpSocket {
                    inner,
                    state: TcpState::Connected,
                    family: listener.family,
                    backlog: None,
                },
            );
            let first = Entry::InputStream(InputStream::Host(input));
            let second = Entry::OutputStream(OutputStream::Host(output));
            let end = *final(table);
            if other != s && other != i && other != o {
                table::law_families_are_found(
                    *old(table),
                    s,
                    entry,
                    i,
                    first,
                    o,
                    second,
                    end,
                    other,
                );
            }
            let mid = choose|mid: ResourceTable|
                {
                    &&& #[trigger] table::pushed(*old(table), s, entry, mid)
                    &&& table::pushed_pair(mid, i, first, o, second, s, end)
                };
            assert(table::entries(mid).contains_key(s));
            assert(table::entries(mid).contains_key(this));
        }
    }
}

/// A socket is dropped where it is one and has no streams left, and nothing
/// else is; what the system is asked then is what the socket asks for itself.
pub proof fn law_dropped_sockets_are_gone(
    table: &mut ResourceTable,
    platform: Platform,
    this: Key,
    socket: TcpSocket,
    closed: Option<SocketCall>,
    other: Key,
    r: Result<Option<SocketCall>, TableError>,
)
    requires
        call_ensures(drop_tcp_socket, (table, &platform, this), r),
        call_ensures(TcpSocket::close, (&socket, &platform), closed),
        other != this,
    ensures
        table::lookup(*final(table), other) == table::lookup(*old(table), other),
        table::lookup(*old(table), this) == Ok::<_, TableError>(Entry::TcpSocket(socket)) ==> {
            &&& table::has_children(*old(table), this) ==> r == Err::<Option<SocketCall>, _>(
                TableError::HasChildren,
            ) && table::lookup(*final(table), this) == table::lookup(*old(table), this)
            &&& !table::has_children(*old(table), this) ==> r == Ok::<_, TableError>(closed)
                && table::lookup(*final(table), this) is Err
        },
        r is Ok ==> (table::lookup(*old(table), this) matches Ok(Entry::TcpSocket(_))),
{
}

/// The streams of a UDP socket are opened as the socket itself says, unless one
/// of them is still there: then the guest is stopped.
pub proof fn law_udp_streams_are_opened_once(
    table: ResourceTable,
    this: Key,
    peer: Option<IpSocketAddress>,
    socket: UdpSocket,
    own: SocketResult<StreamStep>,
    child: Key,
    r: SocketResult<StreamStep>,
)
    requires
        table::lookup(table, this) == Ok::<_, TableError>(Entry::UdpSocket(socket)),
        call_ensures(UdpSocket::stream, (&socket, false, peer), own),
        call_ensures(udp_stream, (&table, this, peer), r),
    ensures
        table::is_child(table, child, this) && (table::lookup(table, child) matches Ok(
            Entry::IncomingDatagramStream(_),
        )) ==> r == Err::<StreamStep, _>(SocketError::Trap(SocketTrap::StreamsNotDropped)),
        table::is_child(table, child, this) && (table::lookup(table, child) matches Ok(
            Entry::OutgoingDatagramStream(_),
        )) ==> r == Err::<StreamStep, _>(SocketError::Trap(SocketTrap::StreamsNotDropped)),
        !table::has_children(table, this) ==> r == own,
{
    if streams_active(table, this) {
        let c = choose|c: Key|
            {
                &&& #[trigger] table::is_child(table, c, this)
                &&& table::lookup(table, c) matches Ok(entry)
                &&& is_datagram_stream(entry)
            };
        assert(table::is_child(table, c, this));
    }
}

/// The guest gets the two streams of a UDP socket, in this order: one to receive
/// from and one to send to, both over that socket and both with the peer that
/// was given. They are children of the socket, which is connected from then on
/// where there is a peer. Where it could not be connected, nothing changes and
/// the guest is told.
pub proof fn law_udp_streams_are_found(
    table: &mut ResourceTable,
    platform: Platform,
    this: Key,
    peer: Option<IpSocketAddress>,
    connected: Result<(), i32>,
    socket: UdpSocket,
    told: SocketError,
    other: Key,
    r: SocketResult<(Key, Key)>,
)
    requires
        call_ensures(streams_opened, (table, &platform, this, peer, connected), r),
        table::lookup(*old(table), this) == Ok::<_, TableError>(Entry::UdpSocket(socket)),
        connected matches Err(n) ==> call_ensures(
            crate::errno::Errnos::socket_errno,
            (&platform.errnos, n),
            told,
        ),
    ensures
        r matches Ok((i, o)) ==> {
            &&& i != o && i != this && o != this
            &&& table::lookup(*final(table), i) matches Ok(Entry::IncomingDatagramStream(incoming))
            &&& incoming.inner == socket.inner && incoming.remote_address == peer
            &&& table::lookup(*final(table), o) matches Ok(Entry::OutgoingDatagramStream(outgoing))
            &&& outgoing.inner == socket.inner && outgoing.remote_address == peer
            &&& table::is_child(*final(table), i, this) && table::is_child(*final(table), o, this)
            &&& table::lookup(*final(table), this) matches Ok(Entry::UdpSocket(after))
            &&& after.inner == socket.inner && after.family == socket.family
            &&& peer is Some ==> after.state is Connected
            &&& peer is None ==> after.state == socket.state
            &&& other != this && other != i && other != o ==> table::lookup(*final(table), other)
                == table::lookup(*old(table), other)
        },
        peer is Some && connected is Err ==> r == Err::<(Key, Key), _>(told) && table::unchanged(
            *old(table),
            *final(table),
        ),
        peer is None || connected is Ok ==> (r is Ok || r matches Err(
            SocketError::Trap(SocketTrap::Table(_)),
        )),
{
    if let Ok((i, o)) = r {
        let opened = Entry::UdpSocket(socket.opened(peer));
        let first = Entry::IncomingDatagramStream(
            IncomingDatagramStream { inner: socket.inner, remote_address: peer },
        );
        let second = Entry::OutgoingDatagramStream(
            OutgoingDatagramStream { inner: socket.inner, remote_address: peer },
        );
        let mid = choose|mid: ResourceTable|
            {
                &&& #[trigger] table::replaced(*old(table), this, opened, mid)
                &&& pair_stored(mid, first, second, this, r, *final(table))
            };
        table::law_pairs_are_found(mid, i, first, o, second, this, *final(table), this);
    }
}

/// Names are looked up on the network under the key, as that network says; the
/// stream of the task that looks them up is found under the key that the guest
/// gets.
pub proof fn law_lookups_are_on_the_network_given(
    table: ResourceTable,
    net: Key,
    name: String,
    family: Option<IpAddressFamily>,
    unavailable_too: bool,
    r: SocketResult<Lookup>,
    resolves: &mut ResourceTable,
    task: Task,
    s: SocketResult<Key>,
)
    requires
        call_ensures(resolve_addresses, (&table, net, name, family, unavailable_too), r),
        call_ensures(resolving, (resolves, task), s),
    ensures
        match table::lookup(table, net) {
            Ok(Entry::Network(network)) => if network.allow_ip_name_lookup {
                r matches Ok(lookup) && lookup.name == name && lookup.family == family
            } else {
                r == Err::<Lookup, _>(SocketError::Code(ErrorCode::PermanentResolverFailure))
            },
            _ => r matches Err(SocketError::Trap(SocketTrap::Table(_))),
        },
        s is Ok <==> !table::is_full(*old(resolves)),
        s matches Ok(key) ==> {
            &&& table::lookup(*old(resolves), key) is Err
            &&& table::lookup(*final(resolves), key) matches Ok(
                Entry::ResolveAddressStream(stream),
            )
            &&& stream@ == ResolveView::Waiting(task)
        },
{
}

/// Addresses come from the stream under the key, as the stream itself hands
/// them out, each once; nothing else in the table changes.
pub proof fn law_addresses_come_from_their_stream(
    table: &mut ResourceTable,
    platform: Platform,
    stream: Key,
    resolved: Resolved,
    before: ResolveAddressStream,
    own: &mut ResolveAddressStream,
    handed: SocketResult<Option<IpAddress>>,
    other: Key,
    r: SocketResult<Option<IpAddress>>,
)
    requires
        call_ensures(resolve_next_address, (table, &platform, stream, resolved), r),
        table::lookup(*old(table), stream) == Ok::<_, TableError>(
            Entry::ResolveAddressStream(before),
        ),
        *old(own) == before,
        call_ensures(
            ResolveAddressStream::resolve_next_address,
            (own, &platform, resolved),
            handed,
        ),
        other != stream,
    ensures
        r == handed,
        table::lookup(*final(table), stream) matches Ok(Entry::ResolveAddressStream(after))
            && after@ == final(own)@,
        table::lookup(*final(table), other) == table::lookup(*old(table), other),
{
}

/// Where another resource is found under a key, or none, that is what stops the
/// guest, and nothing has happened: the socket's key comes before the network's.
pub proof fn law_other_resources_stop_the_guest(
    table: ResourceTable,
    this: Key,
    net: Key,
    address: IpSocketAddress,
    name: String,
    family: Option<IpAddressFamily>,
    unavailable_too: bool,
    bind: SocketResult<(SocketCall, Network)>,
    connect: SocketResult<(SocketCall, Network)>,
    udp_bind: SocketResult<(SocketCall, Network)>,
    lookup: SocketResult<Lookup>,
)
    requires
        call_ensures(start_bind, (&table, this, net, address), bind),
        call_ensures(start_connect, (&table, this, net, address), connect),
        call_ensures(udp_start_bind, (&table, this, net, address), udp_bind),
        call_ensures(resolve_addresses, (&table, net, name, family, unavailable_too), lookup),
    ensures
        ({
            let tcp = table::lookup(table, this) matches Ok(Entry::TcpSocket(_));
            let udp = table::lookup(table, this) matches Ok(Entry::UdpSocket(_));
            let network = table::lookup(table, net) matches Ok(Entry::Network(_));
            let no_socket = SocketError::Trap(
                SocketTrap::Table(table::refusal(table::lookup(table, this))),
            );
            let no_network = SocketError::Trap(
                SocketTrap::Table(table::refusal(table::lookup(table, net))),
            );
            &&& !tcp ==> bind == Err::<(SocketCall, Network), _>(no_socket) && connect == bind
            &&& tcp && !network ==> bind == Err::<(SocketCall, Network), _>(no_network) && connect
                == bind
            &&& !udp ==> udp_bind == Err::<(SocketCall, Network), _>(no_socket)
            &&& udp && !network ==> udp_bind == Err::<(SocketCall, Network), _>(no_network)
            &&& !network ==> lookup == Err::<Lookup, _>(no_network)
        }),
{
}

/// What is not the socket, or the stream, that is to be changed, is left as it
/// is, and that it is not is what stops the guest.
pub proof fn law_other_resources_stay_as_they_are(
    tcp: &mut ResourceTable,
    udp: &mut ResourceTable,
    dropped: &mut ResourceTable,
    resolving: &mut ResourceTable,
    platform: Platform,
    this: Key,
    socket: TcpSocket,
    udp_socket: UdpSocket,
    answer: Resolved,
    a: SocketResult<()>,
    b: SocketResult<()>,
    c: Result<Option<SocketCall>, TableError>,
    d: SocketResult<Option<IpAddress>>,
)
    requires
        call_ensures(update_tcp_socket, (tcp, this, socket), a),
        call_ensures(update_udp_socket, (udp, this, udp_socket), b),
        call_ensures(drop_tcp_socket, (dropped, &platform, this), c),
        call_ensures(resolve_next_address, (resolving, &platform, this, answer), d),
    ensures
        !(table::lookup(*old(tcp), this) matches Ok(Entry::TcpSocket(_))) ==> {
            &&& a == Err::<(), _>(
                SocketError::Trap(
                    SocketTrap::Table(table::refusal(table::lookup(*old(tcp), this))),
                ),
            )
            &&& table::unchanged(*old(tcp), *final(tcp))
        },
        !(table::lookup(*old(udp), this) matches Ok(Entry::UdpSocket(_))) ==> {
            &&& b == Err::<(), _>(
                SocketError::Trap(
                    SocketTrap::Table(table::refusal(table::lookup(*old(udp), this))),
                ),
            )
            &&& table::unchanged(*old(udp), *final(udp))
        },
        !(table::lookup(*old(dropped), this) matches Ok(Entry::TcpSocket(_))) ==> c == Err::<
            Option<SocketCall>,
            _,
        >(table::refusal_to_take(*old(dropped), this)),
        !(table::lookup(*old(resolving), this) matches Ok(Entry::ResolveAddressStream(_))) ==> {
            &&& d == Err::<Option<IpAddress>, _>(
                SocketError::Trap(
                    SocketTrap::Table(table::refusal(table::lookup(*old(resolving), this))),
                ),
            )
            &&& table::unchanged(*old(resolving), *final(resolving))
        },
{
}

/// A connection is only accepted on, or finished for, a TCP socket, and the
/// streams of a UDP socket are those of one: another resource stops the guest,
/// and nothing has happened.
pub proof fn law_streams_belong_to_sockets(
    accepting: &mut ResourceTable,
    finishing: &mut ResourceTable,
    opening: &mut ResourceTable,
    platform: Platform,
    this: Key,
    outcome: Result<SocketHandle, IoError>,
    poll: ConnectPoll,
    remote_address: Option<IpSocketAddress>,
    connected: Result<(), i32>,
    input: u64,
    output: u64,
    a: SocketResult<(Key, Key, Key)>,
    b: SocketResult<(Key, Key)>,
    c: SocketResult<(Key, Key)>,
)
    requires
        call_ensures(accept, (accepting, &platform, this, outcome, input, output), a),
        call_ensures(finish_connect, (finishing, &platform, this, poll, input, output), b),
        call_ensures(streams_opened, (opening, &platform, this, remote_address, connected), c),
    ensures
        !(table::lookup(*old(accepting), this) matches Ok(Entry::TcpSocket(_))) ==> {
            &&& a == Err::<(Key, Key, Key), _>(
                SocketError::Trap(
                    SocketTrap::Table(table::refusal(table::lookup(*old(accepting), this))),
                ),
            )
            &&& *final(accepting) == *old(accepting)
        },
        !(table::lookup(*old(finishing), this) matches Ok(Entry::TcpSocket(_))) ==> {
            &&& b == Err::<(Key, Key), _>(
                SocketError::Trap(
                    SocketTrap::Table(table::refusal(table::lookup(*old(finishing), this))),
                ),
            )
            &&& table::unchanged(*old(finishing), *final(finishing))
        },
        !(table::lookup(*old(opening), this) matches Ok(Entry::UdpSocket(_))) ==> {
            &&& c == Err::<(Key, Key), _>(
                SocketError::Trap(
                    SocketTrap::Table(table::refusal(table::lookup(*old(opening), this))),
                ),
            )
            &&& table::unchanged(*old(opening), *final(opening))
        },
{
}

} // verus!
