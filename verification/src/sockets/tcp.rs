//! TCP sockets.
use super::address::{IpAddressFamily, IpSocketAddress};
use super::errors::{ErrorCode, SocketError, SocketResult};
use super::{buffer_size, SocketCall, SocketHandle};
use crate::errno::Platform;
use crate::error::{IoError, Polled, StreamError};
use crate::streams::read::{AsyncReadStream, ReadOutcome, ReadStateView, ReadStepView};
use crate::streams::write::{AsyncWriteState, AsyncWriteStream, WriteOutcome};
use crate::streams::Task;
use vstd::prelude::*;

verus! {

#[derive(Clone, Copy, Debug, PartialEq, Eq, Structural)]
pub enum TcpState {
    /// The initial state for a newly-created socket.
    Default,
    /// Binding started via `start_bind`.
    BindStarted,
    /// Binding finished via `finish_bind`. The socket has an address but is
    /// not yet listening for connections.
    Bound,
    /// Listening started via `start_listen`.
    ListenStarted,
    /// The socket is now listening and waiting for an incoming connection.
    Listening,
    /// An outgoing connection is started via `start_connect`.
    Connecting,
    /// An outgoing connection is ready to be established.
    ConnectReady,
    /// An outgoing connection was attempted but failed.
    ConnectFailed,
    /// An outgoing connection has been established.
    Connected,
}

#[derive(Clone, Copy, Debug, PartialEq, Eq, Structural)]
pub struct TcpSocket {
    /// The part of the socket that the operating system keeps.
    pub inner: SocketHandle,
    /// The state that the socket is in.
    pub state: TcpState,
    /// The family of addresses that the socket works with.
    pub family: IpAddressFamily,
    /// How many connections may wait to be accepted, where the guest has said
    /// so before the socket listens.
    pub backlog: Option<i32>,
}

/// Which direction of a connection is shut down.
#[derive(Clone, Copy, Debug, PartialEq, Eq, Structural)]
pub enum ShutdownType {
    Receive,
    Send,
    Both,
}

/// The streams of a connection that a shutdown has ended.
#[derive(Clone, Copy, Debug, PartialEq, Eq, Structural)]
pub struct EndedStreams {
    /// Nothing more is read, not even what has arrived already.
    pub input: bool,
    /// Nothing more is written.
    pub output: bool,
}

impl ShutdownType {
    /// The streams that end with the direction.
    pub open spec fn ends(self) -> EndedStreams {
        EndedStreams { input: !(self is Send), output: !(self is Receive) }
    }
}

impl EndedStreams {
    /// Closes the input stream of the connection, where it has ended. Returns
    /// the task to abort.
    pub fn end_input<IO>(&self, stream: &mut AsyncReadStream<IO>) -> (r: Option<Task>)
        ensures
            final(stream).max_read == old(stream).max_read,
            if self.input {
                &&& final(stream).state@ == old(stream).state@.canceled(StreamError::Closed)
                &&& r == match old(stream).state@ {
                    ReadStateView::Reading(task) => Some(task),
                    _ => None,
                }
            } else {
                *final(stream) == *old(stream) && r is None
            },
    {
        if self.input {
            stream.cancel(StreamError::Closed)
        } else {
            None
        }
    }

    /// Closes the output stream of the connection, where it has ended. Returns
    /// the task to abort.
    pub fn end_output<IO>(&self, stream: &mut AsyncWriteStream<IO>) -> (r: Option<Task>)
        ensures
            if self.output {
                &&& *final(stream) == (AsyncWriteStream {
                    state: old(stream).state.canceled(StreamError::Closed),
                    ..*old(stream)
                })
                &&& r == old(stream).state.active()
            } else {
                *final(stream) == *old(stream) && r is None
            },
    {
        if self.output {
            stream.cancel(StreamError::Closed)
        } else {
            None
        }
    }
}

/// What an attempt to bind or to connect came to.
#[derive(Clone, Copy, Debug, PartialEq, Eq)]
pub enum PoolOutcome {
    /// The network does not allow the address.
    Refused(IoError),
    /// The operating system was asked.
    Asked(Result<(), IoError>),
}

/// What a test for the end of a connection attempt came to.
#[derive(Clone, Copy, Debug, PartialEq, Eq)]
pub enum ConnectPoll {
    /// It has not ended.
    NotReady,
    /// It has ended, with an error number where it has failed.
    Ended(Result<(), i32>),
}

/// How an attempt to end a connection goes on.
#[derive(Clone, Copy, Debug, PartialEq, Eq)]
pub enum FinishConnect {
    /// The connection is there.
    Ready,
    /// The operating system has to be asked whether it is.
    Ask(SocketCall),
}

/// What a socket is waited for.
#[derive(Clone, Copy, Debug, PartialEq, Eq, Structural)]
pub enum Readiness {
    /// For nothing: it is ready.
    Immediate,
    /// To be readable or writable.
    ReadableOrWritable(SocketHandle),
}

impl TcpState {
    /// Something was started that is not finished.
    pub open spec fn in_progress(self) -> bool {
        self is BindStarted || self is ListenStarted || self is Connecting || self is ConnectReady
    }
}

impl TcpSocket {
    /// A new socket around one of the operating system.
    pub fn new(inner: SocketHandle, family: IpAddressFamily) -> (r: TcpSocket)
        ensures
            r == (TcpSocket { inner, state: TcpState::Default, family, backlog: None }),
    {
        TcpSocket { inner, state: TcpState::Default, family, backlog: None }
    }

    /// This socket, in another state.
    pub open spec fn in_state(self, state: TcpState) -> TcpSocket {
        TcpSocket { state, ..self }
    }

    /// Binding to `local` is asked of the operating system; or what the guest
    /// is told instead.
    pub open spec fn bind_request(self, local: IpSocketAddress) -> Result<SocketCall, ErrorCode> {
        if self.state.in_progress() {
            Err(ErrorCode::ConcurrencyConflict)
        } else if !(self.state is Default) {
            Err(ErrorCode::InvalidState)
        } else if local.family() != self.family {
            Err(ErrorCode::InvalidArgument)
        } else {
            Ok(SocketCall::TcpBind { socket: self.inner, address: local })
        }
    }

    pub fn start_bind(&self, local_address: IpSocketAddress) -> (r: Result<SocketCall, ErrorCode>)
        ensures
            r == self.bind_request(local_address),
    {
        match self.state {
            TcpState::Default => {},
            TcpState::Bound
            | TcpState::Connected
            | TcpState::ConnectFailed
            | TcpState::Listening => return Err(ErrorCode::InvalidState),
            TcpState::BindStarted
            | TcpState::Connecting
            | TcpState::ConnectReady
            | TcpState::ListenStarted => return Err(ErrorCode::ConcurrencyConflict),
        }
        if local_address.family() != self.family {
            return Err(ErrorCode::InvalidArgument);
        }
        Ok(SocketCall::TcpBind { socket: self.inner, address: local_address })
    }

    /// What the guest is told where the operating system does not bind. An
    /// address of a family that the socket does not know is an invalid
    /// argument; Windows says that it has no buffers where it has no ports.
    pub open spec fn bind_failure(platform: Platform, e: IoError) -> SocketError {
        if platform.is(e, platform.errnos.afnosupport) {
            SocketError::Code(ErrorCode::InvalidArgument)
        } else if platform.windows && platform.is(e, platform.errnos.nobufs) {
            SocketError::Code(ErrorCode::AddressInUse)
        } else {
            platform.errnos.socket_error_spec(e)
        }
    }

    /// Takes in what the attempt to bind came to.
    pub fn bind_started(&mut self, platform: &Platform, outcome: PoolOutcome) -> (r: SocketResult<
        (),
    >)
        ensures
            match outcome {
                PoolOutcome::Refused(e) => {
                    &&& r == Err::<(), _>(platform.errnos.socket_error_spec(e))
                    &&& *final(self) == *old(self)
                },
                PoolOutcome::Asked(Ok(_)) => {
                    &&& r is Ok
                    &&& *final(self) == old(self).in_state(TcpState::BindStarted)
                },
                PoolOutcome::Asked(Err(e)) => {
                    &&& *final(self) == *old(self)
                    &&& r == Err::<(), _>(TcpSocket::bind_failure(*platform, e))
                },
            },
    {
        match outcome {
            PoolOutcome::Refused(e) => Err(platform.errnos.socket_error(e)),
            PoolOutcome::Asked(Ok(())) => {
                self.state = TcpState::BindStarted;
                Ok(())
            },
            PoolOutcome::Asked(Err(e)) => if platform.is_errno(e, platform.errnos.afnosupport) {
                Err(SocketError::Code(ErrorCode::InvalidArgument))
            } else if platform.windows && platform.is_errno(e, platform.errnos.nobufs) {
                Err(SocketError::Code(ErrorCode::AddressInUse))
            } else {
                Err(platform.errnos.socket_error(e))
            },
        }
    }

    /// The socket once its binding was finished; or what the guest is told
    /// instead.
    pub open spec fn finish_bind_request(self) -> Result<TcpSocket, ErrorCode> {
        if self.state is BindStarted {
            Ok(self.in_state(TcpState::Bound))
        } else {
            Err(ErrorCode::NotInProgress)
        }
    }

    pub fn finish_bind(&mut self) -> (r: Result<(), ErrorCode>)
        ensures
            match old(self).finish_bind_request() {
                Ok(socket) => r is Ok && *final(self) == socket,
                Err(e) => r == Err::<(), _>(e) && *final(self) == *old(self),
            },
    {
        match self.state {
            TcpState::BindStarted => {},
            _ => return Err(ErrorCode::NotInProgress),
        }
        self.state = TcpState::Bound;
        Ok(())
    }

    /// Connecting to `remote` is asked of the operating system; or what the
    /// guest is told instead. A socket that was bound cannot connect.
    pub open spec fn connect_request(self, remote: IpSocketAddress) -> Result<
        SocketCall,
        ErrorCode,
    > {
        if self.state.in_progress() {
            Err(ErrorCode::ConcurrencyConflict)
        } else if !(self.state is Default) {
            Err(ErrorCode::InvalidState)
        } else if remote.family() != self.family || remote.ip().is_unspecified() || remote.port()
            == 0 {
            Err(ErrorCode::InvalidArgument)
        } else {
            Ok(SocketCall::TcpConnect { socket: self.inner, address: remote })
        }
    }

    pub fn start_connect(&self, remote_address: IpSocketAddress) -> (r: Result<
        SocketCall,
        ErrorCode,
    >)
        ensures
            r == self.connect_request(remote_address),
    {
        match self.state {
            TcpState::Default => {},
            // Connecting on explicitly bound sockets should be allowed, but
            // networks can't be checked for equality, so it can't be told
            // whether the network that it was bound under allows the address.
            TcpState::Bound => return Err(ErrorCode::InvalidState),
            TcpState::Connected | TcpState::ConnectFailed | TcpState::Listening => {
                return Err(ErrorCode::InvalidState);
            },
            TcpState::Connecting
            | TcpState::ConnectReady
            | TcpState::ListenStarted
            | TcpState::BindStarted => return Err(ErrorCode::ConcurrencyConflict),
        }
        if remote_address.family() != self.family {
            return Err(ErrorCode::InvalidArgument);
        }
        if remote_address.ip().is_unspecified() {
            return Err(ErrorCode::InvalidArgument);
        }
        if remote_address.port() == 0 {
            return Err(ErrorCode::InvalidArgument);
        }
        Ok(SocketCall::TcpConnect { socket: self.inner, address: remote_address })
    }

    /// What the guest is told of an attempt to connect that failed at once.
    /// Where the ports are exhausted, an address is in use; Windows says so of
    /// an address that is no address.
    pub open spec fn connect_failure(platform: Platform, e: IoError) -> SocketError {
        let errnos = platform.errnos;
        if platform.is(e, errnos.afnosupport) {
            SocketError::Code(ErrorCode::InvalidArgument)
        } else if platform.is(e, errnos.addrnotavail) {
            SocketError::Code(
                if platform.windows {
                    ErrorCode::InvalidArgument
                } else {
                    ErrorCode::AddressInUse
                },
            )
        } else if !platform.windows && platform.is(e, errnos.again) {
            SocketError::Code(ErrorCode::AddressInUse)
        } else {
            errnos.socket_error_spec(e)
        }
    }

    /// Takes in what the attempt to connect came to. The socket does not
    /// block, so that it either succeeds at once, continues in progress, or
    /// fails at once.
    pub fn connect_started(&mut self, platform: &Platform, outcome: PoolOutcome) -> (r:
        SocketResult<()>)
        ensures
            match outcome {
                PoolOutcome::Refused(e) => {
                    &&& r == Err::<(), _>(platform.errnos.socket_error_spec(e))
                    &&& *final(self) == *old(self)
                },
                PoolOutcome::Asked(Ok(_)) => {
                    &&& r is Ok
                    &&& *final(self) == old(self).in_state(TcpState::ConnectReady)
                },
                PoolOutcome::Asked(Err(e)) => if platform.is(e, platform.connect_in_progress()) {
                    &&& r is Ok
                    &&& *final(self) == old(self).in_state(TcpState::Connecting)
                } else {
                    &&& r == Err::<(), _>(TcpSocket::connect_failure(*platform, e))
                    &&& *final(self) == old(self).in_state(TcpState::ConnectFailed)
                },
            },
    {
        match outcome {
            PoolOutcome::Refused(e) => Err(platform.errnos.socket_error(e)),
            // succeed immediately,
            PoolOutcome::Asked(Ok(())) => {
                self.state = TcpState::ConnectReady;
                Ok(())
            },
            PoolOutcome::Asked(Err(e)) => {
                // continue in progress,
                let in_progress: i32 = if platform.windows {
                    platform.errnos.wouldblock
                } else {
                    platform.errnos.inprogress
                };
                if platform.is_errno(e, in_progress) {
                    self.state = TcpState::Connecting;
                    return Ok(());
                }
                // or fail immediately.
                self.state = TcpState::ConnectFailed;
                if platform.is_errno(e, platform.errnos.afnosupport) {
                    Err(SocketError::Code(ErrorCode::InvalidArgument))
                } else if platform.windows && platform.is_errno(e, platform.errnos.addrnotavail) {
                    Err(SocketError::Code(ErrorCode::InvalidArgument))
                } else if !platform.windows && (platform.is_errno(e, platform.errnos.addrnotavail)
                    || platform.is_errno(e, platform.errnos.again)) {
                    // Ephemeral ports exhausted.
                    Err(SocketError::Code(ErrorCode::AddressInUse))
                } else {
                    Err(platform.errnos.socket_error(e))
                }
            },
        }
    }

    /// How an attempt to end a connection goes on; or what the guest is told
    /// where there is none.
    pub open spec fn finish_connect_request(self) -> Result<FinishConnect, ErrorCode> {
        match self.state {
            TcpState::ConnectReady => Ok(FinishConnect::Ready),
            TcpState::Connecting => Ok(
                FinishConnect::Ask(SocketCall::TcpConnectEnded { socket: self.inner }),
            ),
            _ => Err(ErrorCode::NotInProgress),
        }
    }

    /// [`TcpSocket::connect_finished`] goes on with what came of it.
    pub fn finish_connect(&self) -> (r: Result<FinishConnect, ErrorCode>)
        ensures
            r == self.finish_connect_request(),
    {
        match self.state {
            TcpState::ConnectReady => Ok(FinishConnect::Ready),
            TcpState::Connecting => Ok(
                FinishConnect::Ask(SocketCall::TcpConnectEnded { socket: self.inner }),
            ),
            _ => Err(ErrorCode::NotInProgress),
        }
    }

    /// Takes in whether the attempt to connect has ended, and how. Where the
    /// connection was there already, it has ended well.
    pub fn connect_finished(&mut self, platform: &Platform, poll: ConnectPoll) -> (r: SocketResult<
        (),
    >)
        ensures
            match poll {
                ConnectPoll::NotReady => {
                    &&& r == Err::<(), _>(SocketError::Code(ErrorCode::WouldBlock))
                    &&& *final(self) == *old(self)
                },
                ConnectPoll::Ended(Ok(_)) => {
                    &&& r is Ok
                    &&& *final(self) == old(self).in_state(TcpState::Connected)
                },
                ConnectPoll::Ended(Err(errno)) => {
                    &&& r == Err::<(), _>(platform.errnos.socket_errno_spec(errno))
                    &&& *final(self) == old(self).in_state(TcpState::ConnectFailed)
                },
            },
    {
        match poll {
            ConnectPoll::NotReady => Err(SocketError::Code(ErrorCode::WouldBlock)),
            ConnectPoll::Ended(Ok(())) => {
                self.state = TcpState::Connected;
                Ok(())
            },
            ConnectPoll::Ended(Err(errno)) => {
                self.state = TcpState::ConnectFailed;
                Err(platform.errnos.socket_errno(errno))
            },
        }
    }

    /// Listening is asked of the operating system; or what the guest is told
    /// instead.
    pub open spec fn listen_request(self) -> Result<SocketCall, ErrorCode> {
        if self.state.in_progress() {
            Err(ErrorCode::ConcurrencyConflict)
        } else if self.state is Default {
            Err(ErrorCode::NotBound)
        } else if !(self.state is Bound) {
            Err(ErrorCode::InvalidState)
        } else {
            Ok(SocketCall::TcpListen { socket: self.inner, backlog: self.backlog })
        }
    }

    pub fn start_listen(&self) -> (r: Result<SocketCall, ErrorCode>)
        ensures
            r == self.listen_request(),
    {
        match self.state {
            TcpState::Bound => {},
            TcpState::Default => return Err(ErrorCode::NotBound),
            TcpState::Connected | TcpState::ConnectFailed | TcpState::Listening => {
                return Err(ErrorCode::InvalidState);
            },
            TcpState::ListenStarted
            | TcpState::Connecting
            | TcpState::ConnectReady
            | TcpState::BindStarted => return Err(ErrorCode::ConcurrencyConflict),
        }
        Ok(SocketCall::TcpListen { socket: self.inner, backlog: self.backlog })
    }

    /// What the guest is told where the operating system does not listen: a
    /// socket that is not bound, or that is connected, is in the wrong state.
    /// No new socket was asked for, so on Windows, which reports a limit on
    /// them, that is a want of memory.
    pub open spec fn listen_failure(platform: Platform, e: IoError) -> SocketError {
        let errnos = platform.errnos;
        if platform.is(e, errnos.destaddrreq) || platform.is(e, errnos.inval) {
            SocketError::Code(ErrorCode::InvalidState)
        } else if platform.windows && platform.is(e, errnos.mfile) {
            SocketError::Code(ErrorCode::OutOfMemory)
        } else {
            errnos.socket_error_spec(e)
        }
    }

    /// Takes in what the attempt to listen came to.
    pub fn listen_started(&mut self, platform: &Platform, outcome: Result<(), IoError>) -> (r:
        SocketResult<()>)
        ensures
            match outcome {
                Ok(_) => r is Ok && *final(self) == old(self).in_state(TcpState::ListenStarted),
                Err(e) => {
                    &&& r == Err::<(), _>(TcpSocket::listen_failure(*platform, e))
                    &&& *final(self) == *old(self)
                },
            },
    {
        match outcome {
            Ok(()) => {
                self.state = TcpState::ListenStarted;
                Ok(())
            },
            Err(e) => if platform.is_errno(e, platform.errnos.destaddrreq) || platform.is_errno(
                e,
                platform.errnos.inval,
            ) {
                Err(SocketError::Code(ErrorCode::InvalidState))
            } else if platform.windows && platform.is_errno(e, platform.errnos.mfile) {
                Err(SocketError::Code(ErrorCode::OutOfMemory))
            } else {
                Err(platform.errnos.socket_error(e))
            },
        }
    }

    /// The socket once its listening was finished; or what the guest is told
    /// instead.
    pub open spec fn finish_listen_request(self) -> Result<TcpSocket, ErrorCode> {
        if self.state is ListenStarted {
            Ok(self.in_state(TcpState::Listening))
        } else {
            Err(ErrorCode::NotInProgress)
        }
    }

    pub fn finish_listen(&mut self) -> (r: Result<(), ErrorCode>)
        ensures
            match old(self).finish_listen_request() {
                Ok(socket) => r is Ok && *final(self) == socket,
                Err(e) => r == Err::<(), _>(e) && *final(self) == *old(self),
            },
    {
        match self.state {
            TcpState::ListenStarted => {},
            _ => return Err(ErrorCode::NotInProgress),
        }
        self.state = TcpState::Listening;
        Ok(())
    }

    /// Accepting a connection is asked of the operating system; or what the
    /// guest is told instead.
    pub open spec fn accept_request(self) -> Result<SocketCall, ErrorCode> {
        match self.state {
            TcpState::Listening => Ok(SocketCall::TcpAccept { socket: self.inner }),
            TcpState::Default => Err(ErrorCode::NotListening),
            _ => Err(ErrorCode::InvalidState),
        }
    }

    pub fn accept(&self) -> (r: Result<SocketCall, ErrorCode>)
        ensures
            r == self.accept_request(),
    {
        match self.state {
            TcpState::Listening => {},
            TcpState::Default => return Err(ErrorCode::NotListening),
            _ => return Err(ErrorCode::InvalidState),
        }
        Ok(SocketCall::TcpAccept { socket: self.inner })
    }

    /// `e` concerns a connection that is gone before it was accepted, and
    /// says nothing of the next one.
    pub open spec fn is_transient(platform: Platform, e: IoError) -> bool {
        let errnos = platform.errnos;
        ||| platform.is(e, errnos.connaborted)
        ||| platform.is(e, errnos.connreset)
        ||| platform.is(e, errnos.netreset)
        ||| platform.is(e, errnos.hostunreach)
        ||| platform.is(e, errnos.hostdown)
        ||| platform.is(e, errnos.netdown)
        ||| platform.is(e, errnos.netunreach)
        ||| platform.is(e, errnos.proto)
        ||| platform.is(e, errnos.noprotoopt)
        ||| platform.is(e, errnos.nonet)
        ||| platform.is(e, errnos.opnotsupp)
    }

    /// What the guest is told where no connection was accepted. A transient
    /// error is skipped. A want of resources is transient too, but the socket
    /// stays readable, and a guest that was told to wait would spin.
    pub open spec fn accept_failure(platform: Platform, e: IoError) -> SocketError {
        let errnos = platform.errnos;
        if platform.is(e, errnos.inval) {
            SocketError::Code(ErrorCode::InvalidState)
        } else if platform.windows && platform.is(e, errnos.inprogress) {
            SocketError::Code(ErrorCode::WouldBlock)
        } else if TcpSocket::is_transient(platform, e) {
            SocketError::Code(ErrorCode::WouldBlock)
        } else if platform.is(e, errnos.nomem) || platform.is(e, errnos.nobufs) || platform.is(
            e,
            errnos.mfile,
        ) || platform.is(e, errnos.nfile) {
            SocketError::Code(ErrorCode::OutOfMemory)
        } else {
            errnos.socket_error_spec(e)
        }
    }

    /// Takes in what the attempt to accept came to: a socket for the
    /// connection, of the same family as this one.
    pub fn accepted(&self, platform: &Platform, outcome: Result<SocketHandle, IoError>) -> (r:
        SocketResult<TcpSocket>)
        ensures
            r == match outcome {
                Ok(inner) => Ok::<TcpSocket, SocketError>(
                    TcpSocket {
                        inner,
                        state: TcpState::Connected,
                        family: self.family,
                        backlog: None,
                    },
                ),
                Err(e) => Err(TcpSocket::accept_failure(*platform, e)),
            },
    {
        let e: IoError = match outcome {
            Ok(inner) => return Ok(
                TcpSocket {
                    inner,
                    state: TcpState::Connected,
                    family: self.family,
                    backlog: None,
                },
            ),
            Err(e) => e,
        };
        let errno: i32 = match platform.errnos.errno(e) {
            Some(errno) => errno,
            None => return Err(platform.errnos.socket_error(e)),
        };
        let errnos = platform.errnos;
        // Not listening
        if errno == errnos.inval {
            return Err(SocketError::Code(ErrorCode::InvalidState));
        }
        if platform.windows && errno == errnos.inprogress {
            return Err(SocketError::Code(ErrorCode::WouldBlock));
        }
        // Skip over transient errors. Due to Linux' non-standard behavior,
        // this is quite a list.
        if errno == errnos.connaborted || errno == errnos.connreset || errno == errnos.netreset
            || errno == errnos.hostunreach || errno == errnos.hostdown || errno == errnos.netdown
            || errno == errnos.netunreach || errno == errnos.proto || errno == errnos.noprotoopt
            || errno == errnos.nonet || errno == errnos.opnotsupp {
            return Err(SocketError::Code(ErrorCode::WouldBlock));
        }
        if errno == errnos.nomem || errno == errnos.nobufs || errno == errnos.mfile || errno
            == errnos.nfile {
            return Err(SocketError::Code(ErrorCode::OutOfMemory));
        }
        Err(platform.errnos.socket_error(e))
    }

    /// The socket has an address of its own.
    pub open spec fn has_local_address(self) -> bool {
        self.state is Bound || self.state is ListenStarted || self.state is Listening
            || self.state is Connected
    }

    /// The socket's own address is asked of the operating system; or what the
    /// guest is told instead.
    pub open spec fn local_address_request(self) -> Result<SocketCall, ErrorCode> {
        if self.has_local_address() {
            Ok(SocketCall::LocalAddress { socket: self.inner })
        } else if self.state is Default {
            Err(ErrorCode::NotBound)
        } else {
            Err(ErrorCode::InvalidState)
        }
    }

    pub fn local_address(&self) -> (r: Result<SocketCall, ErrorCode>)
        ensures
            r == self.local_address_request(),
    {
        match self.state {
            TcpState::Bound
            | TcpState::ListenStarted
            | TcpState::Listening
            | TcpState::Connected => {},
            TcpState::Default => return Err(ErrorCode::NotBound),
            _ => return Err(ErrorCode::InvalidState),
        }
        Ok(SocketCall::LocalAddress { socket: self.inner })
    }

    /// The address of the other side is asked of the operating system; or what
    /// the guest is told instead.
    pub open spec fn remote_address_request(self) -> Result<SocketCall, ErrorCode> {
        match self.state {
            TcpState::Connected => Ok(SocketCall::PeerAddress { socket: self.inner }),
            TcpState::Default => Err(ErrorCode::NotConnected),
            _ => Err(ErrorCode::InvalidState),
        }
    }

    pub fn remote_address(&self) -> (r: Result<SocketCall, ErrorCode>)
        ensures
            r == self.remote_address_request(),
    {
        match self.state {
            TcpState::Connected => {},
            TcpState::Default => return Err(ErrorCode::NotConnected),
            _ => return Err(ErrorCode::InvalidState),
        }
        Ok(SocketCall::PeerAddress { socket: self.inner })
    }

    pub fn address_family(&self) -> (r: IpAddressFamily)
        ensures
            r == self.family,
    {
        self.family
    }

    /// What the guest is told of an IPv6 option of an IPv4 socket.
    pub open spec fn not_ipv6(self) -> ErrorCode {
        if self.state is Default {
            ErrorCode::Ipv6OnlyOperation
        } else {
            ErrorCode::NotSupported
        }
    }

    fn refuse_ipv6(&self) -> (r: ErrorCode)
        ensures
            r == self.not_ipv6(),
    {
        match self.state {
            TcpState::Default => ErrorCode::Ipv6OnlyOperation,
            _ => ErrorCode::NotSupported,
        }
    }

    /// Whether the socket is restricted to IPv6 is asked of the operating
    /// system; or what the guest is told instead.
    pub open spec fn ipv6_only_request(self) -> Result<SocketCall, ErrorCode> {
        match self.family {
            IpAddressFamily::Ipv6 => Ok(SocketCall::Ipv6Only { socket: self.inner }),
            IpAddressFamily::Ipv4 => Err(self.not_ipv6()),
        }
    }

    pub fn ipv6_only(&self) -> (r: Result<SocketCall, ErrorCode>)
        ensures
            r == self.ipv6_only_request(),
    {
        match self.family {
            IpAddressFamily::Ipv6 => {},
            IpAddressFamily::Ipv4 => return Err(self.refuse_ipv6()),
        }
        Ok(SocketCall::Ipv6Only { socket: self.inner })
    }

    /// Restricting the socket to IPv6, or not, is asked of the operating
    /// system; or what the guest is told instead.
    pub open spec fn set_ipv6_only_request(self, value: bool) -> Result<SocketCall, ErrorCode> {
        match self.family {
            IpAddressFamily::Ipv4 => Err(self.not_ipv6()),
            IpAddressFamily::Ipv6 => match self.state {
                TcpState::Default => Ok(SocketCall::SetIpv6Only { socket: self.inner, value }),
                TcpState::BindStarted => Err(ErrorCode::ConcurrencyConflict),
                _ => Err(ErrorCode::InvalidState),
            },
        }
    }

    pub fn set_ipv6_only(&self, value: bool) -> (r: Result<SocketCall, ErrorCode>)
        ensures
            r == self.set_ipv6_only_request(value),
    {
        match self.family {
            IpAddressFamily::Ipv6 => {},
            IpAddressFamily::Ipv4 => return Err(self.refuse_ipv6()),
        }
        match self.state {
            TcpState::Default => {},
            TcpState::BindStarted => return Err(ErrorCode::ConcurrencyConflict),
            _ => return Err(ErrorCode::InvalidState),
        }
        Ok(SocketCall::SetIpv6Only { socket: self.inner, value })
    }

    /// What the operating system is asked for `value` connections to wait to
    /// be accepted: nothing yet, where the socket does not listen. Or what the
    /// guest is told instead.
    pub open spec fn backlog_request(self, value: u64) -> Result<Option<SocketCall>, ErrorCode> {
        if !(self.state is Bound) && !(self.state is Listening) {
            Err(ErrorCode::NotInProgress)
        } else if value > i32::MAX {
            Err(ErrorCode::OutOfMemory)
        } else if self.state is Bound {
            Ok(None)
        } else {
            Ok(Some(SocketCall::TcpListen { socket: self.inner, backlog: Some(value as i32) }))
        }
    }

    /// This socket, once the guest has said that `value` connections may wait.
    /// Where it does not listen yet, it remembers.
    pub open spec fn with_backlog(self, value: u64) -> TcpSocket {
        if self.state is Bound && value <= i32::MAX {
            TcpSocket { backlog: Some(value as i32), ..self }
        } else {
            self
        }
    }

    /// Changes how many connections may wait to be accepted. That takes a
    /// socket that is bound or listens, and a number that the operating system
    /// can hold. A socket that is bound listens with it later; for one that
    /// listens the operating system has to be asked.
    pub fn set_listen_backlog_size(&mut self, value: u64) -> (r: Result<
        Option<SocketCall>,
        ErrorCode,
    >)
        ensures
            r == old(self).backlog_request(value),
            *final(self) == old(self).with_backlog(value),
    {
        match self.state {
            TcpState::Bound | TcpState::Listening => {},
            _ => return Err(ErrorCode::NotInProgress),
        }
        if value > i32::MAX as u64 {
            return Err(ErrorCode::OutOfMemory);
        }
        let backlog: Option<i32> = Some(value as i32);
        match self.state {
            TcpState::Bound => {
                self.backlog = backlog;
                Ok(None)
            },
            _ => Ok(Some(SocketCall::TcpListen { socket: self.inner, backlog })),
        }
    }

    pub fn unicast_hop_limit(&self) -> (r: SocketCall)
        ensures
            r == match self.family {
                IpAddressFamily::Ipv4 => SocketCall::IpTtl { socket: self.inner },
                IpAddressFamily::Ipv6 => SocketCall::Ipv6UnicastHops { socket: self.inner },
            },
    {
        match self.family {
            IpAddressFamily::Ipv4 => SocketCall::IpTtl { socket: self.inner },
            IpAddressFamily::Ipv6 => SocketCall::Ipv6UnicastHops { socket: self.inner },
        }
    }

    pub fn set_unicast_hop_limit(&self, value: u8) -> (r: SocketCall)
        ensures
            r == match self.family {
                IpAddressFamily::Ipv4 => SocketCall::SetIpTtl { socket: self.inner, value },
                IpAddressFamily::Ipv6 => {
                    SocketCall::SetIpv6UnicastHops { socket: self.inner, value }
                },
            },
    {
        match self.family {
            IpAddressFamily::Ipv4 => SocketCall::SetIpTtl { socket: self.inner, value },
            IpAddressFamily::Ipv6 => SocketCall::SetIpv6UnicastHops { socket: self.inner, value },
        }
    }

    pub fn set_receive_buffer_size(&self, value: u64) -> (r: Result<SocketCall, ErrorCode>)
        ensures
            r == if value <= usize::MAX {
                Ok::<SocketCall, ErrorCode>(
                    SocketCall::SetReceiveBufferSize { socket: self.inner, value: value as usize },
                )
            } else {
                Err(ErrorCode::OutOfMemory)
            },
    {
        let value: usize = buffer_size(value)?;
        Ok(SocketCall::SetReceiveBufferSize { socket: self.inner, value })
    }

    pub fn set_send_buffer_size(&self, value: u64) -> (r: Result<SocketCall, ErrorCode>)
        ensures
            r == if value <= usize::MAX {
                Ok::<SocketCall, ErrorCode>(
                    SocketCall::SetSendBufferSize { socket: self.inner, value: value as usize },
                )
            } else {
                Err(ErrorCode::OutOfMemory)
            },
    {
        let value: usize = buffer_size(value)?;
        Ok(SocketCall::SetSendBufferSize { socket: self.inner, value })
    }

    /// What is waited for until the socket is ready. Some states are ready
    /// immediately.
    pub fn subscribe(&self) -> (r: Readiness)
        ensures
            r == if self.state is BindStarted || self.state is ListenStarted
                || self.state is ConnectReady {
                Readiness::Immediate
            } else {
                Readiness::ReadableOrWritable(self.inner)
            },
    {
        match self.state {
            TcpState::BindStarted | TcpState::ListenStarted | TcpState::ConnectReady => {
                Readiness::Immediate
            },
            _ => Readiness::ReadableOrWritable(self.inner),
        }
    }

    /// Shutting the connection down is asked of the operating system; or what
    /// the guest is told instead.
    pub open spec fn shutdown_request(self, shutdown_type: ShutdownType) -> Result<
        SocketCall,
        ErrorCode,
    > {
        match self.state {
            TcpState::Connected => Ok(SocketCall::Shutdown { socket: self.inner, shutdown_type }),
            TcpState::Connecting | TcpState::ConnectReady => Err(ErrorCode::ConcurrencyConflict),
            TcpState::Default => Err(ErrorCode::NotConnected),
            _ => Err(ErrorCode::InvalidState),
        }
    }

    pub fn shutdown(&self, shutdown_type: ShutdownType) -> (r: Result<SocketCall, ErrorCode>)
        ensures
            r == self.shutdown_request(shutdown_type),
    {
        match self.state {
            TcpState::Connected => {},
            TcpState::Connecting | TcpState::ConnectReady => {
                return Err(ErrorCode::ConcurrencyConflict);
            },
            TcpState::Default => return Err(ErrorCode::NotConnected),
            _ => return Err(ErrorCode::InvalidState),
        }
        Ok(SocketCall::Shutdown { socket: self.inner, shutdown_type })
    }

    /// Takes in what the shutdown came to: which of the connection's streams
    /// have ended.
    pub fn shut_down(
        &self,
        platform: &Platform,
        shutdown_type: ShutdownType,
        outcome: Result<(), IoError>,
    ) -> (r: SocketResult<EndedStreams>)
        ensures
            r == match outcome {
                Ok(_) => Ok::<EndedStreams, SocketError>(shutdown_type.ends()),
                Err(e) => Err(platform.errnos.socket_error_spec(e)),
            },
    {
        match outcome {
            Ok(()) => Ok(
                match shutdown_type {
                    ShutdownType::Receive => EndedStreams { input: true, output: false },
                    ShutdownType::Send => EndedStreams { input: false, output: true },
                    ShutdownType::Both => EndedStreams { input: true, output: true },
                },
            ),
            Err(e) => Err(platform.errnos.socket_error(e)),
        }
    }

    /// Something might wait for the socket.
    pub open spec fn may_be_awaited(self) -> bool {
        self.state is Listening || self.state is Connecting || self.state is Connected
    }

    /// What is asked of the operating system before the socket is closed.
    /// Where closing it does not wake up what waits for it, which is so on
    /// Windows, it is shut down; that it is not connected is no failure then.
    pub fn close(&self, platform: &Platform) -> (r: Option<SocketCall>)
        ensures
            r == if platform.windows && self.may_be_awaited() {
                Some(SocketCall::Shutdown { socket: self.inner, shutdown_type: ShutdownType::Both })
            } else {
                None
            },
    {
        if !platform.windows {
            return None;
        }
        match self.state {
            TcpState::Default
            | TcpState::BindStarted
            | TcpState::Bound
            | TcpState::ListenStarted
            | TcpState::ConnectReady
            | TcpState::ConnectFailed => None,
            TcpState::Listening | TcpState::Connecting | TcpState::Connected => Some(
                SocketCall::Shutdown { socket: self.inner, shutdown_type: ShutdownType::Both },
            ),
        }
    }
}

/// On a socket that is neither bound nor connected nothing can be finished, and
/// whatever takes more is refused by what is missing.
pub proof fn law_unbound_socket(socket: TcpSocket, how: ShutdownType, value: bool)
    requires
        socket.state is Default,
    ensures
        socket.finish_bind_request() == Err::<TcpSocket, _>(ErrorCode::NotInProgress),
        socket.finish_connect_request() == Err::<FinishConnect, _>(ErrorCode::NotInProgress),
        socket.listen_request() == Err::<SocketCall, _>(ErrorCode::NotBound),
        socket.finish_listen_request() == Err::<TcpSocket, _>(ErrorCode::NotInProgress),
        socket.accept_request() == Err::<SocketCall, _>(ErrorCode::NotListening),
        socket.shutdown_request(how) == Err::<SocketCall, _>(ErrorCode::NotConnected),
        socket.local_address_request() == Err::<SocketCall, _>(ErrorCode::NotBound),
        socket.remote_address_request() == Err::<SocketCall, _>(ErrorCode::NotConnected),
        match socket.family {
            IpAddressFamily::Ipv6 => {
                socket.ipv6_only_request() is Ok && socket.set_ipv6_only_request(value) is Ok
            },
            IpAddressFamily::Ipv4 => {
                &&& socket.ipv6_only_request() == Err::<SocketCall, _>(
                    ErrorCode::Ipv6OnlyOperation,
                )
                &&& socket.set_ipv6_only_request(value) == Err::<SocketCall, _>(
                    ErrorCode::Ipv6OnlyOperation,
                )
            },
        },
{
}

/// A bound socket has an address of its own and can listen. It cannot be
/// bound again, nor connect, accept or be shut down.
pub proof fn law_bound_socket(
    socket: TcpSocket,
    address: IpSocketAddress,
    how: ShutdownType,
    value: bool,
)
    requires
        socket.state is Bound,
    ensures
        socket.bind_request(address) == Err::<SocketCall, _>(ErrorCode::InvalidState),
        socket.finish_bind_request() == Err::<TcpSocket, _>(ErrorCode::NotInProgress),
        socket.connect_request(address) == Err::<SocketCall, _>(ErrorCode::InvalidState),
        socket.finish_connect_request() == Err::<FinishConnect, _>(ErrorCode::NotInProgress),
        socket.listen_request() is Ok,
        socket.finish_listen_request() == Err::<TcpSocket, _>(ErrorCode::NotInProgress),
        socket.accept_request() == Err::<SocketCall, _>(ErrorCode::InvalidState),
        socket.shutdown_request(how) == Err::<SocketCall, _>(ErrorCode::InvalidState),
        socket.local_address_request() is Ok,
        socket.remote_address_request() == Err::<SocketCall, _>(ErrorCode::InvalidState),
        match socket.family {
            IpAddressFamily::Ipv6 => {
                &&& socket.ipv6_only_request() is Ok
                &&& socket.set_ipv6_only_request(value) == Err::<SocketCall, _>(
                    ErrorCode::InvalidState,
                )
            },
            IpAddressFamily::Ipv4 => {
                &&& socket.ipv6_only_request() == Err::<SocketCall, _>(ErrorCode::NotSupported)
                &&& socket.set_ipv6_only_request(value) == Err::<SocketCall, _>(
                    ErrorCode::NotSupported,
                )
            },
        },
{
}

/// A connected socket has an address on both sides and can be shut down. It
/// cannot be bound, nor connect, listen or accept.
pub proof fn law_connected_socket(
    socket: TcpSocket,
    address: IpSocketAddress,
    how: ShutdownType,
    value: bool,
)
    requires
        socket.state is Connected,
    ensures
        socket.bind_request(address) == Err::<SocketCall, _>(ErrorCode::InvalidState),
        socket.finish_bind_request() == Err::<TcpSocket, _>(ErrorCode::NotInProgress),
        socket.connect_request(address) == Err::<SocketCall, _>(ErrorCode::InvalidState),
        socket.finish_connect_request() == Err::<FinishConnect, _>(ErrorCode::NotInProgress),
        socket.listen_request() == Err::<SocketCall, _>(ErrorCode::InvalidState),
        socket.finish_listen_request() == Err::<TcpSocket, _>(ErrorCode::NotInProgress),
        socket.accept_request() == Err::<SocketCall, _>(ErrorCode::InvalidState),
        socket.shutdown_request(how) is Ok,
        socket.local_address_request() is Ok,
        socket.remote_address_request() is Ok,
        match socket.family {
            IpAddressFamily::Ipv6 => {
                &&& socket.ipv6_only_request() is Ok
                &&& socket.set_ipv6_only_request(value) == Err::<SocketCall, _>(
                    ErrorCode::InvalidState,
                )
            },
            IpAddressFamily::Ipv4 => {
                &&& socket.ipv6_only_request() == Err::<SocketCall, _>(ErrorCode::NotSupported)
                &&& socket.set_ipv6_only_request(value) == Err::<SocketCall, _>(
                    ErrorCode::NotSupported,
                )
            },
        },
{
}

/// A socket whose attempt to connect has failed cannot be bound, connect,
/// listen or accept: it is of no more use.
pub proof fn law_failed_connect_is_final(
    socket: TcpSocket,
    address: IpSocketAddress,
    how: ShutdownType,
)
    requires
        socket.state is ConnectFailed,
    ensures
        socket.bind_request(address) == Err::<SocketCall, _>(ErrorCode::InvalidState),
        socket.connect_request(address) == Err::<SocketCall, _>(ErrorCode::InvalidState),
        socket.finish_connect_request() == Err::<FinishConnect, _>(ErrorCode::NotInProgress),
        socket.listen_request() == Err::<SocketCall, _>(ErrorCode::InvalidState),
        socket.accept_request() == Err::<SocketCall, _>(ErrorCode::InvalidState),
        socket.shutdown_request(how) == Err::<SocketCall, _>(ErrorCode::InvalidState),
{
}

/// What a bound socket is told of its backlog counts once it listens.
pub proof fn law_bound_socket_remembers_its_backlog(socket: TcpSocket, value: u64)
    requires
        socket.state is Bound,
        value <= i32::MAX,
    ensures
        socket.backlog_request(value) == Ok::<Option<SocketCall>, ErrorCode>(None),
        socket.with_backlog(value).listen_request() == Ok::<SocketCall, ErrorCode>(
            SocketCall::TcpListen { socket: socket.inner, backlog: Some(value as i32) },
        ),
{
}

/// A local shutdown for receiving closes the input stream, whatever has arrived
/// for it: each read that finds no read active any more is told so, however few
/// bytes it asks for. A stream that had an error of its own to give, gives
/// that one first.
pub proof fn law_shutdown_for_receiving_closes_the_input<IO>(
    how: ShutdownType,
    state: ReadStateView<IO>,
    pending: Polled<ReadOutcome<IO>>,
    ended: Polled<ReadOutcome<IO>>,
    later: Polled<ReadOutcome<IO>>,
    size: usize,
    next: usize,
    max_read: usize,
)
    requires
        how is Receive || how is Both,
        state matches ReadStateView::Canceling(_, e) ==> e is Closed,
        state matches ReadStateView::Closed(e) ==> e is Closed,
        pending is Pending,
        ended is Ready,
    ensures
        how.ends().input,
        ({
            let closed = state.canceled(StreamError::Closed);
            let over = closed.polled(ended);
            &&& state is Ready ==> closed == over
            &&& over.read(size, max_read) == ReadStepView::Done(Err(StreamError::Closed))
            &&& over.after_read(size).polled(later).read(next, max_read) == ReadStepView::Done(
                Err(StreamError::Closed),
            )
            &&& over.after_read(size).polled(later).after_read(next) == over
        }),
{
    if state is Ready || state is Reading {
        crate::streams::read::law_canceled_read_gives_error_once(
            state,
            StreamError::Closed,
            pending,
            ended,
            later,
            size,
            max_read,
        );
    }
}

/// A local shutdown for sending closes the output stream: no write is
/// permitted, and a check that finds no operation active any more is told so.
/// A stream that had an error of its own to give, gives that one first.
pub proof fn law_shutdown_for_sending_closes_the_output<IO>(
    how: ShutdownType,
    state: AsyncWriteState<IO>,
    pending: Polled<WriteOutcome<IO>>,
    ended: Polled<WriteOutcome<IO>>,
    later: Polled<WriteOutcome<IO>>,
    max_write: usize,
    len: nat,
)
    requires
        how is Send || how is Both,
        state matches AsyncWriteState::Canceling(_, e) ==> e is Closed,
        state matches AsyncWriteState::Canceled(e) ==> e is Closed,
        state matches AsyncWriteState::Closed(e) ==> e is Closed,
        pending is Pending,
        ended is Ready,
    ensures
        how.ends().output,
        ({
            let closed = state.canceled(StreamError::Closed);
            let over = closed.polled(ended);
            &&& !closed.permits(len)
            &&& !over.permits(len)
            &&& over.writable(max_write) == Err::<usize, StreamError>(StreamError::Closed)
            &&& over.checked(max_write).polled(later).writable(max_write) == Err::<
                usize,
                StreamError,
            >(StreamError::Closed)
        }),
{
    if !(state is Canceling) && !(state is Canceled) && !(state is Closed) {
        crate::streams::write::law_canceled_write_gives_error_once(
            state,
            StreamError::Closed,
            pending,
            ended,
            later,
            max_write,
            len,
        );
    }
}

/// While an operation is in progress, no other can be started.
pub proof fn law_one_operation_at_a_time(socket: TcpSocket, address: IpSocketAddress)
    requires
        socket.state.in_progress(),
    ensures
        socket.bind_request(address) == Err::<SocketCall, _>(ErrorCode::ConcurrencyConflict),
        socket.connect_request(address) == Err::<SocketCall, _>(ErrorCode::ConcurrencyConflict),
        socket.listen_request() == Err::<SocketCall, _>(ErrorCode::ConcurrencyConflict),
{
}

/// A connection that was aborted, reset or made unreachable before it was
/// accepted stops no guest: whatever the transient error, the guest is told to
/// wait for the next connection.
pub proof fn law_accept_skips_transient_errors(platform: Platform, e: IoError)
    requires
        TcpSocket::is_transient(platform, e),
        !platform.is(e, platform.errnos.inval),
    ensures
        TcpSocket::accept_failure(platform, e) == SocketError::Code(ErrorCode::WouldBlock),
{
}

/// A new socket is the one that it was made around, of the family that it was
/// made for, and has not been used.
pub proof fn law_new_tcp_sockets(inner: SocketHandle, family: IpAddressFamily, r: TcpSocket)
    requires
        call_ensures(TcpSocket::new, (inner, family), r),
    ensures
        r.inner == inner,
        r.family == family,
        r.state is Default,
        r.backlog is None,
{
}

/// What was not used yet can be bound to an address of its family, and
/// connected to one that is an address and has a port: to the very address that
/// is given. What was used is refused, by whether something is in progress.
pub proof fn law_tcp_addresses_are_those_given(
    socket: TcpSocket,
    address: IpSocketAddress,
    bound: Result<SocketCall, ErrorCode>,
    connected: Result<SocketCall, ErrorCode>,
)
    requires
        call_ensures(TcpSocket::start_bind, (&socket, address), bound),
        call_ensures(TcpSocket::start_connect, (&socket, address), connected),
    ensures
        ({
            let fits = match (socket.family, address) {
                (IpAddressFamily::Ipv4, IpSocketAddress::Ipv4(_)) => true,
                (IpAddressFamily::Ipv6, IpSocketAddress::Ipv6(_)) => true,
                _ => false,
            };
            let somewhere = match address {
                IpSocketAddress::Ipv4(a) => a.port != 0 && !(a.address.0 == 0 && a.address.1 == 0
                    && a.address.2 == 0 && a.address.3 == 0),
                IpSocketAddress::Ipv6(a) => a.port != 0 && !(a.address.0 == 0 && a.address.1 == 0
                    && a.address.2 == 0 && a.address.3 == 0 && a.address.4 == 0 && a.address.5 == 0
                    && a.address.6 == 0 && a.address.7 == 0),
            };
            match socket.state {
                TcpState::Default => {
                    &&& if fits {
                        bound == Ok::<_, ErrorCode>(
                            SocketCall::TcpBind { socket: socket.inner, address },
                        )
                    } else {
                        bound == Err::<SocketCall, _>(ErrorCode::InvalidArgument)
                    }
                    &&& if fits && somewhere {
                        connected == Ok::<_, ErrorCode>(
                            SocketCall::TcpConnect { socket: socket.inner, address },
                        )
                    } else {
                        connected == Err::<SocketCall, _>(ErrorCode::InvalidArgument)
                    }
                },
                TcpState::Bound
                | TcpState::Listening
                | TcpState::Connected
                | TcpState::ConnectFailed => {
                    &&& bound == Err::<SocketCall, _>(ErrorCode::InvalidState)
                    &&& connected == bound
                },
                TcpState::BindStarted
                | TcpState::ListenStarted
                | TcpState::Connecting
                | TcpState::ConnectReady => {
                    &&& bound == Err::<SocketCall, _>(ErrorCode::ConcurrencyConflict)
                    &&& connected == bound
                },
            }
        }),
{
}

/// A socket that the operating system has bound is being bound, and is bound
/// once that is finished. A refusal of the network is told as it is, as is one
/// of the system but for an address of the wrong family and, on Windows, for
/// ports that are used up. Whatever is refused leaves the socket as it was.
pub proof fn law_tcp_binding(
    socket: &mut TcpSocket,
    platform: Platform,
    outcome: PoolOutcome,
    told: SocketError,
    started: SocketResult<()>,
    finishing: &mut TcpSocket,
    finished: Result<(), ErrorCode>,
)
    requires
        call_ensures(TcpSocket::bind_started, (socket, &platform, outcome), started),
        (outcome matches PoolOutcome::Refused(e) ==> call_ensures(
            crate::errno::Errnos::socket_error,
            (&platform.errnos, e),
            told,
        )),
        (outcome matches PoolOutcome::Asked(Err(e)) ==> call_ensures(
            crate::errno::Errnos::socket_error,
            (&platform.errnos, e),
            told,
        )),
        call_ensures(TcpSocket::finish_bind, (finishing,), finished),
    ensures
        final(socket).inner == old(socket).inner,
        final(socket).family == old(socket).family,
        final(socket).backlog == old(socket).backlog,
        match outcome {
            PoolOutcome::Asked(Ok(_)) => started is Ok && final(socket).state is BindStarted,
            PoolOutcome::Refused(_) => started == Err::<(), _>(told) && *final(socket) == *old(
                socket,
            ),
            PoolOutcome::Asked(Err(e)) => {
                &&& *final(socket) == *old(socket)
                &&& started == Err::<(), _>(
                    if platform.errnos.errno_spec(e) == Some(platform.errnos.afnosupport) {
                        SocketError::Code(ErrorCode::InvalidArgument)
                    } else if platform.windows && platform.errnos.errno_spec(e) == Some(
                        platform.errnos.nobufs,
                    ) {
                        SocketError::Code(ErrorCode::AddressInUse)
                    } else {
                        told
                    },
                )
            },
        },
        finished is Ok <==> old(finishing).state is BindStarted,
        finished is Ok ==> {
            &&& final(finishing).state is Bound
            &&& final(finishing).inner == old(finishing).inner
            &&& final(finishing).family == old(finishing).family
            &&& final(finishing).backlog == old(finishing).backlog
        },
        finished matches Err(e) ==> e == ErrorCode::NotInProgress && *final(finishing) == *old(
            finishing,
        ),
{
}

/// A connection that is there at once is ready, one that takes time is awaited,
/// and any other answer of the system is a failure that the socket does not
/// recover from. What the network refuses leaves the socket as it was.
pub proof fn law_tcp_connecting(
    socket: &mut TcpSocket,
    platform: Platform,
    outcome: PoolOutcome,
    told: SocketError,
    r: SocketResult<()>,
)
    requires
        call_ensures(TcpSocket::connect_started, (socket, &platform, outcome), r),
        (outcome matches PoolOutcome::Refused(e) ==> call_ensures(
            crate::errno::Errnos::socket_error,
            (&platform.errnos, e),
            told,
        )),
        (outcome matches PoolOutcome::Asked(Err(e)) ==> call_ensures(
            crate::errno::Errnos::socket_error,
            (&platform.errnos, e),
            told,
        )),
    ensures
        final(socket).inner == old(socket).inner,
        final(socket).family == old(socket).family,
        final(socket).backlog == old(socket).backlog,
        match outcome {
            PoolOutcome::Asked(Ok(_)) => r is Ok && final(socket).state is ConnectReady,
            PoolOutcome::Refused(_) => r == Err::<(), _>(told) && *final(socket) == *old(socket),
            PoolOutcome::Asked(Err(e)) => {
                let errnos = platform.errnos;
                let number = errnos.errno_spec(e);
                let goes_on = if platform.windows {
                    number == Some(errnos.wouldblock)
                } else {
                    number == Some(errnos.inprogress)
                };
                if goes_on {
                    r is Ok && final(socket).state is Connecting
                } else {
                    &&& final(socket).state is ConnectFailed
                    &&& r == Err::<(), _>(
                        if number == Some(errnos.afnosupport) {
                            SocketError::Code(ErrorCode::InvalidArgument)
                        } else if platform.windows && number == Some(errnos.addrnotavail) {
                            SocketError::Code(ErrorCode::InvalidArgument)
                        } else if !platform.windows && (number == Some(errnos.addrnotavail)
                            || number == Some(errnos.again)) {
                            SocketError::Code(ErrorCode::AddressInUse)
                        } else {
                            told
                        },
                    )
                }
            },
        },
{
}

/// Only a connection that was begun is finished: at once where it is ready,
/// and otherwise by asking the system about that very socket. While it is not
/// over the guest is told to wait and nothing changes; then the socket is
/// connected, or has failed for good.
pub proof fn law_tcp_connections_are_finished(
    socket: TcpSocket,
    asked: Result<FinishConnect, ErrorCode>,
    connecting: &mut TcpSocket,
    platform: Platform,
    poll: ConnectPoll,
    told: SocketError,
    r: SocketResult<()>,
)
    requires
        call_ensures(TcpSocket::finish_connect, (&socket,), asked),
        call_ensures(TcpSocket::connect_finished, (connecting, &platform, poll), r),
        poll matches ConnectPoll::Ended(Err(n)) ==> call_ensures(
            crate::errno::Errnos::socket_errno,
            (&platform.errnos, n),
            told,
        ),
    ensures
        asked matches Ok(FinishConnect::Ready) <==> socket.state is ConnectReady,
        asked matches Ok(FinishConnect::Ask(_)) <==> socket.state is Connecting,
        asked matches Ok(FinishConnect::Ask(call)) ==> call == (SocketCall::TcpConnectEnded {
            socket: socket.inner,
        }),
        asked matches Err(e) ==> e == ErrorCode::NotInProgress,
        final(connecting).inner == old(connecting).inner,
        final(connecting).family == old(connecting).family,
        final(connecting).backlog == old(connecting).backlog,
        match poll {
            ConnectPoll::NotReady => {
                &&& r == Err::<(), _>(SocketError::Code(ErrorCode::WouldBlock))
                &&& *final(connecting) == *old(connecting)
            },
            ConnectPoll::Ended(Ok(_)) => r is Ok && final(connecting).state is Connected,
            ConnectPoll::Ended(Err(_)) => r == Err::<(), _>(told)
                && final(connecting).state is ConnectFailed,
        },
{
}

/// A bound socket listens, with as many connections waiting as it was told, if
/// it was; no other socket does. It is listening once that was started and
/// finished. What the system says of a socket in the wrong state is told as
/// that, and on Windows a limit on sockets is one on memory; anything else is
/// told as it is. A refusal leaves the socket as it was.
pub proof fn law_tcp_listening(
    socket: TcpSocket,
    asked: Result<SocketCall, ErrorCode>,
    starting: &mut TcpSocket,
    platform: Platform,
    outcome: Result<(), IoError>,
    told: SocketError,
    started: SocketResult<()>,
    finishing: &mut TcpSocket,
    finished: Result<(), ErrorCode>,
)
    requires
        call_ensures(TcpSocket::start_listen, (&socket,), asked),
        call_ensures(TcpSocket::listen_started, (starting, &platform, outcome), started),
        outcome matches Err(e) ==> call_ensures(
            crate::errno::Errnos::socket_error,
            (&platform.errnos, e),
            told,
        ),
        call_ensures(TcpSocket::finish_listen, (finishing,), finished),
    ensures
        match socket.state {
            TcpState::Bound => asked == Ok::<_, ErrorCode>(
                SocketCall::TcpListen { socket: socket.inner, backlog: socket.backlog },
            ),
            TcpState::Default => asked == Err::<SocketCall, _>(ErrorCode::NotBound),
            TcpState::Connected | TcpState::ConnectFailed | TcpState::Listening => asked == Err::<
                SocketCall,
                _,
            >(ErrorCode::InvalidState),
            TcpState::BindStarted
            | TcpState::ListenStarted
            | TcpState::Connecting
            | TcpState::ConnectReady => asked == Err::<SocketCall, _>(
                ErrorCode::ConcurrencyConflict,
            ),
        },
        final(starting).inner == old(starting).inner,
        final(starting).family == old(starting).family,
        final(starting).backlog == old(starting).backlog,
        match outcome {
            Ok(_) => started is Ok && final(starting).state is ListenStarted,
            Err(e) => {
                let errnos = platform.errnos;
                let number = errnos.errno_spec(e);
                &&& *final(starting) == *old(starting)
                &&& started == Err::<(), _>(
                    if number == Some(errnos.destaddrreq) || number == Some(errnos.inval) {
                        SocketError::Code(ErrorCode::InvalidState)
                    } else if platform.windows && number == Some(errnos.mfile) {
                        SocketError::Code(ErrorCode::OutOfMemory)
                    } else {
                        told
                    },
                )
            },
        },
        finished is Ok <==> old(finishing).state is ListenStarted,
        finished is Ok ==> {
            &&& final(finishing).state is Listening
            &&& final(finishing).inner == old(finishing).inner
            &&& final(finishing).family == old(finishing).family
            &&& final(finishing).backlog == old(finishing).backlog
        },
        finished matches Err(e) ==> e == ErrorCode::NotInProgress && *final(finishing) == *old(
            finishing,
        ),
{
}

/// Only a socket that listens accepts, and it asks for connections to itself.
/// What it accepts is a socket of its own, which is connected and of the same
/// family. That a connection was lost is no failure: there will be others. That
/// the system is short of something is one of memory; a socket that does not
/// listen is in the wrong state; anything else is told as it is.
pub proof fn law_tcp_accepting(
    socket: TcpSocket,
    asked: Result<SocketCall, ErrorCode>,
    platform: Platform,
    outcome: Result<SocketHandle, IoError>,
    told: SocketError,
    r: SocketResult<TcpSocket>,
)
    requires
        call_ensures(TcpSocket::accept, (&socket,), asked),
        call_ensures(TcpSocket::accepted, (&socket, &platform, outcome), r),
        outcome matches Err(e) ==> call_ensures(
            crate::errno::Errnos::socket_error,
            (&platform.errnos, e),
            told,
        ),
    ensures
        asked is Ok <==> socket.state is Listening,
        asked matches Ok(call) ==> call == (SocketCall::TcpAccept { socket: socket.inner }),
        socket.state is Default ==> asked == Err::<SocketCall, _>(ErrorCode::NotListening),
        asked is Err && !(socket.state is Default) ==> asked == Err::<SocketCall, _>(
            ErrorCode::InvalidState,
        ),
        match outcome {
            Ok(inner) => {
                &&& r matches Ok(accepted)
                &&& accepted.inner == inner
                &&& accepted.state is Connected
                &&& accepted.family == socket.family
                &&& accepted.backlog is None
            },
            Err(e) => {
                let errnos = platform.errnos;
                let number = errnos.errno_spec(e);
                let lost = {
                    ||| number == Some(errnos.connaborted)
                    ||| number == Some(errnos.connreset)
                    ||| number == Some(errnos.netreset)
                    ||| number == Some(errnos.hostunreach)
                    ||| number == Some(errnos.hostdown)
                    ||| number == Some(errnos.netdown)
                    ||| number == Some(errnos.netunreach)
                    ||| number == Some(errnos.proto)
                    ||| number == Some(errnos.noprotoopt)
                    ||| number == Some(errnos.nonet)
                    ||| number == Some(errnos.opnotsupp)
                    ||| platform.windows && number == Some(errnos.inprogress)
                };
                let short = {
                    ||| number == Some(errnos.nomem)
                    ||| number == Some(errnos.nobufs)
                    ||| number == Some(errnos.mfile)
                    ||| number == Some(errnos.nfile)
                };
                r == Err::<TcpSocket, _>(
                    if number == Some(errnos.inval) {
                        SocketError::Code(ErrorCode::InvalidState)
                    } else if lost {
                        SocketError::Code(ErrorCode::WouldBlock)
                    } else if short {
                        SocketError::Code(ErrorCode::OutOfMemory)
                    } else {
                        told
                    },
                )
            },
        },
{
}

/// A socket has an address of its own once it is bound, and another side once
/// it is connected; of each, the system is asked about that very socket.
pub proof fn law_tcp_addresses_are_asked_for(
    socket: TcpSocket,
    local: Result<SocketCall, ErrorCode>,
    remote: Result<SocketCall, ErrorCode>,
    family: IpAddressFamily,
)
    requires
        call_ensures(TcpSocket::local_address, (&socket,), local),
        call_ensures(TcpSocket::remote_address, (&socket,), remote),
        call_ensures(TcpSocket::address_family, (&socket,), family),
    ensures
        family == socket.family,
        local is Ok <==> socket.state is Bound || socket.state is ListenStarted
            || socket.state is Listening || socket.state is Connected,
        local matches Ok(call) ==> call == (SocketCall::LocalAddress { socket: socket.inner }),
        remote is Ok <==> socket.state is Connected,
        remote matches Ok(call) ==> call == (SocketCall::PeerAddress { socket: socket.inner }),
        local matches Err(e) ==> e == if socket.state is Default {
            ErrorCode::NotBound
        } else {
            ErrorCode::InvalidState
        },
        remote matches Err(e) ==> e == if socket.state is Default {
            ErrorCode::NotConnected
        } else {
            ErrorCode::InvalidState
        },
{
}

/// Options are asked for, and set to what is given, on the socket itself, by
/// the calls for its family. Whether it is for IPv6 alone can be asked of an
/// IPv6 socket, and changed as long as that was not used.
pub proof fn law_tcp_options(
    socket: TcpSocket,
    only: bool,
    hops: u8,
    size: u64,
    asked: Result<SocketCall, ErrorCode>,
    set: Result<SocketCall, ErrorCode>,
    limit: SocketCall,
    set_limit: SocketCall,
    receive: Result<SocketCall, ErrorCode>,
    send: Result<SocketCall, ErrorCode>,
)
    requires
        call_ensures(TcpSocket::ipv6_only, (&socket,), asked),
        call_ensures(TcpSocket::set_ipv6_only, (&socket, only), set),
        call_ensures(TcpSocket::unicast_hop_limit, (&socket,), limit),
        call_ensures(TcpSocket::set_unicast_hop_limit, (&socket, hops), set_limit),
        call_ensures(TcpSocket::set_receive_buffer_size, (&socket, size), receive),
        call_ensures(TcpSocket::set_send_buffer_size, (&socket, size), send),
    ensures
        match socket.family {
            IpAddressFamily::Ipv6 => {
                &&& asked == Ok::<_, ErrorCode>(SocketCall::Ipv6Only { socket: socket.inner })
                &&& set == if socket.state is Default {
                    Ok(SocketCall::SetIpv6Only { socket: socket.inner, value: only })
                } else if socket.state is BindStarted {
                    Err(ErrorCode::ConcurrencyConflict)
                } else {
                    Err(ErrorCode::InvalidState)
                }
                &&& limit == (SocketCall::Ipv6UnicastHops { socket: socket.inner })
                &&& set_limit == (SocketCall::SetIpv6UnicastHops {
                    socket: socket.inner,
                    value: hops,
                })
            },
            IpAddressFamily::Ipv4 => {
                &&& asked == Err::<SocketCall, _>(
                    if socket.state is Default {
                        ErrorCode::Ipv6OnlyOperation
                    } else {
                        ErrorCode::NotSupported
                    },
                )
                &&& set == asked
                &&& limit == (SocketCall::IpTtl { socket: socket.inner })
                &&& set_limit == (SocketCall::SetIpTtl { socket: socket.inner, value: hops })
            },
        },
        size <= usize::MAX ==> receive is Ok && send is Ok,
        receive matches Ok(call) ==> (call matches SocketCall::SetReceiveBufferSize {
            socket: s,
            value: v,
        } && s == socket.inner && v == size),
        send matches Ok(call) ==> (call matches SocketCall::SetSendBufferSize {
            socket: s,
            value: v,
        } && s == socket.inner && v == size),
        receive matches Err(e) ==> e == ErrorCode::OutOfMemory,
        send matches Err(e) ==> e == ErrorCode::OutOfMemory,
{
}

/// How many connections may wait is taken to heart by a socket that is bound,
/// which listens with it later, and asked of the system for one that listens.
/// No other socket has use for it, nor is there a number that does not fit.
pub proof fn law_tcp_backlogs(
    socket: &mut TcpSocket,
    value: u64,
    r: Result<Option<SocketCall>, ErrorCode>,
    later: Result<SocketCall, ErrorCode>,
)
    requires
        call_ensures(TcpSocket::set_listen_backlog_size, (socket, value), r),
        call_ensures(TcpSocket::start_listen, (final(socket),), later),
    ensures
        r is Ok <==> (old(socket).state is Bound || old(socket).state is Listening) && value
            <= 0x7fff_ffff,
        final(socket).inner == old(socket).inner,
        final(socket).family == old(socket).family,
        final(socket).state == old(socket).state,
        r matches Ok(Some(call)) ==> {
            &&& old(socket).state is Listening
            &&& call matches SocketCall::TcpListen { socket: s, backlog: Some(n) }
            &&& s == old(socket).inner && n == value
            &&& *final(socket) == *old(socket)
        },
        r matches Ok(None) ==> {
            &&& old(socket).state is Bound
            &&& later matches Ok(SocketCall::TcpListen { socket: s, backlog: Some(n) })
            &&& s == old(socket).inner && n == value
        },
        r matches Err(e) ==> *final(socket) == *old(socket) && e == if old(socket).state is Bound
            || old(socket).state is Listening {
            ErrorCode::OutOfMemory
        } else {
            ErrorCode::NotInProgress
        },
{
}

/// A connection is shut down in the directions that are given, on the socket
/// itself, once it is there. Then the stream of each such direction has ended,
/// and only that: an end to receiving is the end of the input, an end to sending
/// that of the output. A failure is told as it is.
pub proof fn law_tcp_shutdowns(
    socket: TcpSocket,
    how: ShutdownType,
    asked: Result<SocketCall, ErrorCode>,
    platform: Platform,
    outcome: Result<(), IoError>,
    told: SocketError,
    r: SocketResult<EndedStreams>,
)
    requires
        call_ensures(TcpSocket::shutdown, (&socket, how), asked),
        call_ensures(TcpSocket::shut_down, (&socket, &platform, how, outcome), r),
        outcome matches Err(e) ==> call_ensures(
            crate::errno::Errnos::socket_error,
            (&platform.errnos, e),
            told,
        ),
    ensures
        asked is Ok <==> socket.state is Connected,
        asked matches Ok(call) ==> call == (SocketCall::Shutdown {
            socket: socket.inner,
            shutdown_type: how,
        }),
        asked matches Err(e) ==> e == match socket.state {
            TcpState::Connecting | TcpState::ConnectReady => ErrorCode::ConcurrencyConflict,
            TcpState::Default => ErrorCode::NotConnected,
            _ => ErrorCode::InvalidState,
        },
        outcome is Err ==> r == Err::<EndedStreams, _>(told),
        outcome is Ok ==> {
            &&& r matches Ok(ended)
            &&& ended.input <==> how is Receive || how is Both
            &&& ended.output <==> how is Send || how is Both
        },
{
}

/// A stream that has ended is closed, and one that has not is left alone: what
/// is read of the one from then on is nothing but that it is closed, and to the
/// other nothing more can be written. The task that was at work for it is to be
/// aborted.
pub proof fn law_ended_streams_are_closed(
    ended: EndedStreams,
    input: &mut AsyncReadStream<u64>,
    output: &mut AsyncWriteStream<u64>,
    reading: Option<Task>,
    writing: Option<Task>,
    size: usize,
    len: nat,
)
    requires
        call_ensures(EndedStreams::end_input::<u64>, (&ended, input), reading),
        call_ensures(EndedStreams::end_output::<u64>, (&ended, output), writing),
    ensures
        !ended.input ==> *final(input) == *old(input) && reading is None,
        !ended.output ==> *final(output) == *old(output) && writing is None,
        final(input).max_read == old(input).max_read,
        final(output).max_write == old(output).max_write,
        ended.input ==> {
            &&& !(final(input).state@ is Ready || final(input).state@ is Reading)
            &&& old(input).state@ matches ReadStateView::Reading(task) ==> reading == Some(task)
                && final(input).state@ == ReadStateView::<u64>::Canceling(task, StreamError::Closed)
            &&& !(old(input).state@ is Reading) ==> reading is None
            &&& old(input).state@ is Ready ==> final(input).state@ == ReadStateView::<u64>::Closed(
                StreamError::Closed,
            )
        },
        ended.output ==> {
            &&& !final(output).state.permits(len)
            &&& !(final(output).state is Ready || final(output).state is Writing
                || final(output).state is Flushing || final(output).state is Closing)
            &&& match old(output).state {
                AsyncWriteState::Writing(task)
                | AsyncWriteState::Flushing(task)
                | AsyncWriteState::Closing(task) => writing == Some(task) && final(output).state
                    == AsyncWriteState::<u64>::Canceling(task, StreamError::Closed),
                AsyncWriteState::Ready(..) => writing is None && final(output).state
                    == AsyncWriteState::<u64>::Canceled(StreamError::Closed),
                _ => writing is None && final(output).state == old(output).state,
            }
        },
{
}

/// What starts and is done at once is ready at once; for everything else it is
/// the socket itself that is waited for. Before a socket is closed for which
/// something might be waiting, it is shut down in both directions, but only
/// where closing it would not wake that up.
pub proof fn law_tcp_waiting_and_closing(
    socket: TcpSocket,
    platform: Platform,
    ready: Readiness,
    closed: Option<SocketCall>,
)
    requires
        call_ensures(TcpSocket::subscribe, (&socket,), ready),
        call_ensures(TcpSocket::close, (&socket, &platform), closed),
    ensures
        ready is Immediate <==> socket.state is BindStarted || socket.state is ListenStarted
            || socket.state is ConnectReady,
        ready matches Readiness::ReadableOrWritable(inner) ==> inner == socket.inner,
        closed is Some <==> platform.windows && (socket.state is Listening
            || socket.state is Connecting || socket.state is Connected),
        closed matches Some(call) ==> call == (SocketCall::Shutdown {
            socket: socket.inner,
            shutdown_type: ShutdownType::Both,
        }),
{
}

} // verus!
