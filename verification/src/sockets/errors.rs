//! From an error of the operating system to what the guest is told.
use crate::errno::Errnos;
use crate::error::IoError;
use crate::table::TableError;
use vstd::prelude::*;

verus! {

/// What a socket operation tells the guest when it fails.
#[derive(Clone, Copy, Debug, PartialEq, Eq, Structural)]
pub enum ErrorCode {
    AccessDenied,
    NotSupported,
    InvalidArgument,
    OutOfMemory,
    Timeout,
    ConcurrencyConflict,
    NotInProgress,
    WouldBlock,
    InvalidState,
    NewSocketLimit,
    AddressNotBindable,
    AddressInUse,
    RemoteUnreachable,
    ConnectionRefused,
    ConnectionReset,
    DatagramTooLarge,
    PermanentResolverFailure,
    /// The socket was never bound.
    NotBound,
    /// The socket was never made to listen.
    NotListening,
    /// The socket was never connected.
    NotConnected,
    /// The operation is for IPv6 sockets only.
    Ipv6OnlyOperation,
}

/// Why a socket operation stops the guest.
#[derive(Clone, Copy, Debug, PartialEq, Eq, Structural)]
pub enum SocketTrap {
    /// The resource table refused.
    Table(TableError),
    /// An aborted connection was met elsewhere than by an accept.
    ConnectionAborted,
    /// A connection in progress was met elsewhere than by a connect.
    InProgress,
    /// The operating system met a request that should have been impossible.
    SafetyViolation,
    /// Nothing is known of the error.
    Unknown,
    /// The streams of a UDP socket are still there.
    StreamsNotDropped,
}

impl SocketTrap {
    /// The message that goes with the trap, up to the error that caused it.
    pub fn message(&self) -> (r: &'static str)
        ensures
            r@ == match self {
                SocketTrap::Table(e) => e.text(),
                SocketTrap::ConnectionAborted => {
                    "ECONNABORTED should have been handled by accept()"@
                },
                SocketTrap::InProgress => {
                    "EINPROGRESS should have been handled by start-connect()"@
                },
                SocketTrap::SafetyViolation => "Safety violation"@,
                SocketTrap::Unknown => "Unknown network error"@,
                SocketTrap::StreamsNotDropped => "UDP streams not dropped yet"@,
            },
    {
        match self {
            SocketTrap::Table(e) => e.message(),
            SocketTrap::ConnectionAborted => "ECONNABORTED should have been handled by accept()",
            SocketTrap::InProgress => "EINPROGRESS should have been handled by start-connect()",
            SocketTrap::SafetyViolation => "Safety violation",
            SocketTrap::Unknown => "Unknown network error",
            SocketTrap::StreamsNotDropped => "UDP streams not dropped yet",
        }
    }
}

/// Why a socket operation failed.
#[derive(Clone, Copy, Debug, PartialEq, Eq, Structural)]
pub enum SocketError {
    /// The guest is told.
    Code(ErrorCode),
    /// The guest is stopped.
    Trap(SocketTrap),
}

pub type SocketResult<T> = Result<T, SocketError>;

impl Errnos {
    /// What becomes of an error number. Where two names share a number, the
    /// first of them decides.
    pub open spec fn socket_errno_spec(self, errno: i32) -> SocketError {
        if errno == self.wouldblock || errno == self.again || errno == self.intr {
            SocketError::Code(ErrorCode::WouldBlock)
        } else if errno == self.access || errno == self.perm {
            SocketError::Code(ErrorCode::AccessDenied)
        } else if errno == self.addrinuse {
            SocketError::Code(ErrorCode::AddressInUse)
        } else if errno == self.addrnotavail {
            SocketError::Code(ErrorCode::AddressNotBindable)
        } else if errno == self.already {
            SocketError::Code(ErrorCode::ConcurrencyConflict)
        } else if errno == self.connrefused {
            SocketError::Code(ErrorCode::ConnectionRefused)
        } else if errno == self.connreset || errno == self.netreset {
            SocketError::Code(ErrorCode::ConnectionReset)
        } else if errno == self.inval || errno == self.destaddrreq {
            SocketError::Code(ErrorCode::InvalidArgument)
        } else if errno == self.hostunreach || errno == self.hostdown || errno == self.netdown
            || errno == self.netunreach {
            SocketError::Code(ErrorCode::RemoteUnreachable)
        } else if errno == self.isconn || errno == self.notconn {
            SocketError::Code(ErrorCode::InvalidState)
        } else if errno == self.mfile || errno == self.nfile {
            SocketError::Code(ErrorCode::NewSocketLimit)
        } else if errno == self.msgsize {
            SocketError::Code(ErrorCode::DatagramTooLarge)
        } else if errno == self.nomem || errno == self.nobufs {
            SocketError::Code(ErrorCode::OutOfMemory)
        } else if errno == self.timedout {
            SocketError::Code(ErrorCode::Timeout)
        } else if errno == self.opnotsupp || errno == self.noprotoopt || errno == self.pfnosupport
            || errno == self.protonosupport || errno == self.prototype || errno
            == self.socktnosupport || errno == self.afnosupport {
            SocketError::Code(ErrorCode::NotSupported)
        } else if errno == self.connaborted {
            SocketError::Trap(SocketTrap::ConnectionAborted)
        } else if errno == self.inprogress {
            SocketError::Trap(SocketTrap::InProgress)
        } else if errno == self.fault || errno == self.nosys || errno == self.badf || errno
            == self.badfd || errno == self.notsock {
            SocketError::Trap(SocketTrap::SafetyViolation)
        } else {
            SocketError::Trap(SocketTrap::Unknown)
        }
    }

    /// What becomes of an I/O error: by its number, where one can be had.
    pub open spec fn socket_error_spec(self, error: IoError) -> SocketError {
        match self.errno_spec(error) {
            Some(errno) => self.socket_errno_spec(errno),
            None => SocketError::Trap(SocketTrap::Unknown),
        }
    }

    /// See [`Errnos::socket_errno_spec`].
    pub fn socket_errno(&self, errno: i32) -> (r: SocketError)
        ensures
            r == self.socket_errno_spec(errno),
    {
        let code: ErrorCode = if errno == self.wouldblock || errno == self.again || errno
            == self.intr {
            ErrorCode::WouldBlock
        } else if errno == self.access || errno == self.perm {
            ErrorCode::AccessDenied
        } else if errno == self.addrinuse {
            ErrorCode::AddressInUse
        } else if errno == self.addrnotavail {
            ErrorCode::AddressNotBindable
        } else if errno == self.already {
            ErrorCode::ConcurrencyConflict
        } else if errno == self.connrefused {
            ErrorCode::ConnectionRefused
        } else if errno == self.connreset || errno == self.netreset {
            ErrorCode::ConnectionReset
        } else if errno == self.inval || errno == self.destaddrreq {
            ErrorCode::InvalidArgument
        } else if errno == self.hostunreach || errno == self.hostdown || errno == self.netdown
            || errno == self.netunreach {
            ErrorCode::RemoteUnreachable
        } else if errno == self.isconn || errno == self.notconn {
            ErrorCode::InvalidState
        } else if errno == self.mfile || errno == self.nfile {
            ErrorCode::NewSocketLimit
        } else if errno == self.msgsize {
            ErrorCode::DatagramTooLarge
        } else if errno == self.nomem || errno == self.nobufs {
            ErrorCode::OutOfMemory
        } else if errno == self.timedout {
            ErrorCode::Timeout
        } else if errno == self.opnotsupp || errno == self.noprotoopt || errno == self.pfnosupport
            || errno == self.protonosupport || errno == self.prototype || errno
            == self.socktnosupport || errno == self.afnosupport {
            ErrorCode::NotSupported
        } else if errno == self.connaborted {
            return SocketError::Trap(SocketTrap::ConnectionAborted);
        } else if errno == self.inprogress {
            return SocketError::Trap(SocketTrap::InProgress);
        } else if errno == self.fault || errno == self.nosys || errno == self.badf || errno
            == self.badfd || errno == self.notsock {
            return SocketError::Trap(SocketTrap::SafetyViolation);
        } else {
            return SocketError::Trap(SocketTrap::Unknown);
        };
        SocketError::Code(code)
    }

    /// See [`Errnos::socket_error_spec`].
    pub fn socket_error(&self, error: IoError) -> (r: SocketError)
        ensures
            r == self.socket_error_spec(error),
    {
        match self.errno(error) {
            Some(errno) => self.socket_errno(errno),
            None => SocketError::Trap(SocketTrap::Unknown),
        }
    }

    /// A result of the operating system, its error turned into what becomes
    /// of it.
    pub fn socket_result<T>(&self, result: Result<T, IoError>) -> (r: SocketResult<T>)
        ensures
            r == match result {
                Ok(value) => Ok::<T, SocketError>(value),
                Err(e) => Err(self.socket_error_spec(e)),
            },
    {
        match result {
            Ok(value) => Ok(value),
            Err(e) => Err(self.socket_error(e)),
        }
    }
}

/// Each error number becomes what its name stands for, and nothing else does.
/// Where two names share a number, it becomes what one of them stands for.
pub proof fn law_socket_errors_go_by_their_names(errnos: Errnos, errno: i32, r: SocketError)
    requires
        call_ensures(Errnos::socket_errno, (&errnos, errno), r),
    ensures
        r == SocketError::Code(ErrorCode::WouldBlock) ==> (errno == errnos.wouldblock || errno == errnos.again || errno == errnos.intr),
        errnos.tells_apart() && (errno == errnos.wouldblock || errno == errnos.again || errno == errnos.intr) ==> r
            == SocketError::Code(ErrorCode::WouldBlock),
        r == SocketError::Code(ErrorCode::AccessDenied) ==> (errno == errnos.access || errno == errnos.perm),
        errnos.tells_apart() && (errno == errnos.access || errno == errnos.perm) ==> r
            == SocketError::Code(ErrorCode::AccessDenied),
        r == SocketError::Code(ErrorCode::AddressInUse) ==> (errno == errnos.addrinuse),
        errnos.tells_apart() && (errno == errnos.addrinuse) ==> r
            == SocketError::Code(ErrorCode::AddressInUse),
        r == SocketError::Code(ErrorCode::AddressNotBindable) ==> (errno == errnos.addrnotavail),
        errnos.tells_apart() && (errno == errnos.addrnotavail) ==> r
            == SocketError::Code(ErrorCode::AddressNotBindable),
        r == SocketError::Code(ErrorCode::ConcurrencyConflict) ==> (errno == errnos.already),
        errnos.tells_apart() && (errno == errnos.already) ==> r
            == SocketError::Code(ErrorCode::ConcurrencyConflict),
        r == SocketError::Code(ErrorCode::ConnectionRefused) ==> (errno == errnos.connrefused),
        errnos.tells_apart() && (errno == errnos.connrefused) ==> r
            == SocketError::Code(ErrorCode::ConnectionRefused),
        r == SocketError::Code(ErrorCode::ConnectionReset) ==> (errno == errnos.connreset || errno == errnos.netreset),
        errnos.tells_apart() && (errno == errnos.connreset || errno == errnos.netreset) ==> r
            == SocketError::Code(ErrorCode::ConnectionReset),
        r == SocketError::Code(ErrorCode::InvalidArgument) ==> (errno == errnos.inval || errno == errnos.destaddrreq),
        errnos.tells_apart() && (errno == errnos.inval || errno == errnos.destaddrreq) ==> r
            == SocketError::Code(ErrorCode::InvalidArgument),
        r == SocketError::Code(ErrorCode::RemoteUnreachable) ==> (errno == errnos.hostunreach || errno == errnos.hostdown || errno == errnos.netdown || errno == errnos.netunreach),
        errnos.tells_apart() && (errno == errnos.hostunreach || errno == errnos.hostdown || errno == errnos.netdown || errno == errnos.netunreach) ==> r
            == SocketError::Code(ErrorCode::RemoteUnreachable),
        r == SocketError::Code(ErrorCode::InvalidState) ==> (errno == errnos.isconn || errno == errnos.notconn),
        errnos.tells_apart() && (errno == errnos.isconn || errno == errnos.notconn) ==> r
            == SocketError::Code(ErrorCode::InvalidState),
        r == SocketError::Code(ErrorCode::NewSocketLimit) ==> (errno == errnos.mfile || errno == errnos.nfile),
        errnos.tells_apart() && (errno == errnos.mfile || errno == errnos.nfile) ==> r
            == SocketError::Code(ErrorCode::NewSocketLimit),
        r == SocketError::Code(ErrorCode::DatagramTooLarge) ==> (errno == errnos.msgsize),
        errnos.tells_apart() && (errno == errnos.msgsize) ==> r
            == SocketError::Code(ErrorCode::DatagramTooLarge),
        r == SocketError::Code(ErrorCode::OutOfMemory) ==> (errno == errnos.nomem || errno == errnos.nobufs),
        errnos.tells_apart() && (errno == errnos.nomem || errno == errnos.nobufs) ==> r
            == SocketError::Code(ErrorCode::OutOfMemory),
        r == SocketError::Code(ErrorCode::Timeout) ==> (errno == errnos.timedout),
        errnos.tells_apart() && (errno == errnos.timedout) ==> r
            == SocketError::Code(ErrorCode::Timeout),
        r == SocketError::Code(ErrorCode::NotSupported) ==> (errno == errnos.opnotsupp || errno == errnos.noprotoopt || errno == errnos.pfnosupport || errno == errnos.protonosupport || errno == errnos.prototype || errno == errnos.socktnosupport || errno == errnos.afnosupport),
        errnos.tells_apart() && (errno == errnos.opnotsupp || errno == errnos.noprotoopt || errno == errnos.pfnosupport || errno == errnos.protonosupport || errno == errnos.prototype || errno == errnos.socktnosupport || errno == errnos.afnosupport) ==> r
            == SocketError::Code(ErrorCode::NotSupported),
        r == SocketError::Trap(SocketTrap::ConnectionAborted) ==> (errno == errnos.connaborted),
        errnos.tells_apart() && (errno == errnos.connaborted) ==> r
            == SocketError::Trap(SocketTrap::ConnectionAborted),
        r == SocketError::Trap(SocketTrap::InProgress) ==> (errno == errnos.inprogress),
        errnos.tells_apart() && (errno == errnos.inprogress) ==> r
            == SocketError::Trap(SocketTrap::InProgress),
        r == SocketError::Trap(SocketTrap::SafetyViolation) ==> (errno == errnos.fault || errno == errnos.nosys || errno == errnos.badf || errno == errnos.badfd || errno == errnos.notsock),
        errnos.tells_apart() && (errno == errnos.fault || errno == errnos.nosys || errno == errnos.badf || errno == errnos.badfd || errno == errnos.notsock) ==> r
            == SocketError::Trap(SocketTrap::SafetyViolation),
        r == SocketError::Trap(SocketTrap::Unknown) <==> !(errno == errnos.wouldblock
            || errno == errnos.again
            || errno == errnos.intr
            || errno == errnos.access
            || errno == errnos.perm
            || errno == errnos.addrinuse
            || errno == errnos.addrnotavail
            || errno == errnos.already
            || errno == errnos.connrefused
            || errno == errnos.connreset
            || errno == errnos.netreset
            || errno == errnos.inval
            || errno == errnos.destaddrreq
            || errno == errnos.hostunreach
            || errno == errnos.hostdown
            || errno == errnos.netdown
            || errno == errnos.netunreach
            || errno == errnos.isconn
            || errno == errnos.notconn
            || errno == errnos.mfile
            || errno == errnos.nfile
            || errno == errnos.msgsize
            || errno == errnos.nomem
            || errno == errnos.nobufs
            || errno == errnos.timedout
            || errno == errnos.opnotsupp
            || errno == errnos.noprotoopt
            || errno == errnos.pfnosupport
            || errno == errnos.protonosupport
            || errno == errnos.prototype
            || errno == errnos.socktnosupport
            || errno == errnos.afnosupport
            || errno == errnos.connaborted
            || errno == errnos.inprogress
            || errno == errnos.fault
            || errno == errnos.nosys
            || errno == errnos.badf
            || errno == errnos.badfd
            || errno == errnos.notsock),
        r matches SocketError::Trap(t) ==> !(t is Table) && !(t is StreamsNotDropped),
{
    assert(errnos.numbers()[57] == errnos.wouldblock);
    assert(errnos.numbers()[4] == errnos.again);
    assert(errnos.numbers()[20] == errnos.intr);
    assert(errnos.numbers()[0] == errnos.access);
    assert(errnos.numbers()[48] == errnos.perm);
    assert(errnos.numbers()[1] == errnos.addrinuse);
    assert(errnos.numbers()[2] == errnos.addrnotavail);
    assert(errnos.numbers()[5] == errnos.already);
    assert(errnos.numbers()[10] == errnos.connrefused);
    assert(errnos.numbers()[11] == errnos.connreset);
    assert(errnos.numbers()[31] == errnos.netreset);
    assert(errnos.numbers()[21] == errnos.inval);
    assert(errnos.numbers()[12] == errnos.destaddrreq);
    assert(errnos.numbers()[17] == errnos.hostunreach);
    assert(errnos.numbers()[16] == errnos.hostdown);
    assert(errnos.numbers()[30] == errnos.netdown);
    assert(errnos.numbers()[32] == errnos.netunreach);
    assert(errnos.numbers()[23] == errnos.isconn);
    assert(errnos.numbers()[41] == errnos.notconn);
    assert(errnos.numbers()[26] == errnos.mfile);
    assert(errnos.numbers()[33] == errnos.nfile);
    assert(errnos.numbers()[28] == errnos.msgsize);
    assert(errnos.numbers()[36] == errnos.nomem);
    assert(errnos.numbers()[34] == errnos.nobufs);
    assert(errnos.numbers()[56] == errnos.timedout);
    assert(errnos.numbers()[46] == errnos.opnotsupp);
    assert(errnos.numbers()[38] == errnos.noprotoopt);
    assert(errnos.numbers()[49] == errnos.pfnosupport);
    assert(errnos.numbers()[52] == errnos.protonosupport);
    assert(errnos.numbers()[53] == errnos.prototype);
    assert(errnos.numbers()[54] == errnos.socktnosupport);
    assert(errnos.numbers()[3] == errnos.afnosupport);
    assert(errnos.numbers()[9] == errnos.connaborted);
    assert(errnos.numbers()[19] == errnos.inprogress);
    assert(errnos.numbers()[14] == errnos.fault);
    assert(errnos.numbers()[40] == errnos.nosys);
    assert(errnos.numbers()[6] == errnos.badf);
    assert(errnos.numbers()[7] == errnos.badfd);
    assert(errnos.numbers()[44] == errnos.notsock);
    assert(errnos.numbers()[45] == errnos.notsup);
}

/// An error becomes what its number does; where it has none, nothing is known
/// of it. A result that is no error is handed on as it is.
pub proof fn law_socket_errors_go_by_their_numbers(
    errnos: Errnos,
    error: IoError,
    number: Option<i32>,
    by_number: SocketError,
    r: SocketError,
    value: u64,
    good: SocketResult<u64>,
    bad: SocketResult<u64>,
)
    requires
        call_ensures(Errnos::errno, (&errnos, error), number),
        number matches Some(n) ==> call_ensures(Errnos::socket_errno, (&errnos, n), by_number),
        call_ensures(Errnos::socket_error, (&errnos, error), r),
        call_ensures(Errnos::socket_result::<u64>, (&errnos, Ok(value)), good),
        call_ensures(Errnos::socket_result::<u64>, (&errnos, Err(error)), bad),
    ensures
        number is Some ==> r == by_number,
        number is None ==> r == SocketError::Trap(SocketTrap::Unknown),
        good == Ok::<u64, SocketError>(value),
        bad == Err::<u64, SocketError>(r),
{
}

/// Each trap is told in its own words.
pub proof fn law_traps_have_words_of_their_own(trap: SocketTrap, r: &'static str)
    requires
        call_ensures(SocketTrap::message, (&trap,), r),
    ensures
        trap is ConnectionAborted ==> r@ == "ECONNABORTED should have been handled by accept()"@,
        trap is InProgress ==> r@ == "EINPROGRESS should have been handled by start-connect()"@,
        trap is SafetyViolation ==> r@ == "Safety violation"@,
        trap is Unknown ==> r@ == "Unknown network error"@,
        trap is StreamsNotDropped ==> r@ == "UDP streams not dropped yet"@,
        trap matches SocketTrap::Table(e) ==> (e is Full ==> r@
            == "resource table has no free keys"@) && (e is NotPresent ==> r@
            == "resource not present"@) && (e is WrongType ==> r@
            == "resource is of another type"@) && (e is HasChildren ==> r@
            == "resource has children"@),
{
}

} // verus!
