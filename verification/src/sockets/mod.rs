//! Sockets, as a host keeps them and as a guest uses them.
use crate::errno::Platform;
use crate::error::IoError;
use address::IpSocketAddress;
use tcp::ShutdownType;
use vstd::prelude::*;

pub mod address;
pub mod errors;
pub mod guest;
pub mod host;
pub mod name_lookup;
pub mod tcp;
pub mod udp;

verus! {

/// Names a socket that the embedder holds.
pub type SocketHandle = u64;

impl Platform {
    /// `e` is the error with the given number.
    pub open spec fn is(self, e: IoError, errno: i32) -> bool {
        self.errnos.errno_spec(e) == Some(errno)
    }

    /// The error that says that a connection is being made: POSIX has a number
    /// for it, Windows would block.
    pub open spec fn connect_in_progress(self) -> i32 {
        if self.windows {
            self.errnos.wouldblock
        } else {
            self.errnos.inprogress
        }
    }

    /// See [`Platform::is`].
    pub fn is_errno(&self, e: IoError, errno: i32) -> (r: bool)
        ensures
            r == self.is(e, errno),
    {
        match self.errnos.errno(e) {
            Some(number) => number == errno,
            None => false,
        }
    }
}

/// One call on the operating system, on a socket.
#[derive(Clone, Copy, Debug, PartialEq, Eq)]
pub enum SocketCall {
    /// Bind a TCP socket, as far as the network allows the address.
    TcpBind { socket: SocketHandle, address: IpSocketAddress },
    /// Connect a TCP socket, as far as the network allows the address.
    TcpConnect { socket: SocketHandle, address: IpSocketAddress },
    /// Find out, without waiting, whether a connection attempt has ended, and
    /// how.
    TcpConnectEnded { socket: SocketHandle },
    /// Listen, with the given number of connections that may wait, or else the
    /// default.
    TcpListen { socket: SocketHandle, backlog: Option<i32> },
    /// Accept a connection, without waiting.
    TcpAccept { socket: SocketHandle },
    /// Bind a UDP socket, as far as the network allows the address.
    UdpBind { socket: SocketHandle, address: IpSocketAddress },
    /// Connect a UDP socket.
    UdpConnect { socket: SocketHandle, address: IpSocketAddress },
    /// Receive one datagram, without waiting.
    ReceiveFrom { socket: SocketHandle },
    LocalAddress { socket: SocketHandle },
    PeerAddress { socket: SocketHandle },
    Ipv6Only { socket: SocketHandle },
    SetIpv6Only { socket: SocketHandle, value: bool },
    IpTtl { socket: SocketHandle },
    SetIpTtl { socket: SocketHandle, value: u8 },
    Ipv6UnicastHops { socket: SocketHandle },
    SetIpv6UnicastHops { socket: SocketHandle, value: u8 },
    SetReceiveBufferSize { socket: SocketHandle, value: usize },
    SetSendBufferSize { socket: SocketHandle, value: usize },
    Shutdown { socket: SocketHandle, shutdown_type: ShutdownType },
}

/// A buffer size, where memory can hold that much.
pub fn buffer_size(value: u64) -> (r: Result<usize, errors::ErrorCode>)
    ensures
        r == if value <= usize::MAX {
            Ok::<usize, errors::ErrorCode>(value as usize)
        } else {
            Err(errors::ErrorCode::OutOfMemory)
        },
{
    if value <= usize::MAX as u64 {
        Ok(value as usize)
    } else {
        Err(errors::ErrorCode::OutOfMemory)
    }
}

/// A size is the number that is given, as far as memory can hold that much.
pub proof fn law_buffer_sizes_are_as_given(value: u64, r: Result<usize, errors::ErrorCode>)
    requires
        call_ensures(buffer_size, (value,), r),
    ensures
        r matches Ok(size) ==> size == value,
        r matches Err(e) ==> e == errors::ErrorCode::OutOfMemory && value > usize::MAX,
        value <= usize::MAX ==> r is Ok,
{
}

/// An error is the one with a given number exactly where that is the number
/// behind it.
pub proof fn law_errors_are_known_by_their_number(
    platform: Platform,
    e: IoError,
    errno: i32,
    number: Option<i32>,
    r: bool,
)
    requires
        call_ensures(Platform::is_errno, (&platform, e, errno), r),
        call_ensures(crate::errno::Errnos::errno, (&platform.errnos, e), number),
    ensures
        r <==> number == Some(errno),
        e.raw_os_error == Some(errno) && 1 <= errno < 4096 ==> r,
        e.raw_os_error is Some && 1 <= e.raw_os_error->Some_0 < 4096 && e.raw_os_error
            != Some(errno) ==> !r,
{
}

} // verus!
