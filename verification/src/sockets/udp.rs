//! UDP sockets.
use super::address::{IpAddressFamily, IpSocketAddress};
use super::errors::{ErrorCode, SocketError, SocketResult, SocketTrap};
use super::tcp::PoolOutcome;
use super::{buffer_size, SocketCall, SocketHandle};
use crate::errno::Platform;
use crate::error::IoError;
use vstd::prelude::*;

verus! {

/// Theoretical maximum byte size of a UDP datagram, the real limit is lower,
/// but e.g. the transport layer is not accounted for here for simplicity. In
/// practice, datagrams are typically less than 1500 bytes.
pub const MAX_UDP_DATAGRAM_SIZE: usize = 65535;

#[derive(Clone, Copy, Debug, PartialEq, Eq, Structural)]
pub enum UdpState {
    /// The initial state for a newly-created socket.
    Default,
    /// Binding started via `start_bind`.
    BindStarted,
    /// Binding finished via `finish_bind`. The socket has an address but no
    /// peer.
    Bound,
    /// The socket is connected to a peer.
    Connected,
}

#[derive(Clone, Copy, Debug, PartialEq, Eq, Structural)]
pub struct UdpSocket {
    /// The part of the socket that the operating system keeps.
    pub inner: SocketHandle,
    /// The state that the socket is in.
    pub state: UdpState,
    /// The family of addresses that the socket works with.
    pub family: IpAddressFamily,
}

/// How the opening of a socket's streams goes on.
#[derive(Clone, Copy, Debug, PartialEq, Eq)]
pub enum StreamStep {
    /// The streams can be opened.
    Open,
    /// The socket has to be connected first.
    Connect(SocketCall),
}

/// How a request for a socket's hop limit goes on.
#[derive(Debug, PartialEq, Eq)]
pub enum HopLimitStep<T> {
    Done(SocketResult<T>),
    /// The socket is not one of IPv6: the same is asked of it as one of IPv4.
    TryIpv4,
}

impl UdpSocket {
    /// A new socket around one of the operating system.
    pub fn new(inner: SocketHandle, family: IpAddressFamily) -> (r: UdpSocket)
        ensures
            r == (UdpSocket { inner, state: UdpState::Default, family }),
    {
        UdpSocket { inner, state: UdpState::Default, family }
    }

    /// This socket, in another state.
    pub open spec fn in_state(self, state: UdpState) -> UdpSocket {
        UdpSocket { state, ..self }
    }

    /// Binding to `local` is asked of the operating system; or what the guest
    /// is told instead.
    pub open spec fn bind_request(self, local: IpSocketAddress) -> Result<SocketCall, ErrorCode> {
        match self.state {
            UdpState::Default => Ok(SocketCall::UdpBind { socket: self.inner, address: local }),
            UdpState::BindStarted => Err(ErrorCode::ConcurrencyConflict),
            UdpState::Bound | UdpState::Connected => Err(ErrorCode::InvalidState),
        }
    }

    pub fn start_bind(&self, local_address: IpSocketAddress) -> (r: Result<SocketCall, ErrorCode>)
        ensures
            r == self.bind_request(local_address),
    {
        match self.state {
            UdpState::Default => {},
            UdpState::BindStarted => return Err(ErrorCode::ConcurrencyConflict),
            UdpState::Bound | UdpState::Connected => return Err(ErrorCode::InvalidState),
        }
        Ok(SocketCall::UdpBind { socket: self.inner, address: local_address })
    }

    /// Takes in what the attempt to bind came to.
    pub fn bind_started(&mut self, platform: &Platform, outcome: PoolOutcome) -> (r: SocketResult<
        (),
    >)
        ensures
            match outcome {
                PoolOutcome::Asked(Ok(_)) => {
                    &&& r is Ok
                    &&& *final(self) == old(self).in_state(UdpState::BindStarted)
                },
                PoolOutcome::Refused(e) | PoolOutcome::Asked(Err(e)) => {
                    &&& r == Err::<(), _>(platform.errnos.socket_error_spec(e))
                    &&& *final(self) == *old(self)
                },
            },
    {
        match outcome {
            PoolOutcome::Asked(Ok(())) => {
                self.state = UdpState::BindStarted;
                Ok(())
            },
            PoolOutcome::Refused(e) => Err(platform.errnos.socket_error(e)),
            PoolOutcome::Asked(Err(e)) => Err(platform.errnos.socket_error(e)),
        }
    }

    pub fn finish_bind(&mut self) -> (r: Result<(), ErrorCode>)
        ensures
            if old(self).state is BindStarted {
                r is Ok && *final(self) == old(self).in_state(UdpState::Bound)
            } else {
                r == Err::<(), _>(ErrorCode::NotInProgress) && *final(self) == *old(self)
            },
    {
        match self.state {
            UdpState::BindStarted => {
                self.state = UdpState::Bound;
                Ok(())
            },
            _ => Err(ErrorCode::NotInProgress),
        }
    }

    /// How the opening of the socket's streams goes on; or why it does not.
    pub open spec fn stream_request(
        self,
        has_active_streams: bool,
        remote_address: Option<IpSocketAddress>,
    ) -> SocketResult<StreamStep> {
        if has_active_streams {
            Err(SocketError::Trap(SocketTrap::StreamsNotDropped))
        } else {
            match self.state {
                UdpState::Default | UdpState::BindStarted => Err(
                    SocketError::Code(ErrorCode::InvalidState),
                ),
                UdpState::Connected => Err(SocketError::Code(ErrorCode::NotSupported)),
                UdpState::Bound => Ok(
                    match remote_address {
                        Some(address) => StreamStep::Connect(
                            SocketCall::UdpConnect { socket: self.inner, address },
                        ),
                        None => StreamStep::Open,
                    },
                ),
            }
        }
    }

    /// Opens the socket's streams, which must not be open. A socket that is
    /// connected cannot be connected otherwise.
    pub fn stream(&self, has_active_streams: bool, remote_address: Option<IpSocketAddress>) -> (r:
        SocketResult<StreamStep>)
        ensures
            r == self.stream_request(has_active_streams, remote_address),
    {
        if has_active_streams {
            return Err(SocketError::Trap(SocketTrap::StreamsNotDropped));
        }
        match self.state {
            UdpState::Bound | UdpState::Connected => {},
            _ => return Err(SocketError::Code(ErrorCode::InvalidState)),
        }
        if let UdpState::Connected = self.state {
            return Err(SocketError::Code(ErrorCode::NotSupported));
        }
        match remote_address {
            Some(address) => Ok(
                StreamStep::Connect(SocketCall::UdpConnect { socket: self.inner, address }),
            ),
            None => Ok(StreamStep::Open),
        }
    }

    /// Takes in what the attempt to connect came to; the error is its number.
    pub fn stream_connected(&mut self, platform: &Platform, outcome: Result<(), i32>) -> (r:
        SocketResult<()>)
        ensures
            match outcome {
                Ok(_) => r is Ok && *final(self) == old(self).in_state(UdpState::Connected),
                Err(errno) => {
                    &&& r == Err::<(), _>(platform.errnos.socket_errno_spec(errno))
                    &&& *final(self) == *old(self)
                },
            },
    {
        match outcome {
            Ok(()) => {
                self.state = UdpState::Connected;
                Ok(())
            },
            Err(errno) => Err(platform.errnos.socket_errno(errno)),
        }
    }

    /// The socket once its streams were opened.
    pub open spec fn opened(self, remote_address: Option<IpSocketAddress>) -> UdpSocket {
        match remote_address {
            Some(_) => self.in_state(UdpState::Connected),
            None => self,
        }
    }

    /// The two streams of the socket. Where it was connected, they have the
    /// peer's address.
    pub fn streams(&self, remote_address: Option<IpSocketAddress>) -> (r: (
        IncomingDatagramStream,
        OutgoingDatagramStream,
    ))
        ensures
            r.0 == (IncomingDatagramStream { inner: self.inner, remote_address }),
            r.1 == (OutgoingDatagramStream { inner: self.inner, remote_address }),
    {
        (
            IncomingDatagramStream { inner: self.inner, remote_address },
            OutgoingDatagramStream { inner: self.inner, remote_address },
        )
    }

    pub fn address_family(&self) -> (r: IpAddressFamily)
        ensures
            r == self.family,
    {
        self.family
    }

    pub fn set_receive_buffer_size(&self, value: u64) -> (r: Result<SocketCall, ErrorCode>)
        ensures
            r == if value <= usize::MAX {
                Ok::<SocketCall, ErrorCode>(
                    SocketCall::SetReceiveBufferSize { socket: self.inner, value: value as usize },
                )
            } else {
                Err(ErrorCode::OutOfMemory)
            },
    {
        let value: usize = buffer_size(value)?;
        Ok(SocketCall::SetReceiveBufferSize { socket: self.inner, value })
    }

    pub fn set_send_buffer_size(&self, value: u64) -> (r: Result<SocketCall, ErrorCode>)
        ensures
            r == if value <= usize::MAX {
                Ok::<SocketCall, ErrorCode>(
                    SocketCall::SetSendBufferSize { socket: self.inner, value: value as usize },
                )
            } else {
                Err(ErrorCode::OutOfMemory)
            },
    {
        let value: usize = buffer_size(value)?;
        Ok(SocketCall::SetSendBufferSize { socket: self.inner, value })
    }
}

/// Takes in what asking a socket for its IPv6 hop limit, or setting it, came
/// to; the error is its number. A socket that does not know the option is one
/// of IPv4.
pub fn hop_limit_answered<T>(platform: &Platform, answer: Result<T, i32>) -> (r: HopLimitStep<T>)
    ensures
        r == match answer {
            Ok(value) => HopLimitStep::Done(Ok(value)),
            Err(errno) => if errno == platform.errnos.noprotoopt {
                HopLimitStep::TryIpv4
            } else {
                HopLimitStep::Done(Err(platform.errnos.socket_errno_spec(errno)))
            },
        },
{
    match answer {
        Ok(value) => HopLimitStep::Done(Ok(value)),
        Err(errno) => if errno == platform.errnos.noprotoopt {
            HopLimitStep::TryIpv4
        } else {
            HopLimitStep::Done(Err(platform.errnos.socket_errno(errno)))
        },
    }
}

/// Receives datagrams; where the socket is connected, those of the peer.
#[derive(Clone, Copy, Debug, PartialEq, Eq)]
pub struct IncomingDatagramStream {
    pub inner: SocketHandle,
    pub remote_address: Option<IpSocketAddress>,
}

/// Sends datagrams; where the socket is connected, to the peer.
#[derive(Clone, Copy, Debug, PartialEq, Eq)]
pub struct OutgoingDatagramStream {
    pub inner: SocketHandle,
    pub remote_address: Option<IpSocketAddress>,
}

#[derive(Clone, Debug, PartialEq, Eq)]
pub struct IncomingDatagram {
    pub data: Vec<u8>,
    pub remote_address: IpSocketAddress,
}

#[derive(Clone, Debug, PartialEq, Eq)]
pub struct OutgoingDatagram {
    pub data: Vec<u8>,
    /// Where to, on a stream without a peer.
    pub remote_address: Option<IpSocketAddress>,
}

/// What an attempt to receive one datagram came to: its bytes and where it
/// came from.
pub type Received = Result<(Vec<u8>, IpSocketAddress), IoError>;

impl IncomingDatagramStream {
    /// The datagram for the guest, or why there is none. Normally, the
    /// operating system drops what does not come from the peer.
    pub open spec fn received_one(self, platform: Platform, received: Received) -> SocketResult<
        IncomingDatagram,
    > {
        match received {
            Err(e) => Err(platform.errnos.socket_error_spec(e)),
            Ok((data, from)) => if self.remote_address is Some && self.remote_address != Some(
                from,
            ) {
                Err(SocketError::Code(ErrorCode::WouldBlock))
            } else {
                Ok(IncomingDatagram { data, remote_address: from })
            },
        }
    }

    fn recv_one(&self, platform: &Platform, received: Received) -> (r: SocketResult<
        IncomingDatagram,
    >)
        ensures
            r == self.received_one(*platform, received),
    {
        match received {
            Err(e) => Err(platform.errnos.socket_error(e)),
            Ok((data, received_addr)) => {
                match self.remote_address {
                    Some(connected_addr) => if connected_addr != received_addr {
                        // Drop message...
                        return Err(SocketError::Code(ErrorCode::WouldBlock));
                    },
                    None => {},
                }
                Ok(IncomingDatagram { data, remote_address: received_addr })
            },
        }
    }

    /// Starts to receive up to `max_results` datagrams.
    pub fn receive(&self, max_results: u64) -> (r: Receiving)
        ensures
            r@ == (ReceivingView {
                stream: *self,
                max_results: max_results as nat,
                datagrams: Seq::empty(),
            }),
            r@.is_valid(),
    {
        Receiving { stream: *self, max_results, datagrams: Vec::new() }
    }
}

/// Datagrams being received.
#[derive(Debug)]
pub struct Receiving {
    pub stream: IncomingDatagramStream,
    pub max_results: u64,
    pub datagrams: Vec<IncomingDatagram>,
}

/// [`Receiving`], as far as it matters.
#[verifier::ext_equal]
pub struct ReceivingView {
    pub stream: IncomingDatagramStream,
    pub max_results: nat,
    pub datagrams: Seq<IncomingDatagram>,
}

impl View for Receiving {
    type V = ReceivingView;

    open spec fn view(&self) -> ReceivingView {
        ReceivingView {
            stream: self.stream,
            max_results: self.max_results as nat,
            datagrams: self.datagrams@,
        }
    }
}

impl ReceivingView {
    /// There are no more datagrams than were asked for.
    pub open spec fn is_valid(self) -> bool {
        self.datagrams.len() <= self.max_results
    }

    /// Everything was received that was asked for.
    pub open spec fn is_full(self) -> bool {
        self.datagrams.len() >= self.max_results
    }

    /// With one more datagram.
    pub open spec fn and(self, datagram: IncomingDatagram) -> ReceivingView {
        ReceivingView { datagrams: self.datagrams.push(datagram), ..self }
    }

    /// What receiving comes to, given what each attempt comes to, if these
    /// attempts are enough to tell. No attempt follows a failed one.
    pub open spec fn run(self, platform: Platform, attempts: Seq<Received>) -> Option<
        SocketResult<Seq<IncomingDatagram>>,
    >
        decreases attempts.len(),
    {
        if self.is_full() {
            Some(Ok(self.datagrams))
        } else if attempts.len() == 0 {
            None
        } else {
            match self.stream.received_one(platform, attempts[0]) {
                Ok(datagram) => self.and(datagram).run(platform, attempts.skip(1)),
                Err(e) => Some(
                    if self.datagrams.len() > 0 {
                        Ok(self.datagrams)
                    } else {
                        Err(e)
                    },
                ),
            }
        }
    }
}

/// How receiving goes on.
#[derive(Debug)]
pub enum ReceiveStep {
    /// Attempt to receive one datagram.
    Attempt(SocketCall, Receiving),
    /// This is what was received.
    Done(SocketResult<Vec<IncomingDatagram>>),
}

impl ReceiveStep {
    /// `self` ends with `result`.
    pub open spec fn ends(self, result: SocketResult<Seq<IncomingDatagram>>) -> bool {
        match result {
            Ok(datagrams) => self matches ReceiveStep::Done(Ok(v)) && v@ == datagrams,
            Err(e) => self matches ReceiveStep::Done(Err(f)) && f == e,
        }
    }

    /// `self` goes on from `receiving`.
    pub open spec fn goes_on(self, receiving: ReceivingView) -> bool {
        if receiving.is_full() {
            self.ends(Ok(receiving.datagrams))
        } else {
            self matches ReceiveStep::Attempt(call, r) && call == (SocketCall::ReceiveFrom {
                socket: receiving.stream.inner,
            }) && r@ == receiving
        }
    }
}

impl Receiving {
    /// How receiving goes on.
    pub fn next(self) -> (r: ReceiveStep)
        ensures
            r.goes_on(self@),
    {
        if self.datagrams.len() as u64 >= self.max_results {
            return ReceiveStep::Done(Ok(self.datagrams));
        }
        ReceiveStep::Attempt(SocketCall::ReceiveFrom { socket: self.stream.inner }, self)
    }

    /// Takes in what an attempt came to. Once a datagram was received, a
    /// failure is no failure.
    pub fn received(self, platform: &Platform, received: Received) -> (r: ReceiveStep)
        requires
            self@.is_valid(),
            !self@.is_full(),
        ensures
            match self@.stream.received_one(*platform, received) {
                Ok(datagram) => self@.and(datagram).is_valid() && r.goes_on(self@.and(datagram)),
                Err(e) => r.ends(
                    if self@.datagrams.len() > 0 {
                        Ok(self@.datagrams)
                    } else {
                        Err(e)
                    },
                ),
            },
    {
        let mut receiving: Receiving = self;
        match receiving.stream.recv_one(platform, received) {
            Ok(datagram) => {
                receiving.datagrams.push(datagram);
                receiving.next()
            },
            Err(e) => if receiving.datagrams.len() > 0 {
                ReceiveStep::Done(Ok(receiving.datagrams))
            } else {
                ReceiveStep::Done(Err(e))
            },
        }
    }
}

/// Never are more datagrams received than were asked for, and once one was
/// received, that is no failure. What was received comes in the order of the
/// attempts.
pub proof fn law_receive(
    receiving: ReceivingView,
    platform: Platform,
    attempts: Seq<Received>,
    result: SocketResult<Seq<IncomingDatagram>>,
)
    requires
        receiving.is_valid(),
        receiving.run(platform, attempts) == Some(result),
    ensures
        match result {
            Ok(datagrams) => {
                let n = receiving.datagrams.len();
                &&& n <= datagrams.len() <= receiving.max_results
                &&& datagrams.take(n as int) == receiving.datagrams
                &&& datagrams.len() - n <= attempts.len()
                &&& forall|i: int|
                    0 <= i < datagrams.len() - n ==> receiving.stream.received_one(
                        platform,
                        #[trigger] attempts[i],
                    ) == Ok::<IncomingDatagram, SocketError>(datagrams[n + i])
            },
            Err(e) => {
                &&& receiving.datagrams.len() == 0
                &&& attempts.len() > 0
                &&& receiving.stream.received_one(platform, attempts[0]) == Err::<
                    IncomingDatagram,
                    SocketError,
                >(e)
            },
        },
    decreases attempts.len(),
{
    let n = receiving.datagrams.len();
    if receiving.is_full() {
        assert(receiving.datagrams.take(n as int) =~= receiving.datagrams);
    } else {
        match receiving.stream.received_one(platform, attempts[0]) {
            Ok(datagram) => {
                let next = receiving.and(datagram);
                law_receive(next, platform, attempts.skip(1), result);
                if let Ok(datagrams) = result {
                    assert(datagrams.take(n as int) =~= receiving.datagrams) by {
                        assert(datagrams.take((n + 1) as int) == next.datagrams);
                        assert(datagrams.take(n as int) =~= next.datagrams.take(n as int));
                        assert(next.datagrams.take(n as int) =~= receiving.datagrams);
                    }
                    assert forall|i: int|
                        0 <= i < datagrams.len() - n implies receiving.stream.received_one(
                        platform,
                        #[trigger] attempts[i],
                    ) == Ok::<IncomingDatagram, SocketError>(datagrams[n + i]) by {
                        if i == 0 {
                            assert(datagrams.take((n + 1) as int)[n as int] == datagram);
                        } else {
                            assert(attempts.skip(1)[i - 1] == attempts[i]);
                        }
                    }
                }
            },
            Err(_) => {
                assert(receiving.datagrams.take(n as int) =~= receiving.datagrams);
            },
        }
    }
}

impl OutgoingDatagramStream {
    /// Where a datagram goes: to the peer, or where it says, but not to two
    /// different places, and not nowhere.
    pub open spec fn destination(self, datagram: OutgoingDatagram) -> Result<
        IpSocketAddress,
        ErrorCode,
    > {
        match (self.remote_address, datagram.remote_address) {
            (None, Some(address)) => Ok(address),
            (Some(address), None) => Ok(address),
            (Some(connected), Some(provided)) => if connected == provided {
                Ok(connected)
            } else {
                Err(ErrorCode::InvalidArgument)
            },
            (None, None) => Err(ErrorCode::InvalidArgument),
        }
    }

    fn address(&self, datagram: &OutgoingDatagram) -> (r: Result<IpSocketAddress, ErrorCode>)
        ensures
            r == self.destination(*datagram),
    {
        match (self.remote_address, datagram.remote_address) {
            (None, Some(addr)) => Ok(addr),
            (Some(addr), None) => Ok(addr),
            (Some(connected_addr), Some(provided_addr)) if connected_addr == provided_addr => {
                Ok(connected_addr)
            },
            _ => Err(ErrorCode::InvalidArgument),
        }
    }

    /// Starts to send the datagrams.
    pub fn send(&self, datagrams: Vec<OutgoingDatagram>) -> (r: Sending)
        ensures
            r.stream == *self,
            r.datagrams == datagrams,
            r.count == 0,
            r.is_valid(),
    {
        let _: usize = datagrams.len();
        Sending { stream: *self, datagrams, count: 0 }
    }
}

/// Datagrams being sent.
#[derive(Debug)]
pub struct Sending {
    pub stream: OutgoingDatagramStream,
    pub datagrams: Vec<OutgoingDatagram>,
    /// How many were sent.
    pub count: usize,
}

/// How sending goes on.
#[derive(Clone, Copy, Debug, PartialEq, Eq)]
pub enum SendStep {
    /// Attempt to send the datagram with this index to this address.
    SendTo(usize, IpSocketAddress),
    /// So many were sent.
    Done(SocketResult<u64>),
}

impl Sending {
    /// No more datagrams were sent than there are, which can be counted.
    pub open spec fn is_valid(self) -> bool {
        self.count <= self.datagrams@.len() <= usize::MAX
    }

    /// What sending comes to where the next datagram cannot be sent for this
    /// reason: once one was sent, that is no failure.
    pub open spec fn stopped(self, e: SocketError) -> SocketResult<u64> {
        if self.count > 0 {
            Ok(self.count as u64)
        } else {
            Err(e)
        }
    }

    /// How sending goes on.
    pub open spec fn step(self) -> SendStep {
        if self.count >= self.datagrams@.len() {
            SendStep::Done(Ok(self.count as u64))
        } else {
            match self.stream.destination(self.datagrams@[self.count as int]) {
                Ok(address) => SendStep::SendTo(self.count, address),
                Err(e) => SendStep::Done(self.stopped(SocketError::Code(e))),
            }
        }
    }

    /// One more datagram was sent.
    pub open spec fn advanced(self) -> Sending {
        Sending { count: (self.count + 1) as usize, ..self }
    }

    /// How sending goes on.
    pub fn next(&self) -> (r: SendStep)
        requires
            self.is_valid(),
        ensures
            r == self.step(),
    {
        if self.count >= self.datagrams.len() {
            return SendStep::Done(Ok(self.count as u64));
        }
        match self.stream.address(&self.datagrams[self.count]) {
            Ok(address) => SendStep::SendTo(self.count, address),
            Err(e) => if self.count > 0 {
                SendStep::Done(Ok(self.count as u64))
            } else {
                SendStep::Done(Err(SocketError::Code(e)))
            },
        }
    }

    /// Takes in what the attempt to send the next datagram came to.
    pub fn sent(&mut self, platform: &Platform, outcome: Result<(), IoError>) -> (r: SendStep)
        requires
            old(self).is_valid(),
            old(self).step() is SendTo,
        ensures
            final(self).is_valid(),
            match outcome {
                Ok(_) => *final(self) == old(self).advanced() && r == old(self).advanced().step(),
                Err(e) => {
                    &&& *final(self) == *old(self)
                    &&& r == SendStep::Done(
                        old(self).stopped(platform.errnos.socket_error_spec(e)),
                    )
                },
            },
    {
        match outcome {
            Ok(()) => {
                self.count = self.count + 1;
                self.next()
            },
            Err(e) => if self.count > 0 {
                SendStep::Done(Ok(self.count as u64))
            } else {
                SendStep::Done(Err(platform.errnos.socket_error(e)))
            },
        }
    }

    /// What sending comes to, given what each attempt comes to, if these
    /// attempts are enough to tell.
    pub open spec fn run(self, platform: Platform, attempts: Seq<Result<(), IoError>>) -> Option<
        SocketResult<u64>,
    >
        decreases attempts.len(),
    {
        match self.step() {
            SendStep::Done(result) => Some(result),
            SendStep::SendTo(..) => if attempts.len() == 0 {
                None
            } else {
                match attempts[0] {
                    Ok(_) => self.advanced().run(platform, attempts.skip(1)),
                    Err(e) => Some(self.stopped(platform.errnos.socket_error_spec(e))),
                }
            },
        }
    }
}

/// If at least one datagram has been sent successfully, sending never returns
/// an error. What it returns is how many attempts succeeded before the first
/// that did not, or before a datagram without a destination.
pub proof fn law_send(
    sending: Sending,
    platform: Platform,
    attempts: Seq<Result<(), IoError>>,
    result: SocketResult<u64>,
)
    requires
        sending.is_valid(),
        sending.run(platform, attempts) == Some(result),
    ensures
        match result {
            Ok(count) => {
                &&& sending.count <= count <= sending.datagrams@.len()
                &&& count - sending.count <= attempts.len()
                &&& forall|i: int| 0 <= i < count - sending.count ==> #[trigger] attempts[i] is Ok
                &&& count < sending.datagrams@.len() ==> {
                    ||| sending.stream.destination(sending.datagrams@[count as int]) is Err
                    ||| count - sending.count < attempts.len() && attempts[count
                        - sending.count] is Err
                }
            },
            Err(_) => {
                &&& sending.count == 0
                &&& sending.datagrams@.len() > 0
                &&& sending.stream.destination(sending.datagrams@[0]) is Err || attempts.len() > 0
                    && attempts[0] is Err
            },
        },
    decreases attempts.len(),
{
    if let SendStep::SendTo(..) = sending.step() {
        if attempts[0] is Ok {
            law_send(sending.advanced(), platform, attempts.skip(1), result);
            if let Ok(count) = result {
                assert forall|i: int| 0 <= i < count - sending.count implies #[trigger] attempts[
                    i] is Ok by {
                    if i > 0 {
                        assert(attempts.skip(1)[i - 1] == attempts[i]);
                    }
                }
                if count - sending.count < attempts.len() {
                    assert(attempts.skip(1)[count - sending.count - 1] == attempts[count
                        - sending.count]);
                }
            }
        }
    }
}

/// A UDP socket begins unbound; it is bound once binding it was started and
/// then finished, and connected where its streams are given a peer. Nothing
/// else brings it from one state to the next, and a refusal leaves it where it
/// is. The socket itself and its family stay the same throughout.
pub proof fn law_udp_states_follow_each_other(
    inner: SocketHandle,
    family: IpAddressFamily,
    made: UdpSocket,
    bound: &mut UdpSocket,
    platform: Platform,
    outcome: PoolOutcome,
    told: SocketError,
    started: SocketResult<()>,
    finished: &mut UdpSocket,
    ended: Result<(), ErrorCode>,
    connected: &mut UdpSocket,
    peer: Result<(), i32>,
    peer_told: SocketError,
    joined: SocketResult<()>,
)
    requires
        call_ensures(UdpSocket::new, (inner, family), made),
        call_ensures(UdpSocket::bind_started, (bound, &platform, outcome), started),
        (outcome matches PoolOutcome::Refused(e) ==> call_ensures(
            crate::errno::Errnos::socket_error,
            (&platform.errnos, e),
            told,
        )),
        (outcome matches PoolOutcome::Asked(Err(e)) ==> call_ensures(
            crate::errno::Errnos::socket_error,
            (&platform.errnos, e),
            told,
        )),
        call_ensures(UdpSocket::finish_bind, (finished,), ended),
        call_ensures(UdpSocket::stream_connected, (connected, &platform, peer), joined),
        (peer matches Err(n) ==> call_ensures(
            crate::errno::Errnos::socket_errno,
            (&platform.errnos, n),
            peer_told,
        )),
    ensures
        made.inner == inner && made.family == family && made.state is Default,
        final(bound).inner == old(bound).inner && final(bound).family == old(bound).family,
        if outcome matches PoolOutcome::Asked(Ok(_)) {
            started is Ok && final(bound).state is BindStarted
        } else {
            started == Err::<(), _>(told) && *final(bound) == *old(bound)
        },
        final(finished).inner == old(finished).inner && final(finished).family == old(
            finished,
        ).family,
        if old(finished).state is BindStarted {
            ended is Ok && final(finished).state is Bound
        } else {
            ended == Err::<(), _>(ErrorCode::NotInProgress) && *final(finished) == *old(finished)
        },
        final(connected).inner == old(connected).inner && final(connected).family == old(
            connected,
        ).family,
        if peer is Ok {
            joined is Ok && final(connected).state is Connected
        } else {
            joined == Err::<(), _>(peer_told) && *final(connected) == *old(connected)
        },
{
}

/// A socket that was never bound is bound to the address that is given; one
/// that is being bound, or is, is not bound again.
pub proof fn law_udp_binds_once(
    socket: UdpSocket,
    address: IpSocketAddress,
    r: Result<SocketCall, ErrorCode>,
)
    requires
        call_ensures(UdpSocket::start_bind, (&socket, address), r),
    ensures
        r is Ok <==> socket.state is Default,
        r matches Ok(call) ==> call == (SocketCall::UdpBind { socket: socket.inner, address }),
        socket.state is BindStarted ==> r == Err::<SocketCall, _>(ErrorCode::ConcurrencyConflict),
        socket.state is Bound || socket.state is Connected ==> r == Err::<SocketCall, _>(
            ErrorCode::InvalidState,
        ),
{
}

/// The streams of a socket can be opened once it is bound, and while it has
/// none; where a peer is given, the socket is connected to that peer first. One
/// that is connected cannot be connected otherwise.
pub proof fn law_udp_streams_need_a_bound_socket(
    socket: UdpSocket,
    active: bool,
    peer: Option<IpSocketAddress>,
    r: SocketResult<StreamStep>,
)
    requires
        call_ensures(UdpSocket::stream, (&socket, active, peer), r),
    ensures
        r is Ok <==> socket.state is Bound && !active,
        r matches Ok(StreamStep::Open) ==> peer is None,
        r matches Ok(StreamStep::Connect(call)) ==> (peer matches Some(address) && call == (
        SocketCall::UdpConnect { socket: socket.inner, address })),
        active ==> r == Err::<StreamStep, _>(SocketError::Trap(SocketTrap::StreamsNotDropped)),
        !active && (socket.state is Default || socket.state is BindStarted) ==> r == Err::<
            StreamStep,
            _,
        >(SocketError::Code(ErrorCode::InvalidState)),
        !active && socket.state is Connected ==> r == Err::<StreamStep, _>(
            SocketError::Code(ErrorCode::NotSupported),
        ),
{
}

/// Both streams are over the socket that they are opened for, and know its
/// peer. Its family and the sizes of its buffers are the socket's own.
pub proof fn law_udp_sockets_speak_for_themselves(
    socket: UdpSocket,
    peer: Option<IpSocketAddress>,
    value: u64,
    streams: (IncomingDatagramStream, OutgoingDatagramStream),
    family: IpAddressFamily,
    receive: Result<SocketCall, ErrorCode>,
    send: Result<SocketCall, ErrorCode>,
)
    requires
        call_ensures(UdpSocket::streams, (&socket, peer), streams),
        call_ensures(UdpSocket::address_family, (&socket,), family),
        call_ensures(UdpSocket::set_receive_buffer_size, (&socket, value), receive),
        call_ensures(UdpSocket::set_send_buffer_size, (&socket, value), send),
    ensures
        streams.0.inner == socket.inner && streams.1.inner == socket.inner,
        streams.0.remote_address == peer && streams.1.remote_address == peer,
        family == socket.family,
        value <= usize::MAX ==> receive is Ok && send is Ok,
        receive matches Ok(call) ==> (call matches SocketCall::SetReceiveBufferSize {
            socket: s,
            value: v,
        } && s == socket.inner && v == value),
        send matches Ok(call) ==> (call matches SocketCall::SetSendBufferSize {
            socket: s,
            value: v,
        } && s == socket.inner && v == value),
        receive matches Err(e) ==> e == ErrorCode::OutOfMemory,
        send matches Err(e) ==> e == ErrorCode::OutOfMemory,
{
}

/// An answer that is none of IPv6 is asked for as one of IPv4; any other answer
/// is the guest's.
pub proof fn law_hop_limits_fall_back_to_ipv4(
    platform: Platform,
    answer: Result<u8, i32>,
    told: SocketError,
    r: HopLimitStep<u8>,
)
    requires
        call_ensures(hop_limit_answered::<u8>, (&platform, answer), r),
        answer matches Err(n) ==> call_ensures(
            crate::errno::Errnos::socket_errno,
            (&platform.errnos, n),
            told,
        ),
    ensures
        r is TryIpv4 <==> answer == Err::<u8, i32>(platform.errnos.noprotoopt),
        answer matches Ok(value) ==> r == HopLimitStep::Done(Ok::<u8, SocketError>(value)),
        answer is Err && !(r is TryIpv4) ==> r == HopLimitStep::Done(Err::<u8, SocketError>(told)),
{
}

/// Receiving begins with no datagram, and asks for one from its own socket until
/// it has as many as it was to receive.
pub proof fn law_receiving_asks_for_as_many_as_wanted(
    stream: IncomingDatagramStream,
    max_results: u64,
    begun: Receiving,
    receiving: Receiving,
    r: ReceiveStep,
)
    requires
        call_ensures(IncomingDatagramStream::receive, (&stream, max_results), begun),
        call_ensures(Receiving::next, (receiving,), r),
    ensures
        begun.stream == stream,
        begun.max_results == max_results,
        begun.datagrams@.len() == 0,
        receiving.datagrams@.len() < receiving.max_results ==> {
            &&& r matches ReceiveStep::Attempt(call, then)
            &&& call == (SocketCall::ReceiveFrom { socket: receiving.stream.inner })
            &&& then@ == receiving@
        },
        receiving.datagrams@.len() >= receiving.max_results ==> {
            &&& r matches ReceiveStep::Done(Ok(datagrams))
            &&& datagrams@ == receiving.datagrams@
        },
{
    assert(begun@.stream == begun.stream);
    assert(begun@.max_results == begun.max_results);
    assert(begun@.datagrams == begun.datagrams@);
}

/// A datagram that was received is handed on with its bytes and where it came
/// from, behind those before it. From another than the peer, where there is
/// one, none is taken: there is nothing to receive then. A failure ends the
/// receiving, and is told where nothing was received before it.
pub proof fn law_received_datagrams_are_kept(
    receiving: Receiving,
    platform: Platform,
    received: Received,
    told: SocketError,
    r: ReceiveStep,
)
    requires
        receiving.datagrams@.len() < receiving.max_results,
        call_ensures(Receiving::received, (receiving, &platform, received), r),
        received matches Err(e) ==> call_ensures(
            crate::errno::Errnos::socket_error,
            (&platform.errnos, e),
            told,
        ),
    ensures
        ({
            let before = receiving.datagrams@;
            let after: Option<Seq<IncomingDatagram>> = match r {
                ReceiveStep::Attempt(_, then) => Some(then.datagrams@),
                ReceiveStep::Done(Ok(datagrams)) => Some(datagrams@),
                ReceiveStep::Done(Err(_)) => None,
            };
            let peer = receiving.stream.remote_address;
            match received {
                Ok((data, from)) => if peer is None || peer == Some(from) {
                    &&& after matches Some(datagrams)
                    &&& datagrams.len() == before.len() + 1
                    &&& datagrams.drop_last() == before
                    &&& datagrams.last().data == data
                    &&& datagrams.last().remote_address == from
                    &&& r is Attempt <==> datagrams.len() < receiving.max_results
                    &&& r matches ReceiveStep::Attempt(call, then) ==> {
                        &&& call == (SocketCall::ReceiveFrom { socket: receiving.stream.inner })
                        &&& then.stream == receiving.stream
                        &&& then.max_results == receiving.max_results
                    }
                } else if before.len() == 0 {
                    r matches ReceiveStep::Done(Err(e)) && e == SocketError::Code(
                        ErrorCode::WouldBlock,
                    )
                } else {
                    r is Done && after == Some(before)
                },
                Err(_) => if before.len() == 0 {
                    r matches ReceiveStep::Done(Err(e)) && e == told
                } else {
                    r is Done && after == Some(before)
                },
            }
        }),
{
    if let Ok((data, from)) = received {
        let datagram = IncomingDatagram { data, remote_address: from };
        assert(receiving.datagrams@.push(datagram).drop_last() =~= receiving.datagrams@);
    }
    if let ReceiveStep::Attempt(_, then) = r {
        assert(then@.datagrams == then.datagrams@);
        assert(then@.stream == then.stream);
        assert(then@.max_results == then.max_results);
    }
}

/// Sending begins with the first of the datagrams, none of which was sent. Each
/// goes to the peer, or to where it says itself; where these are two different
/// places, or where there is neither, it goes nowhere, and sending ends: that is
/// a failure where nothing was sent before.
pub proof fn law_datagrams_go_where_they_say(
    stream: OutgoingDatagramStream,
    datagrams: Vec<OutgoingDatagram>,
    begun: Sending,
    sending: Sending,
    r: SendStep,
)
    requires
        call_ensures(OutgoingDatagramStream::send, (&stream, datagrams), begun),
        sending.is_valid(),
        call_ensures(Sending::next, (&sending,), r),
    ensures
        begun.stream == stream && begun.datagrams == datagrams && begun.count == 0,
        sending.count >= sending.datagrams@.len() ==> r == SendStep::Done(
            Ok::<u64, SocketError>(sending.count as u64),
        ),
        sending.count < sending.datagrams@.len() ==> {
            let peer = sending.stream.remote_address;
            let own = sending.datagrams@[sending.count as int].remote_address;
            let clear = peer is Some && own is Some && peer == own || peer is Some && own is None
                || peer is None && own is Some;
            &&& clear ==> (r matches SendStep::SendTo(i, to) && i == sending.count && (peer == Some(
                to,
            ) || own == Some(to)) && (peer is Some ==> peer == Some(to)))
            &&& !clear && sending.count == 0 ==> r == SendStep::Done(
                Err::<u64, SocketError>(SocketError::Code(ErrorCode::InvalidArgument)),
            )
            &&& !clear && sending.count > 0 ==> r == SendStep::Done(
                Ok::<u64, SocketError>(sending.count as u64),
            )
        },
{
}

/// A datagram that was sent is counted, and the next one's turn comes. A
/// failure ends the sending: it is told where nothing was sent before, and
/// otherwise how much was.
pub proof fn law_sent_datagrams_are_counted(
    sending: &mut Sending,
    platform: Platform,
    outcome: Result<(), IoError>,
    told: SocketError,
    advanced: Sending,
    next: SendStep,
    r: SendStep,
)
    requires
        old(sending).is_valid(),
        old(sending).count < old(sending).datagrams@.len(),
        call_ensures(Sending::sent, (sending, &platform, outcome), r),
        outcome matches Err(e) ==> call_ensures(
            crate::errno::Errnos::socket_error,
            (&platform.errnos, e),
            told,
        ),
        advanced.stream == old(sending).stream,
        advanced.datagrams == old(sending).datagrams,
        advanced.count == old(sending).count + 1,
        call_ensures(Sending::next, (&advanced,), next),
    ensures
        outcome is Ok ==> *final(sending) == advanced && r == next,
        outcome is Err ==> {
            &&& *final(sending) == *old(sending)
            &&& r == SendStep::Done(
                if old(sending).count > 0 {
                    Ok::<u64, SocketError>(old(sending).count as u64)
                } else {
                    Err(told)
                },
            )
        },
{
    assert(old(sending).advanced() == advanced);
}

} // verus!
