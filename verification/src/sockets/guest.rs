//! Blocking operations, as a guest makes them out of those that do not block.
use super::address::{IpAddressFamily, IpSocketAddress};
use super::errors::{ErrorCode, SocketError};
use super::tcp::TcpSocket;
use crate::errno::Platform;
use crate::error::IoError;
use vstd::prelude::*;

verus! {

/// Names a socket of the guest.
pub type Fd = u32;

/// Names a network of the guest.
pub type NetworkFd = u32;

/// Names something that the guest can wait for.
pub type Pollable = u32;

/// Names an input stream of the guest.
pub type InputStream = u32;

/// Names an output stream of the guest.
pub type OutputStream = u32;

/// One call of the guest on its host.
#[derive(Clone, Copy, Debug, PartialEq, Eq)]
pub enum HostCall {
    CreateTcpSocket(IpAddressFamily),
    DropTcpSocket(Fd),
    SubscribeSocket(Fd),
    SubscribeOutput(OutputStream),
    /// Wait for the pollable; tells whether it is ready.
    PollOneoff(Pollable),
    DropPollable(Pollable),
    StartBind { socket: Fd, network: NetworkFd, address: IpSocketAddress },
    FinishBind(Fd),
    StartListen(Fd),
    FinishListen(Fd),
    StartConnect { socket: Fd, network: NetworkFd, address: IpSocketAddress },
    FinishConnect(Fd),
    Accept(Fd),
    CheckWrite(OutputStream),
    /// Write the bytes from the first index up to the second.
    Write(OutputStream, usize, usize),
    BlockingFlush(OutputStream),
}

/// Something that is waited for.
#[derive(Clone, Copy, Debug, PartialEq, Eq, Structural)]
pub struct Subscription {
    pub pollable: Pollable,
}

impl Subscription {
    pub fn new(pollable: Pollable) -> (r: Subscription)
        ensures
            r == (Subscription { pollable }),
    {
        Subscription { pollable }
    }

    /// Waits until the pollable is ready: the call to make, or nothing once
    /// the last one told that it is.
    pub fn wait(&self, polled: Option<bool>) -> (r: Option<HostCall>)
        ensures
            r == if polled == Some(true) {
                None
            } else {
                Some(HostCall::PollOneoff(self.pollable))
            },
    {
        match polled {
            Some(true) => None,
            _ => Some(HostCall::PollOneoff(self.pollable)),
        }
    }

    /// What is to be called once there is nothing more to wait for.
    pub fn close(self) -> (r: HostCall)
        ensures
            r == HostCall::DropPollable(self.pollable),
    {
        HostCall::DropPollable(self.pollable)
    }
}

/// What the host has replied.
#[derive(Debug, PartialEq, Eq)]
pub enum Reply<T> {
    /// Nothing: nothing was called yet.
    Begin,
    /// To a subscription.
    Subscribed(Pollable),
    /// To a start.
    Started(Result<(), ErrorCode>),
    /// To a finish.
    Finished(Result<T, ErrorCode>),
    /// To a wait.
    Polled(bool),
}

/// How a blocking operation goes on.
#[derive(Debug, PartialEq, Eq)]
pub enum Step<T> {
    /// Make the call, and go on with the reply.
    Call(HostCall),
    /// This is the result.
    Return(Result<T, ErrorCode>),
}

/// A blocking operation: what is started is finished, once it can be.
#[derive(Clone, Copy, Debug, PartialEq, Eq)]
pub struct Procedure {
    pub socket: Fd,
    /// What starts the operation, where anything has to.
    pub start: Option<HostCall>,
    /// What finishes it, or tells that it cannot be yet.
    pub finish: HostCall,
    /// What is waited for meanwhile. It is made first of all, so that nothing
    /// is missed.
    pub subscription: Option<Subscription>,
}

impl Procedure {
    /// How the operation goes on with a reply.
    pub open spec fn reply<T>(self, reply: Reply<T>) -> Step<T> {
        match reply {
            Reply::Begin => Step::Call(HostCall::SubscribeSocket(self.socket)),
            Reply::Subscribed(_) => Step::Call(
                match self.start {
                    Some(start) => start,
                    None => self.finish,
                },
            ),
            Reply::Started(Ok(_)) => Step::Call(self.finish),
            Reply::Started(Err(e)) => Step::Return(Err(e)),
            Reply::Finished(Err(ErrorCode::WouldBlock)) => Step::Call(
                HostCall::PollOneoff(self.subscription->Some_0.pollable),
            ),
            Reply::Finished(result) => Step::Return(result),
            Reply::Polled(ready) => Step::Call(
                if ready {
                    self.finish
                } else {
                    HostCall::PollOneoff(self.subscription->Some_0.pollable)
                },
            ),
        }
    }

    /// The operation once it has gone on with a reply.
    pub open spec fn after<T>(self, reply: Reply<T>) -> Procedure {
        match reply {
            Reply::Subscribed(pollable) => Procedure {
                subscription: Some(Subscription { pollable }),
                ..self
            },
            _ => self,
        }
    }

    /// How the operation goes on with a reply.
    pub fn go_on<T>(&mut self, reply: Reply<T>) -> (r: Step<T>)
        requires
            !(reply is Begin || reply is Subscribed) ==> old(self).subscription is Some,
        ensures
            r == old(self).reply(reply),
            *final(self) == old(self).after(reply),
    {
        match reply {
            Reply::Begin => Step::Call(HostCall::SubscribeSocket(self.socket)),
            Reply::Subscribed(pollable) => {
                self.subscription = Some(Subscription::new(pollable));
                match self.start {
                    Some(start) => Step::Call(start),
                    None => Step::Call(self.finish),
                }
            },
            Reply::Started(Ok(())) => Step::Call(self.finish),
            Reply::Started(Err(e)) => Step::Return(Err(e)),
            Reply::Finished(Err(ErrorCode::WouldBlock)) => Step::Call(self.waits(None)),
            Reply::Finished(result) => Step::Return(result),
            Reply::Polled(ready) => Step::Call(self.waits(Some(ready))),
        }
    }

    /// Waits for the subscription, and finishes once it is ready.
    fn waits(&self, polled: Option<bool>) -> (r: HostCall)
        requires
            self.subscription is Some,
        ensures
            r == if polled == Some(true) {
                self.finish
            } else {
                HostCall::PollOneoff(self.subscription->Some_0.pollable)
            },
    {
        match self.subscription {
            Some(subscription) => match subscription.wait(polled) {
                Some(call) => call,
                None => self.finish,
            },
            None => self.finish,
        }
    }
}

/// A TCP socket of the guest.
#[derive(Clone, Copy, Debug, PartialEq, Eq, Structural)]
pub struct TcpSock {
    pub fd: Fd,
}

impl TcpSock {
    /// What makes a socket that [`TcpSock::new`] takes in.
    pub fn create(address_family: IpAddressFamily) -> (r: HostCall)
        ensures
            r == HostCall::CreateTcpSocket(address_family),
    {
        HostCall::CreateTcpSocket(address_family)
    }

    pub fn new(created: Result<Fd, ErrorCode>) -> (r: Result<TcpSock, ErrorCode>)
        ensures
            r == match created {
                Ok(fd) => Ok::<TcpSock, ErrorCode>(TcpSock { fd }),
                Err(e) => Err(e),
            },
    {
        Ok(TcpSock { fd: created? })
    }

    pub fn bind(&self, network: NetworkFd, local_address: IpSocketAddress) -> (r: Procedure)
        ensures
            r == (Procedure {
                socket: self.fd,
                start: Some(
                    HostCall::StartBind { socket: self.fd, network, address: local_address },
                ),
                finish: HostCall::FinishBind(self.fd),
                subscription: None,
            }),
    {
        Procedure {
            socket: self.fd,
            start: Some(HostCall::StartBind { socket: self.fd, network, address: local_address }),
            finish: HostCall::FinishBind(self.fd),
            subscription: None,
        }
    }

    pub fn listen(&self) -> (r: Procedure)
        ensures
            r == (Procedure {
                socket: self.fd,
                start: Some(HostCall::StartListen(self.fd)),
                finish: HostCall::FinishListen(self.fd),
                subscription: None,
            }),
    {
        Procedure {
            socket: self.fd,
            start: Some(HostCall::StartListen(self.fd)),
            finish: HostCall::FinishListen(self.fd),
            subscription: None,
        }
    }

    pub fn connect(&self, network: NetworkFd, remote_address: IpSocketAddress) -> (r: Procedure)
        ensures
            r == (Procedure {
                socket: self.fd,
                start: Some(
                    HostCall::StartConnect { socket: self.fd, network, address: remote_address },
                ),
                finish: HostCall::FinishConnect(self.fd),
                subscription: None,
            }),
    {
        Procedure {
            socket: self.fd,
            start: Some(
                HostCall::StartConnect { socket: self.fd, network, address: remote_address },
            ),
            finish: HostCall::FinishConnect(self.fd),
            subscription: None,
        }
    }

    /// Nothing has to be started to accept a connection.
    pub fn accept(&self) -> (r: Procedure)
        ensures
            r == (Procedure {
                socket: self.fd,
                start: None,
                finish: HostCall::Accept(self.fd),
                subscription: None,
            }),
    {
        Procedure {
            socket: self.fd,
            start: None,
            finish: HostCall::Accept(self.fd),
            subscription: None,
        }
    }

    /// What accepting has returned: a socket of its own, with its streams.
    pub fn accepted(result: Result<(Fd, InputStream, OutputStream), ErrorCode>) -> (r: Result<
        (TcpSock, InputStream, OutputStream),
        ErrorCode,
    >)
        ensures
            r == match result {
                Ok((fd, input, output)) => Ok::<(TcpSock, InputStream, OutputStream), ErrorCode>(
                    (TcpSock { fd }, input, output),
                ),
                Err(e) => Err(e),
            },
    {
        match result {
            Ok((fd, input, output)) => Ok((TcpSock { fd }, input, output)),
            Err(e) => Err(e),
        }
    }

    /// What is to be called once the socket is not needed any more.
    pub fn close(self) -> (r: HostCall)
        ensures
            r == HostCall::DropTcpSocket(self.fd),
    {
        HostCall::DropTcpSocket(self.fd)
    }
}

/// That an operation has to wait is never its result: it is waited for, and
/// the operation is finished again. Any other answer is the result.
pub proof fn law_finishing_waits<T>(procedure: Procedure, result: Result<T, ErrorCode>)
    requires
        procedure.subscription is Some,
    ensures
        ({
            let wait = Step::<T>::Call(
                HostCall::PollOneoff(procedure.subscription->Some_0.pollable),
            );
            let again = Step::<T>::Call(procedure.finish);
            &&& procedure.after(Reply::Finished(result)) == procedure
            &&& procedure.reply(Reply::Finished(result)) == if result == Err::<T, ErrorCode>(
                ErrorCode::WouldBlock,
            ) {
                wait
            } else {
                Step::Return(result)
            }
            &&& procedure.reply(Reply::<T>::Polled(false)) == wait
            &&& procedure.reply(Reply::<T>::Polled(true)) == again
        }),
{
}

/// Where the operating system does not bind a socket because the address is
/// in use, a guest that binds it learns just that, and the operation is over.
/// Whether an address is in use is for the operating system to say; its number
/// for that must be none of another error.
pub proof fn law_address_in_use_is_told(
    binding: Procedure,
    platform: Platform,
    e: IoError,
)
    requires
        platform.is(e, platform.errnos.addrinuse),
        ({
            let errnos = platform.errnos;
            let number = errnos.addrinuse;
            &&& number != errnos.afnosupport
            &&& number != errnos.wouldblock
            &&& number != errnos.again
            &&& number != errnos.intr
            &&& number != errnos.access
            &&& number != errnos.perm
        }),
    ensures
        TcpSocket::bind_failure(platform, e) == SocketError::Code(ErrorCode::AddressInUse),
        binding.reply(Reply::<()>::Started(Err(ErrorCode::AddressInUse))) == Step::<()>::Return(
            Err(ErrorCode::AddressInUse),
        ),
{
}

#[derive(Clone, Copy, Debug, PartialEq, Eq, Structural)]
pub enum StreamStatus {
    Open,
    Ended,
}

/// What the host has replied to a call for a write.
#[derive(Clone, Copy, Debug, PartialEq, Eq)]
pub enum WriteReply {
    /// Nothing: nothing was called yet.
    Begin,
    /// To a subscription.
    Subscribed(Pollable),
    /// To a wait.
    Polled(bool),
    /// To a check: how many bytes may be written, where the stream is open.
    /// As much of the number is taken as fits the guest's memory.
    Checked(Result<u64, ()>),
    /// To a write.
    Written(Result<(), ()>),
    /// To a flush.
    Flushed(Result<(), ()>),
}

/// How a write goes on.
#[derive(Clone, Copy, Debug, PartialEq, Eq)]
pub enum WriteStep {
    /// Make the call, and go on with the reply.
    Call(HostCall),
    /// How many bytes were written, and whether the stream is still open.
    Return(usize, StreamStatus),
}

/// A write that waits for the stream as often as it has to.
#[derive(Clone, Copy, Debug, PartialEq, Eq, Structural)]
pub struct Writing {
    pub output: OutputStream,
    /// How many bytes there are.
    pub total: usize,
    /// How many of them were written and flushed.
    pub written: usize,
    /// How many of the next are being written.
    pub chunk: usize,
    pub subscription: Option<Subscription>,
}

/// Writes the bytes to the stream.
pub fn write(output: OutputStream, bytes: &[u8]) -> (r: Writing)
    ensures
        r == (Writing {
            output,
            total: bytes@.len() as usize,
            written: 0,
            chunk: 0,
            subscription: None,
        }),
        r.total == bytes@.len(),
        r.is_valid(),
{
    Writing { output, total: bytes.len(), written: 0, chunk: 0, subscription: None }
}

impl Writing {
    /// No byte is written that is not there.
    pub open spec fn is_valid(self) -> bool {
        self.written + self.chunk <= self.total
    }

    /// Begins with the next bytes, if there are any.
    pub open spec fn next(self) -> WriteStep {
        if self.written < self.total {
            WriteStep::Call(HostCall::PollOneoff(self.subscription->Some_0.pollable))
        } else {
            WriteStep::Return(self.total, StreamStatus::Open)
        }
    }

    /// How the write goes on with a reply.
    pub open spec fn reply(self, reply: WriteReply) -> WriteStep {
        match reply {
            WriteReply::Begin => WriteStep::Call(HostCall::SubscribeOutput(self.output)),
            WriteReply::Subscribed(_) => self.after(reply).next(),
            WriteReply::Polled(ready) => WriteStep::Call(
                if ready {
                    HostCall::CheckWrite(self.output)
                } else {
                    HostCall::PollOneoff(self.subscription->Some_0.pollable)
                },
            ),
            WriteReply::Checked(Ok(_)) => WriteStep::Call(
                HostCall::Write(
                    self.output,
                    self.written,
                    (self.written + self.after(reply).chunk) as usize,
                ),
            ),
            WriteReply::Written(Ok(_)) => WriteStep::Call(HostCall::BlockingFlush(self.output)),
            WriteReply::Flushed(Ok(_)) => self.after(reply).next(),
            WriteReply::Checked(Err(_))
            | WriteReply::Written(Err(_))
            | WriteReply::Flushed(Err(_)) => WriteStep::Return(self.written, StreamStatus::Ended),
        }
    }

    /// The write once it has gone on with a reply.
    pub open spec fn after(self, reply: WriteReply) -> Writing {
        match reply {
            WriteReply::Subscribed(pollable) => Writing {
                subscription: Some(Subscription { pollable }),
                ..self
            },
            WriteReply::Checked(Ok(permit)) => Writing {
                chunk: if self.total - self.written <= permit as usize {
                    (self.total - self.written) as usize
                } else {
                    permit as usize
                },
                ..self
            },
            WriteReply::Flushed(Ok(_)) => Writing {
                written: (self.written + self.chunk) as usize,
                chunk: 0,
                ..self
            },
            _ => self,
        }
    }

    /// How the write goes on with a reply.
    pub fn go_on(&mut self, reply: WriteReply) -> (r: WriteStep)
        requires
            old(self).is_valid(),
            !(reply is Begin || reply is Subscribed) ==> old(self).subscription is Some,
        ensures
            r == old(self).reply(reply),
            *final(self) == old(self).after(reply),
            final(self).is_valid(),
    {
        match reply {
            WriteReply::Begin => WriteStep::Call(HostCall::SubscribeOutput(self.output)),
            WriteReply::Subscribed(pollable) => {
                self.subscription = Some(Subscription::new(pollable));
                self.waits(None)
            },
            WriteReply::Polled(ready) => match self.subscription {
                Some(subscription) => match subscription.wait(Some(ready)) {
                    Some(call) => WriteStep::Call(call),
                    None => WriteStep::Call(HostCall::CheckWrite(self.output)),
                },
                None => WriteStep::Call(HostCall::CheckWrite(self.output)),
            },
            WriteReply::Checked(Ok(permit)) => {
                let rest: usize = self.total - self.written;
                let permit: usize = permit as usize;
                let len: usize = if rest <= permit {
                    rest
                } else {
                    permit
                };
                self.chunk = len;
                WriteStep::Call(HostCall::Write(self.output, self.written, self.written + len))
            },
            WriteReply::Written(Ok(())) => WriteStep::Call(HostCall::BlockingFlush(self.output)),
            WriteReply::Flushed(Ok(())) => {
                self.written = self.written + self.chunk;
                self.chunk = 0;
                self.waits(None)
            },
            WriteReply::Checked(Err(()))
            | WriteReply::Written(Err(()))
            | WriteReply::Flushed(Err(())) => WriteStep::Return(self.written, StreamStatus::Ended),
        }
    }

    fn waits(&self, polled: Option<bool>) -> (r: WriteStep)
        requires
            self.subscription is Some,
            polled is None,
        ensures
            r == self.next(),
    {
        if self.written < self.total {
            match self.subscription {
                Some(subscription) => match subscription.wait(polled) {
                    Some(call) => return WriteStep::Call(call),
                    None => {},
                },
                None => {},
            }
        }
        WriteStep::Return(self.total, StreamStatus::Open)
    }
}

/// What one round of a write makes of a permit: how many bytes it writes.
pub open spec fn round(writing: Writing, permit: u64) -> Writing {
    writing.after(WriteReply::Checked(Ok(permit))).after(WriteReply::Written(Ok(()))).after(
        WriteReply::Flushed(Ok(())),
    )
}

/// The write, after a round for each of the permits.
pub open spec fn rounds(writing: Writing, permits: Seq<u64>) -> Writing
    decreases permits.len(),
{
    if permits.len() == 0 {
        writing
    } else {
        round(rounds(writing, permits.drop_last()), permits.last())
    }
}

/// How many bytes the permits allow altogether.
pub open spec fn allowance(permits: Seq<u64>) -> nat
    decreases permits.len(),
{
    if permits.len() == 0 {
        0
    } else {
        allowance(permits.drop_last()) + permits.last() as nat
    }
}

/// Whatever the stream permits, as far as memory can hold it, each byte is
/// written once and in order, and no more than there are: after any number of
/// rounds as many are written as were permitted, or all of them, and only then
/// has the write ended.
pub proof fn law_write_is_in_order(writing: Writing, permits: Seq<u64>)
    requires
        writing.is_valid(),
        writing.written == 0,
        writing.chunk == 0,
        writing.subscription is Some,
        forall|i: int| 0 <= i < permits.len() ==> #[trigger] permits[i] <= usize::MAX,
    ensures
        ({
            let after = rounds(writing, permits);
            &&& after.is_valid()
            &&& after.chunk == 0
            &&& after.total == writing.total
            &&& after.subscription == writing.subscription
            &&& after.written == vstd::math::min(
                writing.total as int,
                allowance(permits) as int,
            )
            &&& after.next() is Return <==> allowance(permits) >= writing.total
        }),
    decreases permits.len(),
{
    if permits.len() > 0 {
        assert(permits.last() <= usize::MAX);
        law_write_is_in_order(writing, permits.drop_last());
    }
}

/// What is waited for is waited for until it is ready, and is the very thing
/// that was given; so is what is dropped then.
pub proof fn law_subscriptions_wait_for_what_was_given(
    pollable: Pollable,
    made: Subscription,
    subscription: Subscription,
    polled: Option<bool>,
    waited: Option<HostCall>,
    closed: HostCall,
)
    requires
        call_ensures(Subscription::new, (pollable,), made),
        call_ensures(Subscription::wait, (&subscription, polled), waited),
        call_ensures(Subscription::close, (subscription,), closed),
    ensures
        made.pollable == pollable,
        waited is None <==> polled == Some(true),
        waited matches Some(call) ==> call == HostCall::PollOneoff(subscription.pollable),
        closed == HostCall::DropPollable(subscription.pollable),
{
}

/// A blocking operation is made of the calls for its own kind, on its own
/// socket, with the network and the address that are given; to accept, nothing
/// has to be started. None has anything to wait for when it begins.
pub proof fn law_operations_are_made_of_their_calls(
    sock: TcpSock,
    network: NetworkFd,
    address: IpSocketAddress,
    family: IpAddressFamily,
    bind: Procedure,
    listen: Procedure,
    connect: Procedure,
    accept: Procedure,
    created: HostCall,
    closed: HostCall,
)
    requires
        call_ensures(TcpSock::bind, (&sock, network, address), bind),
        call_ensures(TcpSock::listen, (&sock,), listen),
        call_ensures(TcpSock::connect, (&sock, network, address), connect),
        call_ensures(TcpSock::accept, (&sock,), accept),
        call_ensures(TcpSock::create, (family,), created),
        call_ensures(TcpSock::close, (sock,), closed),
    ensures
        bind.socket == sock.fd && listen.socket == sock.fd && connect.socket == sock.fd
            && accept.socket == sock.fd,
        bind.subscription is None && listen.subscription is None && connect.subscription is None
            && accept.subscription is None,
        bind.start == Some(HostCall::StartBind { socket: sock.fd, network, address }),
        bind.finish == HostCall::FinishBind(sock.fd),
        listen.start == Some(HostCall::StartListen(sock.fd)),
        listen.finish == HostCall::FinishListen(sock.fd),
        connect.start == Some(HostCall::StartConnect { socket: sock.fd, network, address }),
        connect.finish == HostCall::FinishConnect(sock.fd),
        accept.start is None,
        accept.finish == HostCall::Accept(sock.fd),
        created == HostCall::CreateTcpSocket(family),
        closed == HostCall::DropTcpSocket(sock.fd),
{
}

/// Sockets and streams that the host hands out are the guest's as they are, and
/// its errors are told as they are.
pub proof fn law_handed_out_sockets(
    created: Result<Fd, ErrorCode>,
    made: Result<TcpSock, ErrorCode>,
    result: Result<(Fd, InputStream, OutputStream), ErrorCode>,
    accepted: Result<(TcpSock, InputStream, OutputStream), ErrorCode>,
)
    requires
        call_ensures(TcpSock::new, (created,), made),
        call_ensures(TcpSock::accepted, (result,), accepted),
    ensures
        created matches Ok(fd) ==> (made matches Ok(sock) && sock.fd == fd),
        created matches Err(e) ==> made == Err::<TcpSock, _>(e),
        result matches Ok((fd, i, o)) ==> (accepted matches Ok((sock, input, output)) && sock.fd
            == fd && input == i && output == o),
        result matches Err(e) ==> accepted == Err::<(TcpSock, InputStream, OutputStream), _>(e),
{
}

/// A blocking operation first subscribes to its socket, then starts, where it
/// has to, and then finishes; while that is not possible it waits for what it
/// has subscribed to, and finishes again once that is ready. An answer to the
/// start that is an error ends it, as does any answer to the finish but that it
/// would block: that is its result.
pub proof fn law_operations_go_on(
    procedure: &mut Procedure,
    reply: Reply<u64>,
    r: Step<u64>,
)
    requires
        !(reply is Begin || reply is Subscribed) ==> old(procedure).subscription is Some,
        call_ensures(Procedure::go_on::<u64>, (procedure, reply), r),
    ensures
        final(procedure).socket == old(procedure).socket,
        final(procedure).start == old(procedure).start,
        final(procedure).finish == old(procedure).finish,
        reply matches Reply::Subscribed(pollable) ==> (
        final(procedure).subscription matches Some(s) && s.pollable == pollable),
        !(reply is Subscribed) ==> final(procedure).subscription == old(procedure).subscription,
        ({
            let wait = HostCall::PollOneoff(old(procedure).subscription->Some_0.pollable);
            match reply {
                Reply::Begin => r == Step::<u64>::Call(
                    HostCall::SubscribeSocket(old(procedure).socket),
                ),
                Reply::Subscribed(_) => match old(procedure).start {
                    Some(start) => r == Step::<u64>::Call(start),
                    None => r == Step::<u64>::Call(old(procedure).finish),
                },
                Reply::Started(Ok(_)) => r == Step::<u64>::Call(old(procedure).finish),
                Reply::Started(Err(e)) => r == Step::Return(Err::<u64, _>(e)),
                Reply::Finished(result) => if result == Err::<u64, _>(ErrorCode::WouldBlock) {
                    r == Step::<u64>::Call(wait)
                } else {
                    r == Step::Return(result)
                },
                Reply::Polled(ready) => r == Step::<u64>::Call(
                    if ready {
                        old(procedure).finish
                    } else {
                        wait
                    },
                ),
            }
        }),
{
}

/// A write is of all of the bytes, to the stream that is given, and has written
/// none when it begins.
pub proof fn law_writes_begin_with_nothing_written(output: OutputStream, bytes: &[u8], r: Writing)
    requires
        call_ensures(write, (output, bytes), r),
    ensures
        r.output == output,
        r.total == bytes@.len(),
        r.written == 0,
        r.chunk == 0,
        r.subscription is None,
{
}

/// A write goes round: it waits for its stream, asks how much may be written,
/// writes the next bytes, as many as may be and as there are, and has them
/// flushed; then they are written, and it goes on with those behind them. When
/// all are written it is over, and the stream open; where the stream has ended
/// meanwhile, it is over with as many as were written and flushed.
pub proof fn law_writes_go_on(writing: &mut Writing, reply: WriteReply, r: WriteStep)
    requires
        old(writing).is_valid(),
        !(reply is Begin || reply is Subscribed) ==> old(writing).subscription is Some,
        call_ensures(Writing::go_on, (writing, reply), r),
    ensures
        final(writing).output == old(writing).output,
        final(writing).total == old(writing).total,
        final(writing).written + final(writing).chunk <= final(writing).total,
        !(reply matches WriteReply::Flushed(Ok(_))) ==> final(writing).written == old(
            writing,
        ).written,
        ({
            let output = old(writing).output;
            let wait = |subscription: Option<Subscription>|
                WriteStep::Call(HostCall::PollOneoff(subscription->Some_0.pollable));
            let turn = if final(writing).written < final(writing).total {
                wait(final(writing).subscription)
            } else {
                WriteStep::Return(final(writing).total, StreamStatus::Open)
            };
            match reply {
                WriteReply::Begin => {
                    &&& r == WriteStep::Call(HostCall::SubscribeOutput(output))
                    &&& *final(writing) == *old(writing)
                },
                WriteReply::Subscribed(pollable) => {
                    &&& final(writing).subscription matches Some(s) && s.pollable == pollable
                    &&& r == turn
                },
                WriteReply::Polled(true) => r == WriteStep::Call(HostCall::CheckWrite(output)),
                WriteReply::Polled(false) => r == wait(old(writing).subscription),
                WriteReply::Checked(Ok(permit)) => {
                    &&& r matches WriteStep::Call(HostCall::Write(to, from, end))
                    &&& to == output
                    &&& from == old(writing).written
                    &&& end == from + final(writing).chunk
                    &&& permit <= usize::MAX ==> final(writing).chunk <= permit
                    &&& permit <= usize::MAX && final(writing).chunk < permit ==> end == old(
                        writing,
                    ).total
                },
                WriteReply::Written(Ok(_)) => {
                    &&& r == WriteStep::Call(HostCall::BlockingFlush(output))
                    &&& *final(writing) == *old(writing)
                },
                WriteReply::Flushed(Ok(_)) => {
                    &&& final(writing).written == old(writing).written + old(writing).chunk
                    &&& final(writing).chunk == 0
                    &&& r == turn
                },
                WriteReply::Checked(Err(_))
                | WriteReply::Written(Err(_))
                | WriteReply::Flushed(Err(_)) => r == WriteStep::Return(
                    old(writing).written,
                    StreamStatus::Ended,
                ),
            }
        }),
{
}

} // verus!
