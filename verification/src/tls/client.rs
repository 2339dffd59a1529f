//! TLS clients.
use crate::error::{replace, Failure, IoErrorKind, Polled, StreamError};
use crate::streams::adapter::{InputStreamReader, IoStreamState, OutputStreamReader};
use crate::streams::read::{AsyncReadStream, ReadStateView};
use crate::streams::shared::{SharedAsyncWriteStream, SharedAsyncWriteStreamHandle, Shutdown};
use crate::streams::Task;
use crate::table;
use crate::table::{Entry, InputStream, Key, OutputStream, TableError};
use rustls::pki_types::ServerName;
use vstd::prelude::*;
use wasmtime::component::ResourceTable;

verus! {

/// How much is read at once.
pub const MAX_READ: usize = 1048576;

/// How much may be written at once.
pub const MAX_WRITE: usize = 1048576;

/// Why a TLS handshake failed.
#[derive(Debug, PartialEq, Eq)]
pub enum TlsError {
    /// The component should trap. Under normal circumstances, this only occurs
    /// when the underlying transport stream returns [`StreamError::Trap`].
    Trap(TrapReason),
    /// A failure indicated by the underlying transport stream as
    /// [`StreamError::LastOperationFailed`].
    Io(Failure),
    /// A TLS protocol error occurred.
    Tls(String),
}

/// Why a component traps: what is said of it, and what was behind it, where
/// that is another error.
#[derive(Debug, PartialEq, Eq)]
pub struct TrapReason {
    pub message: String,
    pub cause: Option<String>,
}

/// An error that ended a handshake: its kind, and what it was made of.
#[derive(Debug, PartialEq, Eq)]
pub struct HandshakeError {
    pub kind: IoErrorKind,
    pub cause: HandshakeCause,
}

#[derive(Debug, PartialEq, Eq)]
pub enum HandshakeCause {
    /// An error of the transport.
    Stream(StreamError),
    /// An error of the TLS protocol, with its description.
    Tls(String),
    /// Anything else, with its description.
    Other(String),
}

impl TlsError {
    /// `self` is a protocol error with the given description.
    pub open spec fn is_msg(self, msg: Seq<char>) -> bool {
        self matches TlsError::Tls(m) && m@ == msg
    }

    /// Create a [`TlsError::Tls`] error from a simple message.
    pub fn msg(msg: &str) -> (r: TlsError)
        ensures
            r.is_msg(msg@),
    {
        TlsError::Tls(msg.to_owned())
    }

    /// What an error that ended a handshake means. An unexpected end of the
    /// transport is an error, to prevent truncation attacks. The end of a
    /// stream is no error to the transport, so it is none here.
    pub fn from_handshake(error: HandshakeError) -> (r: TlsError)
        requires
            error.kind == IoErrorKind::BrokenPipe || error.kind == IoErrorKind::UnexpectedEof
                || error.cause != HandshakeCause::Stream(StreamError::Closed),
        ensures
            if error.kind == IoErrorKind::BrokenPipe || error.kind == IoErrorKind::UnexpectedEof {
                r.is_msg("underlying transport closed abruptly"@)
            } else {
                match error.cause {
                    HandshakeCause::Stream(StreamError::LastOperationFailed(e)) => r
                        == TlsError::Io(e),
                    HandshakeCause::Stream(StreamError::Trap(e)) => r == TlsError::Trap(
                        TrapReason { message: e, cause: None },
                    ),
                    HandshakeCause::Stream(StreamError::Closed) => true,
                    HandshakeCause::Tls(e) => r == TlsError::Tls(e),
                    HandshakeCause::Other(e) => r matches TlsError::Trap(reason)
                        && reason.message@ == "unknown wasi-tls error"@ && reason.cause == Some(e),
                }
            },
    {
        if error.kind == IoErrorKind::BrokenPipe || error.kind == IoErrorKind::UnexpectedEof {
            return TlsError::msg("underlying transport closed abruptly");
        }
        match error.cause {
            // Errors from underlying transport.
            HandshakeCause::Stream(StreamError::LastOperationFailed(e)) => TlsError::Io(e),
            HandshakeCause::Stream(StreamError::Trap(e)) => TlsError::Trap(
                TrapReason { message: e, cause: None },
            ),
            // Errors of the protocol.
            HandshakeCause::Tls(e) => TlsError::Tls(e),
            // All errors should have been handled by the clauses above.
            HandshakeCause::Other(e) => TlsError::Trap(
                TrapReason { message: "unknown wasi-tls error".to_owned(), cause: Some(e) },
            ),
            HandshakeCause::Stream(StreamError::Closed) => TlsError::Trap(
                TrapReason { message: "unknown wasi-tls error".to_owned(), cause: None },
            ),
        }
    }
}

/// What `ServerName::try_from` says of a string: it is the name of a server,
/// be it a DNS name or an IP address.
pub uninterp spec fn is_server_name(name: Seq<char>) -> bool;

/// `rustls::pki_types::ServerName::try_from`, on a string: whether it is
/// accepted depends on the string alone.
#[verifier::external_body]
pub(crate) fn parses_as_server_name(name: &str) -> (r: bool)
    ensures
        r == is_server_name(name@),
{
    ServerName::try_from(name).is_ok()
}

/// The bytes of a connection travel over these streams of the guest.
pub struct Transport {
    pub reader: InputStreamReader<InputStream>,
    pub writer: OutputStreamReader<OutputStream>,
}

/// Represents the handshake, before it is begun.
pub struct ClientHandShake {
    pub server_name: String,
    pub transport: Transport,
}

impl ClientHandShake {
    /// A handshake with a server, over the given streams.
    pub open spec fn over(self, name: String, input: InputStream, output: OutputStream) -> bool {
        &&& self.server_name == name
        &&& self.transport.reader.0 == IoStreamState::Ready(input)
        &&& self.transport.writer.0 == IoStreamState::Ready(output)
    }

    /// Begins the handshake: with which server, over which transport. A string
    /// that names no server ends it at once.
    pub fn connect(self) -> (r: Result<(String, Transport), TlsError>)
        ensures
            if is_server_name(self.server_name@) {
                r == Ok::<(String, Transport), TlsError>((self.server_name, self.transport))
            } else {
                r matches Err(e) && e.is_msg("invalid server name"@)
            },
    {
        if !parses_as_server_name(self.server_name.as_str()) {
            return Err(TlsError::msg("invalid server name"));
        }
        Ok((self.server_name, self.transport))
    }
}

#[derive(Debug, PartialEq, Eq)]
pub enum FutureState<T> {
    /// A task makes it.
    Pending(Task),
    Ready(T),
    /// It was taken.
    Consumed,
}

/// Future streams provides the tls streams after the handshake is completed
#[derive(Debug, PartialEq, Eq)]
pub struct FutureStreams<T>(pub FutureState<Result<T, TlsError>>);

/// The two halves of a connection that was made.
#[derive(Clone, Copy, Debug, PartialEq, Eq, Structural)]
pub struct TlsHalves {
    pub rx: u64,
    pub tx: u64,
}

pub type FutureClientStreams = FutureStreams<TlsHalves>;

impl<T> FutureStreams<T> {
    /// Polls for the streams to be there. `task` is what polling the task, if
    /// there is one, came to; that it is not done changes nothing, however
    /// often it is found.
    pub fn ready(&mut self, task: Polled<Result<T, TlsError>>) -> (r: Polled<()>)
        ensures
            match (old(self).0, task) {
                (FutureState::Pending(_), Polled::Pending) => {
                    r == Polled::<()>::Pending && *final(self) == *old(self)
                },
                (FutureState::Pending(_), Polled::Ready(result)) => {
                    &&& r == Polled::Ready(())
                    &&& final(self).0 == FutureState::Ready(result)
                },
                _ => r == Polled::Ready(()) && *final(self) == *old(self),
            },
    {
        if let FutureState::Pending(_) = self.0 {
            match task {
                Polled::Pending => return Polled::Pending,
                Polled::Ready(result) => {
                    self.0 = FutureState::Ready(result);
                },
            }
        }
        Polled::Ready(())
    }
}

/// Represents the client connection and used to shut down the tls stream
pub struct ClientConnection {
    pub writer: SharedAsyncWriteStreamHandle<u64>,
}

/// Why the guest is stopped.
#[derive(Debug, PartialEq, Eq)]
pub enum TlsTrap {
    Table(TableError),
    Handshake(TrapReason),
}

/// What the guest gets for a handshake: nothing while it goes on; an error
/// where it was taken before; otherwise the connection with its two streams,
/// or what went wrong.
pub type Streams = Option<Result<Result<(Key, Key, Key), Key>, ()>>;

/// The input stream that is taken out of the table; or why none is.
pub open spec fn takeable_input(table: ResourceTable, key: Key) -> Result<InputStream, TableError> {
    match table::takeable(table, key) {
        Ok(Entry::InputStream(stream)) => Ok(stream),
        Ok(_) => Err(TableError::WrongType),
        Err(e) => Err(e),
    }
}

/// The output stream that is taken out of the table; or why none is.
pub open spec fn takeable_output(table: ResourceTable, key: Key) -> Result<
    OutputStream,
    TableError,
> {
    match table::takeable(table, key) {
        Ok(Entry::OutputStream(stream)) => Ok(stream),
        Ok(_) => Err(TableError::WrongType),
        Err(e) => Err(e),
    }
}

/// The handshake that is taken out of the table; or why none is.
pub open spec fn takeable_handshake(table: ResourceTable, key: Key) -> Result<
    ClientHandShake,
    TableError,
> {
    match table::takeable(table, key) {
        Ok(Entry::ClientHandShake(handshake)) => Ok(handshake),
        Ok(_) => Err(TableError::WrongType),
        Err(e) => Err(e),
    }
}

/// A handshake over `input` and `output` was stored; or the table is full.
pub open spec fn handshake_stored(
    before: ResourceTable,
    name: String,
    input: InputStream,
    output: OutputStream,
    r: Result<Key, TableError>,
    after: ResourceTable,
) -> bool {
    exists|handshake: ClientHandShake|
        {
            &&& #[trigger] table::push_result(before, Entry::ClientHandShake(handshake), r, after)
            &&& handshake.over(name, input, output)
        }
}

/// What making a handshake out of two streams comes to: both are taken out of
/// the table, the input first, and then it is stored.
pub open spec fn handshake_made(
    before: ResourceTable,
    name: String,
    input: Key,
    output: Key,
    r: Result<Key, TableError>,
    after: ResourceTable,
) -> bool {
    match takeable_input(before, input) {
        Err(e) => {
            &&& r == Err::<Key, TableError>(e)
            &&& table::taken(before, input, after)
        },
        Ok(i) => exists|mid: ResourceTable|
            {
                &&& #[trigger] table::taken(before, input, mid)
                &&& match takeable_output(mid, output) {
                    Err(e) => {
                        &&& r == Err::<Key, TableError>(e)
                        &&& table::taken(mid, output, after)
                    },
                    Ok(o) => exists|ready: ResourceTable|
                        {
                            &&& #[trigger] table::taken(mid, output, ready)
                            &&& handshake_stored(ready, name, i, o, r, after)
                        },
                }
            },
    }
}

/// Wasi TLS context needed for internal `wasi-tls` state
pub struct WasiTlsCtx<'a> {
    pub table: &'a mut ResourceTable,
}

impl<'a> WasiTlsCtx<'a> {
    /// Create a new Wasi TLS context
    pub fn new(table: &'a mut ResourceTable) -> (r: WasiTlsCtx<'a>)
        ensures
            *r.table == *old(table),
            *final(r.table) == *final(table),
    {
        WasiTlsCtx { table }
    }

    /// Makes a handshake out of two streams, which are taken out of the table.
    pub fn new_handshake(&mut self, server_name: String, input: Key, output: Key) -> (r: Result<
        Key,
        TableError,
    >)
        ensures
            handshake_made(
                *old(self).table,
                server_name,
                input,
                output,
                r,
                *final(self).table,
            ),
    {
        let input: InputStream = match table::delete(self.table, input)? {
            Entry::InputStream(stream) => stream,
            _ => return Err(TableError::WrongType),
        };
        let ghost mid = *self.table;
        let output: OutputStream = match table::delete(self.table, output)? {
            Entry::OutputStream(stream) => stream,
            _ => return Err(TableError::WrongType),
        };
        let ghost ready = *self.table;
        let handshake = ClientHandShake {
            server_name,
            transport: Transport {
                reader: InputStreamReader::new(input),
                writer: OutputStreamReader::new(output),
            },
        };
        table::push(self.table, Entry::ClientHandShake(handshake))
    }

    /// Takes a handshake out of the table, to be carried out by a task that
    /// begins with [`ClientHandShake::connect`].
    pub fn finish(&mut self, this: Key) -> (r: Result<ClientHandShake, TableError>)
        ensures
            r == takeable_handshake(*old(self).table, this),
            table::taken(*old(self).table, this, *final(self).table),
    {
        match table::delete(self.table, this)? {
            Entry::ClientHandShake(handshake) => Ok(handshake),
            _ => Err(TableError::WrongType),
        }
    }

    /// The task carries the handshake out: the guest gets its future streams.
    pub fn finish_spawned(&mut self, task: Task) -> (r: Result<Key, TableError>)
        ensures
            table::push_result(
                *old(self).table,
                Entry::FutureClientStreams(FutureStreams(FutureState::Pending(task))),
                r,
                *final(self).table,
            ),
    {
        table::push(
            self.table,
            Entry::FutureClientStreams(FutureStreams(FutureState::Pending(task))),
        )
    }

    /// Gives the guest what a handshake has come to, once.
    pub fn get(&mut self, this: Key) -> (r: Result<Streams, TlsTrap>)
        ensures
            get_result(*old(self).table, this, r, *final(self).table),
    {
        let state: FutureState<Result<TlsHalves, TlsError>> = match table::get_mut(
            self.table,
            this,
        ) {
            Err(e) => return Err(TlsTrap::Table(e)),
            Ok(entry) => match entry {
                Entry::FutureClientStreams(future) => {
                    match future.0 {
                        FutureState::Pending(_) => {
                            assert(table::entries(*self.table) =~= table::entries(
                                *old(self).table,
                            ));
                            return Ok(None);
                        },
                        FutureState::Consumed => {
                            assert(table::entries(*self.table) =~= table::entries(
                                *old(self).table,
                            ));
                            return Ok(Some(Err(())));
                        },
                        FutureState::Ready(_) => {},
                    }
                    replace(&mut future.0, FutureState::Consumed)
                },
                _ => {
                    assert(table::entries(*self.table) =~= table::entries(*old(self).table));
                    return Err(TlsTrap::Table(TableError::WrongType));
                },
            },
        };
        let ghost mid = *self.table;
        assert(table::replaced(
            *old(self).table,
            this,
            Entry::FutureClientStreams(FutureStreams(FutureState::Consumed)),
            mid,
        ));
        let result: Result<TlsHalves, TlsError> = match state {
            FutureState::Ready(result) => result,
            _ => return Ok(Some(Err(()))),
        };
        let halves: TlsHalves = match result {
            Ok(halves) => halves,
            Err(TlsError::Trap(reason)) => return Err(TlsTrap::Handshake(reason)),
            Err(TlsError::Io(e)) => return self.push_error(e),
            Err(TlsError::Tls(m)) => return self.push_error(Failure::Tls(m)),
        };
        let input: AsyncReadStream<u64> = AsyncReadStream::new(MAX_READ, halves.rx);
        let output: SharedAsyncWriteStream<u64> = SharedAsyncWriteStream::new(MAX_WRITE, halves.tx);
        let client = ClientConnection { writer: output.handle() };
        assert(is_connection(client, input, output, halves));
        match table::push_family(
            self.table,
            Entry::ClientConnection(client),
            Entry::InputStream(InputStream::Async(input)),
            Entry::OutputStream(OutputStream::Shared(output)),
        ) {
            Ok(keys) => Ok(Some(Ok(Ok(keys)))),
            Err(e) => Err(TlsTrap::Table(e)),
        }
    }

    fn push_error(&mut self, failure: Failure) -> (r: Result<Streams, TlsTrap>)
        ensures
            error_stored(*old(self).table, failure, r, *final(self).table),
    {
        match table::push(self.table, Entry::Error(failure)) {
            Ok(key) => Ok(Some(Ok(Err(key)))),
            Err(e) => Err(TlsTrap::Table(e)),
        }
    }
}

/// An error was stored for the guest; or the table is full.
pub open spec fn error_stored(
    before: ResourceTable,
    failure: Failure,
    r: Result<Streams, TlsTrap>,
    after: ResourceTable,
) -> bool {
    match r {
        Ok(Some(Ok(Err(key)))) => table::push_result(before, Entry::Error(failure), Ok(key), after),
        Err(TlsTrap::Table(e)) => table::push_result(before, Entry::Error(failure), Err(e), after),
        _ => false,
    }
}

/// The connection and its two streams are those over the two halves: what
/// shuts the connection down has the stream that the guest writes to.
pub open spec fn is_connection(
    client: ClientConnection,
    input: AsyncReadStream<u64>,
    output: SharedAsyncWriteStream<u64>,
    halves: TlsHalves,
) -> bool {
    &&& input.state@ == ReadStateView::Ready(halves.rx, Seq::empty())
    &&& input.max_read == MAX_READ
    &&& output.is_made(MAX_WRITE, halves.tx)
    &&& client.writer.shared() == output.shared()
}

/// A connection was stored for the guest, with its two streams as its
/// children; or the table is full.
pub open spec fn streams_stored(
    before: ResourceTable,
    halves: TlsHalves,
    r: Result<Streams, TlsTrap>,
    after: ResourceTable,
) -> bool {
    exists|
        client: ClientConnection,
        input: AsyncReadStream<u64>,
        output: SharedAsyncWriteStream<u64>,
    |
        {
            &&& #[trigger] is_connection(client, input, output, halves)
            &&& match r {
                Ok(Some(Ok(Ok(keys)))) => table::push_family_result(
                    before,
                    Entry::ClientConnection(client),
                    Entry::InputStream(InputStream::Async(input)),
                    Entry::OutputStream(OutputStream::Shared(output)),
                    Ok(keys),
                    after,
                ),
                Err(TlsTrap::Table(e)) => table::push_family_result(
                    before,
                    Entry::ClientConnection(client),
                    Entry::InputStream(InputStream::Async(input)),
                    Entry::OutputStream(OutputStream::Shared(output)),
                    Err(e),
                    after,
                ),
                _ => false,
            }
        }
}

/// What asking for the streams of a handshake comes to.
pub open spec fn get_result(
    before: ResourceTable,
    this: Key,
    r: Result<Streams, TlsTrap>,
    after: ResourceTable,
) -> bool {
    match table::lookup(before, this) {
        Err(e) => {
            r == Err::<Streams, TlsTrap>(TlsTrap::Table(e)) && table::unchanged(before, after)
        },
        Ok(Entry::FutureClientStreams(future)) => match future.0 {
            FutureState::Pending(_) => {
                r == Ok::<Streams, TlsTrap>(None) && table::unchanged(before, after)
            },
            FutureState::Consumed => {
                r == Ok::<Streams, TlsTrap>(Some(Err(()))) && table::unchanged(before, after)
            },
            FutureState::Ready(result) => exists|mid: ResourceTable|
                {
                    &&& #[trigger] table::replaced(
                        before,
                        this,
                        Entry::FutureClientStreams(FutureStreams(FutureState::Consumed)),
                        mid,
                    )
                    &&& match result {
                        Err(TlsError::Trap(reason)) => {
                            &&& r == Err::<Streams, TlsTrap>(TlsTrap::Handshake(reason))
                            &&& after == mid
                        },
                        Err(TlsError::Io(e)) => error_stored(mid, e, r, after),
                        Err(TlsError::Tls(m)) => error_stored(mid, Failure::Tls(m), r, after),
                        Ok(halves) => streams_stored(mid, halves, r, after),
                    }
                },
        },
        Ok(_) => {
            &&& r == Err::<Streams, TlsTrap>(TlsTrap::Table(TableError::WrongType))
            &&& table::unchanged(before, after)
        },
    }
}

/// Begins to shut a connection's output down: see
/// [`SharedAsyncWriteStreamHandle::shutdown`].
pub fn close_output(table: &ResourceTable, this: Key) -> (r: Result<Shutdown<'_, u64>, TableError>)
    ensures
        match table::lookup(*table, this) {
            Ok(Entry::ClientConnection(client)) => r matches Ok(shutdown)
                && client.writer.shuts_down(shutdown),
            Ok(_) => r matches Err(e) && e == TableError::WrongType,
            Err(e) => r matches Err(f) && f == e,
        },
{
    match table::get(table, this) {
        Ok(Entry::ClientConnection(client)) => Ok(client.writer.shutdown()),
        Ok(_) => Err(TableError::WrongType),
        Err(e) => Err(e),
    }
}

/// What a handshake came to can be had once: whatever the guest was told of it,
/// or stopped with, asking again tells it that the streams were taken, and
/// changes nothing.
pub proof fn law_streams_are_given_once(
    before: ResourceTable,
    this: Key,
    future: FutureClientStreams,
    first: Result<Streams, TlsTrap>,
    mid: ResourceTable,
    again: Result<Streams, TlsTrap>,
    after: ResourceTable,
)
    requires
        table::lookup(before, this) == Ok::<Entry, TableError>(Entry::FutureClientStreams(future)),
        !(future.0 is Pending),
        get_result(before, this, first, mid),
        get_result(mid, this, again, after),
    ensures
        again == Ok::<Streams, TlsTrap>(Some(Err(()))),
        table::unchanged(mid, after),
{
}

/// An error that ended a handshake is told as what it is: what the transport
/// handed to the guest stays that, a trap stays a trap, and an error of the
/// protocol is told in its own words. A transport that broke off is an error of
/// the protocol; anything else is a trap, which keeps what was behind it.
pub proof fn law_handshake_errors_are_told_as_what_they_are(
    error: HandshakeError,
    r: TlsError,
    text: &str,
    message: TlsError,
)
    requires
        error.kind == IoErrorKind::BrokenPipe || error.kind == IoErrorKind::UnexpectedEof
            || error.cause != HandshakeCause::Stream(StreamError::Closed),
        call_ensures(TlsError::from_handshake, (error,), r),
        call_ensures(TlsError::msg, (text,), message),
    ensures
        message matches TlsError::Tls(m) && m@ == text@,
        error.kind == IoErrorKind::BrokenPipe || error.kind == IoErrorKind::UnexpectedEof ==> (
        r matches TlsError::Tls(m) && m@ == "underlying transport closed abruptly"@),
        error.kind != IoErrorKind::BrokenPipe && error.kind != IoErrorKind::UnexpectedEof ==> {
            &&& error.cause matches HandshakeCause::Stream(StreamError::LastOperationFailed(e))
                ==> r == TlsError::Io(e)
            &&& error.cause matches HandshakeCause::Stream(StreamError::Trap(e)) ==> (
            r matches TlsError::Trap(reason) && reason.message == e && reason.cause is None)
            &&& error.cause matches HandshakeCause::Tls(e) ==> r == TlsError::Tls(e)
            &&& error.cause matches HandshakeCause::Other(e) ==> (r matches TlsError::Trap(reason)
                && reason.message@ == "unknown wasi-tls error"@ && reason.cause == Some(e))
        },
{
}

/// A handshake begins with the server that it was made for, over the transport
/// that it was made of, where the name is that of a server at all.
pub proof fn law_handshakes_are_with_their_server(
    handshake: ClientHandShake,
    r: Result<(String, Transport), TlsError>,
)
    requires
        call_ensures(ClientHandShake::connect, (handshake,), r),
    ensures
        r is Ok <==> is_server_name(handshake.server_name@),
        r matches Ok((name, transport)) ==> name == handshake.server_name && transport
            == handshake.transport,
        r matches Err(e) ==> (e matches TlsError::Tls(m) && m@ == "invalid server name"@),
{
}

/// Future streams become what their task comes to, once, and are ready then;
/// while the task is at work they are not, and what is there already stays.
pub proof fn law_future_streams_become_what_the_task_comes_to(
    future: &mut FutureStreams<u64>,
    task: Polled<Result<u64, TlsError>>,
    r: Polled<()>,
)
    requires
        call_ensures(FutureStreams::<u64>::ready, (future, task), r),
    ensures
        r is Pending <==> old(future).0 is Pending && task is Pending,
        old(future).0 is Pending ==> (task matches Polled::Ready(result) ==> final(future).0
            == FutureState::Ready(result)),
        task is Pending || !(old(future).0 is Pending) ==> *final(future) == *old(future),
{
}

/// A handshake is made of the two streams under the keys that are given, one to
/// read from and one to write to, and of the name of its server. Both are taken
/// out of the table. It is found under the key that the guest gets.
pub proof fn law_handshakes_are_made_of_the_two_streams(
    ctx: &mut WasiTlsCtx<'_>,
    server_name: String,
    input: Key,
    output: Key,
    r: Result<Key, TableError>,
)
    requires
        call_ensures(WasiTlsCtx::new_handshake, (ctx, server_name, input, output), r),
    ensures
        r matches Ok(key) ==> {
            &&& table::lookup(*old(ctx).table, input) matches Ok(Entry::InputStream(i))
            &&& table::lookup(*old(ctx).table, output) matches Ok(Entry::OutputStream(o))
            &&& table::lookup(*final(ctx).table, key) matches Ok(Entry::ClientHandShake(handshake))
            &&& handshake.server_name == server_name
            &&& handshake.transport.reader.0 == IoStreamState::Ready(i)
            &&& handshake.transport.writer.0 == IoStreamState::Ready(o)
            &&& input != key ==> table::lookup(*final(ctx).table, input) is Err
            &&& output != key ==> table::lookup(*final(ctx).table, output) is Err
        },
        (table::lookup(*old(ctx).table, input) matches Ok(Entry::InputStream(_))) && (table::lookup(
            *old(ctx).table,
            output,
        ) matches Ok(Entry::OutputStream(_))) && !table::has_children(*old(ctx).table, input)
            && !table::has_children(*old(ctx).table, output) ==> r is Ok || r == Err::<Key, _>(
            TableError::Full,
        ),
        !(table::lookup(*old(ctx).table, input) matches Ok(Entry::InputStream(_))) ==> r is Err,
        !(table::lookup(*old(ctx).table, output) matches Ok(Entry::OutputStream(_))) ==> r is Err,
{
    assert forall|before: ResourceTable, key: Key, after: ResourceTable, other: Key| #[trigger]
        table::removed(before, key, after) && #[trigger] table::has_children(
            after,
            other,
        ) implies table::has_children(before, other) by {
        let child = choose|child: Key| #[trigger] table::is_child(after, child, other);
        assert(table::is_child(before, child, other));
    }
}

/// A handshake is taken out of the table where it is one, to be carried out, and
/// the streams that it will give are found under the key that the guest gets,
/// as long as its task is at work.
pub proof fn law_handshakes_are_carried_out(
    ctx: &mut WasiTlsCtx<'_>,
    this: Key,
    r: Result<ClientHandShake, TableError>,
    spawned: &mut WasiTlsCtx<'_>,
    task: Task,
    s: Result<Key, TableError>,
)
    requires
        call_ensures(WasiTlsCtx::finish, (ctx, this), r),
        call_ensures(WasiTlsCtx::finish_spawned, (spawned, task), s),
    ensures
        r matches Ok(handshake) ==> {
            &&& table::lookup(*old(ctx).table, this) == Ok::<_, TableError>(
                Entry::ClientHandShake(handshake),
            )
            &&& table::lookup(*final(ctx).table, this) is Err
        },
        (table::lookup(*old(ctx).table, this) matches Ok(Entry::ClientHandShake(_)))
            && !table::has_children(*old(ctx).table, this) ==> r is Ok,
        s is Ok <==> !table::is_full(*old(spawned).table),
        s matches Ok(key) ==> {
            &&& table::lookup(*old(spawned).table, key) is Err
            &&& table::lookup(*final(spawned).table, key) matches Ok(
                Entry::FutureClientStreams(future),
            )
            &&& future.0 == FutureState::<Result<TlsHalves, TlsError>>::Pending(task)
        },
{
}

/// A handshake that has ended well gives the guest the connection and its two
/// streams, in this order: one that reads from the half that is read, and one
/// that writes to the half that is written and is the one that closing the
/// connection shuts down. The streams are children of the connection. One that
/// has failed gives the failure, or stops the guest; either is given once.
pub proof fn law_tls_streams_are_over_their_halves(
    ctx: &mut WasiTlsCtx<'_>,
    this: Key,
    future: FutureClientStreams,
    r: Result<Streams, TlsTrap>,
)
    requires
        call_ensures(WasiTlsCtx::get, (ctx, this), r),
        table::lookup(*old(ctx).table, this) == Ok::<_, TableError>(
            Entry::FutureClientStreams(future),
        ),
    ensures
        r matches Ok(Some(Ok(Ok((c, i, o))))) ==> {
            &&& future.0 matches FutureState::Ready(Ok(halves))
            &&& c != i && c != o && i != o
            &&& table::lookup(*final(ctx).table, c) matches Ok(Entry::ClientConnection(connection))
            &&& table::lookup(*final(ctx).table, i) matches Ok(
                Entry::InputStream(InputStream::Async(input)),
            )
            &&& (input.state@ matches ReadStateView::Ready(io, held) && io == halves.rx
                && held.len() == 0)
            &&& input.max_read == 1048576
            &&& table::lookup(*final(ctx).table, o) matches Ok(
                Entry::OutputStream(OutputStream::Shared(output)),
            )
            &&& output.is_made(1048576, halves.tx)
            &&& connection.writer.shared() == output.shared()
            &&& table::is_child(*final(ctx).table, i, c) && table::is_child(
                *final(ctx).table,
                o,
                c,
            )
        },
        r matches Ok(Some(Ok(Err(key)))) ==> {
            &&& table::lookup(*final(ctx).table, key) matches Ok(Entry::Error(failure))
            &&& match future.0 {
                FutureState::Ready(Err(TlsError::Io(e))) => failure == e,
                FutureState::Ready(Err(TlsError::Tls(m))) => failure == Failure::Tls(m),
                _ => false,
            }
        },
        match future.0 {
            FutureState::Pending(_) => r == Ok::<Streams, TlsTrap>(None) && table::unchanged(
                *old(ctx).table,
                *final(ctx).table,
            ),
            FutureState::Consumed => (r matches Ok(Some(Err(_)))) && table::unchanged(
                *old(ctx).table,
                *final(ctx).table,
            ),
            FutureState::Ready(Err(TlsError::Trap(reason))) => {
                &&& r == Err::<Streams, TlsTrap>(TlsTrap::Handshake(reason))
                &&& table::lookup(*final(ctx).table, this) matches Ok(
                    Entry::FutureClientStreams(after),
                ) && after.0 is Consumed
            },
            FutureState::Ready(Ok(_)) => (r matches Ok(Some(Ok(Ok(_)))))
                || (r matches Err(TlsTrap::Table(_))),
            FutureState::Ready(Err(_)) => (r matches Ok(Some(Ok(Err(_)))))
                || (r matches Err(TlsTrap::Table(_))),
        },
{
    if let Ok(Some(Ok(Ok((c, i, o))))) = r {
        if let FutureState::Ready(Ok(halves)) = future.0 {
            let end = *final(ctx).table;
            let mid = choose|mid: ResourceTable|
                {
                    &&& #[trigger] table::replaced(
                        *old(ctx).table,
                        this,
                        Entry::FutureClientStreams(FutureStreams(FutureState::Consumed)),
                        mid,
                    )
                    &&& streams_stored(mid, halves, r, end)
                };
            let (client, input, output) = choose|
                client: ClientConnection,
                input: AsyncReadStream<u64>,
                output: SharedAsyncWriteStream<u64>,
            |
                {
                    &&& #[trigger] is_connection(client, input, output, halves)
                    &&& table::push_family_result(
                        mid,
                        Entry::ClientConnection(client),
                        Entry::InputStream(InputStream::Async(input)),
                        Entry::OutputStream(OutputStream::Shared(output)),
                        Ok((c, i, o)),
                        end,
                    )
                };
            lemma_family_is_found(
                mid,
                c,
                Entry::ClientConnection(client),
                i,
                Entry::InputStream(InputStream::Async(input)),
                o,
                Entry::OutputStream(OutputStream::Shared(output)),
                end,
            );
        }
    }
}

/// What was stored together is found: see [`table::law_families_are_found`].
pub(crate) proof fn lemma_family_is_found(
    before: ResourceTable,
    key: Key,
    entry: Entry,
    a: Key,
    first: Entry,
    b: Key,
    second: Entry,
    after: ResourceTable,
)
    requires
        table::push_family_result(before, entry, first, second, Ok((key, a, b)), after),
    ensures
        key != a && key != b && a != b,
        table::lookup(after, key) == Ok::<Entry, TableError>(entry),
        table::lookup(after, a) == Ok::<Entry, TableError>(first),
        table::lookup(after, b) == Ok::<Entry, TableError>(second),
        table::is_child(after, a, key),
        table::is_child(after, b, key),
        forall|other: Key|
            other != key && other != a && other != b ==> #[trigger] table::lookup(after, other)
                == table::lookup(before, other),
{
    let mid = choose|mid: ResourceTable|
        {
            &&& #[trigger] table::pushed(before, key, entry, mid)
            &&& table::pushed_pair(mid, a, first, b, second, key, after)
        };
    assert(table::entries(mid).contains_key(key));
}

/// Closing the output of a connection shuts down the stream that the connection
/// writes to; another resource, or none, is refused.
pub proof fn law_closing_is_of_the_connections_stream(
    table: ResourceTable,
    this: Key,
    r: Result<Shutdown<'_, u64>, TableError>,
)
    requires
        call_ensures(close_output, (&table, this), r),
    ensures
        r is Ok <==> table::lookup(table, this) matches Ok(Entry::ClientConnection(_)),
        r matches Ok(shutdown) ==> {
            &&& table::lookup(table, this) matches Ok(Entry::ClientConnection(client))
            &&& shutdown.guard.held() == client.writer.shared()
            &&& shutdown.step is Try <==> shutdown.guard.stream.state is Ready
        },
        r matches Err(e) ==> match table::lookup(table, this) {
            Ok(_) => e == TableError::WrongType,
            Err(f) => e == f,
        },
{
}

/// Another resource than the one that is asked for, or none, is refused as that;
/// the input of a handshake comes before its output.
pub proof fn law_other_resources_are_refused(
    making: &mut WasiTlsCtx<'_>,
    finishing: &mut WasiTlsCtx<'_>,
    getting: &mut WasiTlsCtx<'_>,
    server_name: String,
    this: Key,
    output: Key,
    a: Result<Key, TableError>,
    b: Result<ClientHandShake, TableError>,
    c: Result<Streams, TlsTrap>,
)
    requires
        call_ensures(WasiTlsCtx::new_handshake, (making, server_name, this, output), a),
        call_ensures(WasiTlsCtx::finish, (finishing, this), b),
        call_ensures(WasiTlsCtx::get, (getting, this), c),
    ensures
        !(table::lookup(*old(making).table, this) matches Ok(Entry::InputStream(_))) ==> a == Err::<
            Key,
            _,
        >(table::refusal_to_take(*old(making).table, this)),
        table::has_children(*old(making).table, this) && table::entries(
            *old(making).table,
        ).contains_key(this) ==> a == Err::<Key, _>(TableError::HasChildren),
        !(table::lookup(*old(finishing).table, this) matches Ok(Entry::ClientHandShake(_))) ==> b
            == Err::<ClientHandShake, _>(table::refusal_to_take(*old(finishing).table, this)),
        !(table::lookup(*old(getting).table, this) matches Ok(Entry::FutureClientStreams(_)))
            ==> c == Err::<Streams, _>(
            TlsTrap::Table(table::refusal(table::lookup(*old(getting).table, this))),
        ) && table::unchanged(*old(getting).table, *final(getting).table),
{
}

} // verus!
