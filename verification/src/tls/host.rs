//! TLS clients whose streams stay in the table while a handshake uses them.
use super::client;
use super::writer::CloseNotify;
use crate::error::{replace, Failure, Polled, StreamError, StreamResult};
use crate::streams::adapter;
use crate::streams::Task;
use crate::table;
use crate::table::{Entry, InputStream, Key, OutputStream, TableError};
use bytes::Bytes;
use vstd::prelude::*;
use wasmtime::component::ResourceTable;

verus! {

/// Placeholder stream type that is substituted in place to keep the
/// parent<->child resource lifetime restrictions in tact.
#[derive(Clone, Copy, Debug, PartialEq, Eq, Structural)]
pub struct Tombstone;

/// The guest is stopped for using a stream that was taken away.
pub open spec fn is_consumed<T>(r: StreamResult<T>) -> bool {
    r matches Err(e) && e.is_trap("stream has been consumed"@)
}

fn consumed<T>() -> (r: StreamResult<T>)
    ensures
        is_consumed(r),
{
    Err(StreamError::trap("stream has been consumed"))
}

impl adapter::InputStream for Tombstone {
    open spec fn reads(before: Self, size: usize, r: StreamResult<Bytes>, after: Self) -> bool {
        is_consumed(r)
    }

    fn read(&mut self, _size: usize) -> (r: StreamResult<Bytes>) {
        consumed()
    }
}

impl adapter::OutputStream for Tombstone {
    open spec fn checks(before: Self, r: StreamResult<usize>, after: Self) -> bool {
        is_consumed(r)
    }

    open spec fn writes(before: Self, bytes: Bytes, r: StreamResult<()>, after: Self) -> bool {
        is_consumed(r)
    }

    open spec fn flushes(before: Self, r: StreamResult<()>, after: Self) -> bool {
        is_consumed(r)
    }

    fn check_write(&mut self) -> (r: StreamResult<usize>) {
        consumed()
    }

    fn write(&mut self, _bytes: Bytes) -> (r: StreamResult<()>) {
        consumed()
    }

    fn flush(&mut self) -> (r: StreamResult<()>) {
        consumed()
    }
}

/// Where the streams were that a handshake has taken.
#[derive(Clone, Copy, Debug, PartialEq, Eq, Structural)]
pub struct Tombstones {
    pub input: Key,
    pub output: Key,
}

/// What deleting both tombstones comes to. Where the first cannot be deleted,
/// the second is not.
pub open spec fn tombstones_deleted(
    before: ResourceTable,
    tombstones: Tombstones,
    r: Result<(), TableError>,
    after: ResourceTable,
) -> bool {
    match client::takeable_input(before, tombstones.input) {
        Err(e) => r == Err::<(), TableError>(e) && table::taken(before, tombstones.input, after),
        Ok(_) => exists|mid: ResourceTable|
            {
                &&& #[trigger] table::taken(before, tombstones.input, mid)
                &&& table::taken(mid, tombstones.output, after)
                &&& match client::takeable_output(mid, tombstones.output) {
                    Err(e) => r == Err::<(), TableError>(e),
                    Ok(_) => r is Ok,
                }
            },
    }
}

impl Tombstones {
    /// Deletes both.
    pub fn delete(self, table: &mut ResourceTable) -> (r: Result<(), TableError>)
        ensures
            tombstones_deleted(*old(table), self, r, *final(table)),
    {
        match table::delete(table, self.input) {
            Ok(Entry::InputStream(_)) => {},
            Ok(_) => return Err(TableError::WrongType),
            Err(e) => return Err(e),
        }
        let ghost mid = *table;
        assert(table::taken(*old(table), self.input, mid));
        match table::delete(table, self.output) {
            Ok(Entry::OutputStream(_)) => Ok(()),
            Ok(_) => Err(TableError::WrongType),
            Err(e) => Err(e),
        }
    }
}

/// A handshake, before it is begun.
pub struct ClientHandshake {
    pub tombstones: Tombstones,
    pub server_name: String,
    pub input: InputStream,
    pub output: OutputStream,
}

impl ClientHandshake {
    /// Begins the handshake, which then is carried out with its server over
    /// its streams. A string that names no server ends it at once, and nothing
    /// but the tombstones is left of it.
    pub fn connect(self) -> (r: Result<ClientHandshake, Tombstones>)
        ensures
            r == if client::is_server_name(self.server_name@) {
                Ok::<ClientHandshake, Tombstones>(self)
            } else {
                Err(self.tombstones)
            },
    {
        if client::parses_as_server_name(self.server_name.as_str()) {
            Ok(self)
        } else {
            Err(self.tombstones)
        }
    }
}

/// What a handshake has made: the two halves of the connection, the writing
/// one with what shares it, and what was negotiated.
#[derive(Clone, Copy, Debug, PartialEq, Eq, Structural)]
pub struct Connected {
    pub rx: u64,
    pub writer: u64,
    pub protocol_version: u16,
    pub cipher_suite: u16,
}

/// The streams that a handshake will give.
#[derive(Clone, Copy, Debug, PartialEq, Eq)]
pub enum FutureClientStreams {
    /// A task makes them.
    Pending(Tombstones, Task),
    Ready(Tombstones, Result<Connected, ()>),
    /// They were taken. The connection has the tombstones, where there is one.
    Consumed(Option<Tombstones>),
}

impl FutureClientStreams {
    /// What becomes of the streams once the task, if there is one, was polled.
    pub open spec fn polled(self, task: Polled<Result<Connected, ()>>) -> FutureClientStreams {
        match (self, task) {
            (FutureClientStreams::Pending(tombstones, _), Polled::Ready(result)) => {
                FutureClientStreams::Ready(tombstones, result)
            },
            _ => self,
        }
    }

    /// The tombstones, unless the connection has them.
    pub open spec fn tombstones(self) -> Option<Tombstones> {
        match self {
            FutureClientStreams::Pending(tombstones, _) => Some(tombstones),
            FutureClientStreams::Ready(tombstones, _) => Some(tombstones),
            FutureClientStreams::Consumed(tombstones) => tombstones,
        }
    }

    /// Waits for the handshake. `task` is what polling the task, if there is
    /// one, came to.
    pub fn ready(&mut self, task: Polled<Result<Connected, ()>>) -> (r: Polled<()>)
        ensures
            *final(self) == old(self).polled(task),
            r == if *final(self) is Pending {
                Polled::<()>::Pending
            } else {
                Polled::Ready(())
            },
    {
        if let FutureClientStreams::Pending(tombstones, _) = *self {
            match task {
                Polled::Pending => return Polled::Pending,
                Polled::Ready(result) => {
                    *self = FutureClientStreams::Ready(tombstones, result);
                },
            }
        }
        Polled::Ready(())
    }
}

/// A connection, while its streams are children of it.
#[derive(Clone, Copy, Debug, PartialEq, Eq, Structural)]
pub struct ClientConnection {
    pub tombstones: Tombstones,
    pub writer: u64,
    pub protocol_version: u16,
    pub cipher_suite: u16,
}

/// The input stream under a key.
pub open spec fn input_at(table: ResourceTable, key: Key) -> Result<InputStream, TableError> {
    match table::lookup(table, key) {
        Ok(Entry::InputStream(stream)) => Ok(stream),
        Ok(_) => Err(TableError::WrongType),
        Err(e) => Err(e),
    }
}

/// The output stream under a key.
pub open spec fn output_at(table: ResourceTable, key: Key) -> Result<OutputStream, TableError> {
    match table::lookup(table, key) {
        Ok(Entry::OutputStream(stream)) => Ok(stream),
        Ok(_) => Err(TableError::WrongType),
        Err(e) => Err(e),
    }
}

/// The connection under a key.
pub open spec fn connection_at(table: ResourceTable, key: Key) -> Result<
    ClientConnection,
    TableError,
> {
    match table::lookup(table, key) {
        Ok(Entry::Connection(connection)) => Ok(connection),
        Ok(_) => Err(TableError::WrongType),
        Err(e) => Err(e),
    }
}

fn bury_input(table: &mut ResourceTable, key: Key) -> (r: Result<InputStream, TableError>)
    ensures
        r == input_at(*old(table), key),
        match r {
            Ok(_) => table::replaced(
                *old(table),
                key,
                Entry::InputStream(InputStream::Tombstone),
                *final(table),
            ),
            Err(_) => table::unchanged(*old(table), *final(table)),
        },
{
    match table::get_mut(table, key) {
        Ok(entry) => match entry {
            Entry::InputStream(stream) => Ok(replace(stream, InputStream::Tombstone)),
            _ => {
                assert(table::entries(*table) =~= table::entries(*old(table)));
                Err(TableError::WrongType)
            },
        },
        Err(e) => Err(e),
    }
}

fn bury_output(table: &mut ResourceTable, key: Key) -> (r: Result<OutputStream, TableError>)
    ensures
        r == output_at(*old(table), key),
        match r {
            Ok(_) => table::replaced(
                *old(table),
                key,
                Entry::OutputStream(OutputStream::Tombstone),
                *final(table),
            ),
            Err(_) => table::unchanged(*old(table), *final(table)),
        },
{
    match table::get_mut(table, key) {
        Ok(entry) => match entry {
            Entry::OutputStream(stream) => Ok(replace(stream, OutputStream::Tombstone)),
            _ => {
                assert(table::entries(*table) =~= table::entries(*old(table)));
                Err(TableError::WrongType)
            },
        },
        Err(e) => Err(e),
    }
}

/// What making a handshake out of two streams comes to: a tombstone is put in
/// the place of each, of the input first, and then it is stored.
pub open spec fn handshake_made(
    before: ResourceTable,
    server_name: String,
    input: Key,
    output: Key,
    r: Result<Key, TableError>,
    after: ResourceTable,
) -> bool {
    match input_at(before, input) {
        Err(e) => {
            &&& r == Err::<Key, TableError>(e)
            &&& table::unchanged(before, after)
        },
        Ok(i) => exists|mid: ResourceTable|
            {
                &&& #[trigger] table::replaced(
                    before,
                    input,
                    Entry::InputStream(InputStream::Tombstone),
                    mid,
                )
                &&& match output_at(mid, output) {
                    Err(e) => {
                        &&& r == Err::<Key, TableError>(e)
                        &&& table::unchanged(mid, after)
                    },
                    Ok(o) => exists|buried: ResourceTable|
                        {
                            &&& #[trigger] table::replaced(
                                mid,
                                output,
                                Entry::OutputStream(OutputStream::Tombstone),
                                buried,
                            )
                            &&& table::push_result(
                                buried,
                                Entry::Handshake(
                                    ClientHandshake {
                                        tombstones: Tombstones { input, output },
                                        server_name,
                                        input: i,
                                        output: o,
                                    },
                                ),
                                r,
                                after,
                            )
                        },
                }
            },
    }
}

/// Makes a handshake out of two streams. They are taken out of the table, but
/// their keys are kept alive, so that they do not outlive what they are
/// children of.
pub fn new_handshake(table: &mut ResourceTable, server_name: String, input: Key, output: Key) -> (r:
    Result<Key, TableError>)
    ensures
        handshake_made(*old(table), server_name, input, output, r, *final(table)),
{
    let input_stream: InputStream = match bury_input(table, input) {
        Ok(stream) => stream,
        Err(e) => return Err(e),
    };
    let ghost mid = *table;
    assert(table::replaced(
        *old(table),
        input,
        Entry::InputStream(InputStream::Tombstone),
        mid,
    ));
    let output_stream: OutputStream = match bury_output(table, output) {
        Ok(stream) => stream,
        Err(e) => return Err(e),
    };
    let ghost buried = *table;
    assert(table::replaced(
        mid,
        output,
        Entry::OutputStream(OutputStream::Tombstone),
        buried,
    ));
    table::push(
        table,
        Entry::Handshake(
            ClientHandshake {
                tombstones: Tombstones { input, output },
                server_name,
                input: input_stream,
                output: output_stream,
            },
        ),
    )
}

/// The handshake that is taken out of the table; or why none is.
pub open spec fn takeable_handshake(table: ResourceTable, key: Key) -> Result<
    ClientHandshake,
    TableError,
> {
    match table::takeable(table, key) {
        Ok(Entry::Handshake(handshake)) => Ok(handshake),
        Ok(_) => Err(TableError::WrongType),
        Err(e) => Err(e),
    }
}

/// Takes a handshake out of the table, to be carried out by a task.
pub fn finish(table: &mut ResourceTable, this: Key) -> (r: Result<ClientHandshake, TableError>)
    ensures
        r == takeable_handshake(*old(table), this),
        table::taken(*old(table), this, *final(table)),
{
    match table::delete(table, this) {
        Ok(Entry::Handshake(handshake)) => Ok(handshake),
        Ok(_) => Err(TableError::WrongType),
        Err(e) => Err(e),
    }
}

/// The task carries the handshake out: the guest gets its future streams.
pub fn finish_spawned(table: &mut ResourceTable, tombstones: Tombstones, task: Task) -> (r: Result<
    Key,
    TableError,
>)
    ensures
        table::push_result(
            *old(table),
            Entry::HandshakeStreams(FutureClientStreams::Pending(tombstones, task)),
            r,
            *final(table),
        ),
{
    table::push(table, Entry::HandshakeStreams(FutureClientStreams::Pending(tombstones, task)))
}

/// What the guest gets for a handshake: nothing while it goes on; an error
/// where it was taken before; otherwise the connection with its two streams,
/// unless it has failed.
pub type Streams = Option<Result<Result<(Key, Key, Key), ()>, ()>>;

/// A connection was stored for the guest, with its two streams as its
/// children; or the table is full.
pub open spec fn connection_stored(
    before: ResourceTable,
    tombstones: Tombstones,
    connected: Connected,
    r: Result<Streams, TableError>,
    after: ResourceTable,
) -> bool {
    let client = Entry::Connection(
        ClientConnection {
            tombstones,
            writer: connected.writer,
            protocol_version: connected.protocol_version,
            cipher_suite: connected.cipher_suite,
        },
    );
    let first = Entry::InputStream(InputStream::Host(connected.rx));
    let second = Entry::OutputStream(OutputStream::Host(connected.writer));
    match r {
        Ok(Some(Ok(Ok(keys)))) => table::push_family_result(
            before,
            client,
            first,
            second,
            Ok(keys),
            after,
        ),
        Err(e) => table::push_family_result(before, client, first, second, Err(e), after),
        _ => false,
    }
}

/// What asking for the streams of a handshake comes to.
pub open spec fn get_result(
    before: ResourceTable,
    this: Key,
    r: Result<Streams, TableError>,
    after: ResourceTable,
) -> bool {
    match table::lookup(before, this) {
        Err(e) => r == Err::<Streams, TableError>(e) && table::unchanged(before, after),
        Ok(Entry::HandshakeStreams(future)) => match future {
            FutureClientStreams::Pending(..) => {
                r == Ok::<Streams, TableError>(None) && table::unchanged(before, after)
            },
            FutureClientStreams::Consumed(_) => {
                r == Ok::<Streams, TableError>(Some(Err(()))) && table::unchanged(before, after)
            },
            FutureClientStreams::Ready(tombstones, Err(_)) => {
                &&& r == Ok::<Streams, TableError>(Some(Ok(Err(()))))
                &&& table::replaced(
                    before,
                    this,
                    Entry::HandshakeStreams(FutureClientStreams::Consumed(Some(tombstones))),
                    after,
                )
            },
            FutureClientStreams::Ready(tombstones, Ok(connected)) => exists|mid: ResourceTable|
                {
                    &&& #[trigger] table::replaced(
                        before,
                        this,
                        Entry::HandshakeStreams(FutureClientStreams::Consumed(None)),
                        mid,
                    )
                    &&& connection_stored(mid, tombstones, connected, r, after)
                },
        },
        Ok(_) => {
            &&& r == Err::<Streams, TableError>(TableError::WrongType)
            &&& table::unchanged(before, after)
        },
    }
}

/// Gives the guest what a handshake has come to, once.
pub fn get(table: &mut ResourceTable, this: Key) -> (r: Result<Streams, TableError>)
    ensures
        get_result(*old(table), this, r, *final(table)),
{
    let (tombstones, connected): (Tombstones, Connected) = match table::get_mut(table, this) {
        Err(e) => return Err(e),
        Ok(entry) => match entry {
            Entry::HandshakeStreams(future) => match *future {
                FutureClientStreams::Pending(..) => {
                    assert(table::entries(*table) =~= table::entries(*old(table)));
                    return Ok(None);
                },
                FutureClientStreams::Consumed(_) => {
                    assert(table::entries(*table) =~= table::entries(*old(table)));
                    return Ok(Some(Err(())));
                },
                FutureClientStreams::Ready(tombstones, Err(())) => {
                    *future = FutureClientStreams::Consumed(Some(tombstones));
                    return Ok(Some(Ok(Err(()))));
                },
                FutureClientStreams::Ready(tombstones, Ok(connected)) => {
                    *future = FutureClientStreams::Consumed(None);
                    (tombstones, connected)
                },
            },
            _ => {
                assert(table::entries(*table) =~= table::entries(*old(table)));
                return Err(TableError::WrongType);
            },
        },
    };
    let ghost mid = *table;
    assert(table::replaced(
        *old(table),
        this,
        Entry::HandshakeStreams(FutureClientStreams::Consumed(None)),
        mid,
    ));
    let client = ClientConnection {
        tombstones,
        writer: connected.writer,
        protocol_version: connected.protocol_version,
        cipher_suite: connected.cipher_suite,
    };
    match table::push_family(
        table,
        Entry::Connection(client),
        Entry::InputStream(InputStream::Host(connected.rx)),
        Entry::OutputStream(OutputStream::Host(connected.writer)),
    ) {
        Ok(keys) => Ok(Some(Ok(Ok(keys)))),
        Err(e) => Err(e),
    }
}

/// What a handshake came to can be had once: whatever the guest was told of it,
/// asking again tells it that the streams were taken, and changes nothing.
pub proof fn law_handshake_result_is_given_once(
    before: ResourceTable,
    this: Key,
    first: Streams,
    mid: ResourceTable,
    again: Result<Streams, TableError>,
    after: ResourceTable,
)
    requires
        get_result(before, this, Ok(first), mid),
        first is Some,
        get_result(mid, this, again, after),
    ensures
        again == Ok::<Streams, TableError>(Some(Err(()))),
        table::unchanged(mid, after),
{
}

/// The connection under a key: its writer, which is to be locked to be closed,
/// and what was negotiated for it.
pub fn connection(table: &ResourceTable, this: Key) -> (r: Result<ClientConnection, TableError>)
    ensures
        r == connection_at(*table, this),
{
    match table::get(table, this) {
        Ok(Entry::Connection(connection)) => Ok(*connection),
        Ok(_) => Err(TableError::WrongType),
        Err(e) => Err(e),
    }
}

/// What the guest is told of a request to close its connection: nothing while
/// that goes on.
pub fn close_notified<IO>(table: &mut ResourceTable, answer: &CloseNotify<IO>) -> (r: Result<
    Option<Result<(), Key>>,
    TableError,
>)
    ensures
        match answer {
            CloseNotify::Closed(Ok(_)) => {
                &&& r == Ok::<Option<Result<(), Key>>, TableError>(Some(Ok(())))
                &&& *final(table) == *old(table)
            },
            CloseNotify::Closed(Err(e)) => match r {
                Ok(Some(Err(key))) => table::push_result(
                    *old(table),
                    Entry::Error(Failure::Io(*e)),
                    Ok(key),
                    *final(table),
                ),
                Err(f) => table::push_result(
                    *old(table),
                    Entry::Error(Failure::Io(*e)),
                    Err(f),
                    *final(table),
                ),
                _ => false,
            },
            _ => {
                &&& r == Ok::<Option<Result<(), Key>>, TableError>(None)
                &&& *final(table) == *old(table)
            },
        },
{
    match answer {
        CloseNotify::Closed(Ok(())) => Ok(Some(Ok(()))),
        CloseNotify::Closed(Err(e)) => match table::push(table, Entry::Error(Failure::Io(*e))) {
            Ok(key) => Ok(Some(Err(key))),
            Err(f) => Err(f),
        },
        _ => Ok(None),
    }
}

/// What dropping an entry with its tombstones comes to.
pub open spec fn dropped_with(
    before: ResourceTable,
    this: Key,
    tombstones: Result<Option<Tombstones>, TableError>,
    r: Result<(), TableError>,
    after: ResourceTable,
) -> bool {
    match tombstones {
        Err(e) => r == Err::<(), TableError>(e) && table::taken(before, this, after),
        Ok(None) => r is Ok && table::taken(before, this, after),
        Ok(Some(t)) => exists|mid: ResourceTable|
            {
                &&& #[trigger] table::taken(before, this, mid)
                &&& tombstones_deleted(mid, t, r, after)
            },
    }
}

/// Drops a connection, and then what is left of the streams that it was made
/// of.
pub fn drop_connection(table: &mut ResourceTable, this: Key) -> (r: Result<(), TableError>)
    ensures
        dropped_with(
            *old(table),
            this,
            match table::takeable(*old(table), this) {
                Ok(Entry::Connection(connection)) => Ok(Some(connection.tombstones)),
                Ok(_) => Err(TableError::WrongType),
                Err(e) => Err(e),
            },
            r,
            *final(table),
        ),
{
    let tombstones: Tombstones = match table::delete(table, this) {
        Ok(Entry::Connection(connection)) => connection.tombstones,
        Ok(_) => return Err(TableError::WrongType),
        Err(e) => return Err(e),
    };
    let ghost mid = *table;
    assert(table::taken(*old(table), this, mid));
    tombstones.delete(table)
}

/// Drops a handshake, and then what is left of the streams that it was made
/// of.
pub fn drop_handshake(table: &mut ResourceTable, this: Key) -> (r: Result<(), TableError>)
    ensures
        dropped_with(
            *old(table),
            this,
            match takeable_handshake(*old(table), this) {
                Ok(handshake) => Ok(Some(handshake.tombstones)),
                Err(e) => Err(e),
            },
            r,
            *final(table),
        ),
{
    let tombstones: Tombstones = match table::delete(table, this) {
        Ok(Entry::Handshake(handshake)) => handshake.tombstones,
        Ok(_) => return Err(TableError::WrongType),
        Err(e) => return Err(e),
    };
    let ghost mid = *table;
    assert(table::taken(*old(table), this, mid));
    tombstones.delete(table)
}

/// Drops future streams, and then what is left of the streams that the
/// handshake was made of, unless the connection has that.
pub fn drop_streams(table: &mut ResourceTable, this: Key) -> (r: Result<(), TableError>)
    ensures
        dropped_with(
            *old(table),
            this,
            match table::takeable(*old(table), this) {
                Ok(Entry::HandshakeStreams(future)) => Ok(future.tombstones()),
                Ok(_) => Err(TableError::WrongType),
                Err(e) => Err(e),
            },
            r,
            *final(table),
        ),
{
    let tombstones: Option<Tombstones> = match table::delete(table, this) {
        Ok(Entry::HandshakeStreams(future)) => match future {
            FutureClientStreams::Pending(tombstones, _) => Some(tombstones),
            FutureClientStreams::Ready(tombstones, _) => Some(tombstones),
            FutureClientStreams::Consumed(tombstones) => tombstones,
        },
        Ok(_) => return Err(TableError::WrongType),
        Err(e) => return Err(e),
    };
    let ghost mid = *table;
    assert(table::taken(*old(table), this, mid));
    match tombstones {
        Some(c) => c.delete(table),
        None => Ok(()),
    }
}

/// While a handshake has taken a stream, the stream's key is still there: what
/// it is a child of cannot be dropped before it.
pub proof fn law_buried_streams_keep_their_parent(
    before: ResourceTable,
    stream: Key,
    parent: Key,
    tombstone: Entry,
    after: ResourceTable,
)
    requires
        table::is_child(before, stream, parent),
        table::replaced(before, stream, tombstone, after),
    ensures
        table::entries(after).contains_key(stream),
        table::has_children(after, parent),
        table::entries(after).contains_key(parent) ==> table::takeable(after, parent) == Err::<
            Entry,
            TableError,
        >(TableError::HasChildren),
{
    assert(table::is_child(after, stream, parent));
}

/// A stream that was taken away stops the guest, whatever it does with it.
pub proof fn law_tombstones_stop_the_guest(
    reading: &mut Tombstone,
    checking: &mut Tombstone,
    writing: &mut Tombstone,
    flushing: &mut Tombstone,
    size: usize,
    bytes: Bytes,
    read: StreamResult<Bytes>,
    checked: StreamResult<usize>,
    written: StreamResult<()>,
    flushed: StreamResult<()>,
)
    requires
        call_ensures(<Tombstone as adapter::InputStream>::read, (reading, size), read),
        call_ensures(<Tombstone as adapter::OutputStream>::check_write, (checking,), checked),
        call_ensures(<Tombstone as adapter::OutputStream>::write, (writing, bytes), written),
        call_ensures(<Tombstone as adapter::OutputStream>::flush, (flushing,), flushed),
    ensures
        read matches Err(StreamError::Trap(m)) && m@ == "stream has been consumed"@,
        checked matches Err(StreamError::Trap(m)) && m@ == "stream has been consumed"@,
        written matches Err(StreamError::Trap(m)) && m@ == "stream has been consumed"@,
        flushed matches Err(StreamError::Trap(m)) && m@ == "stream has been consumed"@,
{
}

/// Both keys that a handshake has kept alive are taken out, the input's first;
/// where that cannot be, the other stays.
pub proof fn law_tombstones_are_deleted(
    tombstones: Tombstones,
    table: &mut ResourceTable,
    r: Result<(), TableError>,
    other: Key,
)
    requires
        call_ensures(Tombstones::delete, (tombstones, table), r),
        other != tombstones.input,
        other != tombstones.output,
    ensures
        table::lookup(*final(table), other) == table::lookup(*old(table), other),
        r is Ok ==> {
            &&& table::lookup(*old(table), tombstones.input) matches Ok(Entry::InputStream(_))
            &&& table::lookup(*old(table), tombstones.output) matches Ok(Entry::OutputStream(_))
            &&& table::lookup(*final(table), tombstones.input) is Err
            &&& table::lookup(*final(table), tombstones.output) is Err
        },
        !(table::lookup(*old(table), tombstones.input) matches Ok(Entry::InputStream(_)))
            && tombstones.input != tombstones.output ==> r is Err && table::lookup(
            *final(table),
            tombstones.output,
        ) == table::lookup(*old(table), tombstones.output),
{
}

/// A handshake begins with the server that it was made for, over the streams
/// that it was made of, where the name is that of a server; otherwise what is
/// left of it are its own tombstones.
pub proof fn law_client_handshakes_are_with_their_server(
    handshake: ClientHandshake,
    r: Result<ClientHandshake, Tombstones>,
)
    requires
        call_ensures(ClientHandshake::connect, (handshake,), r),
    ensures
        r is Ok <==> client::is_server_name(handshake.server_name@),
        r matches Ok(begun) ==> {
            &&& begun.server_name == handshake.server_name
            &&& begun.input == handshake.input
            &&& begun.output == handshake.output
            &&& begun.tombstones == handshake.tombstones
        },
        r matches Err(t) ==> t == handshake.tombstones,
{
}

/// Future streams become what their task comes to, once, and keep their
/// tombstones; while the task is at work they are not ready.
pub proof fn law_handshake_results_are_taken_in(
    future: &mut FutureClientStreams,
    task: Polled<Result<Connected, ()>>,
    r: Polled<()>,
)
    requires
        call_ensures(FutureClientStreams::ready, (future, task), r),
    ensures
        r is Pending <==> *old(future) is Pending && task is Pending,
        *old(future) matches FutureClientStreams::Pending(t, _) ==> (task matches Polled::Ready(
            result,
        ) ==> *final(future) == FutureClientStreams::Ready(t, result)),
        task is Pending || !(*old(future) is Pending) ==> *final(future) == *old(future),
{
}

/// A handshake is made of the two streams under the keys that are given, one to
/// read from and one to write to, and of the name of its server. The keys are
/// still there, but what was under them is gone: a tombstone is in its place. It
/// remembers both keys, and is found under the key that the guest gets.
pub proof fn law_handshakes_bury_their_streams(
    table: &mut ResourceTable,
    server_name: String,
    input: Key,
    output: Key,
    other: Key,
    r: Result<Key, TableError>,
)
    requires
        call_ensures(new_handshake, (table, server_name, input, output), r),
    ensures
        r matches Ok(key) ==> {
            &&& table::lookup(*old(table), input) matches Ok(Entry::InputStream(i))
            &&& table::lookup(*old(table), output) matches Ok(Entry::OutputStream(o))
            &&& table::lookup(*final(table), key) matches Ok(Entry::Handshake(handshake))
            &&& handshake.server_name == server_name
            &&& handshake.input == i
            &&& handshake.output == o
            &&& handshake.tombstones.input == input && handshake.tombstones.output == output
            &&& table::lookup(*final(table), input) == Ok::<_, TableError>(
                Entry::InputStream(InputStream::Tombstone),
            )
            &&& table::lookup(*final(table), output) == Ok::<_, TableError>(
                Entry::OutputStream(OutputStream::Tombstone),
            )
            &&& table::lookup(*old(table), key) is Err
            &&& other != key && other != input && other != output ==> table::lookup(
                *final(table),
                other,
            ) == table::lookup(*old(table), other)
        },
        (table::lookup(*old(table), input) matches Ok(Entry::InputStream(_))) && (table::lookup(
            *old(table),
            output,
        ) matches Ok(Entry::OutputStream(_))) ==> (r is Ok <==> !table::is_full(*old(table))),
        !(table::lookup(*old(table), input) matches Ok(Entry::InputStream(_))) ==> r is Err
            && table::unchanged(*old(table), *final(table)),
        !(table::lookup(*old(table), output) matches Ok(Entry::OutputStream(_))) ==> r is Err,
{
    assert forall|before: ResourceTable, key: Key, entry: Entry, after: ResourceTable| #[trigger]
        table::replaced(before, key, entry, after) && table::entries(before).contains_key(
            key,
        ) implies table::entries(after).dom() == table::entries(before).dom() by {
        assert(table::entries(after).dom() =~= table::entries(before).dom());
    }
}

/// A handshake is taken out of the table where it is one, to be carried out; the
/// streams that it will give, with its tombstones, are found under the key that
/// the guest gets.
pub proof fn law_client_handshakes_are_carried_out(
    table: &mut ResourceTable,
    this: Key,
    r: Result<ClientHandshake, TableError>,
    spawned: &mut ResourceTable,
    tombstones: Tombstones,
    task: Task,
    s: Result<Key, TableError>,
)
    requires
        call_ensures(finish, (table, this), r),
        call_ensures(finish_spawned, (spawned, tombstones, task), s),
    ensures
        r matches Ok(handshake) ==> {
            &&& table::lookup(*old(table), this) == Ok::<_, TableError>(
                Entry::Handshake(handshake),
            )
            &&& table::lookup(*final(table), this) is Err
        },
        (table::lookup(*old(table), this) matches Ok(Entry::Handshake(_))) && !table::has_children(
            *old(table),
            this,
        ) ==> r is Ok,
        s is Ok <==> !table::is_full(*old(spawned)),
        s matches Ok(key) ==> {
            &&& table::lookup(*old(spawned), key) is Err
            &&& table::lookup(*final(spawned), key) == Ok::<_, TableError>(
                Entry::HandshakeStreams(FutureClientStreams::Pending(tombstones, task)),
            )
        },
{
}

/// A handshake that has ended well gives the guest the connection and its two
/// streams, in this order: one that reads from the half that is read, and one
/// that writes through the writer that closing the connection closes. The
/// streams are children of the connection, which has the tombstones and what
/// was negotiated. One that has failed is told, and keeps its tombstones. Either
/// is given once.
pub proof fn law_connections_have_their_own_streams(
    table: &mut ResourceTable,
    this: Key,
    future: FutureClientStreams,
    r: Result<Streams, TableError>,
)
    requires
        call_ensures(get, (table, this), r),
        table::lookup(*old(table), this) == Ok::<_, TableError>(Entry::HandshakeStreams(future)),
    ensures
        r matches Ok(Some(Ok(Ok((c, i, o))))) ==> {
            &&& future matches FutureClientStreams::Ready(tombstones, Ok(connected))
            &&& c != i && c != o && i != o
            &&& table::lookup(*final(table), i) == Ok::<_, TableError>(
                Entry::InputStream(InputStream::Host(connected.rx)),
            )
            &&& table::lookup(*final(table), o) == Ok::<_, TableError>(
                Entry::OutputStream(OutputStream::Host(connected.writer)),
            )
            &&& table::lookup(*final(table), c) matches Ok(Entry::Connection(connection))
            &&& connection.writer == connected.writer
            &&& connection.tombstones == tombstones
            &&& connection.protocol_version == connected.protocol_version
            &&& connection.cipher_suite == connected.cipher_suite
            &&& table::is_child(*final(table), i, c) && table::is_child(*final(table), o, c)
            &&& table::lookup(*final(table), this) == Ok::<_, TableError>(
                Entry::HandshakeStreams(FutureClientStreams::Consumed(None)),
            )
        },
        match future {
            FutureClientStreams::Pending(..) => r == Ok::<Streams, TableError>(None)
                && table::unchanged(*old(table), *final(table)),
            FutureClientStreams::Consumed(_) => (r matches Ok(Some(Err(_)))) && table::unchanged(
                *old(table),
                *final(table),
            ),
            FutureClientStreams::Ready(tombstones, Err(_)) => {
                &&& r matches Ok(Some(Ok(Err(_))))
                &&& table::lookup(*final(table), this) == Ok::<_, TableError>(
                    Entry::HandshakeStreams(FutureClientStreams::Consumed(Some(tombstones))),
                )
            },
            FutureClientStreams::Ready(_, Ok(_)) => (r matches Ok(Some(Ok(Ok(_))))) || r is Err,
        },
{
    if let Ok(Some(Ok(Ok((c, i, o))))) = r {
        if let FutureClientStreams::Ready(tombstones, Ok(connected)) = future {
            let end = *final(table);
            let mid = choose|mid: ResourceTable|
                {
                    &&& #[trigger] table::replaced(
                        *old(table),
                        this,
                        Entry::HandshakeStreams(FutureClientStreams::Consumed(None)),
                        mid,
                    )
                    &&& connection_stored(mid, tombstones, connected, r, end)
                };
            client::lemma_family_is_found(
                mid,
                c,
                Entry::Connection(
                    ClientConnection {
                        tombstones,
                        writer: connected.writer,
                        protocol_version: connected.protocol_version,
                        cipher_suite: connected.cipher_suite,
                    },
                ),
                i,
                Entry::InputStream(InputStream::Host(connected.rx)),
                o,
                Entry::OutputStream(OutputStream::Host(connected.writer)),
                end,
            );
            let first = choose|first: ResourceTable|
                {
                    &&& #[trigger] table::pushed(
                        mid,
                        c,
                        Entry::Connection(
                            ClientConnection {
                                tombstones,
                                writer: connected.writer,
                                protocol_version: connected.protocol_version,
                                cipher_suite: connected.cipher_suite,
                            },
                        ),
                        first,
                    )
                    &&& table::pushed_pair(
                        first,
                        i,
                        Entry::InputStream(InputStream::Host(connected.rx)),
                        o,
                        Entry::OutputStream(OutputStream::Host(connected.writer)),
                        c,
                        end,
                    )
                };
            assert(table::entries(mid).contains_key(this));
            assert(table::entries(first).contains_key(this));
            assert(this != c && this != i && this != o);
            assert(table::lookup(end, this) == table::lookup(mid, this));
        }
    }
}

/// The connection that is worked on is the one under the key; another resource
/// there, or none, is refused.
pub proof fn law_connections_are_found_under_their_keys(
    table: ResourceTable,
    this: Key,
    r: Result<ClientConnection, TableError>,
)
    requires
        call_ensures(connection, (&table, this), r),
    ensures
        match table::lookup(table, this) {
            Ok(Entry::Connection(found)) => r == Ok::<_, TableError>(found),
            Ok(_) => r == Err::<ClientConnection, _>(TableError::WrongType),
            Err(e) => r == Err::<ClientConnection, _>(e),
        },
{
}

/// That a connection is closed is told, a failure to close it is handed to the
/// guest under a key, and while it is being closed there is nothing to tell.
pub proof fn law_closed_connections_are_told(
    table: &mut ResourceTable,
    answer: CloseNotify<u64>,
    r: Result<Option<Result<(), Key>>, TableError>,
)
    requires
        call_ensures(close_notified::<u64>, (table, &answer), r),
    ensures
        match answer {
            CloseNotify::Closed(Ok(_)) => (r matches Ok(Some(Ok(_)))) && *final(table) == *old(
                table,
            ),
            CloseNotify::Closed(Err(e)) => {
                &&& r matches Ok(Some(Err(key))) ==> table::lookup(*final(table), key) == Ok::<
                    _,
                    TableError,
                >(Entry::Error(Failure::Io(e))) && table::lookup(*old(table), key) is Err
                &&& (r matches Ok(Some(Err(_)))) || r == Err::<Option<Result<(), Key>>, _>(
                    TableError::Full,
                )
            },
            _ => (r matches Ok(None)) && *final(table) == *old(table),
        },
{
}

/// What is dropped is the resource under the key, of its own kind, and with it
/// both tombstones that it has: those of the streams that the handshake took.
/// What has the tombstones elsewhere leaves them there.
pub proof fn law_drops_take_their_tombstones_along(
    connections: &mut ResourceTable,
    handshakes: &mut ResourceTable,
    futures: &mut ResourceTable,
    this: Key,
    c: Result<(), TableError>,
    h: Result<(), TableError>,
    f: Result<(), TableError>,
    other: Key,
)
    requires
        call_ensures(drop_connection, (connections, this), c),
        call_ensures(drop_handshake, (handshakes, this), h),
        call_ensures(drop_streams, (futures, this), f),
        other != this,
    ensures
        c is Ok ==> {
            &&& table::lookup(*old(connections), this) matches Ok(Entry::Connection(connection))
            &&& table::lookup(*final(connections), this) is Err
            &&& table::lookup(*final(connections), connection.tombstones.input) is Err
            &&& table::lookup(*final(connections), connection.tombstones.output) is Err
            &&& other != connection.tombstones.input && other != connection.tombstones.output
                ==> table::lookup(*final(connections), other) == table::lookup(
                *old(connections),
                other,
            )
        },
        h is Ok ==> {
            &&& table::lookup(*old(handshakes), this) matches Ok(Entry::Handshake(handshake))
            &&& table::lookup(*final(handshakes), this) is Err
            &&& table::lookup(*final(handshakes), handshake.tombstones.input) is Err
            &&& table::lookup(*final(handshakes), handshake.tombstones.output) is Err
            &&& other != handshake.tombstones.input && other != handshake.tombstones.output
                ==> table::lookup(*final(handshakes), other) == table::lookup(
                *old(handshakes),
                other,
            )
        },
        f is Ok ==> {
            &&& table::lookup(*old(futures), this) matches Ok(Entry::HandshakeStreams(future))
            &&& table::lookup(*final(futures), this) is Err
            &&& match future {
                FutureClientStreams::Pending(t, _) | FutureClientStreams::Ready(t, _) => {
                    &&& table::lookup(*final(futures), t.input) is Err
                    &&& table::lookup(*final(futures), t.output) is Err
                    &&& other != t.input && other != t.output ==> table::lookup(
                        *final(futures),
                        other,
                    ) == table::lookup(*old(futures), other)
                },
                FutureClientStreams::Consumed(Some(t)) => {
                    &&& table::lookup(*final(futures), t.input) is Err
                    &&& table::lookup(*final(futures), t.output) is Err
                },
                FutureClientStreams::Consumed(None) => table::lookup(*final(futures), other)
                    == table::lookup(*old(futures), other),
            }
        },
{
}

/// Another resource than the one that is asked for, or none, is refused as that.
pub proof fn law_other_resources_are_refused(
    making: &mut ResourceTable,
    finishing: &mut ResourceTable,
    getting: &mut ResourceTable,
    server_name: String,
    this: Key,
    output: Key,
    a: Result<Key, TableError>,
    b: Result<ClientHandshake, TableError>,
    c: Result<Streams, TableError>,
)
    requires
        call_ensures(new_handshake, (making, server_name, this, output), a),
        call_ensures(finish, (finishing, this), b),
        call_ensures(get, (getting, this), c),
    ensures
        !(table::lookup(*old(making), this) matches Ok(Entry::InputStream(_))) ==> a == Err::<
            Key,
            _,
        >(table::refusal(table::lookup(*old(making), this))),
        (table::lookup(*old(making), this) matches Ok(Entry::InputStream(_))) && !(table::lookup(
            *old(making),
            output,
        ) matches Ok(Entry::OutputStream(_))) ==> a == Err::<Key, _>(
            table::refusal(table::lookup(*old(making), output)),
        ),
        !(table::lookup(*old(finishing), this) matches Ok(Entry::Handshake(_))) ==> b == Err::<
            ClientHandshake,
            _,
        >(table::refusal_to_take(*old(finishing), this)),
        !(table::lookup(*old(getting), this) matches Ok(Entry::HandshakeStreams(_))) ==> c == Err::<
            Streams,
            _,
        >(table::refusal(table::lookup(*old(getting), this))) && table::unchanged(
            *old(getting),
            *final(getting),
        ),
{
}

/// What is not the resource that is dropped is refused as that, and so is what
/// has children. A tombstone that is missing, or is something else, is told: the
/// input's before the output's.
pub proof fn law_other_resources_are_not_dropped(
    tombstones: Tombstones,
    deleting: &mut ResourceTable,
    connections: &mut ResourceTable,
    handshakes: &mut ResourceTable,
    futures: &mut ResourceTable,
    this: Key,
    d: Result<(), TableError>,
    c: Result<(), TableError>,
    h: Result<(), TableError>,
    f: Result<(), TableError>,
)
    requires
        call_ensures(Tombstones::delete, (tombstones, deleting), d),
        call_ensures(drop_connection, (connections, this), c),
        call_ensures(drop_handshake, (handshakes, this), h),
        call_ensures(drop_streams, (futures, this), f),
    ensures
        !(table::lookup(*old(deleting), tombstones.input) matches Ok(Entry::InputStream(_))) ==> d
            == Err::<(), _>(table::refusal_to_take(*old(deleting), tombstones.input)),
        !(table::lookup(*old(connections), this) matches Ok(Entry::Connection(_))) ==> c == Err::<
            (),
            _,
        >(table::refusal_to_take(*old(connections), this)),
        !(table::lookup(*old(handshakes), this) matches Ok(Entry::Handshake(_))) ==> h == Err::<
            (),
            _,
        >(table::refusal_to_take(*old(handshakes), this)),
        !(table::lookup(*old(futures), this) matches Ok(Entry::HandshakeStreams(_))) ==> f == Err::<
            (),
            _,
        >(table::refusal_to_take(*old(futures), this)),
{
}

} // verus!
