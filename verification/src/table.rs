//! The table in which a host keeps its resources.
//!
//! It is the `ResourceTable` of the `wasmtime` crate. Every item in this file
//! that stands without proof says of one of its methods what the source and
//! the documentation say, over what the table holds under each key and over
//! which entry is the child of which.
use crate::error::Failure;
use crate::filesystem::descriptor::Descriptor;
use crate::filesystem::readdir::ReaddirIterator;
use crate::filesystem::streams::{FileInputStream, FileOutputStream};
use crate::sockets::name_lookup::{Network, ResolveAddressStream};
use crate::sockets::tcp::TcpSocket;
use crate::sockets::udp::{IncomingDatagramStream, OutgoingDatagramStream, UdpSocket};
use crate::streams::read::AsyncReadStream;
use crate::streams::shared::SharedAsyncWriteStream;
use crate::tls::host::{
    ClientConnection as Connection, ClientHandshake as Handshake,
    FutureClientStreams as HandshakeStreams,
};
use crate::tls::client::{ClientConnection, ClientHandShake, FutureClientStreams};
use vstd::prelude::*;
use wasmtime::component::{Resource, ResourceTable, ResourceTableError};

verus! {

/// Why the table refused.
#[derive(Clone, Copy, Debug, PartialEq, Eq, Structural)]
pub enum TableError {
    /// There is no free key.
    Full,
    /// There is nothing under the key.
    NotPresent,
    /// What is under the key is of another type.
    WrongType,
    /// What is under the key has children.
    HasChildren,
}

impl TableError {
    /// The error in words.
    pub open spec fn text(self) -> Seq<char> {
        match self {
            TableError::Full => "resource table has no free keys"@,
            TableError::NotPresent => "resource not present"@,
            TableError::WrongType => "resource is of another type"@,
            TableError::HasChildren => "resource has children"@,
        }
    }

    pub fn message(&self) -> (r: &'static str)
        ensures
            r@ == self.text(),
    {
        match self {
            TableError::Full => "resource table has no free keys",
            TableError::NotPresent => "resource not present",
            TableError::WrongType => "resource is of another type",
            TableError::HasChildren => "resource has children",
        }
    }
}

/// Names a resource in the table.
pub type Key = u32;

/// An input stream of the guest.
#[derive(Debug)]
pub enum InputStream {
    File(FileInputStream),
    Async(AsyncReadStream<u64>),
    /// One that the embedder keeps.
    Host(u64),
    /// One that was taken away.
    Tombstone,
}

/// An output stream of the guest.
pub enum OutputStream {
    File(FileOutputStream),
    Shared(SharedAsyncWriteStream<u64>),
    /// One that the embedder keeps.
    Host(u64),
    /// One that was taken away.
    Tombstone,
}

/// What the table holds under a key.
pub enum Entry {
    Descriptor(Descriptor),
    DirectoryEntryStream(ReaddirIterator),
    InputStream(InputStream),
    OutputStream(OutputStream),
    Error(Failure),
    Network(Network),
    TcpSocket(TcpSocket),
    UdpSocket(UdpSocket),
    IncomingDatagramStream(IncomingDatagramStream),
    OutgoingDatagramStream(OutgoingDatagramStream),
    ResolveAddressStream(ResolveAddressStream),
    ClientHandShake(ClientHandShake),
    FutureClientStreams(FutureClientStreams),
    ClientConnection(ClientConnection),
    Handshake(Handshake),
    HandshakeStreams(HandshakeStreams),
    Connection(Connection),
}

/// The type of an [`Entry`].
#[derive(Clone, Copy, Debug, PartialEq, Eq, Structural)]
pub enum EntryKind {
    Descriptor,
    DirectoryEntryStream,
    InputStream,
    OutputStream,
    Error,
    Network,
    TcpSocket,
    UdpSocket,
    IncomingDatagramStream,
    OutgoingDatagramStream,
    ResolveAddressStream,
    ClientHandShake,
    FutureClientStreams,
    ClientConnection,
    Handshake,
    HandshakeStreams,
    Connection,
}

impl Entry {
    pub open spec fn kind(self) -> EntryKind {
        match self {
            Entry::Descriptor(_) => EntryKind::Descriptor,
            Entry::DirectoryEntryStream(_) => EntryKind::DirectoryEntryStream,
            Entry::InputStream(_) => EntryKind::InputStream,
            Entry::OutputStream(_) => EntryKind::OutputStream,
            Entry::Error(_) => EntryKind::Error,
            Entry::Network(_) => EntryKind::Network,
            Entry::TcpSocket(_) => EntryKind::TcpSocket,
            Entry::UdpSocket(_) => EntryKind::UdpSocket,
            Entry::IncomingDatagramStream(_) => EntryKind::IncomingDatagramStream,
            Entry::OutgoingDatagramStream(_) => EntryKind::OutgoingDatagramStream,
            Entry::ResolveAddressStream(_) => EntryKind::ResolveAddressStream,
            Entry::ClientHandShake(_) => EntryKind::ClientHandShake,
            Entry::FutureClientStreams(_) => EntryKind::FutureClientStreams,
            Entry::ClientConnection(_) => EntryKind::ClientConnection,
            Entry::Handshake(_) => EntryKind::Handshake,
            Entry::HandshakeStreams(_) => EntryKind::HandshakeStreams,
            Entry::Connection(_) => EntryKind::Connection,
        }
    }

    fn is_kind(&self, kind: EntryKind) -> (r: bool)
        ensures
            r == (self.kind() == kind),
    {
        let own: EntryKind = match self {
            Entry::Descriptor(_) => EntryKind::Descriptor,
            Entry::DirectoryEntryStream(_) => EntryKind::DirectoryEntryStream,
            Entry::InputStream(_) => EntryKind::InputStream,
            Entry::OutputStream(_) => EntryKind::OutputStream,
            Entry::Error(_) => EntryKind::Error,
            Entry::Network(_) => EntryKind::Network,
            Entry::TcpSocket(_) => EntryKind::TcpSocket,
            Entry::UdpSocket(_) => EntryKind::UdpSocket,
            Entry::IncomingDatagramStream(_) => EntryKind::IncomingDatagramStream,
            Entry::OutgoingDatagramStream(_) => EntryKind::OutgoingDatagramStream,
            Entry::ResolveAddressStream(_) => EntryKind::ResolveAddressStream,
            Entry::ClientHandShake(_) => EntryKind::ClientHandShake,
            Entry::FutureClientStreams(_) => EntryKind::FutureClientStreams,
            Entry::ClientConnection(_) => EntryKind::ClientConnection,
            Entry::Handshake(_) => EntryKind::Handshake,
            Entry::HandshakeStreams(_) => EntryKind::HandshakeStreams,
            Entry::Connection(_) => EntryKind::Connection,
        };
        own == kind
    }
}

/// `wasmtime::component::ResourceTable`: values of any type, by keys.
#[verifier::external_type_specification]
#[verifier::external_body]
pub struct ExResourceTable(ResourceTable);

/// What the table holds under each key; nothing is known of a value that is
/// no [`Entry`].
pub uninterp spec fn entries(table: ResourceTable) -> Map<u32, Option<Entry>>;

/// The parent of each entry that is a child.
pub uninterp spec fn parents(table: ResourceTable) -> Map<u32, u32>;

/// The entry has children.
pub open spec fn has_children(table: ResourceTable, key: u32) -> bool {
    exists|child: u32| #[trigger] is_child(table, child, key)
}

/// The one entry is a child of the other.
pub open spec fn is_child(table: ResourceTable, child: u32, key: u32) -> bool {
    parents(table).contains_key(child) && parents(table)[child] == key
}

/// What is found under a key.
pub open spec fn lookup(table: ResourceTable, key: u32) -> Result<Entry, TableError> {
    if !entries(table).contains_key(key) {
        Err(TableError::NotPresent)
    } else {
        match entries(table)[key] {
            Some(entry) => Ok(entry),
            None => Err(TableError::WrongType),
        }
    }
}

/// There is no free key left.
pub open spec fn is_full(table: ResourceTable) -> bool {
    entries(table).dom().len() > u32::MAX
}

/// `key` is new: nothing was there, and nothing was its child.
pub open spec fn is_fresh(table: ResourceTable, key: u32) -> bool {
    &&& !entries(table).contains_key(key)
    &&& !parents(table).contains_key(key)
    &&& !has_children(table, key)
}

/// The table with one more entry.
pub open spec fn pushed(before: ResourceTable, key: u32, entry: Entry, after: ResourceTable) -> bool {
    &&& is_fresh(before, key)
    &&& entries(after) == entries(before).insert(key, Some(entry))
    &&& parents(after) == parents(before)
}

/// The table with one more entry, which is a child.
pub open spec fn pushed_child(
    before: ResourceTable,
    key: u32,
    entry: Entry,
    parent: u32,
    after: ResourceTable,
) -> bool {
    &&& is_fresh(before, key)
    &&& entries(after) == entries(before).insert(key, Some(entry))
    &&& parents(after) == parents(before).insert(key, parent)
}

/// What storing an entry comes to: its key, or that the table is full.
pub open spec fn push_result(
    before: ResourceTable,
    entry: Entry,
    r: Result<u32, TableError>,
    after: ResourceTable,
) -> bool {
    match r {
        Ok(key) => !is_full(before) && pushed(before, key, entry, after),
        Err(e) => e == TableError::Full && is_full(before) && unchanged(before, after),
    }
}

/// What storing an entry as a child comes to: its key, or that the parent is
/// not there, or that the table is full.
pub open spec fn push_child_result(
    before: ResourceTable,
    entry: Entry,
    parent: u32,
    r: Result<u32, TableError>,
    after: ResourceTable,
) -> bool {
    match r {
        Ok(key) => {
            &&& entries(before).contains_key(parent)
            &&& !is_full(before)
            &&& pushed_child(before, key, entry, parent, after)
        },
        Err(e) => {
            &&& e == if entries(before).contains_key(parent) {
                TableError::Full
            } else {
                TableError::NotPresent
            }
            &&& entries(before).contains_key(parent) ==> is_full(before)
            &&& unchanged(before, after)
        },
    }
}

/// What taking an entry out comes to: the entry, or that it is not there, or
/// has children. What is of another type is lost.
pub open spec fn delete_result(
    before: ResourceTable,
    key: u32,
    r: Result<Entry, TableError>,
    after: ResourceTable,
) -> bool {
    taken(before, key, after) && r == takeable(before, key)
}

/// Two tables hold the same.
pub open spec fn unchanged(before: ResourceTable, after: ResourceTable) -> bool {
    entries(after) == entries(before) && parents(after) == parents(before)
}

/// The table with another entry in the place of one.
pub open spec fn replaced(
    before: ResourceTable,
    key: u32,
    entry: Entry,
    after: ResourceTable,
) -> bool {
    &&& entries(after) == entries(before).insert(key, Some(entry))
    &&& parents(after) == parents(before)
}

/// The table without an entry.
pub open spec fn removed(before: ResourceTable, key: u32, after: ResourceTable) -> bool {
    &&& entries(after) == entries(before).remove(key)
    &&& parents(after) == parents(before).remove(key)
}

/// `ResourceTable::push` stores the entry under a new key, unless there are as
/// many entries as there are keys. There are never infinitely many.
#[verifier::external_body]
pub(crate) fn push(table: &mut ResourceTable, entry: Entry) -> (r: Result<u32, TableError>)
    ensures
        push_result(*old(table), entry, r, *final(table)),
        entries(*final(table)).dom().finite() && entries(*old(table)).dom().finite(),
{
    match table.push(entry) {
        Ok(resource) => Ok(resource.rep()),
        Err(ResourceTableError::Full) => Err(TableError::Full),
        Err(ResourceTableError::NotPresent) => Err(TableError::NotPresent),
        Err(ResourceTableError::WrongType) => Err(TableError::WrongType),
        Err(ResourceTableError::HasChildren) => Err(TableError::HasChildren),
    }
}

/// `ResourceTable::push_child` stores the entry under a new key as a child of
/// the parent, which must be there.
#[verifier::external_body]
pub(crate) fn push_child(table: &mut ResourceTable, entry: Entry, parent: u32) -> (r: Result<
    u32,
    TableError,
>)
    ensures
        push_child_result(*old(table), entry, parent, r, *final(table)),
        entries(*final(table)).dom().finite() && entries(*old(table)).dom().finite(),
{
    match table.push_child(entry, &Resource::<Entry>::new_borrow(parent)) {
        Ok(resource) => Ok(resource.rep()),
        Err(ResourceTableError::Full) => Err(TableError::Full),
        Err(ResourceTableError::NotPresent) => Err(TableError::NotPresent),
        Err(ResourceTableError::WrongType) => Err(TableError::WrongType),
        Err(ResourceTableError::HasChildren) => Err(TableError::HasChildren),
    }
}

/// `ResourceTable::get` gives what is under the key, where that is of the
/// type that is asked for.
#[verifier::external_body]
pub(crate) fn get(table: &ResourceTable, key: u32) -> (r: Result<&Entry, TableError>)
    ensures
        match lookup(*table, key) {
            Ok(entry) => r matches Ok(e) && *e == entry,
            Err(e) => r matches Err(f) && f == e,
        },
{
    match table.get(&Resource::<Entry>::new_borrow(key)) {
        Ok(entry) => Ok(entry),
        Err(ResourceTableError::Full) => Err(TableError::Full),
        Err(ResourceTableError::NotPresent) => Err(TableError::NotPresent),
        Err(ResourceTableError::WrongType) => Err(TableError::WrongType),
        Err(ResourceTableError::HasChildren) => Err(TableError::HasChildren),
    }
}

/// `ResourceTable::get_mut` gives what is under the key to be changed, where
/// that is of the type that is asked for. Nothing else changes.
#[verifier::external_body]
pub(crate) fn get_mut(table: &mut ResourceTable, key: u32) -> (r: Result<&mut Entry, TableError>)
    ensures
        match lookup(*old(table), key) {
            Ok(entry) => {
                &&& r matches Ok(e)
                &&& *e == entry
                &&& entries(*final(table)) == entries(*old(table)).insert(key, Some(*final(e)))
                &&& parents(*final(table)) == parents(*old(table))
            },
            Err(e) => r matches Err(f) && f == e && unchanged(*old(table), *final(table)),
        },
{
    match table.get_mut(&Resource::<Entry>::new_borrow(key)) {
        Ok(entry) => Ok(entry),
        Err(ResourceTableError::Full) => Err(TableError::Full),
        Err(ResourceTableError::NotPresent) => Err(TableError::NotPresent),
        Err(ResourceTableError::WrongType) => Err(TableError::WrongType),
        Err(ResourceTableError::HasChildren) => Err(TableError::HasChildren),
    }
}

/// `ResourceTable::delete` takes out what is under the key, unless it has
/// children. What is of another type than was asked for is lost.
#[verifier::external_body]
pub(crate) fn delete(table: &mut ResourceTable, key: u32) -> (r: Result<Entry, TableError>)
    ensures
        delete_result(*old(table), key, r, *final(table)),
{
    match table.delete(Resource::<Entry>::new_own(key)) {
        Ok(entry) => Ok(entry),
        Err(ResourceTableError::Full) => Err(TableError::Full),
        Err(ResourceTableError::NotPresent) => Err(TableError::NotPresent),
        Err(ResourceTableError::WrongType) => Err(TableError::WrongType),
        Err(ResourceTableError::HasChildren) => Err(TableError::HasChildren),
    }
}

/// `found` is what the table holds under the key.
pub open spec fn is_entry(table: ResourceTable, key: u32, found: Option<&Entry>) -> bool {
    entries(table).contains_key(key) && match found {
        Some(entry) => entries(table)[key] == Some(*entry),
        None => entries(table)[key] is None,
    }
}

/// `found` is what the table holds under the key of some child.
pub open spec fn is_of_child(table: ResourceTable, found: Option<&Entry>, parent: u32) -> bool {
    exists|child: u32| #[trigger] is_child(table, child, parent) && is_entry(table, child, found)
}

/// What the table holds under the key is among what was found.
pub open spec fn is_listed(table: ResourceTable, key: u32, found: Seq<Option<&Entry>>) -> bool {
    exists|i: int| 0 <= i < found.len() && is_entry(table, key, #[trigger] found[i])
}

/// `ResourceTable::iter_children` goes through the children of an entry, which
/// must be there: every one of them comes, and nothing else does.
#[verifier::external_body]
pub(crate) fn children(table: &ResourceTable, parent: u32) -> (r: Result<
    Vec<Option<&Entry>>,
    TableError,
>)
    ensures
        match r {
            Ok(found) => {
                &&& entries(*table).contains_key(parent)
                &&& forall|i: int|
                    0 <= i < found@.len() ==> is_of_child(*table, #[trigger] found@[i], parent)
                &&& forall|child: u32| #[trigger]
                    is_child(*table, child, parent) ==> is_listed(*table, child, found@)
            },
            Err(e) => e == TableError::NotPresent && !entries(*table).contains_key(parent),
        },
{
    match table.iter_children(&Resource::<Entry>::new_borrow(parent)) {
        Ok(found) => Ok(found.map(|child| child.downcast_ref::<Entry>()).collect()),
        Err(ResourceTableError::Full) => Err(TableError::Full),
        Err(ResourceTableError::NotPresent) => Err(TableError::NotPresent),
        Err(ResourceTableError::WrongType) => Err(TableError::WrongType),
        Err(ResourceTableError::HasChildren) => Err(TableError::HasChildren),
    }
}

/// The table with two more entries, which are children of one parent.
pub open spec fn pushed_pair(
    before: ResourceTable,
    a: u32,
    first: Entry,
    b: u32,
    second: Entry,
    parent: u32,
    after: ResourceTable,
) -> bool {
    &&& entries(before).contains_key(parent)
    &&& is_fresh(before, a)
    &&& is_fresh(before, b)
    &&& a != b
    &&& entries(after) == entries(before).insert(a, Some(first)).insert(b, Some(second))
    &&& parents(after) == parents(before).insert(a, parent).insert(b, parent)
}

/// What storing two children under one parent comes to: their keys; or why
/// the first, or the second after it, could not be stored.
pub open spec fn push_pair_result(
    before: ResourceTable,
    first: Entry,
    second: Entry,
    parent: u32,
    r: Result<(u32, u32), TableError>,
    after: ResourceTable,
) -> bool {
    match r {
        Ok((a, b)) => pushed_pair(before, a, first, b, second, parent, after),
        Err(e) => {
            ||| push_child_result(before, first, parent, Err(e), after)
            ||| exists|mid: ResourceTable, a: u32|
                {
                    &&& #[trigger] pushed_child(before, a, first, parent, mid)
                    &&& push_child_result(mid, second, parent, Err(e), after)
                }
        },
    }
}

/// Stores two children under one parent.
pub(crate) fn push_pair(table: &mut ResourceTable, first: Entry, second: Entry, parent: u32) -> (r:
    Result<(u32, u32), TableError>)
    ensures
        push_pair_result(*old(table), first, second, parent, r, *final(table)),
{
    let a: u32 = match push_child(table, first, parent) {
        Ok(a) => a,
        Err(e) => return Err(e),
    };
    let ghost mid = *table;
    assert(pushed_child(*old(table), a, first, parent, mid));
    match push_child(table, second, parent) {
        Ok(b) => {
            proof {
                let before = *old(table);
                assert forall|child: u32| !#[trigger] is_child(before, child, b) by {
                    if is_child(before, child, b) {
                        assert(!parents(before).contains_key(a));
                        assert(is_child(mid, child, b));
                    }
                }
            }
            assert(pushed_pair(*old(table), a, first, b, second, parent, *table));
            Ok((a, b))
        },
        Err(e) => Err(e),
    }
}

/// The table with three more entries, of which two are children of the third.
pub open spec fn pushed_family(
    before: ResourceTable,
    key: u32,
    entry: Entry,
    a: u32,
    first: Entry,
    b: u32,
    second: Entry,
    after: ResourceTable,
) -> bool {
    exists|mid: ResourceTable|
        {
            &&& #[trigger] pushed(before, key, entry, mid)
            &&& pushed_pair(mid, a, first, b, second, key, after)
        }
}

/// What storing an entry and two children of it comes to: their keys; or why
/// the entry, or one of the children after it, could not be stored.
pub open spec fn push_family_result(
    before: ResourceTable,
    entry: Entry,
    first: Entry,
    second: Entry,
    r: Result<(u32, u32, u32), TableError>,
    after: ResourceTable,
) -> bool {
    match r {
        Ok((key, a, b)) => pushed_family(before, key, entry, a, first, b, second, after),
        Err(e) => {
            ||| push_result(before, entry, Err(e), after)
            ||| exists|mid: ResourceTable, key: u32|
                {
                    &&& #[trigger] pushed(before, key, entry, mid)
                    &&& push_pair_result(mid, first, second, key, Err(e), after)
                }
        },
    }
}

/// Stores an entry and two children of it.
pub(crate) fn push_family(
    table: &mut ResourceTable,
    entry: Entry,
    first: Entry,
    second: Entry,
) -> (r: Result<(u32, u32, u32), TableError>)
    ensures
        push_family_result(*old(table), entry, first, second, r, *final(table)),
{
    let key: u32 = match push(table, entry) {
        Ok(key) => key,
        Err(e) => return Err(e),
    };
    let ghost mid = *table;
    assert(pushed(*old(table), key, entry, mid));
    match push_pair(table, first, second, key) {
        Ok((a, b)) => {
            assert(pushed_family(*old(table), key, entry, a, first, b, second, *table));
            Ok((key, a, b))
        },
        Err(e) => Err(e),
    }
}

/// The table once an entry was asked to be taken out: it is gone, unless it
/// was not there or has children.
pub open spec fn taken(before: ResourceTable, key: u32, after: ResourceTable) -> bool {
    if entries(before).contains_key(key) && !has_children(before, key) {
        removed(before, key, after)
    } else {
        unchanged(before, after)
    }
}

/// The entry that is taken out; or why none is.
pub open spec fn takeable(table: ResourceTable, key: u32) -> Result<Entry, TableError> {
    if entries(table).contains_key(key) && has_children(table, key) {
        Err(TableError::HasChildren)
    } else {
        lookup(table, key)
    }
}

/// What dropping a resource of one type comes to. It is refused where there is
/// nothing under the key, or where what is there has children; what is there,
/// but of another type, is lost.
pub open spec fn drop_result(
    before: ResourceTable,
    key: u32,
    kind: EntryKind,
    r: Result<(), TableError>,
    after: ResourceTable,
) -> bool {
    &&& taken(before, key, after)
    &&& match takeable(before, key) {
        Ok(entry) => if entry.kind() == kind {
            r is Ok
        } else {
            r == Err::<(), TableError>(TableError::WrongType)
        },
        Err(e) => r == Err::<(), TableError>(e),
    }
}

/// Drops a resource of one type.
pub fn drop_resource(table: &mut ResourceTable, key: Key, kind: EntryKind) -> (r: Result<
    (),
    TableError,
>)
    ensures
        drop_result(*old(table), key, kind, r, *final(table)),
{
    match delete(table, key) {
        Ok(entry) => if entry.is_kind(kind) {
            Ok(())
        } else {
            Err(TableError::WrongType)
        },
        Err(e) => Err(e),
    }
}

/// What was stored is found under its key, and what was found under another
/// key still is.
pub proof fn law_pushed_is_found(
    before: ResourceTable,
    key: u32,
    entry: Entry,
    after: ResourceTable,
    other: u32,
)
    requires
        pushed(before, key, entry, after),
        other != key,
    ensures
        lookup(before, key) == Err::<Entry, TableError>(TableError::NotPresent),
        lookup(after, key) == Ok::<Entry, TableError>(entry),
        lookup(after, other) == lookup(before, other),
{
}

/// What was stored can be taken out again, and then the table holds what it
/// held before.
pub proof fn law_delete_undoes_push(
    before: ResourceTable,
    key: u32,
    entry: Entry,
    mid: ResourceTable,
    r: Result<Entry, TableError>,
    after: ResourceTable,
)
    requires
        pushed(before, key, entry, mid),
        delete_result(mid, key, r, after),
    ensures
        r == Ok::<Entry, TableError>(entry),
        unchanged(before, after),
{
    assert forall|child: u32| !#[trigger] is_child(mid, child, key) by {
        assert(!is_child(before, child, key));
    }
    assert(entries(after) =~= entries(before));
    assert(parents(after) =~= parents(before));
}

/// While a child is there, its parent cannot be taken out.
pub proof fn law_children_keep_their_parent(
    before: ResourceTable,
    child: u32,
    entry: Entry,
    parent: u32,
    mid: ResourceTable,
    r: Result<Entry, TableError>,
    after: ResourceTable,
)
    requires
        push_child_result(before, entry, parent, Ok(child), mid),
        delete_result(mid, parent, r, after),
    ensures
        r == Err::<Entry, TableError>(TableError::HasChildren),
        unchanged(mid, after),
{
    assert(is_child(mid, child, parent));
}

/// What is under a key is taken out by dropping it, where it is of the type
/// that is dropped and has no children, and nothing else is. What has children
/// stays, and what is not there cannot be dropped.
pub proof fn law_drops_take_out_what_they_name(
    table: &mut ResourceTable,
    key: Key,
    kind: EntryKind,
    other: Key,
    r: Result<(), TableError>,
)
    requires
        call_ensures(drop_resource, (table, key, kind), r),
        other != key,
    ensures
        lookup(*final(table), other) == lookup(*old(table), other),
        r is Ok ==> {
            &&& lookup(*old(table), key) matches Ok(entry) && entry.kind() == kind
            &&& !has_children(*old(table), key)
            &&& lookup(*final(table), key) == Err::<Entry, TableError>(TableError::NotPresent)
        },
        !entries(*old(table)).contains_key(key) ==> r == Err::<(), TableError>(
            TableError::NotPresent,
        ),
        entries(*old(table)).contains_key(key) && has_children(*old(table), key) ==> {
            &&& r == Err::<(), TableError>(TableError::HasChildren)
            &&& lookup(*final(table), key) == lookup(*old(table), key)
        },
        (lookup(*old(table), key) matches Ok(entry) && entry.kind() == kind) && !has_children(
            *old(table),
            key,
        ) ==> r is Ok,
        r == Err::<(), TableError>(TableError::WrongType) ==> !(lookup(
            *old(table),
            key,
        ) matches Ok(entry) && entry.kind() == kind),
{
}

/// Two children that were stored are found, each under its own key, which is
/// new; the parent is their parent, and nothing else has changed.
pub proof fn law_pairs_are_found(
    before: ResourceTable,
    a: Key,
    first: Entry,
    b: Key,
    second: Entry,
    parent: Key,
    after: ResourceTable,
    other: Key,
)
    requires
        push_pair_result(before, first, second, parent, Ok((a, b)), after),
        other != a,
        other != b,
    ensures
        a != b && a != parent && b != parent,
        lookup(before, a) == Err::<Entry, TableError>(TableError::NotPresent),
        lookup(before, b) == Err::<Entry, TableError>(TableError::NotPresent),
        lookup(after, a) == Ok::<Entry, TableError>(first),
        lookup(after, b) == Ok::<Entry, TableError>(second),
        lookup(after, other) == lookup(before, other),
        is_child(after, a, parent),
        is_child(after, b, parent),
        forall|child: Key, of: Key|
            child != a && child != b ==> #[trigger] is_child(after, child, of) == is_child(
                before,
                child,
                of,
            ),
{
}

/// An entry and its two children that were stored are found, each under its own
/// key, which is new; the entry is their parent, and nothing else has changed.
pub proof fn law_families_are_found(
    before: ResourceTable,
    key: Key,
    entry: Entry,
    a: Key,
    first: Entry,
    b: Key,
    second: Entry,
    after: ResourceTable,
    other: Key,
)
    requires
        push_family_result(before, entry, first, second, Ok((key, a, b)), after),
        other != key,
        other != a,
        other != b,
    ensures
        key != a && key != b && a != b,
        lookup(before, key) == Err::<Entry, TableError>(TableError::NotPresent),
        lookup(before, a) == Err::<Entry, TableError>(TableError::NotPresent),
        lookup(before, b) == Err::<Entry, TableError>(TableError::NotPresent),
        lookup(after, key) == Ok::<Entry, TableError>(entry),
        lookup(after, a) == Ok::<Entry, TableError>(first),
        lookup(after, b) == Ok::<Entry, TableError>(second),
        lookup(after, other) == lookup(before, other),
        is_child(after, a, key),
        is_child(after, b, key),
        has_children(after, key),
{
    let mid = choose|mid: ResourceTable|
        {
            &&& #[trigger] pushed(before, key, entry, mid)
            &&& pushed_pair(mid, a, first, b, second, key, after)
        };
    law_pairs_are_found(mid, a, first, b, second, key, after, other);
    assert(is_child(after, a, key));
}

/// An entry that was put in the place of another is found there, and what was
/// under another key still is; whose child each is stays as it was.
pub proof fn law_replaced_is_found(
    before: ResourceTable,
    key: Key,
    entry: Entry,
    after: ResourceTable,
    other: Key,
    child: Key,
    parent: Key,
)
    requires
        replaced(before, key, entry, after),
        other != key,
    ensures
        lookup(after, key) == Ok::<Entry, TableError>(entry),
        lookup(after, other) == lookup(before, other),
        is_child(after, child, parent) == is_child(before, child, parent),
{
}

/// An entry that was asked to be taken out is handed over and is gone, unless it
/// has children; another entry is where it was.
pub proof fn law_taken_is_gone(
    before: ResourceTable,
    key: Key,
    r: Result<Entry, TableError>,
    after: ResourceTable,
    other: Key,
)
    requires
        delete_result(before, key, r, after),
        other != key,
    ensures
        lookup(after, other) == lookup(before, other),
        r matches Ok(entry) ==> {
            &&& lookup(before, key) == Ok::<Entry, TableError>(entry)
            &&& !has_children(before, key)
            &&& lookup(after, key) == Err::<Entry, TableError>(TableError::NotPresent)
        },
        has_children(before, key) ==> lookup(after, key) == lookup(before, key),
        lookup(before, key) is Ok && !has_children(before, key) ==> r == lookup(before, key),
{
}

/// What is refused by the table is told apart in words.
pub proof fn law_refusals_have_words_of_their_own(e: TableError, r: &'static str)
    requires
        call_ensures(TableError::message, (&e,), r),
    ensures
        e is Full ==> r@ == "resource table has no free keys"@,
        e is NotPresent ==> r@ == "resource not present"@,
        e is WrongType ==> r@ == "resource is of another type"@,
        e is HasChildren ==> r@ == "resource has children"@,
{
}

/// What is dropped as a resource of one type is of that type.
pub proof fn law_entries_are_of_their_own_type(entry: Entry)
    ensures
        entry.kind() is Descriptor <==> entry is Descriptor,
        entry.kind() is DirectoryEntryStream <==> entry is DirectoryEntryStream,
        entry.kind() is InputStream <==> entry is InputStream,
        entry.kind() is OutputStream <==> entry is OutputStream,
        entry.kind() is Error <==> entry is Error,
        entry.kind() is Network <==> entry is Network,
        entry.kind() is TcpSocket <==> entry is TcpSocket,
        entry.kind() is UdpSocket <==> entry is UdpSocket,
        entry.kind() is IncomingDatagramStream <==> entry is IncomingDatagramStream,
        entry.kind() is OutgoingDatagramStream <==> entry is OutgoingDatagramStream,
        entry.kind() is ResolveAddressStream <==> entry is ResolveAddressStream,
        entry.kind() is ClientHandShake <==> entry is ClientHandShake,
        entry.kind() is FutureClientStreams <==> entry is FutureClientStreams,
        entry.kind() is ClientConnection <==> entry is ClientConnection,
        entry.kind() is Handshake <==> entry is Handshake,
        entry.kind() is HandshakeStreams <==> entry is HandshakeStreams,
        entry.kind() is Connection <==> entry is Connection,
{
}

/// What is told of a key under which something else was found, or nothing: that
/// it is of another type, or what was told of it.
pub open spec fn refusal(found: Result<Entry, TableError>) -> TableError {
    match found {
        Ok(_) => TableError::WrongType,
        Err(e) => e,
    }
}

/// What is told of a key that something else was to be taken out under: what has
/// children stays, whatever it is.
pub open spec fn refusal_to_take(table: ResourceTable, key: Key) -> TableError {
    if entries(table).contains_key(key) && has_children(table, key) {
        TableError::HasChildren
    } else {
        refusal(lookup(table, key))
    }
}

} // verus!
