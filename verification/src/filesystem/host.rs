//! The filesystem, as a host with a resource table offers it to a guest.
use super::descriptor::{Descriptor, OpenedKind, RealDir};
use super::flags::{DescriptorFlags, OpenFlags, OpenMode, PathFlags};
use super::readdir::{FoundEntry, ReaddirIterator};
use super::streams::{FileInputStream, FileOutputStream};
use super::types::{DirectoryEntry, ErrorCode, Filesize, FsCall, Handle};
use crate::errno::Platform;
use crate::error::{Failure, IoError};
use crate::table;
use crate::table::{Entry, EntryKind, InputStream, Key, OutputStream, TableError};
use vstd::prelude::*;
use wasmtime::component::ResourceTable;

verus! {

/// Why a filesystem operation failed.
#[derive(Clone, Copy, Debug, PartialEq, Eq, Structural)]
pub enum FsError {
    /// The guest is told.
    Code(ErrorCode),
    /// The guest is stopped.
    Trap(TableError),
}

pub type FsResult<T> = Result<T, FsError>;

/// What the guest is told; or why it is stopped.
pub fn convert_error_code(err: FsError) -> (r: Result<ErrorCode, TableError>)
    ensures
        r == match err {
            FsError::Code(code) => Ok::<ErrorCode, TableError>(code),
            FsError::Trap(e) => Err(e),
        },
{
    match err {
        FsError::Code(code) => Ok(code),
        FsError::Trap(e) => Err(e),
    }
}

/// The descriptor under a key.
pub open spec fn descriptor_at(table: ResourceTable, fd: Key) -> Result<Descriptor, TableError> {
    match table::lookup(table, fd) {
        Ok(Entry::Descriptor(d)) => Ok(d),
        Ok(_) => Err(TableError::WrongType),
        Err(e) => Err(e),
    }
}

/// A result, of which a refusal is told to the guest.
pub open spec fn told<T>(result: Result<T, ErrorCode>) -> FsResult<T> {
    match result {
        Ok(value) => Ok(value),
        Err(e) => Err(FsError::Code(e)),
    }
}

fn tell<T>(result: Result<T, ErrorCode>) -> (r: FsResult<T>)
    ensures
        r == told(result),
{
    match result {
        Ok(value) => Ok(value),
        Err(e) => Err(FsError::Code(e)),
    }
}

/// What storing an entry comes to: its key, or a trap where the table is full.
pub open spec fn stored(
    before: ResourceTable,
    entry: Entry,
    r: FsResult<Key>,
    after: ResourceTable,
) -> bool {
    match r {
        Ok(key) => table::push_result(before, entry, Ok(key), after),
        Err(FsError::Trap(e)) => table::push_result(before, entry, Err(e), after),
        Err(FsError::Code(_)) => false,
    }
}

fn store(table: &mut ResourceTable, entry: Entry) -> (r: FsResult<Key>)
    ensures
        stored(*old(table), entry, r, *final(table)),
{
    match table::push(table, entry) {
        Ok(key) => Ok(key),
        Err(e) => Err(FsError::Trap(e)),
    }
}

/// The descriptor under a key, on which an operation is to be made.
pub fn descriptor(table: &ResourceTable, fd: Key) -> (r: FsResult<&Descriptor>)
    ensures
        match descriptor_at(*table, fd) {
            Ok(d) => r matches Ok(found) && *found == d,
            Err(e) => r == Err::<&Descriptor, FsError>(FsError::Trap(e)),
        },
{
    match table::get(table, fd) {
        Ok(Entry::Descriptor(d)) => Ok(d),
        Ok(_) => Err(FsError::Trap(TableError::WrongType)),
        Err(e) => Err(FsError::Trap(e)),
    }
}

/// The first `n` of the directories stand in the table under their keys, with
/// their names; everything that was there before still is.
pub open spec fn opened_directories(
    before: ResourceTable,
    preopens: Seq<(RealDir, String)>,
    found: Seq<(Key, String)>,
    after: ResourceTable,
) -> bool {
    &&& found.len() <= preopens.len()
    &&& forall|i: int|
        0 <= i < found.len() ==> {
            &&& !table::entries(before).contains_key((#[trigger] found[i]).0)
            &&& table::lookup(after, found[i].0) == Ok::<Entry, TableError>(
                Entry::Descriptor(Descriptor::Dir(preopens[i].0)),
            )
            &&& found[i].1@ == preopens[i].1@
        }
    &&& forall|i: int, j: int|
        0 <= i < j < found.len() ==> (#[trigger] found[i]).0 != (#[trigger] found[j]).0
    &&& forall|key: Key| #[trigger]
        table::entries(before).contains_key(key) ==> table::entries(after).contains_key(key)
            && table::entries(after)[key] == table::entries(before)[key]
    &&& table::parents(after) == table::parents(before)
}

/// Some of the directories, from the first on, stand in the table.
pub open spec fn some_opened_directories(
    before: ResourceTable,
    preopens: Seq<(RealDir, String)>,
    after: ResourceTable,
) -> bool {
    exists|found: Seq<(Key, String)>| #[trigger]
        opened_directories(before, preopens, found, after)
}

/// Opens the directories that the guest is given from the start, each under a
/// key of its own. That fails where the table gets full.
pub fn get_directories(table: &mut ResourceTable, preopens: &Vec<(RealDir, String)>) -> (r: Result<
    Vec<(Key, String)>,
    TableError,
>)
    ensures
        match r {
            Ok(found) => found@.len() == preopens@.len() && opened_directories(
                *old(table),
                preopens@,
                found@,
                *final(table),
            ),
            Err(e) => e == TableError::Full && some_opened_directories(
                *old(table),
                preopens@,
                *final(table),
            ),
        },
        r is Ok <==> preopens@.len() == 0 || table::entries(*old(table)).dom().len()
            + preopens@.len() <= u32::MAX + 1,
{
    let mut results: Vec<(Key, String)> = Vec::new();
    let mut i: usize = 0;
    while i < preopens.len()
        invariant
            i == results@.len(),
            i <= preopens@.len(),
            opened_directories(*old(table), preopens@, results@, *table),
            i > 0 ==> {
                &&& table::entries(*table).dom().finite()
                &&& table::entries(*table).dom().len() == table::entries(*old(table)).dom().len()
                    + i
                &&& table::entries(*old(table)).dom().len() + i <= u32::MAX + 1
            },
            i == 0 ==> *table == *old(table),
        decreases preopens@.len() - i,
    {
        let dir: RealDir = preopens[i].0;
        let name: String = preopens[i].1.clone();
        let ghost before = *table;
        let ghost so_far = results@;
        let fd: Key = match table::push(table, Entry::Descriptor(Descriptor::Dir(dir))) {
            Ok(fd) => fd,
            Err(e) => {
                assert(opened_directories(*old(table), preopens@, so_far, *table));
                return Err(e);
            },
        };
        results.push((fd, name));
        assert forall|k: int| 0 <= k < so_far.len() implies (#[trigger] results@[k]).0 != fd by {
            assert(results@[k] == so_far[k]);
            assert(table::lookup(before, so_far[k].0) is Ok);
        }
        assert forall|k: int| 0 <= k < results@.len() implies {
            &&& !table::entries(*old(table)).contains_key((#[trigger] results@[k]).0)
            &&& table::lookup(*table, results@[k].0) == Ok::<Entry, TableError>(
                Entry::Descriptor(Descriptor::Dir(preopens@[k].0)),
            )
            &&& results@[k].1@ == preopens@[k].1@
        } by {
            if k < so_far.len() {
                assert(results@[k] == so_far[k]);
            }
        }
        i = i + 1;
    }
    Ok(results)
}

/// What the guest is told of an error that a stream handed to it, where that
/// came from the operating system.
pub fn filesystem_error_code(table: &ResourceTable, platform: &Platform, err: Key) -> (r: Result<
    Option<ErrorCode>,
    TableError,
>)
    ensures
        r == match table::lookup(*table, err) {
            Ok(Entry::Error(Failure::Io(e))) => Ok::<Option<ErrorCode>, TableError>(
                Some(platform.filesystem_error_spec(e)),
            ),
            Ok(Entry::Error(_)) => Ok(None),
            Ok(_) => Err(TableError::WrongType),
            Err(e) => Err(e),
        },
{
    match table::get(table, err) {
        Ok(Entry::Error(failure)) => match failure {
            Failure::Io(e) => Ok(Some(platform.filesystem_error(*e))),
            _ => Ok(None),
        },
        Ok(_) => Err(TableError::WrongType),
        Err(e) => Err(e),
    }
}

/// What storing a stream of entries comes to.
pub open spec fn listing_stored(
    before: ResourceTable,
    listed: Seq<Result<DirectoryEntry, ErrorCode>>,
    r: FsResult<Key>,
    after: ResourceTable,
) -> bool {
    exists|entries: ReaddirIterator| #[trigger]
        stored(before, Entry::DirectoryEntryStream(entries), r, after) && entries@ == listed
}

/// The entries of a directory were listed, or could not be: the guest gets a
/// stream of them.
pub fn directory_read(
    table: &mut ResourceTable,
    platform: &Platform,
    found: Result<Vec<Result<FoundEntry, IoError>>, IoError>,
) -> (r: FsResult<Key>)
    ensures
        match found {
            Ok(found) => listing_stored(
                *old(table),
                platform.listed(found@).map_values(|entry| platform.directory_entry_spec(entry)),
                r,
                *final(table),
            ),
            Err(e) => {
                &&& r == Err::<Key, FsError>(FsError::Code(platform.filesystem_error_spec(e)))
                &&& *final(table) == *old(table)
            },
        },
{
    match found {
        Ok(found) => {
            let entries: ReaddirIterator = platform.read_directory(found);
            store(table, Entry::DirectoryEntryStream(entries))
        },
        Err(e) => Err(FsError::Code(platform.filesystem_error(e))),
    }
}

/// Links a path under one directory to one under another.
pub fn link_at(
    table: &ResourceTable,
    fd: Key,
    old_path_flags: PathFlags,
    old_path: String,
    new_descriptor: Key,
    new_path: String,
) -> (r: FsResult<FsCall>)
    ensures
        match (descriptor_at(*table, fd), descriptor_at(*table, new_descriptor)) {
            (Err(e), _) => r == Err::<FsCall, FsError>(FsError::Trap(e)),
            (Ok(_), Err(e)) => r == Err::<FsCall, FsError>(FsError::Trap(e)),
            (Ok(old), Ok(new)) => r == told(
                old.link_request(old_path_flags, old_path, new, new_path),
            ),
        },
{
    let old: &Descriptor = descriptor(table, fd)?;
    let new: &Descriptor = descriptor(table, new_descriptor)?;
    tell(old.link_at(old_path_flags, old_path, new, new_path))
}

/// Moves a path under one directory to one under another.
pub fn rename_at(
    table: &ResourceTable,
    fd: Key,
    old_path: String,
    new_fd: Key,
    new_path: String,
) -> (r: FsResult<FsCall>)
    ensures
        match (descriptor_at(*table, fd), descriptor_at(*table, new_fd)) {
            (Err(e), _) => r == Err::<FsCall, FsError>(FsError::Trap(e)),
            (Ok(_), Err(e)) => r == Err::<FsCall, FsError>(FsError::Trap(e)),
            (Ok(old), Ok(new)) => r == told(old.rename_request(old_path, new, new_path)),
        },
{
    let old: &Descriptor = descriptor(table, fd)?;
    let new: &Descriptor = descriptor(table, new_fd)?;
    tell(old.rename_at(old_path, new, new_path))
}

/// Opens a path under a directory: what the operating system is to do, and
/// the mode to keep of it. [`opened_at`] goes on with what came of it.
pub fn open_at(
    table: &ResourceTable,
    fd: Key,
    path_flags: PathFlags,
    path: String,
    oflags: OpenFlags,
    flags: DescriptorFlags,
) -> (r: FsResult<(FsCall, OpenMode)>)
    ensures
        match descriptor_at(*table, fd) {
            Err(e) => r == Err::<(FsCall, OpenMode), FsError>(FsError::Trap(e)),
            Ok(d) => r == told(d.open_request(path_flags, path, oflags, flags)),
        },
{
    let d: &Descriptor = descriptor(table, fd)?;
    tell(d.open_at(path_flags, path, oflags, flags))
}

/// A path under a directory was opened, or could not be: the guest gets a
/// descriptor for it, with the permissions that the directory passes on.
pub fn opened_at(
    table: &mut ResourceTable,
    platform: &Platform,
    fd: Key,
    outcome: Result<(OpenedKind, Handle), IoError>,
    open_mode: OpenMode,
) -> (r: FsResult<Key>)
    ensures
        match (descriptor_at(*old(table), fd), outcome) {
            (Err(e), _) => {
                r == Err::<Key, FsError>(FsError::Trap(e)) && *final(table) == *old(table)
            },
            (Ok(Descriptor::File(_)), _) => {
                &&& r == Err::<Key, FsError>(FsError::Code(ErrorCode::NotDirectory))
                &&& *final(table) == *old(table)
            },
            (Ok(Descriptor::Dir(_)), Err(e)) => {
                &&& r == Err::<Key, FsError>(FsError::Code(platform.filesystem_error_spec(e)))
                &&& *final(table) == *old(table)
            },
            (Ok(Descriptor::Dir(d)), Ok((kind, handle))) => match d.opened_as(
                kind,
                handle,
                open_mode,
            ) {
                Ok(opened) => stored(
                    *old(table),
                    Entry::Descriptor(opened),
                    r,
                    *final(table),
                ),
                Err(e) => {
                    r == Err::<Key, FsError>(FsError::Code(e)) && *final(table) == *old(table)
                },
            },
        },
{
    let dir: RealDir = match descriptor(table, fd)? {
        Descriptor::Dir(d) => *d,
        Descriptor::File(_) => return Err(FsError::Code(ErrorCode::NotDirectory)),
    };
    let (kind, handle): (OpenedKind, Handle) = match outcome {
        Ok(opened) => opened,
        Err(e) => return Err(FsError::Code(platform.filesystem_error(e))),
    };
    let opened: Descriptor = match dir.opened(kind, handle, open_mode) {
        Ok(opened) => opened,
        Err(e) => return Err(FsError::Code(e)),
    };
    store(table, Entry::Descriptor(opened))
}

/// Closes a descriptor.
pub fn drop_descriptor(table: &mut ResourceTable, fd: Key) -> (r: Result<(), TableError>)
    ensures
        table::drop_result(*old(table), fd, EntryKind::Descriptor, r, *final(table)),
{
    table::drop_resource(table, fd, EntryKind::Descriptor)
}

/// The guest gets a stream that reads a file.
pub fn read_via_stream(table: &mut ResourceTable, fd: Key, offset: Filesize) -> (r: FsResult<Key>)
    ensures
        match descriptor_at(*old(table), fd) {
            Err(e) => {
                r == Err::<Key, FsError>(FsError::Trap(e)) && *final(table) == *old(table)
            },
            Ok(d) => match d.read_stream(offset) {
                Ok(stream) => stored(
                    *old(table),
                    Entry::InputStream(InputStream::File(stream)),
                    r,
                    *final(table),
                ),
                Err(e) => {
                    r == Err::<Key, FsError>(FsError::Code(e)) && *final(table) == *old(table)
                },
            },
        },
{
    let stream: FileInputStream = match descriptor(table, fd)?.read_via_stream(offset) {
        Ok(stream) => stream,
        Err(e) => return Err(FsError::Code(e)),
    };
    store(table, Entry::InputStream(InputStream::File(stream)))
}

/// The guest gets a stream that writes a file from a position on.
pub fn write_via_stream(table: &mut ResourceTable, fd: Key, offset: Filesize) -> (r: FsResult<Key>)
    ensures
        match descriptor_at(*old(table), fd) {
            Err(e) => {
                r == Err::<Key, FsError>(FsError::Trap(e)) && *final(table) == *old(table)
            },
            Ok(d) => match d.write_stream(offset) {
                Ok(stream) => stored(
                    *old(table),
                    Entry::OutputStream(OutputStream::File(stream)),
                    r,
                    *final(table),
                ),
                Err(e) => {
                    r == Err::<Key, FsError>(FsError::Code(e)) && *final(table) == *old(table)
                },
            },
        },
{
    let stream: FileOutputStream = match descriptor(table, fd)?.write_via_stream(offset) {
        Ok(stream) => stream,
        Err(e) => return Err(FsError::Code(e)),
    };
    store(table, Entry::OutputStream(OutputStream::File(stream)))
}

/// The guest gets a stream that appends to a file.
pub fn append_via_stream(table: &mut ResourceTable, fd: Key) -> (r: FsResult<Key>)
    ensures
        match descriptor_at(*old(table), fd) {
            Err(e) => {
                r == Err::<Key, FsError>(FsError::Trap(e)) && *final(table) == *old(table)
            },
            Ok(d) => match d.append_stream() {
                Ok(stream) => stored(
                    *old(table),
                    Entry::OutputStream(OutputStream::File(stream)),
                    r,
                    *final(table),
                ),
                Err(e) => {
                    r == Err::<Key, FsError>(FsError::Code(e)) && *final(table) == *old(table)
                },
            },
        },
{
    let stream: FileOutputStream = match descriptor(table, fd)?.append_via_stream() {
        Ok(stream) => stream,
        Err(e) => return Err(FsError::Code(e)),
    };
    store(table, Entry::OutputStream(OutputStream::File(stream)))
}

/// Asks for the metadata of two descriptors, by which they are compared.
pub fn is_same_object(table: &ResourceTable, a: Key, b: Key) -> (r: FsResult<(FsCall, FsCall)>)
    ensures
        match (descriptor_at(*table, a), descriptor_at(*table, b)) {
            (Err(e), _) => r == Err::<(FsCall, FsCall), FsError>(FsError::Trap(e)),
            (Ok(_), Err(e)) => r == Err::<(FsCall, FsCall), FsError>(FsError::Trap(e)),
            (Ok(a), Ok(b)) => r == Ok::<(FsCall, FsCall), FsError>(
                (a.metadata_request(), b.metadata_request()),
            ),
        },
{
    let a: &Descriptor = descriptor(table, a)?;
    let b: &Descriptor = descriptor(table, b)?;
    Ok((a.stat(), b.stat()))
}

/// The table, where a stream of entries has these left.
pub open spec fn listing_replaced(
    before: ResourceTable,
    stream: Key,
    rest: Seq<Result<DirectoryEntry, ErrorCode>>,
    after: ResourceTable,
) -> bool {
    exists|entries: ReaddirIterator|
        {
            &&& #[trigger] table::replaced(
                before,
                stream,
                Entry::DirectoryEntryStream(entries),
                after,
            )
            &&& entries@ == rest
        }
}

/// The next entry of a directory; nothing once there is none left.
pub fn read_directory_entry(table: &mut ResourceTable, stream: Key) -> (r: FsResult<
    Option<DirectoryEntry>,
>)
    ensures
        match table::lookup(*old(table), stream) {
            Ok(Entry::DirectoryEntryStream(readdir)) => {
                &&& listing_replaced(
                    *old(table),
                    stream,
                    if readdir@.len() == 0 {
                        readdir@
                    } else {
                        readdir@.skip(1)
                    },
                    *final(table),
                )
                &&& r == if readdir@.len() == 0 {
                    Ok::<Option<DirectoryEntry>, FsError>(None)
                } else {
                    match readdir@[0] {
                        Ok(entry) => Ok(Some(entry)),
                        Err(e) => Err(FsError::Code(e)),
                    }
                }
            },
            Ok(_) => {
                &&& r == Err::<Option<DirectoryEntry>, FsError>(
                    FsError::Trap(TableError::WrongType),
                )
                &&& table::unchanged(*old(table), *final(table))
            },
            Err(e) => {
                &&& r == Err::<Option<DirectoryEntry>, FsError>(FsError::Trap(e))
                &&& table::unchanged(*old(table), *final(table))
            },
        },
{
    match table::get_mut(table, stream) {
        Ok(entry) => match entry {
            Entry::DirectoryEntryStream(readdir) => {
                let r: Result<Option<DirectoryEntry>, ErrorCode> = readdir.next();
                let ghost after = *readdir;
                assert(table::replaced(
                    *old(table),
                    stream,
                    Entry::DirectoryEntryStream(after),
                    *table,
                ));
                tell(r)
            },
            _ => {
                assert(table::entries(*table) =~= table::entries(*old(table)));
                Err(FsError::Trap(TableError::WrongType))
            },
        },
        Err(e) => Err(FsError::Trap(e)),
    }
}

/// Closes a stream of a directory's entries.
pub fn drop_directory_entry_stream(table: &mut ResourceTable, stream: Key) -> (r: Result<
    (),
    TableError,
>)
    ensures
        table::drop_result(
            *old(table),
            stream,
            EntryKind::DirectoryEntryStream,
            r,
            *final(table),
        ),
{
    table::drop_resource(table, stream, EntryKind::DirectoryEntryStream)
}

/// The descriptor that is worked on is the one under the key; another resource
/// there, or none, stops the guest.
pub proof fn law_descriptors_are_found_under_their_keys(
    table: ResourceTable,
    fd: Key,
    r: FsResult<&Descriptor>,
)
    requires
        call_ensures(descriptor, (&table, fd), r),
    ensures
        r matches Ok(d) ==> table::lookup(table, fd) == Ok::<Entry, TableError>(
            Entry::Descriptor(*d),
        ),
        table::lookup(table, fd) matches Ok(Entry::Descriptor(_)) ==> r is Ok,
        r matches Err(e) ==> e is Trap,
        table::lookup(table, fd) matches Err(e) ==> r == Err::<&Descriptor, FsError>(
            FsError::Trap(e),
        ),
        (table::lookup(table, fd) matches Ok(entry) && !(entry is Descriptor)) ==> r == Err::<
            &Descriptor,
            FsError,
        >(FsError::Trap(TableError::WrongType)),
{
}

/// A code is for the guest, a trap is not.
pub proof fn law_codes_are_told_and_traps_are_not(err: FsError, r: Result<ErrorCode, TableError>)
    requires
        call_ensures(convert_error_code, (err,), r),
    ensures
        r matches Ok(code) ==> err == FsError::Code(code),
        r matches Err(e) ==> err == FsError::Trap(e),
{
}

/// What one does with paths under the directories of two keys goes from the
/// first to the second, as the descriptors themselves say. Where there is no
/// descriptor under a key, the guest is stopped, the first one first.
pub proof fn law_moves_and_links_are_between_the_two_keys(
    table: ResourceTable,
    fd: Key,
    flags: PathFlags,
    old_path: String,
    new_fd: Key,
    new_path: String,
    from: FsResult<&Descriptor>,
    to: FsResult<&Descriptor>,
    renamed: FsResult<FsCall>,
    linked: FsResult<FsCall>,
    asked: FsResult<(FsCall, FsCall)>,
)
    requires
        call_ensures(descriptor, (&table, fd), from),
        call_ensures(descriptor, (&table, new_fd), to),
        call_ensures(rename_at, (&table, fd, old_path, new_fd, new_path), renamed),
        call_ensures(link_at, (&table, fd, flags, old_path, new_fd, new_path), linked),
        call_ensures(is_same_object, (&table, fd, new_fd), asked),
    ensures
        from matches Err(e) ==> {
            &&& renamed == Err::<FsCall, _>(e)
            &&& linked == Err::<FsCall, _>(e)
            &&& asked == Err::<(FsCall, FsCall), _>(e)
        },
        from is Ok ==> (to matches Err(e) ==> {
            &&& renamed == Err::<FsCall, _>(e)
            &&& linked == Err::<FsCall, _>(e)
            &&& asked == Err::<(FsCall, FsCall), _>(e)
        }),
        renamed matches Ok(call) ==> {
            &&& call matches FsCall::Rename { dir, old_path: p, new_dir, new_path: q }
            &&& table::lookup(table, fd) matches Ok(Entry::Descriptor(Descriptor::Dir(source)))
            &&& table::lookup(table, new_fd) matches Ok(Entry::Descriptor(Descriptor::Dir(target)))
            &&& dir == source.dir && new_dir == target.dir
            &&& p == old_path && q == new_path
        },
        linked matches Ok(call) ==> {
            &&& call matches FsCall::HardLink { dir, old_path: p, new_dir, new_path: q }
            &&& table::lookup(table, fd) matches Ok(Entry::Descriptor(Descriptor::Dir(source)))
            &&& table::lookup(table, new_fd) matches Ok(Entry::Descriptor(Descriptor::Dir(target)))
            &&& dir == source.dir && new_dir == target.dir
            &&& p == old_path && q == new_path
        },
        (from matches Ok(Descriptor::Dir(source)) && source.perms.contains(
            crate::filesystem::flags::DirPerms::mutate(),
        )) && (to matches Ok(Descriptor::Dir(target)) && target.perms.contains(
            crate::filesystem::flags::DirPerms::mutate(),
        )) ==> renamed is Ok && (linked is Ok <==> !flags.contains(PathFlags::symlink_follow())),
        from is Ok && to is Ok ==> asked is Ok,
        asked matches Ok((a, b)) ==> {
            &&& from matches Ok(Descriptor::File(f)) ==> a == (FsCall::FileMetadata {
                file: f.file,
            })
            &&& from matches Ok(Descriptor::Dir(d)) ==> a == (FsCall::DirMetadata { dir: d.dir })
            &&& to matches Ok(Descriptor::File(f)) ==> b == (FsCall::FileMetadata { file: f.file })
            &&& to matches Ok(Descriptor::Dir(d)) ==> b == (FsCall::DirMetadata { dir: d.dir })
        },
{
}

/// Opening a path under the directory of a key is what opening it under that
/// directory is.
pub proof fn law_opening_is_under_the_key(
    table: ResourceTable,
    fd: Key,
    path_flags: PathFlags,
    path: String,
    oflags: OpenFlags,
    flags: DescriptorFlags,
    d: Descriptor,
    own: Result<(FsCall, OpenMode), ErrorCode>,
    r: FsResult<(FsCall, OpenMode)>,
)
    requires
        table::lookup(table, fd) == Ok::<Entry, TableError>(Entry::Descriptor(d)),
        call_ensures(Descriptor::open_at, (&d, path_flags, path, oflags, flags), own),
        call_ensures(open_at, (&table, fd, path_flags, path, oflags, flags), r),
    ensures
        match own {
            Ok(opened) => r == Ok::<(FsCall, OpenMode), FsError>(opened),
            Err(e) => r == Err::<(FsCall, OpenMode), FsError>(FsError::Code(e)),
        },
{
}

/// What was opened under a directory is found under the key that the guest
/// gets: the very thing that was opened, with the mode that was asked for and
/// the permissions that the directory passes on. Nothing else in the table
/// changes, and nothing at all where it could not be opened.
pub proof fn law_opened_is_found_under_its_key(
    table: &mut ResourceTable,
    platform: Platform,
    fd: Key,
    outcome: Result<(OpenedKind, Handle), IoError>,
    open_mode: OpenMode,
    code: ErrorCode,
    other: Key,
    r: FsResult<Key>,
)
    requires
        call_ensures(opened_at, (table, &platform, fd, outcome, open_mode), r),
        outcome matches Err(e) ==> call_ensures(Platform::filesystem_error, (&platform, e), code),
    ensures
        r matches Ok(key) ==> {
            &&& table::lookup(*old(table), key) == Err::<Entry, TableError>(TableError::NotPresent)
            &&& table::lookup(*old(table), fd) matches Ok(Entry::Descriptor(Descriptor::Dir(d)))
            &&& outcome matches Ok((kind, handle))
            &&& match kind {
                OpenedKind::Dir => {
                    &&& table::lookup(*final(table), key) matches Ok(
                        Entry::Descriptor(Descriptor::Dir(opened)),
                    )
                    &&& opened.dir == handle && opened.open_mode == open_mode
                    &&& opened.perms == d.perms && opened.file_perms == d.file_perms
                    &&& opened.allow_blocking_current_thread == d.allow_blocking_current_thread
                },
                OpenedKind::File => {
                    &&& table::lookup(*final(table), key) matches Ok(
                        Entry::Descriptor(Descriptor::File(opened)),
                    )
                    &&& opened.file == handle && opened.open_mode == open_mode
                    &&& opened.perms == d.file_perms
                    &&& opened.allow_blocking_current_thread == d.allow_blocking_current_thread
                },
                OpenedKind::NotDir => false,
            }
            &&& other != key ==> table::lookup(*final(table), other) == table::lookup(
                *old(table),
                other,
            )
        },
        r is Err ==> table::unchanged(*old(table), *final(table)),
        table::lookup(*old(table), fd) matches Ok(Entry::Descriptor(Descriptor::Dir(d))) ==> {
            &&& outcome is Err ==> r == Err::<Key, FsError>(FsError::Code(code))
            &&& outcome matches Ok((OpenedKind::NotDir, _)) ==> r == Err::<Key, FsError>(
                FsError::Code(ErrorCode::NotDirectory),
            )
            &&& outcome matches Ok((kind, _)) ==> (!(kind is NotDir) ==> (r is Ok
                <==> !table::is_full(*old(table))))
        },
{
}

/// A stream over the file of a key is found under the key that the guest gets,
/// and is the one that the descriptor itself gives; where that gives none, the
/// guest is told why, and the table stays as it is.
pub proof fn law_file_streams_are_found_under_their_keys(
    reading: &mut ResourceTable,
    writing: &mut ResourceTable,
    appending: &mut ResourceTable,
    fd: Key,
    offset: Filesize,
    d: Descriptor,
    reads: Result<FileInputStream, ErrorCode>,
    writes: Result<FileOutputStream, ErrorCode>,
    appends: Result<FileOutputStream, ErrorCode>,
    r: FsResult<Key>,
    w: FsResult<Key>,
    a: FsResult<Key>,
)
    requires
        *old(writing) == *old(reading),
        *old(appending) == *old(reading),
        table::lookup(*old(reading), fd) == Ok::<Entry, TableError>(Entry::Descriptor(d)),
        call_ensures(Descriptor::read_via_stream, (&d, offset), reads),
        call_ensures(Descriptor::write_via_stream, (&d, offset), writes),
        call_ensures(Descriptor::append_via_stream, (&d,), appends),
        call_ensures(read_via_stream, (reading, fd, offset), r),
        call_ensures(write_via_stream, (writing, fd, offset), w),
        call_ensures(append_via_stream, (appending, fd), a),
    ensures
        r matches Ok(key) ==> {
            &&& table::lookup(*old(reading), key) is Err
            &&& reads matches Ok(stream)
            &&& table::lookup(*final(reading), key) == Ok::<Entry, TableError>(
                Entry::InputStream(InputStream::File(stream)),
            )
        },
        w matches Ok(key) ==> {
            &&& table::lookup(*old(writing), key) is Err
            &&& writes matches Ok(stream)
            &&& table::lookup(*final(writing), key) == Ok::<Entry, TableError>(
                Entry::OutputStream(OutputStream::File(stream)),
            )
        },
        a matches Ok(key) ==> {
            &&& table::lookup(*old(appending), key) is Err
            &&& appends matches Ok(stream)
            &&& table::lookup(*final(appending), key) == Ok::<Entry, TableError>(
                Entry::OutputStream(OutputStream::File(stream)),
            )
        },
        reads matches Err(e) ==> r == Err::<Key, FsError>(FsError::Code(e)),
        writes matches Err(e) ==> w == Err::<Key, FsError>(FsError::Code(e)),
        appends matches Err(e) ==> a == Err::<Key, FsError>(FsError::Code(e)),
        reads is Ok ==> (r is Ok <==> !table::is_full(*old(reading))),
        writes is Ok ==> (w is Ok <==> !table::is_full(*old(reading))),
        appends is Ok ==> (a is Ok <==> !table::is_full(*old(reading))),
{
}

/// Of a failure that a stream handed to the guest, the code is that of the
/// operating system's error, where it was one; any other failure has none.
pub proof fn law_stream_failures_have_codes(
    table: ResourceTable,
    platform: Platform,
    err: Key,
    failure: Failure,
    code: ErrorCode,
    r: Result<Option<ErrorCode>, TableError>,
)
    requires
        table::lookup(table, err) == Ok::<Entry, TableError>(Entry::Error(failure)),
        failure matches Failure::Io(e) ==> call_ensures(
            Platform::filesystem_error,
            (&platform, e),
            code,
        ),
        call_ensures(filesystem_error_code, (&table, &platform, err), r),
    ensures
        failure is Io ==> r == Ok::<Option<ErrorCode>, TableError>(Some(code)),
        !(failure is Io) ==> r == Ok::<Option<ErrorCode>, TableError>(None),
{
}

/// The entries of a directory that was listed are found under the key that the
/// guest gets, as they were found; one that could not be listed is told.
pub proof fn law_listings_are_found_under_their_keys(
    table: &mut ResourceTable,
    platform: Platform,
    found: Result<Vec<Result<FoundEntry, IoError>>, IoError>,
    entries: ReaddirIterator,
    code: ErrorCode,
    r: FsResult<Key>,
)
    requires
        call_ensures(directory_read, (table, &platform, found), r),
        found matches Ok(items) ==> call_ensures(
            Platform::read_directory,
            (&platform, items),
            entries,
        ),
        found matches Err(e) ==> call_ensures(Platform::filesystem_error, (&platform, e), code),
    ensures
        found is Err ==> r == Err::<Key, FsError>(FsError::Code(code)),
        found is Ok ==> (r is Ok <==> !table::is_full(*old(table))),
        r matches Ok(key) ==> {
            &&& table::lookup(*old(table), key) is Err
            &&& table::lookup(*final(table), key) matches Ok(Entry::DirectoryEntryStream(stored))
            &&& stored@ == entries@
        },
        r is Err ==> table::unchanged(*old(table), *final(table)),
{
}

/// Entries of a directory come from the stream under the key, in order, each
/// once, as the stream itself hands them out; nothing else in the table
/// changes.
pub proof fn law_entries_come_from_their_stream(
    table: &mut ResourceTable,
    stream: Key,
    other: Key,
    r: FsResult<Option<DirectoryEntry>>,
)
    requires
        call_ensures(read_directory_entry, (table, stream), r),
        other != stream,
    ensures
        table::lookup(*final(table), other) == table::lookup(*old(table), other),
        table::lookup(*old(table), stream) matches Ok(Entry::DirectoryEntryStream(readdir)) ==> {
            &&& table::lookup(*final(table), stream) matches Ok(Entry::DirectoryEntryStream(rest))
            &&& if readdir@.len() == 0 {
                r == Ok::<Option<DirectoryEntry>, FsError>(None) && rest@.len() == 0
            } else {
                &&& readdir@ == seq![readdir@[0]] + rest@
                &&& readdir@[0] matches Ok(entry) ==> r == Ok::<Option<DirectoryEntry>, FsError>(
                    Some(entry),
                )
                &&& readdir@[0] matches Err(e) ==> r == Err::<Option<DirectoryEntry>, FsError>(
                    FsError::Code(e),
                )
            }
        },
        !(table::lookup(*old(table), stream) matches Ok(Entry::DirectoryEntryStream(_))) ==> {
            &&& r == Err::<Option<DirectoryEntry>, FsError>(
                FsError::Trap(table::refusal(table::lookup(*old(table), stream))),
            )
            &&& table::unchanged(*old(table), *final(table))
        },
{
    if let Ok(Entry::DirectoryEntryStream(readdir)) = table::lookup(*old(table), stream) {
        if readdir@.len() > 0 {
            assert(readdir@ =~= seq![readdir@[0]] + readdir@.skip(1));
        }
    }
}

/// The directories that a guest is given from the start are found under the
/// keys that it gets for them, in their order and under their names, and no two
/// under one key.
pub proof fn law_preopened_directories_are_found(
    table: &mut ResourceTable,
    preopens: Vec<(RealDir, String)>,
    i: int,
    j: int,
    r: Result<Vec<(Key, String)>, TableError>,
)
    requires
        call_ensures(get_directories, (table, &preopens), r),
        0 <= i < j < preopens@.len(),
    ensures
        r matches Ok(found) ==> {
            &&& found@.len() == preopens@.len()
            &&& table::lookup(*final(table), found@[i].0) == Ok::<Entry, TableError>(
                Entry::Descriptor(Descriptor::Dir(preopens@[i].0)),
            )
            &&& table::lookup(*final(table), found@[j].0) == Ok::<Entry, TableError>(
                Entry::Descriptor(Descriptor::Dir(preopens@[j].0)),
            )
            &&& found@[i].1@ == preopens@[i].1@
            &&& found@[j].1@ == preopens@[j].1@
            &&& found@[i].0 != found@[j].0
        },
        r matches Err(e) ==> e == TableError::Full,
{
}

/// Descriptors and streams of entries are closed by what they are, and nothing
/// but what is named is closed.
pub proof fn law_filesystem_drops(
    table: &mut ResourceTable,
    same: &mut ResourceTable,
    key: Key,
    other: Key,
    r: Result<(), TableError>,
    s: Result<(), TableError>,
)
    requires
        call_ensures(drop_descriptor, (table, key), r),
        call_ensures(drop_directory_entry_stream, (same, key), s),
        other != key,
    ensures
        r is Ok ==> {
            &&& table::lookup(*old(table), key) matches Ok(Entry::Descriptor(_))
            &&& table::lookup(*final(table), key) is Err
        },
        s is Ok ==> {
            &&& table::lookup(*old(same), key) matches Ok(Entry::DirectoryEntryStream(_))
            &&& table::lookup(*final(same), key) is Err
        },
        table::lookup(*final(table), other) == table::lookup(*old(table), other),
        table::lookup(*final(same), other) == table::lookup(*old(same), other),
        (table::lookup(*old(table), key) matches Ok(Entry::Descriptor(_))) && !table::has_children(
            *old(table),
            key,
        ) ==> r is Ok,
        (table::lookup(*old(same), key) matches Ok(Entry::DirectoryEntryStream(_)))
            && !table::has_children(*old(same), key) ==> s is Ok,
{
}

/// Another resource than a descriptor, or none, stops the guest, and nothing has
/// happened: the first of two keys comes before the second. An error that is
/// asked about must be one.
pub proof fn law_other_resources_stop_the_guest(
    table: ResourceTable,
    platform: Platform,
    fd: Key,
    other: Key,
    path_flags: PathFlags,
    oflags: OpenFlags,
    flags: DescriptorFlags,
    path: String,
    new_path: String,
    link: FsResult<FsCall>,
    rename: FsResult<FsCall>,
    same: FsResult<(FsCall, FsCall)>,
    open: FsResult<(FsCall, OpenMode)>,
    code: Result<Option<ErrorCode>, TableError>,
)
    requires
        call_ensures(link_at, (&table, fd, path_flags, path, other, new_path), link),
        call_ensures(rename_at, (&table, fd, path, other, new_path), rename),
        call_ensures(is_same_object, (&table, fd, other), same),
        call_ensures(open_at, (&table, fd, path_flags, path, oflags, flags), open),
        call_ensures(filesystem_error_code, (&table, &platform, fd), code),
    ensures
        ({
            let one = table::lookup(table, fd) matches Ok(Entry::Descriptor(_));
            let two = table::lookup(table, other) matches Ok(Entry::Descriptor(_));
            let first = FsError::Trap(table::refusal(table::lookup(table, fd)));
            let second = FsError::Trap(table::refusal(table::lookup(table, other)));
            &&& !one ==> {
                &&& link == Err::<FsCall, _>(first)
                &&& rename == link
                &&& same == Err::<(FsCall, FsCall), _>(first)
                &&& open == Err::<(FsCall, OpenMode), _>(first)
            }
            &&& one && !two ==> {
                &&& link == Err::<FsCall, _>(second)
                &&& rename == link
                &&& same == Err::<(FsCall, FsCall), _>(second)
            }
        }),
        !(table::lookup(table, fd) matches Ok(Entry::Error(_))) ==> code == Err::<
            Option<ErrorCode>,
            _,
        >(table::refusal(table::lookup(table, fd))),
{
}

/// Streams are of descriptors, and paths are opened under them: another resource,
/// or none, stops the guest, and nothing has happened.
pub proof fn law_streams_belong_to_descriptors(
    reading: &mut ResourceTable,
    writing: &mut ResourceTable,
    appending: &mut ResourceTable,
    opening: &mut ResourceTable,
    platform: Platform,
    fd: Key,
    offset: Filesize,
    outcome: Result<(OpenedKind, Handle), IoError>,
    open_mode: OpenMode,
    a: FsResult<Key>,
    b: FsResult<Key>,
    c: FsResult<Key>,
    d: FsResult<Key>,
)
    requires
        call_ensures(read_via_stream, (reading, fd, offset), a),
        call_ensures(write_via_stream, (writing, fd, offset), b),
        call_ensures(append_via_stream, (appending, fd), c),
        call_ensures(opened_at, (opening, &platform, fd, outcome, open_mode), d),
    ensures
        !(table::lookup(*old(reading), fd) matches Ok(Entry::Descriptor(_))) ==> a == Err::<Key, _>(
            FsError::Trap(table::refusal(table::lookup(*old(reading), fd))),
        ) && *final(reading) == *old(reading),
        !(table::lookup(*old(writing), fd) matches Ok(Entry::Descriptor(_))) ==> b == Err::<Key, _>(
            FsError::Trap(table::refusal(table::lookup(*old(writing), fd))),
        ) && *final(writing) == *old(writing),
        !(table::lookup(*old(appending), fd) matches Ok(Entry::Descriptor(_))) ==> c == Err::<
            Key,
            _,
        >(FsError::Trap(table::refusal(table::lookup(*old(appending), fd)))) && *final(appending)
            == *old(appending),
        !(table::lookup(*old(opening), fd) matches Ok(Entry::Descriptor(_))) ==> d == Err::<Key, _>(
            FsError::Trap(table::refusal(table::lookup(*old(opening), fd))),
        ) && *final(opening) == *old(opening),
{
}

} // verus!
