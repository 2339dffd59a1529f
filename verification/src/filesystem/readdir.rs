//! The entries of a directory.
use super::times;
use super::types::{DescriptorType, DirectoryEntry, ErrorCode, FileType};
use super::windows;
use crate::errno::Platform;
use crate::error::IoError;
use std::collections::VecDeque;
use vstd::prelude::*;

verus! {

/// An entry as the operating system reports it: what it is, and its name
/// where that is text.
#[derive(Clone, Debug, PartialEq, Eq)]
pub struct FoundEntry {
    pub file_type: FileType,
    pub name: Option<String>,
}

impl Platform {
    /// What the guest is told of an entry.
    pub open spec fn directory_entry_spec(self, found: Result<FoundEntry, IoError>) -> Result<
        DirectoryEntry,
        ErrorCode,
    > {
        match found {
            Ok(entry) => match entry.name {
                Some(name) => Ok(
                    DirectoryEntry { type_: times::descriptortype_spec(entry.file_type), name },
                ),
                None => Err(ErrorCode::IllegalByteSequence),
            },
            Err(e) => Err(self.filesystem_error_spec(e)),
        }
    }

    pub fn directory_entry(&self, found: Result<FoundEntry, IoError>) -> (r: Result<
        DirectoryEntry,
        ErrorCode,
    >)
        ensures
            r == self.directory_entry_spec(found),
    {
        match found {
            Ok(entry) => {
                let type_ = times::descriptortype_from(entry.file_type);
                match entry.name {
                    Some(name) => Ok(DirectoryEntry { type_, name }),
                    None => Err(ErrorCode::IllegalByteSequence),
                }
            },
            Err(e) => Err(self.filesystem_error(e)),
        }
    }

    /// Of what was found in a directory, what is listed.
    pub open spec fn listed(self, found: Seq<Result<FoundEntry, IoError>>) -> Seq<
        Result<FoundEntry, IoError>,
    > {
        if self.windows {
            found.filter(|entry| windows::lists_entry_spec(entry))
        } else {
            found
        }
    }

    /// The entries of a directory that are listed, as the guest is told of
    /// them, in the order in which they were found. An entry that cannot be
    /// told is an error in its place, and ends nothing.
    pub fn read_directory(&self, found: Vec<Result<FoundEntry, IoError>>) -> (r: ReaddirIterator)
        ensures
            r@ == self.listed(found@).map_values(|entry| self.directory_entry_spec(entry)),
    {
        let found: Vec<Result<FoundEntry, IoError>> = if self.windows {
            windows::listed_entries(found)
        } else {
            found
        };
        let ghost all = found@;
        let mut rest: Vec<Result<FoundEntry, IoError>> = found;
        let mut entries: VecDeque<Result<DirectoryEntry, ErrorCode>> = VecDeque::new();
        while rest.len() > 0
            invariant
                rest@.len() <= all.len(),
                rest@ == all.take(rest@.len() as int),
                entries@ == all.skip(rest@.len() as int).map_values(
                    |entry| self.directory_entry_spec(entry),
                ),
            decreases rest@.len(),
        {
            match rest.pop() {
                Some(entry) => {
                    let told: Result<DirectoryEntry, ErrorCode> = self.directory_entry(entry);
                    entries.push_front(told);
                },
                None => {},
            }
        }
        assert(all.skip(0) =~= all);
        ReaddirIterator::new(entries)
    }
}

/// Hands out the entries of a directory, one by one.
#[derive(Debug)]
pub struct ReaddirIterator {
    rest: VecDeque<Result<DirectoryEntry, ErrorCode>>,
}

impl View for ReaddirIterator {
    type V = Seq<Result<DirectoryEntry, ErrorCode>>;

    closed spec fn view(&self) -> Seq<Result<DirectoryEntry, ErrorCode>> {
        self.rest@
    }
}

impl ReaddirIterator {
    pub fn new(entries: VecDeque<Result<DirectoryEntry, ErrorCode>>) -> (r: ReaddirIterator)
        ensures
            r@ == entries@,
    {
        ReaddirIterator { rest: entries }
    }

    /// The next entry; nothing once there is none left.
    pub fn next(&mut self) -> (r: Result<Option<DirectoryEntry>, ErrorCode>)
        ensures
            if old(self)@.len() == 0 {
                r == Ok::<Option<DirectoryEntry>, ErrorCode>(None) && final(self)@ == old(self)@
            } else {
                &&& r == match old(self)@[0] {
                    Ok(entry) => Ok::<Option<DirectoryEntry>, ErrorCode>(Some(entry)),
                    Err(e) => Err(e),
                }
                &&& final(self)@ == old(self)@.skip(1)
            },
    {
        match self.rest.pop_front() {
            Some(Ok(entry)) => Ok(Some(entry)),
            Some(Err(e)) => Err(e),
            None => Ok(None),
        }
    }

    /// The entries that were not handed out.
    pub fn into_iter(self) -> (r: VecDeque<Result<DirectoryEntry, ErrorCode>>)
        ensures
            r@ == self@,
    {
        self.rest
    }
}

/// The items of a vector, last first.
pub(crate) fn reversed<T>(items: Vec<T>) -> (r: Vec<T>)
    ensures
        r@ == items@.reverse(),
{
    let ghost all = items@;
    let mut rest: Vec<T> = items;
    let mut out: Vec<T> = Vec::new();
    while rest.len() > 0
        invariant
            rest@.len() <= all.len(),
            rest@ == all.take(rest@.len() as int),
            out@ == all.skip(rest@.len() as int).reverse(),
        decreases rest@.len(),
    {
        match rest.pop() {
            Some(item) => out.push(item),
            None => {},
        }
    }
    assert(all.skip(0) =~= all);
    out
}

/// An entry is told by its own name and type. One whose name is no text cannot
/// be told, and why another could not be looked at is told.
pub proof fn law_entries_are_told_as_found(
    platform: Platform,
    found: Result<FoundEntry, IoError>,
    type_: DescriptorType,
    code: ErrorCode,
    r: Result<DirectoryEntry, ErrorCode>,
)
    requires
        call_ensures(Platform::directory_entry, (&platform, found), r),
        found matches Ok(entry) ==> call_ensures(
            times::descriptortype_from,
            (entry.file_type,),
            type_,
        ),
        found matches Err(e) ==> call_ensures(Platform::filesystem_error, (&platform, e), code),
    ensures
        match found {
            Ok(entry) => match entry.name {
                Some(name) => r == Ok::<_, ErrorCode>(DirectoryEntry { type_, name }),
                None => r == Err::<DirectoryEntry, _>(ErrorCode::IllegalByteSequence),
            },
            Err(e) => r == Err::<DirectoryEntry, _>(code),
        },
{
}

/// Of everything that was found, each item is told, in its place: nothing is
/// left out, and nothing comes twice or elsewhere. On Windows that is so of
/// what is listed.
pub proof fn law_listing_is_complete_and_in_order(
    platform: Platform,
    found: Vec<Result<FoundEntry, IoError>>,
    listed: Vec<Result<FoundEntry, IoError>>,
    i: int,
    told: Result<DirectoryEntry, ErrorCode>,
    r: ReaddirIterator,
)
    requires
        call_ensures(Platform::read_directory, (&platform, found), r),
        if platform.windows {
            call_ensures(windows::listed_entries, (found,), listed)
        } else {
            listed@ == found@
        },
        0 <= i < listed@.len(),
        call_ensures(Platform::directory_entry, (&platform, listed@[i]), told),
    ensures
        r@.len() == listed@.len(),
        r@[i] == told,
{
}

/// Entries are handed out from the first on, one by one, errors in their place;
/// none is handed out twice, and those that were not can still be had. Once
/// there is none left, there is none.
pub proof fn law_entries_are_handed_out_in_order(
    readdir: &mut ReaddirIterator,
    r: Result<Option<DirectoryEntry>, ErrorCode>,
)
    requires
        call_ensures(ReaddirIterator::next, (readdir,), r),
    ensures
        r == Ok::<Option<DirectoryEntry>, ErrorCode>(None) <==> old(readdir)@.len() == 0,
        old(readdir)@.len() == 0 ==> final(readdir)@.len() == 0,
        old(readdir)@.len() > 0 ==> {
            &&& final(readdir)@.len() == old(readdir)@.len() - 1
            &&& old(readdir)@ == seq![
                match r {
                    Ok(Some(entry)) => Ok::<DirectoryEntry, ErrorCode>(entry),
                    Ok(None) => arbitrary(),
                    Err(e) => Err(e),
                },
            ] + final(readdir)@
        },
{
    if old(readdir)@.len() > 0 {
        assert(old(readdir)@ =~= seq![old(readdir)@[0]] + old(readdir)@.skip(1));
    }
}

/// What an iterator is made of is what it hands out.
pub proof fn law_iterators_keep_their_entries(
    entries: VecDeque<Result<DirectoryEntry, ErrorCode>>,
    readdir: ReaddirIterator,
    rest: VecDeque<Result<DirectoryEntry, ErrorCode>>,
)
    requires
        call_ensures(ReaddirIterator::new, (entries,), readdir),
        call_ensures(ReaddirIterator::into_iter, (readdir,), rest),
    ensures
        readdir@ == entries@,
        rest@ == entries@,
{
}

} // verus!
