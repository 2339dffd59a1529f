//! What is particular to Windows.
use super::readdir::FoundEntry;
use super::types::ErrorCode;
use crate::error::IoError;
use vstd::prelude::*;

verus! {

pub const ERROR_FILE_NOT_FOUND: i32 = 2;

pub const ERROR_PATH_NOT_FOUND: i32 = 3;

pub const ERROR_ACCESS_DENIED: i32 = 5;

pub const ERROR_SHARING_VIOLATION: i32 = 32;

pub const ERROR_PRIVILEGE_NOT_HELD: i32 = 1314;

pub const ERROR_INVALID_HANDLE: i32 = 6;

pub const ERROR_INVALID_NAME: i32 = 123;

pub const ERROR_NOT_ENOUGH_MEMORY: i32 = 8;

pub const ERROR_OUTOFMEMORY: i32 = 14;

pub const ERROR_DIR_NOT_EMPTY: i32 = 145;

pub const ERROR_NOT_READY: i32 = 21;

pub const ERROR_BUSY: i32 = 170;

pub const ERROR_NOT_SUPPORTED: i32 = 50;

pub const ERROR_FILE_EXISTS: i32 = 80;

pub const ERROR_BROKEN_PIPE: i32 = 109;

pub const ERROR_BUFFER_OVERFLOW: i32 = 111;

pub const ERROR_NOT_A_REPARSE_POINT: i32 = 4390;

pub const ERROR_NEGATIVE_SEEK: i32 = 131;

pub const ERROR_DIRECTORY: i32 = 267;

pub const ERROR_ALREADY_EXISTS: i32 = 183;

pub const ERROR_STOPPED_ON_SYMLINK: i32 = 681;

pub const ERROR_DIRECTORY_NOT_SUPPORTED: i32 = 336;

/// What the guest is told of a system error code; nothing where the code does
/// not tell.
pub open spec fn error_code_spec(raw: i32) -> Option<ErrorCode> {
    match raw {
        2 => Some(ErrorCode::NoEntry),
        3 => Some(ErrorCode::NoEntry),
        5 => Some(ErrorCode::Access),
        32 => Some(ErrorCode::Access),
        1314 => Some(ErrorCode::NotPermitted),
        6 => Some(ErrorCode::BadDescriptor),
        123 => Some(ErrorCode::NoEntry),
        8 => Some(ErrorCode::InsufficientMemory),
        14 => Some(ErrorCode::InsufficientMemory),
        145 => Some(ErrorCode::NotEmpty),
        21 => Some(ErrorCode::Busy),
        170 => Some(ErrorCode::Busy),
        50 => Some(ErrorCode::Unsupported),
        80 => Some(ErrorCode::Exist),
        109 => Some(ErrorCode::Pipe),
        111 => Some(ErrorCode::NameTooLong),
        4390 => Some(ErrorCode::Invalid),
        131 => Some(ErrorCode::Invalid),
        267 => Some(ErrorCode::NotDirectory),
        183 => Some(ErrorCode::Exist),
        681 => Some(ErrorCode::Loop),
        336 => Some(ErrorCode::IsDirectory),
        _ => None,
    }
}

/// What the guest is told of a system error code, where there is one.
pub fn from_raw_os_error(raw_os_error: Option<i32>) -> (r: Option<ErrorCode>)
    ensures
        r == match raw_os_error {
            Some(raw) => error_code_spec(raw),
            None => None,
        },
{
    let raw: i32 = match raw_os_error {
        Some(raw) => raw,
        None => return None,
    };
    if raw == ERROR_FILE_NOT_FOUND || raw == ERROR_PATH_NOT_FOUND || raw == ERROR_INVALID_NAME {
        Some(ErrorCode::NoEntry)
    } else if raw == ERROR_ACCESS_DENIED || raw == ERROR_SHARING_VIOLATION {
        Some(ErrorCode::Access)
    } else if raw == ERROR_PRIVILEGE_NOT_HELD {
        Some(ErrorCode::NotPermitted)
    } else if raw == ERROR_INVALID_HANDLE {
        Some(ErrorCode::BadDescriptor)
    } else if raw == ERROR_NOT_ENOUGH_MEMORY || raw == ERROR_OUTOFMEMORY {
        Some(ErrorCode::InsufficientMemory)
    } else if raw == ERROR_DIR_NOT_EMPTY {
        Some(ErrorCode::NotEmpty)
    } else if raw == ERROR_NOT_READY || raw == ERROR_BUSY {
        Some(ErrorCode::Busy)
    } else if raw == ERROR_NOT_SUPPORTED {
        Some(ErrorCode::Unsupported)
    } else if raw == ERROR_FILE_EXISTS || raw == ERROR_ALREADY_EXISTS {
        Some(ErrorCode::Exist)
    } else if raw == ERROR_BROKEN_PIPE {
        Some(ErrorCode::Pipe)
    } else if raw == ERROR_BUFFER_OVERFLOW {
        Some(ErrorCode::NameTooLong)
    } else if raw == ERROR_NOT_A_REPARSE_POINT || raw == ERROR_NEGATIVE_SEEK {
        Some(ErrorCode::Invalid)
    } else if raw == ERROR_DIRECTORY {
        Some(ErrorCode::NotDirectory)
    } else if raw == ERROR_STOPPED_ON_SYMLINK {
        Some(ErrorCode::Loop)
    } else if raw == ERROR_DIRECTORY_NOT_SUPPORTED {
        Some(ErrorCode::IsDirectory)
    } else {
        None
    }
}

/// The system has denied to synchronize a file.
pub open spec fn sync_was_denied(e: IoError) -> bool {
    e.raw_os_error == Some(ERROR_ACCESS_DENIED)
}

/// What a file's synchronization came to. The system denies it on a file that
/// is not open for writing; POSIX does not, so that is no failure.
pub fn sync_outcome(outcome: Result<(), IoError>) -> (r: Result<(), IoError>)
    ensures
        match outcome {
            Ok(()) => r is Ok,
            Err(e) => if sync_was_denied(e) {
                r is Ok
            } else {
                r == Err::<(), IoError>(e)
            },
        },
{
    match outcome {
        Ok(()) => Ok(()),
        Err(e) => match e.raw_os_error {
            Some(raw) => if raw == ERROR_ACCESS_DENIED {
                Ok(())
            } else {
                Err(e)
            },
            None => Err(e),
        },
    }
}

/// Whether an entry is listed. Some system files deny access to their
/// metadata, and are left out.
pub open spec fn lists_entry_spec(entry: Result<FoundEntry, IoError>) -> bool {
    !(entry matches Err(e) && (e.raw_os_error == Some(ERROR_SHARING_VIOLATION)
        || e.raw_os_error == Some(ERROR_ACCESS_DENIED)))
}

fn lists_entry(entry: &Result<FoundEntry, IoError>) -> (r: bool)
    ensures
        r == lists_entry_spec(*entry),
{
    match entry {
        Ok(_) => true,
        Err(e) => match e.raw_os_error {
            Some(raw) => raw != ERROR_SHARING_VIOLATION && raw != ERROR_ACCESS_DENIED,
            None => true,
        },
    }
}

/// The entries that are listed, in their order.
pub fn listed_entries(found: Vec<Result<FoundEntry, IoError>>) -> (r: Vec<
    Result<FoundEntry, IoError>,
>)
    ensures
        r@ == found@.filter(|entry| lists_entry_spec(entry)),
{
    let ghost all = found@;
    let mut rest: Vec<Result<FoundEntry, IoError>> = found;
    let mut backward: Vec<Result<FoundEntry, IoError>> = Vec::new();
    let ghost listed = |entry| lists_entry_spec(entry);
    while rest.len() > 0
        invariant
            listed == (|entry| lists_entry_spec(entry)),
            rest@.len() <= all.len(),
            rest@ == all.take(rest@.len() as int),
            backward@.reverse() == all.skip(rest@.len() as int).filter(listed),
        decreases rest@.len(),
    {
        let ghost tail = all.skip(rest@.len() as int);
        match rest.pop() {
            Some(entry) => {
                proof {
                    assert(all.skip(rest@.len() as int) =~= seq![entry] + tail);
                    Seq::filter_distributes_over_add(seq![entry], tail, listed);
                    reveal_with_fuel(Seq::filter, 2);
                    assert(seq![entry].drop_last() =~= Seq::empty());
                }
                if lists_entry(&entry) {
                    let ghost before = backward@;
                    backward.push(entry);
                    assert(backward@.reverse() =~= seq![entry] + before.reverse());
                } else {
                    assert(backward@.reverse() =~= Seq::empty() + backward@.reverse());
                }
            },
            None => {},
        }
    }
    assert(all.skip(0) =~= all);
    crate::filesystem::readdir::reversed(backward)
}

/// Each code is given for the system error codes that mean it, and for no
/// others; where there is none, nothing is told.
pub proof fn law_system_codes_are_told(raw: i32, r: Option<ErrorCode>, none: Option<ErrorCode>)
    requires
        call_ensures(from_raw_os_error, (Some(raw),), r),
        call_ensures(from_raw_os_error, (None,), none),
    ensures
        none is None,
        r == Some(ErrorCode::NoEntry) <==> (raw == 2 || raw == 3 || raw == 123),
        r == Some(ErrorCode::Access) <==> (raw == 5 || raw == 32),
        r == Some(ErrorCode::NotPermitted) <==> (raw == 1314),
        r == Some(ErrorCode::BadDescriptor) <==> (raw == 6),
        r == Some(ErrorCode::InsufficientMemory) <==> (raw == 8 || raw == 14),
        r == Some(ErrorCode::NotEmpty) <==> (raw == 145),
        r == Some(ErrorCode::Busy) <==> (raw == 21 || raw == 170),
        r == Some(ErrorCode::Unsupported) <==> (raw == 50),
        r == Some(ErrorCode::Exist) <==> (raw == 80 || raw == 183),
        r == Some(ErrorCode::Pipe) <==> (raw == 109),
        r == Some(ErrorCode::NameTooLong) <==> (raw == 111),
        r == Some(ErrorCode::Invalid) <==> (raw == 4390 || raw == 131),
        r == Some(ErrorCode::NotDirectory) <==> (raw == 267),
        r == Some(ErrorCode::Loop) <==> (raw == 681),
        r == Some(ErrorCode::IsDirectory) <==> (raw == 336),
        r is Some <==> (raw == 2
            || raw == 3
            || raw == 5
            || raw == 6
            || raw == 8
            || raw == 14
            || raw == 21
            || raw == 32
            || raw == 50
            || raw == 80
            || raw == 109
            || raw == 111
            || raw == 123
            || raw == 131
            || raw == 145
            || raw == 170
            || raw == 183
            || raw == 267
            || raw == 336
            || raw == 681
            || raw == 1314
            || raw == 4390),
{
}

/// Only that the synchronization was denied is overlooked: every other failure
/// stays, as it is.
pub proof fn law_denied_synchronization_is_no_failure(
    error: IoError,
    good: Result<(), IoError>,
    bad: Result<(), IoError>,
)
    requires
        call_ensures(sync_outcome, (Ok(()),), good),
        call_ensures(sync_outcome, (Err(error),), bad),
    ensures
        good is Ok,
        bad is Ok <==> error.raw_os_error == Some(5i32),
        bad matches Err(e) ==> e == error,
{
}

/// An entry that is there is listed, and so is one that could not be looked at,
/// unless the system has denied that. What is listed of two directories after
/// one another is what is listed of the one and then what is listed of the
/// other: entries keep their order, and which others there are has no bearing.
pub proof fn law_listed_entries(
    one: Vec<Result<FoundEntry, IoError>>,
    a: Vec<Result<FoundEntry, IoError>>,
    b: Vec<Result<FoundEntry, IoError>>,
    both: Vec<Result<FoundEntry, IoError>>,
    listed_one: Vec<Result<FoundEntry, IoError>>,
    listed_a: Vec<Result<FoundEntry, IoError>>,
    listed_b: Vec<Result<FoundEntry, IoError>>,
    listed_both: Vec<Result<FoundEntry, IoError>>,
)
    requires
        one@.len() == 1,
        both@ == a@ + b@,
        call_ensures(listed_entries, (one,), listed_one),
        call_ensures(listed_entries, (a,), listed_a),
        call_ensures(listed_entries, (b,), listed_b),
        call_ensures(listed_entries, (both,), listed_both),
    ensures
        listed_both@ == listed_a@ + listed_b@,
        match one@[0] {
            Ok(_) => listed_one@ == one@,
            Err(e) => if e.raw_os_error == Some(5i32) || e.raw_os_error == Some(32i32) {
                listed_one@.len() == 0
            } else {
                listed_one@ == one@
            },
        },
{
    let listed = |entry: Result<FoundEntry, IoError>| lists_entry_spec(entry);
    Seq::filter_distributes_over_add(a@, b@, listed);
    reveal_with_fuel(Seq::filter, 2);
    assert(one@.drop_last() =~= Seq::empty());
    assert(one@ =~= Seq::empty().push(one@[0]));
}

} // verus!
