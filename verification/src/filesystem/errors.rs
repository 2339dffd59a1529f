//! From an error of the operating system to what the guest is told.
use super::types::ErrorCode;
use super::windows;
use crate::errno::{Errnos, Platform};
use crate::error::{IoError, IoErrorKind};
use vstd::prelude::*;

verus! {

impl Errnos {
    /// What the guest is told of an error number. Where two names share a
    /// number, the first of them decides.
    pub open spec fn filesystem_code_spec(self, raw: i32) -> Option<ErrorCode> {
        if raw == self.pipe {
            Some(ErrorCode::Pipe)
        } else if raw == self.perm {
            Some(ErrorCode::NotPermitted)
        } else if raw == self.noent {
            Some(ErrorCode::NoEntry)
        } else if raw == self.nomem {
            Some(ErrorCode::InsufficientMemory)
        } else if raw == self.io {
            Some(ErrorCode::Io)
        } else if raw == self.badf {
            Some(ErrorCode::BadDescriptor)
        } else if raw == self.busy {
            Some(ErrorCode::Busy)
        } else if raw == self.access {
            Some(ErrorCode::Access)
        } else if raw == self.notdir {
            Some(ErrorCode::NotDirectory)
        } else if raw == self.isdir {
            Some(ErrorCode::IsDirectory)
        } else if raw == self.inval {
            Some(ErrorCode::Invalid)
        } else if raw == self.exist {
            Some(ErrorCode::Exist)
        } else if raw == self.fbig {
            Some(ErrorCode::FileTooLarge)
        } else if raw == self.nospc {
            Some(ErrorCode::InsufficientSpace)
        } else if raw == self.spipe {
            Some(ErrorCode::InvalidSeek)
        } else if raw == self.mlink {
            Some(ErrorCode::TooManyLinks)
        } else if raw == self.nametoolong {
            Some(ErrorCode::NameTooLong)
        } else if raw == self.notempty {
            Some(ErrorCode::NotEmpty)
        } else if raw == self.looped {
            Some(ErrorCode::Loop)
        } else if raw == self.overflow {
            Some(ErrorCode::Overflow)
        } else if raw == self.ilseq {
            Some(ErrorCode::IllegalByteSequence)
        } else if raw == self.notsup {
            Some(ErrorCode::Unsupported)
        } else if raw == self.already {
            Some(ErrorCode::Already)
        } else if raw == self.inprogress {
            Some(ErrorCode::InProgress)
        } else if raw == self.intr {
            Some(ErrorCode::Interrupted)
        } else if raw == self.opnotsupp {
            Some(ErrorCode::Unsupported)
        } else {
            None
        }
    }

    proof fn lemma_no_code_out_of_range(self, raw: i32)
        requires
            self.in_range(),
        ensures
            !(1 <= raw < 4096) ==> self.filesystem_code_spec(raw) is None,
    {
        assert(self.pipe == self.numbers()[50]);
        assert(self.perm == self.numbers()[48]);
        assert(self.noent == self.numbers()[35]);
        assert(self.nomem == self.numbers()[36]);
        assert(self.io == self.numbers()[22]);
        assert(self.badf == self.numbers()[6]);
        assert(self.busy == self.numbers()[8]);
        assert(self.access == self.numbers()[0]);
        assert(self.notdir == self.numbers()[42]);
        assert(self.isdir == self.numbers()[24]);
        assert(self.inval == self.numbers()[21]);
        assert(self.exist == self.numbers()[13]);
        assert(self.fbig == self.numbers()[15]);
        assert(self.nospc == self.numbers()[39]);
        assert(self.spipe == self.numbers()[55]);
        assert(self.mlink == self.numbers()[27]);
        assert(self.nametoolong == self.numbers()[29]);
        assert(self.notempty == self.numbers()[43]);
        assert(self.looped == self.numbers()[25]);
        assert(self.overflow == self.numbers()[47]);
        assert(self.ilseq == self.numbers()[18]);
        assert(self.notsup == self.numbers()[45]);
        assert(self.already == self.numbers()[5]);
        assert(self.inprogress == self.numbers()[19]);
        assert(self.intr == self.numbers()[20]);
        assert(self.opnotsupp == self.numbers()[46]);
    }

    /// See [`Errnos::filesystem_code_spec`].
    pub fn filesystem_code(&self, raw: i32) -> (r: Option<ErrorCode>)
        ensures
            r == self.filesystem_code_spec(raw),
    {
        if raw == self.pipe {
            Some(ErrorCode::Pipe)
        } else if raw == self.perm {
            Some(ErrorCode::NotPermitted)
        } else if raw == self.noent {
            Some(ErrorCode::NoEntry)
        } else if raw == self.nomem {
            Some(ErrorCode::InsufficientMemory)
        } else if raw == self.io {
            Some(ErrorCode::Io)
        } else if raw == self.badf {
            Some(ErrorCode::BadDescriptor)
        } else if raw == self.busy {
            Some(ErrorCode::Busy)
        } else if raw == self.access {
            Some(ErrorCode::Access)
        } else if raw == self.notdir {
            Some(ErrorCode::NotDirectory)
        } else if raw == self.isdir {
            Some(ErrorCode::IsDirectory)
        } else if raw == self.inval {
            Some(ErrorCode::Invalid)
        } else if raw == self.exist {
            Some(ErrorCode::Exist)
        } else if raw == self.fbig {
            Some(ErrorCode::FileTooLarge)
        } else if raw == self.nospc {
            Some(ErrorCode::InsufficientSpace)
        } else if raw == self.spipe {
            Some(ErrorCode::InvalidSeek)
        } else if raw == self.mlink {
            Some(ErrorCode::TooManyLinks)
        } else if raw == self.nametoolong {
            Some(ErrorCode::NameTooLong)
        } else if raw == self.notempty {
            Some(ErrorCode::NotEmpty)
        } else if raw == self.looped {
            Some(ErrorCode::Loop)
        } else if raw == self.overflow {
            Some(ErrorCode::Overflow)
        } else if raw == self.ilseq {
            Some(ErrorCode::IllegalByteSequence)
        } else if raw == self.notsup {
            Some(ErrorCode::Unsupported)
        } else if raw == self.already {
            Some(ErrorCode::Already)
        } else if raw == self.inprogress {
            Some(ErrorCode::InProgress)
        } else if raw == self.intr {
            Some(ErrorCode::Interrupted)
        } else if raw == self.opnotsupp {
            Some(ErrorCode::Unsupported)
        } else {
            None
        }
    }
}

impl Platform {
    /// What the guest is told of an error number.
    pub open spec fn filesystem_code_spec(self, raw: i32) -> Option<ErrorCode> {
        if self.windows {
            windows::error_code_spec(raw)
        } else {
            self.errnos.filesystem_code_spec(raw)
        }
    }

    /// See [`Platform::filesystem_code_spec`]; nothing where there is no
    /// number.
    pub fn filesystem_code(&self, raw_os_error: Option<i32>) -> (r: Option<ErrorCode>)
        ensures
            r == match raw_os_error {
                Some(raw) => self.filesystem_code_spec(raw),
                None => None,
            },
    {
        if self.windows {
            windows::from_raw_os_error(raw_os_error)
        } else {
            match raw_os_error {
                Some(raw) => self.errnos.filesystem_code(raw),
                None => None,
            }
        }
    }

    /// What the guest is told of an I/O error: by its number where that has
    /// a code of its own, by its class otherwise.
    pub open spec fn filesystem_error_spec(self, error: IoError) -> ErrorCode {
        let by_number = match error.raw_os_error {
            Some(raw) => self.filesystem_code_spec(raw),
            None => None,
        };
        match by_number {
            Some(code) => code,
            None => match error.kind {
                IoErrorKind::NotFound => ErrorCode::NoEntry,
                IoErrorKind::PermissionDenied => ErrorCode::NotPermitted,
                IoErrorKind::AlreadyExists => ErrorCode::Exist,
                IoErrorKind::InvalidInput => ErrorCode::Invalid,
                _ => ErrorCode::Io,
            },
        }
    }

    /// See [`Platform::filesystem_error_spec`].
    pub fn filesystem_error(&self, error: IoError) -> (r: ErrorCode)
        ensures
            r == self.filesystem_error_spec(error),
    {
        match self.filesystem_code(error.raw_os_error) {
            Some(code) => code,
            None => match error.kind {
                IoErrorKind::NotFound => ErrorCode::NoEntry,
                IoErrorKind::PermissionDenied => ErrorCode::NotPermitted,
                IoErrorKind::AlreadyExists => ErrorCode::Exist,
                IoErrorKind::InvalidInput => ErrorCode::Invalid,
                _ => ErrorCode::Io,
            },
        }
    }

    /// What the guest is told where no random bytes could be had: by the
    /// error's number where that has a code of its own, [`ErrorCode::Io`]
    /// otherwise.
    pub fn random_error(&self, raw_os_error: Option<i32>) -> (r: ErrorCode)
        ensures
            r == match raw_os_error {
                Some(raw) => match self.filesystem_code_spec(raw) {
                    Some(code) => code,
                    None => ErrorCode::Io,
                },
                None => ErrorCode::Io,
            },
    {
        self.filesystem_code(raw_os_error).unwrap_or(ErrorCode::Io)
    }

    /// A result of the operating system, its error turned into what the
    /// guest is told.
    pub fn filesystem_result<T>(&self, result: Result<T, IoError>) -> (r: Result<T, ErrorCode>)
        ensures
            r == match result {
                Ok(value) => Ok::<T, ErrorCode>(value),
                Err(e) => Err(self.filesystem_error_spec(e)),
            },
    {
        match result {
            Ok(value) => Ok(value),
            Err(e) => Err(self.filesystem_error(e)),
        }
    }

    /// What the guest is told of a file's synchronization.
    pub fn sync_result(&self, outcome: Result<(), IoError>) -> (r: Result<(), ErrorCode>)
        ensures
            match outcome {
                Ok(_) => r is Ok,
                Err(e) => if self.windows && windows::sync_was_denied(e) {
                    r is Ok
                } else {
                    r == Err::<(), ErrorCode>(self.filesystem_error_spec(e))
                },
            },
    {
        let outcome: Result<(), IoError> = if self.windows {
            windows::sync_outcome(outcome)
        } else {
            outcome
        };
        match outcome {
            Ok(()) => Ok(()),
            Err(e) => Err(self.filesystem_error(e)),
        }
    }
}

/// What the guest is told of an error number of the operating system that
/// this crate was built for: nothing where there is no number or none that an
/// error has, otherwise what [`Errnos::filesystem_code`] says by that system's
/// numbers, which are not stated.
pub fn from_raw_os_error(err: Option<i32>) -> (r: Option<ErrorCode>)
    ensures
        match err {
            Some(raw) => {
                &&& !(1 <= raw < 4096) ==> r is None
                &&& exists|host: Errnos|
                    host.is_host() && r == #[trigger] host.filesystem_code_spec(raw)
            },
            None => r is None,
        },
{
    match err {
        None => None,
        Some(raw) => {
            let host: Errnos = Errnos::host();
            proof {
                host.lemma_no_code_out_of_range(raw);
            }
            host.filesystem_code(raw)
        },
    }
}

/// A number that does not fit where it has to go.
impl From<core::num::TryFromIntError> for ErrorCode {
    fn from(_error: core::num::TryFromIntError) -> (r: ErrorCode) {
        ErrorCode::Overflow
    }
}

impl vstd::std_specs::convert::FromSpecImpl<core::num::TryFromIntError> for ErrorCode {
    open spec fn obeys_from_spec() -> bool {
        true
    }

    open spec fn from_spec(error: core::num::TryFromIntError) -> ErrorCode {
        ErrorCode::Overflow
    }
}

/// Each error number has the code of its name, and no code is given for another
/// number. Where two names share a number, the code is that of one of them.
pub proof fn law_filesystem_codes_go_by_their_names(
    errnos: Errnos,
    raw: i32,
    r: Option<ErrorCode>,
)
    requires
        call_ensures(Errnos::filesystem_code, (&errnos, raw), r),
    ensures
        r == Some(ErrorCode::Pipe) ==> raw == errnos.pipe,
        errnos.tells_apart() && (raw == errnos.pipe) ==> r == Some(
            ErrorCode::Pipe,
        ),
        r == Some(ErrorCode::NotPermitted) ==> raw == errnos.perm,
        errnos.tells_apart() && (raw == errnos.perm) ==> r == Some(
            ErrorCode::NotPermitted,
        ),
        r == Some(ErrorCode::NoEntry) ==> raw == errnos.noent,
        errnos.tells_apart() && (raw == errnos.noent) ==> r == Some(
            ErrorCode::NoEntry,
        ),
        r == Some(ErrorCode::InsufficientMemory) ==> raw == errnos.nomem,
        errnos.tells_apart() && (raw == errnos.nomem) ==> r == Some(
            ErrorCode::InsufficientMemory,
        ),
        r == Some(ErrorCode::Io) ==> raw == errnos.io,
        errnos.tells_apart() && (raw == errnos.io) ==> r == Some(
            ErrorCode::Io,
        ),
        r == Some(ErrorCode::BadDescriptor) ==> raw == errnos.badf,
        errnos.tells_apart() && (raw == errnos.badf) ==> r == Some(
            ErrorCode::BadDescriptor,
        ),
        r == Some(ErrorCode::Busy) ==> raw == errnos.busy,
        errnos.tells_apart() && (raw == errnos.busy) ==> r == Some(
            ErrorCode::Busy,
        ),
        r == Some(ErrorCode::Access) ==> raw == errnos.access,
        errnos.tells_apart() && (raw == errnos.access) ==> r == Some(
            ErrorCode::Access,
        ),
        r == Some(ErrorCode::NotDirectory) ==> raw == errnos.notdir,
        errnos.tells_apart() && (raw == errnos.notdir) ==> r == Some(
            ErrorCode::NotDirectory,
        ),
        r == Some(ErrorCode::IsDirectory) ==> raw == errnos.isdir,
        errnos.tells_apart() && (raw == errnos.isdir) ==> r == Some(
            ErrorCode::IsDirectory,
        ),
        r == Some(ErrorCode::Invalid) ==> raw == errnos.inval,
        errnos.tells_apart() && (raw == errnos.inval) ==> r == Some(
            ErrorCode::Invalid,
        ),
        r == Some(ErrorCode::Exist) ==> raw == errnos.exist,
        errnos.tells_apart() && (raw == errnos.exist) ==> r == Some(
            ErrorCode::Exist,
        ),
        r == Some(ErrorCode::FileTooLarge) ==> raw == errnos.fbig,
        errnos.tells_apart() && (raw == errnos.fbig) ==> r == Some(
            ErrorCode::FileTooLarge,
        ),
        r == Some(ErrorCode::InsufficientSpace) ==> raw == errnos.nospc,
        errnos.tells_apart() && (raw == errnos.nospc) ==> r == Some(
            ErrorCode::InsufficientSpace,
        ),
        r == Some(ErrorCode::InvalidSeek) ==> raw == errnos.spipe,
        errnos.tells_apart() && (raw == errnos.spipe) ==> r == Some(
            ErrorCode::InvalidSeek,
        ),
        r == Some(ErrorCode::TooManyLinks) ==> raw == errnos.mlink,
        errnos.tells_apart() && (raw == errnos.mlink) ==> r == Some(
            ErrorCode::TooManyLinks,
        ),
        r == Some(ErrorCode::NameTooLong) ==> raw == errnos.nametoolong,
        errnos.tells_apart() && (raw == errnos.nametoolong) ==> r == Some(
            ErrorCode::NameTooLong,
        ),
        r == Some(ErrorCode::NotEmpty) ==> raw == errnos.notempty,
        errnos.tells_apart() && (raw == errnos.notempty) ==> r == Some(
            ErrorCode::NotEmpty,
        ),
        r == Some(ErrorCode::Loop) ==> raw == errnos.looped,
        errnos.tells_apart() && (raw == errnos.looped) ==> r == Some(
            ErrorCode::Loop,
        ),
        r == Some(ErrorCode::Overflow) ==> raw == errnos.overflow,
        errnos.tells_apart() && (raw == errnos.overflow) ==> r == Some(
            ErrorCode::Overflow,
        ),
        r == Some(ErrorCode::IllegalByteSequence) ==> raw == errnos.ilseq,
        errnos.tells_apart() && (raw == errnos.ilseq) ==> r == Some(
            ErrorCode::IllegalByteSequence,
        ),
        r == Some(ErrorCode::Unsupported) ==> raw == errnos.notsup || raw == errnos.opnotsupp,
        errnos.tells_apart() && (raw == errnos.notsup || raw == errnos.opnotsupp) ==> r == Some(
            ErrorCode::Unsupported,
        ),
        r == Some(ErrorCode::Already) ==> raw == errnos.already,
        errnos.tells_apart() && (raw == errnos.already) ==> r == Some(
            ErrorCode::Already,
        ),
        r == Some(ErrorCode::InProgress) ==> raw == errnos.inprogress,
        errnos.tells_apart() && (raw == errnos.inprogress) ==> r == Some(
            ErrorCode::InProgress,
        ),
        r == Some(ErrorCode::Interrupted) ==> raw == errnos.intr,
        errnos.tells_apart() && (raw == errnos.intr) ==> r == Some(
            ErrorCode::Interrupted,
        ),
        r is Some <==> (raw == errnos.pipe
            || raw == errnos.perm
            || raw == errnos.noent
            || raw == errnos.nomem
            || raw == errnos.io
            || raw == errnos.badf
            || raw == errnos.busy
            || raw == errnos.access
            || raw == errnos.notdir
            || raw == errnos.isdir
            || raw == errnos.inval
            || raw == errnos.exist
            || raw == errnos.fbig
            || raw == errnos.nospc
            || raw == errnos.spipe
            || raw == errnos.mlink
            || raw == errnos.nametoolong
            || raw == errnos.notempty
            || raw == errnos.looped
            || raw == errnos.overflow
            || raw == errnos.ilseq
            || raw == errnos.notsup
            || raw == errnos.opnotsupp
            || raw == errnos.already
            || raw == errnos.inprogress
            || raw == errnos.intr),
{
    assert(errnos.numbers()[50] == errnos.pipe);
    assert(errnos.numbers()[48] == errnos.perm);
    assert(errnos.numbers()[35] == errnos.noent);
    assert(errnos.numbers()[36] == errnos.nomem);
    assert(errnos.numbers()[22] == errnos.io);
    assert(errnos.numbers()[6] == errnos.badf);
    assert(errnos.numbers()[8] == errnos.busy);
    assert(errnos.numbers()[0] == errnos.access);
    assert(errnos.numbers()[42] == errnos.notdir);
    assert(errnos.numbers()[24] == errnos.isdir);
    assert(errnos.numbers()[21] == errnos.inval);
    assert(errnos.numbers()[13] == errnos.exist);
    assert(errnos.numbers()[15] == errnos.fbig);
    assert(errnos.numbers()[39] == errnos.nospc);
    assert(errnos.numbers()[55] == errnos.spipe);
    assert(errnos.numbers()[27] == errnos.mlink);
    assert(errnos.numbers()[29] == errnos.nametoolong);
    assert(errnos.numbers()[43] == errnos.notempty);
    assert(errnos.numbers()[25] == errnos.looped);
    assert(errnos.numbers()[47] == errnos.overflow);
    assert(errnos.numbers()[18] == errnos.ilseq);
    assert(errnos.numbers()[45] == errnos.notsup);
    assert(errnos.numbers()[46] == errnos.opnotsupp);
    assert(errnos.numbers()[5] == errnos.already);
    assert(errnos.numbers()[19] == errnos.inprogress);
    assert(errnos.numbers()[20] == errnos.intr);
    assert(errnos.numbers()[4] == errnos.again);
    assert(errnos.numbers()[57] == errnos.wouldblock);
}

/// On Windows the numbers of Windows tell, elsewhere those of POSIX; where
/// there is no number, nothing does.
pub proof fn law_codes_go_by_the_platform(
    platform: Platform,
    raw: i32,
    r: Option<ErrorCode>,
    none: Option<ErrorCode>,
    windows: Option<ErrorCode>,
    posix: Option<ErrorCode>,
)
    requires
        call_ensures(Platform::filesystem_code, (&platform, Some(raw)), r),
        call_ensures(Platform::filesystem_code, (&platform, None), none),
        call_ensures(windows::from_raw_os_error, (Some(raw),), windows),
        call_ensures(Errnos::filesystem_code, (&platform.errnos, raw), posix),
    ensures
        none is None,
        platform.windows ==> r == windows,
        !platform.windows ==> r == posix,
{
}

/// An error is told by its number, where that has a code; otherwise by its
/// class, of which four have a code and all others are I/O errors. Where random
/// bytes could not be had only the number tells. A result that is no error is
/// handed on as it is.
pub proof fn law_errors_are_told_by_number_then_class(
    platform: Platform,
    error: IoError,
    code: Option<ErrorCode>,
    r: ErrorCode,
    random: ErrorCode,
    value: u64,
    good: Result<u64, ErrorCode>,
    bad: Result<u64, ErrorCode>,
)
    requires
        call_ensures(Platform::filesystem_code, (&platform, error.raw_os_error), code),
        call_ensures(Platform::filesystem_error, (&platform, error), r),
        call_ensures(Platform::random_error, (&platform, error.raw_os_error), random),
        call_ensures(Platform::filesystem_result::<u64>, (&platform, Ok(value)), good),
        call_ensures(Platform::filesystem_result::<u64>, (&platform, Err(error)), bad),
    ensures
        code matches Some(c) ==> r == c && random == c,
        code is None ==> {
            &&& random == ErrorCode::Io
            &&& error.kind is NotFound <==> r == ErrorCode::NoEntry
            &&& error.kind is PermissionDenied <==> r == ErrorCode::NotPermitted
            &&& error.kind is AlreadyExists <==> r == ErrorCode::Exist
            &&& error.kind is InvalidInput <==> r == ErrorCode::Invalid
            &&& !(error.kind is NotFound || error.kind is PermissionDenied
                || error.kind is AlreadyExists || error.kind is InvalidInput) ==> r
                == ErrorCode::Io
        },
        good == Ok::<u64, ErrorCode>(value),
        bad == Err::<u64, ErrorCode>(r),
{
}

/// A file's synchronization has failed where the operating system says so, but
/// for one that Windows denies.
pub proof fn law_sync_failures_are_told(
    platform: Platform,
    error: IoError,
    code: ErrorCode,
    good: Result<(), ErrorCode>,
    bad: Result<(), ErrorCode>,
)
    requires
        call_ensures(Platform::filesystem_error, (&platform, error), code),
        call_ensures(Platform::sync_result, (&platform, Ok(())), good),
        call_ensures(Platform::sync_result, (&platform, Err(error)), bad),
    ensures
        good is Ok,
        bad is Ok <==> platform.windows && error.raw_os_error == Some(5i32),
        bad matches Err(e) ==> e == code,
{
}

/// A number that this system does not have for an error is told as nothing, as
/// no number is; of the others the code is that which the system's own numbers
/// give.
pub proof fn law_raw_errors_go_by_this_system(raw: i32, none: Option<ErrorCode>, r: Option<ErrorCode>)
    requires
        call_ensures(from_raw_os_error, (None,), none),
        call_ensures(from_raw_os_error, (Some(raw),), r),
    ensures
        none is None,
        !(1 <= raw < 4096) ==> r is None,
        exists|host: Errnos|
            host.is_host() && {
                &&& r == Some(ErrorCode::Pipe) <==> raw == #[trigger] host.pipe
                &&& r == Some(ErrorCode::NoEntry) ==> raw == host.noent
                &&& r == Some(ErrorCode::NotPermitted) ==> raw == host.perm
                &&& r == Some(ErrorCode::Access) ==> raw == host.access
                &&& raw == host.noent || raw == host.perm || raw == host.access ==> r is Some
            },
{
    let host = choose|host: Errnos|
        host.is_host() && r == #[trigger] host.filesystem_code_spec(raw);
    assert(host.pipe == host.pipe);
}

/// A number that does not fit where it has to go is told as an overflow.
pub proof fn law_numbers_that_do_not_fit_overflow(
    error: core::num::TryFromIntError,
    r: ErrorCode,
)
    requires
        call_ensures(<ErrorCode as From<core::num::TryFromIntError>>::from, (error,), r),
    ensures
        r == ErrorCode::Overflow,
{
}

} // verus!
