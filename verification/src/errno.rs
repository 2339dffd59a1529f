//! The numbers by which the operating system names its errors.
use crate::call::{call0, call1};
use crate::error::{IoError, IoErrorKind};
use rustix::io::Errno;
use vstd::prelude::*;

verus! {

/// The number of each error that this crate tells apart.
///
/// The numbers differ from one operating system to the next, and two names
/// may share one: `again` and `wouldblock`, `notsup` and `opnotsupp`.
#[derive(Clone, Copy, Debug, PartialEq, Eq, Structural)]
pub struct Errnos {
    pub access: i32,
    pub addrinuse: i32,
    pub addrnotavail: i32,
    pub afnosupport: i32,
    pub again: i32,
    pub already: i32,
    pub badf: i32,
    pub badfd: i32,
    pub busy: i32,
    pub connaborted: i32,
    pub connrefused: i32,
    pub connreset: i32,
    pub destaddrreq: i32,
    pub exist: i32,
    pub fault: i32,
    pub fbig: i32,
    pub hostdown: i32,
    pub hostunreach: i32,
    pub ilseq: i32,
    pub inprogress: i32,
    pub intr: i32,
    pub inval: i32,
    pub io: i32,
    pub isconn: i32,
    pub isdir: i32,
    pub looped: i32,
    pub mfile: i32,
    pub mlink: i32,
    pub msgsize: i32,
    pub nametoolong: i32,
    pub netdown: i32,
    pub netreset: i32,
    pub netunreach: i32,
    pub nfile: i32,
    pub nobufs: i32,
    pub noent: i32,
    pub nomem: i32,
    pub nonet: i32,
    pub noprotoopt: i32,
    pub nospc: i32,
    pub nosys: i32,
    pub notconn: i32,
    pub notdir: i32,
    pub notempty: i32,
    pub notsock: i32,
    pub notsup: i32,
    pub opnotsupp: i32,
    pub overflow: i32,
    pub perm: i32,
    pub pfnosupport: i32,
    pub pipe: i32,
    pub proto: i32,
    pub protonosupport: i32,
    pub prototype: i32,
    pub socktnosupport: i32,
    pub spipe: i32,
    pub timedout: i32,
    pub wouldblock: i32,
    /// Error numbers are positive and less than 4096, as on Linux. Elsewhere
    /// every number but zero is one.
    pub bounded: bool,
}

/// `Errno::raw_os_error`, of the constants of `Errno` from `ACCESS` to `INPROGRESS`
/// in the order of the fields of [`Errnos`]. What the numbers are depends on the
/// operating system; on those that have all of the constants, they are positive
/// and less than 4096.
#[verifier::external_body]
fn access_to_inprogress() -> (r: [i32; 20])
    ensures
        forall|i: int| 0 <= i < 20 ==> 1 <= #[trigger] r@[i] < 4096,
{
    [
        Errno::ACCESS, Errno::ADDRINUSE, Errno::ADDRNOTAVAIL, Errno::AFNOSUPPORT, Errno::AGAIN,
        Errno::ALREADY, Errno::BADF, Errno::BADFD, Errno::BUSY, Errno::CONNABORTED,
        Errno::CONNREFUSED, Errno::CONNRESET, Errno::DESTADDRREQ, Errno::EXIST, Errno::FAULT,
        Errno::FBIG, Errno::HOSTDOWN, Errno::HOSTUNREACH, Errno::ILSEQ, Errno::INPROGRESS,
    ].map(Errno::raw_os_error)
}

/// `Errno::raw_os_error`, of the constants of `Errno` from `INTR` to `NOSPC`
/// in the order of the fields of [`Errnos`]. What the numbers are depends on the
/// operating system; on those that have all of the constants, they are positive
/// and less than 4096.
#[verifier::external_body]
fn intr_to_nospc() -> (r: [i32; 20])
    ensures
        forall|i: int| 0 <= i < 20 ==> 1 <= #[trigger] r@[i] < 4096,
{
    [
        Errno::INTR, Errno::INVAL, Errno::IO, Errno::ISCONN, Errno::ISDIR,
        Errno::LOOP, Errno::MFILE, Errno::MLINK, Errno::MSGSIZE, Errno::NAMETOOLONG,
        Errno::NETDOWN, Errno::NETRESET, Errno::NETUNREACH, Errno::NFILE, Errno::NOBUFS,
        Errno::NOENT, Errno::NOMEM, Errno::NONET, Errno::NOPROTOOPT, Errno::NOSPC,
    ].map(Errno::raw_os_error)
}

/// `Errno::raw_os_error`, of the constants of `Errno` from `NOSYS` to `WOULDBLOCK`
/// in the order of the fields of [`Errnos`]. What the numbers are depends on the
/// operating system; on those that have all of the constants, they are positive
/// and less than 4096.
#[verifier::external_body]
fn nosys_to_wouldblock() -> (r: [i32; 18])
    ensures
        forall|i: int| 0 <= i < 18 ==> 1 <= #[trigger] r@[i] < 4096,
{
    [
        Errno::NOSYS, Errno::NOTCONN, Errno::NOTDIR, Errno::NOTEMPTY, Errno::NOTSOCK,
        Errno::NOTSUP, Errno::OPNOTSUPP, Errno::OVERFLOW, Errno::PERM, Errno::PFNOSUPPORT,
        Errno::PIPE, Errno::PROTO, Errno::PROTONOSUPPORT, Errno::PROTOTYPE, Errno::SOCKTNOSUPPORT,
        Errno::SPIPE, Errno::TIMEDOUT, Errno::WOULDBLOCK,
    ].map(Errno::raw_os_error)
}

/// `Errno::from_io_error`, on an error with the given number: whether that is
/// an error number. Zero never is, and those that Linux has always are; of the
/// others the operating system decides.
#[verifier::external_body]
fn is_error_number(raw: i32) -> (r: bool)
    ensures
        raw == 0 ==> !r,
        1 <= raw < 4096 ==> r,
{
    Errno::from_io_error(&std::io::Error::from_raw_os_error(raw)).is_some()
}

impl Errnos {
    /// The numbers, in the order of the fields.
    pub open spec fn numbers(self) -> Seq<i32> {
        seq![
            self.access,
            self.addrinuse,
            self.addrnotavail,
            self.afnosupport,
            self.again,
            self.already,
            self.badf,
            self.badfd,
            self.busy,
            self.connaborted,
            self.connrefused,
            self.connreset,
            self.destaddrreq,
            self.exist,
            self.fault,
            self.fbig,
            self.hostdown,
            self.hostunreach,
            self.ilseq,
            self.inprogress,
            self.intr,
            self.inval,
            self.io,
            self.isconn,
            self.isdir,
            self.looped,
            self.mfile,
            self.mlink,
            self.msgsize,
            self.nametoolong,
            self.netdown,
            self.netreset,
            self.netunreach,
            self.nfile,
            self.nobufs,
            self.noent,
            self.nomem,
            self.nonet,
            self.noprotoopt,
            self.nospc,
            self.nosys,
            self.notconn,
            self.notdir,
            self.notempty,
            self.notsock,
            self.notsup,
            self.opnotsupp,
            self.overflow,
            self.perm,
            self.pfnosupport,
            self.pipe,
            self.proto,
            self.protonosupport,
            self.prototype,
            self.socktnosupport,
            self.spipe,
            self.timedout,
            self.wouldblock,
        ]
    }

    /// The numbers are positive and less than 4096.
    pub open spec fn in_range(self) -> bool {
        forall|i: int| 0 <= i < self.numbers().len() ==> 1 <= #[trigger] self.numbers()[i] < 4096
    }

    /// The numbers, given in the order of the fields.
    pub fn from_numbers(a: [i32; 20], b: [i32; 20], c: [i32; 18], bounded: bool) -> (r: Errnos)
        ensures
            r.numbers() == a@ + b@ + c@,
            r.bounded == bounded,
    {
        let r: Errnos = Errnos {
            access: a[0],
            addrinuse: a[1],
            addrnotavail: a[2],
            afnosupport: a[3],
            again: a[4],
            already: a[5],
            badf: a[6],
            badfd: a[7],
            busy: a[8],
            connaborted: a[9],
            connrefused: a[10],
            connreset: a[11],
            destaddrreq: a[12],
            exist: a[13],
            fault: a[14],
            fbig: a[15],
            hostdown: a[16],
            hostunreach: a[17],
            ilseq: a[18],
            inprogress: a[19],
            intr: b[0],
            inval: b[1],
            io: b[2],
            isconn: b[3],
            isdir: b[4],
            looped: b[5],
            mfile: b[6],
            mlink: b[7],
            msgsize: b[8],
            nametoolong: b[9],
            netdown: b[10],
            netreset: b[11],
            netunreach: b[12],
            nfile: b[13],
            nobufs: b[14],
            noent: b[15],
            nomem: b[16],
            nonet: b[17],
            noprotoopt: b[18],
            nospc: b[19],
            nosys: c[0],
            notconn: c[1],
            notdir: c[2],
            notempty: c[3],
            notsock: c[4],
            notsup: c[5],
            opnotsupp: c[6],
            overflow: c[7],
            perm: c[8],
            pfnosupport: c[9],
            pipe: c[10],
            proto: c[11],
            protonosupport: c[12],
            prototype: c[13],
            socktnosupport: c[14],
            spipe: c[15],
            timedout: c[16],
            wouldblock: c[17],
            bounded,
        };
        assert(r.numbers() =~= a@ + b@ + c@);
        r
    }

    /// These are the numbers that the constants of `Errno` have, each under its
    /// name, and the range that `Errno` has.
    pub closed spec fn is_host(self) -> bool {
        &&& exists|a: [i32; 20], b: [i32; 20], c: [i32; 18]|
            {
                &&& #[trigger] call_ensures(access_to_inprogress, (), a)
                &&& #[trigger] call_ensures(intr_to_nospc, (), b)
                &&& #[trigger] call_ensures(nosys_to_wouldblock, (), c)
                &&& self.numbers() == a@ + b@ + c@
            }
        &&& call_ensures(is_error_number, (4096i32,), !self.bounded)
    }

    /// The numbers of the operating system that this crate was built for. What
    /// they are, that system says; each is an error number of it.
    pub fn host() -> (r: Errnos)
        ensures
            r.is_host(),
            r.in_range(),
            forall|i: int|
                0 <= i < r.numbers().len() ==> r.is_number(#[trigger] r.numbers()[i]),
    {
        let a: [i32; 20] = call0(access_to_inprogress);
        let b: [i32; 20] = call0(intr_to_nospc);
        let c: [i32; 18] = call0(nosys_to_wouldblock);
        let unbounded: bool = call1(is_error_number, 4096i32);
        Errnos::from_numbers(a, b, c, !unbounded)
    }

    /// `raw` is an error number.
    pub open spec fn is_number(self, raw: i32) -> bool {
        if self.bounded {
            1 <= raw < 4096
        } else {
            raw != 0
        }
    }

    /// The number that an error of the given class stands for, where there
    /// is one.
    pub open spec fn of_kind(self, kind: IoErrorKind) -> Option<i32> {
        match kind {
            IoErrorKind::AddrInUse => Some(self.addrinuse),
            IoErrorKind::AddrNotAvailable => Some(self.addrnotavail),
            IoErrorKind::AlreadyExists => Some(self.exist),
            IoErrorKind::BrokenPipe => Some(self.pipe),
            IoErrorKind::ConnectionAborted => Some(self.connaborted),
            IoErrorKind::ConnectionRefused => Some(self.connrefused),
            IoErrorKind::ConnectionReset => Some(self.connreset),
            IoErrorKind::Interrupted => Some(self.intr),
            IoErrorKind::InvalidInput => Some(self.inval),
            IoErrorKind::NotConnected => Some(self.notconn),
            IoErrorKind::NotFound => Some(self.noent),
            IoErrorKind::OutOfMemory => Some(self.nomem),
            IoErrorKind::PermissionDenied => Some(self.access),
            IoErrorKind::TimedOut => Some(self.timedout),
            IoErrorKind::Unsupported => Some(self.notsup),
            IoErrorKind::WouldBlock => Some(self.wouldblock),
            IoErrorKind::UnexpectedEof => None,
            IoErrorKind::Other => None,
        }
    }

    /// The number behind an I/O error: the one the operating system gave
    /// where it is an error number at all, otherwise that of the class.
    pub open spec fn errno_spec(self, error: IoError) -> Option<i32> {
        match error.raw_os_error {
            Some(raw) if self.is_number(raw) => Some(raw),
            _ => self.of_kind(error.kind),
        }
    }

    pub fn errno(&self, error: IoError) -> (r: Option<i32>)
        ensures
            r == self.errno_spec(error),
    {
        match error.raw_os_error {
            Some(raw) if raw != 0 && (!self.bounded || 1 <= raw && raw < 4096) => Some(raw),
            _ => match error.kind {
                IoErrorKind::AddrInUse => Some(self.addrinuse),
                IoErrorKind::AddrNotAvailable => Some(self.addrnotavail),
                IoErrorKind::AlreadyExists => Some(self.exist),
                IoErrorKind::BrokenPipe => Some(self.pipe),
                IoErrorKind::ConnectionAborted => Some(self.connaborted),
                IoErrorKind::ConnectionRefused => Some(self.connrefused),
                IoErrorKind::ConnectionReset => Some(self.connreset),
                IoErrorKind::Interrupted => Some(self.intr),
                IoErrorKind::InvalidInput => Some(self.inval),
                IoErrorKind::NotConnected => Some(self.notconn),
                IoErrorKind::NotFound => Some(self.noent),
                IoErrorKind::OutOfMemory => Some(self.nomem),
                IoErrorKind::PermissionDenied => Some(self.access),
                IoErrorKind::TimedOut => Some(self.timedout),
                IoErrorKind::Unsupported => Some(self.notsup),
                IoErrorKind::WouldBlock => Some(self.wouldblock),
                IoErrorKind::UnexpectedEof => None,
                IoErrorKind::Other => None,
            },
        }
    }
}

/// The operating system that files and sockets are asked of.
#[derive(Clone, Copy, Debug, PartialEq, Eq, Structural)]
pub struct Platform {
    pub errnos: Errnos,
    /// It is Windows, which has its own numbers for the errors of files, and
    /// its own ideas about some errors of sockets.
    pub windows: bool,
}

impl Errnos {
    /// No two names share a number, but `again` and `wouldblock`, and `notsup`
    /// and `opnotsupp`, which may. They stand in these places.
    pub open spec fn tells_apart(self) -> bool {
        forall|i: int, j: int|
            0 <= i < j < self.numbers().len() && #[trigger] self.numbers()[i]
                == #[trigger] self.numbers()[j] ==> i == 4 && j == 57 || i == 45 && j == 46
    }
}

/// The number behind an error is the one that the operating system gave, where
/// it gave one that is an error number; where not, the error's class has a
/// number, unless it is one that no number stands for.
pub proof fn law_errors_have_the_number_they_came_with(
    errnos: Errnos,
    error: IoError,
    r: Option<i32>,
)
    requires
        call_ensures(Errnos::errno, (&errnos, error), r),
    ensures
        error.raw_os_error matches Some(raw) ==> (1 <= raw < 4096 ==> r == Some(raw)),
        error.raw_os_error matches Some(raw) ==> (!errnos.bounded && raw != 0 ==> r == Some(raw)),
        error.raw_os_error == Some(0i32) || error.raw_os_error is None || (errnos.bounded && !(1
            <= error.raw_os_error->Some_0 < 4096)) ==> {
            &&& error.kind is AddrInUse ==> r == Some(errnos.addrinuse)
            &&& error.kind is AddrNotAvailable ==> r == Some(errnos.addrnotavail)
            &&& error.kind is AlreadyExists ==> r == Some(errnos.exist)
            &&& error.kind is BrokenPipe ==> r == Some(errnos.pipe)
            &&& error.kind is ConnectionAborted ==> r == Some(errnos.connaborted)
            &&& error.kind is ConnectionRefused ==> r == Some(errnos.connrefused)
            &&& error.kind is ConnectionReset ==> r == Some(errnos.connreset)
            &&& error.kind is Interrupted ==> r == Some(errnos.intr)
            &&& error.kind is InvalidInput ==> r == Some(errnos.inval)
            &&& error.kind is NotConnected ==> r == Some(errnos.notconn)
            &&& error.kind is NotFound ==> r == Some(errnos.noent)
            &&& error.kind is OutOfMemory ==> r == Some(errnos.nomem)
            &&& error.kind is PermissionDenied ==> r == Some(errnos.access)
            &&& error.kind is TimedOut ==> r == Some(errnos.timedout)
            &&& error.kind is Unsupported ==> r == Some(errnos.notsup)
            &&& error.kind is WouldBlock ==> r == Some(errnos.wouldblock)
            &&& error.kind is UnexpectedEof || error.kind is Other ==> r is None
        },
{
}

/// Numbers that are given for the names stand under those names: each name has
/// the number that stands in its place, in the order of the names.
pub proof fn law_numbers_stand_under_their_names(
    a: [i32; 20],
    b: [i32; 20],
    c: [i32; 18],
    bounded: bool,
    r: Errnos,
)
    requires
        call_ensures(Errnos::from_numbers, (a, b, c, bounded), r),
    ensures
        r.bounded == bounded,
        r.access == a@[0],
        r.addrinuse == a@[1],
        r.addrnotavail == a@[2],
        r.afnosupport == a@[3],
        r.again == a@[4],
        r.already == a@[5],
        r.badf == a@[6],
        r.badfd == a@[7],
        r.busy == a@[8],
        r.connaborted == a@[9],
        r.connrefused == a@[10],
        r.connreset == a@[11],
        r.destaddrreq == a@[12],
        r.exist == a@[13],
        r.fault == a@[14],
        r.fbig == a@[15],
        r.hostdown == a@[16],
        r.hostunreach == a@[17],
        r.ilseq == a@[18],
        r.inprogress == a@[19],
        r.intr == b@[0],
        r.inval == b@[1],
        r.io == b@[2],
        r.isconn == b@[3],
        r.isdir == b@[4],
        r.looped == b@[5],
        r.mfile == b@[6],
        r.mlink == b@[7],
        r.msgsize == b@[8],
        r.nametoolong == b@[9],
        r.netdown == b@[10],
        r.netreset == b@[11],
        r.netunreach == b@[12],
        r.nfile == b@[13],
        r.nobufs == b@[14],
        r.noent == b@[15],
        r.nomem == b@[16],
        r.nonet == b@[17],
        r.noprotoopt == b@[18],
        r.nospc == b@[19],
        r.nosys == c@[0],
        r.notconn == c@[1],
        r.notdir == c@[2],
        r.notempty == c@[3],
        r.notsock == c@[4],
        r.notsup == c@[5],
        r.opnotsupp == c@[6],
        r.overflow == c@[7],
        r.perm == c@[8],
        r.pfnosupport == c@[9],
        r.pipe == c@[10],
        r.proto == c@[11],
        r.protonosupport == c@[12],
        r.prototype == c@[13],
        r.socktnosupport == c@[14],
        r.spipe == c@[15],
        r.timedout == c@[16],
        r.wouldblock == c@[17],
{
    let all = a@ + b@ + c@;
    assert(r.numbers()[0] == r.access && all[0] == a@[0]);
    assert(r.numbers()[1] == r.addrinuse && all[1] == a@[1]);
    assert(r.numbers()[2] == r.addrnotavail && all[2] == a@[2]);
    assert(r.numbers()[3] == r.afnosupport && all[3] == a@[3]);
    assert(r.numbers()[4] == r.again && all[4] == a@[4]);
    assert(r.numbers()[5] == r.already && all[5] == a@[5]);
    assert(r.numbers()[6] == r.badf && all[6] == a@[6]);
    assert(r.numbers()[7] == r.badfd && all[7] == a@[7]);
    assert(r.numbers()[8] == r.busy && all[8] == a@[8]);
    assert(r.numbers()[9] == r.connaborted && all[9] == a@[9]);
    assert(r.numbers()[10] == r.connrefused && all[10] == a@[10]);
    assert(r.numbers()[11] == r.connreset && all[11] == a@[11]);
    assert(r.numbers()[12] == r.destaddrreq && all[12] == a@[12]);
    assert(r.numbers()[13] == r.exist && all[13] == a@[13]);
    assert(r.numbers()[14] == r.fault && all[14] == a@[14]);
    assert(r.numbers()[15] == r.fbig && all[15] == a@[15]);
    assert(r.numbers()[16] == r.hostdown && all[16] == a@[16]);
    assert(r.numbers()[17] == r.hostunreach && all[17] == a@[17]);
    assert(r.numbers()[18] == r.ilseq && all[18] == a@[18]);
    assert(r.numbers()[19] == r.inprogress && all[19] == a@[19]);
    assert(r.numbers()[20] == r.intr && all[20] == b@[0]);
    assert(r.numbers()[21] == r.inval && all[21] == b@[1]);
    assert(r.numbers()[22] == r.io && all[22] == b@[2]);
    assert(r.numbers()[23] == r.isconn && all[23] == b@[3]);
    assert(r.numbers()[24] == r.isdir && all[24] == b@[4]);
    assert(r.numbers()[25] == r.looped && all[25] == b@[5]);
    assert(r.numbers()[26] == r.mfile && all[26] == b@[6]);
    assert(r.numbers()[27] == r.mlink && all[27] == b@[7]);
    assert(r.numbers()[28] == r.msgsize && all[28] == b@[8]);
    assert(r.numbers()[29] == r.nametoolong && all[29] == b@[9]);
    assert(r.numbers()[30] == r.netdown && all[30] == b@[10]);
    assert(r.numbers()[31] == r.netreset && all[31] == b@[11]);
    assert(r.numbers()[32] == r.netunreach && all[32] == b@[12]);
    assert(r.numbers()[33] == r.nfile && all[33] == b@[13]);
    assert(r.numbers()[34] == r.nobufs && all[34] == b@[14]);
    assert(r.numbers()[35] == r.noent && all[35] == b@[15]);
    assert(r.numbers()[36] == r.nomem && all[36] == b@[16]);
    assert(r.numbers()[37] == r.nonet && all[37] == b@[17]);
    assert(r.numbers()[38] == r.noprotoopt && all[38] == b@[18]);
    assert(r.numbers()[39] == r.nospc && all[39] == b@[19]);
    assert(r.numbers()[40] == r.nosys && all[40] == c@[0]);
    assert(r.numbers()[41] == r.notconn && all[41] == c@[1]);
    assert(r.numbers()[42] == r.notdir && all[42] == c@[2]);
    assert(r.numbers()[43] == r.notempty && all[43] == c@[3]);
    assert(r.numbers()[44] == r.notsock && all[44] == c@[4]);
    assert(r.numbers()[45] == r.notsup && all[45] == c@[5]);
    assert(r.numbers()[46] == r.opnotsupp && all[46] == c@[6]);
    assert(r.numbers()[47] == r.overflow && all[47] == c@[7]);
    assert(r.numbers()[48] == r.perm && all[48] == c@[8]);
    assert(r.numbers()[49] == r.pfnosupport && all[49] == c@[9]);
    assert(r.numbers()[50] == r.pipe && all[50] == c@[10]);
    assert(r.numbers()[51] == r.proto && all[51] == c@[11]);
    assert(r.numbers()[52] == r.protonosupport && all[52] == c@[12]);
    assert(r.numbers()[53] == r.prototype && all[53] == c@[13]);
    assert(r.numbers()[54] == r.socktnosupport && all[54] == c@[14]);
    assert(r.numbers()[55] == r.spipe && all[55] == c@[15]);
    assert(r.numbers()[56] == r.timedout && all[56] == c@[16]);
    assert(r.numbers()[57] == r.wouldblock && all[57] == c@[17]);
}

} // verus!
