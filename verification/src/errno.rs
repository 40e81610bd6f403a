//! POSIX error numbers.

use vstd::prelude::*;

use crate::text;

verus! {

/// A POSIX error number, returned by fallible filesystem methods. The numbers
/// behind the named variants are those of `libc` on Linux.
#[allow(non_camel_case_types)]
#[derive(Clone, Copy, Debug)]
pub enum Errno {
    EPERM,
    ENOENT,
    EIO,
    ENXIO,
    EBADF,
    EACCES,
    EEXIST,
    ENOTDIR,
    EISDIR,
    EINVAL,
    ENOSPC,
    EROFS,
    ERANGE,
    ENAMETOOLONG,
    ENOSYS,
    ENOTEMPTY,
    /// "No data available", used for missing extended attributes.
    ENODATA,
    EILSEQ,
    EOPNOTSUPP,
    /// Any other number.
    Other(i32),
}

/// The values of `libc`'s error constants that have a variant of their own.
struct ErrnoCodes {
    eperm: i32,
    enoent: i32,
    eio: i32,
    enxio: i32,
    ebadf: i32,
    eacces: i32,
    eexist: i32,
    enotdir: i32,
    eisdir: i32,
    einval: i32,
    enospc: i32,
    erofs: i32,
    erange: i32,
    enametoolong: i32,
    enosys: i32,
    enotempty: i32,
    enodata: i32,
    eilseq: i32,
    eopnotsupp: i32,
}

/// Reads `libc`'s error constants. The values claimed here are those that
/// `libc` gives them on Linux with the generic numbering (x86, Arm, RISC-V).
#[verifier::external_body]
fn libc_errno_codes() -> (c: ErrnoCodes)
    ensures
        c.eperm == 1 && c.enoent == 2 && c.eio == 5 && c.enxio == 6 && c.ebadf == 9,
        c.eacces == 13 && c.eexist == 17 && c.enotdir == 20 && c.eisdir == 21,
        c.einval == 22 && c.enospc == 28 && c.erofs == 30 && c.erange == 34,
        c.enametoolong == 36 && c.enosys == 38 && c.enotempty == 39,
        c.enodata == 61 && c.eilseq == 84 && c.eopnotsupp == 95,
{
    ErrnoCodes {
        eperm: libc::EPERM, enoent: libc::ENOENT, eio: libc::EIO, enxio: libc::ENXIO,
        ebadf: libc::EBADF, eacces: libc::EACCES, eexist: libc::EEXIST,
        enotdir: libc::ENOTDIR, eisdir: libc::EISDIR, einval: libc::EINVAL,
        enospc: libc::ENOSPC, erofs: libc::EROFS, erange: libc::ERANGE,
        enametoolong: libc::ENAMETOOLONG, enosys: libc::ENOSYS,
        enotempty: libc::ENOTEMPTY, enodata: libc::ENODATA, eilseq: libc::EILSEQ,
        eopnotsupp: libc::EOPNOTSUPP,
    }
}

impl Errno {
    /// Alias of `ENODATA`: the BSD and macOS name for the same error.
    pub const ENOATTR: Errno = Errno::ENODATA;

    /// The number of an error.
    pub open spec fn code(self) -> i32 {
        match self {
            Errno::EPERM => 1,
            Errno::ENOENT => 2,
            Errno::EIO => 5,
            Errno::ENXIO => 6,
            Errno::EBADF => 9,
            Errno::EACCES => 13,
            Errno::EEXIST => 17,
            Errno::ENOTDIR => 20,
            Errno::EISDIR => 21,
            Errno::EINVAL => 22,
            Errno::ENOSPC => 28,
            Errno::EROFS => 30,
            Errno::ERANGE => 34,
            Errno::ENAMETOOLONG => 36,
            Errno::ENOSYS => 38,
            Errno::ENOTEMPTY => 39,
            Errno::ENODATA => 61,
            Errno::EILSEQ => 84,
            Errno::EOPNOTSUPP => 95,
            Errno::Other(code) => code,
        }
    }

    /// Whether a number has a variant of its own.
    pub open spec fn named(code: i32) -> bool {
        exists|e: Errno| !(e is Other) && #[trigger] e.code() == code
    }

    /// The error with a given number: its own variant where it has one.
    pub open spec fn of_code(code: i32) -> Errno {
        if Errno::named(code) {
            choose|e: Errno| !(e is Other) && #[trigger] e.code() == code
        } else {
            Errno::Other(code)
        }
    }

    /// Wraps a raw `errno` value.
    pub fn from_raw(errno: i32) -> (e: Errno)
        ensures
            e == Errno::of_code(errno),
            e.code() == errno,
    {
        let c = libc_errno_codes();
        let e = if errno == c.eperm {
            Errno::EPERM
        } else if errno == c.enoent {
            Errno::ENOENT
        } else if errno == c.eio {
            Errno::EIO
        } else if errno == c.enxio {
            Errno::ENXIO
        } else if errno == c.ebadf {
            Errno::EBADF
        } else if errno == c.eacces {
            Errno::EACCES
        } else if errno == c.eexist {
            Errno::EEXIST
        } else if errno == c.enotdir {
            Errno::ENOTDIR
        } else if errno == c.eisdir {
            Errno::EISDIR
        } else if errno == c.einval {
            Errno::EINVAL
        } else if errno == c.enospc {
            Errno::ENOSPC
        } else if errno == c.erofs {
            Errno::EROFS
        } else if errno == c.erange {
            Errno::ERANGE
        } else if errno == c.enametoolong {
            Errno::ENAMETOOLONG
        } else if errno == c.enosys {
            Errno::ENOSYS
        } else if errno == c.enotempty {
            Errno::ENOTEMPTY
        } else if errno == c.enodata {
            Errno::ENODATA
        } else if errno == c.eilseq {
            Errno::EILSEQ
        } else if errno == c.eopnotsupp {
            Errno::EOPNOTSUPP
        } else {
            Errno::Other(errno)
        };
        assert(e.code() == errno);
        e
    }

    /// Returns the raw `errno` value.
    pub fn raw(self) -> (code: i32)
        ensures
            code == self.code(),
    {
        let c = libc_errno_codes();
        match self {
            Errno::EPERM => c.eperm,
            Errno::ENOENT => c.enoent,
            Errno::EIO => c.eio,
            Errno::ENXIO => c.enxio,
            Errno::EBADF => c.ebadf,
            Errno::EACCES => c.eacces,
            Errno::EEXIST => c.eexist,
            Errno::ENOTDIR => c.enotdir,
            Errno::EISDIR => c.eisdir,
            Errno::EINVAL => c.einval,
            Errno::ENOSPC => c.enospc,
            Errno::EROFS => c.erofs,
            Errno::ERANGE => c.erange,
            Errno::ENAMETOOLONG => c.enametoolong,
            Errno::ENOSYS => c.enosys,
            Errno::ENOTEMPTY => c.enotempty,
            Errno::ENODATA => c.enodata,
            Errno::EILSEQ => c.eilseq,
            Errno::EOPNOTSUPP => c.eopnotsupp,
            Errno::Other(code) => code,
        }
    }

    /// Describes the error: `errno` and its number.
    pub fn to_string(&self) -> (s: String)
        ensures
            s@ == "errno "@ + text::decimal(self.code() as int),
    {
        let number = text::i32_to_string(self.raw());
        let mut s = String::from_str("errno ");
        s.append(number.as_str());
        s
    }
}

/// Two errors are equal when their numbers are.
impl PartialEq for Errno {
    fn eq(&self, other: &Errno) -> (r: bool) {
        self.raw() == other.raw()
    }
}

impl Eq for Errno {

}

impl vstd::std_specs::cmp::PartialEqSpecImpl for Errno {
    open spec fn obeys_eq_spec() -> bool {
        true
    }

    open spec fn eq_spec(&self, other: &Errno) -> bool {
        self.code() == other.code()
    }
}

impl From<i32> for Errno {
    fn from(value: i32) -> (e: Errno) {
        Errno::from_raw(value)
    }
}

impl vstd::std_specs::convert::FromSpecImpl<i32> for Errno {
    open spec fn obeys_from_spec() -> bool {
        true
    }

    open spec fn from_spec(value: i32) -> Errno {
        Errno::of_code(value)
    }
}

/// The operating system's error that an I/O error carries.
#[verifier::external_type_specification]
#[verifier::external_body]
pub struct ExIoError(std::io::Error);

/// The OS error number inside an I/O error, where it was made from one.
pub uninterp spec fn os_error_code(err: std::io::Error) -> Option<i32>;

/// `std::io::Error::raw_os_error`: the number that the error was made from,
/// `None` for an error that no OS call gave.
pub assume_specification [ std::io::Error::raw_os_error ](err: &std::io::Error) -> (r: Option<i32>)
    ensures
        r == os_error_code(*err),
;

/// The errno of an I/O error: its OS error number, or `EIO` without one.
pub open spec fn errno_of_io_error(err: std::io::Error) -> Errno {
    match os_error_code(err) {
        Some(code) => Errno::of_code(code),
        None => Errno::EIO,
    }
}

impl From<std::io::Error> for Errno {
    fn from(err: std::io::Error) -> (e: Errno) {
        match err.raw_os_error() {
            Some(code) => Errno::from_raw(code),
            None => Errno::EIO,
        }
    }
}

impl vstd::std_specs::convert::FromSpecImpl<std::io::Error> for Errno {
    open spec fn obeys_from_spec() -> bool {
        true
    }

    open spec fn from_spec(err: std::io::Error) -> Errno {
        errno_of_io_error(err)
    }
}

/// Wrapping a number and reading it back gives the number, and an error that
/// was wrapped from its own number equals itself.
pub proof fn law_errno_round_trip(code: i32, e: Errno)
    ensures
        Errno::of_code(code).code() == code,
        Errno::of_code(e.code()).code() == e.code(),
        !(e is Other) ==> Errno::of_code(e.code()) == e,
{
}

/// Each error has the number that Linux gives it, and no other has that number but
/// one that was made of the bare number.
pub proof fn law_errors_have_their_numbers(e: Errno, code: i32)
    requires
        call_ensures(Errno::raw, (e,), code),
    ensures
        e is EPERM ==> code == 1,
        e is ENOENT ==> code == 2,
        e is EIO ==> code == 5,
        e is ENXIO ==> code == 6,
        e is EBADF ==> code == 9,
        e is EACCES ==> code == 13,
        e is EEXIST ==> code == 17,
        e is ENOTDIR ==> code == 20,
        e is EISDIR ==> code == 21,
        e is EINVAL ==> code == 22,
        e is ENOSPC ==> code == 28,
        e is EROFS ==> code == 30,
        e is ERANGE ==> code == 34,
        e is ENAMETOOLONG ==> code == 36,
        e is ENOSYS ==> code == 38,
        e is ENOTEMPTY ==> code == 39,
        e is ENODATA ==> code == 61,
        e is EILSEQ ==> code == 84,
        e is EOPNOTSUPP ==> code == 95,
        e matches Errno::Other(n) ==> code == n,
        Errno::ENOATTR is ENODATA,
{
}

/// A number is wrapped into an error with that number: its own name where it has
/// one, and only there. An I/O error becomes the error of its number, or `EIO`.
pub proof fn law_numbers_become_their_errors(code: i32, e: Errno, back: i32)
    requires
        call_ensures(Errno::from_raw, (code,), e),
        call_ensures(Errno::raw, (e,), back),
    ensures
        back == code,
        e is EPERM <==> code == 1,
        e is ENOENT <==> code == 2,
        e is EIO <==> code == 5,
        e is ENXIO <==> code == 6,
        e is EBADF <==> code == 9,
        e is EACCES <==> code == 13,
        e is EEXIST <==> code == 17,
        e is ENOTDIR <==> code == 20,
        e is EISDIR <==> code == 21,
        e is EINVAL <==> code == 22,
        e is ENOSPC <==> code == 28,
        e is EROFS <==> code == 30,
        e is ERANGE <==> code == 34,
        e is ENAMETOOLONG <==> code == 36,
        e is ENOSYS <==> code == 38,
        e is ENOTEMPTY <==> code == 39,
        e is ENODATA <==> code == 61,
        e is EILSEQ <==> code == 84,
        e is EOPNOTSUPP <==> code == 95,
{
    assert(Errno::EPERM.code() == 1);
    assert(!(Errno::EPERM is Other) && Errno::EPERM.code() == 1);
    assert(!(Errno::ENOENT is Other) && Errno::ENOENT.code() == 2);
    assert(!(Errno::EIO is Other) && Errno::EIO.code() == 5);
    assert(!(Errno::ENXIO is Other) && Errno::ENXIO.code() == 6);
    assert(!(Errno::EBADF is Other) && Errno::EBADF.code() == 9);
    assert(!(Errno::EACCES is Other) && Errno::EACCES.code() == 13);
    assert(!(Errno::EEXIST is Other) && Errno::EEXIST.code() == 17);
    assert(!(Errno::ENOTDIR is Other) && Errno::ENOTDIR.code() == 20);
    assert(!(Errno::EISDIR is Other) && Errno::EISDIR.code() == 21);
    assert(!(Errno::EINVAL is Other) && Errno::EINVAL.code() == 22);
    assert(!(Errno::ENOSPC is Other) && Errno::ENOSPC.code() == 28);
    assert(!(Errno::EROFS is Other) && Errno::EROFS.code() == 30);
    assert(!(Errno::ERANGE is Other) && Errno::ERANGE.code() == 34);
    assert(!(Errno::ENAMETOOLONG is Other) && Errno::ENAMETOOLONG.code() == 36);
    assert(!(Errno::ENOSYS is Other) && Errno::ENOSYS.code() == 38);
    assert(!(Errno::ENOTEMPTY is Other) && Errno::ENOTEMPTY.code() == 39);
    assert(!(Errno::ENODATA is Other) && Errno::ENODATA.code() == 61);
    assert(!(Errno::EILSEQ is Other) && Errno::EILSEQ.code() == 84);
    assert(!(Errno::EOPNOTSUPP is Other) && Errno::EOPNOTSUPP.code() == 95);
}

/// An error is described by its number in decimal.
pub proof fn law_errors_are_described_by_their_numbers(e: Errno, code: i32, s: String)
    requires
        call_ensures(Errno::raw, (e,), code),
        call_ensures(Errno::to_string, (&e,), s),
    ensures
        s@ == "errno "@ + text::decimal(code as int),
{
}

/// Two errors are equal exactly if their numbers are; a bare number and an I/O error
/// become the error of their number, and an I/O error without a number `EIO`.
pub proof fn law_errors_are_their_numbers(
    a: Errno,
    b: Errno,
    p: i32,
    q: i32,
    same: bool,
    n: i32,
    wrapped: Errno,
    err: std::io::Error,
    of_io: Errno,
)
    requires
        call_ensures(Errno::raw, (a,), p),
        call_ensures(Errno::raw, (b,), q),
        call_ensures(<Errno as PartialEq>::eq, (&a, &b), same),
        call_ensures(<Errno as From<i32>>::from, (n,), wrapped),
        call_ensures(<Errno as From<std::io::Error>>::from, (err,), of_io),
    ensures
        same <==> p == q,
        wrapped.code() == n,
        match os_error_code(err) {
            Some(code) => of_io.code() == code,
            None => of_io is EIO,
        },
{
}

} // verus!
