//! Open requests and the replies to them.

use vstd::prelude::*;

verus! {

/// The fields of libfuse's `fuse_file_info` that this library reads or
/// writes. The hints and flags are the one-bit fields of the C structure.
#[derive(Clone, Copy, PartialEq, Eq, Debug, Structural)]
pub struct RawFileInfo {
    pub flags: i32,
    pub fh: u64,
    pub lock_owner: u64,
    pub flush: u32,
    pub writepage: u32,
    pub direct_io: u32,
    pub keep_cache: u32,
    pub nonseekable: u32,
    pub cache_readdir: u32,
}

/// A safe, read-only view of an incoming `fuse_file_info`.
#[derive(Clone, Copy, PartialEq, Eq, Debug, Structural)]
pub struct FileInfo {
    pub flags: i32,
    pub fh: u64,
    pub lock_owner: u64,
    pub flush: bool,
    pub writepage: bool,
}

/// The access mode of an open request, decoded from the open flags.
#[derive(Clone, Copy, Debug, PartialEq, Eq, Structural)]
pub enum AccessMode {
    ReadOnly,
    WriteOnly,
    ReadWrite,
}

/// The values of `libc`'s access mode constants.
struct AccessFlags {
    mask: i32,
    read_only: i32,
    write_only: i32,
}

/// Reads `libc`'s `O_ACCMODE`, `O_RDONLY` and `O_WRONLY`, with the values that
/// they have on Linux with glibc.
#[verifier::external_body]
fn libc_access_flags() -> (f: AccessFlags)
    ensures
        f.mask == 3 && f.read_only == 0 && f.write_only == 1,
{
    AccessFlags { mask: libc::O_ACCMODE, read_only: libc::O_RDONLY, write_only: libc::O_WRONLY }
}

impl Default for FileInfo {
    fn default() -> (r: FileInfo)
        ensures
            r == (FileInfo { flags: 0, fh: 0, lock_owner: 0, flush: false, writepage: false }),
    {
        FileInfo { flags: 0, fh: 0, lock_owner: 0, flush: false, writepage: false }
    }
}

impl FileInfo {
    /// Builds a `FileInfo` from the raw structure, `None` if there is none (as
    /// is legitimate for several callbacks).
    pub fn from_raw(fi: Option<&RawFileInfo>) -> (r: Option<FileInfo>)
        ensures
            r == match fi {
                Some(fi) => Some(
                    FileInfo {
                        flags: fi.flags,
                        fh: fi.fh,
                        lock_owner: fi.lock_owner,
                        flush: fi.flush != 0,
                        writepage: fi.writepage != 0,
                    },
                ),
                None => None,
            },
    {
        match fi {
            Some(fi) => Some(
                FileInfo {
                    flags: fi.flags,
                    fh: fi.fh,
                    lock_owner: fi.lock_owner,
                    flush: fi.flush != 0,
                    writepage: fi.writepage != 0,
                },
            ),
            None => None,
        }
    }

    /// The access mode requested in the open flags: what is neither read-only
    /// nor write-only counts as both.
    pub fn access_mode(&self) -> (mode: AccessMode)
        ensures
            mode == if self.flags & 3 == 0 {
                AccessMode::ReadOnly
            } else if self.flags & 3 == 1 {
                AccessMode::WriteOnly
            } else {
                AccessMode::ReadWrite
            },
    {
        let f = libc_access_flags();
        let requested: i32 = self.flags & f.mask;
        if requested == f.read_only {
            AccessMode::ReadOnly
        } else if requested == f.write_only {
            AccessMode::WriteOnly
        } else {
            AccessMode::ReadWrite
        }
    }
}

/// Kernel caching hints returned alongside an opened handle.
#[derive(Clone, Copy, PartialEq, Eq, Debug, Structural)]
pub struct OpenHints {
    pub direct_io: bool,
    pub keep_cache: bool,
    pub nonseekable: bool,
    pub cache_readdir: bool,
}

impl OpenHints {
    /// The hints with everything left at its default: off.
    pub open spec fn off() -> OpenHints {
        OpenHints { direct_io: false, keep_cache: false, nonseekable: false, cache_readdir: false }
    }
}

impl Default for OpenHints {
    fn default() -> (r: OpenHints)
        ensures
            r == OpenHints::off(),
    {
        OpenHints { direct_io: false, keep_cache: false, nonseekable: false, cache_readdir: false }
    }
}

/// The reply to `open`/`create`/`opendir`: a file handle plus caching hints
/// written back into the kernel's `fuse_file_info`.
#[derive(Clone, Copy, PartialEq, Eq, Debug, Structural)]
pub struct OpenReply {
    pub fh: u64,
    pub hints: OpenHints,
}

impl Default for OpenReply {
    fn default() -> (r: OpenReply)
        ensures
            r == (OpenReply { fh: 0, hints: OpenHints::off() }),
    {
        OpenReply { fh: 0, hints: OpenHints::default() }
    }
}

impl OpenReply {
    /// Creates a reply carrying the given file handle, with all caching
    /// hints left at their default (off).
    pub fn new(fh: u64) -> (r: OpenReply)
        ensures
            r == (OpenReply { fh, hints: OpenHints::off() }),
    {
        OpenReply { fh, hints: OpenHints::default() }
    }

    pub fn direct_io(self, value: bool) -> (r: OpenReply)
        ensures
            r == (OpenReply { fh: self.fh, hints: OpenHints { direct_io: value, ..self.hints } }),
    {
        OpenReply { fh: self.fh, hints: OpenHints { direct_io: value, ..self.hints } }
    }

    pub fn keep_cache(self, value: bool) -> (r: OpenReply)
        ensures
            r == (OpenReply { fh: self.fh, hints: OpenHints { keep_cache: value, ..self.hints } }),
    {
        OpenReply { fh: self.fh, hints: OpenHints { keep_cache: value, ..self.hints } }
    }

    pub fn nonseekable(self, value: bool) -> (r: OpenReply)
        ensures
            r == (OpenReply { fh: self.fh, hints: OpenHints { nonseekable: value, ..self.hints } }),
    {
        OpenReply { fh: self.fh, hints: OpenHints { nonseekable: value, ..self.hints } }
    }

    pub fn cache_readdir(self, value: bool) -> (r: OpenReply)
        ensures
            r == (OpenReply {
                fh: self.fh,
                hints: OpenHints { cache_readdir: value, ..self.hints },
            }),
    {
        OpenReply { fh: self.fh, hints: OpenHints { cache_readdir: value, ..self.hints } }
    }

    /// The raw structure with this reply's fields written into it.
    pub open spec fn applied(self, fi: RawFileInfo) -> RawFileInfo {
        RawFileInfo {
            fh: self.fh,
            direct_io: self.hints.direct_io as u32,
            keep_cache: self.hints.keep_cache as u32,
            nonseekable: self.hints.nonseekable as u32,
            cache_readdir: self.hints.cache_readdir as u32,
            ..fi
        }
    }

    /// Writes this reply's fields into the raw structure and leaves its other
    /// fields alone.
    pub fn apply_to(&self, fi: RawFileInfo) -> (r: RawFileInfo)
        ensures
            r == self.applied(fi),
    {
        RawFileInfo {
            fh: self.fh,
            direct_io: self.hints.direct_io as u32,
            keep_cache: self.hints.keep_cache as u32,
            nonseekable: self.hints.nonseekable as u32,
            cache_readdir: self.hints.cache_readdir as u32,
            ..fi
        }
    }

    /// Like [`OpenReply::apply_to`]. Does nothing without a structure.
    pub fn apply(&self, fi: Option<RawFileInfo>) -> (r: Option<RawFileInfo>)
        ensures
            r == match fi {
                Some(fi) => Some(self.applied(fi)),
                None => None,
            },
    {
        match fi {
            Some(fi) => Some(self.apply_to(fi)),
            None => None,
        }
    }
}

/// The result of an `open`/`opendir`/`create`: the filesystem's own handle
/// object plus optional caching hints. The runtime assigns the integer file
/// handle; the filesystem never sees it.
#[derive(Clone, Copy, Debug)]
pub struct Opened<H> {
    pub handle: H,
    pub hints: OpenHints,
}

impl<H: Default> Default for Opened<H> {
    fn default() -> (r: Opened<H>)
        ensures
            call_ensures(H::default, (), r.handle),
            r.hints == OpenHints::off(),
    {
        Opened { handle: H::default(), hints: OpenHints::default() }
    }
}

impl<H> Opened<H> {
    pub fn new(handle: H) -> (r: Opened<H>)
        ensures
            r == (Opened { handle, hints: OpenHints::off() }),
    {
        Opened { handle, hints: OpenHints::default() }
    }

    pub fn direct_io(self, value: bool) -> (r: Opened<H>)
        ensures
            r == (Opened {
                handle: self.handle,
                hints: OpenHints { direct_io: value, ..self.hints },
            }),
    {
        Opened { handle: self.handle, hints: OpenHints { direct_io: value, ..self.hints } }
    }

    pub fn keep_cache(self, value: bool) -> (r: Opened<H>)
        ensures
            r == (Opened {
                handle: self.handle,
                hints: OpenHints { keep_cache: value, ..self.hints },
            }),
    {
        Opened { handle: self.handle, hints: OpenHints { keep_cache: value, ..self.hints } }
    }

    pub fn nonseekable(self, value: bool) -> (r: Opened<H>)
        ensures
            r == (Opened {
                handle: self.handle,
                hints: OpenHints { nonseekable: value, ..self.hints },
            }),
    {
        Opened { handle: self.handle, hints: OpenHints { nonseekable: value, ..self.hints } }
    }

    pub fn cache_readdir(self, value: bool) -> (r: Opened<H>)
        ensures
            r == (Opened {
                handle: self.handle,
                hints: OpenHints { cache_readdir: value, ..self.hints },
            }),
    {
        Opened { handle: self.handle, hints: OpenHints { cache_readdir: value, ..self.hints } }
    }
}

/// What a reply wrote into the raw structure, the next request on the handle
/// reads: the file handle comes back, the open flags stay the caller's.
pub proof fn law_reply_handle_comes_back(reply: OpenReply, fi: RawFileInfo)
    ensures
        reply.applied(fi).fh == reply.fh,
        reply.applied(fi).flags == fi.flags && reply.applied(fi).lock_owner == fi.lock_owner,
        reply.hints.direct_io <==> reply.applied(fi).direct_io == 1,
        reply.hints.keep_cache <==> reply.applied(fi).keep_cache == 1,
        reply.hints.nonseekable <==> reply.applied(fi).nonseekable == 1,
        reply.hints.cache_readdir <==> reply.applied(fi).cache_readdir == 1,
{
}

/// What is read of the raw structure is what stands in it; a flag is on exactly if
/// its field is not zero.
pub proof fn law_file_info_is_read_as_it_stands(
    fi: Option<&RawFileInfo>,
    r: Option<FileInfo>,
)
    requires
        call_ensures(FileInfo::from_raw, (fi,), r),
    ensures
        r is Some <==> fi is Some,
        fi matches Some(raw) ==> r matches Some(info) && {
            &&& info.flags == raw.flags && info.fh == raw.fh
            &&& info.lock_owner == raw.lock_owner
            &&& info.flush <==> raw.flush != 0
            &&& info.writepage <==> raw.writepage != 0
        },
{
}

/// The access mode is that of the two lowest open flags, whatever the others are:
/// none of them asks for reading, the lowest alone for writing, all else for both.
pub proof fn law_access_mode_is_in_the_lowest_flags(info: FileInfo, mode: AccessMode)
    requires
        call_ensures(FileInfo::access_mode, (&info,), mode),
    ensures
        mode is ReadOnly <==> info.flags & 1 == 0 && info.flags & 2 == 0,
        mode is WriteOnly <==> info.flags & 1 == 1 && info.flags & 2 == 0,
        mode is ReadWrite <==> info.flags & 2 == 2,
{
    let f = info.flags;
    assert((f & 3 == 0) == (f & 1 == 0 && f & 2 == 0)) by (bit_vector);
    assert((f & 3 == 1) == (f & 1 == 1 && f & 2 == 0)) by (bit_vector);
    assert((f & 3 != 0 && f & 3 != 1) == (f & 2 == 2)) by (bit_vector);
}

/// A reply is written into its own fields of the raw structure, each hint as one or
/// zero, and into no others.
pub proof fn law_reply_is_written_into_its_fields(
    reply: OpenReply,
    fi: RawFileInfo,
    r: RawFileInfo,
    some: Option<RawFileInfo>,
)
    requires
        call_ensures(OpenReply::apply_to, (&reply, fi), r),
        call_ensures(OpenReply::apply, (&reply, Some(fi)), some),
    ensures
        some == Some(r),
        r.fh == reply.fh,
        r.direct_io == 1 <==> reply.hints.direct_io,
        r.keep_cache == 1 <==> reply.hints.keep_cache,
        r.nonseekable == 1 <==> reply.hints.nonseekable,
        r.cache_readdir == 1 <==> reply.hints.cache_readdir,
        r.direct_io <= 1 && r.keep_cache <= 1 && r.nonseekable <= 1 && r.cache_readdir <= 1,
        r.flags == fi.flags && r.lock_owner == fi.lock_owner,
        r.flush == fi.flush && r.writepage == fi.writepage,
{
}

/// Nothing is written where there is no raw structure.
pub proof fn law_no_structure_no_reply(reply: OpenReply, none: Option<RawFileInfo>)
    requires
        call_ensures(OpenReply::apply, (&reply, None), none),
    ensures
        none is None,
{
}

/// A new reply has all hints off, and setting one sets that one alone.
pub proof fn law_hints_are_set_one_by_one(
    fh: u64,
    new: OpenReply,
    reply: OpenReply,
    value: bool,
    direct_io: OpenReply,
    keep_cache: OpenReply,
    nonseekable: OpenReply,
    cache_readdir: OpenReply,
)
    requires
        call_ensures(OpenReply::new, (fh,), new),
        call_ensures(OpenReply::direct_io, (reply, value), direct_io),
        call_ensures(OpenReply::keep_cache, (reply, value), keep_cache),
        call_ensures(OpenReply::nonseekable, (reply, value), nonseekable),
        call_ensures(OpenReply::cache_readdir, (reply, value), cache_readdir),
    ensures
        new.fh == fh && !new.hints.direct_io && !new.hints.keep_cache,
        !new.hints.nonseekable && !new.hints.cache_readdir,
        direct_io.fh == reply.fh && direct_io.hints.direct_io == value,
        direct_io.hints == (OpenHints { direct_io: value, ..reply.hints }),
        keep_cache.fh == reply.fh && keep_cache.hints.keep_cache == value,
        keep_cache.hints == (OpenHints { keep_cache: value, ..reply.hints }),
        nonseekable.fh == reply.fh && nonseekable.hints.nonseekable == value,
        nonseekable.hints == (OpenHints { nonseekable: value, ..reply.hints }),
        cache_readdir.fh == reply.fh && cache_readdir.hints.cache_readdir == value,
        cache_readdir.hints == (OpenHints { cache_readdir: value, ..reply.hints }),
{
}

/// The same of what a filesystem opened: its handle stays, and setting a hint sets
/// that one alone.
pub proof fn law_opened_hints_are_set_one_by_one<H>(
    handle: H,
    new: Opened<H>,
    opened: Opened<H>,
    value: bool,
    direct_io: Opened<H>,
    keep_cache: Opened<H>,
    nonseekable: Opened<H>,
    cache_readdir: Opened<H>,
)
    requires
        call_ensures(Opened::<H>::new, (handle,), new),
        call_ensures(Opened::<H>::direct_io, (opened, value), direct_io),
        call_ensures(Opened::<H>::keep_cache, (opened, value), keep_cache),
        call_ensures(Opened::<H>::nonseekable, (opened, value), nonseekable),
        call_ensures(Opened::<H>::cache_readdir, (opened, value), cache_readdir),
    ensures
        new.handle == handle && !new.hints.direct_io && !new.hints.keep_cache,
        !new.hints.nonseekable && !new.hints.cache_readdir,
        direct_io.handle == opened.handle,
        direct_io.hints == (OpenHints { direct_io: value, ..opened.hints }),
        keep_cache.handle == opened.handle,
        keep_cache.hints == (OpenHints { keep_cache: value, ..opened.hints }),
        nonseekable.handle == opened.handle,
        nonseekable.hints == (OpenHints { nonseekable: value, ..opened.hints }),
        cache_readdir.handle == opened.handle,
        cache_readdir.hints == (OpenHints { cache_readdir: value, ..opened.hints }),
{
}

/// Defaults are zero and off.
pub proof fn law_open_defaults_are_off<H: Default>(
    info: FileInfo,
    hints: OpenHints,
    reply: OpenReply,
    opened: Opened<H>,
)
    requires
        call_ensures(FileInfo::default, (), info),
        call_ensures(OpenHints::default, (), hints),
        call_ensures(OpenReply::default, (), reply),
        call_ensures(Opened::<H>::default, (), opened),
    ensures
        info.flags == 0 && info.fh == 0 && info.lock_owner == 0,
        !info.flush && !info.writepage,
        !hints.direct_io && !hints.keep_cache && !hints.nonseekable && !hints.cache_readdir,
        reply.fh == 0 && reply.hints == hints,
        opened.hints == hints && call_ensures(H::default, (), opened.handle),
{
}

} // verus!
