//! Attributes of filesystem entries and the raw structures they become.

use std::time::{Duration, SystemTime};

use vstd::prelude::*;

use crate::file_type;
use crate::file_type::{FileType, Inode, TYPE_MASK};
use crate::time;

verus! {

/// Seconds and nanoseconds since the Unix epoch, as C's `timespec` holds them.
#[derive(Clone, Copy, PartialEq, Eq, Debug, Structural)]
pub struct Timespec {
    pub tv_sec: i64,
    pub tv_nsec: i64,
}

impl Timespec {
    /// The `timespec` of a point in time.
    pub open spec fn of(t: SystemTime) -> Timespec {
        Timespec {
            tv_sec: time::secs_of(time::epoch_nanos(t)),
            tv_nsec: time::nsecs_of(time::epoch_nanos(t)),
        }
    }

    /// Nanoseconds from the epoch to the point in time that this names.
    pub open spec fn nanos(self) -> int {
        time::timespec_nanos(self.tv_sec, self.tv_nsec)
    }

    /// Whether `SystemTime` can represent the point in time that this names.
    pub open spec fn fits(self) -> bool {
        time::timespec_fits(self.tv_sec, self.tv_nsec)
    }

    fn from_time(t: SystemTime) -> (r: Timespec)
        ensures
            r == Timespec::of(t),
            secs_fit(t) ==> r.fits() && r.nanos() == time::epoch_nanos(t),
    {
        let (tv_sec, tv_nsec) = time::system_time_to_secs_nsecs(t);
        Timespec { tv_sec, tv_nsec }
    }

    fn to_time(self) -> (r: Option<SystemTime>)
        ensures
            r is Some <==> self.fits(),
            r matches Some(t) ==> time::epoch_nanos(t) == self.nanos(),
    {
        time::try_secs_nsecs_to_system_time(self.tv_sec, self.tv_nsec)
    }
}

/// The fields of C's `struct stat` that a filesystem fills. `st_birthtimespec`
/// and `st_flags` exist on macOS only; elsewhere they have no field to go to.
#[derive(Clone, Copy, PartialEq, Eq, Debug, Structural)]
pub struct Stat {
    pub st_ino: u64,
    pub st_mode: u32,
    pub st_nlink: u64,
    pub st_uid: u32,
    pub st_gid: u32,
    pub st_rdev: u64,
    pub st_size: i64,
    pub st_blocks: i64,
    pub st_blksize: i64,
    pub st_atimespec: Timespec,
    pub st_mtimespec: Timespec,
    pub st_ctimespec: Timespec,
    pub st_birthtimespec: Timespec,
    pub st_flags: u32,
}

/// Filesystem entry attributes (the safe equivalent of `struct stat`).
#[derive(Clone, Copy, Debug)]
pub struct FileAttr {
    pub ino: Inode,
    pub size: u64,
    pub blocks: u64,
    pub atime: SystemTime,
    pub mtime: SystemTime,
    pub ctime: SystemTime,
    /// Creation time. Only meaningful on macOS; ignored on Linux.
    pub crtime: SystemTime,
    pub kind: FileType,
    pub perm: u16,
    pub nlink: u32,
    pub uid: u32,
    pub gid: u32,
    pub rdev: u32,
    pub blksize: u32,
    /// BSD file flags (`chflags(2)`). Only meaningful on macOS; ignored on
    /// Linux.
    pub flags: u32,
}

impl Default for FileAttr {
    fn default() -> (r: FileAttr)
        ensures
            r.ino == 0 && r.size == 0 && r.blocks == 0,
            time::epoch_nanos(r.atime) == 0 && time::epoch_nanos(r.mtime) == 0,
            time::epoch_nanos(r.ctime) == 0 && time::epoch_nanos(r.crtime) == 0,
            r.kind == FileType::RegularFile,
            r.perm == 0 && r.nlink == 0 && r.uid == 0 && r.gid == 0,
            r.rdev == 0 && r.blksize == 0 && r.flags == 0,
    {
        FileAttr {
            ino: 0,
            size: 0,
            blocks: 0,
            atime: time::unix_epoch(),
            mtime: time::unix_epoch(),
            ctime: time::unix_epoch(),
            crtime: time::unix_epoch(),
            kind: FileType::RegularFile,
            perm: 0,
            nlink: 0,
            uid: 0,
            gid: 0,
            rdev: 0,
            blksize: 0,
            flags: 0,
        }
    }
}

impl FileAttr {
    /// The raw attributes: the mode joins the file type with the low twelve
    /// permission bits, sizes keep their bits, and every time is split into
    /// seconds and nanoseconds.
    pub open spec fn stat(self) -> Stat {
        Stat {
            st_ino: self.ino,
            st_mode: self.kind.mode_bits() | (self.perm as u32 & 0o7777),
            st_nlink: self.nlink as u64,
            st_uid: self.uid,
            st_gid: self.gid,
            st_rdev: self.rdev as u64,
            st_size: self.size as i64,
            st_blocks: self.blocks as i64,
            st_blksize: self.blksize as i64,
            st_atimespec: Timespec::of(self.atime),
            st_mtimespec: Timespec::of(self.mtime),
            st_ctimespec: Timespec::of(self.ctime),
            st_birthtimespec: Timespec::of(self.crtime),
            st_flags: self.flags,
        }
    }

    /// Builds the raw `stat` of this attribute set. Its times can be read back.
    pub fn to_stat(&self) -> (st: Stat)
        ensures
            st == self.stat(),
            secs_fit(self.atime) ==> st.st_atimespec.fits(),
            secs_fit(self.mtime) ==> st.st_mtimespec.fits(),
            secs_fit(self.ctime) ==> st.st_ctimespec.fits(),
            secs_fit(self.crtime) ==> st.st_birthtimespec.fits(),
    {
        Stat {
            st_ino: self.ino,
            st_mode: self.kind.to_mode_bits() | (self.perm as u32 & 0o7777),
            st_nlink: self.nlink as u64,
            st_uid: self.uid,
            st_gid: self.gid,
            st_rdev: self.rdev as u64,
            st_size: #[verifier::truncate] (self.size as i64),
            st_blocks: #[verifier::truncate] (self.blocks as i64),
            st_blksize: self.blksize as i64,
            st_atimespec: Timespec::from_time(self.atime),
            st_mtimespec: Timespec::from_time(self.mtime),
            st_ctimespec: Timespec::from_time(self.ctime),
            st_birthtimespec: Timespec::from_time(self.crtime),
            st_flags: self.flags,
        }
    }
}

/// The attributes of a node, which does not know its own inode number.
#[derive(Clone, Copy, Debug)]
pub struct NodeAttr {
    pub size: u64,
    pub blocks: u64,
    pub atime: SystemTime,
    pub mtime: SystemTime,
    pub ctime: SystemTime,
    /// Creation time. Only meaningful on macOS; ignored on Linux.
    pub crtime: SystemTime,
    pub kind: FileType,
    pub perm: u16,
    pub nlink: u32,
    pub uid: u32,
    pub gid: u32,
    pub rdev: u32,
    pub blksize: u32,
    /// BSD file flags. Only meaningful on macOS; ignored on Linux.
    pub flags: u32,
}

impl Default for NodeAttr {
    fn default() -> (r: NodeAttr)
        ensures
            r.size == 0 && r.blocks == 0,
            time::epoch_nanos(r.atime) == 0 && time::epoch_nanos(r.mtime) == 0,
            time::epoch_nanos(r.ctime) == 0 && time::epoch_nanos(r.crtime) == 0,
            r.kind == FileType::RegularFile,
            r.perm == 0 && r.nlink == 0 && r.uid == 0 && r.gid == 0,
            r.rdev == 0 && r.blksize == 0 && r.flags == 0,
    {
        NodeAttr {
            size: 0,
            blocks: 0,
            atime: time::unix_epoch(),
            mtime: time::unix_epoch(),
            ctime: time::unix_epoch(),
            crtime: time::unix_epoch(),
            kind: FileType::RegularFile,
            perm: 0,
            nlink: 0,
            uid: 0,
            gid: 0,
            rdev: 0,
            blksize: 0,
            flags: 0,
        }
    }
}

impl NodeAttr {
    /// These attributes for the node with inode number `ino`.
    pub open spec fn at(self, ino: Inode) -> FileAttr {
        FileAttr {
            ino,
            size: self.size,
            blocks: self.blocks,
            atime: self.atime,
            mtime: self.mtime,
            ctime: self.ctime,
            crtime: self.crtime,
            kind: self.kind,
            perm: self.perm,
            nlink: self.nlink,
            uid: self.uid,
            gid: self.gid,
            rdev: self.rdev,
            blksize: self.blksize,
            flags: self.flags,
        }
    }

    /// Joins the attributes of a node with its inode number.
    pub fn with_ino(&self, ino: Inode) -> (attr: FileAttr)
        ensures
            attr == self.at(ino),
    {
        FileAttr {
            ino,
            size: self.size,
            blocks: self.blocks,
            atime: self.atime,
            mtime: self.mtime,
            ctime: self.ctime,
            crtime: self.crtime,
            kind: self.kind,
            perm: self.perm,
            nlink: self.nlink,
            uid: self.uid,
            gid: self.gid,
            rdev: self.rdev,
            blksize: self.blksize,
            flags: self.flags,
        }
    }
}

/// The reply to a `lookup`/`mknod`/`mkdir`/... call: an inode plus caching
/// hints.
#[derive(Clone, Copy, Debug)]
pub struct Entry {
    pub ino: Inode,
    pub generation: u64,
    pub attr: FileAttr,
    pub attr_timeout: Duration,
    pub entry_timeout: Duration,
}

/// The fields of libfuse's `fuse_entry_param`. The timeouts stay durations:
/// the kernel interface takes them as seconds in floating point.
#[derive(Clone, Copy, Debug)]
pub struct EntryParam {
    pub ino: Inode,
    pub generation: u64,
    pub attr: Stat,
    pub attr_timeout: Duration,
    pub entry_timeout: Duration,
}

impl Default for Entry {
    fn default() -> (r: Entry)
        ensures
            r.ino == 0 && r.generation == 0,
            call_ensures(FileAttr::default, (), r.attr),
            time::duration_nanos(r.attr_timeout) == 0 && time::duration_nanos(r.entry_timeout) == 0,
    {
        Entry {
            ino: 0,
            generation: 0,
            attr: FileAttr::default(),
            attr_timeout: Duration::from_secs(0),
            entry_timeout: Duration::from_secs(0),
        }
    }
}

impl Entry {
    /// The raw entry: the same numbers and timeouts, with raw attributes.
    pub open spec fn entry_param(self) -> EntryParam {
        EntryParam {
            ino: self.ino,
            generation: self.generation,
            attr: self.attr.stat(),
            attr_timeout: self.attr_timeout,
            entry_timeout: self.entry_timeout,
        }
    }

    /// Builds the raw entry of this reply.
    pub fn to_entry_param(&self) -> (p: EntryParam)
        ensures
            p == self.entry_param(),
    {
        EntryParam {
            ino: self.ino,
            generation: self.generation,
            attr: self.attr.to_stat(),
            attr_timeout: self.attr_timeout,
            entry_timeout: self.entry_timeout,
        }
    }
}

/// Either a specific point in time, or "now" (as requested by e.g.
/// `utimes(2)` with `UTIME_NOW`).
#[derive(Clone, Copy, PartialEq, Debug)]
pub enum TimeOrNow {
    SpecificTime(SystemTime),
    Now,
}

/// Which bit of a `setattr` request asks for which field. A platform without
/// a field has no bit for it.
#[derive(Clone, Copy, PartialEq, Eq, Debug, Structural)]
pub struct SetAttrMask {
    pub mode: u32,
    pub uid: u32,
    pub gid: u32,
    pub size: u32,
    pub atime: u32,
    pub mtime: u32,
    pub atime_now: u32,
    pub mtime_now: u32,
    pub ctime: u32,
    /// Creation time, macOS only.
    pub btime: u32,
    /// BSD file flags, macOS only.
    pub flags: u32,
}

impl SetAttrMask {
    /// The bits of the Linux kernel interface, which knows neither creation
    /// time nor BSD flags.
    pub fn linux() -> (m: SetAttrMask)
        ensures
            m.mode == 0x1 && m.uid == 0x2 && m.gid == 0x4 && m.size == 0x8,
            m.atime == 0x10 && m.mtime == 0x20 && m.atime_now == 0x80,
            m.mtime_now == 0x100 && m.ctime == 0x400 && m.btime == 0 && m.flags == 0,
    {
        SetAttrMask {
            mode: 0x1,
            uid: 0x2,
            gid: 0x4,
            size: 0x8,
            atime: 0x10,
            mtime: 0x20,
            atime_now: 0x80,
            mtime_now: 0x100,
            ctime: 0x400,
            btime: 0,
            flags: 0,
        }
    }
}

/// The decoded `setattr` request: which fields the caller wants changed,
/// and to what.
#[derive(Clone, Copy, Debug)]
pub struct SetAttrs {
    pub mode: Option<u32>,
    pub uid: Option<u32>,
    pub gid: Option<u32>,
    pub size: Option<u64>,
    pub atime: Option<TimeOrNow>,
    pub mtime: Option<TimeOrNow>,
    pub ctime: Option<SystemTime>,
    /// Creation time (macOS only).
    pub crtime: Option<SystemTime>,
    /// "Change time": no request carries it, so it is always `None`.
    pub chgtime: Option<SystemTime>,
    /// Backup time: `struct stat` has no field to take it from, so it is
    /// always `None`.
    pub bkuptime: Option<SystemTime>,
    /// BSD file flags (macOS only).
    pub flags: Option<u32>,
}

/// The name under which the node interface knows [`SetAttrs`].
pub type SetAttr = SetAttrs;

/// Whether a request asks for the field with this bit.
pub open spec fn asks(to_set: i32, bit: u32) -> bool {
    (to_set as u32) & bit != 0
}

/// Whether a time was decoded as its bit asks: from the raw field, or not at
/// all.
pub open spec fn time_decoded(r: Option<SystemTime>, asked: bool, raw: Timespec) -> bool {
    &&& r is Some <==> asked
    &&& r matches Some(t) ==> time::epoch_nanos(t) == raw.nanos()
}

/// Whether a time that may also be "now" was decoded as its two bits ask.
/// "Now" goes before a specific time.
pub open spec fn time_or_now_decoded(
    r: Option<TimeOrNow>,
    now: bool,
    asked: bool,
    raw: Timespec,
) -> bool {
    if now {
        r == Some(TimeOrNow::Now)
    } else if asked {
        r matches Some(TimeOrNow::SpecificTime(t)) && time::epoch_nanos(t) == raw.nanos()
    } else {
        r is None
    }
}

/// Whether every time that a request asks for can be represented.
pub open spec fn requested_times_fit(attr: Option<&Stat>, to_set: i32, mask: SetAttrMask) -> bool {
    match attr {
        Some(st) => {
            &&& asks(to_set, mask.atime) && !asks(to_set, mask.atime_now)
                ==> st.st_atimespec.fits()
            &&& asks(to_set, mask.mtime) && !asks(to_set, mask.mtime_now)
                ==> st.st_mtimespec.fits()
            &&& asks(to_set, mask.ctime) ==> st.st_ctimespec.fits()
            &&& asks(to_set, mask.btime) ==> st.st_birthtimespec.fits()
        },
        None => true,
    }
}

fn decode_time(asked: bool, raw: Timespec) -> (r: Option<Option<SystemTime>>)
    ensures
        r is Some <==> (asked ==> raw.fits()),
        r matches Some(t) ==> time_decoded(t, asked, raw),
{
    if asked {
        match raw.to_time() {
            Some(t) => Some(Some(t)),
            None => None,
        }
    } else {
        Some(None)
    }
}

fn decode_time_or_now(now: bool, asked: bool, raw: Timespec) -> (r: Option<Option<TimeOrNow>>)
    ensures
        r is Some <==> (asked && !now ==> raw.fits()),
        r matches Some(t) ==> time_or_now_decoded(t, now, asked, raw),
{
    if now {
        Some(Some(TimeOrNow::Now))
    } else if asked {
        match raw.to_time() {
            Some(t) => Some(Some(TimeOrNow::SpecificTime(t))),
            None => None,
        }
    } else {
        Some(None)
    }
}

impl Default for SetAttrs {
    fn default() -> (r: SetAttrs)
        ensures
            r == SetAttrs::nothing(),
    {
        SetAttrs {
            mode: None,
            uid: None,
            gid: None,
            size: None,
            atime: None,
            mtime: None,
            ctime: None,
            crtime: None,
            chgtime: None,
            bkuptime: None,
            flags: None,
        }
    }
}

impl SetAttrs {
    /// The request that changes nothing.
    pub open spec fn nothing() -> SetAttrs {
        SetAttrs {
            mode: None,
            uid: None,
            gid: None,
            size: None,
            atime: None,
            mtime: None,
            ctime: None,
            crtime: None,
            chgtime: None,
            bkuptime: None,
            flags: None,
        }
    }

    /// Whether this is what a raw request decodes to: each field is present
    /// exactly when its bit is set, with the value of the raw field.
    pub open spec fn decodes(self, attr: Option<&Stat>, to_set: i32, mask: SetAttrMask) -> bool {
        match attr {
            Some(st) => {
                &&& self.mode == if asks(to_set, mask.mode) { Some(st.st_mode) } else { None }
                &&& self.uid == if asks(to_set, mask.uid) { Some(st.st_uid) } else { None }
                &&& self.gid == if asks(to_set, mask.gid) { Some(st.st_gid) } else { None }
                &&& self.size == if asks(to_set, mask.size) {
                    Some(st.st_size as u64)
                } else {
                    None
                }
                &&& time_or_now_decoded(
                    self.atime,
                    asks(to_set, mask.atime_now),
                    asks(to_set, mask.atime),
                    st.st_atimespec,
                )
                &&& time_or_now_decoded(
                    self.mtime,
                    asks(to_set, mask.mtime_now),
                    asks(to_set, mask.mtime),
                    st.st_mtimespec,
                )
                &&& time_decoded(self.ctime, asks(to_set, mask.ctime), st.st_ctimespec)
                &&& time_decoded(self.crtime, asks(to_set, mask.btime), st.st_birthtimespec)
                &&& self.chgtime is None
                &&& self.bkuptime is None
                &&& self.flags == if asks(to_set, mask.flags) { Some(st.st_flags) } else { None }
            },
            None => self == SetAttrs::nothing(),
        }
    }

    /// Decodes a `setattr` request from the raw `stat` and the bits that say
    /// which of its fields count. Without a `stat` nothing is asked for.
    pub fn from_raw(attr: Option<&Stat>, to_set: i32, mask: &SetAttrMask) -> (r: SetAttrs)
        requires
            requested_times_fit(attr, to_set, *mask),
        ensures
            r.decodes(attr, to_set, *mask),
    {
        SetAttrs::try_from_raw(attr, to_set, mask).unwrap()
    }

    /// Like [`SetAttrs::from_raw`], with `None` when a time that the request
    /// asks for cannot be represented.
    pub fn try_from_raw(attr: Option<&Stat>, to_set: i32, mask: &SetAttrMask) -> (r: Option<
        SetAttrs,
    >)
        ensures
            r is Some <==> requested_times_fit(attr, to_set, *mask),
            r matches Some(s) ==> s.decodes(attr, to_set, *mask),
    {
        let mut out = SetAttrs::default();
        let st: &Stat = match attr {
            Some(st) => st,
            None => {
                return Some(out);
            },
        };
        let bits: u32 = #[verifier::truncate] (to_set as u32);

        if bits & mask.mode != 0 {
            out.mode = Some(st.st_mode);
        }
        if bits & mask.uid != 0 {
            out.uid = Some(st.st_uid);
        }
        if bits & mask.gid != 0 {
            out.gid = Some(st.st_gid);
        }
        if bits & mask.size != 0 {
            out.size = Some(#[verifier::truncate] (st.st_size as u64));
        }
        if bits & mask.flags != 0 {
            out.flags = Some(st.st_flags);
        }
        out.atime = match decode_time_or_now(
            bits & mask.atime_now != 0,
            bits & mask.atime != 0,
            st.st_atimespec,
        ) {
            Some(t) => t,
            None => {
                return None;
            },
        };
        out.mtime = match decode_time_or_now(
            bits & mask.mtime_now != 0,
            bits & mask.mtime != 0,
            st.st_mtimespec,
        ) {
            Some(t) => t,
            None => {
                return None;
            },
        };
        out.ctime = match decode_time(bits & mask.ctime != 0, st.st_ctimespec) {
            Some(t) => t,
            None => {
                return None;
            },
        };
        out.crtime = match decode_time(bits & mask.btime != 0, st.st_birthtimespec) {
            Some(t) => t,
            None => {
                return None;
            },
        };
        Some(out)
    }
}

/// Filesystem-wide statistics, the safe equivalent of `statvfs`/`statfs`.
#[derive(Clone, Copy, PartialEq, Eq, Debug, Structural)]
pub struct StatFs {
    pub blocks: u64,
    pub bfree: u64,
    pub bavail: u64,
    pub files: u64,
    pub ffree: u64,
    pub bsize: u32,
    pub namelen: u32,
    pub frsize: u32,
}

/// The fields of Linux's `statvfs` that a filesystem fills.
#[derive(Clone, Copy, PartialEq, Eq, Debug, Structural)]
pub struct StatVfs {
    pub f_bsize: u64,
    pub f_frsize: u64,
    pub f_blocks: u64,
    pub f_bfree: u64,
    pub f_bavail: u64,
    pub f_files: u64,
    pub f_ffree: u64,
    pub f_namemax: u64,
}

/// The fields of macOS's `statfs` that a filesystem fills.
#[derive(Clone, Copy, PartialEq, Eq, Debug, Structural)]
pub struct MacStatFs {
    pub f_bsize: u32,
    pub f_iosize: i32,
    pub f_blocks: u64,
    pub f_bfree: u64,
    pub f_bavail: u64,
    pub f_files: u64,
    pub f_ffree: u64,
}

impl Default for StatFs {
    fn default() -> (r: StatFs)
        ensures
            r.blocks == 0 && r.bfree == 0 && r.bavail == 0 && r.files == 0 && r.ffree == 0,
            r.bsize == 0 && r.namelen == 0 && r.frsize == 0,
    {
        StatFs {
            blocks: 0,
            bfree: 0,
            bavail: 0,
            files: 0,
            ffree: 0,
            bsize: 0,
            namelen: 0,
            frsize: 0,
        }
    }
}

impl StatFs {
    /// The statistics of a filesystem that does not say more: a block size
    /// and a name limit, as libfuse replies without a callback.
    pub open spec fn minimal() -> StatFs {
        StatFs {
            blocks: 0,
            bfree: 0,
            bavail: 0,
            files: 0,
            ffree: 0,
            bsize: 512,
            namelen: 255,
            frsize: 0,
        }
    }

    /// The `statvfs` that holds these statistics.
    pub open spec fn raw(self) -> StatVfs {
        StatVfs {
            f_bsize: self.bsize as u64,
            f_frsize: self.frsize as u64,
            f_blocks: self.blocks,
            f_bfree: self.bfree,
            f_bavail: self.bavail,
            f_files: self.files,
            f_ffree: self.ffree,
            f_namemax: self.namelen as u64,
        }
    }

    /// Converts to the raw type that Linux replies with.
    pub fn to_raw(&self) -> (out: StatVfs)
        ensures
            out == self.raw(),
    {
        StatVfs {
            f_bsize: self.bsize as u64,
            f_frsize: self.frsize as u64,
            f_blocks: self.blocks,
            f_bfree: self.bfree,
            f_bavail: self.bavail,
            f_files: self.files,
            f_ffree: self.ffree,
            f_namemax: self.namelen as u64,
        }
    }

    /// Converts to the raw type that macOS replies with. It has no field for
    /// the name limit; the preferred I/O size stands for the fragment size.
    pub fn to_raw_macos(&self) -> (out: MacStatFs)
        ensures
            out == (MacStatFs {
                f_bsize: self.bsize,
                f_iosize: self.frsize as i32,
                f_blocks: self.blocks,
                f_bfree: self.bfree,
                f_bavail: self.bavail,
                f_files: self.files,
                f_ffree: self.ffree,
            }),
    {
        MacStatFs {
            f_bsize: self.bsize,
            f_iosize: #[verifier::truncate] (self.frsize as i32),
            f_blocks: self.blocks,
            f_bfree: self.bfree,
            f_bavail: self.bavail,
            f_files: self.files,
            f_ffree: self.ffree,
        }
    }

    /// The statistics that a filesystem reports when it does not compute any.
    pub fn minimal_default() -> (r: StatFs)
        ensures
            r == StatFs::minimal(),
    {
        StatFs {
            blocks: 0,
            bfree: 0,
            bavail: 0,
            files: 0,
            ffree: 0,
            bsize: 512,
            namelen: 255,
            frsize: 0,
        }
    }
}

/// Whether the seconds of a point in time fit in a `timespec`.
pub open spec fn secs_fit(t: SystemTime) -> bool {
    time::secs_fit(time::epoch_nanos(t))
}

/// The mode of the raw attributes gives back the file type and, below it, the
/// twelve permission bits.
pub proof fn law_stat_mode(attr: FileAttr)
    ensures
        attr.stat().st_mode & TYPE_MASK == attr.kind.mode_bits(),
        attr.stat().st_mode & 0o7777 == attr.perm as u32 & 0o7777,
{
    let perm = attr.perm as u32 & 0o7777;
    let bits = attr.kind.mode_bits();
    let p = attr.perm as u32;
    assert(perm & 0o170000 == 0) by (bit_vector)
        requires
            perm == p & 0o7777,
    ;
    file_type::law_mode_bits_round_trip(attr.kind, attr.kind, perm);
    assert(0u32 & 0o170000 == 0) by (bit_vector);
    file_type::law_mode_bits_round_trip(attr.kind, attr.kind, 0);
    assert((bits | 0u32) == bits) by (bit_vector);
    assert((bits | perm) & 0o7777 == perm) by (bit_vector)
        requires
            bits & 0o170000 == bits,
            perm == p & 0o7777,
    ;
}

/// A `setattr` request whose raw attributes were built from `attr` asks for
/// nothing else than what `attr` holds: every field that it decodes to is the
/// one of `attr`, and every specific time is the same point in time.
pub proof fn law_setattr_reads_what_stat_holds(
    attr: FileAttr,
    to_set: i32,
    mask: SetAttrMask,
    set: SetAttrs,
)
    requires
        secs_fit(attr.atime) && secs_fit(attr.mtime),
        secs_fit(attr.ctime) && secs_fit(attr.crtime),
        set.decodes(Some(&attr.stat()), to_set, mask),
    ensures
        set.mode matches Some(mode) ==> mode == attr.stat().st_mode,
        set.uid matches Some(uid) ==> uid == attr.uid,
        set.gid matches Some(gid) ==> gid == attr.gid,
        set.size matches Some(size) ==> size == attr.size,
        set.atime matches Some(TimeOrNow::SpecificTime(t)) ==> time::epoch_nanos(t)
            == time::epoch_nanos(attr.atime),
        set.mtime matches Some(TimeOrNow::SpecificTime(t)) ==> time::epoch_nanos(t)
            == time::epoch_nanos(attr.mtime),
        set.ctime matches Some(t) ==> time::epoch_nanos(t) == time::epoch_nanos(attr.ctime),
        set.crtime matches Some(t) ==> time::epoch_nanos(t) == time::epoch_nanos(attr.crtime),
        set.flags matches Some(flags) ==> flags == attr.flags,
{
    let size = attr.size;
    assert((size as i64) as u64 == size) by (bit_vector);
    time::law_time_round_trip(time::epoch_nanos(attr.atime));
    time::law_time_round_trip(time::epoch_nanos(attr.mtime));
    time::law_time_round_trip(time::epoch_nanos(attr.ctime));
    time::law_time_round_trip(time::epoch_nanos(attr.crtime));
}

/// Whether a `timespec` names a point in time: whole seconds and, counted
/// forward, the nanoseconds past them. (A point whose seconds no 64 bits hold has
/// no such `timespec`.)
pub open spec fn names(ts: Timespec, t: SystemTime) -> bool {
    let nanos = time::epoch_nanos(t);
    i64::MIN <= nanos / 1_000_000_000 <= i64::MAX ==> {
        &&& 0 <= ts.tv_nsec < 1_000_000_000
        &&& ts.tv_sec * 1_000_000_000 + ts.tv_nsec == nanos
    }
}

/// Whether a `stat` holds these attributes, each in its own field.
pub open spec fn holds(st: Stat, attr: FileAttr) -> bool {
    &&& st.st_ino == attr.ino
    &&& st.st_mode == attr.kind.mode_bits() | (attr.perm as u32 & 0o7777)
    &&& st.st_nlink == attr.nlink
    &&& st.st_uid == attr.uid
    &&& st.st_gid == attr.gid
    &&& st.st_rdev == attr.rdev
    &&& st.st_size as u64 == attr.size
    &&& st.st_blocks as u64 == attr.blocks
    &&& st.st_blksize == attr.blksize
    &&& st.st_flags == attr.flags
    &&& names(st.st_atimespec, attr.atime)
    &&& names(st.st_mtimespec, attr.mtime)
    &&& names(st.st_ctimespec, attr.ctime)
    &&& names(st.st_birthtimespec, attr.crtime)
}

pub(crate) proof fn lemma_stat_holds(attr: FileAttr)
    ensures
        holds(attr.stat(), attr),
{
    let (size, blocks) = (attr.size, attr.blocks);
    assert((size as i64) as u64 == size) by (bit_vector);
    assert((blocks as i64) as u64 == blocks) by (bit_vector);
    assert forall|t: SystemTime| names(#[trigger] Timespec::of(t), t) by {
        if time::secs_fit(time::epoch_nanos(t)) {
            time::law_time_round_trip(time::epoch_nanos(t));
        }
    }
}

/// The raw attributes hold the attributes that they were built from.
pub proof fn law_stat_holds_its_attributes(attr: FileAttr, st: Stat)
    requires
        call_ensures(FileAttr::to_stat, (&attr,), st),
    ensures
        holds(st, attr),
{
    lemma_stat_holds(attr);
}

/// Different attributes have different raw attributes: from the `stat` every
/// field can be told, of the permissions the twelve bits, and of the times as far
/// as their seconds fit.
pub proof fn law_stat_tells_attributes_apart(a: FileAttr, b: FileAttr, st: Stat)
    requires
        call_ensures(FileAttr::to_stat, (&a,), st),
        call_ensures(FileAttr::to_stat, (&b,), st),
    ensures
        a.ino == b.ino && a.size == b.size && a.blocks == b.blocks,
        a.kind == b.kind && a.perm & 0o7777 == b.perm & 0o7777,
        a.nlink == b.nlink && a.uid == b.uid && a.gid == b.gid,
        a.rdev == b.rdev && a.blksize == b.blksize && a.flags == b.flags,
        secs_fit(a.atime) && secs_fit(b.atime) ==> time::epoch_nanos(a.atime)
            == time::epoch_nanos(b.atime),
        secs_fit(a.mtime) && secs_fit(b.mtime) ==> time::epoch_nanos(a.mtime)
            == time::epoch_nanos(b.mtime),
        secs_fit(a.ctime) && secs_fit(b.ctime) ==> time::epoch_nanos(a.ctime)
            == time::epoch_nanos(b.ctime),
        secs_fit(a.crtime) && secs_fit(b.crtime) ==> time::epoch_nanos(a.crtime)
            == time::epoch_nanos(b.crtime),
{
    law_stat_holds_its_attributes(a, st);
    law_stat_holds_its_attributes(b, st);
    law_stat_mode(a);
    law_stat_mode(b);
    assert(0u32 & 0o170000 == 0) by (bit_vector);
    file_type::law_mode_bits_round_trip(a.kind, b.kind, 0);
    let (p, q) = (a.perm, b.perm);
    assert(p & 0o7777 == q & 0o7777) by (bit_vector)
        requires
            p as u32 & 0o7777 == q as u32 & 0o7777,
    ;
}

/// A node's attributes keep every field when its number is joined to them.
pub proof fn law_joining_a_number_keeps_the_attributes(
    attr: NodeAttr,
    ino: Inode,
    joined: FileAttr,
)
    requires
        call_ensures(NodeAttr::with_ino, (&attr, ino), joined),
    ensures
        joined.ino == ino,
        joined.size == attr.size && joined.blocks == attr.blocks,
        joined.atime == attr.atime && joined.mtime == attr.mtime,
        joined.ctime == attr.ctime && joined.crtime == attr.crtime,
        joined.kind == attr.kind && joined.perm == attr.perm && joined.nlink == attr.nlink,
        joined.uid == attr.uid && joined.gid == attr.gid && joined.rdev == attr.rdev,
        joined.blksize == attr.blksize && joined.flags == attr.flags,
{
}

/// The raw entry carries the number, the generation and the two timeouts of the
/// entry, each in its own field, and holds its attributes.
pub proof fn law_entry_param_holds_its_entry(entry: Entry, p: EntryParam)
    requires
        call_ensures(Entry::to_entry_param, (&entry,), p),
    ensures
        p.ino == entry.ino && p.generation == entry.generation,
        p.attr_timeout == entry.attr_timeout && p.entry_timeout == entry.entry_timeout,
        holds(p.attr, entry.attr),
{
    lemma_stat_holds(entry.attr);
}

/// Filesystem statistics go to the like-named raw fields, on Linux and on macOS.
pub proof fn law_statistics_keep_their_fields(stats: StatFs, raw: StatVfs, mac: MacStatFs)
    requires
        call_ensures(StatFs::to_raw, (&stats,), raw),
        call_ensures(StatFs::to_raw_macos, (&stats,), mac),
    ensures
        raw.f_bsize == stats.bsize && raw.f_frsize == stats.frsize,
        raw.f_blocks == stats.blocks && raw.f_bfree == stats.bfree,
        raw.f_bavail == stats.bavail && raw.f_files == stats.files,
        raw.f_ffree == stats.ffree && raw.f_namemax == stats.namelen,
        mac.f_bsize == stats.bsize && mac.f_iosize == stats.frsize as i32,
        mac.f_blocks == stats.blocks && mac.f_bfree == stats.bfree,
        mac.f_bavail == stats.bavail && mac.f_files == stats.files,
        mac.f_ffree == stats.ffree,
{
}

/// A value of default attributes is empty: a regular file at the epoch, all else
/// zero; default statistics are zero, and the minimal ones name a block size of
/// 512 and names of up to 255 bytes.
pub proof fn law_defaults_are_empty(
    file: FileAttr,
    node: NodeAttr,
    entry: Entry,
    set: SetAttrs,
    stats: StatFs,
    minimal: StatFs,
    st: Stat,
)
    requires
        call_ensures(FileAttr::default, (), file),
        call_ensures(NodeAttr::default, (), node),
        call_ensures(Entry::default, (), entry),
        call_ensures(SetAttrs::default, (), set),
        call_ensures(StatFs::default, (), stats),
        call_ensures(StatFs::minimal_default, (), minimal),
        call_ensures(FileAttr::to_stat, (&file,), st),
    ensures
        st.st_mode == 0o100000,
        st.st_ino == 0 && st.st_nlink == 0 && st.st_uid == 0 && st.st_gid == 0,
        st.st_rdev == 0 && st.st_size == 0 && st.st_blocks == 0 && st.st_blksize == 0,
        st.st_flags == 0,
        st.st_atimespec.tv_sec == 0 && st.st_atimespec.tv_nsec == 0,
        st.st_mtimespec.tv_sec == 0 && st.st_mtimespec.tv_nsec == 0,
        st.st_ctimespec.tv_sec == 0 && st.st_ctimespec.tv_nsec == 0,
        st.st_birthtimespec.tv_sec == 0 && st.st_birthtimespec.tv_nsec == 0,
        node.kind == file.kind && node.perm == 0 && node.nlink == 0 && node.size == 0,
        node.uid == 0 && node.gid == 0 && node.rdev == 0 && node.blocks == 0,
        node.blksize == 0 && node.flags == 0,
        time::epoch_nanos(node.atime) == 0 && time::epoch_nanos(node.mtime) == 0,
        time::epoch_nanos(node.ctime) == 0 && time::epoch_nanos(node.crtime) == 0,
        entry.ino == 0 && entry.generation == 0 && entry.attr.ino == 0,
        time::duration_nanos(entry.attr_timeout) == 0,
        time::duration_nanos(entry.entry_timeout) == 0,
        set.mode is None && set.uid is None && set.gid is None && set.size is None,
        set.atime is None && set.mtime is None && set.ctime is None && set.crtime is None,
        set.chgtime is None && set.bkuptime is None && set.flags is None,
        stats.blocks == 0 && stats.bfree == 0 && stats.bavail == 0 && stats.files == 0,
        stats.ffree == 0 && stats.bsize == 0 && stats.namelen == 0 && stats.frsize == 0,
        minimal == (StatFs { bsize: 512, namelen: 255, ..stats }),
{
    let perm = file.perm as u32;
    assert(0o100000u32 | (0u32 & 0o7777) == 0o100000) by (bit_vector);
}

/// The bits that ask for the fields are those of the Linux kernel interface; each is
/// one bit of its own.
pub proof fn law_linux_asks_by_these_bits(m: SetAttrMask)
    requires
        call_ensures(SetAttrMask::linux, (), m),
    ensures
        m.mode == 1 && m.uid == 2 && m.gid == 4 && m.size == 8,
        m.atime == 16 && m.mtime == 32 && m.atime_now == 128 && m.mtime_now == 256,
        m.ctime == 1024,
        m.btime == 0 && m.flags == 0,
{
}

} // verus!
