use std::cell::Cell;
use std::time::{Duration, SystemTime, UNIX_EPOCH};

use fuse3::attr::{
    Entry, FileAttr, NodeAttr, SetAttrMask, SetAttrs, Stat, StatFs, TimeOrNow, Timespec,
};
use fuse3::conn::{Caller, ConnInfo, ConnectionCapability, Request};
use fuse3::errno::Errno;
use fuse3::file_type::{FileType, ROOT_INODE};
use fuse3::node::{NodeId, XattrReply};
use fuse3::open::{AccessMode, FileInfo, OpenHints, OpenReply, Opened, RawFileInfo};
use fuse3::text::{contains_nul, decode_name};
use fuse3::time::{
    secs_nsecs_to_system_time, system_time_to_secs_nsecs, try_secs_nsecs_to_system_time,
};

const KINDS: [FileType; 7] = [
    FileType::RegularFile,
    FileType::Directory,
    FileType::Symlink,
    FileType::CharDevice,
    FileType::BlockDevice,
    FileType::NamedPipe,
    FileType::Socket,
];

fn zeroed_stat() -> Stat {
    let zero = Timespec { tv_sec: 0, tv_nsec: 0 };
    Stat {
        st_ino: 0,
        st_mode: 0,
        st_nlink: 0,
        st_uid: 0,
        st_gid: 0,
        st_rdev: 0,
        st_size: 0,
        st_blocks: 0,
        st_blksize: 0,
        st_atimespec: zero,
        st_mtimespec: zero,
        st_ctimespec: zero,
        st_birthtimespec: zero,
        st_flags: 0,
    }
}

fn mac_mask() -> SetAttrMask {
    SetAttrMask { btime: 1 << 28, flags: 1 << 31, ..SetAttrMask::linux() }
}

// Errno

#[test]
fn errno_raw_and_from_raw() {
    let e = Errno::from_raw(5);
    assert_eq!(e.raw(), 5);
    assert_eq!(Errno::from(5), e);
}

#[test]
fn errno_from_io_error() {
    let io_err = std::io::Error::from_raw_os_error(libc::ENOENT);
    let errno: Errno = io_err.into();
    assert_eq!(errno, Errno::ENOENT);

    let other_err = std::io::Error::other("boom");
    let errno: Errno = other_err.into();
    assert_eq!(errno, Errno::EIO);
}

#[test]
fn errno_codes_are_the_platform_codes() {
    for (e, code) in [
        (Errno::EPERM, libc::EPERM),
        (Errno::ENOENT, libc::ENOENT),
        (Errno::EIO, libc::EIO),
        (Errno::ENXIO, libc::ENXIO),
        (Errno::EBADF, libc::EBADF),
        (Errno::EACCES, libc::EACCES),
        (Errno::EEXIST, libc::EEXIST),
        (Errno::ENOTDIR, libc::ENOTDIR),
        (Errno::EISDIR, libc::EISDIR),
        (Errno::EINVAL, libc::EINVAL),
        (Errno::ENOSPC, libc::ENOSPC),
        (Errno::EROFS, libc::EROFS),
        (Errno::ERANGE, libc::ERANGE),
        (Errno::ENAMETOOLONG, libc::ENAMETOOLONG),
        (Errno::ENOSYS, libc::ENOSYS),
        (Errno::ENOTEMPTY, libc::ENOTEMPTY),
        (Errno::ENODATA, libc::ENODATA),
        (Errno::ENOATTR, libc::ENODATA),
        (Errno::EILSEQ, libc::EILSEQ),
        (Errno::EOPNOTSUPP, libc::EOPNOTSUPP),
    ] {
        assert_eq!(e.raw(), code);
        assert_eq!(Errno::from_raw(code), e);
    }
}

#[test]
fn errno_without_a_name_keeps_its_code() {
    for code in [0, -1, 4242, i32::MAX, i32::MIN] {
        assert_eq!(Errno::from_raw(code).raw(), code);
        assert_eq!(Errno::from_raw(code), Errno::Other(code));
    }
    assert_eq!(Errno::Other(libc::ENOENT), Errno::ENOENT);
    assert_ne!(Errno::Other(4242), Errno::ENOENT);
}

#[test]
fn errno_in_words() {
    assert_eq!(Errno::ENOENT.to_string(), format!("errno {}", libc::ENOENT));
    assert_eq!(Errno::from_raw(-17).to_string(), "errno -17");
    assert_eq!(Errno::from_raw(0).to_string(), "errno 0");
}

// FileType

#[test]
fn file_type_mode_round_trip() {
    for kind in [
        FileType::RegularFile,
        FileType::Directory,
        FileType::Symlink,
        FileType::CharDevice,
        FileType::BlockDevice,
        FileType::NamedPipe,
        FileType::Socket,
    ] {
        let bits = kind.to_mode_bits();
        assert_eq!(FileType::from_mode_bits(bits), Some(kind));
        // Permission bits mixed in should not affect decoding.
        assert_eq!(FileType::from_mode_bits(bits | 0o644), Some(kind));
    }
}

#[test]
fn file_type_from_mode_bits_unknown() {
    assert_eq!(FileType::from_mode_bits(0), None);
}

#[test]
fn file_type_bits_are_the_platform_bits() {
    assert_eq!(FileType::RegularFile.to_mode_bits(), libc::S_IFREG as u32);
    assert_eq!(FileType::Directory.to_mode_bits(), libc::S_IFDIR as u32);
    assert_eq!(FileType::Symlink.to_mode_bits(), libc::S_IFLNK as u32);
    assert_eq!(FileType::CharDevice.to_mode_bits(), libc::S_IFCHR as u32);
    assert_eq!(FileType::BlockDevice.to_mode_bits(), libc::S_IFBLK as u32);
    assert_eq!(FileType::NamedPipe.to_mode_bits(), libc::S_IFIFO as u32);
    assert_eq!(FileType::Socket.to_mode_bits(), libc::S_IFSOCK as u32);
    assert_eq!(FileType::from_mode_bits(0o170000), None);
    assert_eq!(FileType::default(), FileType::RegularFile);
}

#[test]
fn file_types_have_different_bits() {
    for a in KINDS {
        for b in KINDS {
            assert_eq!(a == b, a.to_mode_bits() == b.to_mode_bits());
        }
    }
}

// Time

#[test]
fn secs_nsecs_round_trip_pre_and_post_epoch() {
    for t in [
        UNIX_EPOCH,
        UNIX_EPOCH + Duration::new(100, 250),
        UNIX_EPOCH - Duration::new(1, 0),
        UNIX_EPOCH - Duration::new(1, 500_000_000),
        UNIX_EPOCH - Duration::new(100, 999_999_999),
    ] {
        let (secs, nsecs) = system_time_to_secs_nsecs(t);
        let back = secs_nsecs_to_system_time(secs, nsecs);
        assert_eq!(back, t, "round trip failed for {:?}", t);
    }
}

#[test]
fn times_before_the_epoch_have_negative_seconds() {
    assert_eq!(system_time_to_secs_nsecs(UNIX_EPOCH), (0, 0));
    assert_eq!(system_time_to_secs_nsecs(UNIX_EPOCH + Duration::new(7, 8)), (7, 8));
    assert_eq!(system_time_to_secs_nsecs(UNIX_EPOCH - Duration::new(1, 0)), (-1, 0));
    assert_eq!(system_time_to_secs_nsecs(UNIX_EPOCH - Duration::new(0, 1)), (-1, 999_999_999));
    assert_eq!(
        system_time_to_secs_nsecs(UNIX_EPOCH - Duration::new(1, 500_000_000)),
        (-2, 500_000_000)
    );
}

#[test]
fn seconds_and_nanoseconds_name_a_time() {
    assert_eq!(secs_nsecs_to_system_time(3, 4), UNIX_EPOCH + Duration::new(3, 4));
    assert_eq!(secs_nsecs_to_system_time(-3, 4), UNIX_EPOCH - Duration::new(2, 999_999_996));
    assert_eq!(try_secs_nsecs_to_system_time(0, 0), Some(UNIX_EPOCH));
    assert_eq!(
        try_secs_nsecs_to_system_time(12345, 6789),
        Some(UNIX_EPOCH + Duration::new(12345, 6789))
    );
    // The nanoseconds carry a whole second over the largest number of seconds.
    assert_eq!(try_secs_nsecs_to_system_time(i64::MAX, 1_000_000_000), None);
}

// FileAttr and Entry

#[test]
fn file_attr_to_stat_basic_fields() {
    let attr = FileAttr {
        ino: 42,
        size: 1234,
        kind: FileType::RegularFile,
        perm: 0o644,
        nlink: 3,
        ..Default::default()
    };
    let st = attr.to_stat();
    assert_eq!(st.st_ino as u64, 42);
    assert_eq!(st.st_size as u64, 1234);
    assert_eq!(st.st_nlink as u64, 3);
    assert_eq!(FileType::from_mode_bits(st.st_mode as u32), Some(FileType::RegularFile));
    assert_eq!((st.st_mode as u32) & 0o777, 0o644);
}

#[test]
fn file_attr_to_stat_directory_mode() {
    let attr = FileAttr { kind: FileType::Directory, perm: 0o755, ..Default::default() };
    let st = attr.to_stat();
    assert_eq!(FileType::from_mode_bits(st.st_mode as u32), Some(FileType::Directory));
    assert_eq!((st.st_mode as u32) & 0o777, 0o755);
}

#[test]
fn file_attr_to_stat_times() {
    let attr = FileAttr {
        atime: UNIX_EPOCH + Duration::new(1000, 500),
        mtime: UNIX_EPOCH + Duration::new(2000, 0),
        ..Default::default()
    };
    let st = attr.to_stat();
    assert_eq!(st.st_atimespec.tv_sec, 1000);
    assert_eq!(st.st_atimespec.tv_nsec, 500);
    assert_eq!(st.st_mtimespec.tv_sec, 2000);
}

#[test]
fn file_attr_to_stat_pre_epoch_time() {
    // 1.5 seconds before the epoch.
    let t = UNIX_EPOCH - Duration::new(1, 500_000_000);
    let attr = FileAttr { atime: t, ..Default::default() };
    let st = attr.to_stat();
    assert_eq!(st.st_atimespec.tv_sec, -2);
    assert_eq!(st.st_atimespec.tv_nsec, 500_000_000);
}

#[test]
fn stat_holds_every_attribute() {
    let attr = FileAttr {
        ino: u64::MAX,
        size: u64::MAX,
        blocks: 8,
        atime: UNIX_EPOCH + Duration::new(1, 2),
        mtime: UNIX_EPOCH + Duration::new(3, 4),
        ctime: UNIX_EPOCH + Duration::new(5, 6),
        crtime: UNIX_EPOCH + Duration::new(7, 8),
        kind: FileType::CharDevice,
        perm: 0o177777,
        nlink: u32::MAX,
        uid: 11,
        gid: 12,
        rdev: 13,
        blksize: 4096,
        flags: 14,
    };
    assert_eq!(
        attr.to_stat(),
        Stat {
            st_ino: u64::MAX,
            // Only the low twelve bits are permissions.
            st_mode: 0o020000 | 0o7777,
            st_nlink: u32::MAX as u64,
            st_uid: 11,
            st_gid: 12,
            st_rdev: 13,
            st_size: -1,
            st_blocks: 8,
            st_blksize: 4096,
            st_atimespec: Timespec { tv_sec: 1, tv_nsec: 2 },
            st_mtimespec: Timespec { tv_sec: 3, tv_nsec: 4 },
            st_ctimespec: Timespec { tv_sec: 5, tv_nsec: 6 },
            st_birthtimespec: Timespec { tv_sec: 7, tv_nsec: 8 },
            st_flags: 14,
        }
    );
}

#[test]
fn attributes_start_at_zero() {
    let st = FileAttr::default().to_stat();
    assert_eq!(st, Stat { st_mode: 0o100000, ..zeroed_stat() });
    let node = NodeAttr::default().with_ino(9).to_stat();
    assert_eq!(node, Stat { st_ino: 9, st_mode: 0o100000, ..zeroed_stat() });
    let e = Entry::default();
    assert_eq!((e.ino, e.generation), (0, 0));
    assert_eq!((e.attr_timeout, e.entry_timeout), (Duration::ZERO, Duration::ZERO));
    assert_eq!(e.attr.atime, UNIX_EPOCH);
}

#[test]
fn node_attributes_join_their_number() {
    let node = NodeAttr {
        size: 5,
        kind: FileType::Symlink,
        perm: 0o777,
        mtime: UNIX_EPOCH + Duration::new(9, 9),
        nlink: 2,
        ..Default::default()
    };
    let attr = node.with_ino(77);
    assert_eq!(attr.ino, 77);
    assert_eq!(attr.size, 5);
    assert_eq!(attr.kind, FileType::Symlink);
    assert_eq!(attr.perm, 0o777);
    assert_eq!(attr.mtime, UNIX_EPOCH + Duration::new(9, 9));
    assert_eq!(attr.nlink, 2);
}

#[test]
fn entry_to_entry_param_timeouts() {
    let entry = Entry {
        ino: 7,
        generation: 1,
        attr_timeout: Duration::from_millis(1500),
        entry_timeout: Duration::from_secs(2),
        ..Default::default()
    };
    let param = entry.to_entry_param();
    assert_eq!(param.ino, 7);
    assert_eq!(param.generation, 1);
    assert!((param.attr_timeout.as_secs_f64() - 1.5).abs() < 1e-9);
    assert!((param.entry_timeout.as_secs_f64() - 2.0).abs() < 1e-9);
}

// SetAttrs

#[test]
fn set_attrs_from_raw_decodes_bitmask() {
    let mask = mac_mask();
    let mut st: Stat = zeroed_stat();
    st.st_mode = 0o644;
    st.st_size = 4096;
    st.st_mtimespec = Timespec { tv_sec: 12345, tv_nsec: 6789 };

    let to_set = (mask.mode | mask.size | mask.atime_now | mask.mtime) as i32;

    let attrs = SetAttrs::from_raw(Some(&st), to_set, &mask);
    assert_eq!(attrs.mode, Some(0o644));
    assert_eq!(attrs.size, Some(4096));
    assert_eq!(attrs.atime, Some(TimeOrNow::Now));
    assert_eq!(
        attrs.mtime,
        Some(TimeOrNow::SpecificTime(secs_nsecs_to_system_time(12345, 6789)))
    );
    assert_eq!(attrs.uid, None);
    assert_eq!(attrs.gid, None);
    assert_eq!(attrs.ctime, None);
}

#[test]
fn set_attrs_without_a_stat_asks_for_nothing() {
    let attrs = SetAttrs::from_raw(None, -1, &mac_mask());
    assert_eq!(attrs.mode, None);
    assert_eq!(attrs.size, None);
    assert_eq!(attrs.atime, None);
    assert_eq!(attrs.flags, None);
}

#[test]
fn set_attrs_now_goes_before_a_time() {
    let mask = SetAttrMask::linux();
    let st = zeroed_stat();
    let all = SetAttrs::from_raw(Some(&st), -1, &mask);
    assert_eq!(all.atime, Some(TimeOrNow::Now));
    assert_eq!(all.mtime, Some(TimeOrNow::Now));
    assert_eq!(all.ctime, Some(UNIX_EPOCH));
    // Linux has no bits for these.
    assert_eq!(all.crtime, None);
    assert_eq!(all.flags, None);
    assert_eq!(all.chgtime, None);
    assert_eq!(all.bkuptime, None);
}

#[test]
fn set_attrs_on_macos_reads_creation_time_and_flags() {
    let mask = mac_mask();
    let mut st = zeroed_stat();
    st.st_birthtimespec = Timespec { tv_sec: 1, tv_nsec: 2 };
    st.st_flags = 0x8000;
    st.st_uid = 3;
    st.st_gid = 4;
    let to_set = (mask.btime | mask.flags | mask.uid | mask.gid) as i32;
    let attrs = SetAttrs::from_raw(Some(&st), to_set, &mask);
    assert_eq!(attrs.crtime, Some(UNIX_EPOCH + Duration::new(1, 2)));
    assert_eq!(attrs.flags, Some(0x8000));
    assert_eq!((attrs.uid, attrs.gid), (Some(3), Some(4)));
    assert_eq!(attrs.mode, None);
}

#[test]
fn set_attrs_refuses_a_time_that_does_not_exist() {
    let mask = SetAttrMask::linux();
    let mut st = zeroed_stat();
    st.st_ctimespec = Timespec { tv_sec: i64::MAX, tv_nsec: 1_000_000_000 };
    assert!(SetAttrs::try_from_raw(Some(&st), mask.ctime as i32, &mask).is_none());
    // Not asked for, it does not matter.
    assert!(SetAttrs::try_from_raw(Some(&st), mask.mode as i32, &mask).is_some());
}

#[test]
fn set_attrs_of_a_stat_are_the_attributes() {
    let mask = mac_mask();
    let attr = FileAttr {
        size: u64::MAX - 1,
        atime: UNIX_EPOCH - Duration::new(5, 5),
        mtime: UNIX_EPOCH + Duration::new(6, 6),
        ctime: UNIX_EPOCH + Duration::new(7, 7),
        crtime: UNIX_EPOCH - Duration::new(8, 0),
        uid: 1,
        gid: 2,
        flags: 3,
        perm: 0o600,
        ..Default::default()
    };
    let to_set = (mask.mode
        | mask.uid
        | mask.gid
        | mask.size
        | mask.atime
        | mask.mtime
        | mask.ctime
        | mask.btime
        | mask.flags) as i32;
    let set = SetAttrs::from_raw(Some(&attr.to_stat()), to_set, &mask);
    assert_eq!(set.mode, Some(0o100600));
    assert_eq!((set.uid, set.gid, set.flags), (Some(1), Some(2), Some(3)));
    assert_eq!(set.size, Some(u64::MAX - 1));
    assert_eq!(set.atime, Some(TimeOrNow::SpecificTime(attr.atime)));
    assert_eq!(set.mtime, Some(TimeOrNow::SpecificTime(attr.mtime)));
    assert_eq!(set.ctime, Some(attr.ctime));
    assert_eq!(set.crtime, Some(attr.crtime));
}

// StatFs

#[test]
fn statfs_conversion_spot_check() {
    let sfs = StatFs {
        blocks: 1000,
        bfree: 500,
        bavail: 400,
        files: 100,
        ffree: 50,
        bsize: 4096,
        namelen: 255,
        frsize: 4096,
    };
    let raw = sfs.to_raw();
    assert_eq!(raw.f_blocks, 1000);
    assert_eq!(raw.f_bfree, 500);
    assert_eq!(raw.f_bavail, 400);
    assert_eq!(raw.f_files, 100);
    assert_eq!(raw.f_ffree, 50);
    assert_eq!(raw.f_bsize, 4096);
}

#[test]
fn statfs_on_macos() {
    let sfs = StatFs {
        blocks: 1,
        bfree: 2,
        bavail: 3,
        files: 4,
        ffree: 5,
        bsize: 6,
        namelen: 7,
        frsize: u32::MAX,
    };
    let raw = sfs.to_raw_macos();
    assert_eq!((raw.f_blocks, raw.f_bfree, raw.f_bavail), (1, 2, 3));
    assert_eq!((raw.f_files, raw.f_ffree, raw.f_bsize), (4, 5, 6));
    assert_eq!(raw.f_iosize, -1);
    assert_eq!(sfs.to_raw().f_namemax, 7);
    assert_eq!(sfs.to_raw().f_frsize, u32::MAX as u64);
}

#[test]
fn statfs_without_a_callback() {
    let minimal = StatFs::minimal_default();
    assert_eq!(minimal, StatFs { bsize: 512, namelen: 255, ..Default::default() });
    assert_eq!(minimal.blocks, 0);
}

// Open requests

fn raw_info() -> RawFileInfo {
    RawFileInfo {
        flags: libc::O_RDWR | libc::O_APPEND,
        fh: 5,
        lock_owner: 6,
        flush: 1,
        writepage: 0,
        direct_io: 0,
        keep_cache: 1,
        nonseekable: 0,
        cache_readdir: 1,
    }
}

#[test]
fn file_info_from_raw() {
    assert!(FileInfo::from_raw(None).is_none());
    let fi = FileInfo::from_raw(Some(&raw_info())).unwrap();
    assert_eq!(fi.flags, libc::O_RDWR | libc::O_APPEND);
    assert_eq!((fi.fh, fi.lock_owner), (5, 6));
    assert!(fi.flush);
    assert!(!fi.writepage);
    let zero = FileInfo::default();
    assert_eq!((zero.flags, zero.fh, zero.lock_owner), (0, 0, 0));
}

#[test]
fn access_mode_of_open_flags() {
    let mode = |flags: i32| FileInfo { flags, ..Default::default() }.access_mode();
    assert_eq!(mode(libc::O_RDONLY), AccessMode::ReadOnly);
    assert_eq!(mode(libc::O_RDONLY | libc::O_APPEND), AccessMode::ReadOnly);
    assert_eq!(mode(libc::O_WRONLY | libc::O_TRUNC), AccessMode::WriteOnly);
    assert_eq!(mode(libc::O_RDWR), AccessMode::ReadWrite);
    assert_eq!(mode(libc::O_ACCMODE), AccessMode::ReadWrite);
}

#[test]
fn open_reply_is_written_back() {
    let reply = OpenReply::new(9).direct_io(true).nonseekable(true);
    let fi = reply.apply_to(raw_info());
    assert_eq!(fi.fh, 9);
    assert_eq!((fi.direct_io, fi.keep_cache, fi.nonseekable, fi.cache_readdir), (1, 0, 1, 0));
    assert_eq!((fi.flags, fi.lock_owner, fi.flush), (raw_info().flags, 6, 1));
    assert_eq!(reply.apply(None), None);
    assert_eq!(reply.apply(Some(raw_info())), Some(fi));
    // The kernel hands the handle back.
    assert_eq!(FileInfo::from_raw(Some(&fi)).unwrap().fh, 9);
}

#[test]
fn open_reply_builders() {
    let r = OpenReply::new(1).keep_cache(true).cache_readdir(true).keep_cache(false);
    assert_eq!(r.fh, 1);
    assert_eq!(
        r.hints,
        OpenHints { direct_io: false, keep_cache: false, nonseekable: false, cache_readdir: true }
    );
    assert_eq!(OpenReply::default().hints, OpenHints::default());
    let o = Opened::new("h").direct_io(true).keep_cache(true).nonseekable(true).cache_readdir(true);
    assert_eq!(o.handle, "h");
    assert_eq!(
        o.hints,
        OpenHints { direct_io: true, keep_cache: true, nonseekable: true, cache_readdir: true }
    );
    let d: Opened<u8> = Opened::default();
    assert_eq!((d.handle, d.hints), (0, OpenHints::default()));
}

// Requests and connections

#[test]
fn request_tells_its_caller() {
    let caller = Caller { uid: 1, gid: 2, pid: 3, umask: 0o22 };
    let req = Request::new(caller, || true);
    assert_eq!((req.uid(), req.gid(), req.pid(), req.umask()), (1, 2, 3, 0o22));
    assert!(req.interrupted());
    assert!(!Request::new(Caller::default(), || false).interrupted());
    assert_eq!(Request::new(Caller::default(), || false).uid(), 0);
}

#[test]
fn an_interrupt_is_seen_when_it_comes() {
    let pending = Cell::new(false);
    let req = Request::new(Caller::default(), || pending.get());
    assert!(!req.interrupted());
    pending.set(true);
    assert!(req.interrupted());
}

#[test]
fn connection_parameters() {
    let mut conn = ConnInfo { proto_major: 7, proto_minor: 38, ..Default::default() };
    assert_eq!((conn.proto_major(), conn.proto_minor()), (7, 38));
    assert_eq!((conn.max_write(), conn.max_readahead()), (0, 0));
    conn.set_max_write(4096);
    conn.set_max_readahead(8192);
    assert_eq!((conn.max_write(), conn.max_readahead()), (4096, 8192));
    conn.set_enabled(ConnectionCapability::ParallelDirectoryOperations, true);
    assert!(conn.parallel_directory_operations);
    conn.set_enabled(ConnectionCapability::ParallelDirectoryOperations, false);
    assert!(!conn.parallel_directory_operations);
}

// Nodes and text

#[test]
fn node_ids_are_numbers() {
    assert_eq!(NodeId::root().ino(), ROOT_INODE);
    assert_eq!(NodeId::from_ino(12).ino(), 12);
    assert_eq!(NodeId::from_ino(1), NodeId::root());
    assert!(NodeId::from_ino(1) < NodeId::from_ino(2));
}

#[test]
fn bytes_become_an_xattr_reply() {
    let data: XattrReply = vec![1u8, 2].into();
    assert_eq!(data, XattrReply::Data(vec![1, 2]));
}

#[test]
fn names_are_utf8_only() {
    assert_eq!(decode_name(b"hello").unwrap(), "hello");
    assert_eq!(decode_name("g\u{00fc}n".as_bytes()).unwrap(), "g\u{00fc}n");
    assert_eq!(decode_name(b"").unwrap(), "");
    assert_eq!(decode_name(&[0xff]).unwrap_err(), Errno::EILSEQ);
    assert_eq!(decode_name(&[b'a', 0xc3]).unwrap_err(), Errno::EILSEQ);
}

#[test]
fn nul_characters_are_found() {
    assert!(!contains_nul(""));
    assert!(!contains_nul("abc"));
    assert!(contains_nul("a\0c"));
    assert!(contains_nul("\0"));
}

#[test]
fn the_earliest_seconds_are_put_together() {
    // One nanosecond into the last second before a whole number of them.
    for (secs, nsecs) in [(-1, 0), (-1, 999_999_999), (-86_400, 1), (-4_000_000_000, 500)] {
        let t = secs_nsecs_to_system_time(secs, nsecs);
        assert_eq!(system_time_to_secs_nsecs(t), (secs, nsecs));
    }
    // Nanoseconds past a second carry over the epoch.
    assert_eq!(
        secs_nsecs_to_system_time(-1, 1_500_000_000),
        UNIX_EPOCH + Duration::from_millis(500)
    );
}

#[test]
fn now_is_a_time_like_any_other() {
    let now = SystemTime::now();
    let (secs, nsecs) = system_time_to_secs_nsecs(now);
    assert_eq!(try_secs_nsecs_to_system_time(secs, nsecs), Some(now));
}
