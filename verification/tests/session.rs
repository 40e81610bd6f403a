use std::borrow::Cow;
use std::time::{Duration, UNIX_EPOCH};

use fuse3::attr::{Entry, NodeAttr, SetAttr, SetAttrMask, Stat, StatFs, TimeOrNow, Timespec};
use fuse3::conn::{Caller, ConnInfo, Request};
use fuse3::dirbuf::{DirAttr, DirBuffer, DirPlusBuffer, DirRecord};
use fuse3::errno::Errno;
use fuse3::file_type::{FileKind, FileType};
use fuse3::filesystem::Filesystem;
use fuse3::node::{DirSink, NodeId, XattrReply};
use fuse3::node_fs::{NodeFs, ReadDir};
use fuse3::open::{FileInfo, Opened, RawFileInfo};
use fuse3::reply::{
    reply_attr, reply_create, reply_dir_buf, reply_done, reply_entry, reply_lookup, reply_lseek,
    reply_open, reply_read, reply_readlink, reply_statfs, reply_write, reply_xattr, Reply,
};
use fuse3::runtime::{EntryReply, LookupReply, Runtime};
use fuse3::session::{
    access_shim, copy_file_range_shim, create_shim, destroy_shim, fallocate_shim, flush_shim,
    forget_multi_shim, forget_shim, fsync_shim, fsyncdir_shim, getattr_shim, getxattr_shim,
    init_shim, link_shim, listxattr_shim, lookup_shim, lseek_shim, mkdir_shim, mknod_shim,
    open_shim, opendir_shim, read_shim, readdir_shim, readdirplus_shim, readlink_shim,
    release_shim, releasedir_shim, removexattr_shim, rename_shim, rmdir_shim, setattr_shim,
    setxattr_shim, statfs_shim, symlink_shim, unlink_shim, write_shim,
};
use fuse3::table::Cx;

const BAD: &[u8] = &[0xc0, 0x20];

fn info(fh: u64) -> RawFileInfo {
    RawFileInfo {
        flags: 0,
        fh,
        lock_owner: 0,
        flush: 0,
        writepage: 0,
        direct_io: 0,
        keep_cache: 0,
        nonseekable: 0,
        cache_readdir: 0,
    }
}

fn caller() -> Caller {
    Caller { uid: 1, gid: 2, pid: 3, umask: 0o22 }
}

fn zeroed_stat() -> Stat {
    let zero = Timespec { tv_sec: 0, tv_nsec: 0 };
    Stat {
        st_ino: 0,
        st_mode: 0,
        st_nlink: 0,
        st_uid: 0,
        st_gid: 0,
        st_rdev: 0,
        st_size: 0,
        st_blocks: 0,
        st_blksize: 0,
        st_atimespec: zero,
        st_mtimespec: zero,
        st_ctimespec: zero,
        st_birthtimespec: zero,
        st_flags: 0,
    }
}

fn error(reply: Reply<'_>) -> Errno {
    match reply {
        Reply::Error(e) => e,
        other => panic!("{other:?}"),
    }
}

fn done(reply: Reply<'_>) -> bool {
    matches!(reply, Reply::Done)
}

fn data(reply: Reply<'_>) -> Vec<u8> {
    match reply {
        Reply::Data(d) => d.into_owned(),
        other => panic!("{other:?}"),
    }
}

fn entry(reply: Reply<'_>) -> (u64, u64, Stat, Duration, Duration) {
    match reply {
        Reply::Entry(p) => (p.ino, p.generation, p.attr, p.attr_timeout, p.entry_timeout),
        other => panic!("{other:?}"),
    }
}

// Replies

fn found() -> EntryReply {
    EntryReply {
        ino: 5,
        generation: 6,
        attr: NodeAttr { size: 7, kind: FileKind::Directory, perm: 0o755, ..Default::default() },
    }
}

#[test]
fn entries_carry_the_ttl_twice() {
    let ttl = Duration::from_millis(1500);
    let (ino, generation, st, attr_timeout, entry_timeout) = entry(reply_entry(Ok(found()), ttl));
    assert_eq!((ino, generation), (5, 6));
    assert_eq!((st.st_ino, st.st_size, st.st_mode), (5, 7, 0o040755));
    assert_eq!((attr_timeout, entry_timeout), (ttl, ttl));
    assert_eq!(error(reply_entry(Err(Errno::ENOSPC), ttl)), Errno::ENOSPC);
}

#[test]
fn lookups_are_answered_with_entries() {
    let (ttl, negative) = (Duration::from_secs(3), Duration::from_secs(4));
    let hit = entry(reply_lookup(Ok(LookupReply::Found(found())), ttl, negative));
    assert_eq!((hit.0, hit.4), (5, ttl));
    let miss = entry(reply_lookup(Ok(LookupReply::Negative), ttl, negative));
    assert_eq!(miss, (0, 0, zeroed_stat(), Duration::ZERO, negative));
    assert_eq!(error(reply_lookup(Err(Errno::EACCES), ttl, negative)), Errno::EACCES);
}

#[test]
fn attributes_are_answered_with_their_ttl() {
    let ttl = Duration::from_secs(9);
    match reply_attr(8, Ok(found().attr), ttl) {
        Reply::Attr(st, t) => assert_eq!((st.st_ino, st.st_size, t), (8, 7, ttl)),
        other => panic!("{other:?}"),
    }
    assert_eq!(error(reply_attr(8, Err(Errno::EPERM), ttl)), Errno::EPERM);
}

#[test]
fn simple_answers() {
    assert!(done(reply_done(Ok(()))));
    assert_eq!(error(reply_done(Err(Errno::EROFS))), Errno::EROFS);
    assert!(matches!(reply_write(Ok(17)), Reply::Written(17)));
    assert_eq!(error(reply_write(Err(Errno::ENOSPC))), Errno::ENOSPC);
    assert!(matches!(reply_lseek(Ok(u64::MAX)), Reply::Position(-1)));
    assert!(matches!(reply_lseek(Ok(10)), Reply::Position(10)));
    assert_eq!(error(reply_lseek(Err(Errno::ENXIO))), Errno::ENXIO);
    let stats = StatFs { blocks: 3, ..Default::default() };
    assert!(matches!(reply_statfs(Ok(stats)), Reply::StatFs(s) if s == stats));
    assert_eq!(error(reply_statfs(Err(Errno::EIO))), Errno::EIO);
}

#[test]
fn link_targets_hold_no_nul() {
    match reply_readlink(Ok("a/b".to_string())) {
        Reply::Link(target) => assert_eq!(target, "a/b"),
        other => panic!("{other:?}"),
    }
    assert_eq!(error(reply_readlink(Ok("a\0b".to_string()))), Errno::EINVAL);
    assert_eq!(error(reply_readlink(Err(Errno::EINVAL))), Errno::EINVAL);
}

#[test]
fn opens_are_answered_in_the_file_info() {
    let opened = fuse3::open::OpenReply::new(12).keep_cache(true);
    match reply_open(Ok(opened), info(0)) {
        Reply::Open(fi) => assert_eq!((fi.fh, fi.keep_cache, fi.direct_io), (12, 1, 0)),
        other => panic!("{other:?}"),
    }
    assert_eq!(error(reply_open(Err(Errno::EACCES), info(0))), Errno::EACCES);
    match reply_create(Ok((found(), opened)), Duration::ZERO, info(0)) {
        Reply::Create(p, fi) => assert_eq!((p.ino, fi.fh), (5, 12)),
        other => panic!("{other:?}"),
    }
    assert_eq!(error(reply_create(Err(Errno::EEXIST), Duration::ZERO, info(0))), Errno::EEXIST);
}

#[test]
fn reads_send_no_more_than_was_asked_for() {
    let bytes = [1u8, 2, 3, 4];
    assert_eq!(data(reply_read(Ok(Cow::Borrowed(&bytes[..])), 3)), vec![1, 2, 3]);
    assert_eq!(data(reply_read(Ok(Cow::Borrowed(&bytes[..])), 4)), vec![1, 2, 3, 4]);
    assert_eq!(data(reply_read(Ok(Cow::Borrowed(&bytes[..])), 9)), vec![1, 2, 3, 4]);
    assert_eq!(data(reply_read(Ok(Cow::Owned(vec![5, 6])), 1)), vec![5]);
    assert_eq!(data(reply_read(Ok(Cow::Owned(vec![5, 6])), 0)), Vec::<u8>::new());
    assert!(matches!(
        reply_read(Ok(Cow::Borrowed(&bytes[..])), 3),
        Reply::Data(Cow::Borrowed(_))
    ));
    assert_eq!(error(reply_read(Err(Errno::EISDIR), 3)), Errno::EISDIR);
}

#[test]
fn an_empty_listing_is_the_end() {
    assert!(matches!(reply_dir_buf(Ok(()), vec![]), Reply::EndOfStream));
    assert_eq!(data(reply_dir_buf(Ok(()), vec![7])), vec![7]);
    assert_eq!(error(reply_dir_buf(Err(Errno::ENOTDIR), vec![7])), Errno::ENOTDIR);
}

#[test]
fn xattrs_are_answered_in_two_phases() {
    let value = || XattrReply::Data(vec![1, 2, 3]);
    assert!(matches!(reply_xattr(Ok(XattrReply::Size(9)), 0), Reply::XattrSize(9)));
    assert_eq!(error(reply_xattr(Ok(XattrReply::Size(9)), 16)), Errno::EIO);
    assert!(matches!(reply_xattr(Ok(value()), 0), Reply::XattrSize(3)));
    assert_eq!(error(reply_xattr(Ok(value()), 2)), Errno::ERANGE);
    assert_eq!(data(reply_xattr(Ok(value()), 3)), vec![1, 2, 3]);
    assert_eq!(data(reply_xattr(Ok(value()), 4)), vec![1, 2, 3]);
    assert_eq!(error(reply_xattr(Err(Errno::ENODATA), 4)), Errno::ENODATA);
}

// Requests

// A filesystem of one file, whose node is its contents.
struct OneFile;

impl NodeFs for OneFile {
    type Node = &'static [u8];
    type Handle = ();
    type DirHandle = ();

    fn root(&mut self) -> &'static [u8] {
        b""
    }

    fn populate(&mut self, cx: &mut Cx<&'static [u8]>) {
        cx.insert(b"Hello World!\n", NodeId::root());
    }

    fn getattr(&self, node: &&'static [u8], _: &Caller) -> Result<NodeAttr, Errno> {
        Ok(NodeAttr { size: node.len() as u64, perm: 0o444, ..Default::default() })
    }

    fn setattr(&self, _: &&'static [u8], set: &SetAttr, _: &Caller) -> Result<NodeAttr, Errno> {
        match set.mtime {
            Some(TimeOrNow::SpecificTime(mtime)) => Ok(NodeAttr { mtime, ..Default::default() }),
            _ => Err(Errno::EROFS),
        }
    }

    fn lookup(
        &self,
        _: &mut Cx<&'static [u8]>,
        parent: NodeId,
        name: &str,
        _: &Caller,
    ) -> Result<Option<NodeId>, Errno> {
        if parent == NodeId::root() && name == "hello" {
            Ok(Some(NodeId::from_ino(2)))
        } else {
            Ok(None)
        }
    }

    fn readlink(&self, _: &&'static [u8], _: &Caller) -> Result<String, Errno> {
        Ok("hello".to_string())
    }

    fn open(&self, node: &&'static [u8], flags: i32, _: &Caller) -> Result<Opened<()>, Errno> {
        if node.is_empty() {
            return Err(Errno::EISDIR);
        }
        Ok(Opened::new(()).direct_io(flags == 7))
    }

    fn read<'a>(
        &'a self,
        node: &'a &'static [u8],
        _: &'a (),
        offset: u64,
        _: usize,
        _: &Caller,
    ) -> Result<Cow<'a, [u8]>, Errno> {
        Ok(Cow::Borrowed(node.get(offset as usize..).unwrap_or_default()))
    }

    fn write(&self, _: &&'static [u8], _: &(), data: &[u8], offset: u64, _: &Caller) -> Result<usize, Errno> {
        Ok(data.len() + offset as usize)
    }

    fn fsync(&self, _: &&'static [u8], _: &(), datasync: bool, _: &Caller) -> Result<(), Errno> {
        if datasync { Ok(()) } else { Err(Errno::EROFS) }
    }

    fn fsyncdir(&self, _: &&'static [u8], _: &(), datasync: bool, _: &Caller) -> Result<(), Errno> {
        if datasync { Ok(()) } else { Err(Errno::EROFS) }
    }

    fn mkdir(
        &self,
        cx: &mut Cx<&'static [u8]>,
        parent: NodeId,
        name: &str,
        mode: u32,
        umask: u32,
        c: &Caller,
    ) -> Result<NodeId, Errno> {
        assert_eq!((name, mode, umask, c.uid), ("d", 0o777, 0o22, 1));
        Ok(cx.insert(b"dd", parent))
    }

    fn mknod(
        &self,
        cx: &mut Cx<&'static [u8]>,
        parent: NodeId,
        _: &str,
        _: u32,
        rdev: u32,
        umask: u32,
        _: &Caller,
    ) -> Result<NodeId, Errno> {
        assert_eq!((rdev, umask), (5, 0o22));
        Ok(cx.insert(b"n", parent))
    }

    fn symlink(
        &self,
        cx: &mut Cx<&'static [u8]>,
        parent: NodeId,
        name: &str,
        target: &str,
        _: &Caller,
    ) -> Result<NodeId, Errno> {
        assert_eq!((name, target), ("s", "t"));
        Ok(cx.insert(b"sss", parent))
    }

    fn link(
        &self,
        cx: &mut Cx<&'static [u8]>,
        id: NodeId,
        _: NodeId,
        _: &str,
        _: &Caller,
    ) -> Result<NodeId, Errno> {
        cx.add_link(id);
        Ok(id)
    }

    fn unlink(&self, cx: &mut Cx<&'static [u8]>, _: NodeId, _: &str, _: &Caller) -> Result<(), Errno> {
        cx.remove_link(NodeId::from_ino(2));
        Ok(())
    }

    fn rename(
        &self,
        _: &mut Cx<&'static [u8]>,
        _: NodeId,
        name: &str,
        _: NodeId,
        newname: &str,
        flags: u32,
        _: &Caller,
    ) -> Result<(), Errno> {
        Err(Errno::from_raw(name.len() as i32 * 100 + newname.len() as i32 * 10 + flags as i32))
    }

    fn create(
        &self,
        cx: &mut Cx<&'static [u8]>,
        parent: NodeId,
        _: &str,
        mode: u32,
        umask: u32,
        flags: i32,
        _: &Caller,
    ) -> Result<(NodeId, Opened<()>), Errno> {
        assert_eq!((mode, umask, flags), (0o644, 0o22, 7));
        Ok((cx.insert(b"", parent), Opened::new(()).keep_cache(true)))
    }

    fn getxattr(&self, _: &&'static [u8], name: &str, _: usize, _: &Caller) -> Result<XattrReply, Errno> {
        Ok(XattrReply::Data(name.as_bytes().to_vec()))
    }

    fn listxattr(&self, _: &&'static [u8], _: usize, _: &Caller) -> Result<XattrReply, Errno> {
        Ok(XattrReply::Data(b"a\0".to_vec()))
    }

    fn setxattr(&self, _: &&'static [u8], name: &str, value: &[u8], flags: i32, _: &Caller) -> Result<(), Errno> {
        assert_eq!((name, value, flags), ("x", &b"v"[..], 3));
        Ok(())
    }

    fn lseek(&self, _: &&'static [u8], _: &(), offset: u64, whence: i32, _: &Caller) -> Result<u64, Errno> {
        Ok(offset + whence as u64)
    }

    fn fallocate(&self, _: &&'static [u8], _: &(), _: i32, offset: u64, length: u64, _: &Caller) -> Result<(), Errno> {
        if offset == u64::MAX && length == 4 { Ok(()) } else { Err(Errno::EINVAL) }
    }

    fn access(&self, _: &&'static [u8], mask: i32, _: &Caller) -> Result<(), Errno> {
        if mask == 2 { Err(Errno::EACCES) } else { Ok(()) }
    }

    fn copy_file_range(
        &self,
        _: &mut Cx<&'static [u8]>,
        _: NodeId,
        off_in: u64,
        _: NodeId,
        off_out: u64,
        len: u64,
        _: i32,
        _: &Caller,
    ) -> Result<usize, Errno> {
        Ok((off_in + off_out + len) as usize)
    }
}

impl<S: DirSink> ReadDir<S> for OneFile {
    fn readdir(
        &self,
        _: &&'static [u8],
        this: NodeId,
        parent: NodeId,
        _: &(),
        offset: u64,
        sink: &mut S,
        _: &Caller,
    ) -> Result<(), Errno> {
        let entries = [
            (".", this, FileKind::Directory),
            ("..", parent, FileKind::Directory),
            ("hello", NodeId::from_ino(2), FileKind::RegularFile),
        ];
        for (i, (name, id, kind)) in entries.iter().enumerate().skip(offset as usize) {
            if !sink.add(name, *id, *kind, i as u64 + 1) {
                break;
            }
        }
        Ok(())
    }
}

// Packs an entry as its name, its attributes' number and its offset.
fn pack(rec: DirRecord<'_>) -> Vec<u8> {
    let mut bytes = rec.name.as_bytes().to_vec();
    match rec.attr {
        DirAttr::Plain(st) => bytes.push(st.st_ino as u8),
        DirAttr::Plus(p) => {
            assert_eq!((p.ino, p.generation), (0, 0));
            assert_eq!((p.attr_timeout, p.entry_timeout), (Duration::ZERO, Duration::ZERO));
            bytes.push(100 + p.attr.st_ino as u8);
        }
    }
    bytes.push(rec.next_offset as u8);
    bytes
}

#[test]
fn names_that_are_not_utf8_never_reach_the_filesystem() {
    let mut rt = Runtime::new(OneFile);
    let c = caller();
    assert_eq!(error(lookup_shim(&mut rt, 1, BAD, &c)), Errno::EILSEQ);
    assert_eq!(error(mknod_shim(&mut rt, 1, BAD, 0, 0, &c)), Errno::EILSEQ);
    assert_eq!(error(mkdir_shim(&mut rt, 1, BAD, 0, &c)), Errno::EILSEQ);
    assert_eq!(error(unlink_shim(&mut rt, 1, BAD, &c)), Errno::EILSEQ);
    assert_eq!(error(rmdir_shim(&mut rt, 1, BAD, &c)), Errno::EILSEQ);
    assert_eq!(error(symlink_shim(&mut rt, BAD, 1, b"s", &c)), Errno::EILSEQ);
    assert_eq!(error(symlink_shim(&mut rt, b"t", 1, BAD, &c)), Errno::EILSEQ);
    assert_eq!(error(rename_shim(&mut rt, 1, BAD, 1, b"b", 0, &c)), Errno::EILSEQ);
    assert_eq!(error(rename_shim(&mut rt, 1, b"a", 1, BAD, 0, &c)), Errno::EILSEQ);
    assert_eq!(error(link_shim(&mut rt, 2, 1, BAD, &c)), Errno::EILSEQ);
    assert_eq!(error(create_shim(&mut rt, 1, BAD, 0, info(0), &c)), Errno::EILSEQ);
    assert_eq!(error(setxattr_shim(&mut rt, 1, BAD, b"", 0, &c)), Errno::EILSEQ);
    assert_eq!(error(getxattr_shim(&mut rt, 1, BAD, 0, &c)), Errno::EILSEQ);
    assert_eq!(error(removexattr_shim(&mut rt, 1, BAD, &c)), Errno::EILSEQ);
    assert_eq!(rt.counts(2), Some((1, 0, 0, 0)));
    assert_eq!(rt.counts(3), None);
}

#[test]
fn a_file_is_looked_up_and_read() {
    let mut rt = Runtime::new(OneFile);
    let c = caller();
    let (ino, generation, st, attr_timeout, _) = entry(lookup_shim(&mut rt, 1, b"hello", &c));
    assert_eq!((ino, generation, st.st_size), (2, 0, 13));
    assert_eq!(attr_timeout, Duration::from_secs(1));
    let miss = entry(lookup_shim(&mut rt, 1, b"other", &c));
    assert_eq!((miss.0, miss.4), (0, Duration::from_secs(1)));
    let fi = match open_shim(&mut rt, 2, RawFileInfo { flags: 7, ..info(0) }, &c) {
        Reply::Open(fi) => fi,
        other => panic!("{other:?}"),
    };
    assert_eq!((fi.fh, fi.direct_io), (1, 1));
    assert_eq!(data(read_shim(&mut rt, 2, 5, 6, fi, &c)), b"World");
    assert_eq!(data(read_shim(&mut rt, 2, 100, 0, fi, &c)), b"Hello World!\n");
    assert_eq!(error(read_shim(&mut rt, 2, 5, 0, info(9), &c)), Errno::EBADF);
    assert_eq!(error(read_shim(&mut rt, 9, 5, 0, fi, &c)), Errno::ENOENT);
    assert!(matches!(write_shim(&mut rt, 2, b"xy", 3, fi, &c), Reply::Written(5)));
    assert!(matches!(lseek_shim(&mut rt, 2, 4, 3, fi, &c), Reply::Position(7)));
    assert!(done(flush_shim(&mut rt, 2, fi, &c)));
    assert!(done(fsync_shim(&mut rt, 2, 1, fi, &c)));
    assert_eq!(error(fsync_shim(&mut rt, 2, 0, fi, &c)), Errno::EROFS);
    assert!(done(fallocate_shim(&mut rt, 2, 0, -1, 4, fi, &c)));
    assert!(done(release_shim(&mut rt, 2, fi, &c)));
    assert_eq!(error(release_shim(&mut rt, 2, fi, &c)), Errno::EBADF);
    assert_eq!(error(open_shim(&mut rt, 1, info(0), &c)), Errno::EISDIR);
    assert!(matches!(forget_shim(&mut rt, 2, 1), Reply::Silence));
    assert_eq!(rt.counts(2), Some((1, 0, 0, 0)));
}

#[test]
fn attributes_are_told_and_set() {
    let mut rt = Runtime::new(OneFile);
    let c = caller();
    match getattr_shim(&mut rt, 2, &c) {
        Reply::Attr(st, ttl) => {
            assert_eq!((st.st_ino, st.st_size, st.st_mode), (2, 13, 0o100444));
            assert_eq!(ttl, Duration::from_secs(1));
        }
        other => panic!("{other:?}"),
    }
    assert_eq!(error(getattr_shim(&mut rt, 9, &c)), Errno::ENOENT);
    let mask = SetAttrMask::linux();
    let st = Stat { st_mtimespec: Timespec { tv_sec: -1, tv_nsec: 5 }, ..zeroed_stat() };
    match setattr_shim(&mut rt, 2, Some(&st), mask.mtime as i32, &mask, &c) {
        Some(Reply::Attr(st, _)) => {
            assert_eq!(st.st_mtimespec, Timespec { tv_sec: -1, tv_nsec: 5 });
        }
        other => panic!("{other:?}"),
    }
    let now = setattr_shim(&mut rt, 2, Some(&st), mask.mtime_now as i32, &mask, &c);
    assert_eq!(error(now.unwrap()), Errno::EROFS);
    let far = Stat {
        st_mtimespec: Timespec { tv_sec: i64::MAX, tv_nsec: 1_000_000_000 },
        ..zeroed_stat()
    };
    assert!(setattr_shim(&mut rt, 2, Some(&far), mask.mtime as i32, &mask, &c).is_none());
    assert_eq!(UNIX_EPOCH, NodeAttr::default().mtime);
}

#[test]
fn the_tree_is_changed() {
    let mut rt = Runtime::new(OneFile);
    let c = caller();
    assert_eq!(entry(mkdir_shim(&mut rt, 1, b"d", 0o777, &c)).0, 3);
    assert_eq!(entry(mknod_shim(&mut rt, 1, b"n", 0, (1 << 32) + 5, &c)).0, 4);
    assert_eq!(entry(symlink_shim(&mut rt, b"t", 1, b"s", &c)).2.st_size, 3);
    assert_eq!(entry(link_shim(&mut rt, 2, 1, b"l", &c)).0, 2);
    assert_eq!(rt.counts(2), Some((2, 1, 0, 0)));
    assert!(done(unlink_shim(&mut rt, 1, b"l", &c)));
    assert_eq!(rt.counts(2), Some((1, 1, 0, 0)));
    assert_eq!(error(rmdir_shim(&mut rt, 1, b"d", &c)), Errno::ENOSYS);
    assert_eq!(error(rename_shim(&mut rt, 1, b"ab", 1, b"xyz", 4, &c)).raw(), 234);
    match create_shim(&mut rt, 1, b"c", 0o644, RawFileInfo { flags: 7, ..info(0) }, &c) {
        Reply::Create(p, fi) => {
            assert_eq!((p.ino, fi.fh, fi.keep_cache, fi.flags), (6, 1, 1, 7));
            assert_eq!(rt.counts(6), Some((1, 1, 1, 0)));
        }
        other => panic!("{other:?}"),
    }
    assert!(matches!(
        forget_multi_shim(&mut rt, &[(2, 1), (3, 9), (99, 1), (6, 1)]),
        Reply::Silence
    ));
    assert_eq!(rt.counts(2), Some((1, 0, 0, 0)));
    assert_eq!(rt.counts(6), Some((1, 0, 1, 0)));
    assert!(matches!(
        copy_file_range_shim(&mut rt, 1, 2, 1, 3, 4, 0, &c),
        Reply::Written(9)
    ));
}

#[test]
fn the_rest_is_answered() {
    let mut rt = Runtime::new(OneFile);
    let c = caller();
    match readlink_shim(&mut rt, 1, &c) {
        Reply::Link(target) => assert_eq!(target, "hello"),
        other => panic!("{other:?}"),
    }
    assert!(matches!(statfs_shim(&rt, 1, &c), Reply::StatFs(s) if s.bsize == 512));
    assert!(done(setxattr_shim(&mut rt, 1, b"x", b"v", 3, &c)));
    assert!(matches!(getxattr_shim(&mut rt, 1, b"name", 0, &c), Reply::XattrSize(4)));
    assert_eq!(data(getxattr_shim(&mut rt, 1, b"name", 4, &c)), b"name");
    assert_eq!(error(getxattr_shim(&mut rt, 1, b"name", 3, &c)), Errno::ERANGE);
    assert_eq!(data(listxattr_shim(&mut rt, 1, 9, &c)), b"a\0");
    assert_eq!(error(removexattr_shim(&mut rt, 1, b"x", &c)), Errno::ENOSYS);
    assert!(done(access_shim(&mut rt, 1, 4, &c)));
    assert_eq!(error(access_shim(&mut rt, 1, 2, &c)), Errno::EACCES);
    let mut conn = ConnInfo { max_write: 9, ..Default::default() };
    init_shim(&rt, &mut conn);
    assert_eq!(conn.max_write, 9);
    destroy_shim(&rt);
    let fi = match opendir_shim(&mut rt, 1, info(0), &c) {
        Reply::Open(fi) => fi,
        other => panic!("{other:?}"),
    };
    assert!(done(fsyncdir_shim(&mut rt, 1, 1, fi, &c)));
    assert_eq!(error(fsyncdir_shim(&mut rt, 1, 0, fi, &c)), Errno::EROFS);
    assert!(done(releasedir_shim(&mut rt, 1, fi, &c)));
}

#[test]
fn a_directory_is_listed() {
    let mut rt = Runtime::new(OneFile);
    let c = caller();
    let all = data(readdir_shim(&mut rt, 1, 100, 0, info(0), &c, pack));
    assert_eq!(all, b".\x01\x01..\x01\x02hello\x02\x03");
    // What does not fit comes with the next request.
    let some = data(readdir_shim(&mut rt, 1, 8, 0, info(0), &c, pack));
    assert_eq!(some, b".\x01\x01..\x01\x02");
    let rest = data(readdir_shim(&mut rt, 1, 8, 2, info(0), &c, pack));
    assert_eq!(rest, b"hello\x02\x03");
    assert!(matches!(readdir_shim(&mut rt, 1, 8, 3, info(0), &c, pack), Reply::EndOfStream));
    assert_eq!(error(readdir_shim(&mut rt, 9, 8, 0, info(0), &c, pack)), Errno::ENOENT);
    let plus = data(readdirplus_shim(&mut rt, 1, 3, 0, info(0), &c, pack));
    assert_eq!(plus, b".\x65\x01");
}

// Directory buffers

#[test]
fn a_buffer_takes_whole_entries_only() {
    let mut buf = DirBuffer::new(pack, 7);
    assert!(buf.add("abc", 1, FileType::Directory, 1));
    assert!(!buf.add("d", 2, FileType::Directory, 2));
    assert_eq!(buf.as_slice(), b"abc\x01\x01");
    // A name with a NUL is skipped and no reason to stop.
    assert!(buf.add("a\0b", 3, FileType::Directory, 3));
    assert_eq!(buf.as_slice(), b"abc\x01\x01");
    assert!(buf.add_packed(&vec![9, 9]));
    assert!(!buf.add_packed(&vec![9]));
    assert!(buf.add_packed(&vec![]));
    assert_eq!(buf.into_vec(), b"abc\x01\x01\x09\x09");
}

#[test]
fn a_plain_entry_has_a_number_and_a_type() {
    let check = |rec: DirRecord<'_>| {
        match rec.attr {
            DirAttr::Plain(st) => {
                assert_eq!(st, Stat { st_ino: 6, st_mode: 0o120000, ..zeroed_stat() });
            }
            DirAttr::Plus(_) => panic!("plus"),
        }
        assert_eq!((rec.name, rec.next_offset), ("link", 8));
        vec![1]
    };
    let mut buf = DirBuffer::new(check, 1);
    assert!(buf.add("link", 6, FileType::Symlink, 8));
    assert_eq!(buf.into_vec(), vec![1]);
}

#[test]
fn a_plus_buffer_takes_entries_with_attributes() {
    let entry = Entry {
        ino: 3,
        generation: 4,
        attr_timeout: Duration::from_secs(5),
        ..Default::default()
    };
    let pack = |rec: DirRecord<'_>| match rec.attr {
        DirAttr::Plus(p) => {
            vec![p.ino as u8, p.generation as u8, p.attr_timeout.as_secs() as u8, rec.next_offset as u8]
        }
        DirAttr::Plain(_) => panic!("plain"),
    };
    let mut buf = DirPlusBuffer::new(pack, 5);
    assert!(buf.add("x", &entry, 6));
    assert!(buf.add("a\0b", &entry, 7));
    assert!(!buf.add("y", &entry, 8));
    assert!(buf.add_packed(&vec![0]));
    assert_eq!(buf.as_slice(), &[3, 4, 5, 6, 0]);
    assert_eq!(buf.into_vec(), vec![3, 4, 5, 6, 0]);
}

// The filesystem trait that goes by inode numbers, all left at its defaults.
struct Nothing;

impl<I: Fn() -> bool> Filesystem<I> for Nothing {}

#[test]
fn filesystem_defaults() {
    try_defaults(Nothing, Request::new(caller(), || false));
}

fn try_defaults<I: Fn() -> bool>(mut fs: impl Filesystem<I>, req: Request<I>) {
    let fi = FileInfo::default();
    fs.init(&mut ConnInfo::default());
    fs.forget(1, 1);
    assert_eq!(fs.lookup(&req, 1, "x").unwrap_err(), Errno::ENOSYS);
    assert_eq!(fs.getattr(&req, 1, None).unwrap_err(), Errno::ENOSYS);
    assert_eq!(fs.setattr(&req, 1, &SetAttr::default(), None).unwrap_err(), Errno::ENOSYS);
    assert_eq!(fs.readlink(&req, 1).unwrap_err(), Errno::ENOSYS);
    assert_eq!(fs.mknod(&req, 1, "x", 0, 0).unwrap_err(), Errno::ENOSYS);
    assert_eq!(fs.mkdir(&req, 1, "x", 0).unwrap_err(), Errno::ENOSYS);
    assert_eq!(fs.unlink(&req, 1, "x").unwrap_err(), Errno::ENOSYS);
    assert_eq!(fs.rmdir(&req, 1, "x").unwrap_err(), Errno::ENOSYS);
    assert_eq!(fs.symlink(&req, 1, "x", "y").unwrap_err(), Errno::ENOSYS);
    assert_eq!(fs.rename(&req, 1, "x", 1, "y", 0).unwrap_err(), Errno::ENOSYS);
    assert_eq!(fs.link(&req, 1, 1, "x").unwrap_err(), Errno::ENOSYS);
    assert_eq!(fs.open(&req, 1, &fi).unwrap().fh, 0);
    assert_eq!(fs.read(&req, 1, 1, 0, &fi).unwrap_err(), Errno::ENOSYS);
    assert_eq!(fs.write(&req, 1, b"", 0, &fi).unwrap_err(), Errno::ENOSYS);
    assert!(fs.flush(&req, 1, &fi).is_ok());
    assert!(fs.release(&req, 1, &fi).is_ok());
    assert!(fs.fsync(&req, 1, true, &fi).is_ok());
    assert_eq!(fs.opendir(&req, 1, &fi).unwrap().fh, 0);
    let mut buf = DirBuffer::new(pack, 10);
    assert_eq!(fs.readdir(&req, 1, 0, 0, &mut buf).unwrap_err(), Errno::ENOSYS);
    let mut plus = DirPlusBuffer::new(pack, 10);
    assert_eq!(fs.readdirplus(&req, 1, 0, 0, &mut plus).unwrap_err(), Errno::ENOSYS);
    assert!(fs.releasedir(&req, 1, &fi).is_ok());
    assert!(fs.fsyncdir(&req, 1, false, &fi).is_ok());
    assert_eq!(fs.statfs(&req, 1).unwrap(), StatFs::minimal_default());
    assert_eq!(fs.setxattr(&req, 1, "x", b"", 0).unwrap_err(), Errno::ENOSYS);
    assert_eq!(fs.getxattr(&req, 1, "x").unwrap_err(), Errno::ENOSYS);
    assert_eq!(fs.listxattr(&req, 1).unwrap_err(), Errno::ENOSYS);
    assert_eq!(fs.removexattr(&req, 1, "x").unwrap_err(), Errno::ENOSYS);
    assert!(fs.access(&req, 1, 4).is_ok());
    assert_eq!(fs.create(&req, 1, "x", 0, &fi).unwrap_err(), Errno::ENOSYS);
    assert_eq!(fs.fallocate(&req, 1, 0, 0, 1, &fi).unwrap_err(), Errno::ENOSYS);
    assert_eq!(fs.lseek(&req, 1, 0, 0, &fi).unwrap_err(), Errno::ENOSYS);
    assert_eq!(fs.copy_file_range(&req, 1, 0, &fi, 1, 0, &fi, 1, 0).unwrap_err(), Errno::ENOSYS);
    fs.destroy();
}
