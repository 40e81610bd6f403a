use std::borrow::Cow;
use std::collections::BTreeMap;
use std::sync::atomic::{AtomicUsize, Ordering};
use std::sync::{Arc, Mutex, RwLock};
use std::time::Duration;

use fuse3::attr::{NodeAttr, SetAttr, StatFs};
use fuse3::conn::{Caller, ConnInfo};
use fuse3::errno::Errno;
use fuse3::file_type::FileKind;
use fuse3::node::{DirSink, NodeId, XattrReply};
use fuse3::node_fs::{NodeFs, ReadDir};
use fuse3::open::Opened;
use fuse3::runtime::{LookupReply, Runtime};
use fuse3::table::{Cx, NodeRef};

enum Data {
    Dir(BTreeMap<String, NodeId>),
    File(Vec<u8>),
}

struct Node(RwLock<Data>);

struct Mini;

impl NodeFs for Mini {
    type Node = Node;
    type Handle = ();
    type DirHandle = ();

    fn root(&mut self) -> Node {
        Node(RwLock::new(Data::Dir(BTreeMap::new())))
    }

    fn getattr(&self, n: &Node, _: &Caller) -> Result<NodeAttr, Errno> {
        Ok(NodeAttr {
            kind: match &*n.0.read().unwrap() {
                Data::Dir(_) => FileKind::Directory,
                Data::File(_) => FileKind::RegularFile,
            },
            nlink: 1,
            ..Default::default()
        })
    }

    fn create(
        &self,
        cx: &mut Cx<Node>,
        parent: NodeId,
        name: &str,
        _: u32,
        _: u32,
        _: i32,
        _: &Caller,
    ) -> Result<(NodeId, Opened<()>), Errno> {
        let id = cx.insert(Node(RwLock::new(Data::File(Vec::new()))), parent);
        let p = cx.get(parent).ok_or(Errno::ENOENT)?;
        if let Data::Dir(e) = &mut *p.0.write().unwrap() {
            e.insert(name.into(), id);
        }
        Ok((id, Opened::new(())))
    }

    fn unlink(
        &self,
        cx: &mut Cx<Node>,
        parent: NodeId,
        name: &str,
        _: &Caller,
    ) -> Result<(), Errno> {
        let p = cx.get(parent).ok_or(Errno::ENOENT)?;
        let id = match &mut *p.0.write().unwrap() {
            Data::Dir(e) => e.remove(name).ok_or(Errno::ENOENT)?,
            _ => return Err(Errno::ENOTDIR),
        };
        cx.remove_link(id);
        Ok(())
    }

    fn lookup(
        &self,
        cx: &mut Cx<Node>,
        parent: NodeId,
        name: &str,
        _: &Caller,
    ) -> Result<Option<NodeId>, Errno> {
        let p = cx.get(parent).ok_or(Errno::ENOENT)?;
        let found = match &*p.0.read().unwrap() {
            Data::Dir(e) => Ok(e.get(name).copied()),
            _ => Err(Errno::ENOTDIR),
        };
        found
    }

    fn read<'a>(
        &'a self,
        n: &'a Node,
        _: &'a (),
        off: u64,
        size: usize,
        _: &Caller,
    ) -> Result<Cow<'a, [u8]>, Errno> {
        match &*n.0.read().unwrap() {
            Data::File(v) => Ok(Cow::Owned(
                v.get(off as usize..).unwrap_or_default()
                    [..size.min(v.len().saturating_sub(off as usize))]
                    .to_vec(),
            )),
            _ => Err(Errno::EISDIR),
        }
    }

    fn write(
        &self,
        n: &Node,
        _: &(),
        data: &[u8],
        _: u64,
        _: &Caller,
    ) -> Result<usize, Errno> {
        match &mut *n.0.write().unwrap() {
            Data::File(v) => {
                v.extend_from_slice(data);
                Ok(data.len())
            }
            _ => Err(Errno::EISDIR),
        }
    }
}

fn caller() -> Caller {
    Caller::default()
}

#[test]
fn lifetime_and_generation() {
    let mut rt = Runtime::new(Mini);
    let (e, o) = rt.create(1, "f", 0, 0, 0, &caller()).unwrap();
    assert_eq!(rt.counts(e.ino), Some((1, 1, 1, 0)));
    rt.unlink(1, "f", &caller()).unwrap();
    rt.forget(e.ino, 1);
    rt.release(e.ino, o.fh, &caller()).unwrap();
    assert_eq!(rt.counts(e.ino), None);
    let (e2, _) = rt.create(1, "g", 0, 0, 0, &caller()).unwrap();
    assert_eq!(e2.ino, e.ino);
    assert_eq!(e2.generation, 1);
}

#[test]
fn node_lease_defers_reuse() {
    let mut rt = Runtime::new(Mini);
    let (e, o) = rt.create(1, "f", 0, 0, 0, &caller()).unwrap();
    let lease = rt.node(e.ino).unwrap();
    rt.unlink(1, "f", &caller()).unwrap();
    rt.forget(e.ino, 1);
    rt.release(e.ino, o.fh, &caller()).unwrap();
    assert!(rt.counts(e.ino).is_some());
    drop(lease);
    assert!(rt.counts(e.ino).is_none());
}

#[test]
fn callbacks_leave_no_lease_behind() {
    let mut rt = Runtime::new(Mini);
    rt.getattr(1, &caller()).unwrap();
    rt.lookup(1, "nothing", &caller()).unwrap();
    let (e, o) = rt.create(1, "f", 0, 0, 0, &caller()).unwrap();
    rt.write(e.ino, o.fh, b"abc", 0, &caller()).unwrap();
    assert_eq!(rt.counts(1), Some((1, 0, 0, 0)));
    assert_eq!(rt.counts(e.ino), Some((1, 1, 1, 0)));
}

#[test]
fn reading_gives_back_what_was_written() {
    let mut rt = Runtime::new(Mini);
    let (e, o) = rt.create(1, "f", 0, 0, 0, &caller()).unwrap();
    assert_eq!(rt.write(e.ino, o.fh, b"hello", 0, &caller()).unwrap(), 5);
    let read = rt.read(e.ino, o.fh, 1, 3, &caller(), |r| r.unwrap().into_owned());
    assert_eq!(read, b"ell");
    assert_eq!(&*rt.read_data(e.ino, o.fh, 0, 100, &caller()).unwrap(), b"hello");
}

#[test]
fn io_needs_a_node_and_a_handle() {
    let mut rt = Runtime::new(Mini);
    let (e, o) = rt.create(1, "f", 0, 0, 0, &caller()).unwrap();
    let c = caller();
    assert_eq!(rt.write(99, o.fh, b"", 0, &c).unwrap_err(), Errno::ENOENT);
    assert_eq!(rt.write(e.ino, 99, b"", 0, &c).unwrap_err(), Errno::EBADF);
    assert_eq!(rt.read(99, o.fh, 0, 1, &c, |r| r.err()), Some(Errno::ENOENT));
    assert_eq!(rt.read(e.ino, 99, 0, 1, &c, |r| r.err()), Some(Errno::EBADF));
    assert_eq!(rt.flush(e.ino, 99, &c).unwrap_err(), Errno::EBADF);
    assert_eq!(rt.fsync(e.ino, 99, true, &c).unwrap_err(), Errno::EBADF);
    assert_eq!(rt.fallocate(e.ino, 99, 0, 0, 1, &c).unwrap_err(), Errno::EBADF);
    assert_eq!(rt.lseek(e.ino, 99, 0, 0, &c).unwrap_err(), Errno::EBADF);
    assert_eq!(rt.getattr(99, &c).unwrap_err(), Errno::ENOENT);
    assert!(rt.node(99).is_err());
    assert_eq!(rt.open(99, 0, &c).unwrap_err(), Errno::ENOENT);
    assert_eq!(rt.opendir(99, 0, &c).unwrap_err(), Errno::ENOENT);
}

#[test]
fn a_handle_is_released_once() {
    let mut rt = Runtime::new(Mini);
    let c = caller();
    let o = rt.open(1, 0, &c).unwrap();
    assert_eq!(rt.counts(1), Some((1, 0, 1, 0)));
    assert!(rt.flush(1, o.fh, &c).is_ok());
    assert!(rt.release(1, o.fh, &c).is_ok());
    assert_eq!(rt.counts(1), Some((1, 0, 0, 0)));
    assert_eq!(rt.release(1, o.fh, &c).unwrap_err(), Errno::EBADF);
    assert_eq!(rt.flush(1, o.fh, &c).unwrap_err(), Errno::EBADF);
    // The number is not used again.
    assert_eq!(rt.open(1, 0, &c).unwrap().fh, o.fh + 1);
}

#[test]
fn a_release_without_its_node_loses_the_handle() {
    let mut rt = Runtime::new(Mini);
    let c = caller();
    let o = rt.open(1, 0, &c).unwrap();
    assert_eq!(rt.release(99, o.fh, &c).unwrap_err(), Errno::ENOENT);
    assert_eq!(rt.release(1, o.fh, &c).unwrap_err(), Errno::EBADF);
    assert_eq!(rt.counts(1), Some((1, 0, 1, 0)));
}

#[test]
fn files_and_directories_share_handle_numbers() {
    let mut rt = Runtime::new(Mini);
    let c = caller();
    let f = rt.open(1, 0, &c).unwrap();
    let d = rt.opendir(1, 0, &c).unwrap();
    assert_eq!((f.fh, d.fh), (1, 2));
    // A directory handle is no file handle.
    assert_eq!(rt.release(1, d.fh, &c).unwrap_err(), Errno::EBADF);
    assert!(rt.releasedir(1, d.fh, &c).is_ok());
    assert_eq!(rt.counts(1), Some((1, 0, 1, 0)));
}

#[test]
fn lookups_are_counted_and_forgotten() {
    let mut rt = Runtime::new(Mini);
    let c = caller();
    let (e, _) = rt.create(1, "f", 0, 0, 0, &c).unwrap();
    match rt.lookup(1, "f", &c).unwrap() {
        LookupReply::Found(found) => {
            assert_eq!((found.ino, found.generation), (e.ino, e.generation));
            assert_eq!(found.attr.kind, FileKind::RegularFile);
        }
        LookupReply::Negative => panic!("not found"),
    }
    assert_eq!(rt.counts(e.ino), Some((1, 2, 1, 0)));
    rt.forget(e.ino, 1);
    assert_eq!(rt.counts(e.ino), Some((1, 1, 1, 0)));
    rt.forget(e.ino, 100);
    assert_eq!(rt.counts(e.ino), Some((1, 0, 1, 0)));
    assert!(matches!(rt.lookup(1, "g", &c), Ok(LookupReply::Negative)));
    assert_eq!(rt.lookup(99, "g", &c).unwrap_err(), Errno::ENOENT);
    assert_eq!(rt.lookup(e.ino, "g", &c).unwrap_err(), Errno::ENOTDIR);
    rt.forget(99, 1);
}

#[test]
fn an_entry_needs_a_live_node() {
    let mut rt = Runtime::new(Mini);
    let attr = NodeAttr { size: 3, ..Default::default() };
    assert_eq!(rt.enter(NodeId::from_ino(99), attr).unwrap_err(), Errno::ENOENT);
    let e = rt.enter(NodeId::root(), attr).unwrap();
    assert_eq!((e.ino, e.generation, e.attr.size), (1, 0, 3));
    assert_eq!(rt.counts(1), Some((1, 1, 0, 0)));
    assert_eq!(rt.file_opened(99, Opened::new(())).unwrap_err(), Errno::ENOENT);
    assert_eq!(rt.file_opened(1, Opened::new(()).keep_cache(true)).unwrap().fh, 1);
    assert!(rt.dir_opened(1, Opened::new(()).keep_cache(true)).unwrap().hints.keep_cache);
    assert_eq!(rt.counts(1), Some((1, 1, 2, 0)));
}

// Everything left at its default.
struct Bare;

impl NodeFs for Bare {
    type Node = ();
    type Handle = u8;
    type DirHandle = u8;

    fn root(&mut self) {}

    fn getattr(&self, _: &(), _: &Caller) -> Result<NodeAttr, Errno> {
        Err(Errno::EACCES)
    }
}

impl<S: DirSink> ReadDir<S> for Bare {}

struct NoSink;

impl DirSink for NoSink {
    fn add(&mut self, _: &str, _: NodeId, _: FileKind, _: u64) -> bool {
        false
    }
}

#[test]
fn what_is_left_out_is_not_supported() {
    let mut rt = Runtime::new(Bare);
    let c = caller();
    assert_eq!(rt.getattr(1, &c).unwrap_err(), Errno::EACCES);
    assert_eq!(rt.setattr(1, &SetAttr::default(), &c).unwrap_err(), Errno::ENOSYS);
    assert_eq!(rt.lookup(1, "x", &c).unwrap_err(), Errno::ENOSYS);
    assert_eq!(rt.readlink(1, &c).unwrap_err(), Errno::ENOSYS);
    assert_eq!(rt.mknod(1, "x", 0, 0, 0, &c).unwrap_err(), Errno::ENOSYS);
    assert_eq!(rt.mkdir(1, "x", 0, 0, &c).unwrap_err(), Errno::ENOSYS);
    assert_eq!(rt.symlink(1, "x", "y", &c).unwrap_err(), Errno::ENOSYS);
    assert_eq!(rt.unlink(1, "x", &c).unwrap_err(), Errno::ENOSYS);
    assert_eq!(rt.rmdir(1, "x", &c).unwrap_err(), Errno::ENOSYS);
    assert_eq!(rt.rename(1, "x", 1, "y", 0, &c).unwrap_err(), Errno::ENOSYS);
    assert_eq!(rt.link(1, 1, "x", &c).unwrap_err(), Errno::ENOSYS);
    assert_eq!(rt.create(1, "x", 0, 0, 0, &c).unwrap_err(), Errno::ENOSYS);
    assert_eq!(rt.copy_file_range(1, 0, 1, 0, 1, 0, &c).unwrap_err(), Errno::ENOSYS);
    assert_eq!(rt.setxattr(1, "x", b"", 0, &c).unwrap_err(), Errno::ENOSYS);
    assert_eq!(rt.getxattr(1, "x", 0, &c).unwrap_err(), Errno::ENOSYS);
    assert_eq!(rt.listxattr(1, 0, &c).unwrap_err(), Errno::ENOSYS);
    assert_eq!(rt.removexattr(1, "x", &c).unwrap_err(), Errno::ENOSYS);
    assert_eq!(rt.readdir(1, 0, 0, &mut NoSink, &c).unwrap_err(), Errno::ENOSYS);
    let fh = rt.open(1, 0, &c).unwrap().fh;
    assert_eq!(rt.write(1, fh, b"x", 0, &c).unwrap_err(), Errno::ENOSYS);
    assert_eq!(rt.read(1, fh, 0, 1, &c, |r| r.err()), Some(Errno::ENOSYS));
    assert_eq!(rt.fallocate(1, fh, 0, 0, 1, &c).unwrap_err(), Errno::ENOSYS);
    assert_eq!(rt.lseek(1, fh, 0, 0, &c).unwrap_err(), Errno::ENOSYS);
}

#[test]
fn what_is_left_out_may_succeed_quietly() {
    let mut rt = Runtime::new(Bare);
    let c = caller();
    assert!(rt.access(1, 7, &c).is_ok());
    assert_eq!(rt.statfs(1, &c).unwrap(), StatFs::minimal_default());
    let f = rt.open(1, 0, &c).unwrap();
    assert!(!f.hints.direct_io && !f.hints.keep_cache);
    assert!(rt.flush(1, f.fh, &c).is_ok());
    assert!(rt.fsync(1, f.fh, false, &c).is_ok());
    assert!(rt.release(1, f.fh, &c).is_ok());
    let d = rt.opendir(1, 0, &c).unwrap();
    assert!(rt.fsyncdir(1, d.fh, true, &c).is_ok());
    assert!(rt.releasedir(1, d.fh, &c).is_ok());
    let mut conn = ConnInfo { max_write: 5, ..Default::default() };
    rt.init(&mut conn);
    assert_eq!(conn, ConnInfo { max_write: 5, ..Default::default() });
    rt.destroy();
}

#[test]
fn a_failed_lookup_of_attributes_counts_nothing() {
    struct Found;
    impl NodeFs for Found {
        type Node = ();
        type Handle = ();
        type DirHandle = ();
        fn root(&mut self) {}
        fn getattr(&self, _: &(), _: &Caller) -> Result<NodeAttr, Errno> {
            Err(Errno::EACCES)
        }
        fn lookup(
            &self,
            _: &mut Cx<()>,
            _: NodeId,
            name: &str,
            _: &Caller,
        ) -> Result<Option<NodeId>, Errno> {
            Ok(Some(NodeId::from_ino(if name == "root" { 1 } else { 99 })))
        }
    }
    let mut rt = Runtime::new(Found);
    assert_eq!(rt.lookup(1, "root", &caller()).unwrap_err(), Errno::EACCES);
    assert_eq!(rt.counts(1), Some((1, 0, 0, 0)));
    assert_eq!(rt.lookup(1, "gone", &caller()).unwrap_err(), Errno::ENOENT);
}

// A filesystem whose callbacks tell what they got.
struct Traced {
    releases: Arc<AtomicUsize>,
}

impl NodeFs for Traced {
    type Node = u64;
    type Handle = u64;
    type DirHandle = u64;

    fn root(&mut self) -> u64 {
        100
    }

    fn populate(&mut self, cx: &mut Cx<u64>) {
        let dir = cx.insert(200, NodeId::root());
        cx.insert(300, dir);
    }

    fn init(&self, conn: &mut ConnInfo) {
        conn.set_max_write(if conn.parallel_directory_operations { 1 } else { 2 });
    }

    fn getattr(&self, node: &u64, c: &Caller) -> Result<NodeAttr, Errno> {
        Ok(NodeAttr { size: *node, uid: c.uid, ..Default::default() })
    }

    fn setattr(&self, node: &u64, set: &SetAttr, _: &Caller) -> Result<NodeAttr, Errno> {
        Ok(NodeAttr { size: *node + set.size.unwrap_or(0), ..Default::default() })
    }

    fn readlink(&self, node: &u64, _: &Caller) -> Result<String, Errno> {
        Ok(format!("to {node}"))
    }

    fn access(&self, node: &u64, mask: i32, _: &Caller) -> Result<(), Errno> {
        Err(Errno::from_raw(*node as i32 + mask))
    }

    fn setxattr(&self, _: &u64, name: &str, value: &[u8], flags: i32, _: &Caller) -> Result<(), Errno> {
        Err(Errno::from_raw(name.len() as i32 * 100 + value.len() as i32 * 10 + flags))
    }

    fn getxattr(&self, node: &u64, name: &str, size: usize, _: &Caller) -> Result<XattrReply, Errno> {
        Ok(XattrReply::Size(*node as usize + name.len() + size))
    }

    fn listxattr(&self, node: &u64, size: usize, _: &Caller) -> Result<XattrReply, Errno> {
        Ok(XattrReply::Size(*node as usize + size))
    }

    fn removexattr(&self, _: &u64, name: &str, _: &Caller) -> Result<(), Errno> {
        Err(Errno::from_raw(name.len() as i32))
    }

    fn open(&self, node: &u64, flags: i32, _: &Caller) -> Result<Opened<u64>, Errno> {
        if flags < 0 {
            return Err(Errno::EPERM);
        }
        Ok(Opened::new(*node + flags as u64).direct_io(true))
    }

    fn read<'a>(
        &'a self,
        _: &'a u64,
        handle: &'a u64,
        _: u64,
        size: usize,
        _: &Caller,
    ) -> Result<Cow<'a, [u8]>, Errno> {
        Ok(Cow::Owned(vec![*handle as u8; size + 1]))
    }

    fn fsync(&self, _: &u64, _: &u64, datasync: bool, _: &Caller) -> Result<(), Errno> {
        if datasync { Err(Errno::EROFS) } else { Ok(()) }
    }

    fn lseek(&self, node: &u64, handle: &u64, offset: u64, whence: i32, _: &Caller) -> Result<u64, Errno> {
        Ok(node + handle + offset + whence as u64)
    }

    fn fallocate(&self, _: &u64, _: &u64, mode: i32, offset: u64, length: u64, _: &Caller) -> Result<(), Errno> {
        Err(Errno::from_raw(mode * 100 + offset as i32 * 10 + length as i32))
    }

    fn release(&self, node: &u64, handle: u64, _: &Caller) -> Result<(), Errno> {
        self.releases.fetch_add((node + handle) as usize, Ordering::SeqCst);
        Ok(())
    }

    fn opendir(&self, node: &u64, _: i32, _: &Caller) -> Result<Opened<u64>, Errno> {
        Ok(Opened::new(*node + 7).cache_readdir(true))
    }

    fn releasedir(&self, _: &u64, handle: u64, _: &Caller) -> Result<(), Errno> {
        self.releases.fetch_add(handle as usize, Ordering::SeqCst);
        Err(Errno::ENXIO)
    }

    fn fsyncdir(&self, _: &u64, handle: &u64, _: bool, _: &Caller) -> Result<(), Errno> {
        Err(Errno::from_raw(*handle as i32))
    }

    fn mkdir(
        &self,
        cx: &mut Cx<u64>,
        parent: NodeId,
        name: &str,
        mode: u32,
        umask: u32,
        _: &Caller,
    ) -> Result<NodeId, Errno> {
        Ok(cx.insert((mode & !umask) as u64 + name.len() as u64, parent))
    }

    fn mknod(
        &self,
        cx: &mut Cx<u64>,
        parent: NodeId,
        _: &str,
        mode: u32,
        rdev: u32,
        _: u32,
        _: &Caller,
    ) -> Result<NodeId, Errno> {
        Ok(cx.insert((mode + rdev) as u64, parent))
    }

    fn symlink(
        &self,
        cx: &mut Cx<u64>,
        parent: NodeId,
        _: &str,
        target: &str,
        _: &Caller,
    ) -> Result<NodeId, Errno> {
        Ok(cx.insert(target.len() as u64, parent))
    }

    fn link(
        &self,
        cx: &mut Cx<u64>,
        id: NodeId,
        _: NodeId,
        _: &str,
        _: &Caller,
    ) -> Result<NodeId, Errno> {
        cx.add_link(id);
        Ok(id)
    }

    fn rename(
        &self,
        cx: &mut Cx<u64>,
        parent: NodeId,
        _: &str,
        newparent: NodeId,
        _: &str,
        flags: u32,
        _: &Caller,
    ) -> Result<(), Errno> {
        if flags != 0 {
            return Err(Errno::EINVAL);
        }
        cx.reparent(parent, newparent);
        Ok(())
    }

    fn rmdir(&self, cx: &mut Cx<u64>, _: NodeId, _: &str, _: &Caller) -> Result<(), Errno> {
        cx.remove_link(NodeId::from_ino(3));
        Ok(())
    }

    fn copy_file_range(
        &self,
        cx: &mut Cx<u64>,
        id_in: NodeId,
        off_in: u64,
        id_out: NodeId,
        off_out: u64,
        len: u64,
        flags: i32,
        _: &Caller,
    ) -> Result<usize, Errno> {
        assert!(cx.contains(id_in) && cx.contains(id_out));
        Ok((off_in + off_out + len) as usize + flags as usize)
    }

    fn statfs(&self, c: &Caller) -> Result<StatFs, Errno> {
        Ok(StatFs { blocks: c.pid as u64, ..Default::default() })
    }
}

impl<S: DirSink> ReadDir<S> for Traced {
    fn readdir(
        &self,
        node: &u64,
        this: NodeId,
        parent: NodeId,
        handle: &u64,
        offset: u64,
        sink: &mut S,
        _: &Caller,
    ) -> Result<(), Errno> {
        if !sink.add(".", this, FileKind::Directory, offset + 1) {
            return Ok(());
        }
        if !sink.add("..", parent, FileKind::Directory, offset + 2) {
            return Ok(());
        }
        let name = format!("{node} {handle}");
        sink.add(&name, NodeId::from_ino(9), FileKind::Socket, offset + 3);
        Ok(())
    }
}

#[derive(Default)]
struct Names(Vec<(String, u64, u64)>);

impl DirSink for Names {
    fn add(&mut self, name: &str, id: NodeId, _: FileKind, next_offset: u64) -> bool {
        self.0.push((name.to_string(), id.ino(), next_offset));
        true
    }
}

fn traced() -> (Runtime<Traced>, Arc<AtomicUsize>) {
    let releases = Arc::new(AtomicUsize::new(0));
    (Runtime::new(Traced { releases: Arc::clone(&releases) }), releases)
}

#[test]
fn the_tree_is_populated() {
    let (mut rt, _) = traced();
    assert_eq!(rt.getattr(1, &caller()).unwrap().size, 100);
    assert_eq!(rt.getattr(2, &caller()).unwrap().size, 200);
    assert_eq!(rt.getattr(3, &caller()).unwrap().size, 300);
    assert_eq!(rt.counts(3), Some((1, 0, 0, 0)));
    assert_eq!(rt.ttl(), Duration::from_secs(1));
    assert_eq!(rt.negative_ttl(), Duration::from_secs(1));
}

#[test]
fn callbacks_get_their_node_and_arguments() {
    let (mut rt, _) = traced();
    let c = Caller { uid: 5, pid: 6, ..Default::default() };
    assert_eq!(rt.getattr(2, &c).unwrap().uid, 5);
    let set = SetAttr { size: Some(11), ..Default::default() };
    assert_eq!(rt.setattr(2, &set, &c).unwrap().size, 211);
    assert_eq!(rt.readlink(3, &c).unwrap(), "to 300");
    assert_eq!(rt.access(1, 4, &c).unwrap_err().raw(), 104);
    assert_eq!(rt.setxattr(1, "ab", b"xyz", 4, &c).unwrap_err().raw(), 234);
    assert_eq!(rt.getxattr(1, "ab", 3, &c).unwrap(), XattrReply::Size(105));
    assert_eq!(rt.listxattr(2, 4, &c).unwrap(), XattrReply::Size(204));
    assert_eq!(rt.removexattr(1, "abc", &c).unwrap_err().raw(), 3);
    assert_eq!(rt.statfs(99, &c).unwrap().blocks, 6);
    assert_eq!(rt.access(99, 4, &c).unwrap_err(), Errno::ENOENT);
    assert_eq!(rt.setattr(99, &set, &c).unwrap_err(), Errno::ENOENT);
    assert_eq!(rt.readlink(99, &c).unwrap_err(), Errno::ENOENT);
    assert_eq!(rt.setxattr(99, "ab", b"", 4, &c).unwrap_err(), Errno::ENOENT);
    assert_eq!(rt.getxattr(99, "ab", 3, &c).unwrap_err(), Errno::ENOENT);
    assert_eq!(rt.listxattr(99, 4, &c).unwrap_err(), Errno::ENOENT);
    assert_eq!(rt.removexattr(99, "abc", &c).unwrap_err(), Errno::ENOENT);
}

#[test]
fn callbacks_get_their_handle() {
    let (mut rt, releases) = traced();
    let c = caller();
    assert_eq!(rt.open(2, -1, &c).unwrap_err(), Errno::EPERM);
    assert_eq!(rt.counts(2), Some((1, 0, 0, 0)));
    let o = rt.open(2, 3, &c).unwrap();
    assert_eq!(o.fh, 1);
    assert!(o.hints.direct_io);
    assert_eq!(rt.lseek(1, o.fh, 5, 6, &c).unwrap(), 100 + 203 + 5 + 6);
    assert_eq!(rt.fallocate(1, o.fh, 1, 2, 3, &c).unwrap_err().raw(), 123);
    assert_eq!(rt.fsync(1, o.fh, true, &c).unwrap_err(), Errno::EROFS);
    assert!(rt.fsync(1, o.fh, false, &c).is_ok());
    assert_eq!(&*rt.read_data(1, o.fh, 0, 2, &c).unwrap(), &[203, 203, 203]);
    rt.release(2, o.fh, &c).unwrap();
    assert_eq!(releases.load(Ordering::SeqCst), 200 + 203);
    assert_eq!(rt.counts(2), Some((1, 0, 0, 0)));
}

#[test]
fn directory_handles_fall_back_to_the_default() {
    let (mut rt, releases) = traced();
    let c = caller();
    let d = rt.opendir(2, 0, &c).unwrap();
    assert!(d.hints.cache_readdir);
    assert_eq!(rt.fsyncdir(2, d.fh, false, &c).unwrap_err().raw(), 207);
    assert_eq!(rt.fsyncdir(2, 99, false, &c).unwrap_err().raw(), 0);
    assert_eq!(rt.fsyncdir(99, d.fh, false, &c).unwrap_err(), Errno::ENOENT);
    let mut names = Names::default();
    rt.readdir(2, d.fh, 10, &mut names, &c).unwrap();
    assert_eq!(
        names.0,
        vec![(".".to_string(), 2, 11), ("..".to_string(), 1, 12), ("200 207".to_string(), 9, 13)]
    );
    let mut names = Names::default();
    rt.readdir(3, 99, 0, &mut names, &c).unwrap();
    assert_eq!(names.0[1], ("..".to_string(), 2, 2));
    assert_eq!(names.0[2].0, "300 0");
    assert_eq!(rt.readdir(99, d.fh, 0, &mut names, &c).unwrap_err(), Errno::ENOENT);
    assert_eq!(rt.releasedir(2, d.fh, &c).unwrap_err(), Errno::ENXIO);
    assert_eq!(releases.load(Ordering::SeqCst), 207);
    assert_eq!(rt.counts(2), Some((1, 0, 0, 0)));
    assert_eq!(rt.releasedir(2, d.fh, &c).unwrap_err(), Errno::ENXIO);
    assert_eq!(releases.load(Ordering::SeqCst), 207);
    assert_eq!(rt.releasedir(99, d.fh, &c).unwrap_err(), Errno::ENOENT);
}

#[test]
fn new_nodes_become_entries() {
    let (mut rt, _) = traced();
    let c = caller();
    let d = rt.mkdir(1, "abc", 0o777, 0o22, &c).unwrap();
    assert_eq!((d.ino, d.generation, d.attr.size), (4, 0, 0o755 + 3));
    assert_eq!(rt.counts(4), Some((1, 1, 0, 0)));
    assert_eq!(rt.mknod(1, "n", 5, 6, 0, &c).unwrap().attr.size, 11);
    assert_eq!(rt.symlink(1, "s", "target", &c).unwrap().attr.size, 6);
    let l = rt.link(2, 1, "l", &c).unwrap();
    assert_eq!((l.ino, l.attr.size), (2, 200));
    assert_eq!(rt.counts(2), Some((2, 1, 0, 0)));
    assert_eq!(rt.link(99, 1, "l", &c).unwrap_err(), Errno::ENOENT);
}

#[test]
fn structural_callbacks_change_the_nodes() {
    let (mut rt, _) = traced();
    let c = caller();
    rt.rename(3, "a", 1, "b", 0, &c).unwrap();
    let mut names = Names::default();
    rt.readdir(3, 0, 0, &mut names, &c).unwrap();
    assert_eq!(names.0[1].1, 1);
    assert_eq!(rt.rename(3, "a", 1, "b", 1, &c).unwrap_err(), Errno::EINVAL);
    rt.rmdir(2, "x", &c).unwrap();
    assert_eq!(rt.counts(3), None);
    assert_eq!(rt.copy_file_range(1, 1, 2, 2, 3, 4, &c).unwrap(), 10);
}

#[test]
fn a_lease_stands_for_its_node() {
    let mut rt = fuse3::Runtime::new(Bare);
    let lease = rt.node(1).unwrap();
    assert_eq!(lease.id(), fuse3::NodeId::root());
    let () = *lease;
    assert_eq!(rt.counts(1), Some((1, 0, 0, 1)));
    rt.release_node(lease);
    assert_eq!(rt.counts(1), Some((1, 0, 0, 0)));
}

#[test]
fn a_lease_given_back_is_not_taken_in_again() {
    let mut rt = Runtime::new(Bare);
    let a = rt.node(1).unwrap();
    let b = rt.node(1).unwrap();
    rt.release_node(a);
    rt.reclaim();
    assert_eq!(rt.counts(1), Some((1, 0, 0, 1)));
    drop(b);
    assert_eq!(rt.counts(1), Some((1, 0, 0, 0)));
    rt.reclaim();
    assert_eq!(rt.counts(1), Some((1, 0, 0, 0)));
}

#[test]
fn a_lease_comes_back_to_the_runtime_that_gave_it() {
    let mut one = Runtime::new(Bare);
    let mut other = Runtime::new(Bare);
    let lease = one.node(1).unwrap();
    let _kept = other.node(1).unwrap();
    drop(lease);
    assert_eq!(other.counts(1), Some((1, 0, 0, 1)));
    assert_eq!(one.counts(1), Some((1, 0, 0, 0)));
    drop(one);
    drop(other);
}

#[derive(Default)]
struct Careless {
    kept: Mutex<Option<NodeRef<u8>>>,
}

impl NodeFs for Careless {
    type Node = u8;
    type Handle = ();
    type DirHandle = ();

    fn root(&mut self) -> u8 {
        0
    }

    fn getattr(&self, node: &u8, _: &Caller) -> Result<NodeAttr, Errno> {
        *self.kept.lock().unwrap() = None;
        Ok(NodeAttr { size: *node as u64, ..Default::default() })
    }

    fn lookup(
        &self,
        cx: &mut Cx<u8>,
        parent: NodeId,
        _: &str,
        _: &Caller,
    ) -> Result<Option<NodeId>, Errno> {
        let id = cx.insert(7, parent);
        *self.kept.lock().unwrap() = cx.get(id);
        cx.remove_link(id);
        Ok(Some(id))
    }

    fn mkdir(
        &self,
        cx: &mut Cx<u8>,
        parent: NodeId,
        _: &str,
        _: u32,
        _: u32,
        _: &Caller,
    ) -> Result<NodeId, Errno> {
        let _p = cx.get(parent).ok_or(Errno::ENOENT)?;
        Ok(cx.insert(1, parent))
    }

    fn rmdir(&self, cx: &mut Cx<u8>, _: NodeId, _: &str, _: &Caller) -> Result<(), Errno> {
        let dir = cx.get(NodeId::from_ino(2)).ok_or(Errno::ENOENT)?;
        assert_eq!(*dir, 1);
        cx.remove_link(dir.id());
        Ok(())
    }

    fn unlink(
        &self,
        cx: &mut Cx<u8>,
        parent: NodeId,
        _: &str,
        _: &Caller,
    ) -> Result<(), Errno> {
        let id = cx.insert(3, parent);
        let first = cx.get(id).ok_or(Errno::ENOENT)?;
        let second = cx.get(id).ok_or(Errno::ENOENT)?;
        assert_eq!(cx.counts(id), Some((1, 0, 0, 2)));
        drop(first);
        assert_eq!(cx.counts(id), Some((1, 0, 0, 1)));
        drop(second);
        cx.remove_link(id);
        assert!(!cx.contains(id));
        assert_eq!(cx.insert(4, parent), id);
        let last = cx.get(id).ok_or(Errno::ENOENT)?;
        cx.remove_link(id);
        assert!(cx.contains(id));
        drop(last);
        assert!(!cx.contains(id));
        Ok(())
    }
}

#[test]
fn a_callback_may_drop_its_leases() {
    let mut rt = Runtime::new(Careless::default());
    let e = rt.mkdir(1, "d", 0, 0, &caller()).unwrap();
    assert_eq!(rt.counts(1), Some((1, 0, 0, 0)));
    rt.forget(e.ino, 1);
    rt.rmdir(1, "d", &caller()).unwrap();
    assert_eq!(rt.counts(2), None);
    assert_eq!(rt.mkdir(1, "e", 0, 0, &caller()).unwrap().generation, 1);
}

#[test]
fn a_lease_that_a_callback_drops_ends_in_it() {
    let mut rt = Runtime::new(Careless::default());
    rt.unlink(1, "x", &caller()).unwrap();
    let e = rt.mkdir(1, "d", 0, 0, &caller()).unwrap();
    assert_eq!((e.ino, e.generation), (2, 2));
}

#[test]
fn a_node_stays_while_its_entry_is_made() {
    let mut rt = Runtime::new(Careless::default());
    match rt.lookup(1, "x", &caller()).unwrap() {
        LookupReply::Found(e) => assert_eq!((e.ino, e.attr.size), (2, 7)),
        LookupReply::Negative => panic!("the node is there"),
    }
    assert_eq!(rt.counts(2), Some((0, 1, 0, 0)));
    rt.forget(2, 1);
    assert_eq!(rt.getattr(2, &caller()).unwrap_err(), Errno::ENOENT);
}

#[test]
fn a_request_finds_no_node_of_a_dropped_lease() {
    let mut rt = Runtime::new(Mini);
    let (e, o) = rt.create(1, "f", 0, 0, 0, &caller()).unwrap();
    let lease = rt.node(e.ino).unwrap();
    rt.unlink(1, "f", &caller()).unwrap();
    rt.forget(e.ino, 1);
    rt.release(e.ino, o.fh, &caller()).unwrap();
    assert!(rt.getattr(e.ino, &caller()).is_ok());
    drop(lease);
    assert_eq!(rt.getattr(e.ino, &caller()).unwrap_err(), Errno::ENOENT);
    assert_eq!(rt.open(e.ino, 0, &caller()).unwrap_err(), Errno::ENOENT);
    assert!(rt.node(e.ino).is_err());
}

#[test]
fn settings_are_kept() {
    let (mut rt, _) = traced();
    rt.set_ttl(Duration::from_millis(10));
    rt.set_negative_ttl(Duration::ZERO);
    assert_eq!(rt.ttl(), Duration::from_millis(10));
    assert_eq!(rt.negative_ttl(), Duration::ZERO);
    let mut conn = ConnInfo::default();
    rt.init(&mut conn);
    assert_eq!((conn.max_write, conn.parallel_directory_operations), (2, false));
    rt.set_parallel_dirops(true);
    rt.init(&mut conn);
    assert_eq!((conn.max_write, conn.parallel_directory_operations), (1, true));
}
