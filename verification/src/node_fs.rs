//! The node-based filesystem interface.

use std::borrow::Cow;

use vstd::prelude::*;

use crate::attr::{NodeAttr, SetAttr, StatFs};
use crate::conn::{Caller, ConnInfo};
use crate::errno::Errno;
use crate::filesystem;
use crate::node::{DirSink, NodeId, XattrReply};
use crate::open::{OpenHints, Opened};
use crate::table::Cx;

verus! {

/// The node-based FUSE filesystem interface.
///
/// The runtime owns node identity, lifetime (lookup/link/open refcounts and
/// deferred deletion), and the file-handle table. Filesystem authors work
/// with their own [`NodeFs::Node`] and [`NodeFs::Handle`] payloads:
///
/// * Operations on a single existing node receive the node directly (the
///   runtime resolves it, replying `ENOENT` if it is gone).
/// * I/O operations additionally receive the handle (`EBADF` if it is gone).
/// * Structural / naming operations receive a [`Cx`] to resolve, insert, and
///   link other nodes.
///
/// Every method but [`NodeFs::root`] and [`NodeFs::getattr`] has a default
/// (fallible ones default to `Err(ENOSYS)`; no-op-style ones to `Ok`), so a
/// filesystem overrides only what it supports. Node and handle payloads are
/// shared, so what a callback changes in them it keeps behind interior
/// mutability.
pub trait NodeFs: Sized {
    /// Per-node data owned and stored by the runtime.
    type Node;

    /// Per-open-file data. Use `()` if the filesystem is stateless per open.
    type Handle: Default;

    /// Per-open-directory data. Use `()` if not needed.
    type DirHandle: Default;

    /// Builds the payload for the root directory. Called once, when the
    /// runtime is constructed.
    fn root(&mut self) -> Self::Node;

    /// Populates the initial tree beneath the (already-inserted) root, for
    /// filesystems with statically-known contents. Called once, right after
    /// [`NodeFs::root`], with a [`Cx`] so children can be inserted and
    /// recorded. Default: no-op (an empty root).
    fn populate(&mut self, cx: &mut Cx<Self::Node>)
        default_ensures
            *final(self) == *old(self),
            *final(cx) == *old(cx),
    {
    }

    /// Called once when libfuse establishes communication with the kernel.
    fn init(&self, conn: &mut ConnInfo)
        default_ensures
            *final(conn) == *old(conn),
    {
    }

    /// Called on filesystem exit.
    fn destroy(&self) {
    }

    /// Returns the attributes of `node`, including its current link count.
    fn getattr(&self, node: &Self::Node, caller: &Caller) -> Result<NodeAttr, Errno>;

    /// Applies the `Some` fields of `set` to `node`, returning the resulting
    /// attributes.
    fn setattr(
        &self,
        node: &Self::Node,
        set: &SetAttr,
        caller: &Caller,
    ) -> (r: Result<NodeAttr, Errno>)
        default_ensures
            r == Err::<NodeAttr, Errno>(Errno::ENOSYS),
    {
        Err(Errno::ENOSYS)
    }

    /// Looks up `name` in directory `parent`. Return `Ok(Some(id))` for a
    /// hit, `Ok(None)` to populate the kernel's negative-lookup cache, or
    /// `Err` for a hard failure.
    fn lookup(
        &self,
        cx: &mut Cx<Self::Node>,
        parent: NodeId,
        name: &str,
        caller: &Caller,
    ) -> (r: Result<Option<NodeId>, Errno>)
        default_ensures
            r == Err::<Option<NodeId>, Errno>(Errno::ENOSYS),
            *final(cx) == *old(cx),
    {
        Err(Errno::ENOSYS)
    }

    /// Reads the target of the symbolic link `node`.
    fn readlink(&self, node: &Self::Node, caller: &Caller) -> (r: Result<String, Errno>)
        default_ensures
            r == Err::<String, Errno>(Errno::ENOSYS),
    {
        Err(Errno::ENOSYS)
    }

    /// Creates a non-directory, non-symlink node named `name` in `parent`.
    /// Insert it via `cx.insert(..)`, record its [`NodeId`] in the parent,
    /// and return the id.
    fn mknod(
        &self,
        cx: &mut Cx<Self::Node>,
        parent: NodeId,
        name: &str,
        mode: u32,
        rdev: u32,
        umask: u32,
        caller: &Caller,
    ) -> (r: Result<NodeId, Errno>)
        default_ensures
            r == Err::<NodeId, Errno>(Errno::ENOSYS),
            *final(cx) == *old(cx),
    {
        Err(Errno::ENOSYS)
    }

    /// Creates a directory named `name` in `parent`.
    fn mkdir(
        &self,
        cx: &mut Cx<Self::Node>,
        parent: NodeId,
        name: &str,
        mode: u32,
        umask: u32,
        caller: &Caller,
    ) -> (r: Result<NodeId, Errno>)
        default_ensures
            r == Err::<NodeId, Errno>(Errno::ENOSYS),
            *final(cx) == *old(cx),
    {
        Err(Errno::ENOSYS)
    }

    /// Creates a symbolic link named `name` in `parent` pointing at `target`.
    fn symlink(
        &self,
        cx: &mut Cx<Self::Node>,
        parent: NodeId,
        name: &str,
        target: &str,
        caller: &Caller,
    ) -> (r: Result<NodeId, Errno>)
        default_ensures
            r == Err::<NodeId, Errno>(Errno::ENOSYS),
            *final(cx) == *old(cx),
    {
        Err(Errno::ENOSYS)
    }

    /// Removes the non-directory entry `name` from `parent`. Remove the name
    /// from the parent and call `cx.remove_link(id)`; the runtime frees the
    /// node once it is also un-looked-up and closed.
    fn unlink(
        &self,
        cx: &mut Cx<Self::Node>,
        parent: NodeId,
        name: &str,
        caller: &Caller,
    ) -> (r: Result<(), Errno>)
        default_ensures
            r == Err::<(), Errno>(Errno::ENOSYS),
            *final(cx) == *old(cx),
    {
        Err(Errno::ENOSYS)
    }

    /// Removes the empty directory `name` from `parent`.
    fn rmdir(
        &self,
        cx: &mut Cx<Self::Node>,
        parent: NodeId,
        name: &str,
        caller: &Caller,
    ) -> (r: Result<(), Errno>)
        default_ensures
            r == Err::<(), Errno>(Errno::ENOSYS),
            *final(cx) == *old(cx),
    {
        Err(Errno::ENOSYS)
    }

    /// Renames `name` in `parent` to `newname` in `newparent`.
    fn rename(
        &self,
        cx: &mut Cx<Self::Node>,
        parent: NodeId,
        name: &str,
        newparent: NodeId,
        newname: &str,
        flags: u32,
        caller: &Caller,
    ) -> (r: Result<(), Errno>)
        default_ensures
            r == Err::<(), Errno>(Errno::ENOSYS),
            *final(cx) == *old(cx),
    {
        Err(Errno::ENOSYS)
    }

    /// Creates a hard link to `id` named `newname` in `newparent`. Record
    /// the name and call `cx.add_link(id)`.
    fn link(
        &self,
        cx: &mut Cx<Self::Node>,
        id: NodeId,
        newparent: NodeId,
        newname: &str,
        caller: &Caller,
    ) -> (r: Result<NodeId, Errno>)
        default_ensures
            r == Err::<NodeId, Errno>(Errno::ENOSYS),
            *final(cx) == *old(cx),
    {
        Err(Errno::ENOSYS)
    }

    /// Opens `node`, returning the filesystem's handle object.
    fn open(
        &self,
        node: &Self::Node,
        flags: i32,
        caller: &Caller,
    ) -> (r: Result<Opened<Self::Handle>, Errno>)
        default_ensures
            r matches Ok(opened) && opened.hints == OpenHints::off() && call_ensures(
                <Self::Handle as Default>::default,
                (),
                opened.handle,
            ),
    {
        Ok(Opened::new(Self::Handle::default()))
    }

    /// Reads up to `size` bytes from `node` at `offset`. The returned data
    /// may borrow from `self`/`node`/`handle` for a zero-copy reply (they all
    /// share the lifetime `'a`).
    fn read<'a>(
        &'a self,
        node: &'a Self::Node,
        handle: &'a Self::Handle,
        offset: u64,
        size: usize,
        caller: &Caller,
    ) -> (r: Result<Cow<'a, [u8]>, Errno>)
        default_ensures
            r is Err && r->Err_0 == Errno::ENOSYS,
    {
        Err(Errno::ENOSYS)
    }

    /// Writes `data` to `node` at `offset`, returning the count written.
    fn write(
        &self,
        node: &Self::Node,
        handle: &Self::Handle,
        data: &[u8],
        offset: u64,
        caller: &Caller,
    ) -> (r: Result<usize, Errno>)
        default_ensures
            r == Err::<usize, Errno>(Errno::ENOSYS),
    {
        Err(Errno::ENOSYS)
    }

    /// Called on each `close()` of an open file.
    fn flush(
        &self,
        node: &Self::Node,
        handle: &Self::Handle,
        caller: &Caller,
    ) -> (r: Result<(), Errno>)
        default_ensures
            r == Ok::<(), Errno>(()),
    {
        Ok(())
    }

    /// Called when the last reference to an open file is dropped; consumes
    /// the handle.
    fn release(
        &self,
        node: &Self::Node,
        handle: Self::Handle,
        caller: &Caller,
    ) -> (r: Result<(), Errno>)
        default_ensures
            r == Ok::<(), Errno>(()),
    {
        Ok(())
    }

    /// Flushes file contents (and metadata unless `datasync`).
    fn fsync(
        &self,
        node: &Self::Node,
        handle: &Self::Handle,
        datasync: bool,
        caller: &Caller,
    ) -> (r: Result<(), Errno>)
        default_ensures
            r == Ok::<(), Errno>(()),
    {
        Ok(())
    }

    /// Opens the directory `node`.
    fn opendir(
        &self,
        node: &Self::Node,
        flags: i32,
        caller: &Caller,
    ) -> (r: Result<Opened<Self::DirHandle>, Errno>)
        default_ensures
            r matches Ok(opened) && opened.hints == OpenHints::off() && call_ensures(
                <Self::DirHandle as Default>::default,
                (),
                opened.handle,
            ),
    {
        Ok(Opened::new(Self::DirHandle::default()))
    }

    /// Releases a directory handle; consumes it.
    fn releasedir(
        &self,
        node: &Self::Node,
        handle: Self::DirHandle,
        caller: &Caller,
    ) -> (r: Result<(), Errno>)
        default_ensures
            r == Ok::<(), Errno>(()),
    {
        Ok(())
    }

    /// Flushes directory contents.
    fn fsyncdir(
        &self,
        node: &Self::Node,
        handle: &Self::DirHandle,
        datasync: bool,
        caller: &Caller,
    ) -> (r: Result<(), Errno>)
        default_ensures
            r == Ok::<(), Errno>(()),
    {
        Ok(())
    }

    /// Returns filesystem-wide statistics. Defaults to a minimal-but-valid
    /// value (as libfuse does when the callback is unset).
    fn statfs(&self, caller: &Caller) -> (r: Result<StatFs, Errno>)
        default_ensures
            r == Ok::<StatFs, Errno>(StatFs::minimal()),
    {
        Ok(StatFs::minimal_default())
    }

    /// Sets extended attribute `name` on `node`.
    fn setxattr(
        &self,
        node: &Self::Node,
        name: &str,
        value: &[u8],
        flags: i32,
        caller: &Caller,
    ) -> (r: Result<(), Errno>)
        default_ensures
            r == Err::<(), Errno>(Errno::ENOSYS),
    {
        Err(Errno::ENOSYS)
    }

    /// Returns extended attribute `name` on `node`. A `size` of zero is a
    /// length query (return [`XattrReply::Size`]).
    fn getxattr(
        &self,
        node: &Self::Node,
        name: &str,
        size: usize,
        caller: &Caller,
    ) -> (r: Result<XattrReply, Errno>)
        default_ensures
            r == Err::<XattrReply, Errno>(Errno::ENOSYS),
    {
        Err(Errno::ENOSYS)
    }

    /// Returns the NUL-separated extended attribute names on `node`. Same
    /// size-query protocol as [`NodeFs::getxattr`].
    fn listxattr(
        &self,
        node: &Self::Node,
        size: usize,
        caller: &Caller,
    ) -> (r: Result<XattrReply, Errno>)
        default_ensures
            r == Err::<XattrReply, Errno>(Errno::ENOSYS),
    {
        Err(Errno::ENOSYS)
    }

    /// Removes extended attribute `name` from `node`.
    fn removexattr(&self, node: &Self::Node, name: &str, caller: &Caller) -> (r: Result<(), Errno>)
        default_ensures
            r == Err::<(), Errno>(Errno::ENOSYS),
    {
        Err(Errno::ENOSYS)
    }

    /// Checks access to `node` per the `access(2)` `mask`.
    fn access(&self, node: &Self::Node, mask: i32, caller: &Caller) -> (r: Result<(), Errno>)
        default_ensures
            r == Ok::<(), Errno>(()),
    {
        Ok(())
    }

    /// Atomically creates and opens a regular file named `name` in `parent`.
    fn create(
        &self,
        cx: &mut Cx<Self::Node>,
        parent: NodeId,
        name: &str,
        mode: u32,
        umask: u32,
        flags: i32,
        caller: &Caller,
    ) -> (r: Result<(NodeId, Opened<Self::Handle>), Errno>)
        default_ensures
            r is Err && r->Err_0 == Errno::ENOSYS,
            *final(cx) == *old(cx),
    {
        Err(Errno::ENOSYS)
    }

    /// Pre-allocates/punches `length` bytes at `offset` in `node`.
    fn fallocate(
        &self,
        node: &Self::Node,
        handle: &Self::Handle,
        mode: i32,
        offset: u64,
        length: u64,
        caller: &Caller,
    ) -> (r: Result<(), Errno>)
        default_ensures
            r == Err::<(), Errno>(Errno::ENOSYS),
    {
        Err(Errno::ENOSYS)
    }

    /// Finds the next data region or hole at or after `offset`.
    fn lseek(
        &self,
        node: &Self::Node,
        handle: &Self::Handle,
        offset: u64,
        whence: i32,
        caller: &Caller,
    ) -> (r: Result<u64, Errno>)
        default_ensures
            r == Err::<u64, Errno>(Errno::ENOSYS),
    {
        Err(Errno::ENOSYS)
    }

    /// Copies `len` bytes between two nodes (resolvable via `cx`).
    fn copy_file_range(
        &self,
        cx: &mut Cx<Self::Node>,
        id_in: NodeId,
        off_in: u64,
        id_out: NodeId,
        off_out: u64,
        len: u64,
        flags: i32,
        caller: &Caller,
    ) -> (r: Result<usize, Errno>)
        default_ensures
            r == Err::<usize, Errno>(Errno::ENOSYS),
            *final(cx) == *old(cx),
    {
        Err(Errno::ENOSYS)
    }
}

/// A filesystem that lists its directories. The sink's type stands at the
/// trait, so that an implementation for every sink leaves the choice of it to
/// the session.
pub trait ReadDir<S: DirSink>: NodeFs {
    /// Emits the entries of directory `node` into `sink`, starting at
    /// `offset`. `this`/`parent` are provided so the filesystem can emit
    /// `.` and `..` correctly. Push each entry with a strictly increasing
    /// `next_offset` cookie and stop as soon as [`DirSink::add`] returns
    /// `false`.
    fn readdir(
        &self,
        node: &Self::Node,
        this: NodeId,
        parent: NodeId,
        handle: &Self::DirHandle,
        offset: u64,
        sink: &mut S,
        caller: &Caller,
    ) -> (r: Result<(), Errno>)
        default_ensures
            r == Err::<(), Errno>(Errno::ENOSYS),
            *final(sink) == *old(sink),
    {
        Err(Errno::ENOSYS)
    }
}

/// A filesystem that overrides nothing: a root whose attributes are not told.
pub struct Bare;

impl NodeFs for Bare {
    type Node = ();

    type Handle = u8;

    type DirHandle = u8;

    fn root(&mut self) {
    }

    fn getattr(&self, node: &(), caller: &Caller) -> (r: Result<NodeAttr, Errno>)
        ensures
            r == Err::<NodeAttr, Errno>(Errno::ENOSYS),
    {
        Err(Errno::ENOSYS)
    }
}

impl<S: DirSink> ReadDir<S> for Bare {

}

/// A directory that a filesystem does not list is answered with `ENOSYS`, and nothing
/// is listed.
pub proof fn law_unlisted_directory_is_not_supported<S: DirSink>(
    node: &(),
    this: NodeId,
    parent: NodeId,
    handle: &u8,
    offset: u64,
    caller: &Caller,
    r: Result<(), Errno>,
)
    ensures
        forall|fs: &Bare, sink: &mut S| #[trigger]
            call_ensures(
                <Bare as ReadDir<S>>::readdir,
                (fs, node, this, parent, handle, offset, sink, caller),
                r,
            ) ==> (r matches Err(e) && e is ENOSYS) && *final(sink) == *sink,
{
}

/// What a filesystem does not override and cannot do without is answered with
/// `ENOSYS`, whatever was asked, and changes nothing.
pub proof fn law_what_is_left_out_is_not_supported()
    ensures
        forall|
            fs: &Bare,
            node: &(),
            set: &SetAttr,
            caller: &Caller,
            r: Result<NodeAttr, Errno>,
        | #[trigger]
            call_ensures(
                <Bare as NodeFs>::setattr,
                (fs, node, set, caller),
                r,
            ) ==> (r matches Err(e) && e is ENOSYS),
        forall|
            fs: &Bare,
            cx: &mut Cx<()>,
            parent: NodeId,
            name: &str,
            caller: &Caller,
            r: Result<Option<NodeId>, Errno>,
        | #[trigger]
            call_ensures(
                <Bare as NodeFs>::lookup,
                (fs, cx, parent, name, caller),
                r,
            ) ==> (r matches Err(e) && e is ENOSYS) && *final(cx) == *cx,
        forall|fs: &Bare, node: &(), caller: &Caller, r: Result<String, Errno>| #[trigger]
            call_ensures(
                <Bare as NodeFs>::readlink,
                (fs, node, caller),
                r,
            ) ==> (r matches Err(e) && e is ENOSYS),
        forall|
            fs: &Bare,
            cx: &mut Cx<()>,
            parent: NodeId,
            name: &str,
            mode: u32,
            rdev: u32,
            umask: u32,
            caller: &Caller,
            r: Result<NodeId, Errno>,
        | #[trigger]
            call_ensures(
                <Bare as NodeFs>::mknod,
                (fs, cx, parent, name, mode, rdev, umask, caller),
                r,
            ) ==> (r matches Err(e) && e is ENOSYS) && *final(cx) == *cx,
        forall|
            fs: &Bare,
            cx: &mut Cx<()>,
            parent: NodeId,
            name: &str,
            mode: u32,
            umask: u32,
            caller: &Caller,
            r: Result<NodeId, Errno>,
        | #[trigger]
            call_ensures(
                <Bare as NodeFs>::mkdir,
                (fs, cx, parent, name, mode, umask, caller),
                r,
            ) ==> (r matches Err(e) && e is ENOSYS) && *final(cx) == *cx,
        forall|
            fs: &Bare,
            cx: &mut Cx<()>,
            parent: NodeId,
            name: &str,
            target: &str,
            caller: &Caller,
            r: Result<NodeId, Errno>,
        | #[trigger]
            call_ensures(
                <Bare as NodeFs>::symlink,
                (fs, cx, parent, name, target, caller),
                r,
            ) ==> (r matches Err(e) && e is ENOSYS) && *final(cx) == *cx,
        forall|
            fs: &Bare,
            cx: &mut Cx<()>,
            parent: NodeId,
            name: &str,
            caller: &Caller,
            r: Result<(), Errno>,
        | #[trigger]
            call_ensures(
                <Bare as NodeFs>::unlink,
                (fs, cx, parent, name, caller),
                r,
            ) ==> (r matches Err(e) && e is ENOSYS) && *final(cx) == *cx,
        forall|
            fs: &Bare,
            cx: &mut Cx<()>,
            parent: NodeId,
            name: &str,
            caller: &Caller,
            r: Result<(), Errno>,
        | #[trigger]
            call_ensures(
                <Bare as NodeFs>::rmdir,
                (fs, cx, parent, name, caller),
                r,
            ) ==> (r matches Err(e) && e is ENOSYS) && *final(cx) == *cx,
        forall|
            fs: &Bare,
            cx: &mut Cx<()>,
            parent: NodeId,
            name: &str,
            newparent: NodeId,
            newname: &str,
            flags: u32,
            caller: &Caller,
            r: Result<(), Errno>,
        | #[trigger]
            call_ensures(
                <Bare as NodeFs>::rename,
                (fs, cx, parent, name, newparent, newname, flags, caller),
                r,
            ) ==> (r matches Err(e) && e is ENOSYS) && *final(cx) == *cx,
        forall|
            fs: &Bare,
            cx: &mut Cx<()>,
            id: NodeId,
            newparent: NodeId,
            newname: &str,
            caller: &Caller,
            r: Result<NodeId, Errno>,
        | #[trigger]
            call_ensures(
                <Bare as NodeFs>::link,
                (fs, cx, id, newparent, newname, caller),
                r,
            ) ==> (r matches Err(e) && e is ENOSYS) && *final(cx) == *cx,
        forall|
            fs: &Bare,
            node: &(),
            handle: &u8,
            offset: u64,
            size: usize,
            caller: &Caller,
            r: Result<Cow<'_, [u8]>, Errno>,
        | #[trigger]
            call_ensures(
                <Bare as NodeFs>::read,
                (fs, node, handle, offset, size, caller),
                r,
            ) ==> (r matches Err(e) && e is ENOSYS),
        forall|
            fs: &Bare,
            node: &(),
            handle: &u8,
            data: &[u8],
            offset: u64,
            caller: &Caller,
            r: Result<usize, Errno>,
        | #[trigger]
            call_ensures(
                <Bare as NodeFs>::write,
                (fs, node, handle, data, offset, caller),
                r,
            ) ==> (r matches Err(e) && e is ENOSYS),
        forall|
            fs: &Bare,
            node: &(),
            name: &str,
            value: &[u8],
            flags: i32,
            caller: &Caller,
            r: Result<(), Errno>,
        | #[trigger]
            call_ensures(
                <Bare as NodeFs>::setxattr,
                (fs, node, name, value, flags, caller),
                r,
            ) ==> (r matches Err(e) && e is ENOSYS),
        forall|
            fs: &Bare,
            node: &(),
            name: &str,
            size: usize,
            caller: &Caller,
            r: Result<XattrReply, Errno>,
        | #[trigger]
            call_ensures(
                <Bare as NodeFs>::getxattr,
                (fs, node, name, size, caller),
                r,
            ) ==> (r matches Err(e) && e is ENOSYS),
        forall|
            fs: &Bare,
            node: &(),
            size: usize,
            caller: &Caller,
            r: Result<XattrReply, Errno>,
        | #[trigger]
            call_ensures(
                <Bare as NodeFs>::listxattr,
                (fs, node, size, caller),
                r,
            ) ==> (r matches Err(e) && e is ENOSYS),
        forall|fs: &Bare, node: &(), name: &str, caller: &Caller, r: Result<(), Errno>| #[trigger]
            call_ensures(
                <Bare as NodeFs>::removexattr,
                (fs, node, name, caller),
                r,
            ) ==> (r matches Err(e) && e is ENOSYS),
        forall|
            fs: &Bare,
            cx: &mut Cx<()>,
            parent: NodeId,
            name: &str,
            mode: u32,
            umask: u32,
            flags: i32,
            caller: &Caller,
            r: Result<(NodeId, Opened<u8>), Errno>,
        | #[trigger]
            call_ensures(
                <Bare as NodeFs>::create,
                (fs, cx, parent, name, mode, umask, flags, caller),
                r,
            ) ==> (r matches Err(e) && e is ENOSYS) && *final(cx) == *cx,
        forall|
            fs: &Bare,
            node: &(),
            handle: &u8,
            mode: i32,
            offset: u64,
            length: u64,
            caller: &Caller,
            r: Result<(), Errno>,
        | #[trigger]
            call_ensures(
                <Bare as NodeFs>::fallocate,
                (fs, node, handle, mode, offset, length, caller),
                r,
            ) ==> (r matches Err(e) && e is ENOSYS),
        forall|
            fs: &Bare,
            node: &(),
            handle: &u8,
            offset: u64,
            whence: i32,
            caller: &Caller,
            r: Result<u64, Errno>,
        | #[trigger]
            call_ensures(
                <Bare as NodeFs>::lseek,
                (fs, node, handle, offset, whence, caller),
                r,
            ) ==> (r matches Err(e) && e is ENOSYS),
        forall|
            fs: &Bare,
            cx: &mut Cx<()>,
            id_in: NodeId,
            off_in: u64,
            id_out: NodeId,
            off_out: u64,
            len: u64,
            flags: i32,
            caller: &Caller,
            r: Result<usize, Errno>,
        | #[trigger]
            call_ensures(
                <Bare as NodeFs>::copy_file_range,
                (fs, cx, id_in, off_in, id_out, off_out, len, flags, caller),
                r,
            ) ==> (r matches Err(e) && e is ENOSYS) && *final(cx) == *cx,
{
}

/// What a filesystem does not override and can do without succeeds, whatever was
/// asked.
pub proof fn law_what_is_left_out_may_succeed()
    ensures
        forall|
            fs: &Bare,
            node: &(),
            flags: i32,
            caller: &Caller,
            r: Result<Opened<u8>, Errno>,
        | #[trigger]
            call_ensures(
                <Bare as NodeFs>::open,
                (fs, node, flags, caller),
                r,
            ) ==> (r matches Ok(o) && filesystem::plain(o.hints)),
        forall|fs: &Bare, node: &(), handle: &u8, caller: &Caller, r: Result<(), Errno>| #[trigger]
            call_ensures(
                <Bare as NodeFs>::flush,
                (fs, node, handle, caller),
                r,
            ) ==> r is Ok,
        forall|fs: &Bare, node: &(), handle: u8, caller: &Caller, r: Result<(), Errno>| #[trigger]
            call_ensures(
                <Bare as NodeFs>::release,
                (fs, node, handle, caller),
                r,
            ) ==> r is Ok,
        forall|
            fs: &Bare,
            node: &(),
            handle: &u8,
            datasync: bool,
            caller: &Caller,
            r: Result<(), Errno>,
        | #[trigger]
            call_ensures(
                <Bare as NodeFs>::fsync,
                (fs, node, handle, datasync, caller),
                r,
            ) ==> r is Ok,
        forall|
            fs: &Bare,
            node: &(),
            flags: i32,
            caller: &Caller,
            r: Result<Opened<u8>, Errno>,
        | #[trigger]
            call_ensures(
                <Bare as NodeFs>::opendir,
                (fs, node, flags, caller),
                r,
            ) ==> (r matches Ok(o) && filesystem::plain(o.hints)),
        forall|fs: &Bare, node: &(), handle: u8, caller: &Caller, r: Result<(), Errno>| #[trigger]
            call_ensures(
                <Bare as NodeFs>::releasedir,
                (fs, node, handle, caller),
                r,
            ) ==> r is Ok,
        forall|
            fs: &Bare,
            node: &(),
            handle: &u8,
            datasync: bool,
            caller: &Caller,
            r: Result<(), Errno>,
        | #[trigger]
            call_ensures(
                <Bare as NodeFs>::fsyncdir,
                (fs, node, handle, datasync, caller),
                r,
            ) ==> r is Ok,
        forall|fs: &Bare, caller: &Caller, r: Result<StatFs, Errno>| #[trigger]
            call_ensures(
                <Bare as NodeFs>::statfs,
                (fs, caller),
                r,
            ) ==> (r matches Ok(s) && filesystem::sparse(s)),
        forall|fs: &Bare, node: &(), mask: i32, caller: &Caller, r: Result<(), Errno>| #[trigger]
            call_ensures(
                <Bare as NodeFs>::access,
                (fs, node, mask, caller),
                r,
            ) ==> r is Ok,
        forall|fs: &Bare, conn: &mut ConnInfo| #[trigger]
            call_ensures(<Bare as NodeFs>::init, (fs, conn), ()) ==> *final(conn) == *conn,
        forall|fs: &mut Bare, cx: &mut Cx<()>| #[trigger]
            call_ensures(<Bare as NodeFs>::populate, (fs, cx), ()) ==> *final(cx) == *cx
                && *final(fs) == *fs,
{
}

} // verus!
