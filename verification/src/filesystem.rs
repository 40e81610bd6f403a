//! The `Filesystem` trait: the synchronous, single-threaded interface that
//! addresses files by inode number and handle number.
//!
//! Every method has a default implementation so that a filesystem only has
//! to override the operations it actually supports. Fallible operations
//! default to `Err(Errno::ENOSYS)`; operations libfuse treats as
//! successful no-ops when the corresponding callback is left unset (init,
//! destroy, forget, open, opendir, release, releasedir, flush, fsync,
//! fsyncdir, access) default to their `Ok`/no-op equivalent here too.
//!
//! All methods take `&mut self`: callbacks are never invoked concurrently and
//! no `Send`/`Sync` bound is required.

use std::borrow::Cow;
use std::time::Duration;

use vstd::prelude::*;

use crate::attr::{Entry, FileAttr, SetAttrs, StatFs};
use crate::conn::{ConnInfo, Request};
use crate::dirbuf::{DirBuffer, DirPlusBuffer, DirRecord};
use crate::errno::Errno;
use crate::file_type::Inode;
use crate::open::{FileInfo, OpenHints, OpenReply};

verus! {

/// The low-level FUSE filesystem interface.
///
/// See the module documentation for the default-implementation policy. What asks
/// whether a request was interrupted has a type of its own at each session; it
/// stands at the trait, and an implementation covers all of them.
pub trait Filesystem<I: Fn() -> bool>: Sized {
    /// Called once when libfuse establishes communication with the kernel.
    /// `conn` may be inspected/adjusted (e.g. `max_write`, `max_readahead`).
    /// There is no reply.
    fn init(&mut self, conn: &mut ConnInfo)
        default_ensures
            *final(self) == *old(self),
            *final(conn) == *old(conn),
    {
    }

    /// Called on filesystem exit, after the kernel connection may already
    /// be gone. There is no reply.
    fn destroy(&mut self)
        default_ensures
            *final(self) == *old(self),
    {
    }

    /// Looks up a directory entry by name in `parent` and returns its
    /// attributes.
    fn lookup(&mut self, req: &Request<I>, parent: Inode, name: &str) -> (r: Result<Entry, Errno>)
        default_ensures
            r == Err::<Entry, Errno>(Errno::ENOSYS),
            *final(self) == *old(self),
    {
        Err(Errno::ENOSYS)
    }

    /// Called when the kernel drops `nlookup` references to `ino` from its
    /// internal cache (also serves `forget_multi`, which calls this once
    /// per inode in the batch). There is no reply.
    fn forget(&mut self, ino: Inode, nlookup: u64)
        default_ensures
            *final(self) == *old(self),
    {
    }

    /// Gets the attributes of `ino`. `fh` is `Some` if the request arrived
    /// via an already-open file handle. Returns the attributes plus how
    /// long the kernel may cache them.
    fn getattr(
        &mut self,
        req: &Request<I>,
        ino: Inode,
        fh: Option<u64>,
    ) -> (r: Result<(FileAttr, Duration), Errno>)
        default_ensures
            r == Err::<(FileAttr, Duration), Errno>(Errno::ENOSYS),
            *final(self) == *old(self),
    {
        Err(Errno::ENOSYS)
    }

    /// Sets attributes of `ino` as described by `attrs` (only the `Some`
    /// fields should be applied). `fh` is `Some` if this originated from an
    /// `ftruncate()` on an open file handle. Returns the resulting
    /// attributes plus their cache timeout.
    fn setattr(
        &mut self,
        req: &Request<I>,
        ino: Inode,
        attrs: &SetAttrs,
        fh: Option<u64>,
    ) -> (r: Result<(FileAttr, Duration), Errno>)
        default_ensures
            r == Err::<(FileAttr, Duration), Errno>(Errno::ENOSYS),
            *final(self) == *old(self),
    {
        Err(Errno::ENOSYS)
    }

    /// Reads the target of the symbolic link `ino`.
    fn readlink(&mut self, req: &Request<I>, ino: Inode) -> (r: Result<String, Errno>)
        default_ensures
            r is Err && r->Err_0 == Errno::ENOSYS,
            *final(self) == *old(self),
    {
        Err(Errno::ENOSYS)
    }

    /// Creates a non-directory, non-symlink filesystem node (regular file,
    /// device, fifo, or socket) named `name` in `parent`.
    fn mknod(
        &mut self,
        req: &Request<I>,
        parent: Inode,
        name: &str,
        mode: u32,
        rdev: u32,
    ) -> (r: Result<Entry, Errno>)
        default_ensures
            r == Err::<Entry, Errno>(Errno::ENOSYS),
            *final(self) == *old(self),
    {
        Err(Errno::ENOSYS)
    }

    /// Creates a directory named `name` in `parent`.
    fn mkdir(
        &mut self,
        req: &Request<I>,
        parent: Inode,
        name: &str,
        mode: u32,
    ) -> (r: Result<Entry, Errno>)
        default_ensures
            r == Err::<Entry, Errno>(Errno::ENOSYS),
            *final(self) == *old(self),
    {
        Err(Errno::ENOSYS)
    }

    /// Removes the (non-directory) entry `name` from `parent`.
    fn unlink(&mut self, req: &Request<I>, parent: Inode, name: &str) -> (r: Result<(), Errno>)
        default_ensures
            r == Err::<(), Errno>(Errno::ENOSYS),
            *final(self) == *old(self),
    {
        Err(Errno::ENOSYS)
    }

    /// Removes the empty directory `name` from `parent`.
    fn rmdir(&mut self, req: &Request<I>, parent: Inode, name: &str) -> (r: Result<(), Errno>)
        default_ensures
            r == Err::<(), Errno>(Errno::ENOSYS),
            *final(self) == *old(self),
    {
        Err(Errno::ENOSYS)
    }

    /// Creates a symbolic link named `name` in `parent`, pointing at
    /// `link`.
    fn symlink(
        &mut self,
        req: &Request<I>,
        parent: Inode,
        name: &str,
        link: &str,
    ) -> (r: Result<Entry, Errno>)
        default_ensures
            r == Err::<Entry, Errno>(Errno::ENOSYS),
            *final(self) == *old(self),
    {
        Err(Errno::ENOSYS)
    }

    /// Renames `name` in `parent` to `newname` in `newparent`. `flags` may
    /// contain `RENAME_EXCHANGE`/`RENAME_NOREPLACE` (see `rename(2)`).
    fn rename(
        &mut self,
        req: &Request<I>,
        parent: Inode,
        name: &str,
        newparent: Inode,
        newname: &str,
        flags: u32,
    ) -> (r: Result<(), Errno>)
        default_ensures
            r == Err::<(), Errno>(Errno::ENOSYS),
            *final(self) == *old(self),
    {
        Err(Errno::ENOSYS)
    }

    /// Creates a hard link to `ino` named `newname` in `newparent`.
    fn link(
        &mut self,
        req: &Request<I>,
        ino: Inode,
        newparent: Inode,
        newname: &str,
    ) -> (r: Result<Entry, Errno>)
        default_ensures
            r == Err::<Entry, Errno>(Errno::ENOSYS),
            *final(self) == *old(self),
    {
        Err(Errno::ENOSYS)
    }

    /// Opens `ino`. The returned [`OpenReply`] carries a file handle plus
    /// caching hints that are written back into the kernel's file info.
    fn open(&mut self, req: &Request<I>, ino: Inode, fi: &FileInfo) -> (r: Result<OpenReply, Errno>)
        default_ensures
            r == Ok::<OpenReply, Errno>(OpenReply { fh: 0, hints: OpenHints::off() }),
            *final(self) == *old(self),
    {
        Ok(OpenReply::new(0))
    }

    /// Reads up to `size` bytes from `ino` at `offset`. The returned
    /// [`Cow`] is truncated to `size` by the caller before being sent, so
    /// implementations may over-return trailing data.
    fn read(
        &mut self,
        req: &Request<I>,
        ino: Inode,
        size: usize,
        offset: u64,
        fi: &FileInfo,
    ) -> (r: Result<Cow<'_, [u8]>, Errno>)
        default_ensures
            r is Err && r->Err_0 == Errno::ENOSYS,
    {
        Err(Errno::ENOSYS)
    }

    /// Writes `data` to `ino` at `offset`, returning the number of bytes
    /// actually written.
    fn write(
        &mut self,
        req: &Request<I>,
        ino: Inode,
        data: &[u8],
        offset: u64,
        fi: &FileInfo,
    ) -> (r: Result<usize, Errno>)
        default_ensures
            r == Err::<usize, Errno>(Errno::ENOSYS),
            *final(self) == *old(self),
    {
        Err(Errno::ENOSYS)
    }

    /// Called on each `close()` of an open file (there may be zero or many
    /// per `open`).
    fn flush(&mut self, req: &Request<I>, ino: Inode, fi: &FileInfo) -> (r: Result<(), Errno>)
        default_ensures
            r == Ok::<(), Errno>(()),
            *final(self) == *old(self),
    {
        Ok(())
    }

    /// Called when the last reference to an open file is dropped.
    fn release(&mut self, req: &Request<I>, ino: Inode, fi: &FileInfo) -> (r: Result<(), Errno>)
        default_ensures
            r == Ok::<(), Errno>(()),
            *final(self) == *old(self),
    {
        Ok(())
    }

    /// Flushes file contents (and metadata, unless `datasync` is set) to
    /// storage.
    fn fsync(
        &mut self,
        req: &Request<I>,
        ino: Inode,
        datasync: bool,
        fi: &FileInfo,
    ) -> (r: Result<(), Errno>)
        default_ensures
            r == Ok::<(), Errno>(()),
            *final(self) == *old(self),
    {
        Ok(())
    }

    /// Opens the directory `ino`. Same contract as [`Filesystem::open`].
    fn opendir(
        &mut self,
        req: &Request<I>,
        ino: Inode,
        fi: &FileInfo,
    ) -> (r: Result<OpenReply, Errno>)
        default_ensures
            r == Ok::<OpenReply, Errno>(OpenReply { fh: 0, hints: OpenHints::off() }),
            *final(self) == *old(self),
    {
        Ok(OpenReply::new(0))
    }

    /// Reads directory entries into `buf`, starting at `offset`.
    ///
    /// Offset contract: implementors must begin emitting entries at
    /// `offset` (0 means "from the beginning") and pass an increasing
    /// `next_offset` to each [`DirBuffer::add`] call; the kernel will pass
    /// the last `next_offset` it received back in as `offset` on the next
    /// call for the same handle. Stop iterating as soon as `add` returns
    /// `false` (the buffer is full) - the kernel will call again with the
    /// appropriate offset to continue. An empty buffer (nothing added)
    /// signals end-of-stream.
    fn readdir<P: Fn(DirRecord<'_>) -> Vec<u8>>(
        &mut self,
        req: &Request<I>,
        ino: Inode,
        offset: u64,
        fh: u64,
        buf: &mut DirBuffer<P>,
    ) -> (r: Result<(), Errno>)
        default_ensures
            r == Err::<(), Errno>(Errno::ENOSYS),
            *final(self) == *old(self),
            *final(buf) == *old(buf),
    {
        Err(Errno::ENOSYS)
    }

    /// Like [`Filesystem::readdir`], but each entry carries full attributes
    /// via [`DirPlusBuffer::add`]. Same offset contract applies.
    fn readdirplus<P: Fn(DirRecord<'_>) -> Vec<u8>>(
        &mut self,
        req: &Request<I>,
        ino: Inode,
        offset: u64,
        fh: u64,
        buf: &mut DirPlusBuffer<P>,
    ) -> (r: Result<(), Errno>)
        default_ensures
            r == Err::<(), Errno>(Errno::ENOSYS),
            *final(self) == *old(self),
            *final(buf) == *old(buf),
    {
        Err(Errno::ENOSYS)
    }

    /// Releases a directory handle opened by [`Filesystem::opendir`].
    fn releasedir(&mut self, req: &Request<I>, ino: Inode, fi: &FileInfo) -> (r: Result<(), Errno>)
        default_ensures
            r == Ok::<(), Errno>(()),
            *final(self) == *old(self),
    {
        Ok(())
    }

    /// Flushes directory contents (and metadata, unless `datasync` is set).
    fn fsyncdir(
        &mut self,
        req: &Request<I>,
        ino: Inode,
        datasync: bool,
        fi: &FileInfo,
    ) -> (r: Result<(), Errno>)
        default_ensures
            r == Ok::<(), Errno>(()),
            *final(self) == *old(self),
    {
        Ok(())
    }

    /// Returns filesystem-wide statistics. `ino` is a hint (zero means
    /// "undefined").
    ///
    /// Defaults to a minimal-but-valid `StatFs` (`bsize`/`namelen` set,
    /// everything else zero) rather than `ENOSYS`, mirroring libfuse's own
    /// behavior when `fuse_lowlevel_ops::statfs` is left `NULL` (`do_statfs`
    /// in `fuse_lowlevel.c` replies with a default `statvfs` in that case
    /// rather than an error - `statfs(2)`/`df` are expected to always
    /// succeed on a mounted filesystem).
    fn statfs(&mut self, req: &Request<I>, ino: Inode) -> (r: Result<StatFs, Errno>)
        default_ensures
            r == Ok::<StatFs, Errno>(StatFs::minimal()),
            *final(self) == *old(self),
    {
        Ok(StatFs::minimal_default())
    }

    /// Sets the extended attribute `name` on `ino` to `value`. `flags` are
    /// the raw `XATTR_CREATE`/`XATTR_REPLACE` bits from `setxattr(2)`.
    fn setxattr(
        &mut self,
        req: &Request<I>,
        ino: Inode,
        name: &str,
        value: &[u8],
        flags: i32,
    ) -> (r: Result<(), Errno>)
        default_ensures
            r == Err::<(), Errno>(Errno::ENOSYS),
            *final(self) == *old(self),
    {
        Err(Errno::ENOSYS)
    }

    /// Returns the value of the extended attribute `name` on `ino`. The
    /// wrapper automatically implements the libfuse size-query protocol
    /// (an incoming `size` of zero asks for the value's length only) using
    /// the length of the returned `Vec`.
    fn getxattr(&mut self, req: &Request<I>, ino: Inode, name: &str) -> (r: Result<Vec<u8>, Errno>)
        default_ensures
            r == Err::<Vec<u8>, Errno>(Errno::ENOSYS),
            *final(self) == *old(self),
    {
        Err(Errno::ENOSYS)
    }

    /// Returns the NUL-separated list of extended attribute names on
    /// `ino`, in the raw `listxattr(2)` wire format. Same size-query
    /// protocol as [`Filesystem::getxattr`].
    fn listxattr(&mut self, req: &Request<I>, ino: Inode) -> (r: Result<Vec<u8>, Errno>)
        default_ensures
            r == Err::<Vec<u8>, Errno>(Errno::ENOSYS),
            *final(self) == *old(self),
    {
        Err(Errno::ENOSYS)
    }

    /// Removes the extended attribute `name` from `ino`.
    fn removexattr(&mut self, req: &Request<I>, ino: Inode, name: &str) -> (r: Result<(), Errno>)
        default_ensures
            r == Err::<(), Errno>(Errno::ENOSYS),
            *final(self) == *old(self),
    {
        Err(Errno::ENOSYS)
    }

    /// Checks whether the calling process may access `ino` per `mask`
    /// (the `access(2)`/`R_OK`/`W_OK`/`X_OK`/`F_OK` bits).
    fn access(&mut self, req: &Request<I>, ino: Inode, mask: i32) -> (r: Result<(), Errno>)
        default_ensures
            r == Ok::<(), Errno>(()),
            *final(self) == *old(self),
    {
        Ok(())
    }

    /// Atomically creates and opens a regular file named `name` in
    /// `parent`.
    fn create(
        &mut self,
        req: &Request<I>,
        parent: Inode,
        name: &str,
        mode: u32,
        fi: &FileInfo,
    ) -> (r: Result<(Entry, OpenReply), Errno>)
        default_ensures
            r == Err::<(Entry, OpenReply), Errno>(Errno::ENOSYS),
            *final(self) == *old(self),
    {
        Err(Errno::ENOSYS)
    }

    /// Pre-allocates (or deallocates/punches, depending on `mode` -  see
    /// `fallocate(2)`) `length` bytes at `offset` in `ino`.
    fn fallocate(
        &mut self,
        req: &Request<I>,
        ino: Inode,
        mode: i32,
        offset: u64,
        length: u64,
        fi: &FileInfo,
    ) -> (r: Result<(), Errno>)
        default_ensures
            r == Err::<(), Errno>(Errno::ENOSYS),
            *final(self) == *old(self),
    {
        Err(Errno::ENOSYS)
    }

    /// Finds the next data region or hole at or after `offset` (see
    /// `lseek(2)`'s `SEEK_DATA`/`SEEK_HOLE`), returning the resulting
    /// offset.
    fn lseek(
        &mut self,
        req: &Request<I>,
        ino: Inode,
        offset: u64,
        whence: i32,
        fi: &FileInfo,
    ) -> (r: Result<u64, Errno>)
        default_ensures
            r == Err::<u64, Errno>(Errno::ENOSYS),
            *final(self) == *old(self),
    {
        Err(Errno::ENOSYS)
    }

    /// Copies `len` bytes from `ino_in`@`off_in` to `ino_out`@`off_out`,
    /// returning the number of bytes actually copied.
    fn copy_file_range(
        &mut self,
        req: &Request<I>,
        ino_in: Inode,
        off_in: u64,
        fi_in: &FileInfo,
        ino_out: Inode,
        off_out: u64,
        fi_out: &FileInfo,
        len: u64,
        flags: i32,
    ) -> (r: Result<usize, Errno>)
        default_ensures
            r == Err::<usize, Errno>(Errno::ENOSYS),
            *final(self) == *old(self),
    {
        Err(Errno::ENOSYS)
    }
}

/// Whether no hint is on.
pub open spec fn plain(hints: OpenHints) -> bool {
    !hints.direct_io && !hints.keep_cache && !hints.nonseekable && !hints.cache_readdir
}

/// Whether statistics name a block size of 512 and names of up to 255 bytes, and
/// nothing else.
pub open spec fn sparse(s: StatFs) -> bool {
    &&& s.bsize == 512 && s.namelen == 255 && s.frsize == 0
    &&& s.blocks == 0 && s.bfree == 0 && s.bavail == 0 && s.files == 0 && s.ffree == 0
}

/// A filesystem that overrides nothing.
pub struct Unsupported;

impl<I: Fn() -> bool> Filesystem<I> for Unsupported {

}

/// What a filesystem does not override and cannot do without is answered with
/// `ENOSYS`, whatever was asked, and changes nothing.
pub proof fn law_what_is_left_out_is_not_supported<I: Fn() -> bool>()
    ensures
        forall|
            fs: &mut Unsupported,
            req: &Request<I>,
            parent: Inode,
            name: &str,
            r: Result<Entry, Errno>,
        | #[trigger]
            call_ensures(
                <Unsupported as Filesystem<I>>::lookup,
                (fs, req, parent, name),
                r,
            ) ==> (r matches Err(e) && e is ENOSYS) && *final(fs) == *fs,
        forall|
            fs: &mut Unsupported,
            req: &Request<I>,
            ino: Inode,
            fh: Option<u64>,
            r: Result<(FileAttr, Duration), Errno>,
        | #[trigger]
            call_ensures(
                <Unsupported as Filesystem<I>>::getattr,
                (fs, req, ino, fh),
                r,
            ) ==> (r matches Err(e) && e is ENOSYS) && *final(fs) == *fs,
        forall|
            fs: &mut Unsupported,
            req: &Request<I>,
            ino: Inode,
            attrs: &SetAttrs,
            fh: Option<u64>,
            r: Result<(FileAttr, Duration), Errno>,
        | #[trigger]
            call_ensures(
                <Unsupported as Filesystem<I>>::setattr,
                (fs, req, ino, attrs, fh),
                r,
            ) ==> (r matches Err(e) && e is ENOSYS) && *final(fs) == *fs,
        forall|
            fs: &mut Unsupported,
            req: &Request<I>,
            ino: Inode,
            r: Result<String, Errno>,
        | #[trigger]
            call_ensures(
                <Unsupported as Filesystem<I>>::readlink,
                (fs, req, ino),
                r,
            ) ==> (r matches Err(e) && e is ENOSYS) && *final(fs) == *fs,
        forall|
            fs: &mut Unsupported,
            req: &Request<I>,
            parent: Inode,
            name: &str,
            mode: u32,
            rdev: u32,
            r: Result<Entry, Errno>,
        | #[trigger]
            call_ensures(
                <Unsupported as Filesystem<I>>::mknod,
                (fs, req, parent, name, mode, rdev),
                r,
            ) ==> (r matches Err(e) && e is ENOSYS) && *final(fs) == *fs,
        forall|
            fs: &mut Unsupported,
            req: &Request<I>,
            parent: Inode,
            name: &str,
            mode: u32,
            r: Result<Entry, Errno>,
        | #[trigger]
            call_ensures(
                <Unsupported as Filesystem<I>>::mkdir,
                (fs, req, parent, name, mode),
                r,
            ) ==> (r matches Err(e) && e is ENOSYS) && *final(fs) == *fs,
        forall|
            fs: &mut Unsupported,
            req: &Request<I>,
            parent: Inode,
            name: &str,
            r: Result<(), Errno>,
        | #[trigger]
            call_ensures(
                <Unsupported as Filesystem<I>>::unlink,
                (fs, req, parent, name),
                r,
            ) ==> (r matches Err(e) && e is ENOSYS) && *final(fs) == *fs,
        forall|
            fs: &mut Unsupported,
            req: &Request<I>,
            parent: Inode,
            name: &str,
            r: Result<(), Errno>,
        | #[trigger]
            call_ensures(
                <Unsupported as Filesystem<I>>::rmdir,
                (fs, req, parent, name),
                r,
            ) ==> (r matches Err(e) && e is ENOSYS) && *final(fs) == *fs,
        forall|
            fs: &mut Unsupported,
            req: &Request<I>,
            parent: Inode,
            name: &str,
            link: &str,
            r: Result<Entry, Errno>,
        | #[trigger]
            call_ensures(
                <Unsupported as Filesystem<I>>::symlink,
                (fs, req, parent, name, link),
                r,
            ) ==> (r matches Err(e) && e is ENOSYS) && *final(fs) == *fs,
        forall|
            fs: &mut Unsupported,
            req: &Request<I>,
            parent: Inode,
            name: &str,
            newparent: Inode,
            newname: &str,
            flags: u32,
            r: Result<(), Errno>,
        | #[trigger]
            call_ensures(
                <Unsupported as Filesystem<I>>::rename,
                (fs, req, parent, name, newparent, newname, flags),
                r,
            ) ==> (r matches Err(e) && e is ENOSYS) && *final(fs) == *fs,
        forall|
            fs: &mut Unsupported,
            req: &Request<I>,
            ino: Inode,
            newparent: Inode,
            newname: &str,
            r: Result<Entry, Errno>,
        | #[trigger]
            call_ensures(
                <Unsupported as Filesystem<I>>::link,
                (fs, req, ino, newparent, newname),
                r,
            ) ==> (r matches Err(e) && e is ENOSYS) && *final(fs) == *fs,
        forall|
            fs: &mut Unsupported,
            req: &Request<I>,
            ino: Inode,
            size: usize,
            offset: u64,
            fi: &FileInfo,
            r: Result<Cow<'_, [u8]>, Errno>,
        | #[trigger]
            call_ensures(
                <Unsupported as Filesystem<I>>::read,
                (fs, req, ino, size, offset, fi),
                r,
            ) ==> (r matches Err(e) && e is ENOSYS),
        forall|
            fs: &mut Unsupported,
            req: &Request<I>,
            ino: Inode,
            data: &[u8],
            offset: u64,
            fi: &FileInfo,
            r: Result<usize, Errno>,
        | #[trigger]
            call_ensures(
                <Unsupported as Filesystem<I>>::write,
                (fs, req, ino, data, offset, fi),
                r,
            ) ==> (r matches Err(e) && e is ENOSYS) && *final(fs) == *fs,
        forall|
            fs: &mut Unsupported,
            req: &Request<I>,
            ino: Inode,
            name: &str,
            value: &[u8],
            flags: i32,
            r: Result<(), Errno>,
        | #[trigger]
            call_ensures(
                <Unsupported as Filesystem<I>>::setxattr,
                (fs, req, ino, name, value, flags),
                r,
            ) ==> (r matches Err(e) && e is ENOSYS) && *final(fs) == *fs,
        forall|
            fs: &mut Unsupported,
            req: &Request<I>,
            ino: Inode,
            name: &str,
            r: Result<Vec<u8>, Errno>,
        | #[trigger]
            call_ensures(
                <Unsupported as Filesystem<I>>::getxattr,
                (fs, req, ino, name),
                r,
            ) ==> (r matches Err(e) && e is ENOSYS) && *final(fs) == *fs,
        forall|
            fs: &mut Unsupported,
            req: &Request<I>,
            ino: Inode,
            r: Result<Vec<u8>, Errno>,
        | #[trigger]
            call_ensures(
                <Unsupported as Filesystem<I>>::listxattr,
                (fs, req, ino),
                r,
            ) ==> (r matches Err(e) && e is ENOSYS) && *final(fs) == *fs,
        forall|
            fs: &mut Unsupported,
            req: &Request<I>,
            ino: Inode,
            name: &str,
            r: Result<(), Errno>,
        | #[trigger]
            call_ensures(
                <Unsupported as Filesystem<I>>::removexattr,
                (fs, req, ino, name),
                r,
            ) ==> (r matches Err(e) && e is ENOSYS) && *final(fs) == *fs,
        forall|
            fs: &mut Unsupported,
            req: &Request<I>,
            parent: Inode,
            name: &str,
            mode: u32,
            fi: &FileInfo,
            r: Result<(Entry, OpenReply), Errno>,
        | #[trigger]
            call_ensures(
                <Unsupported as Filesystem<I>>::create,
                (fs, req, parent, name, mode, fi),
                r,
            ) ==> (r matches Err(e) && e is ENOSYS) && *final(fs) == *fs,
        forall|
            fs: &mut Unsupported,
            req: &Request<I>,
            ino: Inode,
            mode: i32,
            offset: u64,
            length: u64,
            fi: &FileInfo,
            r: Result<(), Errno>,
        | #[trigger]
            call_ensures(
                <Unsupported as Filesystem<I>>::fallocate,
                (fs, req, ino, mode, offset, length, fi),
                r,
            ) ==> (r matches Err(e) && e is ENOSYS) && *final(fs) == *fs,
        forall|
            fs: &mut Unsupported,
            req: &Request<I>,
            ino: Inode,
            offset: u64,
            whence: i32,
            fi: &FileInfo,
            r: Result<u64, Errno>,
        | #[trigger]
            call_ensures(
                <Unsupported as Filesystem<I>>::lseek,
                (fs, req, ino, offset, whence, fi),
                r,
            ) ==> (r matches Err(e) && e is ENOSYS) && *final(fs) == *fs,
        forall|
            fs: &mut Unsupported,
            req: &Request<I>,
            ino_in: Inode,
            off_in: u64,
            fi_in: &FileInfo,
            ino_out: Inode,
            off_out: u64,
            fi_out: &FileInfo,
            len: u64,
            flags: i32,
            r: Result<usize, Errno>,
        | #[trigger]
            call_ensures(
                <Unsupported as Filesystem<I>>::copy_file_range,
                (fs, req, ino_in, off_in, fi_in, ino_out, off_out, fi_out, len, flags),
                r,
            ) ==> (r matches Err(e) && e is ENOSYS) && *final(fs) == *fs,
{
}

/// What a filesystem does not override and can do without succeeds, whatever was
/// asked, and changes nothing.
pub proof fn law_what_is_left_out_may_succeed<I: Fn() -> bool>()
    ensures
        forall|
            fs: &mut Unsupported,
            req: &Request<I>,
            ino: Inode,
            fi: &FileInfo,
            r: Result<OpenReply, Errno>,
        | #[trigger]
            call_ensures(
                <Unsupported as Filesystem<I>>::open,
                (fs, req, ino, fi),
                r,
            ) ==> (r matches Ok(o) && o.fh == 0 && plain(o.hints)) && *final(fs) == *fs,
        forall|
            fs: &mut Unsupported,
            req: &Request<I>,
            ino: Inode,
            fi: &FileInfo,
            r: Result<(), Errno>,
        | #[trigger]
            call_ensures(
                <Unsupported as Filesystem<I>>::flush,
                (fs, req, ino, fi),
                r,
            ) ==> r is Ok && *final(fs) == *fs,
        forall|
            fs: &mut Unsupported,
            req: &Request<I>,
            ino: Inode,
            fi: &FileInfo,
            r: Result<(), Errno>,
        | #[trigger]
            call_ensures(
                <Unsupported as Filesystem<I>>::release,
                (fs, req, ino, fi),
                r,
            ) ==> r is Ok && *final(fs) == *fs,
        forall|
            fs: &mut Unsupported,
            req: &Request<I>,
            ino: Inode,
            datasync: bool,
            fi: &FileInfo,
            r: Result<(), Errno>,
        | #[trigger]
            call_ensures(
                <Unsupported as Filesystem<I>>::fsync,
                (fs, req, ino, datasync, fi),
                r,
            ) ==> r is Ok && *final(fs) == *fs,
        forall|
            fs: &mut Unsupported,
            req: &Request<I>,
            ino: Inode,
            fi: &FileInfo,
            r: Result<OpenReply, Errno>,
        | #[trigger]
            call_ensures(
                <Unsupported as Filesystem<I>>::opendir,
                (fs, req, ino, fi),
                r,
            ) ==> (r matches Ok(o) && o.fh == 0 && plain(o.hints)) && *final(fs) == *fs,
        forall|
            fs: &mut Unsupported,
            req: &Request<I>,
            ino: Inode,
            fi: &FileInfo,
            r: Result<(), Errno>,
        | #[trigger]
            call_ensures(
                <Unsupported as Filesystem<I>>::releasedir,
                (fs, req, ino, fi),
                r,
            ) ==> r is Ok && *final(fs) == *fs,
        forall|
            fs: &mut Unsupported,
            req: &Request<I>,
            ino: Inode,
            datasync: bool,
            fi: &FileInfo,
            r: Result<(), Errno>,
        | #[trigger]
            call_ensures(
                <Unsupported as Filesystem<I>>::fsyncdir,
                (fs, req, ino, datasync, fi),
                r,
            ) ==> r is Ok && *final(fs) == *fs,
        forall|
            fs: &mut Unsupported,
            req: &Request<I>,
            ino: Inode,
            r: Result<StatFs, Errno>,
        | #[trigger]
            call_ensures(
                <Unsupported as Filesystem<I>>::statfs,
                (fs, req, ino),
                r,
            ) ==> (r matches Ok(s) && sparse(s)) && *final(fs) == *fs,
        forall|
            fs: &mut Unsupported,
            req: &Request<I>,
            ino: Inode,
            mask: i32,
            r: Result<(), Errno>,
        | #[trigger]
            call_ensures(
                <Unsupported as Filesystem<I>>::access,
                (fs, req, ino, mask),
                r,
            ) ==> r is Ok && *final(fs) == *fs,
        forall|fs: &mut Unsupported, conn: &mut ConnInfo| #[trigger]
            call_ensures(<Unsupported as Filesystem<I>>::init, (fs, conn), ()) ==> *final(conn)
                == *conn && *final(fs) == *fs,
        forall|fs: &mut Unsupported, ino: Inode, nlookup: u64| #[trigger]
            call_ensures(<Unsupported as Filesystem<I>>::forget, (fs, ino, nlookup), ())
                ==> *final(fs) == *fs,
{
}

} // verus!
