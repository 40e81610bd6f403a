//! Requests as the kernel sends them, and what each is answered.
//!
//! Names come as the bytes of C strings. They are UTF-8 only: any other name is
//! refused with `EILSEQ` before the filesystem sees it.

use std::borrow::Cow;

use vstd::prelude::*;
use vstd::utf8::*;

use crate::attr;
use crate::attr::{NodeAttr, SetAttrMask, SetAttrs, Stat, StatFs};
use crate::conn::{Caller, ConnInfo};
use crate::dirbuf::{DirBuffer, DirBufferFormat, DirListing, DirRecord};
use crate::errno::Errno;
use crate::node::XattrReply;
use crate::node_fs::{NodeFs, ReadDir};
use crate::open::{OpenReply, RawFileInfo};
use crate::reply;
use crate::reply::Reply;
use crate::runtime::{EntryReply, LookupReply, Runtime};
use crate::table::TableView;
use crate::text;

verus! {

/// Whether a C flag is set.
pub open spec fn nonzero(flag: i32) -> bool {
    flag != 0
}

/// Handles `init`, which takes no answer.
pub fn init_shim<F: NodeFs>(rt: &Runtime<F>, conn: &mut ConnInfo)
    ensures
        exists|c: &mut ConnInfo|
            {
                &&& #[trigger] call_ensures(Runtime::<F>::init, (rt, c), ())
                &&& *c == *old(conn)
                &&& *final(c) == *final(conn)
            },
{
    let c = &mut *conn;
    assert(crate::runtime::is_given(*c, *old(conn)));
    rt.init(c);
    assert(exists|c: &mut ConnInfo| #[trigger]
        crate::runtime::is_given(*c, *old(conn)) && call_ensures(
            Runtime::<F>::init,
            (rt, c),
            (),
        ));
}

/// Handles `destroy`, which takes no answer.
pub fn destroy_shim<F: NodeFs>(rt: &Runtime<F>)
    ensures
        call_ensures(Runtime::<F>::destroy, (rt,), ()),
{
    rt.destroy();
}

/// Answers `lookup`.
pub fn lookup_shim<F: NodeFs>(
    rt: &mut Runtime<F>,
    parent: u64,
    name: &[u8],
    caller: &Caller,
) -> (r: Reply<'static>)
    ensures
        !valid_utf8(name@) ==> r == Reply::Error(Errno::EILSEQ) && *final(rt) == *old(rt),
        valid_utf8(name@) ==> exists|
                name_str: &str,
                rt1: &mut Runtime<F>,
                res: Result<LookupReply, Errno>,
            |
            {
                &&& #[trigger] call_ensures(
                    Runtime::<F>::lookup,
                    (rt1, parent, name_str, caller),
                    res,
                )
                &&& name_str@ == decode_utf8(name@)
                &&& *rt1 == *old(rt)
                &&& *final(rt1) == *final(rt)
                &&& reply::lookup_replied(
                    res,
                    final(rt).entry_ttl(),
                    final(rt).negative_entry_ttl(),
                    r,
                )
            },
{
    let name = match text::decode_name(name) {
        Ok(name) => name,
        Err(e) => return Reply::Error(e),
    };
    let res = rt.lookup(parent, name, caller);
    assert(exists|rt1: &mut Runtime<F>|
        {
            &&& #[trigger] call_ensures(Runtime::<F>::lookup, (rt1, parent, name, caller), res)
            &&& *rt1 == *old(rt)
            &&& *final(rt1) == *rt
        });
    reply::reply_lookup(res, rt.ttl(), rt.negative_ttl())
}

/// Answers `forget`: with silence.
pub fn forget_shim<F: NodeFs>(rt: &mut Runtime<F>, ino: u64, nlookup: u64) -> (r: Reply<'static>)
    ensures
        r == Reply::<'static>::Silence,
        final(rt).valid(),
        final(rt).same_but_nodes(*old(rt)),
        exists|now: TableView<F::Node>| #[trigger]
            old(rt).takes_in(now) && now.valid() && final(rt).nodes() == now.forgotten(
                ino,
                nlookup,
            ),
{
    rt.forget(ino, nlookup);
    Reply::Silence
}

/// The nodes after the kernel forgot lookups of several, one after the other.
pub open spec fn all_forgotten<N>(nodes: TableView<N>, forgets: Seq<(u64, u64)>) -> TableView<N>
    decreases forgets.len(),
{
    if forgets.len() == 0 {
        nodes
    } else {
        all_forgotten(nodes, forgets.drop_last()).forgotten(forgets.last().0, forgets.last().1)
    }
}

/// Answers `forget_multi`: with silence. Each pair is an inode number and how
/// many lookups of it are forgotten.
pub fn forget_multi_shim<F: NodeFs>(rt: &mut Runtime<F>, forgets: &[(u64, u64)]) -> (r: Reply<
    'static,
>)
    ensures
        r == Reply::<'static>::Silence,
        final(rt).valid(),
        final(rt).same_but_nodes(*old(rt)),
        exists|now: TableView<F::Node>| #[trigger]
            old(rt).takes_in(now) && now.valid() && final(rt).nodes() == all_forgotten(
                now,
                forgets@,
            ),
{
    rt.reclaim();
    let ghost now = rt.nodes();
    let mut i: usize = 0;
    assert(forgets@.take(0) =~= Seq::empty());
    while i < forgets.len()
        invariant
            i <= forgets@.len(),
            rt.valid(),
            rt.same_but_nodes(*old(rt)),
            rt.nodes() == all_forgotten(now, forgets@.take(i as int)),
        decreases forgets@.len() - i,
    {
        let (ino, nlookup) = forgets[i];
        rt.forget_now(ino, nlookup);
        assert(forgets@.take(i + 1).drop_last() =~= forgets@.take(i as int));
        i = i + 1;
    }
    assert(forgets@.take(i as int) =~= forgets@);
    Reply::Silence
}

/// Answers `getattr`.
pub fn getattr_shim<F: NodeFs>(
    rt: &mut Runtime<F>,
    ino: u64,
    caller: &Caller,
) -> (r: Reply<'static>)
    ensures
        exists|rt1: &mut Runtime<F>, res: Result<NodeAttr, Errno>|
            {
                &&& #[trigger] call_ensures(Runtime::<F>::getattr, (rt1, ino, caller), res)
                &&& *rt1 == *old(rt)
                &&& *final(rt1) == *final(rt)
                &&& r == reply::attr_replied(ino, res, final(rt).entry_ttl())
            },
{
    let res = rt.getattr(ino, caller);
    assert(exists|rt1: &mut Runtime<F>|
        {
            &&& #[trigger] call_ensures(Runtime::<F>::getattr, (rt1, ino, caller), res)
            &&& *rt1 == *old(rt)
            &&& *final(rt1) == *rt
        });
    reply::reply_attr(ino, res, rt.ttl())
}

/// Answers `setattr`: what `to_set` asks for is taken out of `attr` and handed
/// to the filesystem. `None` if a requested time is none that this system can
/// represent.
pub fn setattr_shim<F: NodeFs>(
    rt: &mut Runtime<F>,
    ino: u64,
    attr: Option<&Stat>,
    to_set: i32,
    mask: &SetAttrMask,
    caller: &Caller,
) -> (r: Option<Reply<'static>>)
    ensures
        r is None <==> !attr::requested_times_fit(attr, to_set, *mask),
        r is None ==> *final(rt) == *old(rt),
        r matches Some(reply) ==> exists|
                set: SetAttrs,
                rt1: &mut Runtime<F>,
                res: Result<NodeAttr, Errno>,
            |
            {
                &&& #[trigger] call_ensures(Runtime::<F>::setattr, (rt1, ino, &set, caller), res)
                &&& *rt1 == *old(rt)
                &&& *final(rt1) == *final(rt)
                &&& set.decodes(attr, to_set, *mask)
                &&& reply == reply::attr_replied(ino, res, final(rt).entry_ttl())
            },
{
    let set = match SetAttrs::try_from_raw(attr, to_set, mask) {
        Some(set) => set,
        None => return None,
    };
    let res = rt.setattr(ino, &set, caller);
    assert(exists|rt1: &mut Runtime<F>|
        {
            &&& #[trigger] call_ensures(Runtime::<F>::setattr, (rt1, ino, &set, caller), res)
            &&& *rt1 == *old(rt)
            &&& *final(rt1) == *rt
        });
    Some(reply::reply_attr(ino, res, rt.ttl()))
}

/// Answers `readlink`.
pub fn readlink_shim<F: NodeFs>(
    rt: &mut Runtime<F>,
    ino: u64,
    caller: &Caller,
) -> (r: Reply<'static>)
    ensures
        exists|rt1: &mut Runtime<F>, res: Result<String, Errno>|
            {
                &&& #[trigger] call_ensures(Runtime::<F>::readlink, (rt1, ino, caller), res)
                &&& *rt1 == *old(rt)
                &&& *final(rt1) == *final(rt)
                &&& r == reply::readlink_replied(res)
            },
{
    let res = rt.readlink(ino, caller);
    assert(exists|rt1: &mut Runtime<F>|
        {
            &&& #[trigger] call_ensures(Runtime::<F>::readlink, (rt1, ino, caller), res)
            &&& *rt1 == *old(rt)
            &&& *final(rt1) == *rt
        });
    reply::reply_readlink(res)
}

/// Answers `mknod`. Device numbers are passed on in 32 bits.
pub fn mknod_shim<F: NodeFs>(
    rt: &mut Runtime<F>,
    parent: u64,
    name: &[u8],
    mode: u32,
    rdev: u64,
    caller: &Caller,
) -> (r: Reply<'static>)
    ensures
        !valid_utf8(name@) ==> r == Reply::Error(Errno::EILSEQ) && *final(rt) == *old(rt),
        valid_utf8(name@) ==> exists|
                name_str: &str,
                rt1: &mut Runtime<F>,
                res: Result<EntryReply, Errno>,
            |
            {
                &&& #[trigger] call_ensures(
                    Runtime::<F>::mknod,
                    (rt1, parent, name_str, mode, rdev as u32, caller.umask, caller),
                    res,
                )
                &&& name_str@ == decode_utf8(name@)
                &&& *rt1 == *old(rt)
                &&& *final(rt1) == *final(rt)
                &&& r == reply::entry_replied(res, final(rt).entry_ttl())
            },
{
    let name = match text::decode_name(name) {
        Ok(name) => name,
        Err(e) => return Reply::Error(e),
    };
    let res = rt.mknod(parent, name, mode, rdev as u32, caller.umask, caller);
    assert(exists|rt1: &mut Runtime<F>|
        {
            &&& #[trigger] call_ensures(
                Runtime::<F>::mknod,
                (rt1, parent, name, mode, rdev as u32, caller.umask, caller),
                res,
            )
            &&& *rt1 == *old(rt)
            &&& *final(rt1) == *rt
        });
    reply::reply_entry(res, rt.ttl())
}

/// Answers `mkdir`.
pub fn mkdir_shim<F: NodeFs>(
    rt: &mut Runtime<F>,
    parent: u64,
    name: &[u8],
    mode: u32,
    caller: &Caller,
) -> (r: Reply<'static>)
    ensures
        !valid_utf8(name@) ==> r == Reply::Error(Errno::EILSEQ) && *final(rt) == *old(rt),
        valid_utf8(name@) ==> exists|
                name_str: &str,
                rt1: &mut Runtime<F>,
                res: Result<EntryReply, Errno>,
            |
            {
                &&& #[trigger] call_ensures(
                    Runtime::<F>::mkdir,
                    (rt1, parent, name_str, mode, caller.umask, caller),
                    res,
                )
                &&& name_str@ == decode_utf8(name@)
                &&& *rt1 == *old(rt)
                &&& *final(rt1) == *final(rt)
                &&& r == reply::entry_replied(res, final(rt).entry_ttl())
            },
{
    let name = match text::decode_name(name) {
        Ok(name) => name,
        Err(e) => return Reply::Error(e),
    };
    let res = rt.mkdir(parent, name, mode, caller.umask, caller);
    assert(exists|rt1: &mut Runtime<F>|
        {
            &&& #[trigger] call_ensures(
                Runtime::<F>::mkdir,
                (rt1, parent, name, mode, caller.umask, caller),
                res,
            )
            &&& *rt1 == *old(rt)
            &&& *final(rt1) == *rt
        });
    reply::reply_entry(res, rt.ttl())
}

/// Answers `unlink`.
pub fn unlink_shim<F: NodeFs>(
    rt: &mut Runtime<F>,
    parent: u64,
    name: &[u8],
    caller: &Caller,
) -> (r: Reply<'static>)
    ensures
        !valid_utf8(name@) ==> r == Reply::Error(Errno::EILSEQ) && *final(rt) == *old(rt),
        valid_utf8(name@) ==> exists|name_str: &str, rt1: &mut Runtime<F>, res: Result<(), Errno>|
            {
                &&& #[trigger] call_ensures(
                    Runtime::<F>::unlink,
                    (rt1, parent, name_str, caller),
                    res,
                )
                &&& name_str@ == decode_utf8(name@)
                &&& *rt1 == *old(rt)
                &&& *final(rt1) == *final(rt)
                &&& r == reply::done_replied(res)
            },
{
    let name = match text::decode_name(name) {
        Ok(name) => name,
        Err(e) => return Reply::Error(e),
    };
    let res = rt.unlink(parent, name, caller);
    assert(exists|rt1: &mut Runtime<F>|
        {
            &&& #[trigger] call_ensures(Runtime::<F>::unlink, (rt1, parent, name, caller), res)
            &&& *rt1 == *old(rt)
            &&& *final(rt1) == *rt
        });
    reply::reply_done(res)
}

/// Answers `rmdir`.
pub fn rmdir_shim<F: NodeFs>(
    rt: &mut Runtime<F>,
    parent: u64,
    name: &[u8],
    caller: &Caller,
) -> (r: Reply<'static>)
    ensures
        !valid_utf8(name@) ==> r == Reply::Error(Errno::EILSEQ) && *final(rt) == *old(rt),
        valid_utf8(name@) ==> exists|name_str: &str, rt1: &mut Runtime<F>, res: Result<(), Errno>|
            {
                &&& #[trigger] call_ensures(
                    Runtime::<F>::rmdir,
                    (rt1, parent, name_str, caller),
                    res,
                )
                &&& name_str@ == decode_utf8(name@)
                &&& *rt1 == *old(rt)
                &&& *final(rt1) == *final(rt)
                &&& r == reply::done_replied(res)
            },
{
    let name = match text::decode_name(name) {
        Ok(name) => name,
        Err(e) => return Reply::Error(e),
    };
    let res = rt.rmdir(parent, name, caller);
    assert(exists|rt1: &mut Runtime<F>|
        {
            &&& #[trigger] call_ensures(Runtime::<F>::rmdir, (rt1, parent, name, caller), res)
            &&& *rt1 == *old(rt)
            &&& *final(rt1) == *rt
        });
    reply::reply_done(res)
}

/// Answers `symlink`.
pub fn symlink_shim<F: NodeFs>(
    rt: &mut Runtime<F>,
    link: &[u8],
    parent: u64,
    name: &[u8],
    caller: &Caller,
) -> (r: Reply<'static>)
    ensures
        !(valid_utf8(link@) && valid_utf8(name@))
            ==> r == Reply::Error(Errno::EILSEQ) && *final(rt) == *old(rt),
        valid_utf8(link@) && valid_utf8(name@) ==> exists|
                link_str: &str,
                name_str: &str,
                rt1: &mut Runtime<F>,
                res: Result<EntryReply, Errno>,
            |
            {
                &&& #[trigger] call_ensures(
                    Runtime::<F>::symlink,
                    (rt1, parent, name_str, link_str, caller),
                    res,
                )
                &&& link_str@ == decode_utf8(link@)
                &&& name_str@ == decode_utf8(name@)
                &&& *rt1 == *old(rt)
                &&& *final(rt1) == *final(rt)
                &&& r == reply::entry_replied(res, final(rt).entry_ttl())
            },
{
    let link = match text::decode_name(link) {
        Ok(link) => link,
        Err(e) => return Reply::Error(e),
    };
    let name = match text::decode_name(name) {
        Ok(name) => name,
        Err(e) => return Reply::Error(e),
    };
    let res = rt.symlink(parent, name, link, caller);
    assert(exists|rt1: &mut Runtime<F>|
        {
            &&& #[trigger] call_ensures(
                Runtime::<F>::symlink,
                (rt1, parent, name, link, caller),
                res,
            )
            &&& *rt1 == *old(rt)
            &&& *final(rt1) == *rt
        });
    reply::reply_entry(res, rt.ttl())
}

/// Answers `rename`.
pub fn rename_shim<F: NodeFs>(
    rt: &mut Runtime<F>,
    parent: u64,
    name: &[u8],
    newparent: u64,
    newname: &[u8],
    flags: u32,
    caller: &Caller,
) -> (r: Reply<'static>)
    ensures
        !(valid_utf8(name@) && valid_utf8(newname@))
            ==> r == Reply::Error(Errno::EILSEQ) && *final(rt) == *old(rt),
        valid_utf8(name@) && valid_utf8(newname@) ==> exists|
                name_str: &str,
                newname_str: &str,
                rt1: &mut Runtime<F>,
                res: Result<(), Errno>,
            |
            {
                &&& #[trigger] call_ensures(
                    Runtime::<F>::rename,
                    (rt1, parent, name_str, newparent, newname_str, flags, caller),
                    res,
                )
                &&& name_str@ == decode_utf8(name@)
                &&& newname_str@ == decode_utf8(newname@)
                &&& *rt1 == *old(rt)
                &&& *final(rt1) == *final(rt)
                &&& r == reply::done_replied(res)
            },
{
    let name = match text::decode_name(name) {
        Ok(name) => name,
        Err(e) => return Reply::Error(e),
    };
    let newname = match text::decode_name(newname) {
        Ok(newname) => newname,
        Err(e) => return Reply::Error(e),
    };
    let res = rt.rename(parent, name, newparent, newname, flags, caller);
    assert(exists|rt1: &mut Runtime<F>|
        {
            &&& #[trigger] call_ensures(
                Runtime::<F>::rename,
                (rt1, parent, name, newparent, newname, flags, caller),
                res,
            )
            &&& *rt1 == *old(rt)
            &&& *final(rt1) == *rt
        });
    reply::reply_done(res)
}

/// Answers `link`.
pub fn link_shim<F: NodeFs>(
    rt: &mut Runtime<F>,
    ino: u64,
    newparent: u64,
    newname: &[u8],
    caller: &Caller,
) -> (r: Reply<'static>)
    ensures
        !valid_utf8(newname@) ==> r == Reply::Error(Errno::EILSEQ) && *final(rt) == *old(rt),
        valid_utf8(newname@) ==> exists|
                newname_str: &str,
                rt1: &mut Runtime<F>,
                res: Result<EntryReply, Errno>,
            |
            {
                &&& #[trigger] call_ensures(
                    Runtime::<F>::link,
                    (rt1, ino, newparent, newname_str, caller),
                    res,
                )
                &&& newname_str@ == decode_utf8(newname@)
                &&& *rt1 == *old(rt)
                &&& *final(rt1) == *final(rt)
                &&& r == reply::entry_replied(res, final(rt).entry_ttl())
            },
{
    let newname = match text::decode_name(newname) {
        Ok(newname) => newname,
        Err(e) => return Reply::Error(e),
    };
    let res = rt.link(ino, newparent, newname, caller);
    assert(exists|rt1: &mut Runtime<F>|
        {
            &&& #[trigger] call_ensures(
                Runtime::<F>::link,
                (rt1, ino, newparent, newname, caller),
                res,
            )
            &&& *rt1 == *old(rt)
            &&& *final(rt1) == *rt
        });
    reply::reply_entry(res, rt.ttl())
}

/// Answers `open`.
pub fn open_shim<F: NodeFs>(
    rt: &mut Runtime<F>,
    ino: u64,
    fi: RawFileInfo,
    caller: &Caller,
) -> (r: Reply<'static>)
    ensures
        exists|rt1: &mut Runtime<F>, res: Result<OpenReply, Errno>|
            {
                &&& #[trigger] call_ensures(Runtime::<F>::open, (rt1, ino, fi.flags, caller), res)
                &&& *rt1 == *old(rt)
                &&& *final(rt1) == *final(rt)
                &&& r == reply::open_replied(res, fi)
            },
{
    let res = rt.open(ino, fi.flags, caller);
    assert(exists|rt1: &mut Runtime<F>|
        {
            &&& #[trigger] call_ensures(Runtime::<F>::open, (rt1, ino, fi.flags, caller), res)
            &&& *rt1 == *old(rt)
            &&& *final(rt1) == *rt
        });
    reply::reply_open(res, fi)
}

/// Answers `read`, with `size` bytes at most.
pub fn read_shim<'a, F: NodeFs>(
    rt: &'a mut Runtime<F>,
    ino: u64,
    size: usize,
    off: i64,
    fi: RawFileInfo,
    caller: &Caller,
) -> (r: Reply<'a>)
    ensures
        old(rt).settles_to(*final(rt)),
        exists|data: Result<Cow<'_, [u8]>, Errno>|
            {
                &&& #[trigger] final(rt).reads(ino, fi.fh, off as u64, size, caller, data)
                &&& reply::read_replied(data, size, r)
            },
{
    let data = rt.read_data(ino, fi.fh, off as u64, size, caller);
    reply::reply_read(data, size)
}

/// Answers `write`.
pub fn write_shim<F: NodeFs>(
    rt: &mut Runtime<F>,
    ino: u64,
    data: &[u8],
    off: i64,
    fi: RawFileInfo,
    caller: &Caller,
) -> (r: Reply<'static>)
    ensures
        exists|rt1: &mut Runtime<F>, res: Result<usize, Errno>|
            {
                &&& #[trigger] call_ensures(
                    Runtime::<F>::write,
                    (rt1, ino, fi.fh, data, off as u64, caller),
                    res,
                )
                &&& *rt1 == *old(rt)
                &&& *final(rt1) == *final(rt)
                &&& r == reply::write_replied(res)
            },
{
    let res = rt.write(ino, fi.fh, data, off as u64, caller);
    assert(exists|rt1: &mut Runtime<F>|
        {
            &&& #[trigger] call_ensures(
                Runtime::<F>::write,
                (rt1, ino, fi.fh, data, off as u64, caller),
                res,
            )
            &&& *rt1 == *old(rt)
            &&& *final(rt1) == *rt
        });
    reply::reply_write(res)
}

/// Answers `flush`.
pub fn flush_shim<F: NodeFs>(
    rt: &mut Runtime<F>,
    ino: u64,
    fi: RawFileInfo,
    caller: &Caller,
) -> (r: Reply<'static>)
    ensures
        exists|rt1: &mut Runtime<F>, res: Result<(), Errno>|
            {
                &&& #[trigger] call_ensures(Runtime::<F>::flush, (rt1, ino, fi.fh, caller), res)
                &&& *rt1 == *old(rt)
                &&& *final(rt1) == *final(rt)
                &&& r == reply::done_replied(res)
            },
{
    let res = rt.flush(ino, fi.fh, caller);
    assert(exists|rt1: &mut Runtime<F>|
        {
            &&& #[trigger] call_ensures(Runtime::<F>::flush, (rt1, ino, fi.fh, caller), res)
            &&& *rt1 == *old(rt)
            &&& *final(rt1) == *rt
        });
    reply::reply_done(res)
}

/// Answers `release`.
pub fn release_shim<F: NodeFs>(
    rt: &mut Runtime<F>,
    ino: u64,
    fi: RawFileInfo,
    caller: &Caller,
) -> (r: Reply<'static>)
    ensures
        exists|rt1: &mut Runtime<F>, res: Result<(), Errno>|
            {
                &&& #[trigger] call_ensures(Runtime::<F>::release, (rt1, ino, fi.fh, caller), res)
                &&& *rt1 == *old(rt)
                &&& *final(rt1) == *final(rt)
                &&& r == reply::done_replied(res)
            },
{
    let res = rt.release(ino, fi.fh, caller);
    assert(exists|rt1: &mut Runtime<F>|
        {
            &&& #[trigger] call_ensures(Runtime::<F>::release, (rt1, ino, fi.fh, caller), res)
            &&& *rt1 == *old(rt)
            &&& *final(rt1) == *rt
        });
    reply::reply_done(res)
}

/// Answers `fsync`.
pub fn fsync_shim<F: NodeFs>(
    rt: &mut Runtime<F>,
    ino: u64,
    datasync: i32,
    fi: RawFileInfo,
    caller: &Caller,
) -> (r: Reply<'static>)
    ensures
        exists|rt1: &mut Runtime<F>, res: Result<(), Errno>|
            {
                &&& #[trigger] call_ensures(
                    Runtime::<F>::fsync,
                    (rt1, ino, fi.fh, nonzero(datasync), caller),
                    res,
                )
                &&& *rt1 == *old(rt)
                &&& *final(rt1) == *final(rt)
                &&& r == reply::done_replied(res)
            },
{
    let res = rt.fsync(ino, fi.fh, datasync != 0, caller);
    assert(exists|rt1: &mut Runtime<F>|
        {
            &&& #[trigger] call_ensures(
                Runtime::<F>::fsync,
                (rt1, ino, fi.fh, nonzero(datasync), caller),
                res,
            )
            &&& *rt1 == *old(rt)
            &&& *final(rt1) == *rt
        });
    reply::reply_done(res)
}

/// Answers `opendir`.
pub fn opendir_shim<F: NodeFs>(
    rt: &mut Runtime<F>,
    ino: u64,
    fi: RawFileInfo,
    caller: &Caller,
) -> (r: Reply<'static>)
    ensures
        exists|rt1: &mut Runtime<F>, res: Result<OpenReply, Errno>|
            {
                &&& #[trigger] call_ensures(
                    Runtime::<F>::opendir,
                    (rt1, ino, fi.flags, caller),
                    res,
                )
                &&& *rt1 == *old(rt)
                &&& *final(rt1) == *final(rt)
                &&& r == reply::open_replied(res, fi)
            },
{
    let res = rt.opendir(ino, fi.flags, caller);
    assert(exists|rt1: &mut Runtime<F>|
        {
            &&& #[trigger] call_ensures(Runtime::<F>::opendir, (rt1, ino, fi.flags, caller), res)
            &&& *rt1 == *old(rt)
            &&& *final(rt1) == *rt
        });
    reply::reply_open(res, fi)
}

/// Answers `readdir`: the filesystem lists the directory, and `pack` turns each
/// entry into bytes.
pub fn readdir_shim<F: NodeFs + ReadDir<DirListing<P>>, P: Fn(DirRecord<'_>) -> Vec<u8>>(
    rt: &mut Runtime<F>,
    ino: u64,
    size: usize,
    off: i64,
    fi: RawFileInfo,
    caller: &Caller,
    pack: P,
) -> (r: Reply<'static>)
    requires
        forall|rec: DirRecord<'_>|
            text::nul_free(rec.name@) ==> #[trigger] pack.requires((rec,)),
    ensures
        exists|sink: &mut DirListing<P>, rt1: &mut Runtime<F>, res: Result<(), Errno>|
            {
                &&& #[trigger] call_ensures(
                    Runtime::<F>::readdir::<DirListing<P>>,
                    (rt1, ino, fi.fh, off as u64, sink, caller),
                    res,
                )
                &&& *rt1 == *old(rt)
                &&& *final(rt1) == *final(rt)
                &&& sink.buf.contents() == Seq::<u8>::empty()
                &&& sink.buf.capacity() == size
                &&& sink.buf.format() == DirBufferFormat::Plain
                &&& sink.buf.packer() == pack
                &&& reply::dir_replied(res, final(sink).buf.contents(), r)
            },
{
    let mut sink = DirListing { buf: DirBuffer::new(pack, size) };
    let ghost given = sink;
    let res = rt.readdir(ino, fi.fh, off as u64, &mut sink, caller);
    assert(exists|rt1: &mut Runtime<F>, s: &mut DirListing<P>|
        {
            &&& #[trigger] call_ensures(
                Runtime::<F>::readdir::<DirListing<P>>,
                (rt1, ino, fi.fh, off as u64, s, caller),
                res,
            )
            &&& *rt1 == *old(rt)
            &&& *final(rt1) == *rt
            &&& *s == given
            &&& *final(s) == sink
        });
    reply::reply_dir_buf(res, sink.buf.into_vec())
}

/// Answers `readdirplus`. The kernel asks this alone once it may, so a plain
/// listing is driven into a buffer of that shape: its entries have node ID 0,
/// which tells the kernel that no lookup was performed.
pub fn readdirplus_shim<F: NodeFs + ReadDir<DirListing<P>>, P: Fn(DirRecord<'_>) -> Vec<u8>>(
    rt: &mut Runtime<F>,
    ino: u64,
    size: usize,
    off: i64,
    fi: RawFileInfo,
    caller: &Caller,
    pack: P,
) -> (r: Reply<'static>)
    requires
        forall|rec: DirRecord<'_>|
            text::nul_free(rec.name@) ==> #[trigger] pack.requires((rec,)),
    ensures
        exists|sink: &mut DirListing<P>, rt1: &mut Runtime<F>, res: Result<(), Errno>|
            {
                &&& #[trigger] call_ensures(
                    Runtime::<F>::readdir::<DirListing<P>>,
                    (rt1, ino, fi.fh, off as u64, sink, caller),
                    res,
                )
                &&& *rt1 == *old(rt)
                &&& *final(rt1) == *final(rt)
                &&& sink.buf.contents() == Seq::<u8>::empty()
                &&& sink.buf.capacity() == size
                &&& sink.buf.format() == DirBufferFormat::PlusFallback
                &&& sink.buf.packer() == pack
                &&& reply::dir_replied(res, final(sink).buf.contents(), r)
            },
{
    let mut sink = DirListing { buf: DirBuffer::new_plus_fallback(pack, size) };
    let ghost given = sink;
    let res = rt.readdir(ino, fi.fh, off as u64, &mut sink, caller);
    assert(exists|rt1: &mut Runtime<F>, s: &mut DirListing<P>|
        {
            &&& #[trigger] call_ensures(
                Runtime::<F>::readdir::<DirListing<P>>,
                (rt1, ino, fi.fh, off as u64, s, caller),
                res,
            )
            &&& *rt1 == *old(rt)
            &&& *final(rt1) == *rt
            &&& *s == given
            &&& *final(s) == sink
        });
    reply::reply_dir_buf(res, sink.buf.into_vec())
}

/// Answers `releasedir`.
pub fn releasedir_shim<F: NodeFs>(
    rt: &mut Runtime<F>,
    ino: u64,
    fi: RawFileInfo,
    caller: &Caller,
) -> (r: Reply<'static>)
    ensures
        exists|rt1: &mut Runtime<F>, res: Result<(), Errno>|
            {
                &&& #[trigger] call_ensures(
                    Runtime::<F>::releasedir,
                    (rt1, ino, fi.fh, caller),
                    res,
                )
                &&& *rt1 == *old(rt)
                &&& *final(rt1) == *final(rt)
                &&& r == reply::done_replied(res)
            },
{
    let res = rt.releasedir(ino, fi.fh, caller);
    assert(exists|rt1: &mut Runtime<F>|
        {
            &&& #[trigger] call_ensures(Runtime::<F>::releasedir, (rt1, ino, fi.fh, caller), res)
            &&& *rt1 == *old(rt)
            &&& *final(rt1) == *rt
        });
    reply::reply_done(res)
}

/// Answers `fsyncdir`.
pub fn fsyncdir_shim<F: NodeFs>(
    rt: &mut Runtime<F>,
    ino: u64,
    datasync: i32,
    fi: RawFileInfo,
    caller: &Caller,
) -> (r: Reply<'static>)
    ensures
        exists|rt1: &mut Runtime<F>, res: Result<(), Errno>|
            {
                &&& #[trigger] call_ensures(
                    Runtime::<F>::fsyncdir,
                    (rt1, ino, fi.fh, nonzero(datasync), caller),
                    res,
                )
                &&& *rt1 == *old(rt)
                &&& *final(rt1) == *final(rt)
                &&& r == reply::done_replied(res)
            },
{
    let res = rt.fsyncdir(ino, fi.fh, datasync != 0, caller);
    assert(exists|rt1: &mut Runtime<F>|
        {
            &&& #[trigger] call_ensures(
                Runtime::<F>::fsyncdir,
                (rt1, ino, fi.fh, nonzero(datasync), caller),
                res,
            )
            &&& *rt1 == *old(rt)
            &&& *final(rt1) == *rt
        });
    reply::reply_done(res)
}

/// Answers `statfs`.
pub fn statfs_shim<F: NodeFs>(rt: &Runtime<F>, ino: u64, caller: &Caller) -> (r: Reply<'static>)
    ensures
        exists|res: Result<StatFs, Errno>|
            {
                &&& #[trigger] call_ensures(Runtime::<F>::statfs, (rt, ino, caller), res)
                &&& r == reply::statfs_replied(res)
            },
{
    let res = rt.statfs(ino, caller);
    reply::reply_statfs(res)
}

/// Answers `setxattr`.
pub fn setxattr_shim<F: NodeFs>(
    rt: &mut Runtime<F>,
    ino: u64,
    name: &[u8],
    value: &[u8],
    flags: i32,
    caller: &Caller,
) -> (r: Reply<'static>)
    ensures
        !valid_utf8(name@) ==> r == Reply::Error(Errno::EILSEQ) && *final(rt) == *old(rt),
        valid_utf8(name@) ==> exists|name_str: &str, rt1: &mut Runtime<F>, res: Result<(), Errno>|
            {
                &&& #[trigger] call_ensures(
                    Runtime::<F>::setxattr,
                    (rt1, ino, name_str, value, flags, caller),
                    res,
                )
                &&& *rt1 == *old(rt)
                &&& *final(rt1) == *final(rt)
                &&& name_str@ == decode_utf8(name@)
                &&& r == reply::done_replied(res)
            },
{
    let name = match text::decode_name(name) {
        Ok(name) => name,
        Err(e) => return Reply::Error(e),
    };
    let res = rt.setxattr(ino, name, value, flags, caller);
    assert(exists|rt1: &mut Runtime<F>|
        {
            &&& #[trigger] call_ensures(
                Runtime::<F>::setxattr,
                (rt1, ino, name, value, flags, caller),
                res,
            )
            &&& *rt1 == *old(rt)
            &&& *final(rt1) == *rt
        });
    reply::reply_done(res)
}

/// Answers `getxattr`.
pub fn getxattr_shim<F: NodeFs>(
    rt: &mut Runtime<F>,
    ino: u64,
    name: &[u8],
    size: usize,
    caller: &Caller,
) -> (r: Reply<'static>)
    ensures
        !valid_utf8(name@) ==> r == Reply::Error(Errno::EILSEQ) && *final(rt) == *old(rt),
        valid_utf8(name@) ==> exists|
                name_str: &str,
                rt1: &mut Runtime<F>,
                res: Result<XattrReply, Errno>,
            |
            {
                &&& #[trigger] call_ensures(
                    Runtime::<F>::getxattr,
                    (rt1, ino, name_str, size, caller),
                    res,
                )
                &&& *rt1 == *old(rt)
                &&& *final(rt1) == *final(rt)
                &&& name_str@ == decode_utf8(name@)
                &&& reply::xattr_replied(res, size, r)
            },
{
    let name = match text::decode_name(name) {
        Ok(name) => name,
        Err(e) => return Reply::Error(e),
    };
    let res = rt.getxattr(ino, name, size, caller);
    assert(exists|rt1: &mut Runtime<F>|
        {
            &&& #[trigger] call_ensures(
                Runtime::<F>::getxattr,
                (rt1, ino, name, size, caller),
                res,
            )
            &&& *rt1 == *old(rt)
            &&& *final(rt1) == *rt
        });
    reply::reply_xattr(res, size)
}

/// Answers `listxattr`.
pub fn listxattr_shim<F: NodeFs>(
    rt: &mut Runtime<F>,
    ino: u64,
    size: usize,
    caller: &Caller,
) -> (r: Reply<'static>)
    ensures
        exists|rt1: &mut Runtime<F>, res: Result<XattrReply, Errno>|
            {
                &&& #[trigger] call_ensures(Runtime::<F>::listxattr, (rt1, ino, size, caller), res)
                &&& *rt1 == *old(rt)
                &&& *final(rt1) == *final(rt)
                &&& reply::xattr_replied(res, size, r)
            },
{
    let res = rt.listxattr(ino, size, caller);
    assert(exists|rt1: &mut Runtime<F>|
        {
            &&& #[trigger] call_ensures(Runtime::<F>::listxattr, (rt1, ino, size, caller), res)
            &&& *rt1 == *old(rt)
            &&& *final(rt1) == *rt
        });
    reply::reply_xattr(res, size)
}

/// Answers `removexattr`.
pub fn removexattr_shim<F: NodeFs>(
    rt: &mut Runtime<F>,
    ino: u64,
    name: &[u8],
    caller: &Caller,
) -> (r: Reply<'static>)
    ensures
        !valid_utf8(name@) ==> r == Reply::Error(Errno::EILSEQ) && *final(rt) == *old(rt),
        valid_utf8(name@) ==> exists|name_str: &str, rt1: &mut Runtime<F>, res: Result<(), Errno>|
            {
                &&& #[trigger] call_ensures(
                    Runtime::<F>::removexattr,
                    (rt1, ino, name_str, caller),
                    res,
                )
                &&& *rt1 == *old(rt)
                &&& *final(rt1) == *final(rt)
                &&& name_str@ == decode_utf8(name@)
                &&& r == reply::done_replied(res)
            },
{
    let name = match text::decode_name(name) {
        Ok(name) => name,
        Err(e) => return Reply::Error(e),
    };
    let res = rt.removexattr(ino, name, caller);
    assert(exists|rt1: &mut Runtime<F>|
        {
            &&& #[trigger] call_ensures(
                Runtime::<F>::removexattr,
                (rt1, ino, name, caller),
                res,
            )
            &&& *rt1 == *old(rt)
            &&& *final(rt1) == *rt
        });
    reply::reply_done(res)
}

/// Answers `access`.
pub fn access_shim<F: NodeFs>(
    rt: &mut Runtime<F>,
    ino: u64,
    mask: i32,
    caller: &Caller,
) -> (r: Reply<'static>)
    ensures
        exists|rt1: &mut Runtime<F>, res: Result<(), Errno>|
            {
                &&& #[trigger] call_ensures(Runtime::<F>::access, (rt1, ino, mask, caller), res)
                &&& *rt1 == *old(rt)
                &&& *final(rt1) == *final(rt)
                &&& r == reply::done_replied(res)
            },
{
    let res = rt.access(ino, mask, caller);
    assert(exists|rt1: &mut Runtime<F>|
        {
            &&& #[trigger] call_ensures(Runtime::<F>::access, (rt1, ino, mask, caller), res)
            &&& *rt1 == *old(rt)
            &&& *final(rt1) == *rt
        });
    reply::reply_done(res)
}

/// Answers `create`.
pub fn create_shim<F: NodeFs>(
    rt: &mut Runtime<F>,
    parent: u64,
    name: &[u8],
    mode: u32,
    fi: RawFileInfo,
    caller: &Caller,
) -> (r: Reply<'static>)
    ensures
        !valid_utf8(name@) ==> r == Reply::Error(Errno::EILSEQ) && *final(rt) == *old(rt),
        valid_utf8(name@) ==> exists|
                name_str: &str,
                rt1: &mut Runtime<F>,
                res: Result<(EntryReply, OpenReply), Errno>,
            |
            {
                &&& #[trigger] call_ensures(
                    Runtime::<F>::create,
                    (rt1, parent, name_str, mode, caller.umask, fi.flags, caller),
                    res,
                )
                &&& name_str@ == decode_utf8(name@)
                &&& *rt1 == *old(rt)
                &&& *final(rt1) == *final(rt)
                &&& r == reply::create_replied(res, final(rt).entry_ttl(), fi)
            },
{
    let name = match text::decode_name(name) {
        Ok(name) => name,
        Err(e) => return Reply::Error(e),
    };
    let res = rt.create(parent, name, mode, caller.umask, fi.flags, caller);
    assert(exists|rt1: &mut Runtime<F>|
        {
            &&& #[trigger] call_ensures(
                Runtime::<F>::create,
                (rt1, parent, name, mode, caller.umask, fi.flags, caller),
                res,
            )
            &&& *rt1 == *old(rt)
            &&& *final(rt1) == *rt
        });
    reply::reply_create(res, rt.ttl(), fi)
}

/// Answers `fallocate`.
pub fn fallocate_shim<F: NodeFs>(
    rt: &mut Runtime<F>,
    ino: u64,
    mode: i32,
    offset: i64,
    length: i64,
    fi: RawFileInfo,
    caller: &Caller,
) -> (r: Reply<'static>)
    ensures
        exists|rt1: &mut Runtime<F>, res: Result<(), Errno>|
            {
                &&& #[trigger] call_ensures(
                    Runtime::<F>::fallocate,
                    (rt1, ino, fi.fh, mode, offset as u64, length as u64, caller),
                    res,
                )
                &&& *rt1 == *old(rt)
                &&& *final(rt1) == *final(rt)
                &&& r == reply::done_replied(res)
            },
{
    let res = rt.fallocate(ino, fi.fh, mode, offset as u64, length as u64, caller);
    assert(exists|rt1: &mut Runtime<F>|
        {
            &&& #[trigger] call_ensures(
                Runtime::<F>::fallocate,
                (rt1, ino, fi.fh, mode, offset as u64, length as u64, caller),
                res,
            )
            &&& *rt1 == *old(rt)
            &&& *final(rt1) == *rt
        });
    reply::reply_done(res)
}

/// Answers `lseek`.
pub fn lseek_shim<F: NodeFs>(
    rt: &mut Runtime<F>,
    ino: u64,
    off: i64,
    whence: i32,
    fi: RawFileInfo,
    caller: &Caller,
) -> (r: Reply<'static>)
    ensures
        exists|rt1: &mut Runtime<F>, res: Result<u64, Errno>|
            {
                &&& #[trigger] call_ensures(
                    Runtime::<F>::lseek,
                    (rt1, ino, fi.fh, off as u64, whence, caller),
                    res,
                )
                &&& *rt1 == *old(rt)
                &&& *final(rt1) == *final(rt)
                &&& r == reply::lseek_replied(res)
            },
{
    let res = rt.lseek(ino, fi.fh, off as u64, whence, caller);
    assert(exists|rt1: &mut Runtime<F>|
        {
            &&& #[trigger] call_ensures(
                Runtime::<F>::lseek,
                (rt1, ino, fi.fh, off as u64, whence, caller),
                res,
            )
            &&& *rt1 == *old(rt)
            &&& *final(rt1) == *rt
        });
    reply::reply_lseek(res)
}

/// Answers `copy_file_range`.
pub fn copy_file_range_shim<F: NodeFs>(
    rt: &mut Runtime<F>,
    ino_in: u64,
    off_in: i64,
    ino_out: u64,
    off_out: i64,
    len: usize,
    flags: i32,
    caller: &Caller,
) -> (r: Reply<'static>)
    ensures
        exists|rt1: &mut Runtime<F>, res: Result<usize, Errno>|
            {
                &&& #[trigger] call_ensures(
                    Runtime::<F>::copy_file_range,
                    (
                        rt1,
                        ino_in,
                        off_in as u64,
                        ino_out,
                        off_out as u64,
                        len as u64,
                        flags,
                        caller,
                    ),
                    res,
                )
                &&& *rt1 == *old(rt)
                &&& *final(rt1) == *final(rt)
                &&& r == reply::write_replied(res)
            },
{
    let res = rt.copy_file_range(
        ino_in,
        off_in as u64,
        ino_out,
        off_out as u64,
        len as u64,
        flags,
        caller,
    );
    assert(exists|rt1: &mut Runtime<F>|
        {
            &&& #[trigger] call_ensures(
                Runtime::<F>::copy_file_range,
                (rt1, ino_in, off_in as u64, ino_out, off_out as u64, len as u64, flags, caller),
                res,
            )
            &&& *rt1 == *old(rt)
            &&& *final(rt1) == *rt
        });
    reply::reply_write(res)
}

} // verus!
