//! What each request comes to, from the kernel's bytes to the filesystem's
//! callback and back to the reply.
//!
//! The laws here speak of requests as they are sent and answered, and of nodes,
//! handles and attributes field by field.

use std::borrow::Cow;
use std::time::{Duration, SystemTime};

use vstd::prelude::*;
use vstd::utf8::*;

use crate::attr::{EntryParam, NodeAttr, SetAttrMask, SetAttrs, Stat, StatFs, TimeOrNow, Timespec};
use crate::conn::{Caller, ConnInfo};
use crate::dirbuf::{DirBufferFormat, DirListing, DirRecord};
use crate::errno::Errno;
use crate::lifetime;
use crate::node::{NodeId, XattrReply};
use crate::node_fs::{NodeFs, ReadDir};
use crate::handles::HandlesView;
use crate::open::{OpenHints, OpenReply, Opened, RawFileInfo};
use crate::reply;
use crate::reply::Reply;
use crate::runtime;
use crate::runtime::{EntryReply, LookupReply, Runtime};
use crate::session;
use crate::table::{Cx, NodeRef, Slot, TableView};
use crate::time;

verus! {

/// Whether a `timespec` names a point in time: whole seconds and, counted
/// forward, the nanoseconds past them. (A point whose seconds no 64 bits hold has
/// no such `timespec`.)
pub open spec fn names(ts: Timespec, t: SystemTime) -> bool {
    let nanos = time::epoch_nanos(t);
    i64::MIN <= nanos / 1_000_000_000 <= i64::MAX ==> {
        &&& 0 <= ts.tv_nsec < 1_000_000_000
        &&& ts.tv_sec * 1_000_000_000 + ts.tv_nsec == nanos
    }
}

/// Whether a `stat` tells of the node `ino` what the filesystem told of it.
pub open spec fn tells(st: Stat, ino: u64, attr: NodeAttr) -> bool {
    &&& st.st_ino == ino
    &&& st.st_mode == attr.kind.mode_bits() | (attr.perm as u32 & 0o7777)
    &&& st.st_nlink == attr.nlink
    &&& st.st_uid == attr.uid
    &&& st.st_gid == attr.gid
    &&& st.st_rdev == attr.rdev
    &&& st.st_size == attr.size as i64
    &&& st.st_blocks == attr.blocks as i64
    &&& st.st_blksize == attr.blksize
    &&& st.st_flags == attr.flags
    &&& names(st.st_atimespec, attr.atime)
    &&& names(st.st_mtimespec, attr.mtime)
    &&& names(st.st_ctimespec, attr.ctime)
    &&& names(st.st_birthtimespec, attr.crtime)
}

/// Whether an entry parameter tells of a node under its number and generation,
/// to be kept for `ttl`.
pub open spec fn enters(
    p: EntryParam,
    ino: u64,
    generation: u64,
    attr: NodeAttr,
    ttl: Duration,
) -> bool {
    &&& p.ino == ino
    &&& p.generation == generation
    &&& tells(p.attr, ino, attr)
    &&& p.attr_timeout == ttl
    &&& p.entry_timeout == ttl
}

/// Whether a `stat` is all zero.
pub open spec fn blank(st: Stat) -> bool {
    let zero = Timespec { tv_sec: 0, tv_nsec: 0 };
    &&& st.st_ino == 0 && st.st_mode == 0 && st.st_nlink == 0 && st.st_uid == 0
    &&& st.st_gid == 0 && st.st_rdev == 0 && st.st_size == 0 && st.st_blocks == 0
    &&& st.st_blksize == 0 && st.st_flags == 0
    &&& st.st_atimespec == zero && st.st_mtimespec == zero
    &&& st.st_ctimespec == zero && st.st_birthtimespec == zero
}

/// Whether the filesystem and the settings of a runtime are as they were.
pub open spec fn keeps_settings<F: NodeFs>(was: Runtime<F>, now: Runtime<F>) -> bool {
    &&& now.filesystem() == was.filesystem()
    &&& now.entry_ttl() == was.entry_ttl()
    &&& now.negative_entry_ttl() == was.negative_entry_ttl()
    &&& now.wants_parallel_dirops() == was.wants_parallel_dirops()
}

/// Whether all of a runtime is as it was, but for leases that were dropped and
/// came in.
pub open spec fn keeps_all<F: NodeFs>(was: Runtime<F>, now: Runtime<F>) -> bool {
    &&& keeps_settings(was, now)
    &&& now.open_handles() == was.open_handles()
    &&& was.context().takes_in(now.context()@)
    &&& now.context().receiver() == was.context().receiver()
}

/// The nodes with one number of lookups more for a node.
pub open spec fn one_more_lookup<N>(v: TableView<N>, ino: u64) -> TableView<N> {
    let slot = v.slots[ino];
    TableView {
        slots: v.slots.insert(ino, Slot { lookups: (slot.lookups + 1) as u64, ..slot }),
        next_ino: v.next_ino,
        free: v.free,
    }
}

/// The nodes with one open handle more for a node.
pub open spec fn one_more_open<N>(v: TableView<N>, ino: u64) -> TableView<N> {
    let slot = v.slots[ino];
    TableView {
        slots: v.slots.insert(ino, Slot { opens: (slot.opens + 1) as u32, ..slot }),
        next_ino: v.next_ino,
        free: v.free,
    }
}

/// What comes of handing out the node `id` as an entry, after a callback left the
/// context `cx`: dropped leases are taken in, the filesystem is asked for the
/// node's attributes, and where it gives them the lookup is counted and the entry
/// sent. Nothing is counted where it is not.
pub open spec fn handed_out<F: NodeFs>(
    fs: F,
    cx: Cx<F::Node>,
    id: NodeId,
    caller: &Caller,
    ttl: Duration,
    r: Reply<'_>,
    post: TableView<F::Node>,
) -> bool {
    let ino = id.number();
    exists|now: TableView<F::Node>| #[trigger]
        cx.takes_in(now) && if !now.slots.contains_key(ino) {
            r == Reply::Error(Errno::ENOENT) && post == now
        } else {
            exists|res: Result<NodeAttr, Errno>| #[trigger]
                call_ensures(F::getattr, (&fs, &*now.slots[ino].record, caller), res)
                    && match res {
                    Err(e) => r == Reply::Error(e) && post == now,
                    Ok(attr) => if now.slots[ino].lookups == u64::MAX {
                        r == Reply::Error(Errno::EIO) && post == now
                    } else {
                        &&& r matches Reply::Entry(p)
                        &&& enters(p, ino, now.slots[ino].generation, attr, ttl)
                        &&& post == one_more_lookup(now, ino)
                    },
                }
        }
}

/// Whether a flag of the raw structure says what a hint says.
pub open spec fn flagged(flag: u32, hint: bool) -> bool {
    flag == if hint {
        1u32
    } else {
        0u32
    }
}

/// Whether the file info of a request was answered with a handle and its hints,
/// and is as it was otherwise.
pub open spec fn opened_as(
    raw: RawFileInfo,
    fi: RawFileInfo,
    fh: u64,
    hints: OpenHints,
) -> bool {
    &&& raw.fh == fh
    &&& flagged(raw.direct_io, hints.direct_io)
    &&& flagged(raw.keep_cache, hints.keep_cache)
    &&& flagged(raw.nonseekable, hints.nonseekable)
    &&& flagged(raw.cache_readdir, hints.cache_readdir)
    &&& raw.flags == fi.flags && raw.lock_owner == fi.lock_owner
    &&& raw.flush == fi.flush && raw.writepage == fi.writepage
}

/// Whether a request asks for the field with this bit.
pub open spec fn bit_set(to_set: i32, bit: u32) -> bool {
    to_set as u32 & bit != 0
}

/// Whether a time was asked for by its own bit, and is the one of the raw field.
pub open spec fn time_wanted(want: Option<SystemTime>, asked: bool, raw: Timespec) -> bool {
    match want {
        Some(t) => asked && time::epoch_nanos(t) == raw.tv_sec * 1_000_000_000 + (
        raw.tv_nsec as u32),
        None => !asked,
    }
}

/// Whether a time was asked for by its own bits: as the present if one asks for
/// that, else as the one of the raw field.
pub open spec fn time_or_now_wanted(
    want: Option<TimeOrNow>,
    now: bool,
    asked: bool,
    raw: Timespec,
) -> bool {
    match want {
        Some(TimeOrNow::Now) => now,
        Some(TimeOrNow::SpecificTime(t)) => !now && time_wanted(Some(t), asked, raw),
        None => !now && !asked,
    }
}

/// Whether a decoded request asks for exactly the fields whose own bit is set,
/// each with the value of its raw field. Without raw fields it asks for nothing.
pub open spec fn wants(
    set: SetAttrs,
    attr: Option<&Stat>,
    to_set: i32,
    mask: SetAttrMask,
) -> bool {
    &&& set.chgtime is None && set.bkuptime is None
    &&& match attr {
        None => {
            &&& set.mode is None && set.uid is None && set.gid is None && set.size is None
            &&& set.atime is None && set.mtime is None && set.ctime is None
            &&& set.crtime is None && set.flags is None
        },
        Some(st) => {
            &&& set.mode is Some <==> bit_set(to_set, mask.mode)
            &&& set.mode matches Some(mode) ==> mode == st.st_mode
            &&& set.uid is Some <==> bit_set(to_set, mask.uid)
            &&& set.uid matches Some(uid) ==> uid == st.st_uid
            &&& set.gid is Some <==> bit_set(to_set, mask.gid)
            &&& set.gid matches Some(gid) ==> gid == st.st_gid
            &&& set.size is Some <==> bit_set(to_set, mask.size)
            &&& set.size matches Some(size) ==> size == st.st_size as u64
            &&& set.flags is Some <==> bit_set(to_set, mask.flags)
            &&& set.flags matches Some(flags) ==> flags == st.st_flags
            &&& time_or_now_wanted(
                set.atime,
                bit_set(to_set, mask.atime_now),
                bit_set(to_set, mask.atime),
                st.st_atimespec,
            )
            &&& time_or_now_wanted(
                set.mtime,
                bit_set(to_set, mask.mtime_now),
                bit_set(to_set, mask.mtime),
                st.st_mtimespec,
            )
            &&& time_wanted(set.ctime, bit_set(to_set, mask.ctime), st.st_ctimespec)
            &&& time_wanted(set.crtime, bit_set(to_set, mask.btime), st.st_birthtimespec)
        },
    }
}

/// Whether a point in time that a request asks for exists.
pub open spec fn exists_if(asked: bool, raw: Timespec) -> bool {
    asked ==> time::time_fits(raw.tv_sec * 1_000_000_000 + (raw.tv_nsec as u32))
}

/// The raw attributes of a node tell what its attributes tell.
proof fn lemma_stat_tells(ino: u64, attr: NodeAttr)
    ensures
        tells(attr.at(ino).stat(), ino, attr),
{
    assert forall|t: SystemTime| names(#[trigger] Timespec::of(t), t) by {
        if time::secs_fit(time::epoch_nanos(t)) {
            time::law_time_round_trip(time::epoch_nanos(t));
        }
    }
}

/// The same of every node.
proof fn lemma_stats_tell()
    ensures
        forall|ino: u64, attr: NodeAttr| tells(#[trigger] attr.at(ino).stat(), ino, attr),
{
    assert forall|ino: u64, attr: NodeAttr| tells(
        #[trigger] attr.at(ino).stat(),
        ino,
        attr,
    ) by {
        lemma_stat_tells(ino, attr);
    }
}

/// A request for attributes is answered with what the filesystem tells of the
/// node, field by field, or with its error; with `ENOENT` if there is no such
/// node.
pub proof fn law_getattr_request<F: NodeFs>(
    ino: u64,
    caller: &Caller,
    r: Reply<'static>,
)
    ensures
        forall|rt: &mut Runtime<F>| #[trigger]
            call_ensures(session::getattr_shim::<F>, (rt, ino, caller), r) ==> {
                let nodes = final(rt).nodes();
                &&& keeps_all(*rt, *final(rt))
                &&& if nodes.slots.contains_key(ino) {
                    exists|res: Result<NodeAttr, Errno>|
                        {
                            &&& #[trigger] call_ensures(
                                F::getattr,
                                (&rt.filesystem(), &*nodes.slots[ino].record, caller),
                                res,
                            )
                            &&& match res {
                                Ok(ok) => r matches Reply::Attr(st, ttl) && tells(st, ino, ok)
                                    && ttl == rt.entry_ttl(),
                                Err(e) => r == Reply::Error(e),
                            }
                        }
                } else {
                    r == Reply::Error(Errno::ENOENT)
                }
            },
{
    lemma_stats_tell();
}

/// A request for a link's target is answered with the target that the filesystem
/// gives; with `EINVAL` if no C string can hold it.
pub proof fn law_readlink_request<F: NodeFs>(
    ino: u64,
    caller: &Caller,
    r: Reply<'static>,
)
    ensures
        forall|rt: &mut Runtime<F>| #[trigger]
            call_ensures(session::readlink_shim::<F>, (rt, ino, caller), r) ==> {
                let nodes = final(rt).nodes();
                &&& keeps_all(*rt, *final(rt))
                &&& if nodes.slots.contains_key(ino) {
                    exists|res: Result<String, Errno>|
                        {
                            &&& #[trigger] call_ensures(
                                F::readlink,
                                (&rt.filesystem(), &*nodes.slots[ino].record, caller),
                                res,
                            )
                            &&& match res {
                                Ok(ok) => if ok@.contains('\0') {
                                    r == Reply::Error(Errno::EINVAL)
                                } else {
                                    r matches Reply::Link(target) && target@ == ok@
                                },
                                Err(e) => r == Reply::Error(e),
                            }
                        }
                } else {
                    r == Reply::Error(Errno::ENOENT)
                }
            },
{
}

/// Access is granted exactly if the filesystem grants it, of the same mask.
pub proof fn law_access_request<F: NodeFs>(
    ino: u64,
    mask: i32,
    caller: &Caller,
    r: Reply<'static>,
)
    ensures
        forall|rt: &mut Runtime<F>| #[trigger]
            call_ensures(session::access_shim::<F>, (rt, ino, mask, caller), r) ==> {
                let nodes = final(rt).nodes();
                &&& keeps_all(*rt, *final(rt))
                &&& if nodes.slots.contains_key(ino) {
                    exists|res: Result<(), Errno>|
                        {
                            &&& #[trigger] call_ensures(
                                F::access,
                                (&rt.filesystem(), &*nodes.slots[ino].record, mask, caller),
                                res,
                            )
                            &&& match res {
                                Ok(ok) => r == Reply::<'static>::Done,
                                Err(e) => r == Reply::Error(e),
                            }
                        }
                } else {
                    r == Reply::Error(Errno::ENOENT)
                }
            },
{
}

/// The names of extended attributes: a request for no bytes gets their length,
/// any other all of them or `ERANGE`.
pub proof fn law_listxattr_request<F: NodeFs>(
    ino: u64,
    size: usize,
    caller: &Caller,
    r: Reply<'static>,
)
    ensures
        forall|rt: &mut Runtime<F>| #[trigger]
            call_ensures(session::listxattr_shim::<F>, (rt, ino, size, caller), r) ==> {
                let nodes = final(rt).nodes();
                &&& keeps_all(*rt, *final(rt))
                &&& if nodes.slots.contains_key(ino) {
                    exists|res: Result<XattrReply, Errno>|
                        {
                            &&& #[trigger] call_ensures(
                                F::listxattr,
                                (&rt.filesystem(), &*nodes.slots[ino].record, size, caller),
                                res,
                            )
                            &&& match res {
                                Ok(ok) => if size == 0 {
                                    r matches Reply::XattrSize(len) && match ok {
                                        XattrReply::Size(n) => len == n,
                                        XattrReply::Data(data) => len == data@.len(),
                                    }
                                } else {
                                    match ok {
                                        XattrReply::Size(_) => r == Reply::Error(Errno::EIO),
                                        XattrReply::Data(data) => if data@.len() <= size {
                                            r matches Reply::Data(sent) && sent@ == data@
                                        } else {
                                            r == Reply::Error(Errno::ERANGE)
                                        },
                                    }
                                },
                                Err(e) => r == Reply::Error(e),
                            }
                        }
                } else {
                    r == Reply::Error(Errno::ENOENT)
                }
            },
{
}

/// An extended attribute of the name that was asked for: a request for no bytes
/// gets its length, any other all of it or `ERANGE`.
pub proof fn law_getxattr_request<F: NodeFs>(
    ino: u64,
    name: &[u8],
    size: usize,
    caller: &Caller,
    r: Reply<'static>,
)
    ensures
        forall|rt: &mut Runtime<F>| #[trigger]
            call_ensures(session::getxattr_shim::<F>, (rt, ino, name, size, caller), r) ==> {
                let nodes = final(rt).nodes();
                if valid_utf8(name@) {
                    &&& keeps_all(*rt, *final(rt))
                    &&& if nodes.slots.contains_key(ino) {
                        exists|text: &str, res: Result<XattrReply, Errno>|
                            {
                                &&& #[trigger] call_ensures(
                                    F::getxattr,
                                    (
                                        &rt.filesystem(),
                                        &*nodes.slots[ino].record,
                                        text,
                                        size,
                                        caller,
                                    ),
                                    res,
                                )
                                &&& text@ == decode_utf8(name@)
                                &&& match res {
                                    Ok(ok) => if size == 0 {
                                    r matches Reply::XattrSize(len) && match ok {
                                        XattrReply::Size(n) => len == n,
                                        XattrReply::Data(data) => len == data@.len(),
                                    }
                                } else {
                                    match ok {
                                        XattrReply::Size(_) => r == Reply::Error(Errno::EIO),
                                        XattrReply::Data(data) => if data@.len() <= size {
                                            r matches Reply::Data(sent) && sent@ == data@
                                        } else {
                                            r == Reply::Error(Errno::ERANGE)
                                        },
                                    }
                                },
                                    Err(e) => r == Reply::Error(e),
                                }
                            }
                    } else {
                        r == Reply::Error(Errno::ENOENT)
                    }
                } else {
                    r == Reply::Error(Errno::EILSEQ) && *final(rt) == *rt
                }
            },
{
}

/// An extended attribute is set under the name, to the bytes and with the flags
/// of the request.
pub proof fn law_setxattr_request<F: NodeFs>(
    ino: u64,
    name: &[u8],
    value: &[u8],
    flags: i32,
    caller: &Caller,
    r: Reply<'static>,
)
    ensures
        forall|rt: &mut Runtime<F>| #[trigger]
            call_ensures(
                session::setxattr_shim::<F>,
                (rt, ino, name, value, flags, caller),
                r,
            ) ==> {
                let nodes = final(rt).nodes();
                if valid_utf8(name@) {
                    &&& keeps_all(*rt, *final(rt))
                    &&& if nodes.slots.contains_key(ino) {
                        exists|text: &str, res: Result<(), Errno>|
                            {
                                &&& #[trigger] call_ensures(
                                    F::setxattr,
                                    (
                                        &rt.filesystem(),
                                        &*nodes.slots[ino].record,
                                        text,
                                        value,
                                        flags,
                                        caller,
                                    ),
                                    res,
                                )
                                &&& text@ == decode_utf8(name@)
                                &&& match res {
                                    Ok(ok) => r == Reply::<'static>::Done,
                                    Err(e) => r == Reply::Error(e),
                                }
                            }
                    } else {
                        r == Reply::Error(Errno::ENOENT)
                    }
                } else {
                    r == Reply::Error(Errno::EILSEQ) && *final(rt) == *rt
                }
            },
{
}

/// An extended attribute is removed under the name of the request.
pub proof fn law_removexattr_request<F: NodeFs>(
    ino: u64,
    name: &[u8],
    caller: &Caller,
    r: Reply<'static>,
)
    ensures
        forall|rt: &mut Runtime<F>| #[trigger]
            call_ensures(session::removexattr_shim::<F>, (rt, ino, name, caller), r) ==> {
                let nodes = final(rt).nodes();
                if valid_utf8(name@) {
                    &&& keeps_all(*rt, *final(rt))
                    &&& if nodes.slots.contains_key(ino) {
                        exists|text: &str, res: Result<(), Errno>|
                            {
                                &&& #[trigger] call_ensures(
                                    F::removexattr,
                                    (&rt.filesystem(), &*nodes.slots[ino].record, text, caller),
                                    res,
                                )
                                &&& text@ == decode_utf8(name@)
                                &&& match res {
                                    Ok(ok) => r == Reply::<'static>::Done,
                                    Err(e) => r == Reply::Error(e),
                                }
                            }
                    } else {
                        r == Reply::Error(Errno::ENOENT)
                    }
                } else {
                    r == Reply::Error(Errno::EILSEQ) && *final(rt) == *rt
                }
            },
{
}

/// A request to set attributes hands the filesystem exactly the fields whose own
/// bit is set, each with its raw value, and is answered with what the filesystem
/// then tells of the node. It is not handed on at all if a time that it asks for
/// does not exist.
pub proof fn law_setattr_request<F: NodeFs>(
    ino: u64,
    attr: Option<&Stat>,
    to_set: i32,
    mask: &SetAttrMask,
    caller: &Caller,
    r: Option<Reply<'static>>,
)
    ensures
        forall|rt: &mut Runtime<F>| #[trigger]
            call_ensures(
                session::setattr_shim::<F>,
                (rt, ino, attr, to_set, mask, caller),
                r,
            ) ==> {
                let nodes = final(rt).nodes();
                &&& r is None <==> (attr matches Some(st) && !({
                    &&& exists_if(
                        bit_set(to_set, mask.atime) && !bit_set(to_set, mask.atime_now),
                        st.st_atimespec,
                    )
                    &&& exists_if(
                        bit_set(to_set, mask.mtime) && !bit_set(to_set, mask.mtime_now),
                        st.st_mtimespec,
                    )
                    &&& exists_if(bit_set(to_set, mask.ctime), st.st_ctimespec)
                    &&& exists_if(bit_set(to_set, mask.btime), st.st_birthtimespec)
                }))
                &&& r is None ==> *final(rt) == *rt
                &&& r matches Some(reply) ==> {
                    &&& keeps_all(*rt, *final(rt))
                    &&& if nodes.slots.contains_key(ino) {
                        exists|set: SetAttrs, res: Result<NodeAttr, Errno>|
                            {
                                &&& #[trigger] call_ensures(
                                    F::setattr,
                                    (&rt.filesystem(), &*nodes.slots[ino].record, &set, caller),
                                    res,
                                )
                                &&& wants(set, attr, to_set, *mask)
                                &&& match res {
                                    Ok(told) => reply matches Reply::Attr(st, ttl) && tells(
                                        st,
                                        ino,
                                        told,
                                    ) && ttl == rt.entry_ttl(),
                                    Err(e) => reply == Reply::Error(e),
                                }
                            }
                    } else {
                        reply == Reply::Error(Errno::ENOENT)
                    }
                }
            },
{
    lemma_stats_tell();
}

/// Decoding a `setattr` request: each field is there exactly if its own bit is set,
/// whatever the other bits are, and holds the value of its raw field. It fails
/// exactly if a time that is asked for does not exist.
pub proof fn law_setattr_fields_follow_their_bits(
    attr: Option<&Stat>,
    to_set: i32,
    mask: &SetAttrMask,
    r: Option<SetAttrs>,
    set: SetAttrs,
)
    ensures
        call_ensures(SetAttrs::try_from_raw, (attr, to_set, mask), r) ==> {
            &&& r matches Some(set) ==> wants(set, attr, to_set, *mask)
            &&& r is None <==> (attr matches Some(st) && !({
                &&& exists_if(
                    bit_set(to_set, mask.atime) && !bit_set(to_set, mask.atime_now),
                    st.st_atimespec,
                )
                &&& exists_if(
                    bit_set(to_set, mask.mtime) && !bit_set(to_set, mask.mtime_now),
                    st.st_mtimespec,
                )
                &&& exists_if(bit_set(to_set, mask.ctime), st.st_ctimespec)
                &&& exists_if(bit_set(to_set, mask.btime), st.st_birthtimespec)
            }))
        },
        call_ensures(SetAttrs::from_raw, (attr, to_set, mask), set) ==> wants(
            set,
            attr,
            to_set,
            *mask,
        ),
{
}

/// A read that succeeds is answered with data, whatever its length, none included:
/// the bytes that the filesystem gave, from the first on, and no more than were
/// asked for. It is answered with an error exactly if there is no such node or
/// handle, or the filesystem gives one.
pub proof fn law_read_request<F: NodeFs>(
    ino: u64,
    size: usize,
    off: i64,
    fi: RawFileInfo,
    caller: &Caller,
    r: Reply<'_>,
)
    ensures
        forall|rt: &mut Runtime<F>| #[trigger]
            call_ensures(session::read_shim::<F>, (rt, ino, size, off, fi, caller), r) ==> {
                let nodes = final(rt).nodes();
                &&& keeps_all(*rt, *final(rt))
                &&& if !nodes.slots.contains_key(ino) {
                    r == Reply::Error(Errno::ENOENT)
                } else if !rt.open_handles().files.contains_key(fi.fh) {
                    r == Reply::Error(Errno::EBADF)
                } else {
                    exists|res: Result<Cow<'_, [u8]>, Errno>|
                        {
                            &&& #[trigger] call_ensures(
                                F::read,
                                (
                                    &rt.filesystem(),
                                    &*nodes.slots[ino].record,
                                    &rt.open_handles().files[fi.fh],
                                    off as u64, size, caller,
                                ),
                                res,
                            )
                            &&& match res {
                                Ok(ok) => {
                                    &&& r matches Reply::Data(sent)
                                    &&& sent@.len() == if ok@.len() <= size {
                                        ok@.len()
                                    } else {
                                        size as nat
                                    }
                                    &&& forall|i: int| 0 <= i < sent@.len() ==> #[trigger] sent@[i]
                                        == ok@[i]
                                },
                                Err(e) => r == Reply::Error(e),
                            }
                        }
                }
            },
{
}

/// A write hands the filesystem the bytes and the offset of the request, and is
/// answered with as many bytes as it says were written.
pub proof fn law_write_request<F: NodeFs>(
    ino: u64,
    data: &[u8],
    off: i64,
    fi: RawFileInfo,
    caller: &Caller,
    r: Reply<'static>,
)
    ensures
        forall|rt: &mut Runtime<F>| #[trigger]
            call_ensures(session::write_shim::<F>, (rt, ino, data, off, fi, caller), r) ==> {
                let nodes = final(rt).nodes();
                &&& keeps_all(*rt, *final(rt))
                &&& if !nodes.slots.contains_key(ino) {
                    r == Reply::Error(Errno::ENOENT)
                } else if !rt.open_handles().files.contains_key(fi.fh) {
                    r == Reply::Error(Errno::EBADF)
                } else {
                    exists|res: Result<usize, Errno>|
                        {
                            &&& #[trigger] call_ensures(
                                F::write,
                                (
                                    &rt.filesystem(),
                                    &*nodes.slots[ino].record,
                                    &rt.open_handles().files[fi.fh],
                                    data, off as u64, caller,
                                ),
                                res,
                            )
                            &&& match res {
                                Ok(ok) => r == Reply::<'static>::Written(ok),
                                Err(e) => r == Reply::Error(e),
                            }
                        }
                }
            },
{
}

/// A flush is of the node and the handle of the request.
pub proof fn law_flush_request<F: NodeFs>(
    ino: u64,
    fi: RawFileInfo,
    caller: &Caller,
    r: Reply<'static>,
)
    ensures
        forall|rt: &mut Runtime<F>| #[trigger]
            call_ensures(session::flush_shim::<F>, (rt, ino, fi, caller), r) ==> {
                let nodes = final(rt).nodes();
                &&& keeps_all(*rt, *final(rt))
                &&& if !nodes.slots.contains_key(ino) {
                    r == Reply::Error(Errno::ENOENT)
                } else if !rt.open_handles().files.contains_key(fi.fh) {
                    r == Reply::Error(Errno::EBADF)
                } else {
                    exists|res: Result<(), Errno>|
                        {
                            &&& #[trigger] call_ensures(
                                F::flush,
                                (
                                    &rt.filesystem(),
                                    &*nodes.slots[ino].record,
                                    &rt.open_handles().files[fi.fh],
                                    caller,
                                ),
                                res,
                            )
                            &&& match res {
                                Ok(ok) => r == Reply::<'static>::Done,
                                Err(e) => r == Reply::Error(e),
                            }
                        }
                }
            },
{
}

/// A sync is of data alone exactly if the request says so.
pub proof fn law_fsync_request<F: NodeFs>(
    ino: u64,
    datasync: i32,
    fi: RawFileInfo,
    caller: &Caller,
    r: Reply<'static>,
)
    ensures
        forall|rt: &mut Runtime<F>| #[trigger]
            call_ensures(session::fsync_shim::<F>, (rt, ino, datasync, fi, caller), r) ==> {
                let nodes = final(rt).nodes();
                &&& keeps_all(*rt, *final(rt))
                &&& if !nodes.slots.contains_key(ino) {
                    r == Reply::Error(Errno::ENOENT)
                } else if !rt.open_handles().files.contains_key(fi.fh) {
                    r == Reply::Error(Errno::EBADF)
                } else {
                    exists|data_only: bool, res: Result<(), Errno>|
                        {
                            &&& #[trigger] call_ensures(
                                F::fsync,
                                (
                                    &rt.filesystem(),
                                    &*nodes.slots[ino].record,
                                    &rt.open_handles().files[fi.fh],
                                    data_only, caller,
                                ),
                                res,
                            )
                            &&& data_only == (datasync != 0)
                            &&& match res {
                                Ok(ok) => r == Reply::<'static>::Done,
                                Err(e) => r == Reply::Error(e),
                            }
                        }
                }
            },
{
}

/// Room is made or punched at the offset and for the length of the request.
pub proof fn law_fallocate_request<F: NodeFs>(
    ino: u64,
    mode: i32,
    offset: i64,
    length: i64,
    fi: RawFileInfo,
    caller: &Caller,
    r: Reply<'static>,
)
    ensures
        forall|rt: &mut Runtime<F>| #[trigger]
            call_ensures(
                session::fallocate_shim::<F>,
                (rt, ino, mode, offset, length, fi, caller),
                r,
            ) ==> {
                let nodes = final(rt).nodes();
                &&& keeps_all(*rt, *final(rt))
                &&& if !nodes.slots.contains_key(ino) {
                    r == Reply::Error(Errno::ENOENT)
                } else if !rt.open_handles().files.contains_key(fi.fh) {
                    r == Reply::Error(Errno::EBADF)
                } else {
                    exists|res: Result<(), Errno>|
                        {
                            &&& #[trigger] call_ensures(
                                F::fallocate,
                                (
                                    &rt.filesystem(),
                                    &*nodes.slots[ino].record,
                                    &rt.open_handles().files[fi.fh],
                                    mode, offset as u64, length as u64, caller,
                                ),
                                res,
                            )
                            &&& match res {
                                Ok(ok) => r == Reply::<'static>::Done,
                                Err(e) => r == Reply::Error(e),
                            }
                        }
                }
            },
{
}

/// A seek is from the offset of the request, and is answered with the position that
/// the filesystem found.
pub proof fn law_lseek_request<F: NodeFs>(
    ino: u64,
    off: i64,
    whence: i32,
    fi: RawFileInfo,
    caller: &Caller,
    r: Reply<'static>,
)
    ensures
        forall|rt: &mut Runtime<F>| #[trigger]
            call_ensures(session::lseek_shim::<F>, (rt, ino, off, whence, fi, caller), r) ==> {
                let nodes = final(rt).nodes();
                &&& keeps_all(*rt, *final(rt))
                &&& if !nodes.slots.contains_key(ino) {
                    r == Reply::Error(Errno::ENOENT)
                } else if !rt.open_handles().files.contains_key(fi.fh) {
                    r == Reply::Error(Errno::EBADF)
                } else {
                    exists|res: Result<u64, Errno>|
                        {
                            &&& #[trigger] call_ensures(
                                F::lseek,
                                (
                                    &rt.filesystem(),
                                    &*nodes.slots[ino].record,
                                    &rt.open_handles().files[fi.fh],
                                    off as u64, whence, caller,
                                ),
                                res,
                            )
                            &&& match res {
                                Ok(ok) => r == Reply::<'static>::Position(ok as i64),
                                Err(e) => r == Reply::Error(e),
                            }
                        }
                }
            },
{
}

/// A node is created in the directory and under the name, with the mode, the device
/// and the umask of the request, and handed out as an entry.
pub proof fn law_mknod_request<F: NodeFs>(
    parent: u64,
    name: &[u8],
    mode: u32,
    rdev: u64,
    caller: &Caller,
    r: Reply<'static>,
)
    ensures
        forall|rt: &mut Runtime<F>| #[trigger]
            call_ensures(session::mknod_shim::<F>, (rt, parent, name, mode, rdev, caller), r) ==> {
                if valid_utf8(name@) {
                    &&& keeps_settings(*rt, *final(rt))
                    &&& final(rt).open_handles() == rt.open_handles()
                    &&& exists|text: &str, cx: &mut Cx<F::Node>, res: Result<NodeId, Errno>|
                        {
                            &&& #[trigger] call_ensures(
                                F::mknod,
                                (
                                    &rt.filesystem(),
                                    cx,
                                    NodeId::of(parent),
                                    text,
                                    mode,
                                    rdev as u32,
                                    caller.umask,
                                    caller,
                                ),
                                res,
                            )
                            &&& text@ == decode_utf8(name@)
                            &&& rt.context().takes_in(cx@)
                            &&& cx.receiver() == rt.context().receiver()
                            &&& final(cx).receiver() == final(rt).context().receiver()
                            &&& match res {
                                Ok(id) => handed_out(
                                    rt.filesystem(),
                                    *final(cx),
                                    id,
                                    caller,
                                    rt.entry_ttl(),
                                    r,
                                    final(rt).nodes(),
                                ),
                                Err(e) => r == Reply::Error(e) && final(rt).nodes() == final(cx)@,
                            }
                        }
                } else {
                    r == Reply::Error(Errno::EILSEQ) && *final(rt) == *rt
                }
            },
{
    lemma_stats_tell();
}

/// A directory is created in the directory and under the name, with the mode and
/// the umask of the request, and handed out as an entry.
pub proof fn law_mkdir_request<F: NodeFs>(
    parent: u64,
    name: &[u8],
    mode: u32,
    caller: &Caller,
    r: Reply<'static>,
)
    ensures
        forall|rt: &mut Runtime<F>| #[trigger]
            call_ensures(session::mkdir_shim::<F>, (rt, parent, name, mode, caller), r) ==> {
                if valid_utf8(name@) {
                    &&& keeps_settings(*rt, *final(rt))
                    &&& final(rt).open_handles() == rt.open_handles()
                    &&& exists|text: &str, cx: &mut Cx<F::Node>, res: Result<NodeId, Errno>|
                        {
                            &&& #[trigger] call_ensures(
                                F::mkdir,
                                (
                                    &rt.filesystem(),
                                    cx,
                                    NodeId::of(parent),
                                    text,
                                    mode,
                                    caller.umask,
                                    caller,
                                ),
                                res,
                            )
                            &&& text@ == decode_utf8(name@)
                            &&& rt.context().takes_in(cx@)
                            &&& cx.receiver() == rt.context().receiver()
                            &&& final(cx).receiver() == final(rt).context().receiver()
                            &&& match res {
                                Ok(id) => handed_out(
                                    rt.filesystem(),
                                    *final(cx),
                                    id,
                                    caller,
                                    rt.entry_ttl(),
                                    r,
                                    final(rt).nodes(),
                                ),
                                Err(e) => r == Reply::Error(e) && final(rt).nodes() == final(cx)@,
                            }
                        }
                } else {
                    r == Reply::Error(Errno::EILSEQ) && *final(rt) == *rt
                }
            },
{
    lemma_stats_tell();
}

/// A symbolic link is created under the name of the request, to its target, and
/// handed out as an entry.
pub proof fn law_symlink_request<F: NodeFs>(
    link: &[u8],
    parent: u64,
    name: &[u8],
    caller: &Caller,
    r: Reply<'static>,
)
    ensures
        forall|rt: &mut Runtime<F>| #[trigger]
            call_ensures(session::symlink_shim::<F>, (rt, link, parent, name, caller), r) ==> {
                if valid_utf8(name@) && valid_utf8(link@) {
                    &&& keeps_settings(*rt, *final(rt))
                    &&& final(rt).open_handles() == rt.open_handles()
                    &&& exists|
                        text: &str,
                        target: &str,
                        cx: &mut Cx<F::Node>,
                        res: Result<NodeId, Errno>,
                    |
                        {
                            &&& #[trigger] call_ensures(
                                F::symlink,
                                (&rt.filesystem(), cx, NodeId::of(parent), text, target, caller),
                                res,
                            )
                            &&& text@ == decode_utf8(name@)
                            &&& target@ == decode_utf8(link@)
                            &&& rt.context().takes_in(cx@)
                            &&& cx.receiver() == rt.context().receiver()
                            &&& final(cx).receiver() == final(rt).context().receiver()
                            &&& match res {
                                Ok(id) => handed_out(
                                    rt.filesystem(),
                                    *final(cx),
                                    id,
                                    caller,
                                    rt.entry_ttl(),
                                    r,
                                    final(rt).nodes(),
                                ),
                                Err(e) => r == Reply::Error(e) && final(rt).nodes() == final(cx)@,
                            }
                        }
                } else {
                    r == Reply::Error(Errno::EILSEQ) && *final(rt) == *rt
                }
            },
{
    lemma_stats_tell();
}

/// A node gets another name, in the directory that the request names, and is handed
/// out as an entry.
pub proof fn law_link_request<F: NodeFs>(
    ino: u64,
    newparent: u64,
    newname: &[u8],
    caller: &Caller,
    r: Reply<'static>,
)
    ensures
        forall|rt: &mut Runtime<F>| #[trigger]
            call_ensures(session::link_shim::<F>, (rt, ino, newparent, newname, caller), r) ==> {
                if valid_utf8(newname@) {
                    &&& keeps_settings(*rt, *final(rt))
                    &&& final(rt).open_handles() == rt.open_handles()
                    &&& exists|text: &str, cx: &mut Cx<F::Node>, res: Result<NodeId, Errno>|
                        {
                            &&& #[trigger] call_ensures(
                                F::link,
                                (
                                    &rt.filesystem(),
                                    cx,
                                    NodeId::of(ino),
                                    NodeId::of(newparent),
                                    text,
                                    caller,
                                ),
                                res,
                            )
                            &&& text@ == decode_utf8(newname@)
                            &&& rt.context().takes_in(cx@)
                            &&& cx.receiver() == rt.context().receiver()
                            &&& final(cx).receiver() == final(rt).context().receiver()
                            &&& match res {
                                Ok(id) => handed_out(
                                    rt.filesystem(),
                                    *final(cx),
                                    id,
                                    caller,
                                    rt.entry_ttl(),
                                    r,
                                    final(rt).nodes(),
                                ),
                                Err(e) => r == Reply::Error(e) && final(rt).nodes() == final(cx)@,
                            }
                        }
                } else {
                    r == Reply::Error(Errno::EILSEQ) && *final(rt) == *rt
                }
            },
{
    lemma_stats_tell();
}

/// A lookup asks the filesystem for the name in the directory of the request. What
/// it finds is handed out as an entry; what it does not find is answered with inode
/// number 0, to be remembered for as long as the runtime says.
pub proof fn law_lookup_request<F: NodeFs>(
    parent: u64,
    name: &[u8],
    caller: &Caller,
    r: Reply<'static>,
)
    ensures
        forall|rt: &mut Runtime<F>| #[trigger]
            call_ensures(session::lookup_shim::<F>, (rt, parent, name, caller), r) ==> {
                if valid_utf8(name@) {
                    &&& keeps_settings(*rt, *final(rt))
                    &&& final(rt).open_handles() == rt.open_handles()
                    &&& exists|
                        text: &str,
                        cx: &mut Cx<F::Node>,
                        res: Result<Option<NodeId>, Errno>,
                    |
                        {
                            &&& #[trigger] call_ensures(
                                F::lookup,
                                (&rt.filesystem(), cx, NodeId::of(parent), text, caller),
                                res,
                            )
                            &&& text@ == decode_utf8(name@)
                            &&& rt.context().takes_in(cx@)
                            &&& cx.receiver() == rt.context().receiver()
                            &&& final(cx).receiver() == final(rt).context().receiver()
                            &&& match res {
                                Ok(Some(id)) => handed_out(
                                    rt.filesystem(),
                                    *final(cx),
                                    id,
                                    caller,
                                    rt.entry_ttl(),
                                    r,
                                    final(rt).nodes(),
                                ),
                                Ok(None) => {
                                    &&& r matches Reply::Entry(p)
                                    &&& p.ino == 0 && p.generation == 0 && blank(p.attr)
                                    &&& time::duration_nanos(p.attr_timeout) == 0
                                    &&& p.entry_timeout == rt.negative_entry_ttl()
                                    &&& final(rt).nodes() == final(cx)@
                                },
                                Err(e) => r == Reply::Error(e) && final(rt).nodes() == final(cx)@,
                            }
                        }
                } else {
                    r == Reply::Error(Errno::EILSEQ) && *final(rt) == *rt
                }
            },
{
    lemma_stats_tell();
}

/// A name that is no directory's is removed from the directory of the request.
pub proof fn law_unlink_request<F: NodeFs>(
    parent: u64,
    name: &[u8],
    caller: &Caller,
    r: Reply<'static>,
)
    ensures
        forall|rt: &mut Runtime<F>| #[trigger]
            call_ensures(session::unlink_shim::<F>, (rt, parent, name, caller), r) ==> {
                if valid_utf8(name@) {
                    &&& keeps_settings(*rt, *final(rt))
                    &&& final(rt).open_handles() == rt.open_handles()
                    &&& exists|text: &str, cx: &mut Cx<F::Node>, res: Result<(), Errno>|
                        {
                            &&& #[trigger] call_ensures(
                                F::unlink,
                                (&rt.filesystem(), cx, NodeId::of(parent), text, caller),
                                res,
                            )
                            &&& text@ == decode_utf8(name@)
                            &&& rt.context().takes_in(cx@)
                            &&& cx.receiver() == rt.context().receiver()
                            &&& final(cx).receiver() == final(rt).context().receiver()
                            &&& final(rt).context() == *final(cx)
                            &&& match res {
                                Ok(ok) => r == Reply::<'static>::Done,
                                Err(e) => r == Reply::Error(e),
                            }
                        }
                } else {
                    r == Reply::Error(Errno::EILSEQ) && *final(rt) == *rt
                }
            },
{
}

/// A directory is removed from the directory of the request.
pub proof fn law_rmdir_request<F: NodeFs>(
    parent: u64,
    name: &[u8],
    caller: &Caller,
    r: Reply<'static>,
)
    ensures
        forall|rt: &mut Runtime<F>| #[trigger]
            call_ensures(session::rmdir_shim::<F>, (rt, parent, name, caller), r) ==> {
                if valid_utf8(name@) {
                    &&& keeps_settings(*rt, *final(rt))
                    &&& final(rt).open_handles() == rt.open_handles()
                    &&& exists|text: &str, cx: &mut Cx<F::Node>, res: Result<(), Errno>|
                        {
                            &&& #[trigger] call_ensures(
                                F::rmdir,
                                (&rt.filesystem(), cx, NodeId::of(parent), text, caller),
                                res,
                            )
                            &&& text@ == decode_utf8(name@)
                            &&& rt.context().takes_in(cx@)
                            &&& cx.receiver() == rt.context().receiver()
                            &&& final(cx).receiver() == final(rt).context().receiver()
                            &&& final(rt).context() == *final(cx)
                            &&& match res {
                                Ok(ok) => r == Reply::<'static>::Done,
                                Err(e) => r == Reply::Error(e),
                            }
                        }
                } else {
                    r == Reply::Error(Errno::EILSEQ) && *final(rt) == *rt
                }
            },
{
}

/// A renaming goes from the first directory and name of the request to the second,
/// with its flags.
pub proof fn law_rename_request<F: NodeFs>(
    parent: u64,
    name: &[u8],
    newparent: u64,
    newname: &[u8],
    flags: u32,
    caller: &Caller,
    r: Reply<'static>,
)
    ensures
        forall|rt: &mut Runtime<F>| #[trigger]
            call_ensures(
                session::rename_shim::<F>,
                (rt, parent, name, newparent, newname, flags, caller),
                r,
            ) ==> {
                if valid_utf8(name@) && valid_utf8(newname@) {
                    &&& keeps_settings(*rt, *final(rt))
                    &&& final(rt).open_handles() == rt.open_handles()
                    &&& exists|
                        text: &str,
                        newtext: &str,
                        cx: &mut Cx<F::Node>,
                        res: Result<(), Errno>,
                    |
                        {
                            &&& #[trigger] call_ensures(
                                F::rename,
                                (
                                    &rt.filesystem(),
                                    cx,
                                    NodeId::of(parent),
                                    text,
                                    NodeId::of(newparent),
                                    newtext,
                                    flags,
                                    caller,
                                ),
                                res,
                            )
                            &&& text@ == decode_utf8(name@)
                            &&& newtext@ == decode_utf8(newname@)
                            &&& rt.context().takes_in(cx@)
                            &&& cx.receiver() == rt.context().receiver()
                            &&& final(cx).receiver() == final(rt).context().receiver()
                            &&& final(rt).context() == *final(cx)
                            &&& match res {
                                Ok(ok) => r == Reply::<'static>::Done,
                                Err(e) => r == Reply::Error(e),
                            }
                        }
                } else {
                    r == Reply::Error(Errno::EILSEQ) && *final(rt) == *rt
                }
            },
{
}

/// A range is copied from the first node and offset of the request to the second,
/// and the answer is how many bytes were.
pub proof fn law_copy_file_range_request<F: NodeFs>(
    ino_in: u64,
    off_in: i64,
    ino_out: u64,
    off_out: i64,
    len: usize,
    flags: i32,
    caller: &Caller,
    r: Reply<'static>,
)
    ensures
        forall|rt: &mut Runtime<F>| #[trigger]
            call_ensures(
                session::copy_file_range_shim::<F>,
                (rt, ino_in, off_in, ino_out, off_out, len, flags, caller),
                r,
            ) ==> {
                &&& keeps_settings(*rt, *final(rt))
                &&& final(rt).open_handles() == rt.open_handles()
                &&& exists|cx: &mut Cx<F::Node>, res: Result<usize, Errno>|
                    {
                        &&& #[trigger] call_ensures(
                            F::copy_file_range,
                            (
                                &rt.filesystem(),
                                cx,
                                NodeId::of(ino_in),
                                off_in as u64,
                                NodeId::of(ino_out),
                                off_out as u64,
                                len as u64,
                                flags,
                                caller,
                            ),
                            res,
                        )
                        &&& rt.context().takes_in(cx@)
                        &&& cx.receiver() == rt.context().receiver()
                        &&& final(rt).context() == *final(cx)
                        &&& match res {
                            Ok(ok) => r == Reply::<'static>::Written(ok),
                            Err(e) => r == Reply::Error(e),
                        }
                    }
            },
{
}

/// An open hands the filesystem the flags of the request. Its handle is kept under a
/// number that was never used, which the answer carries together with the
/// filesystem's hints, and one open handle more is counted on the node. An open
/// that fails leaves no trace.
pub proof fn law_open_request<F: NodeFs>(
    ino: u64,
    fi: RawFileInfo,
    caller: &Caller,
    r: Reply<'static>,
)
    ensures
        forall|rt: &mut Runtime<F>| #[trigger]
            call_ensures(session::open_shim::<F>, (rt, ino, fi, caller), r) ==> {
                let (was, has) = (rt.open_handles(), final(rt).open_handles());
                let post = final(rt).nodes();
                &&& keeps_settings(*rt, *final(rt))
                &&& exists|now: TableView<F::Node>| #[trigger]
                    rt.context().takes_in(now) && if !now.slots.contains_key(ino) {
                        r == Reply::Error(Errno::ENOENT) && post == now && has == was
                    } else {
                        exists|res: Result<Opened<F::Handle>, Errno>|
                            {
                                &&& #[trigger] call_ensures(
                                    F::open,
                                    (
                                        &rt.filesystem(),
                                        &*now.slots[ino].record,
                                        fi.flags,
                                        caller,
                                    ),
                                    res,
                                )
                                &&& match res {
                                    Err(e) => r == Reply::Error(e) && post == now && has == was,
                                    Ok(opened) => if now.slots[ino].opens == u32::MAX
                                        || was.next_fh == u64::MAX {
                                        r == Reply::Error(Errno::EIO) && post == now && has == was
                                    } else {
                                        &&& r matches Reply::Open(raw)
                                        &&& opened_as(raw, fi, was.next_fh, opened.hints)
                                        &&& post == one_more_open(now, ino)
                                        &&& has.files == was.files.insert(
                                            was.next_fh,
                                            opened.handle,
                                        )
                                        &&& has.dirs == was.dirs
                                        &&& has.next_fh == was.next_fh + 1
                                    },
                                }
                            }
                    }
            },
{
}

/// Opening a directory: like opening a file, among the directories.
pub proof fn law_opendir_request<F: NodeFs>(
    ino: u64,
    fi: RawFileInfo,
    caller: &Caller,
    r: Reply<'static>,
)
    ensures
        forall|rt: &mut Runtime<F>| #[trigger]
            call_ensures(session::opendir_shim::<F>, (rt, ino, fi, caller), r) ==> {
                let (was, has) = (rt.open_handles(), final(rt).open_handles());
                let post = final(rt).nodes();
                &&& keeps_settings(*rt, *final(rt))
                &&& exists|now: TableView<F::Node>| #[trigger]
                    rt.context().takes_in(now) && if !now.slots.contains_key(ino) {
                        r == Reply::Error(Errno::ENOENT) && post == now && has == was
                    } else {
                        exists|res: Result<Opened<F::DirHandle>, Errno>|
                            {
                                &&& #[trigger] call_ensures(
                                    F::opendir,
                                    (
                                        &rt.filesystem(),
                                        &*now.slots[ino].record,
                                        fi.flags,
                                        caller,
                                    ),
                                    res,
                                )
                                &&& match res {
                                    Err(e) => r == Reply::Error(e) && post == now && has == was,
                                    Ok(opened) => if now.slots[ino].opens == u32::MAX
                                        || was.next_fh == u64::MAX {
                                        r == Reply::Error(Errno::EIO) && post == now && has == was
                                    } else {
                                        &&& r matches Reply::Open(raw)
                                        &&& opened_as(raw, fi, was.next_fh, opened.hints)
                                        &&& post == one_more_open(now, ino)
                                        &&& has.dirs == was.dirs.insert(was.next_fh, opened.handle)
                                        &&& has.files == was.files
                                        &&& has.next_fh == was.next_fh + 1
                                    },
                                }
                            }
                    }
            },
{
}

/// A release gives the handle of the request back to the filesystem, under the node
/// of the request; its number is gone, and one open handle less is counted on the
/// node. A number that is no open file is answered with `EBADF`.
pub proof fn law_release_request<F: NodeFs>(
    ino: u64,
    fi: RawFileInfo,
    caller: &Caller,
    r: Reply<'static>,
)
    ensures
        forall|rt: &mut Runtime<F>| #[trigger]
            call_ensures(session::release_shim::<F>, (rt, ino, fi, caller), r) ==> {
                let (was, has) = (rt.open_handles(), final(rt).open_handles());
                let post = final(rt).nodes();
                &&& keeps_settings(*rt, *final(rt))
                &&& has.files == was.files.remove(fi.fh)
                &&& has.dirs == was.dirs && has.next_fh == was.next_fh
                &&& exists|now: TableView<F::Node>| #[trigger]
                    rt.context().takes_in(now) && if !was.files.contains_key(fi.fh) {
                        r == Reply::Error(Errno::EBADF) && post == now
                    } else if !now.slots.contains_key(ino) {
                        r == Reply::Error(Errno::ENOENT) && post == now
                    } else {
                        &&& lifetime::becomes(
                            now,
                            ino,
                            Slot {
                                opens: lifetime::less(now.slots[ino].opens as int, 1) as u32,
                                ..now.slots[ino]
                            },
                            post,
                        )
                        &&& exists|res: Result<(), Errno>|
                            {
                                &&& #[trigger] call_ensures(
                                    F::release,
                                    (
                                        &rt.filesystem(),
                                        &*now.slots[ino].record,
                                        was.files[fi.fh],
                                        caller,
                                    ),
                                    res,
                                )
                                &&& match res {
                                    Ok(_) => r == Reply::<'static>::Done,
                                    Err(e) => r == Reply::Error(e),
                                }
                            }
                    }
            },
{
    lifetime::lemma_becomes::<F::Node>();
}

/// A release of a directory gives its handle back to the filesystem; a number that is
/// no open directory stands for a handle of the default value. One open handle less
/// is counted on the node.
pub proof fn law_releasedir_request<F: NodeFs>(
    ino: u64,
    fi: RawFileInfo,
    caller: &Caller,
    r: Reply<'static>,
)
    ensures
        forall|rt: &mut Runtime<F>| #[trigger]
            call_ensures(session::releasedir_shim::<F>, (rt, ino, fi, caller), r) ==> {
                let (was, has) = (rt.open_handles(), final(rt).open_handles());
                let post = final(rt).nodes();
                &&& keeps_settings(*rt, *final(rt))
                &&& has.dirs == was.dirs.remove(fi.fh)
                &&& has.files == was.files && has.next_fh == was.next_fh
                &&& exists|now: TableView<F::Node>| #[trigger]
                    rt.context().takes_in(now) && if !now.slots.contains_key(ino) {
                        r == Reply::Error(Errno::ENOENT) && post == now
                    } else {
                        &&& lifetime::becomes(
                            now,
                            ino,
                            Slot {
                                opens: lifetime::less(now.slots[ino].opens as int, 1) as u32,
                                ..now.slots[ino]
                            },
                            post,
                        )
                        &&& exists|handle: F::DirHandle, res: Result<(), Errno>|
                            {
                                &&& #[trigger] call_ensures(
                                    F::releasedir,
                                    (
                                        &rt.filesystem(),
                                        &*now.slots[ino].record,
                                        handle,
                                        caller,
                                    ),
                                    res,
                                )
                                &&& is_dir_handle::<F>(was.dirs, fi.fh, handle)
                                &&& match res {
                                    Ok(_) => r == Reply::<'static>::Done,
                                    Err(e) => r == Reply::Error(e),
                                }
                            }
                    }
            },
{
    lifetime::lemma_becomes::<F::Node>();
}

/// A sync of a directory is of data alone exactly if the request says so; a number
/// that is no open directory stands for a handle of the default value.
pub proof fn law_fsyncdir_request<F: NodeFs>(
    ino: u64,
    datasync: i32,
    fi: RawFileInfo,
    caller: &Caller,
    r: Reply<'static>,
)
    ensures
        forall|rt: &mut Runtime<F>| #[trigger]
            call_ensures(session::fsyncdir_shim::<F>, (rt, ino, datasync, fi, caller), r) ==> {
                let nodes = final(rt).nodes();
                &&& keeps_all(*rt, *final(rt))
                &&& if !nodes.slots.contains_key(ino) {
                    r == Reply::Error(Errno::ENOENT)
                } else {
                    exists|handle: F::DirHandle, data_only: bool, res: Result<(), Errno>|
                        {
                            &&& #[trigger] call_ensures(
                                F::fsyncdir,
                                (
                                    &rt.filesystem(),
                                    &*nodes.slots[ino].record,
                                    &handle,
                                    data_only,
                                    caller,
                                ),
                                res,
                            )
                            &&& data_only == (datasync != 0)
                            &&& is_dir_handle::<F>(rt.open_handles().dirs, fi.fh, handle)
                            &&& match res {
                                Ok(_) => r == Reply::<'static>::Done,
                                Err(e) => r == Reply::Error(e),
                            }
                        }
                }
            },
{
}

/// Whether a callback gets the handle of an open directory, else one of the
/// default value.
pub open spec fn is_dir_handle<F: NodeFs>(
    dirs: Map<u64, F::DirHandle>,
    fh: u64,
    handle: F::DirHandle,
) -> bool {
    if dirs.contains_key(fh) {
        handle == dirs[fh]
    } else {
        call_ensures(<F::DirHandle as Default>::default, (), handle)
    }
}



/// A listing asks the filesystem for the entries of the directory from the offset of
/// the request on, with the directory's own number and its parent's, into an empty
/// buffer of the size that was asked for. The answer is what the buffer then holds;
/// nothing is the end of the directory.
pub proof fn law_readdir_request<
    F: NodeFs + ReadDir<DirListing<P>>,
    P: Fn(DirRecord<'_>) -> Vec<u8>,
>(
    ino: u64,
    size: usize,
    off: i64,
    fi: RawFileInfo,
    caller: &Caller,
    pack: P,
    r: Reply<'static>,
)
    ensures
        forall|rt: &mut Runtime<F>| #[trigger]
            call_ensures(
                session::readdir_shim::<F, P>,
                (rt, ino, size, off, fi, caller, pack),
                r,
            ) ==> {
                let nodes = final(rt).nodes();
                &&& keeps_all(*rt, *final(rt))
                &&& if !nodes.slots.contains_key(ino) {
                    r == Reply::Error(Errno::ENOENT)
                } else {
                    exists|handle: F::DirHandle, sink: &mut DirListing<P>, res: Result<(), Errno>|
                        {
                            &&& #[trigger] call_ensures(
                                <F as ReadDir<DirListing<P>>>::readdir,
                                (
                                    &rt.filesystem(),
                                    &*nodes.slots[ino].record,
                                    NodeId::of(ino),
                                    nodes.slots[ino].parent,
                                    &handle,
                                    off as u64,
                                    sink,
                                    caller,
                                ),
                                res,
                            )
                            &&& is_dir_handle::<F>(rt.open_handles().dirs, fi.fh, handle)
                            &&& sink.buf.contents().len() == 0
                            &&& sink.buf.capacity() == size
                            &&& sink.buf.format() == DirBufferFormat::Plain
                            &&& sink.buf.packer() == pack
                            &&& match res {
                                Ok(_) => if final(sink).buf.contents().len() == 0 {
                                    r == Reply::<'static>::EndOfStream
                                } else {
                                    &&& r matches Reply::Data(sent)
                                    &&& sent@ == final(sink).buf.contents()
                                },
                                Err(e) => r == Reply::Error(e),
                            }
                        }
                }
            },
{
}

/// A listing with entries: the same, in the other format.
pub proof fn law_readdirplus_request<
    F: NodeFs + ReadDir<DirListing<P>>,
    P: Fn(DirRecord<'_>) -> Vec<u8>,
>(
    ino: u64,
    size: usize,
    off: i64,
    fi: RawFileInfo,
    caller: &Caller,
    pack: P,
    r: Reply<'static>,
)
    ensures
        forall|rt: &mut Runtime<F>| #[trigger]
            call_ensures(
                session::readdirplus_shim::<F, P>,
                (rt, ino, size, off, fi, caller, pack),
                r,
            ) ==> {
                let nodes = final(rt).nodes();
                &&& keeps_all(*rt, *final(rt))
                &&& if !nodes.slots.contains_key(ino) {
                    r == Reply::Error(Errno::ENOENT)
                } else {
                    exists|handle: F::DirHandle, sink: &mut DirListing<P>, res: Result<(), Errno>|
                        {
                            &&& #[trigger] call_ensures(
                                <F as ReadDir<DirListing<P>>>::readdir,
                                (
                                    &rt.filesystem(),
                                    &*nodes.slots[ino].record,
                                    NodeId::of(ino),
                                    nodes.slots[ino].parent,
                                    &handle,
                                    off as u64,
                                    sink,
                                    caller,
                                ),
                                res,
                            )
                            &&& is_dir_handle::<F>(rt.open_handles().dirs, fi.fh, handle)
                            &&& sink.buf.contents().len() == 0
                            &&& sink.buf.capacity() == size
                            &&& sink.buf.format() == DirBufferFormat::PlusFallback
                            &&& sink.buf.packer() == pack
                            &&& match res {
                                Ok(_) => if final(sink).buf.contents().len() == 0 {
                                    r == Reply::<'static>::EndOfStream
                                } else {
                                    &&& r matches Reply::Data(sent)
                                    &&& sent@ == final(sink).buf.contents()
                                },
                                Err(e) => r == Reply::Error(e),
                            }
                        }
                }
            },
{
}

/// What comes of handing out a new node `id` as an entry together with the handle
/// of the file that was opened on it: where the entry is handed out, the handle
/// gets a number that was never used and is counted on the node.
pub open spec fn created<F: NodeFs>(
    fs: F,
    cx: Cx<F::Node>,
    was: HandlesView<F::Handle, F::DirHandle>,
    caller: &Caller,
    ttl: Duration,
    fi: RawFileInfo,
    id: NodeId,
    opened: Opened<F::Handle>,
    r: Reply<'static>,
    post: TableView<F::Node>,
    has: HandlesView<F::Handle, F::DirHandle>,
) -> bool {
    exists|entry: Reply<'static>, entered: TableView<F::Node>|
        {
            &&& #[trigger] handed_out(fs, cx, id, caller, ttl, entry, entered)
            &&& match entry {
                Reply::Entry(p) => if entered.slots[p.ino].opens == u32::MAX || was.next_fh
                    == u64::MAX {
                    r == Reply::Error(Errno::EIO) && post == entered && has == was
                } else {
                    &&& r matches Reply::Create(q, raw)
                    &&& q == p
                    &&& opened_as(raw, fi, was.next_fh, opened.hints)
                    &&& post == one_more_open(entered, p.ino)
                    &&& has.files == was.files.insert(was.next_fh, opened.handle)
                    &&& has.dirs == was.dirs
                    &&& has.next_fh == was.next_fh + 1
                },
                _ => r == entry && post == entered && has == was,
            }
        }
}

/// What the runtime makes of a new file is what comes of it.
proof fn lemma_created<F: NodeFs>()
    ensures
        forall|
            fs: F,
            cx: Cx<F::Node>,
            was: HandlesView<F::Handle, F::DirHandle>,
            caller: &Caller,
            ttl: Duration,
            fi: RawFileInfo,
            id: NodeId,
            opened: Opened<F::Handle>,
            res: Result<(EntryReply, OpenReply), Errno>,
            post: TableView<F::Node>,
            has: HandlesView<F::Handle, F::DirHandle>,
        |
            #![trigger
                runtime::create_answered(fs, cx, was, caller, Ok((id, opened)), res, post, has),
                reply::create_replied(res, ttl, fi)
            ]
            runtime::create_answered(fs, cx, was, caller, Ok((id, opened)), res, post, has)
                ==> created(
                fs,
                cx,
                was,
                caller,
                ttl,
                fi,
                id,
                opened,
                reply::create_replied(res, ttl, fi),
                post,
                has,
            ),
{
    lemma_stats_tell();
    assert forall|
        fs: F,
        cx: Cx<F::Node>,
        was: HandlesView<F::Handle, F::DirHandle>,
        caller: &Caller,
        ttl: Duration,
        fi: RawFileInfo,
        id: NodeId,
        opened: Opened<F::Handle>,
        res: Result<(EntryReply, OpenReply), Errno>,
        post: TableView<F::Node>,
        has: HandlesView<F::Handle, F::DirHandle>,
    |
        #![trigger
            runtime::create_answered(fs, cx, was, caller, Ok((id, opened)), res, post, has),
            reply::create_replied(res, ttl, fi)
        ]
        runtime::create_answered(
            fs,
            cx,
            was,
            caller,
            Ok((id, opened)),
            res,
            post,
            has,
        ) implies created(
        fs,
        cx,
        was,
        caller,
        ttl,
        fi,
        id,
        opened,
        reply::create_replied(res, ttl, fi),
        post,
        has,
    ) by {
        let (entry, entered) = choose|entry: Result<EntryReply, Errno>, entered: TableView<F::Node>|
            {
                &&& #[trigger] runtime::entry_given(fs, cx, id, caller, entry, entered)
                &&& match entry {
                    Err(e) => res == Err::<(EntryReply, OpenReply), Errno>(e) && post == entered
                        && has == was,
                    Ok(entry) => exists|open: Result<OpenReply, Errno>|
                        {
                            &&& #[trigger] runtime::file_open_answered(
                                entered,
                                was,
                                id.number(),
                                opened,
                                open,
                                post,
                                has,
                            )
                            &&& res == match open {
                                Ok(open) => Ok::<(EntryReply, OpenReply), Errno>((entry, open)),
                                Err(e) => Err::<(EntryReply, OpenReply), Errno>(e),
                            }
                        },
                }
            };
        let sent = reply::entry_replied(entry, ttl);
        assert(handed_out(fs, cx, id, caller, ttl, sent, entered));
    }
}

/// A file is created in the directory and under the name, with the mode, the umask and
/// the flags of the request. It is handed out as an entry, and its handle gets a
/// number that was never used and is counted on it.
pub proof fn law_create_request<F: NodeFs>(
    parent: u64,
    name: &[u8],
    mode: u32,
    fi: RawFileInfo,
    caller: &Caller,
    r: Reply<'static>,
)
    ensures
        forall|rt: &mut Runtime<F>| #[trigger]
            call_ensures(session::create_shim::<F>, (rt, parent, name, mode, fi, caller), r) ==> {
                let (was, has) = (rt.open_handles(), final(rt).open_handles());
                let post = final(rt).nodes();
                if valid_utf8(name@) {
                    &&& keeps_settings(*rt, *final(rt))
                    &&& exists|
                        text: &str,
                        cx: &mut Cx<F::Node>,
                        res: Result<(NodeId, Opened<F::Handle>), Errno>,
                    |
                        {
                            &&& #[trigger] call_ensures(
                                F::create,
                                (
                                    &rt.filesystem(),
                                    cx,
                                    NodeId::of(parent),
                                    text,
                                    mode,
                                    caller.umask,
                                    fi.flags,
                                    caller,
                                ),
                                res,
                            )
                            &&& text@ == decode_utf8(name@)
                            &&& rt.context().takes_in(cx@)
                            &&& cx.receiver() == rt.context().receiver()
                            &&& final(cx).receiver() == final(rt).context().receiver()
                            &&& match res {
                                Err(e) => r == Reply::Error(e) && post == final(cx)@ && has == was,
                                Ok((id, opened)) => created(
                                    rt.filesystem(),
                                    *final(cx),
                                    was,
                                    caller,
                                    rt.entry_ttl(),
                                    fi,
                                    id,
                                    opened,
                                    r,
                                    post,
                                    has,
                                ),
                            }
                        }
                } else {
                    r == Reply::Error(Errno::EILSEQ) && *final(rt) == *rt
                }
            },
{
    lemma_stats_tell();
    lemma_created::<F>();
}

/// Statistics are those that the filesystem gives.
pub proof fn law_statfs_request<F: NodeFs>(
    rt: &Runtime<F>,
    ino: u64,
    caller: &Caller,
    r: Reply<'static>,
)
    ensures
        call_ensures(session::statfs_shim::<F>, (rt, ino, caller), r) ==> exists|
            res: Result<StatFs, Errno>,
        |
            {
                &&& #[trigger] call_ensures(F::statfs, (&rt.filesystem(), caller), res)
                &&& match res {
                    Ok(stats) => r == Reply::<'static>::StatFs(stats),
                    Err(e) => r == Reply::Error(e),
                }
            },
{
}

/// The filesystem sees the connection as the kernel offers it, with parallel directory
/// operations asked for exactly if the runtime wants them or they were on; what it
/// makes of it is what the kernel gets.
pub proof fn law_init_request<F: NodeFs>(
    rt: &Runtime<F>,
)
    ensures
        forall|conn: &mut ConnInfo| #[trigger]
            call_ensures(session::init_shim::<F>, (rt, conn), ()) ==> exists|c: &mut ConnInfo|
                {
                    &&& #[trigger] call_ensures(F::init, (&rt.filesystem(), c), ())
                    &&& c.proto_major == conn.proto_major && c.proto_minor == conn.proto_minor
                    &&& c.max_write == conn.max_write && c.max_readahead == conn.max_readahead
                    &&& c.parallel_directory_operations == (rt.wants_parallel_dirops()
                        || conn.parallel_directory_operations)
                    &&& *final(c) == *final(conn)
                },
        call_ensures(session::destroy_shim::<F>, (rt,), ()) ==> call_ensures(
            F::destroy,
            (&rt.filesystem(),),
            (),
        ),
{
}

/// How many lookups of a node are forgotten, all pairs taken together.
pub open spec fn forgets_of(forgets: Seq<(u64, u64)>, ino: u64) -> int
    decreases forgets.len(),
{
    if forgets.len() == 0 {
        0
    } else {
        forgets_of(forgets.drop_last(), ino) + if forgets.last().0 == ino {
            forgets.last().1 as int
        } else {
            0
        }
    }
}

/// Whether the node `ino` is in `post` as it comes out of `v` after the kernel forgot
/// lookups: it has as many less as are forgotten of it, and is there exactly as long
/// as anything refers to it; the number of one that is gone is free, with the next
/// generation.
pub open spec fn node_forgotten_by<N>(
    v: TableView<N>,
    forgets: Seq<(u64, u64)>,
    post: TableView<N>,
    ino: u64,
) -> bool {
    let was = v.slots[ino];
    let lookups = lifetime::less(was.lookups as int, forgets_of(forgets, ino));
    let slot = Slot { lookups: lookups as u64, ..was };
    let generation = if was.generation == u64::MAX {
        0
    } else {
        (was.generation + 1) as u64
    };
    &&& post.slots.contains_key(ino) <==> v.slots.contains_key(ino) && lifetime::referred_to(slot)
    &&& post.slots.contains_key(ino) ==> post.slots[ino] == slot
    &&& v.slots.contains_key(ino) && !post.slots.contains_key(ino) ==> post.free.contains(
        (ino, generation),
    )
}

/// Whether `post` are the nodes `v` after the kernel forgot lookups. What no pair
/// names is as it was.
pub open spec fn forgotten_by<N>(
    v: TableView<N>,
    forgets: Seq<(u64, u64)>,
    post: TableView<N>,
) -> bool {
    &&& post.next_ino == v.next_ino
    &&& v.free.is_prefix_of(post.free)
    &&& forall|ino: u64| #[trigger] node_forgotten_by(v, forgets, post, ino)
}

proof fn lemma_forgets_add_up<N>(v: TableView<N>, forgets: Seq<(u64, u64)>)
    requires
        v.valid(),
    ensures
        session::all_forgotten(v, forgets).valid(),
        forgotten_by(v, forgets, session::all_forgotten(v, forgets)),
    decreases forgets.len(),
{
    let post = session::all_forgotten(v, forgets);
    if forgets.len() == 0 {
        assert forall|ino: u64| #[trigger] node_forgotten_by(v, forgets, post, ino) by {
            if v.slots.contains_key(ino) {
                assert(!v.slots[ino].unreferenced());
            }
        }
    } else {
        let (last, n) = forgets.last();
        let w = session::all_forgotten(v, forgets.drop_last());
        lemma_forgets_add_up(v, forgets.drop_last());
        assert(post == w.forgotten(last, n));
        lifetime::law_step_keeps_table_valid(w, lifetime::Step::Forget(last, n));
        assert(w.free.is_prefix_of(post.free));
        assert forall|ino: u64| #[trigger] node_forgotten_by(v, forgets, post, ino) by {
            assert(node_forgotten_by(v, forgets.drop_last(), w, ino));
            lemma_one_more_forgotten(v, forgets, w, ino);
        }
    }
}

proof fn lemma_one_more_forgotten<N>(
    v: TableView<N>,
    forgets: Seq<(u64, u64)>,
    w: TableView<N>,
    ino: u64,
)
    requires
        forgets.len() > 0,
        w.valid(),
        node_forgotten_by(v, forgets.drop_last(), w, ino),
    ensures
        node_forgotten_by(v, forgets, w.forgotten(forgets.last().0, forgets.last().1), ino),
{
    let (last, n) = forgets.last();
    let post = w.forgotten(last, n);
    lemma_forgets_are_not_negative(forgets.drop_last(), ino);
    assert forall|x: (u64, u64)| w.free.contains(x) implies post.free.contains(x) by {
        let i = choose|i: int| 0 <= i < w.free.len() && w.free[i] == x;
        assert(post.free[i] == x);
    }
    if ino == last && w.slots.contains_key(last) {
        let slot = Slot {
            lookups: lifetime::less(w.slots[last].lookups as int, n as int) as u64,
            ..w.slots[last]
        };
        lifetime::lemma_becomes::<N>();
        assert(w.with(last, slot).pruned(last) == post);
        assert(lifetime::becomes(w, last, slot, post));
        if !lifetime::referred_to(slot) {
            assert(post.free[post.free.len() - 1].0 == last);
        }
    }
}

proof fn lemma_forgets_are_not_negative(forgets: Seq<(u64, u64)>, ino: u64)
    ensures
        forgets_of(forgets, ino) >= 0,
    decreases forgets.len(),
{
    if forgets.len() > 0 {
        lemma_forgets_are_not_negative(forgets.drop_last(), ino);
    }
}

/// Of pairs that name different nodes each counts for its own node, and a node that
/// none names has nothing forgotten.
pub proof fn law_pairs_count_for_their_own_node(forgets: Seq<(u64, u64)>, i: int, ino: u64)
    requires
        forall|a: int, b: int|
            0 <= a < b < forgets.len() ==> (#[trigger] forgets[a]).0 != (#[trigger] forgets[b]).0,
    ensures
        0 <= i < forgets.len() ==> forgets_of(forgets, forgets[i].0) == forgets[i].1,
        (forall|a: int| 0 <= a < forgets.len() ==> (#[trigger] forgets[a]).0 != ino)
            ==> forgets_of(forgets, ino) == 0,
    decreases forgets.len(),
{
    if forgets.len() > 0 {
        let fewer = forgets.drop_last();
        assert forall|a: int| 0 <= a < fewer.len() implies fewer[a] == forgets[a] by {}
        law_pairs_count_for_their_own_node(fewer, i, ino);
        if i == forgets.len() - 1 {
            law_pairs_count_for_their_own_node(fewer, 0, forgets[i].0);
        }
    }
}

proof fn lemma_all_forgets_add_up<N>()
    ensures
        forall|v: TableView<N>, forgets: Seq<(u64, u64)>|
            v.valid() ==> forgotten_by(v, forgets, #[trigger] session::all_forgotten(v, forgets)),
        forall|v: TableView<N>, ino: u64, n: u64|
            v.valid() ==> forgotten_by(v, seq![(ino, n)], #[trigger] v.forgotten(ino, n)),
{
    assert forall|v: TableView<N>, forgets: Seq<(u64, u64)>| v.valid() implies forgotten_by(
        v,
        forgets,
        #[trigger] session::all_forgotten(v, forgets),
    ) by {
        lemma_forgets_add_up(v, forgets);
    }
    assert forall|v: TableView<N>, ino: u64, n: u64| v.valid() implies forgotten_by(
        v,
        seq![(ino, n)],
        #[trigger] v.forgotten(ino, n),
    ) by {
        let one = seq![(ino, n)];
        assert(one.drop_last() =~= Seq::empty());
        assert(one.last() == (ino, n));
        lemma_forgets_add_up(v, one);
        assert(session::all_forgotten(v, one.drop_last()) == v);
    }
}

/// A request to forget takes as many lookups of the node back as it says, and one to
/// forget several does so for each of its pairs; a node goes with its last reference.
/// Neither is answered. To forget one pair is the same as a request for it alone.
pub proof fn law_forget_requests<F: NodeFs>(
    ino: u64,
    n: u64,
    forgets: &[(u64, u64)],
    r: Reply<'static>,
)
    ensures
        forall|rt: &mut Runtime<F>| #[trigger]
            call_ensures(session::forget_shim::<F>, (rt, ino, n), r) ==> {
                &&& r is Silence
                &&& keeps_settings(*rt, *final(rt))
                &&& final(rt).open_handles() == rt.open_handles()
                &&& exists|now: TableView<F::Node>| #[trigger]
                    rt.context().takes_in(now) && forgotten_by(
                        now,
                        seq![(ino, n)],
                        final(rt).nodes(),
                    )
            },
        forall|rt: &mut Runtime<F>| #[trigger]
            call_ensures(session::forget_multi_shim::<F>, (rt, forgets), r) ==> {
                &&& r is Silence
                &&& keeps_settings(*rt, *final(rt))
                &&& final(rt).open_handles() == rt.open_handles()
                &&& exists|now: TableView<F::Node>| #[trigger]
                    rt.context().takes_in(now) && forgotten_by(
                        now,
                        forgets@,
                        final(rt).nodes(),
                    )
            },
{
    lemma_all_forgets_add_up::<F::Node>();
}

/// A runtime starts with the filesystem's root alone, which the filesystem may then
/// populate; entries are kept for one second, and nothing is open.
pub proof fn law_runtime_starts_with_the_root<F: NodeFs>(
    fs: F,
    rt: Runtime<F>,
)
    ensures
        call_ensures(Runtime::<F>::new, (fs,), rt) ==> {
            &&& exists|fs0: &mut F, root: F::Node, fs1: &mut F, cx: &mut Cx<F::Node>|
                {
                    &&& #[trigger] call_ensures(F::root, (fs0,), root)
                    &&& *fs0 == fs
                    &&& #[trigger] call_ensures(F::populate, (fs1, cx), ())
                    &&& *fs1 == *final(fs0)
                    &&& lifetime::starts_at_root(cx@, root)
                    &&& rt.filesystem() == *final(fs1)
                    &&& rt.nodes() == final(cx)@
                }
            &&& forall|fh: u64|
                !rt.open_handles().files.contains_key(fh) && !rt.open_handles().dirs.contains_key(
                    fh,
                )
            &&& rt.open_handles().next_fh == 1
            &&& time::duration_nanos(rt.entry_ttl()) == 1_000_000_000
            &&& time::duration_nanos(rt.negative_entry_ttl()) == 1_000_000_000
            &&& !rt.wants_parallel_dirops()
        },
{
    crate::node::law_node_id_is_its_number(NodeId::of(1), 1);
}

/// A setting of a runtime is told as it was set, and setting it changes nothing else.
pub proof fn law_settings_are_set_one_by_one<F: NodeFs>(
    rt: &Runtime<F>,
    ttl: Duration,
    negative: Duration,
    value: Duration,
    on: bool,
)
    ensures
        call_ensures(Runtime::<F>::ttl, (rt,), ttl) ==> ttl == rt.entry_ttl(),
        call_ensures(Runtime::<F>::negative_ttl, (rt,), negative) ==> negative
            == rt.negative_entry_ttl(),
        forall|rt: &mut Runtime<F>| #[trigger]
            call_ensures(Runtime::<F>::set_ttl, (rt, value), ()) ==> {
                &&& final(rt).entry_ttl() == value
                &&& final(rt).negative_entry_ttl() == rt.negative_entry_ttl()
                &&& final(rt).wants_parallel_dirops() == rt.wants_parallel_dirops()
                &&& final(rt).filesystem() == rt.filesystem()
                &&& final(rt).nodes() == rt.nodes()
                &&& final(rt).open_handles() == rt.open_handles()
            },
        forall|rt: &mut Runtime<F>| #[trigger]
            call_ensures(Runtime::<F>::set_negative_ttl, (rt, value), ()) ==> {
                &&& final(rt).negative_entry_ttl() == value
                &&& final(rt).entry_ttl() == rt.entry_ttl()
                &&& final(rt).wants_parallel_dirops() == rt.wants_parallel_dirops()
                &&& final(rt).filesystem() == rt.filesystem()
                &&& final(rt).nodes() == rt.nodes()
                &&& final(rt).open_handles() == rt.open_handles()
            },
        forall|rt: &mut Runtime<F>| #[trigger]
            call_ensures(Runtime::<F>::set_parallel_dirops, (rt, on), ()) ==> {
                &&& final(rt).wants_parallel_dirops() == on
                &&& final(rt).entry_ttl() == rt.entry_ttl()
                &&& final(rt).negative_entry_ttl() == rt.negative_entry_ttl()
                &&& final(rt).filesystem() == rt.filesystem()
                &&& final(rt).nodes() == rt.nodes()
                &&& final(rt).open_handles() == rt.open_handles()
            },
{
}

/// A lease that a runtime gives is counted on the node that was asked for, and stands
/// for it; and the counts that it tells are the node's own.
pub proof fn law_runtime_leases_and_counts<F: NodeFs>(
    ino: u64,
    leased: Result<NodeRef<F::Node>, Errno>,
    counts: Option<(u32, u64, u32, u32)>,
)
    ensures
        forall|rt: &mut Runtime<F>| #[trigger]
            call_ensures(Runtime::<F>::node, (rt, ino), leased) ==> {
                &&& keeps_settings(*rt, *final(rt))
                &&& final(rt).open_handles() == rt.open_handles()
                &&& exists|now: TableView<F::Node>|
                    {
                        let slot = now.slots[ino];
                        &&& #[trigger] rt.context().takes_in(now)
                        &&& match leased {
                            Ok(lease) => {
                                &&& now.slots.contains_key(ino)
                                &&& final(rt).nodes().slots == now.slots.insert(
                                    ino,
                                    Slot { leases: (slot.leases + 1) as u32, ..slot },
                                )
                                &&& final(rt).nodes().free == now.free
                                &&& final(rt).nodes().next_ino == now.next_ino
                                &&& lease.node_id().number() == ino
                                &&& lease.node_generation() == slot.generation
                                &&& lease.payload() == *slot.record
                                &&& lease.comes_back_to() == Some(rt.way_in())
                            },
                            Err(e) => {
                                &&& !now.slots.contains_key(ino) && e == Errno::ENOENT
                                &&& final(rt).nodes() == now
                            },
                        }
                    }
            },
        forall|rt: &mut Runtime<F>| #[trigger]
            call_ensures(Runtime::<F>::counts, (rt, ino), counts) ==> {
                let slot = final(rt).nodes().slots[ino];
                &&& keeps_all(*rt, *final(rt))
                &&& match counts {
                    Some((links, lookups, opens, leases)) => {
                        &&& final(rt).nodes().slots.contains_key(ino)
                        &&& links == slot.links && lookups == slot.lookups
                        &&& opens == slot.opens && leases == slot.leases
                    },
                    None => !final(rt).nodes().slots.contains_key(ino),
                }
            },
{
    crate::node::law_node_id_is_its_number(NodeId::of(ino), ino);
}

/// A read with a continuation runs it once on what the filesystem gave, or on the
/// error, and gives back what it gives.
pub proof fn law_read_runs_its_continuation<
    F: NodeFs,
    R,
    P: FnOnce(Result<Cow<'_, [u8]>, Errno>) -> R,
>(ino: u64, fh: u64, offset: u64, size: usize, caller: &Caller, reply: P, r: R)
    ensures
        forall|rt: &mut Runtime<F>| #[trigger]
            call_ensures(
                Runtime::<F>::read::<R, P>,
                (rt, ino, fh, offset, size, caller, reply),
                r,
            ) ==> {
                let nodes = final(rt).nodes();
                &&& keeps_all(*rt, *final(rt))
                &&& exists|data: Result<Cow<'_, [u8]>, Errno>| #[trigger]
                    reply.ensures((data,), r) && if !nodes.slots.contains_key(ino) {
                        data is Err && data->Err_0 is ENOENT
                    } else if !rt.open_handles().files.contains_key(fh) {
                        data is Err && data->Err_0 is EBADF
                    } else {
                        call_ensures(
                            F::read,
                            (
                                &rt.filesystem(),
                                &*nodes.slots[ino].record,
                                &rt.open_handles().files[fh],
                                offset,
                                size,
                                caller,
                            ),
                            data,
                        )
                    }
            },
{
}

/// A lease that is given back to a runtime is counted off the node that it was taken
/// on, as long as that node is there, which goes with its last reference; taking
/// dropped leases in changes nothing else.
pub proof fn law_runtime_takes_leases_back<F: NodeFs>(node: NodeRef<F::Node>)
    ensures
        forall|rt: &mut Runtime<F>| #[trigger]
            call_ensures(Runtime::<F>::release_node, (rt, node), ()) && rt.valid() ==> {
                &&& keeps_settings(*rt, *final(rt))
                &&& final(rt).open_handles() == rt.open_handles()
                &&& exists|now: TableView<F::Node>|
                    {
                        let ino = node.node_id().number();
                        let slot = now.slots[ino];
                        &&& #[trigger] rt.context().takes_in(now)
                        &&& if now.slots.contains_key(ino) && slot.generation
                            == node.node_generation() {
                            lifetime::becomes(
                                now,
                                ino,
                                Slot {
                                    leases: lifetime::less(slot.leases as int, 1) as u32,
                                    ..slot
                                },
                                final(rt).nodes(),
                            )
                        } else {
                            final(rt).nodes() == now
                        }
                    }
            },
        forall|rt: &mut Runtime<F>| #[trigger]
            call_ensures(Runtime::<F>::reclaim, (rt,), ()) ==> keeps_all(*rt, *final(rt)),
{
    lifetime::lemma_becomes::<F::Node>();
    lifetime::lemma_taken_in::<F::Node>();
}

/// An error of the filesystem is the answer, whatever was asked.
pub proof fn law_errors_are_answered_as_they_are(
    e: Errno,
    ino: u64,
    size: usize,
    ttl: Duration,
    negative_ttl: Duration,
    fi: RawFileInfo,
    listed: Vec<u8>,
    r: Reply<'static>,
)
    ensures
        call_ensures(reply::reply_lookup, (Err(e), ttl, negative_ttl), r) ==> r == Reply::Error(e),
        call_ensures(reply::reply_entry, (Err(e), ttl), r) ==> r == Reply::Error(e),
        call_ensures(reply::reply_attr, (ino, Err(e), ttl), r) ==> r == Reply::Error(e),
        call_ensures(reply::reply_done, (Err(e),), r) ==> r == Reply::Error(e),
        call_ensures(reply::reply_readlink, (Err(e),), r) ==> r == Reply::Error(e),
        call_ensures(reply::reply_open, (Err(e), fi), r) ==> r == Reply::Error(e),
        call_ensures(reply::reply_create, (Err(e), ttl, fi), r) ==> r == Reply::Error(e),
        call_ensures(reply::reply_read, (Err(e), size), r) ==> r == Reply::Error(e),
        call_ensures(reply::reply_write, (Err(e),), r) ==> r == Reply::Error(e),
        call_ensures(reply::reply_dir_buf, (Err(e), listed), r) ==> r == Reply::Error(e),
        call_ensures(reply::reply_xattr, (Err(e), size), r) ==> r == Reply::Error(e),
        call_ensures(reply::reply_lseek, (Err(e),), r) ==> r == Reply::Error(e),
        call_ensures(reply::reply_statfs, (Err(e),), r) ==> r == Reply::Error(e),
{
}

/// An entry or the attributes of a node are told field by field; that there is no
/// entry is told by an entry without a number, which is all zero but for the time
/// that it may be kept.
pub proof fn law_nodes_are_told_field_by_field(
    entry: EntryReply,
    opened: OpenReply,
    fi: RawFileInfo,
    ttl: Duration,
    negative_ttl: Duration,
    p: EntryParam,
    r: Reply<'static>,
)
    ensures
        call_ensures(reply::entry_to_entry_param, (&entry, ttl), p) ==> enters(
            p,
            entry.ino,
            entry.generation,
            entry.attr,
            ttl,
        ),
        call_ensures(
            reply::reply_lookup,
            (Ok(LookupReply::Found(entry)), ttl, negative_ttl),
            r,
        ) ==> {
            &&& r matches Reply::Entry(told)
            &&& enters(told, entry.ino, entry.generation, entry.attr, ttl)
        },
        call_ensures(reply::reply_entry, (Ok(entry), ttl), r) ==> {
            &&& r matches Reply::Entry(told)
            &&& enters(told, entry.ino, entry.generation, entry.attr, ttl)
        },
        call_ensures(reply::reply_create, (Ok((entry, opened)), ttl, fi), r) ==> {
            &&& r matches Reply::Create(told, raw)
            &&& enters(told, entry.ino, entry.generation, entry.attr, ttl)
            &&& opened_as(raw, fi, opened.fh, opened.hints)
        },
        call_ensures(reply::reply_open, (Ok(opened), fi), r) ==> {
            &&& r matches Reply::Open(raw)
            &&& opened_as(raw, fi, opened.fh, opened.hints)
        },
        call_ensures(reply::reply_attr, (entry.ino, Ok(entry.attr), ttl), r) ==> {
            &&& r matches Reply::Attr(st, kept)
            &&& tells(st, entry.ino, entry.attr)
            &&& kept == ttl
        },
        call_ensures(reply::negative_entry_param, (negative_ttl,), p) ==> {
            &&& p.ino == 0 && p.generation == 0 && blank(p.attr)
            &&& time::duration_nanos(p.attr_timeout) == 0
            &&& p.entry_timeout == negative_ttl
        },
        call_ensures(
            reply::reply_lookup,
            (Ok(LookupReply::Negative), ttl, negative_ttl),
            r,
        ) ==> {
            &&& r matches Reply::Entry(told)
            &&& told.ino == 0 && told.generation == 0 && blank(told.attr)
            &&& time::duration_nanos(told.attr_timeout) == 0
            &&& told.entry_timeout == negative_ttl
        },
{
    lemma_stats_tell();
}

/// What the filesystem gives is sent as it gave it. Only a read is cut at what was
/// asked for; a link's target that holds a zero byte cannot be sent, nor a value
/// that is longer than was asked for, and an empty listing is the end.
pub proof fn law_values_are_sent_as_given(
    target: String,
    data: Cow<'static, [u8]>,
    value: Vec<u8>,
    length: usize,
    size: usize,
    position: u64,
    stats: StatFs,
    r: Reply<'static>,
)
    ensures
        call_ensures(reply::reply_done, (Ok(()),), r) ==> r == Reply::Done,
        call_ensures(reply::reply_readlink, (Ok(target),), r) ==> if target@.contains('\0') {
            r == Reply::Error(Errno::EINVAL)
        } else {
            r == Reply::Link(target)
        },
        call_ensures(reply::reply_read, (Ok(data), size), r) ==> {
            &&& r matches Reply::Data(sent)
            &&& sent@.len() == if data@.len() < size {
                data@.len()
            } else {
                size as nat
            }
            &&& forall|i: int| 0 <= i < sent@.len() ==> sent@[i] == data@[i]
        },
        call_ensures(reply::reply_write, (Ok(length),), r) ==> r == Reply::Written(length),
        call_ensures(reply::reply_dir_buf, (Ok(()), value), r) ==> if value@.len() == 0 {
            r is EndOfStream
        } else {
            r matches Reply::Data(sent) && sent@ == value@
        },
        call_ensures(reply::reply_xattr, (Ok(XattrReply::Size(length)), size), r) ==> if size
            == 0 {
            r == Reply::XattrSize(length)
        } else {
            r == Reply::Error(Errno::EIO)
        },
        call_ensures(reply::reply_xattr, (Ok(XattrReply::Data(value)), size), r) ==> if size
            == 0 {
            r matches Reply::XattrSize(told) && told == value@.len()
        } else if value@.len() <= size {
            r matches Reply::Data(sent) && sent@ == value@
        } else {
            r == Reply::Error(Errno::ERANGE)
        },
        call_ensures(reply::reply_lseek, (Ok(position),), r) ==> {
            &&& r matches Reply::Position(told)
            &&& told as u64 == position
        },
        call_ensures(reply::reply_statfs, (Ok(stats),), r) ==> r == Reply::StatFs(stats),
{
    assert((position as i64) as u64 == position) by (bit_vector);
}

/// A node is entered by counting one lookup more of it, and nothing else changes; one
/// that is gone, or is looked up as often as can be counted, is not entered.
pub proof fn law_entering_counts_one_lookup<F: NodeFs>(
    id: NodeId,
    attr: NodeAttr,
    r: Result<EntryReply, Errno>,
)
    ensures
        forall|rt: &mut Runtime<F>| #[trigger]
            call_ensures(Runtime::<F>::enter, (rt, id, attr), r) ==> {
                let (pre, post, ino) = (rt.nodes(), final(rt).nodes(), id.number());
                &&& keeps_settings(*rt, *final(rt))
                &&& final(rt).open_handles() == rt.open_handles()
                &&& if !pre.slots.contains_key(ino) {
                    r == Err::<EntryReply, Errno>(Errno::ENOENT) && post == pre
                } else if pre.slots[ino].lookups == u64::MAX {
                    r == Err::<EntryReply, Errno>(Errno::EIO) && post == pre
                } else {
                    &&& r matches Ok(entry)
                    &&& entry.ino == ino
                    &&& entry.generation == pre.slots[ino].generation
                    &&& entry.attr == attr
                    &&& post == one_more_lookup(pre, ino)
                }
            },
{
}

/// A handle that the filesystem opened is kept under a number that was never used and
/// counted on its node; where the node is gone, or no more can be counted or
/// numbered, nothing is kept.
pub proof fn law_opened_handles_are_numbered<F: NodeFs>(
    ino: u64,
    file: Opened<F::Handle>,
    dir: Opened<F::DirHandle>,
    r: Result<OpenReply, Errno>,
)
    ensures
        forall|rt: &mut Runtime<F>| #[trigger]
            call_ensures(Runtime::<F>::file_opened, (rt, ino, file), r) ==> {
                let (was, has) = (rt.open_handles(), final(rt).open_handles());
                let (pre, post) = (rt.nodes(), final(rt).nodes());
                &&& keeps_settings(*rt, *final(rt))
                &&& if !pre.slots.contains_key(ino) {
                    r == Err::<OpenReply, Errno>(Errno::ENOENT) && post == pre && has == was
                } else if pre.slots[ino].opens == u32::MAX || was.next_fh == u64::MAX {
                    r == Err::<OpenReply, Errno>(Errno::EIO) && post == pre && has == was
                } else {
                    &&& r matches Ok(told)
                    &&& told.fh == was.next_fh && told.hints == file.hints
                    &&& post == one_more_open(pre, ino)
                    &&& has.files == was.files.insert(was.next_fh, file.handle)
                    &&& has.dirs == was.dirs
                    &&& has.next_fh == was.next_fh + 1
                }
            },
        forall|rt: &mut Runtime<F>| #[trigger]
            call_ensures(Runtime::<F>::dir_opened, (rt, ino, dir), r) ==> {
                let (was, has) = (rt.open_handles(), final(rt).open_handles());
                let (pre, post) = (rt.nodes(), final(rt).nodes());
                &&& keeps_settings(*rt, *final(rt))
                &&& if !pre.slots.contains_key(ino) {
                    r == Err::<OpenReply, Errno>(Errno::ENOENT) && post == pre && has == was
                } else if pre.slots[ino].opens == u32::MAX || was.next_fh == u64::MAX {
                    r == Err::<OpenReply, Errno>(Errno::EIO) && post == pre && has == was
                } else {
                    &&& r matches Ok(told)
                    &&& told.fh == was.next_fh && told.hints == dir.hints
                    &&& post == one_more_open(pre, ino)
                    &&& has.dirs == was.dirs.insert(was.next_fh, dir.handle)
                    &&& has.files == was.files
                    &&& has.next_fh == was.next_fh + 1
                }
            },
{
}

/// Setting attributes hands the filesystem all that is asked for; the answer is its
/// own, or `ENOENT` if there is no such node.
pub proof fn law_attributes_are_set_as_asked<F: NodeFs>(
    ino: u64,
    set: &SetAttrs,
    caller: &Caller,
    r: Result<NodeAttr, Errno>,
)
    ensures
        forall|rt: &mut Runtime<F>| #[trigger]
            call_ensures(Runtime::<F>::setattr, (rt, ino, set, caller), r) ==> {
                let nodes = final(rt).nodes();
                &&& keeps_all(*rt, *final(rt))
                &&& if nodes.slots.contains_key(ino) {
                    call_ensures(
                        F::setattr,
                        (&rt.filesystem(), &*nodes.slots[ino].record, set, caller),
                        r,
                    )
                } else {
                    r == Err::<NodeAttr, Errno>(Errno::ENOENT)
                }
            },
{
}

/// What is created is created with the umask that is given, whatever the caller's own
/// is; the entry is that of the node that the filesystem made, or its error is passed
/// on.
pub proof fn law_nodes_are_created_with_the_given_umask<F: NodeFs>(
    parent: u64,
    name: &str,
    mode: u32,
    rdev: u32,
    umask: u32,
    flags: i32,
    caller: &Caller,
    r: Result<EntryReply, Errno>,
    made: Result<(EntryReply, OpenReply), Errno>,
)
    ensures
        forall|rt: &mut Runtime<F>| #[trigger]
            call_ensures(
                Runtime::<F>::mknod,
                (rt, parent, name, mode, rdev, umask, caller),
                r,
            ) ==> exists|cx: &mut Cx<F::Node>, res: Result<NodeId, Errno>|
                {
                    &&& #[trigger] call_ensures(
                        F::mknod,
                        (&rt.filesystem(), cx, NodeId::of(parent), name, mode, rdev, umask, caller),
                        res,
                    )
                    &&& rt.context().takes_in(cx@)
                    &&& match res {
                        Err(e) => {
                            &&& r == Err::<EntryReply, Errno>(e)
                            &&& final(rt).nodes() == final(cx)@
                        },
                        Ok(id) => r matches Ok(entry) ==> entry.ino == id.number(),
                    }
                },
        forall|rt: &mut Runtime<F>| #[trigger]
            call_ensures(
                Runtime::<F>::mkdir,
                (rt, parent, name, mode, umask, caller),
                r,
            ) ==> exists|cx: &mut Cx<F::Node>, res: Result<NodeId, Errno>|
                {
                    &&& #[trigger] call_ensures(
                        F::mkdir,
                        (&rt.filesystem(), cx, NodeId::of(parent), name, mode, umask, caller),
                        res,
                    )
                    &&& rt.context().takes_in(cx@)
                    &&& match res {
                        Err(e) => {
                            &&& r == Err::<EntryReply, Errno>(e)
                            &&& final(rt).nodes() == final(cx)@
                        },
                        Ok(id) => r matches Ok(entry) ==> entry.ino == id.number(),
                    }
                },
        forall|rt: &mut Runtime<F>| #[trigger]
            call_ensures(
                Runtime::<F>::create,
                (rt, parent, name, mode, umask, flags, caller),
                made,
            ) ==> exists|cx: &mut Cx<F::Node>, res: Result<(NodeId, Opened<F::Handle>), Errno>|
                {
                    &&& #[trigger] call_ensures(
                        F::create,
                        (
                            &rt.filesystem(),
                            cx,
                            NodeId::of(parent),
                            name,
                            mode,
                            umask,
                            flags,
                            caller,
                        ),
                        res,
                    )
                    &&& rt.context().takes_in(cx@)
                    &&& match res {
                        Err(e) => {
                            &&& made == Err::<(EntryReply, OpenReply), Errno>(e)
                            &&& final(rt).nodes() == final(cx)@
                        },
                        Ok((id, _)) => made matches Ok((entry, _)) ==> entry.ino == id.number(),
                    }
                },
{
}

} // verus!
