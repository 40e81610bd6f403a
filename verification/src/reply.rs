//! The replies that the kernel gets, and how results become replies.

use std::borrow::Cow;
use std::time::Duration;

use vstd::prelude::*;

use crate::attr::{Entry, EntryParam, NodeAttr, Stat, StatFs, Timespec};
use crate::errno::Errno;
use crate::node::XattrReply;
use crate::open::{OpenReply, RawFileInfo};
use crate::runtime::{EntryReply, LookupReply};
use crate::text;
use crate::time;

verus! {

/// What is sent to the kernel for one request. Data may be borrowed from the
/// filesystem that it is read from.
#[derive(Debug)]
pub enum Reply<'a> {
    /// The request was done, and there is nothing to tell.
    Done,
    /// The request failed.
    Error(Errno),
    /// The request takes no answer.
    Silence,
    /// An entry and how long it may be kept.
    Entry(EntryParam),
    /// Attributes and how long they may be kept.
    Attr(Stat, Duration),
    /// The target of a symbolic link.
    Link(String),
    /// An open handle.
    Open(RawFileInfo),
    /// A new entry with an open handle.
    Create(EntryParam, RawFileInfo),
    /// Bytes.
    Data(Cow<'a, [u8]>),
    /// The end of a directory.
    EndOfStream,
    /// How many bytes were written.
    Written(usize),
    /// How long an extended attribute is.
    XattrSize(usize),
    /// A position in a file.
    Position(i64),
    /// Filesystem-wide statistics.
    StatFs(StatFs),
}

/// The entry parameter of a node: its attributes and the entry itself may be
/// kept for the same time.
pub open spec fn entry_param(entry: EntryReply, ttl: Duration) -> EntryParam {
    EntryParam {
        ino: entry.ino,
        generation: entry.generation,
        attr: entry.attr.at(entry.ino).stat(),
        attr_timeout: ttl,
        entry_timeout: ttl,
    }
}

/// Builds the entry parameter of a node.
pub fn entry_to_entry_param(entry: &EntryReply, ttl: Duration) -> (p: EntryParam)
    ensures
        p == entry_param(*entry, ttl),
{
    Entry {
        ino: entry.ino,
        generation: entry.generation,
        attr: entry.attr.with_ino(entry.ino),
        attr_timeout: ttl,
        entry_timeout: ttl,
    }.to_entry_param()
}

/// The attributes of nothing.
pub open spec fn no_stat() -> Stat {
    Stat {
        st_ino: 0,
        st_mode: 0,
        st_nlink: 0,
        st_uid: 0,
        st_gid: 0,
        st_rdev: 0,
        st_size: 0,
        st_blocks: 0,
        st_blksize: 0,
        st_atimespec: Timespec { tv_sec: 0, tv_nsec: 0 },
        st_mtimespec: Timespec { tv_sec: 0, tv_nsec: 0 },
        st_ctimespec: Timespec { tv_sec: 0, tv_nsec: 0 },
        st_birthtimespec: Timespec { tv_sec: 0, tv_nsec: 0 },
        st_flags: 0,
    }
}

/// Builds the entry parameter that says that there is no entry: inode number
/// 0, which the kernel may remember for `ttl`.
pub fn negative_entry_param(ttl: Duration) -> (p: EntryParam)
    ensures
        p.ino == 0,
        p.generation == 0,
        p.attr == no_stat(),
        time::duration_nanos(p.attr_timeout) == 0,
        p.entry_timeout == ttl,
{
    let zero = Timespec { tv_sec: 0, tv_nsec: 0 };
    EntryParam {
        ino: 0,
        generation: 0,
        attr: Stat {
            st_ino: 0,
            st_mode: 0,
            st_nlink: 0,
            st_uid: 0,
            st_gid: 0,
            st_rdev: 0,
            st_size: 0,
            st_blocks: 0,
            st_blksize: 0,
            st_atimespec: zero,
            st_mtimespec: zero,
            st_ctimespec: zero,
            st_birthtimespec: zero,
            st_flags: 0,
        },
        attr_timeout: Duration::from_secs(0),
        entry_timeout: ttl,
    }
}

/// What a lookup is answered: an entry, a negative entry or an error.
pub open spec fn lookup_replied(
    res: Result<LookupReply, Errno>,
    ttl: Duration,
    negative_ttl: Duration,
    reply: Reply<'_>,
) -> bool {
    match res {
        Ok(LookupReply::Found(entry)) => reply == Reply::Entry(entry_param(entry, ttl)),
        Ok(LookupReply::Negative) => {
            &&& reply matches Reply::Entry(p)
            &&& p.ino == 0
            &&& p.generation == 0
            &&& p.attr == no_stat()
            &&& time::duration_nanos(p.attr_timeout) == 0
            &&& p.entry_timeout == negative_ttl
        },
        Err(e) => reply == Reply::Error(e),
    }
}

/// Answers a lookup.
pub fn reply_lookup(
    res: Result<LookupReply, Errno>,
    ttl: Duration,
    negative_ttl: Duration,
) -> (reply: Reply<'static>)
    ensures
        lookup_replied(res, ttl, negative_ttl, reply),
{
    match res {
        Ok(LookupReply::Found(entry)) => Reply::Entry(entry_to_entry_param(&entry, ttl)),
        Ok(LookupReply::Negative) => Reply::Entry(negative_entry_param(negative_ttl)),
        Err(e) => Reply::Error(e),
    }
}

/// What the creation of an entry is answered.
pub open spec fn entry_replied(res: Result<EntryReply, Errno>, ttl: Duration) -> Reply<'static> {
    match res {
        Ok(entry) => Reply::Entry(entry_param(entry, ttl)),
        Err(e) => Reply::Error(e),
    }
}

/// Answers the creation of an entry.
pub fn reply_entry(res: Result<EntryReply, Errno>, ttl: Duration) -> (reply: Reply<'static>)
    ensures
        reply == entry_replied(res, ttl),
{
    match res {
        Ok(entry) => Reply::Entry(entry_to_entry_param(&entry, ttl)),
        Err(e) => Reply::Error(e),
    }
}

/// What a request for a node's attributes is answered.
pub open spec fn attr_replied(
    ino: u64,
    res: Result<NodeAttr, Errno>,
    ttl: Duration,
) -> Reply<'static> {
    match res {
        Ok(attr) => Reply::Attr(attr.at(ino).stat(), ttl),
        Err(e) => Reply::Error(e),
    }
}

/// Answers a request for a node's attributes.
pub fn reply_attr(ino: u64, res: Result<NodeAttr, Errno>, ttl: Duration) -> (reply: Reply<'static>)
    ensures
        reply == attr_replied(ino, res, ttl),
{
    match res {
        Ok(attr) => Reply::Attr(attr.with_ino(ino).to_stat(), ttl),
        Err(e) => Reply::Error(e),
    }
}

/// What a request is answered that has nothing to tell but success.
pub open spec fn done_replied(res: Result<(), Errno>) -> Reply<'static> {
    match res {
        Ok(_) => Reply::Done,
        Err(e) => Reply::Error(e),
    }
}

/// Answers a request that has nothing to tell but success.
pub fn reply_done(res: Result<(), Errno>) -> (reply: Reply<'static>)
    ensures
        reply == done_replied(res),
{
    match res {
        Ok(()) => Reply::Done,
        Err(e) => Reply::Error(e),
    }
}

/// What a request for a link's target is answered: `EINVAL` for a target that
/// no C string can hold.
pub open spec fn readlink_replied(res: Result<String, Errno>) -> Reply<'static> {
    match res {
        Ok(target) => if text::nul_free(target@) {
            Reply::Link(target)
        } else {
            Reply::Error(Errno::EINVAL)
        },
        Err(e) => Reply::Error(e),
    }
}

/// Answers a request for a link's target.
pub fn reply_readlink(res: Result<String, Errno>) -> (reply: Reply<'static>)
    ensures
        reply == readlink_replied(res),
{
    match res {
        Ok(target) => if text::contains_nul(target.as_str()) {
            Reply::Error(Errno::EINVAL)
        } else {
            Reply::Link(target)
        },
        Err(e) => Reply::Error(e),
    }
}

/// What an open is answered: the handle and the hints in the request's own
/// file info.
pub open spec fn open_replied(res: Result<OpenReply, Errno>, fi: RawFileInfo) -> Reply<'static> {
    match res {
        Ok(opened) => Reply::Open(opened.applied(fi)),
        Err(e) => Reply::Error(e),
    }
}

/// Answers an open.
pub fn reply_open(res: Result<OpenReply, Errno>, fi: RawFileInfo) -> (reply: Reply<'static>)
    ensures
        reply == open_replied(res, fi),
{
    match res {
        Ok(opened) => Reply::Open(opened.apply_to(fi)),
        Err(e) => Reply::Error(e),
    }
}

/// What the creation of an open file is answered.
pub open spec fn create_replied(
    res: Result<(EntryReply, OpenReply), Errno>,
    ttl: Duration,
    fi: RawFileInfo,
) -> Reply<'static> {
    match res {
        Ok((entry, opened)) => Reply::Create(entry_param(entry, ttl), opened.applied(fi)),
        Err(e) => Reply::Error(e),
    }
}

/// Answers the creation of an open file.
pub fn reply_create(
    res: Result<(EntryReply, OpenReply), Errno>,
    ttl: Duration,
    fi: RawFileInfo,
) -> (reply: Reply<'static>)
    ensures
        reply == create_replied(res, ttl, fi),
{
    match res {
        Ok((entry, opened)) => Reply::Create(
            entry_to_entry_param(&entry, ttl),
            opened.apply_to(fi),
        ),
        Err(e) => Reply::Error(e),
    }
}

/// The first bytes, `size` at most.
pub open spec fn at_most(data: Seq<u8>, size: nat) -> Seq<u8> {
    if data.len() <= size {
        data
    } else {
        data.take(size as int)
    }
}

/// What a read is answered: no more bytes than were asked for, though the
/// filesystem gave more.
pub open spec fn read_replied(
    res: Result<Cow<'_, [u8]>, Errno>,
    size: usize,
    reply: Reply<'_>,
) -> bool {
    match res {
        Ok(data) => reply matches Reply::Data(sent) && sent@ == at_most(data@, size as nat),
        Err(e) => reply == Reply::Error(e),
    }
}

/// Answers a read.
pub fn reply_read<'a>(res: Result<Cow<'a, [u8]>, Errno>, size: usize) -> (reply: Reply<'a>)
    ensures
        read_replied(res, size, reply),
{
    match res {
        Ok(Cow::Borrowed(data)) => if data.len() <= size {
            Reply::Data(Cow::Borrowed(data))
        } else {
            let sent = vstd::slice::slice_subrange(data, 0, size);
            assert(sent@ =~= data@.take(size as int));
            Reply::Data(Cow::Borrowed(sent))
        },
        Ok(Cow::Owned(data)) => {
            let mut sent = data;
            sent.truncate(size);
            assert(sent@ =~= at_most(data@, size as nat));
            Reply::Data(Cow::Owned(sent))
        },
        Err(e) => Reply::Error(e),
    }
}

/// What a write is answered.
pub open spec fn write_replied(res: Result<usize, Errno>) -> Reply<'static> {
    match res {
        Ok(count) => Reply::Written(count),
        Err(e) => Reply::Error(e),
    }
}

/// Answers a write.
pub fn reply_write(res: Result<usize, Errno>) -> (reply: Reply<'static>)
    ensures
        reply == write_replied(res),
{
    match res {
        Ok(count) => Reply::Written(count),
        Err(e) => Reply::Error(e),
    }
}

/// What a listing is answered: an empty one is the end of the directory.
pub open spec fn dir_replied(res: Result<(), Errno>, listed: Seq<u8>, reply: Reply<'_>) -> bool {
    match res {
        Ok(_) => if listed.len() == 0 {
            reply == Reply::EndOfStream
        } else {
            reply matches Reply::Data(sent) && sent@ == listed
        },
        Err(e) => reply == Reply::Error(e),
    }
}

/// Answers a listing.
pub fn reply_dir_buf(res: Result<(), Errno>, listed: Vec<u8>) -> (reply: Reply<'static>)
    ensures
        dir_replied(res, listed@, reply),
{
    match res {
        Ok(()) => if listed.len() == 0 {
            Reply::EndOfStream
        } else {
            Reply::Data(Cow::Owned(listed))
        },
        Err(e) => Reply::Error(e),
    }
}

/// What a request for extended attributes is answered, by the kernel's
/// two-phase protocol. A request for zero bytes asks for the length alone;
/// any other gets the whole value, or `ERANGE` if the value is longer than was
/// asked for. A length cannot answer a request for the value: `EIO`.
pub open spec fn xattr_replied(
    res: Result<XattrReply, Errno>,
    requested_size: usize,
    reply: Reply<'_>,
) -> bool {
    match res {
        Ok(XattrReply::Size(len)) => if requested_size == 0 {
            reply == Reply::XattrSize(len)
        } else {
            reply == Reply::Error(Errno::EIO)
        },
        Ok(XattrReply::Data(data)) => if requested_size == 0 {
            reply matches Reply::XattrSize(len) && len == data@.len()
        } else if data@.len() > requested_size {
            reply == Reply::Error(Errno::ERANGE)
        } else {
            reply matches Reply::Data(sent) && sent@ == data@
        },
        Err(e) => reply == Reply::Error(e),
    }
}

/// Answers a request for extended attributes.
pub fn reply_xattr(res: Result<XattrReply, Errno>, requested_size: usize) -> (reply: Reply<'static>)
    ensures
        xattr_replied(res, requested_size, reply),
{
    match res {
        Ok(XattrReply::Size(len)) => if requested_size == 0 {
            Reply::XattrSize(len)
        } else {
            Reply::Error(Errno::EIO)
        },
        Ok(XattrReply::Data(data)) => if requested_size == 0 {
            Reply::XattrSize(data.len())
        } else if data.len() > requested_size {
            Reply::Error(Errno::ERANGE)
        } else {
            Reply::Data(Cow::Owned(data))
        },
        Err(e) => Reply::Error(e),
    }
}

/// What a seek is answered.
pub open spec fn lseek_replied(res: Result<u64, Errno>) -> Reply<'static> {
    match res {
        Ok(position) => Reply::Position(position as i64),
        Err(e) => Reply::Error(e),
    }
}

/// Answers a seek.
pub fn reply_lseek(res: Result<u64, Errno>) -> (reply: Reply<'static>)
    ensures
        reply == lseek_replied(res),
{
    match res {
        Ok(position) => Reply::Position(
            #[verifier::truncate]
            (position as i64),
        ),
        Err(e) => Reply::Error(e),
    }
}

/// What a request for filesystem-wide statistics is answered.
pub open spec fn statfs_replied(res: Result<StatFs, Errno>) -> Reply<'static> {
    match res {
        Ok(stats) => Reply::StatFs(stats),
        Err(e) => Reply::Error(e),
    }
}

/// Answers a request for filesystem-wide statistics.
pub fn reply_statfs(res: Result<StatFs, Errno>) -> (reply: Reply<'static>)
    ensures
        reply == statfs_replied(res),
{
    match res {
        Ok(stats) => Reply::StatFs(stats),
        Err(e) => Reply::Error(e),
    }
}

/// The data that a read sends is a beginning of what the filesystem gave, and
/// never more than was asked for; nothing is held back that fits.
pub proof fn law_read_sends_what_fits(
    data: Cow<'_, [u8]>,
    size: usize,
    sent: Cow<'_, [u8]>,
)
    requires
        read_replied(Ok(data), size, Reply::Data(sent)),
    ensures
        sent@.is_prefix_of(data@),
        sent@.len() <= size,
        data@.len() <= size ==> sent@ == data@,
        data@.len() > size ==> sent@.len() == size,
{
}

/// An extended attribute is sent whole or not at all: what is sent fits in what
/// was asked for, and a length that was asked for first is enough to ask for
/// the value.
pub proof fn law_xattr_length_is_enough(
    value: Vec<u8>,
    size: usize,
    length: Reply<'_>,
    answer: Reply<'_>,
)
    requires
        xattr_replied(Ok(XattrReply::Data(value)), 0, length),
        xattr_replied(Ok(XattrReply::Data(value)), size, answer),
        size > 0,
    ensures
        length matches Reply::XattrSize(n) && n == value@.len() && if n <= size {
            answer matches Reply::Data(sent) && sent@ == value@ && sent@.len() <= size
        } else {
            answer == Reply::Error(Errno::ERANGE)
        },
{
}

} // verus!
