//! Size-limited buffers for directory listings.
//!
//! The kernel asks for at most a number of bytes of packed directory entries.
//! An entry that no longer fits is refused whole, and the listing goes on with
//! it in the next request.

use std::time::Duration;

use vstd::prelude::*;

use crate::attr;
use crate::attr::{Entry, EntryParam, Stat, Timespec};
use crate::file_type::{FileKind, FileType, Inode};
use crate::node::{DirSink, NodeId};
use crate::text;
use crate::time;

verus! {

/// The wire format [`DirBuffer`] emits entries in. See
/// [`DirBuffer::new_plus_fallback`] for why a `readdir`-shaped buffer ever
/// needs to speak the READDIRPLUS format.
#[derive(Clone, Copy, PartialEq, Eq, Debug, Structural)]
pub enum DirBufferFormat {
    /// Plain `READDIR` entries (the normal case).
    Plain,
    /// `READDIRPLUS`-shaped entries, with a synthesized, non-caching entry
    /// parameter each.
    PlusFallback,
}

/// What stands for one directory entry before libfuse packs it: with the raw
/// attributes for `READDIR`, with a whole entry parameter for `READDIRPLUS`.
#[derive(Clone, Copy, Debug)]
pub enum DirAttr {
    Plain(Stat),
    Plus(EntryParam),
}

/// One directory entry to be packed.
#[derive(Clone, Copy, Debug)]
pub struct DirRecord<'a> {
    pub name: &'a str,
    pub attr: DirAttr,
    pub next_offset: u64,
}

/// The `stat` of a directory entry: the inode number and the file type, all
/// else zero.
pub open spec fn dirent_stat(ino: Inode, kind: FileType) -> Stat {
    Stat {
        st_ino: ino,
        st_mode: kind.mode_bits(),
        st_nlink: 0,
        st_uid: 0,
        st_gid: 0,
        st_rdev: 0,
        st_size: 0,
        st_blocks: 0,
        st_blksize: 0,
        st_atimespec: Timespec { tv_sec: 0, tv_nsec: 0 },
        st_mtimespec: Timespec { tv_sec: 0, tv_nsec: 0 },
        st_ctimespec: Timespec { tv_sec: 0, tv_nsec: 0 },
        st_birthtimespec: Timespec { tv_sec: 0, tv_nsec: 0 },
        st_flags: 0,
    }
}

/// What a buffer holds after a packed entry was offered to it: the entry is
/// appended when it fits, and refused whole when it does not.
pub open spec fn offered(contents: Seq<u8>, capacity: nat, packed: Seq<u8>) -> Seq<u8> {
    if contents.len() + packed.len() <= capacity {
        contents + packed
    } else {
        contents
    }
}

/// Builds the attributes of an entry in the given format. In the fallback
/// format the entry has node ID 0, which tells the kernel that no lookup was
/// performed for it, and is not cached.
fn dirent_attr(format: DirBufferFormat, ino: Inode, kind: FileType) -> (attr: DirAttr)
    ensures
        match format {
            DirBufferFormat::Plain => attr == DirAttr::Plain(dirent_stat(ino, kind)),
            DirBufferFormat::PlusFallback => attr matches DirAttr::Plus(p) && p.ino == 0
                && p.generation == 0 && p.attr == dirent_stat(ino, kind) && time::duration_nanos(
                p.attr_timeout,
            ) == 0 && time::duration_nanos(p.entry_timeout) == 0,
        },
{
    let zero = Timespec { tv_sec: 0, tv_nsec: 0 };
    let st = Stat {
        st_ino: ino,
        st_mode: kind.to_mode_bits(),
        st_nlink: 0,
        st_uid: 0,
        st_gid: 0,
        st_rdev: 0,
        st_size: 0,
        st_blocks: 0,
        st_blksize: 0,
        st_atimespec: zero,
        st_mtimespec: zero,
        st_ctimespec: zero,
        st_birthtimespec: zero,
        st_flags: 0,
    };
    match format {
        DirBufferFormat::Plain => DirAttr::Plain(st),
        DirBufferFormat::PlusFallback => DirAttr::Plus(
            EntryParam {
                ino: 0,
                generation: 0,
                attr: st,
                attr_timeout: Duration::from_secs(0),
                entry_timeout: Duration::from_secs(0),
            },
        ),
    }
}

/// Appends a packed entry if it fits.
fn offer(buf: &mut Vec<u8>, capacity: usize, packed: &Vec<u8>) -> (added: bool)
    requires
        old(buf)@.len() <= capacity,
    ensures
        final(buf)@ == offered(old(buf)@, capacity as nat, packed@),
        added == (old(buf)@.len() + packed@.len() <= capacity),
{
    if packed.len() > capacity - buf.len() {
        return false;
    }
    buf.extend_from_slice(packed.as_slice());
    assert(buf@ =~= old(buf)@ + packed@);
    true
}

/// A `readdir` reply builder implementing libfuse's size-limited directory
/// buffer protocol. `pack` turns an entry into the bytes that libfuse lays it
/// out in; it is called on names without a NUL only.
pub struct DirBuffer<P: Fn(DirRecord<'_>) -> Vec<u8>> {
    pack: P,
    capacity: usize,
    buf: Vec<u8>,
    format: DirBufferFormat,
}

impl<P: Fn(DirRecord<'_>) -> Vec<u8>> DirBuffer<P> {
    #[verifier::type_invariant]
    closed spec fn well_formed(self) -> bool {
        &&& self.buf@.len() <= self.capacity
        &&& forall|rec: DirRecord<'_>|
            text::nul_free(rec.name@) ==> #[trigger] self.pack.requires((rec,))
    }

    /// The packed entries.
    pub closed spec fn contents(self) -> Seq<u8> {
        self.buf@
    }

    /// How many bytes the kernel asked for at most.
    pub closed spec fn capacity(self) -> usize {
        self.capacity
    }

    /// The wire format of the entries.
    pub closed spec fn format(self) -> DirBufferFormat {
        self.format
    }

    /// What packs the entries.
    pub closed spec fn packer(self) -> P {
        self.pack
    }

    /// Whether all but the entries is the same.
    pub open spec fn same_but_contents(self, other: DirBuffer<P>) -> bool {
        &&& self.capacity() == other.capacity()
        &&& self.format() == other.format()
        &&& self.packer() == other.packer()
    }

    /// Whether a record is the one to pack for an entry.
    pub open spec fn is_record(
        self,
        rec: DirRecord<'_>,
        name: &str,
        ino: Inode,
        kind: FileType,
        next_offset: u64,
    ) -> bool {
        &&& rec.name == name
        &&& rec.next_offset == next_offset
        &&& match self.format() {
            DirBufferFormat::Plain => rec.attr == DirAttr::Plain(dirent_stat(ino, kind)),
            DirBufferFormat::PlusFallback => rec.attr matches DirAttr::Plus(p) && p.ino == 0
                && p.generation == 0 && p.attr == dirent_stat(ino, kind) && time::duration_nanos(
                p.attr_timeout,
            ) == 0 && time::duration_nanos(p.entry_timeout) == 0,
        }
    }

    /// Whether an entry can turn the buffer into `post` and give `r`: a name
    /// with an interior NUL is skipped; any other entry is packed, and appended
    /// if it fits.
    pub open spec fn takes(
        self,
        name: &str,
        ino: Inode,
        kind: FileType,
        next_offset: u64,
        post: DirBuffer<P>,
        r: bool,
    ) -> bool {
        &&& post.same_but_contents(self)
        &&& if text::nul_free(name@) {
            exists|rec: DirRecord<'_>, packed: Vec<u8>|
                {
                    &&& self.is_record(rec, name, ino, kind, next_offset)
                    &&& #[trigger] self.packer().ensures((rec,), packed)
                    &&& post.contents() == offered(
                        self.contents(),
                        self.capacity() as nat,
                        packed@,
                    )
                    &&& r == (self.contents().len() + packed@.len() <= self.capacity())
                }
        } else {
            r && post.contents() == self.contents()
        }
    }

    pub fn new(pack: P, size: usize) -> (r: DirBuffer<P>)
        requires
            forall|rec: DirRecord<'_>|
                text::nul_free(rec.name@) ==> #[trigger] pack.requires((rec,)),
        ensures
            r.contents() == Seq::<u8>::empty(),
            r.capacity() == size,
            r.format() == DirBufferFormat::Plain,
            r.packer() == pack,
    {
        DirBuffer { pack, capacity: size, buf: Vec::new(), format: DirBufferFormat::Plain }
    }

    /// Like [`DirBuffer::new`], but emits entries in the READDIRPLUS wire
    /// format instead of plain READDIR.
    ///
    /// libfuse advertises the READDIRPLUS capability to the kernel whenever
    /// that callback is registered, after which the kernel never falls back to
    /// plain READDIR. A filesystem that only implements `readdir` is listed
    /// through such a buffer: each entry has node ID 0, so the kernel links and
    /// caches nothing, and no `forget` has to match it.
    pub fn new_plus_fallback(pack: P, size: usize) -> (r: DirBuffer<P>)
        requires
            forall|rec: DirRecord<'_>|
                text::nul_free(rec.name@) ==> #[trigger] pack.requires((rec,)),
        ensures
            r.contents() == Seq::<u8>::empty(),
            r.capacity() == size,
            r.format() == DirBufferFormat::PlusFallback,
            r.packer() == pack,
    {
        DirBuffer {
            pack,
            capacity: size,
            buf: Vec::new(),
            format: DirBufferFormat::PlusFallback,
        }
    }

    /// Adds one directory entry. Returns `false` (without adding anything) once
    /// the buffer is full, at which point the caller should stop iterating;
    /// returns `true` otherwise, including when a name with an interior NUL,
    /// which cannot occur for real filenames, was silently skipped.
    pub fn add(&mut self, name: &str, ino: Inode, kind: FileType, next_offset: u64) -> (r: bool)
        ensures
            old(self).takes(name, ino, kind, next_offset, *final(self), r),
    {
        if text::contains_nul(name) {
            return true;
        }
        proof {
            use_type_invariant(&*self);
        }
        let rec = DirRecord { name, attr: dirent_attr(self.format, ino, kind), next_offset };
        let packed = (self.pack)(rec);
        self.add_packed(&packed)
    }

    /// Adds an entry that is packed already. Returns `false` (without adding
    /// anything) if it does not fit.
    pub fn add_packed(&mut self, packed: &Vec<u8>) -> (added: bool)
        ensures
            final(self).same_but_contents(*old(self)),
            final(self).contents() == offered(
                old(self).contents(),
                old(self).capacity() as nat,
                packed@,
            ),
            added == (old(self).contents().len() + packed@.len() <= old(self).capacity()),
    {
        proof {
            use_type_invariant(&*self);
        }
        let mut buf = Vec::new();
        std::mem::swap(&mut buf, &mut self.buf);
        let added = offer(&mut buf, self.capacity, packed);
        std::mem::swap(&mut buf, &mut self.buf);
        added
    }

    /// Consumes the buffer, returning ownership of its bytes.
    pub fn into_vec(self) -> (r: Vec<u8>)
        ensures
            r@ == self.contents(),
            r@.len() <= self.capacity(),
    {
        proof {
            use_type_invariant(&self);
        }
        self.buf
    }

    /// The packed entries: never more bytes than the kernel asked for.
    pub fn as_slice(&self) -> (r: &[u8])
        ensures
            r@ == self.contents(),
            r@.len() <= self.capacity(),
    {
        proof {
            use_type_invariant(self);
        }
        self.buf.as_slice()
    }
}

/// A buffer as the sink of a listing.
pub struct DirListing<P: Fn(DirRecord<'_>) -> Vec<u8>> {
    pub buf: DirBuffer<P>,
}

impl<P: Fn(DirRecord<'_>) -> Vec<u8>> DirSink for DirListing<P> {
    fn add(&mut self, name: &str, id: NodeId, kind: FileKind, next_offset: u64) -> (r: bool)
        ensures
            old(self).buf.takes(name, id.number(), kind, next_offset, final(self).buf, r),
    {
        self.buf.add(name, id.ino(), kind, next_offset)
    }
}

/// A `readdirplus` reply builder, the `Entry`-aware counterpart of
/// [`DirBuffer`].
pub struct DirPlusBuffer<P: Fn(DirRecord<'_>) -> Vec<u8>> {
    pack: P,
    capacity: usize,
    buf: Vec<u8>,
}

impl<P: Fn(DirRecord<'_>) -> Vec<u8>> DirPlusBuffer<P> {
    #[verifier::type_invariant]
    closed spec fn well_formed(self) -> bool {
        &&& self.buf@.len() <= self.capacity
        &&& forall|rec: DirRecord<'_>|
            text::nul_free(rec.name@) ==> #[trigger] self.pack.requires((rec,))
    }

    /// The packed entries.
    pub closed spec fn contents(self) -> Seq<u8> {
        self.buf@
    }

    /// How many bytes the kernel asked for at most.
    pub closed spec fn capacity(self) -> usize {
        self.capacity
    }

    /// What packs the entries.
    pub closed spec fn packer(self) -> P {
        self.pack
    }

    /// Whether all but the entries is the same.
    pub open spec fn same_but_contents(self, other: DirPlusBuffer<P>) -> bool {
        self.capacity() == other.capacity() && self.packer() == other.packer()
    }

    pub fn new(pack: P, size: usize) -> (r: DirPlusBuffer<P>)
        requires
            forall|rec: DirRecord<'_>|
                text::nul_free(rec.name@) ==> #[trigger] pack.requires((rec,)),
        ensures
            r.contents() == Seq::<u8>::empty(),
            r.capacity() == size,
            r.packer() == pack,
    {
        DirPlusBuffer { pack, capacity: size, buf: Vec::new() }
    }

    /// Adds one directory entry with full attributes. Same full/skip
    /// semantics as [`DirBuffer::add`].
    pub fn add(&mut self, name: &str, entry: &Entry, next_offset: u64) -> (r: bool)
        ensures
            final(self).same_but_contents(*old(self)),
            !text::nul_free(name@) ==> r && final(self).contents() == old(self).contents(),
            text::nul_free(name@) ==> exists|packed: Vec<u8>|
                {
                    &&& #[trigger] old(self).packer().ensures(
                        (DirRecord {
                            name,
                            attr: DirAttr::Plus(entry.entry_param()),
                            next_offset,
                        },),
                        packed,
                    )
                    &&& final(self).contents() == offered(
                        old(self).contents(),
                        old(self).capacity() as nat,
                        packed@,
                    )
                    &&& r == (old(self).contents().len() + packed@.len() <= old(self).capacity())
                },
    {
        if text::contains_nul(name) {
            return true;
        }
        proof {
            use_type_invariant(&*self);
        }
        let rec = DirRecord { name, attr: DirAttr::Plus(entry.to_entry_param()), next_offset };
        let packed = (self.pack)(rec);
        self.add_packed(&packed)
    }

    /// Adds an entry that is packed already. Returns `false` (without adding
    /// anything) if it does not fit.
    pub fn add_packed(&mut self, packed: &Vec<u8>) -> (added: bool)
        ensures
            final(self).same_but_contents(*old(self)),
            final(self).contents() == offered(
                old(self).contents(),
                old(self).capacity() as nat,
                packed@,
            ),
            added == (old(self).contents().len() + packed@.len() <= old(self).capacity()),
    {
        proof {
            use_type_invariant(&*self);
        }
        let mut buf = Vec::new();
        std::mem::swap(&mut buf, &mut self.buf);
        let added = offer(&mut buf, self.capacity, packed);
        std::mem::swap(&mut buf, &mut self.buf);
        added
    }

    /// Consumes the buffer, returning ownership of its bytes.
    pub fn into_vec(self) -> (r: Vec<u8>)
        ensures
            r@ == self.contents(),
            r@.len() <= self.capacity(),
    {
        proof {
            use_type_invariant(&self);
        }
        self.buf
    }

    /// The packed entries: never more bytes than the kernel asked for.
    pub fn as_slice(&self) -> (r: &[u8])
        ensures
            r@ == self.contents(),
            r@.len() <= self.capacity(),
    {
        proof {
            use_type_invariant(self);
        }
        self.buf.as_slice()
    }
}

/// Offering an entry to a buffer within its capacity leaves it within its
/// capacity and keeps what it held; a refused entry leaves no trace, an
/// accepted one follows what was there.
pub proof fn law_buffer_grows_within_capacity(contents: Seq<u8>, capacity: nat, packed: Seq<u8>)
    requires
        contents.len() <= capacity,
    ensures
        offered(contents, capacity, packed).len() <= capacity,
        contents.is_prefix_of(offered(contents, capacity, packed)),
        contents.len() + packed.len() > capacity ==> offered(contents, capacity, packed)
            == contents,
        contents.len() + packed.len() <= capacity ==> packed.is_suffix_of(
            offered(contents, capacity, packed),
        ),
{
}

/// Whether a `stat` tells a directory entry's number and kind, and nothing else.
pub open spec fn tells_kind(st: Stat, ino: Inode, kind: FileType) -> bool {
    let zero = Timespec { tv_sec: 0, tv_nsec: 0 };
    &&& st.st_ino == ino
    &&& st.st_mode == kind.mode_bits()
    &&& st.st_nlink == 0 && st.st_uid == 0 && st.st_gid == 0 && st.st_rdev == 0
    &&& st.st_size == 0 && st.st_blocks == 0 && st.st_blksize == 0 && st.st_flags == 0
    &&& st.st_atimespec == zero && st.st_mtimespec == zero
    &&& st.st_ctimespec == zero && st.st_birthtimespec == zero
}

/// Whether a buffer that held `was` holds `has` after the bytes of an entry were
/// offered to it: all of them behind what was there, where they fit, else none.
pub open spec fn holds_if_it_fits(
    was: Seq<u8>,
    capacity: usize,
    packed: Seq<u8>,
    has: Seq<u8>,
    r: bool,
) -> bool {
    &&& r <==> was.len() + packed.len() <= capacity
    &&& has == if r {
        was + packed
    } else {
        was
    }
}

/// An entry is packed under its name and its offset, and its record tells its inode
/// number and its kind, in both formats; in the fallback format it also has node ID
/// 0 and is not to be kept. It is added whole if it fits, and not at all if it does
/// not. A name with a NUL is skipped.
pub proof fn law_entry_is_listed_as_it_is<P: Fn(DirRecord<'_>) -> Vec<u8>>(
    name: &str,
    ino: Inode,
    kind: FileType,
    next_offset: u64,
    r: bool,
)
    ensures
        forall|buf: &mut DirBuffer<P>| #[trigger]
            call_ensures(DirBuffer::<P>::add, (buf, name, ino, kind, next_offset), r) ==> {
                &&& final(buf).capacity() == buf.capacity()
                &&& final(buf).format() == buf.format()
                &&& final(buf).packer() == buf.packer()
                &&& if name@.contains('\0') {
                    r && final(buf).contents() == buf.contents()
                } else {
                    exists|rec: DirRecord<'_>, packed: Vec<u8>|
                        {
                            &&& #[trigger] buf.packer().ensures((rec,), packed)
                            &&& rec.name@ == name@
                            &&& rec.next_offset == next_offset
                            &&& match rec.attr {
                                DirAttr::Plain(st) => buf.format() is Plain && tells_kind(
                                    st,
                                    ino,
                                    kind,
                                ),
                                DirAttr::Plus(p) => {
                                    &&& buf.format() is PlusFallback
                                    &&& p.ino == 0 && p.generation == 0
                                    &&& tells_kind(p.attr, ino, kind)
                                    &&& time::duration_nanos(p.attr_timeout) == 0
                                    &&& time::duration_nanos(p.entry_timeout) == 0
                                },
                            }
                            &&& holds_if_it_fits(
                                buf.contents(),
                                buf.capacity(),
                                packed@,
                                final(buf).contents(),
                                r,
                            )
                        }
                }
            },
{
}

/// The sink of a listing passes each entry on as it came: its name, its number, its
/// kind and its offset.
pub proof fn law_sink_passes_entries_on<P: Fn(DirRecord<'_>) -> Vec<u8>>(
    name: &str,
    id: NodeId,
    kind: FileKind,
    next_offset: u64,
    r: bool,
)
    ensures
        forall|sink: &mut DirListing<P>| #[trigger]
            call_ensures(
                <DirListing<P> as DirSink>::add,
                (sink, name, id, kind, next_offset),
                r,
            ) && !name@.contains('\0') ==> exists|rec: DirRecord<'_>, packed: Vec<u8>|
                {
                    &&& #[trigger] sink.buf.packer().ensures((rec,), packed)
                    &&& rec.name@ == name@
                    &&& rec.next_offset == next_offset
                    &&& match rec.attr {
                        DirAttr::Plain(st) => tells_kind(st, id.number(), kind),
                        DirAttr::Plus(p) => p.ino == 0 && tells_kind(p.attr, id.number(), kind),
                    }
                    &&& holds_if_it_fits(
                        sink.buf.contents(),
                        sink.buf.capacity(),
                        packed@,
                        final(sink).buf.contents(),
                        r,
                    )
                },
{
}

/// An entry with attributes is packed under its name and its offset, and its record
/// holds the entry. It is added whole if it fits, and not at all if it does not. A
/// name with a NUL is skipped.
pub proof fn law_full_entry_is_listed_as_it_is<P: Fn(DirRecord<'_>) -> Vec<u8>>(
    name: &str,
    entry: &Entry,
    next_offset: u64,
    r: bool,
)
    ensures
        forall|buf: &mut DirPlusBuffer<P>| #[trigger]
            call_ensures(DirPlusBuffer::<P>::add, (buf, name, entry, next_offset), r) ==> {
                &&& final(buf).capacity() == buf.capacity()
                &&& final(buf).packer() == buf.packer()
                &&& if name@.contains('\0') {
                    r && final(buf).contents() == buf.contents()
                } else {
                    exists|rec: DirRecord<'_>, packed: Vec<u8>|
                        {
                            &&& #[trigger] buf.packer().ensures((rec,), packed)
                            &&& rec.name@ == name@
                            &&& rec.next_offset == next_offset
                            &&& rec.attr matches DirAttr::Plus(p)
                            &&& p.ino == entry.ino && p.generation == entry.generation
                            &&& attr::holds(p.attr, entry.attr)
                            &&& p.attr_timeout == entry.attr_timeout
                            &&& p.entry_timeout == entry.entry_timeout
                            &&& holds_if_it_fits(
                                buf.contents(),
                                buf.capacity(),
                                packed@,
                                final(buf).contents(),
                                r,
                            )
                        }
                }
            },
{
    attr::lemma_stat_holds(entry.attr);
}

/// Packed entries are added whole if they fit, and not at all if they do not; a new
/// buffer is empty and has the size that was asked for; and what is taken out of a
/// buffer is what it holds.
pub proof fn law_buffers_hold_what_was_packed<P: Fn(DirRecord<'_>) -> Vec<u8>>(
    pack: P,
    size: usize,
    packed: &Vec<u8>,
    r: bool,
    plain: DirBuffer<P>,
    fallback: DirBuffer<P>,
    plus: DirPlusBuffer<P>,
    out: Vec<u8>,
    plus_out: Vec<u8>,
)
    requires
        call_ensures(DirBuffer::<P>::new, (pack, size), plain),
        call_ensures(DirBuffer::<P>::new_plus_fallback, (pack, size), fallback),
        call_ensures(DirPlusBuffer::<P>::new, (pack, size), plus),
        call_ensures(DirBuffer::<P>::into_vec, (plain,), out),
        call_ensures(DirPlusBuffer::<P>::into_vec, (plus,), plus_out),
    ensures
        plain.capacity() == size && plain.packer() == pack && plain.format() is Plain,
        fallback.capacity() == size && fallback.packer() == pack,
        fallback.format() is PlusFallback && fallback.contents().len() == 0,
        plus.capacity() == size && plus.packer() == pack,
        out@ == plain.contents() && out@.len() == 0,
        plus_out@ == plus.contents() && plus_out@.len() == 0,
        forall|buf: &mut DirBuffer<P>| #[trigger]
            call_ensures(DirBuffer::<P>::add_packed, (buf, packed), r) ==> {
                &&& final(buf).capacity() == buf.capacity()
                &&& holds_if_it_fits(
                    buf.contents(),
                    buf.capacity(),
                    packed@,
                    final(buf).contents(),
                    r,
                )
            },
        forall|buf: &mut DirPlusBuffer<P>| #[trigger]
            call_ensures(DirPlusBuffer::<P>::add_packed, (buf, packed), r) ==> {
                &&& final(buf).capacity() == buf.capacity()
                &&& holds_if_it_fits(
                    buf.contents(),
                    buf.capacity(),
                    packed@,
                    final(buf).contents(),
                    r,
                )
            },
{
}

/// A buffer is read as what it holds, which is never more than was asked for.
pub proof fn law_buffers_are_read_as_they_are<P: Fn(DirRecord<'_>) -> Vec<u8>>(
    buf: DirBuffer<P>,
    plus: DirPlusBuffer<P>,
    bytes: Vec<u8>,
    slice: &[u8],
    plus_bytes: Vec<u8>,
    plus_slice: &[u8],
)
    requires
        call_ensures(DirBuffer::<P>::into_vec, (buf,), bytes),
        call_ensures(DirBuffer::<P>::as_slice, (&buf,), slice),
        call_ensures(DirPlusBuffer::<P>::into_vec, (plus,), plus_bytes),
        call_ensures(DirPlusBuffer::<P>::as_slice, (&plus,), plus_slice),
    ensures
        bytes@ == buf.contents() && slice@ == buf.contents(),
        plus_bytes@ == plus.contents() && plus_slice@ == plus.contents(),
        bytes@.len() <= buf.capacity() && plus_bytes@.len() <= plus.capacity(),
{
}

} // verus!
