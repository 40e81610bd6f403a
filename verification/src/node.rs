//! Node identity and the values that nodes exchange with the runtime.

use vstd::prelude::*;

use crate::file_type::{FileKind, ROOT_INODE};

verus! {

/// An opaque handle to a node tracked by the runtime. Numerically equal to
/// the FUSE inode number, but filesystems should treat it as opaque and
/// store these (rather than raw `u64`s) in their own directory structures.
#[derive(Clone, Copy, PartialEq, Eq, PartialOrd, Ord, Hash, Debug, Structural)]
pub struct NodeId(u64);

impl NodeId {
    /// The inode number.
    pub closed spec fn number(self) -> u64 {
        self.0
    }

    /// The node with an inode number.
    pub closed spec fn of(ino: u64) -> NodeId {
        NodeId(ino)
    }

    /// The filesystem root (`FUSE_ROOT_ID`).
    pub fn root() -> (id: NodeId)
        ensures
            id == NodeId::of(ROOT_INODE),
            id.number() == ROOT_INODE,
    {
        NodeId(ROOT_INODE)
    }

    /// The underlying inode number.
    pub fn ino(self) -> (ino: u64)
        ensures
            ino == self.number(),
        opens_invariants none
        no_unwind
    {
        self.0
    }

    pub fn from_ino(ino: u64) -> (id: NodeId)
        ensures
            id == NodeId::of(ino),
            id.number() == ino,
    {
        NodeId(ino)
    }
}

/// A node ID is its inode number: the number gives back the ID, and the ID the
/// number.
pub proof fn law_node_id_is_its_number(id: NodeId, ino: u64)
    ensures
        NodeId::of(id.number()) == id,
        NodeId::of(ino).number() == ino,
{
}

/// The reply to `getxattr`/`listxattr`. The kernel's xattr protocol is
/// two-phase (`size == 0` asks only for the length); [`XattrReply::Size`]
/// answers the length without materializing the value.
#[derive(Clone, Debug, PartialEq, Eq)]
pub enum XattrReply {
    Size(usize),
    Data(Vec<u8>),
}

impl From<Vec<u8>> for XattrReply {
    fn from(data: Vec<u8>) -> (r: XattrReply) {
        XattrReply::Data(data)
    }
}

impl vstd::std_specs::convert::FromSpecImpl<Vec<u8>> for XattrReply {
    open spec fn obeys_from_spec() -> bool {
        true
    }

    open spec fn from_spec(data: Vec<u8>) -> XattrReply {
        XattrReply::Data(data)
    }
}

/// A sink that directory listings push entries into.
pub trait DirSink {
    /// Adds one entry. `next_offset` is the resume cookie the kernel will
    /// hand back to continue after this entry. Returns `false` once the
    /// buffer is full, at which point the caller must stop iterating.
    fn add(&mut self, name: &str, id: NodeId, kind: FileKind, next_offset: u64) -> bool;
}

/// An ID made from a number gives the number back, the root's is 1, and extended
/// attribute data is passed on as data.
pub proof fn law_node_ids_are_their_numbers(
    ino: u64,
    id: NodeId,
    back: u64,
    root: NodeId,
    data: Vec<u8>,
    xattr: XattrReply,
)
    requires
        call_ensures(NodeId::from_ino, (ino,), id),
        call_ensures(NodeId::ino, (id,), back),
        call_ensures(NodeId::root, (), root),
        call_ensures(<XattrReply as From<Vec<u8>>>::from, (data,), xattr),
    ensures
        back == ino && id.number() == ino,
        root.number() == 1,
        xattr == XattrReply::Data(data),
{
}

} // verus!
