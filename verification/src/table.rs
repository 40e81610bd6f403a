//! Inode allocation and node lifetime.
//!
//! A node lives as long as anything refers to it: a name in a directory, a
//! lookup that the kernel remembers, an open handle, or a lease. When the last
//! of these is gone its inode number becomes free, and a later node that gets
//! the number also gets a new generation.

use std::collections::BTreeMap;
use std::sync::{mpsc, Arc};

use vstd::prelude::*;

use crate::errno::Errno;
use crate::file_type::ROOT_INODE;
use crate::node::NodeId;
use crate::way_back;

verus! {

broadcast use vstd::std_specs::btree::group_btree_axioms;

/// A node and what refers to it.
pub struct Slot<N> {
    pub record: Arc<N>,
    pub generation: u64,
    pub links: u32,
    pub lookups: u64,
    pub opens: u32,
    pub leases: u32,
    pub parent: NodeId,
}

/// The number left after taking `n` away, zero where that would be negative.
pub open spec fn minus(count: int, n: int) -> int {
    if count >= n {
        count - n
    } else {
        0
    }
}

/// The generation after this one; the last is followed by the first.
pub open spec fn next_generation(generation: u64) -> u64 {
    if generation == u64::MAX {
        0
    } else {
        (generation + 1) as u64
    }
}

impl<N> Slot<N> {
    /// Whether nothing refers to the node.
    pub open spec fn unreferenced(self) -> bool {
        self.links == 0 && self.lookups == 0 && self.opens == 0 && self.leases == 0
    }

    /// The slot of a node that was just created under `parent`: one name
    /// refers to it, and nothing else.
    pub open spec fn fresh(payload: N, generation: u64, parent: NodeId) -> Slot<N> {
        Slot {
            record: Arc::new(payload),
            generation,
            links: 1,
            lookups: 0,
            opens: 0,
            leases: 0,
            parent,
        }
    }

    /// Whether the node can be dropped: nothing refers to it.
    pub fn droppable(&self) -> (r: bool)
        ensures
            r == self.unreferenced(),
    {
        self.links == 0 && self.lookups == 0 && self.opens == 0 && self.leases == 0
    }
}

/// What a node table holds: the live nodes by inode number, the first number
/// that was never used, and the freed numbers with the generation that each
/// will have next. The number freed last is used first.
pub struct TableView<N> {
    pub slots: Map<u64, Slot<N>>,
    pub next_ino: u64,
    pub free: Seq<(u64, u64)>,
}

impl<N> TableView<N> {
    pub open spec fn empty() -> TableView<N> {
        TableView { slots: Map::empty(), next_ino: 2, free: Seq::empty() }
    }

    /// A table that holds only a root directory, which is its own parent.
    pub open spec fn rooted(payload: N) -> TableView<N> {
        TableView::empty().with(
            ROOT_INODE,
            Slot::fresh(payload, 0, NodeId::of(ROOT_INODE)),
        )
    }

    /// Whether a number was freed and not used again.
    pub open spec fn is_free(self, ino: u64) -> bool {
        exists|i: int| 0 <= i < self.free.len() && (#[trigger] self.free[i]).0 == ino
    }

    /// What every table keeps: each node in it is referred to; numbers are
    /// live or free but not both, none is free twice, and every number that
    /// was ever handed out is one of the two.
    pub open spec fn valid(self) -> bool {
        &&& self.next_ino >= 2
        &&& forall|ino: u64| #[trigger]
            self.slots.contains_key(ino) ==> 1 <= ino < self.next_ino
                && !self.slots[ino].unreferenced()
        &&& forall|i: int|
            0 <= i < self.free.len() ==> 1 <= (#[trigger] self.free[i]).0 < self.next_ino
                && !self.slots.contains_key(self.free[i].0)
        &&& forall|i: int, j: int|
            0 <= i < j < self.free.len() ==> (#[trigger] self.free[i]).0 != (
            #[trigger] self.free[j]).0
        &&& forall|ino: u64|
            2 <= ino < self.next_ino ==> #[trigger] self.slots.contains_key(ino) || self.is_free(
                ino,
            )
    }

    /// The payload of a live node; `ENOENT` if there is none.
    pub open spec fn node(self, ino: u64) -> Result<N, Errno> {
        if self.slots.contains_key(ino) {
            Ok(*self.slots[ino].record)
        } else {
            Err(Errno::ENOENT)
        }
    }

    /// The generation of a live node.
    pub open spec fn generation_of(self, ino: u64) -> Option<u64> {
        if self.slots.contains_key(ino) {
            Some(self.slots[ino].generation)
        } else {
            None
        }
    }

    /// The directory of a live node.
    pub open spec fn parent_of(self, ino: u64) -> Option<NodeId> {
        if self.slots.contains_key(ino) {
            Some(self.slots[ino].parent)
        } else {
            None
        }
    }

    /// The links, lookups, open handles and leases of a live node.
    pub open spec fn counts(self, ino: u64) -> Option<(u32, u64, u32, u32)> {
        if self.slots.contains_key(ino) {
            let slot = self.slots[ino];
            Some((slot.links, slot.lookups, slot.opens, slot.leases))
        } else {
            None
        }
    }

    /// Whether a number is left for a new node.
    pub open spec fn can_alloc(self) -> bool {
        self.free.len() > 0 || self.next_ino < u64::MAX
    }

    /// The number and the generation that the next new node gets.
    pub open spec fn next_id(self) -> (u64, u64) {
        if self.free.len() > 0 {
            self.free.last()
        } else {
            (self.next_ino, 0)
        }
    }

    /// The table with that number taken.
    pub open spec fn allocated(self) -> TableView<N> {
        if self.free.len() > 0 {
            TableView { free: self.free.drop_last(), ..self }
        } else {
            TableView { next_ino: (self.next_ino + 1) as u64, ..self }
        }
    }

    /// The table with another slot at a number.
    pub open spec fn with(self, ino: u64, slot: Slot<N>) -> TableView<N> {
        TableView { slots: self.slots.insert(ino, slot), ..self }
    }

    /// The table after a node was created under `parent`.
    pub open spec fn inserted(self, payload: N, parent: NodeId) -> TableView<N> {
        self.allocated().with(self.next_id().0, Slot::fresh(payload, self.next_id().1, parent))
    }

    /// The table without the node if nothing refers to it.
    pub open spec fn pruned(self, ino: u64) -> TableView<N> {
        if self.slots.contains_key(ino) && self.slots[ino].unreferenced() {
            TableView {
                slots: self.slots.remove(ino),
                free: self.free.push((ino, next_generation(self.slots[ino].generation))),
                ..self
            }
        } else {
            self
        }
    }

    /// The table after a lease was taken on a node.
    pub open spec fn leased(self, ino: u64) -> TableView<N> {
        if self.slots.contains_key(ino) {
            self.with(
                ino,
                Slot { leases: (self.slots[ino].leases + 1) as u32, ..self.slots[ino] },
            )
        } else {
            self
        }
    }

    /// The table after a lease on a node of this generation was given back.
    pub open spec fn unleased(self, ino: u64, generation: u64) -> TableView<N> {
        if self.slots.contains_key(ino) && self.slots[ino].generation == generation {
            self.with(
                ino,
                Slot { leases: minus(self.slots[ino].leases as int, 1) as u32, ..self.slots[ino] },
            ).pruned(ino)
        } else {
            self.pruned(ino)
        }
    }

    /// The table after several leases were given back, one after the other.
    pub open spec fn settled(self, back: Seq<(u64, u64)>) -> TableView<N>
        decreases back.len(),
    {
        if back.len() == 0 {
            self
        } else {
            self.settled(back.drop_last()).unleased(back.last().0, back.last().1)
        }
    }

    /// Whether `later` is the table after leases that were dropped came back.
    /// Which those are only their holders know.
    pub open spec fn settles_to(self, later: TableView<N>) -> bool {
        exists|back: Seq<(u64, u64)>| later == #[trigger] self.settled(back)
    }

    /// The table after a node was moved to another directory.
    pub open spec fn reparented(self, ino: u64, parent: NodeId) -> TableView<N> {
        if self.slots.contains_key(ino) {
            self.with(ino, Slot { parent, ..self.slots[ino] })
        } else {
            self
        }
    }

    /// The table after a node got another name.
    pub open spec fn linked(self, ino: u64) -> TableView<N> {
        if self.slots.contains_key(ino) {
            self.with(ino, Slot { links: (self.slots[ino].links + 1) as u32, ..self.slots[ino] })
        } else {
            self
        }
    }

    /// The table after a node lost a name.
    pub open spec fn unlinked(self, ino: u64) -> TableView<N> {
        if self.slots.contains_key(ino) {
            self.with(
                ino,
                Slot { links: minus(self.slots[ino].links as int, 1) as u32, ..self.slots[ino] },
            ).pruned(ino)
        } else {
            self
        }
    }

    /// The table after the kernel was told about a node once more.
    pub open spec fn looked_up(self, ino: u64) -> TableView<N> {
        if self.slots.contains_key(ino) {
            self.with(
                ino,
                Slot { lookups: (self.slots[ino].lookups + 1) as u64, ..self.slots[ino] },
            )
        } else {
            self
        }
    }

    /// The table after the kernel forgot `n` lookups of a node.
    pub open spec fn forgotten(self, ino: u64, n: u64) -> TableView<N> {
        if self.slots.contains_key(ino) {
            self.with(
                ino,
                Slot {
                    lookups: minus(self.slots[ino].lookups as int, n as int) as u64,
                    ..self.slots[ino]
                },
            ).pruned(ino)
        } else {
            self
        }
    }

    /// The table after a handle was opened on a node.
    pub open spec fn opened(self, ino: u64) -> TableView<N> {
        if self.slots.contains_key(ino) {
            self.with(ino, Slot { opens: (self.slots[ino].opens + 1) as u32, ..self.slots[ino] })
        } else {
            self
        }
    }

    /// The table after a handle on a node was released.
    pub open spec fn closed(self, ino: u64) -> TableView<N> {
        if self.slots.contains_key(ino) {
            self.with(
                ino,
                Slot { opens: minus(self.slots[ino].opens as int, 1) as u32, ..self.slots[ino] },
            ).pruned(ino)
        } else {
            self
        }
    }
}

/// Replacing the slot of a live node by one that something refers to, or
/// pruning it, keeps a table valid.
pub(crate) proof fn lemma_update_valid<N>(v: TableView<N>, ino: u64, slot: Slot<N>)
    requires
        v.valid(),
        v.slots.contains_key(ino),
    ensures
        !slot.unreferenced() ==> v.with(ino, slot).valid(),
        v.with(ino, slot).pruned(ino).valid(),
{
    let w = v.with(ino, slot);
    assert(w.free == v.free);
    assert(!slot.unreferenced() ==> w.valid());
    if slot.unreferenced() {
        let p = w.pruned(ino);
        assert(p.free.last() == (ino, next_generation(slot.generation)));
        assert forall|n: u64| 2 <= n < p.next_ino implies #[trigger] p.slots.contains_key(n)
            || p.is_free(n) by {
            if n == ino {
                assert(p.free[p.free.len() - 1].0 == ino);
            } else if v.is_free(n) {
                let i = choose|i: int| 0 <= i < v.free.len() && (#[trigger] v.free[i]).0 == n;
                assert(p.free[i].0 == n);
            } else {
                assert(v.slots.contains_key(n));
            }
        }
        assert(p.valid());
    }
}

/// Taking the next number for a node that something refers to keeps a table
/// valid.
pub(crate) proof fn lemma_insert_valid<N>(v: TableView<N>, slot: Slot<N>)
    requires
        v.valid(),
        v.can_alloc(),
        !slot.unreferenced(),
    ensures
        !v.slots.contains_key(v.next_id().0),
        v.allocated().with(v.next_id().0, slot).valid(),
{
    let w = v.allocated().with(v.next_id().0, slot);
    let ino = v.next_id().0;
    if v.free.len() > 0 {
        assert(v.free[v.free.len() - 1] == v.next_id());
    }
    assert forall|n: u64| 2 <= n < w.next_ino implies #[trigger] w.slots.contains_key(n)
        || w.is_free(n) by {
        if n != ino {
            assert(v.slots.contains_key(n) || v.is_free(n));
            if v.is_free(n) {
                let i = choose|i: int| 0 <= i < v.free.len() && (#[trigger] v.free[i]).0 == n;
                assert(w.free[i].0 == n);
            }
        }
    }
}

/// Leases that come back end, and nothing else: numbers stay free, and a node
/// keeps all but its leases, or leaves if nothing else refers to it.
pub(crate) proof fn lemma_settled<N>(v: TableView<N>, back: Seq<(u64, u64)>, ino: u64)
    requires
        v.valid(),
    ensures
        v.settled(back).valid(),
        v.settled(back).next_ino == v.next_ino,
        v.settled(back).free.len() >= v.free.len(),
        v.settled(back).slots.contains_key(ino) ==> {
            let (slot, was) = (v.settled(back).slots[ino], v.slots[ino]);
            &&& v.slots.contains_key(ino)
            &&& slot.leases <= was.leases
            &&& slot == (Slot { leases: slot.leases, ..was })
        },
        v.slots.contains_key(ino) && !v.settled(back).slots.contains_key(ino) ==> {
            let was = v.slots[ino];
            was.links == 0 && was.lookups == 0 && was.opens == 0 && was.leases > 0
        },
    decreases back.len(),
{
    if back.len() > 0 {
        let w = v.settled(back.drop_last());
        lemma_settled(v, back.drop_last(), ino);
        let i = back.last().0;
        if w.slots.contains_key(i) {
            let slot = w.slots[i];
            let fewer = if slot.generation == back.last().1 {
                Slot { leases: minus(slot.leases as int, 1) as u32, ..slot }
            } else {
                slot
            };
            lemma_update_valid(w, i, fewer);
        }
    }
}

/// What counters and numbers are left is left after leases came back, too.
proof fn lemma_settled_slot<N>(v: TableView<N>, later: TableView<N>, ino: u64)
    requires
        v.valid(),
        v.settles_to(later),
    ensures
        later.valid(),
        v.can_alloc() ==> later.can_alloc(),
        later.slots.contains_key(ino) ==> {
            let (slot, was) = (later.slots[ino], v.slots[ino]);
            &&& v.slots.contains_key(ino)
            &&& slot.leases <= was.leases
            &&& slot == (Slot { leases: slot.leases, ..was })
        },
{
    let back = choose|back: Seq<(u64, u64)>| later == #[trigger] v.settled(back);
    lemma_settled(v, back, ino);
}

/// A shared node lease. Keeping it prevents the node from being reclaimed and
/// its inode number from being used again.
///
/// A lease that is dropped sends itself back to the context that it came from,
/// which takes it in before it looks at its nodes again.
#[must_use]
pub struct NodeRef<N> {
    id: NodeId,
    generation: u64,
    record: Arc<N>,
    back: Option<mpsc::Sender<(u64, u64)>>,
}

impl<N> Drop for NodeRef<N> {
    /// Sends the lease back to where it came from.
    fn drop(&mut self)
        ensures
            old(self).sent_back(),
        opens_invariants none
        no_unwind
    {
        if let Some(back) = &self.back {
            way_back::send_back(back, self.id.ino(), self.generation);
        }
    }
}

impl<N> NodeRef<N> {
    /// The node that is leased.
    pub closed spec fn node_id(self) -> NodeId {
        self.id
    }

    /// The generation of its inode number.
    pub closed spec fn node_generation(self) -> u64 {
        self.generation
    }

    /// The filesystem's node.
    pub closed spec fn payload(self) -> N {
        *self.record
    }

    /// Whether the lease was sent to where it comes from, if anywhere, under its
    /// own number and generation.
    pub closed spec fn sent_back(self) -> bool {
        self.back matches Some(back) ==> call_ensures(
            way_back::send_back,
            (&back, self.id.number(), self.generation),
            (),
        )
    }

    /// Where the lease goes when it is dropped, if anywhere.
    pub closed spec fn comes_back_to(self) -> Option<int> {
        match self.back {
            Some(back) => Some(way_back::sends_on(back)),
            None => None,
        }
    }

    /// Whether this is a lease on the node that a table holds.
    pub open spec fn leases(self, v: TableView<N>) -> bool {
        let ino = self.node_id().number();
        &&& v.slots.contains_key(ino)
        &&& v.slots[ino].leases > 0
        &&& v.slots[ino].generation == self.node_generation()
        &&& *v.slots[ino].record == self.payload()
    }

    pub fn id(&self) -> (id: NodeId)
        ensures
            id == self.node_id(),
    {
        self.id
    }

    /// The filesystem's node.
    pub fn node(&self) -> (node: &N)
        ensures
            *node == self.payload(),
    {
        &self.record
    }
}

impl<N> std::ops::Deref for NodeRef<N> {
    type Target = N;

    fn deref(&self) -> (node: &N)
        ensures
            *node == self.payload(),
    {
        &self.record
    }
}

/// Inode allocation and lifetime metadata.
pub struct NodeTable<N> {
    map: BTreeMap<u64, Slot<N>>,
    next_ino: u64,
    free: Vec<(u64, u64)>,
}

impl<N> View for NodeTable<N> {
    type V = TableView<N>;

    closed spec fn view(&self) -> TableView<N> {
        TableView { slots: self.map@, next_ino: self.next_ino, free: self.free@ }
    }
}

impl<N> NodeTable<N> {
    /// An empty table. Inode numbers for new nodes start behind the root's.
    pub fn new() -> (t: NodeTable<N>)
        ensures
            t@ == TableView::<N>::empty(),
            t@.valid(),
    {
        NodeTable { map: BTreeMap::new(), next_ino: 2, free: Vec::new() }
    }

    /// A table that holds the root directory, which is its own parent.
    pub fn with_root(payload: N) -> (t: NodeTable<N>)
        ensures
            t@ == TableView::<N>::rooted(payload),
            t@.valid(),
    {
        let mut t = NodeTable::new();
        t.map.insert(
            ROOT_INODE,
            Slot {
                record: Arc::new(payload),
                generation: 0,
                links: 1,
                lookups: 0,
                opens: 0,
                leases: 0,
                parent: NodeId::root(),
            },
        );
        t
    }

    /// Takes a number for a new node: the one freed last with its next
    /// generation, else one that was never used.
    fn allocate(&mut self) -> (r: (u64, u64))
        requires
            old(self)@.can_alloc(),
        ensures
            r == old(self)@.next_id(),
            final(self)@ == old(self)@.allocated(),
    {
        match self.free.pop() {
            Some(reused) => reused,
            None => {
                let ino: u64 = self.next_ino;
                self.next_ino = ino + 1;
                (ino, 0)
            },
        }
    }

    /// Takes the node out if nothing refers to it, and frees its number.
    fn maybe_drop(&mut self, ino: u64) -> (gone: Option<Slot<N>>)
        ensures
            final(self)@ == old(self)@.pruned(ino),
            gone is Some <==> old(self)@.slots.contains_key(ino)
                && !final(self)@.slots.contains_key(ino),
    {
        let drop_it = match self.map.get(&ino) {
            Some(slot) => slot.droppable(),
            None => false,
        };
        if !drop_it {
            return None;
        }
        let gone = self.map.remove(&ino);
        if let Some(slot) = &gone {
            self.free.push((ino, slot.generation.wrapping_add(1)));
        }
        gone
    }

    /// Puts back a slot that was taken out to be changed.
    fn put(&mut self, ino: u64, slot: Slot<N>)
        ensures
            final(self)@ == old(self)@.with(ino, slot),
    {
        self.map.insert(ino, slot);
    }

    /// Leases a node. The lease lasts until it is given to
    /// [`NodeTable::release`]: a bare table does not hear of one that is dropped.
    pub fn get(&mut self, id: NodeId) -> (r: Option<NodeRef<N>>)
        requires
            old(self)@.valid(),
            old(self)@.slots.contains_key(id.number()) ==> old(self)@.slots[id.number()].leases
                < u32::MAX,
        ensures
            final(self)@ == old(self)@.leased(id.number()),
            final(self)@.valid(),
            r is Some <==> old(self)@.slots.contains_key(id.number()),
            r matches Some(node) ==> {
                &&& node.node_id() == id
                &&& node.leases(final(self)@)
                &&& node.comes_back_to() is None
            },
    {
        match self.map.remove(&id.ino()) {
            Some(mut slot) => {
                slot.leases = slot.leases + 1;
                let node = NodeRef {
                    id,
                    generation: slot.generation,
                    record: slot.record.clone(),
                    back: None,
                };
                proof {
                    lemma_update_valid(old(self)@, id.number(), slot);
                }
                self.put(id.ino(), slot);
                assert(self@.slots =~= old(self)@.leased(id.number()).slots);
                Some(node)
            },
            None => {
                assert(self@.slots =~= old(self)@.slots);
                None
            },
        }
    }

    /// Ends a lease on a node of this generation, and hands out the node if it
    /// left the table.
    fn unlease(&mut self, ino: u64, generation: u64) -> (gone: Option<Slot<N>>)
        requires
            old(self)@.valid(),
        ensures
            final(self)@ == old(self)@.unleased(ino, generation),
            final(self)@.valid(),
            gone is Some <==> old(self)@.slots.contains_key(ino)
                && !final(self)@.slots.contains_key(ino),
    {
        match self.map.remove(&ino) {
            Some(mut slot) => {
                if slot.generation == generation {
                    slot.leases = slot.leases.saturating_sub(1);
                }
                proof {
                    lemma_update_valid(old(self)@, ino, slot);
                }
                self.put(ino, slot);
                assert(self@.slots =~= old(self)@.slots.insert(ino, slot));
                assert(slot.generation != generation ==> self@.slots =~= old(self)@.slots);
            },
            None => {
                assert(self@.slots =~= old(self)@.slots);
            },
        }
        self.maybe_drop(ino)
    }

    /// Ends leases one after the other, each given by its inode number and its
    /// generation, and hands out the nodes that left the table.
    fn unlease_all(&mut self, back: &Vec<(u64, u64)>) -> (gone: Vec<Option<Slot<N>>>)
        requires
            old(self)@.valid(),
        ensures
            final(self)@ == old(self)@.settled(back@),
            final(self)@.valid(),
    {
        let mut gone: Vec<Option<Slot<N>>> = Vec::new();
        let mut i: usize = 0;
        assert(back@.take(0).len() == 0);
        while i < back.len()
            invariant
                i <= back.len(),
                self@.valid(),
                self@ == old(self)@.settled(back@.take(i as int)),
            decreases back.len() - i,
        {
            let (ino, generation) = back[i];
            gone.push(self.unlease(ino, generation));
            proof {
                let taken = back@.take(i + 1);
                assert(taken.drop_last() =~= back@.take(i as int));
                assert(taken.last() == (ino, generation));
            }
            i = i + 1;
        }
        assert(back@.take(i as int) =~= back@);
        gone
    }

    /// Ends leases one after the other, each given by its inode number and its
    /// generation, and drops the nodes of which they were the last references.
    pub fn settle(&mut self, back: &Vec<(u64, u64)>)
        requires
            old(self)@.valid(),
        ensures
            final(self)@ == old(self)@.settled(back@),
            final(self)@.valid(),
    {
        let _gone = self.unlease_all(back);
    }

    /// Gives a lease back, and drops the node if it was the last reference.
    pub fn release(&mut self, node: NodeRef<N>)
        requires
            old(self)@.valid(),
        ensures
            final(self)@ == old(self)@.unleased(node.node_id().number(), node.node_generation()),
            final(self)@.valid(),
    {
        let mut node = node;
        node.back = None;
        let _gone = self.unlease(node.id.ino(), node.generation);
    }

    /// Whether a node is live.
    pub fn contains(&self, id: NodeId) -> (r: bool)
        ensures
            r == self@.slots.contains_key(id.number()),
    {
        self.map.contains_key(&id.ino())
    }

    /// Whether a number is left for a new node.
    pub fn has_room(&self) -> (r: bool)
        ensures
            r == self@.can_alloc(),
    {
        self.free.len() > 0 || self.next_ino < u64::MAX
    }

    /// Adds a node that one name under `parent` refers to.
    pub fn insert(&mut self, payload: N, parent: NodeId) -> (id: NodeId)
        requires
            old(self)@.valid(),
            old(self)@.can_alloc(),
        ensures
            final(self)@ == old(self)@.inserted(payload, parent),
            final(self)@.valid(),
            id.number() == old(self)@.next_id().0,
    {
        proof {
            lemma_insert_valid(old(self)@, Slot::fresh(payload, old(self)@.next_id().1, parent));
        }
        let (ino, generation) = self.allocate();
        self.put(
            ino,
            Slot {
                record: Arc::new(payload),
                generation,
                links: 1,
                lookups: 0,
                opens: 0,
                leases: 0,
                parent,
            },
        );
        NodeId::from_ino(ino)
    }

    /// Records that a node was moved to another directory.
    pub fn reparent(&mut self, id: NodeId, new_parent: NodeId)
        requires
            old(self)@.valid(),
        ensures
            final(self)@ == old(self)@.reparented(id.number(), new_parent),
            final(self)@.valid(),
    {
        let ino: u64 = id.ino();
        if let Some(mut slot) = self.map.remove(&ino) {
            slot.parent = new_parent;
            proof {
                lemma_update_valid(old(self)@, ino, slot);
            }
            self.put(ino, slot);
        }
        assert(self@.slots =~= old(self)@.reparented(ino, new_parent).slots);
    }

    /// Records that a node got another name.
    pub fn add_link(&mut self, id: NodeId)
        requires
            old(self)@.valid(),
            old(self)@.slots.contains_key(id.number()) ==> old(self)@.slots[id.number()].links
                < u32::MAX,
        ensures
            final(self)@ == old(self)@.linked(id.number()),
            final(self)@.valid(),
    {
        let ino: u64 = id.ino();
        if let Some(mut slot) = self.map.remove(&ino) {
            slot.links = slot.links + 1;
            proof {
                lemma_update_valid(old(self)@, ino, slot);
            }
            self.put(ino, slot);
        }
        assert(self@.slots =~= old(self)@.linked(ino).slots);
    }

    /// Like [`NodeTable::remove_link`], and hands out the node if it left the table.
    fn unlink(&mut self, id: NodeId) -> (gone: Option<Slot<N>>)
        requires
            old(self)@.valid(),
        ensures
            final(self)@ == old(self)@.unlinked(id.number()),
            final(self)@.valid(),
            gone is Some <==> old(self)@.slots.contains_key(id.number())
                && !final(self)@.slots.contains_key(id.number()),
    {
        let ino: u64 = id.ino();
        match self.map.remove(&ino) {
            Some(mut slot) => {
                slot.links = slot.links.saturating_sub(1);
                proof {
                    lemma_update_valid(old(self)@, ino, slot);
                }
                self.put(ino, slot);
                assert(self@.slots =~= old(self)@.slots.insert(ino, slot));
            },
            None => {
                assert(self@.slots =~= old(self)@.slots);
            },
        }
        self.maybe_drop(ino)
    }

    /// Records that a node lost a name, and drops the node if that was the
    /// last reference.
    pub fn remove_link(&mut self, id: NodeId)
        requires
            old(self)@.valid(),
        ensures
            final(self)@ == old(self)@.unlinked(id.number()),
            final(self)@.valid(),
    {
        let _gone = self.unlink(id);
    }

    /// Counts a lookup of a node, and tells its generation.
    pub fn look_up(&mut self, id: NodeId) -> (generation: Option<u64>)
        requires
            old(self)@.valid(),
            old(self)@.slots.contains_key(id.number()) ==> old(self)@.slots[id.number()].lookups
                < u64::MAX,
        ensures
            final(self)@ == old(self)@.looked_up(id.number()),
            final(self)@.valid(),
            generation == old(self)@.generation_of(id.number()),
    {
        let ino: u64 = id.ino();
        match self.map.remove(&ino) {
            Some(mut slot) => {
                slot.lookups = slot.lookups + 1;
                let generation: u64 = slot.generation;
                proof {
                    lemma_update_valid(old(self)@, ino, slot);
                }
                self.put(ino, slot);
                assert(self@.slots =~= old(self)@.looked_up(ino).slots);
                Some(generation)
            },
            None => {
                assert(self@.slots =~= old(self)@.slots);
                None
            },
        }
    }

    /// Like [`NodeTable::forget`], and hands out the node if it left the table.
    fn unlook(&mut self, ino: u64, nlookup: u64) -> (gone: Option<Slot<N>>)
        requires
            old(self)@.valid(),
        ensures
            final(self)@ == old(self)@.forgotten(ino, nlookup),
            final(self)@.valid(),
            gone is Some <==> old(self)@.slots.contains_key(ino)
                && !final(self)@.slots.contains_key(ino),
    {
        match self.map.remove(&ino) {
            Some(mut slot) => {
                slot.lookups = slot.lookups.saturating_sub(nlookup);
                proof {
                    lemma_update_valid(old(self)@, ino, slot);
                }
                self.put(ino, slot);
                assert(self@.slots =~= old(self)@.slots.insert(ino, slot));
            },
            None => {
                assert(self@.slots =~= old(self)@.slots);
            },
        }
        self.maybe_drop(ino)
    }

    /// Takes `nlookup` lookups of a node back, and drops the node if they were
    /// the last references.
    pub fn forget(&mut self, ino: u64, nlookup: u64)
        requires
            old(self)@.valid(),
        ensures
            final(self)@ == old(self)@.forgotten(ino, nlookup),
            final(self)@.valid(),
    {
        let _gone = self.unlook(ino, nlookup);
    }

    /// Counts an open handle on a node.
    pub fn add_open(&mut self, ino: u64)
        requires
            old(self)@.valid(),
            old(self)@.slots.contains_key(ino) ==> old(self)@.slots[ino].opens < u32::MAX,
        ensures
            final(self)@ == old(self)@.opened(ino),
            final(self)@.valid(),
    {
        if let Some(mut slot) = self.map.remove(&ino) {
            slot.opens = slot.opens + 1;
            proof {
                lemma_update_valid(old(self)@, ino, slot);
            }
            self.put(ino, slot);
        }
        assert(self@.slots =~= old(self)@.opened(ino).slots);
    }

    /// Like [`NodeTable::remove_open`], and hands out the node if it left the table.
    fn close(&mut self, ino: u64) -> (gone: Option<Slot<N>>)
        requires
            old(self)@.valid(),
        ensures
            final(self)@ == old(self)@.closed(ino),
            final(self)@.valid(),
            gone is Some <==> old(self)@.slots.contains_key(ino)
                && !final(self)@.slots.contains_key(ino),
    {
        match self.map.remove(&ino) {
            Some(mut slot) => {
                slot.opens = slot.opens.saturating_sub(1);
                proof {
                    lemma_update_valid(old(self)@, ino, slot);
                }
                self.put(ino, slot);
                assert(self@.slots =~= old(self)@.slots.insert(ino, slot));
            },
            None => {
                assert(self@.slots =~= old(self)@.slots);
            },
        }
        self.maybe_drop(ino)
    }

    /// Takes an open handle on a node back, and drops the node if that was the
    /// last reference.
    pub fn remove_open(&mut self, ino: u64)
        requires
            old(self)@.valid(),
        ensures
            final(self)@ == old(self)@.closed(ino),
            final(self)@.valid(),
    {
        let _gone = self.close(ino);
    }

    /// The payload of a node.
    pub fn node(&self, ino: u64) -> (r: Result<&N, Errno>)
        ensures
            match r {
                Ok(node) => self@.node(ino) == Ok::<N, Errno>(*node),
                Err(e) => self@.node(ino) == Err::<N, Errno>(e),
            },
    {
        match self.map.get(&ino) {
            Some(slot) => Ok(&slot.record),
            None => Err(Errno::ENOENT),
        }
    }

    /// The payload of a node, shared.
    pub fn record(&self, ino: u64) -> (r: Result<Arc<N>, Errno>)
        ensures
            match r {
                Ok(record) => self@.node(ino) == Ok::<N, Errno>(*record),
                Err(e) => self@.node(ino) == Err::<N, Errno>(e),
            },
    {
        match self.map.get(&ino) {
            Some(slot) => Ok(slot.record.clone()),
            None => Err(Errno::ENOENT),
        }
    }

    /// The directory that a node was created in or moved to last.
    pub fn parent_of(&self, ino: u64) -> (parent: Option<NodeId>)
        ensures
            parent == self@.parent_of(ino),
    {
        match self.map.get(&ino) {
            Some(slot) => Some(slot.parent),
            None => None,
        }
    }

    /// The links, lookups, open handles and leases of a node.
    pub fn counts(&self, ino: u64) -> (counts: Option<(u32, u64, u32, u32)>)
        ensures
            counts == self@.counts(ino),
    {
        match self.map.get(&ino) {
            Some(slot) => Some((slot.links, slot.lookups, slot.opens, slot.leases)),
            None => None,
        }
    }
}

/// Whether a receiver gave `r` when it was asked for the next lease that was
/// dropped.
pub closed spec fn came_in(
    receiver: mpsc::Receiver<(u64, u64)>,
    r: Option<(u64, u64)>,
) -> bool {
    call_ensures(way_back::next_sent_back, (&receiver,), r)
}

/// Access to the runtime's node table for structural callbacks: they resolve,
/// insert and link nodes through it.
///
/// Every operation of a callback first takes the leases in that were dropped, so
/// that a node which only they referred to is gone. A payload that leaves the
/// table is dropped when the table is in place again, so that a destructor that
/// panics finds it, and leaves it, as it should be.
pub struct Cx<N> {
    table: NodeTable<N>,
    lend: mpsc::Sender<(u64, u64)>,
    returned: mpsc::Receiver<(u64, u64)>,
}

impl<N> View for Cx<N> {
    type V = TableView<N>;

    closed spec fn view(&self) -> TableView<N> {
        self.table@
    }
}

impl<N> Cx<N> {
    /// What dropped leases come in through.
    pub closed spec fn receiver(self) -> mpsc::Receiver<(u64, u64)> {
        self.returned
    }

    /// Where leases on its nodes go when they are dropped.
    pub open spec fn way_in(self) -> int {
        way_back::receives_from(self.receiver())
    }

    /// Whether each lease in `back` is one that its own receiver gave, and the
    /// receiver was asked until it gave none. Which it gave only their holders
    /// know; how often it was asked is not said.
    pub open spec fn took_in(self, back: Seq<(u64, u64)>) -> bool {
        &&& forall|i: int|
            0 <= i < back.len() ==> came_in(self.receiver(), Some(#[trigger] back[i]))
        &&& came_in(self.receiver(), None) || back.len() == u64::MAX
    }

    /// Whether `now` are its nodes after it took in the leases that were dropped.
    pub open spec fn takes_in(self, now: TableView<N>) -> bool {
        exists|back: Seq<(u64, u64)>|
            self.took_in(back) && now == #[trigger] self@.settled(back)
    }

    /// Where it sends its leases when they are dropped.
    pub closed spec fn way_out(self) -> int {
        way_back::sends_on(self.lend)
    }

    /// The table behind a context is valid, whatever a callback did to it, and
    /// its leases come back to it.
    #[verifier::type_invariant]
    pub open spec fn well_formed(self) -> bool {
        self@.valid() && self.way_out() == self.way_in()
    }

    /// The context of a tree that is only a root directory.
    pub fn with_root(payload: N) -> (cx: Cx<N>)
        ensures
            cx@ == TableView::<N>::rooted(payload),
    {
        let (lend, returned) = way_back::lease_channel();
        Cx { table: NodeTable::with_root(payload), lend, returned }
    }

    /// The leases that were dropped since they were last asked for, as the inode
    /// number and the generation of each.
    fn dropped(&self) -> (back: Vec<(u64, u64)>)
        ensures
            self.took_in(back@),
    {
        let mut back: Vec<(u64, u64)> = Vec::new();
        let mut left: u64 = u64::MAX;
        while left > 0
            invariant_except_break
                left + back@.len() == u64::MAX,
            invariant
                forall|i: int|
                    0 <= i < back@.len() ==> came_in(self.receiver(), Some(#[trigger] back@[i])),
            ensures
                came_in(self.receiver(), None) || back@.len() == u64::MAX,
            decreases left,
        {
            match way_back::next_sent_back(&self.returned) {
                Some(lease) => {
                    back.push(lease);
                },
                None => {
                    break;
                },
            }
            left = left - 1;
        }
        back
    }

    /// Takes the leases in that were dropped, and drops the nodes of which they
    /// were the last references.
    pub fn reclaim(&mut self)
        ensures
            old(self).takes_in(final(self)@),
            final(self)@.valid(),
            final(self).receiver() == old(self).receiver(),
    {
        proof {
            use_type_invariant(&*self);
        }
        let back = self.dropped();
        let mut table = NodeTable::new();
        std::mem::swap(&mut table, &mut self.table);
        let _gone = table.unlease_all(&back);
        self.table = table;
    }

    /// The nodes as they are.
    pub(crate) fn table(&self) -> (table: &NodeTable<N>)
        ensures
            table@ == self@,
    {
        &self.table
    }

    /// Leases a node. The lease lasts until it is dropped, or given back to
    /// [`Cx::release`].
    pub fn get(&mut self, id: NodeId) -> (r: Option<NodeRef<N>>)
        requires
            old(self)@.slots.contains_key(id.number())
                ==> old(self)@.slots[id.number()].leases < u32::MAX,
        ensures
            exists|now: TableView<N>| #[trigger]
                old(self).takes_in(now) && final(self)@ == now.leased(id.number()),
            r is Some <==> final(self)@.slots.contains_key(id.number()),
            r matches Some(node) ==> {
                &&& node.node_id() == id
                &&& node.leases(final(self)@)
                &&& node.comes_back_to() == Some(final(self).way_in())
            },
            final(self)@.valid(),
            final(self).receiver() == old(self).receiver(),
    {
        let ghost given = self@;
        proof {
            use_type_invariant(&*self);
        }
        self.reclaim();
        proof {
            use_type_invariant(&*self);
            lemma_settled_slot(given, self@, id.number());
        }
        let mut table = NodeTable::new();
        std::mem::swap(&mut table, &mut self.table);
        let leased = table.get(id);
        self.table = table;
        match leased {
            Some(mut node) => {
                node.back = Some(way_back::another_sender(&self.lend));
                Some(node)
            },
            None => None,
        }
    }

    /// Gives a lease back, and drops the node if it was the last reference.
    pub fn release(&mut self, node: NodeRef<N>)
        ensures
            exists|now: TableView<N>|
                {
                    &&& #[trigger] old(self).takes_in(now)
                    &&& final(self)@ == now.unleased(
                        node.node_id().number(),
                        node.node_generation(),
                    )
                },
            final(self)@.valid(),
            final(self).receiver() == old(self).receiver(),
    {
        self.reclaim();
        proof {
            use_type_invariant(&*self);
        }
        let mut node = node;
        node.back = None;
        let mut table = NodeTable::new();
        std::mem::swap(&mut table, &mut self.table);
        let _gone = table.unlease(node.id.ino(), node.generation);
        self.table = table;
    }

    /// Whether a node is live.
    pub fn contains(&mut self, id: NodeId) -> (r: bool)
        ensures
            old(self).takes_in(final(self)@),
            r == final(self)@.slots.contains_key(id.number()),
            final(self)@.valid(),
            final(self).receiver() == old(self).receiver(),
    {
        self.reclaim();
        self.table.contains(id)
    }

    /// Whether a number is left for a new node.
    pub fn has_room(&mut self) -> (r: bool)
        ensures
            old(self).takes_in(final(self)@),
            r == final(self)@.can_alloc(),
            final(self)@.valid(),
            final(self).receiver() == old(self).receiver(),
    {
        self.reclaim();
        self.table.has_room()
    }

    /// The links, lookups, open handles and leases of a node.
    pub fn counts(&mut self, id: NodeId) -> (counts: Option<(u32, u64, u32, u32)>)
        ensures
            old(self).takes_in(final(self)@),
            counts == final(self)@.counts(id.number()),
            final(self)@.valid(),
            final(self).receiver() == old(self).receiver(),
    {
        self.reclaim();
        self.table.counts(id.ino())
    }

    /// Adds a node that one name under `parent` refers to.
    pub fn insert(&mut self, payload: N, parent: NodeId) -> (id: NodeId)
        requires
            old(self)@.can_alloc(),
        ensures
            exists|now: TableView<N>|
                {
                    &&& #[trigger] old(self).takes_in(now)
                    &&& final(self)@ == now.inserted(payload, parent)
                    &&& id.number() == now.next_id().0
                },
            final(self)@.valid(),
            final(self).receiver() == old(self).receiver(),
    {
        let ghost given = self@;
        proof {
            use_type_invariant(&*self);
        }
        self.reclaim();
        proof {
            use_type_invariant(&*self);
            lemma_settled_slot(given, self@, 0);
        }
        let mut table = NodeTable::new();
        std::mem::swap(&mut table, &mut self.table);
        let id = table.insert(payload, parent);
        self.table = table;
        id
    }

    /// Records that a node was moved to another directory.
    pub fn reparent(&mut self, id: NodeId, new_parent: NodeId)
        ensures
            exists|now: TableView<N>| #[trigger]
                old(self).takes_in(now) && final(self)@ == now.reparented(
                    id.number(),
                    new_parent,
                ),
            final(self)@.valid(),
            final(self).receiver() == old(self).receiver(),
    {
        self.reclaim();
        proof {
            use_type_invariant(&*self);
        }
        let mut table = NodeTable::new();
        std::mem::swap(&mut table, &mut self.table);
        table.reparent(id, new_parent);
        self.table = table;
    }

    /// Records that a node got another name.
    pub fn add_link(&mut self, id: NodeId)
        requires
            old(self)@.slots.contains_key(id.number())
                ==> old(self)@.slots[id.number()].links < u32::MAX,
        ensures
            exists|now: TableView<N>| #[trigger]
                old(self).takes_in(now) && final(self)@ == now.linked(id.number()),
            final(self)@.valid(),
            final(self).receiver() == old(self).receiver(),
    {
        let ghost given = self@;
        proof {
            use_type_invariant(&*self);
        }
        self.reclaim();
        proof {
            use_type_invariant(&*self);
            lemma_settled_slot(given, self@, id.number());
        }
        let mut table = NodeTable::new();
        std::mem::swap(&mut table, &mut self.table);
        table.add_link(id);
        self.table = table;
    }

    /// Records that a node lost a name, and drops the node if that was the
    /// last reference.
    pub fn remove_link(&mut self, id: NodeId)
        ensures
            exists|now: TableView<N>| #[trigger]
                old(self).takes_in(now) && final(self)@ == now.unlinked(id.number()),
            final(self)@.valid(),
            final(self).receiver() == old(self).receiver(),
    {
        self.reclaim();
        proof {
            use_type_invariant(&*self);
        }
        let mut table = NodeTable::new();
        std::mem::swap(&mut table, &mut self.table);
        let _gone = table.unlink(id);
        self.table = table;
    }

    /// Counts a lookup of a node, and tells its generation.
    pub(crate) fn look_up(&mut self, id: NodeId) -> (generation: Option<u64>)
        requires
            old(self)@.slots.contains_key(id.number())
                ==> old(self)@.slots[id.number()].lookups < u64::MAX,
        ensures
            final(self)@ == old(self)@.looked_up(id.number()),
            generation == old(self)@.generation_of(id.number()),
            final(self)@.valid(),
            final(self).receiver() == old(self).receiver(),
    {
        proof {
            use_type_invariant(&*self);
        }
        let mut table = NodeTable::new();
        std::mem::swap(&mut table, &mut self.table);
        let generation = table.look_up(id);
        self.table = table;
        generation
    }

    /// Takes `nlookup` lookups of a node back, and drops the node if they were
    /// the last references.
    pub(crate) fn forget(&mut self, ino: u64, nlookup: u64)
        ensures
            final(self)@ == old(self)@.forgotten(ino, nlookup),
            final(self)@.valid(),
            final(self).receiver() == old(self).receiver(),
    {
        proof {
            use_type_invariant(&*self);
        }
        let mut table = NodeTable::new();
        std::mem::swap(&mut table, &mut self.table);
        let _gone = table.unlook(ino, nlookup);
        self.table = table;
    }

    /// Counts an open handle on a node.
    pub(crate) fn add_open(&mut self, ino: u64)
        requires
            old(self)@.slots.contains_key(ino) ==> old(self)@.slots[ino].opens < u32::MAX,
        ensures
            final(self)@ == old(self)@.opened(ino),
            final(self)@.valid(),
            final(self).receiver() == old(self).receiver(),
    {
        proof {
            use_type_invariant(&*self);
        }
        let mut table = NodeTable::new();
        std::mem::swap(&mut table, &mut self.table);
        table.add_open(ino);
        self.table = table;
    }

    /// Takes an open handle on a node back, and drops the node if that was the
    /// last reference.
    pub(crate) fn remove_open(&mut self, ino: u64)
        ensures
            final(self)@ == old(self)@.closed(ino),
            final(self)@.valid(),
            final(self).receiver() == old(self).receiver(),
    {
        proof {
            use_type_invariant(&*self);
        }
        let mut table = NodeTable::new();
        std::mem::swap(&mut table, &mut self.table);
        let _gone = table.close(ino);
        self.table = table;
    }
}

/// A lease that was sent back was sent under the number and the generation of the
/// node that it was taken on, on the channel that it comes back by.
proof fn law_lease_is_sent_back_as_it_was_taken<N>(lease: NodeRef<N>)
    requires
        lease.sent_back(),
    ensures
        match lease.comes_back_to() {
            Some(channel) => exists|sender: mpsc::Sender<(u64, u64)>|
                {
                    &&& way_back::sends_on(sender) == channel
                    &&& #[trigger] call_ensures(
                        way_back::send_back,
                        (&sender, lease.node_id().number(), lease.node_generation()),
                        (),
                    )
                },
            None => lease.back is None,
        },
{
    if let Some(back) = lease.back {
        assert(call_ensures(
            way_back::send_back,
            (&back, lease.node_id().number(), lease.node_generation()),
            (),
        ));
    }
}

} // verus!
