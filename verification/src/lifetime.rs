//! What holds of a node's identity over its life, whatever is done to the
//! table that holds it.

use std::sync::Arc;

use vstd::prelude::*;

use crate::errno::Errno;
use crate::node::NodeId;
use crate::table;
use crate::table::{Cx, NodeRef, NodeTable, Slot, TableView};

verus! {

/// One thing that can be done to a node table.
pub enum Step<N> {
    Insert(N, NodeId),
    Lease(u64),
    Unlease(u64, u64),
    Reparent(u64, NodeId),
    Link(u64),
    Unlink(u64),
    LookUp(u64),
    Forget(u64, u64),
    Open(u64),
    Close(u64),
}

impl<N> Step<N> {
    /// The number of the node that the step is about.
    pub open spec fn ino(self, v: TableView<N>) -> u64 {
        match self {
            Step::Insert(_, _) => v.next_id().0,
            Step::Lease(ino) => ino,
            Step::Unlease(ino, _) => ino,
            Step::Reparent(ino, _) => ino,
            Step::Link(ino) => ino,
            Step::Unlink(ino) => ino,
            Step::LookUp(ino) => ino,
            Step::Forget(ino, _) => ino,
            Step::Open(ino) => ino,
            Step::Close(ino) => ino,
        }
    }

    /// Whether a number is left for the node, and no counter is full, that the
    /// step needs.
    pub open spec fn possible(self, v: TableView<N>) -> bool {
        let ino = self.ino(v);
        match self {
            Step::Insert(_, _) => v.can_alloc(),
            Step::Lease(_) => v.slots.contains_key(ino) ==> v.slots[ino].leases < u32::MAX,
            Step::Link(_) => v.slots.contains_key(ino) ==> v.slots[ino].links < u32::MAX,
            Step::LookUp(_) => v.slots.contains_key(ino) ==> v.slots[ino].lookups < u64::MAX,
            Step::Open(_) => v.slots.contains_key(ino) ==> v.slots[ino].opens < u32::MAX,
            _ => true,
        }
    }

    /// The table after the step.
    pub open spec fn done(self, v: TableView<N>) -> TableView<N> {
        match self {
            Step::Insert(payload, parent) => v.inserted(payload, parent),
            Step::Lease(ino) => v.leased(ino),
            Step::Unlease(ino, generation) => v.unleased(ino, generation),
            Step::Reparent(ino, parent) => v.reparented(ino, parent),
            Step::Link(ino) => v.linked(ino),
            Step::Unlink(ino) => v.unlinked(ino),
            Step::LookUp(ino) => v.looked_up(ino),
            Step::Forget(ino, n) => v.forgotten(ino, n),
            Step::Open(ino) => v.opened(ino),
            Step::Close(ino) => v.closed(ino),
        }
    }
}

/// The table after one step after the other.
pub open spec fn run<N>(v: TableView<N>, steps: Seq<Step<N>>) -> TableView<N>
    decreases steps.len(),
{
    if steps.len() == 0 {
        v
    } else {
        run(steps.first().done(v), steps.drop_first())
    }
}

/// Whether each step is possible when its turn comes.
pub open spec fn all_possible<N>(v: TableView<N>, steps: Seq<Step<N>>) -> bool
    decreases steps.len(),
{
    steps.len() > 0 ==> steps.first().possible(v) && all_possible(
        steps.first().done(v),
        steps.drop_first(),
    )
}

/// How many of the steps give back a lease on a node of this number and
/// generation.
pub open spec fn leases_given_back<N>(steps: Seq<Step<N>>, ino: u64, generation: u64) -> nat
    decreases steps.len(),
{
    if steps.len() == 0 {
        0
    } else {
        leases_given_back(steps.drop_first(), ino, generation) + if steps.first()
            == Step::<N>::Unlease(ino, generation) {
            1nat
        } else {
            0nat
        }
    }
}

/// One step keeps a table valid.
pub proof fn law_step_keeps_table_valid<N>(v: TableView<N>, step: Step<N>)
    requires
        v.valid(),
        step.possible(v),
    ensures
        step.done(v).valid(),
{
    let ino = step.ino(v);
    if let Step::Insert(payload, parent) = step {
        table::lemma_insert_valid(v, Slot::fresh(payload, v.next_id().1, parent));
    } else if v.slots.contains_key(ino) {
        let slot = v.slots[ino];
        let changed = match step {
            Step::Lease(_) => Slot { leases: (slot.leases + 1) as u32, ..slot },
            Step::Unlease(_, generation) => if slot.generation == generation {
                Slot { leases: table::minus(slot.leases as int, 1) as u32, ..slot }
            } else {
                slot
            },
            Step::Reparent(_, parent) => Slot { parent, ..slot },
            Step::Link(_) => Slot { links: (slot.links + 1) as u32, ..slot },
            Step::Unlink(_) => Slot { links: table::minus(slot.links as int, 1) as u32, ..slot },
            Step::LookUp(_) => Slot { lookups: (slot.lookups + 1) as u64, ..slot },
            Step::Forget(_, n) => Slot {
                lookups: table::minus(slot.lookups as int, n as int) as u64,
                ..slot
            },
            Step::Open(_) => Slot { opens: (slot.opens + 1) as u32, ..slot },
            _ => Slot { opens: table::minus(slot.opens as int, 1) as u32, ..slot },
        };
        table::lemma_update_valid(v, ino, changed);
    }
}

/// Whatever is done to a valid table, it stays valid.
pub proof fn law_table_stays_valid<N>(v: TableView<N>, steps: Seq<Step<N>>)
    requires
        v.valid(),
        all_possible(v, steps),
    ensures
        run(v, steps).valid(),
    decreases steps.len(),
{
    if steps.len() > 0 {
        law_step_keeps_table_valid(v, steps.first());
        law_table_stays_valid(steps.first().done(v), steps.drop_first());
    }
}

/// A step leaves every node alone but the one that it is about.
pub proof fn law_step_changes_one_node<N>(v: TableView<N>, step: Step<N>, other: u64)
    requires
        v.valid(),
        step.possible(v),
        other != step.ino(v),
    ensures
        step.done(v).slots.contains_key(other) == v.slots.contains_key(other),
        v.slots.contains_key(other) ==> step.done(v).slots[other] == v.slots[other],
{
}

/// A new node gets a number that no live node has, under which nothing but
/// its one name refers to it.
pub proof fn law_new_node_displaces_none<N>(v: TableView<N>, payload: N, parent: NodeId)
    requires
        v.valid(),
        v.can_alloc(),
    ensures
        !v.slots.contains_key(v.next_id().0),
        v.inserted(payload, parent).slots == v.slots.insert(
            v.next_id().0,
            Slot::fresh(payload, v.next_id().1, parent),
        ),
{
    table::lemma_insert_valid(v, Slot::fresh(payload, v.next_id().1, parent));
}

/// A node leaves the table in a step that gives a reference back, and in that
/// step exactly if nothing else refers to the node.
pub proof fn law_node_leaves_with_its_last_reference<N>(v: TableView<N>, step: Step<N>, ino: u64)
    requires
        v.valid(),
        step.possible(v),
        v.slots.contains_key(ino),
    ensures
        !step.done(v).slots.contains_key(ino) <==> {
            let slot = v.slots[ino];
            match step {
                Step::Unlease(i, generation) => i == ino && generation == slot.generation
                    && slot.links == 0 && slot.lookups == 0 && slot.opens == 0 && slot.leases == 1,
                Step::Unlink(i) => i == ino && slot.links == 1 && slot.lookups == 0 && slot.opens
                    == 0 && slot.leases == 0,
                Step::Forget(i, n) => i == ino && slot.links == 0 && 0 < slot.lookups <= n
                    && slot.opens == 0 && slot.leases == 0,
                Step::Close(i) => i == ino && slot.links == 0 && slot.lookups == 0 && slot.opens
                    == 1 && slot.leases == 0,
                _ => false,
            }
        },
{
    if step is Insert {
        law_new_node_displaces_none(v, step->Insert_0, step->Insert_1);
    }
}

/// As long as a node is in the table it is the same node, of the same
/// generation.
pub proof fn law_live_node_keeps_its_identity<N>(v: TableView<N>, step: Step<N>, ino: u64)
    requires
        v.valid(),
        step.possible(v),
        v.slots.contains_key(ino),
        step.done(v).slots.contains_key(ino),
    ensures
        step.done(v).slots[ino].record == v.slots[ino].record,
        step.done(v).slots[ino].generation == v.slots[ino].generation,
{
    if step is Insert {
        law_new_node_displaces_none(v, step->Insert_0, step->Insert_1);
    }
}

/// A lease pins its node: whatever else is done, as long as fewer leases were
/// given back than there are, the same node stays under the same number and
/// generation.
pub proof fn law_lease_pins_its_node<N>(v: TableView<N>, steps: Seq<Step<N>>, ino: u64)
    requires
        v.valid(),
        all_possible(v, steps),
        v.slots.contains_key(ino),
        leases_given_back(steps, ino, v.slots[ino].generation) < v.slots[ino].leases,
    ensures
        run(v, steps).slots.contains_key(ino),
        run(v, steps).slots[ino].record == v.slots[ino].record,
        run(v, steps).slots[ino].generation == v.slots[ino].generation,
    decreases steps.len(),
{
    if steps.len() > 0 {
        let step = steps.first();
        let w = step.done(v);
        law_step_keeps_table_valid(v, step);
        law_node_leaves_with_its_last_reference(v, step, ino);
        law_live_node_keeps_its_identity(v, step, ino);
        if step is Insert {
            law_new_node_displaces_none(v, step->Insert_0, step->Insert_1);
        }
        law_lease_pins_its_node(w, steps.drop_first(), ino);
    }
}

/// The number freed last is used first, with the next generation.
pub proof fn law_freed_number_is_used_next<N>(v: TableView<N>, step: Step<N>, ino: u64)
    requires
        v.valid(),
        step.possible(v),
        v.slots.contains_key(ino),
        !step.done(v).slots.contains_key(ino),
    ensures
        step.done(v).can_alloc(),
        step.done(v).next_id() == (ino, table::next_generation(v.slots[ino].generation)),
{
    law_node_leaves_with_its_last_reference(v, step, ino);
}

/// Every generation that a number has or will have next is at least `least`.
spec fn not_before<N>(v: TableView<N>, ino: u64, least: int) -> bool {
    &&& v.slots.contains_key(ino) ==> v.slots[ino].generation >= least
    &&& forall|i: int|
        0 <= i < v.free.len() && (#[trigger] v.free[i]).0 == ino ==> v.free[i].1 >= least
}

/// No generation that a number has or will have next is above `most`.
spec fn not_after<N>(v: TableView<N>, ino: u64, most: int) -> bool {
    &&& v.slots.contains_key(ino) ==> v.slots[ino].generation <= most
    &&& forall|i: int|
        0 <= i < v.free.len() && (#[trigger] v.free[i]).0 == ino ==> v.free[i].1 <= most
}

/// A step raises the generations of a number by one at most, and never lowers
/// them.
proof fn lemma_generation_step<N>(v: TableView<N>, step: Step<N>, ino: u64, least: int, most: int)
    requires
        v.valid(),
        step.possible(v),
        0 <= least,
        0 <= most < u64::MAX,
        not_before(v, ino, least),
        not_after(v, ino, most),
        1 <= ino < v.next_ino,
    ensures
        not_before(step.done(v), ino, least),
        not_after(step.done(v), ino, most + 1),
        v.slots.contains_key(ino) && !step.done(v).slots.contains_key(ino) ==> not_before(
            step.done(v),
            ino,
            v.slots[ino].generation + 1,
        ),
        step.done(v).next_ino >= v.next_ino,
{
    let w = step.done(v);
    if step is Insert {
        if v.free.len() > 0 {
            assert(v.free[v.free.len() - 1] == v.next_id());
            assert forall|i: int|
                0 <= i < w.free.len() && (#[trigger] w.free[i]).0 == ino implies least
                <= w.free[i].1 <= most + 1 by {
                assert(w.free[i] == v.free[i]);
            }
        } else {
            assert(w.free =~= v.free);
        }
    } else if v.slots.contains_key(step.ino(v)) && !w.slots.contains_key(step.ino(v)) {
        let gone = step.ino(v);
        law_freed_number_is_used_next(v, step, gone);
        assert(w.free.last() == (gone, table::next_generation(v.slots[gone].generation)));
        assert(w.free.drop_last() =~= v.free);
        assert forall|i: int| 0 <= i < w.free.len() && (#[trigger] w.free[i]).0 == ino implies {
            &&& least <= w.free[i].1 <= most + 1
            &&& gone == ino ==> w.free[i].1 >= v.slots[ino].generation + 1
        } by {
            if i < v.free.len() {
                assert(w.free[i] == v.free[i]);
            }
        }
    } else {
        assert(w.free =~= v.free);
    }
}

/// What holds of a number after its node of generation `generation` was seen:
/// the node is still there, or all that comes has a later generation.
spec fn same_or_later<N>(v: TableView<N>, ino: u64, record: Arc<N>, generation: int) -> bool {
    ||| v.slots.contains_key(ino) && v.slots[ino].record == record && v.slots[ino].generation
        == generation
    ||| not_before(v, ino, generation + 1)
}

proof fn lemma_same_or_later<N>(
    v: TableView<N>,
    steps: Seq<Step<N>>,
    ino: u64,
    record: Arc<N>,
    generation: int,
    most: int,
)
    requires
        v.valid(),
        all_possible(v, steps),
        1 <= ino < v.next_ino,
        0 <= generation <= most,
        most + steps.len() <= u64::MAX,
        not_before(v, ino, generation),
        not_after(v, ino, most),
        same_or_later(v, ino, record, generation),
    ensures
        same_or_later(run(v, steps), ino, record, generation),
    decreases steps.len(),
{
    if steps.len() > 0 {
        let step = steps.first();
        let w = step.done(v);
        law_step_keeps_table_valid(v, step);
        lemma_generation_step(v, step, ino, generation, most);
        if not_before(v, ino, generation + 1) {
            lemma_generation_step(v, step, ino, generation + 1, most);
        } else if w.slots.contains_key(ino) {
            law_live_node_keeps_its_identity(v, step, ino);
        }
        lemma_same_or_later(w, steps.drop_first(), ino, record, generation, most + 1);
    }
}

/// An inode number and a generation name one node for ever: what is found
/// under the number later is the same node, or has a later generation. (Until
/// the generations of a number are used up, which takes as many steps as there
/// are generations.)
pub proof fn law_number_and_generation_name_one_node<N>(
    v: TableView<N>,
    steps: Seq<Step<N>>,
    ino: u64,
)
    requires
        v.valid(),
        all_possible(v, steps),
        v.slots.contains_key(ino),
        v.slots[ino].generation + steps.len() <= u64::MAX,
        run(v, steps).slots.contains_key(ino),
    ensures
        run(v, steps).slots[ino].generation >= v.slots[ino].generation,
        run(v, steps).slots[ino].generation == v.slots[ino].generation ==> run(
            v,
            steps,
        ).slots[ino].record == v.slots[ino].record,
{
    let slot = v.slots[ino];
    lemma_same_or_later(
        v,
        steps,
        ino,
        slot.record,
        slot.generation as int,
        slot.generation as int,
    );
}

/// Giving back what was just taken leaves the table as it was: a name, a
/// lookup, an open handle, a lease.
pub proof fn law_giving_back_undoes_taking<N>(v: TableView<N>, ino: u64)
    requires
        v.valid(),
    ensures
        Step::<N>::Link(ino).possible(v) ==> v.linked(ino).unlinked(ino) == v,
        Step::<N>::LookUp(ino).possible(v) ==> v.looked_up(ino).forgotten(ino, 1) == v,
        Step::<N>::Open(ino).possible(v) ==> v.opened(ino).closed(ino) == v,
        Step::<N>::Lease(ino).possible(v) ==> forall|generation: u64|
            (v.slots.contains_key(ino) ==> generation == v.slots[ino].generation)
                ==> #[trigger] v.leased(ino).unleased(ino, generation) == v,
{
    if v.slots.contains_key(ino) {
        let slots = v.slots;
        let slot = v.slots[ino];
        assert(slots.insert(ino, slot) =~= slots);
        assert(v.linked(ino).slots.insert(ino, slot) =~= slots);
        assert(v.looked_up(ino).slots.insert(ino, slot) =~= slots);
        assert(v.opened(ino).slots.insert(ino, slot) =~= slots);
        assert(v.leased(ino).slots.insert(ino, slot) =~= slots);
    }
}

/// How many of the leases that came back are on a node of this number and
/// generation.
pub open spec fn came_back(back: Seq<(u64, u64)>, ino: u64, generation: u64) -> nat
    decreases back.len(),
{
    if back.len() == 0 {
        0
    } else {
        came_back(back.drop_last(), ino, generation) + if back.last() == (ino, generation) {
            1nat
        } else {
            0nat
        }
    }
}

/// Taking dropped leases in ends leases and nothing else. The table stays valid
/// and no number is lost; a node of which no lease is out is untouched; any
/// other loses leases only, and leaves only if nothing else refers to it.
pub proof fn law_settling_ends_leases_only<N>(v: TableView<N>, later: TableView<N>, ino: u64)
    requires
        v.valid(),
        v.settles_to(later),
    ensures
        later.valid(),
        v.can_alloc() ==> later.can_alloc(),
        later.slots.contains_key(ino) ==> {
            let (slot, was) = (later.slots[ino], v.slots[ino]);
            &&& v.slots.contains_key(ino)
            &&& slot.leases <= was.leases
            &&& slot == (Slot { leases: slot.leases, ..was })
        },
        v.slots.contains_key(ino) && !later.slots.contains_key(ino) ==> {
            let was = v.slots[ino];
            was.links == 0 && was.lookups == 0 && was.opens == 0 && was.leases > 0
        },
{
    let back = choose|back: Seq<(u64, u64)>| later == #[trigger] v.settled(back);
    table::lemma_settled(v, back, ino);
}

/// The slot of a node after leases came back: it has fewer leases by as many as
/// came back on it.
pub open spec fn left<N>(v: TableView<N>, back: Seq<(u64, u64)>, ino: u64) -> Slot<N> {
    let was = v.slots[ino];
    let leases = less(was.leases as int, came_back(back, ino, was.generation) as int);
    Slot { leases: leases as u32, ..was }
}

/// Whether something still refers to a node after leases came back: a name, a
/// lookup, an open handle, or a lease that did not come back.
pub open spec fn stays<N>(v: TableView<N>, back: Seq<(u64, u64)>, ino: u64) -> bool {
    v.slots.contains_key(ino) && referred_to(left(v, back, ino))
}

/// A node loses as many leases as came back on it, and is live exactly as long as
/// anything refers to it: none that nothing refers to is kept, and none that
/// something refers to is dropped.
pub proof fn law_settling_counts_what_came_back<N>(
    v: TableView<N>,
    back: Seq<(u64, u64)>,
    ino: u64,
)
    requires
        v.valid(),
    ensures
        v.settled(back).slots.contains_key(ino) <==> stays(v, back, ino),
        stays(v, back, ino) ==> v.settled(back).slots[ino] == left(v, back, ino),
    decreases back.len(),
{
    if back.len() > 0 {
        table::lemma_settled(v, back.drop_last(), ino);
        law_settling_counts_what_came_back(v, back.drop_last(), ino);
    }
}

/// A new node displaces none that anything refers to, whichever leases came back
/// before: it gets a number that none of them has, under which only its one name
/// refers to it, and each of them is as it was but for those leases.
pub proof fn law_new_node_spares_the_others<N>(
    v: TableView<N>,
    back: Seq<(u64, u64)>,
    payload: N,
    parent: NodeId,
    ino: u64,
)
    requires
        v.valid(),
        v.can_alloc(),
    ensures
        ({
            let now = v.settled(back);
            let (id, generation) = now.next_id();
            let post = now.inserted(payload, parent);
            &&& now.can_alloc()
            &&& !now.slots.contains_key(id)
            &&& post.slots.contains_key(id)
            &&& post.slots[id] == Slot::fresh(payload, generation, parent)
            &&& stays(v, back, ino) ==> {
                &&& ino != id
                &&& post.slots.contains_key(ino)
                &&& post.slots[ino] == left(v, back, ino)
            }
            &&& post.slots.contains_key(ino) ==> ino == id || stays(v, back, ino)
        }),
{
    table::lemma_settled(v, back, ino);
    law_settling_counts_what_came_back(v, back, ino);
    law_new_node_displaces_none(v.settled(back), payload, parent);
}

/// Taking another name away again leaves the nodes as if it had never been given,
/// whichever leases came back between, and does not free the node.
pub proof fn law_unlink_undoes_link_across_drops<N>(
    v: TableView<N>,
    back: Seq<(u64, u64)>,
    ino: u64,
)
    requires
        v.valid(),
        v.slots.contains_key(ino) ==> 0 < v.slots[ino].links < u32::MAX,
    ensures
        v.linked(ino).settled(back).unlinked(ino) == v.settled(back),
        v.slots.contains_key(ino) ==> v.settled(back).slots.contains_key(ino),
{
    lemma_link_commutes(v, back, ino);
    table::lemma_settled(v, back, ino);
    law_giving_back_undoes_taking(v.settled(back), ino);
}

proof fn lemma_link_commutes<N>(v: TableView<N>, back: Seq<(u64, u64)>, ino: u64)
    requires
        v.valid(),
        v.slots.contains_key(ino) ==> 0 < v.slots[ino].links < u32::MAX,
    ensures
        v.linked(ino).settled(back) == v.settled(back).linked(ino),
    decreases back.len(),
{
    if back.len() > 0 {
        let w = v.settled(back.drop_last());
        let (i, generation) = back.last();
        lemma_link_commutes(v, back.drop_last(), ino);
        table::lemma_settled(v, back.drop_last(), ino);
        table::lemma_settled(v, back, ino);
        let (linked, settled) = (w.linked(ino).unleased(i, generation), w.unleased(i, generation));
        assert(linked.slots =~= settled.linked(ino).slots);
        assert(linked.free =~= settled.linked(ino).free);
    }
}

/// Of a node on which no lease came back, none is counted.
proof fn lemma_none_came_back(back: Seq<(u64, u64)>, ino: u64, generation: u64)
    requires
        forall|i: int| 0 <= i < back.len() ==> #[trigger] back[i] != (ino, generation),
    ensures
        came_back(back, ino, generation) == 0,
    decreases back.len(),
{
    if back.len() > 0 {
        let fewer = back.drop_last();
        assert forall|i: int| 0 <= i < fewer.len() implies #[trigger] fewer[i] != (
            ino,
            generation,
        ) by {
            assert(fewer[i] == back[i]);
        }
        lemma_none_came_back(fewer, ino, generation);
        assert(back.last() == back[back.len() - 1]);
    }
}

/// A lease that did not come in through a context's own receiver is not ended by
/// it: where none on a node did, the node is as it was.
pub proof fn law_node_stays_unless_its_lease_came_in<N>(
    cx: Cx<N>,
    now: TableView<N>,
    ino: u64,
)
    requires
        cx@.valid(),
        cx.takes_in(now),
        cx@.slots.contains_key(ino),
        !table::came_in(cx.receiver(), Some((ino, cx@.slots[ino].generation))),
    ensures
        now.slots.contains_key(ino),
        now.slots[ino] == cx@.slots[ino],
{
    let back = choose|back: Seq<(u64, u64)>|
        cx.took_in(back) && now == #[trigger] cx@.settled(back);
    lemma_none_came_back(back, ino, cx@.slots[ino].generation);
    law_settling_counts_what_came_back(cx@, back, ino);
}

/// Where no lease came in, the nodes are as they were.
pub proof fn law_nothing_came_in_nothing_changes<N>(cx: Cx<N>, now: TableView<N>)
    requires
        cx.takes_in(now),
        forall|lease: (u64, u64)| !#[trigger] table::came_in(cx.receiver(), Some(lease)),
    ensures
        now == cx@,
{
    let back = choose|back: Seq<(u64, u64)>|
        cx.took_in(back) && now == #[trigger] cx@.settled(back);
    if back.len() > 0 {
        assert(table::came_in(cx.receiver(), Some(back[0])));
    }
}

/// A lease that is kept pins its node also while others come back: as long as
/// fewer came back than there are, the same node stays under the same number and
/// generation.
pub proof fn law_kept_lease_pins_its_node<N>(v: TableView<N>, back: Seq<(u64, u64)>, ino: u64)
    requires
        v.valid(),
        v.slots.contains_key(ino),
        came_back(back, ino, v.slots[ino].generation) < v.slots[ino].leases,
    ensures
        v.settled(back).slots.contains_key(ino),
        v.settled(back).slots[ino].record == v.slots[ino].record,
        v.settled(back).slots[ino].generation == v.slots[ino].generation,
        v.settled(back).slots[ino].leases > 0,
{
    law_settling_counts_what_came_back(v, back, ino);
}

/// A node that only one lease referred to is gone once that lease came back, and
/// its number is the next one used.
pub proof fn law_last_lease_back_frees_its_node<N>(v: TableView<N>, ino: u64)
    requires
        v.valid(),
        v.slots.contains_key(ino),
        v.slots[ino].links == 0,
        v.slots[ino].lookups == 0,
        v.slots[ino].opens == 0,
        v.slots[ino].leases == 1,
    ensures
        ({
            let generation = v.slots[ino].generation;
            let later = v.settled(seq![(ino, generation)]);
            &&& !later.slots.contains_key(ino)
            &&& later.next_id() == (ino, table::next_generation(generation))
        }),
{
    let step = Step::<N>::Unlease(ino, v.slots[ino].generation);
    let back = seq![(ino, v.slots[ino].generation)];
    assert(back.drop_last() =~= Seq::empty());
    assert(v.settled(back.drop_last()) == v);
    assert(v.settled(back) == step.done(v));
    law_node_leaves_with_its_last_reference(v, step, ino);
    law_freed_number_is_used_next(v, step, ino);
}

/// Taking dropped leases in twice is taking them in once.
pub proof fn law_settling_twice_is_settling_once<N>(
    v: TableView<N>,
    back: Seq<(u64, u64)>,
    more: Seq<(u64, u64)>,
)
    ensures
        v.settled(back).settled(more) == v.settled(back + more),
    decreases more.len(),
{
    if more.len() == 0 {
        assert(back + more =~= back);
    } else {
        assert((back + more).drop_last() =~= back + more.drop_last());
        law_settling_twice_is_settling_once(v, back, more.drop_last());
    }
}

/// Where no lease is out, taking dropped leases in changes nothing.
pub proof fn law_settling_without_leases_is_idle<N>(v: TableView<N>, later: TableView<N>)
    requires
        v.valid(),
        forall|ino: u64| #[trigger] v.slots.contains_key(ino) ==> v.slots[ino].leases == 0,
        v.settles_to(later),
    ensures
        later == v,
{
    let back = choose|back: Seq<(u64, u64)>| later == #[trigger] v.settled(back);
    lemma_settled_without_leases(v, back);
}

proof fn lemma_settled_without_leases<N>(v: TableView<N>, back: Seq<(u64, u64)>)
    requires
        v.valid(),
        forall|ino: u64| #[trigger] v.slots.contains_key(ino) ==> v.slots[ino].leases == 0,
    ensures
        v.settled(back) == v,
    decreases back.len(),
{
    if back.len() > 0 {
        lemma_settled_without_leases(v, back.drop_last());
        let ino = back.last().0;
        if v.slots.contains_key(ino) {
            assert(v.slots.insert(ino, v.slots[ino]) =~= v.slots);
        }
    }
}

/// The number left after taking `n` away, none where that would be negative.
pub open spec fn less(count: int, n: int) -> int {
    if count > n {
        count - n
    } else {
        0
    }
}

/// Whether anything refers to a node.
pub open spec fn referred_to<N>(slot: Slot<N>) -> bool {
    slot.links > 0 || slot.lookups > 0 || slot.opens > 0 || slot.leases > 0
}

/// Whether `post` is the table `v` with another slot for the node `ino`, which is
/// gone if nothing refers to it any more: its number is then free, to be used next,
/// with the generation after its own. No other node is touched.
pub open spec fn becomes<N>(v: TableView<N>, ino: u64, slot: Slot<N>, post: TableView<N>) -> bool {
    &&& post.next_ino == v.next_ino
    &&& if referred_to(slot) {
        post.slots == v.slots.insert(ino, slot) && post.free == v.free
    } else {
        &&& post.slots == v.slots.remove(ino)
        &&& post.free == v.free.push(
            (
                ino,
                if slot.generation == u64::MAX {
                    0
                } else {
                    (slot.generation + 1) as u64
                },
            ),
        )
    }
}

/// Whether a table holds a root directory alone, as a new filesystem has it.
pub open spec fn starts_at_root<N>(v: TableView<N>, payload: N) -> bool {
    let slot = v.slots[1];
    &&& forall|ino: u64| #[trigger] v.slots.contains_key(ino) <==> ino == 1
    &&& *slot.record == payload && slot.generation == 0
    &&& slot.links == 1 && slot.lookups == 0 && slot.opens == 0 && slot.leases == 0
    &&& slot.parent.number() == 1
    &&& v.next_ino == 2 && v.free.len() == 0
}

pub(crate) proof fn lemma_becomes<N>()
    ensures
        forall|v: TableView<N>, ino: u64, slot: Slot<N>|
            becomes(v, ino, slot, #[trigger] v.with(ino, slot).pruned(ino)),
        forall|v: TableView<N>, ino: u64| #[trigger]
            v.pruned(ino) == v || v.slots.contains_key(ino) && !referred_to(v.slots[ino]),
{
    assert forall|v: TableView<N>, ino: u64, slot: Slot<N>| becomes(
        v,
        ino,
        slot,
        #[trigger] v.with(ino, slot).pruned(ino),
    ) by {
        assert(v.slots.insert(ino, slot).remove(ino) =~= v.slots.remove(ino));
    }
}

/// Whether what is known of the nodes `v` is known of them as `now`: leases came in,
/// and nothing else.
pub open spec fn outlives<N>(v: TableView<N>, now: TableView<N>, ino: u64) -> bool {
    &&& now.valid()
    &&& v.can_alloc() ==> now.can_alloc()
    &&& now.slots.contains_key(ino) ==> {
        let (slot, was) = (now.slots[ino], v.slots[ino]);
        &&& v.slots.contains_key(ino)
        &&& slot.leases <= was.leases
        &&& slot == (Slot { leases: slot.leases, ..was })
    }
}

pub(crate) proof fn lemma_taken_in<N>()
    ensures
        forall|cx: Cx<N>, now: TableView<N>, ino: u64|
            #![trigger cx.takes_in(now), now.slots.contains_key(ino)]
            cx@.valid() && cx.takes_in(now) ==> outlives(cx@, now, ino),
{
    assert forall|cx: Cx<N>, now: TableView<N>, ino: u64|
        cx@.valid() && #[trigger] cx.takes_in(now) implies #[trigger] outlives(cx@, now, ino) by {
        law_settling_ends_leases_only(cx@, now, ino);
    }
}

/// The next number is no live node's.
proof fn lemma_next_is_new<N>()
    ensures
        forall|v: TableView<N>| #[trigger]
            v.valid() && v.can_alloc() ==> !v.slots.contains_key(v.next_id().0),
{
    assert forall|v: TableView<N>| #[trigger]
        v.valid() && v.can_alloc() implies !v.slots.contains_key(v.next_id().0) by {
        if v.free.len() > 0 {
            assert(v.free[v.free.len() - 1] == v.next_id());
        }
    }
}

/// A name that is given or taken away is counted as one, on its own node alone, which
/// goes with the last reference. A node that is not there is not made.
pub proof fn law_names_are_counted<N>(
    id: NodeId,
    parent: NodeId,
)
    ensures
        forall|t: &mut NodeTable<N>| #[trigger]
            call_ensures(
                NodeTable::<N>::add_link,
                (t, id),
                (),
            ) && (t@.slots.contains_key(id.number())
                ==> t@.slots[id.number()].links < u32::MAX) ==> {
                let slot = t@.slots[id.number()];
                &&& final(t)@.valid()
                &&& if t@.slots.contains_key(id.number()) {
                    becomes(
                        t@,
                        id.number(),
                        Slot { links: (slot.links + 1) as u32, ..slot },
                        final(t)@,
                    )
                } else {
                    final(t)@ == t@
                }
            },
        forall|t: &mut NodeTable<N>| #[trigger]
            call_ensures(NodeTable::<N>::remove_link, (t, id), ()) ==> {
                let slot = t@.slots[id.number()];
                &&& final(t)@.valid()
                &&& if t@.slots.contains_key(id.number()) {
                    becomes(
                        t@,
                        id.number(),
                        Slot { links: less(slot.links as int, 1) as u32, ..slot },
                        final(t)@,
                    )
                } else {
                    final(t)@ == t@
                }
            },
        forall|t: &mut NodeTable<N>| #[trigger]
            call_ensures(NodeTable::<N>::reparent, (t, id, parent), ()) && t@.valid() ==> {
                let slot = t@.slots[id.number()];
                &&& final(t)@.valid()
                &&& if t@.slots.contains_key(id.number()) {
                    becomes(t@, id.number(), Slot { parent: parent, ..slot }, final(t)@)
                } else {
                    final(t)@ == t@
                }
            },
{
    lemma_becomes::<N>();
}

/// The same through a context, on the nodes after dropped leases came in.
pub proof fn law_names_are_counted_through_a_context<N>(
    id: NodeId,
    parent: NodeId,
)
    ensures
        forall|cx: &mut Cx<N>| #[trigger]
            call_ensures(
                Cx::<N>::add_link,
                (cx, id),
                (),
            ) && cx@.valid() && (cx@.slots.contains_key(id.number())
                ==> cx@.slots[id.number()].links < u32::MAX) ==> {
                &&& final(cx)@.valid()
                &&& final(cx).receiver() == cx.receiver()
                &&& exists|now: TableView<N>|
                    {
                        let slot = now.slots[id.number()];
                        &&& #[trigger] cx.takes_in(now)
                        &&& if now.slots.contains_key(id.number()) {
                            becomes(
                                now,
                                id.number(),
                                Slot { links: (slot.links + 1) as u32, ..slot },
                                final(cx)@,
                            )
                        } else {
                            final(cx)@ == now
                        }
                    }
            },
        forall|cx: &mut Cx<N>| #[trigger]
            call_ensures(Cx::<N>::remove_link, (cx, id), ()) ==> {
                &&& final(cx)@.valid()
                &&& final(cx).receiver() == cx.receiver()
                &&& exists|now: TableView<N>|
                    {
                        let slot = now.slots[id.number()];
                        &&& #[trigger] cx.takes_in(now)
                        &&& if now.slots.contains_key(id.number()) {
                            becomes(
                                now,
                                id.number(),
                                Slot { links: less(slot.links as int, 1) as u32, ..slot },
                                final(cx)@,
                            )
                        } else {
                            final(cx)@ == now
                        }
                    }
            },
        forall|cx: &mut Cx<N>| #[trigger]
            call_ensures(Cx::<N>::reparent, (cx, id, parent), ()) && cx@.valid() ==> {
                &&& final(cx)@.valid()
                &&& final(cx).receiver() == cx.receiver()
                &&& exists|now: TableView<N>|
                    {
                        let slot = now.slots[id.number()];
                        &&& #[trigger] cx.takes_in(now)
                        &&& if now.slots.contains_key(id.number()) {
                            becomes(now, id.number(), Slot { parent: parent, ..slot }, final(cx)@)
                        } else {
                            final(cx)@ == now
                        }
                    }
            },
{
    lemma_becomes::<N>();
    lemma_taken_in::<N>();
}

/// A lookup and an open handle are counted as one when they come, and as many as are
/// given back when they go, on their own node alone, which goes with the last
/// reference.
pub proof fn law_lookups_and_handles_are_counted<N>(
    id: NodeId,
    ino: u64,
    n: u64,
    generation: Option<u64>,
)
    ensures
        forall|t: &mut NodeTable<N>| #[trigger]
            call_ensures(
                NodeTable::<N>::look_up,
                (t, id),
                generation,
            ) && (t@.slots.contains_key(id.number())
                ==> t@.slots[id.number()].lookups < u64::MAX) ==> {
                let slot = t@.slots[id.number()];
                if t@.slots.contains_key(id.number()) {
                    &&& generation == Some(slot.generation)
                    &&& becomes(
                        t@,
                        id.number(),
                        Slot { lookups: (slot.lookups + 1) as u64, ..slot },
                        final(t)@,
                    )
                } else {
                    generation is None && final(t)@ == t@
                }
            },
        forall|t: &mut NodeTable<N>| #[trigger]
            call_ensures(NodeTable::<N>::forget, (t, ino, n), ()) ==> {
                let slot = t@.slots[ino];
                &&& final(t)@.valid()
                &&& if t@.slots.contains_key(ino) {
                    becomes(
                        t@,
                        ino,
                        Slot { lookups: less(slot.lookups as int, n as int) as u64, ..slot },
                        final(t)@,
                    )
                } else {
                    final(t)@ == t@
                }
            },
        forall|t: &mut NodeTable<N>| #[trigger]
            call_ensures(
                NodeTable::<N>::add_open,
                (t, ino),
                (),
            ) && (t@.slots.contains_key(ino) ==> t@.slots[ino].opens < u32::MAX) ==> {
                let slot = t@.slots[ino];
                &&& final(t)@.valid()
                &&& if t@.slots.contains_key(ino) {
                    becomes(t@, ino, Slot { opens: (slot.opens + 1) as u32, ..slot }, final(t)@)
                } else {
                    final(t)@ == t@
                }
            },
        forall|t: &mut NodeTable<N>| #[trigger]
            call_ensures(NodeTable::<N>::remove_open, (t, ino), ()) ==> {
                let slot = t@.slots[ino];
                &&& final(t)@.valid()
                &&& if t@.slots.contains_key(ino) {
                    becomes(
                        t@,
                        ino,
                        Slot { opens: less(slot.opens as int, 1) as u32, ..slot },
                        final(t)@,
                    )
                } else {
                    final(t)@ == t@
                }
            },
{
    lemma_becomes::<N>();
}

/// A lease is counted as one when it is taken, and stands for the node that it was
/// taken on; it is counted off when it is given back, as long as that node is there.
pub proof fn law_leases_are_counted<N>(
    id: NodeId,
    r: Option<NodeRef<N>>,
    node: NodeRef<N>,
)
    ensures
        forall|t: &mut NodeTable<N>| #[trigger]
            call_ensures(
                NodeTable::<N>::get,
                (t, id),
                r,
            ) && (t@.slots.contains_key(id.number())
                ==> t@.slots[id.number()].leases < u32::MAX) ==> {
                let slot = t@.slots[id.number()];
                match r {
                    Some(lease) => {
                        &&& t@.slots.contains_key(id.number())
                        &&& becomes(
                            t@,
                            id.number(),
                            Slot { leases: (slot.leases + 1) as u32, ..slot },
                            final(t)@,
                        )
                        &&& lease.node_id().number() == id.number()
                        &&& lease.node_generation() == slot.generation
                        &&& lease.payload() == *slot.record
                    },
                    None => !t@.slots.contains_key(id.number()) && final(t)@ == t@,
                }
            },
        forall|t: &mut NodeTable<N>| #[trigger]
            call_ensures(NodeTable::<N>::release, (t, node), ()) && t@.valid() ==> {
                let ino = node.node_id().number();
                let slot = t@.slots[ino];
                if t@.slots.contains_key(ino) && slot.generation == node.node_generation() {
                    becomes(
                        t@,
                        ino,
                        Slot { leases: less(slot.leases as int, 1) as u32, ..slot },
                        final(t)@,
                    )
                } else {
                    final(t)@ == t@
                }
            },
{
    lemma_becomes::<N>();
}

/// The same through a context: a lease comes back there when it is dropped.
pub proof fn law_leases_are_counted_through_a_context<N>(
    id: NodeId,
    r: Option<NodeRef<N>>,
    node: NodeRef<N>,
)
    ensures
        forall|cx: &mut Cx<N>| #[trigger]
            call_ensures(
                Cx::<N>::get,
                (cx, id),
                r,
            ) && cx@.valid() && (cx@.slots.contains_key(id.number())
                ==> cx@.slots[id.number()].leases < u32::MAX) ==> {
                &&& final(cx).receiver() == cx.receiver()
                &&& exists|now: TableView<N>|
                    {
                        let slot = now.slots[id.number()];
                        &&& #[trigger] cx.takes_in(now)
                        &&& match r {
                            Some(lease) => {
                                &&& now.slots.contains_key(id.number())
                                &&& becomes(
                                    now,
                                    id.number(),
                                    Slot { leases: (slot.leases + 1) as u32, ..slot },
                                    final(cx)@,
                                )
                                &&& lease.node_id().number() == id.number()
                                &&& lease.node_generation() == slot.generation
                                &&& lease.payload() == *slot.record
                                &&& lease.comes_back_to() == Some(cx.way_in())
                            },
                            None => !now.slots.contains_key(id.number()) && final(cx)@ == now,
                        }
                    }
            },
        forall|cx: &mut Cx<N>| #[trigger]
            call_ensures(Cx::<N>::release, (cx, node), ()) && cx@.valid() ==> {
                exists|now: TableView<N>|
                    {
                        let ino = node.node_id().number();
                        let slot = now.slots[ino];
                        &&& #[trigger] cx.takes_in(now)
                        &&& if now.slots.contains_key(ino) && slot.generation
                            == node.node_generation() {
                            becomes(
                                now,
                                ino,
                                Slot { leases: less(slot.leases as int, 1) as u32, ..slot },
                                final(cx)@,
                            )
                        } else {
                            final(cx)@ == now
                        }
                    }
            },
{
    lemma_becomes::<N>();
    lemma_taken_in::<N>();
}

/// A new node gets the number that was freed last, with the generation kept for it, or
/// one that was never used; one name refers to it. No other node is touched.
pub proof fn law_new_node_gets_the_number_freed_last<N>(
    payload: N,
    parent: NodeId,
    id: NodeId,
)
    ensures
        forall|t: &mut NodeTable<N>| #[trigger]
            call_ensures(
                NodeTable::<N>::insert,
                (t, payload, parent),
                id,
            ) && t@.valid() && (t@.free.len() > 0 || t@.next_ino < u64::MAX) ==> {
                {
                    let (ino, generation) = if t@.free.len() > 0 {
                        t@.free.last()
                    } else {
                        (t@.next_ino, 0u64)
                    };
                    let slot = final(t)@.slots[ino];
                    &&& id.number() == ino
                    &&& !t@.slots.contains_key(ino)
                    &&& final(t)@.slots == t@.slots.insert(ino, slot)
                    &&& *slot.record == payload && slot.generation == generation
                    &&& slot.links == 1 && slot.lookups == 0 && slot.opens == 0
                    &&& slot.leases == 0 && slot.parent == parent
                    &&& if t@.free.len() > 0 {
                        final(t)@.free == t@.free.drop_last() && final(t)@.next_ino == t@.next_ino
                    } else {
                        final(t)@.free == t@.free && final(t)@.next_ino == t@.next_ino + 1
                    }
                }
            },
        forall|cx: &mut Cx<N>| #[trigger]
            call_ensures(
                Cx::<N>::insert,
                (cx, payload, parent),
                id,
            ) && cx@.valid() && (cx@.free.len() > 0 || cx@.next_ino < u64::MAX) ==> {
                exists|now: TableView<N>| #[trigger]
                    cx.takes_in(now) && {
                    let (ino, generation) = if now.free.len() > 0 {
                        now.free.last()
                    } else {
                        (now.next_ino, 0u64)
                    };
                    let slot = final(cx)@.slots[ino];
                    &&& id.number() == ino
                    &&& !now.slots.contains_key(ino)
                    &&& final(cx)@.slots == now.slots.insert(ino, slot)
                    &&& *slot.record == payload && slot.generation == generation
                    &&& slot.links == 1 && slot.lookups == 0 && slot.opens == 0
                    &&& slot.leases == 0 && slot.parent == parent
                    &&& if now.free.len() > 0 {
                        &&& final(cx)@.free == now.free.drop_last()
                        &&& final(cx)@.next_ino == now.next_ino
                    } else {
                        final(cx)@.free == now.free && final(cx)@.next_ino == now.next_ino + 1
                    }
                    }
            },
{
    lemma_taken_in::<N>();
    lemma_next_is_new::<N>();
}

/// What is asked of a table is answered as it stands in it: whether a node is there, its
/// payload, its directory and its counts, and whether a number is left.
pub proof fn law_table_is_read_as_it_is<N>(
    t: NodeTable<N>,
    id: NodeId,
    ino: u64,
    contains: bool,
    room: bool,
    node: Result<&N, Errno>,
    record: Result<Arc<N>, Errno>,
    parent: Option<NodeId>,
    counts: Option<(u32, u64, u32, u32)>,
)
    ensures
        call_ensures(NodeTable::<N>::contains, (&t, id), contains) ==> contains
            == t@.slots.contains_key(id.number()),
        call_ensures(NodeTable::<N>::has_room, (&t,), room) ==> room == (t@.free.len() > 0
            || t@.next_ino < u64::MAX),
        call_ensures(NodeTable::<N>::node, (&t, ino), node) ==> match node {
            Ok(payload) => t@.slots.contains_key(ino) && *payload == *t@.slots[ino].record,
            Err(e) => !t@.slots.contains_key(ino) && e == Errno::ENOENT,
        },
        call_ensures(NodeTable::<N>::record, (&t, ino), record) ==> match record {
            Ok(payload) => t@.slots.contains_key(ino) && *payload == *t@.slots[ino].record,
            Err(e) => !t@.slots.contains_key(ino) && e == Errno::ENOENT,
        },
        call_ensures(NodeTable::<N>::parent_of, (&t, ino), parent) ==> match parent {
            Some(dir) => t@.slots.contains_key(ino) && dir == t@.slots[ino].parent,
            None => !t@.slots.contains_key(ino),
        },
        call_ensures(NodeTable::<N>::counts, (&t, ino), counts) ==> match counts {
            Some((links, lookups, opens, leases)) => {
                let slot = t@.slots[ino];
                &&& t@.slots.contains_key(ino)
                &&& links == slot.links && lookups == slot.lookups
                &&& opens == slot.opens && leases == slot.leases
            },
            None => !t@.slots.contains_key(ino),
        },
{
}

/// What is asked of a context is answered as it stands in it after dropped leases came
/// in; nothing else changes.
pub proof fn law_context_is_read_as_it_is<N>(
    id: NodeId,
    contains: bool,
    room: bool,
    counts: Option<(u32, u64, u32, u32)>,
)
    ensures
        forall|cx: &mut Cx<N>| #[trigger]
            call_ensures(Cx::<N>::contains, (cx, id), contains) ==> {
                &&& cx.takes_in(final(cx)@)
                &&& contains == final(cx)@.slots.contains_key(id.number())
            },
        forall|cx: &mut Cx<N>| #[trigger]
            call_ensures(Cx::<N>::has_room, (cx,), room) ==> {
                &&& cx.takes_in(final(cx)@)
                &&& room == (final(cx)@.free.len() > 0 || final(cx)@.next_ino < u64::MAX)
            },
        forall|cx: &mut Cx<N>| #[trigger]
            call_ensures(Cx::<N>::counts, (cx, id), counts) ==> {
                let slot = final(cx)@.slots[id.number()];
                &&& cx.takes_in(final(cx)@)
                &&& match counts {
                    Some((links, lookups, opens, leases)) => {
                        &&& final(cx)@.slots.contains_key(id.number())
                        &&& links == slot.links && lookups == slot.lookups
                        &&& opens == slot.opens && leases == slot.leases
                    },
                    None => !final(cx)@.slots.contains_key(id.number()),
                }
            },
{
}

/// A table starts empty, or with a root directory that one name refers to and that is
/// its own parent; further numbers start behind the root's.
pub proof fn law_tables_start_with_the_root<N>(
    payload: N,
    empty: NodeTable<N>,
    rooted: NodeTable<N>,
    cx: Cx<N>,
)
    ensures
        call_ensures(NodeTable::<N>::new, (), empty) ==> {
            &&& forall|ino: u64| !empty@.slots.contains_key(ino)
            &&& empty@.next_ino == 2 && empty@.free.len() == 0
        },
        call_ensures(NodeTable::<N>::with_root, (payload,), rooted) ==> starts_at_root(
            rooted@,
            payload,
        ),
        call_ensures(Cx::<N>::with_root, (payload,), cx) ==> starts_at_root(cx@, payload),
{
    crate::node::law_node_id_is_its_number(NodeId::of(1), 1);
}

/// A lease tells the node and the payload that it was taken on.
pub proof fn law_lease_is_read_as_it_is<N>(
    lease: NodeRef<N>,
    id: NodeId,
    node: &N,
    deref: &N,
)
    ensures
        call_ensures(NodeRef::<N>::id, (&lease,), id) ==> id == lease.node_id(),
        call_ensures(NodeRef::<N>::node, (&lease,), node) ==> *node == lease.payload(),
        call_ensures(<NodeRef<N> as std::ops::Deref>::deref, (&lease,), deref) ==> *deref
            == lease.payload(),
{
}

/// Leases that are ended one by one are counted off the nodes that they were taken
/// on, each of which goes with its last reference; nothing else changes.
pub proof fn law_settling_is_counted<N>(back: &Vec<(u64, u64)>)
    ensures
        forall|t: &mut NodeTable<N>| #[trigger]
            call_ensures(NodeTable::<N>::settle, (t, back), ()) && t@.valid() ==> {
                &&& final(t)@.next_ino == t@.next_ino
                &&& forall|ino: u64| #[trigger]
                    final(t)@.slots.contains_key(ino) <==> stays(t@, back@, ino)
                &&& forall|ino: u64| #[trigger]
                    final(t)@.slots.contains_key(ino) ==> final(t)@.slots[ino] == left(
                        t@,
                        back@,
                        ino,
                    )
            },
{
    assert forall|v: TableView<N>, ino: u64| v.valid() implies {
        &&& v.settled(back@).next_ino == v.next_ino
        &&& #[trigger] v.settled(back@).slots.contains_key(ino) <==> stays(v, back@, ino)
        &&& v.settled(back@).slots.contains_key(ino) ==> v.settled(back@).slots[ino] == left(
            v,
            back@,
            ino,
        )
    } by {
        law_settling_counts_what_came_back(v, back@, ino);
        table::lemma_settled(v, back@, ino);
    }
    assert forall|v: TableView<N>| v.valid() implies #[trigger] v.settled(back@).next_ino
        == v.next_ino by {
        table::lemma_settled(v, back@, 0);
    }
}

/// A node can be dropped exactly if nothing refers to it.
pub proof fn law_only_the_unreferenced_are_dropped<N>(slot: Slot<N>, r: bool)
    requires
        call_ensures(Slot::<N>::droppable, (&slot,), r),
    ensures
        r <==> slot.links == 0 && slot.lookups == 0 && slot.opens == 0 && slot.leases == 0,
{
}

/// Dropped leases are taken in from the context's own receiver, which is asked until
/// it gives none: each lease that is taken in is one that it gave, and is ended on its
/// own node.
pub proof fn law_receiver_is_asked_until_it_gives_none<N>()
    ensures
        forall|cx: &mut Cx<N>| #[trigger]
            call_ensures(Cx::<N>::reclaim, (cx,), ()) ==> {
                &&& final(cx).receiver() == cx.receiver()
                &&& final(cx)@.valid()
                &&& exists|back: Seq<(u64, u64)>|
                    {
                        &&& final(cx)@ == #[trigger] cx@.settled(back)
                        &&& forall|i: int|
                            0 <= i < back.len() ==> table::came_in(
                                cx.receiver(),
                                Some(#[trigger] back[i]),
                            )
                        &&& table::came_in(cx.receiver(), None) || back.len() == u64::MAX
                    }
            },
{
}

} // verus!
