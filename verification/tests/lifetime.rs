use fuse3::errno::Errno;
use fuse3::handles::{HandleRecord, HandleTable};
use fuse3::node::NodeId;
use fuse3::table::{Cx, NodeTable};

fn root() -> NodeId {
    NodeId::root()
}

#[test]
fn table_starts_with_the_root() {
    let t = NodeTable::with_root("root");
    assert_eq!(t.counts(1), Some((1, 0, 0, 0)));
    assert_eq!(t.parent_of(1), Some(root()));
    assert_eq!(t.node(1).unwrap(), &"root");
    assert!(t.contains(root()));
    let e: NodeTable<u8> = NodeTable::new();
    assert!(!e.contains(root()));
    assert_eq!(e.node(1).unwrap_err(), Errno::ENOENT);
    assert!(e.has_room());
}

#[test]
fn new_nodes_get_new_numbers() {
    let mut t = NodeTable::with_root("root");
    let a = t.insert("a", root());
    let b = t.insert("b", a);
    assert_eq!((a.ino(), b.ino()), (2, 3));
    assert_eq!(t.counts(2), Some((1, 0, 0, 0)));
    assert_eq!(t.parent_of(3), Some(a));
    assert_eq!(*t.record(3).unwrap(), "b");
}

#[test]
fn freed_numbers_come_back_last_first_with_the_next_generation() {
    let mut t = NodeTable::with_root("root");
    let a = t.insert("a", root());
    let b = t.insert("b", root());
    t.remove_link(a);
    t.remove_link(b);
    assert!(!t.contains(a) && !t.contains(b));
    let c = t.insert("c", root());
    assert_eq!(c, b);
    assert_eq!(t.look_up(c), Some(1));
    let d = t.insert("d", root());
    assert_eq!(d, a);
    assert_eq!(t.look_up(d), Some(1));
    assert_eq!(t.insert("e", root()).ino(), 4);
}

#[test]
fn each_kind_of_reference_keeps_a_node() {
    // A lookup.
    let mut t = NodeTable::with_root(0);
    let a = t.insert(1, root());
    assert_eq!(t.look_up(a), Some(0));
    assert_eq!(t.look_up(a), Some(0));
    t.remove_link(a);
    t.forget(a.ino(), 1);
    assert_eq!(t.counts(a.ino()), Some((0, 1, 0, 0)));
    t.forget(a.ino(), 5);
    assert_eq!(t.counts(a.ino()), None);
    // An open handle.
    let b = t.insert(2, root());
    t.add_open(b.ino());
    t.remove_link(b);
    assert!(t.contains(b));
    t.remove_open(b.ino());
    assert!(!t.contains(b));
    // A lease.
    let c = t.insert(3, root());
    let lease = t.get(c).unwrap();
    t.remove_link(c);
    assert_eq!(t.counts(c.ino()), Some((0, 0, 0, 1)));
    assert_eq!((lease.id(), *lease.node()), (c, 3));
    t.release(lease);
    assert!(!t.contains(c));
    // Another name.
    let d = t.insert(4, root());
    t.add_link(d);
    t.remove_link(d);
    assert!(t.contains(d));
    t.remove_link(d);
    assert!(!t.contains(d));
}

#[test]
fn giving_back_undoes_taking() {
    let mut t = NodeTable::with_root(0);
    let a = t.insert(1, root());
    let before = t.counts(a.ino());
    t.add_link(a);
    t.remove_link(a);
    t.look_up(a);
    t.forget(a.ino(), 1);
    t.add_open(a.ino());
    t.remove_open(a.ino());
    let lease = t.get(a).unwrap();
    t.release(lease);
    assert_eq!(t.counts(a.ino()), before);
}

#[test]
fn an_old_lease_does_not_touch_a_later_node() {
    // A lease is for one generation: given back to another table whose node
    // has a different one, it changes nothing.
    let mut old = NodeTable::with_root(0);
    let a = old.insert(1, root());
    let lease = old.get(a).unwrap();
    let mut t = NodeTable::with_root(0);
    let b = t.insert(1, root());
    t.remove_link(b);
    let c = t.insert(2, root());
    assert_eq!(c, a);
    let own = t.get(c).unwrap();
    t.release(lease);
    assert_eq!(t.counts(c.ino()), Some((1, 0, 0, 1)));
    t.release(own);
    assert_eq!(t.counts(c.ino()), Some((1, 0, 0, 0)));
}

#[test]
fn a_node_that_is_gone_is_left_alone() {
    let mut t = NodeTable::with_root(0);
    let gone = NodeId::from_ino(99);
    assert!(t.get(gone).is_none());
    assert_eq!(t.look_up(gone), None);
    t.add_link(gone);
    t.remove_link(gone);
    t.forget(99, 1);
    t.add_open(99);
    t.remove_open(99);
    t.reparent(gone, root());
    assert_eq!(t.counts(99), None);
    assert_eq!(t.insert(1, root()).ino(), 2);
}

#[test]
fn nodes_move() {
    let mut t = NodeTable::with_root(0);
    let a = t.insert(1, root());
    let b = t.insert(2, root());
    t.reparent(b, a);
    assert_eq!(t.parent_of(b.ino()), Some(a));
    assert_eq!(t.parent_of(a.ino()), Some(root()));
}

#[test]
fn closing_waits_for_leases_and_takes_once() {
    let mut r = HandleRecord::new("h");
    assert!(r.acquire());
    assert!(r.acquire());
    // Closing while leases are out refuses new ones and takes nothing.
    assert_eq!(r.close_and_take(), None);
    assert!(!r.acquire());
    assert!(!r.release());
    assert_eq!(r.close_and_take(), None);
    assert!(r.release());
    assert_eq!(r.close_and_take(), Some("h"));
    assert_eq!(r.close_and_take(), None);
    assert!(!r.acquire());
}

#[test]
fn an_idle_handle_is_taken_at_once() {
    let mut r = HandleRecord::new(7);
    assert!(r.acquire());
    assert!(!r.release());
    assert!(!r.release());
    assert_eq!(r.close_and_take(), Some(7));
}

#[test]
fn handle_numbers_are_used_once() {
    let mut t: HandleTable<&str, &str> = HandleTable::new();
    assert_eq!(t.add_file("f"), 1);
    assert_eq!(t.add_dir("d"), 2);
    assert_eq!(t.file(1), Some(&"f"));
    assert_eq!(t.dir(1), None);
    assert_eq!(t.dir(2), Some(&"d"));
    assert_eq!(t.file(2), None);
    assert_eq!(t.remove_dir(1), None);
    assert_eq!(t.remove_file(1), Some("f"));
    assert_eq!(t.remove_file(1), None);
    assert_eq!(t.remove_dir(2), Some("d"));
    assert_eq!(t.add_file("g"), 3);
    assert!(t.has_room());
}

#[test]
fn a_context_takes_dropped_leases_in_before_it_looks() {
    let mut cx = Cx::with_root("root");
    assert!(cx.has_room());
    let id = cx.insert("a", root());
    let lease = cx.get(id).unwrap();
    cx.remove_link(id);
    assert_eq!(cx.counts(id), Some((0, 0, 0, 1)));
    drop(lease);
    assert!(!cx.contains(id));

    let again = cx.insert("b", root());
    assert_eq!(again, id);
    let lease = cx.get(again).unwrap();
    cx.add_link(again);
    cx.release(lease);
    assert_eq!(cx.counts(again), Some((2, 0, 0, 0)));
    cx.remove_link(again);
    assert_eq!(cx.counts(again), Some((1, 0, 0, 0)));
}

#[test]
fn leases_that_came_back_are_ended_one_by_one() {
    let mut t = NodeTable::with_root(0);
    let a = t.insert(1, root());
    let b = t.insert(2, root());
    for _ in 0..2 {
        t.get(a).unwrap();
        t.get(b).unwrap();
    }
    t.remove_link(b);
    t.settle(&vec![(a.ino(), 0), (b.ino(), 0), (a.ino(), 7)]);
    assert_eq!(t.counts(a.ino()), Some((1, 0, 0, 1)));
    assert_eq!(t.counts(b.ino()), Some((0, 0, 0, 1)));
    t.settle(&Vec::new());
    assert_eq!(t.counts(b.ino()), Some((0, 0, 0, 1)));
    t.settle(&vec![(b.ino(), 0)]);
    assert_eq!(t.counts(b.ino()), None);
    assert_eq!(t.insert(3, root()), b);
}

#[test]
fn a_lease_on_a_number_used_again_ends() {
    let mut cx = Cx::with_root(0);
    let id = cx.insert(1, root());
    cx.remove_link(id);
    assert_eq!(cx.insert(2, root()), id);
    let lease = cx.get(id).unwrap();
    cx.remove_link(id);
    assert!(cx.contains(id));
    drop(lease);
    assert!(!cx.contains(id));
}

#[test]
fn a_kept_lease_pins_its_node_while_others_come_back() {
    let mut cx = Cx::with_root(0);
    let id = cx.insert(1, root());
    let kept = cx.get(id).unwrap();
    for _ in 0..3 {
        drop(cx.get(id).unwrap());
    }
    cx.remove_link(id);
    assert_eq!(cx.counts(id), Some((0, 0, 0, 1)));
    assert_eq!(*kept, 1);
    drop(kept);
    cx.reclaim();
    assert!(!cx.contains(id));
}
