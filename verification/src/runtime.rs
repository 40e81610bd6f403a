//! Node and handle lifetime management for [`NodeFs`].

use std::borrow::Cow;
use std::time::Duration;

use vstd::prelude::*;

use crate::attr::{NodeAttr, SetAttr, StatFs};
use crate::conn::{Caller, ConnInfo, ConnectionCapability};
use crate::errno::Errno;
use crate::handles::{HandleTable, HandlesView};
use crate::lifetime;
use crate::node::{DirSink, NodeId, XattrReply};
use crate::node_fs::{NodeFs, ReadDir};
use crate::open::{OpenHints, OpenReply, Opened};
use crate::table::{Cx, NodeRef, TableView};
use crate::time;

verus! {

/// What the kernel is told of a node that it looked up.
#[derive(Clone, Copy, Debug)]
pub struct EntryReply {
    pub ino: u64,
    pub generation: u64,
    pub attr: NodeAttr,
}

/// The answer to a lookup that did not fail.
#[derive(Clone, Copy, Debug)]
pub enum LookupReply {
    Found(EntryReply),
    Negative,
}

/// What becomes of an entry once its attributes are known: the lookup is
/// counted and the entry handed out. `ENOENT` if the node is gone, `EIO` if
/// its lookups cannot be counted any more; then nothing changes.
pub open spec fn entered<N>(
    pre: TableView<N>,
    id: NodeId,
    attr: NodeAttr,
    r: Result<EntryReply, Errno>,
    post: TableView<N>,
) -> bool {
    let ino = id.number();
    if !pre.slots.contains_key(ino) {
        r == Err::<EntryReply, Errno>(Errno::ENOENT) && post == pre
    } else if pre.slots[ino].lookups == u64::MAX {
        r == Err::<EntryReply, Errno>(Errno::EIO) && post == pre
    } else {
        &&& r == Ok::<EntryReply, Errno>(
            EntryReply { ino, generation: pre.slots[ino].generation, attr },
        )
        &&& post == pre.looked_up(ino)
    }
}

/// What a request for an entry comes to: leases that were dropped are taken in,
/// the node's attributes are asked for, and the entry is handed out.
pub open spec fn entry_given<F: NodeFs>(
    fs: F,
    cx: Cx<F::Node>,
    id: NodeId,
    caller: &Caller,
    r: Result<EntryReply, Errno>,
    post: TableView<F::Node>,
) -> bool {
    exists|now: TableView<F::Node>| #[trigger]
        cx.takes_in(now) && match now.node(id.number()) {
            Err(e) => r == Err::<EntryReply, Errno>(e) && post == now,
            Ok(node) => exists|res: Result<NodeAttr, Errno>| #[trigger]
                call_ensures(F::getattr, (&fs, &node, caller), res) && match res {
                    Err(e) => r == Err::<EntryReply, Errno>(e) && post == now,
                    Ok(attr) => entered(now, id, attr, r, post),
                },
        }
}

/// What a lookup comes to, once the filesystem gave `res` and left its nodes
/// as `mid`: a name that it found is handed out as an entry.
pub open spec fn lookup_answered<F: NodeFs>(
    fs: F,
    mid: Cx<F::Node>,
    caller: &Caller,
    res: Result<Option<NodeId>, Errno>,
    r: Result<LookupReply, Errno>,
    post: TableView<F::Node>,
) -> bool {
    match res {
        Err(e) => r == Err::<LookupReply, Errno>(e) && post == mid@,
        Ok(None) => r == Ok::<LookupReply, Errno>(LookupReply::Negative) && post == mid@,
        Ok(Some(id)) => match r {
            Ok(reply) => reply is Found && entry_given(
                fs,
                mid,
                id,
                caller,
                Ok(reply->Found_0),
                post,
            ),
            Err(e) => entry_given(fs, mid, id, caller, Err(e), post),
        },
    }
}

/// What creating a node comes to, once the filesystem gave `res` and left its
/// nodes as `mid`: the new node is handed out as an entry.
pub open spec fn entry_answered<F: NodeFs>(
    fs: F,
    mid: Cx<F::Node>,
    caller: &Caller,
    res: Result<NodeId, Errno>,
    r: Result<EntryReply, Errno>,
    post: TableView<F::Node>,
) -> bool {
    match res {
        Err(e) => r == Err::<EntryReply, Errno>(e) && post == mid@,
        Ok(id) => entry_given(fs, mid, id, caller, r, post),
    }
}

/// Whether an open handle on a node can be counted and get a number: `ENOENT`
/// if the node is gone, `EIO` if its open handles cannot be counted any more or
/// no handle number is left.
pub open spec fn open_counted<N>(pre: TableView<N>, next_fh: u64, ino: u64) -> Result<(), Errno> {
    if !pre.slots.contains_key(ino) {
        Err(Errno::ENOENT)
    } else if pre.slots[ino].opens == u32::MAX || next_fh == u64::MAX {
        Err(Errno::EIO)
    } else {
        Ok(())
    }
}

/// The answer to an open: the next handle number, with the filesystem's hints.
pub open spec fn open_reply<N>(
    pre: TableView<N>,
    next_fh: u64,
    ino: u64,
    hints: OpenHints,
) -> Result<OpenReply, Errno> {
    match open_counted(pre, next_fh, ino) {
        Ok(_) => Ok(OpenReply { fh: next_fh, hints }),
        Err(e) => Err(e),
    }
}

/// What opening a file comes to: its handle gets a number and is counted on
/// the node.
pub open spec fn file_open_answered<N, H, D>(
    pre: TableView<N>,
    handles: HandlesView<H, D>,
    ino: u64,
    opened: Opened<H>,
    r: Result<OpenReply, Errno>,
    post: TableView<N>,
    post_handles: HandlesView<H, D>,
) -> bool {
    &&& r == open_reply(pre, handles.next_fh, ino, opened.hints)
    &&& r is Ok ==> post == pre.opened(ino) && post_handles == handles.file_added(opened.handle)
    &&& r is Err ==> post == pre && post_handles == handles
}

/// What opening a directory comes to: its handle gets a number and is counted
/// on the node.
pub open spec fn dir_open_answered<N, H, D>(
    pre: TableView<N>,
    handles: HandlesView<H, D>,
    ino: u64,
    opened: Opened<D>,
    r: Result<OpenReply, Errno>,
    post: TableView<N>,
    post_handles: HandlesView<H, D>,
) -> bool {
    &&& r == open_reply(pre, handles.next_fh, ino, opened.hints)
    &&& r is Ok ==> post == pre.opened(ino) && post_handles == handles.dir_added(opened.handle)
    &&& r is Err ==> post == pre && post_handles == handles
}

/// What a request to open a file comes to on the nodes as they are: the
/// filesystem opens it, and its handle gets a number.
pub open spec fn open_given<F: NodeFs>(
    fs: F,
    now: TableView<F::Node>,
    handles: HandlesView<F::Handle, F::DirHandle>,
    ino: u64,
    flags: i32,
    caller: &Caller,
    r: Result<OpenReply, Errno>,
    post: TableView<F::Node>,
    post_handles: HandlesView<F::Handle, F::DirHandle>,
) -> bool {
    match now.node(ino) {
        Err(e) => r == Err::<OpenReply, Errno>(e) && post == now && post_handles == handles,
        Ok(node) => exists|res: Result<Opened<F::Handle>, Errno>|
            {
                &&& #[trigger] call_ensures(F::open, (&fs, &node, flags, caller), res)
                &&& match res {
                    Err(e) => r == Err::<OpenReply, Errno>(e) && post == now && post_handles
                        == handles,
                    Ok(opened) => file_open_answered(
                        now,
                        handles,
                        ino,
                        opened,
                        r,
                        post,
                        post_handles,
                    ),
                }
            },
    }
}

/// What a request to open a directory comes to on the nodes as they are: the
/// filesystem opens it, and its handle gets a number.
pub open spec fn opendir_given<F: NodeFs>(
    fs: F,
    now: TableView<F::Node>,
    handles: HandlesView<F::Handle, F::DirHandle>,
    ino: u64,
    flags: i32,
    caller: &Caller,
    r: Result<OpenReply, Errno>,
    post: TableView<F::Node>,
    post_handles: HandlesView<F::Handle, F::DirHandle>,
) -> bool {
    match now.node(ino) {
        Err(e) => r == Err::<OpenReply, Errno>(e) && post == now && post_handles == handles,
        Ok(node) => exists|res: Result<Opened<F::DirHandle>, Errno>|
            {
                &&& #[trigger] call_ensures(F::opendir, (&fs, &node, flags, caller), res)
                &&& match res {
                    Err(e) => r == Err::<OpenReply, Errno>(e) && post == now && post_handles
                        == handles,
                    Ok(opened) => dir_open_answered(
                        now,
                        handles,
                        ino,
                        opened,
                        r,
                        post,
                        post_handles,
                    ),
                }
            },
    }
}

/// What creating a file comes to, once the filesystem gave `res` and left its
/// nodes as `mid`: the new node is handed out as an entry, and its handle gets
/// a number and is counted on the node.
pub open spec fn create_answered<F: NodeFs>(
    fs: F,
    mid: Cx<F::Node>,
    handles: HandlesView<F::Handle, F::DirHandle>,
    caller: &Caller,
    res: Result<(NodeId, Opened<F::Handle>), Errno>,
    r: Result<(EntryReply, OpenReply), Errno>,
    post: TableView<F::Node>,
    post_handles: HandlesView<F::Handle, F::DirHandle>,
) -> bool {
    match res {
        Err(e) => r == Err::<(EntryReply, OpenReply), Errno>(e) && post == mid@ && post_handles
            == handles,
        Ok((id, opened)) => exists|entry: Result<EntryReply, Errno>, entries: TableView<F::Node>|
            {
                &&& #[trigger] entry_given(fs, mid, id, caller, entry, entries)
                &&& match entry {
                    Err(e) => r == Err::<(EntryReply, OpenReply), Errno>(e) && post == entries
                        && post_handles == handles,
                    Ok(entry) => exists|reply: Result<OpenReply, Errno>|
                        {
                            &&& #[trigger] file_open_answered(
                                entries,
                                handles,
                                id.number(),
                                opened,
                                reply,
                                post,
                                post_handles,
                            )
                            &&& r == match reply {
                                Ok(reply) => Ok::<(EntryReply, OpenReply), Errno>((entry, reply)),
                                Err(e) => Err::<(EntryReply, OpenReply), Errno>(e),
                            }
                        },
                }
            },
    }
}

/// Whether a callback gets the value that was given for it.
pub open spec fn is_given<T>(value: T, given: T) -> bool {
    value == given
}

/// Whether a directory callback gets `handle`: the open one, else one of the
/// default value.
pub open spec fn dir_handle<F: NodeFs>(open: Option<F::DirHandle>, handle: F::DirHandle) -> bool {
    match open {
        Some(h) => handle == h,
        None => call_ensures(<F::DirHandle as Default>::default, (), handle),
    }
}

/// The nodes and handles of one filesystem, and its callbacks.
///
/// Every request first takes the leases in that were dropped, so that a node
/// which only they referred to is gone. Callbacks run one at a time. One that is
/// about a node or a handle borrows it for as long as it runs, so neither can go
/// away meanwhile; one that changes the tree gets the node table itself. `EIO` is
/// the answer where a counter is full that a request would have to raise.
pub struct Runtime<F: NodeFs> {
    fs: F,
    cx: Cx<F::Node>,
    handles: HandleTable<F::Handle, F::DirHandle>,
    ttl: Duration,
    negative_ttl: Duration,
    parallel_dirops: bool,
}

impl<F: NodeFs> Runtime<F> {
    /// The filesystem.
    pub closed spec fn filesystem(self) -> F {
        self.fs
    }

    /// The context through which callbacks change its nodes.
    pub closed spec fn context(self) -> Cx<F::Node> {
        self.cx
    }

    /// Its nodes.
    pub open spec fn nodes(self) -> TableView<F::Node> {
        self.context()@
    }

    /// Where leases on its nodes go when they are dropped.
    pub open spec fn way_in(self) -> int {
        self.context().way_in()
    }

    /// Whether `now` are its nodes after it took in the leases that were dropped.
    pub open spec fn takes_in(self, now: TableView<F::Node>) -> bool {
        self.context().takes_in(now)
    }

    /// Its open handles.
    pub closed spec fn open_handles(self) -> HandlesView<F::Handle, F::DirHandle> {
        self.handles@
    }

    /// How long the kernel may keep entries and attributes.
    pub closed spec fn entry_ttl(self) -> Duration {
        self.ttl
    }

    /// How long the kernel may remember that there is no entry.
    pub closed spec fn negative_entry_ttl(self) -> Duration {
        self.negative_ttl
    }

    /// Whether the kernel is asked for parallel directory operations.
    pub closed spec fn wants_parallel_dirops(self) -> bool {
        self.parallel_dirops
    }

    /// Whether the filesystem and the settings are the same.
    pub open spec fn same_settings(self, other: Runtime<F>) -> bool {
        &&& self.filesystem() == other.filesystem()
        &&& self.entry_ttl() == other.entry_ttl()
        &&& self.negative_entry_ttl() == other.negative_entry_ttl()
        &&& self.wants_parallel_dirops() == other.wants_parallel_dirops()
    }

    /// Whether all but the nodes is the same, and their leases come back to the
    /// same place.
    pub open spec fn same_but_nodes(self, other: Runtime<F>) -> bool {
        &&& self.same_settings(other)
        &&& self.open_handles() == other.open_handles()
        &&& self.context().receiver() == other.context().receiver()
    }

    /// Whether `later` is the runtime after leases that were dropped came back.
    pub open spec fn settles_to(self, later: Runtime<F>) -> bool {
        &&& later.same_but_nodes(self)
        &&& self.takes_in(later.nodes())
    }

    /// What every runtime keeps: valid nodes and handles.
    pub open spec fn valid(self) -> bool {
        self.nodes().valid() && self.open_handles().valid()
    }

    /// Builds the runtime of a filesystem: the root node comes from
    /// [`NodeFs::root`], and the tree below it from [`NodeFs::populate`].
    pub fn new(fs: F) -> (rt: Runtime<F>)
        ensures
            exists|fs0: &mut F, root: F::Node, fs1: &mut F, cx: &mut Cx<F::Node>|
                {
                    &&& #[trigger] call_ensures(F::root, (fs0,), root)
                    &&& *fs0 == fs
                    &&& #[trigger] call_ensures(F::populate, (fs1, cx), ())
                    &&& *fs1 == *final(fs0)
                    &&& cx@ == TableView::<F::Node>::rooted(root)
                    &&& rt.filesystem() == *final(fs1)
                    &&& rt.context() == *final(cx)
                },
            rt.valid(),
            rt.open_handles() == HandlesView::<F::Handle, F::DirHandle>::empty(),
            time::duration_nanos(rt.entry_ttl()) == time::NANOS_PER_SEC,
            time::duration_nanos(rt.negative_entry_ttl()) == time::NANOS_PER_SEC,
            !rt.wants_parallel_dirops(),
    {
        let mut fs = fs;
        let ghost given = fs;
        let root = fs.root();
        let ghost rooted = fs;
        assert(exists|fs0: &mut F| #[trigger]
            call_ensures(F::root, (fs0,), root) && *fs0 == given && *final(fs0) == rooted);
        let mut cx = Cx::with_root(root);
        fs.populate(&mut cx);
        let ghost populated = cx;
        proof {
            use_type_invariant(&cx);
        }
        assert(exists|fs1: &mut F, cx1: &mut Cx<F::Node>|
            {
                &&& #[trigger] call_ensures(F::populate, (fs1, cx1), ())
                &&& *fs1 == rooted
                &&& *final(fs1) == fs
                &&& cx1@ == TableView::<F::Node>::rooted(root)
                &&& *final(cx1) == populated
            });
        Runtime {
            fs,
            cx,
            handles: HandleTable::new(),
            ttl: Duration::from_secs(1),
            negative_ttl: Duration::from_secs(1),
            parallel_dirops: false,
        }
    }

    /// How long the kernel may keep entries and attributes.
    pub fn ttl(&self) -> (ttl: Duration)
        ensures
            ttl == self.entry_ttl(),
    {
        self.ttl
    }

    /// How long the kernel may remember that there is no entry.
    pub fn negative_ttl(&self) -> (ttl: Duration)
        ensures
            ttl == self.negative_entry_ttl(),
    {
        self.negative_ttl
    }

    pub fn set_ttl(&mut self, ttl: Duration)
        ensures
            final(self).entry_ttl() == ttl,
            final(self).filesystem() == old(self).filesystem(),
            final(self).nodes() == old(self).nodes(),
            final(self).context().receiver() == old(self).context().receiver(),
            final(self).open_handles() == old(self).open_handles(),
            final(self).negative_entry_ttl() == old(self).negative_entry_ttl(),
            final(self).wants_parallel_dirops() == old(self).wants_parallel_dirops(),
    {
        self.ttl = ttl;
    }

    pub fn set_negative_ttl(&mut self, ttl: Duration)
        ensures
            final(self).negative_entry_ttl() == ttl,
            final(self).filesystem() == old(self).filesystem(),
            final(self).nodes() == old(self).nodes(),
            final(self).context().receiver() == old(self).context().receiver(),
            final(self).open_handles() == old(self).open_handles(),
            final(self).entry_ttl() == old(self).entry_ttl(),
            final(self).wants_parallel_dirops() == old(self).wants_parallel_dirops(),
    {
        self.negative_ttl = ttl;
    }

    pub fn set_parallel_dirops(&mut self, enabled: bool)
        ensures
            final(self).wants_parallel_dirops() == enabled,
            final(self).filesystem() == old(self).filesystem(),
            final(self).nodes() == old(self).nodes(),
            final(self).context().receiver() == old(self).context().receiver(),
            final(self).open_handles() == old(self).open_handles(),
            final(self).entry_ttl() == old(self).entry_ttl(),
            final(self).negative_entry_ttl() == old(self).negative_entry_ttl(),
    {
        self.parallel_dirops = enabled;
    }

    /// Leases a node; `ENOENT` if there is none under that number. The lease
    /// lasts until it is dropped, or given back to [`Runtime::release_node`].
    pub fn node(&mut self, ino: u64) -> (r: Result<NodeRef<F::Node>, Errno>)
        requires
            old(self).nodes().slots.contains_key(ino) ==> old(self).nodes().slots[ino].leases
                < u32::MAX,
        ensures
            final(self).same_but_nodes(*old(self)),
            final(self).valid(),
            exists|now: TableView<F::Node>| #[trigger]
                old(self).takes_in(now) && final(self).nodes() == now.leased(ino),
            match r {
                Ok(node) => {
                    &&& node.node_id() == NodeId::of(ino)
                    &&& node.leases(final(self).nodes())
                    &&& node.comes_back_to() == Some(final(self).way_in())
                },
                Err(e) => final(self).nodes().node(ino) == Err::<F::Node, Errno>(e),
            },
    {
        proof {
            use_type_invariant(&self.cx);
            use_type_invariant(&self.handles);
        }
        let leased = self.cx.get(NodeId::from_ino(ino));
        proof {
            let now = choose|now: TableView<F::Node>| #[trigger]
                old(self).cx.takes_in(now) && self.cx@ == now.leased(ino);
            assert(old(self).takes_in(now));
        }
        match leased {
            Some(node) => Ok(node),
            None => Err(Errno::ENOENT),
        }
    }

    /// Gives a lease back, and drops the node if it was the last reference.
    pub fn release_node(&mut self, node: NodeRef<F::Node>)
        ensures
            final(self).same_but_nodes(*old(self)),
            final(self).valid(),
            exists|now: TableView<F::Node>|
                {
                    &&& #[trigger] old(self).takes_in(now)
                    &&& final(self).nodes() == now.unleased(
                        node.node_id().number(),
                        node.node_generation(),
                    )
                },
    {
        proof {
            use_type_invariant(&self.cx);
            use_type_invariant(&self.handles);
        }
        self.cx.release(node);
        proof {
            let now = choose|now: TableView<F::Node>| #[trigger]
                old(self).cx.takes_in(now) && self.cx@ == now.unleased(
                    node.node_id().number(),
                    node.node_generation(),
                );
            assert(old(self).takes_in(now));
        }
    }

    /// Takes the leases in that were dropped, and drops the nodes of which they
    /// were the last references. Every request does so first; whoever drives the
    /// runtime may do so at other times, for payloads to be dropped early.
    pub fn reclaim(&mut self)
        ensures
            old(self).settles_to(*final(self)),
            final(self).valid(),
    {
        self.cx.reclaim();
        proof {
            use_type_invariant(&self.handles);
        }
    }

    /// The links, lookups, open handles and leases of a node.
    pub fn counts(&mut self, ino: u64) -> (counts: Option<(u32, u64, u32, u32)>)
        ensures
            old(self).settles_to(*final(self)),
            final(self).valid(),
            counts == final(self).nodes().counts(ino),
    {
        self.reclaim();
        self.cx.table().counts(ino)
    }

    /// Counts a lookup of a node and hands out its entry, once the filesystem
    /// gave its attributes. Since then the node counts as leased, so dropped
    /// leases are not taken in here.
    pub fn enter(&mut self, id: NodeId, attr: NodeAttr) -> (r: Result<EntryReply, Errno>)
        ensures
            final(self).same_but_nodes(*old(self)),
            final(self).valid(),
            entered(old(self).nodes(), id, attr, r, final(self).nodes()),
    {
        proof {
            use_type_invariant(&self.cx);
            use_type_invariant(&self.handles);
        }
        match self.cx.table().counts(id.ino()) {
            None => Err(Errno::ENOENT),
            Some((_, lookups, _, _)) => {
                if lookups == u64::MAX {
                    return Err(Errno::EIO);
                }
                match self.cx.look_up(id) {
                    None => Err(Errno::ENOENT),
                    Some(generation) => Ok(EntryReply { ino: id.ino(), generation, attr }),
                }
            },
        }
    }

    fn entry_for(&mut self, id: NodeId, caller: &Caller) -> (r: Result<EntryReply, Errno>)
        ensures
            final(self).same_but_nodes(*old(self)),
            final(self).valid(),
            entry_given(
                old(self).filesystem(),
                old(self).context(),
                id,
                caller,
                r,
                final(self).nodes(),
            ),
    {
        self.reclaim();
        let node = match self.cx.table().node(id.ino()) {
            Ok(node) => node,
            Err(e) => return Err(e),
        };
        match self.fs.getattr(node, caller) {
            Ok(attr) => self.enter(id, attr),
            Err(e) => Err(e),
        }
    }

    /// Lets the filesystem change the connection's parameters, after asking
    /// for parallel directory operations if they are wanted.
    pub fn init(&self, conn: &mut ConnInfo)
        ensures
            exists|c: &mut ConnInfo|
                {
                    &&& #[trigger] call_ensures(F::init, (&self.filesystem(), c), ())
                    &&& *c == if self.wants_parallel_dirops() {
                        ConnInfo { parallel_directory_operations: true, ..*old(conn) }
                    } else {
                        *old(conn)
                    }
                    &&& *final(c) == *final(conn)
                },
    {
        if self.parallel_dirops {
            conn.set_enabled(ConnectionCapability::ParallelDirectoryOperations, true);
        }
        let ghost asked = *conn;
        let c = &mut *conn;
        assert(is_given(*c, asked));
        self.fs.init(c);
        assert(exists|c: &mut ConnInfo| #[trigger]
            is_given(*c, asked) && call_ensures(F::init, (&self.filesystem(), c), ()));
    }

    pub fn destroy(&self)
        ensures
            call_ensures(F::destroy, (&self.filesystem(),), ()),
    {
        self.fs.destroy();
    }

    /// Takes `nlookup` lookups of a node back, and drops the node if they were
    /// the last references.
    pub fn forget(&mut self, ino: u64, nlookup: u64)
        ensures
            final(self).same_but_nodes(*old(self)),
            final(self).valid(),
            exists|now: TableView<F::Node>| #[trigger]
                old(self).takes_in(now) && now.valid() && final(self).nodes() == now.forgotten(
                    ino,
                    nlookup,
                ),
    {
        self.reclaim();
        self.forget_now(ino, nlookup);
    }

    /// Like [`Runtime::forget`], on the nodes as they are.
    pub(crate) fn forget_now(&mut self, ino: u64, nlookup: u64)
        ensures
            final(self).same_but_nodes(*old(self)),
            final(self).valid(),
            final(self).nodes() == old(self).nodes().forgotten(ino, nlookup),
    {
        proof {
            use_type_invariant(&self.cx);
            use_type_invariant(&self.handles);
        }
        self.cx.forget(ino, nlookup);
    }

    pub fn statfs(&self, _ino: u64, caller: &Caller) -> (r: Result<StatFs, Errno>)
        ensures
            call_ensures(F::statfs, (&self.filesystem(), caller), r),
    {
        self.fs.statfs(caller)
    }

    /// The attributes of a node.
    pub fn getattr(&mut self, ino: u64, caller: &Caller) -> (r: Result<NodeAttr, Errno>)
        ensures
            old(self).settles_to(*final(self)),
            final(self).valid(),
            match final(self).nodes().node(ino) {
                Ok(node) => call_ensures(F::getattr, (&final(self).filesystem(), &node, caller), r),
                Err(e) => r == Err::<NodeAttr, Errno>(e),
            },
    {
        self.reclaim();
        let node = match self.cx.table().node(ino) {
            Ok(node) => node,
            Err(e) => return Err(e),
        };
        self.fs.getattr(node, caller)
    }

    /// Changes the attributes of a node.
    pub fn setattr(
        &mut self,
        ino: u64,
        set: &SetAttr,
        caller: &Caller,
    ) -> (r: Result<NodeAttr, Errno>)
        ensures
            old(self).settles_to(*final(self)),
            final(self).valid(),
            match final(self).nodes().node(ino) {
                Ok(node) => call_ensures(
                    F::setattr,
                    (&final(self).filesystem(), &node, set, caller),
                    r,
                ),
                Err(e) => r == Err::<NodeAttr, Errno>(e),
            },
    {
        self.reclaim();
        let node = match self.cx.table().node(ino) {
            Ok(node) => node,
            Err(e) => return Err(e),
        };
        self.fs.setattr(node, set, caller)
    }

    /// The target of a symbolic link.
    pub fn readlink(&mut self, ino: u64, caller: &Caller) -> (r: Result<String, Errno>)
        ensures
            old(self).settles_to(*final(self)),
            final(self).valid(),
            match final(self).nodes().node(ino) {
                Ok(node) => call_ensures(
                    F::readlink,
                    (&final(self).filesystem(), &node, caller),
                    r,
                ),
                Err(e) => r == Err::<String, Errno>(e),
            },
    {
        self.reclaim();
        let node = match self.cx.table().node(ino) {
            Ok(node) => node,
            Err(e) => return Err(e),
        };
        self.fs.readlink(node, caller)
    }

    /// Checks access to a node.
    pub fn access(&mut self, ino: u64, mask: i32, caller: &Caller) -> (r: Result<(), Errno>)
        ensures
            old(self).settles_to(*final(self)),
            final(self).valid(),
            match final(self).nodes().node(ino) {
                Ok(node) => call_ensures(
                    F::access,
                    (&final(self).filesystem(), &node, mask, caller),
                    r,
                ),
                Err(e) => r == Err::<(), Errno>(e),
            },
    {
        self.reclaim();
        let node = match self.cx.table().node(ino) {
            Ok(node) => node,
            Err(e) => return Err(e),
        };
        self.fs.access(node, mask, caller)
    }

    /// Sets an extended attribute of a node.
    pub fn setxattr(
        &mut self,
        ino: u64,
        name: &str,
        value: &[u8],
        flags: i32,
        caller: &Caller,
    ) -> (r: Result<(), Errno>)
        ensures
            old(self).settles_to(*final(self)),
            final(self).valid(),
            match final(self).nodes().node(ino) {
                Ok(node) => call_ensures(
                    F::setxattr,
                    (&final(self).filesystem(), &node, name, value, flags, caller),
                    r,
                ),
                Err(e) => r == Err::<(), Errno>(e),
            },
    {
        self.reclaim();
        let node = match self.cx.table().node(ino) {
            Ok(node) => node,
            Err(e) => return Err(e),
        };
        self.fs.setxattr(node, name, value, flags, caller)
    }

    /// An extended attribute of a node.
    pub fn getxattr(
        &mut self,
        ino: u64,
        name: &str,
        size: usize,
        caller: &Caller,
    ) -> (r: Result<XattrReply, Errno>)
        ensures
            old(self).settles_to(*final(self)),
            final(self).valid(),
            match final(self).nodes().node(ino) {
                Ok(node) => call_ensures(
                    F::getxattr,
                    (&final(self).filesystem(), &node, name, size, caller),
                    r,
                ),
                Err(e) => r == Err::<XattrReply, Errno>(e),
            },
    {
        self.reclaim();
        let node = match self.cx.table().node(ino) {
            Ok(node) => node,
            Err(e) => return Err(e),
        };
        self.fs.getxattr(node, name, size, caller)
    }

    /// The names of a node's extended attributes.
    pub fn listxattr(
        &mut self,
        ino: u64,
        size: usize,
        caller: &Caller,
    ) -> (r: Result<XattrReply, Errno>)
        ensures
            old(self).settles_to(*final(self)),
            final(self).valid(),
            match final(self).nodes().node(ino) {
                Ok(node) => call_ensures(
                    F::listxattr,
                    (&final(self).filesystem(), &node, size, caller),
                    r,
                ),
                Err(e) => r == Err::<XattrReply, Errno>(e),
            },
    {
        self.reclaim();
        let node = match self.cx.table().node(ino) {
            Ok(node) => node,
            Err(e) => return Err(e),
        };
        self.fs.listxattr(node, size, caller)
    }

    /// Removes an extended attribute of a node.
    pub fn removexattr(&mut self, ino: u64, name: &str, caller: &Caller) -> (r: Result<(), Errno>)
        ensures
            old(self).settles_to(*final(self)),
            final(self).valid(),
            match final(self).nodes().node(ino) {
                Ok(node) => call_ensures(
                    F::removexattr,
                    (&final(self).filesystem(), &node, name, caller),
                    r,
                ),
                Err(e) => r == Err::<(), Errno>(e),
            },
    {
        self.reclaim();
        let node = match self.cx.table().node(ino) {
            Ok(node) => node,
            Err(e) => return Err(e),
        };
        self.fs.removexattr(node, name, caller)
    }

    /// Counts an open handle on a node that is about to get a number.
    fn add_open(&mut self, ino: u64) -> (r: Result<(), Errno>)
        ensures
            final(self).same_but_nodes(*old(self)),
            final(self).valid(),
            r == open_counted(old(self).nodes(), old(self).open_handles().next_fh, ino),
            r is Err ==> final(self).nodes() == old(self).nodes(),
            r is Ok ==> final(self).nodes() == old(self).nodes().opened(ino),
    {
        proof {
            use_type_invariant(&self.cx);
            use_type_invariant(&self.handles);
        }
        match self.cx.table().counts(ino) {
            None => Err(Errno::ENOENT),
            Some((_, _, opens, _)) => {
                if opens == u32::MAX || !self.handles.has_room() {
                    return Err(Errno::EIO);
                }
                self.cx.add_open(ino);
                Ok(())
            },
        }
    }

    /// Gives a file that the filesystem opened a handle number. Since it was
    /// opened its node counts as leased, so dropped leases are not taken in here.
    pub fn file_opened(&mut self, ino: u64, opened: Opened<F::Handle>) -> (r: Result<
        OpenReply,
        Errno,
    >)
        ensures
            final(self).same_settings(*old(self)),
            final(self).valid(),
            final(self).context().receiver() == old(self).context().receiver(),
            file_open_answered(
                old(self).nodes(),
                old(self).open_handles(),
                ino,
                opened,
                r,
                final(self).nodes(),
                final(self).open_handles(),
            ),
    {
        proof {
            use_type_invariant(&self.cx);
            use_type_invariant(&self.handles);
        }
        match self.add_open(ino) {
            Ok(()) => {
                let fh: u64 = self.handles.add_file(opened.handle);
                Ok(OpenReply { fh, hints: opened.hints })
            },
            Err(e) => Err(e),
        }
    }

    /// Opens a file.
    pub fn open(&mut self, ino: u64, flags: i32, caller: &Caller) -> (r: Result<
        OpenReply,
        Errno,
    >)
        ensures
            final(self).same_settings(*old(self)),
            final(self).valid(),
            final(self).context().receiver() == old(self).context().receiver(),
            exists|now: TableView<F::Node>|
                {
                    &&& #[trigger] old(self).takes_in(now)
                    &&& open_given(
                        old(self).filesystem(),
                        now,
                        old(self).open_handles(),
                        ino,
                        flags,
                        caller,
                        r,
                        final(self).nodes(),
                        final(self).open_handles(),
                    )
                },
    {
        self.reclaim();
        let node = match self.cx.table().node(ino) {
            Ok(node) => node,
            Err(e) => return Err(e),
        };
        match self.fs.open(node, flags, caller) {
            Ok(opened) => self.file_opened(ino, opened),
            Err(e) => Err(e),
        }
    }

    /// Whether a read can give `data`.
    pub open spec fn reads(
        self,
        ino: u64,
        fh: u64,
        offset: u64,
        size: usize,
        caller: &Caller,
        data: Result<Cow<'_, [u8]>, Errno>,
    ) -> bool {
        match (self.nodes().node(ino), self.open_handles().file(fh)) {
            (Ok(node), Some(handle)) => call_ensures(
                F::read,
                (&self.filesystem(), &node, &handle, offset, size, caller),
                data,
            ),
            (Ok(_), None) => data is Err && data->Err_0 == Errno::EBADF,
            (Err(e), _) => data is Err && data->Err_0 == e,
        }
    }

    /// Reads from an open file. The data may be borrowed from the filesystem,
    /// the node or the handle.
    pub fn read_data<'a>(
        &'a mut self,
        ino: u64,
        fh: u64,
        offset: u64,
        size: usize,
        caller: &Caller,
    ) -> (data: Result<Cow<'a, [u8]>, Errno>)
        ensures
            old(self).settles_to(*final(self)),
            final(self).valid(),
            final(self).reads(ino, fh, offset, size, caller, data),
    {
        self.reclaim();
        let node = match self.cx.table().node(ino) {
            Ok(node) => node,
            Err(e) => return Err(e),
        };
        match self.handles.file(fh) {
            Some(handle) => self.fs.read(node, handle, offset, size, caller),
            None => Err(Errno::EBADF),
        }
    }

    /// Reads from an open file, and runs the reply continuation on what was
    /// read while it may still be borrowed.
    pub fn read<R, P: FnOnce(Result<Cow<'_, [u8]>, Errno>) -> R>(
        &mut self,
        ino: u64,
        fh: u64,
        offset: u64,
        size: usize,
        caller: &Caller,
        reply: P,
    ) -> (r: R)
        requires
            forall|rt: Runtime<F>, data: Result<Cow<'_, [u8]>, Errno>|
                old(self).settles_to(rt) && #[trigger] rt.reads(
                    ino,
                    fh,
                    offset,
                    size,
                    caller,
                    data,
                ) ==> reply.requires((data,)),
        ensures
            old(self).settles_to(*final(self)),
            final(self).valid(),
            exists|data: Result<Cow<'_, [u8]>, Errno>| #[trigger]
                reply.ensures((data,), r) && final(self).reads(
                    ino,
                    fh,
                    offset,
                    size,
                    caller,
                    data,
                ),
    {
        let data = self.read_data(ino, fh, offset, size, caller);
        reply(data)
    }

    /// Writes to an open file.
    pub fn write(
        &mut self,
        ino: u64,
        fh: u64,
        data: &[u8],
        offset: u64,
        caller: &Caller,
    ) -> (r: Result<usize, Errno>)
        ensures
            old(self).settles_to(*final(self)),
            final(self).valid(),
            match (final(self).nodes().node(ino), final(self).open_handles().file(fh)) {
                (Ok(node), Some(handle)) => call_ensures(
                    F::write,
                    (&final(self).filesystem(), &node, &handle, data, offset, caller),
                    r,
                ),
                (Ok(_), None) => r == Err::<usize, Errno>(Errno::EBADF),
                (Err(e), _) => r == Err::<usize, Errno>(e),
            },
    {
        self.reclaim();
        let node = match self.cx.table().node(ino) {
            Ok(node) => node,
            Err(e) => return Err(e),
        };
        match self.handles.file(fh) {
            Some(handle) => self.fs.write(node, handle, data, offset, caller),
            None => Err(Errno::EBADF),
        }
    }

    /// Called on each `close()` of an open file.
    pub fn flush(&mut self, ino: u64, fh: u64, caller: &Caller) -> (r: Result<(), Errno>)
        ensures
            old(self).settles_to(*final(self)),
            final(self).valid(),
            match (final(self).nodes().node(ino), final(self).open_handles().file(fh)) {
                (Ok(node), Some(handle)) => call_ensures(
                    F::flush,
                    (&final(self).filesystem(), &node, &handle, caller),
                    r,
                ),
                (Ok(_), None) => r == Err::<(), Errno>(Errno::EBADF),
                (Err(e), _) => r == Err::<(), Errno>(e),
            },
    {
        self.reclaim();
        let node = match self.cx.table().node(ino) {
            Ok(node) => node,
            Err(e) => return Err(e),
        };
        match self.handles.file(fh) {
            Some(handle) => self.fs.flush(node, handle, caller),
            None => Err(Errno::EBADF),
        }
    }

    /// Flushes an open file.
    pub fn fsync(
        &mut self,
        ino: u64,
        fh: u64,
        datasync: bool,
        caller: &Caller,
    ) -> (r: Result<(), Errno>)
        ensures
            old(self).settles_to(*final(self)),
            final(self).valid(),
            match (final(self).nodes().node(ino), final(self).open_handles().file(fh)) {
                (Ok(node), Some(handle)) => call_ensures(
                    F::fsync,
                    (&final(self).filesystem(), &node, &handle, datasync, caller),
                    r,
                ),
                (Ok(_), None) => r == Err::<(), Errno>(Errno::EBADF),
                (Err(e), _) => r == Err::<(), Errno>(e),
            },
    {
        self.reclaim();
        let node = match self.cx.table().node(ino) {
            Ok(node) => node,
            Err(e) => return Err(e),
        };
        match self.handles.file(fh) {
            Some(handle) => self.fs.fsync(node, handle, datasync, caller),
            None => Err(Errno::EBADF),
        }
    }

    /// Allocates or punches room in an open file.
    pub fn fallocate(
        &mut self,
        ino: u64,
        fh: u64,
        mode: i32,
        offset: u64,
        length: u64,
        caller: &Caller,
    ) -> (r: Result<(), Errno>)
        ensures
            old(self).settles_to(*final(self)),
            final(self).valid(),
            match (final(self).nodes().node(ino), final(self).open_handles().file(fh)) {
                (Ok(node), Some(handle)) => call_ensures(
                    F::fallocate,
                    (&final(self).filesystem(), &node, &handle, mode, offset, length, caller),
                    r,
                ),
                (Ok(_), None) => r == Err::<(), Errno>(Errno::EBADF),
                (Err(e), _) => r == Err::<(), Errno>(e),
            },
    {
        self.reclaim();
        let node = match self.cx.table().node(ino) {
            Ok(node) => node,
            Err(e) => return Err(e),
        };
        match self.handles.file(fh) {
            Some(handle) => self.fs.fallocate(node, handle, mode, offset, length, caller),
            None => Err(Errno::EBADF),
        }
    }

    /// Finds data or a hole in an open file.
    pub fn lseek(
        &mut self,
        ino: u64,
        fh: u64,
        offset: u64,
        whence: i32,
        caller: &Caller,
    ) -> (r: Result<u64, Errno>)
        ensures
            old(self).settles_to(*final(self)),
            final(self).valid(),
            match (final(self).nodes().node(ino), final(self).open_handles().file(fh)) {
                (Ok(node), Some(handle)) => call_ensures(
                    F::lseek,
                    (&final(self).filesystem(), &node, &handle, offset, whence, caller),
                    r,
                ),
                (Ok(_), None) => r == Err::<u64, Errno>(Errno::EBADF),
                (Err(e), _) => r == Err::<u64, Errno>(e),
            },
    {
        self.reclaim();
        let node = match self.cx.table().node(ino) {
            Ok(node) => node,
            Err(e) => return Err(e),
        };
        match self.handles.file(fh) {
            Some(handle) => self.fs.lseek(node, handle, offset, whence, caller),
            None => Err(Errno::EBADF),
        }
    }

    /// Closes an open file: its handle number is gone, and the filesystem gets
    /// the handle back.
    pub fn release(&mut self, ino: u64, fh: u64, caller: &Caller) -> (r: Result<(), Errno>)
        ensures
            final(self).same_settings(*old(self)),
            final(self).valid(),
            final(self).open_handles() == old(self).open_handles().file_removed(fh),
            final(self).context().receiver() == old(self).context().receiver(),
            exists|now: TableView<F::Node>|
                {
                    &&& #[trigger] old(self).takes_in(now)
                    &&& match (old(self).open_handles().file(fh), now.node(ino)) {
                        (Some(handle), Ok(node)) => final(self).nodes() == now.closed(ino)
                            && call_ensures(
                            F::release,
                            (&old(self).filesystem(), &node, handle, caller),
                            r,
                        ),
                        (Some(_), Err(e)) => r == Err::<(), Errno>(e) && final(self).nodes()
                            == now,
                        (None, _) => r == Err::<(), Errno>(Errno::EBADF) && final(self).nodes()
                            == now,
                    }
                },
    {
        self.reclaim();
        let handle = match self.handles.remove_file(fh) {
            Some(handle) => handle,
            None => {
                assert(self.handles@.files =~= old(self).handles@.files);
                return Err(Errno::EBADF);
            },
        };
        let node = match self.cx.table().record(ino) {
            Ok(node) => node,
            Err(e) => return Err(e),
        };
        self.cx.remove_open(ino);
        self.fs.release(&node, handle, caller)
    }

    /// Gives a directory that the filesystem opened a handle number. Since it was
    /// opened its node counts as leased, so dropped leases are not taken in here.
    pub fn dir_opened(&mut self, ino: u64, opened: Opened<F::DirHandle>) -> (r: Result<
        OpenReply,
        Errno,
    >)
        ensures
            final(self).same_settings(*old(self)),
            final(self).valid(),
            final(self).context().receiver() == old(self).context().receiver(),
            dir_open_answered(
                old(self).nodes(),
                old(self).open_handles(),
                ino,
                opened,
                r,
                final(self).nodes(),
                final(self).open_handles(),
            ),
    {
        proof {
            use_type_invariant(&self.cx);
            use_type_invariant(&self.handles);
        }
        match self.add_open(ino) {
            Ok(()) => {
                let fh: u64 = self.handles.add_dir(opened.handle);
                Ok(OpenReply { fh, hints: opened.hints })
            },
            Err(e) => Err(e),
        }
    }

    /// Opens a directory.
    pub fn opendir(&mut self, ino: u64, flags: i32, caller: &Caller) -> (r: Result<
        OpenReply,
        Errno,
    >)
        ensures
            final(self).same_settings(*old(self)),
            final(self).valid(),
            final(self).context().receiver() == old(self).context().receiver(),
            exists|now: TableView<F::Node>|
                {
                    &&& #[trigger] old(self).takes_in(now)
                    &&& opendir_given(
                        old(self).filesystem(),
                        now,
                        old(self).open_handles(),
                        ino,
                        flags,
                        caller,
                        r,
                        final(self).nodes(),
                        final(self).open_handles(),
                    )
                },
    {
        self.reclaim();
        let node = match self.cx.table().node(ino) {
            Ok(node) => node,
            Err(e) => return Err(e),
        };
        match self.fs.opendir(node, flags, caller) {
            Ok(opened) => self.dir_opened(ino, opened),
            Err(e) => Err(e),
        }
    }

    /// Lists a directory into `sink`. A number that is no open directory
    /// stands for a handle of the default value.
    pub fn readdir<S: DirSink>(
        &mut self,
        ino: u64,
        fh: u64,
        offset: u64,
        sink: &mut S,
        caller: &Caller,
    ) -> (r: Result<(), Errno>) where F: ReadDir<S>
        ensures
            old(self).settles_to(*final(self)),
            final(self).valid(),
            final(self).nodes().node(ino) matches Err(e) ==> r == Err::<(), Errno>(e)
                && *final(sink) == *old(sink),
            final(self).nodes().node(ino) matches Ok(node) ==> exists|handle: F::DirHandle|
                {
                    &&& #[trigger] dir_handle::<F>(final(self).open_handles().dir(fh), handle)
                    &&& exists|s: &mut S|
                        {
                            &&& #[trigger] is_given(*s, *old(sink))
                            &&& call_ensures(
                                <F as ReadDir<S>>::readdir,
                                (
                                    &final(self).filesystem(),
                                    &node,
                                    NodeId::of(ino),
                                    final(self).nodes().slots[ino].parent,
                                    &handle,
                                    offset,
                                    s,
                                    caller,
                                ),
                                r,
                            )
                            &&& *final(s) == *final(sink)
                        }
                },
    {
        self.reclaim();
        let node = match self.cx.table().node(ino) {
            Ok(node) => node,
            Err(e) => return Err(e),
        };
        let parent = match self.cx.table().parent_of(ino) {
            Some(parent) => parent,
            None => return Err(Errno::ENOENT),
        };
        let id = NodeId::from_ino(ino);
        match self.handles.dir(fh) {
            Some(handle) => {
                assert(dir_handle::<F>(self.open_handles().dir(fh), *handle));
                let res = self.fs.readdir(node, id, parent, handle, offset, &mut *sink, caller);
                assert(exists|s: &mut S|
                    {
                        &&& #[trigger] call_ensures(
                            <F as ReadDir<S>>::readdir,
                            (
                                &self.filesystem(),
                                node,
                                NodeId::of(ino),
                                parent,
                                handle,
                                offset,
                                s,
                                caller,
                            ),
                            res,
                        )
                        &&& is_given(*s, *old(sink))
                        &&& *final(s) == *sink
                    });
                res
            },
            None => {
                let handle = F::DirHandle::default();
                assert(dir_handle::<F>(self.open_handles().dir(fh), handle));
                let res = self.fs.readdir(node, id, parent, &handle, offset, &mut *sink, caller);
                assert(exists|s: &mut S|
                    {
                        &&& #[trigger] call_ensures(
                            <F as ReadDir<S>>::readdir,
                            (
                                &self.filesystem(),
                                node,
                                NodeId::of(ino),
                                parent,
                                &handle,
                                offset,
                                s,
                                caller,
                            ),
                            res,
                        )
                        &&& is_given(*s, *old(sink))
                        &&& *final(s) == *sink
                    });
                res
            },
        }
    }

    /// Flushes a directory. A number that is no open directory stands for a
    /// handle of the default value.
    pub fn fsyncdir(&mut self, ino: u64, fh: u64, datasync: bool, caller: &Caller) -> (r: Result<
        (),
        Errno,
    >)
        ensures
            old(self).settles_to(*final(self)),
            final(self).valid(),
            match final(self).nodes().node(ino) {
                Err(e) => r == Err::<(), Errno>(e),
                Ok(node) => exists|handle: F::DirHandle|
                    {
                        &&& call_ensures(
                            F::fsyncdir,
                            (&final(self).filesystem(), &node, &handle, datasync, caller),
                            r,
                        )
                        &&& #[trigger] dir_handle::<F>(final(self).open_handles().dir(fh), handle)
                    },
            },
    {
        self.reclaim();
        let node = match self.cx.table().node(ino) {
            Ok(node) => node,
            Err(e) => return Err(e),
        };
        match self.handles.dir(fh) {
            Some(handle) => {
                assert(dir_handle::<F>(self.open_handles().dir(fh), *handle));
                self.fs.fsyncdir(node, handle, datasync, caller)
            },
            None => {
                let handle = F::DirHandle::default();
                assert(dir_handle::<F>(self.open_handles().dir(fh), handle));
                self.fs.fsyncdir(node, &handle, datasync, caller)
            },
        }
    }

    /// Closes an open directory: its handle number is gone, and the filesystem
    /// gets the handle back. A number that is no open directory stands for a
    /// handle of the default value.
    pub fn releasedir(&mut self, ino: u64, fh: u64, caller: &Caller) -> (r: Result<(), Errno>)
        ensures
            final(self).same_settings(*old(self)),
            final(self).valid(),
            final(self).open_handles() == old(self).open_handles().dir_removed(fh),
            final(self).context().receiver() == old(self).context().receiver(),
            exists|now: TableView<F::Node>|
                {
                    &&& #[trigger] old(self).takes_in(now)
                    &&& match now.node(ino) {
                        Err(e) => r == Err::<(), Errno>(e) && final(self).nodes() == now,
                        Ok(node) => final(self).nodes() == now.closed(ino)
                            && exists|handle: F::DirHandle|
                            {
                                &&& call_ensures(
                                    F::releasedir,
                                    (&old(self).filesystem(), &node, handle, caller),
                                    r,
                                )
                                &&& #[trigger] dir_handle::<F>(
                                    old(self).open_handles().dir(fh),
                                    handle,
                                )
                            },
                    }
                },
    {
        self.reclaim();
        let taken = self.handles.remove_dir(fh);
        let node = match self.cx.table().record(ino) {
            Ok(node) => node,
            Err(e) => return Err(e),
        };
        self.cx.remove_open(ino);
        let handle = match taken {
            Some(handle) => handle,
            None => F::DirHandle::default(),
        };
        assert(dir_handle::<F>(old(self).open_handles().dir(fh), handle));
        self.fs.releasedir(&node, handle, caller)
    }

    /// Looks a name up in a directory.
    pub fn lookup(
        &mut self,
        parent: u64,
        name: &str,
        caller: &Caller,
    ) -> (r: Result<LookupReply, Errno>)
        ensures
            final(self).same_settings(*old(self)),
            final(self).valid(),
            final(self).open_handles() == old(self).open_handles(),
            exists|cx: &mut Cx<F::Node>, res: Result<Option<NodeId>, Errno>|
                {
                    &&& #[trigger] call_ensures(
                        F::lookup,
                        (&old(self).filesystem(), cx, NodeId::of(parent), name, caller),
                        res,
                    )
                    &&& old(self).takes_in(cx@)
                    &&& cx.receiver() == old(self).context().receiver()
                    &&& final(cx).receiver() == final(self).context().receiver()
                    &&& lookup_answered(
                        old(self).filesystem(),
                        *final(cx),
                        caller,
                        res,
                        r,
                        final(self).nodes(),
                    )
                },
    {
        self.reclaim();
        let res = self.fs.lookup(&mut self.cx, NodeId::from_ino(parent), name, caller);
        let ghost mid = self.cx;
        proof {
            use_type_invariant(&self.cx);
        }
        assert(exists|cx: &mut Cx<F::Node>|
            {
                &&& #[trigger] call_ensures(
                    F::lookup,
                    (&old(self).filesystem(), cx, NodeId::of(parent), name, caller),
                    res,
                )
                &&& old(self).takes_in(cx@)
                &&& cx.receiver() == old(self).context().receiver()
                &&& *final(cx) == mid
            });
        match res {
            Err(e) => Err(e),
            Ok(None) => Ok(LookupReply::Negative),
            Ok(Some(id)) => match self.entry_for(id, caller) {
                Ok(entry) => Ok(LookupReply::Found(entry)),
                Err(e) => Err(e),
            },
        }
    }

    /// Creates a node that is neither a directory nor a symbolic link.
    pub fn mknod(
        &mut self,
        parent: u64,
        name: &str,
        mode: u32,
        rdev: u32,
        umask: u32,
        caller: &Caller,
    ) -> (r: Result<EntryReply, Errno>)
        ensures
            final(self).same_settings(*old(self)),
            final(self).valid(),
            final(self).open_handles() == old(self).open_handles(),
            exists|cx: &mut Cx<F::Node>, res: Result<NodeId, Errno>|
                {
                    &&& #[trigger] call_ensures(
                        F::mknod,
                        (
                            &old(self).filesystem(),
                            cx,
                            NodeId::of(parent),
                            name,
                            mode,
                            rdev,
                            umask,
                            caller,
                        ),
                        res,
                    )
                    &&& old(self).takes_in(cx@)
                    &&& cx.receiver() == old(self).context().receiver()
                    &&& final(cx).receiver() == final(self).context().receiver()
                    &&& entry_answered(
                        old(self).filesystem(),
                        *final(cx),
                        caller,
                        res,
                        r,
                        final(self).nodes(),
                    )
                },
    {
        self.reclaim();
        let res = self.fs.mknod(
            &mut self.cx,
            NodeId::from_ino(parent),
            name,
            mode,
            rdev,
            umask,
            caller,
        );
        let ghost mid = self.cx;
        proof {
            use_type_invariant(&self.cx);
        }
        assert(exists|cx: &mut Cx<F::Node>|
            {
                &&& #[trigger] call_ensures(
                    F::mknod,
                    (
                        &old(self).filesystem(),
                        cx,
                        NodeId::of(parent),
                        name,
                        mode,
                        rdev,
                        umask,
                        caller,
                    ),
                    res,
                )
                &&& old(self).takes_in(cx@)
                &&& cx.receiver() == old(self).context().receiver()
                &&& *final(cx) == mid
            });
        match res {
            Ok(id) => self.entry_for(id, caller),
            Err(e) => Err(e),
        }
    }

    /// Creates a directory.
    pub fn mkdir(
        &mut self,
        parent: u64,
        name: &str,
        mode: u32,
        umask: u32,
        caller: &Caller,
    ) -> (r: Result<EntryReply, Errno>)
        ensures
            final(self).same_settings(*old(self)),
            final(self).valid(),
            final(self).open_handles() == old(self).open_handles(),
            exists|cx: &mut Cx<F::Node>, res: Result<NodeId, Errno>|
                {
                    &&& #[trigger] call_ensures(
                        F::mkdir,
                        (
                            &old(self).filesystem(),
                            cx,
                            NodeId::of(parent),
                            name,
                            mode,
                            umask,
                            caller,
                        ),
                        res,
                    )
                    &&& old(self).takes_in(cx@)
                    &&& cx.receiver() == old(self).context().receiver()
                    &&& final(cx).receiver() == final(self).context().receiver()
                    &&& entry_answered(
                        old(self).filesystem(),
                        *final(cx),
                        caller,
                        res,
                        r,
                        final(self).nodes(),
                    )
                },
    {
        self.reclaim();
        let res = self.fs.mkdir(&mut self.cx, NodeId::from_ino(parent), name, mode, umask, caller);
        let ghost mid = self.cx;
        proof {
            use_type_invariant(&self.cx);
        }
        assert(exists|cx: &mut Cx<F::Node>|
            {
                &&& #[trigger] call_ensures(
                    F::mkdir,
                    (&old(self).filesystem(), cx, NodeId::of(parent), name, mode, umask, caller),
                    res,
                )
                &&& old(self).takes_in(cx@)
                &&& cx.receiver() == old(self).context().receiver()
                &&& *final(cx) == mid
            });
        match res {
            Ok(id) => self.entry_for(id, caller),
            Err(e) => Err(e),
        }
    }

    /// Creates a symbolic link.
    pub fn symlink(
        &mut self,
        parent: u64,
        name: &str,
        target: &str,
        caller: &Caller,
    ) -> (r: Result<EntryReply, Errno>)
        ensures
            final(self).same_settings(*old(self)),
            final(self).valid(),
            final(self).open_handles() == old(self).open_handles(),
            exists|cx: &mut Cx<F::Node>, res: Result<NodeId, Errno>|
                {
                    &&& #[trigger] call_ensures(
                        F::symlink,
                        (&old(self).filesystem(), cx, NodeId::of(parent), name, target, caller),
                        res,
                    )
                    &&& old(self).takes_in(cx@)
                    &&& cx.receiver() == old(self).context().receiver()
                    &&& final(cx).receiver() == final(self).context().receiver()
                    &&& entry_answered(
                        old(self).filesystem(),
                        *final(cx),
                        caller,
                        res,
                        r,
                        final(self).nodes(),
                    )
                },
    {
        self.reclaim();
        let res = self.fs.symlink(&mut self.cx, NodeId::from_ino(parent), name, target, caller);
        let ghost mid = self.cx;
        proof {
            use_type_invariant(&self.cx);
        }
        assert(exists|cx: &mut Cx<F::Node>|
            {
                &&& #[trigger] call_ensures(
                    F::symlink,
                    (&old(self).filesystem(), cx, NodeId::of(parent), name, target, caller),
                    res,
                )
                &&& old(self).takes_in(cx@)
                &&& cx.receiver() == old(self).context().receiver()
                &&& *final(cx) == mid
            });
        match res {
            Ok(id) => self.entry_for(id, caller),
            Err(e) => Err(e),
        }
    }

    /// Gives a node another name.
    pub fn link(
        &mut self,
        ino: u64,
        newparent: u64,
        newname: &str,
        caller: &Caller,
    ) -> (r: Result<EntryReply, Errno>)
        ensures
            final(self).same_settings(*old(self)),
            final(self).valid(),
            final(self).open_handles() == old(self).open_handles(),
            exists|cx: &mut Cx<F::Node>, res: Result<NodeId, Errno>|
                {
                    &&& #[trigger] call_ensures(
                        F::link,
                        (
                            &old(self).filesystem(),
                            cx,
                            NodeId::of(ino),
                            NodeId::of(newparent),
                            newname,
                            caller,
                        ),
                        res,
                    )
                    &&& old(self).takes_in(cx@)
                    &&& cx.receiver() == old(self).context().receiver()
                    &&& final(cx).receiver() == final(self).context().receiver()
                    &&& entry_answered(
                        old(self).filesystem(),
                        *final(cx),
                        caller,
                        res,
                        r,
                        final(self).nodes(),
                    )
                },
    {
        self.reclaim();
        let res = self.fs.link(
            &mut self.cx,
            NodeId::from_ino(ino),
            NodeId::from_ino(newparent),
            newname,
            caller,
        );
        let ghost mid = self.cx;
        proof {
            use_type_invariant(&self.cx);
        }
        assert(exists|cx: &mut Cx<F::Node>|
            {
                &&& #[trigger] call_ensures(
                    F::link,
                    (
                        &old(self).filesystem(),
                        cx,
                        NodeId::of(ino),
                        NodeId::of(newparent),
                        newname,
                        caller,
                    ),
                    res,
                )
                &&& old(self).takes_in(cx@)
                &&& cx.receiver() == old(self).context().receiver()
                &&& *final(cx) == mid
            });
        match res {
            Ok(id) => self.entry_for(id, caller),
            Err(e) => Err(e),
        }
    }

    /// Removes a name that is no directory's.
    pub fn unlink(&mut self, parent: u64, name: &str, caller: &Caller) -> (r: Result<(), Errno>)
        ensures
            final(self).same_settings(*old(self)),
            final(self).valid(),
            final(self).open_handles() == old(self).open_handles(),
            exists|cx: &mut Cx<F::Node>|
                {
                    &&& #[trigger] call_ensures(
                        F::unlink,
                        (&old(self).filesystem(), cx, NodeId::of(parent), name, caller),
                        r,
                    )
                    &&& old(self).takes_in(cx@)
                    &&& cx.receiver() == old(self).context().receiver()
                    &&& *final(cx) == final(self).context()
                },
    {
        self.reclaim();
        let res = self.fs.unlink(&mut self.cx, NodeId::from_ino(parent), name, caller);
        let ghost mid = self.cx;
        proof {
            use_type_invariant(&self.cx);
        }
        assert(exists|cx: &mut Cx<F::Node>|
            {
                &&& #[trigger] call_ensures(
                    F::unlink,
                    (&old(self).filesystem(), cx, NodeId::of(parent), name, caller),
                    res,
                )
                &&& old(self).takes_in(cx@)
                &&& cx.receiver() == old(self).context().receiver()
                &&& *final(cx) == mid
            });
        res
    }

    /// Removes an empty directory.
    pub fn rmdir(&mut self, parent: u64, name: &str, caller: &Caller) -> (r: Result<(), Errno>)
        ensures
            final(self).same_settings(*old(self)),
            final(self).valid(),
            final(self).open_handles() == old(self).open_handles(),
            exists|cx: &mut Cx<F::Node>|
                {
                    &&& #[trigger] call_ensures(
                        F::rmdir,
                        (&old(self).filesystem(), cx, NodeId::of(parent), name, caller),
                        r,
                    )
                    &&& old(self).takes_in(cx@)
                    &&& cx.receiver() == old(self).context().receiver()
                    &&& *final(cx) == final(self).context()
                },
    {
        self.reclaim();
        let res = self.fs.rmdir(&mut self.cx, NodeId::from_ino(parent), name, caller);
        let ghost mid = self.cx;
        proof {
            use_type_invariant(&self.cx);
        }
        assert(exists|cx: &mut Cx<F::Node>|
            {
                &&& #[trigger] call_ensures(
                    F::rmdir,
                    (&old(self).filesystem(), cx, NodeId::of(parent), name, caller),
                    res,
                )
                &&& old(self).takes_in(cx@)
                &&& cx.receiver() == old(self).context().receiver()
                &&& *final(cx) == mid
            });
        res
    }

    /// Renames a node.
    pub fn rename(
        &mut self,
        parent: u64,
        name: &str,
        newparent: u64,
        newname: &str,
        flags: u32,
        caller: &Caller,
    ) -> (r: Result<(), Errno>)
        ensures
            final(self).same_settings(*old(self)),
            final(self).valid(),
            final(self).open_handles() == old(self).open_handles(),
            exists|cx: &mut Cx<F::Node>|
                {
                    &&& #[trigger] call_ensures(
                        F::rename,
                        (
                            &old(self).filesystem(),
                            cx,
                            NodeId::of(parent),
                            name,
                            NodeId::of(newparent),
                            newname,
                            flags,
                            caller,
                        ),
                        r,
                    )
                    &&& old(self).takes_in(cx@)
                    &&& cx.receiver() == old(self).context().receiver()
                    &&& *final(cx) == final(self).context()
                },
    {
        self.reclaim();
        let res = self.fs.rename(
            &mut self.cx,
            NodeId::from_ino(parent),
            name,
            NodeId::from_ino(newparent),
            newname,
            flags,
            caller,
        );
        let ghost mid = self.cx;
        proof {
            use_type_invariant(&self.cx);
        }
        assert(exists|cx: &mut Cx<F::Node>|
            {
                &&& #[trigger] call_ensures(
                    F::rename,
                    (
                        &old(self).filesystem(),
                        cx,
                        NodeId::of(parent),
                        name,
                        NodeId::of(newparent),
                        newname,
                        flags,
                        caller,
                    ),
                    res,
                )
                &&& old(self).takes_in(cx@)
                &&& cx.receiver() == old(self).context().receiver()
                &&& *final(cx) == mid
            });
        res
    }

    /// Creates and opens a file.
    pub fn create(
        &mut self,
        parent: u64,
        name: &str,
        mode: u32,
        umask: u32,
        flags: i32,
        caller: &Caller,
    ) -> (r: Result<(EntryReply, OpenReply), Errno>)
        ensures
            final(self).same_settings(*old(self)),
            final(self).valid(),
            exists|cx: &mut Cx<F::Node>, res: Result<(NodeId, Opened<F::Handle>), Errno>|
                {
                    &&& #[trigger] call_ensures(
                        F::create,
                        (
                            &old(self).filesystem(),
                            cx,
                            NodeId::of(parent),
                            name,
                            mode,
                            umask,
                            flags,
                            caller,
                        ),
                        res,
                    )
                    &&& old(self).takes_in(cx@)
                    &&& cx.receiver() == old(self).context().receiver()
                    &&& final(cx).receiver() == final(self).context().receiver()
                    &&& create_answered(
                        old(self).filesystem(),
                        *final(cx),
                        old(self).open_handles(),
                        caller,
                        res,
                        r,
                        final(self).nodes(),
                        final(self).open_handles(),
                    )
                },
    {
        self.reclaim();
        let res = self.fs.create(
            &mut self.cx,
            NodeId::from_ino(parent),
            name,
            mode,
            umask,
            flags,
            caller,
        );
        let ghost mid = self.cx;
        proof {
            use_type_invariant(&self.cx);
        }
        assert(exists|cx: &mut Cx<F::Node>|
            {
                &&& #[trigger] call_ensures(
                    F::create,
                    (
                        &old(self).filesystem(),
                        cx,
                        NodeId::of(parent),
                        name,
                        mode,
                        umask,
                        flags,
                        caller,
                    ),
                    res,
                )
                &&& old(self).takes_in(cx@)
                &&& cx.receiver() == old(self).context().receiver()
                &&& *final(cx) == mid
            });
        let (id, opened) = match res {
            Ok(created) => created,
            Err(e) => return Err(e),
        };
        let entry = match self.entry_for(id, caller) {
            Ok(entry) => entry,
            Err(e) => return Err(e),
        };
        match self.file_opened(id.ino(), opened) {
            Ok(reply) => Ok((entry, reply)),
            Err(e) => Err(e),
        }
    }

    /// Copies a range of bytes between two nodes.
    pub fn copy_file_range(
        &mut self,
        ino_in: u64,
        off_in: u64,
        ino_out: u64,
        off_out: u64,
        len: u64,
        flags: i32,
        caller: &Caller,
    ) -> (r: Result<usize, Errno>)
        ensures
            final(self).same_settings(*old(self)),
            final(self).valid(),
            final(self).open_handles() == old(self).open_handles(),
            exists|cx: &mut Cx<F::Node>|
                {
                    &&& #[trigger] call_ensures(
                        F::copy_file_range,
                        (
                            &old(self).filesystem(),
                            cx,
                            NodeId::of(ino_in),
                            off_in,
                            NodeId::of(ino_out),
                            off_out,
                            len,
                            flags,
                            caller,
                        ),
                        r,
                    )
                    &&& old(self).takes_in(cx@)
                    &&& cx.receiver() == old(self).context().receiver()
                    &&& *final(cx) == final(self).context()
                },
    {
        self.reclaim();
        let res = self.fs.copy_file_range(
            &mut self.cx,
            NodeId::from_ino(ino_in),
            off_in,
            NodeId::from_ino(ino_out),
            off_out,
            len,
            flags,
            caller,
        );
        let ghost mid = self.cx;
        proof {
            use_type_invariant(&self.cx);
        }
        assert(exists|cx: &mut Cx<F::Node>|
            {
                &&& #[trigger] call_ensures(
                    F::copy_file_range,
                    (
                        &old(self).filesystem(),
                        cx,
                        NodeId::of(ino_in),
                        off_in,
                        NodeId::of(ino_out),
                        off_out,
                        len,
                        flags,
                        caller,
                    ),
                    res,
                )
                &&& old(self).takes_in(cx@)
                &&& cx.receiver() == old(self).context().receiver()
                &&& *final(cx) == mid
            });
        res
    }
}

/// Forgetting a lookup undoes it: the node is counted as before.
pub proof fn law_forget_undoes_lookup<N>(
    pre: TableView<N>,
    id: NodeId,
    attr: NodeAttr,
    r: Result<EntryReply, Errno>,
    post: TableView<N>,
)
    requires
        pre.valid(),
        entered(pre, id, attr, r, post),
        r is Ok,
    ensures
        post.forgotten(r->Ok_0.ino, 1) == pre,
{
    lifetime::law_giving_back_undoes_taking(pre, id.number());
}

/// An open file gets a number that no open file and no open directory has, and
/// that was never handed out before; it comes with the filesystem's hints, and is
/// counted once on its node. A request to open one that fails changes nothing:
/// the node is not there, and the filesystem was not asked, or it refused.
pub proof fn law_open_counts_once_or_changes_nothing<F: NodeFs>(
    fs: F,
    now: TableView<F::Node>,
    handles: HandlesView<F::Handle, F::DirHandle>,
    ino: u64,
    flags: i32,
    caller: &Caller,
    r: Result<OpenReply, Errno>,
    post: TableView<F::Node>,
    post_handles: HandlesView<F::Handle, F::DirHandle>,
)
    requires
        handles.valid(),
        handles.next_fh < u64::MAX,
        now.slots.contains_key(ino) ==> now.slots[ino].opens < u32::MAX,
        open_given(fs, now, handles, ino, flags, caller, r, post, post_handles),
    ensures
        r matches Ok(o) ==> {
            &&& 1 <= o.fh == handles.next_fh < post_handles.next_fh
            &&& !handles.files.contains_key(o.fh) && !handles.dirs.contains_key(o.fh)
            &&& now.slots.contains_key(ino)
            &&& post == now.opened(ino)
            &&& post.slots[ino].opens == now.slots[ino].opens + 1
            &&& exists|opened: Opened<F::Handle>|
                {
                    &&& #[trigger] call_ensures(
                        F::open,
                        (&fs, &*now.slots[ino].record, flags, caller),
                        Ok::<Opened<F::Handle>, Errno>(opened),
                    )
                    &&& o.hints == opened.hints
                    &&& post_handles == handles.file_added(opened.handle)
                }
        },
        r matches Err(e) ==> {
            &&& post == now && post_handles == handles
            &&& if now.slots.contains_key(ino) {
                call_ensures(
                    F::open,
                    (&fs, &*now.slots[ino].record, flags, caller),
                    Err::<Opened<F::Handle>, Errno>(e),
                )
            } else {
                e == Errno::ENOENT
            }
        },
{
    if now.slots.contains_key(ino) {
        let node = *now.slots[ino].record;
        let res = choose|res: Result<Opened<F::Handle>, Errno>|
            {
                &&& #[trigger] call_ensures(F::open, (&fs, &node, flags, caller), res)
                &&& match res {
                    Err(e) => r == Err::<OpenReply, Errno>(e) && post == now && post_handles
                        == handles,
                    Ok(opened) => file_open_answered(
                        now,
                        handles,
                        ino,
                        opened,
                        r,
                        post,
                        post_handles,
                    ),
                }
            };
        if let Ok(opened) = res {
            assert(call_ensures(
                F::open,
                (&fs, &node, flags, caller),
                Ok::<Opened<F::Handle>, Errno>(opened),
            ));
        }
    }
}

/// An open directory gets a number that no open file and no open directory has, and
/// that was never handed out before; it comes with the filesystem's hints, and is
/// counted once on its node. A request to open one that fails changes nothing:
/// the node is not there, and the filesystem was not asked, or it refused.
pub proof fn law_opendir_counts_once_or_changes_nothing<F: NodeFs>(
    fs: F,
    now: TableView<F::Node>,
    handles: HandlesView<F::Handle, F::DirHandle>,
    ino: u64,
    flags: i32,
    caller: &Caller,
    r: Result<OpenReply, Errno>,
    post: TableView<F::Node>,
    post_handles: HandlesView<F::Handle, F::DirHandle>,
)
    requires
        handles.valid(),
        handles.next_fh < u64::MAX,
        now.slots.contains_key(ino) ==> now.slots[ino].opens < u32::MAX,
        opendir_given(fs, now, handles, ino, flags, caller, r, post, post_handles),
    ensures
        r matches Ok(o) ==> {
            &&& 1 <= o.fh == handles.next_fh < post_handles.next_fh
            &&& !handles.files.contains_key(o.fh) && !handles.dirs.contains_key(o.fh)
            &&& now.slots.contains_key(ino)
            &&& post == now.opened(ino)
            &&& post.slots[ino].opens == now.slots[ino].opens + 1
            &&& exists|opened: Opened<F::DirHandle>|
                {
                    &&& #[trigger] call_ensures(
                        F::opendir,
                        (&fs, &*now.slots[ino].record, flags, caller),
                        Ok::<Opened<F::DirHandle>, Errno>(opened),
                    )
                    &&& o.hints == opened.hints
                    &&& post_handles == handles.dir_added(opened.handle)
                }
        },
        r matches Err(e) ==> {
            &&& post == now && post_handles == handles
            &&& if now.slots.contains_key(ino) {
                call_ensures(
                    F::opendir,
                    (&fs, &*now.slots[ino].record, flags, caller),
                    Err::<Opened<F::DirHandle>, Errno>(e),
                )
            } else {
                e == Errno::ENOENT
            }
        },
{
    if now.slots.contains_key(ino) {
        let node = *now.slots[ino].record;
        let res = choose|res: Result<Opened<F::DirHandle>, Errno>|
            {
                &&& #[trigger] call_ensures(F::opendir, (&fs, &node, flags, caller), res)
                &&& match res {
                    Err(e) => r == Err::<OpenReply, Errno>(e) && post == now && post_handles
                        == handles,
                    Ok(opened) => dir_open_answered(
                        now,
                        handles,
                        ino,
                        opened,
                        r,
                        post,
                        post_handles,
                    ),
                }
            };
        if let Ok(opened) = res {
            assert(call_ensures(
                F::opendir,
                (&fs, &node, flags, caller),
                Ok::<Opened<F::DirHandle>, Errno>(opened),
            ));
        }
    }
}

/// Releasing a file undoes its opening: the node is counted as before, and the
/// handles are the same but for the number that was used up.
pub proof fn law_release_undoes_open<N, H, D>(
    pre: TableView<N>,
    handles: HandlesView<H, D>,
    ino: u64,
    opened: Opened<H>,
    r: Result<OpenReply, Errno>,
    post: TableView<N>,
    post_handles: HandlesView<H, D>,
)
    requires
        pre.valid(),
        handles.valid(),
        file_open_answered(pre, handles, ino, opened, r, post, post_handles),
        r is Ok,
    ensures
        post_handles.file(r->Ok_0.fh) == Some(opened.handle),
        post.closed(ino) == pre,
        post_handles.file_removed(r->Ok_0.fh) == (HandlesView {
            next_fh: (handles.next_fh + 1) as u64,
            ..handles
        }),
{
    lifetime::law_giving_back_undoes_taking(pre, ino);
    assert(post_handles.file_removed(handles.next_fh).files =~= handles.files);
}

/// Releasing a directory undoes its opening: the node is counted as before, and
/// the handles are the same but for the number that was used up.
pub proof fn law_releasedir_undoes_opendir<N, H, D>(
    pre: TableView<N>,
    handles: HandlesView<H, D>,
    ino: u64,
    opened: Opened<D>,
    r: Result<OpenReply, Errno>,
    post: TableView<N>,
    post_handles: HandlesView<H, D>,
)
    requires
        pre.valid(),
        handles.valid(),
        dir_open_answered(pre, handles, ino, opened, r, post, post_handles),
        r is Ok,
    ensures
        post_handles.dir(r->Ok_0.fh) == Some(opened.handle),
        post.closed(ino) == pre,
        post_handles.dir_removed(r->Ok_0.fh) == (HandlesView {
            next_fh: (handles.next_fh + 1) as u64,
            ..handles
        }),
{
    lifetime::law_giving_back_undoes_taking(pre, ino);
    assert(post_handles.dir_removed(handles.next_fh).dirs =~= handles.dirs);
}

} // verus!
