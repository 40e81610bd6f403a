//! Open file and directory handles.
//!
//! A handle's payload is lent to callbacks and is taken out once, when the
//! handle is closed. Where callbacks overlap, a [`HandleRecord`] counts the
//! leases: closing refuses new ones at once, but takes the payload only when
//! those given before have all come back.

use std::collections::BTreeMap;

use vstd::prelude::*;

verus! {

broadcast use vstd::std_specs::btree::group_btree_axioms;

/// A handle's payload and who uses it.
pub struct HandleRecord<H> {
    pub payload: Option<H>,
    pub active: u32,
    pub closing: bool,
}

impl<H> HandleRecord<H> {
    /// The payload is gone only from a handle that is closed and that nobody
    /// uses.
    pub open spec fn valid(self) -> bool {
        self.payload is None ==> self.closing && self.active == 0
    }

    /// A handle that is open and that nobody uses.
    pub open spec fn idle(payload: H) -> HandleRecord<H> {
        HandleRecord { payload: Some(payload), active: 0, closing: false }
    }

    /// The record after a lease was asked for.
    pub open spec fn acquired(self) -> HandleRecord<H> {
        if self.closing {
            self
        } else {
            HandleRecord { active: (self.active + 1) as u32, ..self }
        }
    }

    /// The record after a lease came back.
    pub open spec fn released(self) -> HandleRecord<H> {
        if self.active > 0 {
            HandleRecord { active: (self.active - 1) as u32, ..self }
        } else {
            self
        }
    }

    /// The record after an attempt to close it.
    pub open spec fn closed(self) -> HandleRecord<H> {
        if self.active == 0 {
            HandleRecord { payload: None, active: 0, closing: true }
        } else {
            HandleRecord { closing: true, ..self }
        }
    }

    /// What an attempt to close it hands out: the payload, once nobody uses
    /// it.
    pub open spec fn handed_out(self) -> Option<H> {
        if self.active == 0 {
            self.payload
        } else {
            None
        }
    }

    pub fn new(payload: H) -> (r: HandleRecord<H>)
        ensures
            r == HandleRecord::idle(payload),
            r.valid(),
    {
        HandleRecord { payload: Some(payload), active: 0, closing: false }
    }

    /// Takes a lease, unless the handle is closing.
    pub fn acquire(&mut self) -> (r: bool)
        requires
            old(self).valid(),
            !old(self).closing ==> old(self).active < u32::MAX,
        ensures
            r == !old(self).closing,
            *final(self) == old(self).acquired(),
            final(self).valid(),
    {
        if self.closing {
            return false;
        }
        self.active = self.active + 1;
        true
    }

    /// Gives a lease back. Returns whether that was the one that a closing
    /// handle waits for.
    pub fn release(&mut self) -> (drained: bool)
        requires
            old(self).valid(),
        ensures
            *final(self) == old(self).released(),
            final(self).valid(),
            drained == (final(self).active == 0 && old(self).closing),
    {
        self.active = self.active.saturating_sub(1);
        self.active == 0 && self.closing
    }

    /// Refuses new leases from now on, and takes the payload if no lease is
    /// out. With leases out it returns `None`, and is called again when the
    /// last of them came back.
    pub fn close_and_take(&mut self) -> (r: Option<H>)
        requires
            old(self).valid(),
        ensures
            r == old(self).handed_out(),
            *final(self) == old(self).closed(),
            final(self).valid(),
    {
        self.closing = true;
        if self.active == 0 {
            self.payload.take()
        } else {
            None
        }
    }
}

/// One thing that can be done to a handle's record.
pub enum RecordStep {
    Acquire,
    Release,
    CloseAndTake,
}

impl RecordStep {
    /// The record after the step.
    pub open spec fn done<H>(self, r: HandleRecord<H>) -> HandleRecord<H> {
        match self {
            RecordStep::Acquire => r.acquired(),
            RecordStep::Release => r.released(),
            RecordStep::CloseAndTake => r.closed(),
        }
    }

    /// Whether a lease that the step takes can be counted.
    pub open spec fn possible<H>(self, r: HandleRecord<H>) -> bool {
        self is Acquire && !r.closing ==> r.active < u32::MAX
    }
}

/// The record after one step after the other.
pub open spec fn record_run<H>(r: HandleRecord<H>, steps: Seq<RecordStep>) -> HandleRecord<H>
    decreases steps.len(),
{
    if steps.len() == 0 {
        r
    } else {
        record_run(steps.first().done(r), steps.drop_first())
    }
}

/// Whether each step is possible when its turn comes.
pub open spec fn record_run_possible<H>(r: HandleRecord<H>, steps: Seq<RecordStep>) -> bool
    decreases steps.len(),
{
    steps.len() > 0 ==> steps.first().possible(r) && record_run_possible(
        steps.first().done(r),
        steps.drop_first(),
    )
}

/// How often the payload is handed out in the course of the steps.
pub open spec fn times_handed_out<H>(r: HandleRecord<H>, steps: Seq<RecordStep>) -> nat
    decreases steps.len(),
{
    if steps.len() == 0 {
        0
    } else {
        times_handed_out(steps.first().done(r), steps.drop_first()) + if steps.first()
            == RecordStep::CloseAndTake && r.handed_out() is Some {
            1nat
        } else {
            0nat
        }
    }
}

/// A closing handle gives no lease, and stays closing whatever is done.
pub proof fn law_no_lease_after_close<H>(r: HandleRecord<H>, steps: Seq<RecordStep>)
    requires
        r.valid(),
        record_run_possible(r, steps),
        r.closing,
    ensures
        record_run(r, steps).closing,
        record_run(r, steps).acquired() == record_run(r, steps),
        record_run(r, steps).active <= r.active,
    decreases steps.len(),
{
    if steps.len() > 0 {
        law_no_lease_after_close(steps.first().done(r), steps.drop_first());
    }
}

/// The payload is handed out once at most, whatever is done and in whatever
/// order.
pub proof fn law_payload_is_handed_out_once<H>(r: HandleRecord<H>, steps: Seq<RecordStep>)
    requires
        r.valid(),
        record_run_possible(r, steps),
    ensures
        times_handed_out(r, steps) <= if r.payload is Some {
            1nat
        } else {
            0nat
        },
    decreases steps.len(),
{
    if steps.len() > 0 {
        law_payload_is_handed_out_once(steps.first().done(r), steps.drop_first());
    }
}

/// Closing waits: as long as a lease is out the payload stays, the same as
/// before, and is handed out to nobody.
pub proof fn law_leased_payload_stays<H>(r: HandleRecord<H>, step: RecordStep)
    requires
        r.valid(),
        step.possible(r),
        r.active > 0,
    ensures
        r.handed_out() is None,
        step.done(r).payload == r.payload,
        r.payload is Some,
{
}

/// What a handle table holds: the open files and directories by handle number,
/// and the first number that was never used.
pub struct HandlesView<H, D> {
    pub files: Map<u64, H>,
    pub dirs: Map<u64, D>,
    pub next_fh: u64,
}

impl<H, D> HandlesView<H, D> {
    pub open spec fn empty() -> HandlesView<H, D> {
        HandlesView { files: Map::empty(), dirs: Map::empty(), next_fh: 1 }
    }

    /// What every table keeps: the numbers in use were handed out, and none is
    /// both a file and a directory.
    pub open spec fn valid(self) -> bool {
        &&& self.next_fh >= 1
        &&& forall|fh: u64| #[trigger]
            self.files.contains_key(fh) ==> 1 <= fh < self.next_fh && !self.dirs.contains_key(fh)
        &&& forall|fh: u64| #[trigger]
            self.dirs.contains_key(fh) ==> 1 <= fh < self.next_fh && !self.files.contains_key(fh)
    }

    /// The open file under a number.
    pub open spec fn file(self, fh: u64) -> Option<H> {
        if self.files.contains_key(fh) {
            Some(self.files[fh])
        } else {
            None
        }
    }

    /// The open directory under a number.
    pub open spec fn dir(self, fh: u64) -> Option<D> {
        if self.dirs.contains_key(fh) {
            Some(self.dirs[fh])
        } else {
            None
        }
    }

    /// The table after a file was opened.
    pub open spec fn file_added(self, handle: H) -> HandlesView<H, D> {
        HandlesView {
            files: self.files.insert(self.next_fh, handle),
            next_fh: (self.next_fh + 1) as u64,
            ..self
        }
    }

    /// The table after a directory was opened.
    pub open spec fn dir_added(self, handle: D) -> HandlesView<H, D> {
        HandlesView {
            dirs: self.dirs.insert(self.next_fh, handle),
            next_fh: (self.next_fh + 1) as u64,
            ..self
        }
    }

    /// The table after a file handle was taken out.
    pub open spec fn file_removed(self, fh: u64) -> HandlesView<H, D> {
        HandlesView { files: self.files.remove(fh), ..self }
    }

    /// The table after a directory handle was taken out.
    pub open spec fn dir_removed(self, fh: u64) -> HandlesView<H, D> {
        HandlesView { dirs: self.dirs.remove(fh), ..self }
    }
}

/// The open handles of a filesystem. Files and directories share one series of
/// handle numbers.
pub struct HandleTable<H, D> {
    files: BTreeMap<u64, H>,
    dirs: BTreeMap<u64, D>,
    next_fh: u64,
}

impl<H, D> View for HandleTable<H, D> {
    type V = HandlesView<H, D>;

    closed spec fn view(&self) -> HandlesView<H, D> {
        HandlesView { files: self.files@, dirs: self.dirs@, next_fh: self.next_fh }
    }
}

impl<H, D> HandleTable<H, D> {
    #[verifier::type_invariant]
    pub open spec fn well_formed(self) -> bool {
        self@.valid()
    }

    pub fn new() -> (t: HandleTable<H, D>)
        ensures
            t@ == HandlesView::<H, D>::empty(),
    {
        HandleTable { files: BTreeMap::new(), dirs: BTreeMap::new(), next_fh: 1 }
    }

    /// Whether a handle number is left.
    pub fn has_room(&self) -> (r: bool)
        ensures
            r == (self@.next_fh < u64::MAX),
    {
        self.next_fh < u64::MAX
    }

    /// Takes a number that was never used.
    fn next(&mut self) -> (fh: u64)
        requires
            old(self)@.next_fh < u64::MAX,
        ensures
            fh == old(self)@.next_fh,
            final(self)@ == (HandlesView {
                next_fh: (old(self)@.next_fh + 1) as u64,
                ..old(self)@
            }),
    {
        proof {
            use_type_invariant(&*self);
        }
        let fh: u64 = self.next_fh;
        self.next_fh = fh + 1;
        fh
    }

    /// Opens a file handle under a new number.
    pub fn add_file(&mut self, handle: H) -> (fh: u64)
        requires
            old(self)@.next_fh < u64::MAX,
        ensures
            fh == old(self)@.next_fh,
            final(self)@ == old(self)@.file_added(handle),
            final(self)@.valid(),
    {
        proof {
            use_type_invariant(&*self);
        }
        let fh: u64 = self.next();
        let mut files = BTreeMap::new();
        std::mem::swap(&mut files, &mut self.files);
        files.insert(fh, handle);
        self.files = files;
        fh
    }

    /// Opens a directory handle under a new number.
    pub fn add_dir(&mut self, handle: D) -> (fh: u64)
        requires
            old(self)@.next_fh < u64::MAX,
        ensures
            fh == old(self)@.next_fh,
            final(self)@ == old(self)@.dir_added(handle),
            final(self)@.valid(),
    {
        proof {
            use_type_invariant(&*self);
        }
        let fh: u64 = self.next();
        let mut dirs = BTreeMap::new();
        std::mem::swap(&mut dirs, &mut self.dirs);
        dirs.insert(fh, handle);
        self.dirs = dirs;
        fh
    }

    /// Takes the handle of an open file out of the table.
    pub fn remove_file(&mut self, fh: u64) -> (r: Option<H>)
        ensures
            final(self)@ == old(self)@.file_removed(fh),
            final(self)@.valid(),
            r == old(self)@.file(fh),
    {
        proof {
            use_type_invariant(&*self);
        }
        let mut table = HandleTable::new();
        std::mem::swap(&mut table, self);
        let HandleTable { mut files, dirs, next_fh } = table;
        let handle = files.remove(&fh);
        assert(old(self)@.file_removed(fh).valid());
        *self = HandleTable { files, dirs, next_fh };
        handle
    }

    /// Takes the handle of an open directory out of the table.
    pub fn remove_dir(&mut self, fh: u64) -> (r: Option<D>)
        ensures
            final(self)@ == old(self)@.dir_removed(fh),
            final(self)@.valid(),
            r == old(self)@.dir(fh),
    {
        proof {
            use_type_invariant(&*self);
        }
        let mut table = HandleTable::new();
        std::mem::swap(&mut table, self);
        let HandleTable { files, mut dirs, next_fh } = table;
        let handle = dirs.remove(&fh);
        assert(old(self)@.dir_removed(fh).valid());
        *self = HandleTable { files, dirs, next_fh };
        handle
    }

    /// The handle of an open file.
    pub fn file(&self, fh: u64) -> (handle: Option<&H>)
        ensures
            handle is Some <==> self@.file(fh) is Some,
            handle matches Some(h) ==> Some(*h) == self@.file(fh),
    {
        self.files.get(&fh)
    }

    /// The handle of an open directory.
    pub fn dir(&self, fh: u64) -> (handle: Option<&D>)
        ensures
            handle is Some <==> self@.dir(fh) is Some,
            handle matches Some(d) ==> Some(*d) == self@.dir(fh),
    {
        self.dirs.get(&fh)
    }
}

/// One thing that can be done to a handle table.
pub enum HandleStep<H, D> {
    AddFile(H),
    AddDir(D),
    RemoveFile(u64),
    RemoveDir(u64),
}

impl<H, D> HandleStep<H, D> {
    /// Whether a number is left for a new handle.
    pub open spec fn possible(self, v: HandlesView<H, D>) -> bool {
        self is AddFile || self is AddDir ==> v.next_fh < u64::MAX
    }

    /// The table after the step.
    pub open spec fn done(self, v: HandlesView<H, D>) -> HandlesView<H, D> {
        match self {
            HandleStep::AddFile(h) => v.file_added(h),
            HandleStep::AddDir(d) => v.dir_added(d),
            HandleStep::RemoveFile(fh) => v.file_removed(fh),
            HandleStep::RemoveDir(fh) => v.dir_removed(fh),
        }
    }
}

/// The table after one step after the other.
pub open spec fn handle_run<H, D>(
    v: HandlesView<H, D>,
    steps: Seq<HandleStep<H, D>>,
) -> HandlesView<H, D>
    decreases steps.len(),
{
    if steps.len() == 0 {
        v
    } else {
        handle_run(steps.first().done(v), steps.drop_first())
    }
}

/// Whether each step is possible when its turn comes.
pub open spec fn handle_run_possible<H, D>(
    v: HandlesView<H, D>,
    steps: Seq<HandleStep<H, D>>,
) -> bool
    decreases steps.len(),
{
    steps.len() > 0 ==> steps.first().possible(v) && handle_run_possible(
        steps.first().done(v),
        steps.drop_first(),
    )
}

/// A new handle gets a number that neither a file nor a directory has.
pub proof fn law_new_handle_displaces_none<H, D>(v: HandlesView<H, D>)
    requires
        v.valid(),
    ensures
        !v.files.contains_key(v.next_fh),
        !v.dirs.contains_key(v.next_fh),
{
}

/// Handle numbers rise: one that is handed out differs from every one that was
/// handed out before.
pub proof fn law_handle_numbers_rise<H, D>(v: HandlesView<H, D>, steps: Seq<HandleStep<H, D>>)
    requires
        handle_run_possible(v, steps),
    ensures
        v.next_fh <= handle_run(v, steps).next_fh,
    decreases steps.len(),
{
    if steps.len() > 0 {
        law_handle_numbers_rise(steps.first().done(v), steps.drop_first());
    }
}

/// A handle number is never used again: once it was handed out and its handle
/// is gone, no file and no directory ever has it.
pub proof fn law_handle_number_is_never_reused<H, D>(
    v: HandlesView<H, D>,
    steps: Seq<HandleStep<H, D>>,
    fh: u64,
)
    requires
        handle_run_possible(v, steps),
        fh < v.next_fh,
        !v.files.contains_key(fh),
        !v.dirs.contains_key(fh),
    ensures
        !handle_run(v, steps).files.contains_key(fh),
        !handle_run(v, steps).dirs.contains_key(fh),
        handle_run(v, steps).file(fh) is None,
        handle_run(v, steps).dir(fh) is None,
    decreases steps.len(),
{
    if steps.len() > 0 {
        law_handle_number_is_never_reused(steps.first().done(v), steps.drop_first(), fh);
    }
}

/// A new record lends its payload to nobody; a lease is counted as one when it is
/// taken, which a closing record refuses, and off when it comes back; the last one
/// back from a closing record says so.
pub proof fn law_handle_leases_are_counted<H>(
    payload: H,
    new: HandleRecord<H>,
    taken: bool,
    drained: bool,
)
    ensures
        call_ensures(HandleRecord::<H>::new, (payload,), new) ==> {
            &&& new.payload == Some(payload)
            &&& new.active == 0 && !new.closing
        },
        forall|h: &mut HandleRecord<H>| #[trigger]
            call_ensures(HandleRecord::<H>::acquire, (h,), taken) && (!h.closing ==> h.active
                < u32::MAX) ==> {
                &&& taken <==> !h.closing
                &&& final(h).active == h.active + if taken {
                    1int
                } else {
                    0int
                }
                &&& final(h).payload == h.payload && final(h).closing == h.closing
            },
        forall|h: &mut HandleRecord<H>| #[trigger]
            call_ensures(HandleRecord::<H>::release, (h,), drained) ==> {
                &&& final(h).active == if h.active > 0 {
                    h.active - 1
                } else {
                    0
                }
                &&& final(h).payload == h.payload && final(h).closing == h.closing
                &&& drained <==> h.closing && h.active <= 1
            },
{
}

/// Closing a record refuses leases from then on. It hands the payload out, and keeps
/// it no longer, exactly if no lease is out.
pub proof fn law_closing_takes_what_nobody_uses<H>(r: Option<H>)
    ensures
        forall|h: &mut HandleRecord<H>| #[trigger]
            call_ensures(HandleRecord::<H>::close_and_take, (h,), r) ==> {
                &&& final(h).closing
                &&& final(h).active == h.active
                &&& if h.active == 0 {
                    r == h.payload && final(h).payload is None
                } else {
                    r is None && final(h).payload == h.payload
                }
            },
{
}

/// A handle is kept under the next number, which then is used up, among its own
/// kind; and is found there until it is taken out, which touches no other.
pub proof fn law_handles_are_kept_under_their_numbers<H, D>(
    handle: H,
    dir: D,
    fh: u64,
    file_out: Option<H>,
    dir_out: Option<D>,
)
    ensures
        forall|t: &mut HandleTable<H, D>| #[trigger]
            call_ensures(HandleTable::<H, D>::add_file, (t, handle), fh) && t@.next_fh < u64::MAX
                ==> {
                &&& fh == t@.next_fh && final(t)@.next_fh == fh + 1
                &&& final(t)@.files == t@.files.insert(fh, handle)
                &&& final(t)@.dirs == t@.dirs
            },
        forall|t: &mut HandleTable<H, D>| #[trigger]
            call_ensures(HandleTable::<H, D>::add_dir, (t, dir), fh) && t@.next_fh < u64::MAX
                ==> {
                &&& fh == t@.next_fh && final(t)@.next_fh == fh + 1
                &&& final(t)@.dirs == t@.dirs.insert(fh, dir)
                &&& final(t)@.files == t@.files
            },
        forall|t: &mut HandleTable<H, D>| #[trigger]
            call_ensures(HandleTable::<H, D>::remove_file, (t, fh), file_out) ==> {
                &&& final(t)@.files == t@.files.remove(fh)
                &&& final(t)@.dirs == t@.dirs && final(t)@.next_fh == t@.next_fh
                &&& match file_out {
                    Some(out) => t@.files.contains_key(fh) && out == t@.files[fh],
                    None => !t@.files.contains_key(fh),
                }
            },
        forall|t: &mut HandleTable<H, D>| #[trigger]
            call_ensures(HandleTable::<H, D>::remove_dir, (t, fh), dir_out) ==> {
                &&& final(t)@.dirs == t@.dirs.remove(fh)
                &&& final(t)@.files == t@.files && final(t)@.next_fh == t@.next_fh
                &&& match dir_out {
                    Some(out) => t@.dirs.contains_key(fh) && out == t@.dirs[fh],
                    None => !t@.dirs.contains_key(fh),
                }
            },
{
}

/// What is asked of a handle table is answered as it stands in it; a new one is empty
/// and starts at number 1.
pub proof fn law_handle_table_is_read_as_it_is<H, D>(
    t: HandleTable<H, D>,
    fh: u64,
    new: HandleTable<H, D>,
    room: bool,
    file: Option<&H>,
    dir: Option<&D>,
)
    ensures
        call_ensures(HandleTable::<H, D>::new, (), new) ==> {
            &&& forall|fh: u64| !new@.files.contains_key(fh) && !new@.dirs.contains_key(fh)
            &&& new@.next_fh == 1
        },
        call_ensures(HandleTable::<H, D>::has_room, (&t,), room) ==> room == (t@.next_fh
            < u64::MAX),
        call_ensures(HandleTable::<H, D>::file, (&t, fh), file) ==> match file {
            Some(h) => t@.files.contains_key(fh) && *h == t@.files[fh],
            None => !t@.files.contains_key(fh),
        },
        call_ensures(HandleTable::<H, D>::dir, (&t, fh), dir) ==> match dir {
            Some(d) => t@.dirs.contains_key(fh) && *d == t@.dirs[fh],
            None => !t@.dirs.contains_key(fh),
        },
{
}

} // verus!
