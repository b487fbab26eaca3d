//! A state-machine model of the external deferred-callback scheduler.
//!
//! The real facility stores one fixed-size entry per timer, keyed by the
//! entry's memory address.  Here an entry is pinned by a stable slot index
//! instead of an address: a slot is handed out once by `initialize` and never
//! reused for a different entry, so the index plays the role of the
//! address-pinned back-reference.  The operations mirror the facility's
//! contract: `initialize` is called once per entry, `modify` (re)arms an entry
//! and reports whether it was already pending, `cancel_and_synchronize`
//! removes a pending firing and is idempotent, and `release` retires an entry
//! only after it has been cancelled.

use vstd::prelude::*;

verus! {

/// One slot of the scheduler's table: the opaque per-entry record the
/// external facility keeps for a registered timer.
///
/// `live` says the slot holds a registered, not-yet-released entry;
/// `pending` says a firing has been requested and not yet dispatched,
/// cancelled, or consumed; `expires` is the tick at or after which a pending
/// entry may fire; `flags` are the behavioural flags fixed at initialization.
#[derive(Clone, Copy)]
pub struct Entry {
    pub live: bool,
    pub pending: bool,
    pub expires: u64,
    pub flags: u32,
}

/// The table after registering a fresh entry: one more slot, idle, with the
/// given flags.
pub open spec fn with_new_entry(s: Seq<Entry>, flags: u32) -> Seq<Entry> {
    s.push(Entry { live: true, pending: false, expires: 0, flags })
}

/// The table after (re)arming entry `id` for tick `expires`.
pub open spec fn with_pending(s: Seq<Entry>, id: int, expires: u64) -> Seq<Entry> {
    s.update(id, Entry { live: s[id].live, pending: true, expires, flags: s[id].flags })
}

/// The table after cancelling entry `id`: the pending firing, if any, is
/// removed; nothing else changes.
pub open spec fn with_cancelled(s: Seq<Entry>, id: int) -> Seq<Entry> {
    s.update(
        id,
        Entry { live: s[id].live, pending: false, expires: s[id].expires, flags: s[id].flags },
    )
}

/// The table after releasing entry `id`: the slot is retired and can never
/// fire again.
pub open spec fn with_released(s: Seq<Entry>, id: int) -> Seq<Entry> {
    s.update(
        id,
        Entry { live: false, pending: false, expires: s[id].expires, flags: s[id].flags },
    )
}

/// Whether entry `id` may be dispatched at tick `now`: it must be a live,
/// pending entry whose expiration has been reached.
pub open spec fn can_fire(s: Seq<Entry>, id: int, now: u64) -> bool {
    &&& 0 <= id < s.len()
    &&& s[id].live
    &&& s[id].pending
    &&& s[id].expires <= now
}

/// The model of the external scheduler: its per-entry table.
///
/// Viewed as the sequence of entry records, indexed by slot id.
pub struct Scheduler {
    entries: Vec<Entry>,
}

impl View for Scheduler {
    type V = Seq<Entry>;

    closed spec fn view(&self) -> Seq<Entry> {
        self.entries@
    }
}

impl Scheduler {
    /// A scheduler with no registered entries.
    pub fn new() -> (s: Scheduler)
        ensures
            s@ == Seq::<Entry>::empty(),
    {
        let s = Scheduler { entries: Vec::new() };
        proof {
            assert(s@ =~= Seq::<Entry>::empty());
        }
        s
    }

    /// How many slots have ever been registered (released ones included).
    pub fn slot_count(&self) -> (n: usize)
        ensures
            n == self@.len(),
    {
        self.entries.len()
    }

    /// Registers a fresh entry with the given behavioural flags and returns
    /// its slot id.  Models the facility's one-time per-entry initialization:
    /// the entry starts idle, and the returned id is its stable identity from
    /// now until release.
    pub fn initialize(&mut self, flags: u32) -> (id: usize)
        requires
            old(self)@.len() < usize::MAX,
        ensures
            id == old(self)@.len(),
            final(self)@ == with_new_entry(old(self)@, flags),
    {
        let id: usize = self.entries.len();
        self.entries.push(Entry { live: true, pending: false, expires: 0, flags });
        id
    }

    /// Requests that entry `id` fire at or after tick `expires`, and reports
    /// whether it was already pending before this call.  Never blocks and
    /// never fails.  Models the facility's registration/modify primitive.
    pub fn modify(&mut self, id: usize, expires: u64) -> (was_pending: bool)
        requires
            id < old(self)@.len(),
            old(self)@[id as int].live,
        ensures
            was_pending == old(self)@[id as int].pending,
            final(self)@ == with_pending(old(self)@, id as int, expires),
    {
        let e = self.entries[id];
        self.entries[id] = Entry { live: e.live, pending: true, expires, flags: e.flags };
        e.pending
    }

    /// Removes any pending firing of entry `id` and waits out an invocation
    /// already in flight; once this returns, no further dispatch of the entry
    /// can occur until it is armed again.  Idempotent: safe on an entry that
    /// is not pending.  Models the facility's blocking cancel primitive.
    pub fn cancel_and_synchronize(&mut self, id: usize)
        requires
            id < old(self)@.len(),
            old(self)@[id as int].live,
        ensures
            final(self)@ == with_cancelled(old(self)@, id as int),
    {
        let e = self.entries[id];
        self.entries[id] = Entry { live: e.live, pending: false, expires: e.expires, flags: e.flags };
    }

    /// Retires entry `id`.  May only follow a cancellation: releasing a still
    /// pending entry would let the facility dispatch into freed storage, so
    /// that ordering is demanded here.
    pub fn release(&mut self, id: usize)
        requires
            id < old(self)@.len(),
            old(self)@[id as int].live,
            !old(self)@[id as int].pending,
        ensures
            final(self)@ == with_released(old(self)@, id as int),
    {
        let e = self.entries[id];
        self.entries[id] = Entry { live: false, pending: false, expires: e.expires, flags: e.flags };
    }

    /// Dispatch step at tick `now`: if entry `id` is live, pending, and due,
    /// consume the pending firing and report that the entry fired; otherwise
    /// leave the table unchanged.  A fired entry is no longer pending, so it
    /// cannot fire again until rearmed.
    pub fn take_expired(&mut self, id: usize, now: u64) -> (fired: bool)
        requires
            id < old(self)@.len(),
        ensures
            fired == can_fire(old(self)@, id as int, now),
            fired ==> final(self)@ == with_cancelled(old(self)@, id as int),
            !fired ==> final(self)@ == old(self)@,
    {
        let e = self.entries[id];
        if e.live && e.pending && e.expires <= now {
            self.entries[id] = Entry {
                live: e.live,
                pending: false,
                expires: e.expires,
                flags: e.flags,
            };
            true
        } else {
            false
        }
    }

    /// Whether entry `id` currently has a firing pending.
    pub fn is_pending(&self, id: usize) -> (r: bool)
        requires
            id < self@.len(),
        ensures
            r == self@[id as int].pending,
    {
        self.entries[id].pending
    }

    /// The behavioural flags entry `id` was registered with.
    pub fn entry_flags(&self, id: usize) -> (r: u32)
        requires
            id < self@.len(),
        ensures
            r == self@[id as int].flags,
    {
        self.entries[id].flags
    }

    /// Whether entry `id` is registered and not yet released.
    pub fn is_live(&self, id: usize) -> (r: bool)
        requires
            id < self@.len(),
        ensures
            r == self@[id as int].live,
    {
        self.entries[id].live
    }
}

} // verus!
