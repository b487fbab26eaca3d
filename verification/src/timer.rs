//! The typed timer abstraction: callback capability, builder, placement
//! strategies, scheduling, dispatch, and teardown.
//!
//! A `Timer` owns the callback object and holds the slot id under which its
//! entry is registered with the scheduler.  The slot id is the entry's stable
//! identity — the model's form of the address that must never change between
//! registration and cancellation — and every operation keeps it fixed.

use crate::sched::can_fire;
use crate::sched::with_cancelled;
use crate::sched::with_new_entry;
use crate::sched::with_pending;
use crate::sched::with_released;
use crate::sched::Entry;
use crate::sched::Scheduler;
use vstd::prelude::*;

verus! {

/// Flag: the timer need not wake an idle execution unit; it is serviced when
/// the unit wakes up anyway.  Purely advisory to the scheduler.
pub const TIMER_DEFERRABLE: u32 = 0x0008_0000;

/// Flag: the callback runs with interrupts disabled, and cancellation may be
/// awaited from interrupt context.  The caller keeps the callback short.
pub const TIMER_IRQSAFE: u32 = 0x0020_0000;

/// The callback capability: a thing that can be invoked with no arguments
/// and no result, safe to hand across execution contexts.
///
/// `invoked` is the implementor's own statement of what one invocation does
/// to its state; `invoke` is held to it.
pub trait TimerCallback: Send + Sync + Sized {
    /// What a single invocation does: relates the state before to the state
    /// after.
    spec fn invoked(pre: Self, post: Self) -> bool;

    /// Invokes the callback once.
    fn invoke(&mut self)
        ensures
            Self::invoked(*old(self), *final(self)),
    ;
}

/// A callback that records how many times it has been invoked.  The count
/// saturates rather than wrap, so it never overflows.
pub struct CountingCallback {
    pub count: u64,
}

impl CountingCallback {
    /// A counter that has never been invoked.
    pub fn new() -> (c: CountingCallback)
        ensures
            c.count == 0,
    {
        CountingCallback { count: 0 }
    }
}

impl TimerCallback for CountingCallback {
    open spec fn invoked(pre: Self, post: Self) -> bool {
        post.count == if pre.count < u64::MAX {
            pre.count + 1
        } else {
            pre.count as int
        }
    }

    fn invoke(&mut self) {
        if self.count < u64::MAX {
            self.count = self.count + 1;
        }
    }
}

/// Accumulates a timer's configuration — diagnostic name, callback object,
/// behavioural flags — before committing to exactly one placement.  Each
/// finalizer consumes the builder, so no configuration can be committed
/// twice.
pub struct TimerBuilder<C> {
    pub name: String,
    pub callback: C,
    pub flags: u32,
}

/// The opaque classification token the scheduler's locking subsystem wants
/// alongside each entry.  It carries no observable state of its own; what
/// matters is its lifetime, which matches the entry's exactly: created at
/// initialization, destroyed at teardown after synchronization.
struct SyncKey {
    token: (),
}

/// The address-stable record the scheduler fires: the slot id of its entry,
/// the owned callback, a diagnostic name, and the entry's classification
/// token.
///
/// Once constructed, the slot id never changes: the entry stays pinned to
/// the same slot from initialization until teardown.
pub struct Timer<C> {
    slot: usize,
    callback: C,
    name: String,
    key: SyncKey,
}

impl<C: TimerCallback> TimerBuilder<C> {
    /// A builder with the given name and callback and no flags set.
    pub fn new(name: String, callback: C) -> (b: TimerBuilder<C>)
        ensures
            b.name == name,
            b.callback == callback,
            b.flags == 0,
    {
        TimerBuilder { name, callback, flags: 0 }
    }

    /// Marks the timer deferrable: it will work normally when the system is
    /// busy, but will not force an idle execution unit awake just to service
    /// it.
    pub fn deferrable(self) -> (b: TimerBuilder<C>)
        ensures
            b.name == self.name,
            b.callback == self.callback,
            b.flags == self.flags | TIMER_DEFERRABLE,
    {
        TimerBuilder {
            name: self.name,
            callback: self.callback,
            flags: self.flags | TIMER_DEFERRABLE,
        }
    }

    /// Marks the timer IRQ-safe: its callback runs with interrupts disabled,
    /// and waiting out a running instance is legal from interrupt context.
    pub fn irqsafe(self) -> (b: TimerBuilder<C>)
        ensures
            b.name == self.name,
            b.callback == self.callback,
            b.flags == self.flags | TIMER_IRQSAFE,
    {
        TimerBuilder {
            name: self.name,
            callback: self.callback,
            flags: self.flags | TIMER_IRQSAFE,
        }
    }

    /// Heap placement: registers the entry and returns an owned, pinned
    /// handle.  The simplest and safest placement.
    pub fn boxed(self, sched: &mut Scheduler) -> (t: Box<Timer<C>>)
        requires
            old(sched)@.len() < usize::MAX,
        ensures
            final(sched)@ == with_new_entry(old(sched)@, self.flags),
            t.id() == old(sched)@.len(),
            t.cb() == self.callback,
            t.label() == self.name@,
            t.wf(final(sched)@),
            !final(sched)@[t.id()].pending,
    {
        Box::new(Timer::initialize(self, sched))
    }

    /// Static-slot placement: writes the timer into a caller-supplied
    /// process-lifetime slot.  If the slot already holds an entry, that
    /// occupant is cancelled-and-synchronized and released — exactly once —
    /// before the new entry is registered: a silent replace-in-place, not an
    /// error.
    pub fn in_option(self, place: &mut Option<Timer<C>>, sched: &mut Scheduler)
        requires
            old(sched)@.len() < usize::MAX,
            match *old(place) {
                Some(prev) => prev.wf(old(sched)@),
                None => true,
            },
        ensures
            ({
                let mid = match *old(place) {
                    Some(prev) => with_released(with_cancelled(old(sched)@, prev.id()), prev.id()),
                    None => old(sched)@,
                };
                &&& final(sched)@ == with_new_entry(mid, self.flags)
                &&& match *final(place) {
                    Some(t) => {
                        &&& t.id() == old(sched)@.len()
                        &&& t.cb() == self.callback
                        &&& t.label() == self.name@
                        &&& t.wf(final(sched)@)
                        &&& !final(sched)@[t.id()].pending
                    },
                    None => false,
                }
            }),
    {
        let prev = place.take();
        match prev {
            Some(p) => {
                let _old_callback = p.teardown(sched);
            },
            None => {},
        }
        *place = Some(Timer::initialize(self, sched));
    }

    /// Caller-buffer placement: writes the timer into caller-supplied
    /// storage that the caller guarantees holds no live entry.  That
    /// guarantee is demanded up front, so no occupant is ever overwritten.
    pub fn in_uninit(self, place: &mut Option<Timer<C>>, sched: &mut Scheduler)
        requires
            old(sched)@.len() < usize::MAX,
            *old(place) is None,
        ensures
            final(sched)@ == with_new_entry(old(sched)@, self.flags),
            match *final(place) {
                Some(t) => {
                    &&& t.id() == old(sched)@.len()
                    &&& t.cb() == self.callback
                    &&& t.label() == self.name@
                    &&& t.wf(final(sched)@)
                    &&& !final(sched)@[t.id()].pending
                },
                None => false,
            },
    {
        *place = Some(Timer::initialize(self, sched));
    }
}

impl<C: TimerCallback> Timer<C> {
    /// The slot id of this timer's entry: its stable identity with the
    /// scheduler.
    pub closed spec fn id(self) -> int {
        self.slot as int
    }

    /// The callback object the timer owns.
    pub closed spec fn cb(self) -> C {
        self.callback
    }

    /// The diagnostic name.
    pub closed spec fn label(self) -> Seq<char> {
        self.name@
    }

    /// Well-formedness against a scheduler table: the timer's slot exists
    /// and its entry has not been released.
    pub open spec fn wf(self, s: Seq<Entry>) -> bool {
        &&& 0 <= self.id() < s.len()
        &&& s[self.id()].live
    }

    /// The shared placement core: given that the destination is now stable,
    /// register the entry once and produce the pinned timer.  Every
    /// finalizer funnels through here.
    fn initialize(args: TimerBuilder<C>, sched: &mut Scheduler) -> (t: Timer<C>)
        requires
            old(sched)@.len() < usize::MAX,
        ensures
            final(sched)@ == with_new_entry(old(sched)@, args.flags),
            t.id() == old(sched)@.len(),
            t.cb() == args.callback,
            t.label() == args.name@,
            t.wf(final(sched)@),
            !final(sched)@[t.id()].pending,
    {
        let id = sched.initialize(args.flags);
        Timer { slot: id, callback: args.callback, name: args.name, key: SyncKey { token: () } }
    }

    /// The slot id, for callers that need to ask the scheduler about this
    /// entry.
    pub fn slot_id(&self) -> (id: usize)
        ensures
            id == self.id(),
    {
        self.slot
    }

    /// The diagnostic name.
    pub fn name(&self) -> (n: &String)
        ensures
            n@ == self.label(),
    {
        &self.name
    }

    /// Requests that the callback fire at or after tick `expires`.  Reports
    /// whether the entry was already pending before this call (`true`) or
    /// idle (`false`).  Never blocks; never fails.
    pub fn modify(&self, sched: &mut Scheduler, expires: u64) -> (was_pending: bool)
        requires
            self.wf(old(sched)@),
        ensures
            was_pending == old(sched)@[self.id()].pending,
            final(sched)@ == with_pending(old(sched)@, self.id(), expires),
            self.wf(final(sched)@),
    {
        sched.modify(self.slot, expires)
    }

    /// The dispatch path at tick `now`: if this timer's entry is due, the
    /// scheduler consumes the pending firing and control reaches the
    /// trampoline, which recovers the typed timer from the entry's identity
    /// and invokes the owned callback in place.  Reports whether the entry
    /// fired.
    pub fn fire(&mut self, sched: &mut Scheduler, now: u64) -> (fired: bool)
        requires
            old(self).wf(old(sched)@),
        ensures
            final(self).id() == old(self).id(),
            final(self).label() == old(self).label(),
            fired == can_fire(old(sched)@, old(self).id(), now),
            fired ==> final(sched)@ == with_cancelled(old(sched)@, old(self).id()),
            fired ==> C::invoked(old(self).cb(), final(self).cb()),
            !fired ==> final(sched)@ == old(sched)@,
            !fired ==> final(self).cb() == old(self).cb(),
            final(self).wf(final(sched)@),
    {
        let fired = sched.take_expired(self.slot, now);
        if fired {
            self.trampoline();
        }
        fired
    }

    /// The trampoline's typed half: the enclosing timer has been recovered
    /// from the entry's stable identity, so the stored callback can be
    /// invoked in place, with no type metadata from the scheduler.
    fn trampoline(&mut self)
        ensures
            final(self).id() == old(self).id(),
            final(self).label() == old(self).label(),
            C::invoked(old(self).cb(), final(self).cb()),
    {
        self.callback.invoke();
    }

    /// Ends the timer's life: cancel any pending firing and wait out an
    /// invocation in flight, then release the entry, then hand the callback
    /// object back to the caller.  The ordering is mandatory — releasing
    /// before synchronizing could let the scheduler dispatch into a dead
    /// entry — and consuming `self` makes a second teardown impossible.
    pub fn teardown(self, sched: &mut Scheduler) -> (cb: C)
        requires
            self.wf(old(sched)@),
        ensures
            final(sched)@ == with_released(with_cancelled(old(sched)@, self.id()), self.id()),
            cb == self.cb(),
    {
        sched.cancel_and_synchronize(self.slot);
        sched.release(self.slot);
        let Timer { slot: _, callback, name: _, key: SyncKey { token: _ } } = self;
        callback
    }
}

} // verus!
