//! The behavioural guarantees of the scheduling discipline, stated and
//! proved over the scheduler's transition functions — the same functions the
//! executable operations are specified with.

use crate::sched::can_fire;
use crate::sched::with_cancelled;
use crate::sched::with_new_entry;
use crate::sched::with_pending;
use crate::sched::with_released;
use crate::sched::Entry;
use vstd::prelude::*;

verus! {

/// A freshly initialized entry is idle, so the first `modify` on it reports
/// that it was not pending.
pub proof fn first_schedule_reports_idle(s: Seq<Entry>, flags: u32)
    ensures
        !with_new_entry(s, flags)[s.len() as int].pending,
{
}

/// An entry armed by an earlier `modify` is pending, so a second `modify`
/// before it fires reports that it was.
pub proof fn reschedule_reports_pending(s: Seq<Entry>, id: int, expires: u64)
    requires
        0 <= id < s.len(),
    ensures
        with_pending(s, id, expires)[id].pending,
{
}

/// An armed entry is owed its firing: after `modify` for tick `expires`, the
/// entry can be dispatched at every tick from `expires` on, until it is
/// cancelled, fired, or released.
pub proof fn armed_entry_fires_when_due(s: Seq<Entry>, id: int, expires: u64, now: u64)
    requires
        0 <= id < s.len(),
        s[id].live,
        expires <= now,
    ensures
        can_fire(with_pending(s, id, expires), id, now),
{
}

/// Dispatching an entry consumes its pending request: once fired, it cannot
/// fire again, at any later tick, until it is rearmed.
pub proof fn fired_entry_cannot_refire(s: Seq<Entry>, id: int, later: u64)
    requires
        0 <= id < s.len(),
    ensures
        !can_fire(with_cancelled(s, id), id, later),
{
}

/// Teardown-before-fire: after cancel-and-synchronize followed by release,
/// the entry can never fire, at any tick — a callback torn down before its
/// expiration is never invoked.
pub proof fn torn_down_entry_never_fires(s: Seq<Entry>, id: int, now: u64)
    requires
        0 <= id < s.len(),
    ensures
        !can_fire(with_released(with_cancelled(s, id), id), id, now),
{
}

/// Replace-in-place: when a static slot's occupant is cancelled once and
/// released and a fresh entry is then registered, the old entry can never
/// fire again — the replaced callback's state can no longer change.
pub proof fn replaced_entry_never_fires(s: Seq<Entry>, id: int, flags: u32, now: u64)
    requires
        0 <= id < s.len(),
    ensures
        !can_fire(with_new_entry(with_released(with_cancelled(s, id), id), flags), id, now),
{
}

/// Cancellation is idempotent: cancelling an already-cancelled entry leaves
/// the whole table exactly as it was, so a repeated cancel is harmless.
pub proof fn cancel_is_idempotent(s: Seq<Entry>, id: int)
    requires
        0 <= id < s.len(),
    ensures
        with_cancelled(with_cancelled(s, id), id) == with_cancelled(s, id),
{
    assert(with_cancelled(with_cancelled(s, id), id) =~= with_cancelled(s, id));
}

/// Releasing touches only the named slot: every other entry is exactly as it
/// was, so tearing one timer down cannot affect another.
pub proof fn teardown_leaves_others_alone(s: Seq<Entry>, id: int, other: int)
    requires
        0 <= id < s.len(),
        0 <= other < s.len(),
        other != id,
    ensures
        with_released(with_cancelled(s, id), id)[other] == s[other],
{
}

} // verus!
