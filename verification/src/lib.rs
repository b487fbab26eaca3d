//! A safe, verified front-end for a deferred-callback scheduling facility.
//!
//! The external scheduler stores a fixed-size entry per timer and later
//! invokes a callback for it.  This crate models that facility as an explicit
//! state machine (`sched::Scheduler`), models the monotonic clock source as
//! explicit state (`clock::Clock`), and builds the typed timer abstraction on
//! top: a builder that accumulates configuration, three placement strategies
//! that pin an entry to a stable slot, the schedule operation, and a teardown
//! path that always cancels-and-synchronizes before releasing the entry.

pub mod clock;
pub mod laws;
pub mod sched;
pub mod timer;

pub use clock::Clock;
pub use clock::HZ;
pub use sched::Entry;
pub use sched::Scheduler;
pub use timer::CountingCallback;
pub use timer::Timer;
pub use timer::TimerBuilder;
pub use timer::TimerCallback;
pub use timer::TIMER_DEFERRABLE;
pub use timer::TIMER_IRQSAFE;
