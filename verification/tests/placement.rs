use ktimer::Clock;
use ktimer::CountingCallback;
use ktimer::Scheduler;
use ktimer::Timer;
use ktimer::TimerBuilder;
use ktimer::TIMER_DEFERRABLE;
use ktimer::TIMER_IRQSAFE;

#[test]
fn builder_starts_with_no_flags() {
    let b = TimerBuilder::new(String::from("plain"), CountingCallback::new());
    assert_eq!(b.flags, 0);
}

#[test]
fn builder_flags_accumulate() {
    let b = TimerBuilder::new(String::from("flags"), CountingCallback::new())
        .deferrable()
        .irqsafe();
    assert_eq!(b.flags, TIMER_DEFERRABLE | TIMER_IRQSAFE);
}

#[test]
fn deferrable_sets_only_its_flag() {
    let b = TimerBuilder::new(String::from("d"), CountingCallback::new()).deferrable();
    assert_eq!(b.flags, TIMER_DEFERRABLE);
}

#[test]
fn irqsafe_sets_only_its_flag() {
    let b = TimerBuilder::new(String::from("i"), CountingCallback::new()).irqsafe();
    assert_eq!(b.flags, TIMER_IRQSAFE);
}

#[test]
fn timer_keeps_its_name() {
    let mut sched = Scheduler::new();
    let t = TimerBuilder::new(String::from("diagnostic"), CountingCallback::new())
        .boxed(&mut sched);
    assert_eq!(t.name().as_str(), "diagnostic");
}

#[test]
fn in_uninit_places_fresh_entry() {
    let mut sched = Scheduler::new();
    let mut clock = Clock::new();
    let mut slot: Option<Timer<CountingCallback>> = None;
    TimerBuilder::new(String::from("buffer"), CountingCallback::new())
        .in_uninit(&mut slot, &mut sched);
    assert!(slot.is_some());
    assert!(!slot.as_ref().unwrap().modify(&mut sched, clock.jiffies() + 4));
    clock.advance(4);
    assert!(slot.as_mut().unwrap().fire(&mut sched, clock.jiffies()));
    let cb = slot.take().unwrap().teardown(&mut sched);
    assert_eq!(cb.count, 1);
}

#[test]
fn in_option_fills_empty_slot() {
    let mut sched = Scheduler::new();
    let mut slot: Option<Timer<CountingCallback>> = None;
    TimerBuilder::new(String::from("slot"), CountingCallback::new())
        .in_option(&mut slot, &mut sched);
    assert!(slot.is_some());
    assert!(!slot.as_ref().unwrap().modify(&mut sched, 25));
}

#[test]
fn replace_in_place_cancels_old_entry() {
    let mut sched = Scheduler::new();
    let mut clock = Clock::new();
    let mut slot: Option<Timer<CountingCallback>> = None;
    TimerBuilder::new(String::from("old"), CountingCallback::new())
        .in_option(&mut slot, &mut sched);
    let old_id = slot.as_ref().unwrap().slot_id();
    slot.as_ref().unwrap().modify(&mut sched, clock.jiffies() + 8);

    TimerBuilder::new(String::from("new"), CountingCallback::new())
        .in_option(&mut slot, &mut sched);
    let new_id = slot.as_ref().unwrap().slot_id();
    assert_ne!(old_id, new_id);
    // The old occupant was cancelled-and-synchronized and released before
    // the new entry was registered: it can never fire now.
    assert!(!sched.is_live(old_id));
    assert!(!sched.is_pending(old_id));

    slot.as_ref().unwrap().modify(&mut sched, clock.jiffies() + 8);
    clock.advance(8);
    assert!(slot.as_mut().unwrap().fire(&mut sched, clock.jiffies()));
    let cb = slot.take().unwrap().teardown(&mut sched);
    assert_eq!(cb.count, 1);
}

#[test]
fn builder_flags_reach_the_scheduler() {
    let mut sched = Scheduler::new();
    let t = TimerBuilder::new(String::from("flagged"), CountingCallback::new())
        .deferrable()
        .boxed(&mut sched);
    assert_eq!(sched.entry_flags(t.slot_id()), TIMER_DEFERRABLE);

    let plain = TimerBuilder::new(String::from("plain"), CountingCallback::new())
        .boxed(&mut sched);
    assert_eq!(sched.entry_flags(plain.slot_id()), 0);
}

#[test]
fn placements_share_one_scheduler() {
    let mut sched = Scheduler::new();
    let heap = TimerBuilder::new(String::from("h"), CountingCallback::new()).boxed(&mut sched);
    let mut slot: Option<Timer<CountingCallback>> = None;
    TimerBuilder::new(String::from("s"), CountingCallback::new())
        .in_uninit(&mut slot, &mut sched);
    assert_eq!(sched.slot_count(), 2);
    assert_ne!(heap.slot_id(), slot.as_ref().unwrap().slot_id());
}
