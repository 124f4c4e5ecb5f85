//! Scenario tests for the executor's tick protocol.
use tick_executor::executor::Executor;
use tick_executor::executor::Job;

fn job<T>(remaining: u64, wake_on_pending: bool, value: T) -> Job<T> {
    Job { remaining, wake_on_pending, value }
}

#[test]
fn completes_immediately_on_first_poll() {
    // A task that completes on its very first poll with value "ok".
    let mut ex: Executor<String> = Executor::new();
    let id = ex.spawn(job(0, false, String::from("ok")));
    assert!(ex.has_task(id));
    assert!(ex.is_marked(id));
    ex.tick();
    assert!(!ex.has_task(id));
    assert!(!ex.is_marked(id));
    assert_eq!(ex.take_output(id).map(|o| o.0), Some(String::from("ok")));
    // The output is collected exactly once.
    assert!(ex.take_output(id).is_none());
}

#[test]
fn wake_from_outside_delivers_output() {
    // A task that suspends once, is woken later from another execution
    // context, and then completes with 42.
    let mut ex: Executor<u64> = Executor::new();
    let id = ex.spawn(job(1, false, 42));
    ex.tick();
    // Polled once, suspended, no self-wake: parked without a marker.
    assert_eq!(ex.pending_polls(id), Some(0));
    assert!(!ex.is_marked(id));
    ex.tick();
    ex.tick();
    // No wake, no progress: never polled again.
    assert!(ex.has_task(id));
    assert!(ex.take_output(id).is_none());
    // The asynchronous wake arrives between ticks.
    ex.wake(id);
    ex.tick();
    // The tick that drains the wake only re-marks the slot.
    assert!(ex.has_task(id));
    assert!(ex.is_marked(id));
    assert!(ex.take_output(id).is_none());
    // The next tick polls it and the task completes.
    ex.tick();
    assert!(!ex.has_task(id));
    assert_eq!(ex.take_output(id).map(|o| o.0), Some(42));
}

#[test]
fn never_woken_never_completes() {
    // A task that never wakes after its first suspension stays parked:
    // the handle remains, no output ever appears, nothing goes wrong.
    let mut ex: Executor<u32> = Executor::new();
    let id = ex.spawn(job(3, false, 7));
    for _ in 0..25 {
        ex.tick();
    }
    assert!(ex.has_task(id));
    assert!(!ex.is_marked(id));
    assert_eq!(ex.pending_polls(id), Some(2));
    assert!(ex.take_output(id).is_none());
}

#[test]
fn independent_tasks_complete_on_their_own_schedule() {
    // Two tasks on two entities: one completes on the first tick, the
    // other — waking itself inside each suspending poll — needs three
    // polls, two ticks apart each, and completes on the fifth tick, with
    // no interference between the two.
    let mut ex: Executor<&'static str> = Executor::new();
    let fast = ex.spawn(job(0, false, "fast"));
    let slow = ex.spawn(job(2, true, "slow"));
    ex.tick();
    assert!(!ex.has_task(fast));
    assert!(ex.has_task(slow));
    assert_eq!(ex.take_output(fast).map(|o| o.0), Some("fast"));
    assert_eq!(ex.pending_polls(slow), Some(1));
    for _ in 0..3 {
        ex.tick();
        assert!(ex.has_task(slow));
        assert!(ex.take_output(slow).is_none());
    }
    ex.tick();
    assert!(!ex.has_task(slow));
    assert_eq!(ex.take_output(slow).map(|o| o.0), Some("slow"));
    // The completed neighbour was untouched throughout.
    assert!(ex.take_output(fast).is_none());
}

#[test]
fn duplicate_wakes_collapse_to_one_poll() {
    // Many wake signals for the same entity between polls cause exactly one
    // poll on the next eligible tick.
    let mut ex: Executor<u8> = Executor::new();
    let id = ex.spawn(job(4, false, 1));
    ex.tick();
    assert_eq!(ex.pending_polls(id), Some(3));
    for _ in 0..10 {
        ex.wake(id);
    }
    ex.tick();
    // The drain tick re-marked the slot without polling it.
    assert_eq!(ex.pending_polls(id), Some(3));
    assert!(ex.is_marked(id));
    ex.tick();
    // One poll happened, not ten.
    assert_eq!(ex.pending_polls(id), Some(2));
    assert!(!ex.is_marked(id));
}

#[test]
fn self_waking_task_completes_after_each_wake() {
    // A task woken exactly k times, each wake fired synchronously inside a
    // suspending poll, is polled every other tick and holds its output
    // exactly at tick 2k + 1.
    let mut ex: Executor<u16> = Executor::new();
    let id = ex.spawn(job(3, true, 9));
    for expected in [2u64, 1, 0] {
        // The polling tick: one step of progress, marker removed; the
        // self-wake is only queued.
        ex.tick();
        assert_eq!(ex.pending_polls(id), Some(expected));
        assert!(!ex.is_marked(id));
        // The draining tick: no poll, the wake only re-marks the slot.
        ex.tick();
        assert_eq!(ex.pending_polls(id), Some(expected));
        assert!(ex.is_marked(id));
        assert!(ex.take_output(id).is_none());
    }
    ex.tick();
    assert!(!ex.has_task(id));
    assert_eq!(ex.take_output(id).map(|o| o.0), Some(9));
}

#[test]
fn self_wake_waits_a_full_tick() {
    // A wake signaled during a tick's Poll Phase is not drained by that
    // same tick's Wake Phase: the task is not re-polled on the following
    // tick, and the earliest re-poll comes two ticks after the wake.
    let mut ex: Executor<u8> = Executor::new();
    let id = ex.spawn(job(1, true, 8));
    ex.tick();
    // Polled once; the synchronous self-wake is still queued.
    assert_eq!(ex.pending_polls(id), Some(0));
    assert!(!ex.is_marked(id));
    ex.tick();
    // One full tick of quiescence: no poll, only the marker returns.
    assert_eq!(ex.pending_polls(id), Some(0));
    assert!(ex.is_marked(id));
    ex.tick();
    assert!(!ex.has_task(id));
    assert_eq!(ex.take_output(id).map(|o| o.0), Some(8));
}

#[test]
fn stale_wake_after_completion_is_ignored() {
    // A wake for an entity whose task already completed only parks a stale
    // marker, which the next tick removes without polling anything.
    let mut ex: Executor<i32> = Executor::new();
    let id = ex.spawn(job(0, false, -5));
    ex.tick();
    assert!(!ex.has_task(id));
    ex.wake(id);
    ex.tick();
    assert!(ex.is_marked(id));
    ex.tick();
    assert!(!ex.is_marked(id));
    assert!(!ex.has_task(id));
    assert_eq!(ex.take_output(id).map(|o| o.0), Some(-5));
}

#[test]
fn wake_for_unknown_entity_is_ignored() {
    // An id that names no slot is tolerated by the Wake Phase.
    let mut ex: Executor<u8> = Executor::new();
    let id = ex.spawn(job(1, false, 3));
    ex.wake(999);
    ex.tick();
    ex.tick();
    assert_eq!(ex.slot_count(), 1);
    assert!(ex.has_task(id));
}
