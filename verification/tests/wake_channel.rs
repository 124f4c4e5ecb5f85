//! Tests for the real wake channel and its wakers.
use tick_executor::channel::WakeChannel;

#[test]
fn drain_yields_signaled_ids_in_order() {
    let chan = WakeChannel::new();
    assert!(chan.signal(1));
    assert!(chan.signal(2));
    assert!(chan.signal(2));
    assert_eq!(chan.drain(), vec![1, 2, 2]);
    assert_eq!(chan.drain(), Vec::<u64>::new());
}

#[test]
fn waker_enqueues_its_entity_id_on_every_wake() {
    let chan = WakeChannel::new();
    let waker = chan.waker_for(7);
    waker.wake_by_ref();
    waker.wake_by_ref();
    waker.wake();
    assert_eq!(chan.drain(), vec![7, 7, 7]);
}

#[test]
fn producer_clone_feeds_the_same_queue() {
    let chan = WakeChannel::new();
    let producer = chan.producer();
    producer.send(11).unwrap();
    assert!(chan.signal(12));
    assert_eq!(chan.drain(), vec![11, 12]);
}

#[test]
fn drain_upto_leaves_later_signals_queued() {
    // A signal arriving after the snapshot — like a wake fired during a
    // poll — is not drained this round; it waits for the next one.
    let chan = WakeChannel::new();
    assert!(chan.signal(1));
    let snapshot = chan.queued();
    assert_eq!(snapshot, 1);
    assert!(chan.signal(2));
    assert_eq!(chan.drain_upto(snapshot), vec![1]);
    assert_eq!(chan.drain(), vec![2]);
}

#[test]
fn waker_survives_later_drains() {
    // A waker bound to one poll can fire long after other ids were drained.
    let chan = WakeChannel::new();
    let waker = chan.waker_for(3);
    assert!(chan.signal(1));
    assert_eq!(chan.drain(), vec![1]);
    waker.wake();
    assert_eq!(chan.drain(), vec![3]);
}
