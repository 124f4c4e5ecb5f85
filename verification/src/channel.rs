//! The process-wide wake channel: an unbounded multi-producer,
//! single-consumer queue carrying the ids of entities whose tasks should be
//! re-marked for polling, and the per-poll wakers that feed it from any
//! execution context.
use vstd::prelude::*;

verus! {

#[verifier::external_type_specification]
#[verifier::external_body]
#[verifier::reject_recursive_types(T)]
pub struct ExSender<T>(crossbeam_channel::Sender<T>);

#[verifier::external_type_specification]
#[verifier::external_body]
#[verifier::reject_recursive_types(T)]
pub struct ExReceiver<T>(crossbeam_channel::Receiver<T>);

#[verifier::external_type_specification]
#[verifier::external_body]
pub struct ExWaker(core::task::Waker);

/// Relies on crossbeam_channel::unbounded: a fresh unbounded channel pair
/// whose sends never block.
#[verifier::external_body]
fn new_pair() -> (pair: (crossbeam_channel::Sender<u64>, crossbeam_channel::Receiver<u64>)) {
    crossbeam_channel::unbounded()
}

/// Relies on crossbeam_channel::Sender::clone: another producer handle to
/// the same queue, safe to hand to any thread.
#[verifier::external_body]
fn clone_sender(s: &crossbeam_channel::Sender<u64>) -> (r: crossbeam_channel::Sender<u64>) {
    s.clone()
}

/// Relies on crossbeam_channel::Receiver::len: how many ids are queued at
/// this moment (concurrent producers may change it at once).
#[verifier::external_body]
fn queued_now(r: &crossbeam_channel::Receiver<u64>) -> (n: usize) {
    r.len()
}

/// Relies on crossbeam_channel::Receiver::try_recv: takes one queued id
/// without blocking; yields nothing when the queue is empty (or every
/// producer is gone and nothing is left).
#[verifier::external_body]
fn try_recv_id(r: &crossbeam_channel::Receiver<u64>) -> (res: Option<u64>) {
    match r.try_recv() {
        Ok(id) => Some(id),
        Err(_) => None,
    }
}

/// Relies on waker_fn::waker_fn and crossbeam_channel::Sender::send: the
/// returned waker, each time it is woken — from any execution context, any
/// number of times — enqueues `id` on the channel `s` belongs to. If the
/// consumer end is gone the wake panics: the channel must outlive every
/// outstanding task, so that is a host lifecycle defect, surfaced loudly.
#[verifier::external_body]
fn waker_sending(s: crossbeam_channel::Sender<u64>, id: u64) -> (w: core::task::Waker) {
    waker_fn::waker_fn(move || {
        s.send(id).expect("wake channel: consumer gone while a task is outstanding");
    })
}

/// The executor's shared wake channel, created once at startup and living
/// for the whole application: the single resource that wake signals cross
/// threads on. Everything else the executor touches is owned by the ticking
/// thread alone.
pub struct WakeChannel {
    sender: crossbeam_channel::Sender<u64>,
    receiver: crossbeam_channel::Receiver<u64>,
}

/// Relies on crossbeam_channel::Sender::send: enqueues `id` without
/// blocking. The send is refused only when every receiver is gone, and the
/// channel here owns its one receiver, so while it is alive the send
/// always succeeds.
#[verifier::external_body]
fn send_through(c: &WakeChannel, id: u64) -> (ok: bool)
    ensures
        ok,
{
    match c.sender.send(id) {
        Ok(()) => true,
        Err(_) => false,
    }
}

impl WakeChannel {
    /// A fresh channel pair with nothing queued.
    pub fn new() -> (c: WakeChannel) {
        let pair = new_pair();
        WakeChannel { sender: pair.0, receiver: pair.1 }
    }

    /// Signals that entity `id` should be re-marked by a later Wake Phase.
    /// The channel owns its consumer end, so the signal always succeeds
    /// while the channel is alive; wakers made from detached producer
    /// clones are the only senders that can ever find the consumer gone.
    pub fn signal(&self, id: u64) -> (ok: bool)
        ensures
            ok,
    {
        send_through(self, id)
    }

    /// A clone of the producer end, for host integration points that
    /// deliver wake signals themselves.
    pub fn producer(&self) -> (s: crossbeam_channel::Sender<u64>) {
        clone_sender(&self.sender)
    }

    /// A waker bound to entity `id`, built fresh for one poll: every
    /// invocation, from any execution context and at any later time,
    /// enqueues `id` again; the channel absorbs them all.
    pub fn waker_for(&self, id: u64) -> (w: core::task::Waker) {
        waker_sending(clone_sender(&self.sender), id)
    }

    /// How many wake signals are queued at this moment. Take this snapshot
    /// before the tick's Poll Phase runs and hand it to [`Self::drain_upto`]
    /// in the Wake Phase: the Wake Phase then consumes only signals from
    /// before the tick, and a wake fired during a poll waits a full tick
    /// before it can cause a re-poll.
    pub fn queued(&self) -> (n: usize) {
        queued_now(&self.receiver)
    }

    /// The Wake Phase's drain: takes, without blocking and in queue order,
    /// at most `bound` queued ids — meant to be the count that
    /// [`Self::queued`] returned before the Poll Phase began, so that wakes
    /// signaled during the polls stay queued for the next tick.
    pub fn drain_upto(&self, bound: usize) -> (ids: Vec<u64>) {
        let mut ids: Vec<u64> = Vec::new();
        let mut i: usize = 0;
        while i < bound
            invariant
                i <= bound,
            decreases bound - i,
        {
            match try_recv_id(&self.receiver) {
                Some(id) => ids.push(id),
                None => {
                    return ids;
                },
            }
            i = i + 1;
        }
        ids
    }

    /// Drains the ids queued at this moment, snapshotting first: for hosts
    /// that call it when no polls ran since the snapshot would matter.
    pub fn drain(&self) -> (ids: Vec<u64>) {
        let bound = self.queued();
        self.drain_upto(bound)
    }
}

} // verus!
