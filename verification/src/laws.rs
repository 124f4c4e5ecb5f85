//! The executor's scheduling guarantees, stated and proved over the tick
//! transition of [`crate::executor`].
use vstd::prelude::*;

use crate::executor::advance;
use crate::executor::emits_wake;
use crate::executor::lemma_emitted_contains;
use crate::executor::lemma_push_contains;
use crate::executor::run_ticks;
use crate::executor::spawn_state;
use crate::executor::tick_slots;
use crate::executor::tick_state;
use crate::executor::wake_state;
use crate::executor::ExecState;
use crate::executor::Job;
use crate::executor::Slot;
use crate::Output;

verus! {

/// The tick left this slot's task untouched: no poll happened (the marker
/// may still have come or gone).
pub open spec fn unpolled<T>(before: Slot<T>, after: Slot<T>) -> bool {
    after.task == before.task && after.output == before.output
}

/// The tick polled this slot's task exactly once: its task and output are
/// those of a single suspend/resume step.
pub open spec fn polled_once<T>(before: Slot<T>, after: Slot<T>) -> bool {
    &&& before.task is Some
    &&& after.task == advance(before).task
    &&& after.output == advance(before).output
}

/// Law: at most one poll per tick. Across any single tick, each slot's task
/// is either untouched or advanced by exactly one poll, and a slot that
/// starts the tick unmarked, or without a task handle, is not polled at all.
pub proof fn lemma_at_most_one_poll_per_tick<T>(
    slots: Seq<Slot<T>>,
    queue: Seq<usize>,
    i: int,
)
    requires
        0 <= i < slots.len(),
    ensures
        unpolled(slots[i], tick_slots(slots, queue)[i]) || polled_once(
            slots[i],
            tick_slots(slots, queue)[i],
        ),
        (!slots[i].awake || slots[i].task is None) ==> unpolled(
            slots[i],
            tick_slots(slots, queue)[i],
        ),
{
}

/// Law: eventual delivery. A task that still needs `k` wakes — it suspends
/// `k` times, invoking its waker synchronously inside each suspending poll,
/// the earliest a wake can fire — completes on its `k + 1`-th poll. Each
/// self-wake is drained only by the following tick's Wake Phase, so the
/// polls fall two ticks apart: the task is still pending at every tick up
/// to `2k`, and at tick `2k + 1` the final poll attaches the output and
/// removes the handle in the same step.
pub proof fn lemma_eventual_delivery<T>(st: ExecState<T>, i: int, k: u64, v: T)
    requires
        0 <= i < st.slots.len(),
        st.slots.len() <= usize::MAX,
        st.slots[i].task == Some(Job { remaining: k, wake_on_pending: true, value: v }),
        st.slots[i].awake,
        !st.queue.contains(i as usize),
    ensures
        forall|m: nat|
            m <= 2 * k ==> (#[trigger] run_ticks(st, m)).slots[i].task is Some && run_ticks(
                st,
                m,
            ).slots[i].output == st.slots[i].output,
        run_ticks(st, (2 * k + 1) as nat).slots[i].task is None,
        run_ticks(st, (2 * k + 1) as nat).slots[i].output == Some(Output(v)),
    decreases k,
{
    let st1 = tick_state(st);
    assert(run_ticks(st, 0) == st);
    assert(run_ticks(st, 1) == run_ticks(st1, 0));
    if k == 0 {
        assert(st1.slots[i].task is None && st1.slots[i].output == Some(Output(v)));
    } else {
        // The first tick polls the task once; its self-wake is only queued,
        // so the slot comes out unmarked.
        assert(st1.slots[i] == (Slot {
            task: Some(Job { remaining: (k - 1) as u64, wake_on_pending: true, value: v }),
            awake: false,
            output: st.slots[i].output,
        }));
        lemma_emitted_contains(st.slots, st.slots.len() as int, i as usize);
        assert(st1.queue.contains(i as usize));
        // The second tick polls nothing here: it only drains the self-wake
        // and re-marks the slot.
        let st2 = tick_state(st1);
        assert(st2.slots[i] == (Slot {
            task: Some(Job { remaining: (k - 1) as u64, wake_on_pending: true, value: v }),
            awake: true,
            output: st.slots[i].output,
        }));
        lemma_emitted_contains(st1.slots, st1.slots.len() as int, i as usize);
        assert(!st2.queue.contains(i as usize));
        lemma_eventual_delivery(st2, i, (k - 1) as u64, v);
        assert forall|m: nat|
            2 <= m <= 2 * k implies (#[trigger] run_ticks(st, m)).slots[i].task is Some
            && run_ticks(st, m).slots[i].output == st.slots[i].output by {
            assert(run_ticks(st, m) == run_ticks(st1, (m - 1) as nat));
            assert(run_ticks(st1, (m - 1) as nat) == run_ticks(st2, (m - 2) as nat));
            assert((m - 2) as nat <= 2 * (k - 1));
        }
        assert(run_ticks(st, (2 * k + 1) as nat) == run_ticks(st1, (2 * k) as nat));
        assert(run_ticks(st1, (2 * k) as nat) == run_ticks(st2, (2 * k - 1) as nat));
        assert((2 * k - 1) as nat == (2 * (k - 1) + 1) as nat);
    }
}

/// Law: two-tick minimum wake latency. A wake signaled during tick N's
/// Poll Phase — here the task's own synchronous self-wake, the earliest
/// such signal — is drained only by tick N+1's Wake Phase: tick N+1 does
/// not poll the task at all, it merely re-marks it, so the earliest
/// re-poll the wake can cause is tick N+2's Poll Phase.
pub proof fn lemma_two_tick_latency<T>(st: ExecState<T>, i: int)
    requires
        0 <= i < st.slots.len(),
        st.slots.len() <= usize::MAX,
        emits_wake(st.slots[i]),
        !st.queue.contains(i as usize),
    ensures
        ({
            let st1 = tick_state(st);
            let st2 = tick_state(st1);
            polled_once(st.slots[i], st1.slots[i]) && !st1.slots[i].awake && unpolled(
                st1.slots[i],
                st2.slots[i],
            ) && st2.slots[i].awake
        }),
{
    lemma_emitted_contains(st.slots, st.slots.len() as int, i as usize);
}

/// Law: the same latency for an external wake. A wake reaching the channel
/// between ticks finds its task parked and unmarked; the next tick drains
/// the wake without polling the task — it only re-marks it — so here too a
/// full tick of quiescence separates the wake from the re-poll.
pub proof fn lemma_external_wake_latency<T>(st: ExecState<T>, i: int)
    requires
        0 <= i < st.slots.len(),
        !st.slots[i].awake,
    ensures
        ({
            let after = tick_state(wake_state(st, i as usize)).slots[i];
            unpolled(st.slots[i], after) && after.awake
        }),
{
    lemma_push_contains(st.queue, i as usize, i as usize);
}

/// Law: idempotent completion. Once a slot's task handle is gone — the task
/// completed, its output attached — no later tick ever polls that slot
/// again and its output never changes, whatever wake signals are queued for
/// it (a stale marker is only ever removed, never acted on).
pub proof fn lemma_idempotent_completion<T>(st: ExecState<T>, i: int, n: nat)
    requires
        0 <= i < st.slots.len(),
        st.slots[i].task is None,
    ensures
        run_ticks(st, n).slots.len() == st.slots.len(),
        run_ticks(st, n).slots[i].task is None,
        run_ticks(st, n).slots[i].output == st.slots[i].output,
    decreases n,
{
    if n > 0 {
        let st1 = tick_state(st);
        assert(st1.slots[i].task is None && st1.slots[i].output == st.slots[i].output);
        lemma_idempotent_completion(st1, i, (n - 1) as nat);
    }
}

/// Law: channel absorption. Duplicate wake signals for the same id queued
/// between two polls collapse: the tick that drains them produces exactly
/// the state it would have produced after a single signal, so the slot is
/// polled once, not twice.
pub proof fn lemma_channel_absorption<T>(st: ExecState<T>, id: usize)
    ensures
        tick_state(wake_state(wake_state(st, id), id)) == tick_state(wake_state(st, id)),
{
    let q1 = st.queue.push(id);
    let q2 = q1.push(id);
    assert forall|x: usize| #[trigger] q2.contains(x) == q1.contains(x) by {
        lemma_push_contains(q1, id, x);
        lemma_push_contains(st.queue, id, x);
    }
    assert forall|i: int| 0 <= i < st.slots.len() implies tick_slots(st.slots, q2)[i]
        == tick_slots(st.slots, q1)[i] by {
        assert(q2.contains(i as usize) == q1.contains(i as usize));
    }
    assert(tick_slots(st.slots, q2) =~= tick_slots(st.slots, q1));
}

/// Law: independent scheduling. What a tick does to one slot depends only
/// on that slot's own state and on whether its own id is queued: tasks on
/// other entities, whatever they do, cannot interfere with it.
pub proof fn lemma_slot_independence<T>(
    slots1: Seq<Slot<T>>,
    queue1: Seq<usize>,
    slots2: Seq<Slot<T>>,
    queue2: Seq<usize>,
    i: int,
)
    requires
        0 <= i < slots1.len(),
        0 <= i < slots2.len(),
        slots1[i] == slots2[i],
        queue1.contains(i as usize) == queue2.contains(i as usize),
    ensures
        tick_slots(slots1, queue1)[i] == tick_slots(slots2, queue2)[i],
{
}

/// Law: initial eligibility. A freshly spawned task is polled on the very
/// next Poll Phase, with no wake signal required: the spawn itself marks
/// the new slot.
pub proof fn lemma_initial_eligibility<T>(st: ExecState<T>, job: Job<T>)
    ensures
        ({
            let id = st.slots.len() as int;
            let spawned = spawn_state(st, job);
            polled_once(spawned.slots[id], tick_state(spawned).slots[id])
        }),
{
}

} // verus!
