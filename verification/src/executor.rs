//! The executor's protocol state: one slot per entity, a wake queue, and the
//! two-phase tick transition (Poll Phase, then Wake Phase).
use vstd::prelude::*;

use crate::Output;

verus! {

/// A deterministic suspend/resume computation, the executor's model of a
/// task: it suspends `remaining` more times before completing with `value`.
/// While suspended it may invoke its waker synchronously (`wake_on_pending`);
/// wakes from other execution contexts arrive through [`Executor::wake`].
pub struct Job<T> {
    /// How many polls still return a suspension before the job completes.
    pub remaining: u64,
    /// Whether the job invokes its own waker each time it suspends.
    pub wake_on_pending: bool,
    /// The value the job completes with.
    pub value: T,
}

/// The task-related component state of one entity.
pub struct Slot<T> {
    /// The task handle: present exactly while a computation is in flight.
    pub task: Option<Job<T>>,
    /// The wake marker: present exactly when the slot is scheduled to be
    /// polled on the next Poll Phase.
    pub awake: bool,
    /// The output component: present once the computation has completed.
    pub output: Option<Output<T>>,
}

/// The executor's full abstract state: the slots, keyed by entity id, and
/// the ids queued in the wake channel.
#[verifier::ext_equal]
pub ghost struct ExecState<T> {
    pub slots: Seq<Slot<T>>,
    pub queue: Seq<usize>,
}

/// One poll of a slot whose marker is set and whose task is present: the
/// marker is removed, and the task either completes (the output is attached
/// and the handle removed in the same step) or suspends with one fewer poll
/// to go.
pub open spec fn advance<T>(s: Slot<T>) -> Slot<T> {
    let job = s.task->Some_0;
    if job.remaining == 0 {
        Slot { task: None, awake: false, output: Some(Output(job.value)) }
    } else {
        Slot {
            task: Some(
                Job {
                    remaining: (job.remaining - 1) as u64,
                    wake_on_pending: job.wake_on_pending,
                    value: job.value,
                },
            ),
            awake: false,
            output: s.output,
        }
    }
}

/// What the Poll Phase does to one slot: a marked slot with a task is polled
/// once; a marked slot without a task only loses its stale marker (a wake
/// that arrived after completion is tolerated as a no-op); an unmarked slot
/// is untouched.
pub open spec fn poll_slot<T>(s: Slot<T>) -> Slot<T> {
    if s.awake {
        if s.task is Some {
            advance(s)
        } else {
            Slot { task: s.task, awake: false, output: s.output }
        }
    } else {
        s
    }
}

/// Whether this slot's poll during the current tick invokes its own waker,
/// i.e. enqueues its own id synchronously while suspending.
pub open spec fn emits_wake<T>(s: Slot<T>) -> bool {
    s.awake && s.task is Some && s.task->Some_0.remaining > 0 && s.task->Some_0.wake_on_pending
}

/// The slots after one full tick: the Poll Phase polls every marked slot
/// exactly once, then the Wake Phase drains exactly the ids that were
/// queued before the tick began and re-marks each one that names a slot.
/// Wakes signalled during the Poll Phase are not drained this tick: they
/// wait in the queue for the next tick's Wake Phase, so every woken task
/// gets a full tick of quiescence between wake and poll.
pub open spec fn tick_slots<T>(slots: Seq<Slot<T>>, queue: Seq<usize>) -> Seq<Slot<T>> {
    Seq::new(
        slots.len(),
        |i: int|
            {
                let p = poll_slot(slots[i]);
                Slot { task: p.task, awake: queue.contains(i as usize), output: p.output }
            },
    )
}

/// One full tick of the executor: Poll Phase, then Wake Phase. The Wake
/// Phase consumes the pre-tick queue; what remains queued afterwards is
/// exactly the synchronous self-wakes the Poll Phase emitted, which the
/// next tick's Wake Phase will drain.
pub open spec fn tick_state<T>(st: ExecState<T>) -> ExecState<T> {
    ExecState {
        slots: tick_slots(st.slots, st.queue),
        queue: emitted(st.slots, st.slots.len() as int),
    }
}

/// A wake signal for `id` reaching the channel between ticks.
pub open spec fn wake_state<T>(st: ExecState<T>, id: usize) -> ExecState<T> {
    ExecState { slots: st.slots, queue: st.queue.push(id) }
}

/// Spawning a job: a fresh slot holding the task handle and the wake marker,
/// so the task is eligible for the very next Poll Phase.
pub open spec fn spawn_state<T>(st: ExecState<T>, job: Job<T>) -> ExecState<T> {
    ExecState {
        slots: st.slots.push(Slot { task: Some(job), awake: true, output: None }),
        queue: st.queue,
    }
}

/// The state after `n` consecutive ticks with no interleaved wakes or spawns.
pub open spec fn run_ticks<T>(st: ExecState<T>, n: nat) -> ExecState<T>
    decreases n,
{
    if n == 0 {
        st
    } else {
        run_ticks(tick_state(st), (n - 1) as nat)
    }
}

/// The ids the Poll Phase enqueues through synchronous self-wakes, over the
/// first `n` slots, in slot order: what a tick leaves in the queue for the
/// next tick's Wake Phase to drain.
pub open spec fn emitted<T>(slots: Seq<Slot<T>>, n: int) -> Seq<usize>
    decreases n,
{
    if n <= 0 {
        Seq::empty()
    } else {
        emitted(slots, n - 1) + if emits_wake(slots[n - 1]) {
            seq![(n - 1) as usize]
        } else {
            Seq::empty()
        }
    }
}

/// Membership in a sequence extended by one element.
pub(crate) proof fn lemma_push_contains<A>(s: Seq<A>, v: A, x: A)
    ensures
        s.push(v).contains(x) <==> (s.contains(x) || x == v),
{
    if s.contains(x) {
        let i = choose|i: int| 0 <= i < s.len() && s[i] == x;
        assert(s.push(v)[i] == x);
    }
    if x == v {
        assert(s.push(v)[s.len() as int] == x);
    }
    if s.push(v).contains(x) {
        let i = choose|i: int| 0 <= i < s.push(v).len() && s.push(v)[i] == x;
        if i < s.len() {
            assert(s[i] == x);
        }
    }
}

/// Membership in a concatenation.
proof fn lemma_append_contains<A>(a: Seq<A>, b: Seq<A>, x: A)
    ensures
        (a + b).contains(x) <==> (a.contains(x) || b.contains(x)),
{
    if a.contains(x) {
        let i = choose|i: int| 0 <= i < a.len() && a[i] == x;
        assert((a + b)[i] == x);
    }
    if b.contains(x) {
        let i = choose|i: int| 0 <= i < b.len() && b[i] == x;
        assert((a + b)[a.len() + i] == x);
    }
    if (a + b).contains(x) {
        let i = choose|i: int| 0 <= i < (a + b).len() && (a + b)[i] == x;
        if i < a.len() {
            assert(a[i] == x);
        } else {
            assert(b[i - a.len()] == x);
        }
    }
}

/// The self-wake trace over the first `n` slots holds exactly the ids of
/// those slots whose poll invokes its own waker.
pub(crate) proof fn lemma_emitted_contains<T>(slots: Seq<Slot<T>>, n: int, x: usize)
    requires
        0 <= n <= slots.len(),
        n <= usize::MAX,
    ensures
        emitted(slots, n).contains(x) <==> (x < n && emits_wake(slots[x as int])),
    decreases n,
{
    if n > 0 {
        lemma_emitted_contains(slots, n - 1, x);
        if emits_wake(slots[n - 1]) {
            lemma_append_contains(emitted(slots, n - 1), seq![(n - 1) as usize], x);
            assert(seq![(n - 1) as usize][0] == (n - 1) as usize);
            assert(seq![(n - 1) as usize].contains(x) <==> x == (n - 1) as usize) by {
                if seq![(n - 1) as usize].contains(x) {
                    let i = choose|i: int|
                        0 <= i < 1 && #[trigger] seq![(n - 1) as usize][i] == x;
                    assert(i == 0);
                }
            }
        } else {
            assert(emitted(slots, n) =~= emitted(slots, n - 1));
        }
    }
}

/// Membership in a suffix that grows by one element at its front.
proof fn lemma_skip_one_contains<A>(s: Seq<A>, l: int, x: A)
    requires
        0 < l <= s.len(),
    ensures
        s.skip(l - 1).contains(x) <==> (x == s[l - 1] || s.skip(l).contains(x)),
{
    if x == s[l - 1] {
        assert(s.skip(l - 1)[0] == x);
    }
    if s.skip(l).contains(x) {
        let i = choose|i: int| 0 <= i < s.skip(l).len() && s.skip(l)[i] == x;
        assert(s.skip(l - 1)[i + 1] == x);
    }
    if s.skip(l - 1).contains(x) {
        let i = choose|i: int| 0 <= i < s.skip(l - 1).len() && #[trigger] s.skip(l - 1)[i] == x;
        if i > 0 {
            assert(s.skip(l)[i - 1] == x);
        }
    }
}

/// The executor: slots keyed by entity id (the index), plus the queue of ids
/// whose wakers fired since the last Wake Phase drained the channel.
pub struct Executor<T> {
    slots: Vec<Slot<T>>,
    queue: Vec<usize>,
}

impl<T> View for Executor<T> {
    type V = ExecState<T>;

    closed spec fn view(&self) -> ExecState<T> {
        ExecState { slots: self.slots@, queue: self.queue@ }
    }
}

impl<T> Executor<T> {
    /// An executor with no slots and an empty wake queue.
    pub fn new() -> (e: Self)
        ensures
            e@ == (ExecState::<T> { slots: Seq::empty(), queue: Seq::empty() }),
    {
        Executor { slots: Vec::new(), queue: Vec::new() }
    }

    /// Spawns `job` on a fresh entity and returns its id. The new slot holds
    /// the task handle and starts marked, so it is polled on the very next
    /// tick without any wake.
    pub fn spawn(&mut self, job: Job<T>) -> (id: usize)
        ensures
            final(self)@ == spawn_state(old(self)@, job),
            id == old(self)@.slots.len(),
    {
        let id = self.slots.len();
        self.slots.push(Slot { task: Some(job), awake: true, output: None });
        id
    }

    /// A wake signal for `id` reaching the channel. May be issued any number
    /// of times, for any id, including ids of completed or never-spawned
    /// slots: the next tick's Wake Phase tolerates all of them.
    pub fn wake(&mut self, id: usize)
        ensures
            final(self)@ == wake_state(old(self)@, id),
    {
        self.queue.push(id);
    }

    /// One full tick: the Poll Phase polls each marked slot exactly once,
    /// removing its marker first; a synchronous self-wake lands in a fresh
    /// buffer, not in the queue this tick drains. Then the Wake Phase
    /// drains exactly the ids that were queued before the tick began and
    /// re-marks each one that names a slot, scheduling it for the next
    /// tick; the buffered self-wakes become the new queue, drained one tick
    /// later. An id with no slot is ignored, and a stale marker on a
    /// completed slot is removed without polling anything.
    pub fn tick(&mut self)
        ensures
            final(self)@ == tick_state(old(self)@),
    {
        let ghost st0: ExecState<T> = self@;
        let n = self.slots.len();
        // Poll Phase
        let mut fired: Vec<usize> = Vec::new();
        let mut i: usize = 0;
        while i < n
            invariant
                i <= n,
                n == st0.slots.len(),
                self.slots@.len() == n,
                forall|j: int| 0 <= j < i ==> self.slots@[j] == poll_slot(st0.slots[j]),
                forall|j: int| i <= j < n ==> self.slots@[j] == st0.slots[j],
                self.queue@ == st0.queue,
                fired@ == emitted(st0.slots, i as int),
            decreases n - i,
        {
            let ghost pre: Slot<T> = self.slots@[i as int];
            let slot = &mut self.slots[i];
            let mut emit = false;
            if slot.awake {
                slot.awake = false;
                match slot.task.take() {
                    Some(job) => {
                        if job.remaining == 0 {
                            slot.output = Some(Output(job.value));
                        } else {
                            emit = job.wake_on_pending;
                            slot.task = Some(
                                Job {
                                    remaining: job.remaining - 1,
                                    wake_on_pending: job.wake_on_pending,
                                    value: job.value,
                                },
                            );
                        }
                    },
                    None => {},
                }
            }
            proof {
                assert(self.slots@[i as int] == poll_slot(pre));
                if emits_wake(pre) {
                    assert(emitted(st0.slots, i as int) + seq![i]
                        =~= emitted(st0.slots, i as int + 1));
                } else {
                    assert(emitted(st0.slots, i as int)
                        =~= emitted(st0.slots, i as int + 1));
                }
            }
            if emit {
                fired.push(i);
            }
            i = i + 1;
        }
        // Wake Phase: drain the pre-tick queue, marking every drained id
        // that names a slot.
        let ghost full_queue: Seq<usize> = self.queue@;
        proof {
            assert(self.queue@ =~= full_queue.take(self.queue@.len() as int));
            assert(full_queue.skip(self.queue@.len() as int) =~= Seq::<usize>::empty());
        }
        while self.queue.len() > 0
            invariant
                self.slots@.len() == n == st0.slots.len(),
                self.queue@ == full_queue.take(self.queue@.len() as int),
                self.queue@.len() <= full_queue.len(),
                forall|j: int| #![trigger self.slots@[j]]
                    0 <= j < n ==> {
                        let p = poll_slot(st0.slots[j]);
                        self.slots@[j].task == p.task && self.slots@[j].output == p.output
                            && (self.slots@[j].awake <==> full_queue.skip(
                            self.queue@.len() as int,
                        ).contains(j as usize))
                    },
            decreases self.queue.len(),
        {
            let ghost l: int = self.queue@.len() as int;
            let id = match self.queue.pop() {
                Some(id) => id,
                None => 0,
            };
            proof {
                assert(id == full_queue[l - 1]);
                assert(self.queue@ =~= full_queue.take(l - 1));
                assert forall|x: usize|
                    full_queue.skip(l - 1).contains(x) <==> (x == id || full_queue.skip(
                        l,
                    ).contains(x)) by {
                    lemma_skip_one_contains(full_queue, l, x);
                }
            }
            if id < n {
                let slot = &mut self.slots[id];
                slot.awake = true;
            }
        }
        // The self-wakes emitted during the Poll Phase stay queued for the
        // next tick's Wake Phase.
        self.queue = fired;
        proof {
            assert(full_queue.skip(0) =~= full_queue);
            assert forall|j: int| 0 <= j < n implies self.slots@[j] == tick_slots(
                st0.slots,
                st0.queue,
            )[j] by {
                let p = poll_slot(st0.slots[j]);
                assert(tick_slots(st0.slots, st0.queue)[j] == (Slot {
                    task: p.task,
                    awake: st0.queue.contains(j as usize),
                    output: p.output,
                }));
            }
            assert(self.slots@ =~= tick_slots(st0.slots, st0.queue));
        }
    }

    /// How many slots the executor holds.
    pub fn slot_count(&self) -> (n: usize)
        ensures
            n == self@.slots.len(),
    {
        self.slots.len()
    }

    /// Whether the slot still holds its task handle, i.e. its computation
    /// has not completed yet.
    pub fn has_task(&self, id: usize) -> (b: bool)
        requires
            id < self@.slots.len(),
        ensures
            b == (self@.slots[id as int].task is Some),
    {
        self.slots[id].task.is_some()
    }

    /// Whether the slot carries the wake marker, i.e. will be polled on the
    /// next tick.
    pub fn is_marked(&self, id: usize) -> (b: bool)
        requires
            id < self@.slots.len(),
        ensures
            b == self@.slots[id as int].awake,
    {
        self.slots[id].awake
    }

    /// How many more polls the slot's task needs before completing: `None`
    /// once the task handle is gone.
    pub fn pending_polls(&self, id: usize) -> (r: Option<u64>)
        requires
            id < self@.slots.len(),
        ensures
            r == (match self@.slots[id as int].task {
                Some(job) => Some(job.remaining),
                None => None::<u64>,
            }),
    {
        match &self.slots[id].task {
            Some(job) => Some(job.remaining),
            None => None,
        }
    }

    /// Removes and returns the slot's output component, if the task has
    /// completed and its output was not collected yet.
    pub fn take_output(&mut self, id: usize) -> (out: Option<Output<T>>)
        requires
            id < old(self)@.slots.len(),
        ensures
            out == old(self)@.slots[id as int].output,
            final(self)@.slots == old(self)@.slots.update(
                id as int,
                (Slot {
                    task: old(self)@.slots[id as int].task,
                    awake: old(self)@.slots[id as int].awake,
                    output: None,
                }),
            ),
            final(self)@.queue == old(self)@.queue,
    {
        let slot = &mut self.slots[id];
        slot.output.take()
    }
}

} // verus!
