//! The round-robin scheduler: owner of the fixed-capacity task table,
//! selector of the next runnable task on each timer tick, and the
//! preemption-decision point of the kernel.
//!
//! The heartbeat is effectively running in interrupt context: its caller —
//! the tick dispatch, through the interrupt-safe lock — already holds
//! interrupts masked, so the scheduler itself never toggles the interrupt
//! mask. The saved-context handles it stores and hands back are opaque to
//! it; only the external context-switch primitive interprets them.

use vstd::prelude::*;

use vstd::pervasive::VecAdditionalExecFns;

use crate::memory_layout::THREAD_TABLE_SIZE;
use crate::tasks::TaskState;

verus! {

/// Lifecycle state of one task-table slot.
#[derive(Debug, Copy, Clone, PartialEq, Eq, Structural)]
pub enum ThreadState {
    /// The slot has never held a task.
    Unused,
    /// The task is the one the CPU is executing.
    Running,
    /// The task is ready to be selected.
    Runnable,
    /// The task has exited; terminal.
    Dead,
}

/// One task-table slot: lifecycle state, the opaque saved-context handle,
/// and the top of the task's kernel stack, primed as the privileged stack
/// pointer when a switch to this slot commits.
#[derive(Debug, Copy, Clone, PartialEq, Eq, Structural)]
pub struct Thread {
    pub state: ThreadState,
    pub ctx: TaskState,
    pub kernel_stack_top: u64,
}

/// The slot value a fresh table is filled with.
pub open spec fn unused_thread() -> Thread {
    Thread { state: ThreadState::Unused, ctx: TaskState(0), kernel_stack_top: 0 }
}

/// Mathematical state of the scheduler: the index of the running task
/// (negative when none has ever run), the flag gating preemption, and the
/// task table.
#[verifier::ext_equal]
pub struct SchedulerView {
    pub current_thread: int,
    pub started: bool,
    pub threads: Seq<Thread>,
}

/// Well-formedness: the table has its fixed capacity and the current index
/// is in range or the before-start marker.
pub open spec fn sched_wf(v: SchedulerView) -> bool {
    &&& v.threads.len() == THREAD_TABLE_SIZE
    &&& -1 <= v.current_thread < THREAD_TABLE_SIZE
}

/// The slot index probed at the given offset of the round-robin scan:
/// slots are probed starting immediately after the current index, wrapping
/// around; before any task has run, from the start of the table.
pub open spec fn candidate_index(current: int, offset: int) -> int {
    if current < 0 {
        offset - 1
    } else {
        (current + offset) % (THREAD_TABLE_SIZE as int)
    }
}

/// The first Runnable slot probed at or after the given offset.
pub open spec fn find_runnable_from(threads: Seq<Thread>, current: int, offset: int) -> Option<
    int,
>
    decreases THREAD_TABLE_SIZE + 1 - offset,
{
    if offset > THREAD_TABLE_SIZE {
        None
    } else if threads[candidate_index(current, offset)].state == ThreadState::Runnable {
        Some(candidate_index(current, offset))
    } else {
        find_runnable_from(threads, current, offset + 1)
    }
}

/// The slot the round-robin scan selects: the first Runnable slot after
/// the current index, in strict cyclic order.
pub open spec fn next_runnable(v: SchedulerView) -> Option<int> {
    find_runnable_from(v.threads, v.current_thread, 1)
}

/// The table after a switch from the current slot to the chosen slot `i`:
/// the chosen slot is marked Running; the previously running slot, if any,
/// receives the preempted saved context and — only if it was still Running
/// — is demoted to Runnable, so that a slot an exit path marked Dead stays
/// Dead.
pub open spec fn switched_threads(pre: SchedulerView, i: int, prev: TaskState) -> Seq<Thread> {
    let marked = pre.threads.update(
        i,
        Thread {
            state: ThreadState::Running,
            ctx: pre.threads[i].ctx,
            kernel_stack_top: pre.threads[i].kernel_stack_top,
        },
    );
    if pre.current_thread >= 0 {
        let c = pre.current_thread;
        let demoted_state = if marked[c].state == ThreadState::Running {
            ThreadState::Runnable
        } else {
            marked[c].state
        };
        marked.update(
            c,
            Thread { state: demoted_state, ctx: prev, kernel_stack_top: marked[c].kernel_stack_top },
        )
    } else {
        marked
    }
}

/// The whole behavior of one heartbeat: before `start`, with no Runnable
/// slot, or when the selected slot is the one already running, the
/// preempted context passes through unchanged and nothing moves; otherwise
/// the scheduler switches to the selected slot and hands back its saved
/// context.
pub open spec fn heartbeat_rel(
    pre: SchedulerView,
    prev: TaskState,
    post: SchedulerView,
    next: TaskState,
) -> bool {
    if !pre.started {
        post == pre && next == prev
    } else {
        match next_runnable(pre) {
            None => post == pre && next == prev,
            Some(i) => {
                if i == pre.current_thread {
                    post == pre && next == prev
                } else {
                    &&& next == pre.threads[i].ctx
                    &&& post.started == pre.started
                    &&& post.current_thread == i
                    &&& post.threads == switched_threads(pre, i, prev)
                }
            },
        }
    }
}

/// The scheduler state with the currently running slot marked Dead, as an
/// exiting task leaves it before the hand-off.
pub open spec fn with_current_dead(v: SchedulerView) -> SchedulerView {
    SchedulerView {
        threads: v.threads.update(
            v.current_thread,
            Thread {
                state: ThreadState::Dead,
                ctx: v.threads[v.current_thread].ctx,
                kernel_stack_top: v.threads[v.current_thread].kernel_stack_top,
            },
        ),
        ..v
    }
}

/// How many probes of the round-robin scan it takes to reach slot `j`
/// from the current index: the position of `j` in the cyclic probe order.
pub open spec fn cyclic_distance(current: int, j: int) -> int {
    if current < 0 {
        j + 1
    } else if j > current {
        j - current
    } else {
        j - current + THREAD_TABLE_SIZE
    }
}

/// The probe at a slot's cyclic distance reaches exactly that slot.
proof fn lemma_candidate_of_distance(current: int, j: int)
    requires
        -1 <= current < THREAD_TABLE_SIZE,
        0 <= j < THREAD_TABLE_SIZE,
    ensures
        1 <= cyclic_distance(current, j) <= THREAD_TABLE_SIZE,
        candidate_index(current, cyclic_distance(current, j)) == j,
{
}

proof fn lemma_order_from(threads: Seq<Thread>, current: int, offset: int, j: int)
    requires
        threads.len() == THREAD_TABLE_SIZE,
        -1 <= current < THREAD_TABLE_SIZE,
        1 <= offset <= THREAD_TABLE_SIZE,
        0 <= j < THREAD_TABLE_SIZE,
        threads[j].state == ThreadState::Runnable,
        cyclic_distance(current, j) >= offset,
    ensures
        match find_runnable_from(threads, current, offset) {
            Some(i) => 0 <= i < THREAD_TABLE_SIZE && cyclic_distance(current, i)
                <= cyclic_distance(current, j),
            None => false,
        },
    decreases THREAD_TABLE_SIZE + 1 - offset,
{
    lemma_candidate_of_distance(current, j);
    let cand = candidate_index(current, offset);
    if threads[cand].state == ThreadState::Runnable {
        assert(cyclic_distance(current, cand) == offset);
    } else {
        assert(cand != j);
        assert(cyclic_distance(current, j) != offset) by {
            if cyclic_distance(current, j) == offset {
                assert(candidate_index(current, offset) == j);
            }
        }
        lemma_order_from(threads, current, offset + 1, j);
    }
}

/// Round-robin order: the scan selects the Runnable slot nearest in
/// cyclic probe order after the current index — no Runnable slot is ever
/// skipped in favor of a farther one, so repeated heartbeats under
/// unchanged load visit the Runnable slots in increasing cyclic order.
pub proof fn lemma_round_robin_order(v: SchedulerView, i: int, j: int)
    requires
        sched_wf(v),
        next_runnable(v) == Some(i),
        0 <= j < THREAD_TABLE_SIZE,
        v.threads[j].state == ThreadState::Runnable,
    ensures
        cyclic_distance(v.current_thread, i) <= cyclic_distance(v.current_thread, j),
{
    lemma_candidate_of_distance(v.current_thread, j);
    lemma_order_from(v.threads, v.current_thread, 1, j);
}

proof fn lemma_find_runnable_is_runnable(threads: Seq<Thread>, current: int, offset: int)
    requires
        threads.len() == THREAD_TABLE_SIZE,
        -1 <= current < THREAD_TABLE_SIZE,
        1 <= offset,
    ensures
        match find_runnable_from(threads, current, offset) {
            Some(i) => 0 <= i < THREAD_TABLE_SIZE && threads[i].state == ThreadState::Runnable,
            None => true,
        },
    decreases THREAD_TABLE_SIZE + 1 - offset,
{
    if offset > THREAD_TABLE_SIZE {
    } else if threads[candidate_index(current, offset)].state == ThreadState::Runnable {
    } else {
        lemma_find_runnable_is_runnable(threads, current, offset + 1);
    }
}

/// The scan only ever selects a Runnable slot.
pub proof fn lemma_selected_is_runnable(v: SchedulerView)
    requires
        sched_wf(v),
    ensures
        match next_runnable(v) {
            Some(i) => 0 <= i < THREAD_TABLE_SIZE && v.threads[i].state == ThreadState::Runnable,
            None => true,
        },
{
    lemma_find_runnable_is_runnable(v.threads, v.current_thread, 1);
}

/// With no Runnable slot anywhere the scan selects nothing.
pub proof fn lemma_no_runnable_selects_none(v: SchedulerView)
    requires
        sched_wf(v),
        forall|q: int|
            0 <= q < THREAD_TABLE_SIZE ==> (#[trigger] v.threads[q].state)
                != ThreadState::Runnable,
    ensures
        next_runnable(v) is None,
{
    lemma_selected_is_runnable(v);
}

/// When the only Runnable slot is the one already running, the scan comes
/// all the way around and selects it again.
pub proof fn lemma_only_current_runnable(v: SchedulerView)
    requires
        sched_wf(v),
        v.current_thread >= 0,
        v.threads[v.current_thread].state == ThreadState::Runnable,
        forall|q: int|
            0 <= q < THREAD_TABLE_SIZE && q != v.current_thread ==> (
            #[trigger] v.threads[q].state) != ThreadState::Runnable,
    ensures
        next_runnable(v) == Some(v.current_thread),
{
    lemma_selected_is_runnable(v);
    lemma_candidate_of_distance(v.current_thread, v.current_thread);
    lemma_order_from(v.threads, v.current_thread, 1, v.current_thread);
    match next_runnable(v) {
        Some(i) => {
            assert(v.threads[i].state == ThreadState::Runnable);
            assert(i == v.current_thread);
        },
        None => {
            assert(false);
        },
    }
}

/// Uniform load: no slot is Dead, and only the current slot may be the
/// Running one — the shape repeated preemption keeps when no task ever
/// exits.
pub open spec fn uniform_load(v: SchedulerView) -> bool {
    &&& forall|q: int|
        0 <= q < THREAD_TABLE_SIZE ==> (#[trigger] v.threads[q].state) != ThreadState::Dead
    &&& forall|q: int|
        0 <= q < THREAD_TABLE_SIZE && (#[trigger] v.threads[q].state) == ThreadState::Running
            ==> q == v.current_thread
}

/// A slot takes part in the rotation when it holds a live task.
pub open spec fn live_slot(v: SchedulerView, q: int) -> bool {
    v.threads[q].state == ThreadState::Runnable || v.threads[q].state == ThreadState::Running
}

/// Round-robin fairness under uniform load, one step: a heartbeat that
/// switches keeps the set of live slots exactly as it was, keeps the load
/// uniform, and moves the current index to the live slot nearest in
/// cyclic order — so repeated heartbeats hand the CPU around the live
/// slots in increasing cyclic order, reaching every one of them once per
/// full rotation, as the cyclic-distance bound here pins down.
pub proof fn lemma_round_robin_uniform_step(
    pre: SchedulerView,
    prev: TaskState,
    post: SchedulerView,
    next: TaskState,
    i: int,
)
    requires
        sched_wf(pre),
        pre.started,
        uniform_load(pre),
        heartbeat_rel(pre, prev, post, next),
        next_runnable(pre) == Some(i),
        i != pre.current_thread,
    ensures
        post.current_thread == i,
        uniform_load(post),
        forall|q: int| 0 <= q < THREAD_TABLE_SIZE ==> (live_slot(post, q) <==> live_slot(pre, q)),
        forall|q: int|
            0 <= q < THREAD_TABLE_SIZE && q != pre.current_thread && live_slot(pre, q)
                ==> cyclic_distance(pre.current_thread, i) <= cyclic_distance(
                pre.current_thread,
                q,
            ),
{
    lemma_selected_is_runnable(pre);
    assert forall|q: int|
        0 <= q < THREAD_TABLE_SIZE && q != pre.current_thread && live_slot(
            pre,
            q,
        ) implies cyclic_distance(pre.current_thread, i) <= cyclic_distance(
        pre.current_thread,
        q,
    ) by {
        assert(pre.threads[q].state == ThreadState::Runnable);
        lemma_round_robin_order(pre, i, q);
    }
}

/// A run of consecutive heartbeats: step `t` takes `states[t]` with the
/// preempted context `prevs[t]` to `states[t + 1]`, handing back
/// `nexts[t]`.
pub open spec fn heartbeat_chain(
    states: Seq<SchedulerView>,
    prevs: Seq<TaskState>,
    nexts: Seq<TaskState>,
) -> bool {
    &&& states.len() >= 1
    &&& prevs.len() == states.len() - 1
    &&& nexts.len() == states.len() - 1
    &&& forall|t: int|
        #![trigger states[t], states[t + 1]]
        0 <= t < states.len() - 1 ==> heartbeat_rel(states[t], prevs[t], states[t + 1], nexts[t])
}

/// Under uniform load with a second live slot, a heartbeat always finds a
/// slot other than the running one: the scan reaches the other live slot
/// in fewer than a full lap, so it never settles on the current index.
pub proof fn lemma_two_live_forces_switch(v: SchedulerView)
    requires
        sched_wf(v),
        uniform_load(v),
        v.current_thread >= 0,
        exists|a: int, b: int|
            0 <= a < THREAD_TABLE_SIZE && 0 <= b < THREAD_TABLE_SIZE && a != b
                && #[trigger] live_pair(v, a, b),
    ensures
        match next_runnable(v) {
            Some(i) => i != v.current_thread,
            None => false,
        },
{
    let c = v.current_thread;
    let (a, b): (int, int) = choose|a: int, b: int|
        0 <= a < THREAD_TABLE_SIZE && 0 <= b < THREAD_TABLE_SIZE && a != b
            && #[trigger] live_pair(v, a, b);
    let q = if a != c {
        a
    } else {
        b
    };
    assert(live_slot(v, q) && q != c);
    assert(v.threads[q].state == ThreadState::Runnable);
    lemma_candidate_of_distance(c, q);
    assert(cyclic_distance(c, q) < THREAD_TABLE_SIZE);
    lemma_order_from(v.threads, c, 1, q);
    match next_runnable(v) {
        Some(i) => {
            if i == c {
                lemma_candidate_of_distance(c, c);
                assert(cyclic_distance(c, i) <= cyclic_distance(c, q));
            }
        },
        None => {},
    }
}

/// Both members of a pair of slots are live; a named shape for the
/// two-live-slots hypothesis.
pub open spec fn live_pair(v: SchedulerView, a: int, b: int) -> bool {
    live_slot(v, a) && live_slot(v, b)
}

/// One switching step seen from a fixed reference slot `c0` that is live
/// and not the running one: the selection lands strictly farther from
/// `c0` than the running slot, and lands on the nearest live slot beyond
/// it.
proof fn lemma_step_ahead(v: SchedulerView, c0: int, i: int)
    requires
        sched_wf(v),
        uniform_load(v),
        0 <= c0 < THREAD_TABLE_SIZE,
        live_slot(v, c0),
        v.current_thread >= 0,
        v.current_thread != c0,
        next_runnable(v) == Some(i),
        i != v.current_thread,
    ensures
        0 <= i < THREAD_TABLE_SIZE,
        cyclic_distance(c0, i) > cyclic_distance(c0, v.current_thread),
        forall|q: int|
            0 <= q < THREAD_TABLE_SIZE && live_slot(v, q) && cyclic_distance(c0, q)
                > cyclic_distance(c0, v.current_thread) ==> cyclic_distance(c0, i)
                <= cyclic_distance(c0, q),
{
    let c = v.current_thread;
    lemma_selected_is_runnable(v);
    assert(v.threads[c0].state == ThreadState::Runnable);
    lemma_round_robin_order(v, i, c0);
    lemma_candidate_of_distance(c0, c);
    lemma_candidate_of_distance(c0, i);
    lemma_candidate_of_distance(c, c0);
    lemma_candidate_of_distance(c, i);
    assert(cyclic_distance(c, c0) == THREAD_TABLE_SIZE - cyclic_distance(c0, c));
    if cyclic_distance(c0, i) <= cyclic_distance(c0, c) {
        assert(cyclic_distance(c, i) == cyclic_distance(c0, i) - cyclic_distance(c0, c)
            + THREAD_TABLE_SIZE);
        assert(false);
    }
    assert forall|q: int|
        0 <= q < THREAD_TABLE_SIZE && live_slot(v, q) && cyclic_distance(c0, q)
            > cyclic_distance(c0, c) implies cyclic_distance(c0, i) <= cyclic_distance(
        c0,
        q,
    ) by {
        if q != c && q != i {
            assert(v.threads[q].state == ThreadState::Runnable);
            lemma_round_robin_order(v, i, q);
            lemma_candidate_of_distance(c0, q);
            lemma_candidate_of_distance(c, q);
            assert(cyclic_distance(c, q) == cyclic_distance(c0, q) - cyclic_distance(c0, c));
            assert(cyclic_distance(c, i) == cyclic_distance(c0, i) - cyclic_distance(c0, c));
        }
    }
}

/// Every state of a heartbeat run stays well formed, started and
/// uniformly loaded, with the same live slots throughout.
proof fn lemma_chain_invariants(
    states: Seq<SchedulerView>,
    prevs: Seq<TaskState>,
    nexts: Seq<TaskState>,
)
    requires
        heartbeat_chain(states, prevs, nexts),
        sched_wf(states[0]),
        states[0].started,
        uniform_load(states[0]),
    ensures
        forall|t: int|
            0 <= t < states.len() ==> sched_wf(#[trigger] states[t]) && states[t].started
                && uniform_load(states[t]),
        forall|t: int, q: int|
            0 <= t < states.len() && 0 <= q < THREAD_TABLE_SIZE ==> (#[trigger] live_slot(
                states[t],
                q,
            ) <==> live_slot(states[0], q)),
    decreases states.len(),
{
    let m = states.len() - 1;
    if m <= 0 {
        return ;
    }
    let head = states.take(m);
    assert(heartbeat_chain(head, prevs.take(m - 1), nexts.take(m - 1)));
    lemma_chain_invariants(head, prevs.take(m - 1), nexts.take(m - 1));
    assert(forall|t: int| 0 <= t < m ==> #[trigger] states[t] == head[t]);

    let k = m - 1;
    let pre = states[k];
    let post = states[k + 1];
    assert(states[k + 1] == states[m]);
    assert(heartbeat_rel(states[k], prevs[k], states[k + 1], nexts[k]));
    match next_runnable(pre) {
        None => {},
        Some(i) => {
            if i != pre.current_thread {
                lemma_round_robin_uniform_step(pre, prevs[k], post, nexts[k], i);
                lemma_selected_is_runnable(pre);
            }
        },
    }
}

/// Distances of successive visits grow, so any two visits differ.
proof fn lemma_distance_monotone(states: Seq<SchedulerView>, c0: int, t: int, u: int)
    requires
        forall|k: int|
            #![trigger states[k], states[k + 1]]
            1 <= k < states.len() - 1 ==> cyclic_distance(c0, states[k].current_thread)
                < cyclic_distance(c0, states[k + 1].current_thread),
        1 <= t < u < states.len(),
    ensures
        cyclic_distance(c0, states[t].current_thread) < cyclic_distance(
            c0,
            states[u].current_thread,
        ),
    decreases u - t,
{
    let k = u - 1;
    if u > t + 1 {
        lemma_distance_monotone(states, c0, t, k);
    }
    assert(cyclic_distance(c0, states[k].current_thread) < cyclic_distance(
        c0,
        states[k + 1].current_thread,
    ));
    assert(states[k + 1] == states[u]);
}

/// Every step of a switching run is taken by the round-robin selection
/// and lands on a live slot.
proof fn lemma_chain_selection(
    states: Seq<SchedulerView>,
    prevs: Seq<TaskState>,
    nexts: Seq<TaskState>,
)
    requires
        heartbeat_chain(states, prevs, nexts),
        sched_wf(states[0]),
        states[0].started,
        uniform_load(states[0]),
        forall|t: int|
            #![trigger states[t], states[t + 1]]
            0 <= t < states.len() - 1 ==> states[t + 1].current_thread != states[
                t
            ].current_thread,
    ensures
        forall|t: int|
            #![trigger states[t], states[t + 1]]
            0 <= t < states.len() - 1 ==> next_runnable(states[t]) == Some(
                states[t + 1].current_thread,
            ) && 0 <= states[t + 1].current_thread < THREAD_TABLE_SIZE && live_slot(
                states[t],
                states[t + 1].current_thread,
            ),
{
    lemma_chain_invariants(states, prevs, nexts);
    assert forall|t: int|
        #![trigger states[t], states[t + 1]]
        0 <= t < states.len() - 1 implies next_runnable(states[t]) == Some(
        states[t + 1].current_thread,
    ) && 0 <= states[t + 1].current_thread < THREAD_TABLE_SIZE && live_slot(
        states[t],
        states[t + 1].current_thread,
    ) by {
        let pre = states[t];
        let post = states[t + 1];
        assert(heartbeat_rel(states[t], prevs[t], states[t + 1], nexts[t]));
        match next_runnable(pre) {
            None => {
                assert(post == pre);
            },
            Some(i) => {
                if i == pre.current_thread {
                    assert(post == pre);
                } else {
                    lemma_selected_is_runnable(pre);
                }
            },
        }
    }
}

/// Later steps of a run within one rotation, given only the per-state
/// facts of the run: each moves strictly outward from the starting slot
/// `c0` and never jumps over a live slot.
#[verifier::spinoff_prover]
proof fn lemma_steps_ahead_inner(states: Seq<SchedulerView>, c0: int)
    requires
        states.len() >= 1,
        forall|t: int|
            0 <= t < states.len() ==> sched_wf(#[trigger] states[t]) && uniform_load(states[t]),
        forall|t: int, q: int|
            0 <= t < states.len() && 0 <= q < THREAD_TABLE_SIZE ==> (#[trigger] live_slot(
                states[t],
                q,
            ) <==> live_slot(states[0], q)),
        forall|t: int|
            #![trigger states[t], states[t + 1]]
            0 <= t < states.len() - 1 ==> next_runnable(states[t]) == Some(
                states[t + 1].current_thread,
            ) && 0 <= states[t + 1].current_thread < THREAD_TABLE_SIZE && states[
                t + 1
            ].current_thread != states[t].current_thread,
        states[0].current_thread == c0,
        0 <= c0 < THREAD_TABLE_SIZE,
        live_slot(states[0], c0),
        forall|t: int| 1 <= t < states.len() - 1 ==> #[trigger] states[t].current_thread != c0,
    ensures
        forall|t: int|
            #![trigger states[t], states[t + 1]]
            1 <= t < states.len() - 1 ==> cyclic_distance(c0, states[t].current_thread)
                < cyclic_distance(c0, states[t + 1].current_thread),
        forall|t: int, q: int|
            #![trigger states[t], states[t + 1], live_slot(states[0], q)]
            1 <= t < states.len() - 1 && 0 <= q < THREAD_TABLE_SIZE && live_slot(states[0], q)
                && cyclic_distance(c0, q) > cyclic_distance(c0, states[t].current_thread)
                ==> cyclic_distance(c0, states[t + 1].current_thread) <= cyclic_distance(c0, q),
{
    assert forall|t: int|
        #![trigger states[t], states[t + 1]]
        1 <= t < states.len() - 1 implies cyclic_distance(c0, states[t].current_thread)
        < cyclic_distance(c0, states[t + 1].current_thread) by {
        let k = t - 1;
        assert(next_runnable(states[k]) == Some(states[k + 1].current_thread));
        assert(states[k + 1] == states[t]);
        assert(live_slot(states[t], c0));
        assert(0 <= states[t].current_thread < THREAD_TABLE_SIZE);
        lemma_step_ahead(states[t], c0, states[t + 1].current_thread);
    }
    assert forall|t: int, q: int|
        #![trigger states[t], states[t + 1], live_slot(states[0], q)]
        1 <= t < states.len() - 1 && 0 <= q < THREAD_TABLE_SIZE && live_slot(states[0], q)
            && cyclic_distance(c0, q) > cyclic_distance(c0, states[t].current_thread)
        implies cyclic_distance(c0, states[t + 1].current_thread) <= cyclic_distance(c0, q) by {
        let k = t - 1;
        assert(next_runnable(states[k]) == Some(states[k + 1].current_thread));
        assert(states[k + 1] == states[t]);
        assert(live_slot(states[t], c0));
        assert(live_slot(states[t], q));
        assert(0 <= states[t].current_thread < THREAD_TABLE_SIZE);
        lemma_step_ahead(states[t], c0, states[t + 1].current_thread);
    }
}

/// Round-robin fairness under uniform load, over a whole run: starting
/// from a live current slot `c0`, as long as every heartbeat switches and
/// the rotation has not come back around to `c0`, every visited slot is
/// live; the first visit is the live slot nearest `c0`; the visits grow
/// strictly in cyclic distance from `c0`, so no slot is visited twice
/// within the rotation; and no live slot lies strictly between two
/// consecutive visits, so none is skipped. Together: a run of as many
/// switching calls as there are live slots visits every live slot exactly
/// once, in increasing cyclic order from the starting index.
pub proof fn lemma_round_robin_rotation(
    states: Seq<SchedulerView>,
    prevs: Seq<TaskState>,
    nexts: Seq<TaskState>,
    c0: int,
)
    requires
        heartbeat_chain(states, prevs, nexts),
        sched_wf(states[0]),
        states[0].started,
        uniform_load(states[0]),
        states[0].current_thread == c0,
        0 <= c0 < THREAD_TABLE_SIZE,
        live_slot(states[0], c0),
        forall|t: int|
            #![trigger states[t], states[t + 1]]
            0 <= t < states.len() - 1 ==> states[t + 1].current_thread != states[
                t
            ].current_thread,
        forall|t: int| 1 <= t < states.len() - 1 ==> #[trigger] states[t].current_thread != c0,
    ensures
        forall|t: int|
            1 <= t < states.len() ==> 0 <= #[trigger] states[t].current_thread
                < THREAD_TABLE_SIZE && live_slot(states[0], states[t].current_thread),
        states.len() >= 2 ==> forall|q: int|
            0 <= q < THREAD_TABLE_SIZE && #[trigger] live_slot(states[0], q) && q != c0
                ==> cyclic_distance(c0, states[1].current_thread) <= cyclic_distance(c0, q),
        forall|t: int, u: int|
            1 <= t < u < states.len() ==> cyclic_distance(c0, #[trigger] states[t].current_thread)
                < cyclic_distance(c0, #[trigger] states[u].current_thread),
        forall|t: int, q: int|
            #![trigger states[t], states[t + 1], live_slot(states[0], q)]
            1 <= t < states.len() - 1 && 0 <= q < THREAD_TABLE_SIZE && live_slot(states[0], q)
                ==> !(cyclic_distance(c0, states[t].current_thread) < cyclic_distance(
                c0,
                q,
            ) < cyclic_distance(c0, states[t + 1].current_thread)),
{
    lemma_chain_invariants(states, prevs, nexts);
    lemma_chain_selection(states, prevs, nexts);
    lemma_steps_ahead_inner(states, c0);

    assert forall|t: int|
        1 <= t < states.len() implies 0 <= #[trigger] states[t].current_thread
        < THREAD_TABLE_SIZE && live_slot(states[0], states[t].current_thread) by {
        let k = t - 1;
        assert(next_runnable(states[k]) == Some(states[k + 1].current_thread));
        assert(live_slot(states[k], states[k + 1].current_thread));
        assert(states[k + 1] == states[t]);
        assert(live_slot(states[0], states[t].current_thread));
    }

    if states.len() >= 2 {
        let k: int = 0;
        assert(next_runnable(states[k]) == Some(states[k + 1].current_thread));
        assert(states[k] == states[0] && states[k + 1] == states[1]);
        assert forall|q: int|
            0 <= q < THREAD_TABLE_SIZE && #[trigger] live_slot(states[0], q) && q != c0
                implies cyclic_distance(c0, states[1].current_thread) <= cyclic_distance(
            c0,
            q,
        ) by {
            assert(states[0].threads[q].state == ThreadState::Runnable);
            lemma_round_robin_order(states[0], states[1].current_thread, q);
        }
    }

    assert forall|t: int, u: int|
        1 <= t < u < states.len() implies cyclic_distance(
        c0,
        #[trigger] states[t].current_thread,
    ) < cyclic_distance(c0, #[trigger] states[u].current_thread) by {
        lemma_distance_monotone(states, c0, t, u);
    }
}

/// No-op heartbeat conditions: a heartbeat returns its input unchanged
/// and moves nothing when the scheduler has not been started, when no
/// slot is Runnable, or when the selected slot is the one already
/// running — in particular when exactly one task exists.
pub proof fn lemma_heartbeat_noop(
    pre: SchedulerView,
    prev: TaskState,
    post: SchedulerView,
    next: TaskState,
)
    requires
        sched_wf(pre),
        heartbeat_rel(pre, prev, post, next),
        !pre.started || next_runnable(pre) is None || next_runnable(pre) == Some(
            pre.current_thread,
        ),
    ensures
        post == pre,
        next == prev,
{
}

/// Exit removes from rotation: a Dead slot is never selected by a
/// heartbeat, and every heartbeat leaves it Dead, so once a task exits
/// its slot never runs again.
pub proof fn lemma_exit_removes_from_rotation(
    pre: SchedulerView,
    prev: TaskState,
    post: SchedulerView,
    next: TaskState,
    i: int,
)
    requires
        sched_wf(pre),
        heartbeat_rel(pre, prev, post, next),
        0 <= i < THREAD_TABLE_SIZE,
        pre.threads[i].state == ThreadState::Dead,
    ensures
        next_runnable(pre) != Some(i),
        post.threads[i].state == ThreadState::Dead,
{
    lemma_selected_is_runnable(pre);
}

/// Why a task could not be created.
#[derive(Debug, Copy, Clone, PartialEq, Eq, Structural)]
pub enum SchedulerError {
    /// Every slot of the fixed-capacity table is in use: a hard capacity
    /// limit.
    NoUnusedThread,
}

/// The round-robin scheduler.
pub struct Scheduler {
    current_thread: i32,
    started: bool,
    threads: Vec<Thread>,
}

impl View for Scheduler {
    type V = SchedulerView;

    closed spec fn view(&self) -> SchedulerView {
        SchedulerView {
            current_thread: self.current_thread as int,
            started: self.started,
            threads: self.threads@,
        }
    }
}

impl Scheduler {
    /// A fresh scheduler: an all-Unused table, no current task, preemption
    /// gated off until `start`.
    #[verifier::loop_isolation(false)]
    pub fn new() -> (r: Scheduler)
        ensures
            sched_wf(r@),
            r@.current_thread == -1,
            !r@.started,
            forall|i: int| 0 <= i < THREAD_TABLE_SIZE ==> r@.threads[i] == unused_thread(),
    {
        let mut threads: Vec<Thread> = Vec::new();
        let mut i: usize = 0;
        while i < THREAD_TABLE_SIZE
            invariant
                i == threads@.len(),
                i <= THREAD_TABLE_SIZE,
                forall|q: int| 0 <= q < i ==> threads@[q] == unused_thread(),
            decreases THREAD_TABLE_SIZE - i,
        {
            threads.push(
                Thread { state: ThreadState::Unused, ctx: TaskState(0), kernel_stack_top: 0 },
            );
            i = i + 1;
        }
        Scheduler { current_thread: -1, started: false, threads }
    }

    /// Gates preemption on: from now on each heartbeat actually switches
    /// tasks. The idle hand-off loop around it belongs to the boot
    /// sequence.
    pub fn start(&mut self)
        requires
            sched_wf(old(self)@),
        ensures
            sched_wf(final(self)@),
            final(self)@.started,
            final(self)@.current_thread == old(self)@.current_thread,
            final(self)@.threads == old(self)@.threads,
    {
        self.started = true;
    }

    /// Whether preemption has been gated on.
    pub fn started(&self) -> (r: bool)
        ensures
            r == self@.started,
    {
        self.started
    }

    /// Index of the currently running slot, negative when none has ever
    /// run.
    pub fn current_thread(&self) -> (r: i32)
        ensures
            r == self@.current_thread,
    {
        self.current_thread
    }

    /// Lifecycle state of one slot.
    pub fn thread_state(&self, index: usize) -> (r: ThreadState)
        requires
            sched_wf(self@),
            index < THREAD_TABLE_SIZE,
        ensures
            r == self@.threads[index as int].state,
    {
        self.threads[index].state
    }

    /// The kernel stack top of the currently running slot, to be primed as
    /// the privileged stack pointer; nothing before the first switch.
    pub fn current_kernel_stack_top(&self) -> (r: Option<u64>)
        requires
            sched_wf(self@),
        ensures
            match r {
                Some(top) => self@.current_thread >= 0 && top == self@.threads[self@.current_thread].kernel_stack_top,
                None => self@.current_thread < 0,
            },
    {
        if self.current_thread >= 0 {
            Some(self.threads[self.current_thread as usize].kernel_stack_top)
        } else {
            None
        }
    }

    /// The first slot that has never held a task, scanning from the start
    /// of the table.
    #[verifier::loop_isolation(false)]
    pub fn find_first_unused_thread(&self) -> (r: Option<usize>)
        requires
            sched_wf(self@),
        ensures
            match r {
                Some(i) => {
                    &&& 0 <= i < THREAD_TABLE_SIZE
                    &&& self@.threads[i as int].state == ThreadState::Unused
                    &&& forall|q: int|
                        0 <= q < i ==> self@.threads[q].state != ThreadState::Unused
                },
                None => forall|q: int|
                    0 <= q < THREAD_TABLE_SIZE ==> self@.threads[q].state != ThreadState::Unused,
            },
    {
        let mut i: usize = 0;
        while i < THREAD_TABLE_SIZE
            invariant
                i <= THREAD_TABLE_SIZE,
                forall|q: int| 0 <= q < i ==> self@.threads[q].state != ThreadState::Unused,
            decreases THREAD_TABLE_SIZE - i,
        {
            if self.threads[i].state == ThreadState::Unused {
                return Some(i);
            }
            i = i + 1;
        }
        None
    }

    /// The slot the round-robin scan selects: the first Runnable slot
    /// strictly after the current index in cyclic order, wrapping around
    /// the table.
    #[verifier::loop_isolation(false)]
    pub fn find_next_runnable_thread(&self) -> (r: Option<usize>)
        requires
            sched_wf(self@),
        ensures
            match r {
                Some(i) => 0 <= i < THREAD_TABLE_SIZE && next_runnable(self@) == Some(i as int),
                None => next_runnable(self@) is None,
            },
    {
        let mut offset: usize = 1;
        while offset <= THREAD_TABLE_SIZE
            invariant
                1 <= offset <= THREAD_TABLE_SIZE + 1,
                next_runnable(self@) == find_runnable_from(
                    self@.threads,
                    self@.current_thread,
                    offset as int,
                ),
            decreases THREAD_TABLE_SIZE + 1 - offset,
        {
            let index: usize = if self.current_thread < 0 {
                offset - 1
            } else {
                (self.current_thread as usize + offset) % THREAD_TABLE_SIZE
            };
            if self.threads[index].state == ThreadState::Runnable {
                return Some(index);
            }
            offset = offset + 1;
        }
        None
    }

    /// Installs a new kernel task: the first Unused slot receives the
    /// saved context that the external context primitive produced for the
    /// task's entry function, and becomes Runnable. Fails when the table
    /// is full — a hard capacity limit. The caller holds the
    /// interrupt-safe lock, which keeps the tick handler out of the table
    /// while it changes.
    pub fn create_kernel(&mut self, thread_ctx: TaskState, kernel_stack_top: u64) -> (r: Result<
        usize,
        SchedulerError,
    >)
        requires
            sched_wf(old(self)@),
        ensures
            sched_wf(final(self)@),
            match r {
                Ok(i) => {
                    &&& 0 <= i < THREAD_TABLE_SIZE
                    &&& old(self)@.threads[i as int].state == ThreadState::Unused
                    &&& forall|q: int|
                        0 <= q < i ==> old(self)@.threads[q].state != ThreadState::Unused
                    &&& final(self)@.threads == old(self)@.threads.update(
                        i as int,
                        Thread { state: ThreadState::Runnable, ctx: thread_ctx, kernel_stack_top },
                    )
                    &&& final(self)@.current_thread == old(self)@.current_thread
                    &&& final(self)@.started == old(self)@.started
                },
                Err(e) => {
                    &&& e == SchedulerError::NoUnusedThread
                    &&& forall|q: int|
                        0 <= q < THREAD_TABLE_SIZE ==> old(self)@.threads[q].state
                            != ThreadState::Unused
                    &&& final(self)@ == old(self)@
                },
            },
    {
        let index = match self.find_first_unused_thread() {
            Some(index) => index,
            None => {
                return Err(SchedulerError::NoUnusedThread);
            },
        };
        self.threads.set(
            index,
            Thread { state: ThreadState::Runnable, ctx: thread_ctx, kernel_stack_top },
        );
        Ok(index)
    }

    /// Installs a new user task: the same slot discipline as
    /// `create_kernel`, with a saved context that the external context
    /// primitive produced from the task's shared address space, entry
    /// point and stack tops.
    pub fn create_user(&mut self, thread_ctx: TaskState, kernel_stack_top: u64) -> (r: Result<
        usize,
        SchedulerError,
    >)
        requires
            sched_wf(old(self)@),
        ensures
            sched_wf(final(self)@),
            match r {
                Ok(i) => {
                    &&& 0 <= i < THREAD_TABLE_SIZE
                    &&& old(self)@.threads[i as int].state == ThreadState::Unused
                    &&& forall|q: int|
                        0 <= q < i ==> old(self)@.threads[q].state != ThreadState::Unused
                    &&& final(self)@.threads == old(self)@.threads.update(
                        i as int,
                        Thread { state: ThreadState::Runnable, ctx: thread_ctx, kernel_stack_top },
                    )
                    &&& final(self)@.current_thread == old(self)@.current_thread
                    &&& final(self)@.started == old(self)@.started
                },
                Err(e) => {
                    &&& e == SchedulerError::NoUnusedThread
                    &&& forall|q: int|
                        0 <= q < THREAD_TABLE_SIZE ==> old(self)@.threads[q].state
                            != ThreadState::Unused
                    &&& final(self)@ == old(self)@
                },
            },
    {
        self.create_kernel(thread_ctx, kernel_stack_top)
    }

    /// The preemption decision point, one call per timer tick, entered
    /// with interrupts already masked by the trap path: takes the
    /// preempted task's saved context, performs the round-robin selection,
    /// and returns the saved context to resume.
    pub fn heartbeat(&mut self, prev: TaskState) -> (next: TaskState)
        requires
            sched_wf(old(self)@),
        ensures
            sched_wf(final(self)@),
            heartbeat_rel(old(self)@, prev, final(self)@, next),
    {
        if !self.started {
            return prev;
        }

        let next_index = match self.find_next_runnable_thread() {
            None => {
                return prev;
            },
            Some(next_index) => next_index,
        };

        if self.current_thread >= 0 && next_index == self.current_thread as usize {
            return prev;
        }

        let chosen = self.threads[next_index];
        self.threads.set(
            next_index,
            Thread {
                state: ThreadState::Running,
                ctx: chosen.ctx,
                kernel_stack_top: chosen.kernel_stack_top,
            },
        );

        if self.current_thread >= 0 {
            let c = self.current_thread as usize;
            let preempted = self.threads[c];
            let demoted_state = if preempted.state == ThreadState::Running {
                ThreadState::Runnable
            } else {
                preempted.state
            };
            self.threads.set(
                c,
                Thread {
                    state: demoted_state,
                    ctx: prev,
                    kernel_stack_top: preempted.kernel_stack_top,
                },
            );
        }

        self.current_thread = next_index as i32;
        chosen.ctx
    }

    /// Marks the currently running slot Dead — terminal — and performs the
    /// same selection as a heartbeat to hand off to the next runnable
    /// task. The slot's resources are never reclaimed.
    pub fn thread_exit(&mut self, prev: TaskState) -> (next: TaskState)
        requires
            sched_wf(old(self)@),
            old(self)@.current_thread >= 0,
        ensures
            sched_wf(final(self)@),
            heartbeat_rel(with_current_dead(old(self)@), prev, final(self)@, next),
    {
        let c = self.current_thread as usize;
        let dying = self.threads[c];
        self.threads.set(
            c,
            Thread {
                state: ThreadState::Dead,
                ctx: dying.ctx,
                kernel_stack_top: dying.kernel_stack_top,
            },
        );
        self.heartbeat(prev)
    }
}

} // verus!
