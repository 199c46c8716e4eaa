//! Properties of the protocol that span several operations.

use crate::cq::{CqModel, shutdown_model};
use crate::notify::{PollOutcome, poll_model, wake_model};
use crate::queue::{DrainStep, QueueModel, Submitted, drain_model, idle, model_wf, submit_model};
use vstd::prelude::*;

verus! {

/// An operation on a ready queue.
pub ghost enum QueueOp {
    /// Thread `caller` submits `task`; a trigger it arms carries `tag`.
    Submit { caller: nat, task: u64, tag: u64 },
    /// A step of the drain started by the trigger tagged `tag`.
    Drain { tag: u64, last_done: bool },
}

/// The state after `op`, and whether it armed a trigger.
pub open spec fn apply(m: QueueModel, op: QueueOp) -> (QueueModel, bool) {
    match op {
        QueueOp::Submit { caller, task, tag } => {
            let (next, r) = submit_model(m, caller, task, tag);
            (next, r is Armed)
        },
        QueueOp::Drain { tag, last_done } => (drain_model(m, tag, last_done).0, false),
    }
}

/// How many of the operations `ops`, applied in order from `m`, arm a trigger.
pub open spec fn arms_in(m: QueueModel, ops: Seq<QueueOp>) -> nat
    decreases ops.len(),
{
    if ops.len() == 0 {
        0
    } else {
        let (next, armed) = apply(m, ops[0]);
        (if armed { 1nat } else { 0nat }) + arms_in(next, ops.drop_first())
    }
}

/// How many of the operations `ops`, applied in order from `m`, take the
/// pending counter from zero to nonzero.
pub open spec fn rises_in(m: QueueModel, ops: Seq<QueueOp>) -> nat
    decreases ops.len(),
{
    if ops.len() == 0 {
        0
    } else {
        let next = apply(m, ops[0]).0;
        (if m.pending == 0 && next.pending > 0 { 1nat } else { 0nat }) + rises_in(next, ops.drop_first())
    }
}

/// `n` steps of the drain started by the trigger tagged `tag`, each after a
/// resolved task.
pub open spec fn drain_run(m: QueueModel, tag: u64, n: nat) -> (QueueModel, Seq<DrainStep>)
    decreases n,
{
    if n == 0 {
        (m, Seq::empty())
    } else {
        let (next, step) = drain_model(m, tag, true);
        let (end, rest) = drain_run(next, tag, (n - 1) as nat);
        (end, seq![step] + rest)
    }
}

/// What `k` firings in a row of a wake callback holding `slot` resubmit.
pub open spec fn wakes(slot: Option<u64>, k: nat) -> Seq<Option<u64>>
    decreases k,
{
    if k == 0 {
        Seq::empty()
    } else {
        let (left, out) = wake_model(slot);
        seq![out] + wakes(left, (k - 1) as nat)
    }
}

/// Every submission and every drain step keeps the queue's invariant: at no
/// point is a task pending while no trigger is stored, whatever the
/// interleaving, so a worker is never left asleep over ready tasks. A task
/// submitted from another thread is queued at the back and counted.
pub proof fn lemma_no_lost_wakeup(m: QueueModel, caller: nat, task: u64, tag: u64, drain_tag: u64, last_done: bool)
    requires
        model_wf(m),
    ensures
        model_wf(submit_model(m, caller, task, tag).0),
        model_wf(drain_model(m, drain_tag, last_done).0),
        caller != m.worker ==> {
            let next = submit_model(m, caller, task, tag).0;
            &&& next.items == m.items.push(task)
            &&& next.pending == m.pending + 1
            &&& next.trigger.is_some()
        },
{
}

/// A submission from the owning worker is driven inline and leaves the
/// queue as it was. One from another thread arms a trigger exactly when
/// nothing was pending; otherwise it leaves the stored trigger alone.
pub proof fn lemma_submit_arms(m: QueueModel, caller: nat, task: u64, tag: u64)
    ensures
        caller == m.worker ==> submit_model(m, caller, task, tag) == (m, Submitted::Inline),
        caller != m.worker ==> {
            let (next, r) = submit_model(m, caller, task, tag);
            &&& (r is Armed <==> m.pending == 0)
            &&& m.pending == 0 ==> r == Submitted::Armed(tag) && next.trigger == Some(tag)
            &&& m.pending != 0 ==> r == Submitted::Queued && next.trigger == m.trigger
        },
{
}

/// A drain started with its trigger stored drives every pending task once,
/// in queue order, then releases the trigger and leaves the queue idle.
pub proof fn lemma_drain_delivers_all(m: QueueModel, tag: u64)
    requires
        model_wf(m),
        m.trigger == Some(tag),
    ensures
        ({
            let (end, steps) = drain_run(m, tag, m.pending + 1);
            &&& idle(end)
            &&& end.worker == m.worker
            &&& steps.len() == m.pending + 1
            &&& forall|i: int|
                0 <= i < m.pending ==> #[trigger] steps[i] == (DrainStep::Drive {
                    task: m.items[i],
                    reuse_notify: true,
                })
            &&& steps[m.pending as int] == DrainStep::Finished { released: true }
        }),
    decreases m.pending,
{
    let (next, step) = drain_model(m, tag, true);
    if m.pending > 0 {
        lemma_drain_delivers_all(next, tag);
        let (end, rest) = drain_run(next, tag, next.pending + 1);
        assert(m.pending + 1 - 1 == next.pending + 1);
        assert(drain_run(m, tag, m.pending + 1) == (end, seq![step] + rest));
        assert forall|i: int| 0 <= i < m.pending implies #[trigger] (seq![step] + rest)[i] == (DrainStep::Drive {
            task: m.items[i],
            reuse_notify: true,
        }) by {
            if i > 0 {
                assert((seq![step] + rest)[i] == rest[i - 1]);
                assert(next.items[i - 1] == m.items[i]);
            }
        }
    } else {
        assert(drain_run(next, tag, 0) == (next, Seq::<DrainStep>::empty()));
        assert(drain_run(m, tag, 1) == (next, seq![step] + Seq::<DrainStep>::empty()));
    }
}

/// A trigger armed while a drain runs survives that drain: no step of a
/// drain started by another trigger removes it.
pub proof fn lemma_rearm_survives(m: QueueModel, tag: u64, last_done: bool)
    requires
        m.trigger.is_some(),
        m.trigger != Some(tag),
    ensures
        drain_model(m, tag, last_done).0.trigger == m.trigger,
{
}

/// A claimed task leaves the queue: where the queued tasks are distinct, the
/// one handed to the worker is no longer queued, so no second claim can
/// drive it.
pub proof fn lemma_claim_once(m: QueueModel, tag: u64, last_done: bool)
    requires
        model_wf(m),
        m.pending > 0,
        m.items.no_duplicates(),
    ensures
        ({
            let (next, step) = drain_model(m, tag, last_done);
            step is Drive && !next.items.contains(step->task)
        }),
{
    let (next, step) = drain_model(m, tag, last_done);
    if next.items.contains(step->task) {
        let j = choose|j: int| 0 <= j < next.items.len() && next.items[j] == step->task;
        assert(m.items[j + 1] == m.items[0]);
    }
}

/// However often a wake callback fires, it hands its task back at most once:
/// the first firing resubmits what it holds, every later one nothing.
pub proof fn lemma_wake_once(slot: Option<u64>, k: nat)
    requires
        k > 0,
    ensures
        wakes(slot, k)[0] == slot,
        forall|i: int| 0 < i < k ==> (#[trigger] wakes(slot, k)[i]).is_none(),
        wakes(slot, k).len() == k,
    decreases k,
{
    lemma_wakes_from_empty((k - 1) as nat);
    assert(wakes(slot, k) == seq![slot] + wakes(None, (k - 1) as nat));
}

proof fn lemma_wakes_from_empty(k: nat)
    ensures
        wakes(None, k).len() == k,
        forall|i: int| 0 <= i < k ==> (#[trigger] wakes(None, k)[i]).is_none(),
    decreases k,
{
    if k > 0 {
        lemma_wakes_from_empty((k - 1) as nat);
        assert(wakes(None, k) == seq![None::<u64>] + wakes(None, (k - 1) as nat));
    }
}

/// A callback is reused for the next task only when the task driven under it
/// resolved and left it empty; after a suspension the drain asks for a fresh
/// one, as the suspended task still holds the old.
pub proof fn lemma_notify_reuse(m: QueueModel, tag: u64, task: u64, outcome: PollOutcome)
    requires
        m.pending > 0,
    ensures
        ({
            let (done, slot) = poll_model(task, outcome);
            let step = drain_model(m, tag, done).1;
            &&& step is Drive
            &&& step->reuse_notify <==> slot.is_none()
        }),
{
}

/// Shutting down twice leaves the queue as shutting down once does.
pub proof fn lemma_shutdown_idempotent(c: CqModel)
    ensures
        shutdown_model(shutdown_model(c)) == shutdown_model(c),
{
}

/// Over any interleaving of submissions and drain steps, from any state,
/// exactly one trigger is armed per rise of the pending counter from zero.
pub proof fn lemma_single_arm(m: QueueModel, ops: Seq<QueueOp>)
    ensures
        arms_in(m, ops) == rises_in(m, ops),
    decreases ops.len(),
{
    if ops.len() > 0 {
        lemma_single_arm(apply(m, ops[0]).0, ops.drop_first());
    }
}

} // verus!
