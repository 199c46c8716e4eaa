//! Wake callbacks: each binds at most one suspended task to the completion
//! queue that must drive it again.

use crate::cq::CompletionQueue;
use crate::queue::{DrainStep, Submitted, drain_model, submit_model};
use vstd::prelude::*;

verus! {

/// What polling a task reported.
#[derive(PartialEq, Eq, Structural, Debug, Clone, Copy)]
pub enum PollOutcome {
    /// The task completed.
    Ready,
    /// The task resolved to an error.
    Failed,
    /// The task suspended; its wake callback will fire later.
    NotReady,
}

pub open spec fn resolved(o: PollOutcome) -> bool {
    o != PollOutcome::NotReady
}

/// Driving `task` with outcome `o`: whether it resolved, and what stays in
/// flight under its callback.
pub open spec fn poll_model(task: u64, o: PollOutcome) -> (bool, Option<u64>) {
    if resolved(o) {
        (true, None)
    } else {
        (false, Some(task))
    }
}

/// A wake callback firing with `slot` in flight: what stays under it, and the
/// task to submit again.
pub open spec fn wake_model(slot: Option<u64>) -> (Option<u64>, Option<u64>) {
    (None, slot)
}

/// A wake callback bound to the completion queue of worker `worker`, holding
/// the task in flight under it, if any.
pub struct QueueNotify {
    worker: usize,
    slot: Option<u64>,
}

impl QueueNotify {
    pub closed spec fn worker(&self) -> nat {
        self.worker as nat
    }

    /// The task in flight under this callback.
    pub closed spec fn slot(&self) -> Option<u64> {
        self.slot
    }

    /// An empty callback bound to the queue `cq`.
    pub fn new(cq: &CompletionQueue) -> (r: QueueNotify)
        ensures
            r.worker() == cq@.worker,
            r.slot().is_none(),
    {
        QueueNotify { worker: cq.worker_id(), slot: None }
    }

    pub fn worker_id(&self) -> (r: usize)
        ensures
            r == self.worker(),
    {
        self.worker
    }

    /// The task in flight under this callback.
    pub fn task(&self) -> (r: Option<u64>)
        ensures
            r == self.slot(),
    {
        self.slot
    }

    /// The trigger tagged `tag` of the bound queue fired, or was cancelled:
    /// either way the worker starts draining, with the first step taken here.
    pub fn resolve(self, cq: &mut CompletionQueue, tag: u64, success: bool) -> (r: DrainStep)
        requires
            old(cq).wf(),
            old(cq)@.worker == self.worker(),
        ensures
            final(cq).wf(),
            final(cq)@.worker == old(cq)@.worker,
            final(cq)@.shutting_down == old(cq)@.shutting_down,
            (final(cq)@.ready, r) == drain_model(old(cq)@.ready, tag, true),
    {
        cq.pop_and_poll(tag, true)
    }

    /// Submits a fresh task to the bound queue from thread `caller`.
    pub fn push_and_notify(&self, cq: &mut CompletionQueue, task: u64, caller: usize, tag: u64) -> (r: Submitted)
        requires
            old(cq).wf(),
            old(cq)@.worker == self.worker(),
            old(cq)@.ready.pending < usize::MAX,
        ensures
            final(cq).wf(),
            final(cq)@.worker == old(cq)@.worker,
            final(cq)@.shutting_down == old(cq)@.shutting_down,
            (final(cq)@.ready, r) == submit_model(old(cq)@.ready, caller as nat, task, tag),
    {
        cq.push_and_notify(task, caller, tag)
    }

    /// The wake callback fired on thread `caller`: the task in flight, if
    /// any, leaves this callback and is submitted again. A callback with no
    /// task in flight does nothing, so a second firing is harmless.
    pub fn notify(&mut self, cq: &mut CompletionQueue, caller: usize, tag: u64) -> (r: Option<Submitted>)
        requires
            old(cq).wf(),
            old(cq)@.worker == old(self).worker(),
            old(cq)@.ready.pending < usize::MAX,
        ensures
            final(cq).wf(),
            final(self).worker() == old(self).worker(),
            final(self).slot() == wake_model(old(self).slot()).0,
            final(cq)@.worker == old(cq)@.worker,
            final(cq)@.shutting_down == old(cq)@.shutting_down,
            match old(self).slot() {
                None => r.is_none() && final(cq)@ == old(cq)@,
                Some(t) => r == Some(submit_model(old(cq)@.ready, caller as nat, t, tag).1)
                    && final(cq)@.ready == submit_model(old(cq)@.ready, caller as nat, t, tag).0,
            },
    {
        match self.slot.take() {
            None => None,
            Some(t) => Some(cq.push_and_notify(t, caller, tag)),
        }
    }
}

/// Drives `task` under the callback `notify`: the task is put in flight under
/// it, and `outcome` is what polling it reported. A resolved task (completed
/// or failed) leaves the callback empty, free for reuse, and the result is
/// true; a suspended one stays in flight there, and the result is false.
pub fn poll(task: u64, notify: &mut QueueNotify, outcome: PollOutcome) -> (done: bool)
    ensures
        (done, final(notify).slot()) == poll_model(task, outcome),
        final(notify).worker() == old(notify).worker(),
{
    notify.slot = Some(task);
    match outcome {
        PollOutcome::Ready | PollOutcome::Failed => {
            notify.slot = None;
            true
        },
        PollOutcome::NotReady => false,
    }
}

} // verus!
