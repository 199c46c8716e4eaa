//! The per-worker ready queue: cross-thread submission, wake-trigger arming,
//! and the worker's drain.

use crate::fifo::{fifo_items, fifo_new, fifo_pop, fifo_push};
use crossbeam::sync::SegQueue;
use vstd::prelude::*;

verus! {

/// The abstract state of a ready queue.
pub ghost struct QueueModel {
    /// Ids of the tasks awaiting drive, front first.
    pub items: Seq<u64>,
    /// Tasks submitted since the queue was last drained and not yet claimed.
    pub pending: nat,
    /// The tag of the wake trigger currently armed, if any.
    pub trigger: Option<u64>,
    /// The one thread that drives this queue's tasks.
    pub worker: nat,
}

/// What a submission did.
#[derive(PartialEq, Eq, Structural, Debug, Clone, Copy)]
pub enum Submitted {
    /// The caller is the owning worker: it must drive the task itself, now.
    Inline,
    /// The task was queued; a trigger was already armed.
    Queued,
    /// The task was queued and a trigger with the given tag must be armed.
    Armed(u64),
}

/// One step of a drain.
#[derive(PartialEq, Eq, Structural, Debug, Clone, Copy)]
pub enum DrainStep {
    /// Drive `task`, bound to the callback of the last step where
    /// `reuse_notify` holds, to a fresh callback otherwise.
    Drive { task: u64, reuse_notify: bool },
    /// Nothing is left to claim; `released` says whether the drain's own
    /// trigger was still stored and is now released.
    Finished { released: bool },
}

/// A queue is idle when it holds no task and no trigger.
pub open spec fn idle(m: QueueModel) -> bool {
    m.items.len() == 0 && m.pending == 0 && m.trigger.is_none()
}

/// The queue's invariant: every queued task is counted as pending, and while
/// any is pending a trigger is armed, so a drain will come.
pub open spec fn model_wf(m: QueueModel) -> bool {
    &&& m.items.len() == m.pending
    &&& m.pending > 0 ==> m.trigger.is_some()
}

/// Submission of `task` by thread `caller`, whose trigger would carry `tag`.
/// From another thread, the submission that finds nothing pending arms a
/// trigger. It takes the place of any trigger still stored: one that has
/// fired, or one whose drain is still to come and may then find nothing.
pub open spec fn submit_model(m: QueueModel, caller: nat, task: u64, tag: u64) -> (QueueModel, Submitted) {
    if caller == m.worker {
        (m, Submitted::Inline)
    } else if m.pending == 0 {
        (
            QueueModel { items: m.items.push(task), pending: m.pending + 1, trigger: Some(tag), ..m },
            Submitted::Armed(tag),
        )
    } else {
        (QueueModel { items: m.items.push(task), pending: m.pending + 1, ..m }, Submitted::Queued)
    }
}

/// One step of the drain started by the trigger tagged `tag`, given whether
/// the previously driven task resolved. Once nothing is pending, the drain
/// releases the stored trigger if it is its own; a trigger armed while it
/// ran stays for the next drain.
pub open spec fn drain_model(m: QueueModel, tag: u64, last_done: bool) -> (QueueModel, DrainStep) {
    if m.pending == 0 {
        let own = m.trigger == Some(tag);
        (
            QueueModel { trigger: if own { None } else { m.trigger }, ..m },
            DrainStep::Finished { released: own },
        )
    } else {
        (
            QueueModel { items: m.items.drop_first(), pending: (m.pending - 1) as nat, ..m },
            DrainStep::Drive { task: m.items[0], reuse_notify: last_done },
        )
    }
}

/// The ready queue of one worker.
pub struct ReadyQueue {
    queue: SegQueue<u64>,
    pending: usize,
    trigger: Option<u64>,
    worker_id: usize,
}

impl View for ReadyQueue {
    type V = QueueModel;

    closed spec fn view(&self) -> QueueModel {
        QueueModel {
            items: fifo_items(self.queue),
            pending: self.pending as nat,
            trigger: self.trigger,
            worker: self.worker_id as nat,
        }
    }
}

impl ReadyQueue {
    pub open spec fn wf(&self) -> bool {
        model_wf(self@)
    }

    /// An idle queue for the worker `worker_id`.
    pub fn new(worker_id: usize) -> (r: ReadyQueue)
        ensures
            r.wf(),
            idle(r@),
            r@.worker == worker_id,
    {
        ReadyQueue { queue: fifo_new(), pending: 0, trigger: None, worker_id }
    }

    pub fn worker_id(&self) -> (r: usize)
        ensures
            r == self@.worker,
    {
        self.worker_id
    }

    /// The number of tasks pending drive.
    pub fn pending(&self) -> (r: usize)
        ensures
            r == self@.pending,
    {
        self.pending
    }

    /// The tag of the armed trigger, if any.
    pub fn trigger(&self) -> (r: Option<u64>)
        ensures
            r == self@.trigger,
    {
        self.trigger
    }

    /// Hands `task` to this queue on behalf of thread `caller`. From the
    /// owning worker nothing is queued: the caller drives the task inline.
    /// From any other thread the task is queued, and a submission that finds
    /// nothing pending arms a trigger tagged `tag`.
    pub fn push_and_notify(&mut self, task: u64, caller: usize, tag: u64) -> (r: Submitted)
        requires
            old(self).wf(),
            old(self)@.pending < usize::MAX,
        ensures
            final(self).wf(),
            (final(self)@, r) == submit_model(old(self)@, caller as nat, task, tag),
    {
        if caller == self.worker_id {
            return Submitted::Inline;
        }
        fifo_push(&mut self.queue, task);
        let before: usize = self.pending;
        self.pending = before + 1;
        if before == 0 {
            self.trigger = Some(tag);
            Submitted::Armed(tag)
        } else {
            Submitted::Queued
        }
    }

    /// One step of the worker's drain, started when the trigger tagged `tag`
    /// came out of the native wait: claims the next pending task, or, once
    /// none is pending, releases that trigger if it is still the one stored.
    /// `last_done` says whether the task driven in the previous step
    /// resolved (true at the start of a drain).
    pub fn pop_and_poll(&mut self, tag: u64, last_done: bool) -> (r: DrainStep)
        requires
            old(self).wf(),
        ensures
            final(self).wf(),
            (final(self)@, r) == drain_model(old(self)@, tag, last_done),
    {
        if self.pending == 0 {
            let own = match self.trigger {
                Some(t) => t == tag,
                None => false,
            };
            if own {
                self.trigger = None;
            }
            DrainStep::Finished { released: own }
        } else {
            self.pending = self.pending - 1;
            let popped = fifo_pop(&mut self.queue);
            let task = popped.unwrap();
            DrainStep::Drive { task, reuse_notify: last_done }
        }
    }
}

} // verus!
