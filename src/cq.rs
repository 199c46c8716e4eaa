//! The completion queue a worker owns: its identity, its ready queue and the
//! lifecycle of the native resource beneath it.

use crate::queue::{DrainStep, QueueModel, ReadyQueue, Submitted, drain_model, model_wf, submit_model};
use vstd::prelude::*;

verus! {

/// The abstract state of a completion queue.
pub ghost struct CqModel {
    pub worker: nat,
    pub ready: QueueModel,
    /// Whether shutdown of the native resource has been initiated.
    pub shutting_down: bool,
}

/// Shutdown of the native resource: initiated, all else unchanged.
pub open spec fn shutdown_model(c: CqModel) -> CqModel {
    CqModel { shutting_down: true, ..c }
}

/// A worker's completion queue.
pub struct CompletionQueue {
    id: usize,
    fq: ReadyQueue,
    shutting_down: bool,
}

impl View for CompletionQueue {
    type V = CqModel;

    closed spec fn view(&self) -> CqModel {
        CqModel { worker: self.id as nat, ready: self.fq@, shutting_down: self.shutting_down }
    }
}

impl CompletionQueue {
    /// The ready queue is well formed and belongs to this queue's worker.
    pub open spec fn wf(&self) -> bool {
        &&& model_wf(self@.ready)
        &&& self@.ready.worker == self@.worker
    }

    /// A completion queue for worker `id`, with an idle ready queue.
    pub fn new(id: usize) -> (r: CompletionQueue)
        ensures
            r.wf(),
            r@.worker == id,
            r@.ready.worker == id,
            crate::queue::idle(r@.ready),
            !r@.shutting_down,
    {
        CompletionQueue { id, fq: ReadyQueue::new(id), shutting_down: false }
    }

    pub fn worker_id(&self) -> (r: usize)
        ensures
            r == self@.worker,
    {
        self.id
    }

    /// The ready queue's state.
    pub fn ready_queue(&self) -> (r: &ReadyQueue)
        ensures
            r@ == self@.ready,
    {
        &self.fq
    }

    pub fn is_shutting_down(&self) -> (r: bool)
        ensures
            r == self@.shutting_down,
    {
        self.shutting_down
    }

    /// Begins shutdown. Calling it again changes nothing.
    pub fn shutdown(&mut self)
        requires
            old(self).wf(),
        ensures
            final(self).wf(),
            final(self)@ == shutdown_model(old(self)@),
    {
        self.shutting_down = true;
    }

    /// Submits `task` from thread `caller`; see `ReadyQueue::push_and_notify`.
    pub fn push_and_notify(&mut self, task: u64, caller: usize, tag: u64) -> (r: Submitted)
        requires
            old(self).wf(),
            old(self)@.ready.pending < usize::MAX,
        ensures
            final(self).wf(),
            final(self)@.worker == old(self)@.worker,
            final(self)@.shutting_down == old(self)@.shutting_down,
            (final(self)@.ready, r) == submit_model(old(self)@.ready, caller as nat, task, tag),
    {
        self.fq.push_and_notify(task, caller, tag)
    }

    /// One step of the drain started by the trigger tagged `tag`; see
    /// `ReadyQueue::pop_and_poll`.
    pub fn pop_and_poll(&mut self, tag: u64, last_done: bool) -> (r: DrainStep)
        requires
            old(self).wf(),
        ensures
            final(self).wf(),
            final(self)@.worker == old(self)@.worker,
            final(self)@.shutting_down == old(self)@.shutting_down,
            (final(self)@.ready, r) == drain_model(old(self)@.ready, tag, last_done),
    {
        self.fq.pop_and_poll(tag, last_done)
    }
}

} // verus!
