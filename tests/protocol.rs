use completion_queue::{poll, CompletionQueue, DrainStep, PollOutcome, QueueNotify, ReadyQueue, Submitted};

const WORKER: usize = 1;
const OTHER: usize = 2;
const THIRD: usize = 3;

#[test]
fn owner_submission_runs_inline() {
    let mut cq = CompletionQueue::new(WORKER);
    assert_eq!(cq.push_and_notify(7, WORKER, 100), Submitted::Inline);
    assert_eq!(cq.ready_queue().pending(), 0);
    assert_eq!(cq.ready_queue().trigger(), None);
    let mut n = QueueNotify::new(&cq);
    assert!(poll(7, &mut n, PollOutcome::Ready));
    assert_eq!(n.task(), None);
}

#[test]
fn cross_thread_submission_arms_and_drains() {
    let mut cq = CompletionQueue::new(WORKER);
    assert_eq!(cq.push_and_notify(7, OTHER, 100), Submitted::Armed(100));
    assert_eq!(cq.ready_queue().pending(), 1);
    assert_eq!(cq.ready_queue().trigger(), Some(100));
    let tag_owner = QueueNotify::new(&cq);
    let step = tag_owner.resolve(&mut cq, 100, false);
    assert_eq!(step, DrainStep::Drive { task: 7, reuse_notify: true });
    let mut n = QueueNotify::new(&cq);
    assert!(poll(7, &mut n, PollOutcome::Ready));
    assert_eq!(cq.pop_and_poll(100, true), DrainStep::Finished { released: true });
    assert_eq!(cq.ready_queue().pending(), 0);
    assert_eq!(cq.ready_queue().trigger(), None);
}

#[test]
fn suspended_task_is_resubmitted_by_its_wake_callback() {
    let mut cq = CompletionQueue::new(WORKER);
    assert_eq!(cq.push_and_notify(7, OTHER, 100), Submitted::Armed(100));
    assert_eq!(cq.pop_and_poll(100, true), DrainStep::Drive { task: 7, reuse_notify: true });
    let mut n = QueueNotify::new(&cq);
    assert!(!poll(7, &mut n, PollOutcome::NotReady));
    assert_eq!(n.task(), Some(7));
    assert_eq!(cq.pop_and_poll(100, false), DrainStep::Finished { released: true });

    assert_eq!(n.notify(&mut cq, THIRD, 200), Some(Submitted::Armed(200)));
    assert_eq!(n.task(), None);
    assert_eq!(n.notify(&mut cq, THIRD, 300), None);
    assert_eq!(cq.ready_queue().pending(), 1);

    assert_eq!(cq.pop_and_poll(200, true), DrainStep::Drive { task: 7, reuse_notify: true });
    let mut fresh = QueueNotify::new(&cq);
    assert!(poll(7, &mut fresh, PollOutcome::Ready));
    assert_eq!(cq.pop_and_poll(200, true), DrainStep::Finished { released: true });
}

#[test]
fn only_the_first_cross_submission_arms() {
    let mut q = ReadyQueue::new(WORKER);
    assert_eq!(q.push_and_notify(1, OTHER, 10), Submitted::Armed(10));
    assert_eq!(q.push_and_notify(2, THIRD, 11), Submitted::Queued);
    assert_eq!(q.push_and_notify(3, OTHER, 12), Submitted::Queued);
    assert_eq!(q.push_and_notify(4, WORKER, 13), Submitted::Inline);
    assert_eq!(q.pending(), 3);
    assert_eq!(q.trigger(), Some(10));
}

#[test]
fn drain_follows_queue_order() {
    let mut q = ReadyQueue::new(WORKER);
    q.push_and_notify(5, OTHER, 10);
    q.push_and_notify(6, THIRD, 11);
    q.push_and_notify(4, OTHER, 12);
    assert_eq!(q.pop_and_poll(10, true), DrainStep::Drive { task: 5, reuse_notify: true });
    assert_eq!(q.pop_and_poll(10, false), DrainStep::Drive { task: 6, reuse_notify: false });
    assert_eq!(q.pop_and_poll(10, true), DrainStep::Drive { task: 4, reuse_notify: true });
    assert_eq!(q.pop_and_poll(10, true), DrainStep::Finished { released: true });
    assert_eq!(q.pending(), 0);
    assert_eq!(q.trigger(), None);
}

#[test]
fn trigger_armed_during_a_drain_survives_it() {
    let mut q = ReadyQueue::new(WORKER);
    q.push_and_notify(5, OTHER, 10);
    assert_eq!(q.pop_and_poll(10, true), DrainStep::Drive { task: 5, reuse_notify: true });
    assert_eq!(q.pending(), 0);
    assert_eq!(q.push_and_notify(8, OTHER, 11), Submitted::Armed(11));
    assert_eq!(q.trigger(), Some(11));
    assert_eq!(q.pop_and_poll(10, true), DrainStep::Drive { task: 8, reuse_notify: true });
    assert_eq!(q.pop_and_poll(10, true), DrainStep::Finished { released: false });
    assert_eq!(q.trigger(), Some(11));
    assert_eq!(q.pop_and_poll(11, true), DrainStep::Finished { released: true });
    assert_eq!(q.trigger(), None);
    assert_eq!(q.push_and_notify(9, OTHER, 12), Submitted::Armed(12));
}

#[test]
fn arms_match_rises_across_drains() {
    let mut q = ReadyQueue::new(WORKER);
    assert_eq!(q.push_and_notify(1, OTHER, 10), Submitted::Armed(10));
    assert_eq!(q.pop_and_poll(10, true), DrainStep::Drive { task: 1, reuse_notify: true });
    assert_eq!(q.push_and_notify(2, THIRD, 11), Submitted::Armed(11));
    assert_eq!(q.push_and_notify(3, OTHER, 12), Submitted::Queued);
    assert_eq!(q.trigger(), Some(11));
    assert_eq!(q.pop_and_poll(10, true), DrainStep::Drive { task: 2, reuse_notify: true });
    assert_eq!(q.pop_and_poll(10, true), DrainStep::Drive { task: 3, reuse_notify: true });
    assert_eq!(q.pop_and_poll(10, true), DrainStep::Finished { released: false });
    assert_eq!(q.pop_and_poll(11, true), DrainStep::Finished { released: true });
    assert_eq!(q.pending(), 0);
    assert_eq!(q.trigger(), None);
}

#[test]
fn wake_on_owner_thread_runs_inline() {
    let mut cq = CompletionQueue::new(WORKER);
    let mut n = QueueNotify::new(&cq);
    assert!(!poll(3, &mut n, PollOutcome::NotReady));
    let owner = cq.worker_id();
    assert_eq!(n.notify(&mut cq, owner, 50), Some(Submitted::Inline));
    assert_eq!(cq.ready_queue().pending(), 0);
    assert_eq!(cq.ready_queue().trigger(), None);
}

#[test]
fn spurious_wake_does_nothing() {
    let mut cq = CompletionQueue::new(WORKER);
    let mut n = QueueNotify::new(&cq);
    assert_eq!(n.notify(&mut cq, OTHER, 50), None);
    assert_eq!(cq.ready_queue().pending(), 0);
    assert_eq!(cq.ready_queue().trigger(), None);
}

#[test]
fn failure_frees_the_callback() {
    let cq = CompletionQueue::new(WORKER);
    let mut n = QueueNotify::new(&cq);
    assert!(poll(9, &mut n, PollOutcome::Failed));
    assert_eq!(n.task(), None);
    assert_eq!(n.worker_id(), WORKER);
}

#[test]
fn notify_submits_to_its_queue() {
    let mut cq = CompletionQueue::new(WORKER);
    let n = QueueNotify::new(&cq);
    assert_eq!(n.push_and_notify(&mut cq, 12, OTHER, 70), Submitted::Armed(70));
    assert_eq!(cq.pop_and_poll(70, true), DrainStep::Drive { task: 12, reuse_notify: true });
}

#[test]
fn shutdown_twice_matches_once() {
    let mut once = CompletionQueue::new(WORKER);
    let mut twice = CompletionQueue::new(WORKER);
    once.push_and_notify(1, OTHER, 10);
    twice.push_and_notify(1, OTHER, 10);
    assert!(!once.is_shutting_down());
    once.shutdown();
    twice.shutdown();
    twice.shutdown();
    assert!(once.is_shutting_down());
    assert!(twice.is_shutting_down());
    assert_eq!(once.worker_id(), twice.worker_id());
    assert_eq!(once.ready_queue().pending(), twice.ready_queue().pending());
    assert_eq!(once.pop_and_poll(10, true), twice.pop_and_poll(10, true));
    assert_eq!(once.pop_and_poll(10, true), twice.pop_and_poll(10, true));
}

#[test]
fn worker_identity_is_kept() {
    let cq = CompletionQueue::new(42);
    assert_eq!(cq.worker_id(), 42);
    assert_eq!(cq.ready_queue().worker_id(), 42);
}

#[test]
fn tasks_from_many_submitters_are_all_drained() {
    let mut q = ReadyQueue::new(WORKER);
    let mut armed = 0;
    let mut task: u64 = 0;
    while task < 12 {
        let caller = 2 + (task as usize % 3);
        if let Submitted::Armed(_) = q.push_and_notify(task, caller, 100 + task) {
            armed += 1;
        }
        task += 1;
    }
    assert_eq!(armed, 1);
    assert_eq!(q.pending(), 12);
    let mut driven = Vec::new();
    loop {
        match q.pop_and_poll(100, true) {
            DrainStep::Drive { task, .. } => driven.push(task),
            DrainStep::Finished { released } => {
                assert!(released);
                break;
            }
        }
    }
    assert_eq!(driven, (0..12).collect::<Vec<u64>>());
    assert_eq!(q.pending(), 0);
    assert_eq!(q.trigger(), None);
}
