//! The lock-free FIFO of task ids awaiting drive, held behind crossbeam's
//! segmented queue.

use crossbeam::sync::SegQueue;
use vstd::prelude::*;

verus! {

#[verifier::external_type_specification]
#[verifier::external_body]
#[verifier::reject_recursive_types(T)]
pub struct ExSegQueue<T>(SegQueue<T>);

/// The task ids held by a queue, front first.
pub uninterp spec fn fifo_items(q: SegQueue<u64>) -> Seq<u64>;

/// Relies on `SegQueue::new`: a fresh queue holds nothing.
#[verifier::external_body]
pub(crate) fn fifo_new() -> (q: SegQueue<u64>)
    ensures
        fifo_items(q) == Seq::<u64>::empty(),
{
    SegQueue::new()
}

/// Relies on `SegQueue::push`: the id is added at the back.
#[verifier::external_body]
pub(crate) fn fifo_push(q: &mut SegQueue<u64>, t: u64)
    ensures
        fifo_items(*final(q)) == fifo_items(*old(q)).push(t),
{
    q.push(t)
}

/// Relies on `SegQueue::try_pop`: with no concurrent user, it removes and
/// returns the front id, or returns `None` when the queue holds nothing.
#[verifier::external_body]
pub(crate) fn fifo_pop(q: &mut SegQueue<u64>) -> (r: Option<u64>)
    ensures
        fifo_items(*old(q)).len() == 0 ==> r.is_none() && fifo_items(*final(q)) == fifo_items(
            *old(q),
        ),
        fifo_items(*old(q)).len() > 0 ==> r == Some(fifo_items(*old(q))[0]) && fifo_items(
            *final(q),
        ) == fifo_items(*old(q)).drop_first(),
{
    q.try_pop()
}

} // verus!
