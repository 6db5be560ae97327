//! The bounded request backlog drained by the worker loop.
use vstd::prelude::*;

use crate::types::Body;
use crate::BACKLOG_SIZE;

verus! {

/// Error returned by a non-blocking enqueue on a saturated backlog.
#[derive(Clone, Copy, Debug, PartialEq, Eq, Structural)]
pub struct QueueFull;

/// A bounded first-in first-out queue of `(request id, body)` pairs.
///
/// The worker is its only consumer; producers enqueue without blocking and
/// see `QueueFull` when the backlog is saturated.
pub struct RequestQueue {
    items: Vec<(u64, Body)>,
}

impl RequestQueue {
    /// The queued items, oldest first.
    pub closed spec fn view(&self) -> Seq<(u64, Body)> {
        self.items@
    }

    /// The queue's fixed capacity.
    pub open spec fn capacity() -> nat {
        BACKLOG_SIZE as nat
    }

    /// An empty backlog.
    pub fn new() -> (r: RequestQueue)
        ensures
            r@ == Seq::<(u64, Body)>::empty(),
    {
        RequestQueue { items: Vec::new() }
    }

    /// Number of queued items.
    pub fn len(&self) -> (r: usize)
        ensures
            r == self@.len(),
    {
        self.items.len()
    }

    /// Non-blocking enqueue: appends unless the backlog is saturated.
    pub fn try_enqueue(&mut self, id: u64, body: Body) -> (r: Result<(), QueueFull>)
        ensures
            old(self)@.len() < Self::capacity() ==> r is Ok && final(self)@ == old(self)@.push(
                (id, body),
            ),
            old(self)@.len() >= Self::capacity() ==> r is Err && final(self)@ == old(self)@,
    {
        if self.items.len() >= BACKLOG_SIZE {
            return Err(QueueFull);
        }
        self.items.push((id, body));
        Ok(())
    }

    /// Remove and return the oldest item, if any.
    pub fn dequeue(&mut self) -> (r: Option<(u64, Body)>)
        ensures
            old(self)@.len() == 0 ==> r is None && final(self)@ == old(self)@,
            old(self)@.len() > 0 ==> r == Some(old(self)@[0]) && final(self)@ == old(self)@.drop_first(),
    {
        if self.items.len() == 0 {
            return None;
        }
        let item = self.items.remove(0);
        proof {
            assert(self.items@ =~= old(self).items@.drop_first());
        }
        Some(item)
    }
}

} // verus!
