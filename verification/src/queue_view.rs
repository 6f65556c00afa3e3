//! The list that shows the queue.

use crate::queue::{Queue as QueueModel, QueueItem};
use crate::reactive::ReactiveContainer;
use vstd::prelude::*;

verus! {

/// The list of the queue: how many rows it has, and the subscription
/// through which it follows the queue cell.
#[derive(Debug, PartialEq, Eq, Clone, Copy)]
pub struct Queue {
    pub subscription: u64,
    pub rows: usize,
}

impl Queue {
    /// Makes the list and subscribes it to the queue cell. The list starts
    /// without rows, whatever the queue holds: rows come with the first
    /// notification.
    pub fn new(items: &mut ReactiveContainer<QueueModel>) -> (view: Queue)
        requires
            old(items).issued() < u64::MAX,
        ensures
            final(items).wf(),
            final(items).value == old(items).value,
            final(items).issued() == old(items).issued() + 1,
            final(items).subscribers() == old(items).subscribers().push(view.subscription),
            view.subscription == old(items).issued(),
            view.rows == 0,
    {
        Queue { subscription: items.subscribe(), rows: 0 }
    }

    /// The queue changed: the list is rebuilt as a whole from a copy of the
    /// queue, one row for each item, in order.
    pub fn queue_changed(&mut self, items: &ReactiveContainer<QueueModel>) -> (rows: Vec<QueueItem>)
        ensures
            final(self).subscription == old(self).subscription,
            final(self).rows == items.value@.len(),
            rows@.len() == items.value@.len(),
            forall|i: int|
                0 <= i < items.value@.len() ==> (#[trigger] items.value@[i]).same_as(rows@[i]),
    {
        let rows = items.read().snapshot();
        self.rows = rows.len();
        rows
    }
}

} // verus!
