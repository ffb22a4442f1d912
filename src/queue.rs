//! The work queue: work items from any thread wait here, in the order they
//! were enqueued, until the event loop drains them.
use vstd::prelude::*;
use crate::notify::WorkItem;

verus! {

pub struct WorkQueue {
    items: Vec<WorkItem>,
}

impl View for WorkQueue {
    type V = Seq<WorkItem>;

    closed spec fn view(&self) -> Seq<WorkItem> {
        self.items@
    }
}

impl WorkQueue {
    pub fn new() -> (r: WorkQueue)
        ensures
            r@ == Seq::<WorkItem>::empty(),
    {
        WorkQueue { items: Vec::new() }
    }

    /// Appends an item behind every item already waiting.
    pub fn enqueue(&mut self, item: WorkItem)
        ensures
            final(self)@ == old(self)@.push(item),
    {
        self.items.push(item);
    }

    /// Takes every waiting item, oldest first, and leaves the queue empty;
    /// items enqueued afterwards wait for the next drain.
    pub fn take_all(&mut self) -> (r: Vec<WorkItem>)
        ensures
            r@ == old(self)@,
            final(self)@ == Seq::<WorkItem>::empty(),
    {
        let mut taken: Vec<WorkItem> = Vec::new();
        core::mem::swap(&mut taken, &mut self.items);
        taken
    }

    pub fn len(&self) -> (r: usize)
        ensures
            r == self@.len(),
    {
        self.items.len()
    }

    pub fn is_empty(&self) -> (r: bool)
        ensures
            r == (self@.len() == 0),
    {
        self.items.len() == 0
    }
}

} // verus!
