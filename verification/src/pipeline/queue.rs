//! A first-in first-out queue with a fixed capacity that hands an item back
//! instead of growing.
use std::collections::VecDeque;
use vstd::prelude::*;

verus! {

/// A FIFO queue that never holds more than `capacity` items.
#[derive(Debug)]
pub struct BoundedQueue<T> {
    items: VecDeque<T>,
    capacity: usize,
}

impl<T> View for BoundedQueue<T> {
    type V = Seq<T>;

    /// The queued items, oldest first.
    closed spec fn view(&self) -> Seq<T> {
        self.items@
    }
}

impl<T> BoundedQueue<T> {
    /// The capacity is positive and never exceeded.
    pub closed spec fn wf(&self) -> bool {
        &&& self.capacity > 0
        &&& self.items@.len() <= self.capacity
    }

    pub closed spec fn spec_capacity(&self) -> usize {
        self.capacity
    }

    /// A well-formed queue holds at most its capacity, which is positive.
    pub proof fn lemma_within_capacity(&self)
        requires
            self.wf(),
        ensures
            self@.len() <= self.capacity(),
            self.capacity() > 0,
    {
    }

    /// A queue of the given capacity, which must be positive.
    pub fn new(capacity: usize) -> (r: Result<BoundedQueue<T>, QueueError>)
        ensures
            capacity == 0 <==> r is Err,
            r matches Err(e) ==> e == QueueError::InvalidCapacity,
            r matches Ok(q) ==> q.wf() && q@ == Seq::<T>::empty() && q.capacity() == capacity,
    {
        if capacity == 0 {
            return Err(QueueError::InvalidCapacity);
        }
        Ok(BoundedQueue { items: VecDeque::with_capacity(capacity), capacity })
    }

    /// Appends `item` at the back, or hands it back when the queue is full.
    pub fn push(&mut self, item: T) -> (r: QueuePushResult<T>)
        requires
            old(self).wf(),
        ensures
            final(self).wf(),
            final(self).capacity() == old(self).capacity(),
            old(self)@.len() == old(self).capacity() ==> r == QueuePushResult::Full(item)
                && final(self)@ == old(self)@,
            old(self)@.len() < old(self).capacity() ==> r == QueuePushResult::<T>::Accepted
                && final(self)@ == old(self)@.push(item),
    {
        if self.is_full() {
            return QueuePushResult::Full(item);
        }
        self.items.push_back(item);
        QueuePushResult::Accepted
    }

    /// Removes every item and returns them, oldest first.
    pub fn drain(&mut self) -> (r: Vec<T>)
        requires
            old(self).wf(),
        ensures
            final(self).wf(),
            final(self).capacity() == old(self).capacity(),
            final(self)@ == Seq::<T>::empty(),
            r@ == old(self)@,
    {
        let mut drained: Vec<T> = Vec::new();
        while self.items.len() > 0
            invariant
                self.capacity == old(self).capacity,
                drained@ + self.items@ == old(self).items@,
                self.items@.len() <= self.capacity,
                self.capacity > 0,
            decreases self.items@.len(),
        {
            let ghost before = self.items@;
            match self.items.pop_front() {
                Some(item) => {
                    drained.push(item);
                    assert(drained@ + self.items@ == old(self).items@) by {
                        assert(before == seq![before[0]] + before.subrange(1, before.len() as int));
                        assert(drained@ + self.items@ =~= old(self).items@);
                    }
                },
                None => {},
            }
        }
        assert(drained@ =~= old(self)@);
        drained
    }

    pub fn is_full(&self) -> (r: bool)
        requires
            self.wf(),
        ensures
            r == (self@.len() == self.capacity()),
    {
        self.items.len() == self.capacity
    }

    /// Removes and returns the oldest item.
    pub fn pop(&mut self) -> (r: Option<T>)
        requires
            old(self).wf(),
        ensures
            final(self).wf(),
            final(self).capacity() == old(self).capacity(),
            old(self)@.len() == 0 ==> r is None && final(self)@ == old(self)@,
            old(self)@.len() > 0 ==> r == Some(old(self)@[0]) && final(self)@ == old(self)@.drop_first(),
    {
        self.items.pop_front()
    }

    pub fn len(&self) -> (r: usize)
        ensures
            r == self@.len(),
    {
        self.items.len()
    }

    #[verifier::when_used_as_spec(spec_capacity)]
    pub fn capacity(&self) -> (r: usize)
        ensures
            r == self.spec_capacity(),
    {
        self.capacity
    }

    pub fn is_empty(&self) -> (r: bool)
        ensures
            r == (self@.len() == 0),
    {
        self.items.len() == 0
    }
}

/// Items leave a queue in the order they came in: an item pushed behind
/// others does not change which item leaves next, and leaves after all of
/// them.
pub proof fn lemma_first_in_first_out<T>(queued: Seq<T>, item: T)
    ensures
        queued.len() > 0 ==> queued.push(item)[0] == queued[0] && queued.push(item).drop_first()
            == queued.drop_first().push(item),
        queued.push(item).subrange(0, queued.len() as int) == queued,
        queued.push(item).last() == item,
{
    assert(queued.push(item).subrange(0, queued.len() as int) =~= queued);
    if queued.len() > 0 {
        assert(queued.push(item).drop_first() =~= queued.drop_first().push(item));
    }
}

#[derive(Debug, Clone, Copy, PartialEq, Eq, Structural)]
pub enum QueueError {
    InvalidCapacity,
}

/// What a push did: the item was queued, or the queue was full and the item
/// comes back.
#[must_use]
#[derive(Debug)]
pub enum QueuePushResult<T> {
    Accepted,
    Full(T),
}

} // verus!
