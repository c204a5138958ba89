//! The forwarding queue: a bounded, ordered hand-off between one capture
//! loop (producer) and one transmit loop (consumer). FIFO order is kept for
//! every frame passed through one queue instance, and the length never
//! exceeds the capacity the queue was built with: a full queue refuses the
//! frame back to the producer instead of dropping it or growing.

use vstd::prelude::*;
use crate::frame::{EthernetFrame, spec_valid_frame};

verus! {

/// Capacity of a forwarding queue in the default configuration.
pub const DEFAULT_CAPACITY: usize = 100;

/// A bounded FIFO of Ethernet frames. The view is the sequence of queued
/// frames' bytes, oldest first.
pub struct ForwardingQueue {
    items: Vec<EthernetFrame>,
    capacity: usize,
}

impl View for ForwardingQueue {
    type V = Seq<Seq<u8>>;

    closed spec fn view(&self) -> Seq<Seq<u8>> {
        self.items@.map_values(|f: EthernetFrame| f@)
    }
}

impl ForwardingQueue {
    /// The fixed capacity the queue was built with.
    pub closed spec fn spec_capacity(&self) -> int {
        self.capacity as int
    }

    /// Invariant: the queue never holds more than its capacity, and every
    /// queued frame is well-formed.
    pub open spec fn wf(&self) -> bool {
        &&& self@.len() <= self.spec_capacity()
        &&& forall|i: int| 0 <= i < self@.len() ==> spec_valid_frame(#[trigger] self@[i])
    }

    /// Build an empty queue of the given capacity.
    pub fn new(capacity: usize) -> (q: ForwardingQueue)
        ensures
            q@ == Seq::<Seq<u8>>::empty(),
            q.spec_capacity() == capacity,
            q.wf(),
    {
        let q = ForwardingQueue { items: Vec::new(), capacity };
        proof {
            assert(q@ =~= Seq::<Seq<u8>>::empty());
        }
        q
    }

    /// Build an empty queue of the default capacity.
    pub fn with_default_capacity() -> (q: ForwardingQueue)
        ensures
            q@ == Seq::<Seq<u8>>::empty(),
            q.spec_capacity() == DEFAULT_CAPACITY,
            q.wf(),
    {
        Self::new(DEFAULT_CAPACITY)
    }

    /// Number of frames currently queued.
    pub fn len(&self) -> (n: usize)
        ensures
            n == self@.len(),
    {
        self.items.len()
    }

    /// The fixed capacity.
    pub fn capacity(&self) -> (c: usize)
        ensures
            c == self.spec_capacity(),
    {
        self.capacity
    }

    /// Whether the queue holds no frame.
    pub fn is_empty(&self) -> (r: bool)
        ensures
            r == (self@.len() == 0),
    {
        self.items.len() == 0
    }

    /// Whether the queue is filled to capacity.
    pub fn is_full(&self) -> (r: bool)
        ensures
            r == (self@.len() == self.spec_capacity()),
    {
        self.items.len() == self.capacity
    }

    /// Append a frame if a slot is free. On a full queue the frame is handed
    /// back unchanged — never dropped — so the producer can suspend and retry
    /// once the consumer frees a slot.
    pub fn try_enqueue(&mut self, frame: EthernetFrame) -> (r: Result<(), EthernetFrame>)
        requires
            old(self).wf(),
            frame.wf(),
        ensures
            final(self).wf(),
            final(self).spec_capacity() == old(self).spec_capacity(),
            old(self)@.len() < old(self).spec_capacity() ==> {
                &&& r is Ok
                &&& final(self)@ == old(self)@.push(frame@)
            },
            old(self)@.len() >= old(self).spec_capacity() ==> {
                &&& r matches Err(back) && back@ == frame@
                &&& final(self)@ == old(self)@
            },
    {
        if self.items.len() < self.capacity {
            let ghost prior = self@;
            let ghost fv = frame@;
            self.items.push(frame);
            proof {
                assert(self@ =~= prior.push(fv));
            }
            Ok(())
        } else {
            Err(frame)
        }
    }

    /// Remove and return the oldest frame, or nothing when the queue is
    /// empty — the consumer then suspends until a frame arrives.
    pub fn dequeue(&mut self) -> (r: Option<EthernetFrame>)
        requires
            old(self).wf(),
        ensures
            final(self).wf(),
            final(self).spec_capacity() == old(self).spec_capacity(),
            old(self)@.len() == 0 ==> r is None && final(self)@ == old(self)@,
            old(self)@.len() > 0 ==> {
                &&& r matches Some(f) && f@ == old(self)@[0] && f.wf()
                &&& final(self)@ == old(self)@.skip(1)
            },
    {
        if self.items.len() == 0 {
            None
        } else {
            let ghost prior = self@;
            let f = self.items.remove(0);
            proof {
                assert(self@ =~= prior.skip(1));
            }
            Some(f)
        }
    }
}

} // verus!
