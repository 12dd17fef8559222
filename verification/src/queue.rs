use vstd::prelude::*;

verus! {

/// Capacity of the client's outbound line queue.
pub const QUEUE_CAPACITY: usize = 100;

/// Bounded FIFO queue of pending outbound messages, filled by the input
/// relay and drained by the response multiplexer. Order is preserved; a full
/// queue refuses new messages until the consumer drains one (backpressure).
pub struct OutboundQueue {
    items: Vec<Vec<u8>>,
}

impl View for OutboundQueue {
    type V = Seq<Seq<u8>>;

    closed spec fn view(&self) -> Seq<Seq<u8>> {
        self.items@.map_values(|m: Vec<u8>| m@)
    }
}

impl OutboundQueue {
    /// The queue never holds more than its capacity.
    pub open spec fn wf(self) -> bool {
        self@.len() <= QUEUE_CAPACITY
    }

    pub fn new() -> (q: OutboundQueue)
        ensures
            q@ == Seq::<Seq<u8>>::empty(),
            q.wf(),
    {
        let q = OutboundQueue { items: Vec::new() };
        proof {
            assert(q@ =~= Seq::<Seq<u8>>::empty());
        }
        q
    }

    pub fn len(&self) -> (n: usize)
        ensures
            n == self@.len(),
    {
        self.items.len()
    }

    /// Whether the producer may enqueue another message right now.
    pub fn has_tailroom(&self) -> (r: bool)
        ensures
            r <==> self@.len() < QUEUE_CAPACITY,
    {
        self.items.len() < QUEUE_CAPACITY
    }

    /// Enqueue one message at the back; everything already queued stays
    /// ahead of it.
    pub fn push(&mut self, msg: Vec<u8>)
        requires
            old(self).wf(),
            old(self)@.len() < QUEUE_CAPACITY,
        ensures
            final(self).wf(),
            final(self)@ == old(self)@.push(msg@),
    {
        let ghost prev = self@;
        let ghost msg_view = msg@;
        self.items.push(msg);
        proof {
            assert(self@ =~= prev.push(msg_view));
        }
    }

    /// Dequeue the message that has waited longest: the queue hands messages
    /// out in exactly the order they were put in.
    pub fn pop(&mut self) -> (r: Option<Vec<u8>>)
        requires
            old(self).wf(),
        ensures
            final(self).wf(),
            old(self)@.len() == 0 ==> r is None && *final(self) == *old(self),
            old(self)@.len() > 0 ==> {
                &&& r matches Some(m) && m@ == old(self)@[0]
                &&& final(self)@ == old(self)@.skip(1)
            },
    {
        if self.items.len() == 0 {
            None
        } else {
            let ghost prev = self@;
            let m = self.items.remove(0);
            proof {
                assert(self@ =~= prev.skip(1));
            }
            Some(m)
        }
    }
}

} // verus!
