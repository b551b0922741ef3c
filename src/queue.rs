use vstd::prelude::*;
use std::collections::VecDeque;
use crate::event::Event;

verus! {

/// The consumer side of the event channel: an unbounded first-in, first-out
/// queue of events.
pub struct EventQueue {
    items: VecDeque<Event>,
}

impl View for EventQueue {
    type V = Seq<Event>;

    closed spec fn view(&self) -> Seq<Event> {
        self.items@
    }
}

/// How many events one drain takes out of a queue of `len` events when at most
/// `cap` may be taken.
pub open spec fn drain_count(len: nat, cap: nat) -> nat {
    if len <= cap { len } else { cap }
}

impl EventQueue {
    /// An empty queue.
    pub fn new() -> (r: EventQueue)
        ensures
            r@ == Seq::<Event>::empty(),
    {
        EventQueue { items: VecDeque::new() }
    }

    /// Number of pending events.
    pub fn len(&self) -> (r: usize)
        ensures
            r == self@.len(),
    {
        self.items.len()
    }

    /// Whether no event is pending.
    pub fn is_empty(&self) -> (r: bool)
        ensures
            r == (self@.len() == 0),
    {
        self.items.len() == 0
    }

    /// Enqueues `e` behind every pending event.
    pub fn send(&mut self, e: Event)
        ensures
            final(self)@ == old(self)@.push(e),
    {
        self.items.push_back(e);
    }

    /// Takes the oldest pending event, if there is one; never waits.
    pub fn try_receive(&mut self) -> (r: Option<Event>)
        ensures
            old(self)@.len() == 0 ==> r.is_none() && final(self)@ == old(self)@,
            old(self)@.len() > 0 ==> r == Some(old(self)@[0])
                && final(self)@ == old(self)@.drop_first(),
    {
        self.items.pop_front()
    }

    /// Takes the oldest `min(len, cap)` events out of the queue, in the order
    /// in which they were sent.
    pub fn drain_up_to(&mut self, cap: usize) -> (r: Vec<Event>)
        ensures
            r@.len() == drain_count(old(self)@.len(), cap as nat),
            r@ == old(self)@.take(r@.len() as int),
            final(self)@ == old(self)@.skip(r@.len() as int),
            old(self)@.len() <= cap ==> r@ == old(self)@ && final(self)@.len() == 0,
    {
        let ghost start = self@;
        let mut out: Vec<Event> = Vec::new();
        while out.len() < cap && !self.is_empty()
            invariant
                out@.len() <= cap,
                out@.len() <= start.len(),
                out@ == start.take(out@.len() as int),
                self@ == start.skip(out@.len() as int),
            decreases cap - out@.len(),
        {
            match self.try_receive() {
                Some(e) => {
                    proof {
                        assert(start.take(out@.len() + 1 as int) == start.take(out@.len() as int).push(e));
                        assert(start.skip(out@.len() + 1 as int) == start.skip(out@.len() as int).drop_first());
                    }
                    out.push(e);
                },
                None => {},
            }
        }
        proof {
            if start.len() <= cap {
                assert(out@.len() == start.len());
                assert(out@ == start);
            }
        }
        out
    }
}

} // verus!
