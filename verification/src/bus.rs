//! The event bus: one queue with a fixed number of slots, through which
//! every event passes in the order in which it was emitted. The bus never
//! waits: a caller who finds it full waits, and tries again.
use crate::events;
use crate::events::EventView;
use vstd::prelude::*;

verus! {

/// Why an event was not taken.
#[derive(Clone, Copy, Debug, PartialEq, Eq, Structural)]
pub enum EmitError {
    /// Every slot is taken.
    Full,
    /// The bus was closed: nobody receives any more.
    Closed,
}

pub struct Bus {
    queue: Vec<events::Type>,
    capacity: usize,
    closed: bool,
}

/// The values of a list of events, in order.
pub open spec fn event_views(events: Seq<events::Type>) -> Seq<EventView> {
    Seq::new(events.len(), |i: int| events[i]@)
}

impl Bus {
    #[verifier::type_invariant]
    spec fn within_capacity(&self) -> bool {
        self.queue@.len() <= self.capacity
    }

    /// The events that wait, the oldest first.
    pub closed spec fn pending(&self) -> Seq<EventView> {
        event_views(self.queue@)
    }

    /// The number of slots.
    pub closed spec fn capacity(&self) -> nat {
        self.capacity as nat
    }

    pub closed spec fn closed(&self) -> bool {
        self.closed
    }

    /// An open bus with `capacity` slots, all of them free.
    pub fn new(capacity: usize) -> (bus: Bus)
        ensures
            bus.pending() == Seq::<EventView>::empty(),
            bus.capacity() == capacity,
            !bus.closed(),
    {
        let bus = Bus { queue: Vec::new(), capacity, closed: false };
        assert(bus.pending() =~= Seq::<EventView>::empty());
        bus
    }

    /// Puts an event behind those that wait. A closed bus takes nothing,
    /// and says so; a full one neither.
    pub fn emit(&mut self, event: events::Type) -> (r: Result<(), EmitError>)
        ensures
            final(self).capacity() == old(self).capacity(),
            final(self).closed() == old(self).closed(),
            old(self).closed() ==> r == Err::<(), EmitError>(EmitError::Closed),
            !old(self).closed() && old(self).pending().len() >= old(self).capacity() ==> r == Err::<
                (),
                EmitError,
            >(EmitError::Full),
            !old(self).closed() && old(self).pending().len() < old(self).capacity() ==> r is Ok,
            r is Ok ==> final(self).pending() == old(self).pending().push(event@),
            r is Err ==> final(self).pending() == old(self).pending(),
    {
        if self.closed {
            return Err(EmitError::Closed);
        }
        if self.queue.len() >= self.capacity {
            return Err(EmitError::Full);
        }
        let mut queue: Vec<events::Type> = Vec::new();
        std::mem::swap(&mut self.queue, &mut queue);
        queue.push(event);
        std::mem::swap(&mut self.queue, &mut queue);
        assert(self.pending() =~= old(self).pending().push(event@));
        Ok(())
    }

    /// Takes the oldest event that waits, if any does.
    pub fn receive(&mut self) -> (r: Option<events::Type>)
        ensures
            final(self).capacity() == old(self).capacity(),
            final(self).closed() == old(self).closed(),
            r is Some == (old(self).pending().len() > 0),
            r is Some ==> r->0@ == old(self).pending()[0] && final(self).pending() == old(
                self,
            ).pending().drop_first(),
            r is None ==> final(self).pending() == old(self).pending(),
    {
        proof {
            use_type_invariant(&*self);
        }
        if self.queue.len() == 0 {
            return None;
        }
        let mut queue: Vec<events::Type> = Vec::new();
        std::mem::swap(&mut self.queue, &mut queue);
        let event = queue.remove(0);
        std::mem::swap(&mut self.queue, &mut queue);
        assert(self.pending() =~= old(self).pending().drop_first());
        Some(event)
    }

    /// Closes the bus: from now on it takes no event. Those that wait can
    /// still be received.
    pub fn close(&mut self)
        ensures
            final(self).closed(),
            final(self).capacity() == old(self).capacity(),
            final(self).pending() == old(self).pending(),
    {
        proof {
            use_type_invariant(&*self);
        }
        self.closed = true;
    }

    /// The number of slots.
    pub fn slots(&self) -> (r: usize)
        ensures
            r == self.capacity(),
    {
        self.capacity
    }

    pub fn is_closed(&self) -> (r: bool)
        ensures
            r == self.closed(),
    {
        self.closed
    }

    /// The number of events that wait. It never exceeds the number of
    /// slots.
    pub fn len(&self) -> (r: usize)
        ensures
            r == self.pending().len(),
            r <= self.capacity(),
    {
        proof {
            use_type_invariant(self);
        }
        self.queue.len()
    }

    pub fn is_empty(&self) -> (r: bool)
        ensures
            r == (self.pending().len() == 0),
    {
        self.queue.len() == 0
    }

    pub fn is_full(&self) -> (r: bool)
        ensures
            r == (self.pending().len() >= self.capacity()),
    {
        self.queue.len() >= self.capacity
    }
}

} // verus!
