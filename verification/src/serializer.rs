//! The build section: one build at a time, in the order of arrival.
//!
//! Whoever wants to build takes a ticket. Tickets are numbered as they are
//! taken, and the section serves them by number: the holder of the lowest
//! ticket that has not left builds, all others wait. The section knows
//! nothing of what is built.

use vstd::prelude::*;

verus! {

/// Where the queue stands: how many tickets were taken, and how many
/// holders have left.
pub ghost struct Queue {
    pub issued: nat,
    pub served: nat,
}

impl Queue {
    /// No more holders have left than tickets were taken.
    pub open spec fn wf(self) -> bool {
        self.served <= self.issued
    }

    /// The empty queue.
    pub open spec fn empty() -> Queue {
        Queue { issued: 0, served: 0 }
    }

    /// Whether `ticket` was taken.
    pub open spec fn taken(self, ticket: nat) -> bool {
        ticket < self.issued
    }

    /// Whether the holder of `ticket` may build now.
    pub open spec fn is_turn(self, ticket: nat) -> bool {
        self.served == ticket && ticket < self.issued
    }

    /// Whether the holder of `ticket` waits behind another.
    pub open spec fn waiting(self, ticket: nat) -> bool {
        self.served < ticket && ticket < self.issued
    }

    /// Whether the holder of `ticket` has built and left.
    pub open spec fn left(self, ticket: nat) -> bool {
        ticket < self.served
    }

    /// Whether nobody builds or waits.
    pub open spec fn idle(self) -> bool {
        self.served == self.issued
    }

    /// The queue after one more ticket was taken; the ticket is
    /// `self.issued`.
    pub open spec fn enter(self) -> Queue {
        Queue { issued: self.issued + 1, served: self.served }
    }

    /// The queue after the holder whose turn it is has left.
    pub open spec fn leave(self) -> Queue {
        Queue { issued: self.issued, served: self.served + 1 }
    }

    /// The queue after `n` holders in a row have left.
    pub open spec fn leave_many(self, n: nat) -> Queue
        decreases n,
    {
        if n == 0 {
            self
        } else {
            self.leave().leave_many((n - 1) as nat)
        }
    }
}

/// The build section.
pub struct BuildSerializer {
    issued: u64,
    served: u64,
}

impl View for BuildSerializer {
    type V = Queue;

    closed spec fn view(&self) -> Queue {
        Queue { issued: self.issued as nat, served: self.served as nat }
    }
}

impl BuildSerializer {
    /// Whether the section is consistent. Every section made by [`Self::new`]
    /// and changed by the methods below is.
    pub open spec fn wf(&self) -> bool {
        self@.wf() && self@.issued <= u64::MAX
    }

    /// A section that nobody has entered.
    pub fn new() -> (out: BuildSerializer)
        ensures
            out.wf(),
            out@ == Queue::empty(),
    {
        BuildSerializer { issued: 0, served: 0 }
    }

    /// Whether a ticket is left to take. Tickets run out after `u64::MAX`.
    pub fn has_ticket(&self) -> (out: bool)
        ensures
            out == (self@.issued < u64::MAX),
    {
        self.issued < u64::MAX
    }

    /// Takes the next ticket.
    pub fn enter(&mut self) -> (ticket: u64)
        requires
            old(self).wf(),
            old(self)@.issued < u64::MAX,
        ensures
            final(self).wf(),
            final(self)@ == old(self)@.enter(),
            ticket == old(self)@.issued,
    {
        let ticket = self.issued;
        self.issued = ticket + 1;
        ticket
    }

    /// Whether the holder of `ticket` may build now.
    pub fn is_turn(&self, ticket: u64) -> (out: bool)
        ensures
            out == self@.is_turn(ticket as nat),
    {
        self.served == ticket && ticket < self.issued
    }

    /// Whether the holder of `ticket` waits behind another.
    pub fn is_waiting(&self, ticket: u64) -> (out: bool)
        ensures
            out == self@.waiting(ticket as nat),
    {
        self.served < ticket && ticket < self.issued
    }

    /// The holder of `ticket` leaves the section, if it is its turn, and
    /// the turn passes to the next ticket. Any other ticket changes nothing.
    pub fn leave(&mut self, ticket: u64) -> (left: bool)
        requires
            old(self).wf(),
        ensures
            final(self).wf(),
            left == old(self)@.is_turn(ticket as nat),
            final(self)@ == if left {
                old(self)@.leave()
            } else {
                old(self)@
            },
    {
        if self.served == ticket && ticket < self.issued {
            self.served = ticket + 1;
            true
        } else {
            false
        }
    }
}

/// At no time may two tickets build.
pub proof fn law_one_builder(q: Queue, a: nat, b: nat)
    requires
        q.is_turn(a),
        q.is_turn(b),
    ensures
        a == b,
{
}

/// A ticket is in exactly one of four states: not taken, waiting, building,
/// left.
pub proof fn law_ticket_states(q: Queue, ticket: nat)
    requires
        q.wf(),
    ensures
        q.taken(ticket) <==> (q.waiting(ticket) || q.is_turn(ticket) || q.left(ticket)),
        !(q.waiting(ticket) && q.is_turn(ticket)),
        !(q.waiting(ticket) && q.left(ticket)),
        !(q.is_turn(ticket) && q.left(ticket)),
{
}

/// First come, first served: when a ticket builds, every ticket taken
/// before it has left.
pub proof fn law_first_come_first_served(q: Queue, earlier: nat, later: nat)
    requires
        q.wf(),
        earlier < later,
        q.is_turn(later),
    ensures
        q.left(earlier),
{
}

/// Taking a ticket and leaving keep the queue consistent, and neither lets
/// a ticket go back: one that builds keeps its turn while others enter, and
/// one that has left stays out.
pub proof fn law_queue_moves_forward(q: Queue, ticket: nat)
    requires
        q.wf(),
    ensures
        q.enter().wf(),
        !q.idle() ==> q.leave().wf(),
        q.is_turn(ticket) ==> q.enter().is_turn(ticket),
        q.left(ticket) ==> q.enter().left(ticket) && q.leave().left(ticket),
        q.is_turn(ticket) ==> q.leave().left(ticket),
{
}

/// Nobody waits for ever: a waiting ticket builds as soon as the holders in
/// front of it have left, one after the other.
pub proof fn law_turn_comes(q: Queue, ticket: nat)
    requires
        q.wf(),
        q.waiting(ticket) || q.is_turn(ticket),
    ensures
        q.leave_many((ticket - q.served) as nat).is_turn(ticket),
    decreases ticket - q.served,
{
    if q.served < ticket {
        law_turn_comes(q.leave(), ticket);
    }
}

} // verus!
