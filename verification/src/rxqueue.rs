//! The set of rx operations that a connection has pending.

use vstd::prelude::*;

use crate::rxops::RxOps;

verus! {

/// Pending rx operations, each at most once.
#[derive(Debug, Clone, Copy, PartialEq, Eq, Structural)]
pub struct RxQueue {
    /// bitmap of rx operations
    pub queue: u8,
}

impl View for RxQueue {
    type V = Set<RxOps>;

    /// The operations whose bits are set.
    open spec fn view(&self) -> Set<RxOps> {
        Set::new(|op: RxOps| self.queue & op.mask() != 0)
    }
}

/// `op` is pending, and nothing before it in the order of service is.
pub open spec fn is_first(pending: Set<RxOps>, op: RxOps) -> bool {
    &&& pending.contains(op)
    &&& forall|other: RxOps| #[trigger] pending.contains(other) ==> op.rank() <= other.rank()
}

/// The pending operation that is served next, if there is any.
pub open spec fn first_op(pending: Set<RxOps>) -> Option<RxOps> {
    if pending.contains(RxOps::Request) {
        Some(RxOps::Request)
    } else if pending.contains(RxOps::Rw) {
        Some(RxOps::Rw)
    } else if pending.contains(RxOps::Response) {
        Some(RxOps::Response)
    } else if pending.contains(RxOps::CreditUpdate) {
        Some(RxOps::CreditUpdate)
    } else if pending.contains(RxOps::Rst) {
        Some(RxOps::Rst)
    } else {
        None
    }
}

impl RxQueue {
    /// The queue with `op` pending.
    pub open spec fn with(self, op: RxOps) -> RxQueue {
        RxQueue { queue: self.queue | op.mask() }
    }

    /// The queue with `op` no longer pending.
    pub open spec fn without(self, op: RxOps) -> RxQueue {
        RxQueue { queue: self.queue & !op.mask() }
    }

    /// new instance of RxQueue
    pub fn new() -> (r: Self)
        ensures
            r.queue == 0,
            r@ == Set::<RxOps>::empty(),
    {
        let r = RxQueue { queue: 0 };
        assert(forall|m: u8| 0u8 & m == 0) by (bit_vector);
        assert(r@ =~= Set::<RxOps>::empty());
        r
    }

    /// Enqueue a new rx operation into the queue
    pub fn enqueue(&mut self, op: RxOps)
        ensures
            *final(self) == old(self).with(op),
            final(self)@ == old(self)@.insert(op),
    {
        self.queue = self.queue | op.bitmask();
        proof {
            law_queue_is_set(*old(self), op);
        }
    }

    /// Dequeue an rx operation from the queue
    pub fn dequeue(&mut self) -> (r: Option<RxOps>)
        ensures
            r == first_op(old(self)@),
            match r {
                Some(op) => {
                    &&& *final(self) == old(self).without(op)
                    &&& final(self)@ == old(self)@.remove(op)
                },
                None => *final(self) == *old(self),
            },
    {
        match self.peek() {
            Some(req) => {
                self.queue = self.queue & !req.bitmask();
                proof {
                    law_queue_is_set(*old(self), req);
                }
                Some(req)
            },
            None => None,
        }
    }

    /// Peek into the queue to check if it contains an rx operation
    pub fn peek(&self) -> (r: Option<RxOps>)
        ensures
            r == first_op(self@),
    {
        if self.contains(RxOps::Request.bitmask()) {
            assert(self@.contains(RxOps::Request));
            return Some(RxOps::Request);
        }
        assert(!self@.contains(RxOps::Request));
        if self.contains(RxOps::Rw.bitmask()) {
            assert(self@.contains(RxOps::Rw));
            return Some(RxOps::Rw);
        }
        assert(!self@.contains(RxOps::Rw));
        if self.contains(RxOps::Response.bitmask()) {
            assert(self@.contains(RxOps::Response));
            return Some(RxOps::Response);
        }
        assert(!self@.contains(RxOps::Response));
        if self.contains(RxOps::CreditUpdate.bitmask()) {
            assert(self@.contains(RxOps::CreditUpdate));
            return Some(RxOps::CreditUpdate);
        }
        assert(!self@.contains(RxOps::CreditUpdate));
        if self.contains(RxOps::Rst.bitmask()) {
            assert(self@.contains(RxOps::Rst));
            Some(RxOps::Rst)
        } else {
            assert(!self@.contains(RxOps::Rst));
            None
        }
    }

    /// Check if the queue contains a particular rx operation
    pub fn contains(&self, op: u8) -> (r: bool)
        ensures
            r == (self.queue & op != 0),
            forall|o: RxOps| op == #[trigger] o.mask() ==> r == self@.contains(o),
    {
        (self.queue & op) != 0
    }

    /// Check if there are any pending rx operations in the queue
    pub fn pending_rx(&self) -> (r: bool)
        ensures
            r == (self.queue != 0),
    {
        self.queue != 0
    }
}

/// Setting an operation's bit touches no other operation's.
proof fn lemma_set_bit(q: u8, op: RxOps)
    ensures
        (q | op.mask()) & op.mask() != 0,
        forall|o: RxOps|
            o != op ==> ((q | op.mask()) & #[trigger] o.mask() != 0) == (q & o.mask() != 0),
{
    let m = op.mask();
    assert((q | m) & m != 0) by (bit_vector)
        requires
            m == 1 || m == 2 || m == 4 || m == 8 || m == 16,
    ;
    assert forall|o: RxOps| o != op implies ((q | m) & #[trigger] o.mask() != 0) == (q & o.mask()
        != 0) by {
        let n = o.mask();
        assert(((q | m) & n != 0) == (q & n != 0)) by (bit_vector)
            requires
                m == 1 || m == 2 || m == 4 || m == 8 || m == 16,
                n == 1 || n == 2 || n == 4 || n == 8 || n == 16,
                n != m,
        ;
    }
}

/// Clearing an operation's bit touches no other operation's.
proof fn lemma_clear_bit(q: u8, op: RxOps)
    ensures
        (q & !op.mask()) & op.mask() == 0,
        forall|o: RxOps|
            o != op ==> ((q & !op.mask()) & #[trigger] o.mask() != 0) == (q & o.mask() != 0),
{
    let m = op.mask();
    assert((q & !m) & m == 0) by (bit_vector);
    assert forall|o: RxOps| o != op implies ((q & !m) & #[trigger] o.mask() != 0) == (q & o.mask()
        != 0) by {
        let n = o.mask();
        assert(((q & !m) & n != 0) == (q & n != 0)) by (bit_vector)
            requires
                m == 1 || m == 2 || m == 4 || m == 8 || m == 16,
                n == 1 || n == 2 || n == 4 || n == 8 || n == 16,
                n != m,
        ;
    }
}

/// The queue is a set of operations: one made pending joins the others, one no longer pending leaves
/// them.
pub proof fn law_queue_is_set(q: RxQueue, op: RxOps)
    ensures
        q.with(op)@ == q@.insert(op),
        q.without(op)@ == q@.remove(op),
{
    lemma_set_bit(q.queue, op);
    lemma_clear_bit(q.queue, op);
    assert(q.with(op)@ =~= q@.insert(op));
    assert(q.without(op)@ =~= q@.remove(op));
}

/// A queue that only ever had operations enqueued and dequeued has none of the three spare bits
/// set, and is then pending exactly while it holds an operation.
pub proof fn law_pending_means_held(q: RxQueue)
    requires
        q.queue < 32,
    ensures
        q.queue != 0 <==> q@ != Set::<RxOps>::empty(),
        forall|op: RxOps| (q.queue | #[trigger] op.mask()) < 32,
        forall|op: RxOps| (q.queue & !#[trigger] op.mask()) < 32,
{
    let b = q.queue;
    assert(b != 0 ==> b & 1 != 0 || b & 2 != 0 || b & 4 != 0 || b & 8 != 0 || b & 16 != 0)
        by (bit_vector)
        requires
            b < 32,
    ;
    assert(forall|m: u8| 0u8 & m == 0) by (bit_vector);
    if b != 0 {
        let op = if b & 1 != 0 {
            RxOps::Request
        } else if b & 2 != 0 {
            RxOps::Rw
        } else if b & 4 != 0 {
            RxOps::Response
        } else if b & 8 != 0 {
            RxOps::CreditUpdate
        } else {
            RxOps::Rst
        };
        assert(q@.contains(op));
    } else {
        assert(q@ =~= Set::<RxOps>::empty());
    }
    assert forall|op: RxOps| (b | #[trigger] op.mask()) < 32 by {
        let m = op.mask();
        assert((b | m) < 32) by (bit_vector)
            requires
                b < 32,
                m < 32,
        ;
    }
    assert forall|op: RxOps| (b & !#[trigger] op.mask()) < 32 by {
        let m = op.mask();
        assert((b & !m) < 32) by (bit_vector)
            requires
                b < 32,
        ;
    }
}

/// A queue of which only one operation's bit is set holds just that operation.
pub proof fn law_single(q: RxQueue, op: RxOps)
    requires
        q.queue == op.mask(),
    ensures
        q@ == set![op],
{
    let none = RxQueue { queue: 0 };
    let m = op.mask();
    assert(0u8 | m == m) by (bit_vector);
    law_queue_is_set(none, op);
    law_pending_means_held(none);
    assert(q@ =~= set![op]);
}

/// A queue of which no bit is set holds no operation.
pub proof fn law_empty_pends_nothing(q: RxQueue, op: RxOps)
    ensures
        q.queue == 0 ==> !q@.contains(op),
{
    if q.queue == 0 {
        law_pending_means_held(q);
    }
}

/// The operation served next is the pending one that comes first in the order of service; there is
/// none only if nothing is pending.
pub proof fn law_first_op(pending: Set<RxOps>, op: RxOps)
    ensures
        first_op(pending) == Some(op) <==> is_first(pending, op),
        first_op(pending) is None <==> pending == Set::<RxOps>::empty(),
{
    if first_op(pending) is None {
        assert(pending =~= Set::<RxOps>::empty());
    }
    if is_first(pending, op) {
        assert(pending.contains(RxOps::Request) ==> op == RxOps::Request);
        assert(pending.contains(RxOps::Rw) ==> op.rank() <= 1);
        assert(pending.contains(RxOps::Response) ==> op.rank() <= 2);
        assert(pending.contains(RxOps::CreditUpdate) ==> op.rank() <= 3);
    }
}

/// The operations in the order in which repeated dequeuing hands them out.
pub open spec fn service_order(pending: Set<RxOps>) -> Seq<RxOps> {
    seq![RxOps::Request, RxOps::Rw, RxOps::Response, RxOps::CreditUpdate, RxOps::Rst].filter(
        |op: RxOps| pending.contains(op),
    )
}

/// Dequeuing hands out every pending operation once, in the order of service: the first is at the
/// front of that order, and without it the rest is what remains to be handed out.
pub proof fn law_dequeue_order(pending: Set<RxOps>, op: RxOps)
    requires
        first_op(pending) == Some(op),
    ensures
        service_order(pending) == seq![op] + service_order(pending.remove(op)),
{
    reveal_with_fuel(Seq::filter, 6);
    let all = seq![RxOps::Request, RxOps::Rw, RxOps::Response, RxOps::CreditUpdate, RxOps::Rst];
    let a4 = all.drop_last();
    let a3 = a4.drop_last();
    let a2 = a3.drop_last();
    let a1 = a2.drop_last();
    assert(a1 =~= seq![RxOps::Request]);
    assert(a1.drop_last() =~= Seq::<RxOps>::empty());
    let before = service_order(pending);
    let after = service_order(pending.remove(op));
    assert(before =~= seq![op] + after);
}

/// Enqueuing is idempotent and its order does not matter.
pub proof fn law_enqueue(q: u8, a: RxOps, b: RxOps)
    ensures
        (q | a.mask()) | a.mask() == q | a.mask(),
        (q | a.mask()) | b.mask() == (q | b.mask()) | a.mask(),
{
    let m = a.mask();
    let n = b.mask();
    assert((q | m) | m == q | m) by (bit_vector);
    assert((q | m) | n == (q | n) | m) by (bit_vector);
}

} // verus!
