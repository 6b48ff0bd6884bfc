//! The hand-off between a producer and its consumers: one slot, and the
//! newest value wins.
//!
//! A send never waits: it overwrites what no consumer has taken yet. A
//! receive never waits either: it takes what is there, or nothing. Share the
//! slot between threads behind a lock; each operation is then one step.

use vstd::prelude::*;

verus! {

/// One operation on a slot.
pub ghost enum SlotOp<T> {
    Send(T),
    Recv,
}

/// What is pending after one operation: a send leaves its value, whatever
/// was pending before; a receive leaves nothing.
pub open spec fn slot_step<T>(pending: Option<T>, op: SlotOp<T>) -> Option<T> {
    match op {
        SlotOp::Send(value) => Some(value),
        SlotOp::Recv => None,
    }
}

/// What one operation hands to a consumer: a receive hands out what was
/// pending; a send hands out nothing.
pub open spec fn slot_yield<T>(pending: Option<T>, op: SlotOp<T>) -> Option<T> {
    match op {
        SlotOp::Send(_) => None,
        SlotOp::Recv => pending,
    }
}

/// What is pending in a new slot after a run of operations, the first one
/// first.
pub open spec fn slot_run<T>(ops: Seq<SlotOp<T>>) -> Option<T>
    decreases ops.len(),
{
    if ops.len() == 0 {
        None
    } else {
        slot_step(slot_run(ops.drop_last()), ops.last())
    }
}

/// The values sent during a run of operations, in the order of sending.
pub open spec fn sent<T>(ops: Seq<SlotOp<T>>) -> Seq<T>
    decreases ops.len(),
{
    if ops.len() == 0 {
        Seq::empty()
    } else {
        match ops.last() {
            SlotOp::Send(value) => sent(ops.drop_last()).push(value),
            SlotOp::Recv => sent(ops.drop_last()),
        }
    }
}

/// The values that consumers got out of a new slot during a run of
/// operations, in the order of receiving.
pub open spec fn received<T>(ops: Seq<SlotOp<T>>) -> Seq<T>
    decreases ops.len(),
{
    if ops.len() == 0 {
        Seq::empty()
    } else {
        match slot_yield(slot_run(ops.drop_last()), ops.last()) {
            Some(value) => received(ops.drop_last()).push(value),
            None => received(ops.drop_last()),
        }
    }
}

/// For each value that consumers got, its position among the values sent:
/// a receive takes the value that was sent last before it.
pub open spec fn deliveries<T>(ops: Seq<SlotOp<T>>) -> Seq<int>
    decreases ops.len(),
{
    if ops.len() == 0 {
        Seq::empty()
    } else {
        match slot_yield(slot_run(ops.drop_last()), ops.last()) {
            Some(_) => deliveries(ops.drop_last()).push(sent(ops.drop_last()).len() - 1),
            None => deliveries(ops.drop_last()),
        }
    }
}

/// A single-slot channel in which the newest value wins.
#[derive(Debug)]
pub struct LatestSlot<T> {
    slot: Option<T>,
}

impl<T> View for LatestSlot<T> {
    type V = Option<T>;

    closed spec fn view(&self) -> Option<T> {
        self.slot
    }
}

impl<T> LatestSlot<T> {
    /// An empty slot.
    pub fn new() -> (slot: LatestSlot<T>)
        ensures
            slot@ == slot_run(Seq::<SlotOp<T>>::empty()),
            slot@ is None,
    {
        LatestSlot { slot: None }
    }

    /// Puts a value into the slot. A value that no consumer has taken is
    /// pushed out and handed back to the sender.
    pub fn send(&mut self, value: T) -> (displaced: Option<T>)
        ensures
            final(self)@ == slot_step(old(self)@, SlotOp::Send(value)),
            final(self)@ == Some(value),
            displaced == old(self)@,
    {
        let mut incoming = Some(value);
        core::mem::swap(&mut self.slot, &mut incoming);
        incoming
    }

    /// Takes the pending value out of the slot, if there is one.
    pub fn try_recv(&mut self) -> (value: Option<T>)
        ensures
            final(self)@ == slot_step(old(self)@, SlotOp::Recv),
            final(self)@ is None,
            value == slot_yield(old(self)@, SlotOp::Recv),
            value == old(self)@,
    {
        self.slot.take()
    }

    /// Whether a value waits to be taken.
    pub fn has_pending(&self) -> (pending: bool)
        ensures
            pending <==> self@ is Some,
    {
        self.slot.is_some()
    }
}

/// What is pending is always the value that was sent last, and it is pending
/// exactly when nothing was received after it.
pub proof fn lemma_pending_is_last_sent<T>(ops: Seq<SlotOp<T>>)
    ensures
        slot_run(ops) is Some <==> ops.len() > 0 && ops.last() is Send,
        slot_run(ops) matches Some(value) ==> sent(ops).len() > 0 && value == sent(ops).last(),
{
    if ops.len() > 0 {
        assert(slot_run(ops) == slot_step(slot_run(ops.drop_last()), ops.last()));
    }
}

/// The newest value wins: however many values were sent and not taken, a
/// receive right after the send of `value` hands out `value`, and the slot is
/// empty afterwards.
pub proof fn law_latest_wins<T>(ops: Seq<SlotOp<T>>, value: T)
    ensures
        slot_run(ops.push(SlotOp::Send(value))) == Some(value),
        slot_yield(slot_run(ops.push(SlotOp::Send(value))), SlotOp::Recv) == Some(value),
        slot_run(ops.push(SlotOp::Send(value)).push(SlotOp::Recv)) is None,
{
    let after_send = ops.push(SlotOp::Send(value));
    assert(after_send.drop_last() =~= ops);
    assert(after_send.push(SlotOp::Recv).drop_last() =~= after_send);
}

/// A receive with nothing sent since the last receive hands out nothing: no
/// value is delivered twice.
pub proof fn law_nothing_twice<T>(ops: Seq<SlotOp<T>>)
    ensures
        slot_yield(slot_run(ops.push(SlotOp::Recv)), SlotOp::Recv) is None,
{
    assert(ops.push(SlotOp::Recv).drop_last() =~= ops);
}

/// The slot never reorders: what consumers get is a selection of what was
/// sent, in the order of sending. Each value received is the newest that was
/// sent before the receive, and no value sent earlier comes after it.
pub proof fn law_delivery_in_order<T>(ops: Seq<SlotOp<T>>)
    ensures
        received(ops).len() == deliveries(ops).len(),
        forall|k: int|
            0 <= k < deliveries(ops).len() ==> 0 <= #[trigger] deliveries(ops)[k] < sent(ops).len(),
        forall|k: int|
            0 <= k < deliveries(ops).len() ==> #[trigger] received(ops)[k] == sent(ops)[deliveries(
                ops,
            )[k]],
        forall|j: int, k: int|
            0 <= j < k < deliveries(ops).len() ==> deliveries(ops)[j] < deliveries(ops)[k],
        slot_run(ops) is Some && deliveries(ops).len() > 0 ==> deliveries(ops).last() < sent(
            ops,
        ).len() - 1,
    decreases ops.len(),
{
    if ops.len() > 0 {
        let prev = ops.drop_last();
        law_delivery_in_order(prev);
        lemma_pending_is_last_sent(prev);
        lemma_pending_is_last_sent(ops);
        match ops.last() {
            SlotOp::Send(value) => {
                assert(sent(ops) == sent(prev).push(value));
                assert(deliveries(ops) == deliveries(prev));
                assert(received(ops) == received(prev));
            },
            SlotOp::Recv => {
                assert(sent(ops) == sent(prev));
                match slot_run(prev) {
                    Some(value) => {
                        let newest = sent(prev).len() - 1;
                        assert(deliveries(ops) == deliveries(prev).push(newest));
                        assert(received(ops) == received(prev).push(value));
                        assert forall|j: int, k: int|
                            0 <= j < k < deliveries(ops).len() implies deliveries(ops)[j]
                            < deliveries(ops)[k] by {
                            if k == deliveries(prev).len() {
                                assert(deliveries(prev)[j] <= deliveries(prev).last());
                            }
                        }
                    },
                    None => {
                        assert(deliveries(ops) == deliveries(prev));
                        assert(received(ops) == received(prev));
                    },
                }
            },
        }
    }
}

} // verus!
