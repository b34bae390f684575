//! The buffer of inbound messages: first in, first out.
//!
//! The delivery callback appends, consumers remove from the front.  Whoever
//! shares a queue between threads serialises the calls; what a serialised
//! history of appends and removals delivers is stated by
//! [`lemma_fifo_nothing_lost`].

use crate::message::{Message, MessageView};
use vstd::prelude::*;

verus! {

/// The messages that were delivered and not yet consumed, oldest first.
pub struct MessageQueue {
    items: Vec<Message>,
}

impl View for MessageQueue {
    type V = Seq<MessageView>;

    closed spec fn view(&self) -> Seq<MessageView> {
        self.items.deep_view()
    }
}

/// One step of a queue's history.
pub enum QueueOp {
    /// The delivery callback appends this message.
    Push(MessageView),
    /// A consumer asks for the oldest message.
    Pop,
}

/// The queue after `op`, and what `op` hands to the consumer.
pub open spec fn apply(queue: Seq<MessageView>, op: QueueOp) -> (Seq<MessageView>, Option<
    MessageView,
>) {
    match op {
        QueueOp::Push(m) => (queue.push(m), None),
        QueueOp::Pop => if queue.len() > 0 {
            (queue.subrange(1, queue.len() as int), Some(queue[0]))
        } else {
            (queue, None)
        },
    }
}

/// The queue after the history `ops`, begun with `start`.
pub open spec fn remaining(start: Seq<MessageView>, ops: Seq<QueueOp>) -> Seq<MessageView>
    decreases ops.len(),
{
    if ops.len() == 0 {
        start
    } else {
        apply(remaining(start, ops.drop_last()), ops.last()).0
    }
}

/// The messages that the history `ops` handed to consumers, in the order in
/// which it handed them out.
pub open spec fn popped(start: Seq<MessageView>, ops: Seq<QueueOp>) -> Seq<MessageView>
    decreases ops.len(),
{
    if ops.len() == 0 {
        Seq::empty()
    } else {
        let before = popped(start, ops.drop_last());
        match apply(remaining(start, ops.drop_last()), ops.last()).1 {
            Some(m) => before.push(m),
            None => before,
        }
    }
}

/// The messages that the history `ops` appended, in the order in which it
/// appended them.
pub open spec fn pushed(ops: Seq<QueueOp>) -> Seq<MessageView>
    decreases ops.len(),
{
    if ops.len() == 0 {
        Seq::empty()
    } else {
        match ops.last() {
            QueueOp::Push(m) => pushed(ops.drop_last()).push(m),
            QueueOp::Pop => pushed(ops.drop_last()),
        }
    }
}

/// Whatever the interleaving of appends and removals, the messages handed
/// out followed by those still queued are the messages that were queued at
/// the start followed by those appended: each one once, in the order of
/// arrival.
pub proof fn lemma_fifo_nothing_lost(start: Seq<MessageView>, ops: Seq<QueueOp>)
    ensures
        popped(start, ops) + remaining(start, ops) == start + pushed(ops),
        popped(start, ops).is_prefix_of(start + pushed(ops)),
        popped(start, ops).len() + remaining(start, ops).len() == start.len() + pushed(ops).len(),
        remaining(start, ops).len() == 0 ==> popped(start, ops) == start + pushed(ops),
    decreases ops.len(),
{
    if ops.len() == 0 {
        assert(popped(start, ops) + remaining(start, ops) =~= start + pushed(ops));
    } else {
        let earlier = ops.drop_last();
        lemma_fifo_nothing_lost(start, earlier);
        let out = popped(start, earlier);
        let queue = remaining(start, earlier);
        assert(out + queue == start + pushed(earlier));
        match ops.last() {
            QueueOp::Push(m) => {
                assert(out + queue.push(m) =~= (out + queue).push(m));
                assert(start + pushed(earlier).push(m) =~= (start + pushed(earlier)).push(m));
            },
            QueueOp::Pop => {
                if queue.len() > 0 {
                    assert(out.push(queue[0]) + queue.subrange(1, queue.len() as int) =~= out
                        + queue);
                }
            },
        }
    }
    let all = start + pushed(ops);
    let out = popped(start, ops);
    assert(out + remaining(start, ops) == all);
    assert(out =~= all.subrange(0, out.len() as int));
    if remaining(start, ops).len() == 0 {
        assert(out =~= all);
    }
}

impl MessageQueue {
    /// The empty queue.
    pub fn new() -> (q: MessageQueue)
        ensures
            q@ == Seq::<MessageView>::empty(),
    {
        MessageQueue { items: Vec::new() }
    }

    /// The number of messages that wait.
    pub fn len(&self) -> (n: usize)
        ensures
            n == self@.len(),
    {
        self.items.len()
    }

    /// Whether no message waits.
    pub fn is_empty(&self) -> (b: bool)
        ensures
            b == (self@.len() == 0),
    {
        self.items.len() == 0
    }

    /// Appends `message` behind every message that waits.
    pub fn push(&mut self, message: Message)
        ensures
            final(self)@ == old(self)@.push(message@),
            (final(self)@, None::<MessageView>) == apply(old(self)@, QueueOp::Push(message@)),
    {
        self.items.push(message);
    }

    /// Removes and returns the oldest message; `None`, and no change, when
    /// none waits.
    pub fn pop_if_available(&mut self) -> (m: Option<Message>)
        ensures
            old(self)@.len() == 0 ==> m is None && final(self)@ == old(self)@,
            old(self)@.len() > 0 ==> m is Some && m->0@ == old(self)@[0],
            old(self)@.len() > 0 ==> final(self)@ == old(self)@.subrange(
                1,
                old(self)@.len() as int,
            ),
            (final(self)@, m.deep_view()) == apply(old(self)@, QueueOp::Pop),
    {
        if self.items.len() > 0 {
            Some(self.items.remove(0))
        } else {
            None
        }
    }
}

} // verus!
