//! Messages sent to the runner, and the queue that carries them.
use crate::config::GbaConfig;
use crate::gba::Gba;
use crate::sync::{lock, replace_locked};
use std::collections::VecDeque;
use vstd::prelude::*;

verus! {

/// A button of the console.
#[derive(Copy, Clone, Debug, PartialEq, Eq, Structural, PartialOrd, Ord, Hash)]
pub enum Key {
    A,
    B,
    L,
    R,
    Up,
    Down,
    Left,
    Right,
    Start,
    Select,
}

/// An order for the runner, consumed exactly once.
#[derive(Debug)]
pub enum Message {
    /// Stop the runner for good.
    Exit,
    /// Replace the engine's state with a fresh one built from the configuration.
    Reset(GbaConfig),
    /// Start advancing the engine.
    Run,
    /// Stop advancing the engine.
    Pause,
    /// A button was pressed or released.
    Key { key: Key, pressed: bool },
}

/// Whether `m` sets the run state itself: a `Run` or a `Pause`.
pub open spec fn steers(m: Message) -> bool {
    m is Run || m is Pause
}

/// Whether a `Run` or a `Pause` is among `ms`.
pub open spec fn any_steers(ms: Seq<Message>) -> bool {
    exists|i: int| 0 <= i < ms.len() && steers(#[trigger] ms[i])
}

/// A first-in first-out queue of messages.
pub struct CommandQueue {
    items: VecDeque<Message>,
}

impl View for CommandQueue {
    type V = Seq<Message>;

    closed spec fn view(&self) -> Seq<Message> {
        self.items@
    }
}

impl CommandQueue {
    pub fn new() -> (r: Self)
        ensures
            r@ == Seq::<Message>::empty(),
    {
        CommandQueue { items: VecDeque::new() }
    }

    pub fn len(&self) -> (r: usize)
        ensures
            r == self@.len(),
    {
        self.items.len()
    }

    pub fn is_empty(&self) -> (r: bool)
        ensures
            r == (self@.len() == 0),
    {
        self.items.len() == 0
    }

    /// Whether a `Run` or a `Pause` is queued.
    pub fn has_run_or_pause(&self) -> (r: bool)
        ensures
            r == any_steers(self@),
    {
        let n = self.items.len();
        let mut i: usize = 0;
        while i < n
            invariant
                n == self@.len(),
                i <= n,
                forall|k: int| 0 <= k < i ==> !steers(#[trigger] self@[k]),
            decreases n - i,
        {
            match &self.items[i] {
                Message::Run | Message::Pause => {
                    assert(steers(self@[i as int]));
                    return true;
                },
                _ => {},
            }
            i = i + 1;
        }
        false
    }

    /// Adds a message at the back.
    pub fn push(&mut self, message: Message)
        ensures
            final(self)@ == old(self)@.push(message),
    {
        self.items.push_back(message);
    }

    /// Adds the messages at the back, in order.
    pub fn push_all(&mut self, messages: Vec<Message>)
        ensures
            final(self)@ == old(self)@ + messages@,
    {
        let ghost ms = messages@;
        let ghost start = self@;
        let mut rest = messages;
        let mut reversed: Vec<Message> = Vec::new();
        while rest.len() > 0
            invariant
                reversed@.len() <= ms.len(),
                rest@ == ms.subrange(0, ms.len() - reversed@.len()),
                forall|k: int| 0 <= k < reversed@.len() ==> reversed@[k] == ms[ms.len() - 1 - k],
            decreases rest@.len(),
        {
            if let Some(m) = rest.pop() {
                reversed.push(m);
            }
        }
        while reversed.len() > 0
            invariant
                reversed@.len() <= ms.len(),
                self@ == start + ms.subrange(0, ms.len() - reversed@.len()),
                forall|k: int| 0 <= k < reversed@.len() ==> reversed@[k] == ms[ms.len() - 1 - k],
            decreases reversed@.len(),
        {
            let ghost before = self@;
            if let Some(m) = reversed.pop() {
                self.items.push_back(m);
                assert(ms.subrange(0, ms.len() - reversed@.len()) =~= ms.subrange(
                    0,
                    ms.len() - reversed@.len() - 1,
                ).push(m));
                assert(self@ =~= start + ms.subrange(0, ms.len() - reversed@.len()));
            }
        }
        assert(ms.subrange(0, ms.len() as int) =~= ms);
    }

    /// Takes the message at the front, the oldest one.
    pub fn pop(&mut self) -> (r: Option<Message>)
        ensures
            old(self)@.len() == 0 ==> r is None && final(self)@ == old(self)@,
            old(self)@.len() > 0 ==> r == Some(old(self)@[0]) && final(self)@
                == old(self)@.drop_first(),
    {
        let r = self.items.pop_front();
        proof {
            if old(self)@.len() > 0 {
                assert(final(self)@ =~= old(self)@.drop_first());
            }
        }
        r
    }
}

/// An operation on a queue: a message pushed at the back, or a pop at the front.
pub ghost enum QueueOp<T> {
    Push(T),
    Pop,
}

/// The queue's contents after `ops`, starting from `q`, as `push` and `pop` change them.
pub open spec fn queue_after<T>(q: Seq<T>, ops: Seq<QueueOp<T>>) -> Seq<T>
    decreases ops.len(),
{
    if ops.len() == 0 {
        q
    } else {
        let next = match ops[0] {
            QueueOp::Push(m) => q.push(m),
            QueueOp::Pop => if q.len() == 0 { q } else { q.drop_first() },
        };
        queue_after(next, ops.drop_first())
    }
}

/// What the pops among `ops` hand out, in order, starting from `q`.
pub open spec fn popped<T>(q: Seq<T>, ops: Seq<QueueOp<T>>) -> Seq<T>
    decreases ops.len(),
{
    if ops.len() == 0 {
        Seq::empty()
    } else {
        match ops[0] {
            QueueOp::Push(m) => popped(q.push(m), ops.drop_first()),
            QueueOp::Pop => if q.len() == 0 {
                popped(q, ops.drop_first())
            } else {
                seq![q[0]] + popped(q.drop_first(), ops.drop_first())
            },
        }
    }
}

/// The messages pushed among `ops`, in order.
pub open spec fn pushed<T>(ops: Seq<QueueOp<T>>) -> Seq<T>
    decreases ops.len(),
{
    if ops.len() == 0 {
        Seq::empty()
    } else {
        match ops[0] {
            QueueOp::Push(m) => seq![m] + pushed(ops.drop_first()),
            QueueOp::Pop => pushed(ops.drop_first()),
        }
    }
}

/// Nothing is lost, duplicated or reordered: whatever pushes and pops happen, what
/// was popped followed by what is still queued is exactly what was queued at the
/// start followed by what was pushed.
pub proof fn lemma_queue_keeps_order<T>(q: Seq<T>, ops: Seq<QueueOp<T>>)
    ensures
        popped(q, ops) + queue_after(q, ops) == q + pushed(ops),
    decreases ops.len(),
{
    if ops.len() > 0 {
        let rest = ops.drop_first();
        match ops[0] {
            QueueOp::Push(m) => {
                lemma_queue_keeps_order(q.push(m), rest);
                assert(q.push(m) + pushed(rest) =~= q + (seq![m] + pushed(rest)));
            },
            QueueOp::Pop => {
                if q.len() == 0 {
                    lemma_queue_keeps_order(q, rest);
                } else {
                    lemma_queue_keeps_order(q.drop_first(), rest);
                    assert(seq![q[0]] + popped(q.drop_first(), rest) + queue_after(
                        q.drop_first(),
                        rest,
                    ) =~= seq![q[0]] + (q.drop_first() + pushed(rest)));
                    assert(seq![q[0]] + (q.drop_first() + pushed(rest)) =~= q + pushed(rest));
                }
            },
        }
    } else {
        assert(q + Seq::<T>::empty() =~= q);
        assert(Seq::<T>::empty() + q =~= q);
    }
}

/// The messages of one producer, among messages tagged with their producer.
pub open spec fn sent_by<T>(s: Seq<(nat, T)>, producer: nat) -> Seq<T>
    decreases s.len(),
{
    if s.len() == 0 {
        Seq::empty()
    } else if s[0].0 == producer {
        seq![s[0].1] + sent_by(s.drop_first(), producer)
    } else {
        sent_by(s.drop_first(), producer)
    }
}

proof fn lemma_sent_by_append<T>(a: Seq<(nat, T)>, b: Seq<(nat, T)>, producer: nat)
    ensures
        sent_by(a + b, producer) == sent_by(a, producer) + sent_by(b, producer),
    decreases a.len(),
{
    if a.len() == 0 {
        assert(a + b =~= b);
        assert(Seq::<T>::empty() + sent_by(b, producer) =~= sent_by(b, producer));
    } else {
        assert((a + b).drop_first() =~= a.drop_first() + b);
        lemma_sent_by_append(a.drop_first(), b, producer);
        if a[0].0 == producer {
            assert(seq![a[0].1] + (sent_by(a.drop_first(), producer) + sent_by(b, producer))
                =~= seq![a[0].1] + sent_by(a.drop_first(), producer) + sent_by(b, producer));
        }
    }
}

/// Order is kept per producer whatever the interleaving: when producers push into
/// one queue (each message tagged with its producer) and the consumer pops, the
/// messages the consumer has received from any one producer are the first ones
/// that producer sent, in the order it sent them.
///
/// This is stated of the queue model of `queue_after` and `popped`, whose steps
/// are the changes that the contracts of `CommandQueue::push` and
/// `CommandQueue::pop` state: a push appends at the back, a pop of a non-empty
/// queue hands out its front and drops it, a pop of an empty one changes nothing.
pub proof fn lemma_fifo_per_producer<T>(ops: Seq<QueueOp<(nat, T)>>, producer: nat)
    ensures
        sent_by(pushed(ops), producer) == sent_by(popped(Seq::empty(), ops), producer) + sent_by(
            queue_after(Seq::empty(), ops),
            producer,
        ),
        sent_by(popped(Seq::empty(), ops), producer).len() <= sent_by(pushed(ops), producer).len(),
        sent_by(popped(Seq::empty(), ops), producer) == sent_by(pushed(ops), producer).subrange(
            0,
            sent_by(popped(Seq::empty(), ops), producer).len() as int,
        ),
{
    let e = Seq::<(nat, T)>::empty();
    lemma_queue_keeps_order(e, ops);
    assert(e + pushed(ops) =~= pushed(ops));
    lemma_sent_by_append(popped(e, ops), queue_after(e, ops), producer);
    let got = sent_by(popped(e, ops), producer);
    let all = sent_by(pushed(ops), producer);
    assert(all.subrange(0, got.len() as int) =~= got);
}

/// The producer side of the runner's message queue. Sending never waits for the
/// runner; once the runner has exited, what is sent stays queued and is dropped
/// with the session: delivery is best effort.
pub struct MessageChannel<'a> {
    gba: &'a Gba,
}

impl<'a> MessageChannel<'a> {
    pub(crate) fn from(gba: &'a Gba) -> Self {
        MessageChannel { gba }
    }

    /// Queues a message behind every message sent before it from this thread,
    /// and wakes a waiting runner.
    pub fn send(&self, message: Message) {
        let mut guard = lock(&self.gba.commands);
        let mut queue = replace_locked(&mut guard, CommandQueue::new());
        queue.push(message);
        let _ = replace_locked(&mut guard, queue);
        self.gba.command_ready.notify_all();
    }

    /// Queues a sequence of messages in order under one hold of the queue's
    /// lock, so that no message of another producer comes between them, and
    /// wakes a waiting runner. The lock is released before this returns.
    pub fn send_all(&self, messages: Vec<Message>) {
        let mut guard = lock(&self.gba.commands);
        let mut queue = replace_locked(&mut guard, CommandQueue::new());
        queue.push_all(messages);
        let _ = replace_locked(&mut guard, queue);
        self.gba.command_ready.notify_all();
    }
}

} // verus!
