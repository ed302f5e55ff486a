use crate::message::Request;
use std::collections::VecDeque;
use vstd::prelude::*;

verus! {

/// The operations that travel to the worker.
#[derive(Debug, PartialEq, Eq, Structural, Clone, Copy)]
pub enum RecogMsgType {
    OpenChannel,
    CloseChannel,
    /// A request of the host to work on. The host keeps the request; the
    /// message only refers to it.
    RequestProcess { request: Request },
}

/// One operation for one channel.
#[derive(Debug, PartialEq, Eq, Structural, Clone, Copy)]
pub struct RecogMsg {
    pub type_: RecogMsgType,
    /// The host's handle for the channel that the operation is for.
    pub channel: usize,
}

/// The queue `q` with `msg` offered to it, where the queue has `slots`
/// places: the message goes to the tail if a place is free.
pub open spec fn enqueued(q: Seq<RecogMsg>, slots: nat, msg: RecogMsg) -> Seq<RecogMsg> {
    if q.len() < slots {
        q.push(msg)
    } else {
        q
    }
}

/// What is left of `q` after `n` messages were taken from it.
pub open spec fn after_drains(q: Seq<RecogMsg>, n: nat) -> Seq<RecogMsg>
    decreases n,
{
    if n == 0 {
        q
    } else {
        let rest = after_drains(q, (n - 1) as nat);
        if rest.len() == 0 {
            rest
        } else {
            rest.skip(1)
        }
    }
}

/// The messages that `n` takes from `q` hand out, in the order they come.
pub open spec fn drained(q: Seq<RecogMsg>, n: nat) -> Seq<RecogMsg>
    decreases n,
{
    if n == 0 {
        Seq::empty()
    } else {
        let rest = after_drains(q, (n - 1) as nat);
        if rest.len() == 0 {
            drained(q, (n - 1) as nat)
        } else {
            drained(q, (n - 1) as nat).push(rest[0])
        }
    }
}

/// The messages that wait for the one worker, first in, first out, in a
/// fixed number of places.
///
/// Nothing is ever reordered, batched or given priority. Because the worker
/// finishes one message before it takes the next, whatever reaches a channel
/// through this queue happens in the order in which it was asked for.
pub struct ControlQueue {
    pending: VecDeque<RecogMsg>,
    slots: usize,
}

impl View for ControlQueue {
    type V = Seq<RecogMsg>;

    closed spec fn view(&self) -> Seq<RecogMsg> {
        self.pending@
    }
}

impl ControlQueue {
    /// The number of places.
    pub closed spec fn slots(&self) -> nat {
        self.slots as nat
    }

    /// An empty queue with `slots` places.
    pub fn new(slots: usize) -> (queue: ControlQueue)
        ensures
            queue@ == Seq::<RecogMsg>::empty(),
            queue.slots() == slots,
    {
        ControlQueue { pending: VecDeque::new(), slots }
    }

    /// Puts `msg` at the tail and says whether there was a place for it. A
    /// message that finds no place is dropped: nobody tries again.
    pub fn enqueue(&mut self, msg: RecogMsg) -> (accepted: bool)
        ensures
            accepted <==> old(self)@.len() < old(self).slots(),
            final(self)@ == enqueued(old(self)@, old(self).slots(), msg),
            final(self).slots() == old(self).slots(),
    {
        if self.pending.len() < self.slots {
            self.pending.push_back(msg);
            true
        } else {
            false
        }
    }

    /// Takes the message at the head, if one waits.
    pub fn drain_one(&mut self) -> (msg: Option<RecogMsg>)
        ensures
            msg == if old(self)@.len() > 0 {
                Some(old(self)@[0])
            } else {
                None
            },
            final(self)@ == after_drains(old(self)@, 1),
            final(self).slots() == old(self).slots(),
    {
        let msg = self.pending.pop_front();
        proof {
            reveal_with_fuel(after_drains, 2);
            if old(self)@.len() > 0 {
                assert(old(self)@.skip(1) =~= old(self)@.subrange(1, old(self)@.len() as int));
            }
        }
        msg
    }
}

/// First in, first out: what `n` takes hand out is the first `n` messages of
/// the queue, in their order, and the others stay, in theirs.
pub proof fn lemma_drains_in_order(q: Seq<RecogMsg>, n: nat)
    ensures
        n <= q.len() ==> drained(q, n) == q.take(n as int),
        n <= q.len() ==> after_drains(q, n) == q.skip(n as int),
        n >= q.len() ==> drained(q, n) == q,
        n >= q.len() ==> after_drains(q, n) == Seq::<RecogMsg>::empty(),
    decreases n,
{
    if n > 0 {
        lemma_drains_in_order(q, (n - 1) as nat);
        if n <= q.len() {
            assert(q.skip(n - 1).skip(1) =~= q.skip(n as int));
            assert(q.take(n - 1).push(q.skip(n - 1)[0]) =~= q.take(n as int));
        } else {
            assert(after_drains(q, (n - 1) as nat) =~= Seq::<RecogMsg>::empty());
        }
        if n == q.len() {
            assert(q.take(n as int) =~= q);
            assert(q.skip(n as int) =~= Seq::<RecogMsg>::empty());
        }
    } else {
        assert(q.take(0) =~= Seq::<RecogMsg>::empty());
        assert(q.skip(0) =~= q);
    }
}

/// Two messages that were both accepted leave in the order in which they
/// came, after everything that waited before them.
pub proof fn lemma_enqueue_order(q: Seq<RecogMsg>, slots: nat, first: RecogMsg, second: RecogMsg)
    requires
        q.len() + 2 <= slots,
    ensures
        drained(enqueued(enqueued(q, slots, first), slots, second), q.len() + 2) == q.push(
            first,
        ).push(second),
{
    lemma_drains_in_order(q.push(first).push(second), q.len() + 2);
}

} // verus!
