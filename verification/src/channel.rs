//! The bounded hand-off between two tasks, as a sequential model: what a
//! channel of a fixed capacity accepts, what it refuses, and in which order it
//! delivers. A refused value goes back to the sender, who waits and offers it
//! again: nothing is dropped and nothing overtakes.

use std::collections::VecDeque;
use vstd::prelude::*;

verus! {

/// Capacity of the hand-off from the template feed to the broadcaster: one
/// notification in flight, never a queue of superseded ones.
pub const TEMPLATE_CHANNEL_CAPACITY: usize = 1;

/// Capacity of the hand-off from the stratum server to the node: the number of
/// shares, over all connections, that may wait to be applied.
pub const STRATUM_SHARES_BUFFER_SIZE: usize = 1000;

/// The queue after an offer of `value`: the value joins at the back when there
/// is room, else the queue stays as it is.
pub open spec fn after_send<T>(queue: Seq<T>, limit: nat, value: T) -> Seq<T> {
    if queue.len() < limit {
        queue.push(value)
    } else {
        queue
    }
}

/// The queue after a receive: without its oldest value, if it had one.
pub open spec fn after_recv<T>(queue: Seq<T>) -> Seq<T> {
    if queue.len() > 0 {
        queue.subrange(1, queue.len() as int)
    } else {
        queue
    }
}

/// A channel that holds at most `limit()` values, oldest first.
pub struct BoundedChannel<T> {
    capacity: usize,
    queue: VecDeque<T>,
}

impl<T> View for BoundedChannel<T> {
    type V = Seq<T>;

    closed spec fn view(&self) -> Seq<T> {
        self.queue@
    }
}

impl<T> BoundedChannel<T> {
    /// The channel has room for at least one value and holds no more than
    /// its capacity.
    pub closed spec fn well_formed(&self) -> bool {
        0 < self.capacity && self.queue@.len() <= self.capacity
    }

    /// The capacity that the channel was made with.
    pub closed spec fn limit(&self) -> nat {
        self.capacity as nat
    }

    /// An empty channel of the given capacity.
    pub fn new(capacity: usize) -> (r: Self)
        requires
            capacity > 0,
        ensures
            r.well_formed(),
            r@ == Seq::<T>::empty(),
            r.limit() == capacity,
    {
        BoundedChannel { capacity, queue: VecDeque::new() }
    }

    /// The capacity that the channel was made with.
    pub fn capacity(&self) -> (r: usize)
        requires
            self.well_formed(),
        ensures
            r == self.limit(),
            r > 0,
    {
        self.capacity
    }

    /// The number of values that wait.
    pub fn len(&self) -> (r: usize)
        requires
            self.well_formed(),
        ensures
            r == self@.len(),
            r <= self.limit(),
    {
        self.queue.len()
    }

    /// Whether no value waits.
    pub fn is_empty(&self) -> (r: bool)
        ensures
            r == (self@.len() == 0),
    {
        self.queue.len() == 0
    }

    /// Whether an offer would be refused.
    pub fn is_full(&self) -> (r: bool)
        requires
            self.well_formed(),
        ensures
            r == (self@.len() == self.limit()),
    {
        self.queue.len() == self.capacity
    }

    /// Offers `value`. With room it joins at the back. Without room the
    /// channel stays as it is and the value comes back, for the sender to
    /// hold until a receive has made room.
    pub fn try_send(&mut self, value: T) -> (r: Result<(), T>)
        requires
            old(self).well_formed(),
        ensures
            final(self).well_formed(),
            final(self).limit() == old(self).limit(),
            final(self)@ == after_send(old(self)@, old(self).limit(), value),
            final(self)@.len() <= final(self).limit(),
            old(self)@.len() < old(self).limit() ==> r is Ok,
            old(self)@.len() >= old(self).limit() ==> r == Err::<(), T>(value),
    {
        if self.queue.len() < self.capacity {
            self.queue.push_back(value);
            Ok(())
        } else {
            Err(value)
        }
    }

    /// Takes the oldest value, if any waits.
    pub fn try_recv(&mut self) -> (r: Option<T>)
        requires
            old(self).well_formed(),
        ensures
            final(self).well_formed(),
            final(self).limit() == old(self).limit(),
            final(self)@ == after_recv(old(self)@),
            old(self)@.len() > 0 ==> r == Some(old(self)@[0]),
            old(self)@.len() == 0 ==> r is None,
    {
        self.queue.pop_front()
    }
}

/// One use of a channel: an offer of a value, or a receive.
pub enum ChannelOp<T> {
    Send(T),
    Recv,
}

/// What a run of offers and receives has come to: the values that wait, those
/// that were accepted so far and those that were delivered so far, each in the
/// order in which it happened.
pub struct ChannelTrace<T> {
    pub waiting: Seq<T>,
    pub accepted: Seq<T>,
    pub delivered: Seq<T>,
}

/// The trace after one more use of a channel of capacity `limit`.
pub open spec fn trace_step<T>(limit: nat, trace: ChannelTrace<T>, op: ChannelOp<T>)
    -> ChannelTrace<T> {
    match op {
        ChannelOp::Send(value) => ChannelTrace {
            waiting: after_send(trace.waiting, limit, value),
            accepted: if trace.waiting.len() < limit {
                trace.accepted.push(value)
            } else {
                trace.accepted
            },
            delivered: trace.delivered,
        },
        ChannelOp::Recv => ChannelTrace {
            waiting: after_recv(trace.waiting),
            accepted: trace.accepted,
            delivered: if trace.waiting.len() > 0 {
                trace.delivered.push(trace.waiting[0])
            } else {
                trace.delivered
            },
        },
    }
}

/// The trace of a whole run on a channel of capacity `limit` that starts
/// empty. The offers may come from any number of senders: `ops` is the order
/// in which the channel saw them.
pub open spec fn trace_of<T>(limit: nat, ops: Seq<ChannelOp<T>>) -> ChannelTrace<T>
    decreases ops.len(),
{
    if ops.len() == 0 {
        ChannelTrace {
            waiting: Seq::<T>::empty(),
            accepted: Seq::<T>::empty(),
            delivered: Seq::<T>::empty(),
        }
    } else {
        trace_step(limit, trace_of(limit, ops.drop_last()), ops.last())
    }
}

/// Delivery is first in, first out, and nothing is lost or made up: after any
/// run, what was delivered followed by what still waits is exactly what was
/// accepted, in the order of acceptance. The channel never holds more than its
/// capacity.
pub proof fn delivery_follows_acceptance<T>(limit: nat, ops: Seq<ChannelOp<T>>)
    ensures
        trace_of(limit, ops).delivered + trace_of(limit, ops).waiting == trace_of(
            limit,
            ops,
        ).accepted,
        trace_of(limit, ops).waiting.len() <= limit,
    decreases ops.len(),
{
    if ops.len() == 0 {
        assert(trace_of(limit, ops).delivered + trace_of(limit, ops).waiting =~= trace_of(
            limit,
            ops,
        ).accepted);
    } else {
        let before = trace_of(limit, ops.drop_last());
        let after = trace_of(limit, ops);
        delivery_follows_acceptance(limit, ops.drop_last());
        assert(before.delivered + before.waiting == before.accepted);
        assert(after == trace_step(limit, before, ops.last()));
        assert(after.delivered + after.waiting =~= after.accepted);
    }
}

/// With a single slot, the value that waits is always the newest one that was
/// accepted.
pub proof fn single_slot_holds_the_newest<T>(ops: Seq<ChannelOp<T>>)
    ensures
        trace_of(1, ops).waiting.len() <= 1,
        trace_of(1, ops).waiting.len() == 1 ==> trace_of(1, ops).accepted.len() > 0
            && trace_of(1, ops).waiting[0] == trace_of(1, ops).accepted.last(),
    decreases ops.len(),
{
    if ops.len() > 0 {
        single_slot_holds_the_newest(ops.drop_last());
    }
}

/// With a single slot, a receive never hands over a value older than the
/// newest one accepted: whatever it delivers is that newest one.
pub proof fn single_slot_never_delivers_a_stale_value<T>(ops: Seq<ChannelOp<T>>)
    requires
        trace_of(1, ops).waiting.len() > 0,
    ensures
        trace_step(1, trace_of(1, ops), ChannelOp::Recv).delivered.last() == trace_of(
            1,
            ops,
        ).accepted.last(),
        trace_step(1, trace_of(1, ops), ChannelOp::Recv).waiting.len() == 0,
{
    single_slot_holds_the_newest(ops);
}

/// With a single slot, an offer that finds a value waiting is refused and
/// changes nothing: no second value queues up behind the first.
pub proof fn single_slot_refuses_a_second_value<T>(ops: Seq<ChannelOp<T>>, value: T)
    requires
        trace_of(1, ops).waiting.len() > 0,
    ensures
        trace_step(1, trace_of(1, ops), ChannelOp::Send(value)) == trace_of(1, ops),
{
    single_slot_holds_the_newest(ops);
}

} // verus!
