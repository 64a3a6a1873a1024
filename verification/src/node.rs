//! The node actor: the one consumer of submitted shares and the only writer
//! of the share chain. It takes the shares in the order in which they arrive,
//! appends each valid one, reports each invalid one and goes on, and signals
//! once that the node is stopping.

use crate::channel::{delivery_follows_acceptance, trace_of, ChannelOp};
use vstd::prelude::*;

verus! {

/// Whether the node actor still takes shares.
#[derive(Debug, Clone, Copy, PartialEq, Eq, Structural)]
pub enum NodeState {
    Running,
    Stopped,
}

/// What reached the node actor.
pub enum NodeEvent<E> {
    /// A share came out of the channel; the flag is what the chain store's
    /// validation said of it against the current tip and difficulty.
    Share(E, bool),
    /// Somebody asked the node to stop.
    StopRequested,
    /// Something failed locally that the node cannot recover from.
    LocalFailure,
}

/// What the node actor has to do.
pub enum NodeAction<E> {
    /// Append this share to the chain and update the reward window.
    Append(E),
    /// Report this share as refused, and go on.
    Report(E),
    /// Complete the stopping trigger that the coordinator waits for.
    SignalStopping,
    /// Nothing: the actor has stopped.
    Nothing,
}

/// The state that follows an event. A share never changes it.
pub open spec fn next_state<E>(state: NodeState, event: NodeEvent<E>) -> NodeState {
    match event {
        NodeEvent::Share(_, _) => state,
        NodeEvent::StopRequested => NodeState::Stopped,
        NodeEvent::LocalFailure => NodeState::Stopped,
    }
}

/// The action that answers an event.
pub open spec fn next_action<E>(state: NodeState, event: NodeEvent<E>) -> NodeAction<E> {
    match state {
        NodeState::Stopped => NodeAction::Nothing,
        NodeState::Running => match event {
            NodeEvent::Share(share, valid) => if valid {
                NodeAction::Append(share)
            } else {
                NodeAction::Report(share)
            },
            NodeEvent::StopRequested => NodeAction::SignalStopping,
            NodeEvent::LocalFailure => NodeAction::SignalStopping,
        },
    }
}

/// The node actor.
pub struct NodeActor {
    state: NodeState,
}

impl View for NodeActor {
    type V = NodeState;

    closed spec fn view(&self) -> NodeState {
        self.state
    }
}

impl NodeActor {
    /// A running actor.
    pub fn new() -> (r: Self)
        ensures
            r@ == NodeState::Running,
    {
        NodeActor { state: NodeState::Running }
    }

    /// Whether the actor still takes shares.
    pub fn state(&self) -> (r: NodeState)
        ensures
            r == self@,
    {
        self.state
    }

    /// Takes an event and says what to do.
    pub fn step<E>(&mut self, event: NodeEvent<E>) -> (action: NodeAction<E>)
        ensures
            final(self)@ == next_state(old(self)@, event),
            action == next_action(old(self)@, event),
    {
        match self.state {
            NodeState::Stopped => NodeAction::Nothing,
            NodeState::Running => match event {
                NodeEvent::Share(share, valid) => {
                    if valid {
                        NodeAction::Append(share)
                    } else {
                        NodeAction::Report(share)
                    }
                },
                NodeEvent::StopRequested => {
                    self.state = NodeState::Stopped;
                    NodeAction::SignalStopping
                },
                NodeEvent::LocalFailure => {
                    self.state = NodeState::Stopped;
                    NodeAction::SignalStopping
                },
            },
        }
    }
}

/// The state of an actor after a run of events, starting as running.
pub open spec fn state_after<E>(events: Seq<NodeEvent<E>>) -> NodeState
    decreases events.len(),
{
    if events.len() == 0 {
        NodeState::Running
    } else {
        next_state(state_after(events.drop_last()), events.last())
    }
}

/// The shares that a run of events had the actor append, in the order of the
/// appends.
pub open spec fn appended<E>(events: Seq<NodeEvent<E>>) -> Seq<E>
    decreases events.len(),
{
    if events.len() == 0 {
        Seq::<E>::empty()
    } else {
        match next_action(state_after(events.drop_last()), events.last()) {
            NodeAction::Append(share) => appended(events.drop_last()).push(share),
            _ => appended(events.drop_last()),
        }
    }
}

/// How often a run of events had the actor signal that it is stopping.
pub open spec fn stops_signalled<E>(events: Seq<NodeEvent<E>>) -> nat
    decreases events.len(),
{
    if events.len() == 0 {
        0
    } else if next_action(state_after(events.drop_last()), events.last()) is SignalStopping {
        stops_signalled(events.drop_last()) + 1
    } else {
        stops_signalled(events.drop_last())
    }
}

/// The valid ones among a sequence of shares, in their order.
pub open spec fn valid_of<E>(shares: Seq<(E, bool)>) -> Seq<E>
    decreases shares.len(),
{
    if shares.len() == 0 {
        Seq::<E>::empty()
    } else if shares.last().1 {
        valid_of(shares.drop_last()).push(shares.last().0)
    } else {
        valid_of(shares.drop_last())
    }
}

/// The events of an actor that is handed exactly these shares, in this order.
pub open spec fn share_events<E>(shares: Seq<(E, bool)>) -> Seq<NodeEvent<E>> {
    Seq::new(shares.len(), |i: int| NodeEvent::Share(shares[i].0, shares[i].1))
}

/// A share that fails validation is reported and the actor runs on.
pub proof fn a_bad_share_never_halts<E>(share: E)
    ensures
        next_state(NodeState::Running, NodeEvent::Share(share, false)) == NodeState::Running,
        next_action(NodeState::Running, NodeEvent::Share(share, false)) == NodeAction::Report(
            share,
        ),
{
}

/// The actor signals that it is stopping at most once, and has done so
/// exactly when it has stopped. Further requests to stop do nothing.
pub proof fn stopping_is_signalled_once<E>(events: Seq<NodeEvent<E>>)
    ensures
        stops_signalled(events) <= 1,
        stops_signalled(events) == 1 <==> state_after(events) == NodeState::Stopped,
    decreases events.len(),
{
    if events.len() > 0 {
        stopping_is_signalled_once(events.drop_last());
    }
}

/// Filtering the valid shares goes through concatenation.
pub proof fn valid_of_concat<E>(first: Seq<(E, bool)>, second: Seq<(E, bool)>)
    ensures
        valid_of(first + second) == valid_of(first) + valid_of(second),
    decreases second.len(),
{
    if second.len() == 0 {
        assert(first + second =~= first);
        assert(valid_of(first) + valid_of(second) =~= valid_of(first));
    } else {
        valid_of_concat(first, second.drop_last());
        assert((first + second).drop_last() =~= first + second.drop_last());
        assert((first + second).last() == second.last());
        assert(valid_of(first + second) =~= valid_of(first) + valid_of(second));
    }
}

/// An actor that is handed shares appends exactly the valid ones, one for
/// each and in the order in which they were handed over.
pub proof fn appends_in_arrival_order<E>(shares: Seq<(E, bool)>)
    ensures
        state_after(share_events(shares)) == NodeState::Running,
        appended(share_events(shares)) == valid_of(shares),
    decreases shares.len(),
{
    if shares.len() > 0 {
        appends_in_arrival_order(shares.drop_last());
        assert(share_events(shares).drop_last() =~= share_events(shares.drop_last()));
        assert(share_events(shares).last() == NodeEvent::Share(
            shares.last().0,
            shares.last().1,
        ));
    }
}

/// However many senders offer shares to the channel, the chain grows by the
/// valid shares in the order in which the channel accepted them: what the
/// actor has appended after any run is the valid part of what was delivered,
/// and, followed by the valid part of what still waits, the valid part of
/// what was accepted.
pub proof fn chain_grows_in_channel_order<E>(limit: nat, ops: Seq<ChannelOp<(E, bool)>>)
    ensures
        appended(share_events(trace_of(limit, ops).delivered)) == valid_of(
            trace_of(limit, ops).delivered,
        ),
        valid_of(trace_of(limit, ops).delivered) + valid_of(trace_of(limit, ops).waiting)
            == valid_of(trace_of(limit, ops).accepted),
{
    let trace = trace_of(limit, ops);
    delivery_follows_acceptance(limit, ops);
    appends_in_arrival_order(trace.delivered);
    valid_of_concat(trace.delivered, trace.waiting);
}

} // verus!
