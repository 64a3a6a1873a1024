//! The one-shot signal that tells a subsystem to stop. It is fired at most
//! once and makes its subsystem stop at most once; firing or observing it
//! again is allowed and does nothing.

use vstd::prelude::*;

verus! {

/// Where a shutdown signal stands.
#[derive(Debug, Clone, Copy, PartialEq, Eq, Structural)]
pub enum SignalState {
    /// Not fired: the subsystem runs.
    Armed,
    /// Fired, and the subsystem has not seen it yet.
    Fired,
    /// Fired and seen: the subsystem has stopped.
    Observed,
}

/// The state after a firing: an armed signal becomes fired, any other stays.
pub open spec fn after_fire(state: SignalState) -> SignalState {
    match state {
        SignalState::Armed => SignalState::Fired,
        _ => state,
    }
}

/// The state after the subsystem has looked: a fired signal becomes observed,
/// any other stays.
pub open spec fn after_observe(state: SignalState) -> SignalState {
    match state {
        SignalState::Fired => SignalState::Observed,
        _ => state,
    }
}

/// A single-use stop signal for one subsystem.
pub struct ShutdownSignal {
    state: SignalState,
}

impl View for ShutdownSignal {
    type V = SignalState;

    closed spec fn view(&self) -> SignalState {
        self.state
    }
}

impl ShutdownSignal {
    /// A signal that has not been fired.
    pub fn new() -> (r: Self)
        ensures
            r@ == SignalState::Armed,
    {
        ShutdownSignal { state: SignalState::Armed }
    }

    /// Where the signal stands.
    pub fn state(&self) -> (r: SignalState)
        ensures
            r == self@,
    {
        self.state
    }

    /// Fires the signal. Returns whether this call was the one that fired
    /// it; on a signal that was fired before, nothing changes.
    pub fn fire(&mut self) -> (r: bool)
        ensures
            final(self)@ == after_fire(old(self)@),
            r == (old(self)@ == SignalState::Armed),
    {
        match self.state {
            SignalState::Armed => {
                self.state = SignalState::Fired;
                true
            },
            _ => false,
        }
    }

    /// The subsystem looks at its signal. Returns whether it has to stop
    /// now: true for the first look after the firing, false before the
    /// firing and for every later look.
    pub fn observe(&mut self) -> (r: bool)
        ensures
            final(self)@ == after_observe(old(self)@),
            r == (old(self)@ == SignalState::Fired),
    {
        match self.state {
            SignalState::Fired => {
                self.state = SignalState::Observed;
                true
            },
            _ => false,
        }
    }
}

/// One use of a signal.
pub enum SignalOp {
    Fire,
    Observe,
}

/// The state of a signal after a run of uses, starting armed.
pub open spec fn state_after(ops: Seq<SignalOp>) -> SignalState
    decreases ops.len(),
{
    if ops.len() == 0 {
        SignalState::Armed
    } else {
        match ops.last() {
            SignalOp::Fire => after_fire(state_after(ops.drop_last())),
            SignalOp::Observe => after_observe(state_after(ops.drop_last())),
        }
    }
}

/// How often, in a run of uses, the subsystem was told to stop.
pub open spec fn stops_in(ops: Seq<SignalOp>) -> nat
    decreases ops.len(),
{
    if ops.len() == 0 {
        0
    } else if ops.last() is Observe && state_after(ops.drop_last()) == SignalState::Fired {
        stops_in(ops.drop_last()) + 1
    } else {
        stops_in(ops.drop_last())
    }
}

/// Whether a run of uses holds a firing.
pub open spec fn fired_in(ops: Seq<SignalOp>) -> bool {
    exists|i: int| 0 <= i < ops.len() && ops[i] is Fire
}

/// However often a signal is fired and observed, its subsystem is told to
/// stop at most once, and exactly once when the run has come to the observed
/// state. Without a firing it is never told to stop.
pub proof fn stops_at_most_once(ops: Seq<SignalOp>)
    ensures
        stops_in(ops) <= 1,
        stops_in(ops) == 1 <==> state_after(ops) == SignalState::Observed,
        state_after(ops) == SignalState::Armed <==> !fired_in(ops),
    decreases ops.len(),
{
    if ops.len() > 0 {
        let before = ops.drop_last();
        stops_at_most_once(before);
        if fired_in(before) {
            let i = choose|i: int| 0 <= i < before.len() && before[i] is Fire;
            assert(ops[i] is Fire);
        }
        if ops.last() is Fire {
            assert(ops[ops.len() - 1] is Fire);
        }
        if fired_in(ops) && !(ops.last() is Fire) {
            let i = choose|i: int| 0 <= i < ops.len() && ops[i] is Fire;
            assert(before[i] is Fire);
        }
    }
}

/// Firing or observing a signal that has been observed changes nothing:
/// repeating either is no error and has no effect.
pub proof fn repeated_use_is_inert(state: SignalState)
    ensures
        after_fire(after_fire(state)) == after_fire(state),
        after_observe(after_observe(state)) == after_observe(state),
        after_fire(SignalState::Observed) == SignalState::Observed,
        after_observe(SignalState::Observed) == SignalState::Observed,
{
}

/// Once its subsystem has stopped, a signal stays observed whatever is done
/// with it.
pub proof fn observed_is_final(ops: Seq<SignalOp>, more: Seq<SignalOp>)
    requires
        state_after(ops) == SignalState::Observed,
    ensures
        state_after(ops + more) == SignalState::Observed,
        stops_in(ops + more) == stops_in(ops),
    decreases more.len(),
{
    if more.len() == 0 {
        assert(ops + more =~= ops);
    } else {
        observed_is_final(ops, more.drop_last());
        assert((ops + more).drop_last() =~= ops + more.drop_last());
    }
}

/// A signal that is fired and looked at afterwards stops its subsystem
/// exactly once, however often it is fired or looked at besides.
pub proof fn fired_and_observed_stops_exactly_once(ops: Seq<SignalOp>, fire: int, look: int)
    requires
        0 <= fire < look < ops.len(),
        ops[fire] is Fire,
        ops[look] is Observe,
    ensures
        stops_in(ops) == 1,
        state_after(ops) == SignalState::Observed,
{
    let until_look = ops.subrange(0, look);
    let with_look = ops.subrange(0, look + 1);
    let rest = ops.subrange(look + 1, ops.len() as int);
    assert(until_look[fire] is Fire);
    stops_at_most_once(until_look);
    assert(with_look.drop_last() =~= until_look);
    assert(with_look.last() == ops[look]);
    assert(state_after(with_look) == SignalState::Observed);
    observed_is_final(with_look, rest);
    assert(with_look + rest =~= ops);
    stops_at_most_once(ops);
}

} // verus!
