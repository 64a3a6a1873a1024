//! The block template feed: it waits for a wake-up, fetches a fresh template
//! and publishes it, over and over. A push trigger and the poll timer wake it
//! in the same way. A fetch that fails ends the feed for good.

use vstd::prelude::*;

verus! {

/// Seconds after which the feed fetches a template although no push trigger
/// came: the safeguard against a trigger that was missed or is late.
pub const GBT_POLL_INTERVAL: u64 = 10;

/// What the feed is doing.
#[derive(Debug, Clone, Copy, PartialEq, Eq, Structural)]
pub enum FeedState {
    /// Waiting for a push trigger or for the poll timer.
    Wait,
    /// Asking the full node for a template.
    Fetch,
    /// Handing a template to the channel, which may make it wait for room.
    Publish,
    /// A fetch failed: the feed does nothing any more.
    Failed,
}

/// What happened, as the task that runs the feed reports it.
pub enum FeedEvent<T> {
    /// The full node announced a new block.
    PushTrigger,
    /// The poll interval passed without a push trigger.
    PollTimerExpired,
    /// The fetch returned this template.
    Fetched(T),
    /// The fetch failed.
    FetchFailed,
    /// The channel took the template.
    Published,
}

/// What the task that runs the feed has to do next.
pub enum FeedAction<T> {
    /// Wait for a push trigger, at most for the poll interval.
    AwaitTrigger,
    /// Fetch a template from the full node.
    FetchTemplate,
    /// Send this template into the channel, waiting for room if need be.
    PublishTemplate(T),
    /// Report the failure as fatal: no work may go out on a stale template.
    Terminate,
    /// The event does not concern the feed in its state: go on as before.
    Nothing,
}

/// Whether an event is a wake-up, from either source.
pub open spec fn is_wake_up<T>(event: FeedEvent<T>) -> bool {
    event is PushTrigger || event is PollTimerExpired
}

/// The state that follows an event.
pub open spec fn next_state<T>(state: FeedState, event: FeedEvent<T>) -> FeedState {
    match (state, event) {
        (FeedState::Wait, FeedEvent::PushTrigger) => FeedState::Fetch,
        (FeedState::Wait, FeedEvent::PollTimerExpired) => FeedState::Fetch,
        (FeedState::Fetch, FeedEvent::Fetched(_)) => FeedState::Publish,
        (FeedState::Fetch, FeedEvent::FetchFailed) => FeedState::Failed,
        (FeedState::Publish, FeedEvent::Published) => FeedState::Wait,
        _ => state,
    }
}

/// The action that answers an event.
pub open spec fn next_action<T>(state: FeedState, event: FeedEvent<T>) -> FeedAction<T> {
    match (state, event) {
        (FeedState::Wait, FeedEvent::PushTrigger) => FeedAction::FetchTemplate,
        (FeedState::Wait, FeedEvent::PollTimerExpired) => FeedAction::FetchTemplate,
        (FeedState::Fetch, FeedEvent::Fetched(template)) => FeedAction::PublishTemplate(template),
        (FeedState::Fetch, FeedEvent::FetchFailed) => FeedAction::Terminate,
        (FeedState::Publish, FeedEvent::Published) => FeedAction::AwaitTrigger,
        _ => FeedAction::Nothing,
    }
}

/// The block template feed.
pub struct TemplateFeed {
    state: FeedState,
}

impl View for TemplateFeed {
    type V = FeedState;

    closed spec fn view(&self) -> FeedState {
        self.state
    }
}

impl TemplateFeed {
    /// A feed that waits for its first wake-up.
    pub fn new() -> (r: Self)
        ensures
            r@ == FeedState::Wait,
    {
        TemplateFeed { state: FeedState::Wait }
    }

    /// What the feed is doing.
    pub fn state(&self) -> (r: FeedState)
        ensures
            r == self@,
    {
        self.state
    }

    /// Takes an event and says what to do next.
    pub fn step<T>(&mut self, event: FeedEvent<T>) -> (action: FeedAction<T>)
        ensures
            final(self)@ == next_state(old(self)@, event),
            action == next_action(old(self)@, event),
    {
        match (self.state, event) {
            (FeedState::Wait, FeedEvent::PushTrigger) => {
                self.state = FeedState::Fetch;
                FeedAction::FetchTemplate
            },
            (FeedState::Wait, FeedEvent::PollTimerExpired) => {
                self.state = FeedState::Fetch;
                FeedAction::FetchTemplate
            },
            (FeedState::Fetch, FeedEvent::Fetched(template)) => {
                self.state = FeedState::Publish;
                FeedAction::PublishTemplate(template)
            },
            (FeedState::Fetch, FeedEvent::FetchFailed) => {
                self.state = FeedState::Failed;
                FeedAction::Terminate
            },
            (FeedState::Publish, FeedEvent::Published) => {
                self.state = FeedState::Wait;
                FeedAction::AwaitTrigger
            },
            _ => FeedAction::Nothing,
        }
    }
}

/// The state of a feed after a run of events, starting in `Wait`.
pub open spec fn state_after<T>(events: Seq<FeedEvent<T>>) -> FeedState
    decreases events.len(),
{
    if events.len() == 0 {
        FeedState::Wait
    } else {
        next_state(state_after(events.drop_last()), events.last())
    }
}

/// The push trigger and the poll timer lead to the same state and the same
/// action: nothing downstream can tell which of them woke the feed.
pub proof fn wake_ups_are_alike<T>(state: FeedState)
    ensures
        next_state(state, FeedEvent::<T>::PushTrigger) == next_state(
            state,
            FeedEvent::<T>::PollTimerExpired,
        ),
        next_action(state, FeedEvent::<T>::PushTrigger) == next_action(
            state,
            FeedEvent::<T>::PollTimerExpired,
        ),
{
}

/// A template is published only as the answer to the fetch that returned it,
/// and only a wake-up in `Wait` starts a fetch.
pub proof fn publishes_only_what_was_fetched<T>(state: FeedState, event: FeedEvent<T>)
    ensures
        next_action(state, event) is PublishTemplate ==> state == FeedState::Fetch
            && event == FeedEvent::Fetched(next_action(state, event)->PublishTemplate_0),
        next_action(state, event) is FetchTemplate ==> state == FeedState::Wait && is_wake_up(
            event,
        ),
        next_action(state, event) is Terminate <==> state == FeedState::Fetch
            && event is FetchFailed,
{
}

/// A failed fetch is final: whatever comes after it, the feed stays failed and
/// asks for nothing.
pub proof fn failure_is_final<T>(events: Seq<FeedEvent<T>>, more: Seq<FeedEvent<T>>)
    requires
        state_after(events) == FeedState::Failed,
    ensures
        state_after(events + more) == FeedState::Failed,
        more.len() > 0 ==> next_action(state_after(events + more.drop_last()), more.last())
            is Nothing,
    decreases more.len(),
{
    if more.len() == 0 {
        assert(events + more =~= events);
    } else {
        failure_is_final(events, more.drop_last());
        assert((events + more).drop_last() =~= events + more.drop_last());
        assert((events + more).last() == more.last());
    }
}

} // verus!
