use hydrapool::channel::{BoundedChannel, STRATUM_SHARES_BUFFER_SIZE, TEMPLATE_CHANNEL_CAPACITY};
use hydrapool::feed::{FeedAction, FeedEvent, FeedState, TemplateFeed, GBT_POLL_INTERVAL};
use hydrapool::lifecycle::{
    failure_kind, failure_message, successor_of, Coordinator, CoordinatorAction, CoordinatorEvent,
    ErrorKind, Phase, StartupStep,
};
use hydrapool::maintenance::{maintenance_schedule, MaintenanceSchedule};
use hydrapool::node::{NodeAction, NodeActor, NodeEvent, NodeState};
use hydrapool::shutdown::{ShutdownSignal, SignalState};
use hydrapool::tracker::JobTracker;

#[test]
fn capacities_are_as_documented() {
    assert_eq!(TEMPLATE_CHANNEL_CAPACITY, 1);
    assert_eq!(STRATUM_SHARES_BUFFER_SIZE, 1000);
    assert_eq!(GBT_POLL_INTERVAL, 10);
}

#[test]
fn single_slot_refuses_a_second_template() {
    let mut slot: BoundedChannel<u32> = BoundedChannel::new(TEMPLATE_CHANNEL_CAPACITY);
    assert!(slot.is_empty());
    assert_eq!(slot.try_send(1), Ok(()));
    assert!(slot.is_full());
    // the second offer comes back: nothing queues up behind the first
    assert_eq!(slot.try_send(2), Err(2));
    assert_eq!(slot.len(), 1);
    assert_eq!(slot.try_recv(), Some(1));
    assert!(slot.is_empty());
    // once the slot is drained the newer template is taken and is the next delivered
    assert_eq!(slot.try_send(2), Ok(()));
    assert_eq!(slot.try_recv(), Some(2));
    assert_eq!(slot.try_recv(), None);
}

#[test]
fn channel_delivers_in_the_order_of_acceptance() {
    let mut channel: BoundedChannel<(u8, u32)> = BoundedChannel::new(4);
    assert_eq!(channel.capacity(), 4);
    // three senders, interleaved
    assert_eq!(channel.try_send((1, 10)), Ok(()));
    assert_eq!(channel.try_send((2, 20)), Ok(()));
    assert_eq!(channel.try_send((3, 30)), Ok(()));
    assert_eq!(channel.try_send((1, 11)), Ok(()));
    assert_eq!(channel.try_send((2, 21)), Err((2, 21)));
    assert_eq!(channel.try_recv(), Some((1, 10)));
    assert_eq!(channel.try_send((2, 21)), Ok(()));
    assert_eq!(channel.try_recv(), Some((2, 20)));
    assert_eq!(channel.try_recv(), Some((3, 30)));
    assert_eq!(channel.try_recv(), Some((1, 11)));
    assert_eq!(channel.try_recv(), Some((2, 21)));
    assert_eq!(channel.try_recv(), None);
}

#[test]
fn share_channel_blocks_at_its_capacity() {
    let mut channel: BoundedChannel<usize> = BoundedChannel::new(STRATUM_SHARES_BUFFER_SIZE);
    for i in 0..1000 {
        assert_eq!(channel.try_send(i), Ok(()));
    }
    assert!(channel.is_full());
    assert_eq!(channel.len(), 1000);
    assert_eq!(channel.try_send(1000), Err(1000));
    assert_eq!(channel.len(), 1000);
    for i in 0..1000 {
        assert_eq!(channel.try_recv(), Some(i));
    }
    assert!(channel.is_empty());
}

#[test]
fn tracker_issues_increasing_versions() {
    let mut tracker: JobTracker<&str> = JobTracker::new();
    assert_eq!(tracker.current(), 0);
    assert_eq!(tracker.current_template(), None);
    assert_eq!(tracker.next_version("first"), Some(1));
    assert_eq!(tracker.current(), 1);
    assert_eq!(tracker.current_template(), Some(&"first"));
    assert_eq!(tracker.next_version("second"), Some(2));
    assert_eq!(tracker.next_version("third"), Some(3));
    assert_eq!(tracker.current(), 3);
    // reading the version changes nothing
    assert_eq!(tracker.current(), 3);
    assert_eq!(tracker.current_template(), Some(&"third"));
}

#[test]
fn signal_stops_its_subsystem_once() {
    let mut signal = ShutdownSignal::new();
    assert_eq!(signal.state(), SignalState::Armed);
    assert!(!signal.observe());
    assert_eq!(signal.state(), SignalState::Armed);
    assert!(signal.fire());
    assert_eq!(signal.state(), SignalState::Fired);
    assert!(!signal.fire());
    assert!(signal.observe());
    assert_eq!(signal.state(), SignalState::Observed);
    // a second look, and a second firing, are inert
    assert!(!signal.observe());
    assert!(!signal.fire());
    assert_eq!(signal.state(), SignalState::Observed);
}

#[test]
fn feed_cycles_through_its_states() {
    let mut feed = TemplateFeed::new();
    assert_eq!(feed.state(), FeedState::Wait);
    assert!(matches!(feed.step(FeedEvent::<u32>::PushTrigger), FeedAction::FetchTemplate));
    assert_eq!(feed.state(), FeedState::Fetch);
    assert!(matches!(feed.step(FeedEvent::Fetched(7u32)), FeedAction::PublishTemplate(7)));
    assert_eq!(feed.state(), FeedState::Publish);
    assert!(matches!(feed.step(FeedEvent::<u32>::Published), FeedAction::AwaitTrigger));
    assert_eq!(feed.state(), FeedState::Wait);
    // the poll timer wakes the feed as the push trigger does
    assert!(matches!(feed.step(FeedEvent::<u32>::PollTimerExpired), FeedAction::FetchTemplate));
    assert_eq!(feed.state(), FeedState::Fetch);
}

#[test]
fn feed_ignores_what_does_not_concern_its_state() {
    let mut feed = TemplateFeed::new();
    assert!(matches!(feed.step(FeedEvent::Fetched(1u32)), FeedAction::Nothing));
    assert!(matches!(feed.step(FeedEvent::<u32>::Published), FeedAction::Nothing));
    assert!(matches!(feed.step(FeedEvent::<u32>::FetchFailed), FeedAction::Nothing));
    assert_eq!(feed.state(), FeedState::Wait);
    feed.step(FeedEvent::<u32>::PushTrigger);
    assert!(matches!(feed.step(FeedEvent::<u32>::PushTrigger), FeedAction::Nothing));
    assert_eq!(feed.state(), FeedState::Fetch);
}

#[test]
fn failed_fetch_ends_the_feed() {
    let mut feed = TemplateFeed::new();
    feed.step(FeedEvent::<u32>::PollTimerExpired);
    assert!(matches!(feed.step(FeedEvent::<u32>::FetchFailed), FeedAction::Terminate));
    assert_eq!(feed.state(), FeedState::Failed);
    assert!(matches!(feed.step(FeedEvent::<u32>::PushTrigger), FeedAction::Nothing));
    assert!(matches!(feed.step(FeedEvent::Fetched(3u32)), FeedAction::Nothing));
    assert_eq!(feed.state(), FeedState::Failed);
}

#[test]
fn node_appends_valid_shares_and_reports_the_others() {
    let mut node = NodeActor::new();
    assert_eq!(node.state(), NodeState::Running);
    assert!(matches!(node.step(NodeEvent::Share(1u32, true)), NodeAction::Append(1)));
    assert!(matches!(node.step(NodeEvent::Share(2u32, false)), NodeAction::Report(2)));
    // the bad share did not halt the actor
    assert_eq!(node.state(), NodeState::Running);
    assert!(matches!(node.step(NodeEvent::Share(3u32, true)), NodeAction::Append(3)));
}

#[test]
fn node_signals_stopping_once() {
    let mut node = NodeActor::new();
    assert!(matches!(node.step(NodeEvent::<u32>::StopRequested), NodeAction::SignalStopping));
    assert_eq!(node.state(), NodeState::Stopped);
    assert!(matches!(node.step(NodeEvent::<u32>::StopRequested), NodeAction::Nothing));
    assert!(matches!(node.step(NodeEvent::<u32>::LocalFailure), NodeAction::Nothing));
    assert!(matches!(node.step(NodeEvent::Share(9u32, true)), NodeAction::Nothing));
    let mut other = NodeActor::new();
    assert!(matches!(other.step(NodeEvent::<u32>::LocalFailure), NodeAction::SignalStopping));
    assert_eq!(other.state(), NodeState::Stopped);
}

#[test]
fn shares_from_many_senders_reach_the_chain_in_channel_order() {
    let mut channel: BoundedChannel<(u32, bool)> = BoundedChannel::new(3);
    let mut node = NodeActor::new();
    let mut chain: Vec<u32> = Vec::new();
    let offers = [(11, true), (21, false), (31, true), (12, true), (22, true), (32, false)];
    let mut next = 0;
    while next < offers.len() || !channel.is_empty() {
        while next < offers.len() {
            match channel.try_send(offers[next]) {
                Ok(()) => next += 1,
                Err(_) => break,
            }
        }
        if let Some((share, valid)) = channel.try_recv() {
            if let NodeAction::Append(accepted) = node.step(NodeEvent::Share(share, valid)) {
                chain.push(accepted);
            }
        }
    }
    assert_eq!(chain, vec![11, 31, 12, 22]);
}

fn start_up(coordinator: &mut Coordinator) {
    let order = [
        StartupStep::ParseCoinbaseTag,
        StartupStep::SetupLogging,
        StartupStep::InitChain,
        StartupStep::SetupPushTrigger,
        StartupStep::StartTemplateFeed,
        StartupStep::StartMetrics,
        StartupStep::BuildStratum,
        StartupStep::StartApi,
        StartupStep::StartNode,
    ];
    assert_eq!(coordinator.phase(), Phase::Starting(StartupStep::LoadConfig));
    for step in order {
        assert_eq!(
            coordinator.step(CoordinatorEvent::StepSucceeded),
            CoordinatorAction::Run(step)
        );
        assert_eq!(coordinator.phase(), Phase::Starting(step));
    }
    assert_eq!(
        coordinator.step(CoordinatorEvent::StepSucceeded),
        CoordinatorAction::AwaitStopping
    );
    assert_eq!(coordinator.phase(), Phase::Running);
}

#[test]
fn startup_runs_the_steps_in_order() {
    let mut coordinator = Coordinator::new();
    assert_eq!(coordinator.exit_status(), None);
    start_up(&mut coordinator);
    assert_eq!(coordinator.exit_status(), None);
    assert_eq!(coordinator.stratum_signal(), SignalState::Armed);
    assert_eq!(coordinator.api_signal(), SignalState::Armed);
}

#[test]
fn stopping_trigger_fires_both_signals_once() {
    let mut coordinator = Coordinator::new();
    start_up(&mut coordinator);
    assert_eq!(
        coordinator.step(CoordinatorEvent::NodeStopping),
        CoordinatorAction::Shutdown
    );
    assert_eq!(coordinator.phase(), Phase::Stopped);
    assert_eq!(coordinator.stratum_signal(), SignalState::Fired);
    assert_eq!(coordinator.api_signal(), SignalState::Fired);
    assert_eq!(coordinator.exit_status(), Some(0));
    // a second trigger is no error and fires nothing
    assert_eq!(
        coordinator.step(CoordinatorEvent::NodeStopping),
        CoordinatorAction::Nothing
    );
    assert_eq!(coordinator.phase(), Phase::Stopped);
    assert_eq!(coordinator.stratum_signal(), SignalState::Fired);
    assert_eq!(coordinator.api_signal(), SignalState::Fired);
}

#[test]
fn each_failed_step_aborts_with_its_failure() {
    let steps = [
        (StartupStep::LoadConfig, ErrorKind::Config),
        (StartupStep::ParseCoinbaseTag, ErrorKind::CoinbaseTagParse),
        (StartupStep::SetupLogging, ErrorKind::LoggingSetup),
        (StartupStep::InitChain, ErrorKind::ChainInit),
        (StartupStep::SetupPushTrigger, ErrorKind::PushTriggerSetup),
        (StartupStep::StartTemplateFeed, ErrorKind::BlockTemplateFetch),
        (StartupStep::StartMetrics, ErrorKind::MetricsStart),
        (StartupStep::BuildStratum, ErrorKind::StratumBuild),
        (StartupStep::StartApi, ErrorKind::ApiStart),
        (StartupStep::StartNode, ErrorKind::NodeStart),
    ];
    for (index, (step, kind)) in steps.iter().enumerate() {
        assert_eq!(failure_kind(*step), *kind);
        let mut coordinator = Coordinator::new();
        for _ in 0..index {
            coordinator.step(CoordinatorEvent::StepSucceeded);
        }
        assert_eq!(coordinator.phase(), Phase::Starting(*step));
        assert_eq!(
            coordinator.step(CoordinatorEvent::StepFailed),
            CoordinatorAction::Abort(*kind)
        );
        assert_eq!(coordinator.phase(), Phase::Aborted(*kind));
        assert_eq!(coordinator.exit_status(), Some(1));
        // nothing more is asked for
        assert_eq!(
            coordinator.step(CoordinatorEvent::StepSucceeded),
            CoordinatorAction::Nothing
        );
        assert_eq!(
            coordinator.step(CoordinatorEvent::NodeStopping),
            CoordinatorAction::Nothing
        );
        assert_eq!(coordinator.phase(), Phase::Aborted(*kind));
        assert_eq!(coordinator.stratum_signal(), SignalState::Armed);
    }
}

#[test]
fn successor_follows_the_startup_order() {
    assert_eq!(successor_of(StartupStep::LoadConfig), Some(StartupStep::ParseCoinbaseTag));
    assert_eq!(successor_of(StartupStep::InitChain), Some(StartupStep::SetupPushTrigger));
    assert_eq!(
        successor_of(StartupStep::SetupPushTrigger),
        Some(StartupStep::StartTemplateFeed)
    );
    assert_eq!(successor_of(StartupStep::StartApi), Some(StartupStep::StartNode));
    assert_eq!(successor_of(StartupStep::StartNode), None);
}

#[test]
fn stratum_failure_is_reported_and_borne() {
    let mut coordinator = Coordinator::new();
    // before the stratum server runs there is nothing to report
    assert_eq!(
        coordinator.step(CoordinatorEvent::StratumFailed),
        CoordinatorAction::Nothing
    );
    start_up(&mut coordinator);
    assert_eq!(
        coordinator.step(CoordinatorEvent::StratumFailed),
        CoordinatorAction::Report(ErrorKind::StratumRuntime)
    );
    assert_eq!(coordinator.phase(), Phase::Running);
    assert_eq!(coordinator.exit_status(), None);
    assert_eq!(
        coordinator.step(CoordinatorEvent::NodeStopping),
        CoordinatorAction::Shutdown
    );
}

#[test]
fn failed_fetch_ends_the_running_node() {
    let mut coordinator = Coordinator::new();
    // no feed yet: the event is ignored
    assert_eq!(
        coordinator.step(CoordinatorEvent::TemplateFetchFailed),
        CoordinatorAction::Nothing
    );
    start_up(&mut coordinator);
    assert_eq!(
        coordinator.step(CoordinatorEvent::TemplateFetchFailed),
        CoordinatorAction::Abort(ErrorKind::BlockTemplateFetch)
    );
    assert_eq!(coordinator.phase(), Phase::Aborted(ErrorKind::BlockTemplateFetch));
    assert_eq!(coordinator.exit_status(), Some(1));
}

#[test]
fn failed_fetch_during_startup_aborts_once_the_feed_runs() {
    let mut coordinator = Coordinator::new();
    for _ in 0..6 {
        coordinator.step(CoordinatorEvent::StepSucceeded);
    }
    assert_eq!(coordinator.phase(), Phase::Starting(StartupStep::StartMetrics));
    assert_eq!(
        coordinator.step(CoordinatorEvent::TemplateFetchFailed),
        CoordinatorAction::Abort(ErrorKind::BlockTemplateFetch)
    );
}

#[test]
fn failure_messages_are_descriptive() {
    assert_eq!(
        failure_message(ErrorKind::Config, "no such file"),
        "Failed to load config: no such file"
    );
    assert_eq!(
        failure_message(ErrorKind::CoinbaseTagParse, "bad"),
        "Failed to parse coinbase_tag config: bad"
    );
    assert_eq!(
        failure_message(ErrorKind::LoggingSetup, "x"),
        "Failed to set up logging: x"
    );
    assert_eq!(
        failure_message(ErrorKind::ChainInit, "x"),
        "Failed to open the share chain: x"
    );
    assert_eq!(
        failure_message(ErrorKind::PushTriggerSetup, "ignored"),
        "Failed to set up ZMQ publisher"
    );
    assert_eq!(
        failure_message(ErrorKind::BlockTemplateFetch, "timeout"),
        "Failed to fetch block template. Shutting down. timeout"
    );
    assert_eq!(
        failure_message(ErrorKind::MetricsStart, "x"),
        "Failed to start metrics: x"
    );
    assert_eq!(
        failure_message(ErrorKind::StratumBuild, "x"),
        "Failed to build Stratum server: x"
    );
    assert_eq!(
        failure_message(ErrorKind::StratumRuntime, "x"),
        "Failed to start Stratum server: x"
    );
    assert_eq!(
        failure_message(ErrorKind::ApiStart, "ignored"),
        "Failed to start API Server. Quitting."
    );
    assert_eq!(
        failure_message(ErrorKind::NodeStart, "x"),
        "Failed to start node: x"
    );
}

#[test]
fn maintenance_schedule_is_in_seconds() {
    assert_eq!(
        maintenance_schedule(24, 7),
        Some(MaintenanceSchedule { frequency_secs: 86400, ttl_secs: 604800 })
    );
    assert_eq!(
        maintenance_schedule(0, 0),
        Some(MaintenanceSchedule { frequency_secs: 0, ttl_secs: 0 })
    );
    assert_eq!(
        maintenance_schedule(1, 1),
        Some(MaintenanceSchedule { frequency_secs: 3600, ttl_secs: 86400 })
    );
}

#[test]
fn maintenance_schedule_refuses_what_does_not_fit() {
    let most_hours = u64::MAX / 3600;
    let most_days = u64::MAX / 86400;
    assert_eq!(
        maintenance_schedule(most_hours, most_days),
        Some(MaintenanceSchedule {
            frequency_secs: most_hours * 3600,
            ttl_secs: most_days * 86400
        })
    );
    assert_eq!(maintenance_schedule(most_hours + 1, 1), None);
    assert_eq!(maintenance_schedule(1, most_days + 1), None);
    assert_eq!(maintenance_schedule(u64::MAX, u64::MAX), None);
}
