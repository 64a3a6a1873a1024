//! The lifecycle coordinator: the fixed order in which the subsystems are
//! started, what each failure means, and the shutdown that the node actor's
//! stopping trigger sets off.

use crate::shutdown::{after_fire, ShutdownSignal, SignalState};
use vstd::prelude::*;
use vstd::string::*;

verus! {

/// The steps of the startup, in the order of their declaration.
#[derive(Debug, Clone, Copy, PartialEq, Eq, Structural)]
pub enum StartupStep {
    /// Load the configuration file.
    LoadConfig,
    /// Read the coinbase tag section and compose the signature.
    ParseCoinbaseTag,
    /// Set up logging.
    SetupLogging,
    /// Open the store, build the share chain and start its maintenance.
    InitChain,
    /// Set up the transport of the push trigger.
    SetupPushTrigger,
    /// Start the tracker, the template feed and the broadcaster.
    StartTemplateFeed,
    /// Start the metrics service.
    StartMetrics,
    /// Build the stratum server and let it serve.
    BuildStratum,
    /// Start the API server.
    StartApi,
    /// Start the node actor.
    StartNode,
}

/// The kinds of failure.
#[derive(Debug, Clone, Copy, PartialEq, Eq, Structural)]
pub enum ErrorKind {
    Config,
    CoinbaseTagParse,
    LoggingSetup,
    ChainInit,
    PushTriggerSetup,
    BlockTemplateFetch,
    MetricsStart,
    StratumBuild,
    StratumRuntime,
    ApiStart,
    NodeStart,
}

/// Where the node stands.
#[derive(Debug, Clone, Copy, PartialEq, Eq, Structural)]
pub enum Phase {
    /// Starting up: this step is in progress.
    Starting(StartupStep),
    /// Everything is started; the coordinator waits for the stopping trigger.
    Running,
    /// The node was shut down in order.
    Stopped,
    /// The node gave up on this failure.
    Aborted(ErrorKind),
}

/// What the coordinator is told.
#[derive(Debug, Clone, Copy, PartialEq, Eq, Structural)]
pub enum CoordinatorEvent {
    /// The step in progress is done.
    StepSucceeded,
    /// The step in progress failed.
    StepFailed,
    /// The node actor completed its stopping trigger.
    NodeStopping,
    /// The stratum server ended with a failure.
    StratumFailed,
    /// The template feed could not fetch a template.
    TemplateFetchFailed,
}

/// What the coordinator asks for.
#[derive(Debug, Clone, Copy, PartialEq, Eq, Structural)]
pub enum CoordinatorAction {
    /// Perform this startup step and report how it went.
    Run(StartupStep),
    /// Everything is started: wait for the node actor's stopping trigger.
    AwaitStopping,
    /// Give up: end the process with the message of this failure and a
    /// status that is not zero.
    Abort(ErrorKind),
    /// Log this failure and go on.
    Report(ErrorKind),
    /// Send the stratum server its shutdown signal, then the API server its
    /// own, and end the process in order.
    Shutdown,
    /// Nothing.
    Nothing,
}

/// The place of a step in the startup order, from 0.
pub open spec fn rank(step: StartupStep) -> nat {
    match step {
        StartupStep::LoadConfig => 0,
        StartupStep::ParseCoinbaseTag => 1,
        StartupStep::SetupLogging => 2,
        StartupStep::InitChain => 3,
        StartupStep::SetupPushTrigger => 4,
        StartupStep::StartTemplateFeed => 5,
        StartupStep::StartMetrics => 6,
        StartupStep::BuildStratum => 7,
        StartupStep::StartApi => 8,
        StartupStep::StartNode => 9,
    }
}

/// The startup order as a sequence.
pub open spec fn startup_order() -> Seq<StartupStep> {
    seq![
        StartupStep::LoadConfig,
        StartupStep::ParseCoinbaseTag,
        StartupStep::SetupLogging,
        StartupStep::InitChain,
        StartupStep::SetupPushTrigger,
        StartupStep::StartTemplateFeed,
        StartupStep::StartMetrics,
        StartupStep::BuildStratum,
        StartupStep::StartApi,
        StartupStep::StartNode,
    ]
}

/// The step that follows a step, if any.
pub open spec fn successor(step: StartupStep) -> Option<StartupStep> {
    if rank(step) + 1 < startup_order().len() {
        Some(startup_order()[rank(step) as int + 1])
    } else {
        None
    }
}

/// The failure that a failed step stands for.
pub open spec fn failure_of(step: StartupStep) -> ErrorKind {
    match step {
        StartupStep::LoadConfig => ErrorKind::Config,
        StartupStep::ParseCoinbaseTag => ErrorKind::CoinbaseTagParse,
        StartupStep::SetupLogging => ErrorKind::LoggingSetup,
        StartupStep::InitChain => ErrorKind::ChainInit,
        StartupStep::SetupPushTrigger => ErrorKind::PushTriggerSetup,
        StartupStep::StartTemplateFeed => ErrorKind::BlockTemplateFetch,
        StartupStep::StartMetrics => ErrorKind::MetricsStart,
        StartupStep::BuildStratum => ErrorKind::StratumBuild,
        StartupStep::StartApi => ErrorKind::ApiStart,
        StartupStep::StartNode => ErrorKind::NodeStart,
    }
}

/// Whether a failure ends the node. Only a failure of the running stratum
/// server is borne: the chain, the API and the accounting go on without it.
pub open spec fn is_fatal(kind: ErrorKind) -> bool {
    kind != ErrorKind::StratumRuntime
}

/// Whether the template feed runs in a phase.
pub open spec fn feed_runs(phase: Phase) -> bool {
    match phase {
        Phase::Starting(step) => rank(step) > rank(StartupStep::StartTemplateFeed),
        Phase::Running => true,
        _ => false,
    }
}

/// Whether the stratum server runs in a phase.
pub open spec fn stratum_runs(phase: Phase) -> bool {
    match phase {
        Phase::Starting(step) => rank(step) > rank(StartupStep::BuildStratum),
        Phase::Running => true,
        _ => false,
    }
}

/// The state of the coordinator: the phase and its two shutdown signals.
pub struct CoordinatorState {
    pub phase: Phase,
    pub stratum_signal: SignalState,
    pub api_signal: SignalState,
}

/// The phase that follows an event.
pub open spec fn next_phase(phase: Phase, event: CoordinatorEvent) -> Phase {
    match (phase, event) {
        (Phase::Starting(step), CoordinatorEvent::StepSucceeded) => match successor(step) {
            Some(next) => Phase::Starting(next),
            None => Phase::Running,
        },
        (Phase::Starting(step), CoordinatorEvent::StepFailed) => Phase::Aborted(failure_of(step)),
        (Phase::Running, CoordinatorEvent::NodeStopping) => Phase::Stopped,
        (_, CoordinatorEvent::TemplateFetchFailed) => if feed_runs(phase) {
            Phase::Aborted(ErrorKind::BlockTemplateFetch)
        } else {
            phase
        },
        _ => phase,
    }
}

/// The action that answers an event.
pub open spec fn next_action(phase: Phase, event: CoordinatorEvent) -> CoordinatorAction {
    match (phase, event) {
        (Phase::Starting(step), CoordinatorEvent::StepSucceeded) => match successor(step) {
            Some(next) => CoordinatorAction::Run(next),
            None => CoordinatorAction::AwaitStopping,
        },
        (Phase::Starting(step), CoordinatorEvent::StepFailed) => CoordinatorAction::Abort(
            failure_of(step),
        ),
        (Phase::Running, CoordinatorEvent::NodeStopping) => CoordinatorAction::Shutdown,
        (_, CoordinatorEvent::TemplateFetchFailed) => if feed_runs(phase) {
            CoordinatorAction::Abort(ErrorKind::BlockTemplateFetch)
        } else {
            CoordinatorAction::Nothing
        },
        (_, CoordinatorEvent::StratumFailed) => if stratum_runs(phase) {
            CoordinatorAction::Report(ErrorKind::StratumRuntime)
        } else {
            CoordinatorAction::Nothing
        },
        _ => CoordinatorAction::Nothing,
    }
}

/// The state that follows an event: the phase moves on, and a shutdown fires
/// both signals.
pub open spec fn next(state: CoordinatorState, event: CoordinatorEvent) -> CoordinatorState {
    if next_action(state.phase, event) == CoordinatorAction::Shutdown {
        CoordinatorState {
            phase: next_phase(state.phase, event),
            stratum_signal: after_fire(state.stratum_signal),
            api_signal: after_fire(state.api_signal),
        }
    } else {
        CoordinatorState { phase: next_phase(state.phase, event), ..state }
    }
}

/// The state in which every coordinator begins.
pub open spec fn initial_state() -> CoordinatorState {
    CoordinatorState {
        phase: Phase::Starting(StartupStep::LoadConfig),
        stratum_signal: SignalState::Armed,
        api_signal: SignalState::Armed,
    }
}

/// The step that follows a step, if any.
pub fn successor_of(step: StartupStep) -> (r: Option<StartupStep>)
    ensures
        r == successor(step),
{
    match step {
        StartupStep::LoadConfig => Some(StartupStep::ParseCoinbaseTag),
        StartupStep::ParseCoinbaseTag => Some(StartupStep::SetupLogging),
        StartupStep::SetupLogging => Some(StartupStep::InitChain),
        StartupStep::InitChain => Some(StartupStep::SetupPushTrigger),
        StartupStep::SetupPushTrigger => Some(StartupStep::StartTemplateFeed),
        StartupStep::StartTemplateFeed => Some(StartupStep::StartMetrics),
        StartupStep::StartMetrics => Some(StartupStep::BuildStratum),
        StartupStep::BuildStratum => Some(StartupStep::StartApi),
        StartupStep::StartApi => Some(StartupStep::StartNode),
        StartupStep::StartNode => None,
    }
}

/// The failure that a failed step stands for.
pub fn failure_kind(step: StartupStep) -> (r: ErrorKind)
    ensures
        r == failure_of(step),
{
    match step {
        StartupStep::LoadConfig => ErrorKind::Config,
        StartupStep::ParseCoinbaseTag => ErrorKind::CoinbaseTagParse,
        StartupStep::SetupLogging => ErrorKind::LoggingSetup,
        StartupStep::InitChain => ErrorKind::ChainInit,
        StartupStep::SetupPushTrigger => ErrorKind::PushTriggerSetup,
        StartupStep::StartTemplateFeed => ErrorKind::BlockTemplateFetch,
        StartupStep::StartMetrics => ErrorKind::MetricsStart,
        StartupStep::BuildStratum => ErrorKind::StratumBuild,
        StartupStep::StartApi => ErrorKind::ApiStart,
        StartupStep::StartNode => ErrorKind::NodeStart,
    }
}

/// The lifecycle coordinator. It owns the shutdown signals of the stratum
/// server and of the API server.
pub struct Coordinator {
    phase: Phase,
    stratum_signal: ShutdownSignal,
    api_signal: ShutdownSignal,
}

impl View for Coordinator {
    type V = CoordinatorState;

    closed spec fn view(&self) -> CoordinatorState {
        CoordinatorState {
            phase: self.phase,
            stratum_signal: self.stratum_signal@,
            api_signal: self.api_signal@,
        }
    }
}

impl Coordinator {
    /// A coordinator about to run the first startup step.
    pub fn new() -> (r: Self)
        ensures
            r@ == initial_state(),
    {
        Coordinator {
            phase: Phase::Starting(StartupStep::LoadConfig),
            stratum_signal: ShutdownSignal::new(),
            api_signal: ShutdownSignal::new(),
        }
    }

    /// Where the node stands.
    pub fn phase(&self) -> (r: Phase)
        ensures
            r == self@.phase,
    {
        self.phase
    }

    /// Where the stratum server's shutdown signal stands.
    pub fn stratum_signal(&self) -> (r: SignalState)
        ensures
            r == self@.stratum_signal,
    {
        self.stratum_signal.state()
    }

    /// Where the API server's shutdown signal stands.
    pub fn api_signal(&self) -> (r: SignalState)
        ensures
            r == self@.api_signal,
    {
        self.api_signal.state()
    }

    /// The status with which the process ends: 0 after a shutdown in order, 1
    /// after a failure, none while the node starts or runs.
    pub fn exit_status(&self) -> (r: Option<u8>)
        ensures
            r == match self@.phase {
                Phase::Stopped => Some(0u8),
                Phase::Aborted(_) => Some(1u8),
                _ => None::<u8>,
            },
    {
        match self.phase {
            Phase::Stopped => Some(0),
            Phase::Aborted(_) => Some(1),
            _ => None,
        }
    }

    /// Whether the template feed runs.
    fn feed_is_running(&self) -> (r: bool)
        ensures
            r == feed_runs(self@.phase),
    {
        match self.phase {
            Phase::Starting(step) => match step {
                StartupStep::StartMetrics => true,
                StartupStep::BuildStratum => true,
                StartupStep::StartApi => true,
                StartupStep::StartNode => true,
                _ => false,
            },
            Phase::Running => true,
            _ => false,
        }
    }

    /// Whether the stratum server runs.
    fn stratum_is_running(&self) -> (r: bool)
        ensures
            r == stratum_runs(self@.phase),
    {
        match self.phase {
            Phase::Starting(step) => match step {
                StartupStep::StartApi => true,
                StartupStep::StartNode => true,
                _ => false,
            },
            Phase::Running => true,
            _ => false,
        }
    }

    /// Takes an event and says what to do.
    pub fn step(&mut self, event: CoordinatorEvent) -> (action: CoordinatorAction)
        ensures
            final(self)@ == next(old(self)@, event),
            action == next_action(old(self)@.phase, event),
    {
        match event {
            CoordinatorEvent::StepSucceeded => match self.phase {
                Phase::Starting(step) => match successor_of(step) {
                    Some(following) => {
                        self.phase = Phase::Starting(following);
                        CoordinatorAction::Run(following)
                    },
                    None => {
                        self.phase = Phase::Running;
                        CoordinatorAction::AwaitStopping
                    },
                },
                _ => CoordinatorAction::Nothing,
            },
            CoordinatorEvent::StepFailed => match self.phase {
                Phase::Starting(step) => {
                    let kind = failure_kind(step);
                    self.phase = Phase::Aborted(kind);
                    CoordinatorAction::Abort(kind)
                },
                _ => CoordinatorAction::Nothing,
            },
            CoordinatorEvent::NodeStopping => match self.phase {
                Phase::Running => {
                    self.phase = Phase::Stopped;
                    self.stratum_signal.fire();
                    self.api_signal.fire();
                    CoordinatorAction::Shutdown
                },
                _ => CoordinatorAction::Nothing,
            },
            CoordinatorEvent::StratumFailed => {
                if self.stratum_is_running() {
                    CoordinatorAction::Report(ErrorKind::StratumRuntime)
                } else {
                    CoordinatorAction::Nothing
                }
            },
            CoordinatorEvent::TemplateFetchFailed => {
                if self.feed_is_running() {
                    self.phase = Phase::Aborted(ErrorKind::BlockTemplateFetch);
                    CoordinatorAction::Abort(ErrorKind::BlockTemplateFetch)
                } else {
                    CoordinatorAction::Nothing
                }
            },
        }
    }
}

/// The state of a coordinator after a run of events.
pub open spec fn state_after(events: Seq<CoordinatorEvent>) -> CoordinatorState
    decreases events.len(),
{
    if events.len() == 0 {
        initial_state()
    } else {
        next(state_after(events.drop_last()), events.last())
    }
}

/// The startup steps that a run of events has seen succeed, in the order in
/// which they did.
pub open spec fn completed_steps(events: Seq<CoordinatorEvent>) -> Seq<StartupStep>
    decreases events.len(),
{
    if events.len() == 0 {
        Seq::<StartupStep>::empty()
    } else {
        match (state_after(events.drop_last()).phase, events.last()) {
            (Phase::Starting(step), CoordinatorEvent::StepSucceeded) => completed_steps(
                events.drop_last(),
            ).push(step),
            _ => completed_steps(events.drop_last()),
        }
    }
}

/// How often a run of events had the coordinator ask for the shutdown.
pub open spec fn shutdowns_in(events: Seq<CoordinatorEvent>) -> nat
    decreases events.len(),
{
    if events.len() == 0 {
        0
    } else if next_action(state_after(events.drop_last()).phase, events.last())
        == CoordinatorAction::Shutdown {
        shutdowns_in(events.drop_last()) + 1
    } else {
        shutdowns_in(events.drop_last())
    }
}

/// The startup is the same every time: whatever events come, the steps that
/// have succeeded are a beginning of the startup order, with nothing left out
/// and nothing out of turn. While a step is in progress they are exactly the
/// steps before it; once the node runs they are all of them.
pub proof fn startup_follows_the_order(events: Seq<CoordinatorEvent>)
    ensures
        completed_steps(events).len() <= startup_order().len(),
        completed_steps(events) == startup_order().subrange(
            0,
            completed_steps(events).len() as int,
        ),
        match state_after(events).phase {
            Phase::Starting(step) => completed_steps(events).len() == rank(step),
            Phase::Running => completed_steps(events) == startup_order(),
            Phase::Stopped => completed_steps(events) == startup_order(),
            Phase::Aborted(_) => true,
        },
    decreases events.len(),
{
    if events.len() == 0 {
        assert(completed_steps(events) =~= startup_order().subrange(0, 0));
    } else {
        let before = events.drop_last();
        startup_follows_the_order(before);
        let done = completed_steps(before);
        match (state_after(before).phase, events.last()) {
            (Phase::Starting(step), CoordinatorEvent::StepSucceeded) => {
                assert(startup_order()[rank(step) as int] == step);
                assert(done.push(step) =~= startup_order().subrange(0, rank(step) as int + 1));
                if successor(step) is None {
                    assert(done.push(step) =~= startup_order());
                }
            },
            _ => {},
        }
    }
}

/// The template feed is started only when the share chain and the transport
/// of the push trigger are ready: the event that has the coordinator ask for
/// the feed is the success of the trigger's setup, and the chain's
/// initialisation succeeded before it.
pub proof fn feed_starts_after_chain_and_trigger(
    events: Seq<CoordinatorEvent>,
    event: CoordinatorEvent,
)
    requires
        next_action(state_after(events).phase, event) == CoordinatorAction::Run(
            StartupStep::StartTemplateFeed,
        ),
    ensures
        state_after(events).phase == Phase::Starting(StartupStep::SetupPushTrigger),
        event == CoordinatorEvent::StepSucceeded,
        completed_steps(events).len() == 4,
        completed_steps(events)[3] == StartupStep::InitChain,
{
    startup_follows_the_order(events);
}

/// A failed startup step ends the node with the failure of that step, and no
/// further step is asked for.
pub proof fn a_failed_step_aborts(state: CoordinatorState, step: StartupStep)
    requires
        state.phase == Phase::Starting(step),
    ensures
        next_action(state.phase, CoordinatorEvent::StepFailed) == CoordinatorAction::Abort(
            failure_of(step),
        ),
        next(state, CoordinatorEvent::StepFailed).phase == Phase::Aborted(failure_of(step)),
        is_fatal(failure_of(step)),
{
}

/// A node that has stopped or given up stays so: every event leaves the state
/// as it is and asks for nothing. A second stopping trigger in particular is
/// no error and fires nothing again.
pub proof fn an_ended_node_stays_ended(state: CoordinatorState, event: CoordinatorEvent)
    requires
        state.phase == Phase::Stopped || state.phase is Aborted,
    ensures
        next(state, event) == state,
        next_action(state.phase, event) == CoordinatorAction::Nothing,
{
}

/// A failure of the running stratum server is reported and changes nothing:
/// the node goes on, and its signals stay as they are.
pub proof fn a_stratum_failure_is_borne(state: CoordinatorState)
    ensures
        next(state, CoordinatorEvent::StratumFailed) == state,
        stratum_runs(state.phase) ==> next_action(state.phase, CoordinatorEvent::StratumFailed)
            == CoordinatorAction::Report(ErrorKind::StratumRuntime),
        !is_fatal(ErrorKind::StratumRuntime),
{
}

/// A failed fetch ends a node whose feed runs.
pub proof fn a_failed_fetch_is_fatal(state: CoordinatorState)
    requires
        feed_runs(state.phase),
    ensures
        next_action(state.phase, CoordinatorEvent::TemplateFetchFailed)
            == CoordinatorAction::Abort(ErrorKind::BlockTemplateFetch),
        next(state, CoordinatorEvent::TemplateFetchFailed).phase == Phase::Aborted(
            ErrorKind::BlockTemplateFetch,
        ),
        is_fatal(ErrorKind::BlockTemplateFetch),
{
}

/// The stopping trigger of the node actor fires both shutdown signals, and
/// does so once: in every run of events the coordinator asks for the shutdown
/// at most once, both signals are fired exactly when the node has stopped in
/// order, and until then both are armed.
pub proof fn shutdown_fires_both_signals_once(events: Seq<CoordinatorEvent>)
    ensures
        shutdowns_in(events) <= 1,
        shutdowns_in(events) == 1 <==> state_after(events).phase == Phase::Stopped,
        state_after(events).phase == Phase::Stopped ==> state_after(events).stratum_signal
            == SignalState::Fired && state_after(events).api_signal == SignalState::Fired,
        state_after(events).phase != Phase::Stopped ==> state_after(events).stratum_signal
            == SignalState::Armed && state_after(events).api_signal == SignalState::Armed,
    decreases events.len(),
{
    if events.len() > 0 {
        shutdown_fires_both_signals_once(events.drop_last());
    }
}

/// The words with which the message of a failure opens.
pub open spec fn message_opening(kind: ErrorKind) -> Seq<char> {
    match kind {
        ErrorKind::Config => "Failed to load config: "@,
        ErrorKind::CoinbaseTagParse => "Failed to parse coinbase_tag config: "@,
        ErrorKind::LoggingSetup => "Failed to set up logging: "@,
        ErrorKind::ChainInit => "Failed to open the share chain: "@,
        ErrorKind::PushTriggerSetup => "Failed to set up ZMQ publisher"@,
        ErrorKind::BlockTemplateFetch => "Failed to fetch block template. Shutting down. "@,
        ErrorKind::MetricsStart => "Failed to start metrics: "@,
        ErrorKind::StratumBuild => "Failed to build Stratum server: "@,
        ErrorKind::StratumRuntime => "Failed to start Stratum server: "@,
        ErrorKind::ApiStart => "Failed to start API Server. Quitting."@,
        ErrorKind::NodeStart => "Failed to start node: "@,
    }
}

/// Whether the message of a failure ends with the words of whoever failed.
pub open spec fn carries_detail(kind: ErrorKind) -> bool {
    kind != ErrorKind::PushTriggerSetup && kind != ErrorKind::ApiStart
}

/// The message of a failure.
pub open spec fn message_of(kind: ErrorKind, detail: Seq<char>) -> Seq<char> {
    if carries_detail(kind) {
        message_opening(kind) + detail
    } else {
        message_opening(kind)
    }
}

/// The words with which the message of a failure opens.
fn opening_of(kind: ErrorKind) -> (r: &'static str)
    ensures
        r@ == message_opening(kind),
{
    match kind {
        ErrorKind::Config => "Failed to load config: ",
        ErrorKind::CoinbaseTagParse => "Failed to parse coinbase_tag config: ",
        ErrorKind::LoggingSetup => "Failed to set up logging: ",
        ErrorKind::ChainInit => "Failed to open the share chain: ",
        ErrorKind::PushTriggerSetup => "Failed to set up ZMQ publisher",
        ErrorKind::BlockTemplateFetch => "Failed to fetch block template. Shutting down. ",
        ErrorKind::MetricsStart => "Failed to start metrics: ",
        ErrorKind::StratumBuild => "Failed to build Stratum server: ",
        ErrorKind::StratumRuntime => "Failed to start Stratum server: ",
        ErrorKind::ApiStart => "Failed to start API Server. Quitting.",
        ErrorKind::NodeStart => "Failed to start node: ",
    }
}

/// The message with which a failure is logged or with which the process
/// ends: the opening of its kind and, for most kinds, the words of whoever
/// failed.
pub fn failure_message(kind: ErrorKind, detail: &str) -> (r: String)
    ensures
        r@ == message_of(kind, detail@),
{
    let opening = String::from_str(opening_of(kind));
    match kind {
        ErrorKind::PushTriggerSetup => opening,
        ErrorKind::ApiStart => opening,
        _ => opening.concat(detail),
    }
}

} // verus!
