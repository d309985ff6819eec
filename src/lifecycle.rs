use vstd::prelude::*;

use crate::build_mode::{BuildMode, Platform};
use crate::capability::Capability;
use crate::config::BuilderConfig;
use crate::coordinator::{
    decide_launch, launch_decision, relaunch_response, CoordinatorState, LaunchDecision,
    RelaunchEvent, SingleInstanceCoordinator,
};
use crate::gate::{build_config, gated_capabilities};
use crate::window::{devtools_action, enable_devtools_if_debug, WindowAction};

verus! {

/// How far startup has come.
#[derive(Clone, Copy, Debug, PartialEq, Eq, Structural)]
pub enum Phase {
    /// Capabilities are registered; the setup hook has not run.
    Configured,
    /// The setup hook has run, once.
    SetupDone,
    /// The event loop has been entered.
    Running,
}

/// The abstract state of a started application.
pub struct LifecycleView {
    pub mode: BuildMode,
    pub phase: Phase,
    pub capabilities: Seq<Capability>,
    pub coordinator: CoordinatorState,
}

/// The state of the primary process from registration to the event loop.
pub struct Lifecycle {
    mode: BuildMode,
    phase: Phase,
    config: BuilderConfig,
    coordinator: SingleInstanceCoordinator,
}

/// What starting a process gives.
pub enum Startup {
    /// Another instance is primary; this event goes to it and this process exits.
    Forwarded(RelaunchEvent),
    /// This process is primary and has registered its capabilities.
    Started(Lifecycle),
}

/// The coordinator state a freshly started process has: listening on desktop,
/// where single-instance enforcement is registered, and never on mobile.
pub open spec fn initial_coordinator(mode: BuildMode) -> CoordinatorState {
    if mode.platform == Platform::Desktop {
        CoordinatorState::Listening
    } else {
        CoordinatorState::Unregistered
    }
}

impl View for Lifecycle {
    type V = LifecycleView;

    closed spec fn view(&self) -> LifecycleView {
        LifecycleView {
            mode: self.mode,
            phase: self.phase,
            capabilities: self.config@,
            coordinator: self.coordinator@,
        }
    }
}

/// Starts a process: a second desktop instance hands its arguments and working
/// directory to the primary and registers nothing; otherwise the process
/// registers the capabilities of its build, and on desktop listens for later
/// launches.
pub fn start(mode: BuildMode, primary_running: bool, args: Vec<String>, working_directory: String) -> (r: Startup)
    ensures
        (r is Forwarded) <==> launch_decision(mode, primary_running)
            == LaunchDecision::ForwardToPrimary,
        r matches Startup::Forwarded(e) ==> e.args@ == args@ && e.working_directory@
            == working_directory@,
        r matches Startup::Started(l) ==> l@ == (LifecycleView {
            mode,
            phase: Phase::Configured,
            capabilities: gated_capabilities(mode),
            coordinator: initial_coordinator(mode),
        }),
{
    match decide_launch(mode, primary_running) {
        LaunchDecision::ForwardToPrimary => {
            Startup::Forwarded(RelaunchEvent::new(args, working_directory))
        },
        LaunchDecision::Start => {
            let config = build_config(mode);
            let mut coordinator = SingleInstanceCoordinator::new();
            if mode.is_desktop() {
                coordinator.register();
            }
            Startup::Started(Lifecycle { mode, phase: Phase::Configured, config, coordinator })
        },
    }
}

impl Lifecycle {
    pub fn mode(&self) -> (r: BuildMode)
        ensures
            r == self@.mode,
    {
        self.mode
    }

    pub fn phase(&self) -> (r: Phase)
        ensures
            r == self@.phase,
    {
        self.phase
    }

    /// The registered capabilities, in registration order.
    pub fn capabilities(&self) -> (r: Vec<Capability>)
        ensures
            r@ == self@.capabilities,
    {
        self.config.capabilities()
    }

    pub fn coordinator_state(&self) -> (r: CoordinatorState)
        ensures
            r == self@.coordinator,
    {
        self.coordinator.state()
    }

    /// Runs the one-shot setup hook: in debug builds, open the main window's
    /// developer tools if the window exists.
    pub fn run_setup(&mut self, main_window_present: bool) -> (r: Option<WindowAction>)
        requires
            old(self)@.phase == Phase::Configured,
        ensures
            r == devtools_action(old(self)@.mode, main_window_present),
            final(self)@ == (LifecycleView { phase: Phase::SetupDone, ..old(self)@ }),
    {
        self.phase = Phase::SetupDone;
        enable_devtools_if_debug(self.mode, main_window_present)
    }

    /// Marks the hand-over to the host's event loop, after setup.
    pub fn enter_event_loop(&mut self)
        requires
            old(self)@.phase == Phase::SetupDone,
        ensures
            final(self)@ == (LifecycleView { phase: Phase::Running, ..old(self)@ }),
    {
        self.phase = Phase::Running;
    }

    /// Handles a relaunch event from a second instance. Nothing in the state
    /// changes; in particular the setup hook does not run again.
    pub fn on_relaunch(&self, event: &RelaunchEvent, main_window_present: bool) -> (r: Option<
        WindowAction,
    >)
        ensures
            r == relaunch_response(self@.coordinator, main_window_present),
    {
        self.coordinator.handle_relaunch(event, main_window_present)
    }
}

/// A second launch of a desktop build while a primary runs is forwarded, and
/// the primary, which listens from its start, answers the one event by focusing
/// its main window when there is one and by nothing else: the developer tools
/// are never opened by a relaunch.
pub proof fn lemma_second_launch_focuses_primary(mode: BuildMode, main_window_present: bool)
    requires
        mode.platform == Platform::Desktop,
    ensures
        launch_decision(mode, true) == LaunchDecision::ForwardToPrimary,
        relaunch_response(initial_coordinator(mode), main_window_present) == (if main_window_present {
            Some(WindowAction::Focus)
        } else {
            None
        }),
{
}

/// A relaunch never opens the developer tools, in any state.
pub proof fn lemma_relaunch_never_opens_devtools(state: CoordinatorState, main_window_present: bool)
    ensures
        relaunch_response(state, main_window_present) != Some(WindowAction::OpenDevtools),
{
}

} // verus!
