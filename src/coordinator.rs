use vstd::prelude::*;

use crate::build_mode::{BuildMode, Platform};
use crate::window::{focus_action, focus_main_window, WindowAction};

verus! {

/// What a second launch hands to the running primary process.
pub struct RelaunchEvent {
    pub args: Vec<String>,
    pub working_directory: String,
}

impl RelaunchEvent {
    pub fn new(args: Vec<String>, working_directory: String) -> (r: RelaunchEvent)
        ensures
            r.args@ == args@,
            r.working_directory@ == working_directory@,
    {
        RelaunchEvent { args, working_directory }
    }
}

/// Whether a process is the primary instance or must give way to one.
#[derive(Clone, Copy, Debug, PartialEq, Eq, Structural)]
pub enum LaunchDecision {
    /// Another instance is primary: hand it the arguments and exit at once,
    /// registering nothing and opening no window.
    ForwardToPrimary,
    /// Carry on with the startup sequence.
    Start,
}

/// Desktop builds allow one running instance; mobile builds have no such rule.
pub open spec fn launch_decision(mode: BuildMode, primary_running: bool) -> LaunchDecision {
    if mode.platform == Platform::Desktop && primary_running {
        LaunchDecision::ForwardToPrimary
    } else {
        LaunchDecision::Start
    }
}

/// Decides what a newly started process does, given whether a primary
/// instance already holds the single-instance lock.
pub fn decide_launch(mode: BuildMode, primary_running: bool) -> (r: LaunchDecision)
    ensures
        r == launch_decision(mode, primary_running),
{
    if mode.is_desktop() && primary_running {
        LaunchDecision::ForwardToPrimary
    } else {
        LaunchDecision::Start
    }
}

/// The coordinator's state: it listens from registration until the process ends.
#[derive(Clone, Copy, Debug, PartialEq, Eq, Structural)]
pub enum CoordinatorState {
    Unregistered,
    Listening,
}

/// What the primary does on a relaunch event: while listening, bring the main
/// window forward if there is one; otherwise nothing.
pub open spec fn relaunch_response(state: CoordinatorState, main_window_present: bool) -> Option<
    WindowAction,
> {
    if state == CoordinatorState::Listening {
        focus_action(main_window_present)
    } else {
        None
    }
}

/// Receives relaunch events in the primary process.
pub struct SingleInstanceCoordinator {
    state: CoordinatorState,
}

impl View for SingleInstanceCoordinator {
    type V = CoordinatorState;

    closed spec fn view(&self) -> CoordinatorState {
        self.state
    }
}

impl SingleInstanceCoordinator {
    pub fn new() -> (r: SingleInstanceCoordinator)
        ensures
            r@ == CoordinatorState::Unregistered,
    {
        SingleInstanceCoordinator { state: CoordinatorState::Unregistered }
    }

    pub fn state(&self) -> (r: CoordinatorState)
        ensures
            r == self@,
    {
        self.state
    }

    /// Starts listening for relaunch events.
    pub fn register(&mut self)
        ensures
            final(self)@ == CoordinatorState::Listening,
    {
        self.state = CoordinatorState::Listening;
    }

    /// Handles one relaunch event. The state does not change; the event's
    /// arguments and directory are not consumed here.
    pub fn handle_relaunch(&self, event: &RelaunchEvent, main_window_present: bool) -> (r: Option<
        WindowAction,
    >)
        ensures
            r == relaunch_response(self@, main_window_present),
    {
        match self.state {
            CoordinatorState::Listening => focus_main_window(main_window_present),
            CoordinatorState::Unregistered => None,
        }
    }
}

} // verus!
