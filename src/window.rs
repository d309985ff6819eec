use vstd::prelude::*;

use crate::build_mode::{BuildMode, Profile};

verus! {

/// The logical name of the application's main window, shared with the window
/// configuration that creates it.
pub fn main_window_label() -> (r: &'static str)
    ensures
        r@ == "main"@,
{
    "main"
}

/// An action to perform on the main window.
#[derive(Clone, Copy, Debug, PartialEq, Eq, Structural)]
pub enum WindowAction {
    /// Bring the window to the foreground.
    Focus,
    /// Open the developer tools of the window's content.
    OpenDevtools,
}

/// What a focus request does: focus the main window if it exists, else nothing.
pub open spec fn focus_action(main_window_present: bool) -> Option<WindowAction> {
    if main_window_present {
        Some(WindowAction::Focus)
    } else {
        None
    }
}

/// What the debug setup step does: open the developer tools of the main window
/// in debug builds when it exists, else nothing.
pub open spec fn devtools_action(mode: BuildMode, main_window_present: bool) -> Option<WindowAction> {
    if mode.profile == Profile::Debug && main_window_present {
        Some(WindowAction::OpenDevtools)
    } else {
        None
    }
}

/// Decides how to bring the main window to the foreground. A missing window is
/// no error: there is then nothing to do.
pub fn focus_main_window(main_window_present: bool) -> (r: Option<WindowAction>)
    ensures
        r == focus_action(main_window_present),
{
    if main_window_present {
        Some(WindowAction::Focus)
    } else {
        None
    }
}

/// Decides whether to open the main window's developer tools: only in debug
/// builds, and only when the window exists.
pub fn enable_devtools_if_debug(mode: BuildMode, main_window_present: bool) -> (r: Option<
    WindowAction,
>)
    ensures
        r == devtools_action(mode, main_window_present),
{
    if mode.is_debug() && main_window_present {
        Some(WindowAction::OpenDevtools)
    } else {
        None
    }
}

/// The developer tools are opened if and only if the build is a debug build and
/// the main window exists; a release build never opens them, with or without a
/// window.
pub proof fn lemma_devtools_only_in_debug(mode: BuildMode, main_window_present: bool)
    ensures
        devtools_action(mode, main_window_present) is Some <==> (mode.profile == Profile::Debug
            && main_window_present),
        mode.profile == Profile::Release ==> devtools_action(mode, main_window_present) is None,
        devtools_action(mode, main_window_present) is Some ==> devtools_action(
            mode,
            main_window_present,
        ) == Some(WindowAction::OpenDevtools),
{
}

/// Without a main window, neither window operation does anything, in any build.
pub proof fn lemma_missing_window_is_no_op(mode: BuildMode)
    ensures
        focus_action(false) is None,
        devtools_action(mode, false) is None,
{
}

} // verus!
