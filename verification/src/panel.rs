//! The floating panels and the tray icon: what to do with a panel, given what
//! the windowing layer reports. The windowing layer itself is the caller's.

use crate::shutdown::{ShutdownOrigin, ShutdownSignal};
use vstd::prelude::*;
use vstd::string::*;

verus! {

/// What to do with a panel.
#[derive(Clone, Copy, Debug, PartialEq, Eq)]
pub enum PanelAction {
    Show,
    Hide,
    Nothing,
}

/// What to do on an event of the tray icon.
#[derive(Clone, Copy, Debug, PartialEq, Eq)]
pub enum TrayAction {
    /// Hide the panel.
    Hide,
    /// Move the panel below the icon, then show it where it is on the monitor
    /// that has the cursor.
    PositionAndShow,
    Nothing,
}

/// What the application does about a request to exit.
#[derive(Debug, PartialEq, Eq)]
pub struct ExitPlan {
    /// The shutdown signal for the supervisor.
    pub signal: ShutdownSignal,
    /// Whether the exit is held back, so that the tray stays when the last
    /// window is gone.
    pub prevent_exit: bool,
}

/// The name of the application event for what the window delegate of a panel
/// reports: `<label>_panel_did_become_key` when the panel became the key
/// window, `<label>_panel_did_resign_key` when it resigned, and none for
/// anything else.
pub open spec fn spec_panel_event_name(label: Seq<char>, delegate_name: Seq<char>) -> Option<
    Seq<char>,
> {
    if delegate_name == "window_did_become_key"@ {
        Some(label + "_panel_did_become_key"@)
    } else if delegate_name == "window_did_resign_key"@ {
        Some(label + "_panel_did_resign_key"@)
    } else {
        None
    }
}

/// Names the application event for what the window delegate of the panel
/// `label` reports.
pub fn panel_event_name(label: &str, delegate_name: &str) -> (r: Option<String>)
    ensures
        match r {
            Some(name) => spec_panel_event_name(label@, delegate_name@) == Some(name@),
            None => spec_panel_event_name(label@, delegate_name@) is None,
        },
{
    let reported = String::from_str(delegate_name);
    if reported == String::from_str("window_did_become_key") {
        let mut name = String::from_str(label);
        name.append("_panel_did_become_key");
        Some(name)
    } else if reported == String::from_str("window_did_resign_key") {
        let mut name = String::from_str(label);
        name.append("_panel_did_resign_key");
        Some(name)
    } else {
        None
    }
}

/// Whether this application is the one in front.
pub fn check_menubar_frontmost(frontmost_pid: i32, own_pid: i32) -> (r: bool)
    ensures
        r == (frontmost_pid == own_pid),
{
    frontmost_pid == own_pid
}

/// Toggling a panel: a visible panel is hidden, a hidden one shown.
pub fn toggle_panel(visible: bool) -> (action: PanelAction)
    ensures
        action == if visible {
            PanelAction::Hide
        } else {
            PanelAction::Show
        },
{
    if visible {
        PanelAction::Hide
    } else {
        PanelAction::Show
    }
}

/// Hiding a panel: only a visible panel is hidden.
pub fn hide_panel(visible: bool) -> (action: PanelAction)
    ensures
        action == if visible {
            PanelAction::Hide
        } else {
            PanelAction::Nothing
        },
{
    if visible {
        PanelAction::Hide
    } else {
        PanelAction::Nothing
    }
}

/// The menubar panel lost the keyboard, or another application or space
/// came to the front: the panel is hidden, unless this application is the one
/// in front.
pub fn panel_resigned(frontmost_pid: i32, own_pid: i32) -> (action: PanelAction)
    ensures
        action == if frontmost_pid == own_pid {
            PanelAction::Nothing
        } else {
            PanelAction::Hide
        },
{
    if check_menubar_frontmost(frontmost_pid, own_pid) {
        PanelAction::Nothing
    } else {
        PanelAction::Hide
    }
}

/// A click on the tray icon counts when the left button is released. It then
/// hides a visible panel and brings up a hidden one.
pub fn tray_click(button_up: bool, left_button: bool, panel_visible: bool) -> (action: TrayAction)
    ensures
        action == if !(button_up && left_button) {
            TrayAction::Nothing
        } else if panel_visible {
            TrayAction::Hide
        } else {
            TrayAction::PositionAndShow
        },
{
    if !(button_up && left_button) {
        TrayAction::Nothing
    } else if panel_visible {
        TrayAction::Hide
    } else {
        TrayAction::PositionAndShow
    }
}

/// A request to exit always shuts the worker down. The exit itself goes
/// through only where it was asked for with an exit code; without one it is
/// held back.
pub fn exit_requested(code: Option<i32>) -> (plan: ExitPlan)
    ensures
        plan.signal.origin == ShutdownOrigin::UserExit,
        plan.prevent_exit == (code is None),
{
    ExitPlan {
        signal: ShutdownSignal { origin: ShutdownOrigin::UserExit },
        prevent_exit: code.is_none(),
    }
}

} // verus!
