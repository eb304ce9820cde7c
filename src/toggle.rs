//! The toggle decision taken on a hotkey press, a tray click or a show
//! menu entry, from the window's live visibility and focus.

use vstd::prelude::*;

verus! {

/// The window as the window system reports it.
#[derive(Clone, Copy, Debug, PartialEq, Eq, Structural)]
pub enum WindowState {
    Hidden,
    VisibleUnfocused,
    VisibleFocused,
}

/// What a toggle does.
#[derive(Clone, Copy, Debug, PartialEq, Eq, Structural)]
pub enum ToggleAction {
    /// Hide the window.
    Hide,
    /// Run the full show sequence: position near the cursor, raise, focus.
    Show,
}

pub open spec fn state_spec(visible: bool, focused: bool) -> WindowState {
    if !visible {
        WindowState::Hidden
    } else if focused {
        WindowState::VisibleFocused
    } else {
        WindowState::VisibleUnfocused
    }
}

/// The window's state from its reported visibility and focus; a window
/// whose visibility cannot be read counts as hidden.
pub fn window_state(visible: bool, focused: bool) -> (r: WindowState)
    ensures
        r == state_spec(visible, focused),
{
    if !visible {
        WindowState::Hidden
    } else if focused {
        WindowState::VisibleFocused
    } else {
        WindowState::VisibleUnfocused
    }
}

/// A focused, visible window is hidden; in any other state the window is
/// shown again near the cursor, so an unfocused window follows the cursor
/// and takes the focus.
pub fn toggle_action(state: WindowState) -> (r: ToggleAction)
    ensures
        r == ToggleAction::Hide <==> state == WindowState::VisibleFocused,
{
    match state {
        WindowState::VisibleFocused => ToggleAction::Hide,
        _ => ToggleAction::Show,
    }
}

/// The toggle for a window with the reported visibility and focus (each
/// `false` where it cannot be read).
pub fn toggle_window(visible: bool, focused: bool) -> (r: ToggleAction)
    ensures
        r == ToggleAction::Hide <==> visible && focused,
{
    toggle_action(window_state(visible, focused))
}

} // verus!
