//! The tray/window controller: a pure event-to-action machine.
//!
//! Three event classes reach the controller — a menu selection, a tray icon
//! click, and a window focus change. Each handler takes the host's fresh
//! readings as arguments (visibility is never cached across events) and
//! returns the [`Action`] the host must perform on its window handle.

use vstd::prelude::*;
use vstd::string::StrSliceExecFns;

use crate::geometry::{Position, TrayRect, WindowSize, spec_anchored_position, anchored_position};

verus! {

/// The mouse button of a tray click.
#[derive(Clone, Copy, Debug, PartialEq, Eq)]
pub enum MouseButton {
    Left,
    Right,
    Middle,
}

/// Whether the button was pressed or released.
#[derive(Clone, Copy, Debug, PartialEq, Eq)]
pub enum MouseButtonState {
    Up,
    Down,
}

/// What the host must do to its window after an event; showing always
/// includes a focus request, and an attached position when anchoring
/// applies.
#[derive(Clone, Copy, Debug, PartialEq, Eq)]
pub enum Action {
    /// Leave the window as it is.
    Nothing,
    /// Hide the window.
    Hide,
    /// Show the window, request input focus, and move it to `position`
    /// when one is given.
    Show { position: Option<Position> },
    /// Terminate the process with `code`.
    Exit { code: i32 },
}

/// The window's visibility as the controller sees it: derived live from the
/// host, never stored.
#[derive(Clone, Copy, Debug, PartialEq, Eq)]
pub enum WindowState {
    Hidden,
    Visible,
}

/// How a fallible visibility read is resolved: a failed read (`None`)
/// counts as hidden, so the fallback action is to show, never to stay
/// stuck hidden.
pub open spec fn read_as_visible(visible: Option<bool>) -> bool {
    match visible {
        Some(b) => b,
        None => false,
    }
}

/// The action of toggling: hide when the reading says visible, otherwise
/// show (with focus, at the window's current position).
pub open spec fn toggle_action(visible: Option<bool>) -> Action {
    if read_as_visible(visible) {
        Action::Hide
    } else {
        Action::Show { position: None }
    }
}

/// The action of a menu selection: `quit` exits, `show_hide` toggles, and
/// any other id is a forward-compatible no-op.
pub open spec fn menu_action(id: Seq<char>, visible: Option<bool>) -> Action {
    if id == "quit"@ {
        Action::Exit { code: 0 }
    } else if id == "show_hide"@ {
        toggle_action(visible)
    } else {
        Action::Nothing
    }
}

/// The anchor attached to a show from a tray click: only when the platform
/// anchors tray icons (the `anchoring` capability) and both the physical
/// click rectangle and the window size could be read.
pub open spec fn anchor_of(
    anchoring: bool,
    rect: Option<TrayRect>,
    size: Option<WindowSize>,
) -> Option<Position> {
    if anchoring {
        match (rect, size) {
            (Some(r), Some(s)) => spec_anchored_position(r, s),
            _ => None,
        }
    } else {
        None
    }
}

/// The action of a tray icon click: only a left-button release is acted
/// upon; it hides a visible window, and shows a hidden one with focus and
/// the anchor of `anchor_of`.
pub open spec fn tray_click_action(
    anchoring: bool,
    button: MouseButton,
    state: MouseButtonState,
    rect: Option<TrayRect>,
    visible: Option<bool>,
    size: Option<WindowSize>,
) -> Action {
    if !(button is Left && state is Up) {
        Action::Nothing
    } else if read_as_visible(visible) {
        Action::Hide
    } else {
        Action::Show { position: anchor_of(anchoring, rect, size) }
    }
}

/// The action of a focus change: losing focus hides the window (menubar
/// semantics); gaining focus does nothing, showing is the other handlers'
/// business.
pub open spec fn focus_action(focused: bool) -> Action {
    if focused {
        Action::Nothing
    } else {
        Action::Hide
    }
}

/// The window state an action leaves behind, for a host that performs the
/// action faithfully. `Exit` terminates the process, so the state it
/// "leaves" is never observed; it is kept unchanged here.
pub open spec fn apply_action(s: WindowState, a: Action) -> WindowState {
    match a {
        Action::Nothing => s,
        Action::Hide => WindowState::Hidden,
        Action::Show { .. } => WindowState::Visible,
        Action::Exit { .. } => s,
    }
}

/// The reading an accurate visibility query returns in state `s`.
pub open spec fn accurate_reading(s: WindowState) -> Option<bool> {
    Some(s is Visible)
}

/// Character-wise string equality, so that menu-id dispatch is itself
/// verified code.
fn str_eq(a: &str, b: &str) -> (r: bool)
    ensures
        r == (a@ == b@),
{
    let n = a.unicode_len();
    let m = b.unicode_len();
    if n != m {
        return false;
    }
    let mut i: usize = 0;
    while i < n
        invariant
            n == a@.len(),
            n == b@.len(),
            i <= n,
            forall|j: int| 0 <= j < i ==> a@[j] == b@[j],
        decreases n - i,
    {
        let ca = a.get_char(i);
        let cb = b.get_char(i);
        if ca != cb {
            return false;
        }
        i += 1;
    }
    proof {
        assert(a@ =~= b@);
    }
    true
}

/// The controller. It owns no window state; it only carries the platform
/// capability resolved at startup that says whether tray icons are anchored
/// to a status bar (and window positioning under them is expected).
pub struct Controller {
    pub supports_tray_anchoring: bool,
}

impl Controller {
    pub fn new(supports_tray_anchoring: bool) -> (c: Controller)
        ensures
            c.supports_tray_anchoring == supports_tray_anchoring,
    {
        Controller { supports_tray_anchoring }
    }

    /// Handles a menu selection. `visible` is the host's fresh visibility
    /// reading, `None` when the read failed.
    pub fn on_menu_event(&self, id: &str, visible: Option<bool>) -> (a: Action)
        ensures
            a == menu_action(id@, visible),
    {
        if str_eq(id, "quit") {
            Action::Exit { code: 0 }
        } else if str_eq(id, "show_hide") {
            if visible.unwrap_or(false) {
                Action::Hide
            } else {
                Action::Show { position: None }
            }
        } else {
            Action::Nothing
        }
    }

    /// Handles a tray icon click. `rect` is the icon's physical bounding
    /// box when the host reported one, `visible` the fresh visibility
    /// reading, `size` the window's outer size when it could be read.
    pub fn on_tray_click(
        &self,
        button: MouseButton,
        state: MouseButtonState,
        rect: Option<TrayRect>,
        visible: Option<bool>,
        size: Option<WindowSize>,
    ) -> (a: Action)
        ensures
            a == tray_click_action(self.supports_tray_anchoring, button, state, rect, visible, size),
    {
        let qualifying = match (button, state) {
            (MouseButton::Left, MouseButtonState::Up) => true,
            _ => false,
        };
        if !qualifying {
            Action::Nothing
        } else if visible.unwrap_or(false) {
            Action::Hide
        } else {
            let position = if self.supports_tray_anchoring {
                match (rect, size) {
                    (Some(r), Some(s)) => anchored_position(&r, &s),
                    _ => None,
                }
            } else {
                None
            };
            Action::Show { position }
        }
    }

    /// Handles a window focus change: hides on focus loss, does nothing on
    /// focus gain.
    pub fn on_focus_changed(&self, focused: bool) -> (a: Action)
        ensures
            a == focus_action(focused),
    {
        if focused {
            Action::Nothing
        } else {
            Action::Hide
        }
    }
}

} // verus!
