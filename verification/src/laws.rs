//! The controller's laws: what the event-to-action machine guarantees over
//! every state and every event sequence, proved from the spec model in
//! [`crate::controller`].

use vstd::prelude::*;

use crate::controller::{
    Action, MouseButton, MouseButtonState, WindowState, accurate_reading, apply_action,
    focus_action, menu_action, tray_click_action,
};
use crate::geometry::{Position, TrayRect, WindowSize, spec_anchored_position};

verus! {

/// The state a `show_hide` selection leaves behind when the visibility
/// reading is accurate.
pub open spec fn toggled(s: WindowState) -> WindowState {
    apply_action(s, menu_action("show_hide"@, accurate_reading(s)))
}

/// The state after `n` consecutive `show_hide` selections, each reading
/// visibility accurately.
pub open spec fn toggled_n(s: WindowState, n: nat) -> WindowState
    decreases n,
{
    if n == 0 {
        s
    } else {
        toggled(toggled_n(s, (n - 1) as nat))
    }
}

/// One `show_hide` selection never preserves visibility: never show on
/// shown, never hide on hidden.
pub proof fn lemma_show_hide_toggles(s: WindowState)
    ensures
        toggled(s) != s,
{
    lemma_menu_ids_differ();
}

/// The two recognized menu ids are distinct character sequences, so the
/// dispatch branches never overlap.
pub proof fn lemma_menu_ids_differ()
    ensures
        "quit"@ != "show_hide"@,
{
    reveal_strlit("quit");
    reveal_strlit("show_hide");
    assert("quit"@.len() == 4);
    assert("show_hide"@.len() == 9);
}

/// Under any sequence of `show_hide` selections with accurate visibility
/// readings, visibility strictly alternates: each selection changes the
/// state, and two selections restore it.
pub proof fn lemma_show_hide_strictly_alternates(s: WindowState, n: nat)
    ensures
        toggled_n(s, n + 1) != toggled_n(s, n),
        toggled_n(s, n + 2) == toggled_n(s, n),
{
    lemma_show_hide_toggles(toggled_n(s, n));
    lemma_show_hide_toggles(toggled_n(s, n + 1));
    assert(toggled_n(s, n + 1) == toggled(toggled_n(s, n)));
    assert(toggled_n(s, n + 2) == toggled(toggled_n(s, n + 1)));
}

/// A focus-lost event hides the window from any prior state, and repeating
/// it keeps the window hidden (idempotence).
pub proof fn lemma_focus_lost_hides(s: WindowState)
    ensures
        apply_action(s, focus_action(false)) is Hidden,
        apply_action(apply_action(s, focus_action(false)), focus_action(false)) is Hidden,
{
}

/// A qualifying tray click (left button, release) while the window is read
/// as hidden — including a failed read — shows the window, with exactly the
/// anchored position when anchoring applies and the physical rectangle and
/// window size are at hand.
pub proof fn lemma_qualifying_click_while_hidden_shows(
    s: WindowState,
    rect: TrayRect,
    visible: Option<bool>,
    size: WindowSize,
)
    requires
        visible is None || visible == Some(false),
    ensures
        tray_click_action(true, MouseButton::Left, MouseButtonState::Up, Some(rect), visible, Some(size))
            == (Action::Show { position: spec_anchored_position(rect, size) }),
        apply_action(
            s,
            tray_click_action(true, MouseButton::Left, MouseButtonState::Up, Some(rect), visible, Some(size)),
        ) is Visible,
{
}

/// A tray click that is not a left-button release never changes visibility,
/// whatever else it carries.
pub proof fn lemma_non_qualifying_click_is_noop(
    s: WindowState,
    anchoring: bool,
    button: MouseButton,
    state: MouseButtonState,
    rect: Option<TrayRect>,
    visible: Option<bool>,
    size: Option<WindowSize>,
)
    requires
        !(button is Left && state is Up),
    ensures
        tray_click_action(anchoring, button, state, rect, visible, size) == Action::Nothing,
        apply_action(s, tray_click_action(anchoring, button, state, rect, visible, size)) == s,
{
}

/// The `quit` selection requests process termination with exit code 0,
/// whatever the prior state or visibility reading.
pub proof fn lemma_quit_exits(visible: Option<bool>)
    ensures
        menu_action("quit"@, visible) == (Action::Exit { code: 0 }),
{
}

/// Any menu id other than `quit` and `show_hide` leaves visibility and
/// position unchanged.
pub proof fn lemma_unknown_menu_id_is_noop(s: WindowState, id: Seq<char>, visible: Option<bool>)
    requires
        id != "quit"@,
        id != "show_hide"@,
    ensures
        menu_action(id, visible) == Action::Nothing,
        apply_action(s, menu_action(id, visible)) == s,
{
}

/// A failed visibility read during `show_hide` resolves to "was hidden":
/// the selection shows the window rather than silently doing nothing, so
/// the window can never get stuck unable to reopen.
pub proof fn lemma_failed_read_resolves_to_show(s: WindowState)
    ensures
        menu_action("show_hide"@, None::<bool>) == (Action::Show { position: None::<Position> }),
        apply_action(s, menu_action("show_hide"@, None::<bool>)) is Visible,
{
    lemma_menu_ids_differ();
}

} // verus!
