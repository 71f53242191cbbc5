//! The one global shortcut the shell registers, and the reaction its
//! handler owes to each invocation.
//!
//! The host toolkit reports every firing of a registered shortcut as a
//! key combination plus a transition (press or release). The handler
//! reacts only to the press of the palette combination, and only while
//! a main window exists: then the window is to be shown, focused, and
//! sent the palette event. Everything else is ignored.

use vstd::prelude::*;

verus! {

/// A physical key, by the host toolkit's key code. Only the space bar
/// is named; every other key is carried by its raw code.
#[derive(Clone, Copy, Debug, PartialEq, Eq, Structural)]
pub enum KeyCode {
    Space,
    Other(u32),
}

/// A global key combination: the four modifiers and one key.
#[derive(Clone, Copy, Debug, PartialEq, Eq, Structural)]
pub struct KeyCombo {
    pub super_key: bool,
    pub shift: bool,
    pub alt: bool,
    pub ctrl: bool,
    pub code: KeyCode,
}

/// The transition a shortcut firing reports.
#[derive(Clone, Copy, Debug, PartialEq, Eq, Structural)]
pub enum PressState {
    Pressed,
    Released,
}

/// The palette combination: platform super + shift + space.
pub open spec fn spec_palette_shortcut() -> KeyCombo {
    KeyCombo { super_key: true, shift: true, alt: false, ctrl: false, code: KeyCode::Space }
}

/// The one combination the shell registers globally.
pub fn palette_shortcut() -> (s: KeyCombo)
    ensures
        s == spec_palette_shortcut(),
{
    KeyCombo { super_key: true, shift: true, alt: false, ctrl: false, code: KeyCode::Space }
}

/// What the shortcut handler asks the host to do: show and focus the
/// main window, and emit one payload-less event to it. All three are
/// best-effort on the host's side; a failed emit is discarded.
pub struct ShortcutReaction {
    pub show_window: bool,
    pub focus_window: bool,
    pub emit: Option<String>,
}

/// Whether one shortcut firing calls for the palette reaction: the
/// palette combination, on its press transition, while a main window
/// exists.
pub open spec fn spec_palette_fires(
    main_window_present: bool,
    combo: KeyCombo,
    state: PressState,
) -> bool {
    &&& main_window_present
    &&& combo == spec_palette_shortcut()
    &&& state == PressState::Pressed
}

/// Law: the palette fires only on the press transition of the palette
/// combination itself; a release, or any other combination, fires
/// nothing.
pub proof fn lemma_palette_fires_only_on_press(
    main_window_present: bool,
    combo: KeyCombo,
    state: PressState,
)
    ensures
        spec_palette_fires(main_window_present, combo, state) ==> state == PressState::Pressed
            && combo == spec_palette_shortcut(),
        state == PressState::Released ==> !spec_palette_fires(main_window_present, combo, state),
        combo != spec_palette_shortcut() ==> !spec_palette_fires(
            main_window_present,
            combo,
            state,
        ),
{
}

/// Decide the reaction to one firing of a registered global shortcut.
///
/// The palette event is emitted if and only if the fired combination is
/// the palette shortcut, the transition is a press (not a release), and
/// a main window exists; the window is shown and focused exactly then.
/// On any other firing nothing happens at all.
pub fn handle_shortcut(main_window_present: bool, combo: KeyCombo, state: PressState) -> (r:
    ShortcutReaction)
    ensures
        r.show_window == spec_palette_fires(main_window_present, combo, state),
        r.focus_window == spec_palette_fires(main_window_present, combo, state),
        r.emit is Some <==> spec_palette_fires(main_window_present, combo, state),
        r.emit is Some ==> r.emit->0@ == "open-command-palette"@,
{
    if state == PressState::Pressed && combo == palette_shortcut() && main_window_present {
        ShortcutReaction {
            show_window: true,
            focus_window: true,
            emit: Some("open-command-palette".to_owned()),
        }
    } else {
        ShortcutReaction { show_window: false, focus_window: false, emit: None }
    }
}

} // verus!
