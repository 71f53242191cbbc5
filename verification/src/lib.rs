//! Decision core of a desktop board application's native shell.
//!
//! The shell's job is declarative: build one fixed application menu,
//! register one global shortcut, and forward menu activations and the
//! shortcut into the embedded front-end as named events. This crate
//! holds that logic as verified functions over plain values: the menu
//! tree as data, the menu-id-to-event table, and the reaction each
//! input event calls for. The host-toolkit glue that realises the menu,
//! captures the shortcut and performs the emits lives outside, feeding
//! these functions and acting on what they return.

use vstd::prelude::*;
use vstd::string::StrSliceExecFns;

mod dispatch;
mod menu;
mod shortcut;

pub use dispatch::dispatch_menu_event;
pub use dispatch::lemma_custom_ids_map_to_their_events;
pub use dispatch::lemma_unrecognized_id_no_event;
pub use dispatch::menu_event_for_id;
pub use dispatch::menu_event_table;
pub use dispatch::spec_dispatch;
pub use dispatch::spec_event_table;
pub use dispatch::spec_lookup;
pub use dispatch::spec_menu_event;
pub use dispatch::table_view;
pub use menu::create_menu;
pub use menu::lemma_menu_construction_deterministic;
pub use menu::spec_app_submenu;
pub use menu::spec_custom;
pub use menu::spec_edit_submenu;
pub use menu::spec_file_submenu;
pub use menu::spec_menu;
pub use menu::spec_predefined;
pub use menu::spec_view_submenu;
pub use menu::spec_window_submenu;
pub use menu::MenuEntry;
pub use menu::MenuEntryView;
pub use menu::MenuModel;
pub use menu::MenuView;
pub use menu::PredefinedKind;
pub use menu::SubmenuModel;
pub use menu::SubmenuView;
pub use shortcut::handle_shortcut;
pub use shortcut::lemma_palette_fires_only_on_press;
pub use shortcut::palette_shortcut;
pub use shortcut::spec_palette_fires;
pub use shortcut::spec_palette_shortcut;
pub use shortcut::KeyCode;
pub use shortcut::KeyCombo;
pub use shortcut::PressState;
pub use shortcut::ShortcutReaction;

verus! {

/// Character-for-character equality of two string slices.
///
/// The host toolkit hands menu identifiers over as strings, so the
/// dispatch table is keyed by string comparison.
pub fn str_eq(a: &str, b: &str) -> (r: bool)
    ensures
        r == (a@ == b@),
{
    let a_len = a.unicode_len();
    let b_len = b.unicode_len();
    if a_len != b_len {
        return false;
    }
    let mut i: usize = 0;
    while i < a_len
        invariant
            i <= a_len,
            a_len == a@.len(),
            a_len == b@.len(),
            forall|j: int| 0 <= j < i ==> a@[j] == b@[j],
        decreases a_len - i,
    {
        if a.get_char(i) != b.get_char(i) {
            return false;
        }
        i += 1;
    }
    proof {
        assert(a@ =~= b@);
    }
    true
}

/// Law: while no main window exists, neither the shortcut handler nor
/// the menu dispatcher emits any event, whatever arrives.
pub proof fn lemma_no_window_no_event(id: Seq<char>, combo: KeyCombo, state: PressState)
    ensures
        spec_dispatch(false, id) is None,
        !spec_palette_fires(false, combo, state),
{
}

} // verus!
