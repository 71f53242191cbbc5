//! The menu-event dispatcher: a pure identifier-to-event lookup table.
//!
//! Every activation of a menu item reaches the shell with the item's
//! string identifier. Custom items each map to one fixed, payload-less
//! event name for the front-end; identifiers of host-predefined items,
//! and any other identifier, map to nothing. The table is explicit
//! data, so it can be read, tested and extended without touching
//! control flow.

use vstd::prelude::*;
use crate::str_eq;

verus! {

/// The identifier-to-event table: each custom menu item's identifier
/// beside the one event its activation emits.
pub open spec fn spec_event_table() -> Seq<(Seq<char>, Seq<char>)> {
    seq![
        ("new_board"@, "menu-new-board"@),
        ("open_file"@, "menu-open-file"@),
        ("save"@, "menu-save"@),
        ("export"@, "menu-export"@),
        ("command_palette"@, "open-command-palette"@),
        ("reset_view"@, "menu-reset-view"@),
    ]
}

/// First-match lookup of an identifier in a table of pairs.
pub open spec fn spec_lookup(table: Seq<(Seq<char>, Seq<char>)>, id: Seq<char>) -> Option<
    Seq<char>,
>
    decreases table.len(),
{
    if table.len() == 0 {
        None
    } else if table[0].0 == id {
        Some(table[0].1)
    } else {
        spec_lookup(table.drop_first(), id)
    }
}

/// The event name a menu identifier maps to, if any.
pub open spec fn spec_menu_event(id: Seq<char>) -> Option<Seq<char>> {
    spec_lookup(spec_event_table(), id)
}

/// What the dispatcher emits on one menu activation: nothing while no
/// main window exists, else whatever the table maps the identifier to.
pub open spec fn spec_dispatch(main_window_present: bool, id: Seq<char>) -> Option<Seq<char>> {
    if main_window_present {
        spec_menu_event(id)
    } else {
        None
    }
}

/// The view of the executable table: each pair as its character
/// sequences.
pub open spec fn table_view(t: Seq<(String, String)>) -> Seq<(Seq<char>, Seq<char>)> {
    t.map_values(|p: (String, String)| (p.0@, p.1@))
}

/// The identifier-to-event table as data.
pub fn menu_event_table() -> (t: Vec<(String, String)>)
    ensures
        table_view(t@) == spec_event_table(),
{
    let mut t: Vec<(String, String)> = Vec::new();
    t.push(("new_board".to_owned(), "menu-new-board".to_owned()));
    t.push(("open_file".to_owned(), "menu-open-file".to_owned()));
    t.push(("save".to_owned(), "menu-save".to_owned()));
    t.push(("export".to_owned(), "menu-export".to_owned()));
    t.push(("command_palette".to_owned(), "open-command-palette".to_owned()));
    t.push(("reset_view".to_owned(), "menu-reset-view".to_owned()));
    proof {
        assert(table_view(t@) =~= spec_event_table());
    }
    t
}

/// The event a menu identifier's activation emits: the table's entry
/// for it, none for an identifier the table does not hold.
pub fn menu_event_for_id(id: &str) -> (r: Option<String>)
    ensures
        r is Some <==> spec_menu_event(id@) is Some,
        r is Some ==> r->0@ == spec_menu_event(id@)->0,
{
    let table = menu_event_table();
    let len = table.len();
    proof {
        assert(spec_event_table().skip(0) =~= spec_event_table());
    }
    let mut i: usize = 0;
    while i < len
        invariant
            i <= len,
            len == table@.len(),
            table_view(table@) == spec_event_table(),
            spec_lookup(spec_event_table().skip(i as int), id@) == spec_menu_event(id@),
        decreases len - i,
    {
        proof {
            assert(spec_event_table()[i as int] == table_view(table@)[i as int]);
        }
        if str_eq(table[i].0.as_str(), id) {
            proof {
                assert(spec_event_table().skip(i as int)[0] == spec_event_table()[i as int]);
            }
            return Some(table[i].1.clone());
        }
        proof {
            assert(spec_event_table().skip(i as int)[0] == spec_event_table()[i as int]);
            assert(spec_event_table().skip(i as int).drop_first() =~= spec_event_table().skip(
                i as int + 1,
            ));
        }
        i += 1;
    }
    proof {
        assert(spec_event_table().skip(len as int).len() == 0);
    }
    None
}

/// Law: activating a custom menu item emits exactly the one event name
/// the table pairs with its identifier, and no other.
pub proof fn lemma_custom_ids_map_to_their_events()
    ensures
        spec_menu_event("new_board"@) == Some("menu-new-board"@),
        spec_menu_event("open_file"@) == Some("menu-open-file"@),
        spec_menu_event("save"@) == Some("menu-save"@),
        spec_menu_event("export"@) == Some("menu-export"@),
        spec_menu_event("command_palette"@) == Some("open-command-palette"@),
        spec_menu_event("reset_view"@) == Some("menu-reset-view"@),
{
    reveal_strlit("new_board");
    reveal_strlit("open_file");
    reveal_strlit("save");
    reveal_strlit("export");
    reveal_strlit("command_palette");
    reveal_strlit("reset_view");
    reveal_with_fuel(spec_lookup, 8);
    // The six identifiers are pairwise distinct: all lengths differ but
    // for the first two, which differ in their first character.
    assert("new_board"@.len() == 9);
    assert("open_file"@.len() == 9);
    assert("save"@.len() == 4);
    assert("export"@.len() == 6);
    assert("command_palette"@.len() == 15);
    assert("reset_view"@.len() == 10);
    assert("new_board"@[0] == 'n');
    assert("open_file"@[0] == 'o');
}

/// Law: activating a menu item whose identifier the table does not
/// hold emits no event.
pub proof fn lemma_unrecognized_id_no_event(id: Seq<char>)
    requires
        id != "new_board"@,
        id != "open_file"@,
        id != "save"@,
        id != "export"@,
        id != "command_palette"@,
        id != "reset_view"@,
    ensures
        spec_menu_event(id) is None,
{
    reveal_with_fuel(spec_lookup, 8);
}

/// Dispatch one menu activation: look the main window up; while none
/// exists do nothing, else emit the identifier's event to it, if the
/// table holds one.
pub fn dispatch_menu_event(main_window_present: bool, id: &str) -> (r: Option<String>)
    ensures
        r is Some <==> spec_dispatch(main_window_present, id@) is Some,
        r is Some ==> r->0@ == spec_dispatch(main_window_present, id@)->0,
{
    if main_window_present {
        menu_event_for_id(id)
    } else {
        None
    }
}

} // verus!
