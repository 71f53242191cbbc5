use boardkit::dispatch_menu_event;
use boardkit::menu_event_for_id;
use boardkit::menu_event_table;

#[test]
fn new_board_maps_to_its_event() {
    assert_eq!(menu_event_for_id("new_board"), Some("menu-new-board".to_owned()));
}

#[test]
fn open_file_maps_to_its_event() {
    assert_eq!(menu_event_for_id("open_file"), Some("menu-open-file".to_owned()));
}

#[test]
fn save_maps_to_its_event() {
    assert_eq!(menu_event_for_id("save"), Some("menu-save".to_owned()));
}

#[test]
fn export_maps_to_its_event() {
    assert_eq!(menu_event_for_id("export"), Some("menu-export".to_owned()));
}

#[test]
fn command_palette_maps_to_palette_event() {
    assert_eq!(menu_event_for_id("command_palette"), Some("open-command-palette".to_owned()));
}

#[test]
fn reset_view_maps_to_its_event() {
    assert_eq!(menu_event_for_id("reset_view"), Some("menu-reset-view".to_owned()));
}

#[test]
fn unrecognized_id_emits_nothing() {
    assert_eq!(menu_event_for_id("quit"), None);
    assert_eq!(menu_event_for_id("new_boar"), None);
    assert_eq!(menu_event_for_id("new_board2"), None);
    assert_eq!(menu_event_for_id(""), None);
    assert_eq!(menu_event_for_id("menu-new-board"), None);
}

#[test]
fn dispatch_with_window_emits_the_mapped_event() {
    assert_eq!(dispatch_menu_event(true, "save"), Some("menu-save".to_owned()));
    assert_eq!(dispatch_menu_event(true, "command_palette"), Some("open-command-palette".to_owned()));
}

#[test]
fn dispatch_without_window_emits_nothing() {
    assert_eq!(dispatch_menu_event(false, "save"), None);
    assert_eq!(dispatch_menu_event(false, "new_board"), None);
    assert_eq!(dispatch_menu_event(false, "no_such_id"), None);
}

#[test]
fn table_holds_each_pair_once_in_order() {
    let table = menu_event_table();
    let expected = vec![
        ("new_board", "menu-new-board"),
        ("open_file", "menu-open-file"),
        ("save", "menu-save"),
        ("export", "menu-export"),
        ("command_palette", "open-command-palette"),
        ("reset_view", "menu-reset-view"),
    ];
    assert_eq!(table.len(), expected.len());
    for (got, want) in table.iter().zip(expected.iter()) {
        assert_eq!(got.0, want.0);
        assert_eq!(got.1, want.1);
    }
}
