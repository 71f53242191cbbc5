use boardkit::handle_shortcut;
use boardkit::palette_shortcut;
use boardkit::str_eq;
use boardkit::KeyCode;
use boardkit::KeyCombo;
use boardkit::PressState;

#[test]
fn palette_shortcut_is_super_shift_space() {
    let s = palette_shortcut();
    assert!(s.super_key);
    assert!(s.shift);
    assert!(!s.alt);
    assert!(!s.ctrl);
    assert_eq!(s.code, KeyCode::Space);
}

#[test]
fn press_of_palette_shortcut_opens_palette() {
    let r = handle_shortcut(true, palette_shortcut(), PressState::Pressed);
    assert!(r.show_window);
    assert!(r.focus_window);
    assert_eq!(r.emit, Some("open-command-palette".to_owned()));
}

#[test]
fn release_of_palette_shortcut_does_nothing() {
    let r = handle_shortcut(true, palette_shortcut(), PressState::Released);
    assert!(!r.show_window);
    assert!(!r.focus_window);
    assert_eq!(r.emit, None);
}

#[test]
fn different_shortcut_does_nothing() {
    let other = KeyCombo { super_key: true, shift: false, alt: false, ctrl: false, code: KeyCode::Space };
    let r = handle_shortcut(true, other, PressState::Pressed);
    assert!(!r.show_window);
    assert!(!r.focus_window);
    assert_eq!(r.emit, None);

    let other_key = KeyCombo { super_key: true, shift: true, alt: false, ctrl: false, code: KeyCode::Other(7) };
    let r2 = handle_shortcut(true, other_key, PressState::Pressed);
    assert_eq!(r2.emit, None);
}

#[test]
fn no_window_means_no_reaction() {
    let r = handle_shortcut(false, palette_shortcut(), PressState::Pressed);
    assert!(!r.show_window);
    assert!(!r.focus_window);
    assert_eq!(r.emit, None);
}

#[test]
fn str_eq_compares_by_characters() {
    assert!(str_eq("new_board", "new_board"));
    assert!(str_eq("", ""));
    assert!(!str_eq("new_board", "new_boar"));
    assert!(!str_eq("new_board", "open_file"));
    assert!(!str_eq("", "a"));
}
