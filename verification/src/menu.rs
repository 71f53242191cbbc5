//! The application menu as data.
//!
//! The shell's menu is one fixed tree: five top-level submenus, each a
//! mix of host-predefined entries and custom entries. A custom entry
//! carries a stable string identifier (the key of the dispatch table),
//! a human label, and an accelerator; a predefined entry is named by
//! kind and the host toolkit supplies its label and behaviour. The tree
//! is built here as plain data with an exact contract, and the host
//! glue realises it entry by entry.

use vstd::prelude::*;

verus! {

/// A menu entry whose label and behaviour the host toolkit supplies.
/// `About` alone carries a text override for its label.
#[derive(Clone, Copy, Debug, PartialEq, Eq, Structural)]
pub enum PredefinedKind {
    About,
    Separator,
    Services,
    Hide,
    HideOthers,
    ShowAll,
    Quit,
    Undo,
    Redo,
    Cut,
    CopySelection,
    Paste,
    SelectAll,
    Fullscreen,
    Minimize,
    Maximize,
    CloseWindow,
}

/// The view of one menu entry.
#[verifier::ext_equal]
pub enum MenuEntryView {
    Predefined { kind: PredefinedKind, text: Option<Seq<char>> },
    Custom { id: Seq<char>, label: Seq<char>, enabled: bool, accelerator: Option<Seq<char>> },
}

/// The view of one submenu: its title bar text and its entries in
/// visual order.
#[verifier::ext_equal]
pub struct SubmenuView {
    pub title: Seq<char>,
    pub enabled: bool,
    pub entries: Seq<MenuEntryView>,
}

/// The view of the whole menu: the top-level submenus in visual order.
#[verifier::ext_equal]
pub struct MenuView {
    pub submenus: Seq<SubmenuView>,
}

/// One menu entry: host-predefined, or custom with a stable identifier.
#[derive(Clone, Debug, PartialEq, Eq)]
pub enum MenuEntry {
    Predefined { kind: PredefinedKind, text: Option<String> },
    Custom { id: String, label: String, enabled: bool, accelerator: Option<String> },
}

impl View for MenuEntry {
    type V = MenuEntryView;

    open spec fn view(&self) -> MenuEntryView {
        match self {
            MenuEntry::Predefined { kind, text } => MenuEntryView::Predefined {
                kind: *kind,
                text: text.deep_view(),
            },
            MenuEntry::Custom { id, label, enabled, accelerator } => MenuEntryView::Custom {
                id: id@,
                label: label@,
                enabled: *enabled,
                accelerator: accelerator.deep_view(),
            },
        }
    }
}

/// One top-level submenu.
#[derive(Clone, Debug, PartialEq, Eq)]
pub struct SubmenuModel {
    pub title: String,
    pub enabled: bool,
    pub entries: Vec<MenuEntry>,
}

impl View for SubmenuModel {
    type V = SubmenuView;

    open spec fn view(&self) -> SubmenuView {
        SubmenuView {
            title: self.title@,
            enabled: self.enabled,
            entries: self.entries@.map_values(|e: MenuEntry| e@),
        }
    }
}

/// The whole application menu.
#[derive(Clone, Debug, PartialEq, Eq)]
pub struct MenuModel {
    pub submenus: Vec<SubmenuModel>,
}

impl View for MenuModel {
    type V = MenuView;

    open spec fn view(&self) -> MenuView {
        MenuView { submenus: self.submenus@.map_values(|s: SubmenuModel| s@) }
    }
}

/// A predefined entry with no text override.
pub open spec fn spec_predefined(kind: PredefinedKind) -> MenuEntryView {
    MenuEntryView::Predefined { kind, text: None }
}

/// A custom entry: enabled, with an accelerator.
pub open spec fn spec_custom(id: Seq<char>, label: Seq<char>, accelerator: Seq<char>) -> MenuEntryView {
    MenuEntryView::Custom { id, label, enabled: true, accelerator: Some(accelerator) }
}

/// The application submenu: about, services, hide/show, quit.
pub open spec fn spec_app_submenu() -> SubmenuView {
    SubmenuView {
        title: "Boardkit"@,
        enabled: true,
        entries: seq![
            MenuEntryView::Predefined {
                kind: PredefinedKind::About,
                text: Some("About Boardkit"@),
            },
            spec_predefined(PredefinedKind::Separator),
            spec_predefined(PredefinedKind::Services),
            spec_predefined(PredefinedKind::Separator),
            spec_predefined(PredefinedKind::Hide),
            spec_predefined(PredefinedKind::HideOthers),
            spec_predefined(PredefinedKind::ShowAll),
            spec_predefined(PredefinedKind::Separator),
            spec_predefined(PredefinedKind::Quit),
        ],
    }
}

/// The File submenu: the board file operations.
pub open spec fn spec_file_submenu() -> SubmenuView {
    SubmenuView {
        title: "File"@,
        enabled: true,
        entries: seq![
            spec_custom("new_board"@, "New Board"@, "CmdOrCtrl+N"@),
            spec_custom("open_file"@, "Open..."@, "CmdOrCtrl+O"@),
            spec_predefined(PredefinedKind::Separator),
            spec_custom("save"@, "Save"@, "CmdOrCtrl+S"@),
            spec_custom("export"@, "Export as .boardkit"@, "CmdOrCtrl+Shift+E"@),
        ],
    }
}

/// The Edit submenu: the host's clipboard and undo entries.
pub open spec fn spec_edit_submenu() -> SubmenuView {
    SubmenuView {
        title: "Edit"@,
        enabled: true,
        entries: seq![
            spec_predefined(PredefinedKind::Undo),
            spec_predefined(PredefinedKind::Redo),
            spec_predefined(PredefinedKind::Separator),
            spec_predefined(PredefinedKind::Cut),
            spec_predefined(PredefinedKind::CopySelection),
            spec_predefined(PredefinedKind::Paste),
            spec_predefined(PredefinedKind::SelectAll),
        ],
    }
}

/// The View submenu: the command palette and view controls.
pub open spec fn spec_view_submenu() -> SubmenuView {
    SubmenuView {
        title: "View"@,
        enabled: true,
        entries: seq![
            spec_custom("command_palette"@, "Command Palette..."@, "CmdOrCtrl+K"@),
            spec_predefined(PredefinedKind::Separator),
            spec_custom("reset_view"@, "Reset View"@, "CmdOrCtrl+0"@),
            spec_predefined(PredefinedKind::Separator),
            spec_predefined(PredefinedKind::Fullscreen),
        ],
    }
}

/// The Window submenu: the host's window controls.
pub open spec fn spec_window_submenu() -> SubmenuView {
    SubmenuView {
        title: "Window"@,
        enabled: true,
        entries: seq![
            spec_predefined(PredefinedKind::Minimize),
            spec_predefined(PredefinedKind::Maximize),
            spec_predefined(PredefinedKind::Separator),
            spec_predefined(PredefinedKind::CloseWindow),
        ],
    }
}

/// The whole fixed menu tree, in visual order.
pub open spec fn spec_menu() -> MenuView {
    MenuView {
        submenus: seq![
            spec_app_submenu(),
            spec_file_submenu(),
            spec_edit_submenu(),
            spec_view_submenu(),
            spec_window_submenu(),
        ],
    }
}

/// A predefined entry with no text override.
fn predefined(kind: PredefinedKind) -> (e: MenuEntry)
    ensures
        e@ == spec_predefined(kind),
{
    MenuEntry::Predefined { kind, text: None }
}

/// A custom entry: enabled, with an accelerator.
fn custom_item(id: &str, label: &str, accelerator: &str) -> (e: MenuEntry)
    ensures
        e@ == spec_custom(id@, label@, accelerator@),
{
    MenuEntry::Custom {
        id: id.to_owned(),
        label: label.to_owned(),
        enabled: true,
        accelerator: Some(accelerator.to_owned()),
    }
}

/// Build the application submenu.
fn app_submenu() -> (s: SubmenuModel)
    ensures
        s@ == spec_app_submenu(),
{
    let mut entries: Vec<MenuEntry> = Vec::new();
    entries.push(
        MenuEntry::Predefined {
            kind: PredefinedKind::About,
            text: Some("About Boardkit".to_owned()),
        },
    );
    entries.push(predefined(PredefinedKind::Separator));
    entries.push(predefined(PredefinedKind::Services));
    entries.push(predefined(PredefinedKind::Separator));
    entries.push(predefined(PredefinedKind::Hide));
    entries.push(predefined(PredefinedKind::HideOthers));
    entries.push(predefined(PredefinedKind::ShowAll));
    entries.push(predefined(PredefinedKind::Separator));
    entries.push(predefined(PredefinedKind::Quit));
    let s = SubmenuModel { title: "Boardkit".to_owned(), enabled: true, entries };
    proof {
        assert(s@ =~~= spec_app_submenu());
    }
    s
}

/// Build the File submenu.
fn file_submenu() -> (s: SubmenuModel)
    ensures
        s@ == spec_file_submenu(),
{
    let mut entries: Vec<MenuEntry> = Vec::new();
    entries.push(custom_item("new_board", "New Board", "CmdOrCtrl+N"));
    entries.push(custom_item("open_file", "Open...", "CmdOrCtrl+O"));
    entries.push(predefined(PredefinedKind::Separator));
    entries.push(custom_item("save", "Save", "CmdOrCtrl+S"));
    entries.push(custom_item("export", "Export as .boardkit", "CmdOrCtrl+Shift+E"));
    let s = SubmenuModel { title: "File".to_owned(), enabled: true, entries };
    proof {
        assert(s@ =~~= spec_file_submenu());
    }
    s
}

/// Build the Edit submenu.
fn edit_submenu() -> (s: SubmenuModel)
    ensures
        s@ == spec_edit_submenu(),
{
    let mut entries: Vec<MenuEntry> = Vec::new();
    entries.push(predefined(PredefinedKind::Undo));
    entries.push(predefined(PredefinedKind::Redo));
    entries.push(predefined(PredefinedKind::Separator));
    entries.push(predefined(PredefinedKind::Cut));
    entries.push(predefined(PredefinedKind::CopySelection));
    entries.push(predefined(PredefinedKind::Paste));
    entries.push(predefined(PredefinedKind::SelectAll));
    let s = SubmenuModel { title: "Edit".to_owned(), enabled: true, entries };
    proof {
        assert(s@ =~~= spec_edit_submenu());
    }
    s
}

/// Build the View submenu.
fn view_submenu() -> (s: SubmenuModel)
    ensures
        s@ == spec_view_submenu(),
{
    let mut entries: Vec<MenuEntry> = Vec::new();
    entries.push(custom_item("command_palette", "Command Palette...", "CmdOrCtrl+K"));
    entries.push(predefined(PredefinedKind::Separator));
    entries.push(custom_item("reset_view", "Reset View", "CmdOrCtrl+0"));
    entries.push(predefined(PredefinedKind::Separator));
    entries.push(predefined(PredefinedKind::Fullscreen));
    let s = SubmenuModel { title: "View".to_owned(), enabled: true, entries };
    proof {
        assert(s@ =~~= spec_view_submenu());
    }
    s
}

/// Build the Window submenu.
fn window_submenu() -> (s: SubmenuModel)
    ensures
        s@ == spec_window_submenu(),
{
    let mut entries: Vec<MenuEntry> = Vec::new();
    entries.push(predefined(PredefinedKind::Minimize));
    entries.push(predefined(PredefinedKind::Maximize));
    entries.push(predefined(PredefinedKind::Separator));
    entries.push(predefined(PredefinedKind::CloseWindow));
    let s = SubmenuModel { title: "Window".to_owned(), enabled: true, entries };
    proof {
        assert(s@ =~~= spec_window_submenu());
    }
    s
}

/// Build the whole application menu.
///
/// The result is the one fixed tree `spec_menu` describes, down to each
/// entry's identifier, label, accelerator and position.
pub fn create_menu() -> (m: MenuModel)
    ensures
        m@ == spec_menu(),
{
    let mut submenus: Vec<SubmenuModel> = Vec::new();
    submenus.push(app_submenu());
    submenus.push(file_submenu());
    submenus.push(edit_submenu());
    submenus.push(view_submenu());
    submenus.push(window_submenu());
    let m = MenuModel { submenus };
    proof {
        assert(m@ =~~= spec_menu());
    }
    m
}

/// Law: menu construction is deterministic. Any two menus that meet
/// `create_menu`'s contract are structurally identical: same submenus,
/// same entries, same identifiers, labels and accelerators, in the same
/// order.
pub proof fn lemma_menu_construction_deterministic(a: MenuModel, b: MenuModel)
    requires
        a@ == spec_menu(),
        b@ == spec_menu(),
    ensures
        a@ == b@,
{
}

} // verus!
