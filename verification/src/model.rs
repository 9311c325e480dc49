//! Declarative data model for the application menu.
//!
//! The menu bar is described here as plain data: an ordered sequence of
//! groups, each an ordered sequence of entries.  An entry is either a
//! custom item (carrying the stable identifier that the router and the UI
//! layer share), a separator, or a standard action whose behaviour is owned
//! entirely by the host operating system and which carries no identifier.

use vstd::prelude::*;

verus! {

/// The host operating-system family the menu bar is assembled for.
/// Only the macOS family receives the application-identity group.
#[derive(Clone, Copy, Debug, PartialEq, Eq, Structural)]
pub enum Platform {
    MacOs,
    Other,
}

/// A standard menu action delegated verbatim to the host operating system.
/// These carry no identifier and never reach the router.
#[derive(Clone, Copy, Debug, PartialEq, Eq, Structural)]
pub enum NativeAction {
    About,
    Services,
    Hide,
    HideOthers,
    ShowAll,
    Quit,
    CloseWindow,
    Undo,
    Redo,
    Cut,
    CopyText,
    Paste,
    SelectAll,
    Fullscreen,
    Minimize,
    Maximize,
}

/// An actionable menu item with a stable identifier, a display label and an
/// optional accelerator.  The identifier is the only contract surface shared
/// with the router and the UI layer; label and accelerator are presentation.
#[derive(Clone, Debug, PartialEq, Eq)]
pub struct MenuItem {
    pub id: String,
    pub label: String,
    pub accelerator: Option<String>,
}

/// Mathematical model of a `MenuItem`.
#[verifier::ext_equal]
pub struct MenuItemView {
    pub id: Seq<char>,
    pub label: Seq<char>,
    pub accelerator: Option<Seq<char>>,
}

impl View for MenuItem {
    type V = MenuItemView;

    open spec fn view(&self) -> MenuItemView {
        MenuItemView {
            id: self.id@,
            label: self.label@,
            accelerator: match self.accelerator {
                Option::Some(a) => Option::Some(a@),
                Option::None => Option::None,
            },
        }
    }
}

/// One position in a menu group.
#[derive(Clone, Debug, PartialEq, Eq)]
pub enum MenuEntry {
    Custom(MenuItem),
    Separator,
    Native(NativeAction),
}

/// Mathematical model of a `MenuEntry`.
#[verifier::ext_equal]
pub enum MenuEntryView {
    Custom(MenuItemView),
    Separator,
    Native(NativeAction),
}

impl View for MenuEntry {
    type V = MenuEntryView;

    open spec fn view(&self) -> MenuEntryView {
        match self {
            MenuEntry::Custom(item) => MenuEntryView::Custom(item@),
            MenuEntry::Separator => MenuEntryView::Separator,
            MenuEntry::Native(action) => MenuEntryView::Native(*action),
        }
    }
}

/// A titled, ordered group of menu entries (one submenu of the menu bar).
#[derive(Clone, Debug, PartialEq, Eq)]
pub struct MenuGroup {
    pub title: String,
    pub entries: Vec<MenuEntry>,
}

/// Mathematical model of a `MenuGroup`.
#[verifier::ext_equal]
pub struct MenuGroupView {
    pub title: Seq<char>,
    pub entries: Seq<MenuEntryView>,
}

impl View for MenuGroup {
    type V = MenuGroupView;

    open spec fn view(&self) -> MenuGroupView {
        MenuGroupView {
            title: self.title@,
            entries: self.entries@.map_values(|e: MenuEntry| e@),
        }
    }
}

/// The full menu bar: an ordered sequence of groups.
#[derive(Clone, Debug, PartialEq, Eq)]
pub struct MenuBar {
    pub groups: Vec<MenuGroup>,
}

/// Mathematical model of a `MenuBar`.
#[verifier::ext_equal]
pub struct MenuBarView {
    pub groups: Seq<MenuGroupView>,
}

impl View for MenuBar {
    type V = MenuBarView;

    open spec fn view(&self) -> MenuBarView {
        MenuBarView { groups: self.groups@.map_values(|g: MenuGroup| g@) }
    }
}

} // verus!
