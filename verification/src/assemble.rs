//! The menu assembler.
//!
//! `assemble` produces the full menu bar for a given host platform as one
//! declarative value, deterministically, from the fixed specification below:
//! the application-identity group (macOS family only), then File, Edit,
//! View, Window and Help.  The shell installs the result once at startup;
//! nothing here performs any side effect.

use crate::model::MenuBar;
use crate::model::MenuBarView;
use crate::model::MenuEntry;
use crate::model::MenuEntryView;
use crate::model::MenuGroup;
use crate::model::MenuGroupView;
use crate::model::MenuItem;
use crate::model::MenuItemView;
use crate::model::NativeAction;
use crate::model::Platform;
use vstd::prelude::*;
use vstd::string::StringExecFns;

verus! {

/// The `settings` item of the application-identity group.
pub open spec fn spec_settings_item() -> MenuItemView {
    MenuItemView { id: "settings"@, label: "Settings..."@, accelerator: Some("CmdOrCtrl+,"@) }
}

/// The application-identity group, present on the macOS family only.
pub open spec fn spec_app_identity_group() -> MenuGroupView {
    MenuGroupView {
        title: "yuzu.shot"@,
        entries: seq![
            MenuEntryView::Native(NativeAction::About),
            MenuEntryView::Separator,
            MenuEntryView::Custom(spec_settings_item()),
            MenuEntryView::Separator,
            MenuEntryView::Native(NativeAction::Services),
            MenuEntryView::Separator,
            MenuEntryView::Native(NativeAction::Hide),
            MenuEntryView::Native(NativeAction::HideOthers),
            MenuEntryView::Native(NativeAction::ShowAll),
            MenuEntryView::Separator,
            MenuEntryView::Native(NativeAction::Quit),
        ],
    }
}

/// The File group.
pub open spec fn spec_file_group() -> MenuGroupView {
    MenuGroupView {
        title: "File"@,
        entries: seq![
            MenuEntryView::Custom(
                MenuItemView {
                    id: "new-project"@,
                    label: "New Project"@,
                    accelerator: Some("CmdOrCtrl+N"@),
                },
            ),
            MenuEntryView::Separator,
            MenuEntryView::Custom(
                MenuItemView {
                    id: "import-screenshots"@,
                    label: "Import Screenshots..."@,
                    accelerator: Some("CmdOrCtrl+O"@),
                },
            ),
            MenuEntryView::Separator,
            MenuEntryView::Custom(
                MenuItemView {
                    id: "export-current"@,
                    label: "Export Current"@,
                    accelerator: Some("CmdOrCtrl+E"@),
                },
            ),
            MenuEntryView::Custom(
                MenuItemView {
                    id: "export-all"@,
                    label: "Export All"@,
                    accelerator: Some("CmdOrCtrl+Shift+E"@),
                },
            ),
            MenuEntryView::Separator,
            MenuEntryView::Native(NativeAction::CloseWindow),
        ],
    }
}

/// The Edit group: standard text-editing actions only, no custom items.
pub open spec fn spec_edit_group() -> MenuGroupView {
    MenuGroupView {
        title: "Edit"@,
        entries: seq![
            MenuEntryView::Native(NativeAction::Undo),
            MenuEntryView::Native(NativeAction::Redo),
            MenuEntryView::Separator,
            MenuEntryView::Native(NativeAction::Cut),
            MenuEntryView::Native(NativeAction::CopyText),
            MenuEntryView::Native(NativeAction::Paste),
            MenuEntryView::Separator,
            MenuEntryView::Native(NativeAction::SelectAll),
        ],
    }
}

/// The View group: the standard fullscreen toggle.
pub open spec fn spec_view_group() -> MenuGroupView {
    MenuGroupView {
        title: "View"@,
        entries: seq![MenuEntryView::Native(NativeAction::Fullscreen)],
    }
}

/// The Window group: standard window-management actions.
pub open spec fn spec_window_group() -> MenuGroupView {
    MenuGroupView {
        title: "Window"@,
        entries: seq![
            MenuEntryView::Native(NativeAction::Minimize),
            MenuEntryView::Native(NativeAction::Maximize),
            MenuEntryView::Separator,
            MenuEntryView::Native(NativeAction::CloseWindow),
        ],
    }
}

/// The Help group: the three identifiers the router intercepts.
pub open spec fn spec_help_group() -> MenuGroupView {
    MenuGroupView {
        title: "Help"@,
        entries: seq![
            MenuEntryView::Custom(
                MenuItemView { id: "documentation"@, label: "Documentation"@, accelerator: None },
            ),
            MenuEntryView::Custom(
                MenuItemView { id: "report-issue"@, label: "Report Issue"@, accelerator: None },
            ),
            MenuEntryView::Separator,
            MenuEntryView::Custom(
                MenuItemView {
                    id: "visit-website"@,
                    label: "Visit yuzuhub.com"@,
                    accelerator: None,
                },
            ),
        ],
    }
}

/// The full menu bar for a platform: the application-identity group first
/// on the macOS family, then the five platform-uniform groups in order.
pub open spec fn spec_menu_bar(platform: Platform) -> MenuBarView {
    MenuBarView {
        groups: if platform is MacOs {
            seq![
                spec_app_identity_group(),
                spec_file_group(),
                spec_edit_group(),
                spec_view_group(),
                spec_window_group(),
                spec_help_group(),
            ]
        } else {
            seq![
                spec_file_group(),
                spec_edit_group(),
                spec_view_group(),
                spec_window_group(),
                spec_help_group(),
            ]
        },
    }
}

fn custom_item(id: &str, label: &str) -> (item: MenuItem)
    ensures
        item@ == (MenuItemView { id: id@, label: label@, accelerator: None }),
{
    MenuItem { id: String::from_str(id), label: String::from_str(label), accelerator: None }
}

fn accelerated_item(id: &str, label: &str, accelerator: &str) -> (item: MenuItem)
    ensures
        item@ == (MenuItemView { id: id@, label: label@, accelerator: Some(accelerator@) }),
{
    MenuItem {
        id: String::from_str(id),
        label: String::from_str(label),
        accelerator: Some(String::from_str(accelerator)),
    }
}

fn app_identity_group() -> (group: MenuGroup)
    ensures
        group@ == spec_app_identity_group(),
{
    let mut entries: Vec<MenuEntry> = Vec::new();
    entries.push(MenuEntry::Native(NativeAction::About));
    entries.push(MenuEntry::Separator);
    entries.push(MenuEntry::Custom(accelerated_item("settings", "Settings...", "CmdOrCtrl+,")));
    entries.push(MenuEntry::Separator);
    entries.push(MenuEntry::Native(NativeAction::Services));
    entries.push(MenuEntry::Separator);
    entries.push(MenuEntry::Native(NativeAction::Hide));
    entries.push(MenuEntry::Native(NativeAction::HideOthers));
    entries.push(MenuEntry::Native(NativeAction::ShowAll));
    entries.push(MenuEntry::Separator);
    entries.push(MenuEntry::Native(NativeAction::Quit));
    let group = MenuGroup { title: String::from_str("yuzu.shot"), entries };
    proof {
        assert(group@.entries =~~= spec_app_identity_group().entries);
        assert(group@ =~~= spec_app_identity_group());
    }
    group
}

fn file_group() -> (group: MenuGroup)
    ensures
        group@ == spec_file_group(),
{
    let mut entries: Vec<MenuEntry> = Vec::new();
    entries.push(MenuEntry::Custom(accelerated_item("new-project", "New Project", "CmdOrCtrl+N")));
    entries.push(MenuEntry::Separator);
    entries.push(
        MenuEntry::Custom(
            accelerated_item("import-screenshots", "Import Screenshots...", "CmdOrCtrl+O"),
        ),
    );
    entries.push(MenuEntry::Separator);
    entries.push(MenuEntry::Custom(accelerated_item("export-current", "Export Current", "CmdOrCtrl+E")));
    entries.push(
        MenuEntry::Custom(accelerated_item("export-all", "Export All", "CmdOrCtrl+Shift+E")),
    );
    entries.push(MenuEntry::Separator);
    entries.push(MenuEntry::Native(NativeAction::CloseWindow));
    let group = MenuGroup { title: String::from_str("File"), entries };
    proof {
        assert(group@.entries =~~= spec_file_group().entries);
        assert(group@ =~~= spec_file_group());
    }
    group
}

fn edit_group() -> (group: MenuGroup)
    ensures
        group@ == spec_edit_group(),
{
    let mut entries: Vec<MenuEntry> = Vec::new();
    entries.push(MenuEntry::Native(NativeAction::Undo));
    entries.push(MenuEntry::Native(NativeAction::Redo));
    entries.push(MenuEntry::Separator);
    entries.push(MenuEntry::Native(NativeAction::Cut));
    entries.push(MenuEntry::Native(NativeAction::CopyText));
    entries.push(MenuEntry::Native(NativeAction::Paste));
    entries.push(MenuEntry::Separator);
    entries.push(MenuEntry::Native(NativeAction::SelectAll));
    let group = MenuGroup { title: String::from_str("Edit"), entries };
    proof {
        assert(group@.entries =~~= spec_edit_group().entries);
        assert(group@ =~~= spec_edit_group());
    }
    group
}

fn view_group() -> (group: MenuGroup)
    ensures
        group@ == spec_view_group(),
{
    let mut entries: Vec<MenuEntry> = Vec::new();
    entries.push(MenuEntry::Native(NativeAction::Fullscreen));
    let group = MenuGroup { title: String::from_str("View"), entries };
    proof {
        assert(group@.entries =~~= spec_view_group().entries);
        assert(group@ =~~= spec_view_group());
    }
    group
}

fn window_group() -> (group: MenuGroup)
    ensures
        group@ == spec_window_group(),
{
    let mut entries: Vec<MenuEntry> = Vec::new();
    entries.push(MenuEntry::Native(NativeAction::Minimize));
    entries.push(MenuEntry::Native(NativeAction::Maximize));
    entries.push(MenuEntry::Separator);
    entries.push(MenuEntry::Native(NativeAction::CloseWindow));
    let group = MenuGroup { title: String::from_str("Window"), entries };
    proof {
        assert(group@.entries =~~= spec_window_group().entries);
        assert(group@ =~~= spec_window_group());
    }
    group
}

fn help_group() -> (group: MenuGroup)
    ensures
        group@ == spec_help_group(),
{
    let mut entries: Vec<MenuEntry> = Vec::new();
    entries.push(MenuEntry::Custom(custom_item("documentation", "Documentation")));
    entries.push(MenuEntry::Custom(custom_item("report-issue", "Report Issue")));
    entries.push(MenuEntry::Separator);
    entries.push(MenuEntry::Custom(custom_item("visit-website", "Visit yuzuhub.com")));
    let group = MenuGroup { title: String::from_str("Help"), entries };
    proof {
        assert(group@.entries =~~= spec_help_group().entries);
        assert(group@ =~~= spec_help_group());
    }
    group
}

/// The identifiers of the custom items among `entries`, in order.
/// Separators and standard actions carry no identifier and contribute
/// nothing.
pub open spec fn spec_entry_ids(entries: Seq<MenuEntryView>) -> Seq<Seq<char>>
    decreases entries.len(),
{
    if entries.len() == 0 {
        Seq::empty()
    } else {
        spec_entry_ids(entries.drop_last()) + (match entries.last() {
            MenuEntryView::Custom(item) => seq![item.id],
            _ => Seq::empty(),
        })
    }
}

/// The identifiers of all custom items of `groups`, in display order.
pub open spec fn spec_bar_ids(groups: Seq<MenuGroupView>) -> Seq<Seq<char>>
    decreases groups.len(),
{
    if groups.len() == 0 {
        Seq::empty()
    } else {
        spec_bar_ids(groups.drop_last()) + spec_entry_ids(groups.last().entries)
    }
}

pub(crate) proof fn lemma_entry_ids_step(entries: Seq<MenuEntryView>, i: int)
    requires
        0 <= i < entries.len(),
    ensures
        spec_entry_ids(entries.take(i + 1)) == spec_entry_ids(entries.take(i)) + (match entries[i] {
            MenuEntryView::Custom(item) => seq![item.id],
            _ => Seq::<Seq<char>>::empty(),
        }),
{
    assert(entries.take(i + 1).drop_last() =~= entries.take(i));
    assert(entries.take(i + 1).last() == entries[i]);
}

pub(crate) proof fn lemma_bar_ids_step(groups: Seq<MenuGroupView>, g: int)
    requires
        0 <= g < groups.len(),
    ensures
        spec_bar_ids(groups.take(g + 1)) == spec_bar_ids(groups.take(g)) + spec_entry_ids(
            groups[g].entries,
        ),
{
    assert(groups.take(g + 1).drop_last() =~= groups.take(g));
    assert(groups.take(g + 1).last() == groups[g]);
}

/// Collect the identifiers of every custom item of `bar`, in display
/// order.  This is the identifier vocabulary the UI layer and the router
/// share; separators and standard actions contribute nothing to it.
pub fn custom_identifiers(bar: &MenuBar) -> (ids: Vec<String>)
    ensures
        ids@.map_values(|s: String| s@) == spec_bar_ids(bar@.groups),
{
    let mut ids: Vec<String> = Vec::new();
    let mut g: usize = 0;
    while g < bar.groups.len()
        invariant
            g <= bar.groups.len(),
            ids@.map_values(|s: String| s@) == spec_bar_ids(bar@.groups.take(g as int)),
        decreases bar.groups.len() - g,
    {
        let mut i: usize = 0;
        proof {
            assert((spec_bar_ids(bar@.groups.take(g as int)) + Seq::<Seq<char>>::empty()) =~= (
            spec_bar_ids(bar@.groups.take(g as int))));
            assert(bar@.groups[g as int].entries.take(0) =~= Seq::<MenuEntryView>::empty());
        }
        while i < bar.groups[g].entries.len()
            invariant
                g < bar.groups.len(),
                i <= bar.groups@[g as int].entries.len(),
                ids@.map_values(|s: String| s@) == spec_bar_ids(bar@.groups.take(g as int))
                    + spec_entry_ids(bar@.groups[g as int].entries.take(i as int)),
            decreases bar.groups@[g as int].entries.len() - i,
        {
            let ghost prev = ids@.map_values(|s: String| s@);
            match &bar.groups[g].entries[i] {
                MenuEntry::Custom(item) => {
                    ids.push(item.id.clone());
                    proof {
                        assert(ids@.map_values(|s: String| s@) =~= prev.push(item.id@));
                    }
                },
                _ => {},
            }
            proof {
                lemma_entry_ids_step(bar@.groups[g as int].entries, i as int);
                assert((prev + Seq::<Seq<char>>::empty()) =~= prev);
            }
            i = i + 1;
        }
        proof {
            assert(bar@.groups[g as int].entries.take(
                bar.groups@[g as int].entries@.len() as int,
            ) =~= bar@.groups[g as int].entries);
            lemma_bar_ids_step(bar@.groups, g as int);
        }
        g = g + 1;
    }
    proof {
        assert(bar@.groups.take(bar.groups@.len() as int) =~= bar@.groups);
    }
    ids
}

/// Assemble the full menu bar for `platform`.  The result is a pure
/// function of the platform tag: the application-identity group leads on
/// the macOS family, followed by the File, Edit, View, Window and Help
/// groups everywhere.
pub fn assemble(platform: Platform) -> (bar: MenuBar)
    ensures
        bar@ == spec_menu_bar(platform),
{
    let mut groups: Vec<MenuGroup> = Vec::new();
    match platform {
        Platform::MacOs => groups.push(app_identity_group()),
        Platform::Other => (),
    }
    groups.push(file_group());
    groups.push(edit_group());
    groups.push(view_group());
    groups.push(window_group());
    groups.push(help_group());
    let bar = MenuBar { groups };
    proof {
        assert(bar@ =~~= spec_menu_bar(platform));
    }
    bar
}

} // verus!
