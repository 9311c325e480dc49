use menu_core::assemble::assemble;
use menu_core::assemble::custom_identifiers;
use menu_core::model::MenuEntry;
use menu_core::model::MenuItem;
use menu_core::model::NativeAction;
use menu_core::model::Platform;

fn item<'a>(entry: &'a MenuEntry) -> &'a MenuItem {
    match entry {
        MenuEntry::Custom(item) => item,
        other => panic!("expected a custom item, found {:?}", other),
    }
}

#[test]
fn assembly_is_deterministic_on_macos() {
    assert_eq!(assemble(Platform::MacOs), assemble(Platform::MacOs));
}

#[test]
fn assembly_is_deterministic_elsewhere() {
    assert_eq!(assemble(Platform::Other), assemble(Platform::Other));
}

#[test]
fn macos_bar_leads_with_app_identity_group() {
    let bar = assemble(Platform::MacOs);
    assert_eq!(bar.groups.len(), 6);
    let app = &bar.groups[0];
    assert_eq!(app.title, "yuzu.shot");
    assert!(app
        .entries
        .contains(&MenuEntry::Native(NativeAction::About)));
    assert!(app
        .entries
        .contains(&MenuEntry::Native(NativeAction::Quit)));
    let settings = item(&app.entries[2]);
    assert_eq!(settings.id, "settings");
    assert_eq!(settings.label, "Settings...");
    assert_eq!(settings.accelerator.as_deref(), Some("CmdOrCtrl+,"));
}

#[test]
fn other_platforms_lack_app_identity_group() {
    let bar = assemble(Platform::Other);
    assert_eq!(bar.groups.len(), 5);
    for group in &bar.groups {
        assert!(!group
            .entries
            .contains(&MenuEntry::Native(NativeAction::About)));
    }
    assert_eq!(bar.groups[0].title, "File");
}

#[test]
fn group_titles_and_order() {
    let bar = assemble(Platform::MacOs);
    let titles: Vec<&str> = bar.groups.iter().map(|g| g.title.as_str()).collect();
    assert_eq!(
        titles,
        vec!["yuzu.shot", "File", "Edit", "View", "Window", "Help"]
    );
}

#[test]
fn file_group_structure() {
    let bar = assemble(Platform::Other);
    let file = &bar.groups[0];
    assert_eq!(file.entries.len(), 8);
    assert_eq!(item(&file.entries[0]).id, "new-project");
    assert_eq!(item(&file.entries[0]).accelerator.as_deref(), Some("CmdOrCtrl+N"));
    assert_eq!(file.entries[1], MenuEntry::Separator);
    assert_eq!(item(&file.entries[2]).id, "import-screenshots");
    assert_eq!(item(&file.entries[2]).accelerator.as_deref(), Some("CmdOrCtrl+O"));
    assert_eq!(file.entries[3], MenuEntry::Separator);
    assert_eq!(item(&file.entries[4]).id, "export-current");
    assert_eq!(item(&file.entries[4]).accelerator.as_deref(), Some("CmdOrCtrl+E"));
    assert_eq!(item(&file.entries[5]).id, "export-all");
    assert_eq!(
        item(&file.entries[5]).accelerator.as_deref(),
        Some("CmdOrCtrl+Shift+E")
    );
    assert_eq!(file.entries[6], MenuEntry::Separator);
    assert_eq!(file.entries[7], MenuEntry::Native(NativeAction::CloseWindow));
}

#[test]
fn edit_group_is_all_standard_actions() {
    let bar = assemble(Platform::Other);
    let edit = &bar.groups[1];
    assert_eq!(edit.title, "Edit");
    assert_eq!(
        edit.entries,
        vec![
            MenuEntry::Native(NativeAction::Undo),
            MenuEntry::Native(NativeAction::Redo),
            MenuEntry::Separator,
            MenuEntry::Native(NativeAction::Cut),
            MenuEntry::Native(NativeAction::CopyText),
            MenuEntry::Native(NativeAction::Paste),
            MenuEntry::Separator,
            MenuEntry::Native(NativeAction::SelectAll),
        ]
    );
}

#[test]
fn view_and_window_groups_structure() {
    let bar = assemble(Platform::Other);
    assert_eq!(
        bar.groups[2].entries,
        vec![MenuEntry::Native(NativeAction::Fullscreen)]
    );
    assert_eq!(
        bar.groups[3].entries,
        vec![
            MenuEntry::Native(NativeAction::Minimize),
            MenuEntry::Native(NativeAction::Maximize),
            MenuEntry::Separator,
            MenuEntry::Native(NativeAction::CloseWindow),
        ]
    );
}

#[test]
fn help_group_structure() {
    let bar = assemble(Platform::Other);
    let help = &bar.groups[4];
    assert_eq!(help.title, "Help");
    assert_eq!(help.entries.len(), 4);
    assert_eq!(item(&help.entries[0]).id, "documentation");
    assert_eq!(item(&help.entries[0]).label, "Documentation");
    assert_eq!(item(&help.entries[1]).id, "report-issue");
    assert_eq!(item(&help.entries[1]).label, "Report Issue");
    assert_eq!(help.entries[2], MenuEntry::Separator);
    assert_eq!(item(&help.entries[3]).id, "visit-website");
    assert_eq!(item(&help.entries[3]).label, "Visit yuzuhub.com");
}

#[test]
fn macos_identifier_vocabulary() {
    let bar = assemble(Platform::MacOs);
    let ids = custom_identifiers(&bar);
    assert_eq!(
        ids,
        vec![
            "settings",
            "new-project",
            "import-screenshots",
            "export-current",
            "export-all",
            "documentation",
            "report-issue",
            "visit-website",
        ]
    );
}

#[test]
fn other_identifier_vocabulary() {
    let bar = assemble(Platform::Other);
    let ids = custom_identifiers(&bar);
    assert_eq!(
        ids,
        vec![
            "new-project",
            "import-screenshots",
            "export-current",
            "export-all",
            "documentation",
            "report-issue",
            "visit-website",
        ]
    );
}

#[test]
fn identifiers_are_unique() {
    for platform in [Platform::MacOs, Platform::Other] {
        let bar = assemble(platform);
        let ids = custom_identifiers(&bar);
        for (a, first) in ids.iter().enumerate() {
            for (b, second) in ids.iter().enumerate() {
                if a != b {
                    assert_ne!(first, second);
                }
            }
        }
    }
}
