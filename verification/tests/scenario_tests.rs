use menu_core::assemble::assemble;
use menu_core::assemble::custom_identifiers;
use menu_core::model::Platform;
use menu_core::route::route;
use menu_core::route::RouteAction;

#[test]
fn settings_activation_forwards_to_main_surface() {
    // Assemble on the macOS family, activate the settings item, and check
    // that the router forwards a menu-action event with the identifier as
    // payload instead of opening a browser.
    let bar = assemble(Platform::MacOs);
    let ids = custom_identifiers(&bar);
    assert!(ids.iter().any(|id| id == "settings"));

    let action = route("settings");
    assert_eq!(action, RouteAction::Forward("settings".to_string()));
    assert!(!matches!(action, RouteAction::OpenUrl(_)));
    assert_eq!(menu_core::route::menu_event_name(), "menu-action");
    assert_eq!(menu_core::route::main_surface_name(), "main");
}

#[test]
fn report_issue_activation_opens_browser_once() {
    // Activate report-issue: the single returned action is the browser
    // opening the literal issue-tracker URL; nothing is forwarded.
    let bar = assemble(Platform::MacOs);
    let ids = custom_identifiers(&bar);
    assert!(ids.iter().any(|id| id == "report-issue"));

    let action = route("report-issue");
    assert_eq!(
        action,
        RouteAction::OpenUrl("https://github.com/YUZU-Hub/appscreen/issues".to_string())
    );
    assert!(!matches!(action, RouteAction::Forward(_)));
}

#[test]
fn builtin_actions_never_become_router_input() {
    // Separators and standard actions carry no identifier in the model, so
    // the router can only ever be invoked for the custom vocabulary; none
    // of the standard action names is part of it.
    for platform in [Platform::MacOs, Platform::Other] {
        let bar = assemble(platform);
        let ids = custom_identifiers(&bar);
        for builtin in [
            "undo", "redo", "cut", "copy", "paste", "select-all", "quit", "minimize", "maximize",
            "close-window", "fullscreen", "about", "services", "hide", "hide-others", "show-all",
            "separator",
        ] {
            assert!(!ids.iter().any(|id| id == builtin));
        }
    }
}

#[test]
fn every_activation_yields_exactly_one_action() {
    // Exactly one of {open URL, forward} per activation: the router returns
    // a single action value, and each identifier lands in exactly one arm.
    let bar = assemble(Platform::MacOs);
    for id in custom_identifiers(&bar) {
        let action = route(&id);
        let opens = matches!(action, RouteAction::OpenUrl(_));
        let forwards = matches!(action, RouteAction::Forward(_));
        assert!(opens != forwards);
        let expect_open =
            id == "documentation" || id == "report-issue" || id == "visit-website";
        assert_eq!(opens, expect_open);
    }
}
