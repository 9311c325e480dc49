use menu_core::route::route;
use menu_core::route::RouteAction;

#[test]
fn documentation_opens_fixed_url() {
    let action = route("documentation");
    assert_eq!(
        action,
        RouteAction::OpenUrl("https://github.com/YUZU-Hub/appscreen".to_string())
    );
    assert!(!matches!(action, RouteAction::Forward(_)));
}

#[test]
fn report_issue_opens_issue_tracker_url() {
    let action = route("report-issue");
    assert_eq!(
        action,
        RouteAction::OpenUrl("https://github.com/YUZU-Hub/appscreen/issues".to_string())
    );
    assert!(!matches!(action, RouteAction::Forward(_)));
}

#[test]
fn visit_website_opens_marketing_url() {
    let action = route("visit-website");
    assert_eq!(
        action,
        RouteAction::OpenUrl("https://yuzuhub.com/en".to_string())
    );
    assert!(!matches!(action, RouteAction::Forward(_)));
}

#[test]
fn settings_is_forwarded() {
    assert_eq!(route("settings"), RouteAction::Forward("settings".to_string()));
}

#[test]
fn known_file_actions_are_forwarded() {
    assert_eq!(
        route("new-project"),
        RouteAction::Forward("new-project".to_string())
    );
    assert_eq!(
        route("import-screenshots"),
        RouteAction::Forward("import-screenshots".to_string())
    );
    assert_eq!(
        route("export-current"),
        RouteAction::Forward("export-current".to_string())
    );
    assert_eq!(
        route("export-all"),
        RouteAction::Forward("export-all".to_string())
    );
}

#[test]
fn unknown_identifier_is_forwarded_unchanged() {
    let action = route("some-future-identifier");
    assert_eq!(
        action,
        RouteAction::Forward("some-future-identifier".to_string())
    );
    assert!(!matches!(action, RouteAction::OpenUrl(_)));
}

#[test]
fn empty_identifier_is_forwarded() {
    assert_eq!(route(""), RouteAction::Forward(String::new()));
}

#[test]
fn matching_is_case_sensitive() {
    assert_eq!(
        route("Documentation"),
        RouteAction::Forward("Documentation".to_string())
    );
    assert_eq!(
        route("REPORT-ISSUE"),
        RouteAction::Forward("REPORT-ISSUE".to_string())
    );
}

#[test]
fn near_miss_identifiers_are_forwarded() {
    assert_eq!(
        route("documentation "),
        RouteAction::Forward("documentation ".to_string())
    );
    assert_eq!(
        route("report-issues"),
        RouteAction::Forward("report-issues".to_string())
    );
}

#[test]
fn event_and_surface_names_are_fixed() {
    assert_eq!(menu_core::route::menu_event_name(), "menu-action");
    assert_eq!(menu_core::route::main_surface_name(), "main");
}
