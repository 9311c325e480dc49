//! Library-wide laws, stated and proved once over the models that the
//! function contracts use.

use crate::assemble::lemma_bar_ids_step;
use crate::assemble::lemma_entry_ids_step;
use crate::assemble::spec_app_identity_group;
use crate::assemble::spec_bar_ids;
use crate::assemble::spec_edit_group;
use crate::assemble::spec_entry_ids;
use crate::assemble::spec_file_group;
use crate::assemble::spec_help_group;
use crate::assemble::spec_menu_bar;
use crate::assemble::spec_view_group;
use crate::assemble::spec_window_group;
use crate::model::MenuBar;
use crate::model::MenuBarView;
use crate::model::MenuEntryView;
use crate::model::MenuGroupView;
use crate::model::NativeAction;
use crate::model::Platform;
use crate::route::spec_documentation_url;
use crate::route::spec_is_intercepted;
use crate::route::spec_issue_tracker_url;
use crate::route::spec_route;
use crate::route::spec_website_url;
use crate::route::RouteActionView;
use vstd::prelude::*;

verus! {

broadcast use vstd::string::group_string_axioms;

/// Routing an intercepted identifier opens exactly the corresponding fixed
/// URL in the browser and never forwards an event to the UI.
pub proof fn lemma_intercepted_opens_fixed_url(id: Seq<char>)
    requires
        spec_is_intercepted(id),
    ensures
        spec_route(id) is OpenUrl,
        !(spec_route(id) is Forward),
        id == "documentation"@ ==> spec_route(id) == RouteActionView::OpenUrl(
            spec_documentation_url(),
        ),
        id == "report-issue"@ ==> spec_route(id) == RouteActionView::OpenUrl(
            spec_issue_tracker_url(),
        ),
        id == "visit-website"@ ==> spec_route(id) == RouteActionView::OpenUrl(
            spec_website_url(),
        ),
{
    reveal_strlit("documentation");
    reveal_strlit("report-issue");
    reveal_strlit("visit-website");
    assert("documentation"@.len() == 13);
    assert("report-issue"@.len() == 12);
    assert("documentation"@[0] == 'd');
    assert("visit-website"@[0] == 'v');
    assert("documentation"@ != "report-issue"@);
    assert("documentation"@ != "visit-website"@);
    assert("report-issue"@ != "visit-website"@);
}

/// Routing any identifier outside the fixed set — known or unknown —
/// forwards exactly one event whose payload is the identifier itself, and
/// never opens the browser.
pub proof fn lemma_unrecognized_forwards_payload(id: Seq<char>)
    requires
        !spec_is_intercepted(id),
    ensures
        spec_route(id) == RouteActionView::Forward(id),
        !(spec_route(id) is OpenUrl),
{
}

/// Every activation yields exactly one action: a browser opening for the
/// intercepted identifiers, a forwarded event for all others — never both,
/// never neither.
pub proof fn lemma_exactly_one_action(id: Seq<char>)
    ensures
        spec_route(id) is OpenUrl <==> spec_is_intercepted(id),
        spec_route(id) is Forward <==> !spec_is_intercepted(id),
{
}

/// Menu assembly is deterministic: two menu bars assembled for the same
/// platform model identically — same group order, item order, identifiers,
/// labels and accelerators.
pub proof fn lemma_assembly_deterministic(first: MenuBar, second: MenuBar, platform: Platform)
    requires
        first@ == spec_menu_bar(platform),
        second@ == spec_menu_bar(platform),
    ensures
        first@ == second@,
{
}

/// Whether a group is the application-identity group, recognised by the
/// standard About action that only this group carries.
pub open spec fn is_app_identity_group(group: MenuGroupView) -> bool {
    group.entries.contains(MenuEntryView::Native(NativeAction::About))
}

/// Whether some group of a menu bar is the application-identity group.
pub open spec fn has_app_identity_group(bar: MenuBarView) -> bool {
    exists|g: int| 0 <= g < bar.groups.len() && is_app_identity_group(#[trigger] bar.groups[g])
}

/// The application-identity group is present in the assembled menu bar if
/// and only if the target platform is the macOS family.
pub proof fn lemma_app_identity_group_iff_macos(platform: Platform)
    ensures
        has_app_identity_group(spec_menu_bar(platform)) <==> platform is MacOs,
{
    let bar = spec_menu_bar(platform);
    if platform is MacOs {
        assert(bar.groups[0] == spec_app_identity_group());
        assert(spec_app_identity_group().entries[0] == MenuEntryView::Native(NativeAction::About));
        assert(is_app_identity_group(bar.groups[0]));
    } else {
        assert forall|g: int| 0 <= g < bar.groups.len() implies !is_app_identity_group(
            #[trigger] bar.groups[g],
        ) by {
            lemma_uniform_group_without_about(bar.groups[g]);
        }
        assert(!has_app_identity_group(bar));
    }
}

/// Whether position `(g, i)` of `bar` holds a custom-identifier item.
pub open spec fn custom_at(bar: MenuBarView, g: int, i: int) -> bool {
    &&& 0 <= g < bar.groups.len()
    &&& 0 <= i < bar.groups[g].entries.len()
    &&& bar.groups[g].entries[i] is Custom
}

/// The identifier carried by the custom item at position `(g, i)` of `bar`.
pub open spec fn id_at(bar: MenuBarView, g: int, i: int) -> Seq<char>
    recommends
        custom_at(bar, g, i),
{
    bar.groups[g].entries[i]->Custom_0.id
}

/// No two custom items of `bar` share an identifier.
pub open spec fn unique_custom_ids(bar: MenuBarView) -> bool {
    forall|g1: int, i1: int, g2: int, i2: int|
        #[trigger] custom_at(bar, g1, i1) && #[trigger] custom_at(bar, g2, i2) && id_at(
            bar,
            g1,
            i1,
        ) == id_at(bar, g2, i2) ==> g1 == g2 && i1 == i2
}

/// The eight custom identifiers are pairwise distinct character sequences.
pub proof fn lemma_distinct_identifiers()
    ensures
        "settings"@ != "new-project"@,
        "settings"@ != "import-screenshots"@,
        "settings"@ != "export-current"@,
        "settings"@ != "export-all"@,
        "settings"@ != "documentation"@,
        "settings"@ != "report-issue"@,
        "settings"@ != "visit-website"@,
        "new-project"@ != "import-screenshots"@,
        "new-project"@ != "export-current"@,
        "new-project"@ != "export-all"@,
        "new-project"@ != "documentation"@,
        "new-project"@ != "report-issue"@,
        "new-project"@ != "visit-website"@,
        "import-screenshots"@ != "export-current"@,
        "import-screenshots"@ != "export-all"@,
        "import-screenshots"@ != "documentation"@,
        "import-screenshots"@ != "report-issue"@,
        "import-screenshots"@ != "visit-website"@,
        "export-current"@ != "export-all"@,
        "export-current"@ != "documentation"@,
        "export-current"@ != "report-issue"@,
        "export-current"@ != "visit-website"@,
        "export-all"@ != "documentation"@,
        "export-all"@ != "report-issue"@,
        "export-all"@ != "visit-website"@,
        "documentation"@ != "report-issue"@,
        "documentation"@ != "visit-website"@,
        "report-issue"@ != "visit-website"@,
{
    reveal_strlit("settings");
    reveal_strlit("new-project");
    reveal_strlit("import-screenshots");
    reveal_strlit("export-current");
    reveal_strlit("export-all");
    reveal_strlit("documentation");
    reveal_strlit("report-issue");
    reveal_strlit("visit-website");
    assert("settings"@.len() == 8);
    assert("new-project"@.len() == 11);
    assert("import-screenshots"@.len() == 18);
    assert("export-current"@.len() == 14);
    assert("export-all"@.len() == 10);
    assert("documentation"@.len() == 13);
    assert("report-issue"@.len() == 12);
    assert("visit-website"@.len() == 13);
    assert("documentation"@[0] == 'd');
    assert("visit-website"@[0] == 'v');
}

/// The single position each identifier occupies in the bar assembled for
/// `platform`; `(-1, -1)` for identifiers the bar does not carry.
pub open spec fn spec_custom_position(platform: Platform, id: Seq<char>) -> (int, int) {
    let base: int = if platform is MacOs {
        1
    } else {
        0
    };
    if id == "settings"@ {
        (0, 2)
    } else if id == "new-project"@ {
        (base, 0)
    } else if id == "import-screenshots"@ {
        (base, 2)
    } else if id == "export-current"@ {
        (base, 4)
    } else if id == "export-all"@ {
        (base, 5)
    } else if id == "documentation"@ {
        (base + 4, 0)
    } else if id == "report-issue"@ {
        (base + 4, 1)
    } else if id == "visit-website"@ {
        (base + 4, 3)
    } else {
        (-1, -1)
    }
}

/// The only custom item of the application-identity group sits at index 2
/// and carries the `settings` identifier.
proof fn lemma_app_group_custom(i: int)
    requires
        0 <= i < spec_app_identity_group().entries.len(),
        spec_app_identity_group().entries[i] is Custom,
    ensures
        i == 2,
        spec_app_identity_group().entries[i]->Custom_0.id == "settings"@,
{
}

/// The custom items of the File group sit at indices 0, 2, 4 and 5, with
/// the identifiers of the four project actions.
proof fn lemma_file_group_custom(i: int)
    requires
        0 <= i < spec_file_group().entries.len(),
        spec_file_group().entries[i] is Custom,
    ensures
        i == 0 || i == 2 || i == 4 || i == 5,
        i == 0 ==> spec_file_group().entries[i]->Custom_0.id == "new-project"@,
        i == 2 ==> spec_file_group().entries[i]->Custom_0.id == "import-screenshots"@,
        i == 4 ==> spec_file_group().entries[i]->Custom_0.id == "export-current"@,
        i == 5 ==> spec_file_group().entries[i]->Custom_0.id == "export-all"@,
{
}

/// The Edit, View and Window groups carry no custom item at all.
proof fn lemma_native_groups_no_custom(group: MenuGroupView, i: int)
    requires
        group == spec_edit_group() || group == spec_view_group() || group == spec_window_group(),
        0 <= i < group.entries.len(),
    ensures
        !(group.entries[i] is Custom),
{
}

/// The custom items of the Help group sit at indices 0, 1 and 3, with the
/// three intercepted identifiers.
proof fn lemma_help_group_custom(i: int)
    requires
        0 <= i < spec_help_group().entries.len(),
        spec_help_group().entries[i] is Custom,
    ensures
        i == 0 || i == 1 || i == 3,
        i == 0 ==> spec_help_group().entries[i]->Custom_0.id == "documentation"@,
        i == 1 ==> spec_help_group().entries[i]->Custom_0.id == "report-issue"@,
        i == 3 ==> spec_help_group().entries[i]->Custom_0.id == "visit-website"@,
{
}

/// Each custom item of the assembled bar sits exactly at the canonical
/// position of its identifier.
proof fn lemma_custom_position(platform: Platform, g: int, i: int)
    requires
        custom_at(spec_menu_bar(platform), g, i),
    ensures
        spec_custom_position(platform, id_at(spec_menu_bar(platform), g, i)) == (g, i),
{
    lemma_distinct_identifiers();
    let bar = spec_menu_bar(platform);
    let base: int = if platform is MacOs {
        1
    } else {
        0
    };
    if platform is MacOs && g == 0 {
        assert(bar.groups[g] == spec_app_identity_group());
        lemma_app_group_custom(i);
    } else if g == base {
        assert(bar.groups[g] == spec_file_group());
        lemma_file_group_custom(i);
    } else if g == base + 1 {
        assert(bar.groups[g] == spec_edit_group());
        lemma_native_groups_no_custom(bar.groups[g], i);
    } else if g == base + 2 {
        assert(bar.groups[g] == spec_view_group());
        lemma_native_groups_no_custom(bar.groups[g], i);
    } else if g == base + 3 {
        assert(bar.groups[g] == spec_window_group());
        lemma_native_groups_no_custom(bar.groups[g], i);
    } else {
        assert(g == base + 4);
        assert(bar.groups[g] == spec_help_group());
        lemma_help_group_custom(i);
    }
}

/// No two custom items of the assembled menu bar share an identifier, on
/// either platform.
pub proof fn lemma_unique_identifiers(platform: Platform)
    ensures
        unique_custom_ids(spec_menu_bar(platform)),
{
    let bar = spec_menu_bar(platform);
    assert forall|g1: int, i1: int, g2: int, i2: int|
        #[trigger] custom_at(bar, g1, i1) && #[trigger] custom_at(bar, g2, i2) && id_at(
            bar,
            g1,
            i1,
        ) == id_at(bar, g2, i2) implies g1 == g2 && i1 == i2 by {
        lemma_custom_position(platform, g1, i1);
        lemma_custom_position(platform, g2, i2);
    }
}

proof fn lemma_app_group_vocabulary()
    ensures
        spec_entry_ids(spec_app_identity_group().entries) == seq!["settings"@],
{
    let entries = spec_app_identity_group().entries;
    assert(entries.take(0) =~= Seq::<MenuEntryView>::empty());
    lemma_entry_ids_step(entries, 0);
    lemma_entry_ids_step(entries, 1);
    lemma_entry_ids_step(entries, 2);
    lemma_entry_ids_step(entries, 3);
    lemma_entry_ids_step(entries, 4);
    lemma_entry_ids_step(entries, 5);
    lemma_entry_ids_step(entries, 6);
    lemma_entry_ids_step(entries, 7);
    lemma_entry_ids_step(entries, 8);
    lemma_entry_ids_step(entries, 9);
    lemma_entry_ids_step(entries, 10);
    assert(entries.take(11) =~= entries);
    assert(spec_entry_ids(entries) =~= seq!["settings"@]);
}

proof fn lemma_file_group_vocabulary()
    ensures
        spec_entry_ids(spec_file_group().entries) == seq![
            "new-project"@,
            "import-screenshots"@,
            "export-current"@,
            "export-all"@,
        ],
{
    let entries = spec_file_group().entries;
    assert(entries.take(0) =~= Seq::<MenuEntryView>::empty());
    lemma_entry_ids_step(entries, 0);
    lemma_entry_ids_step(entries, 1);
    lemma_entry_ids_step(entries, 2);
    lemma_entry_ids_step(entries, 3);
    lemma_entry_ids_step(entries, 4);
    lemma_entry_ids_step(entries, 5);
    lemma_entry_ids_step(entries, 6);
    lemma_entry_ids_step(entries, 7);
    assert(entries.take(8) =~= entries);
    assert(spec_entry_ids(entries) =~= seq![
        "new-project"@,
        "import-screenshots"@,
        "export-current"@,
        "export-all"@,
    ]);
}

proof fn lemma_native_groups_vocabulary()
    ensures
        spec_entry_ids(spec_edit_group().entries) == Seq::<Seq<char>>::empty(),
        spec_entry_ids(spec_view_group().entries) == Seq::<Seq<char>>::empty(),
        spec_entry_ids(spec_window_group().entries) == Seq::<Seq<char>>::empty(),
{
    let edit = spec_edit_group().entries;
    assert(edit.take(0) =~= Seq::<MenuEntryView>::empty());
    lemma_entry_ids_step(edit, 0);
    lemma_entry_ids_step(edit, 1);
    lemma_entry_ids_step(edit, 2);
    lemma_entry_ids_step(edit, 3);
    lemma_entry_ids_step(edit, 4);
    lemma_entry_ids_step(edit, 5);
    lemma_entry_ids_step(edit, 6);
    lemma_entry_ids_step(edit, 7);
    assert(edit.take(8) =~= edit);
    assert(spec_entry_ids(edit) =~= Seq::<Seq<char>>::empty());
    let view = spec_view_group().entries;
    assert(view.take(0) =~= Seq::<MenuEntryView>::empty());
    lemma_entry_ids_step(view, 0);
    assert(view.take(1) =~= view);
    assert(spec_entry_ids(view) =~= Seq::<Seq<char>>::empty());
    let window = spec_window_group().entries;
    assert(window.take(0) =~= Seq::<MenuEntryView>::empty());
    lemma_entry_ids_step(window, 0);
    lemma_entry_ids_step(window, 1);
    lemma_entry_ids_step(window, 2);
    lemma_entry_ids_step(window, 3);
    assert(window.take(4) =~= window);
    assert(spec_entry_ids(window) =~= Seq::<Seq<char>>::empty());
}

proof fn lemma_help_group_vocabulary()
    ensures
        spec_entry_ids(spec_help_group().entries) == seq![
            "documentation"@,
            "report-issue"@,
            "visit-website"@,
        ],
{
    let entries = spec_help_group().entries;
    assert(entries.take(0) =~= Seq::<MenuEntryView>::empty());
    lemma_entry_ids_step(entries, 0);
    lemma_entry_ids_step(entries, 1);
    lemma_entry_ids_step(entries, 2);
    lemma_entry_ids_step(entries, 3);
    assert(entries.take(4) =~= entries);
    assert(spec_entry_ids(entries) =~= seq![
        "documentation"@,
        "report-issue"@,
        "visit-website"@,
    ]);
}

/// The identifier vocabulary of the assembled menu bar, in display order:
/// the full identifier list on the macOS family, the same list without
/// `settings` everywhere else.
pub proof fn lemma_identifier_vocabulary(platform: Platform)
    ensures
        platform is MacOs ==> spec_bar_ids(spec_menu_bar(platform).groups) == seq![
            "settings"@,
            "new-project"@,
            "import-screenshots"@,
            "export-current"@,
            "export-all"@,
            "documentation"@,
            "report-issue"@,
            "visit-website"@,
        ],
        platform is Other ==> spec_bar_ids(spec_menu_bar(platform).groups) == seq![
            "new-project"@,
            "import-screenshots"@,
            "export-current"@,
            "export-all"@,
            "documentation"@,
            "report-issue"@,
            "visit-website"@,
        ],
{
    lemma_app_group_vocabulary();
    lemma_file_group_vocabulary();
    lemma_native_groups_vocabulary();
    lemma_help_group_vocabulary();
    let groups = spec_menu_bar(platform).groups;
    assert(groups.take(0) =~= Seq::<MenuGroupView>::empty());
    if platform is MacOs {
        lemma_bar_ids_step(groups, 0);
        lemma_bar_ids_step(groups, 1);
        lemma_bar_ids_step(groups, 2);
        lemma_bar_ids_step(groups, 3);
        lemma_bar_ids_step(groups, 4);
        lemma_bar_ids_step(groups, 5);
        assert(groups.take(6) =~= groups);
        assert(spec_bar_ids(groups) =~= seq![
            "settings"@,
            "new-project"@,
            "import-screenshots"@,
            "export-current"@,
            "export-all"@,
            "documentation"@,
            "report-issue"@,
            "visit-website"@,
        ]);
    } else {
        lemma_bar_ids_step(groups, 0);
        lemma_bar_ids_step(groups, 1);
        lemma_bar_ids_step(groups, 2);
        lemma_bar_ids_step(groups, 3);
        lemma_bar_ids_step(groups, 4);
        assert(groups.take(5) =~= groups);
        assert(spec_bar_ids(groups) =~= seq![
            "new-project"@,
            "import-screenshots"@,
            "export-current"@,
            "export-all"@,
            "documentation"@,
            "report-issue"@,
            "visit-website"@,
        ]);
    }
}

/// None of the five platform-uniform groups carries the standard About
/// action.
proof fn lemma_uniform_group_without_about(group: MenuGroupView)
    requires
        group == spec_file_group() || group == spec_edit_group() || group == spec_view_group()
            || group == spec_window_group() || group == spec_help_group(),
    ensures
        !is_app_identity_group(group),
{
    let about = MenuEntryView::Native(NativeAction::About);
    assert forall|i: int| 0 <= i < group.entries.len() implies #[trigger] group.entries[i]
        != about by {
        if group == spec_file_group() {
            assert(spec_file_group().entries[i] != about);
        } else if group == spec_edit_group() {
            assert(spec_edit_group().entries[i] != about);
        } else if group == spec_view_group() {
            assert(spec_view_group().entries[i] != about);
        } else if group == spec_window_group() {
            assert(spec_window_group().entries[i] != about);
        } else {
            assert(spec_help_group().entries[i] != about);
        }
    }
    assert(!group.entries.contains(about));
}

} // verus!
