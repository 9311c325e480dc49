//! The action router.
//!
//! Every activation of a custom menu item delivers that item's identifier.
//! Three fixed identifiers are intercepted locally and open a fixed URL in
//! the system browser; every other identifier — including ones unknown to
//! this crate, which deliberately degrade gracefully — is forwarded to the
//! main UI surface as a `menu-action` event carrying the identifier itself.

use vstd::prelude::*;
use vstd::string::StrSliceExecFns;
use vstd::string::StringExecFns;

verus! {

/// What the shell must do in response to a menu activation: exactly one of
/// opening a URL in the system browser or forwarding the identifier to the
/// main UI surface as the payload of a `menu-action` event.
#[derive(Clone, Debug, PartialEq, Eq)]
pub enum RouteAction {
    OpenUrl(String),
    Forward(String),
}

/// Mathematical model of a `RouteAction`.
#[verifier::ext_equal]
pub enum RouteActionView {
    OpenUrl(Seq<char>),
    Forward(Seq<char>),
}

impl View for RouteAction {
    type V = RouteActionView;

    open spec fn view(&self) -> RouteActionView {
        match self {
            RouteAction::OpenUrl(url) => RouteActionView::OpenUrl(url@),
            RouteAction::Forward(id) => RouteActionView::Forward(id@),
        }
    }
}

/// The fixed URL opened for the `documentation` identifier.
pub open spec fn spec_documentation_url() -> Seq<char> {
    "https://github.com/YUZU-Hub/appscreen"@
}

/// The fixed issue-tracker URL opened for the `report-issue` identifier.
pub open spec fn spec_issue_tracker_url() -> Seq<char> {
    "https://github.com/YUZU-Hub/appscreen/issues"@
}

/// The fixed marketing-site URL opened for the `visit-website` identifier.
pub open spec fn spec_website_url() -> Seq<char> {
    "https://yuzuhub.com/en"@
}

/// The name of the event forwarded to the UI surface.
pub open spec fn spec_menu_event_name() -> Seq<char> {
    "menu-action"@
}

/// The well-known name of the main UI surface that forwarded events target.
pub open spec fn spec_main_surface_name() -> Seq<char> {
    "main"@
}

/// Whether an identifier belongs to the fixed set that is intercepted
/// locally (opening a URL) instead of being forwarded to the UI.
pub open spec fn spec_is_intercepted(id: Seq<char>) -> bool {
    ||| id == "documentation"@
    ||| id == "report-issue"@
    ||| id == "visit-website"@
}

/// The router's decision table: which action an activated identifier maps
/// to.  Case-sensitive, exact matching; every identifier outside the fixed
/// set is forwarded unchanged.
pub open spec fn spec_route(id: Seq<char>) -> RouteActionView {
    if id == "documentation"@ {
        RouteActionView::OpenUrl(spec_documentation_url())
    } else if id == "report-issue"@ {
        RouteActionView::OpenUrl(spec_issue_tracker_url())
    } else if id == "visit-website"@ {
        RouteActionView::OpenUrl(spec_website_url())
    } else {
        RouteActionView::Forward(id)
    }
}

/// Character-by-character string equality: returns whether the two string
/// slices view to the same character sequence.
pub fn str_eq(a: &str, b: &str) -> (r: bool)
    ensures
        r == (a@ == b@),
{
    let a_len = a.unicode_len();
    let b_len = b.unicode_len();
    if a_len != b_len {
        return false;
    }
    let mut i: usize = 0;
    while i < a_len
        invariant
            a_len == a@.len(),
            b_len == b@.len(),
            a_len == b_len,
            i <= a_len,
            forall|j: int| 0 <= j < i ==> a@[j] == b@[j],
        decreases a_len - i,
    {
        let ca = a.get_char(i);
        let cb = b.get_char(i);
        if ca != cb {
            return false;
        }
        i = i + 1;
    }
    proof {
        assert(a@ =~= b@);
    }
    true
}

/// Decide what the shell must do for an activated identifier, following the
/// fixed decision table: the three intercepted identifiers open their fixed
/// URLs, everything else is forwarded to the UI with the identifier as
/// payload.  Exactly one action is returned per activation.
pub fn route(id: &str) -> (r: RouteAction)
    ensures
        r@ == spec_route(id@),
{
    if str_eq(id, "documentation") {
        RouteAction::OpenUrl(String::from_str("https://github.com/YUZU-Hub/appscreen"))
    } else if str_eq(id, "report-issue") {
        RouteAction::OpenUrl(String::from_str("https://github.com/YUZU-Hub/appscreen/issues"))
    } else if str_eq(id, "visit-website") {
        RouteAction::OpenUrl(String::from_str("https://yuzuhub.com/en"))
    } else {
        RouteAction::Forward(String::from_str(id))
    }
}

/// The name of the event that carries forwarded identifiers to the UI.
pub fn menu_event_name() -> (r: &'static str)
    ensures
        r@ == spec_menu_event_name(),
{
    "menu-action"
}

/// The well-known name under which the main UI surface is looked up.
pub fn main_surface_name() -> (r: &'static str)
    ensures
        r@ == spec_main_surface_name(),
{
    "main"
}

} // verus!
