//! The locale reported to the front end.

use vstd::prelude::*;

verus! {

/// The tag reported when the platform names no locale.
pub open spec fn fallback_locale() -> Seq<char> {
    "en-US"@
}

/// The tag reported for what the platform said: its own answer where it gave
/// one, the fallback otherwise.
pub open spec fn resolved_locale(reported: Option<Seq<char>>) -> Seq<char> {
    match reported {
        Some(tag) => tag,
        None => fallback_locale(),
    }
}

/// The view of what the platform said.
pub open spec fn report_view(reported: Option<String>) -> Option<Seq<char>> {
    match reported {
        Some(tag) => Some(tag@),
        None => None,
    }
}

/// Asks the platform for the most preferred locale.
///
/// Calls `sys_locale::get_locale`. The answer comes from the process's
/// surroundings, so nothing is claimed of it: it may be any tag, or none.
#[verifier::external_body]
fn platform_locale() -> (reported: Option<String>) {
    sys_locale::get_locale()
}

/// Turns the platform's answer into the tag to report. Never fails: an
/// answer is passed on as it is, and no answer becomes the fallback.
pub fn resolve_locale(reported: Option<String>) -> (tag: String)
    ensures
        tag@ == resolved_locale(report_view(reported)),
        reported is None ==> tag@ == "en-US"@,
        reported matches Some(v) ==> tag@ == v@,
{
    match reported {
        Some(v) => v,
        None => "en-US".to_owned(),
    }
}

/// The system's locale as the front end gets it: what the platform reports,
/// resolved by `resolve_locale`.
///
/// No clause speaks of the tag. The platform may report any text, and every
/// report is passed on as it is, so every text is a possible tag; what is
/// returned for each report is the contract of `resolve_locale`.
pub fn get_sys_locale() -> (tag: String) {
    resolve_locale(platform_locale())
}

} // verus!
