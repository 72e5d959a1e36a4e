//! The text fields of a snapshot: host identity and the time of the last
//! package-index update, each with its "Unknown" fallback.

use vstd::prelude::*;

verus! {

/// The text reported when a value cannot be had.
pub open spec fn unknown() -> Seq<char> {
    "Unknown"@
}

pub open spec fn text_or_unknown(value: Option<String>) -> Seq<char> {
    match value {
        Some(s) => s@,
        None => unknown(),
    }
}

/// The value itself, or "Unknown" when there is none.
pub fn or_unknown(value: Option<String>) -> (r: String)
    ensures
        r@ == text_or_unknown(value),
{
    match value {
        Some(s) => s,
        None => String::from_str("Unknown"),
    }
}

/// Operating-system label: name and version, separated by one space, each
/// "Unknown" when it cannot be had.
pub fn os_label(name: Option<String>, version: Option<String>) -> (r: String)
    ensures
        r@ == text_or_unknown(name) + " "@ + text_or_unknown(version),
{
    let mut label = or_unknown(name);
    let version = or_unknown(version);
    label.append(" ");
    label.append(version.as_str());
    label
}

/// The last-update text: the primary marker's time if it could be read, else
/// the secondary marker's, else "Unknown".
pub open spec fn resolved_update(primary: Option<String>, secondary: Option<String>) -> Seq<char> {
    match primary {
        Some(p) => p@,
        None => text_or_unknown(secondary),
    }
}

/// Chooses the last-update text from the formatted times of the two markers.
pub fn resolve_last_update(primary: Option<String>, secondary: Option<String>) -> (r: String)
    ensures
        r@ == resolved_update(primary, secondary),
{
    match primary {
        Some(p) => p,
        None => or_unknown(secondary),
    }
}

} // verus!
