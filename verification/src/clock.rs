//! Wall-clock timestamps for patch creation and migration records.

use vstd::prelude::*;

verus! {

/// Relies on std's `SystemTime::now` and chrono's `DateTime::from_timestamp`
/// and `to_rfc3339`: the current wall-clock time as an RFC 3339 string. The
/// result depends on the system clock, so nothing is promised of it; no
/// contract of the library depends on a timestamp's value. A clock before
/// the Unix epoch or outside chrono's representable range yields the epoch
/// string instead of aborting: nothing in this core panics.
#[verifier::external_body]
pub(crate) fn now_rfc3339() -> String {
    let secs = std::time::SystemTime::now()
        .duration_since(std::time::UNIX_EPOCH)
        .map(|d| d.as_secs() as i64)
        .unwrap_or(0);
    match chrono::DateTime::from_timestamp(secs, 0) {
        Some(t) => t.to_rfc3339(),
        None => String::from("1970-01-01T00:00:00+00:00"),
    }
}

} // verus!
