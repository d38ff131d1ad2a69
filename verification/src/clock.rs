//! The wall clock, read as the text that the store keeps in its timestamp
//! columns.

use vstd::prelude::*;

verus! {

/// Calls `chrono::Local::now` and writes the moment with
/// `DateTime::format`, as year, month, day, hour, minute and second of the
/// local time zone (`%Y-%m-%d %H:%M:%S`). The text depends on the clock and
/// on the time zone of the machine, so nothing is promised of it.
#[verifier::external_body]
pub(crate) fn current_timestamp() -> (stamp: String) {
    chrono::Local::now().format("%Y-%m-%d %H:%M:%S").to_string()
}

} // verus!
