//! The time of day, as the rows record it.

use vstd::prelude::*;

verus! {

/// The current UTC date and time as text, such as
/// `2024-05-01 09:30:00.123456789`: `chrono::offset::Utc::now()`, then
/// `naive_utc()`, then `to_string()`.
///
/// Nothing is claimed of the text: it is whatever the machine's clock says,
/// and two calls may give the same text or go backwards. chrono panics where
/// the clock stands before 1970.
#[verifier::external_body]
pub(crate) fn utc_timestamp() -> (stamp: String) {
    chrono::offset::Utc::now().naive_utc().to_string()
}

} // verus!
