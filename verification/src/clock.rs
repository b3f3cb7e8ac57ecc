//! The wall clock, read once per signed request or login.

use vstd::prelude::*;

verus! {

/// Relies on `chrono::Local::now` and `chrono::DateTime::timestamp_millis`:
/// the current time as milliseconds since the Unix epoch. Nothing is
/// promised of the value; callers state what holds for every timestamp.
#[verifier::external_body]
pub fn now_ms() -> i64 {
    chrono::Local::now().timestamp_millis()
}

} // verus!
