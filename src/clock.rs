use vstd::prelude::*;

verus! {

/// Relies on `chrono::Utc::now` and `DateTime::timestamp`: the current time as whole
/// seconds since the Unix epoch. The clock may jump, so nothing is promised of the value.
#[verifier::external_body]
pub(crate) fn unix_timestamp() -> (r: i64) {
    chrono::Utc::now().timestamp()
}

/// Relies on `chrono::Local::now` and `DelayedFormat`'s `to_string`: the local time written
/// as `%a %b %e %Y %T` (for instance "Sat Mar  2 2024 14:05:09"). It depends on the time
/// and the machine's time zone, so nothing is promised of the text.
#[verifier::external_body]
pub(crate) fn local_time_label() -> (r: String) {
    chrono::Local::now().format("%a %b %e %Y %T").to_string()
}

} // verus!
