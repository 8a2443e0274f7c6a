use vstd::prelude::*;

verus! {

/// Relies on chrono::Local::now and chrono::DateTime::timestamp_micros:
/// the local wall-clock time, in microseconds since the Unix epoch. The
/// value depends on the machine's clock at the moment of the call, so
/// nothing is promised of it; every caller must hold for any value.
#[verifier::external_body]
pub(crate) fn now_timestamp_micros() -> i64 {
    chrono::Local::now().timestamp_micros()
}

} // verus!
