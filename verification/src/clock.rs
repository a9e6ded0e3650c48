//! The wall clock, read through chrono.
use vstd::prelude::*;

verus! {

/// The current time in microseconds since the Unix epoch
/// (`chrono::Utc::now().timestamp_micros()`). It depends on when it is
/// called, so all that is stated is what holds of every `DateTime<Utc>`:
/// it lies within chrono's range.
#[verifier::external_body]
pub fn now_micros() -> (r: i64)
    ensures
        crate::data::stamps::in_range(r),
{
    chrono::Utc::now().timestamp_micros()
}

} // verus!
