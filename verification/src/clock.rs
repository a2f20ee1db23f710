//! The wall clock.
use vstd::prelude::*;

verus! {

/// The current time in milliseconds since the Unix epoch, read through
/// `chrono::Local::now().timestamp_millis()`. Nothing is stated of the value:
/// it depends on when the call is made.
#[verifier::external_body]
pub fn now_millis() -> i64 {
    chrono::Local::now().timestamp_millis()
}

} // verus!
