//! The one reading the agent takes from the outside world besides its
//! I/O: the wall clock, used to stamp every record of a persist cycle.

use vstd::prelude::*;

verus! {

/// Relies on chrono::Utc::now for the wall-clock reading; nothing is
/// assumed about the value returned.
#[verifier::external_body]
pub(crate) fn now_millis() -> i64 {
    chrono::Utc::now().timestamp_millis()
}

} // verus!
