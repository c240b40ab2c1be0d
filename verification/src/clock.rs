//! The wall clock.

use vstd::prelude::*;

verus! {

/// Relies on `chrono::Utc::now`: the current instant, as whole seconds
/// since the Unix epoch. Nothing is assumed of the reading — callers state
/// what holds whatever the clock returns.
#[verifier::external_body]
pub(crate) fn now_seconds() -> i64 {
    chrono::Utc::now().timestamp()
}

} // verus!
