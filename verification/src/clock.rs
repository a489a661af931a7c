//! The one place the store reads the clock.

use vstd::prelude::*;

verus! {

/// Relies on chrono's `Utc::now`: the current moment, in whole seconds since
/// the Unix epoch.  chrono aborts rather than produce a pre-epoch or
/// out-of-range moment, so a value it returns is never negative.
#[verifier::external_body]
pub(crate) fn now_unix() -> (r: i64)
    ensures
        0 <= r,
{
    chrono::Utc::now().timestamp()
}

} // verus!
