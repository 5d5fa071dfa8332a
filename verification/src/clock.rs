//! Access to the server clock. The core treats the reading as an arbitrary
//! value: every contract that depends on a point in time takes the reading as
//! an explicit argument, so the logic around this wrapper is verified for
//! every possible reading.

use vstd::prelude::*;

verus! {

/// Relies on std's `SystemTime::now`: seconds elapsed since the Unix epoch,
/// or `None` on a clock set before the epoch. The reading depends on the wall
/// clock, so nothing is promised of its value.
#[verifier::external_body]
pub(crate) fn now_unix_seconds() -> Option<u64> {
    match std::time::SystemTime::now().duration_since(std::time::UNIX_EPOCH) {
        Ok(d) => Some(d.as_secs()),
        Err(_) => None,
    }
}

} // verus!
