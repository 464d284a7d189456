//! The one reading of the wall clock that the codec makes.

use vstd::prelude::*;

verus! {

/// Seconds since the Unix epoch, by `chrono::Utc::now().timestamp()`.
///
/// Trusted, and nothing is claimed of the number: two readings may differ in
/// either direction.  `Utc::now` gives up on a machine whose clock is set
/// before 1970, and so does this.
#[verifier::external_body]
pub(crate) fn utc_timestamp() -> (seconds: i64) {
    chrono::Utc::now().timestamp()
}

} // verus!
