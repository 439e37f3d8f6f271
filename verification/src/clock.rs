//! The wall clock.

use vstd::prelude::*;

verus! {

/// The current time as Unix seconds, read with `chrono::Utc::now` and
/// `DateTime::timestamp`. Nothing is claimed of the value: it is whatever the
/// system clock says at the moment of the call.
#[verifier::external_body]
pub(crate) fn unix_now() -> i64 {
    chrono::Utc::now().timestamp()
}

} // verus!
