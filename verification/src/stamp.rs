//! Identifiers and timestamps for the records that the supervisor writes.

use vstd::prelude::*;

verus! {

/// A new random identifier, from `uuid::Uuid::new_v4` in its hyphenated form.
/// Nothing is claimed of the text: each call draws fresh random bytes.
#[verifier::external_body]
pub(crate) fn fresh_id() -> String {
    uuid::Uuid::new_v4().to_string()
}

/// The seconds since the Unix epoch, from `chrono::Utc::now` and
/// `DateTime::timestamp`. Nothing is claimed of the number: it is whatever the
/// system clock says, which chrono expects not to stand before 1970.
#[verifier::external_body]
pub(crate) fn unix_now() -> i64 {
    chrono::Utc::now().timestamp()
}

} // verus!
