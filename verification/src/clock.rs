//! The two things this crate takes from outside itself on every step: the
//! time of day and fresh identifiers.

use vstd::prelude::*;

verus! {

/// `chrono::Utc::now().timestamp_millis()`: the wall-clock time in
/// milliseconds since the Unix epoch. `chrono` panics on a clock that is set
/// before the epoch, so a result is never negative; nothing else is known of
/// it.
#[verifier::external_body]
pub(crate) fn now_ms() -> (r: i64)
    ensures
        r >= 0,
{
    chrono::Utc::now().timestamp_millis()
}

/// `uuid::Uuid::new_v4().to_string()`: a random identifier in the hyphenated
/// lower-case form, which is 36 characters long. Which identifier is not
/// known.
#[verifier::external_body]
pub(crate) fn fresh_id() -> (r: String)
    ensures
        r@.len() == 36,
{
    uuid::Uuid::new_v4().to_string()
}

} // verus!
