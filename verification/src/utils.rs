//! Clock access.

use vstd::prelude::*;
use std::time::{SystemTime, UNIX_EPOCH};

verus! {

/// `SystemTime::now` measured against the Unix epoch, in milliseconds; `None`
/// when the clock stands before the epoch. Nothing is claimed of the value:
/// it differs from call to call.
#[verifier::external_body]
fn millis_since_epoch() -> (elapsed: Option<u128>) {
    SystemTime::now().duration_since(UNIX_EPOCH).ok().map(|d| d.as_millis())
}

/// Milliseconds since the Unix epoch, as signed requests carry them. A clock
/// set before the epoch reads as zero.
pub fn get_timestamp() -> (millis: u128) {
    timestamp_of_reading(millis_since_epoch())
}

/// The timestamp that a reading of the clock stands for: the milliseconds
/// that were read, and zero where the clock stood before the epoch.
pub open spec fn reading_or_zero(elapsed: Option<u128>) -> u128 {
    match elapsed {
        Some(t) => t,
        None => 0,
    }
}

/// Turns a reading of the clock into a timestamp.
pub fn timestamp_of_reading(elapsed: Option<u128>) -> (millis: u128)
    ensures
        millis == reading_or_zero(elapsed),
{
    match elapsed {
        Some(t) => t,
        None => 0,
    }
}

} // verus!
