//! Wall-clock readings, from which request identifiers are taken.

use std::time::Duration;
use std::time::SystemTime;
use vstd::prelude::*;

verus! {

/// `std::time::SystemTime`: a reading of the system clock, carried as it is.
#[verifier::external_type_specification]
#[verifier::external_body]
pub struct ExSystemTime(SystemTime);

/// `SystemTime::now`: the current reading of the system clock. Nothing is
/// claimed about the reading.
#[verifier::external_body]
fn wall_clock() -> SystemTime {
    SystemTime::now()
}

/// `SystemTime::duration_since` against `UNIX_EPOCH`: the time elapsed since
/// the epoch, or `None` where the clock reads earlier than the epoch. Nothing
/// is claimed about the duration.
#[verifier::external_body]
fn since_unix_epoch(reading: &SystemTime) -> Option<Duration> {
    reading.duration_since(std::time::UNIX_EPOCH).ok()
}

/// `Duration::as_millis`: the whole milliseconds that a duration holds.
/// Nothing is claimed about the count.
#[verifier::external_body]
fn whole_millis(elapsed: &Duration) -> u128 {
    elapsed.as_millis()
}

/// What is left of a millisecond count once it is cut to 64 bits.
pub open spec fn low_64_bits(millis: u128) -> u64 {
    (millis % 0x1_0000_0000_0000_0000) as u64
}

/// Cuts a millisecond count to the 64 bits that an identifier holds.
pub fn millis_to_id(millis: u128) -> (id: u64)
    ensures
        id == low_64_bits(millis),
        millis <= u64::MAX ==> id == millis,
{
    (millis % 0x1_0000_0000_0000_0000) as u64
}

/// Milliseconds since the Unix epoch by the system clock, cut to 64 bits; 0
/// where the clock reads earlier than the epoch.
///
/// The reading depends on the moment of the call, so nothing is promised
/// about it: `epoch_id` states what becomes of each reading.
pub fn now_millis() -> u64 {
    let reading = wall_clock();
    let elapsed = match since_unix_epoch(&reading) {
        Some(since) => Some(whole_millis(&since)),
        None => None,
    };
    epoch_id(elapsed)
}

/// The identifier that a reading of the clock comes to.
pub open spec fn id_of_reading(elapsed_millis: Option<u128>) -> u64 {
    match elapsed_millis {
        Some(millis) => low_64_bits(millis),
        None => 0,
    }
}

/// The identifier that a reading of the clock comes to: the milliseconds
/// since the epoch, cut to 64 bits, and 0 for a clock that reads earlier than
/// the epoch.
pub fn epoch_id(elapsed_millis: Option<u128>) -> (id: u64)
    ensures
        id == id_of_reading(elapsed_millis),
{
    match elapsed_millis {
        Some(millis) => millis_to_id(millis),
        None => 0,
    }
}

} // verus!
