//! The wall-clock timestamp that snapshots carry.
use vstd::prelude::*;
use std::time::{SystemTime, UNIX_EPOCH};

verus! {

#[verifier::external_type_specification]
#[verifier::external_body]
pub struct ExSystemTime(SystemTime);

/// Calls `SystemTime::now`. The result is the machine's clock at the moment
/// of the call, so nothing is claimed of it.
#[verifier::external_body]
fn system_time_now() -> SystemTime {
    SystemTime::now()
}

/// Calls `SystemTime::duration_since(UNIX_EPOCH)` and takes the whole
/// milliseconds of the `Duration` it gives (`Duration::as_millis`); `None`
/// where the time lies before the epoch. Nothing is claimed of the value: it
/// is read from an opaque clock reading.
#[verifier::external_body]
fn millis_since_unix_epoch(t: &SystemTime) -> Option<u128> {
    match t.duration_since(UNIX_EPOCH) {
        Ok(d) => Some(d.as_millis()),
        Err(_) => None,
    }
}

/// The timestamp for a clock reading: 0 for a time before the epoch,
/// otherwise the milliseconds since the epoch cut to 64 bits.
pub open spec fn spec_timestamp(elapsed: Option<u128>) -> u64 {
    match elapsed {
        None => 0,
        Some(m) => (m % 0x1_0000_0000_0000_0000) as u64,
    }
}

/// Turns the milliseconds since the Unix epoch (absent for a time before it)
/// into a timestamp.
pub fn timestamp_from_millis(elapsed: Option<u128>) -> (res: u64)
    ensures
        res == spec_timestamp(elapsed),
{
    match elapsed {
        None => 0,
        Some(m) => {
            let t: u64 = m as u64;
            assert(t == (m % 0x1_0000_0000_0000_0000) as u64) by (bit_vector)
                requires
                    t == m as u64,
            ;
            t
        },
    }
}

/// The current time in milliseconds since the Unix epoch, 0 when the clock
/// reads a time before it. What the clock reads is not known here; the
/// result is `spec_timestamp` of it.
pub fn current_time_ms() -> u64 {
    let now = system_time_now();
    timestamp_from_millis(millis_since_unix_epoch(&now))
}

} // verus!
