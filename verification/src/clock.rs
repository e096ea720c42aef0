//! The wall clock, read once per step and handed to the verified functions
//! as a plain value.
use vstd::prelude::*;

verus! {

/// The current Unix time in milliseconds, as the timestamp columns store it.
///
/// Relies on `std::time::SystemTime::now` and
/// `SystemTime::duration_since(UNIX_EPOCH)`: what it returns depends on the
/// wall clock, so nothing is promised beyond its sign; a clock before the
/// epoch reads as zero.
#[verifier::external_body]
pub fn get_sql_timestamp() -> (r: i64)
    ensures
        r >= 0,
{
    match std::time::SystemTime::now().duration_since(std::time::UNIX_EPOCH) {
        Ok(d) => {
            let ms = d.as_millis();
            if ms > i64::MAX as u128 {
                i64::MAX
            } else {
                ms as i64
            }
        },
        Err(_) => 0,
    }
}

/// The current Unix time as a `Duration` since the epoch.
///
/// Relies on `std::time::SystemTime::now` and
/// `SystemTime::duration_since(UNIX_EPOCH)`: what it returns depends on the
/// wall clock, so nothing is promised of it; a clock before the epoch reads
/// as zero.
#[verifier::external_body]
pub fn get_timestamp() -> std::time::Duration {
    match std::time::SystemTime::now().duration_since(std::time::UNIX_EPOCH) {
        Ok(d) => d,
        Err(_) => std::time::Duration::ZERO,
    }
}

} // verus!
