//! The attempt's timestamp: whole seconds since the UNIX epoch, in decimal.

use vstd::prelude::*;
use crate::error::ConfigurationError;
use crate::text::{decimal_text, render_decimal};

verus! {

/// A reading of the system clock.
#[verifier::external_type_specification]
#[verifier::external_body]
pub struct ExSystemTime(std::time::SystemTime);

/// The error of a clock reading that lies before the reference point.
#[verifier::external_type_specification]
#[verifier::external_body]
pub struct ExSystemTimeError(std::time::SystemTimeError);

/// Calls `std::time::SystemTime::now`. Nothing is known of the reading.
#[verifier::external_body]
fn read_clock() -> std::time::SystemTime {
    std::time::SystemTime::now()
}

/// Calls `std::time::SystemTime::duration_since` with the UNIX epoch. The
/// call fails where the reading lies before the epoch.
#[verifier::external_body]
fn since_epoch(
    reading: &std::time::SystemTime,
) -> Result<std::time::Duration, std::time::SystemTimeError> {
    reading.duration_since(std::time::UNIX_EPOCH)
}

/// Calls `std::time::Duration::as_secs`.
#[verifier::external_body]
fn whole_seconds(elapsed: &std::time::Duration) -> u64 {
    elapsed.as_secs()
}

/// The timestamp for `seconds` since the epoch.
pub fn timestamp_at(seconds: u64) -> (timestamp: String)
    ensures
        timestamp@ == decimal_text(seconds as nat),
{
    render_decimal(seconds)
}

/// Reads the clock and renders the current time as a timestamp. Whatever
/// the clock says, a timestamp that comes back is the decimal numeral of a
/// 64-bit count of seconds; the only failure is a clock set before the epoch.
pub fn current_time() -> (timestamp: Result<String, ConfigurationError>)
    ensures
        match timestamp {
            Ok(text) => exists|seconds: u64| text@ == decimal_text(seconds as nat),
            Err(error) => error == ConfigurationError::ClockBeforeEpoch,
        },
{
    let reading = read_clock();
    match since_epoch(&reading) {
        Ok(elapsed) => {
            let seconds = whole_seconds(&elapsed);
            Ok(timestamp_at(seconds))
        },
        Err(_) => Err(ConfigurationError::ClockBeforeEpoch),
    }
}

} // verus!
