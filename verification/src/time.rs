//! Conversion of the caller's clock reading to the counts that the
//! verifications work with.

use crate::error::TlsError;
use std::time::Duration;
use std::time::SystemTime;
use vstd::prelude::*;

verus! {

/// `std::time::SystemTime`: a point in time, closed to the verifier.
#[verifier::external_type_specification]
#[verifier::external_body]
pub struct ExSystemTime(SystemTime);

/// The time from the Unix epoch to `now`; `None` where `now` lies before
/// the epoch. It names what `SystemTime::duration_since` returns for
/// `UNIX_EPOCH`.
pub uninterp spec fn elapsed_since_unix_epoch(now: SystemTime) -> Option<Duration>;

/// The whole seconds in a duration: what `Duration::as_secs` returns.
pub uninterp spec fn whole_seconds(elapsed: Duration) -> u64;

/// The whole milliseconds in a duration: what `Duration::as_millis`
/// returns.
pub uninterp spec fn whole_millis(elapsed: Duration) -> u128;

/// `SystemTime::duration_since` with `UNIX_EPOCH` as the earlier time. Its
/// error, which std gives exactly when `now` is the earlier of the two,
/// becomes `None`.
#[verifier::external_body]
fn since_unix_epoch(now: SystemTime) -> (elapsed: Option<Duration>)
    ensures
        elapsed == elapsed_since_unix_epoch(now),
{
    now.duration_since(std::time::UNIX_EPOCH).ok()
}

/// `Duration::as_secs`: the number of whole seconds in the duration.
pub assume_specification[ Duration::as_secs ](elapsed: &Duration) -> (secs: u64)
    ensures
        secs == whole_seconds(*elapsed),
;

/// `Duration::as_millis`: the number of whole milliseconds in the
/// duration.
pub assume_specification[ Duration::as_millis ](elapsed: &Duration) -> (millis: u128)
    ensures
        millis == whole_millis(*elapsed),
;

/// Whole seconds from the Unix epoch to `now`; `None` before the epoch.
pub open spec fn unix_seconds(now: SystemTime) -> Option<u64> {
    match elapsed_since_unix_epoch(now) {
        Some(elapsed) => Some(whole_seconds(elapsed)),
        None => None,
    }
}

/// Whole milliseconds from the Unix epoch to `now`; `None` before the
/// epoch.
pub open spec fn unix_millis(now: SystemTime) -> Option<u128> {
    match elapsed_since_unix_epoch(now) {
        Some(elapsed) => Some(whole_millis(elapsed)),
        None => None,
    }
}

/// A count of milliseconds as 64 bits hold it: the count, where there is
/// one and it fits.
pub open spec fn millis_in_range(millis: Option<u128>) -> Option<u64> {
    match millis {
        Some(count) => if count <= u64::MAX {
            Some(count as u64)
        } else {
            None
        },
        None => None,
    }
}

/// The time since the Unix epoch in whole seconds. A time before the epoch
/// is refused.
pub fn unix_time_seconds(now: SystemTime) -> (r: Result<u64, TlsError>)
    ensures
        match unix_seconds(now) {
            Some(secs) => r == Ok::<u64, TlsError>(secs),
            None => r == Err::<u64, TlsError>(TlsError::FailedToGetCurrentTime),
        },
{
    match since_unix_epoch(now) {
        Some(elapsed) => Ok(elapsed.as_secs()),
        None => Err(TlsError::FailedToGetCurrentTime),
    }
}

/// Takes a reading of the clock in milliseconds into 64 bits. A missing
/// reading and a count too large for 64 bits are both refused.
pub fn millis_from_count(millis: Option<u128>) -> (r: Result<u64, TlsError>)
    ensures
        match millis_in_range(millis) {
            Some(count) => r == Ok::<u64, TlsError>(count),
            None => r == Err::<u64, TlsError>(TlsError::FailedToGetCurrentTime),
        },
{
    match millis {
        Some(count) => {
            if count <= u64::MAX as u128 {
                Ok(count as u64)
            } else {
                Err(TlsError::FailedToGetCurrentTime)
            }
        },
        None => Err(TlsError::FailedToGetCurrentTime),
    }
}

/// The time since the Unix epoch in whole milliseconds. A time before the
/// epoch is refused, and so is one whose count of milliseconds does not
/// fit in 64 bits.
pub fn unix_time_millis(now: SystemTime) -> (r: Result<u64, TlsError>)
    ensures
        match millis_in_range(unix_millis(now)) {
            Some(millis) => r == Ok::<u64, TlsError>(millis),
            None => r == Err::<u64, TlsError>(TlsError::FailedToGetCurrentTime),
        },
{
    match since_unix_epoch(now) {
        Some(elapsed) => millis_from_count(Some(elapsed.as_millis())),
        None => millis_from_count(None),
    }
}

} // verus!
