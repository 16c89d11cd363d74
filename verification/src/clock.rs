//! The wall clock.

use std::time::{Duration, SystemTime, SystemTimeError};
use vstd::prelude::*;

verus! {

#[verifier::external_type_specification]
#[verifier::external_body]
pub struct ExSystemTime(SystemTime);

#[verifier::external_type_specification]
#[verifier::external_body]
pub struct ExSystemTimeError(SystemTimeError);

/// What `SystemTime::duration_since` gives for `time` from the Unix epoch:
/// the time that passed from the epoch to `time`, or an error where `time`
/// lies before the epoch.
pub uninterp spec fn epoch_elapsed(time: SystemTime) -> Result<Duration, SystemTimeError>;

/// What `Duration::as_millis` gives for `duration`: its whole milliseconds.
pub uninterp spec fn duration_millis(duration: Duration) -> u128;

/// The milliseconds that a reading of the time from the epoch stands for:
/// the whole milliseconds of the time that passed, 0 where the reading
/// failed because the time lies before the epoch.
pub open spec fn elapsed_millis(elapsed: Result<Duration, SystemTimeError>) -> u128 {
    match elapsed {
        Ok(duration) => duration_millis(duration),
        Err(_) => 0,
    }
}

/// The milliseconds from the Unix epoch to `time`, 0 where `time` lies
/// before the epoch.
pub open spec fn millis_at(time: SystemTime) -> u128 {
    elapsed_millis(epoch_elapsed(time))
}

/// `SystemTime::now` of std: the time that the clock of the system shows.
/// Nothing is claimed of it.
#[verifier::external_body]
fn system_now() -> (now: SystemTime) {
    SystemTime::now()
}

/// `SystemTime::duration_since` of std, from the Unix epoch. The contract
/// only names the result: it depends on `time` alone.
#[verifier::external_body]
fn since_epoch(time: &SystemTime) -> (elapsed: Result<Duration, SystemTimeError>)
    ensures
        elapsed == epoch_elapsed(*time),
{
    time.duration_since(std::time::UNIX_EPOCH)
}

/// `Duration::as_millis` of std. The contract only names the result: it
/// depends on `duration` alone.
#[verifier::external_body]
fn whole_millis(duration: &Duration) -> (millis: u128)
    ensures
        millis == duration_millis(*duration),
{
    duration.as_millis()
}

/// The milliseconds that `elapsed`, a reading of the time from the epoch,
/// stands for: 0 where the reading failed.
pub fn millis_of(elapsed: &Result<Duration, SystemTimeError>) -> (millis: u128)
    ensures
        millis == elapsed_millis(*elapsed),
{
    match elapsed {
        Ok(duration) => whole_millis(duration),
        Err(_) => 0,
    }
}

/// The milliseconds that have passed since the Unix epoch, 0 where the clock
/// stands before it.
///
/// Which time the clock shows is left open; the result is the milliseconds
/// from the epoch to that time.
pub fn now_millis() -> (millis: u128)
    ensures
        exists|time: SystemTime| millis == #[trigger] millis_at(time),
{
    let now = system_now();
    let elapsed = since_epoch(&now);
    let millis = millis_of(&elapsed);
    assert(millis == millis_at(now));
    millis
}

} // verus!
