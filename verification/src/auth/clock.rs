//! Wall-clock instants as plain numbers.

use std::time::Duration;
use std::time::SystemTime;
use vstd::prelude::*;

verus! {

/// Nanoseconds in one second.
pub const NANOS_PER_SEC: u128 = 1_000_000_000;

/// An instant of the wall clock, in nanoseconds since the Unix epoch.
#[derive(Clone, Copy, Debug, PartialEq, Eq, Hash, Structural)]
pub struct Timestamp {
    pub nanos: u128,
}

impl Timestamp {
    /// The instant `nanos` nanoseconds after the epoch.
    pub fn from_nanos(nanos: u128) -> (t: Timestamp)
        ensures
            t.nanos == nanos,
    {
        Timestamp { nanos }
    }

    /// The instant `secs` whole seconds after the epoch.
    pub fn from_secs(secs: u64) -> (t: Timestamp)
        ensures
            t.nanos == secs * NANOS_PER_SEC,
    {
        let wide: u128 = secs as u128;
        assert(wide * NANOS_PER_SEC <= u128::MAX) by (nonlinear_arith)
            requires
                wide <= u64::MAX,
                NANOS_PER_SEC == 1_000_000_000,
        ;
        Timestamp { nanos: wide * NANOS_PER_SEC }
    }

    /// Reads the system clock: the instant it shows, or `None` where it
    /// cannot be read against the epoch.
    pub fn now() -> Option<Timestamp> {
        let reading: SystemTime = system_time_now();
        let since_epoch: Option<u128> = match since_unix_epoch(&reading) {
            Some(elapsed) => Some(duration_as_nanos(&elapsed)),
            None => None,
        };
        Timestamp::from_reading(since_epoch)
    }

    /// The instant of a clock that reads `since_epoch` nanoseconds after the
    /// epoch. A clock without such a reading shows no instant.
    pub fn from_reading(since_epoch: Option<u128>) -> (t: Option<Timestamp>)
        ensures
            t == (match since_epoch {
                Some(nanos) => Some(Timestamp { nanos }),
                None => None,
            }),
    {
        match since_epoch {
            Some(nanos) => Some(Timestamp { nanos }),
            None => None,
        }
    }
}

/// `std::time::SystemTime`, carried from the clock to the conversion below
/// and not looked into.
#[verifier::external_type_specification]
#[verifier::external_body]
pub struct ExSystemTime(SystemTime);

/// `SystemTime::now`: the current reading of the system clock. Nothing is
/// claimed of the reading.
#[verifier::external_body]
fn system_time_now() -> SystemTime {
    SystemTime::now()
}

/// `SystemTime::duration_since` against `UNIX_EPOCH`: the time from the epoch
/// to `t`, or `None` where `t` lies before the epoch. Nothing is claimed of
/// the amount.
#[verifier::external_body]
fn since_unix_epoch(t: &SystemTime) -> Option<Duration> {
    t.duration_since(std::time::UNIX_EPOCH).ok()
}

/// `Duration::as_nanos`: the duration in whole nanoseconds. Nothing is
/// claimed of the amount.
#[verifier::external_body]
fn duration_as_nanos(d: &Duration) -> u128 {
    d.as_nanos()
}

} // verus!
