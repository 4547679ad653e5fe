//! The machine's clock.

use vstd::prelude::*;

verus! {

/// A reading of the clock: the time since the epoch.
#[derive(Debug, Clone, Copy, PartialEq, Eq, Structural)]
pub struct ClockReading {
    pub secs: u64,
    /// The rest below a second, in nanoseconds.
    pub nanos: u32,
}

/// `std::time::SystemTime`, opaque.
#[verifier::external_type_specification]
#[verifier::external_body]
pub struct ExSystemTime(std::time::SystemTime);

/// `SystemTime::now`: what the machine's clock shows. Nothing is claimed of it.
#[verifier::external_body]
fn system_now() -> (now: std::time::SystemTime) {
    std::time::SystemTime::now()
}

/// `SystemTime::duration_since`, for the epoch: the time that has passed since
/// then, or the text of the error where the time lies before it. How much time
/// has passed is up to the clock; the rest below a second is less than one.
#[verifier::external_body]
fn since_epoch(time: std::time::SystemTime) -> (reading: Result<ClockReading, String>)
    ensures
        reading matches Ok(reading) ==> reading.nanos < 1000000000,
{
    time.duration_since(std::time::UNIX_EPOCH).map(
        |elapsed| ClockReading { secs: elapsed.as_secs(), nanos: elapsed.subsec_nanos() },
    ).map_err(|e| format!("{e}"))
}

/// Reads the clock. Two readings may differ, and a clock may stand before the
/// epoch: what follows from a reading is stated where it is taken as an
/// argument.
pub(crate) fn read_clock() -> (reading: Result<ClockReading, String>)
    ensures
        reading matches Ok(reading) ==> reading.nanos < 1000000000,
{
    since_epoch(system_now())
}

impl ClockReading {
    /// The time in milliseconds, as far as it fits.
    pub fn millis(&self) -> (millis: u64)
        ensures
            millis == (self.secs * 1000 + self.nanos as int / 1000000) as u64,
    {
        (self.secs as u128 * 1000 + (self.nanos / 1000000) as u128) as u64
    }
}

} // verus!
