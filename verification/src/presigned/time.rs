//! The clock.

use vstd::prelude::*;
use vstd::string::*;

use crate::clock::{read_clock, ClockReading};
use crate::error;
use crate::error::{InnerErrorCode, MeowError};

verus! {

/// The time that a reading of the clock stands for.
pub fn unix_secs_from(reading: Result<ClockReading, String>) -> (secs: Result<u64, MeowError>)
    ensures
        match reading {
            Ok(reading) => secs is Ok && secs->Ok_0 == reading.secs,
            Err(reason) => error::fails_with(
                secs,
                InnerErrorCode::InvalidTaskState,
                clock_error_text(reason@),
            ),
        },
{
    match reading {
        Ok(reading) => Ok(reading.secs),
        Err(reason) => {
            let mut text = "system time before unix epoch: ".to_owned();
            text.append(reason.as_str());
            Err(MeowError::from_code(InnerErrorCode::InvalidTaskState, text))
        },
    }
}

/// What is said of a clock that stands before the epoch.
pub open spec fn clock_error_text(why: Seq<char>) -> Seq<char> {
    "system time before unix epoch: "@ + why
}

/// Whether an error is that of a clock that stands before the epoch.
pub open spec fn is_clock_error(e: MeowError) -> bool {
    exists|why: Seq<char>|
        error::is_error(e, InnerErrorCode::InvalidTaskState, #[trigger] clock_error_text(why))
}

/// Whether a value can come of reading the clock.
pub open spec fn is_clock_answer(reading: Result<u64, MeowError>) -> bool {
    reading matches Err(e) ==> is_clock_error(e)
}

/// The current time in whole seconds since the epoch.
pub fn now_unix_secs() -> (secs: Result<u64, MeowError>)
    ensures
        is_clock_answer(secs),
{
    let reading = read_clock();
    let ghost why = reading->Err_0@;
    let secs = unix_secs_from(reading);
    assert(secs matches Err(e) ==> error::is_error(
        e,
        InnerErrorCode::InvalidTaskState,
        clock_error_text(why),
    ));
    secs
}

/// Whether a URL that expires at a given time is to be renewed at a given time:
/// a margin before it expires. A URL that does not expire never is.
pub open spec fn is_due(expires_at: Option<u64>, margin: u64, now: u64) -> bool {
    expires_at matches Some(expires_at) && now + margin >= expires_at
}

pub fn due(expires_at: Option<u64>, margin: u64, now: u64) -> (due: bool)
    ensures
        due == is_due(expires_at, margin, now),
{
    match expires_at {
        Some(expires_at) => {
            let horizon: u64 = now.saturating_add(margin);
            horizon >= expires_at
        },
        None => false,
    }
}

/// A URL that has expired is due for renewal, whatever the margin, and one that
/// is due stays due.
pub proof fn law_due_covers_expiry(expires_at: Option<u64>, margin: u64, now: u64, later: u64)
    requires
        now <= later,
    ensures
        is_due(expires_at, 0, now) ==> is_due(expires_at, margin, now),
        is_due(expires_at, margin, now) ==> is_due(expires_at, margin, later),
{
}

} // verus!
