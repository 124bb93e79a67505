//! Scrobble timestamps: a moment of the current week that is not in the future.

use crate::bindings::{random_up_to, since_epoch};
use crate::error::ScrobbleError;
use rand::rngs::ThreadRng;
use std::time::{SystemTime, SystemTimeError};
use vstd::prelude::*;

verus! {

/// The length of a week in seconds. Weeks are counted from the Unix epoch.
pub const WEEK_SECONDS: u64 = 604_800;

/// The length in seconds of the window that candidates are drawn from: six
/// days from the start of the week.
pub const WINDOW_SECONDS: u64 = 518_400;

/// The first second of the week that holds `now`.
pub open spec fn window_start(now: int) -> int {
    now - now % (WEEK_SECONDS as int)
}

/// The candidate `offset` seconds into the week of `now`: it stands if it is
/// not after `now`, and is rejected otherwise.
pub open spec fn placed(now: int, offset: int) -> Option<int> {
    if window_start(now) + offset <= now {
        Some(window_start(now) + offset)
    } else {
        None
    }
}

/// Whether `timestamp` can stand for a scrobble at `now`: it lies in the
/// window of the week of `now` and not after `now`.
pub open spec fn timely(now: int, timestamp: int) -> bool {
    window_start(now) <= timestamp <= now && timestamp - window_start(now) <= WINDOW_SECONDS
}

/// Whether `outcome` is what sampling at `now` with at most `attempts` rounds
/// can give: a candidate that stood in one of the rounds, or `None` where
/// every round drew a candidate that was rejected.
pub open spec fn sampled_within(now: int, attempts: int, outcome: Option<u64>) -> bool {
    match outcome {
        Some(timestamp) => attempts > 0 && exists|offset: int|
            0 <= offset <= WINDOW_SECONDS && #[trigger] placed(now, offset) == Some(
                timestamp as int,
            ),
        None => attempts == 0 || exists|offset: int|
            0 <= offset <= WINDOW_SECONDS && #[trigger] placed(now, offset) is None,
    }
}

/// Computes the first second of the week that holds `now`.
pub fn week_start(now: u64) -> (start: u64)
    ensures
        start == window_start(now as int),
        start <= now < start + WEEK_SECONDS,
        start % WEEK_SECONDS == 0,
{
    now - now % WEEK_SECONDS
}

/// Decides on the candidate `offset` seconds into the week of `now`: the
/// candidate itself where it is not after `now`, `None` where it is and
/// another one has to be drawn.
pub fn place_in_week(now: u64, offset: u64) -> (candidate: Option<u64>)
    ensures
        match candidate {
            Some(timestamp) => placed(now as int, offset as int) == Some(timestamp as int),
            None => placed(now as int, offset as int) is None,
        },
{
    let elapsed: u64 = now % WEEK_SECONDS;
    if offset <= elapsed {
        Some(now - elapsed + offset)
    } else {
        None
    }
}

/// Draws one candidate for the week of `now`, uniformly from the window, and
/// decides on it. `None` means that the candidate was after `now`: the caller
/// draws again, as often as it takes.
pub fn sample_timestamp(generator: &mut ThreadRng, now: u64) -> (outcome: Option<u64>)
    ensures
        sampled_within(now as int, 1, outcome),
        outcome matches Some(timestamp) ==> timely(now as int, timestamp as int),
{
    let offset: u64 = random_up_to(generator, WINDOW_SECONDS);
    let outcome: Option<u64> = place_in_week(now, offset);
    assert(sampled_within(now as int, 1, outcome)) by {
        assert(0 <= offset as int <= WINDOW_SECONDS);
        match outcome {
            Some(timestamp) => {
                assert(placed(now as int, offset as int) == Some(timestamp as int));
            },
            None => {
                assert(placed(now as int, offset as int) is None);
            },
        }
    }
    outcome
}

/// Draws candidates for the week of `now` until one stands, and gives that
/// one: a candidate after `now` is thrown away and another is drawn, never
/// moved to `now`. Such sampling has no bound on its rounds, so this
/// function stops after `attempts` of them and says so with `None`; a caller
/// that needs a timestamp calls again.
pub fn random_timestamp_at(generator: &mut ThreadRng, now: u64, attempts: u32) -> (outcome: Option<
    u64,
>)
    ensures
        sampled_within(now as int, attempts as int, outcome),
        outcome matches Some(timestamp) ==> timely(now as int, timestamp as int),
{
    let mut left: u32 = attempts;
    while left > 0
        invariant
            left <= attempts,
            left < attempts ==> exists|offset: int|
                0 <= offset <= WINDOW_SECONDS && #[trigger] placed(now as int, offset) is None,
        decreases left,
    {
        let round: Option<u64> = sample_timestamp(generator, now);
        if round.is_some() {
            return round;
        }
        left = left - 1;
    }
    None
}

/// Reads the clock and draws a timestamp of the current week that is not
/// after the reading, in at most `attempts` rounds. Fails with
/// `ScrobbleError::Clock`, and with nothing else, where the clock cannot be
/// read.
pub fn random_timestamp(attempts: u32) -> (outcome: Result<Option<u64>, ScrobbleError>)
    ensures
        outcome matches Err(error) ==> error == ScrobbleError::Clock,
        outcome matches Ok(Some(timestamp)) ==> exists|now: u64| #[trigger]
            timely(now as int, timestamp as int),
        outcome matches Ok(None) ==> attempts == 0 || exists|now: u64, offset: int|
            0 <= offset <= WINDOW_SECONDS && #[trigger] placed(now as int, offset) is None,
{
    match unix_now() {
        Err(error) => Err(error),
        Ok(now) => {
            let mut generator: ThreadRng = rand::thread_rng();
            let drawn: Option<u64> = random_timestamp_at(&mut generator, now, attempts);
            assert(drawn matches Some(timestamp) ==> timely(now as int, timestamp as int));
            Ok(drawn)
        },
    }
}

/// Reads the system clock as whole seconds since the Unix epoch. Fails with
/// `ScrobbleError::Clock`, and with nothing else, where the clock cannot be
/// read as such.
pub fn unix_now() -> (now: Result<u64, ScrobbleError>)
    ensures
        now is Err ==> now == Err::<u64, ScrobbleError>(ScrobbleError::Clock),
{
    let moment: SystemTime = SystemTime::now();
    let measured: Result<u64, SystemTimeError> = match since_epoch(&moment) {
        Ok(elapsed) => Ok(elapsed.as_secs()),
        Err(error) => Err(error),
    };
    clock_seconds(measured)
}

/// What a measurement of the clock against the Unix epoch counts as.
pub open spec fn clock_reading(measured: Result<u64, SystemTimeError>) -> Result<
    u64,
    ScrobbleError,
> {
    match measured {
        Ok(seconds) => Ok(seconds),
        Err(_) => Err(ScrobbleError::Clock),
    }
}

/// Takes in a measurement of the clock against the Unix epoch: the seconds
/// where there are any, and `ScrobbleError::Clock` where the clock stood
/// before the epoch, whatever the clock reported of it.
pub fn clock_seconds(measured: Result<u64, SystemTimeError>) -> (now: Result<u64, ScrobbleError>)
    ensures
        now == clock_reading(measured),
{
    match measured {
        Ok(seconds) => Ok(seconds),
        Err(_) => Err(ScrobbleError::Clock),
    }
}

/// The week of a moment starts at a multiple of the week's length, not after
/// the moment and less than a week before it.
pub proof fn lemma_window_start(now: int)
    requires
        0 <= now,
    ensures
        0 <= window_start(now) <= now < window_start(now) + WEEK_SECONDS,
        window_start(now) % (WEEK_SECONDS as int) == 0,
{
}

/// A candidate that stands lies in the week of `now` and not after `now`; it
/// stands exactly where its offset is no more than the time that has passed
/// since the week began. The candidate at offset zero always stands, so a
/// draw that ends the sampling always exists.
pub proof fn lemma_placed(now: int, offset: int)
    requires
        0 <= now,
        0 <= offset,
    ensures
        placed(now, offset) is Some <==> offset <= now % (WEEK_SECONDS as int),
        placed(now, offset) matches Some(timestamp) ==> window_start(now) <= timestamp <= now
            && timestamp == window_start(now) + offset,
        placed(now, 0) == Some(window_start(now)),
{
}

/// Whatever sampling gives, a timestamp that it gives is timely: it lies in
/// the window of the week of `now`, and not after `now`.
pub proof fn lemma_sampled_is_timely(now: int, attempts: int, outcome: Option<u64>)
    requires
        0 <= now,
        sampled_within(now, attempts, outcome),
    ensures
        outcome matches Some(timestamp) ==> timely(now, timestamp as int),
{
}

} // verus!
