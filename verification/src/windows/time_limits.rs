//! Cutting a time limit into waits that the operating system can take.
//!
//! A timed wait on a handle takes its time as a 32-bit count of
//! milliseconds, whose largest value stands for "no limit". A longer limit
//! is therefore waited for in pieces, each as long as the count allows, and
//! before each piece the time that is left is taken from the clock.

use vstd::prelude::*;
use std::time::Duration;
use std::time::Instant;
use crate::windows::codes::infinite;

verus! {

/// A point in time on the monotonic clock.
#[verifier::external_type_specification]
#[verifier::external_body]
pub struct ExInstant(Instant);

/// Reads the monotonic clock through `std::time::Instant::now`.
///
/// Nothing is claimed of the value: it is the time of the call.
#[verifier::external_body]
fn now() -> Instant {
    Instant::now()
}

/// The time since `start`, from `std::time::Instant::elapsed`.
///
/// Nothing is claimed of the value: it depends on the time of the call.
#[verifier::external_body]
fn elapsed(start: &Instant) -> Duration {
    start.elapsed()
}

/// What is left of `limit` after `spent`, and no time at all if more was
/// spent, as `std::time::Duration::saturating_sub` computes it.
pub uninterp spec fn time_left(limit: Duration, spent: Duration) -> Duration;

/// The whole milliseconds in `time`, as `std::time::Duration::as_millis`
/// counts them.
pub uninterp spec fn millis(time: Duration) -> u128;

/// Takes `spent` from `limit` with `std::time::Duration::saturating_sub`,
/// which yields no time at all where more was spent than the limit.
#[verifier::external_body]
fn saturating_sub(limit: Duration, spent: Duration) -> (left: Duration)
    ensures
        left == time_left(limit, spent),
{
    limit.saturating_sub(spent)
}

/// Counts the whole milliseconds in `time` with
/// `std::time::Duration::as_millis`.
#[verifier::external_body]
fn as_millis(time: Duration) -> (count: u128)
    ensures
        count == millis(time),
{
    time.as_millis()
}

/// The time to give the next wait when `remaining` milliseconds are left:
/// none when nothing is left; else as much as is left, but never the count
/// that stands for "no limit", nor more than fits below it.
pub open spec fn piece(remaining: u128) -> Option<u32> {
    if remaining == 0 {
        None
    } else if remaining >= 0xffff_ffff {
        Some(0xffff_fffeu32)
    } else {
        Some(remaining as u32)
    }
}

/// Computes the time to give the next wait when `remaining` milliseconds
/// are left.
pub fn next_piece(remaining: u128) -> (time: Option<u32>)
    ensures
        time == piece(remaining),
        time.is_none() <==> remaining == 0,
        time.is_some() ==> 0 < time.unwrap() <= remaining && time.unwrap() < 0xffff_ffff,
{
    let mut time_limit: u32 = if remaining > 0xffff_ffff {
        0xffff_ffff
    } else {
        remaining as u32
    };
    if time_limit == infinite() {
        time_limit = time_limit - 1;
    }
    if time_limit == 0 {
        None
    } else {
        Some(time_limit)
    }
}

/// The times to give to the waits on a handle, one after the other, until
/// the time limit is used up.
pub struct TimeLimits {
    time_limit: Option<Duration>,
    start: Instant,
}

impl TimeLimits {
    /// The time limit that is cut into pieces, if there is one.
    pub closed spec fn limit(&self) -> Option<Duration> {
        self.time_limit
    }

    /// The point in time from which the time limit runs.
    pub closed spec fn start(&self) -> Instant {
        self.start
    }

    /// Starts the clock on `time_limit`.
    pub fn new(time_limit: Option<Duration>) -> (limits: Self)
        ensures
            limits.limit() == time_limit,
    {
        TimeLimits { time_limit, start: now() }
    }

    /// The time to give the next wait, or nothing if the time limit is
    /// used up. Without a time limit it is always the count that stands for
    /// "no limit". With one it is the piece for the milliseconds that are
    /// left of the limit after the time that the clock says was spent
    /// since the start.
    pub fn next(&mut self) -> (time: Option<u32>)
        ensures
            final(self).limit() == old(self).limit(),
            final(self).start() == old(self).start(),
            old(self).limit().is_none() ==> time == Some(0xffff_ffffu32),
            old(self).limit().is_some() ==> exists|spent: Duration|
                time == piece(#[trigger] millis(time_left(old(self).limit().unwrap(), spent))),
            time.is_some() ==> time.unwrap() != 0,
    {
        match self.time_limit {
            None => Some(infinite()),
            Some(time_limit) => {
                let spent = elapsed(&self.start);
                let remaining = as_millis(saturating_sub(time_limit, spent));
                next_piece(remaining)
            },
        }
    }
}

/// Waiting in pieces covers the whole time limit: each piece is part of
/// what is left, so the pieces never add up to more than the limit, and as
/// long as anything is left there is a next piece, which takes some of it.
pub proof fn lemma_pieces_cover(remaining: u128)
    ensures
        remaining > 0 ==> piece(remaining).is_some() && 0 < piece(remaining).unwrap()
            <= remaining,
        remaining == 0 ==> piece(remaining).is_none(),
        piece(remaining) != Some(0xffff_ffffu32),
{
}

} // verus!
