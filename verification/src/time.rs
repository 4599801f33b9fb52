//! Instants on the UTC time line, and the whole hours that lie between two of
//! them.
//!
//! An instant is held as plain numbers: the seconds since the Unix epoch and
//! the nanoseconds into that second. The calendar arithmetic itself is done by
//! `chrono`; the one function that calls it is the only unproved code here.

use vstd::prelude::*;
use chrono::DateTime;

verus! {

/// Nanoseconds in one second.
pub const NANOS_PER_SECOND: u32 = 1_000_000_000;

/// The earliest second `chrono` can name: midnight of January 1 of the year
/// -262143, counted from the Unix epoch.
pub const MIN_SECONDS: i64 = -8_334_601_228_800;

/// The latest second `chrono` can name: the last second of December 31 of the
/// year 262142, counted from the Unix epoch.
pub const MAX_SECONDS: i64 = 8_210_266_876_799;

/// Nanoseconds in one hour.
pub open spec fn nanos_per_hour() -> int {
    3_600_000_000_000
}

/// Whether `secs` whole seconds after the Unix epoch and `nanos` nanoseconds
/// into the second that follows name an instant within `chrono`'s range.
pub open spec fn representable(secs: int, nanos: int) -> bool {
    &&& MIN_SECONDS <= secs <= MAX_SECONDS
    &&& 0 <= nanos < NANOS_PER_SECOND
}

/// Whether `secs` and `nanos` write a leap second as `chrono` does: a
/// nanosecond count of one billion or more, but less than two, in the last
/// second of a minute.
///
/// The last second of the calendar is left out: the second that would follow
/// it cannot be named.
pub open spec fn writes_leap_second(secs: int, nanos: int) -> bool {
    &&& MIN_SECONDS <= secs < MAX_SECONDS
    &&& secs % 60 == 59
    &&& NANOS_PER_SECOND <= nanos < 2 * NANOS_PER_SECOND
}

/// The number of whole hours from the instant `from` to the instant `to`, both
/// counted in nanoseconds since the Unix epoch. A part of an hour is dropped,
/// so the count is rounded toward zero; it is negative when `to` lies an hour
/// or more before `from`.
pub open spec fn whole_hours_between(from: int, to: int) -> int {
    if to >= from {
        (to - from) / nanos_per_hour()
    } else {
        -((from - to) / nanos_per_hour())
    }
}

/// The hours that have passed at `now` since `last`, as the pet counts them:
/// the whole hours from `last` to `now`, held between 0 and `u32::MAX`.
///
/// A `now` that lies before `last`, as a clock set back gives it, counts as no
/// time at all. A span of more hours than 32 bits hold counts as `u32::MAX`.
pub open spec fn elapsed_hours(last: int, now: int) -> u32 {
    let hours = whole_hours_between(last, now);
    if hours < 0 {
        0
    } else if hours > u32::MAX {
        u32::MAX
    } else {
        hours as u32
    }
}

/// No hours have passed at an instant that is not after `last`.
pub proof fn lemma_no_hours_before(last: int, now: int)
    requires
        now <= last,
    ensures
        elapsed_hours(last, now) == 0,
{
    assert(whole_hours_between(last, now) <= 0) by (nonlinear_arith)
        requires
            now <= last,
            whole_hours_between(last, now) == -((last - now) / 3_600_000_000_000),
    ;
}

/// The count of hours never falls as time goes on: at a later instant at least
/// as many hours have passed since `last` as at an earlier one.
pub proof fn lemma_elapsed_hours_grow(last: int, earlier: int, later: int)
    requires
        earlier <= later,
    ensures
        whole_hours_between(last, earlier) <= whole_hours_between(last, later),
        elapsed_hours(last, earlier) <= elapsed_hours(last, later),
{
    let hour = nanos_per_hour();
    if earlier >= last {
        assert((earlier - last) / hour <= (later - last) / hour) by (nonlinear_arith)
            requires
                last <= earlier <= later,
                hour == 3_600_000_000_000,
        ;
    } else if later >= last {
        assert(0 <= (later - last) / hour && 0 <= (last - earlier) / hour) by (nonlinear_arith)
            requires
                earlier < last <= later,
                hour == 3_600_000_000_000,
        ;
    } else {
        assert((last - later) / hour <= (last - earlier) / hour) by (nonlinear_arith)
            requires
                earlier <= later < last,
                hour == 3_600_000_000_000,
        ;
    }
}

/// An instant of UTC, to the nanosecond, on the time line of Unix time, which
/// has no leap seconds.
///
/// Its view is the number of nanoseconds since the Unix epoch.
#[derive(Clone, Copy, Debug, PartialEq, Eq, Structural)]
pub struct Timestamp {
    secs: i64,
    nanos: u32,
}

impl View for Timestamp {
    type V = int;

    closed spec fn view(&self) -> int {
        self.secs * NANOS_PER_SECOND + self.nanos
    }
}

impl Timestamp {
    #[verifier::type_invariant]
    spec fn in_range(self) -> bool {
        representable(self.secs as int, self.nanos as int)
    }

    /// The instant `secs` seconds and `nanos` nanoseconds after the Unix epoch,
    /// or `None` when the two are neither [`representable`] nor a way to
    /// write a leap second ([`writes_leap_second`]).
    ///
    /// A leap second is taken as Unix time counts it, as the second that
    /// follows: `23:59:60.5` is the same instant as `00:00:00.5` of the next
    /// day.
    pub fn new(secs: i64, nanos: u32) -> (made: Option<Timestamp>)
        ensures
            made is Some <==> representable(secs as int, nanos as int) || writes_leap_second(
                secs as int,
                nanos as int,
            ),
            made is Some ==> made->0@ == secs * NANOS_PER_SECOND + nanos,
    {
        if secs < MIN_SECONDS || secs > MAX_SECONDS {
            None
        } else if nanos < NANOS_PER_SECOND {
            Some(Timestamp { secs, nanos })
        } else if nanos < 2 * NANOS_PER_SECOND && secs < MAX_SECONDS && ends_minute(secs) {
            Some(Timestamp { secs: secs + 1, nanos: nanos - NANOS_PER_SECOND })
        } else {
            None
        }
    }

    /// Whole seconds since the Unix epoch, rounded down.
    pub fn seconds(&self) -> (secs: i64)
        ensures
            secs == self@ / (NANOS_PER_SECOND as int),
            MIN_SECONDS <= secs <= MAX_SECONDS,
    {
        proof {
            use_type_invariant(self);
            assert(self@ / (NANOS_PER_SECOND as int) == self.secs) by (nonlinear_arith)
                requires
                    self@ == self.secs * NANOS_PER_SECOND + self.nanos,
                    0 <= self.nanos < NANOS_PER_SECOND,
                    NANOS_PER_SECOND == 1_000_000_000,
            ;
        }
        self.secs
    }

    /// Nanoseconds since the last whole second.
    pub fn subsec_nanos(&self) -> (nanos: u32)
        ensures
            nanos == self@ % (NANOS_PER_SECOND as int),
            nanos < NANOS_PER_SECOND,
    {
        proof {
            use_type_invariant(self);
            assert(self@ % (NANOS_PER_SECOND as int) == self.nanos) by (nonlinear_arith)
                requires
                    self@ == self.secs * NANOS_PER_SECOND + self.nanos,
                    0 <= self.nanos < NANOS_PER_SECOND,
                    NANOS_PER_SECOND == 1_000_000_000,
            ;
        }
        self.nanos
    }

    /// The whole hours from this instant to `later`, rounded toward zero.
    pub fn hours_until(&self, later: &Timestamp) -> (hours: i64)
        ensures
            hours == whole_hours_between(self@, later@),
    {
        proof {
            use_type_invariant(self);
            use_type_invariant(later);
        }
        count_whole_hours(self.secs, self.nanos, later.secs, later.nanos)
    }

    /// The hours that have passed at `now` since this instant: none where
    /// `now` is the earlier of the two, and at most `u32::MAX`.
    pub fn hours_elapsed_at(&self, now: &Timestamp) -> (hours: u32)
        ensures
            hours == elapsed_hours(self@, now@),
    {
        let hours: i64 = self.hours_until(now);
        if hours < 0 {
            0
        } else if hours > 0xffff_ffff {
            u32::MAX
        } else {
            hours as u32
        }
    }
}

/// Whether `secs`, counted from the Unix epoch, is the last second of a minute.
fn ends_minute(secs: i64) -> (last: bool)
    requires
        MIN_SECONDS <= secs <= MAX_SECONDS,
    ensures
        last == (secs % 60 == 59),
{
    // The first second of the calendar begins a minute, so the seconds since
    // then tell the place in the minute, and are never negative.
    let since_first: i64 = secs - MIN_SECONDS;
    assert(since_first % 60 == secs % 60) by {
        assert(MIN_SECONDS == 60 * (-138_910_020_480int));
        vstd::arithmetic::div_mod::lemma_mod_multiples_vanish(
            138_910_020_480,
            secs as int,
            60,
        );
    }
    since_first % 60 == 59
}

/// Rebuilds two instants with `chrono::DateTime::from_timestamp`, subtracts the
/// first from the second and counts the hours with `TimeDelta::num_hours`.
///
/// Trusted: that for two representable instants, neither in a leap second,
/// `chrono`'s difference is the exact one, and that `num_hours` drops the
/// fraction of an hour toward zero.
#[verifier::external_body]
fn count_whole_hours(from_secs: i64, from_nanos: u32, to_secs: i64, to_nanos: u32) -> (hours: i64)
    requires
        representable(from_secs as int, from_nanos as int),
        representable(to_secs as int, to_nanos as int),
    ensures
        hours == whole_hours_between(
            from_secs * NANOS_PER_SECOND + from_nanos,
            to_secs * NANOS_PER_SECOND + to_nanos,
        ),
{
    let from = DateTime::from_timestamp(from_secs, from_nanos).unwrap();
    let to = DateTime::from_timestamp(to_secs, to_nanos).unwrap();
    (to - from).num_hours()
}

} // verus!
