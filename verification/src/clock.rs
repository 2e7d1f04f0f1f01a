//! Instants on the wall clock of the forecast location.
//!
//! A local instant is a provider timestamp shifted by the location's offset
//! from UTC, read as if it were a UTC time: seconds since the epoch, whose
//! calendar fields are those shown on a clock at the location.

use crate::text::{decimal, two_digits};
use chrono::DateTime;
use vstd::prelude::*;

verus! {

/// The first second of the first year that the calendar covers.
pub const EARLIEST_INSTANT: i64 = -8_334_601_228_800;

/// The last second of the last year that the calendar covers.
pub const LATEST_INSTANT: i64 = 8_210_266_876_799;

/// Whether the calendar has a date for the instant `t`.
pub open spec fn representable(t: int) -> bool {
    EARLIEST_INSTANT <= t <= LATEST_INSTANT
}

/// The hour of the day of `t`, from 0 to 23.
pub open spec fn hour_of_day(t: int) -> nat {
    ((t % 86_400) / 3_600) as nat
}

/// The minute of the hour of `t`, from 0 to 59.
pub open spec fn minute_of_hour(t: int) -> nat {
    ((t % 3_600) / 60) as nat
}

/// The hour as a twelve-hour dial shows it, from 1 to 12.
pub open spec fn hour_on_dial(hour: nat) -> nat {
    if hour % 12 == 0 {
        12
    } else {
        hour % 12
    }
}

/// The marker of the half of the day that `hour` lies in.
pub open spec fn meridiem(hour: nat) -> Seq<char> {
    if hour < 12 {
        seq!['A', 'M']
    } else {
        seq!['P', 'M']
    }
}

/// `t` on a twelve-hour clock with minutes, as in `3:07 PM`.
pub open spec fn clock_text(t: int) -> Seq<char> {
    decimal(hour_on_dial(hour_of_day(t))) + seq![':'] + two_digits(minute_of_hour(t)) + seq![' ']
        + meridiem(hour_of_day(t))
}

/// `t` on a twelve-hour clock without minutes, as in `3 PM`.
pub open spec fn hour_text(t: int) -> Seq<char> {
    decimal(hour_on_dial(hour_of_day(t))) + seq![' '] + meridiem(hour_of_day(t))
}

/// The month of the proleptic Gregorian calendar that `t` falls in, January
/// being 1.
pub uninterp spec fn civil_month(t: int) -> nat;

/// The day of the month of the proleptic Gregorian calendar that `t` falls on,
/// counted from 1.
pub uninterp spec fn civil_day(t: int) -> nat;

/// The date of `t` as month and day, as in `7/4`.
pub open spec fn date_text(t: int) -> Seq<char> {
    decimal(civil_month(t)) + seq!['/'] + decimal(civil_day(t))
}

/// The pattern of a twelve-hour clock with minutes.
pub open spec fn clock_pattern() -> Seq<char> {
    "%-l:%M %p"@
}

/// The pattern of a twelve-hour clock without minutes.
pub open spec fn hour_pattern() -> Seq<char> {
    "%-l %p"@
}

/// The pattern of a date as month and day.
pub open spec fn date_pattern() -> Seq<char> {
    "%-m/%-d"@
}

/// Whether `a` and `b` lie in the same hour of the same day. Two instants
/// agree on year, month, day and hour exactly when they agree on the number of
/// whole hours since the epoch.
pub open spec fn same_hour(a: int, b: int) -> bool {
    a / 3_600 == b / 3_600
}

/// Formats the UTC date and time of the timestamp `secs` with chrono:
/// `DateTime::from_timestamp(secs, 0)`, then `DateTime::format` with `pattern`.
///
/// Believed of chrono, not proved: `from_timestamp` gives a date and time
/// exactly for the timestamps from `EARLIEST_INSTANT` to `LATEST_INSTANT`, the
/// years -262143 to 262142. `%-l` writes the hour of the twelve-hour clock and
/// `%-m` and `%-d` the month and the day of the month, each without padding;
/// `%M` writes the minute with two digits; `%p` writes `AM` before noon and
/// `PM` from noon on; every other character of the three patterns stands for
/// itself.
#[verifier::external_body]
fn format_instant(secs: i64, pattern: &str) -> (text: Option<String>)
    requires
        pattern@ == clock_pattern() || pattern@ == hour_pattern() || pattern@ == date_pattern(),
    ensures
        text.is_some() == representable(secs as int),
        text matches Some(s) ==> {
            &&& pattern@ == clock_pattern() ==> s@ == clock_text(secs as int)
            &&& pattern@ == hour_pattern() ==> s@ == hour_text(secs as int)
            &&& pattern@ == date_pattern() ==> s@ == decimal(civil_month(secs as int)) + seq!['/']
                + decimal(civil_day(secs as int))
        },
{
    match DateTime::from_timestamp(secs, 0) {
        Some(instant) => Some(instant.format(pattern).to_string()),
        None => None,
    }
}

/// Whether the calendar has a date for `t`.
pub fn is_representable(t: i64) -> (yes: bool)
    ensures
        yes == representable(t as int),
{
    EARLIEST_INSTANT <= t && t <= LATEST_INSTANT
}

/// The seconds that have passed since the last full hour before or at `t`.
pub fn seconds_past_hour(t: i64) -> (past: i64)
    ensures
        past == t % 3_600,
        0 <= past < 3_600,
{
    t.checked_rem_euclid(3_600).unwrap()
}

/// An instant on the wall clock of a location that the calendar has a date
/// for, in seconds since the epoch.
#[derive(Clone, Copy, Debug)]
pub struct LocalInstant {
    secs: i64,
}

impl View for LocalInstant {
    type V = int;

    closed spec fn view(&self) -> int {
        self.secs as int
    }
}

impl LocalInstant {
    #[verifier::type_invariant]
    spec fn in_calendar(self) -> bool {
        representable(self.secs as int)
    }

    /// The local instant of the provider timestamp `epoch` at a location
    /// `offset` seconds ahead of UTC, where the calendar has a date for it.
    pub fn new(epoch: i64, offset: i64) -> (local: Option<LocalInstant>)
        ensures
            local.is_some() == representable(epoch + offset),
            local matches Some(t) ==> t@ == epoch + offset,
    {
        match epoch.checked_add(offset) {
            Some(secs) => if is_representable(secs) {
                Some(LocalInstant { secs })
            } else {
                None
            },
            None => None,
        }
    }

    /// The instant in seconds since the epoch.
    pub fn seconds(&self) -> (secs: i64)
        ensures
            secs == self@,
            representable(secs as int),
    {
        proof {
            use_type_invariant(self);
        }
        self.secs
    }

    /// Whether the two instants lie in the same hour of the same day.
    pub fn in_same_hour(&self, other: &LocalInstant) -> (yes: bool)
        ensures
            yes == same_hour(self@, other@),
    {
        self.secs.checked_div_euclid(3_600).unwrap() == other.secs.checked_div_euclid(
            3_600,
        ).unwrap()
    }

    /// The instant on a twelve-hour clock with minutes, as in `3:07 PM`.
    pub fn clock_time(&self) -> (text: String)
        ensures
            text@ == clock_text(self@),
    {
        proof {
            use_type_invariant(self);
        }
        format_instant(self.secs, "%-l:%M %p").unwrap()
    }

    /// The instant on a twelve-hour clock without minutes, as in `3 PM`.
    pub fn hour_label(&self) -> (text: String)
        ensures
            text@ == hour_text(self@),
    {
        proof {
            use_type_invariant(self);
        }
        format_instant(self.secs, "%-l %p").unwrap()
    }

    /// The date of the instant as month and day, as in `7/4`.
    pub fn month_day(&self) -> (text: String)
        ensures
            text@ == date_text(self@),
    {
        proof {
            use_type_invariant(self);
        }
        format_instant(self.secs, "%-m/%-d").unwrap()
    }
}

} // verus!
