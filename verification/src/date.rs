//! Calendar model: dates as day counts, wall-clock times, clock durations.
//!
//! The row source stores a date-and-time as one "serial datetime" number:
//! its integer part counts days since the device epoch, its fractional part
//! is the time of day scaled to a 24-hour clock. Because the legacy encoding
//! starts counting at 1 and wrongly treats 1900 as a leap year, decoding
//! applies a fixed correction of two days, so that serial day 2 is
//! 1900-01-01. A date here is therefore a plain count of whole days since
//! 1900-01-01, which makes day differences, weekday derivation and window
//! arithmetic ordinary integer operations.

use vstd::prelude::*;

verus! {

/// Seconds in one calendar day.
pub const SECONDS_PER_DAY: u32 = 86400;

/// The correction subtracted from a serial day count: the encoding counts
/// from 1 and includes the fictitious 1900-02-29, so serial day 2 is the
/// epoch date 1900-01-01.
pub const SERIAL_DAY_CORRECTION: i64 = 2;

/// A calendar date, stored as the count of whole days since 1900-01-01
/// (which is day 0). Dates before the epoch do not occur in sensor exports
/// and are rejected at decoding.
#[derive(Clone, Copy, Debug, PartialEq, Eq, Structural)]
pub struct Date {
    /// Days since 1900-01-01.
    pub days: u32,
}

impl Date {
    /// Whether a serial day count denotes a representable date: at least
    /// the epoch, and within the supported day range.
    pub open spec fn serial_in_range(serial: int) -> bool {
        SERIAL_DAY_CORRECTION <= serial && serial - SERIAL_DAY_CORRECTION <= u32::MAX
    }

    /// What decoding a serial day count yields: the corrected day offset
    /// when the count is in range, nothing otherwise.
    pub open spec fn spec_from_serial(serial: int) -> Option<Date> {
        if Self::serial_in_range(serial) {
            Some(Date { days: (serial - SERIAL_DAY_CORRECTION) as u32 })
        } else {
            None
        }
    }

    /// Decodes the integer part of a serial datetime into a date, applying
    /// the two-day epoch correction. Returns `None` exactly when the serial
    /// value lies outside the representable range.
    pub fn from_serial_days(serial: i64) -> (r: Option<Date>)
        ensures
            r == Self::spec_from_serial(serial as int),
    {
        if serial >= SERIAL_DAY_CORRECTION && serial - SERIAL_DAY_CORRECTION <= u32::MAX as i64 {
            Some(Date { days: (serial - SERIAL_DAY_CORRECTION) as u32 })
        } else {
            None
        }
    }

    /// Whole calendar days from `earlier` to `self`; negative when `self`
    /// precedes `earlier`.
    pub fn days_since(&self, earlier: &Date) -> (d: i64)
        ensures
            d == self.days - earlier.days,
    {
        self.days as i64 - earlier.days as i64
    }

    /// Day of the week as an index: 0 is Monday through 6 is Sunday.
    /// The epoch date 1900-01-01 was a Monday, so the index is the day
    /// count reduced modulo 7.
    pub open spec fn spec_weekday_index(self) -> int {
        self.days as int % 7
    }

    /// Day-of-week index, 0 = Monday .. 6 = Sunday.
    pub fn weekday_index(&self) -> (i: u8)
        ensures
            i == self.spec_weekday_index(),
            i < 7,
    {
        (self.days % 7) as u8
    }

    /// The three-letter English weekday name for a given weekday index.
    pub open spec fn spec_weekday_label(i: int) -> Seq<char> {
        if i == 0 {
            "Mon"@
        } else if i == 1 {
            "Tue"@
        } else if i == 2 {
            "Wed"@
        } else if i == 3 {
            "Thu"@
        } else if i == 4 {
            "Fri"@
        } else if i == 5 {
            "Sat"@
        } else {
            "Sun"@
        }
    }

    /// Three-letter English weekday name of this date.
    pub fn weekday_label(&self) -> (s: &'static str)
        ensures
            s@ == Self::spec_weekday_label(self.spec_weekday_index()),
    {
        match self.weekday_index() {
            0u8 => "Mon",
            1u8 => "Tue",
            2u8 => "Wed",
            3u8 => "Thu",
            4u8 => "Fri",
            5u8 => "Sat",
            _ => "Sun",
        }
    }

    /// Whether this date falls on a Saturday or Sunday.
    pub open spec fn spec_is_weekend(self) -> bool {
        self.spec_weekday_index() == 5 || self.spec_weekday_index() == 6
    }

    /// Whether this date falls on a Saturday or Sunday, for the report's
    /// weekend styling.
    pub fn is_weekend(&self) -> (b: bool)
        ensures
            b == self.spec_is_weekend(),
    {
        let i = self.weekday_index();
        i == 5 || i == 6
    }
}

/// A wall-clock time within one day, as seconds since midnight.
#[derive(Clone, Copy, Debug, PartialEq, Eq, Structural)]
pub struct TimeOfDay {
    /// Seconds since midnight; always below `SECONDS_PER_DAY`.
    pub seconds: u32,
}

impl TimeOfDay {
    /// A well-formed time lies strictly within one day.
    pub open spec fn wf(self) -> bool {
        self.seconds < SECONDS_PER_DAY
    }

    /// What decoding a seconds-since-midnight count yields: the same count
    /// when it fits in one day, nothing otherwise.
    pub open spec fn spec_from_day_seconds(seconds: int) -> Option<TimeOfDay> {
        if 0 <= seconds < SECONDS_PER_DAY {
            Some(TimeOfDay { seconds: seconds as u32 })
        } else {
            None
        }
    }

    /// Builds a time of day from a count of seconds since midnight, as
    /// decoded from the fractional part of a serial datetime. Returns
    /// `None` exactly when the count does not fit in one day.
    pub fn from_day_seconds(seconds: u32) -> (r: Option<TimeOfDay>)
        ensures
            r == Self::spec_from_day_seconds(seconds as int),
            r matches Some(t) ==> t.wf(),
    {
        if seconds < SECONDS_PER_DAY {
            Some(TimeOfDay { seconds })
        } else {
            None
        }
    }

    /// Hours on the 24-hour clock.
    pub fn hour(&self) -> (h: u32)
        ensures
            h == self.seconds / 3600,
    {
        self.seconds / 3600
    }

    /// Minutes past the hour.
    pub fn minute(&self) -> (m: u32)
        ensures
            m == self.seconds % 3600 / 60,
    {
        self.seconds % 3600 / 60
    }

    /// Seconds past the minute.
    pub fn second(&self) -> (s: u32)
        ensures
            s == self.seconds % 60,
    {
        self.seconds % 60
    }
}

/// A span of time, split for display into hours, minutes and seconds by
/// integer floor division. The hour count is unbounded: a band that covers
/// more than a day simply shows more than 24 hours.
#[derive(Clone, Copy, Debug, PartialEq, Eq, Structural)]
pub struct ClockDuration {
    pub hours: u64,
    pub minutes: u8,
    pub seconds: u8,
}

impl ClockDuration {
    /// The total number of seconds this duration denotes.
    pub open spec fn total_seconds(self) -> int {
        self.hours * 3600 + self.minutes * 60 + self.seconds
    }

    /// Splits a second count into hours, minutes and seconds.
    pub fn from_seconds(total: u64) -> (d: ClockDuration)
        ensures
            d.total_seconds() == total,
            d.hours == total / 3600,
            d.minutes == total % 3600 / 60,
            d.seconds == total % 60,
            d.minutes < 60,
            d.seconds < 60,
    {
        let hours = total / 3600;
        let rem = total % 3600;
        let minutes = (rem / 60) as u8;
        let seconds = (rem % 60) as u8;
        proof {
            assert(total == 3600 * (total / 3600) + total % 3600) by (nonlinear_arith);
            assert(total % 3600 == 60 * (total % 3600 / 60) + total % 3600 % 60)
                by (nonlinear_arith);
            assert(total % 3600 % 60 == total % 60) by (nonlinear_arith);
            assert(total % 3600 / 60 < 60) by (nonlinear_arith);
        }
        ClockDuration { hours, minutes, seconds }
    }
}

} // verus!
