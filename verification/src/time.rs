//! The time of day that the picker edits.
//!
//! The arithmetic on it is chrono's: every change of a [`TimeOfDay`] goes
//! through a `NaiveTime`. What chrono does is stated here as spec functions,
//! and the functions that make the calls are believed to meet them.

use chrono::{Duration, Local, NaiveTime, Timelike};
use vstd::arithmetic::div_mod::{
    lemma_fundamental_div_mod, lemma_fundamental_div_mod_converse_div,
    lemma_fundamental_div_mod_converse_mod, lemma_small_mod, lemma_sub_mod_noop,
    lemma_sub_mod_noop_right,
};
use vstd::prelude::*;

verus! {

/// Seconds in a minute.
pub const MINUTE: u32 = 60;

/// Seconds in an hour.
pub const HOUR: u32 = 3600;

/// Seconds in a day.
pub const DAY: u32 = 86_400;

/// Nanoseconds in a second. A nanosecond field at or above it marks a leap
/// second.
pub const SECOND_NANOS: u32 = 1_000_000_000;

/// A time of day without a time zone.
///
/// `nanosecond` counts from the start of `second`. From 1,000,000,000 on it
/// stands for the leap second that follows `second`, which may be any second
/// of the day.
#[derive(Copy, Clone, Debug, PartialEq, Eq, Structural)]
pub struct TimeOfDay {
    /// The hour, from 0 to 23.
    pub hour: u32,
    /// The minute, from 0 to 59.
    pub minute: u32,
    /// The second, from 0 to 59.
    pub second: u32,
    /// The nanosecond, below 2,000,000,000.
    pub nanosecond: u32,
}

impl TimeOfDay {
    /// Every field is in its range.
    pub open spec fn wf(self) -> bool {
        &&& self.hour < 24
        &&& self.minute < 60
        &&& self.second < 60
        &&& self.nanosecond < 2 * SECOND_NANOS
    }

    /// The time lies inside a leap second.
    pub open spec fn is_leap_second(self) -> bool {
        self.nanosecond >= SECOND_NANOS
    }

    /// Whole seconds since midnight, the leap second not counted.
    pub open spec fn seconds_from_midnight(self) -> int {
        self.hour * HOUR + self.minute * MINUTE + self.second
    }

    /// The time that lies `seconds` whole seconds after midnight, for
    /// `0 <= seconds < DAY`.
    pub open spec fn at(seconds: int, nanosecond: u32) -> TimeOfDay {
        TimeOfDay {
            hour: (seconds / HOUR as int) as u32,
            minute: ((seconds / MINUTE as int) % 60) as u32,
            second: (seconds % MINUTE as int) as u32,
            nanosecond,
        }
    }

    /// The time `seconds` whole seconds later, or earlier where `seconds` is
    /// negative, wrapping around midnight.
    ///
    /// Outside a leap second this is addition modulo one day. Inside one, a
    /// shift by nothing changes nothing; a shift forward leaves the leap
    /// second behind and then counts from the second before it; a shift
    /// backward counts from the second after it.
    pub open spec fn shifted(self, seconds: int) -> TimeOfDay {
        if !self.is_leap_second() {
            Self::at((self.seconds_from_midnight() + seconds) % DAY as int, self.nanosecond)
        } else if seconds == 0 {
            self
        } else {
            let from = if seconds > 0 {
                self.seconds_from_midnight()
            } else {
                self.seconds_from_midnight() + 1
            };
            Self::at((from + seconds) % DAY as int, (self.nanosecond - SECOND_NANOS) as u32)
        }
    }

    /// Whether the hour is past noon, and the hour on a twelve-hour dial,
    /// from 1 to 12.
    pub open spec fn spec_hour12(self) -> (bool, u32) {
        (self.hour >= 12, if self.hour % 12 == 0 { 12u32 } else { (self.hour % 12) as u32 })
    }

    /// `self` with another hour, if that hour exists.
    pub open spec fn spec_with_hour(self, hour: u32) -> Option<TimeOfDay> {
        if hour < 24 {
            Some(TimeOfDay { hour, ..self })
        } else {
            None
        }
    }

    /// `self` with another minute, if that minute exists.
    pub open spec fn spec_with_minute(self, minute: u32) -> Option<TimeOfDay> {
        if minute < 60 {
            Some(TimeOfDay { minute, ..self })
        } else {
            None
        }
    }

    /// `self` with another second, if that second exists.
    pub open spec fn spec_with_second(self, second: u32) -> Option<TimeOfDay> {
        if second < 60 {
            Some(TimeOfDay { second, ..self })
        } else {
            None
        }
    }

    /// Makes a time of day from its four fields, if each is in its range.
    pub fn new(hour: u32, minute: u32, second: u32, nanosecond: u32) -> (res: Option<TimeOfDay>)
        ensures
            res == (if (TimeOfDay { hour, minute, second, nanosecond }).wf() {
                Some(TimeOfDay { hour, minute, second, nanosecond })
            } else {
                None
            }),
    {
        if hour < 24 && minute < 60 && second < 60 && nanosecond < 2_000_000_000 {
            Some(TimeOfDay { hour, minute, second, nanosecond })
        } else {
            None
        }
    }

    /// The local time of day of the system clock.
    ///
    /// Calls chrono's `Local::now`, then `naive_local` and `time`, and reads
    /// the result through `Timelike`. The clock decides the value; all that is
    /// claimed is that the four readings are in the ranges chrono documents.
    #[verifier::external_body]
    pub(crate) fn now() -> (res: TimeOfDay)
        ensures
            res.wf(),
    {
        let time = Local::now().naive_local().time();
        TimeOfDay {
            hour: time.hour(),
            minute: time.minute(),
            second: time.second(),
            nanosecond: time.nanosecond(),
        }
    }

    /// Calls chrono's `Timelike::hour12` on the `NaiveTime` with these fields.
    ///
    /// Claims what the method's source computes: the flag is set from noon on,
    /// and the hour is taken modulo 12 with 0 read as 12.
    #[verifier::external_body]
    pub(crate) fn hour12(&self) -> (res: (bool, u32))
        requires
            self.wf(),
        ensures
            res == self.spec_hour12(),
    {
        NaiveTime::from_hms_opt(self.hour, self.minute, self.second)
            .and_then(|time| time.with_nanosecond(self.nanosecond))
            .unwrap()
            .hour12()
    }

    /// Calls chrono's `Timelike::with_hour` on the `NaiveTime` with these
    /// fields.
    ///
    /// Claims that an hour of 24 or more is refused, and that otherwise only
    /// the hour changes.
    #[verifier::external_body]
    pub(crate) fn with_hour(&self, hour: u32) -> (res: Option<TimeOfDay>)
        requires
            self.wf(),
        ensures
            res == self.spec_with_hour(hour),
    {
        let time = NaiveTime::from_hms_opt(self.hour, self.minute, self.second)?
            .with_nanosecond(self.nanosecond)?
            .with_hour(hour)?;
        Some(TimeOfDay {
            hour: time.hour(),
            minute: time.minute(),
            second: time.second(),
            nanosecond: time.nanosecond(),
        })
    }

    /// Calls chrono's `Timelike::with_minute` on the `NaiveTime` with these
    /// fields.
    ///
    /// Claims that a minute of 60 or more is refused, and that otherwise only
    /// the minute changes.
    #[verifier::external_body]
    pub(crate) fn with_minute(&self, minute: u32) -> (res: Option<TimeOfDay>)
        requires
            self.wf(),
        ensures
            res == self.spec_with_minute(minute),
    {
        let time = NaiveTime::from_hms_opt(self.hour, self.minute, self.second)?
            .with_nanosecond(self.nanosecond)?
            .with_minute(minute)?;
        Some(TimeOfDay {
            hour: time.hour(),
            minute: time.minute(),
            second: time.second(),
            nanosecond: time.nanosecond(),
        })
    }

    /// Calls chrono's `Timelike::with_second` on the `NaiveTime` with these
    /// fields.
    ///
    /// Claims that a second of 60 or more is refused, and that otherwise only
    /// the second changes; a leap second stays marked.
    #[verifier::external_body]
    pub(crate) fn with_second(&self, second: u32) -> (res: Option<TimeOfDay>)
        requires
            self.wf(),
        ensures
            res == self.spec_with_second(second),
    {
        let time = NaiveTime::from_hms_opt(self.hour, self.minute, self.second)?
            .with_nanosecond(self.nanosecond)?
            .with_second(second)?;
        Some(TimeOfDay {
            hour: time.hour(),
            minute: time.minute(),
            second: time.second(),
            nanosecond: time.nanosecond(),
        })
    }

    /// Adds `Duration::seconds(seconds)` to the `NaiveTime` with these fields,
    /// with chrono's `+`.
    ///
    /// Claims what `NaiveTime::overflowing_add_signed` computes for a duration
    /// of whole seconds: the sum modulo one day, with chrono's treatment of a
    /// leap second as [`TimeOfDay::shifted`] spells it out.
    #[verifier::external_body]
    pub(crate) fn plus(&self, seconds: u32) -> (res: TimeOfDay)
        requires
            self.wf(),
        ensures
            res == self.shifted(seconds as int),
    {
        let time = NaiveTime::from_hms_opt(self.hour, self.minute, self.second)
            .and_then(|time| time.with_nanosecond(self.nanosecond))
            .unwrap() + Duration::seconds(i64::from(seconds));
        TimeOfDay {
            hour: time.hour(),
            minute: time.minute(),
            second: time.second(),
            nanosecond: time.nanosecond(),
        }
    }

    /// Subtracts `Duration::seconds(seconds)` from the `NaiveTime` with these
    /// fields, with chrono's `-`.
    ///
    /// Claims what `NaiveTime::overflowing_sub_signed` computes for a duration
    /// of whole seconds: it adds the negated duration.
    #[verifier::external_body]
    pub(crate) fn minus(&self, seconds: u32) -> (res: TimeOfDay)
        requires
            self.wf(),
        ensures
            res == self.shifted(-(seconds as int)),
    {
        let time = NaiveTime::from_hms_opt(self.hour, self.minute, self.second)
            .and_then(|time| time.with_nanosecond(self.nanosecond))
            .unwrap() - Duration::seconds(i64::from(seconds));
        TimeOfDay {
            hour: time.hour(),
            minute: time.minute(),
            second: time.second(),
            nanosecond: time.nanosecond(),
        }
    }

    /// Counting the seconds of a time since midnight and reading the count
    /// back as a time gives the same time.
    pub proof fn lemma_at_seconds_from_midnight(self)
        requires
            self.wf(),
        ensures
            0 <= self.seconds_from_midnight() < DAY,
            Self::at(self.seconds_from_midnight(), self.nanosecond) == self,
    {
        let total = self.seconds_from_midnight();
        let (h, m, s) = (self.hour as int, self.minute as int, self.second as int);
        lemma_fundamental_div_mod_converse_div(total, HOUR as int, h, m * 60 + s);
        lemma_fundamental_div_mod_converse_div(total, MINUTE as int, h * 60 + m, s);
        lemma_fundamental_div_mod_converse_mod(total, MINUTE as int, h * 60 + m, s);
        lemma_fundamental_div_mod_converse_mod(h * 60 + m, 60, h, m);
    }

    /// Reading a count of seconds below one day as a time gives a time with
    /// every field in its range and that many seconds since midnight.
    pub proof fn lemma_seconds_from_midnight_at(seconds: int, nanosecond: u32)
        requires
            0 <= seconds < DAY,
        ensures
            Self::at(seconds, nanosecond).hour < 24,
            Self::at(seconds, nanosecond).minute < 60,
            Self::at(seconds, nanosecond).second < 60,
            Self::at(seconds, nanosecond).seconds_from_midnight() == seconds,
    {
        let minutes = seconds / 60;
        lemma_fundamental_div_mod(seconds, 60);
        lemma_fundamental_div_mod(minutes, 60);
        lemma_fundamental_div_mod_converse_div(
            seconds,
            HOUR as int,
            minutes / 60,
            (minutes % 60) * 60 + seconds % 60,
        );
    }

    /// A shift keeps every field in its range, and the result is never inside
    /// a leap second unless the shift was by nothing.
    pub proof fn lemma_shifted_wf(self, seconds: int)
        requires
            self.wf(),
        ensures
            self.shifted(seconds).wf(),
            seconds != 0 ==> !self.shifted(seconds).is_leap_second(),
    {
        let from = if self.is_leap_second() && seconds < 0 {
            self.seconds_from_midnight() + 1
        } else {
            self.seconds_from_midnight()
        };
        let nanosecond = if self.is_leap_second() {
            (self.nanosecond - SECOND_NANOS) as u32
        } else {
            self.nanosecond
        };
        Self::lemma_seconds_from_midnight_at((from + seconds) % DAY as int, nanosecond);
    }

    /// Outside a leap second, a shift by one hour moves the hour by one around
    /// the dial of 24 and leaves minute, second and nanosecond alone.
    pub proof fn lemma_shifted_by_hour(self)
        requires
            self.wf(),
            !self.is_leap_second(),
        ensures
            self.shifted(HOUR as int) == (TimeOfDay {
                hour: ((self.hour + 1) % 24) as u32,
                ..self
            }),
            self.shifted(-(HOUR as int)) == (TimeOfDay {
                hour: ((self.hour + 23) % 24) as u32,
                ..self
            }),
    {
        let later = TimeOfDay { hour: ((self.hour + 1) % 24) as u32, ..self };
        let earlier = TimeOfDay { hour: ((self.hour + 23) % 24) as u32, ..self };
        later.lemma_at_seconds_from_midnight();
        earlier.lemma_at_seconds_from_midnight();
        let total = self.seconds_from_midnight();
        assert((total + HOUR) % DAY as int == later.seconds_from_midnight());
        assert((total - HOUR) % DAY as int == earlier.seconds_from_midnight());
    }

    /// Outside a leap second, shifting forth and back by the same amount
    /// gives the time one started from.
    pub proof fn lemma_shift_there_and_back(self, seconds: int)
        requires
            self.wf(),
            !self.is_leap_second(),
        ensures
            self.shifted(seconds).shifted(-seconds) == self,
    {
        let total = self.seconds_from_midnight();
        let there = (total + seconds) % DAY as int;
        self.lemma_at_seconds_from_midnight();
        Self::lemma_seconds_from_midnight_at(there, self.nanosecond);
        lemma_sub_mod_noop(total + seconds, seconds, DAY as int);
        lemma_sub_mod_noop_right(there, seconds, DAY as int);
        lemma_small_mod(total as nat, DAY as nat);
        assert((there - seconds) % DAY as int == total);
    }
}

} // verus!
