//! The time that the picker hands out when it is submitted.

use vstd::prelude::*;

verus! {

/// The period of a clock.
#[derive(Copy, Clone, Debug, PartialEq, Eq, Structural)]
pub enum Period {
    /// The hour counts through the whole day, from 0 to 23.
    H24,
    /// Before noon, on a twelve-hour dial.
    Am,
    /// From noon on, on a twelve-hour dial.
    Pm,
}

/// A picked time, with or without seconds.
#[derive(Copy, Clone, Debug, PartialEq, Eq, Structural)]
pub enum Time {
    /// Hour and minute.
    Hm {
        /// The hour.
        hour: u32,
        /// The minute.
        minute: u32,
        /// The period that the hour is counted in.
        period: Period,
    },
    /// Hour, minute and second.
    Hms {
        /// The hour.
        hour: u32,
        /// The minute.
        minute: u32,
        /// The second.
        second: u32,
        /// The period that the hour is counted in.
        period: Period,
    },
}

impl Time {
    /// The hour lies on the dial of its period, and minute and second are below 60.
    pub open spec fn wf(self) -> bool {
        match self {
            Time::Hm { hour, minute, period } => Self::on_dial(hour, period) && minute < 60,
            Time::Hms { hour, minute, second, period } => Self::on_dial(hour, period) && minute
                < 60 && second < 60,
        }
    }

    /// `hour` is one that a clock of this period shows: 0 to 23 on a dial of
    /// 24 hours, 1 to 12 on one of twelve.
    pub open spec fn on_dial(hour: u32, period: Period) -> bool {
        match period {
            Period::H24 => hour < 24,
            Period::Am | Period::Pm => 1 <= hour <= 12,
        }
    }

    /// The hour of the day, from 0 to 23, that a well-formed picked time
    /// stands for.
    pub open spec fn hour_of_day(self) -> int {
        let (hour, period) = match self {
            Time::Hm { hour, period, .. } => (hour, period),
            Time::Hms { hour, period, .. } => (hour, period),
        };
        match period {
            Period::H24 => hour as int,
            Period::Am => (hour % 12) as int,
            Period::Pm => (hour % 12) as int + 12,
        }
    }
}

} // verus!
