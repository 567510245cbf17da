//! Keyboard focus inside the time picker overlay.

use vstd::prelude::*;

verus! {

/// An enumeration of all focusable elements of the time picker overlay.
#[derive(Copy, Clone, Debug, PartialEq, Eq, Structural)]
pub enum Focus {
    /// Nothing is in focus.
    Nothing,
    /// The overlay itself is in focus.
    Overlay,
    /// The digital hour is in focus.
    DigitalHour,
    /// The digital minute is in focus.
    DigitalMinute,
    /// The digital second is in focus.
    DigitalSecond,
    /// The cancel button is in focus.
    Cancel,
    /// The submit button is in focus.
    Submit,
}

impl Focus {
    /// The element that follows `self` in tab order. The seconds spinner takes
    /// part in the order only while it is shown.
    pub open spec fn spec_next(self, show_seconds: bool) -> Focus {
        match self {
            Focus::Nothing => Focus::Overlay,
            Focus::Overlay => Focus::DigitalHour,
            Focus::DigitalHour => Focus::DigitalMinute,
            Focus::DigitalMinute => if show_seconds {
                Focus::DigitalSecond
            } else {
                Focus::Cancel
            },
            Focus::DigitalSecond => Focus::Cancel,
            Focus::Cancel => Focus::Submit,
            Focus::Submit => Focus::Overlay,
        }
    }

    /// The element that precedes `self` in tab order. Going back from no focus
    /// stays at no focus.
    pub open spec fn spec_previous(self, show_seconds: bool) -> Focus {
        match self {
            Focus::Nothing => Focus::Nothing,
            Focus::Overlay => Focus::Submit,
            Focus::DigitalHour => Focus::Overlay,
            Focus::DigitalMinute => Focus::DigitalHour,
            Focus::DigitalSecond => Focus::DigitalMinute,
            Focus::Cancel => if show_seconds {
                Focus::DigitalSecond
            } else {
                Focus::DigitalMinute
            },
            Focus::Submit => Focus::Cancel,
        }
    }

    /// Whether `self` is one of the stops of the tab order: every element but
    /// `Nothing`, and the seconds spinner only while it is shown.
    pub open spec fn in_cycle(self, show_seconds: bool) -> bool {
        self != Focus::Nothing && (self == Focus::DigitalSecond ==> show_seconds)
    }

    /// How many stops the tab order has.
    pub open spec fn stops(show_seconds: bool) -> int {
        if show_seconds {
            6
        } else {
            5
        }
    }

    /// The place of a stop in the tab order, counted from the overlay, which
    /// is at 0.
    pub open spec fn stop(self, show_seconds: bool) -> int {
        match self {
            Focus::Nothing => -1,
            Focus::Overlay => 0,
            Focus::DigitalHour => 1,
            Focus::DigitalMinute => 2,
            Focus::DigitalSecond => 3,
            Focus::Cancel => Self::stops(show_seconds) - 2,
            Focus::Submit => Self::stops(show_seconds) - 1,
        }
    }

    /// Gets the next focusable element.
    pub fn next(self, show_seconds: bool) -> (res: Focus)
        ensures
            res == self.spec_next(show_seconds),
    {
        match self {
            Focus::Nothing => Focus::Overlay,
            Focus::Overlay => Focus::DigitalHour,
            Focus::DigitalHour => Focus::DigitalMinute,
            Focus::DigitalMinute => {
                if show_seconds {
                    Focus::DigitalSecond
                } else {
                    Focus::Cancel
                }
            },
            Focus::DigitalSecond => Focus::Cancel,
            Focus::Cancel => Focus::Submit,
            Focus::Submit => Focus::Overlay,
        }
    }

    /// Gets the previous focusable element.
    pub fn previous(self, show_seconds: bool) -> (res: Focus)
        ensures
            res == self.spec_previous(show_seconds),
    {
        match self {
            Focus::Nothing => Focus::Nothing,
            Focus::Overlay => Focus::Submit,
            Focus::DigitalHour => Focus::Overlay,
            Focus::DigitalMinute => Focus::DigitalHour,
            Focus::DigitalSecond => Focus::DigitalMinute,
            Focus::Cancel => {
                if show_seconds {
                    Focus::DigitalSecond
                } else {
                    Focus::DigitalMinute
                }
            },
            Focus::Submit => Focus::Cancel,
        }
    }
}

impl Focus {
    /// The stops of the tab order stand at the places from 0 up to the number
    /// of stops, each at a place of its own.
    pub proof fn lemma_stops_are_apart(a: Focus, b: Focus, show_seconds: bool)
        requires
            a.in_cycle(show_seconds),
            b.in_cycle(show_seconds),
        ensures
            0 <= a.stop(show_seconds) < Self::stops(show_seconds),
            a.stop(show_seconds) == b.stop(show_seconds) ==> a == b,
    {
    }

    /// The tab order is a ring: from a stop, `next` leads to the stop one
    /// place on and `previous` to the stop one place back, the last stop
    /// being followed by the first.
    pub proof fn lemma_tab_order_is_a_ring(self, show_seconds: bool)
        requires
            self.in_cycle(show_seconds),
        ensures
            self.spec_next(show_seconds).in_cycle(show_seconds),
            self.spec_previous(show_seconds).in_cycle(show_seconds),
            self.spec_next(show_seconds).stop(show_seconds) == (self.stop(show_seconds) + 1)
                % Self::stops(show_seconds),
            self.spec_previous(show_seconds).stop(show_seconds) == (self.stop(show_seconds) - 1)
                % Self::stops(show_seconds),
    {
    }

    /// From a stop of the tab order, going on and then back, or back and then
    /// on, leads to where one was.
    pub proof fn lemma_next_and_previous_undo_each_other(self, show_seconds: bool)
        requires
            self.in_cycle(show_seconds),
        ensures
            self.spec_next(show_seconds).spec_previous(show_seconds) == self,
            self.spec_previous(show_seconds).spec_next(show_seconds) == self,
    {
    }

    /// Wherever the focus is, `next` leads to a stop of the tab order: the
    /// focus never gets lost by going on.
    pub proof fn lemma_next_reaches_the_ring(self, show_seconds: bool)
        ensures
            self.spec_next(show_seconds).in_cycle(show_seconds),
    {
    }
}

impl Default for Focus {
    fn default() -> (res: Focus)
        ensures
            res == Focus::Nothing,
    {
        Focus::Nothing
    }
}

} // verus!
