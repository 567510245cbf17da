//! The state of the time picker overlay.

use crate::cache::ClockCache;
use crate::clock::ClockDragged;
use crate::event::Modifiers;
use crate::focus::Focus;
use crate::picked::{Period, Time};
use crate::time::TimeOfDay;
use vstd::prelude::*;

verus! {

/// The state of the time picker overlay.
pub struct State {
    /// The time that is shown and edited.
    pub time: TimeOfDay,
    /// The cursor was on the clock face when the last event came, so the face
    /// has to be drawn once more after the cursor has left it.
    pub clock_cache_needs_clearance: bool,
    /// The drawn clock face.
    pub clock_cache: ClockCache,
    /// The clock counts 24 hours instead of twice twelve.
    pub use_24h: bool,
    /// The seconds are shown and can be set.
    pub show_seconds: bool,
    /// The hand of the clock that is being dragged.
    pub clock_dragged: ClockDragged,
    /// The element that has the keyboard focus.
    pub focus: Focus,
    /// The modifier keys, as last reported.
    pub keyboard_modifiers: Modifiers,
}

/// What a [`State`] holds, as plain values: its fields, and in place of the
/// cache the count of how often it has been cleared.
pub ghost struct StateView {
    /// The time that is shown and edited.
    pub time: TimeOfDay,
    /// The clock face has to be drawn once more after the cursor has left it.
    pub clock_cache_needs_clearance: bool,
    /// How often the cache of the clock face has been cleared.
    pub cache_clears: nat,
    /// The clock counts 24 hours instead of twice twelve.
    pub use_24h: bool,
    /// The seconds are shown and can be set.
    pub show_seconds: bool,
    /// The hand of the clock that is being dragged.
    pub clock_dragged: ClockDragged,
    /// The element that has the keyboard focus.
    pub focus: Focus,
    /// The modifier keys, as last reported.
    pub keyboard_modifiers: Modifiers,
}

impl View for State {
    type V = StateView;

    open spec fn view(&self) -> StateView {
        StateView {
            time: self.time,
            clock_cache_needs_clearance: self.clock_cache_needs_clearance,
            cache_clears: self.clock_cache.clears(),
            use_24h: self.use_24h,
            show_seconds: self.show_seconds,
            clock_dragged: self.clock_dragged,
            focus: self.focus,
            keyboard_modifiers: self.keyboard_modifiers,
        }
    }
}

impl StateView {
    /// The state of an overlay that has just been opened at `time`: a
    /// twelve-hour clock without seconds, nothing focused, nothing dragged, no
    /// modifier key held, and a cache that was never cleared.
    pub open spec fn initial(time: TimeOfDay) -> StateView {
        StateView {
            time,
            clock_cache_needs_clearance: false,
            cache_clears: 0,
            use_24h: false,
            show_seconds: false,
            clock_dragged: ClockDragged::Nothing,
            focus: Focus::Nothing,
            keyboard_modifiers: Modifiers {
                shift: false,
                control: false,
                alt: false,
                logo: false,
            },
        }
    }

    /// The state after the cache has been cleared once more.
    pub open spec fn cleared(self) -> StateView {
        StateView { cache_clears: self.cache_clears + 1, ..self }
    }

    /// The time that a submit hands out: the hour on the dial that the clock
    /// uses, with its period, and the seconds only where they are shown.
    pub open spec fn picked(self) -> Time {
        let (hour, period) = if self.use_24h {
            (self.time.hour, Period::H24)
        } else if self.time.spec_hour12().0 {
            (self.time.spec_hour12().1, Period::Pm)
        } else {
            (self.time.spec_hour12().1, Period::Am)
        };
        if self.show_seconds {
            Time::Hms { hour, minute: self.time.minute, second: self.time.second, period }
        } else {
            Time::Hm { hour, minute: self.time.minute, period }
        }
    }

    /// The picked time is well formed and names the hour of the day that the
    /// state holds.
    pub proof fn lemma_picked_names_the_time(self)
        requires
            self.time.wf(),
        ensures
            self.picked().wf(),
            self.picked().hour_of_day() == self.time.hour,
            self.picked() is Hms <==> self.show_seconds,
    {
    }
}

impl State {
    /// The time is well formed.
    pub open spec fn wf(&self) -> bool {
        self.time.wf()
    }

    /// The state of an overlay that is opened at `time`.
    pub fn with_time(time: TimeOfDay) -> (res: State)
        ensures
            res@ == StateView::initial(time),
    {
        State {
            time,
            clock_cache_needs_clearance: false,
            clock_cache: ClockCache::new(),
            use_24h: false,
            show_seconds: false,
            clock_dragged: ClockDragged::Nothing,
            focus: Focus::default(),
            keyboard_modifiers: Modifiers::default(),
        }
    }

    /// The time that a submit hands out.
    pub fn picked(&self) -> (res: Time)
        requires
            self.wf(),
        ensures
            res == self@.picked(),
    {
        let (hour, period) = if self.use_24h {
            (self.time.hour, Period::H24)
        } else {
            let (pm, hour) = self.time.hour12();
            (hour, if pm { Period::Pm } else { Period::Am })
        };
        if self.show_seconds {
            Time::Hms { hour, minute: self.time.minute, second: self.time.second, period }
        } else {
            Time::Hm { hour, minute: self.time.minute, period }
        }
    }
}

impl Default for State {
    /// The state of an overlay that is opened at the local time of the system
    /// clock.
    fn default() -> (res: State)
        ensures
            res.wf(),
            res@ == StateView::initial(res.time),
    {
        State::with_time(TimeOfDay::now())
    }
}

} // verus!
