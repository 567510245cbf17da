//! How the time picker overlay reacts to events.
//!
//! Each reaction is stated twice: as a function on [`StateView`], which says
//! what the reaction is, and as a method of [`State`], which carries it out.

use crate::clock::{ClockDragged, ClockHit, NearestRadius};
use crate::digital::{DigitalHit, SpinnerHit};
use crate::event::{Event, KeyCode, Status, Step};
use crate::focus::Focus;
use crate::picked::Time;
use crate::state::{State, StateView};
use crate::time::{TimeOfDay, HOUR, MINUTE};
use vstd::prelude::*;

verus! {

/// What the overlay has made of an event.
#[derive(Copy, Clone, Debug, PartialEq, Eq, Structural)]
pub enum Handled {
    /// The keyboard handling has captured the event. Nothing else sees it.
    Captured,
    /// The clock face and the digital clock have seen the event, with the
    /// status given. The two buttons are to see it next.
    Forward(Status),
}

/// `time` in the other half of the day.
pub open spec fn toggled_period(time: TimeOfDay) -> TimeOfDay {
    TimeOfDay { hour: ((time.hour + 12) % 24) as u32, ..time }
}

/// `time` after the dragged hand has followed the cursor to `hit`. The hour
/// hand stays in its half of the day.
pub open spec fn dragged_to(time: TimeOfDay, dragged: ClockDragged, hit: ClockHit) -> TimeOfDay {
    match dragged {
        ClockDragged::Hour => TimeOfDay {
            hour: if time.hour >= 12 {
                (hit.hour + 12) as u32
            } else {
                hit.hour
            },
            ..time
        },
        ClockDragged::Minute => TimeOfDay { minute: hit.minute, ..time },
        ClockDragged::Second => TimeOfDay { second: hit.second, ..time },
        ClockDragged::Nothing => time,
    }
}

/// `time` after a press on a spinner: one `unit` later if the press is on the
/// arrow that points up, and then one `unit` earlier if it is on the arrow
/// that points down.
pub open spec fn spun(time: TimeOfDay, hit: SpinnerHit, unit: u32) -> TimeOfDay {
    let up = if hit.up {
        time.shifted(unit as int)
    } else {
        time
    };
    if hit.down {
        up.shifted(-(unit as int))
    } else {
        up
    }
}

/// A press on a spinner is captured if it is on one of the arrows.
pub open spec fn spin_status(hit: SpinnerHit) -> Status {
    if hit.up || hit.down {
        Status::Captured
    } else {
        Status::Ignored
    }
}

impl StateView {
    /// The state after a press or release on the clock face at `hit`.
    ///
    /// A press on the centre moves the time to the other half of the day. A
    /// press on a ring focuses the spinner of that ring and takes hold of its
    /// hand. A release lets go of the hand.
    pub open spec fn clicked(self, event: Event, hit: ClockHit) -> StateView {
        match event {
            Event::Pressed => match hit.nearest_radius {
                NearestRadius::Period => StateView { time: toggled_period(self.time), ..self },
                NearestRadius::Hour => StateView {
                    focus: Focus::DigitalHour,
                    clock_dragged: ClockDragged::Hour,
                    ..self
                },
                NearestRadius::Minute => StateView {
                    focus: Focus::DigitalMinute,
                    clock_dragged: ClockDragged::Minute,
                    ..self
                },
                NearestRadius::Second => StateView {
                    focus: Focus::DigitalSecond,
                    clock_dragged: ClockDragged::Second,
                    ..self
                },
                NearestRadius::Nothing => self,
            },
            Event::Released => StateView { clock_dragged: ClockDragged::Nothing, ..self },
            _ => self,
        }
    }

    /// Whether a press or release on the clock face at `hit` is captured.
    pub open spec fn clicked_status(event: Event, hit: ClockHit) -> Status {
        match event {
            Event::Pressed => if hit.nearest_radius == NearestRadius::Nothing {
                Status::Ignored
            } else {
                Status::Captured
            },
            Event::Released => Status::Captured,
            _ => Status::Ignored,
        }
    }

    /// The state after the clock face has seen `event` with the cursor at
    /// `hit`, or off the face where `hit` is `None`.
    ///
    /// On the face, the event first counts as a click, and then the hand that
    /// is held, if any, follows the cursor, whatever the event is. Off the
    /// face only a release counts. The cache is cleared while the cursor is on
    /// the face, and once more after it has left.
    pub open spec fn after_clock(self, event: Event, hit: Option<ClockHit>) -> StateView {
        let seen = StateView {
            clock_cache_needs_clearance: hit is Some,
            cache_clears: if hit is Some || self.clock_cache_needs_clearance {
                self.cache_clears + 1
            } else {
                self.cache_clears
            },
            ..self
        };
        match hit {
            Some(hit) => {
                let clicked = seen.clicked(event, hit);
                StateView { time: dragged_to(clicked.time, clicked.clock_dragged, hit), ..clicked }
            },
            None => if event == Event::Released {
                StateView { clock_dragged: ClockDragged::Nothing, ..seen }
            } else {
                seen
            },
        }
    }

    /// Whether the clock face captures `event` with the cursor at `hit`: on
    /// the face, if the click is captured or a hand is held afterwards; off
    /// the face, if the event is a release.
    pub open spec fn clock_status(self, event: Event, hit: Option<ClockHit>) -> Status {
        match hit {
            Some(hit) => if Self::clicked_status(event, hit) == Status::Captured || self.clicked(
                event,
                hit,
            ).clock_dragged != ClockDragged::Nothing {
                Status::Captured
            } else {
                Status::Ignored
            },
            None => if event == Event::Released {
                Status::Captured
            } else {
                Status::Ignored
            },
        }
    }

    /// Whether the digital clock captures `event` with the cursor at `hit`.
    ///
    /// Only a press counts. Of the hours and the minutes, the spinner that the
    /// cursor is in decides, the minutes first; the seconds decide beside them
    /// while they are shown.
    pub open spec fn digital_status(self, event: Event, hit: DigitalHit) -> Status {
        if event != Event::Pressed {
            Status::Ignored
        } else {
            let hour_minute = if hit.minute.inside {
                spin_status(hit.minute)
            } else if hit.hour.inside {
                spin_status(hit.hour)
            } else {
                Status::Ignored
            };
            let second = if self.show_seconds && hit.second.inside {
                spin_status(hit.second)
            } else {
                Status::Ignored
            };
            hour_minute.spec_merge(second)
        }
    }

    /// The state after the digital clock has seen `event` with the cursor at
    /// `hit`.
    ///
    /// A press inside a spinner focuses it and spins it by its unit: an hour,
    /// a minute or a second. The spinners are looked at from left to right.
    /// The cache is cleared if the press is captured.
    pub open spec fn after_digital(self, event: Event, hit: DigitalHit) -> StateView {
        if event != Event::Pressed {
            self
        } else {
            let hour = if hit.hour.inside {
                StateView {
                    focus: Focus::DigitalHour,
                    time: spun(self.time, hit.hour, HOUR),
                    ..self
                }
            } else {
                self
            };
            let minute = if hit.minute.inside {
                StateView {
                    focus: Focus::DigitalMinute,
                    time: spun(hour.time, hit.minute, MINUTE),
                    ..hour
                }
            } else {
                hour
            };
            let second = if self.show_seconds && hit.second.inside {
                StateView {
                    focus: Focus::DigitalSecond,
                    time: spun(minute.time, hit.second, 1),
                    ..minute
                }
            } else {
                minute
            };
            if self.digital_status(event, hit) == Status::Captured {
                second.cleared()
            } else {
                second
            }
        }
    }

    /// The unit of the spinner that has the focus, in seconds.
    pub open spec fn focused_unit(self) -> Option<u32> {
        match self.focus {
            Focus::DigitalHour => Some(HOUR),
            Focus::DigitalMinute => Some(MINUTE),
            Focus::DigitalSecond => Some(1u32),
            _ => None,
        }
    }

    /// Whether the keyboard handling captures `event`: only an arrow key,
    /// pressed while a spinner has the focus.
    pub open spec fn keyboard_status(self, event: Event) -> Status {
        if event matches Event::KeyPressed(key) && key.spec_step() is Some
            && self.focused_unit() is Some {
            Status::Captured
        } else {
            Status::Ignored
        }
    }

    /// The state after the keyboard handling has seen `event`.
    ///
    /// While nothing has the focus, nothing happens. Otherwise the tabulator
    /// moves the focus on, or back while shift is held; an arrow key spins the
    /// focused spinner by its unit and clears the cache; and a change of the
    /// modifier keys is taken down.
    pub open spec fn after_keyboard(self, event: Event) -> StateView {
        if self.focus == Focus::Nothing {
            self
        } else {
            match event {
                Event::KeyPressed(KeyCode::Tab) => StateView {
                    focus: if self.keyboard_modifiers.shift {
                        self.focus.spec_previous(self.show_seconds)
                    } else {
                        self.focus.spec_next(self.show_seconds)
                    },
                    ..self
                },
                Event::KeyPressed(key) => match (self.focused_unit(), key.spec_step()) {
                    (Some(unit), Some(Step::Forward)) => StateView {
                        time: self.time.shifted(unit as int),
                        ..self
                    }.cleared(),
                    (Some(unit), Some(Step::Backward)) => StateView {
                        time: self.time.shifted(-(unit as int)),
                        ..self
                    }.cleared(),
                    _ => self,
                },
                Event::ModifiersChanged(modifiers) => StateView {
                    keyboard_modifiers: modifiers,
                    ..self
                },
                _ => self,
            }
        }
    }

    /// The state after the overlay has seen `event`: the keyboard handling
    /// comes first, and unless it captures the event, the clock face and then
    /// the digital clock see it too.
    pub open spec fn after_event(
        self,
        event: Event,
        clock: Option<ClockHit>,
        digital: DigitalHit,
    ) -> StateView {
        let keyed = self.after_keyboard(event);
        if self.keyboard_status(event) == Status::Captured {
            keyed
        } else {
            keyed.after_clock(event, clock).after_digital(event, digital)
        }
    }

    /// What the overlay makes of `event`.
    pub open spec fn handled(
        self,
        event: Event,
        clock: Option<ClockHit>,
        digital: DigitalHit,
    ) -> Handled {
        let keyed = self.after_keyboard(event);
        if self.keyboard_status(event) == Status::Captured {
            Handled::Captured
        } else {
            Handled::Forward(
                keyed.clock_status(event, clock).spec_merge(
                    keyed.after_clock(event, clock).digital_status(event, digital),
                ),
            )
        }
    }
}

impl StateView {
    /// No event changes the settings of the clock: whether it counts 24 hours
    /// and whether it shows seconds.
    pub proof fn lemma_events_keep_the_settings(
        self,
        event: Event,
        clock: Option<ClockHit>,
        digital: DigitalHit,
    )
        ensures
            self.after_event(event, clock, digital).use_24h == self.use_24h,
            self.after_event(event, clock, digital).show_seconds == self.show_seconds,
    {
    }

    /// No event makes the count of clearings go down.
    pub proof fn lemma_clearings_only_grow(
        self,
        event: Event,
        clock: Option<ClockHit>,
        digital: DigitalHit,
    )
        ensures
            self.after_event(event, clock, digital).cache_clears >= self.cache_clears,
    {
    }

    /// Where the cursor is in one spinner at most, an event that changes the
    /// time is captured, and the cache is cleared for it, so that the clock
    /// face is drawn with the new time.
    pub proof fn lemma_a_changed_time_is_captured_and_drawn(
        self,
        event: Event,
        clock: Option<ClockHit>,
        digital: DigitalHit,
    )
        requires
            digital.apart(),
            self.after_event(event, clock, digital).time != self.time,
        ensures
            self.after_event(event, clock, digital).cache_clears > self.cache_clears,
            self.handled(event, clock, digital) != Handled::Forward(Status::Ignored),
    {
    }

    /// While nothing has the focus, the keyboard handling leaves the state as
    /// it is and captures nothing.
    pub proof fn lemma_keys_need_focus(self, event: Event)
        requires
            self.focus == Focus::Nothing,
        ensures
            self.after_keyboard(event) == self,
            self.keyboard_status(event) == Status::Ignored,
    {
    }
}

/// Spins `time` as a press at `hit` asks for, and says whether the press was
/// on an arrow.
fn spin(time: &mut TimeOfDay, hit: SpinnerHit, unit: u32) -> (status: Status)
    requires
        old(time).wf(),
    ensures
        final(time).wf(),
        *final(time) == spun(*old(time), hit, unit),
        status == spin_status(hit),
{
    let mut status = Status::Ignored;
    if hit.up {
        proof {
            time.lemma_shifted_wf(unit as int);
        }
        *time = time.plus(unit);
        status = Status::Captured;
    }
    if hit.down {
        proof {
            time.lemma_shifted_wf(-(unit as int));
        }
        *time = time.minus(unit);
        status = Status::Captured;
    }
    status
}

impl State {
    /// The event handling for the clock.
    pub fn on_event_clock(&mut self, event: Event, hit: Option<ClockHit>) -> (status: Status)
        requires
            old(self).wf(),
            hit matches Some(hit) ==> hit.wf(),
        ensures
            final(self).wf(),
            final(self)@ == old(self)@.after_clock(event, hit),
            status == old(self)@.clock_status(event, hit),
    {
        match hit {
            Some(hit) => {
                self.clock_cache_needs_clearance = true;
                self.clock_cache.clear();
                let clicked = match event {
                    Event::Pressed => match hit.nearest_radius {
                        NearestRadius::Period => {
                            let (pm, hour) = self.time.hour12();
                            let hour = if hour == 12 {
                                if pm {
                                    12
                                } else {
                                    0
                                }
                            } else {
                                hour
                            };
                            let other = if pm && hour != 12 {
                                hour
                            } else {
                                hour + 12
                            };
                            self.time = self.time.with_hour(other % 24).unwrap();
                            Status::Captured
                        },
                        NearestRadius::Hour => {
                            self.focus = Focus::DigitalHour;
                            self.clock_dragged = ClockDragged::Hour;
                            Status::Captured
                        },
                        NearestRadius::Minute => {
                            self.focus = Focus::DigitalMinute;
                            self.clock_dragged = ClockDragged::Minute;
                            Status::Captured
                        },
                        NearestRadius::Second => {
                            self.focus = Focus::DigitalSecond;
                            self.clock_dragged = ClockDragged::Second;
                            Status::Captured
                        },
                        NearestRadius::Nothing => Status::Ignored,
                    },
                    Event::Released => {
                        self.clock_dragged = ClockDragged::Nothing;
                        Status::Captured
                    },
                    _ => Status::Ignored,
                };
                let dragged = match self.clock_dragged {
                    ClockDragged::Hour => {
                        let (pm, _) = self.time.hour12();
                        let half: u32 = if pm {
                            12
                        } else {
                            0
                        };
                        self.time = self.time.with_hour((hit.hour + half) % 24).unwrap();
                        Status::Captured
                    },
                    ClockDragged::Minute => {
                        self.time = self.time.with_minute(hit.minute).unwrap();
                        Status::Captured
                    },
                    ClockDragged::Second => {
                        self.time = self.time.with_second(hit.second).unwrap();
                        Status::Captured
                    },
                    ClockDragged::Nothing => Status::Ignored,
                };
                clicked.merge(dragged)
            },
            None => {
                if self.clock_cache_needs_clearance {
                    self.clock_cache.clear();
                    self.clock_cache_needs_clearance = false;
                }
                match event {
                    Event::Released => {
                        self.clock_dragged = ClockDragged::Nothing;
                        Status::Captured
                    },
                    _ => Status::Ignored,
                }
            },
        }
    }

    /// The event handling for the digital clock.
    pub fn on_event_digital_clock(&mut self, event: Event, hit: DigitalHit) -> (status: Status)
        requires
            old(self).wf(),
        ensures
            final(self).wf(),
            final(self)@ == old(self)@.after_digital(event, hit),
            status == old(self)@.digital_status(event, hit),
    {
        let hour_minute = match event {
            Event::Pressed => {
                let mut status = Status::Ignored;
                if hit.hour.inside {
                    self.focus = Focus::DigitalHour;
                    status = spin(&mut self.time, hit.hour, HOUR);
                }
                if hit.minute.inside {
                    self.focus = Focus::DigitalMinute;
                    status = spin(&mut self.time, hit.minute, MINUTE);
                }
                status
            },
            _ => Status::Ignored,
        };
        let second = if self.show_seconds {
            match event {
                Event::Pressed => {
                    let mut status = Status::Ignored;
                    if hit.second.inside {
                        self.focus = Focus::DigitalSecond;
                        status = spin(&mut self.time, hit.second, 1);
                    }
                    status
                },
                _ => Status::Ignored,
            }
        } else {
            Status::Ignored
        };
        let status = hour_minute.merge(second);
        if status == Status::Captured {
            self.clock_cache.clear();
        }
        status
    }

    /// The event handling for the keyboard.
    pub fn on_event_keyboard(&mut self, event: Event) -> (status: Status)
        requires
            old(self).wf(),
        ensures
            final(self).wf(),
            final(self)@ == old(self)@.after_keyboard(event),
            status == old(self)@.keyboard_status(event),
    {
        if self.focus == Focus::Nothing {
            return Status::Ignored;
        }
        match event {
            Event::KeyPressed(key) => {
                let mut status = Status::Ignored;
                match key {
                    KeyCode::Tab => {
                        if self.keyboard_modifiers.shift {
                            self.focus = self.focus.previous(self.show_seconds);
                        } else {
                            self.focus = self.focus.next(self.show_seconds);
                        }
                    },
                    _ => {
                        let unit = match self.focus {
                            Focus::DigitalHour => Some(HOUR),
                            Focus::DigitalMinute => Some(MINUTE),
                            Focus::DigitalSecond => Some(1u32),
                            _ => None,
                        };
                        match (unit, key.step()) {
                            (Some(unit), Some(Step::Forward)) => {
                                proof {
                                    self.time.lemma_shifted_wf(unit as int);
                                }
                                self.time = self.time.plus(unit);
                                status = Status::Captured;
                            },
                            (Some(unit), Some(Step::Backward)) => {
                                proof {
                                    self.time.lemma_shifted_wf(-(unit as int));
                                }
                                self.time = self.time.minus(unit);
                                status = Status::Captured;
                            },
                            _ => {},
                        }
                    },
                }
                if status == Status::Captured {
                    self.clock_cache.clear();
                }
                status
            },
            Event::ModifiersChanged(modifiers) => {
                self.keyboard_modifiers = modifiers;
                Status::Ignored
            },
            _ => Status::Ignored,
        }
    }

    /// Handles an event of the user interface, up to the point where the two
    /// buttons have to see it.
    ///
    /// `clock` says where the cursor is on the clock face, if it is on it, and
    /// `digital` where it is on the digital clock.
    pub fn on_event(&mut self, event: Event, clock: Option<ClockHit>, digital: DigitalHit) -> (res:
        Handled)
        requires
            old(self).wf(),
            clock matches Some(hit) ==> hit.wf(),
        ensures
            final(self).wf(),
            final(self)@ == old(self)@.after_event(event, clock, digital),
            res == old(self)@.handled(event, clock, digital),
    {
        if self.on_event_keyboard(event) == Status::Captured {
            return Handled::Captured;
        }
        let clock_status = self.on_event_clock(event, clock);
        let digital_status = self.on_event_digital_clock(event, digital);
        Handled::Forward(clock_status.merge(digital_status))
    }

    /// Ends the handling of an event that was forwarded to the buttons.
    ///
    /// `status` is what [`State::on_event`] forwarded, `cancel` and `submit`
    /// are the statuses that the two buttons returned, and `submitted` says
    /// whether the submit button was triggered. Returns the status of the
    /// event, and the picked time if the submit button was triggered.
    pub fn on_buttons(&self, status: Status, cancel: Status, submit: Status, submitted: bool) -> (res:
        (Status, Option<Time>))
        requires
            self.wf(),
        ensures
            res.0 == status.spec_merge(cancel).spec_merge(submit),
            res.1 == (if submitted {
                Some(self@.picked())
            } else {
                None
            }),
    {
        let time = if submitted {
            Some(self.picked())
        } else {
            None
        };
        (status.merge(cancel).merge(submit), time)
    }
}

} // verus!
