use iced_aw::clock::{ClockDragged, ClockHit, NearestRadius};
use iced_aw::digital::{DigitalHit, SpinnerHit};
use iced_aw::event::{Event, KeyCode, Modifiers, Status, Step};
use iced_aw::focus::Focus;
use iced_aw::overlay::Handled;
use iced_aw::picked::{Period, Time};
use iced_aw::state::State;
use iced_aw::time::TimeOfDay;
use iced_graphics::canvas::Frame;
use iced_graphics::Size;
use std::cell::Cell;

const OFF: SpinnerHit = SpinnerHit { inside: false, up: false, down: false };
const IN: SpinnerHit = SpinnerHit { inside: true, up: false, down: false };
const UP: SpinnerHit = SpinnerHit { inside: true, up: true, down: false };
const DOWN: SpinnerHit = SpinnerHit { inside: true, up: false, down: true };
const NOWHERE: DigitalHit = DigitalHit { hour: OFF, minute: OFF, second: OFF };
const SHIFT: Modifiers = Modifiers { shift: true, control: false, alt: false, logo: false };

fn at(hour: u32, minute: u32, second: u32) -> TimeOfDay {
    TimeOfDay { hour, minute, second, nanosecond: 0 }
}

fn on(nearest_radius: NearestRadius) -> Option<ClockHit> {
    Some(ClockHit { nearest_radius, hour: 3, minute: 40, second: 50 })
}

/// Whether the clock face has to be drawn anew: fills the cache if so.
fn is_stale(state: &State) -> bool {
    let drawn = Cell::new(false);
    let _ = state.clock_cache.cache().draw(Size::new(10.0, 10.0), |_: &mut Frame| drawn.set(true));
    drawn.get()
}

#[test]
fn merge_prefers_captured() {
    assert_eq!(Status::Ignored.merge(Status::Ignored), Status::Ignored);
    assert_eq!(Status::Ignored.merge(Status::Captured), Status::Captured);
    assert_eq!(Status::Captured.merge(Status::Ignored), Status::Captured);
    assert_eq!(Status::Captured.merge(Status::Captured), Status::Captured);
}

#[test]
fn arrow_keys_step() {
    assert_eq!(KeyCode::Up.step(), Some(Step::Forward));
    assert_eq!(KeyCode::Right.step(), Some(Step::Forward));
    assert_eq!(KeyCode::Down.step(), Some(Step::Backward));
    assert_eq!(KeyCode::Left.step(), Some(Step::Backward));
    assert_eq!(KeyCode::Tab.step(), None);
    assert_eq!(KeyCode::Other.step(), None);
}

#[test]
fn a_new_state() {
    let state = State::with_time(at(9, 30, 15));
    assert_eq!(state.time, at(9, 30, 15));
    assert!(!state.clock_cache_needs_clearance);
    assert!(!state.use_24h);
    assert!(!state.show_seconds);
    assert_eq!(state.clock_dragged, ClockDragged::Nothing);
    assert_eq!(state.focus, Focus::Nothing);
    assert_eq!(state.keyboard_modifiers, Modifiers::default());
    assert_eq!(
        Modifiers::default(),
        Modifiers { shift: false, control: false, alt: false, logo: false }
    );
}

#[test]
fn a_default_state() {
    let state = State::default();
    assert!(!state.clock_cache_needs_clearance);
    assert!(!state.use_24h);
    assert!(!state.show_seconds);
    assert_eq!(state.clock_dragged, ClockDragged::Nothing);
    assert_eq!(state.focus, Focus::Nothing);
    assert_eq!(state.keyboard_modifiers, Modifiers::default());
}

#[test]
fn keys_need_focus() {
    let mut state = State::with_time(at(9, 30, 15));
    for event in [
        Event::KeyPressed(KeyCode::Tab),
        Event::KeyPressed(KeyCode::Up),
        Event::ModifiersChanged(SHIFT),
        Event::Pressed,
        Event::Other,
    ] {
        assert_eq!(state.on_event_keyboard(event), Status::Ignored);
        assert_eq!(state.focus, Focus::Nothing);
        assert_eq!(state.time, at(9, 30, 15));
        assert_eq!(state.keyboard_modifiers, Modifiers::default());
    }
}

#[test]
fn tab_moves_the_focus_on() {
    let mut state = State::with_time(at(9, 30, 15));
    state.focus = Focus::Overlay;
    for expected in [
        Focus::DigitalHour,
        Focus::DigitalMinute,
        Focus::Cancel,
        Focus::Submit,
        Focus::Overlay,
    ] {
        assert_eq!(state.on_event_keyboard(Event::KeyPressed(KeyCode::Tab)), Status::Ignored);
        assert_eq!(state.focus, expected);
    }
    state.show_seconds = true;
    state.focus = Focus::DigitalMinute;
    state.on_event_keyboard(Event::KeyPressed(KeyCode::Tab));
    assert_eq!(state.focus, Focus::DigitalSecond);
}

#[test]
fn shift_tab_moves_the_focus_back() {
    let mut state = State::with_time(at(9, 30, 15));
    state.focus = Focus::Overlay;
    assert_eq!(state.on_event_keyboard(Event::ModifiersChanged(SHIFT)), Status::Ignored);
    assert_eq!(state.keyboard_modifiers, SHIFT);
    for expected in [
        Focus::Submit,
        Focus::Cancel,
        Focus::DigitalMinute,
        Focus::DigitalHour,
        Focus::Overlay,
    ] {
        assert_eq!(state.on_event_keyboard(Event::KeyPressed(KeyCode::Tab)), Status::Ignored);
        assert_eq!(state.focus, expected);
    }
    state.on_event_keyboard(Event::ModifiersChanged(Modifiers::default()));
    state.on_event_keyboard(Event::KeyPressed(KeyCode::Tab));
    assert_eq!(state.focus, Focus::DigitalHour);
}

#[test]
fn arrows_spin_only_a_focused_spinner() {
    for focus in [Focus::Overlay, Focus::Cancel, Focus::Submit] {
        let mut state = State::with_time(at(9, 30, 15));
        state.focus = focus;
        for key in [KeyCode::Up, KeyCode::Down, KeyCode::Left, KeyCode::Right] {
            assert_eq!(state.on_event_keyboard(Event::KeyPressed(key)), Status::Ignored);
            assert_eq!(state.time, at(9, 30, 15));
        }
    }
    let mut state = State::with_time(at(9, 30, 15));
    state.focus = Focus::DigitalMinute;
    assert_eq!(state.on_event_keyboard(Event::KeyPressed(KeyCode::Other)), Status::Ignored);
    assert_eq!(state.on_event_keyboard(Event::Pressed), Status::Ignored);
    assert_eq!(state.on_event_keyboard(Event::Other), Status::Ignored);
    assert_eq!(state.time, at(9, 30, 15));
    assert_eq!(state.focus, Focus::DigitalMinute);
}

#[test]
fn a_captured_key_clears_the_cache() {
    let mut state = State::with_time(at(9, 30, 15));
    state.focus = Focus::DigitalHour;
    assert!(is_stale(&state));
    assert!(!is_stale(&state));
    state.on_event_keyboard(Event::KeyPressed(KeyCode::Tab));
    assert!(!is_stale(&state));
    state.on_event_keyboard(Event::KeyPressed(KeyCode::Up));
    assert!(is_stale(&state));
    assert!(!is_stale(&state));
}

#[test]
fn a_press_on_a_ring_takes_the_hand() {
    for (ring, focus, hand, time) in [
        (NearestRadius::Hour, Focus::DigitalHour, ClockDragged::Hour, at(3, 30, 15)),
        (NearestRadius::Minute, Focus::DigitalMinute, ClockDragged::Minute, at(9, 40, 15)),
        (NearestRadius::Second, Focus::DigitalSecond, ClockDragged::Second, at(9, 30, 50)),
    ] {
        let mut state = State::with_time(at(9, 30, 15));
        assert_eq!(state.on_event_clock(Event::Pressed, on(ring)), Status::Captured);
        assert_eq!(state.focus, focus);
        assert_eq!(state.clock_dragged, hand);
        assert_eq!(state.time, time);
        assert!(state.clock_cache_needs_clearance);
    }
}

#[test]
fn a_press_on_no_ring_is_ignored() {
    let mut state = State::with_time(at(9, 30, 15));
    assert_eq!(state.on_event_clock(Event::Pressed, on(NearestRadius::Nothing)), Status::Ignored);
    assert_eq!(state.focus, Focus::Nothing);
    assert_eq!(state.clock_dragged, ClockDragged::Nothing);
    assert_eq!(state.time, at(9, 30, 15));
    assert!(state.clock_cache_needs_clearance);
}

#[test]
fn a_held_hand_follows_any_event() {
    let mut state = State::with_time(at(9, 30, 15));
    state.on_event_clock(Event::Pressed, on(NearestRadius::Minute));
    let there = Some(ClockHit { nearest_radius: NearestRadius::Hour, hour: 7, minute: 12, second: 1 });
    assert_eq!(state.on_event_clock(Event::Other, there), Status::Captured);
    assert_eq!(state.time, at(9, 12, 15));
    assert_eq!(state.on_event_clock(Event::KeyPressed(KeyCode::Other), on(NearestRadius::Hour)), Status::Captured);
    assert_eq!(state.time, at(9, 40, 15));
    assert_eq!(state.clock_dragged, ClockDragged::Minute);
}

#[test]
fn a_release_lets_go_of_the_hand() {
    let mut state = State::with_time(at(9, 30, 15));
    state.on_event_clock(Event::Pressed, on(NearestRadius::Minute));
    let there = Some(ClockHit { nearest_radius: NearestRadius::Hour, hour: 7, minute: 12, second: 1 });
    assert_eq!(state.on_event_clock(Event::Released, there), Status::Captured);
    assert_eq!(state.clock_dragged, ClockDragged::Nothing);
    assert_eq!(state.time, at(9, 40, 15));
    assert_eq!(state.on_event_clock(Event::Other, there), Status::Ignored);
    assert_eq!(state.time, at(9, 40, 15));
    assert_eq!(state.focus, Focus::DigitalMinute);
}

#[test]
fn a_release_off_the_face_lets_go_too() {
    let mut state = State::with_time(at(9, 30, 15));
    state.on_event_clock(Event::Pressed, on(NearestRadius::Hour));
    assert_eq!(state.on_event_clock(Event::Other, None), Status::Ignored);
    assert_eq!(state.clock_dragged, ClockDragged::Hour);
    assert_eq!(state.on_event_clock(Event::Pressed, None), Status::Ignored);
    assert_eq!(state.on_event_clock(Event::Released, None), Status::Captured);
    assert_eq!(state.clock_dragged, ClockDragged::Nothing);
    assert_eq!(state.time, at(3, 30, 15));
}

#[test]
fn the_toggled_period_is_dragged_on() {
    let mut state = State::with_time(at(9, 30, 15));
    state.clock_dragged = ClockDragged::Hour;
    assert_eq!(state.on_event_clock(Event::Pressed, on(NearestRadius::Period)), Status::Captured);
    assert_eq!(state.time, at(15, 30, 15));
}

#[test]
fn the_face_is_drawn_while_the_cursor_is_on_it_and_once_after() {
    let mut state = State::with_time(at(9, 30, 15));
    assert!(is_stale(&state));
    state.on_event_clock(Event::Other, None);
    assert!(!state.clock_cache_needs_clearance);
    assert!(!is_stale(&state));
    state.on_event_clock(Event::Other, on(NearestRadius::Hour));
    assert!(state.clock_cache_needs_clearance);
    assert!(is_stale(&state));
    state.on_event_clock(Event::Other, on(NearestRadius::Hour));
    assert!(is_stale(&state));
    state.on_event_clock(Event::Other, None);
    assert!(!state.clock_cache_needs_clearance);
    assert!(is_stale(&state));
    state.on_event_clock(Event::Other, None);
    assert!(!is_stale(&state));
}

#[test]
fn a_press_on_an_arrow_spins() {
    let mut state = State::with_time(at(9, 30, 15));
    let hit = DigitalHit { hour: UP, minute: OFF, second: OFF };
    assert_eq!(state.on_event_digital_clock(Event::Pressed, hit), Status::Captured);
    assert_eq!(state.time, at(10, 30, 15));
    assert_eq!(state.focus, Focus::DigitalHour);
    let hit = DigitalHit { hour: OFF, minute: DOWN, second: OFF };
    assert_eq!(state.on_event_digital_clock(Event::Pressed, hit), Status::Captured);
    assert_eq!(state.time, at(10, 29, 15));
    assert_eq!(state.focus, Focus::DigitalMinute);
}

#[test]
fn a_press_beside_the_arrows_only_focuses() {
    let mut state = State::with_time(at(9, 30, 15));
    let _ = is_stale(&state);
    let hit = DigitalHit { hour: OFF, minute: IN, second: OFF };
    assert_eq!(state.on_event_digital_clock(Event::Pressed, hit), Status::Ignored);
    assert_eq!(state.time, at(9, 30, 15));
    assert_eq!(state.focus, Focus::DigitalMinute);
    assert!(!is_stale(&state));
}

#[test]
fn the_seconds_spin_only_while_shown() {
    let hit = DigitalHit { hour: OFF, minute: OFF, second: UP };
    let mut state = State::with_time(at(9, 30, 15));
    assert_eq!(state.on_event_digital_clock(Event::Pressed, hit), Status::Ignored);
    assert_eq!(state.time, at(9, 30, 15));
    assert_eq!(state.focus, Focus::Nothing);
    state.show_seconds = true;
    assert_eq!(state.on_event_digital_clock(Event::Pressed, hit), Status::Captured);
    assert_eq!(state.time, at(9, 30, 16));
    assert_eq!(state.focus, Focus::DigitalSecond);
}

#[test]
fn only_a_press_spins() {
    let hit = DigitalHit { hour: UP, minute: UP, second: UP };
    let mut state = State::with_time(at(9, 30, 15));
    state.show_seconds = true;
    let _ = is_stale(&state);
    for event in [Event::Released, Event::Other, Event::KeyPressed(KeyCode::Up)] {
        assert_eq!(state.on_event_digital_clock(event, hit), Status::Ignored);
        assert_eq!(state.time, at(9, 30, 15));
        assert_eq!(state.focus, Focus::Nothing);
        assert!(!is_stale(&state));
    }
}

#[test]
fn up_and_down_at_once_spin_forth_and_back() {
    let both = SpinnerHit { inside: true, up: true, down: true };
    let mut state = State::with_time(at(23, 30, 15));
    let hit = DigitalHit { hour: both, minute: OFF, second: OFF };
    assert_eq!(state.on_event_digital_clock(Event::Pressed, hit), Status::Captured);
    assert_eq!(state.time, at(23, 30, 15));
}

#[test]
fn overlapping_spinners_are_spun_from_left_to_right() {
    let mut state = State::with_time(at(9, 30, 15));
    state.show_seconds = true;
    let _ = is_stale(&state);
    let hit = DigitalHit { hour: UP, minute: IN, second: OFF };
    assert_eq!(state.on_event_digital_clock(Event::Pressed, hit), Status::Ignored);
    assert_eq!(state.time, at(10, 30, 15));
    assert_eq!(state.focus, Focus::DigitalMinute);
    assert!(!is_stale(&state));
    let hit = DigitalHit { hour: UP, minute: UP, second: DOWN };
    assert_eq!(state.on_event_digital_clock(Event::Pressed, hit), Status::Captured);
    assert_eq!(state.time, at(11, 31, 14));
    assert_eq!(state.focus, Focus::DigitalSecond);
    assert!(is_stale(&state));
}

#[test]
fn a_captured_key_ends_the_handling() {
    let mut state = State::with_time(at(9, 30, 15));
    state.focus = Focus::DigitalHour;
    state.clock_dragged = ClockDragged::Minute;
    let hit = DigitalHit { hour: UP, minute: OFF, second: OFF };
    let handled = state.on_event(Event::KeyPressed(KeyCode::Up), on(NearestRadius::Hour), hit);
    assert_eq!(handled, Handled::Captured);
    assert_eq!(state.time, at(10, 30, 15));
    assert!(!state.clock_cache_needs_clearance);
}

#[test]
fn an_event_goes_from_the_keys_to_the_face_to_the_spinners() {
    let mut state = State::with_time(at(9, 30, 15));
    state.focus = Focus::Overlay;
    state.clock_dragged = ClockDragged::Minute;
    let handled = state.on_event(Event::KeyPressed(KeyCode::Tab), on(NearestRadius::Hour), NOWHERE);
    assert_eq!(handled, Handled::Forward(Status::Captured));
    assert_eq!(state.focus, Focus::DigitalHour);
    assert_eq!(state.time, at(9, 40, 15));

    let mut state = State::with_time(at(9, 30, 15));
    let hit = DigitalHit { hour: OFF, minute: UP, second: OFF };
    let handled = state.on_event(Event::Pressed, on(NearestRadius::Hour), hit);
    assert_eq!(handled, Handled::Forward(Status::Captured));
    assert_eq!(state.time, at(3, 31, 15));
    assert_eq!(state.focus, Focus::DigitalMinute);
    assert_eq!(state.clock_dragged, ClockDragged::Hour);
}

#[test]
fn an_event_that_nothing_takes_is_forwarded_as_ignored() {
    let mut state = State::with_time(at(9, 30, 15));
    state.focus = Focus::Overlay;
    for event in [
        Event::Other,
        Event::Pressed,
        Event::KeyPressed(KeyCode::Up),
        Event::KeyPressed(KeyCode::Tab),
        Event::ModifiersChanged(SHIFT),
    ] {
        assert_eq!(state.on_event(event, None, NOWHERE), Handled::Forward(Status::Ignored));
        assert_eq!(state.time, at(9, 30, 15));
    }
    assert_eq!(state.on_event(Event::Released, None, NOWHERE), Handled::Forward(Status::Captured));
}

#[test]
fn events_keep_the_settings() {
    for use_24h in [false, true] {
        for show_seconds in [false, true] {
            let mut state = State::with_time(at(9, 30, 15));
            state.use_24h = use_24h;
            state.show_seconds = show_seconds;
            state.focus = Focus::DigitalSecond;
            let hit = DigitalHit { hour: UP, minute: DOWN, second: UP };
            for event in [
                Event::Pressed,
                Event::Released,
                Event::KeyPressed(KeyCode::Tab),
                Event::KeyPressed(KeyCode::Left),
                Event::ModifiersChanged(SHIFT),
                Event::Other,
            ] {
                state.on_event(event, on(NearestRadius::Second), hit);
                assert_eq!(state.use_24h, use_24h);
                assert_eq!(state.show_seconds, show_seconds);
            }
        }
    }
}

#[test]
fn a_changed_time_is_captured_and_drawn() {
    let spinners = [OFF, IN, UP, DOWN];
    let rings = [
        None,
        on(NearestRadius::Nothing),
        on(NearestRadius::Period),
        on(NearestRadius::Hour),
        on(NearestRadius::Minute),
        on(NearestRadius::Second),
    ];
    let events = [
        Event::Pressed,
        Event::Released,
        Event::KeyPressed(KeyCode::Up),
        Event::KeyPressed(KeyCode::Tab),
        Event::Other,
    ];
    for spinner in 0..3 {
        for hit in spinners {
            let mut digital = NOWHERE;
            match spinner {
                0 => digital.hour = hit,
                1 => digital.minute = hit,
                _ => digital.second = hit,
            }
            for clock in rings {
                for event in events {
                    for focus in [Focus::Nothing, Focus::Overlay, Focus::DigitalMinute] {
                        let mut state = State::with_time(at(9, 30, 15));
                        state.show_seconds = true;
                        state.focus = focus;
                        let _ = is_stale(&state);
                        let handled = state.on_event(event, clock, digital);
                        if state.time != at(9, 30, 15) {
                            assert_ne!(handled, Handled::Forward(Status::Ignored));
                            assert!(is_stale(&state));
                        }
                    }
                }
            }
        }
    }
}

#[test]
fn picked_on_a_twelve_hour_clock() {
    for (hour, shown, period) in [
        (0, 12, Period::Am),
        (1, 1, Period::Am),
        (11, 11, Period::Am),
        (12, 12, Period::Pm),
        (13, 1, Period::Pm),
        (23, 11, Period::Pm),
    ] {
        let state = State::with_time(at(hour, 30, 15));
        assert_eq!(state.picked(), Time::Hm { hour: shown, minute: 30, period });
    }
}

#[test]
fn picked_on_a_24_hour_clock() {
    for hour in [0, 1, 11, 12, 13, 23] {
        let mut state = State::with_time(at(hour, 30, 15));
        state.use_24h = true;
        assert_eq!(state.picked(), Time::Hm { hour, minute: 30, period: Period::H24 });
    }
}

#[test]
fn picked_with_seconds() {
    let mut state = State::with_time(at(15, 30, 45));
    state.show_seconds = true;
    assert_eq!(state.picked(), Time::Hms { hour: 3, minute: 30, second: 45, period: Period::Pm });
    state.use_24h = true;
    assert_eq!(state.picked(), Time::Hms { hour: 15, minute: 30, second: 45, period: Period::H24 });
}

#[test]
fn the_buttons_end_the_handling() {
    let state = State::with_time(at(15, 30, 45));
    assert_eq!(
        state.on_buttons(Status::Ignored, Status::Ignored, Status::Ignored, false),
        (Status::Ignored, None)
    );
    assert_eq!(
        state.on_buttons(Status::Ignored, Status::Captured, Status::Ignored, false),
        (Status::Captured, None)
    );
    assert_eq!(
        state.on_buttons(Status::Captured, Status::Ignored, Status::Ignored, false),
        (Status::Captured, None)
    );
    assert_eq!(
        state.on_buttons(Status::Ignored, Status::Ignored, Status::Captured, true),
        (Status::Captured, Some(Time::Hm { hour: 3, minute: 30, period: Period::Pm }))
    );
    assert_eq!(
        state.on_buttons(Status::Ignored, Status::Ignored, Status::Ignored, true),
        (Status::Ignored, Some(Time::Hm { hour: 3, minute: 30, period: Period::Pm }))
    );
}
