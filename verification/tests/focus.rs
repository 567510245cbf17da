use iced_aw::focus::Focus;

const ALL: [Focus; 7] = [
    Focus::Nothing,
    Focus::Overlay,
    Focus::DigitalHour,
    Focus::DigitalMinute,
    Focus::DigitalSecond,
    Focus::Cancel,
    Focus::Submit,
];

#[test]
fn default_focus_is_nothing() {
    assert_eq!(Focus::default(), Focus::Nothing);
}

#[test]
fn next_without_seconds() {
    assert_eq!(Focus::Nothing.next(false), Focus::Overlay);
    assert_eq!(Focus::Overlay.next(false), Focus::DigitalHour);
    assert_eq!(Focus::DigitalHour.next(false), Focus::DigitalMinute);
    assert_eq!(Focus::DigitalMinute.next(false), Focus::Cancel);
    assert_eq!(Focus::DigitalSecond.next(false), Focus::Cancel);
    assert_eq!(Focus::Cancel.next(false), Focus::Submit);
    assert_eq!(Focus::Submit.next(false), Focus::Overlay);
}

#[test]
fn next_with_seconds() {
    assert_eq!(Focus::Nothing.next(true), Focus::Overlay);
    assert_eq!(Focus::Overlay.next(true), Focus::DigitalHour);
    assert_eq!(Focus::DigitalHour.next(true), Focus::DigitalMinute);
    assert_eq!(Focus::DigitalMinute.next(true), Focus::DigitalSecond);
    assert_eq!(Focus::DigitalSecond.next(true), Focus::Cancel);
    assert_eq!(Focus::Cancel.next(true), Focus::Submit);
    assert_eq!(Focus::Submit.next(true), Focus::Overlay);
}

#[test]
fn previous_without_seconds() {
    assert_eq!(Focus::Nothing.previous(false), Focus::Nothing);
    assert_eq!(Focus::Overlay.previous(false), Focus::Submit);
    assert_eq!(Focus::DigitalHour.previous(false), Focus::Overlay);
    assert_eq!(Focus::DigitalMinute.previous(false), Focus::DigitalHour);
    assert_eq!(Focus::DigitalSecond.previous(false), Focus::DigitalMinute);
    assert_eq!(Focus::Cancel.previous(false), Focus::DigitalMinute);
    assert_eq!(Focus::Submit.previous(false), Focus::Cancel);
}

#[test]
fn previous_with_seconds() {
    assert_eq!(Focus::Nothing.previous(true), Focus::Nothing);
    assert_eq!(Focus::Overlay.previous(true), Focus::Submit);
    assert_eq!(Focus::DigitalHour.previous(true), Focus::Overlay);
    assert_eq!(Focus::DigitalMinute.previous(true), Focus::DigitalHour);
    assert_eq!(Focus::DigitalSecond.previous(true), Focus::DigitalMinute);
    assert_eq!(Focus::Cancel.previous(true), Focus::DigitalSecond);
    assert_eq!(Focus::Submit.previous(true), Focus::Cancel);
}

#[test]
fn next_and_previous_undo_each_other_on_the_ring() {
    for show_seconds in [false, true] {
        for focus in ALL {
            if focus == Focus::Nothing || (focus == Focus::DigitalSecond && !show_seconds) {
                continue;
            }
            assert_eq!(focus.next(show_seconds).previous(show_seconds), focus);
            assert_eq!(focus.previous(show_seconds).next(show_seconds), focus);
        }
    }
}

#[test]
fn the_ring_has_five_or_six_stops() {
    for (show_seconds, stops) in [(false, 5), (true, 6)] {
        let mut focus = Focus::Overlay;
        let mut steps = 0;
        loop {
            focus = focus.next(show_seconds);
            steps += 1;
            if focus == Focus::Overlay {
                break;
            }
            assert_ne!(focus, Focus::Nothing);
        }
        assert_eq!(steps, stops);
    }
}

#[test]
fn a_hidden_seconds_spinner_is_left_for_the_ring() {
    assert_eq!(Focus::DigitalSecond.next(false).previous(false), Focus::DigitalMinute);
    assert_eq!(Focus::DigitalSecond.previous(false).next(false), Focus::Cancel);
}
