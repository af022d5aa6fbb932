use stopwatch::listener::{Flags, Key, Listener};
use stopwatch::session::{run_session, Event, Session};
use stopwatch::timer::{TimerAction, TimerError, TimerState};

fn key(c: char) -> Event {
    Event::Key(Key::Char(c))
}

fn play(start: i64, events: &[Event]) -> Session {
    let mut s = Session::new(start);
    for e in events {
        s.handle(*e).unwrap();
    }
    s
}

#[test]
fn a_session_opens_with_both_units_running() {
    let s = Session::new(7);
    assert_eq!(
        s,
        Session {
            listener: Listener { flags: Flags { pause: false, quit: false }, listening: true },
            timer: TimerState { start_time: 7, pause_started_at: None, elapsed: 0 },
            timing: true,
        }
    );
    assert_eq!(s.result(), None);
}

#[test]
fn three_seconds_then_a_pause_of_five_then_two_more() {
    let events = [
        Event::Wake(1_000),
        Event::Wake(2_000),
        Event::Wake(3_000),
        key('p'),
        Event::Wake(4_000),
        Event::Wake(5_000),
        Event::Wake(6_000),
        Event::Wake(7_000),
        Event::Wake(8_000),
        key('p'),
        Event::Wake(9_000),
        Event::Wake(10_000),
        key('q'),
        Event::Wake(11_000),
    ];
    assert_eq!(run_session(0, &events), Ok(Some(String::from("00:00:05"))));
}

#[test]
fn quit_before_the_first_tick() {
    assert_eq!(run_session(0, &[key('q')]), Ok(Some(String::from("00:00:00"))));
    assert_eq!(
        run_session(0, &[key('q'), Event::Wake(1_000)]),
        Ok(Some(String::from("00:00:00")))
    );
    let s = play(0, &[key('q'), Event::Wake(1_000)]);
    assert!(!s.listener.listening);
    assert!(!s.timing);
}

#[test]
fn sixty_five_seconds_then_quit() {
    let mut events: Vec<Event> = Vec::new();
    for i in 1..=65 {
        events.push(Event::Wake(1_000 * i));
    }
    events.push(key('q'));
    events.push(Event::Wake(66_000));
    assert_eq!(run_session(0, &events), Ok(Some(String::from("00:01:05"))));
}

#[test]
fn nothing_is_reported_before_the_quit_key() {
    let events = [Event::Wake(1_000), key('p'), Event::Wake(2_000), key('x')];
    assert_eq!(run_session(0, &events), Ok(None));
    assert_eq!(run_session(0, &[]), Ok(None));
}

#[test]
fn a_wake_up_reports_what_the_timer_did() {
    let mut s = Session::new(0);
    assert_eq!(s.handle(Event::Wake(1_000)), Ok(Some(TimerAction::Render)));
    assert_eq!(s.handle(key('p')), Ok(None));
    assert_eq!(s.handle(Event::Wake(2_000)), Ok(Some(TimerAction::Hold)));
    assert_eq!(s.handle(key('q')), Ok(None));
    assert!(s.timing);
    assert_eq!(s.handle(Event::Wake(3_000)), Ok(Some(TimerAction::Finish)));
    assert!(!s.timing);
    assert_eq!(s.handle(Event::Wake(4_000)), Ok(None));
    assert_eq!(s.result(), Some(String::from("00:00:01")));
}

#[test]
fn the_quit_key_ends_both_units() {
    let mut s = play(0, &[Event::Wake(1_000), Event::Wake(2_000)]);
    s.handle(key('q')).unwrap();
    assert!(!s.listener.listening);
    assert!(s.listener.flags.quit);
    let at_quit = s;
    for e in [key('p'), Event::Wake(3_000), key('q'), Event::Wake(4_000), key('p')] {
        s.handle(e).unwrap();
        assert_eq!(s.listener, at_quit.listener);
        assert_eq!(s.timer, at_quit.timer);
        assert_eq!(s.result(), Some(String::from("00:00:02")));
    }
    assert!(!s.timing);
}

#[test]
fn the_display_is_frozen_while_paused() {
    let mut s = play(0, &[Event::Wake(1_000), key('p')]);
    let shown = s.timer.elapsed;
    let frozen =
        [Event::Wake(2_000), key('x'), Event::Wake(3_000), Event::Key(Key::Other), Event::Wake(50_000)];
    for e in frozen {
        let did = s.handle(e).unwrap();
        assert!(did != Some(TimerAction::Render));
        assert_eq!(s.timer.elapsed, shown);
    }
    assert_eq!(s.handle(key('p')), Ok(None));
    // the pause was first seen at 2 s, and that is where the display resumes
    assert_eq!(s.handle(Event::Wake(51_000)), Ok(Some(TimerAction::Render)));
    assert_eq!(s.timer.elapsed, 2_000);
    assert_eq!(s.timer.start_time, 49_000);
}

#[test]
fn toggles_in_pairs_leave_the_session_alone() {
    let before = play(0, &[Event::Wake(1_000), Event::Wake(2_000)]);
    let mut s = before;
    for e in [key('p'), key('x'), key('p'), key('p'), Event::Key(Key::Other), key('p')] {
        s.handle(e).unwrap();
    }
    assert_eq!(s, before);
    s.handle(Event::Wake(3_000)).unwrap();
    assert_eq!(s.timer, TimerState { start_time: 0, pause_started_at: None, elapsed: 3_000 });
}

#[test]
fn a_toggle_pair_between_two_ticks_costs_nothing() {
    let events = [Event::Wake(1_000), key('p'), key('p'), Event::Wake(2_000), key('q')];
    assert_eq!(run_session(0, &events), Ok(Some(String::from("00:00:02"))));
}

#[test]
fn a_session_never_shows_less_than_before() {
    let events = [
        Event::Wake(500),
        key('p'),
        Event::Wake(1_500),
        key('p'),
        key('p'),
        Event::Wake(2_500),
        key('p'),
        Event::Wake(2_500),
        Event::Wake(7_000),
        key('q'),
        Event::Wake(8_000),
    ];
    let whole = play(0, &events).timer.elapsed;
    let mut last = 0;
    for k in 0..=events.len() {
        let part = play(0, &events[..k]).timer.elapsed;
        assert!(last <= part && part <= whole);
        last = part;
    }
    assert_eq!(whole, 7_000 - 1_000);
}

#[test]
fn a_session_that_overflows_is_refused() {
    let events = [Event::Wake(i64::MAX), key('q')];
    assert_eq!(run_session(-1, &events), Err(TimerError::OutOfRange));
    let mut s = Session::new(-1);
    let before = s;
    assert_eq!(s.handle(Event::Wake(i64::MAX)), Err(TimerError::OutOfRange));
    assert_eq!(s, before);
}
