use stopwatch::listener::{
    classify, keypress_listen, Flags, Key, KeyCommand, Listener, PAUSE_KEY, POLL_MILLIS, QUIT_KEY,
};

#[test]
fn the_keys_and_the_poll_interval() {
    assert_eq!(QUIT_KEY, 'q');
    assert_eq!(PAUSE_KEY, 'p');
    assert_eq!(POLL_MILLIS, 100);
}

#[test]
fn q_quits_and_p_toggles() {
    assert_eq!(classify(Key::Char('q')), KeyCommand::Quit);
    assert_eq!(classify(Key::Char('p')), KeyCommand::TogglePause);
}

#[test]
fn every_other_key_is_ignored() {
    assert_eq!(classify(Key::Char('Q')), KeyCommand::Ignore);
    assert_eq!(classify(Key::Char('P')), KeyCommand::Ignore);
    assert_eq!(classify(Key::Char('x')), KeyCommand::Ignore);
    assert_eq!(classify(Key::Char(' ')), KeyCommand::Ignore);
    assert_eq!(classify(Key::Char('\n')), KeyCommand::Ignore);
    assert_eq!(classify(Key::Other), KeyCommand::Ignore);
}

#[test]
fn flags_start_clear() {
    assert_eq!(Flags::new(), Flags { pause: false, quit: false });
}

#[test]
fn commands_act_on_one_flag_each() {
    let f = Flags { pause: false, quit: false };
    assert_eq!(f.apply(KeyCommand::TogglePause), Flags { pause: true, quit: false });
    assert_eq!(f.apply(KeyCommand::TogglePause).apply(KeyCommand::TogglePause), f);
    assert_eq!(f.apply(KeyCommand::Quit), Flags { pause: false, quit: true });
    assert_eq!(f.apply(KeyCommand::Ignore), f);
    let g = Flags { pause: true, quit: true };
    assert_eq!(g.apply(KeyCommand::Quit), g);
    assert_eq!(g.apply(KeyCommand::TogglePause), Flags { pause: false, quit: true });
}

#[test]
fn the_quit_key_sets_the_flag_and_ends_the_listening() {
    let mut l = Listener::new(Flags::new());
    assert!(l.listening);
    assert_eq!(l.hear(Key::Char('q')), KeyCommand::Quit);
    assert_eq!(l, Listener { flags: Flags { pause: false, quit: true }, listening: false });
}

#[test]
fn a_listener_that_has_ended_hears_nothing() {
    let mut l = Listener::new(Flags::new());
    l.hear(Key::Char('q'));
    let ended = l;
    assert_eq!(l.hear(Key::Char('p')), KeyCommand::Ignore);
    assert_eq!(l.hear(Key::Char('q')), KeyCommand::Ignore);
    assert_eq!(l, ended);
}

#[test]
fn the_pause_key_flips_the_flag_and_goes_on() {
    let mut l = Listener::new(Flags::new());
    assert_eq!(l.hear(Key::Char('p')), KeyCommand::TogglePause);
    assert_eq!(l, Listener { flags: Flags { pause: true, quit: false }, listening: true });
    assert_eq!(l.hear(Key::Other), KeyCommand::Ignore);
    assert_eq!(l.hear(Key::Char('p')), KeyCommand::TogglePause);
    assert_eq!(l, Listener { flags: Flags { pause: false, quit: false }, listening: true });
}

#[test]
fn listening_over_no_keys_changes_nothing() {
    let flags = Flags { pause: true, quit: false };
    assert_eq!(keypress_listen(flags, &[]), Listener { flags, listening: true });
}

#[test]
fn listening_stops_at_the_first_quit_key() {
    let keys = [Key::Char('p'), Key::Char('x'), Key::Char('q'), Key::Char('p'), Key::Char('p')];
    assert_eq!(
        keypress_listen(Flags::new(), &keys),
        Listener { flags: Flags { pause: true, quit: true }, listening: false }
    );
}

#[test]
fn an_even_number_of_toggles_leaves_the_flags_alone() {
    for start in [false, true] {
        let flags = Flags { pause: start, quit: false };
        let mut keys: Vec<Key> = Vec::new();
        for n in 0..7 {
            let after = keypress_listen(flags, &keys);
            assert!(after.listening);
            assert!(!after.flags.quit);
            assert_eq!(after.flags.pause, start != (n % 2 == 1));
            keys.push(Key::Char('p'));
            keys.push(Key::Other);
            keys.push(Key::Char('z'));
        }
    }
}
