use cube_timer::{update, App, Dir, Scramble, Screen, State, Tone, SCRAMBLE_MOVES};

fn axis(d: Dir) -> u8 {
    match d {
        Dir::Front | Dir::Back => 0,
        Dir::Left | Dir::Right => 1,
        Dir::Up | Dir::Down => 2,
    }
}

fn assert_valid(s: &Scramble) {
    let moves = s.moves();
    assert_eq!(moves.len(), SCRAMBLE_MOVES);
    assert_eq!(moves.len(), 30);
    for pair in moves.windows(2) {
        assert_ne!(axis(pair[0].dir()), axis(pair[1].dir()), "{moves:?}");
    }
}

#[test]
fn generated_scrambles_have_thirty_moves_and_alternate_axes() {
    for _ in 0..500 {
        assert_valid(&Scramble::random());
    }
    assert_valid(&Scramble::default());
}

#[test]
fn default_state_is_idle_with_valid_scramble() {
    match State::default() {
        State::Idle(s) => assert_valid(&s),
        other => panic!("{other:?}"),
    }
    let app = App::default();
    assert!(!app.color_bg);
    assert!(app.state.is_idle());
}

#[test]
fn is_idle_only_for_idle() {
    assert!(State::Idle(Scramble::random()).is_idle());
    assert!(!State::Inspecting(0).is_idle());
    assert!(!State::Solving(0).is_idle());
    assert!(!State::Done(0).is_idle());
}

#[test]
fn begin_goes_round_the_cycle() {
    let mut s = State::Idle(Scramble::random());
    s.next(100);
    assert_eq!(s, State::Inspecting(100));
    s.next(2_100);
    assert_eq!(s, State::Solving(2_100));
    s.next(9_350);
    assert_eq!(s, State::Done(7_250));
    s.next(12_000);
    match s {
        State::Idle(sc) => assert_valid(&sc),
        other => panic!("{other:?}"),
    }
}

#[test]
fn done_time_is_zero_when_clock_reads_earlier() {
    let mut s = State::Solving(500);
    s.next(400);
    assert_eq!(s, State::Done(0));
}

#[test]
fn reshuffle_replaces_idle_scramble() {
    let first = Scramble::random();
    let mut s = State::Idle(first);
    let mut changed = false;
    for _ in 0..5 {
        s.reshuffle();
        match s {
            State::Idle(sc) => {
                assert_valid(&sc);
                changed |= sc != first;
            }
            other => panic!("{other:?}"),
        }
    }
    assert!(changed);
}

#[test]
fn reshuffle_does_nothing_outside_idle() {
    for st in [State::Inspecting(5), State::Solving(6), State::Done(7)] {
        let mut s = st;
        s.reshuffle();
        assert_eq!(s, st);
    }
}

#[test]
fn inspection_ends_at_fifteen_seconds() {
    let mut s = State::Inspecting(1_000);
    s.tick(1_000 + 14_999);
    assert_eq!(s, State::Inspecting(1_000));
    s.tick(1_000 + 15_000);
    assert_eq!(s, State::Solving(16_000));
}

#[test]
fn inspection_ends_after_fifteen_seconds() {
    let mut s = State::Inspecting(0);
    s.tick(20_000);
    assert_eq!(s, State::Solving(20_000));
}

#[test]
fn tick_leaves_other_states_alone() {
    for st in [State::Solving(0), State::Done(3), State::Inspecting(u64::MAX)] {
        let mut s = st;
        s.tick(100_000);
        assert_eq!(s, st);
    }
    let idle = State::Idle(Scramble::random());
    let mut s = idle;
    s.tick(100_000);
    assert_eq!(s, idle);
}

#[test]
fn update_checks_the_inspection_time() {
    let mut app = App { color_bg: true, state: State::Inspecting(0) };
    update(&mut app, 14_999);
    assert_eq!(app.state, State::Inspecting(0));
    update(&mut app, 15_000);
    assert_eq!(app.state, State::Solving(15_000));
    assert!(app.color_bg);
}

#[test]
fn full_round_times_the_solve_from_its_own_start() {
    let first = Scramble::random();
    let mut app = App { color_bg: false, state: State::Idle(first) };
    assert!(app.handle_key(' ', 1_000));
    assert_eq!(app.state, State::Inspecting(1_000));
    update(&mut app, 17_000);
    assert_eq!(app.state, State::Solving(17_000));
    assert!(app.handle_key(' ', 29_345));
    assert_eq!(app.state, State::Done(12_345));
    assert!(app.handle_key(' ', 30_000));
    match app.state {
        State::Idle(sc) => {
            assert_valid(&sc);
            assert_ne!(sc, first);
        }
        other => panic!("{other:?}"),
    }
}

#[test]
fn keys_quit_toggle_and_reshuffle() {
    let mut app = App { color_bg: false, state: State::Solving(10) };
    assert!(!app.handle_key('q', 50));
    assert_eq!(app.state, State::Solving(10));
    assert!(app.handle_key('c', 50));
    assert!(app.color_bg);
    assert!(app.handle_key('r', 50));
    assert_eq!(app.state, State::Solving(10));
    assert!(app.handle_key('x', 50));
    assert_eq!(app.state, State::Solving(10));
    assert!(app.color_bg);
    let first = Scramble::random();
    app.state = State::Idle(first);
    assert!(app.handle_key('r', 60));
    assert!(app.state.is_idle());
}

#[test]
fn screens_show_the_right_time() {
    assert_eq!(
        State::Idle(Scramble::random()).screen(5),
        Screen { tone: Tone::Waiting, millis: None }
    );
    assert_eq!(
        State::Inspecting(1_000).screen(3_500),
        Screen { tone: Tone::Inspecting, millis: Some(12_500) }
    );
    assert_eq!(
        State::Inspecting(1_000).screen(13_000),
        Screen { tone: Tone::Inspecting, millis: Some(3_000) }
    );
    assert_eq!(
        State::Inspecting(1_000).screen(13_001),
        Screen { tone: Tone::InspectingLate, millis: Some(2_999) }
    );
    assert_eq!(
        State::Inspecting(1_000).screen(40_000),
        Screen { tone: Tone::InspectingLate, millis: Some(0) }
    );
    assert_eq!(
        State::Solving(2_000).screen(4_321),
        Screen { tone: Tone::Solving, millis: Some(2_321) }
    );
    assert_eq!(State::Done(9_876).screen(0), Screen { tone: Tone::Done, millis: Some(9_876) });
}

#[test]
fn labels() {
    assert_eq!(Tone::Waiting.label(), "Press space to start");
    assert_eq!(Tone::Inspecting.label(), "Inspecting");
    assert_eq!(Tone::InspectingLate.label(), "Inspecting");
    assert_eq!(Tone::Solving.label(), "Solving");
    assert_eq!(Tone::Done.label(), "Done");
}

#[test]
fn reshuffle_with_shows_the_given_scramble_while_idle() {
    let first = Scramble::random();
    let fresh = Scramble::random();
    let mut s = State::Idle(first);
    s.reshuffle_with(fresh);
    assert_eq!(s, State::Idle(fresh));
    let mut t = State::Solving(3);
    t.reshuffle_with(fresh);
    assert_eq!(t, State::Solving(3));
}

#[test]
fn next_with_follows_the_cycle_and_shows_the_given_scramble() {
    let fresh = Scramble::random();
    let mut s = State::Idle(Scramble::random());
    s.next_with(10, fresh);
    assert_eq!(s, State::Inspecting(10));
    s.next_with(20, fresh);
    assert_eq!(s, State::Solving(20));
    s.next_with(1_020, fresh);
    assert_eq!(s, State::Done(1_000));
    s.next_with(2_000, fresh);
    assert_eq!(s, State::Idle(fresh));
}
