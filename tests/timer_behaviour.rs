use stopwatch::notify::Subscribers;
use stopwatch::stopwatch::Stopwatch;
use stopwatch::timer::{Command, TickEvent, TimerState};

#[test]
fn new_timer_is_paused_at_zero() {
    let t = TimerState::new();
    assert_eq!(t.seconds(), 0);
    assert!(!t.is_running());
}

#[test]
fn advance_while_paused_changes_nothing() {
    let mut t = TimerState::new();
    assert_eq!(t.advance(), None);
    assert_eq!(t, TimerState::new());
    t.toggle_running();
    t.advance();
    t.toggle_running();
    let before = t;
    assert_eq!(t.advance(), None);
    assert_eq!(t, before);
    assert_eq!(t.seconds(), 1);
}

#[test]
fn advance_while_running_adds_one_and_reports_it() {
    let mut t = TimerState::new();
    t.toggle_running();
    for expected in 1..=5u64 {
        assert_eq!(t.advance(), Some(TickEvent { seconds: expected }));
        assert_eq!(t.seconds(), expected);
        assert!(t.is_running());
    }
}

#[test]
fn reset_from_any_state() {
    let mut t = TimerState::new();
    assert_eq!(t.reset(), TickEvent { seconds: 0 });
    assert_eq!(t, TimerState::new());
    t.toggle_running();
    t.advance();
    t.advance();
    t.advance();
    assert_eq!(t.reset(), TickEvent { seconds: 0 });
    assert_eq!(t.seconds(), 0);
    assert!(!t.is_running());
    t.toggle_running();
    t.advance();
    t.toggle_running();
    t.reset();
    assert_eq!(t, TimerState::new());
}

#[test]
fn toggle_twice_restores_state() {
    let mut t = TimerState::new();
    t.toggle_running();
    t.advance();
    t.advance();
    for _ in 0..2 {
        let before = t;
        assert_eq!(t.toggle_running(), TickEvent { seconds: 2 });
        assert_ne!(t.is_running(), before.is_running());
        assert_eq!(t.toggle_running(), TickEvent { seconds: 2 });
        assert_eq!(t, before);
        t.toggle_running();
    }
}

#[test]
fn toggle_reports_unchanged_count() {
    let mut t = TimerState::new();
    t.toggle_running();
    t.advance();
    assert_eq!(t.toggle_running(), TickEvent { seconds: 1 });
    assert_eq!(t.seconds(), 1);
    assert!(!t.is_running());
}

#[test]
fn play_tick_pause_tick_reset_scenario() {
    let mut w = Stopwatch::new();
    let view = w.subscribe();
    assert_eq!((w.seconds(), w.is_running()), (0, false));

    w.toggle_running();
    assert_eq!((w.seconds(), w.is_running()), (0, true));
    assert_eq!(w.take_events(view), vec![TickEvent { seconds: 0 }]);

    assert_eq!(w.tick(), Some(TickEvent { seconds: 1 }));
    assert_eq!((w.seconds(), w.is_running()), (1, true));
    assert_eq!(w.take_events(view), vec![TickEvent { seconds: 1 }]);

    w.toggle_running();
    assert_eq!((w.seconds(), w.is_running()), (1, false));
    assert_eq!(w.take_events(view), vec![TickEvent { seconds: 1 }]);

    assert_eq!(w.tick(), None);
    assert_eq!((w.seconds(), w.is_running()), (1, false));
    assert_eq!(w.take_events(view), vec![]);

    assert_eq!(w.reset(), TickEvent { seconds: 0 });
    assert_eq!((w.seconds(), w.is_running()), (0, false));
    assert_eq!(w.take_events(view), vec![TickEvent { seconds: 0 }]);
}

#[test]
fn count_moves_only_by_one_or_to_zero() {
    let commands = [
        Command::Advance,
        Command::Toggle,
        Command::Advance,
        Command::Advance,
        Command::Reset,
        Command::Advance,
        Command::Toggle,
        Command::Toggle,
        Command::Toggle,
        Command::Advance,
        Command::Toggle,
        Command::Advance,
        Command::Reset,
        Command::Reset,
        Command::Toggle,
        Command::Advance,
    ];
    let mut t = TimerState::new();
    for c in commands {
        let before = t;
        let e = t.apply(c);
        match c {
            Command::Advance if before.is_running() => {
                assert_eq!(t.seconds(), before.seconds() + 1);
                assert_eq!(e, Some(TickEvent { seconds: t.seconds() }));
            }
            Command::Advance => {
                assert_eq!(t, before);
                assert_eq!(e, None);
            }
            Command::Reset => {
                assert_eq!(t.seconds(), 0);
                assert_eq!(e, Some(TickEvent { seconds: 0 }));
            }
            Command::Toggle => {
                assert_eq!(t.seconds(), before.seconds());
                assert_eq!(e, Some(TickEvent { seconds: t.seconds() }));
            }
        }
    }
    assert_eq!(t.seconds(), 1);
    assert!(t.is_running());
}

#[test]
fn handle_notifies_like_the_named_commands() {
    let mut w = Stopwatch::new();
    let a = w.subscribe();
    assert_eq!(w.handle(Command::Advance), None);
    assert_eq!(w.handle(Command::Toggle), Some(TickEvent { seconds: 0 }));
    assert_eq!(w.handle(Command::Advance), Some(TickEvent { seconds: 1 }));
    assert_eq!(w.handle(Command::Advance), Some(TickEvent { seconds: 2 }));
    assert_eq!(w.handle(Command::Reset), Some(TickEvent { seconds: 0 }));
    assert_eq!(w.handle(Command::Advance), None);
    assert_eq!(
        w.take_events(a),
        vec![
            TickEvent { seconds: 0 },
            TickEvent { seconds: 1 },
            TickEvent { seconds: 2 },
            TickEvent { seconds: 0 },
        ]
    );
}

#[test]
fn tick_without_subscribers_is_no_error() {
    let mut w = Stopwatch::new();
    w.toggle_running();
    assert_eq!(w.tick(), Some(TickEvent { seconds: 1 }));
    assert_eq!(w.seconds(), 1);
}

#[test]
fn earlier_subscribers_receive_later_ones_do_not() {
    let mut w = Stopwatch::new();
    let first = w.subscribe();
    let second = w.subscribe();
    w.toggle_running();
    w.tick();
    let late = w.subscribe();
    w.tick();
    assert_eq!(
        w.take_events(first),
        vec![TickEvent { seconds: 0 }, TickEvent { seconds: 1 }, TickEvent { seconds: 2 }]
    );
    assert_eq!(
        w.take_events(second),
        vec![TickEvent { seconds: 0 }, TickEvent { seconds: 1 }, TickEvent { seconds: 2 }]
    );
    assert_eq!(w.take_events(late), vec![TickEvent { seconds: 2 }]);
    assert_eq!(w.take_events(first), vec![]);
}

#[test]
fn subscriber_list_delivers_in_order() {
    let mut s = Subscribers::new();
    assert_eq!(s.len(), 0);
    let a = s.subscribe();
    assert_eq!(a, 0);
    s.emit(TickEvent { seconds: 7 });
    let b = s.subscribe();
    assert_eq!(b, 1);
    assert_eq!(s.len(), 2);
    s.emit(TickEvent { seconds: 8 });
    s.emit(TickEvent { seconds: 9 });
    assert_eq!(
        s.take(a),
        vec![TickEvent { seconds: 7 }, TickEvent { seconds: 8 }, TickEvent { seconds: 9 }]
    );
    assert_eq!(s.take(b), vec![TickEvent { seconds: 8 }, TickEvent { seconds: 9 }]);
    assert_eq!(s.take(a), vec![]);
}
