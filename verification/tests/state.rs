use pomod::TimerState;
use pomod::Span;
use pomod::ALERT_SUMMARY;
use pomod::BREAK_CYCLE;
use pomod::LONG_BREAK_TIME;
use pomod::POMODORO_TIME;
use pomod::SHORT_BREAK_TIME;

#[test]
fn lengths_of_the_phases() {
    assert_eq!(POMODORO_TIME, 1_500);
    assert_eq!(SHORT_BREAK_TIME, 300);
    assert_eq!(LONG_BREAK_TIME, 1_800);
    assert_eq!(BREAK_CYCLE, 4);
    assert_eq!(TimerState::Pomodoro.time(), Span::from_secs(1_500));
    assert_eq!(TimerState::ShortBreak.time(), Span::from_secs(300));
    assert_eq!(TimerState::LongBreak.time(), Span::from_secs(1_800));
}

#[test]
fn idle_shows_the_length_of_a_work_session() {
    assert_eq!(TimerState::Idle.time(), TimerState::Pomodoro.time());
    assert_eq!(TimerState::Idle.time(), Span::from_secs(1_500));
}

#[test]
fn glyphs_of_the_phases() {
    assert_eq!(TimerState::Idle.pomicon(), "\u{e002}");
    assert_eq!(TimerState::Pomodoro.pomicon(), "\u{e003}");
    assert_eq!(TimerState::ShortBreak.pomicon(), "\u{e005}");
    assert_eq!(TimerState::LongBreak.pomicon(), "\u{e006}");
}

#[test]
fn idle_advances_to_work() {
    let mut state = TimerState::Idle;
    let mut break_counter: u8 = 0;
    state.next(&mut break_counter);
    assert_eq!(state, TimerState::Pomodoro);
    assert_eq!(break_counter, 0);
}

#[test]
fn work_advances_to_a_short_break_three_times() {
    for done in 0u8..3 {
        let mut state = TimerState::Pomodoro;
        let mut break_counter: u8 = done;
        state.next(&mut break_counter);
        assert_eq!(state, TimerState::ShortBreak);
        assert_eq!(break_counter, done + 1);
    }
}

#[test]
fn fourth_session_earns_the_long_break() {
    let mut state = TimerState::Pomodoro;
    let mut break_counter: u8 = 3;
    state.next(&mut break_counter);
    assert_eq!(state, TimerState::LongBreak);
    assert_eq!(break_counter, 0);
}

#[test]
fn breaks_advance_to_work_and_leave_the_count() {
    for done in 0u8..4 {
        let mut state = TimerState::ShortBreak;
        let mut break_counter: u8 = done;
        state.next(&mut break_counter);
        assert_eq!(state, TimerState::Pomodoro);
        assert_eq!(break_counter, done);

        let mut state = TimerState::LongBreak;
        let mut break_counter: u8 = done;
        state.next(&mut break_counter);
        assert_eq!(state, TimerState::Pomodoro);
        assert_eq!(break_counter, done);
    }
}

#[test]
fn advances_walk_the_cycle_of_eight() {
    let expected = vec![
        (TimerState::Pomodoro, 0u8),
        (TimerState::ShortBreak, 1),
        (TimerState::Pomodoro, 1),
        (TimerState::ShortBreak, 2),
        (TimerState::Pomodoro, 2),
        (TimerState::ShortBreak, 3),
        (TimerState::Pomodoro, 3),
        (TimerState::LongBreak, 0),
        (TimerState::Pomodoro, 0),
        (TimerState::ShortBreak, 1),
    ];
    let mut state = TimerState::Idle;
    let mut break_counter: u8 = 0;
    for step in expected {
        state.next(&mut break_counter);
        assert_eq!((state, break_counter), step);
    }
}

#[test]
fn cycle_comes_round_every_eight_advances() {
    let mut state = TimerState::Idle;
    let mut break_counter: u8 = 0;
    let mut seen: Vec<(TimerState, u8)> = Vec::new();
    for _ in 0u8..40 {
        state.next(&mut break_counter);
        seen.push((state, break_counter));
    }
    for at in 0usize..32 {
        assert_eq!(seen[at], seen[at + 8]);
    }
    let long_breaks: usize = seen.iter().filter(|step| step.0 == TimerState::LongBreak).count();
    assert_eq!(long_breaks, 5);
}

#[test]
fn no_advance_gives_idle() {
    let all = vec![
        TimerState::Idle,
        TimerState::Pomodoro,
        TimerState::ShortBreak,
        TimerState::LongBreak,
    ];
    for from in all {
        for done in 0u8..=255 {
            let mut state = from;
            let mut break_counter: u8 = done;
            state.next(&mut break_counter);
            assert_ne!(state, TimerState::Idle);
        }
    }
}

#[test]
fn count_out_of_range_comes_back_into_the_round() {
    let mut state = TimerState::Pomodoro;
    let mut break_counter: u8 = 255;
    state.next(&mut break_counter);
    assert_eq!(state, TimerState::LongBreak);
    assert_eq!(break_counter, 0);

    let mut state = TimerState::Pomodoro;
    let mut break_counter: u8 = 6;
    state.next(&mut break_counter);
    assert_eq!(state, TimerState::LongBreak);
    assert_eq!(break_counter, 3);
}

#[test]
fn announcements_name_the_phase() {
    assert_eq!(TimerState::Pomodoro.announcement(), Some(String::from("next up: pomodoro")));
    assert_eq!(TimerState::ShortBreak.announcement(), Some(String::from("next up: short break")));
    assert_eq!(TimerState::LongBreak.announcement(), Some(String::from("next up: long break")));
}

#[test]
fn idle_is_never_announced() {
    assert_eq!(TimerState::Idle.announcement(), None);
}

#[test]
fn alert_headline() {
    assert_eq!(ALERT_SUMMARY, "pomod: time is up");
}
