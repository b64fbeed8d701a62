//! The phases of the cycle and the rule that leads from one to the next.

use vstd::prelude::*;
use vstd::string::StringExecFns;
use crate::span::Span;
use crate::span::NANOS_PER_SEC;

verus! {

/// Seconds of one work session.
pub const POMODORO_TIME: u64 = 25 * 60;

/// Seconds of a short break.
pub const SHORT_BREAK_TIME: u64 = 5 * 60;

/// Seconds of a long break.
pub const LONG_BREAK_TIME: u64 = 30 * 60;

/// Work sessions in one round: the last of them earns the long break.
pub const BREAK_CYCLE: u8 = 4;

/// The headline of the alert that announces a new phase.
pub const ALERT_SUMMARY: &'static str = "pomod: time is up";

/// The phase a timer is in.
#[derive(Clone, Copy, Debug, PartialEq, Eq, Structural)]
pub enum TimerState {
    /// Before the first start.
    Idle,
    /// A work session.
    Pomodoro,
    /// The break after each of the first sessions of a round.
    ShortBreak,
    /// The break after the last session of a round.
    LongBreak,
}

impl TimerState {
    /// The length of the phase in seconds. The idle phase shows the length
    /// of the work session that the first start begins.
    pub open spec fn nominal_secs(self) -> nat {
        match self {
            TimerState::Idle | TimerState::Pomodoro => POMODORO_TIME as nat,
            TimerState::ShortBreak => SHORT_BREAK_TIME as nat,
            TimerState::LongBreak => LONG_BREAK_TIME as nat,
        }
    }

    /// The length of the phase in nanoseconds.
    pub open spec fn nominal(self) -> nat {
        self.nominal_secs() * (NANOS_PER_SEC as nat)
    }

    /// The one character that stands for the phase in the status line.
    pub open spec fn glyph(self) -> Seq<char> {
        match self {
            TimerState::Idle => seq!['\u{e002}'],
            TimerState::Pomodoro => seq!['\u{e003}'],
            TimerState::ShortBreak => seq!['\u{e005}'],
            TimerState::LongBreak => seq!['\u{e006}'],
        }
    }

    /// The name of the phase in words. The idle phase has none: it is
    /// never announced.
    pub open spec fn name(self) -> Option<Seq<char>> {
        match self {
            TimerState::Idle => None,
            TimerState::Pomodoro => Some("pomodoro"@),
            TimerState::ShortBreak => Some("short break"@),
            TimerState::LongBreak => Some("long break"@),
        }
    }

    /// The words that announce the phase as the next one: `next up: ` and
    /// the name of the phase.
    pub open spec fn announcement_text(self) -> Option<Seq<char>> {
        match self.name() {
            Some(name) => Some("next up: "@ + name),
            None => None,
        }
    }

    /// The phase that follows this one, where `break_counter` sessions of
    /// the round were finished before it: work follows idleness and every
    /// break; a short break follows each session but the last of a round,
    /// and a long break follows that one.
    pub open spec fn following(self, break_counter: u8) -> TimerState {
        match self {
            TimerState::Idle => TimerState::Pomodoro,
            TimerState::Pomodoro => if break_counter < BREAK_CYCLE - 1 {
                TimerState::ShortBreak
            } else {
                TimerState::LongBreak
            },
            TimerState::ShortBreak | TimerState::LongBreak => TimerState::Pomodoro,
        }
    }

    /// The count of finished sessions once this phase is over: the end of a
    /// session counts one up, round the cycle; nothing else counts.
    pub open spec fn counter_after(self, break_counter: u8) -> u8 {
        match self {
            TimerState::Pomodoro => ((break_counter + 1) % (BREAK_CYCLE as int)) as u8,
            _ => break_counter,
        }
    }

    /// The length of the phase.
    pub fn time(self) -> (length: Span)
        ensures
            length@ == self.nominal(),
    {
        let seconds: u64 = match self {
            TimerState::Idle | TimerState::Pomodoro => POMODORO_TIME,
            TimerState::ShortBreak => SHORT_BREAK_TIME,
            TimerState::LongBreak => LONG_BREAK_TIME,
        };
        Span::from_secs(seconds)
    }

    /// The glyph of the phase, as a string of that one character.
    pub fn pomicon(self) -> (icon: String)
        ensures
            icon@ == self.glyph(),
    {
        proof {
            reveal_strlit("\u{e002}");
            reveal_strlit("\u{e003}");
            reveal_strlit("\u{e005}");
            reveal_strlit("\u{e006}");
        }
        let icon = String::from_str(
            match self {
                TimerState::Idle => "\u{e002}",
                TimerState::Pomodoro => "\u{e003}",
                TimerState::ShortBreak => "\u{e005}",
                TimerState::LongBreak => "\u{e006}",
            },
        );
        icon
    }

    /// The words that announce the phase as the next one. There are none
    /// for the idle phase.
    pub fn announcement(self) -> (words: Option<String>)
        ensures
            words is None <==> self == TimerState::Idle,
            words matches Some(words) ==> self.announcement_text() == Some(words@),
    {
        let name: &'static str = match self {
            TimerState::Idle => {
                return None;
            },
            TimerState::Pomodoro => "pomodoro",
            TimerState::ShortBreak => "short break",
            TimerState::LongBreak => "long break",
        };
        let mut words = String::from_str("next up: ");
        words.append(name);
        Some(words)
    }

    /// Moves on to the phase that follows, and counts the session that
    /// ends, if one does. The new phase is never the idle one.
    pub fn next(&mut self, break_counter: &mut u8)
        ensures
            *final(self) == old(self).following(*old(break_counter)),
            *final(break_counter) == old(self).counter_after(*old(break_counter)),
            *final(self) != TimerState::Idle,
    {
        match *self {
            TimerState::Idle => {
                *self = TimerState::Pomodoro;
            },
            TimerState::Pomodoro => {
                if *break_counter < BREAK_CYCLE - 1 {
                    *self = TimerState::ShortBreak;
                } else {
                    *self = TimerState::LongBreak;
                }
                *break_counter = (*break_counter % BREAK_CYCLE + 1) % BREAK_CYCLE;
            },
            TimerState::ShortBreak | TimerState::LongBreak => {
                *self = TimerState::Pomodoro;
            },
        }
    }
}

/// The count of sessions moves only when a work session ends, and then by
/// one step round 0, 1, 2, 3, 0. A break follows the session: the long one
/// where the count comes back to zero, a short one else. The first start
/// and the end of a break leave the count alone and begin a work session.
pub proof fn lemma_counter_moves_with_sessions(state: TimerState, break_counter: u8)
    requires
        break_counter < BREAK_CYCLE,
    ensures
        state.counter_after(break_counter) < BREAK_CYCLE,
        (match state {
            TimerState::Pomodoro => if break_counter == BREAK_CYCLE - 1 {
                &&& state.counter_after(break_counter) == 0
                &&& state.following(break_counter) == TimerState::LongBreak
            } else {
                &&& state.counter_after(break_counter) == break_counter + 1
                &&& state.following(break_counter) == TimerState::ShortBreak
            },
            _ => {
                &&& state.counter_after(break_counter) == break_counter
                &&& state.following(break_counter) == TimerState::Pomodoro
            },
        }),
{
}

/// The phase and the count of sessions that `n` advances lead to from the
/// idle start.
pub open spec fn cycle(n: nat) -> (TimerState, u8)
    decreases n,
{
    if n == 0 {
        (TimerState::Idle, 0u8)
    } else {
        let (state, break_counter) = cycle((n - 1) as nat);
        (state.following(break_counter), state.counter_after(break_counter))
    }
}

/// The phase that `n` advances lead to from the idle start: every odd
/// advance begins a work session and every even one a break, the long
/// break at each eighth advance and a short break at the others.
pub open spec fn cycle_state(n: nat) -> TimerState {
    if n == 0 {
        TimerState::Idle
    } else if n % 2 == 1 {
        TimerState::Pomodoro
    } else if n % 8 == 0 {
        TimerState::LongBreak
    } else {
        TimerState::ShortBreak
    }
}

/// The count of sessions after `n` advances from the idle start: one more
/// with each break, and zero again with the long one.
pub open spec fn cycle_counter(n: nat) -> u8 {
    ((n / 2) % (BREAK_CYCLE as nat)) as u8
}

/// Repeated advances from the idle start give work, short break, work,
/// short break, work, short break, work, long break, and so on, and the
/// count of sessions goes 0, 1, 2, 3, 0, one step at the end of each
/// session.
pub proof fn lemma_cycle(n: nat)
    ensures
        cycle(n) == (cycle_state(n), cycle_counter(n)),
    decreases n,
{
    if n > 0 {
        lemma_cycle((n - 1) as nat);
    }
}

/// The idle phase is only the start: no advance leads back to it.
pub proof fn lemma_cycle_leaves_idle(n: nat)
    requires
        n > 0,
    ensures
        cycle(n).0 != TimerState::Idle,
{
    lemma_cycle(n);
}

/// The phases and the count come round every eight advances.
pub proof fn lemma_cycle_period(n: nat)
    requires
        n > 0,
    ensures
        cycle(n + 8) == cycle(n),
{
    lemma_cycle(n);
    lemma_cycle(n + 8);
}

} // verus!
