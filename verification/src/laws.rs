//! What holds of every timer, proved from the transitions of
//! [`TimerView`].

use vstd::prelude::*;
use crate::state::cycle;
use crate::state::TimerState;
use crate::state::BREAK_CYCLE;
use crate::timer::Command;
use crate::timer::TimerView;

verus! {

impl TimerView {
    /// Polled at each of `times` in turn.
    pub open spec fn poll_each(self, times: Seq<nat>) -> TimerView
        decreases times.len(),
    {
        if times.len() == 0 {
            self
        } else {
            self.poll_each(times.drop_last()).poll(times.last())
        }
    }

    /// The time of the last poll once the timer has been polled at each of
    /// `times` in turn.
    pub open spec fn last_poll_after(self, times: Seq<nat>) -> nat {
        if times.len() == 0 {
            self.last_poll
        } else {
            times.last()
        }
    }
}

/// A new timer is in order, and nothing that is done to a timer in order
/// puts it out of order.
pub proof fn lemma_wf_is_kept(timer: TimerView, command: Option<Command>, now: nat, later: nat)
    requires
        timer.wf(),
    ensures
        TimerView::initial().wf(),
        timer.start(now).wf(),
        timer.stop().wf(),
        timer.toggle(now).wf(),
        timer.begin_next_state().wf(),
        timer.observed().wf(),
        timer.poll(now).wf(),
        command matches Some(command) ==> timer.handle(command, now).wf(),
        timer.step(command, now, later).wf(),
{
}

/// However often and whenever a stopped timer is polled, only the time of
/// its last poll changes: its phase, the time left, the count of sessions
/// and what the observer has heard stay as they were.
pub proof fn lemma_polls_while_stopped(timer: TimerView, times: Seq<nat>)
    requires
        !timer.running,
    ensures
        timer.poll_each(times) == (TimerView { last_poll: timer.last_poll_after(times), ..timer }),
    decreases times.len(),
{
    if times.len() > 0 {
        lemma_polls_while_stopped(timer, times.drop_last());
    }
}

/// The phase and the count of a timer move along the cycle, and no clock
/// has a say in it. Where they stand at step `n` of the cycle, a poll that
/// finds the running timer's phase run out moves them to step `n + 1` and
/// tells the observer of the new phase, whatever the time; every other
/// poll leaves them at step `n`. The first start moves them one step on;
/// a later start and a stop leave them where they are.
pub proof fn lemma_timer_follows_cycle(timer: TimerView, n: nat, now: nat)
    requires
        (timer.state, timer.break_counter) == cycle(n),
    ensures
        ({
            let next = timer.begin_next_state();
            (next.state, next.break_counter) == cycle(n + 1)
        }),
        ({
            let polled = timer.poll(now);
            if timer.running && timer.remaining_time is None {
                &&& (polled.state, polled.break_counter) == cycle(n + 1)
                &&& polled.heard == timer.told(cycle(n + 1).0).heard
            } else {
                &&& (polled.state, polled.break_counter) == cycle(n)
                &&& polled.heard == timer.heard
            }
        }),
        ({
            let started = timer.start(now);
            if !timer.running && timer.state_start_time is None {
                (started.state, started.break_counter) == cycle(n + 1)
            } else {
                (started.state, started.break_counter) == cycle(n)
            }
        }),
        ({
            let stopped = timer.stop();
            (stopped.state, stopped.break_counter) == cycle(n)
        }),
{
}

/// A second start changes nothing: the timer is as the first start left
/// it, whatever the times of the two. And no start tells the observer
/// anything.
pub proof fn lemma_start_twice(timer: TimerView, first: nat, second: nat)
    ensures
        timer.start(first).start(second) == timer.start(first),
        timer.start(first).heard == timer.heard,
{
}

/// A timer that has been started, then stopped, polled any number of times
/// and started again is as it was before the stop, but that it runs and
/// that the time of its last poll has moved on: the time left is the
/// same, and the next poll charges only what has gone by since the last
/// poll made while it stood.
pub proof fn lemma_stop_then_start_resumes(timer: TimerView, times: Seq<nat>, now: nat)
    requires
        timer.state_start_time is Some,
    ensures
        timer.stop().poll_each(times).start(now) == (TimerView {
            running: true,
            last_poll: timer.last_poll_after(times),
            ..timer
        }),
{
    lemma_polls_while_stopped(timer.stop(), times);
}

/// Expiry is noticed one poll late. The poll of a running timer that
/// finds more time gone by than was left marks the phase as run out and
/// does no more; the poll after it, whatever its time, begins the next
/// phase with its whole length left and tells the observer of that phase,
/// once. After a work session that phase is a break.
pub proof fn lemma_expiry_takes_two_polls(timer: TimerView, first: nat, second: nat)
    requires
        timer.running,
        timer.remaining_time matches Some(left) && timer.elapsed(first) > left,
    ensures
        timer.poll(first) == (TimerView { remaining_time: None, last_poll: first, ..timer }),
        timer.poll(first).poll(second) == (TimerView {
            last_poll: second,
            ..timer.begin_next_state().told(timer.begin_next_state().state)
        }),
        timer.state == TimerState::Pomodoro && timer.break_counter < BREAK_CYCLE - 1
            ==> timer.poll(first).poll(second).state == TimerState::ShortBreak,
        timer.state == TimerState::Pomodoro && timer.break_counter >= BREAK_CYCLE - 1
            ==> timer.poll(first).poll(second).state == TimerState::LongBreak,
{
}

/// A new timer with an observer, once started, is in its first work
/// session. After a first poll later than the length of a session and a
/// second poll at any time it is in a short break with the whole break
/// left, one session is counted, and the observer has heard of the short
/// break and of nothing else.
pub proof fn lemma_first_session_ends_in_short_break(started_at: nat, first: nat, second: nat)
    requires
        first > TimerState::Pomodoro.nominal(),
    ensures
        ({
            let timer = TimerView::initial().observed().start(started_at);
            let after = timer.poll(first).poll(second);
            &&& timer.state == TimerState::Pomodoro
            &&& timer.remaining_time == Some(TimerState::Pomodoro.nominal())
            &&& after.state == TimerState::ShortBreak
            &&& after.remaining_time == Some(TimerState::ShortBreak.nominal())
            &&& after.break_counter == 1
            &&& after.heard == Some(seq![TimerState::ShortBreak])
            &&& after.running
        }),
{
}

/// Time gone by that only equals what was left is no expiry. Two polls of
/// a running timer that between them charge exactly the time left leave
/// the timer in its phase with no time left, and the observer has heard
/// nothing new.
pub proof fn lemma_exact_length_is_no_expiry(timer: TimerView, first: nat, second: nat)
    requires
        timer.running,
        timer.last_poll <= first <= second,
        timer.remaining_time == Some((second - timer.last_poll) as nat),
    ensures
        timer.poll(first).poll(second) == (TimerView {
            remaining_time: Some(0),
            last_poll: second,
            ..timer
        }),
{
}

/// Where nobody observes, nobody is told: whatever is done to the timer,
/// short of putting an observer in place, it stays without one. So a
/// reset, which leaves a timer as new, ends all telling of the observer
/// that was there before.
pub proof fn lemma_unobserved_stays_unobserved(
    timer: TimerView,
    command: Option<Command>,
    now: nat,
    later: nat,
)
    requires
        timer.heard is None,
    ensures
        TimerView::initial().heard is None,
        timer.start(now).heard is None,
        timer.stop().heard is None,
        timer.toggle(now).heard is None,
        timer.begin_next_state().heard is None,
        timer.poll(now).heard is None,
        command matches Some(command) ==> timer.handle(command, now).heard is None,
        timer.step(command, now, later).heard is None,
{
}

/// A reset leaves a timer as new, whatever the timer was and whenever the
/// reset comes: stopped, idle, never started, with no session counted, the
/// length of a work session showing, and nobody observing.
pub proof fn lemma_reset_is_as_new(timer: TimerView, now: nat)
    ensures
        timer.handle(Command::Reset, now) == TimerView::initial(),
        !TimerView::initial().running,
        TimerView::initial().state == TimerState::Idle,
        TimerView::initial().break_counter == 0,
        TimerView::initial().state_start_time is None,
        TimerView::initial().remaining_time == Some(TimerState::Pomodoro.nominal()),
        TimerView::initial().heard is None,
{
}

} // verus!
