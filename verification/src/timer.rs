//! The timer: the phase it is in, its countdown, and what starting,
//! stopping and polling do to them.

use vstd::prelude::*;
use std::time::Instant;
use crate::clock::since;
use crate::observer::Callback;
use crate::observer::Observer;
use crate::render::format_status;
use crate::render::status_line;
use crate::span::Span;
use crate::state::TimerState;
use crate::state::BREAK_CYCLE;

verus! {

/// What a timer is, as plain mathematical values. Times are in nanoseconds;
/// points in time count from the moment the timer was made.
pub struct TimerView {
    /// Whether the countdown is advancing.
    pub running: bool,
    /// The phase the timer is in.
    pub state: TimerState,
    /// When the timer was first started, if it ever was.
    pub state_start_time: Option<nat>,
    /// The time left in the phase; `None` once the phase has run out and
    /// the next poll is to begin the next one.
    pub remaining_time: Option<nat>,
    /// When the timer was last polled.
    pub last_poll: nat,
    /// The work sessions finished in the round under way.
    pub break_counter: u8,
    /// What the observer has been told of so far, oldest first; `None`
    /// where nobody observes.
    pub heard: Option<Seq<TimerState>>,
}

impl TimerView {
    /// The timer as it is made: idle, stopped, never started, showing the
    /// length of a work session, with nobody observing.
    pub open spec fn initial() -> TimerView {
        TimerView {
            running: false,
            state: TimerState::Idle,
            state_start_time: None,
            remaining_time: Some(TimerState::Idle.nominal()),
            last_poll: 0,
            break_counter: 0,
            heard: None,
        }
    }

    /// The count of sessions stays within the round, and a running timer
    /// has been started.
    pub open spec fn wf(self) -> bool {
        &&& self.break_counter < BREAK_CYCLE
        &&& self.running ==> self.state_start_time is Some
    }

    /// The next phase begun, with its whole length left.
    pub open spec fn begin_next_state(self) -> TimerView {
        let state = self.state.following(self.break_counter);
        TimerView {
            state,
            break_counter: self.state.counter_after(self.break_counter),
            remaining_time: Some(state.nominal()),
            ..self
        }
    }

    /// Started at `now`: nothing where it runs already; the first start
    /// notes the time and begins the first work session; a later one
    /// resumes the countdown where it stood.
    pub open spec fn start(self, now: nat) -> TimerView {
        if self.running {
            self
        } else if self.state_start_time is None {
            TimerView {
                running: true,
                state_start_time: Some(now),
                ..self.begin_next_state()
            }
        } else {
            TimerView { running: true, ..self }
        }
    }

    /// Stopped: the countdown stands still, and nothing else changes.
    pub open spec fn stop(self) -> TimerView {
        TimerView { running: false, ..self }
    }

    /// Stopped where it runs, started at `now` where it does not.
    pub open spec fn toggle(self, now: nat) -> TimerView {
        if self.running {
            self.stop()
        } else {
            self.start(now)
        }
    }

    /// After `command`, given at `now`: toggled, or as new.
    pub open spec fn handle(self, command: Command, now: nat) -> TimerView {
        match command {
            Command::Toggle => self.toggle(now),
            Command::Reset => TimerView::initial(),
        }
    }

    /// After one round of the loop that drives the timer: after `command`,
    /// if there is one, given at `asked`, and then a poll at `polled`.
    pub open spec fn step(self, command: Option<Command>, asked: nat, polled: nat) -> TimerView {
        match command {
            Some(command) => self.handle(command, asked).poll(polled),
            None => self.poll(polled),
        }
    }

    /// With a new observer, who has heard nothing yet, in place of the
    /// one before, if there was one.
    pub open spec fn observed(self) -> TimerView {
        TimerView { heard: Some(Seq::empty()), ..self }
    }

    /// With `state` told to the observer, where there is one.
    pub open spec fn told(self, state: TimerState) -> TimerView {
        TimerView {
            heard: match self.heard {
                Some(heard) => Some(heard.push(state)),
                None => None,
            },
            ..self
        }
    }

    /// The time charged by a poll at `now`: what has gone by since the
    /// last poll, and nothing where the clock has not moved on.
    pub open spec fn elapsed(self, now: nat) -> nat {
        if now >= self.last_poll {
            (now - self.last_poll) as nat
        } else {
            0
        }
    }

    /// Polled at `now`. A stopped timer only notes the time. A running one
    /// whose phase has run out begins the next phase, with its whole
    /// length left, and tells the observer of it; otherwise the time gone
    /// by since the last poll comes off the countdown, and where more has
    /// gone by than was left, the phase has run out. Either way the time of
    /// the poll is noted.
    pub open spec fn poll(self, now: nat) -> TimerView {
        if !self.running {
            TimerView { last_poll: now, ..self }
        } else {
            match self.remaining_time {
                None => {
                    let next = self.begin_next_state();
                    TimerView { last_poll: now, ..next.told(next.state) }
                },
                Some(left) => TimerView {
                    remaining_time: if self.elapsed(now) > left {
                        None
                    } else {
                        Some((left - self.elapsed(now)) as nat)
                    },
                    last_poll: now,
                    ..self
                },
            }
        }
    }
}

/// The view of a time that may be missing.
pub open spec fn span_view(span: Option<Span>) -> Option<nat> {
    match span {
        Some(span) => Some(span@),
        None => None,
    }
}

/// What the user can ask of the timer.
#[derive(Clone, Copy, Debug, PartialEq, Eq, Structural)]
pub enum Command {
    /// Stop the timer where it runs, start it where it does not.
    Toggle,
    /// Put a new timer in the place of this one.
    Reset,
}

/// A Pomodoro timer.
pub struct Timer {
    running: bool,
    state: TimerState,
    state_start_time: Option<Span>,
    remaining_time: Option<Span>,
    last_poll: Span,
    break_counter: u8,
    state_change_callback: Option<Box<dyn Observer>>,
    made: Instant,
}

impl View for Timer {
    type V = TimerView;

    closed spec fn view(&self) -> TimerView {
        TimerView {
            running: self.running,
            state: self.state,
            state_start_time: span_view(self.state_start_time),
            remaining_time: span_view(self.remaining_time),
            last_poll: self.last_poll@,
            break_counter: self.break_counter,
            heard: match self.state_change_callback {
                Some(observer) => Some(observer.heard()),
                None => None,
            },
        }
    }
}

impl Timer {
    /// The timer is in order: its view is, and so is its observer.
    pub closed spec fn wf(&self) -> bool {
        &&& self@.wf()
        &&& self.state_change_callback matches Some(observer) ==> observer.wf()
    }

    /// The view of a timer in order is in order.
    pub proof fn lemma_view_wf(&self)
        requires
            self.wf(),
        ensures
            self@.wf(),
    {
    }

    /// A timer, idle and stopped, with nobody observing. Its clock starts
    /// now.
    pub fn new() -> (timer: Timer)
        ensures
            timer.wf(),
            timer@ == TimerView::initial(),
    {
        Timer {
            running: false,
            state: TimerState::Idle,
            state_start_time: None,
            remaining_time: Some(TimerState::Idle.time()),
            last_poll: Span::zero(),
            break_counter: 0,
            state_change_callback: None,
            made: Instant::now(),
        }
    }

    /// The phase the timer is in.
    pub fn state(&self) -> (state: TimerState)
        ensures
            state == self@.state,
    {
        self.state
    }

    /// Whether the countdown is advancing.
    pub fn is_running(&self) -> (running: bool)
        ensures
            running == self@.running,
    {
        self.running
    }

    /// Whether the timer has ever been started.
    pub fn has_started(&self) -> (started: bool)
        ensures
            started == (self@.state_start_time is Some),
    {
        self.state_start_time.is_some()
    }

    /// When the timer was first started, on its own clock, if it ever was.
    pub fn state_start_time(&self) -> (started: Option<Span>)
        ensures
            span_view(started) == self@.state_start_time,
    {
        self.state_start_time
    }

    /// When the timer was last polled, on its own clock.
    pub fn last_poll(&self) -> (polled: Span)
        ensures
            polled@ == self@.last_poll,
    {
        self.last_poll
    }

    /// Whether the phase has run out, so that the next poll of the running
    /// timer begins the next one.
    pub fn has_expired(&self) -> (expired: bool)
        ensures
            expired == (self@.remaining_time is None),
    {
        self.remaining_time.is_none()
    }

    /// The time left in the phase: none where the phase has run out.
    pub fn remaining_time(&self) -> (left: Span)
        ensures
            left@ == match self@.remaining_time {
                Some(left) => left,
                None => 0,
            },
    {
        match self.remaining_time {
            Some(left) => left,
            None => Span::zero(),
        }
    }

    /// The work sessions finished in the round under way.
    pub fn break_counter(&self) -> (break_counter: u8)
        requires
            self.wf(),
        ensures
            break_counter == self@.break_counter,
            break_counter < BREAK_CYCLE,
    {
        self.break_counter
    }

    /// The status line: the glyph of the phase, a space, and the time left
    /// as minutes and seconds.
    pub fn status_line(&self) -> (line: String)
        ensures
            line@ == status_line(self@.state, self@.remaining_time),
    {
        format_status(self.state, self.remaining_time)
    }

    /// The time on the timer's clock.
    fn now(&self) -> (now: Span) {
        since(self.made)
    }

    /// Starts the timer at `now`. See [`TimerView::start`].
    pub fn start_at(&mut self, now: Span)
        requires
            old(self).wf(),
        ensures
            final(self).wf(),
            final(self)@ == old(self)@.start(now@),
    {
        if !self.running {
            if self.state_start_time.is_none() {
                self.state_start_time = Some(now);
                self.begin_next_state();
            }
            self.running = true;
        }
    }

    /// Starts the timer at the time on its clock.
    pub fn start(&mut self)
        requires
            old(self).wf(),
        ensures
            final(self).wf(),
            exists|now: nat| final(self)@ == #[trigger] old(self)@.start(now),
    {
        let now = self.now();
        self.start_at(now);
    }

    /// Stops the timer. See [`TimerView::stop`].
    pub fn stop(&mut self)
        requires
            old(self).wf(),
        ensures
            final(self).wf(),
            final(self)@ == old(self)@.stop(),
    {
        if self.running {
            self.running = false;
        }
    }

    /// Stops the timer where it runs, and starts it at `now` where it does
    /// not.
    pub fn toggle_at(&mut self, now: Span)
        requires
            old(self).wf(),
        ensures
            final(self).wf(),
            final(self)@ == old(self)@.toggle(now@),
    {
        if !self.running {
            self.start_at(now);
        } else {
            self.stop();
        }
    }

    /// Stops the timer where it runs, and starts it at the time on its
    /// clock where it does not.
    pub fn toggle(&mut self)
        requires
            old(self).wf(),
        ensures
            final(self).wf(),
            exists|now: nat| final(self)@ == #[trigger] old(self)@.toggle(now),
    {
        let now = self.now();
        self.toggle_at(now);
    }

    /// Begins the next phase, with its whole length left.
    pub fn begin_next_state(&mut self)
        requires
            old(self).wf(),
        ensures
            final(self).wf(),
            final(self)@ == old(self)@.begin_next_state(),
            final(self)@.state != TimerState::Idle,
    {
        self.state.next(&mut self.break_counter);
        self.remaining_time = Some(self.state.time());
    }

    /// Puts `callback` in the place of the observer: it is called with each
    /// phase that a poll begins. The observer that was there before, if
    /// any, is dropped and called no more.
    pub fn on_state_change<F>(&mut self, callback: F) where F: FnMut(TimerState) + 'static
        requires
            old(self).wf(),
            forall|state: TimerState|
                state != TimerState::Idle ==> call_requires(callback, (state,)),
        ensures
            final(self).wf(),
            final(self)@ == old(self)@.observed(),
    {
        let observer: Box<dyn Observer> = Box::new(Callback::new(callback));
        let installed = Some(observer);
        self.state_change_callback = installed;
    }

    /// Polls the timer at `now`. See [`TimerView::poll`].
    pub fn poll_at(&mut self, now: Span)
        requires
            old(self).wf(),
        ensures
            final(self).wf(),
            final(self)@ == old(self)@.poll(now@),
    {
        if self.running {
            match self.remaining_time {
                None => {
                    self.begin_next_state();
                    let state = self.state;
                    match &mut self.state_change_callback {
                        Some(observer) => {
                            observer.state_changed(state);
                        },
                        None => {},
                    }
                },
                Some(left) => {
                    self.remaining_time = left.checked_sub(now.saturating_sub(self.last_poll));
                },
            }
        }
        self.last_poll = now;
    }

    /// Does what `command`, given at `now`, asks: a toggle, or a reset,
    /// which leaves a timer as new, with nobody observing.
    pub fn handle_at(&mut self, command: Command, now: Span)
        requires
            old(self).wf(),
        ensures
            final(self).wf(),
            final(self)@ == old(self)@.handle(command, now@),
    {
        match command {
            Command::Toggle => {
                self.toggle_at(now);
            },
            Command::Reset => {
                *self = Timer::new();
            },
        }
    }

    /// Does what `command` asks, at the time on the timer's clock.
    pub fn handle(&mut self, command: Command)
        requires
            old(self).wf(),
        ensures
            final(self).wf(),
            exists|now: nat| final(self)@ == #[trigger] old(self)@.handle(command, now),
    {
        let now = self.now();
        self.handle_at(command, now);
    }

    /// One round of the loop that drives the timer: does what `command`
    /// asks, if there is one, then polls the timer once, and gives the
    /// status line to show.
    pub fn step(&mut self, command: Option<Command>) -> (line: String)
        requires
            old(self).wf(),
        ensures
            final(self).wf(),
            exists|asked: nat, polled: nat|
                final(self)@ == #[trigger] old(self)@.step(command, asked, polled),
            line@ == status_line(final(self)@.state, final(self)@.remaining_time),
    {
        let asked = self.now();
        match command {
            Some(command) => {
                self.handle_at(command, asked);
            },
            None => {},
        }
        let polled = self.now();
        self.poll_at(polled);
        assert(self@ == old(self)@.step(command, asked@, polled@));
        self.status_line()
    }

    /// Polls the timer at the time on its clock.
    pub fn poll(&mut self)
        requires
            old(self).wf(),
        ensures
            final(self).wf(),
            exists|now: nat| final(self)@ == #[trigger] old(self)@.poll(now),
    {
        let now = self.now();
        self.poll_at(now);
    }
}

} // verus!
