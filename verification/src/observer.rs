//! Who is told when a phase expires and the next one begins.

use vstd::prelude::*;
use crate::state::TimerState;

verus! {

/// Someone to tell of each phase that begins because the one before it
/// ran out.
pub(crate) trait Observer {
    /// The phases this observer has been told of, oldest first.
    spec fn heard(&self) -> Seq<TimerState>;

    /// The observer can be told of every phase but the idle one.
    spec fn wf(&self) -> bool;

    /// Tells the observer that `state` has begun.
    fn state_changed(&mut self, state: TimerState)
        requires
            old(self).wf(),
            state != TimerState::Idle,
        ensures
            final(self).wf(),
            final(self).heard() == old(self).heard().push(state),
    ;
}

/// An observer made of a function that is called with each new phase.
pub(crate) struct Callback<F: FnMut(TimerState)> {
    call: F,
    told: Ghost<Seq<TimerState>>,
}

impl<F: FnMut(TimerState)> Callback<F> {
    /// The observer that calls `call`, and has been told of nothing yet.
    pub(crate) fn new(call: F) -> (observer: Self)
        requires
            forall|state: TimerState| state != TimerState::Idle ==> call_requires(call, (state,)),
        ensures
            observer.wf(),
            observer.heard() == Seq::<TimerState>::empty(),
    {
        Callback { call, told: Ghost(Seq::empty()) }
    }
}

impl<F: FnMut(TimerState)> Observer for Callback<F> {
    closed spec fn heard(&self) -> Seq<TimerState> {
        self.told@
    }

    closed spec fn wf(&self) -> bool {
        forall|state: TimerState| state != TimerState::Idle ==> call_requires(self.call, (state,))
    }

    fn state_changed(&mut self, state: TimerState) {
        (self.call)(state);
        proof {
            self.told@ = self.told@.push(state);
        }
    }
}

} // verus!
