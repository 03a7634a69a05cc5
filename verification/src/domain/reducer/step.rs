//! The outcome of one event.

use crate::domain::error::{DomainError, DomainErrorView};
use crate::domain::state::{SessionState, SessionStateView};
use vstd::prelude::*;

verus! {

/// What an event does to a state: the state after it and whether the event took effect, or why it
/// is refused.
pub type Step = Result<(SessionStateView, bool), DomainErrorView>;

/// The event takes effect.
pub open spec fn changed(state: SessionStateView) -> Step {
    Ok((state, true))
}

/// The event has no effect.
pub open spec fn kept(state: SessionStateView) -> Step {
    Ok((state, false))
}

/// The event is refused.
pub open spec fn refused(fault: DomainErrorView) -> Step {
    Err(fault)
}

/// The outcome of a function that changes a state in place.
pub open spec fn outcome(result: Result<bool, DomainError>, after: SessionState) -> Step {
    match result {
        Ok(effective) => Ok((after.deep_view(), effective)),
        Err(error) => Err(error.deep_view()),
    }
}

/// The state that a step leaves behind: a refused event changes nothing.
pub open spec fn left_by(step: Step, before: SessionStateView) -> SessionStateView {
    match step {
        Ok((after, _)) => after,
        Err(_) => before,
    }
}

/// One more than a length, as far as a length can be counted.
pub open spec fn one_more(len: nat) -> usize {
    if len < usize::MAX {
        (len + 1) as usize
    } else {
        usize::MAX
    }
}

/// The state without its wait and without what belongs to the wait.
pub open spec fn without_wait(state: SessionStateView) -> SessionStateView {
    SessionStateView { active_wait: None, active_timer: None, wake_pending_wait_id: None, ..state }
}

impl SessionState {
    pub(crate) fn clear_wait(&mut self)
        ensures
            final(self).deep_view() == without_wait(old(self).deep_view()),
    {
        self.active_wait = None;
        self.active_timer = None;
        self.wake_pending_wait_id = None;
    }
}

} // verus!
