//! Waits and timers.

use super::step::{changed, kept, outcome, refused, without_wait, Step};
use crate::datum::{Datum, Same};
use crate::domain::error::{invalid, invalid_state, DomainError};
use crate::domain::state::{SessionState, SessionStateView};
use crate::domain::waits::{ActiveWait, ActiveWaitView, WaitTimerIntent, WaitTimerIntentView};
use crate::text::{holds_text, same_text};
use vstd::prelude::*;

verus! {

/// A wait begins, in place of the one before it. The wait that was set last, with nothing done to
/// it since, changes nothing.
#[verifier::opaque]
pub open spec fn wait_set_step(state: SessionStateView, wait: ActiveWaitView) -> Step {
    if state.active_wait == Some(wait) && state.active_timer is None && state.wake_pending_wait_id
        is None {
        kept(state)
    } else {
        changed(SessionStateView { active_wait: Some(wait), ..without_wait(state) })
    }
}

/// A timer is set for the wait.
#[verifier::opaque]
pub open spec fn timer_step(state: SessionStateView, timer: WaitTimerIntentView) -> Step {
    match state.active_wait {
        None => refused(invalid("wait timer has no active wait"@)),
        Some(wait) => if wait.wait_id != timer.wait_id || wait.deadline_ms != timer.deadline_ms {
            refused(invalid("wait timer does not match active wait"@))
        } else if state.active_timer == Some(timer) {
            kept(state)
        } else {
            changed(SessionStateView { active_timer: Some(timer), ..state })
        },
    }
}

/// The wait is over, unless a wake for it is due or another wait is active.
#[verifier::opaque]
pub open spec fn wait_ended_step(state: SessionStateView, wait_id: Seq<char>) -> Step {
    if state.wake_pending_wait_id == Some(wait_id) {
        kept(state)
    } else if state.active_wait matches Some(wait) && wait.wait_id == wait_id {
        changed(without_wait(state))
    } else {
        kept(state)
    }
}

impl SessionState {
    pub(crate) fn set_wait(&mut self, wait: &ActiveWait) -> (result: Result<bool, DomainError>)
        ensures
            outcome(result, *final(self)) == wait_set_step(
                old(self).deep_view(),
                wait.deep_view(),
            ),
            result is Err ==> final(self).deep_view() == old(self).deep_view(),
    {
        proof {
            reveal(wait_set_step);
        }
        if let Some(active) = &self.active_wait {
            if active.same(wait) && self.active_timer.is_none()
                && self.wake_pending_wait_id.is_none() {
                return Ok(false);
            }
        }
        self.clear_wait();
        self.active_wait = Some(wait.replica());
        Ok(true)
    }

    pub(crate) fn schedule_timer(&mut self, timer: &WaitTimerIntent) -> (result: Result<
        bool,
        DomainError,
    >)
        ensures
            outcome(result, *final(self)) == timer_step(old(self).deep_view(), timer.deep_view()),
            result is Err ==> final(self).deep_view() == old(self).deep_view(),
    {
        proof {
            reveal(timer_step);
        }
        match &self.active_wait {
            None => {
                return Err(invalid_state("wait timer has no active wait"));
            },
            Some(wait) => {
                if !same_text(&wait.wait_id, &timer.wait_id) || wait.deadline_ms
                    != timer.deadline_ms {
                    return Err(invalid_state("wait timer does not match active wait"));
                }
            },
        }
        if let Some(active) = &self.active_timer {
            if active.same(timer) {
                return Ok(false);
            }
        }
        self.active_timer = Some(timer.replica());
        Ok(true)
    }

    pub(crate) fn end_wait(&mut self, wait_id: &String) -> (result: Result<bool, DomainError>)
        ensures
            outcome(result, *final(self)) == wait_ended_step(old(self).deep_view(), wait_id@),
            result is Err ==> final(self).deep_view() == old(self).deep_view(),
    {
        proof {
            reveal(wait_ended_step);
        }
        if holds_text(&self.wake_pending_wait_id, wait_id) {
            return Ok(false);
        }
        let active = match &self.active_wait {
            Some(wait) => same_text(&wait.wait_id, wait_id),
            None => false,
        };
        if active {
            self.clear_wait();
        }
        Ok(active)
    }
}

} // verus!
