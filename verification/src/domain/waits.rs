//! Waits and their timers.

use super::error::{fault_of, DomainError, DomainErrorView};
use super::rules::{
    bounded_text_fault, identifier_fault, timestamp_fault, validate_bounded_text,
    validate_identifier, validate_non_negative_timestamp,
};
use super::{MAX_WAIT_TOOL_CALLS, WAIT_MAX_SECONDS, WAIT_MIN_SECONDS};
use crate::checks::{
    fault_if, first_fault, lemma_first_fault_prefix, lemma_first_fault_step,
    lemma_first_fault_whole, Checks,
};
use crate::datum::{Datum, Same};
use vstd::prelude::*;

verus! {

/// The timer that is to end a wait.
#[derive(Clone, Debug, PartialEq)]
pub struct WaitTimerIntent {
    pub wait_id: String,
    pub deadline_ms: i64,
}

/// The content of a [`WaitTimerIntent`].
pub struct WaitTimerIntentView {
    pub wait_id: Seq<char>,
    pub deadline_ms: i64,
}

impl DeepView for WaitTimerIntent {
    type V = WaitTimerIntentView;

    open spec fn deep_view(&self) -> WaitTimerIntentView {
        WaitTimerIntentView {
            wait_id: self.wait_id.deep_view(),
            deadline_ms: self.deadline_ms,
        }
    }
}

impl Datum for WaitTimerIntent {
    fn replica(&self) -> (copy: Self) {
        WaitTimerIntent {
            wait_id: self.wait_id.replica(),
            deadline_ms: self.deadline_ms,
        }
    }
}

impl Same for WaitTimerIntent {
    fn same(&self, other: &Self) -> (same: bool) {
        self.wait_id.same(&other.wait_id)
            && self.deadline_ms == other.deadline_ms
    }
}

/// What began a wait.
#[derive(Clone, Copy, Debug, Eq, PartialEq, Structural)]
pub enum WaitSource {
    WaitFor,
    AutoToolBatch,
    Runtime,
}

/// A wait of a session, with the tool calls that it waits for.
#[derive(Clone, Debug, PartialEq)]
pub struct ActiveWait {
    pub wait_id: String,
    pub reason: String,
    pub timeout_seconds: u32,
    pub deadline_ms: i64,
    pub source: WaitSource,
    pub tool_call_ids: Vec<String>,
}

/// The content of a [`ActiveWait`].
pub struct ActiveWaitView {
    pub wait_id: Seq<char>,
    pub reason: Seq<char>,
    pub timeout_seconds: u32,
    pub deadline_ms: i64,
    pub source: WaitSource,
    pub tool_call_ids: Seq<Seq<char>>,
}

impl DeepView for ActiveWait {
    type V = ActiveWaitView;

    open spec fn deep_view(&self) -> ActiveWaitView {
        ActiveWaitView {
            wait_id: self.wait_id.deep_view(),
            reason: self.reason.deep_view(),
            timeout_seconds: self.timeout_seconds,
            deadline_ms: self.deadline_ms,
            source: self.source,
            tool_call_ids: self.tool_call_ids.deep_view(),
        }
    }
}

impl Datum for ActiveWait {
    fn replica(&self) -> (copy: Self) {
        ActiveWait {
            wait_id: self.wait_id.replica(),
            reason: self.reason.replica(),
            timeout_seconds: self.timeout_seconds,
            deadline_ms: self.deadline_ms,
            source: self.source,
            tool_call_ids: self.tool_call_ids.replica(),
        }
    }
}

impl Same for ActiveWait {
    fn same(&self, other: &Self) -> (same: bool) {
        self.wait_id.same(&other.wait_id)
            && self.reason.same(&other.reason)
            && self.timeout_seconds == other.timeout_seconds
            && self.deadline_ms == other.deadline_ms
            && self.source == other.source
            && self.tool_call_ids.same(&other.tool_call_ids)
    }
}

/// Whether a wait may last this long.
pub open spec fn wait_seconds_in_range(seconds: u32) -> bool {
    WAIT_MIN_SECONDS <= seconds <= WAIT_MAX_SECONDS
}

/// A tool call that a wait names.
pub open spec fn awaited_call_check() -> spec_fn(Seq<Seq<char>>, Seq<char>) -> Option<
    DomainErrorView,
> {
    |before: Seq<Seq<char>>, id: Seq<char>| identifier_fault("tool_call_id"@, id)
}

/// What is wrong with a wait.
pub open spec fn wait_fault(wait: ActiveWaitView) -> Option<DomainErrorView> {
    identifier_fault("wait_id"@, wait.wait_id).before(
        bounded_text_fault("reason"@, wait.reason),
    ).before(
        fault_if(
            !wait_seconds_in_range(wait.timeout_seconds),
            DomainErrorView::InvalidWaitTimeout,
        ),
    ).before(timestamp_fault("wait deadline_ms"@, wait.deadline_ms)).before(
        fault_if(
            wait.tool_call_ids.len() > MAX_WAIT_TOOL_CALLS,
            DomainErrorView::CollectionTooLarge {
                field: "wait tool call ids"@,
                items: wait.tool_call_ids.len() as usize,
                max: MAX_WAIT_TOOL_CALLS,
            },
        ),
    ).before(first_fault(wait.tool_call_ids, awaited_call_check()))
}

/// What is wrong with a timer.
pub open spec fn timer_fault(timer: WaitTimerIntentView) -> Option<DomainErrorView> {
    identifier_fault("wait timer wait_id"@, timer.wait_id).before(
        timestamp_fault("wait timer deadline_ms"@, timer.deadline_ms),
    )
}

fn validate_awaited_calls(ids: &Vec<String>) -> (result: Result<(), DomainError>)
    ensures
        fault_of(result) == first_fault(ids.deep_view(), awaited_call_check()),
{
    let ghost view = ids.deep_view();
    let ghost check = awaited_call_check();
    proof {
        lemma_first_fault_whole(view, check);
    }
    let mut index: usize = 0;
    while index < ids.len()
        invariant
            view == ids.deep_view(),
            check == awaited_call_check(),
            index <= ids.len(),
            first_fault(view.take(index as int), check) is None,
        decreases ids.len() - index,
    {
        proof {
            lemma_first_fault_step(view, check, index as int);
            if first_fault(view.take(index + 1), check) is Some {
                lemma_first_fault_prefix(view, check, index + 1);
            }
        }
        validate_identifier("tool_call_id", &ids[index])?;
        index += 1;
    }
    proof {
        lemma_first_fault_whole(view, check);
    }
    Ok(())
}

/// Checks a wait.
pub(crate) fn validate_wait(wait: &ActiveWait) -> (result: Result<(), DomainError>)
    ensures
        fault_of(result) == wait_fault(wait.deep_view()),
{
    validate_identifier("wait_id", &wait.wait_id)?;
    validate_bounded_text("reason", &wait.reason)?;
    if wait.timeout_seconds < WAIT_MIN_SECONDS || wait.timeout_seconds > WAIT_MAX_SECONDS {
        return Err(DomainError::InvalidWaitTimeout);
    }
    validate_non_negative_timestamp("wait deadline_ms", wait.deadline_ms)?;
    if wait.tool_call_ids.len() > MAX_WAIT_TOOL_CALLS {
        return Err(
            DomainError::CollectionTooLarge {
                field: "wait tool call ids",
                items: wait.tool_call_ids.len(),
                max: MAX_WAIT_TOOL_CALLS,
            },
        );
    }
    validate_awaited_calls(&wait.tool_call_ids)
}

/// Checks a timer.
pub(crate) fn validate_timer(timer: &WaitTimerIntent) -> (result: Result<(), DomainError>)
    ensures
        fault_of(result) == timer_fault(timer.deep_view()),
{
    validate_identifier("wait timer wait_id", &timer.wait_id)?;
    validate_non_negative_timestamp("wait timer deadline_ms", timer.deadline_ms)
}

} // verus!
