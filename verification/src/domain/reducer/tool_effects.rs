//! What events do to the tool calls of a session, and to the callbacks that end them.

use super::effects::{after, is_passed_over, is_refused, takes_effect};
use super::tools::{
    call_ended_step, call_running_step, call_started_step, callback_ended_step,
    callback_planned_step, ended_record, outcome_unknown_step, progress_step, restarted_step,
    with_binding, with_call, CallEndView,
};
use crate::checks::{first_index, lemma_first_index_is, lemma_first_index_sound};
use crate::domain::event::SessionEventView;
use crate::domain::history::{call_named, declared_call, declaring};
use crate::domain::payload::{payload_agrees, DurablePayloadView};
use crate::domain::state::SessionStateView;
use crate::domain::tools::{
    record_agrees, AsyncCallbackBindingView, AsyncToolCallRecordView, AsyncToolStatus,
    CompletionMode, ToolErrorView,
};
use crate::domain::transcript::{declares, ToolCallView, TranscriptMessageView};
use crate::domain::MAX_ASYNC_TOOL_CALLS;
use crate::text_map::{lookup, stored_then_found};
use vstd::prelude::*;

verus! {

/// The record of a tool call, if there is one.
pub open spec fn call_of(state: SessionStateView, id: Seq<char>) -> Option<
    AsyncToolCallRecordView,
> {
    lookup(state.async_tool_calls, id)
}

/// The binding of a callback, if there is one.
pub open spec fn binding_of(state: SessionStateView, id: Seq<char>) -> Option<
    AsyncCallbackBindingView,
> {
    lookup(state.callback_bindings, id)
}

/// Whether a tool call can still end: it is planned or runs.
pub open spec fn is_open(record: AsyncToolCallRecordView) -> bool {
    record.status == AsyncToolStatus::Planned || record.status == AsyncToolStatus::Running
}

/// Whether two states differ in the record of one tool call at most.
pub open spec fn only_call_differs(
    state: SessionStateView,
    next: SessionStateView,
    id: Seq<char>,
) -> bool {
    &&& forall|other: Seq<char>| other != id
        ==> #[trigger] call_of(next, other) == call_of(state, other)
    &&& next == (SessionStateView { async_tool_calls: next.async_tool_calls, ..state })
}

/// Whether two states differ in the record of one tool call and the binding of one callback at
/// most.
pub open spec fn only_callback_differs(
    state: SessionStateView,
    next: SessionStateView,
    id: Seq<char>,
    callback_id: Seq<char>,
) -> bool {
    &&& forall|other: Seq<char>| other != id
        ==> #[trigger] call_of(next, other) == call_of(state, other)
    &&& forall|other: Seq<char>|
        other != callback_id ==> #[trigger] binding_of(next, other) == binding_of(state, other)
    &&& next == (SessionStateView {
        async_tool_calls: next.async_tool_calls,
        callback_bindings: next.callback_bindings,
        ..state
    })
}

/// Whether a record is one of a call that has ended: with its status, with what belongs to that
/// status and nothing else, at its time, and otherwise as it was.
pub open spec fn ends_as(
    before: AsyncToolCallRecordView,
    ended: AsyncToolCallRecordView,
    status: AsyncToolStatus,
    result: Option<DurablePayloadView>,
    error: Option<ToolErrorView>,
    cancel_reason: Option<Seq<char>>,
    completed_at_ms: i64,
) -> bool {
    &&& ended.status == status
    &&& ended.result == result
    &&& ended.error == error
    &&& ended.cancel_reason == cancel_reason
    &&& ended.completed_at_ms == Some(completed_at_ms)
    &&& ended == (AsyncToolCallRecordView {
        status: ended.status,
        result: ended.result,
        error: ended.error,
        cancel_reason: ended.cancel_reason,
        completed_at_ms: ended.completed_at_ms,
        ..before
    })
}

proof fn lemma_calls(state: SessionStateView, id: Seq<char>, record: AsyncToolCallRecordView)
    ensures
        ({
            let next = with_call(state, id, record);
            &&& call_of(next, id) == Some(record)
            &&& only_call_differs(state, next, id)
        }),
{
    stored_then_found(state.async_tool_calls, id, record, id);
    let next = with_call(state, id, record);
    assert forall|other: Seq<char>| other != id implies #[trigger] call_of(next, other) == call_of(
        state,
        other,
    ) by {
        stored_then_found(state.async_tool_calls, id, record, other);
    }
}

proof fn lemma_bindings(state: SessionStateView, id: Seq<char>, binding: AsyncCallbackBindingView)
    ensures
        ({
            let next = with_binding(state, id, binding);
            &&& binding_of(next, id) == Some(binding)
            &&& forall|other: Seq<char>|
                other != id ==> #[trigger] binding_of(next, other) == binding_of(state, other)
        }),
{
    stored_then_found(state.callback_bindings, id, binding, id);
    let next = with_binding(state, id, binding);
    assert forall|other: Seq<char>| other != id implies #[trigger] binding_of(next, other)
        == binding_of(state, other) by {
        stored_then_found(state.callback_bindings, id, binding, other);
    }
}

/// Whether an end of a call is taken in the way that ends are: an open call ends by it, unless it
/// comes before the start; a call that has ended already, otherwise or the same way, stays as it
/// is; and the lost outcome of a call is not rewritten.
pub open spec fn end_is_taken(
    state: SessionStateView,
    event: SessionEventView,
    id: Seq<char>,
    completed_at_ms: i64,
) -> bool {
    let next = after(state, event);
    &&& !takes_effect(state, event) ==> next == state
    &&& match call_of(state, id) {
        None => is_refused(state, event),
        Some(record) => {
            &&& takes_effect(state, event) <==> is_open(record) && record.started_at_ms
                <= completed_at_ms
            &&& record.status == AsyncToolStatus::UnknownOutcome || (is_open(record)
                && record.started_at_ms > completed_at_ms) <==> is_refused(state, event)
        },
    }
    &&& takes_effect(state, event) ==> call_of(next, id) is Some && only_call_differs(
        state,
        next,
        id,
    )
}

/// A call that completes has the status of one that completed, with its result and its time, and
/// no error and no reason.
pub proof fn completion_takes_effect(
    state: SessionStateView,
    tool_call_id: Seq<char>,
    result: DurablePayloadView,
    completed_at_ms: i64,
)
    ensures
        ({
            let event = SessionEventView::AsyncToolCallCompleted {
                tool_call_id,
                result,
                completed_at_ms,
            };
            &&& end_is_taken(state, event, tool_call_id, completed_at_ms)
            &&& takes_effect(state, event) ==> ends_as(
                call_of(state, tool_call_id)->0,
                call_of(after(state, event), tool_call_id)->0,
                AsyncToolStatus::Completed,
                Some(result),
                None,
                None,
                completed_at_ms,
            )
        }),
{
    reveal(call_ended_step);
    if let Some(record) = call_of(state, tool_call_id) {
        lemma_calls(
            state,
            tool_call_id,
            ended_record(
                record,
                CallEndView::Completed(result),
                completed_at_ms,
            ),
        );
    }
}

/// A call that fails by itself has the status of one that failed, with its error and its time, and
/// no result and no reason.
pub proof fn failure_takes_effect(
    state: SessionStateView,
    tool_call_id: Seq<char>,
    error: ToolErrorView,
    completed_at_ms: i64,
)
    ensures
        ({
            let event = SessionEventView::AsyncToolCallFailed {
                tool_call_id,
                error,
                completed_at_ms,
            };
            &&& end_is_taken(state, event, tool_call_id, completed_at_ms)
            &&& takes_effect(state, event) ==> ends_as(
                call_of(state, tool_call_id)->0,
                call_of(after(state, event), tool_call_id)->0,
                AsyncToolStatus::Failed,
                None,
                Some(error),
                None,
                completed_at_ms,
            )
        }),
{
    reveal(call_ended_step);
    if let Some(record) = call_of(state, tool_call_id) {
        lemma_calls(
            state,
            tool_call_id,
            ended_record(
                record,
                CallEndView::Failed(error),
                completed_at_ms,
            ),
        );
    }
}

/// A call that is cancelled has the status of one that was cancelled, with the reason and the time,
/// and no result and no error.
pub proof fn cancellation_takes_effect(
    state: SessionStateView,
    tool_call_id: Seq<char>,
    reason: Seq<char>,
    completed_at_ms: i64,
)
    ensures
        ({
            let event = SessionEventView::AsyncToolCallCancelled {
                tool_call_id,
                reason,
                completed_at_ms,
            };
            &&& end_is_taken(state, event, tool_call_id, completed_at_ms)
            &&& takes_effect(state, event) ==> ends_as(
                call_of(state, tool_call_id)->0,
                call_of(after(state, event), tool_call_id)->0,
                AsyncToolStatus::Cancelled,
                None,
                None,
                Some(reason),
                completed_at_ms,
            )
        }),
{
    reveal(call_ended_step);
    if let Some(record) = call_of(state, tool_call_id) {
        lemma_calls(
            state,
            tool_call_id,
            ended_record(
                record,
                CallEndView::Cancelled(reason),
                completed_at_ms,
            ),
        );
    }
}

/// A restart ends a call that is open, as one lost in a restart, with the reason as its error. It
/// passes over a call that has ended and one whose outcome is unknown.
pub proof fn restart_takes_effect(
    state: SessionStateView,
    tool_call_id: Seq<char>,
    reason: Seq<char>,
    completed_at_ms: i64,
)
    ensures
        ({
            let event = SessionEventView::AsyncToolCallRuntimeRestarted {
                tool_call_id,
                reason,
                completed_at_ms,
            };
            let next = after(state, event);
            &&& !takes_effect(state, event) ==> next == state
            &&& match call_of(state, tool_call_id) {
                None => is_refused(state, event),
                Some(record) => {
                    &&& is_passed_over(state, event) <==> !is_open(record)
                    &&& takes_effect(state, event) <==> is_open(record) && record.started_at_ms
                        <= completed_at_ms
                },
            }
            &&& takes_effect(state, event) ==> {
                &&& only_call_differs(state, next, tool_call_id)
                &&& call_of(next, tool_call_id) is Some
                &&& ends_as(
                    call_of(state, tool_call_id)->0,
                    call_of(next, tool_call_id)->0,
                    AsyncToolStatus::RuntimeRestarted,
                    None,
                    Some(ToolErrorView { class: "runtime_restarted"@, message: reason }),
                    None,
                    completed_at_ms,
                )
            }
        }),
{
    reveal(restarted_step);
    if let Some(record) = call_of(state, tool_call_id) {
        lemma_calls(
            state,
            tool_call_id,
            ended_record(
                record,
                CallEndView::RuntimeRestarted(
                    ToolErrorView { class: "runtime_restarted"@, message: reason },
                ),
                completed_at_ms,
            ),
        );
    }
}

/// Only a restart leaves a call as one that was lost in a restart; only a completion, by itself or
/// over a callback, leaves it completed; only a failure leaves it failed; and only a cancellation
/// leaves it cancelled.
pub proof fn status_tells_how_a_call_ended(
    state: SessionStateView,
    event: SessionEventView,
    id: Seq<char>,
)
    requires
        event is AsyncToolCallRunning || event is AsyncToolCallUnknownOutcome
            || event is AsyncToolCallRuntimeRestarted || event is AsyncToolCallProgress
            || event is AsyncToolCallCompleted || event is AsyncToolCallFailed
            || event is AsyncToolCallCancelled || event is AsyncToolCallCallbackPlanned
            || event is AsyncToolCallCallbackCompleted || event is AsyncToolCallCallbackFailed,
        call_of(state, id) matches Some(record) && (is_open(record) || record.status
            == AsyncToolStatus::UnknownOutcome),
    ensures
        call_of(after(state, event), id) matches Some(record) && {
            &&& record.status == AsyncToolStatus::RuntimeRestarted ==> event
                is AsyncToolCallRuntimeRestarted
            &&& record.status == AsyncToolStatus::Completed ==> event is AsyncToolCallCompleted
                || event is AsyncToolCallCallbackCompleted
            &&& record.status == AsyncToolStatus::Failed ==> event is AsyncToolCallFailed || event
                is AsyncToolCallCallbackFailed
            &&& record.status == AsyncToolStatus::Cancelled ==> event is AsyncToolCallCancelled
        },
{
    match event {
        SessionEventView::AsyncToolCallRunning { tool_call_id } => {
            running_takes_effect(state, tool_call_id);
        },
        SessionEventView::AsyncToolCallUnknownOutcome { tool_call_id, reason } => {
            lost_outcome_takes_effect(state, tool_call_id, reason);
        },
        SessionEventView::AsyncToolCallRuntimeRestarted {
            tool_call_id,
            reason,
            completed_at_ms,
        } => {
            restart_takes_effect(state, tool_call_id, reason, completed_at_ms);
        },
        SessionEventView::AsyncToolCallProgress { tool_call_id, progress } => {
            progress_takes_effect(state, tool_call_id, progress);
        },
        SessionEventView::AsyncToolCallCompleted { tool_call_id, result, completed_at_ms } => {
            completion_takes_effect(state, tool_call_id, result, completed_at_ms);
        },
        SessionEventView::AsyncToolCallFailed { tool_call_id, error, completed_at_ms } => {
            failure_takes_effect(state, tool_call_id, error, completed_at_ms);
        },
        SessionEventView::AsyncToolCallCancelled { tool_call_id, reason, completed_at_ms } => {
            cancellation_takes_effect(state, tool_call_id, reason, completed_at_ms);
        },
        SessionEventView::AsyncToolCallCallbackPlanned { binding } => {
            binding_takes_effect(state, binding);
        },
        SessionEventView::AsyncToolCallCallbackCompleted {
            callback_id,
            tool_call_id,
            payload_fingerprint,
            result,
            completed_at_ms,
        } => {
            callback_completion_takes_effect(
                state,
                callback_id,
                tool_call_id,
                payload_fingerprint,
                result,
                completed_at_ms,
            );
        },
        SessionEventView::AsyncToolCallCallbackFailed {
            callback_id,
            tool_call_id,
            payload_fingerprint,
            error,
            completed_at_ms,
        } => {
            callback_failure_takes_effect(
                state,
                callback_id,
                tool_call_id,
                payload_fingerprint,
                error,
                completed_at_ms,
            );
        },
        _ => {},
    }
}

/// Whether the call with an id is the one at a place of a message, and the first with that id.
pub open spec fn is_declared_at(
    history: Seq<TranscriptMessageView>,
    id: Seq<char>,
    message: int,
    place: int,
) -> bool {
    &&& 0 <= message < history.len()
    &&& 0 <= place < history[message].tool_calls.len()
    &&& history[message].tool_calls[place].tool_call_id == id
    &&& forall|i: int, j: int|
        0 <= i < message && 0 <= j < history[i].tool_calls.len() ==> (
        #[trigger] history[i].tool_calls[j]).tool_call_id != id
    &&& forall|j: int|
        0 <= j < place ==> (#[trigger] history[message].tool_calls[j]).tool_call_id != id
}

/// A call that was declared starts exactly as it was declared: under its name and with its input.
/// It joins the calls as it came, and nothing else changes. The same start again is passed over,
/// another under its id is refused.
pub proof fn start_takes_effect(
    state: SessionStateView,
    record: AsyncToolCallRecordView,
    message: int,
    place: int,
)
    requires
        is_declared_at(state.transcript, record.tool_call_id, message, place),
    ensures
        ({
            let event = SessionEventView::AsyncToolCallStarted { record };
            let next = after(state, event);
            let declared = state.transcript[message].tool_calls[place];
            let known = call_of(state, record.tool_call_id);
            &&& takes_effect(state, event) <==> {
                &&& known is None
                &&& declared.tool_name == record.tool_name
                &&& payload_agrees(declared.input, record.input)
                &&& state.async_tool_calls.len() < MAX_ASYNC_TOOL_CALLS
            }
            &&& is_passed_over(state, event) <==> (known matches Some(existing) && record_agrees(
                existing,
                record,
            ))
            &&& !takes_effect(state, event) ==> next == state
            &&& takes_effect(state, event) ==> {
                &&& call_of(next, record.tool_call_id) == Some(record)
                &&& only_call_differs(state, next, record.tool_call_id)
            }
        }),
{
    reveal(call_started_step);
    lemma_declared_at(state.transcript, record.tool_call_id, message, place);
    lemma_calls(state, record.tool_call_id, record);
}

proof fn lemma_declared_at(
    history: Seq<TranscriptMessageView>,
    id: Seq<char>,
    message: int,
    place: int,
)
    requires
        is_declared_at(history, id, message, place),
    ensures
        declared_call(history, id) == Some(history[message].tool_calls[place]),
{
    assert(declares(history[message].tool_calls, id)) by {
        assert(history[message].tool_calls[place].tool_call_id == id);
    }
    assert forall|i: int| 0 <= i < message implies !declaring(id)(history[i]) by {
        assert(forall|j: int|
            0 <= j < history[i].tool_calls.len() ==> (
            #[trigger] history[i].tool_calls[j]).tool_call_id != id);
    }
    lemma_first_index_is(history, declaring(id), message);
    assert forall|j: int| 0 <= j < place implies !call_named(id)(
        history[message].tool_calls[j],
    ) by {
        assert(history[message].tool_calls[j].tool_call_id != id);
    }
    lemma_first_index_is(history[message].tool_calls, call_named(id), place);
}

/// A call that no message declared does not start.
pub proof fn undeclared_call_does_not_start(
    state: SessionStateView,
    record: AsyncToolCallRecordView,
)
    requires
        call_of(state, record.tool_call_id) is None,
        forall|i: int, j: int|
            0 <= i < state.transcript.len() && 0 <= j < state.transcript[i].tool_calls.len() ==> (
            #[trigger] state.transcript[i].tool_calls[j]).tool_call_id != record.tool_call_id,
    ensures
        is_refused(state, SessionEventView::AsyncToolCallStarted { record }),
{
    reveal(call_started_step);
    let id = record.tool_call_id;
    lemma_first_index_sound(state.transcript, declaring(id));
    if let Some(index) = first_index(state.transcript, declaring(id)) {
        assert(declaring(id)(state.transcript[index]));
        assert(declares(state.transcript[index].tool_calls, id));
        let calls: Seq<ToolCallView> = state.transcript[index].tool_calls;
        let place = choose|j: int|
            0 <= j < calls.len() && (#[trigger] calls[j]).tool_call_id == id;
        assert(state.transcript[index].tool_calls[place].tool_call_id == id);
    }
}

/// Whether some callback is bound to a tool call.
pub open spec fn has_callback(state: SessionStateView, id: Seq<char>) -> bool {
    exists|i: int|
        0 <= i < state.callback_bindings.len() && (
        #[trigger] state.callback_bindings[i]).1.tool_call_id == id
}

/// A call runs if it was planned, or if its outcome was lost and it may safely be sent again; one
/// that a callback ends must have its callback first. It then has the status of one that runs, and
/// nothing else changes. A call that runs already is passed over.
pub proof fn running_takes_effect(state: SessionStateView, tool_call_id: Seq<char>)
    ensures
        ({
            let event = SessionEventView::AsyncToolCallRunning { tool_call_id };
            let next = after(state, event);
            &&& !takes_effect(state, event) ==> next == state
            &&& match call_of(state, tool_call_id) {
                None => is_refused(state, event),
                Some(record) => {
                    let ready = record.completion_mode != CompletionMode::ExternalCallback
                        || has_callback(state, tool_call_id);
                    &&& is_passed_over(state, event) <==> ready && record.status
                        == AsyncToolStatus::Running
                    &&& takes_effect(state, event) <==> ready && (record.status
                        == AsyncToolStatus::Planned || (record.status
                        == AsyncToolStatus::UnknownOutcome && record.retry_dispatch_deduplicated))
                    &&& takes_effect(state, event) ==> {
                        &&& call_of(next, tool_call_id) == Some(
                            AsyncToolCallRecordView { status: AsyncToolStatus::Running, ..record },
                        )
                        &&& only_call_differs(state, next, tool_call_id)
                    }
                },
            }
        }),
{
    reveal(call_running_step);
    if let Some(record) = call_of(state, tool_call_id) {
        lemma_calls(
            state,
            tool_call_id,
            AsyncToolCallRecordView { status: AsyncToolStatus::Running, ..record },
        );
    }
}

/// The outcome of a call is lost only while it runs. It then has the status of one whose outcome is
/// unknown, and nothing else changes.
pub proof fn lost_outcome_takes_effect(
    state: SessionStateView,
    tool_call_id: Seq<char>,
    reason: Seq<char>,
)
    ensures
        ({
            let event = SessionEventView::AsyncToolCallUnknownOutcome { tool_call_id, reason };
            let next = after(state, event);
            &&& !takes_effect(state, event) ==> next == state
            &&& match call_of(state, tool_call_id) {
                None => is_refused(state, event),
                Some(record) => {
                    &&& takes_effect(state, event) <==> record.status == AsyncToolStatus::Running
                    &&& is_passed_over(state, event) <==> record.status
                        == AsyncToolStatus::UnknownOutcome
                    &&& takes_effect(state, event) ==> {
                        &&& call_of(next, tool_call_id) == Some(
                            AsyncToolCallRecordView {
                                status: AsyncToolStatus::UnknownOutcome,
                                ..record
                            },
                        )
                        &&& only_call_differs(state, next, tool_call_id)
                    }
                },
            }
        }),
{
    reveal(outcome_unknown_step);
    if let Some(record) = call_of(state, tool_call_id) {
        lemma_calls(
            state,
            tool_call_id,
            AsyncToolCallRecordView { status: AsyncToolStatus::UnknownOutcome, ..record },
        );
    }
}

/// The progress of a call is the one that was reported last, until the call has ended. Nothing else
/// changes.
pub proof fn progress_takes_effect(
    state: SessionStateView,
    tool_call_id: Seq<char>,
    progress: DurablePayloadView,
)
    ensures
        ({
            let event = SessionEventView::AsyncToolCallProgress { tool_call_id, progress };
            let next = after(state, event);
            &&& !takes_effect(state, event) ==> next == state
            &&& match call_of(state, tool_call_id) {
                None => is_refused(state, event),
                Some(record) => {
                    &&& !is_refused(state, event)
                    &&& takes_effect(state, event) <==> (is_open(record) || record.status
                        == AsyncToolStatus::UnknownOutcome) && !(record.progress matches Some(
                        known,
                    ) && payload_agrees(known, progress))
                    &&& takes_effect(state, event) ==> {
                        &&& call_of(next, tool_call_id) == Some(
                            AsyncToolCallRecordView { progress: Some(progress), ..record },
                        )
                        &&& only_call_differs(state, next, tool_call_id)
                    }
                },
            }
        }),
{
    reveal(progress_step);
    if let Some(record) = call_of(state, tool_call_id) {
        lemma_calls(
            state,
            tool_call_id,
            AsyncToolCallRecordView { progress: Some(progress), ..record },
        );
    }
}

/// A callback is bound, as it came, to an open call that a callback ends and that has none yet. The
/// same binding again is passed over, and another under its id is refused. Nothing else changes.
pub proof fn binding_takes_effect(state: SessionStateView, binding: AsyncCallbackBindingView)
    ensures
        ({
            let event = SessionEventView::AsyncToolCallCallbackPlanned { binding };
            let next = after(state, event);
            &&& !takes_effect(state, event) ==> next == state
            &&& match call_of(state, binding.tool_call_id) {
                None => is_refused(state, event),
                Some(record) => {
                    let fits = record.completion_mode == CompletionMode::ExternalCallback
                        && is_open(record);
                    &&& takes_effect(state, event) <==> fits && binding_of(
                        state,
                        binding.callback_id,
                    ) is None && !has_callback(state, binding.tool_call_id)
                    &&& is_passed_over(state, event) <==> fits && binding_of(
                        state,
                        binding.callback_id,
                    ) == Some(binding)
                },
            }
            &&& takes_effect(state, event) ==> {
                &&& binding_of(next, binding.callback_id) == Some(binding)
                &&& forall|other: Seq<char>|
                    other != binding.callback_id ==> #[trigger] binding_of(next, other)
                        == binding_of(state, other)
                &&& next == (SessionStateView {
                    callback_bindings: next.callback_bindings,
                    ..state
                })
            }
        }),
{
    reveal(callback_planned_step);
    lemma_bindings(state, binding.callback_id, binding);
}

/// Whether an answer over a callback is taken in the way that such answers are: the first payload
/// ends the call that the callback is bound to and is remembered by its fingerprint; the same one
/// again is passed over; another one, one for another call, and one for a call that has ended
/// otherwise are refused.
pub open spec fn answer_is_taken(
    state: SessionStateView,
    event: SessionEventView,
    callback_id: Seq<char>,
    id: Seq<char>,
    fingerprint: Seq<char>,
    completed_at_ms: i64,
) -> bool {
    let next = after(state, event);
    &&& !takes_effect(state, event) ==> next == state
    &&& match binding_of(state, callback_id) {
        None => is_refused(state, event),
        Some(binding) => {
            &&& is_passed_over(state, event) <==> binding.tool_call_id == id
                && binding.payload_fingerprint == Some(fingerprint)
            &&& takes_effect(state, event) <==> {
                &&& binding.tool_call_id == id
                &&& binding.payload_fingerprint is None
                &&& call_of(state, id) matches Some(record) && (is_open(record) || record.status
                    == AsyncToolStatus::UnknownOutcome) && record.started_at_ms <= completed_at_ms
            }
            &&& takes_effect(state, event) ==> {
                &&& binding_of(next, callback_id) == Some(
                    AsyncCallbackBindingView { payload_fingerprint: Some(fingerprint), ..binding },
                )
                &&& call_of(next, id) is Some
                &&& only_callback_differs(state, next, id, callback_id)
            }
        },
    }
}

/// A callback that completes its call leaves it completed, with the result and the time.
pub proof fn callback_completion_takes_effect(
    state: SessionStateView,
    callback_id: Seq<char>,
    tool_call_id: Seq<char>,
    payload_fingerprint: Seq<char>,
    result: DurablePayloadView,
    completed_at_ms: i64,
)
    ensures
        ({
            let event = SessionEventView::AsyncToolCallCallbackCompleted {
                callback_id,
                tool_call_id,
                payload_fingerprint,
                result,
                completed_at_ms,
            };
            &&& answer_is_taken(
                state,
                event,
                callback_id,
                tool_call_id,
                payload_fingerprint,
                completed_at_ms,
            )
            &&& takes_effect(state, event) ==> ends_as(
                call_of(state, tool_call_id)->0,
                call_of(after(state, event), tool_call_id)->0,
                AsyncToolStatus::Completed,
                Some(result),
                None,
                None,
                completed_at_ms,
            )
        }),
{
    reveal(callback_ended_step);
    lemma_answer(
        state,
        callback_id,
        tool_call_id,
        payload_fingerprint,
        CallEndView::Completed(result),
        completed_at_ms,
    );
}

/// A callback that fails its call leaves it failed, with the error and the time.
pub proof fn callback_failure_takes_effect(
    state: SessionStateView,
    callback_id: Seq<char>,
    tool_call_id: Seq<char>,
    payload_fingerprint: Seq<char>,
    error: ToolErrorView,
    completed_at_ms: i64,
)
    ensures
        ({
            let event = SessionEventView::AsyncToolCallCallbackFailed {
                callback_id,
                tool_call_id,
                payload_fingerprint,
                error,
                completed_at_ms,
            };
            &&& answer_is_taken(
                state,
                event,
                callback_id,
                tool_call_id,
                payload_fingerprint,
                completed_at_ms,
            )
            &&& takes_effect(state, event) ==> ends_as(
                call_of(state, tool_call_id)->0,
                call_of(after(state, event), tool_call_id)->0,
                AsyncToolStatus::Failed,
                None,
                Some(error),
                None,
                completed_at_ms,
            )
        }),
{
    reveal(callback_ended_step);
    lemma_answer(
        state,
        callback_id,
        tool_call_id,
        payload_fingerprint,
        CallEndView::Failed(error),
        completed_at_ms,
    );
}

proof fn lemma_answer(
    state: SessionStateView,
    callback_id: Seq<char>,
    id: Seq<char>,
    fingerprint: Seq<char>,
    end: CallEndView,
    completed_at_ms: i64,
)
    ensures
        binding_of(state, callback_id) matches Some(binding) ==> call_of(state, id) matches Some(
            record,
        ) ==> {
            let ended = ended_record(record, end, completed_at_ms);
            let answered = AsyncCallbackBindingView {
                payload_fingerprint: Some(fingerprint),
                ..binding
            };
            let next = with_binding(
                with_call(state, id, ended),
                callback_id,
                answered,
            );
            &&& call_of(next, id) == Some(ended)
            &&& binding_of(next, callback_id) == Some(answered)
            &&& only_callback_differs(state, next, id, callback_id)
        },
{
    if let Some(binding) = binding_of(state, callback_id) {
        if let Some(record) = call_of(state, id) {
            let ended = ended_record(record, end, completed_at_ms);
            let answered = AsyncCallbackBindingView {
                payload_fingerprint: Some(fingerprint),
                ..binding
            };
            lemma_calls(state, id, ended);
            let called = with_call(state, id, ended);
            lemma_bindings(called, callback_id, answered);
            let next = with_binding(called, callback_id, answered);
            assert(next.async_tool_calls == called.async_tool_calls);
            assert forall|other: Seq<char>| other != id implies #[trigger] call_of(next, other)
                == call_of(state, other) by {
                assert(call_of(called, other) == call_of(state, other));
            }
            assert forall|other: Seq<char>| other != callback_id implies #[trigger] binding_of(
                next,
                other,
            ) == binding_of(state, other) by {
                assert(binding_of(called, other) == binding_of(state, other));
            }
        }
    }
}

} // verus!
