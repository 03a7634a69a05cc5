//! With which fault an event is refused.

use super::delivery::{
    acknowledge_step, append_fault, append_step, materialize_step, new_call_check, queue_step,
    queued_as,
};
use super::payload_step;
use super::tools::{
    call_ended_step, call_running_step, call_started_step, callback_ended_step,
    callback_planned_step, outcome_unknown_step, progress_step, restarted_step,
};
use crate::checks::{first_fault, first_index, lemma_faultless, lemma_first_index_sound};
use crate::domain::error::DomainErrorView;
use crate::domain::event::SessionEventView;
use crate::domain::history::{declared_call, is_declared, named};
use crate::domain::payload::payload_agrees;
use crate::domain::state::SessionStateView;
use crate::domain::tools::{record_agrees, AsyncToolCallRecordView, AsyncToolStatus};
use crate::domain::transcript::{
    delivery_agrees, message_agrees, QueuedDeliveryView, TranscriptMessageView, TranscriptRole,
};
use crate::text_map::lookup;
use vstd::prelude::*;

verus! {

/// Whether a state refuses the payload of an event with a fault.
pub open spec fn refuses_with(
    state: SessionStateView,
    event: SessionEventView,
    fault: DomainErrorView,
) -> bool {
    payload_step(state, event) matches Err(held) && held == fault
}

/// A new message can follow on a history exactly if it declares calls only as an assistant, none
/// that is declared already, and answers a call only as a tool, and one that is declared.
pub proof fn messages_follow_on_a_history(
    history: Seq<TranscriptMessageView>,
    message: TranscriptMessageView,
)
    ensures
        append_fault(history, message) is None <==> {
            &&& message.tool_calls.len() > 0 ==> message.role == TranscriptRole::Assistant
            &&& forall|i: int|
                0 <= i < message.tool_calls.len() ==> !is_declared(
                    history,
                    (#[trigger] message.tool_calls[i]).tool_call_id,
                )
            &&& message.tool_call_id matches Some(id) ==> message.role == TranscriptRole::Tool
                && is_declared(history, id)
        },
        message.tool_calls.len() == 0 && message.role == TranscriptRole::Tool ==> (
        message.tool_call_id matches Some(id) ==> !is_declared(history, id) ==> append_fault(
            history,
            message,
        ) == Some(DomainErrorView::UnknownToolCall(id))),
{
    let calls = message.tool_calls;
    let check = new_call_check(history);
    lemma_faultless(calls, check);
    if first_fault(calls, check) is None {
        assert forall|i: int| 0 <= i < calls.len() implies !is_declared(
            history,
            (#[trigger] calls[i]).tool_call_id,
        ) by {
            assert(check(calls.take(i), calls[i]) is None);
        }
    }
}

/// A message that can follow on the history, under an id and a key that are new, joins it, as long
/// as there is room; one that cannot follow is refused with the reason, and one under an id that is
/// taken as a conflict.
pub proof fn messages_join_or_are_refused(
    state: SessionStateView,
    message: TranscriptMessageView,
    wake_wait: bool,
)
    ensures
        ({
            let event = SessionEventView::MessageAppended { message, wake_wait };
            let taken = first_index(state.transcript, named(message.message_id));
            let known = message.dedupe_key matches Some(key)
                && state.dedupe_facts.recent_keys.contains(key);
            &&& taken matches Some(at) ==> !message_agrees(state.transcript[at], message)
                ==> refuses_with(
                state,
                event,
                DomainErrorView::ConflictingTranscriptMessage(message.message_id),
            )
            &&& taken is None && !known && state.transcript.len() < 8192 ==> match append_fault(
                state.transcript,
                message,
            ) {
                Some(fault) => refuses_with(state, event, fault),
                None => payload_step(state, event) matches Ok((next, effective)) && effective
                    && next.transcript == state.transcript.push(message),
            }
        }),
{
    reveal(append_step);
    lemma_first_index_sound(state.transcript, named(message.message_id));
}

/// A delivery is refused as a conflict where another is queued in its place; one that does not
/// follow on the queue is told which place would.
pub proof fn deliveries_are_refused_by_reason(
    state: SessionStateView,
    delivery: QueuedDeliveryView,
)
    requires
        delivery.queue_id > state.delivery_ack,
    ensures
        ({
            let event = SessionEventView::DeliveryQueued { delivery };
            let keys = state.dedupe_facts.recent_keys;
            let place = first_index(state.delivery_queue, queued_as(delivery.queue_id));
            let expected = state.delivery_ack + state.delivery_queue.len() + 1;
            &&& place matches Some(at) ==> !delivery_agrees(state.delivery_queue[at], delivery)
                ==> refuses_with(
                state,
                event,
                DomainErrorView::ConflictingDelivery(delivery.delivery_id),
            )
            &&& place is None && !keys.contains("delivery:"@ + delivery.delivery_id)
                && !keys.contains(delivery.dedupe_key) && state.delivery_queue.len() < 4096
                && expected <= u64::MAX && delivery.queue_id != expected ==> refuses_with(
                state,
                event,
                DomainErrorView::DeliveryQueueOrder {
                    expected: expected as u64,
                    actual: delivery.queue_id,
                },
            )
        }),
{
    reveal(queue_step);
    lemma_first_index_sound(state.delivery_queue, queued_as(delivery.queue_id));
}

/// An acknowledgement beyond what is queued is told how far it may go. A delivery that is not
/// queued is unknown, and a message that does not name its delivery has the wrong identity.
pub proof fn acknowledgements_are_refused_by_reason(
    state: SessionStateView,
    through: u64,
    message: TranscriptMessageView,
)
    ensures
        ({
            let last = state.delivery_ack + state.delivery_queue.len();
            let event = SessionEventView::DeliveryAcknowledged { through_queue_id: through };
            last <= u64::MAX && through > last ==> refuses_with(
                state,
                event,
                DomainErrorView::AckBeyondEnqueued { requested: through, max_queued: last as u64 },
            )
        }),
        ({
            let event = SessionEventView::DeliveryMaterialized { queue_id: through, message };
            let place = first_index(state.delivery_queue, queued_as(through));
            &&& place is None ==> refuses_with(
                state,
                event,
                DomainErrorView::UnknownDelivery(through),
            )
            &&& place is Some && message.source_queue_id != Some(through) ==> refuses_with(
                state,
                event,
                DomainErrorView::MaterializationIdentity(through),
            )
        }),
{
    reveal(acknowledge_step);
    reveal(materialize_step);
}

/// A call that was not started is unknown to every event that is about it.
pub proof fn unknown_calls_are_refused(state: SessionStateView, event: SessionEventView)
    ensures
        match event {
            SessionEventView::AsyncToolCallRunning { tool_call_id }
            | SessionEventView::AsyncToolCallUnknownOutcome { tool_call_id, .. }
            | SessionEventView::AsyncToolCallRuntimeRestarted { tool_call_id, .. }
            | SessionEventView::AsyncToolCallProgress { tool_call_id, .. }
            | SessionEventView::AsyncToolCallCompleted { tool_call_id, .. }
            | SessionEventView::AsyncToolCallFailed { tool_call_id, .. }
            | SessionEventView::AsyncToolCallCancelled { tool_call_id, .. } => lookup(
                state.async_tool_calls,
                tool_call_id,
            ) is None ==> refuses_with(
                state,
                event,
                DomainErrorView::UnknownAsyncToolCall(tool_call_id),
            ),
            SessionEventView::AsyncToolCallCallbackPlanned { binding } => lookup(
                state.async_tool_calls,
                binding.tool_call_id,
            ) is None ==> refuses_with(
                state,
                event,
                DomainErrorView::UnknownAsyncToolCall(binding.tool_call_id),
            ),
            SessionEventView::AsyncToolCallCallbackCompleted { callback_id, .. }
            | SessionEventView::AsyncToolCallCallbackFailed { callback_id, .. } => lookup(
                state.callback_bindings,
                callback_id,
            ) is None ==> refuses_with(
                state,
                event,
                DomainErrorView::UnknownCallback(callback_id),
            ),
            _ => true,
        },
{
    reveal(call_running_step);
    reveal(outcome_unknown_step);
    reveal(restarted_step);
    reveal(call_ended_step);
    reveal(callback_planned_step);
    reveal(callback_ended_step);
    reveal(progress_step);
}

/// A call is refused its start as a conflict where another start was taken, as unknown where no
/// message declares it, and as another call where one declares it otherwise.
pub proof fn starts_are_refused_by_reason(state: SessionStateView, event: SessionEventView)
    ensures
        match event {
            SessionEventView::AsyncToolCallStarted { record } => {
                let id = record.tool_call_id;
                match lookup(state.async_tool_calls, id) {
                    Some(existing) => !record_agrees(existing, record) ==> refuses_with(
                        state,
                        event,
                        DomainErrorView::ConflictingAsyncToolCallStart(id),
                    ),
                    None => match declared_call(state.transcript, id) {
                        None => refuses_with(state, event, DomainErrorView::UnknownToolCall(id)),
                        Some(call) => call.tool_name != record.tool_name || !payload_agrees(
                            call.input,
                            record.input,
                        ) ==> refuses_with(
                            state,
                            event,
                            DomainErrorView::ConflictingToolCallIdentity(id),
                        ),
                    },
                }
            },
            _ => true,
        },
{
    reveal(call_started_step);
}

/// The end of a call whose outcome was lost is refused as rewriting it, and an end before the start
/// as out of order. A callback is refused as a conflict where it brought another payload before, or
/// where its call has ended otherwise.
pub proof fn ends_are_refused_by_reason(state: SessionStateView, event: SessionEventView)
    ensures
        match event {
            SessionEventView::AsyncToolCallCompleted { tool_call_id, completed_at_ms, .. }
            | SessionEventView::AsyncToolCallFailed { tool_call_id, completed_at_ms, .. }
            | SessionEventView::AsyncToolCallCancelled { tool_call_id, completed_at_ms, .. } => {
                lookup(state.async_tool_calls, tool_call_id) matches Some(record) ==> {
                    &&& record.status == AsyncToolStatus::UnknownOutcome ==> refuses_with(
                        state,
                        event,
                        DomainErrorView::UnknownOutcomeTerminalConflict(tool_call_id),
                    )
                    &&& (record.status == AsyncToolStatus::Planned || record.status
                        == AsyncToolStatus::Running) && completed_at_ms < record.started_at_ms
                        ==> refuses_with(
                        state,
                        event,
                        DomainErrorView::InvalidTimestampOrder {
                            start: record.started_at_ms,
                            end: completed_at_ms,
                        },
                    )
                }
            },
            SessionEventView::AsyncToolCallCallbackCompleted {
                callback_id,
                tool_call_id,
                payload_fingerprint,
                ..
            }
            | SessionEventView::AsyncToolCallCallbackFailed {
                callback_id,
                tool_call_id,
                payload_fingerprint,
                ..
            } => lookup(state.callback_bindings, callback_id) matches Some(binding)
                ==> binding.tool_call_id == tool_call_id ==> {
                &&& binding.payload_fingerprint matches Some(known) ==> known
                    != payload_fingerprint ==> refuses_with(
                    state,
                    event,
                    DomainErrorView::CallbackPayloadConflict(callback_id),
                )
                &&& binding.payload_fingerprint is None ==> (lookup(
                    state.async_tool_calls,
                    tool_call_id,
                ) matches Some(record) ==> (record.status == AsyncToolStatus::Completed
                    || record.status == AsyncToolStatus::Failed || record.status
                    == AsyncToolStatus::Cancelled || record.status
                    == AsyncToolStatus::RuntimeRestarted) ==> refuses_with(
                    state,
                    event,
                    DomainErrorView::CallbackTerminalConflict(tool_call_id),
                ))
            },
            _ => true,
        },
{
    reveal(call_ended_step);
    reveal(callback_ended_step);
}

/// A session holds at most eight thousand one hundred and ninety-two messages, four thousand and
/// ninety-six deliveries and one thousand and twenty-four calls: what would be one more is refused
/// as too many.
pub proof fn full_sessions_take_no_more(
    state: SessionStateView,
    message: TranscriptMessageView,
    wake_wait: bool,
    delivery: QueuedDeliveryView,
    record: AsyncToolCallRecordView,
)
    ensures
        ({
            let event = SessionEventView::MessageAppended { message, wake_wait };
            let known = message.dedupe_key matches Some(key)
                && state.dedupe_facts.recent_keys.contains(key);
            first_index(state.transcript, named(message.message_id)) is None && !known
                && state.transcript.len() >= 8192 ==> (payload_step(state, event) matches Err(
                DomainErrorView::CollectionTooLarge { field, max, .. },
            ) && field == "transcript"@ && max == 8192)
        }),
        ({
            let event = SessionEventView::DeliveryQueued { delivery };
            let keys = state.dedupe_facts.recent_keys;
            delivery.queue_id > state.delivery_ack && first_index(
                state.delivery_queue,
                queued_as(delivery.queue_id),
            ) is None && !keys.contains("delivery:"@ + delivery.delivery_id) && !keys.contains(
                delivery.dedupe_key,
            ) && state.delivery_queue.len() >= 4096 ==> (payload_step(state, event) matches Err(
                DomainErrorView::CollectionTooLarge { field, max, .. },
            ) && field == "delivery queue"@ && max == 4096)
        }),
        ({
            let event = SessionEventView::AsyncToolCallStarted { record };
            lookup(state.async_tool_calls, record.tool_call_id) is None && (declared_call(
                state.transcript,
                record.tool_call_id,
            ) matches Some(call) && call.tool_name == record.tool_name && payload_agrees(
                call.input,
                record.input,
            )) ==> {
                &&& state.async_tool_calls.len() >= 1024 ==> (payload_step(
                    state,
                    event,
                ) matches Err(DomainErrorView::CollectionTooLarge { field, max, .. }) && field
                    == "async tool calls"@ && max == 1024)
                &&& state.async_tool_calls.len() < 1024 ==> payload_step(state, event) is Ok
            }
        }),
{
    reveal(append_step);
    reveal(queue_step);
    reveal(call_started_step);
}

} // verus!
