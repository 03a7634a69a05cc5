//! When the parts of a session and its events are sound: each rule in full.

use super::dedupe::{dedupe_fault, remembered, DedupeFactsView};
use super::error::DomainErrorView;
use super::event::{event_fault, SessionEventView};
use super::model::{
    activation_fault, attempt_fault, document_fault, exhausted_fault, plan_fault,
    request_fault, retry_fault, round_fault, usage_fault, ActiveActivationView,
    ActiveModelRoundView, ContextHandoffDocumentView, ContextHandoffPlanView,
    ModelAttemptOutcome, ModelAttemptRecordView, ModelAttemptsExhaustedFactView,
    ModelRequestFactView, ModelRequestPurpose, ModelRetryScheduleView, ModelUsageAnchorView,
};
use super::payload::{
    continuation_fault, inline_payload, payload_fault, DurablePayloadView, OpaqueContinuationView,
};
use super::rules::{
    bounded_text_fault, fingerprint_fault, identifier_fault, required_text_fault, text_size_fault,
    timestamp_fault,
};
use super::selection::{
    limits_fault, model_fault, owner_fault, selected_tool_check, selection_fault, ModelLimits,
    SessionModelSelectionView, SessionOwnerView, SessionSelectionView,
};
use super::state::{
    active_round_fault, active_wait_fault, bindings_fault, calls_fault, creation_fault,
    fresh_call_check, fresh_state, handoff_fault, history_check, last_failure_fault, queue_check,
    queue_fault, round_purpose_fault, valid_state, SessionStateView,
};
use super::tools::{
    binding_fault, outcome_fault, record_fault, started_record_fault, terminal, tool_error_fault,
    AsyncCallbackBindingView, AsyncToolCallRecordView, AsyncToolStatus, ToolErrorView,
};
use super::transcript::{
    declared_call_check, declares, delivery_fault, message_fault, QueuedDeliveryView,
    TranscriptMessageView, TranscriptRole,
};
use super::waits::{
    awaited_call_check, timer_fault, wait_fault, wait_seconds_in_range, ActiveWaitView,
    WaitTimerIntentView,
};
use super::{
    EVENT_SCHEMA_VERSION, MAX_ASYNC_TOOL_CALLS, MAX_DELIVERY_QUEUE_ITEMS,
    MAX_OPAQUE_CONTINUATIONS, MAX_RECENT_DEDUPE_FACTS, MAX_TRANSCRIPT_MESSAGES,
    REDUCER_SCHEMA_VERSION, SESSION_CREATED_SCHEMA_VERSION, STATE_SCHEMA_VERSION,
    WAIT_FOR_TOOL_NAME,
};
use crate::checks::{first_fault, lemma_faultless};
use crate::json::{json_size, object_of, JsonView};
use crate::text::{byte_len, has_control};
use vstd::prelude::*;
use vstd::string::*;

verus! {

/// Whether a text can name something: it is there, at most five hundred and twelve bytes long, and
/// without control characters.
pub open spec fn is_identifier(text: Seq<char>) -> bool {
    text.len() > 0 && byte_len(text) <= 512 && !has_control(text)
}

/// Whether a text can be the words of a reason: it is there, and at most eight kilobytes long.
pub open spec fn is_reason(text: Seq<char>) -> bool {
    text.len() > 0 && byte_len(text) <= 8192
}

/// What the rules of texts come to, at every field and text.
proof fn lemma_texts()
    ensures
        forall|field: Seq<char>, text: Seq<char>|
            (#[trigger] identifier_fault(field, text) is None) <==> is_identifier(text),
        forall|field: Seq<char>, text: Seq<char>|
            (#[trigger] fingerprint_fault(field, text) is None) <==> is_identifier(text),
        forall|field: Seq<char>, text: Seq<char>|
            (#[trigger] bounded_text_fault(field, text) is None) <==> is_reason(text),
{
    reveal(identifier_fault);
    reveal(fingerprint_fault);
    reveal(bounded_text_fault);
}

/// Names, fingerprints, reasons and times are sound exactly in their bounds.
pub proof fn texts_are_sound(field: Seq<char>, text: Seq<char>, most: usize, time: i64)
    ensures
        identifier_fault(field, text) is None <==> is_identifier(text),
        fingerprint_fault(field, text) is None <==> is_identifier(text),
        bounded_text_fault(field, text) is None <==> is_reason(text),
        required_text_fault(field, text) is None <==> text.len() > 0,
        text_size_fault(field, text, most) is None <==> byte_len(text) <= most,
        timestamp_fault(field, time) is None <==> time >= 0,
{
    lemma_texts();
}

/// A payload is sound exactly if it is small enough to be held, or names a blob, or says why it was
/// taken out.
pub proof fn payloads_are_sound(payload: DurablePayloadView)
    ensures
        payload_fault(payload) is None <==> match payload {
            DurablePayloadView::Inline(inline) => inline.encoded_len <= 65536,
            DurablePayloadView::BlobRef(blob) => is_identifier(blob.blob_id) && is_reason(
                blob.sha256,
            ) && (blob.media_type matches Some(media_type) ==> is_reason(media_type)),
            DurablePayloadView::Redacted(redacted) => is_reason(redacted.reason),
        },
{
    lemma_texts();
}

/// A value is held as it is, with the length of its encoding, exactly if that is small enough.
pub proof fn values_are_held_as_they_are(value: JsonView)
    ensures
        inline_payload(value) is Ok <==> (json_size(value) matches Ok(bytes) && bytes <= 65536),
        inline_payload(value) matches Ok(payload) ==> payload.value == value && (
        json_size(value) matches Ok(bytes) && payload.encoded_len == bytes),
{
    lemma_texts();
}

/// A message is sound exactly if its names are, it is not too long, and it declares not too many
/// calls, each sound and each once, and none that it answers itself.
pub proof fn messages_are_sound(message: TranscriptMessageView)
    ensures
        message_fault(message) is None <==> {
            &&& is_identifier(message.message_id)
            &&& byte_len(message.content) <= 262144
            &&& message.tool_call_id matches Some(id) ==> is_identifier(id)
            &&& message.tool_calls.len() <= 128
            &&& message.dedupe_key matches Some(key) ==> is_identifier(key)
            &&& message.source_queue_id != Some(0u64)
            &&& forall|i: int|
                0 <= i < message.tool_calls.len() ==> {
                    &&& is_identifier((#[trigger] message.tool_calls[i]).tool_call_id)
                    &&& is_identifier(message.tool_calls[i].tool_name)
                    &&& payload_fault(message.tool_calls[i].input) is None
                    &&& message.tool_call_id != Some(message.tool_calls[i].tool_call_id)
                }
            &&& forall|i: int, j: int|
                0 <= i < j < message.tool_calls.len() ==> (
                #[trigger] message.tool_calls[i]).tool_call_id != (
                #[trigger] message.tool_calls[j]).tool_call_id
        },
{
    lemma_texts();
    let calls = message.tool_calls;
    let check = declared_call_check(message.tool_call_id);
    lemma_faultless(calls, check);
    if first_fault(calls, check) is None {
        assert forall|i: int| 0 <= i < calls.len() implies {
            &&& is_identifier((#[trigger] calls[i]).tool_call_id)
            &&& is_identifier(calls[i].tool_name)
            &&& payload_fault(calls[i].input) is None
            &&& message.tool_call_id != Some(calls[i].tool_call_id)
        } by {
            assert(check(calls.take(i), calls[i]) is None);
        }
        assert forall|i: int, j: int| 0 <= i < j < calls.len() implies (
        #[trigger] calls[i]).tool_call_id != (#[trigger] calls[j]).tool_call_id by {
            assert(check(calls.take(j), calls[j]) is None);
            assert(!declares(calls.take(j), calls[j].tool_call_id));
            assert(calls.take(j)[i] == calls[i]);
        }
    }
    if (forall|i: int|
        0 <= i < calls.len() ==> {
            &&& is_identifier((#[trigger] calls[i]).tool_call_id)
            &&& is_identifier(calls[i].tool_name)
            &&& payload_fault(calls[i].input) is None
            &&& message.tool_call_id != Some(calls[i].tool_call_id)
        }) && (forall|i: int, j: int|
        0 <= i < j < calls.len() ==> (#[trigger] calls[i]).tool_call_id != (
        #[trigger] calls[j]).tool_call_id) {
        assert forall|j: int| 0 <= j < calls.len() implies check(
            #[trigger] calls.take(j),
            calls[j],
        ) is None by {
            assert(is_identifier(calls[j].tool_call_id));
            let before = calls.take(j);
            assert forall|i: int| 0 <= i < before.len() implies (
            #[trigger] before[i]).tool_call_id != calls[j].tool_call_id by {
                assert(before[i] == calls[i]);
            }
        }
    }
}

/// A delivery is sound exactly if its names and its payload are, it has a place, and its time can
/// be; a new one has become no message yet.
pub proof fn deliveries_are_sound(delivery: QueuedDeliveryView, allow_materialized: bool)
    ensures
        delivery_fault(delivery, allow_materialized) is None <==> {
            &&& is_identifier(delivery.delivery_id)
            &&& is_identifier(delivery.dedupe_key)
            &&& delivery.queue_id > 0
            &&& payload_fault(delivery.payload) is None
            &&& delivery.source_tool_call_id matches Some(id) ==> is_identifier(id)
            &&& delivery.created_at_ms matches Some(time) ==> time >= 0
            &&& !allow_materialized ==> delivery.materialized_message_id is None
        },
{
    lemma_texts();
}

/// A wait is sound exactly if it has a name and a reason, lasts from one to six hundred seconds,
/// has a deadline that can be, and names not too many calls.
pub proof fn waits_are_sound(wait: ActiveWaitView, timer: WaitTimerIntentView, seconds: u32)
    ensures
        wait_fault(wait) is None <==> {
            &&& is_identifier(wait.wait_id)
            &&& is_reason(wait.reason)
            &&& 1 <= wait.timeout_seconds <= 600
            &&& wait.deadline_ms >= 0
            &&& wait.tool_call_ids.len() <= 128
            &&& forall|i: int|
                0 <= i < wait.tool_call_ids.len()
                    ==> is_identifier(#[trigger] wait.tool_call_ids[i])
        },
        timer_fault(timer) is None <==> is_identifier(timer.wait_id) && timer.deadline_ms >= 0,
        wait_seconds_in_range(seconds) <==> 1 <= seconds <= 600,
{
    lemma_texts();
    let ids = wait.tool_call_ids;
    let check = awaited_call_check();
    lemma_faultless(ids, check);
    if first_fault(ids, check) is None {
        assert forall|i: int| 0 <= i < ids.len() implies is_identifier(#[trigger] ids[i]) by {
            assert(check(ids.take(i), ids[i]) is None);
        }
    }
    if forall|i: int| 0 <= i < ids.len() ==> is_identifier(#[trigger] ids[i]) {
        assert forall|i: int| 0 <= i < ids.len() implies check(#[trigger] ids.take(i), ids[i])
            is None by {
            assert(is_identifier(ids[i]));
        }
    }
}

/// The limits of a model leave room for an input.
pub proof fn limits_leave_room(limits: ModelLimits)
    ensures
        limits_fault(limits) is None <==> 0 < limits.max_output_tokens
            < limits.context_window_tokens,
{
    lemma_texts();
}

/// A selected model is sound exactly if its names are, its revisions count, its address and options
/// are in their bounds, and its limits leave room.
pub proof fn models_are_sound(model: SessionModelSelectionView)
    ensures
        model_fault(model) is None <==> {
            &&& is_identifier(model.provider)
            &&& is_identifier(model.provider_execution.schema)
            &&& model.provider_execution.revision > 0
            &&& is_identifier(model.provider_execution.kind)
            &&& is_reason(model.provider_execution.base_url)
            &&& json_size(
                JsonView::Object(object_of(model.provider_execution.options)),
            ) matches Ok(bytes) && bytes <= 65536
            &&& is_identifier(model.model)
            &&& model.limits matches Some(limits) ==> limits_fault(limits) is None
            &&& is_identifier(model.auth_authority_id)
            &&& is_identifier(model.auth_profile_id)
            &&& model.auth_revision > 0
        },
{
    lemma_texts();
}

/// A selection is sound exactly if its model is, its tools have names, not too many and each once,
/// and its callback address is in its bounds.
pub proof fn selections_are_sound(selection: SessionSelectionView)
    ensures
        selection_fault(selection) is None <==> {
            &&& selection.model matches Some(model) ==> model_fault(model) is None
            &&& selection.tools.len() <= 256
            &&& forall|i: int|
                0 <= i < selection.tools.len() ==> is_identifier(#[trigger] selection.tools[i])
            &&& forall|i: int, j: int|
                0 <= i < j < selection.tools.len() ==> #[trigger] selection.tools[i]
                    != #[trigger] selection.tools[j]
            &&& selection.callback_base_url matches Some(url) ==> is_reason(url)
        },
{
    lemma_texts();
    let tools = selection.tools;
    let check = selected_tool_check();
    lemma_faultless(tools, check);
    if first_fault(tools, check) is None {
        assert forall|i: int| 0 <= i < tools.len() implies is_identifier(#[trigger] tools[i]) by {
            assert(check(tools.take(i), tools[i]) is None);
        }
        assert forall|i: int, j: int| 0 <= i < j < tools.len() implies #[trigger] tools[i]
            != #[trigger] tools[j] by {
            assert(check(tools.take(j), tools[j]) is None);
            assert(tools.take(j)[i] == tools[i]);
        }
    }
    if (forall|i: int| 0 <= i < tools.len() ==> is_identifier(#[trigger] tools[i])) && (forall|
        i: int,
        j: int,
    |
        0 <= i < j < tools.len() ==> #[trigger] tools[i] != #[trigger] tools[j]) {
        assert forall|j: int| 0 <= j < tools.len() implies check(#[trigger] tools.take(j), tools[j])
            is None by {
            assert(is_identifier(tools[j]));
            let before = tools.take(j);
            assert forall|i: int| 0 <= i < before.len() implies before[i] != tools[j] by {
                assert(before[i] == tools[i]);
            }
        }
    }
}

/// A call that starts is planned or runs, without progress and outcome, and has sound names, input
/// and wait.
pub proof fn starting_calls_are_sound(record: AsyncToolCallRecordView)
    ensures
        started_record_fault(record) is None <==> {
            &&& record.status == AsyncToolStatus::Planned || record.status
                == AsyncToolStatus::Running
            &&& record.progress is None
            &&& record.result is None
            &&& record.error is None
            &&& record.cancel_reason is None
            &&& record.completed_at_ms is None
            &&& is_identifier(record.tool_call_id)
            &&& is_identifier(record.tool_name)
            &&& payload_fault(record.input) is None
            &&& record.auto_wait_seconds matches Some(seconds) ==> 1 <= seconds <= 600
        },
{
    lemma_texts();
}

/// The record of a call is sound exactly if it holds what belongs to its status and nothing else: a
/// result where it completed, an error where it failed or was lost in a restart, a reason where it
/// was cancelled, and nothing before that; and it ends at a time that is not before its start.
pub proof fn calls_hold_what_belongs_to_their_status(record: AsyncToolCallRecordView)
    ensures
        ({
            let ended = record.completed_at_ms matches Some(time) && time >= 0 && time
                >= record.started_at_ms;
            outcome_fault(record) is None <==> match record.status {
                AsyncToolStatus::Planned
                | AsyncToolStatus::Running
                | AsyncToolStatus::UnknownOutcome => record.result is None && record.error is None
                    && record.cancel_reason is None && record.completed_at_ms is None,
                AsyncToolStatus::Completed => ended && (record.result matches Some(result)
                    && payload_fault(result) is None) && record.error is None
                    && record.cancel_reason is None,
                AsyncToolStatus::Failed | AsyncToolStatus::RuntimeRestarted => ended && (
                record.error matches Some(error) && is_identifier(error.class) && is_reason(
                    error.message,
                )) && record.result is None && record.cancel_reason is None,
                AsyncToolStatus::Cancelled => ended && (record.cancel_reason matches Some(reason)
                    && is_reason(reason)) && record.result is None && record.error is None,
            }
        }),
        terminal(record.status) <==> record.status == AsyncToolStatus::Completed || record.status
            == AsyncToolStatus::Failed || record.status == AsyncToolStatus::Cancelled
            || record.status == AsyncToolStatus::RuntimeRestarted,
{
    lemma_texts();
}

/// The record of a call is sound exactly if its names, its input, its wait, its start and its
/// progress are, and it holds what belongs to its status. A callback is sound exactly if its names
/// and fingerprints are.
pub proof fn call_records_are_sound(
    record: AsyncToolCallRecordView,
    binding: AsyncCallbackBindingView,
    error: ToolErrorView,
)
    ensures
        record_fault(record) is None <==> {
            &&& is_identifier(record.tool_call_id)
            &&& is_identifier(record.tool_name)
            &&& payload_fault(record.input) is None
            &&& record.auto_wait_seconds matches Some(seconds) ==> 1 <= seconds <= 600
            &&& record.started_at_ms >= 0
            &&& record.progress matches Some(progress) ==> payload_fault(progress) is None
            &&& outcome_fault(record) is None
        },
        binding_fault(binding) is None <==> {
            &&& is_identifier(binding.callback_id)
            &&& is_identifier(binding.tool_call_id)
            &&& is_identifier(binding.bearer_fingerprint)
            &&& binding.payload_fingerprint matches Some(fingerprint) ==> is_identifier(fingerprint)
        },
        tool_error_fault(error) is None <==> is_identifier(error.class) && is_reason(
            error.message,
        ),
{
    lemma_texts();
}

/// A retry leads from one attempt to the next, within the budget of the request, which is at most
/// thirty-two.
pub proof fn retries_lead_to_the_next_attempt(schedule: ModelRetryScheduleView)
    ensures
        retry_fault(schedule) is None <==> {
            &&& is_identifier(schedule.activation_id)
            &&& is_identifier(schedule.round_id)
            &&& is_identifier(schedule.request_id)
            &&& is_identifier(schedule.failed_attempt_id)
            &&& is_identifier(schedule.next_attempt_id)
            &&& is_identifier(schedule.error_class)
            &&& 1 <= schedule.failed_attempt_number
            &&& schedule.next_attempt_number == schedule.failed_attempt_number + 1
            &&& schedule.next_attempt_number <= schedule.maximum_attempts <= 32
            &&& schedule.not_before_ms >= 0
        },
{
    lemma_texts();
}

/// The attempts are used up with the last one of the budget.
pub proof fn exhaustion_is_the_last_attempt(fact: ModelAttemptsExhaustedFactView)
    ensures
        exhausted_fault(fact) is None <==> {
            &&& is_identifier(fact.activation_id)
            &&& is_identifier(fact.round_id)
            &&& is_identifier(fact.request_id)
            &&& is_identifier(fact.attempt_id)
            &&& 1 <= fact.attempt_number <= 32
            &&& fact.attempt_number == fact.maximum_attempts
            &&& fact.finished_at_ms >= 0
        },
{
    lemma_texts();
}

/// A plan and a document of a handoff are sound exactly if their names are, their generation is at
/// least the second, and their tokens are counted; the document has words, and not too many.
pub proof fn handoffs_are_sound(
    plan: ContextHandoffPlanView,
    handoff: ContextHandoffDocumentView,
)
    ensures
        plan_fault(plan) is None <==> {
            &&& is_identifier(plan.plan_id)
            &&& is_identifier(plan.activation_id)
            &&& plan.previous_handoff_id matches Some(id) ==> is_identifier(id)
            &&& is_identifier(plan.covered_through_message_id)
            &&& is_identifier(plan.source_digest)
            &&& plan.next_generation >= 2
            &&& plan.source_tokens > 0
            &&& plan.token_accounting_version > 0
            &&& model_fault(plan.selection) is None
        },
        document_fault(handoff) is None <==> {
            &&& is_identifier(handoff.handoff_id)
            &&& is_identifier(handoff.plan_id)
            &&& handoff.previous_handoff_id matches Some(id) ==> is_identifier(id)
            &&& is_identifier(handoff.covered_through_message_id)
            &&& is_identifier(handoff.source_digest)
            &&& is_identifier(handoff.document_digest)
            &&& handoff.document.len() > 0
            &&& byte_len(handoff.document) <= 262144
            &&& handoff.next_generation >= 2
            &&& handoff.source_tokens > 0
            &&& handoff.document_tokens > 0
            &&& handoff.token_accounting_version > 0
            &&& model_fault(handoff.selection) is None
        },
{
    lemma_texts();
}

/// The tokens of a request are counted where they are kept.
pub proof fn usage_is_sound(usage: ModelUsageAnchorView)
    ensures
        usage_fault(usage) is None <==> {
            &&& usage.context_generation > 0
            &&& usage.input_tokens > 0
            &&& usage.local_input_estimate_tokens != Some(0u64)
            &&& usage.input_estimate_scale_millionths != Some(0u64)
            &&& is_identifier(usage.selection_fingerprint)
            &&& is_identifier(usage.tool_schema_fingerprint)
            &&& is_identifier(usage.result_message_id)
        },
{
    lemma_texts();
}

/// An activation is sound exactly if its name and its selection are, its versions count, and its
/// time can be.
pub proof fn activations_are_sound(activation: ActiveActivationView)
    ensures
        activation_fault(activation) is None <==> {
            &&& is_identifier(activation.activation_id)
            &&& selection_fault(activation.selection) is None
            &&& activation.selection_version > 0
            &&& activation.minimum_auth_revision > 0
            &&& activation.started_at_ms >= 0
        },
{
    lemma_texts();
}

/// A round is sound exactly if its names, its boundary and its time are; its request is its own and
/// sound; its attempt and its retry are those of the request, within its budget; and without a
/// request it has neither.
pub proof fn rounds_are_sound(
    round: ActiveModelRoundView,
    request: ModelRequestFactView,
    attempt: ModelAttemptRecordView,
)
    ensures
        attempt_fault(round, request, attempt) is None <==> {
            &&& attempt.activation_id == round.activation_id
            &&& attempt.round_id == round.round_id
            &&& attempt.request_id == request.request_id
            &&& is_identifier(attempt.attempt_id)
            &&& 1 <= attempt.attempt_number <= request.maximum_attempts
            &&& attempt.auth_revision > 0
            &&& attempt.started_at_ms >= 0
        },
        request_fault(round, request) is None <==> {
            &&& is_identifier(request.request_id)
            &&& request.activation_id == round.activation_id
            &&& request.round_id == round.round_id
            &&& is_identifier(request.request_fingerprint)
            &&& is_identifier(request.provider_execution_fingerprint)
            &&& is_identifier(request.prompt_fingerprint)
            &&& is_identifier(request.tool_schema_fingerprint)
            &&& request.legacy_envelope matches Some(envelope) ==> payload_fault(envelope) is None
            &&& 1 <= request.maximum_attempts <= 32
            &&& request.minimum_auth_revision > 0
            &&& round.attempt matches Some(held) ==> attempt_fault(round, request, held) is None
        },
        round_fault(round) is None <==> {
            &&& is_identifier(round.activation_id)
            &&& is_identifier(round.round_id)
            &&& round.started_at_ms >= 0
            &&& round.delivery_through_queue_id > 0
            &&& round.request matches Some(held) ==> {
                &&& request_fault(round, held) is None
                &&& round.retry matches Some(schedule) ==> {
                    &&& retry_fault(schedule) is None
                    &&& schedule.activation_id == round.activation_id
                    &&& schedule.round_id == round.round_id
                    &&& schedule.request_id == held.request_id
                }
            }
            &&& round.request is None ==> round.attempt is None && round.retry is None
        },
{
    lemma_texts();
}

/// Whether ids are those of an attempt, each of them a name.
pub open spec fn are_identifiers(
    activation_id: Seq<char>,
    round_id: Seq<char>,
    request_id: Seq<char>,
    attempt_id: Seq<char>,
) -> bool {
    is_identifier(activation_id) && is_identifier(round_id) && is_identifier(request_id)
        && is_identifier(attempt_id)
}

/// The events of a session, its deliveries, its history and its waits are sound exactly if their
/// parts are.
pub proof fn session_events_are_sound(event: SessionEventView)
    ensures
        match event {
            SessionEventView::SessionCreated {
                schema_version,
                session_id,
                owner,
                created_at_ms,
                selection,
            } => event_fault(event) is None <==> {
                &&& schema_version == 2
                &&& is_identifier(session_id)
                &&& is_identifier(owner.authority_id)
                &&& is_identifier(owner.subject)
                &&& created_at_ms >= 0
                &&& selection_fault(selection) is None
            },
            SessionEventView::ModelSelectionChanged { selection } => event_fault(event) is None
                <==> selection_fault(selection) is None,
            SessionEventView::StatusChanged { .. } => event_fault(event) is None,
            SessionEventView::DeliveryQueued { delivery } => event_fault(event) is None
                <==> delivery_fault(delivery, false) is None,
            SessionEventView::DeliveryAcknowledged { .. } => event_fault(event) is None,
            SessionEventView::DeliveryMaterialized { queue_id, message } => event_fault(event)
                is None <==> queue_id > 0 && message_fault(message) is None,
            SessionEventView::MessageAppended { message, .. } => event_fault(event) is None
                <==> message_fault(message) is None,
            SessionEventView::WaitSet { wait } => event_fault(event) is None <==> wait_fault(wait)
                is None,
            SessionEventView::WaitTimerScheduled { timer } => event_fault(event) is None
                <==> timer_fault(timer) is None,
            SessionEventView::WaitCleared { wait_id } => event_fault(event) is None
                <==> is_identifier(wait_id),
            SessionEventView::WaitExpired { wait_id } => event_fault(event) is None
                <==> is_identifier(wait_id),
            SessionEventView::DedupeRecorded { key } => event_fault(event) is None
                <==> is_identifier(key),
            _ => true,
        },
{
    lemma_texts();
    reveal(event_fault);
}

/// The events of an activation and of its handoff are sound exactly if their parts are.
pub proof fn activation_events_are_sound(event: SessionEventView)
    ensures
        match event {
            SessionEventView::ActivationStarted {
                activation_id,
                selection,
                selection_version,
                minimum_auth_revision,
                started_at_ms,
            } => event_fault(event) is None <==> {
                &&& is_identifier(activation_id)
                &&& selection_fault(selection) is None
                &&& selection_version > 0
                &&& minimum_auth_revision > 0
                &&& started_at_ms >= 0
            },
            SessionEventView::ModelRoundStarted {
                activation_id,
                round_id,
                delivery_through_queue_id,
                started_at_ms,
                ..
            } => event_fault(event) is None <==> {
                &&& is_identifier(activation_id)
                &&& is_identifier(round_id)
                &&& started_at_ms >= 0
                &&& delivery_through_queue_id > 0
            },
            SessionEventView::ContextHandoffPlanned { plan } => event_fault(event) is None
                <==> plan_fault(plan) is None,
            SessionEventView::ContextHandoffCreated { handoff } => event_fault(event) is None
                <==> document_fault(handoff) is None,
            SessionEventView::ContextHandoffFailed { plan_id, error, finished_at_ms } => {
                event_fault(event) is None <==> is_identifier(plan_id) && is_reason(error.message)
                    && finished_at_ms >= 0
            },
            SessionEventView::ActivationFinished { activation_id, finished_at_ms, .. } => {
                event_fault(event) is None <==> is_identifier(activation_id) && finished_at_ms >= 0
            },
            SessionEventView::ModelAttemptFailed { failure } => event_fault(event) is None
                <==> is_identifier(failure.trigger_message_id) && is_reason(failure.error.message),
            _ => true,
        },
{
    lemma_texts();
    reveal(event_fault);
}

/// The events of a request and its attempts are sound exactly if their names are, their numbers are
/// in their bounds, and their times can be.
pub proof fn attempt_events_are_sound(event: SessionEventView)
    ensures
        match event {
            SessionEventView::ModelRequestDeclared {
                activation_id,
                round_id,
                request_id,
                request_fingerprint,
                provider_execution_fingerprint,
                prompt_fingerprint,
                tool_schema_fingerprint,
                maximum_attempts,
                minimum_auth_revision,
            } => event_fault(event) is None <==> {
                &&& are_identifiers(activation_id, round_id, request_id, request_fingerprint)
                &&& is_identifier(provider_execution_fingerprint)
                &&& is_identifier(prompt_fingerprint)
                &&& is_identifier(tool_schema_fingerprint)
                &&& 1 <= maximum_attempts <= 32
                &&& minimum_auth_revision > 0
            },
            SessionEventView::ModelAttemptStarted {
                activation_id,
                round_id,
                request_id,
                attempt_id,
                attempt_number,
                auth_revision,
                started_at_ms,
            } => event_fault(event) is None <==> {
                &&& are_identifiers(activation_id, round_id, request_id, attempt_id)
                &&& 1 <= attempt_number <= 32
                &&& auth_revision > 0
                &&& started_at_ms >= 0
            },
            SessionEventView::ModelAttemptFailedFact {
                activation_id,
                round_id,
                request_id,
                attempt_id,
                attempt_number,
                error_class,
                ..
            } => event_fault(event) is None <==> {
                &&& are_identifiers(activation_id, round_id, request_id, attempt_id)
                &&& is_identifier(error_class)
                &&& 1 <= attempt_number <= 32
            },
            SessionEventView::ModelAttemptInterrupted {
                activation_id,
                round_id,
                request_id,
                attempt_id,
                attempt_number,
                reason,
            } => event_fault(event) is None <==> {
                &&& are_identifiers(activation_id, round_id, request_id, attempt_id)
                &&& is_reason(reason)
                &&& 1 <= attempt_number <= 32
            },
            SessionEventView::ModelRequestAbandoned {
                activation_id,
                round_id,
                request_id,
                attempt_id,
                reason,
                abandoned_at_ms,
            } => event_fault(event) is None <==> {
                &&& are_identifiers(activation_id, round_id, request_id, attempt_id)
                &&& is_reason(reason)
                &&& abandoned_at_ms >= 0
            },
            SessionEventView::ModelAttemptsExhausted { fact } => event_fault(event) is None
                <==> exhausted_fault(fact) is None,
            SessionEventView::ModelStepRetryScheduled { schedule } => event_fault(event) is None
                <==> retry_fault(schedule) is None,
            SessionEventView::ModelRequestCompleted {
                activation_id,
                round_id,
                request_id,
                attempt_id,
                usage,
            } => event_fault(event) is None <==> {
                &&& are_identifiers(activation_id, round_id, request_id, attempt_id)
                &&& usage matches Some(held) ==> usage_fault(held) is None
            },
            _ => true,
        },
{
    lemma_texts();
    reveal(event_fault);
}

/// The events of tool calls and their callbacks are sound exactly if their names are, what they
/// bring is, and their times can be.
pub proof fn tool_events_are_sound(event: SessionEventView)
    ensures
        match event {
            SessionEventView::AsyncToolCallStarted { record } => event_fault(event) is None
                <==> started_record_fault(record) is None,
            SessionEventView::AsyncToolCallRunning { tool_call_id } => event_fault(event) is None
                <==> is_identifier(tool_call_id),
            SessionEventView::AsyncToolCallUnknownOutcome { tool_call_id, reason } => {
                event_fault(event) is None <==> is_identifier(tool_call_id) && is_reason(reason)
            },
            SessionEventView::AsyncToolCallRuntimeRestarted {
                tool_call_id,
                reason,
                completed_at_ms,
            } => event_fault(event) is None <==> is_identifier(tool_call_id) && is_reason(reason)
                && completed_at_ms >= 0,
            SessionEventView::AsyncToolCallCallbackPlanned { binding } => event_fault(event)
                is None <==> binding_fault(binding) is None,
            SessionEventView::AsyncToolCallCallbackCompleted {
                callback_id,
                tool_call_id,
                payload_fingerprint,
                result,
                completed_at_ms,
            } => event_fault(event) is None <==> is_identifier(callback_id) && is_identifier(
                tool_call_id,
            ) && is_identifier(payload_fingerprint) && payload_fault(result) is None
                && completed_at_ms >= 0,
            SessionEventView::AsyncToolCallCallbackFailed {
                callback_id,
                tool_call_id,
                payload_fingerprint,
                error,
                completed_at_ms,
            } => event_fault(event) is None <==> is_identifier(callback_id) && is_identifier(
                tool_call_id,
            ) && is_identifier(payload_fingerprint) && tool_error_fault(error) is None
                && completed_at_ms >= 0,
            SessionEventView::AsyncToolCallProgress { tool_call_id, progress } => event_fault(event)
                is None <==> is_identifier(tool_call_id) && payload_fault(progress) is None,
            SessionEventView::AsyncToolCallCompleted { tool_call_id, result, completed_at_ms } => {
                event_fault(event) is None <==> is_identifier(tool_call_id) && payload_fault(result)
                    is None && completed_at_ms >= 0
            },
            SessionEventView::AsyncToolCallFailed { tool_call_id, error, completed_at_ms } => {
                event_fault(event) is None <==> is_identifier(tool_call_id) && tool_error_fault(
                    error,
                ) is None && completed_at_ms >= 0
            },
            SessionEventView::AsyncToolCallCancelled { tool_call_id, reason, completed_at_ms } => {
                event_fault(event) is None <==> is_identifier(tool_call_id) && is_reason(reason)
                    && completed_at_ms >= 0
            },
            _ => true,
        },
{
    lemma_texts();
    reveal(event_fault);
}

/// The keys that are remembered are at most two hundred and fifty-six, and none is empty.
pub proof fn windows_are_sound(facts: DedupeFactsView)
    ensures
        dedupe_fault(facts) is None <==> facts.recent_keys.len() <= 256
            && !facts.recent_keys.contains(Seq::<char>::empty()),
{
    lemma_texts();
}

/// A state is valid exactly if all its parts are.
pub proof fn states_are_sound(state: SessionStateView)
    ensures
        valid_state(state) <==> {
            &&& creation_fault(state) is None
            &&& dedupe_fault(state.dedupe_facts) is None
            &&& first_fault(state.transcript, history_check()) is None
            &&& last_failure_fault(state) is None
            &&& queue_fault(state) is None
            &&& active_wait_fault(state) is None
            &&& active_round_fault(state) is None
            &&& handoff_fault(state) is None
            &&& round_purpose_fault(state) is None
            &&& calls_fault(state) is None
            &&& bindings_fault(state) is None
            &&& state.last_model_attempts_exhausted matches Some(fact) ==> exhausted_fault(fact)
                is None
        },
{
    lemma_texts();
}

/// Before its creation a session has a name and nothing else; after it, it has an owner, a time and
/// a selection in a version that counts.
pub proof fn creations_are_sound(state: SessionStateView)
    ensures
        creation_fault(state) is None <==> {
            &&& is_reason(state.session_id)
            &&& state.stream_version == 0 ==> {
                &&& state.owner is None
                &&& state.created_at_ms is None
                &&& state.selection.model is None
                &&& state.selection.tools == Seq::<Seq<char>>::empty()
                &&& state.selection.callback_base_url is None
                &&& state.selection_version == 0
            }
            &&& state.stream_version > 0 ==> {
                &&& state.owner matches Some(owner) && is_identifier(owner.authority_id)
                    && is_identifier(owner.subject)
                &&& state.created_at_ms matches Some(time) && time >= 0
                &&& selection_fault(state.selection) is None
                &&& state.selection_version > 0
            }
        },
{
    lemma_texts();
}

/// A wake and a timer belong to the wait that is active, and there is neither without one.
pub proof fn active_waits_are_sound(state: SessionStateView)
    ensures
        active_wait_fault(state) is None <==> {
            &&& state.active_wait matches Some(wait) ==> wait_fault(wait) is None
            &&& state.wake_pending_wait_id matches Some(id)
                ==> (state.active_wait matches Some(wait)
                && wait.wait_id == id)
            &&& state.active_timer matches Some(timer) ==> (state.active_wait matches Some(wait)
                && wait.wait_id == timer.wait_id && wait.deadline_ms == timer.deadline_ms)
        },
{
    lemma_texts();
}

/// A round belongs to the activation that is active, and there is none without one.
pub proof fn active_rounds_are_sound(state: SessionStateView)
    ensures
        active_round_fault(state) is None <==> {
            &&& state.active_activation matches Some(activation) ==> activation_fault(activation)
                is None
            &&& state.active_model_round matches Some(round) ==> {
                &&& round_fault(round) is None
                &&& state.active_activation matches Some(activation) && activation.activation_id
                    == round.activation_id
            }
        },
{
    lemma_texts();
}

/// While a handoff is pending, a round that is not answered is for it; and a round for a handoff
/// that is not answered has one pending, or one that failed.
pub proof fn rounds_serve_the_handoff(state: SessionStateView)
    ensures
        round_purpose_fault(state) is None <==> (state.active_model_round matches Some(round) ==> (
        round.attempt matches Some(attempt) && attempt.outcome == ModelAttemptOutcome::Completed)
            || if round.purpose == ModelRequestPurpose::Conversation {
            state.pending_context_handoff is None
        } else {
            state.pending_context_handoff is Some || state.last_context_handoff_failure is Some
        }),
{
    lemma_texts();
}

/// The queue runs on from the acknowledged delivery without a gap, with sound deliveries, at most
/// four thousand and ninety-six.
pub proof fn queues_run_on(state: SessionStateView)
    ensures
        queue_fault(state) is None ==> {
            &&& state.delivery_queue.len() <= 4096
            &&& forall|i: int|
                0 <= i < state.delivery_queue.len() ==> {
                    &&& (#[trigger] state.delivery_queue[i]).queue_id == state.delivery_ack + 1 + i
                    &&& delivery_fault(state.delivery_queue[i], true) is None
                }
        },
        state.delivery_queue.len() == 0 && state.delivery_ack < u64::MAX ==> queue_fault(state)
            is None,
{
    lemma_texts();
    let queue = state.delivery_queue;
    let check = queue_check(state.delivery_ack);
    lemma_faultless(queue, check);
    if queue_fault(state) is None {
        assert forall|i: int| 0 <= i < queue.len() implies {
            &&& (#[trigger] queue[i]).queue_id == state.delivery_ack + 1 + i
            &&& delivery_fault(queue[i], true) is None
        } by {
            assert(check(queue.take(i), queue[i]) is None);
        }
    }
}

/// The messages of a history are sound and have ids of their own; only an assistant declares calls,
/// and only a tool answers one, which was declared.
pub proof fn histories_are_sound(history: Seq<TranscriptMessageView>, i: int, j: int)
    requires
        first_fault(history, history_check()) is None,
        0 <= i < j < history.len(),
    ensures
        message_fault(history[j]) is None,
        history[i].message_id != history[j].message_id,
        history[j].tool_calls.len() > 0 ==> history[j].role == TranscriptRole::Assistant,
        history[j].tool_call_id is Some ==> history[j].role == TranscriptRole::Tool,
        forall|a: int, b: int|
            0 <= a < history[i].tool_calls.len() && 0 <= b < history[j].tool_calls.len() ==> (
            #[trigger] history[i].tool_calls[a]).tool_call_id != (
            #[trigger] history[j].tool_calls[b]).tool_call_id,
{
    lemma_texts();
    let check = history_check();
    lemma_faultless(history, check);
    assert(check(history.take(j), history[j]) is None);
    let before = history.take(j);
    assert(before[i] == history[i]);
    let fresh = fresh_call_check(before);
    lemma_faultless(history[j].tool_calls, fresh);
    assert forall|a: int, b: int|
        0 <= a < history[i].tool_calls.len() && 0 <= b < history[j].tool_calls.len() implies (
    #[trigger] history[i].tool_calls[a]).tool_call_id != (
    #[trigger] history[j].tool_calls[b]).tool_call_id by {
        let calls = history[j].tool_calls;
        assert(fresh(calls.take(b), calls[b]) is None);
        if history[i].tool_calls[a].tool_call_id == calls[b].tool_call_id {
            assert(declares(before[i].tool_calls, calls[b].tool_call_id)) by {
                assert(before[i].tool_calls[a].tool_call_id == calls[b].tool_call_id);
            }
        }
    }
}

/// A session that is new has its name and nothing else, and is valid if the name can be one.
pub proof fn new_sessions_are_empty(session_id: Seq<char>)
    ensures
        ({
            let state = fresh_state(session_id);
            &&& state.session_id == session_id
            &&& state.stream_version == 0
            &&& state.owner is None
            &&& state.created_at_ms is None
            &&& state.transcript.len() == 0
            &&& state.delivery_queue.len() == 0
            &&& state.delivery_ack == 0
            &&& state.async_tool_calls.len() == 0
            &&& state.callback_bindings.len() == 0
            &&& state.dedupe_facts.recent_keys.len() == 0
            &&& state.active_activation is None
            &&& state.active_model_round is None
            &&& state.active_wait is None
            &&& state.pending_context_handoff is None
            &&& state.latest_context_handoff is None
            &&& is_reason(session_id) ==> valid_state(state)
        }),
{
    lemma_texts();
}

/// A continuation is sound exactly if its names are, its version counts, and it is at most
/// sixty-four kilobytes long.
pub proof fn continuations_are_sound(continuation: OpaqueContinuationView)
    ensures
        continuation_fault(continuation) is None <==> is_identifier(continuation.provider_type)
            && continuation.codec_version > 0 && is_identifier(continuation.semantic_kind)
            && continuation.bytes.len() <= 65536,
{
    lemma_texts();
}

/// An owner is sound exactly if its authority and its subject can name something.
pub proof fn owners_are_sound(owner: SessionOwnerView)
    ensures
        owner_fault(owner) is None <==> is_identifier(owner.authority_id) && is_identifier(
            owner.subject,
        ),
{
    lemma_texts();
}

/// A text is refused by the first thing that is wrong with it, and the fault names the field and
/// the bound.
pub proof fn faults_of_texts_name_the_field(field: Seq<char>, text: Seq<char>, time: i64)
    ensures
        text.len() == 0 ==> {
            &&& identifier_fault(field, text) == Some(DomainErrorView::EmptyField { field })
            &&& fingerprint_fault(field, text) == Some(DomainErrorView::EmptyField { field })
            &&& bounded_text_fault(field, text) == Some(DomainErrorView::EmptyField { field })
        },
        text.len() > 0 && byte_len(text) > 512 ==> {
            &&& identifier_fault(field, text) matches Some(fault)
                && fault matches DomainErrorView::TextTooLarge { field: told, max, .. } && told
                == field && max == 512
            &&& fingerprint_fault(field, text) == identifier_fault(field, text)
        },
        text.len() > 0 && byte_len(text) > 8192 ==> {
            &&& bounded_text_fault(field, text) matches Some(fault)
                && fault matches DomainErrorView::TextTooLarge { field: told, max, .. } && told
                == field && max == 8192
        },
        text.len() > 0 && byte_len(text) <= 512 && has_control(text) ==> identifier_fault(
            field,
            text,
        ) == Some(DomainErrorView::InvalidState(field + " contains a control character"@)),
        time < 0 ==> timestamp_fault(field, time) == Some(
            DomainErrorView::InvalidTimestamp { field },
        ),
{
    reveal(identifier_fault);
    reveal(fingerprint_fault);
    reveal(bounded_text_fault);
}

/// A queue that runs on from the acknowledged delivery, with sound deliveries, is sound exactly if
/// it holds at most four thousand and ninety-six.
pub proof fn queues_are_bounded(state: SessionStateView)
    requires
        state.delivery_ack + state.delivery_queue.len() < u64::MAX,
        forall|i: int|
            0 <= i < state.delivery_queue.len() ==> {
                &&& (#[trigger] state.delivery_queue[i]).queue_id == state.delivery_ack + 1 + i
                &&& delivery_fault(state.delivery_queue[i], true) is None
            },
    ensures
        queue_fault(state) is None <==> state.delivery_queue.len() <= 4096,
{
    let queue = state.delivery_queue;
    let check = queue_check(state.delivery_ack);
    lemma_faultless(queue, check);
    assert forall|i: int| 0 <= i < queue.len() implies check(#[trigger] queue.take(i), queue[i])
        is None by {
        assert(queue[i].queue_id == state.delivery_ack + 1 + i);
    }
}

/// What is stored is of the first schema, the creation of a session of the second; the tool that
/// waits has its name; and a state holds so many continuations and no more.
pub proof fn schemas_are_fixed()
    ensures
        EVENT_SCHEMA_VERSION == 1,
        STATE_SCHEMA_VERSION == 1,
        REDUCER_SCHEMA_VERSION == 1,
        SESSION_CREATED_SCHEMA_VERSION == 2,
        WAIT_FOR_TOOL_NAME@ == "wait_for"@,
        MAX_TRANSCRIPT_MESSAGES == 8192,
        MAX_DELIVERY_QUEUE_ITEMS == 4096,
        MAX_ASYNC_TOOL_CALLS == 1024,
        MAX_OPAQUE_CONTINUATIONS == 8,
        MAX_RECENT_DEDUPE_FACTS == 256,
{
}

} // verus!
