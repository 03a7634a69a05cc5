//! When the parts of two sessions are the same, and how they hang together in one.

use super::history::{
    call_named, declared_call, declaring, has_message, has_user_message, is_declared,
};
use super::model::{
    document_agrees, document_fault, plan_agrees, plan_fault, usage_fault,
    ContextHandoffDocumentView, ContextHandoffPlanView,
};
use super::payload::{payload_agrees, DurablePayloadView};
use super::selection::{
    chosen_model_agrees, model_agrees, SessionModelSelectionView,
};
use super::state::{
    binding_entry_check, bindings_fault, call_entry_check, calls_fault, expected_generation,
    handoff_fault, last_failure_fault, latest_handoff_id, SessionStateView,
};
use super::tools::{
    binding_fault, record_agrees, record_fault, AsyncToolCallRecordView, AsyncToolStatus,
    CompletionMode,
};
use super::transcript::{
    call_agrees, declares, delivery_agrees, message_agrees, QueuedDeliveryView, ToolCallView,
    TranscriptMessageView, TranscriptRole,
};
use super::validity::{is_identifier, is_reason};
use crate::checks::{first_match, lemma_faultless, lemma_first_index_sound};
use super::rules::{bounded_text_fault, identifier_fault};
use crate::json::json_equal;
use crate::text_map::lookup;
use vstd::prelude::*;

verus! {

/// Payloads are the same exactly if they are of a kind and hold the same: a value that is held and
/// its length, a blob in every part, or a reason.
pub proof fn payloads_are_the_same(left: DurablePayloadView, right: DurablePayloadView)
    ensures
        payload_agrees(left, right) <==> match (left, right) {
            (DurablePayloadView::Inline(a), DurablePayloadView::Inline(b)) => json_equal(
                a.value,
                b.value,
            ) && a.encoded_len == b.encoded_len,
            (DurablePayloadView::BlobRef(a), DurablePayloadView::BlobRef(b)) => a.blob_id
                == b.blob_id && a.sha256 == b.sha256 && a.byte_len == b.byte_len && a.media_type
                == b.media_type,
            (DurablePayloadView::Redacted(a), DurablePayloadView::Redacted(b)) => a.reason
                == b.reason,
            _ => false,
        },
{
}

/// Calls, messages and deliveries are the same exactly if every part of them is.
pub proof fn messages_are_the_same(
    left: TranscriptMessageView,
    right: TranscriptMessageView,
    call: ToolCallView,
    other: ToolCallView,
    delivery: QueuedDeliveryView,
    second: QueuedDeliveryView,
)
    ensures
        call_agrees(call, other) <==> call.tool_call_id == other.tool_call_id && call.tool_name
            == other.tool_name && payload_agrees(call.input, other.input),
        message_agrees(left, right) <==> {
            &&& left.message_id == right.message_id
            &&& left.role == right.role
            &&& left.content == right.content
            &&& left.tool_call_id == right.tool_call_id
            &&& left.dedupe_key == right.dedupe_key
            &&& left.source_queue_id == right.source_queue_id
            &&& left.tool_calls.len() == right.tool_calls.len()
            &&& forall|i: int|
                0 <= i < left.tool_calls.len() ==> call_agrees(
                    #[trigger] left.tool_calls[i],
                    right.tool_calls[i],
                )
        },
        delivery_agrees(delivery, second) <==> {
            &&& delivery.queue_id == second.queue_id
            &&& delivery.delivery_id == second.delivery_id
            &&& delivery.kind == second.kind
            &&& payload_agrees(delivery.payload, second.payload)
            &&& delivery.dedupe_key == second.dedupe_key
            &&& delivery.wake == second.wake
            &&& delivery.created_at_ms == second.created_at_ms
            &&& delivery.source_tool_call_id == second.source_tool_call_id
            &&& delivery.materialized_message_id == second.materialized_message_id
        },
{
}

/// Records of calls are the same exactly if every part of them is.
pub proof fn calls_are_the_same(left: AsyncToolCallRecordView, right: AsyncToolCallRecordView)
    ensures
        record_agrees(left, right) <==> {
            &&& left.tool_call_id == right.tool_call_id
            &&& left.tool_name == right.tool_name
            &&& payload_agrees(left.input, right.input)
            &&& left.status == right.status
            &&& left.started_at_ms == right.started_at_ms
            &&& left.auto_wait_seconds == right.auto_wait_seconds
            &&& left.completion_mode == right.completion_mode
            &&& left.retry_dispatch_deduplicated == right.retry_dispatch_deduplicated
            &&& left.error == right.error
            &&& left.cancel_reason == right.cancel_reason
            &&& left.completed_at_ms == right.completed_at_ms
            &&& left.progress is Some == right.progress is Some
            &&& left.progress is Some ==> payload_agrees(left.progress->0, right.progress->0)
            &&& left.result is Some == right.result is Some
            &&& left.result is Some ==> payload_agrees(left.result->0, right.result->0)
        },
{
}

/// Selected models are the same exactly if every part of them is, their options key by key.
pub proof fn models_are_the_same(
    left: SessionModelSelectionView,
    right: SessionModelSelectionView,
    chosen: Option<SessionModelSelectionView>,
)
    ensures
        model_agrees(left, right) <==> {
            let a = left.provider_execution;
            let b = right.provider_execution;
            &&& left.provider == right.provider
            &&& left.model == right.model
            &&& left.limits == right.limits
            &&& left.auth_authority_id == right.auth_authority_id
            &&& left.auth_profile_id == right.auth_profile_id
            &&& left.auth_revision == right.auth_revision
            &&& a.schema == b.schema
            &&& a.revision == b.revision
            &&& a.kind == b.kind
            &&& a.base_url == b.base_url
            &&& a.options.len() == b.options.len()
            &&& forall|i: int|
                0 <= i < a.options.len() ==> (#[trigger] a.options[i]).0 == b.options[i].0
                    && json_equal(a.options[i].1, b.options[i].1)
        },
        chosen_model_agrees(chosen, right) <==> chosen is Some && model_agrees(chosen->0, right),
{
}

/// Plans and documents of handoffs are the same exactly if every part of them is.
pub proof fn handoffs_are_the_same(
    left: ContextHandoffPlanView,
    right: ContextHandoffPlanView,
    first: ContextHandoffDocumentView,
    second: ContextHandoffDocumentView,
)
    ensures
        plan_agrees(left, right) <==> {
            &&& left.plan_id == right.plan_id
            &&& left.activation_id == right.activation_id
            &&& left.previous_handoff_id == right.previous_handoff_id
            &&& left.next_generation == right.next_generation
            &&& left.covered_through_message_id == right.covered_through_message_id
            &&& left.source_digest == right.source_digest
            &&& left.source_tokens == right.source_tokens
            &&& left.token_accounting_version == right.token_accounting_version
            &&& model_agrees(left.selection, right.selection)
        },
        document_agrees(first, second) <==> {
            &&& first.handoff_id == second.handoff_id
            &&& first.plan_id == second.plan_id
            &&& first.previous_handoff_id == second.previous_handoff_id
            &&& first.next_generation == second.next_generation
            &&& first.covered_through_message_id == second.covered_through_message_id
            &&& first.source_digest == second.source_digest
            &&& first.document == second.document
            &&& first.document_digest == second.document_digest
            &&& first.source_tokens == second.source_tokens
            &&& first.document_tokens == second.document_tokens
            &&& first.token_accounting_version == second.token_accounting_version
            &&& model_agrees(first.selection, second.selection)
        },
{
}

/// A message that is there is found by its id, one of a user only if a user sent it, and a call
/// that a message declares is found by its id, as some message declares it.
pub proof fn messages_and_calls_are_found(
    history: Seq<TranscriptMessageView>,
    id: Seq<char>,
    i: int,
    k: int,
)
    requires
        0 <= i < history.len(),
    ensures
        history[i].message_id == id ==> has_message(history, id),
        history[i].message_id == id && history[i].role == TranscriptRole::User ==> has_user_message(
            history,
            id,
        ),
        has_user_message(history, id) ==> has_message(history, id),
        0 <= k < history[i].tool_calls.len() && history[i].tool_calls[k].tool_call_id == id
            ==> is_declared(history, id) && declared_call(history, id) is Some,
        declared_call(history, id) matches Some(call) ==> call.tool_call_id == id && exists|
            m: int,
            n: int,
        |
            0 <= m < history.len() && 0 <= n < history[m].tool_calls.len() && call
                == #[trigger] history[m].tool_calls[n],
{
    let pick = declaring(id);
    let named = call_named(id);
    lemma_first_index_sound(history, pick);
    if 0 <= k < history[i].tool_calls.len() && history[i].tool_calls[k].tool_call_id == id {
        assert(declares(history[i].tool_calls, id));
        assert(pick(history[i]));
        let message = first_match(history, pick)->0;
        lemma_first_index_sound(message.tool_calls, named);
    }
    if let Some(message) = first_match(history, pick) {
        lemma_first_index_sound(message.tool_calls, named);
    }
}

/// The calls of a valid state are at most one thousand and twenty-four, each sound, under its own
/// id, and with the tool and the input with which the history declares it.
pub proof fn calls_stand_as_declared(state: SessionStateView, i: int)
    requires
        calls_fault(state) is None,
        0 <= i < state.async_tool_calls.len(),
    ensures
        state.async_tool_calls.len() <= 1024,
        ({
            let (id, record) = state.async_tool_calls[i];
            &&& id == record.tool_call_id
            &&& record_fault(record) is None
            &&& declared_call(state.transcript, id) matches Some(call) && call.tool_name
                == record.tool_name && payload_agrees(call.input, record.input)
        }),
{
    let check = call_entry_check(state.transcript);
    lemma_faultless(state.async_tool_calls, check);
    assert(check(state.async_tool_calls.take(i), state.async_tool_calls[i]) is None);
}

/// The callbacks of a valid state stand under their own ids, at most one for a call, each for a
/// call that waits for one, and with a fingerprint only once that has ended.
pub proof fn callbacks_stand_for_calls(state: SessionStateView, i: int, j: int)
    requires
        bindings_fault(state) is None,
        0 <= i < j < state.callback_bindings.len(),
    ensures
        state.callback_bindings.len() <= 1024,
        state.callback_bindings[i].1.tool_call_id != state.callback_bindings[j].1.tool_call_id,
        ({
            let (id, binding) = state.callback_bindings[j];
            &&& id == binding.callback_id
            &&& binding_fault(binding) is None
            &&& lookup(state.async_tool_calls, binding.tool_call_id) matches Some(record) && {
                &&& record.completion_mode == CompletionMode::ExternalCallback
                &&& binding.payload_fingerprint is Some ==> record.status
                    != AsyncToolStatus::Planned && record.status != AsyncToolStatus::Running
                    && record.status != AsyncToolStatus::UnknownOutcome
            }
        }),
{
    let check = binding_entry_check(state.async_tool_calls);
    lemma_faultless(state.callback_bindings, check);
    assert(check(state.callback_bindings.take(j), state.callback_bindings[j]) is None);
    assert(state.callback_bindings.take(j)[i] == state.callback_bindings[i]);
}

/// A handoff that is pending belongs to the activation, follows on the latest one, leads to the
/// generation after it, and covers a message of the history; the latest one covers one too; and the
/// last failure is that of a message of a user.
pub proof fn handoffs_follow_on(state: SessionStateView)
    ensures
        handoff_fault(state) is None <==> {
            &&& state.pending_context_handoff matches Some(plan) ==> {
                &&& plan_fault(plan) is None
                &&& state.active_activation matches Some(activation) && activation.activation_id
                    == plan.activation_id && chosen_model_agrees(
                    activation.selection.model,
                    plan.selection,
                )
                &&& plan.previous_handoff_id == latest_handoff_id(state)
                &&& plan.next_generation == expected_generation(state)
                &&& has_message(state.transcript, plan.covered_through_message_id)
            }
            &&& state.latest_context_handoff matches Some(handoff) ==> document_fault(handoff)
                is None && has_message(state.transcript, handoff.covered_through_message_id)
            &&& state.latest_model_usage matches Some(usage) ==> usage_fault(usage) is None
            &&& state.last_context_handoff_failure matches Some(error) ==> is_reason(error.message)
        },
        latest_handoff_id(state) is Some <==> state.latest_context_handoff is Some,
        state.latest_context_handoff matches Some(handoff) ==> latest_handoff_id(state) == Some(
            handoff.handoff_id,
        ) && (handoff.next_generation < u64::MAX ==> expected_generation(state)
            == handoff.next_generation + 1),
        state.latest_context_handoff is None ==> expected_generation(state) == 2,
        last_failure_fault(state) is None <==> (
        state.last_model_attempt_failure matches Some(failure) ==> is_identifier(
            failure.trigger_message_id,
        ) && is_reason(failure.error.message) && has_user_message(
            state.transcript,
            failure.trigger_message_id,
        )),
{
    reveal(identifier_fault);
    reveal(bounded_text_fault);
}

} // verus!
