//! Batches of events: what a decision on one keeps, and when one is answered as empty.

use super::delivery::{acknowledge_step, append_step, materialize_step, new_call_check, queue_step};
use super::handoff::{document_step, handoff_failed_step, plan_step};
use super::laws::{
    decision_counts_effective_events, distinct_keys, effective_events_are_a_part,
    effective_events_suffice, is_subsequence,
};
use super::model::{
    abandoned_step, activation_finished_step, activation_started_step, attempt_ended_step,
    attempt_started_step, completed_step, current_attempt, exhausted_step, model_failed_step,
    request_declared_step, retry_step, round_started_step,
};
use super::step::Step;
use super::tools::{
    call_ended_step, call_running_step, call_started_step, callback_ended_step,
    callback_planned_step, outcome_unknown_step, progress_step, restarted_step, CallEndView,
};
use super::waits::{timer_step, wait_ended_step, wait_set_step};
use super::{
    applied, applied_all, applied_events, created_step, decided, dedupe_step, payload_step,
    reselected_step,
};
use crate::checks::first_fault;
use crate::domain::error::DomainErrorView;
use crate::domain::event::{event_fault, SessionEventView};
use crate::domain::model::{
    activation_fault, document_fault, exhausted_fault, model_error_fault, model_failure_fault,
    plan_fault, retry_fault, round_fault, usage_fault, ActiveActivationView, ActiveModelRoundView,
    ContextHandoffDocumentView, ContextHandoffPlanView, ModelAttemptErrorView,
    ModelAttemptFailureView, ModelAttemptOutcome, ModelAttemptRecordView,
    ModelAttemptsExhaustedFactView, ModelRequestFactView, ModelRequestPurpose,
    ModelRetryScheduleView, ModelUsageAnchorView,
};
use crate::domain::payload::{payload_fault, DurablePayloadView};
use crate::domain::rules::{bounded_text_fault, fingerprint_fault, identifier_fault};
use crate::domain::selection::{
    model_fault, owner_fault, selected_tool_check, selection_fault, SessionModelSelectionView,
    SessionOwnerView, SessionSelectionView,
};
use crate::domain::state::{
    binding_entry_check, call_entry_check, fresh_call_check, history_check, queue_check,
    state_fault, BindingEntry, CallEntry, SessionStateView,
};
use crate::domain::tools::{
    binding_fault, record_fault, started_record_fault, tool_error_fault, AsyncCallbackBindingView,
    AsyncToolCallRecordView, ToolErrorView,
};
use crate::domain::transcript::{
    declared_call_check, delivery_fault, message_fault, QueuedDeliveryView, ToolCallView,
    TranscriptMessageView,
};
use crate::domain::waits::{
    awaited_call_check, timer_fault, wait_fault, ActiveWaitView, WaitTimerIntentView,
};
use vstd::prelude::*;

verus! {

/// Whether a fault is that of an empty batch.
spec fn is_batch_fault(fault: Option<DomainErrorView>) -> bool {
    fault == Some(DomainErrorView::EmptyEventBatch)
}

/// Whether a step is not refused for an empty batch.
spec fn is_ordinary(step: Step) -> bool {
    step matches Err(fault) ==> fault != DomainErrorView::EmptyEventBatch
}

proof fn lemma_first_fault_of_none<A>(
    items: Seq<A>,
    check: spec_fn(Seq<A>, A) -> Option<DomainErrorView>,
)
    requires
        forall|before: Seq<A>, item: A| !is_batch_fault(#[trigger] check(before, item)),
    ensures
        !is_batch_fault(first_fault(items, check)),
    decreases items.len(),
{
    if items.len() > 0 {
        lemma_first_fault_of_none(items.drop_last(), check);
    }
}

proof fn lemma_rules()
    ensures
        forall|field: Seq<char>, value: Seq<char>|
            !is_batch_fault(#[trigger] identifier_fault(field, value)),
        forall|field: Seq<char>, value: Seq<char>|
            !is_batch_fault(#[trigger] bounded_text_fault(field, value)),
        forall|field: Seq<char>, value: Seq<char>|
            !is_batch_fault(#[trigger] fingerprint_fault(field, value)),
{
    reveal(identifier_fault);
    reveal(bounded_text_fault);
    reveal(fingerprint_fault);
}

proof fn lemma_parts()
    ensures
        forall|model: SessionModelSelectionView| !is_batch_fault(#[trigger] model_fault(model)),
        forall|owner: SessionOwnerView| !is_batch_fault(#[trigger] owner_fault(owner)),
        forall|payload: DurablePayloadView| !is_batch_fault(#[trigger] payload_fault(payload)),
        forall|delivery: QueuedDeliveryView, materialized: bool|
            !is_batch_fault(#[trigger] delivery_fault(delivery, materialized)),
        forall|error: ModelAttemptErrorView| !is_batch_fault(#[trigger] model_error_fault(error)),
        forall|failure: ModelAttemptFailureView|
            !is_batch_fault(#[trigger] model_failure_fault(failure)),
        forall|usage: ModelUsageAnchorView| !is_batch_fault(#[trigger] usage_fault(usage)),
        forall|plan: ContextHandoffPlanView| !is_batch_fault(#[trigger] plan_fault(plan)),
        forall|handoff: ContextHandoffDocumentView|
            !is_batch_fault(#[trigger] document_fault(handoff)),
        forall|fact: ModelAttemptsExhaustedFactView|
            !is_batch_fault(#[trigger] exhausted_fault(fact)),
        forall|retry: ModelRetryScheduleView| !is_batch_fault(#[trigger] retry_fault(retry)),
        forall|error: ToolErrorView| !is_batch_fault(#[trigger] tool_error_fault(error)),
        forall|record: AsyncToolCallRecordView| !is_batch_fault(#[trigger] record_fault(record)),
        forall|record: AsyncToolCallRecordView|
            !is_batch_fault(#[trigger] started_record_fault(record)),
        forall|binding: AsyncCallbackBindingView|
            !is_batch_fault(#[trigger] binding_fault(binding)),
        forall|timer: WaitTimerIntentView| !is_batch_fault(#[trigger] timer_fault(timer)),
{
    lemma_rules();
}

proof fn lemma_selection(selection: SessionSelectionView)
    ensures
        !is_batch_fault(selection_fault(selection)),
{
    lemma_rules();
    lemma_parts();
    let check = selected_tool_check();
    assert forall|before: Seq<Seq<char>>, name: Seq<char>|
        !is_batch_fault(#[trigger] check(before, name)) by {}
    lemma_first_fault_of_none(selection.tools, check);
}

proof fn lemma_message(message: TranscriptMessageView)
    ensures
        !is_batch_fault(message_fault(message)),
{
    lemma_rules();
    lemma_parts();
    let check = declared_call_check(message.tool_call_id);
    assert forall|before: Seq<ToolCallView>, call: ToolCallView|
        !is_batch_fault(#[trigger] check(before, call)) by {}
    lemma_first_fault_of_none(message.tool_calls, check);
}

proof fn lemma_wait(wait: ActiveWaitView)
    ensures
        !is_batch_fault(wait_fault(wait)),
{
    lemma_rules();
    let check = awaited_call_check();
    assert forall|before: Seq<Seq<char>>, id: Seq<char>|
        !is_batch_fault(#[trigger] check(before, id)) by {}
    lemma_first_fault_of_none(wait.tool_call_ids, check);
}

#[verifier::rlimit(40)]
#[verifier::spinoff_prover]
proof fn lemma_event(event: SessionEventView)
    ensures
        !is_batch_fault(event_fault(event)),
{
    reveal(event_fault);
    lemma_rules();
    lemma_parts();
    match event {
        SessionEventView::SessionCreated { selection, .. } => lemma_selection(selection),
        SessionEventView::ModelSelectionChanged { selection } => lemma_selection(selection),
        SessionEventView::ActivationStarted { selection, .. } => lemma_selection(selection),
        SessionEventView::DeliveryMaterialized { message, .. } => lemma_message(message),
        SessionEventView::MessageAppended { message, .. } => lemma_message(message),
        SessionEventView::WaitSet { wait } => lemma_wait(wait),
        _ => {},
    }
}

proof fn lemma_history(history: Seq<TranscriptMessageView>)
    ensures
        !is_batch_fault(first_fault(history, history_check())),
{
    let check = history_check();
    assert forall|before: Seq<TranscriptMessageView>, message: TranscriptMessageView|
        !is_batch_fault(#[trigger] check(before, message)) by {
        lemma_message(message);
        let fresh = fresh_call_check(before);
        assert forall|earlier: Seq<ToolCallView>, call: ToolCallView|
            !is_batch_fault(#[trigger] fresh(earlier, call)) by {}
        lemma_first_fault_of_none(message.tool_calls, fresh);
    }
    lemma_first_fault_of_none(history, check);
}

proof fn lemma_round(round: ActiveModelRoundView, activation: ActiveActivationView)
    ensures
        !is_batch_fault(round_fault(round)),
        !is_batch_fault(activation_fault(activation)),
{
    lemma_rules();
    lemma_parts();
    lemma_selection(activation.selection);
}

proof fn lemma_entries(state: SessionStateView)
    ensures
        !is_batch_fault(first_fault(state.delivery_queue, queue_check(state.delivery_ack))),
        !is_batch_fault(first_fault(state.async_tool_calls, call_entry_check(state.transcript))),
        !is_batch_fault(
            first_fault(state.callback_bindings, binding_entry_check(state.async_tool_calls)),
        ),
{
    lemma_parts();
    let queue = queue_check(state.delivery_ack);
    assert forall|before: Seq<QueuedDeliveryView>, delivery: QueuedDeliveryView|
        !is_batch_fault(#[trigger] queue(before, delivery)) by {}
    lemma_first_fault_of_none(state.delivery_queue, queue);
    let calls = call_entry_check(state.transcript);
    assert forall|before: Seq<CallEntry>, entry: CallEntry|
        !is_batch_fault(#[trigger] calls(before, entry)) by {}
    lemma_first_fault_of_none(state.async_tool_calls, calls);
    let bindings = binding_entry_check(state.async_tool_calls);
    assert forall|before: Seq<BindingEntry>, entry: BindingEntry|
        !is_batch_fault(#[trigger] bindings(before, entry)) by {}
    lemma_first_fault_of_none(state.callback_bindings, bindings);
}

proof fn lemma_state(state: SessionStateView)
    ensures
        !is_batch_fault(state_fault(state)),
{
    lemma_parts();
    lemma_selection(state.selection);
    lemma_history(state.transcript);
    lemma_entries(state);
    if let Some(wait) = state.active_wait {
        lemma_wait(wait);
    }
    assert forall|round: ActiveModelRoundView, activation: ActiveActivationView|
        !is_batch_fault(#[trigger] round_fault(round)) && !is_batch_fault(
            #[trigger] activation_fault(activation),
        ) by {
        lemma_round(round, activation);
    }
    if let Some(activation) = state.active_activation {
        lemma_selection(activation.selection);
    }
}

proof fn ordinary_created_step(
    state: SessionStateView,
    session_id: Seq<char>,
    owner: SessionOwnerView,
    created_at_ms: i64,
    selection: SessionSelectionView,
)
    ensures
        is_ordinary(created_step(state, session_id, owner, created_at_ms, selection)),
{
    reveal(created_step);
}

proof fn ordinary_reselected_step(state: SessionStateView, selection: SessionSelectionView)
    ensures
        is_ordinary(reselected_step(state, selection)),
{
    reveal(reselected_step);
}

proof fn ordinary_queue_step(state: SessionStateView, delivery: QueuedDeliveryView)
    ensures
        is_ordinary(queue_step(state, delivery)),
{
    reveal(queue_step);
}

proof fn ordinary_acknowledge_step(state: SessionStateView, through: u64)
    ensures
        is_ordinary(acknowledge_step(state, through)),
{
    reveal(acknowledge_step);
}

proof fn ordinary_materialize_step(
    state: SessionStateView,
    queue_id: u64,
    message: TranscriptMessageView,
)
    ensures
        is_ordinary(materialize_step(state, queue_id, message)),
{
    reveal(materialize_step);
}

proof fn ordinary_append_step(
    state: SessionStateView,
    message: TranscriptMessageView,
    wake_wait: bool,
)
    ensures
        is_ordinary(append_step(state, message, wake_wait)),
{
    reveal(append_step);
    let check = new_call_check(state.transcript);
    assert forall|before: Seq<ToolCallView>, call: ToolCallView|
        !is_batch_fault(#[trigger] check(before, call)) by {}
    lemma_first_fault_of_none(message.tool_calls, check);
}

proof fn ordinary_activation_started_step(
    state: SessionStateView,
    activation_id: Seq<char>,
    selection: SessionSelectionView,
    selection_version: u64,
    minimum_auth_revision: u64,
    started_at_ms: i64,
)
    ensures
        is_ordinary(
            activation_started_step(
                state,
                activation_id,
                selection,
                selection_version,
                minimum_auth_revision,
                started_at_ms,
            ),
        ),
{
    reveal(activation_started_step);
}

proof fn ordinary_round_started_step(
    state: SessionStateView,
    activation_id: Seq<char>,
    round_id: Seq<char>,
    purpose: ModelRequestPurpose,
    delivery_through_queue_id: u64,
    started_at_ms: i64,
)
    ensures
        is_ordinary(
            round_started_step(
                state,
                activation_id,
                round_id,
                purpose,
                delivery_through_queue_id,
                started_at_ms,
            ),
        ),
{
    reveal(round_started_step);
}

proof fn ordinary_plan_step(state: SessionStateView, plan: ContextHandoffPlanView)
    ensures
        is_ordinary(plan_step(state, plan)),
{
    reveal(plan_step);
}

proof fn ordinary_document_step(state: SessionStateView, handoff: ContextHandoffDocumentView)
    ensures
        is_ordinary(document_step(state, handoff)),
{
    reveal(document_step);
}

proof fn ordinary_handoff_failed_step(
    state: SessionStateView,
    plan_id: Seq<char>,
    error: ModelAttemptErrorView,
)
    ensures
        is_ordinary(handoff_failed_step(state, plan_id, error)),
{
    reveal(handoff_failed_step);
}

proof fn ordinary_request_declared_step(state: SessionStateView, request: ModelRequestFactView)
    ensures
        is_ordinary(request_declared_step(state, request)),
{
    reveal(request_declared_step);
}

proof fn ordinary_attempt_started_step(state: SessionStateView, attempt: ModelAttemptRecordView)
    ensures
        is_ordinary(attempt_started_step(state, attempt)),
{
    reveal(attempt_started_step);
}

proof fn ordinary_attempt_ended_step(
    state: SessionStateView,
    current: Result<ModelAttemptRecordView, DomainErrorView>,
    result: ModelAttemptOutcome,
    conflict: Seq<char>,
)
    requires
        current matches Err(fault) ==> fault != DomainErrorView::EmptyEventBatch,
    ensures
        is_ordinary(attempt_ended_step(state, current, result, conflict)),
{
    reveal(attempt_ended_step);
}

proof fn ordinary_abandoned_step(
    state: SessionStateView,
    activation_id: Seq<char>,
    round_id: Seq<char>,
    request_id: Seq<char>,
    attempt_id: Seq<char>,
)
    ensures
        is_ordinary(abandoned_step(state, activation_id, round_id, request_id, attempt_id)),
{
    reveal(abandoned_step);
}

proof fn ordinary_exhausted_step(state: SessionStateView, fact: ModelAttemptsExhaustedFactView)
    ensures
        is_ordinary(exhausted_step(state, fact)),
{
    reveal(exhausted_step);
}

proof fn ordinary_retry_step(state: SessionStateView, schedule: ModelRetryScheduleView)
    ensures
        is_ordinary(retry_step(state, schedule)),
{
    reveal(retry_step);
}

proof fn ordinary_completed_step(
    state: SessionStateView,
    activation_id: Seq<char>,
    round_id: Seq<char>,
    request_id: Seq<char>,
    attempt_id: Seq<char>,
    usage: Option<ModelUsageAnchorView>,
)
    ensures
        is_ordinary(completed_step(state, activation_id, round_id, request_id, attempt_id, usage)),
{
    reveal(completed_step);
}

proof fn ordinary_activation_finished_step(state: SessionStateView, activation_id: Seq<char>)
    ensures
        is_ordinary(activation_finished_step(state, activation_id)),
{
    reveal(activation_finished_step);
}

proof fn ordinary_model_failed_step(state: SessionStateView, failure: ModelAttemptFailureView)
    ensures
        is_ordinary(model_failed_step(state, failure)),
{
    reveal(model_failed_step);
}

proof fn ordinary_wait_set_step(state: SessionStateView, wait: ActiveWaitView)
    ensures
        is_ordinary(wait_set_step(state, wait)),
{
    reveal(wait_set_step);
}

proof fn ordinary_timer_step(state: SessionStateView, timer: WaitTimerIntentView)
    ensures
        is_ordinary(timer_step(state, timer)),
{
    reveal(timer_step);
}

proof fn ordinary_wait_ended_step(state: SessionStateView, wait_id: Seq<char>)
    ensures
        is_ordinary(wait_ended_step(state, wait_id)),
{
    reveal(wait_ended_step);
}

proof fn ordinary_call_started_step(state: SessionStateView, record: AsyncToolCallRecordView)
    ensures
        is_ordinary(call_started_step(state, record)),
{
    reveal(call_started_step);
}

proof fn ordinary_call_running_step(state: SessionStateView, id: Seq<char>)
    ensures
        is_ordinary(call_running_step(state, id)),
{
    reveal(call_running_step);
}

proof fn ordinary_outcome_unknown_step(state: SessionStateView, id: Seq<char>)
    ensures
        is_ordinary(outcome_unknown_step(state, id)),
{
    reveal(outcome_unknown_step);
}

proof fn ordinary_restarted_step(
    state: SessionStateView,
    id: Seq<char>,
    reason: Seq<char>,
    completed_at_ms: i64,
)
    ensures
        is_ordinary(restarted_step(state, id, reason, completed_at_ms)),
{
    reveal(restarted_step);
}

proof fn ordinary_callback_planned_step(state: SessionStateView, binding: AsyncCallbackBindingView)
    ensures
        is_ordinary(callback_planned_step(state, binding)),
{
    reveal(callback_planned_step);
}

proof fn ordinary_callback_ended_step(
    state: SessionStateView,
    callback_id: Seq<char>,
    id: Seq<char>,
    payload_fingerprint: Seq<char>,
    end: CallEndView,
    completed_at_ms: i64,
)
    ensures
        is_ordinary(
            callback_ended_step(
                state,
                callback_id,
                id,
                payload_fingerprint,
                end,
                completed_at_ms,
            ),
        ),
{
    reveal(callback_ended_step);
}

proof fn ordinary_progress_step(
    state: SessionStateView,
    id: Seq<char>,
    progress: DurablePayloadView,
)
    ensures
        is_ordinary(progress_step(state, id, progress)),
{
    reveal(progress_step);
}

proof fn ordinary_call_ended_step(
    state: SessionStateView,
    id: Seq<char>,
    end: CallEndView,
    completed_at_ms: i64,
)
    ensures
        is_ordinary(call_ended_step(state, id, end, completed_at_ms)),
{
    reveal(call_ended_step);
}

proof fn ordinary_dedupe_step(state: SessionStateView, key: Seq<char>)
    ensures
        is_ordinary(dedupe_step(state, key)),
{
    reveal(dedupe_step);
}

proof fn lemma_payload_ordinary(state: SessionStateView, event: SessionEventView)
    ensures
        is_ordinary(payload_step(state, event)),
{
    match event {
        SessionEventView::SessionCreated { session_id, owner, created_at_ms, selection, .. } => {
            ordinary_created_step(state, session_id, owner, created_at_ms, selection);
        },
        SessionEventView::ModelSelectionChanged { selection } => {
            ordinary_reselected_step(state, selection);
        },
        SessionEventView::StatusChanged { .. } => {},
        SessionEventView::DeliveryQueued { delivery } => {
            ordinary_queue_step(state, delivery);
        },
        SessionEventView::DeliveryAcknowledged { through_queue_id } => {
            ordinary_acknowledge_step(state, through_queue_id);
        },
        SessionEventView::DeliveryMaterialized { queue_id, message } => {
            ordinary_materialize_step(state, queue_id, message);
        },
        SessionEventView::MessageAppended { message, wake_wait } => {
            ordinary_append_step(state, message, wake_wait);
        },
        SessionEventView::ActivationStarted {
            activation_id,
            selection,
            selection_version,
            minimum_auth_revision,
            started_at_ms,
        } => {
            ordinary_activation_started_step(
                state,
                activation_id,
                selection,
                selection_version,
                minimum_auth_revision,
                started_at_ms,
            );
        },
        SessionEventView::ModelRoundStarted {
            activation_id,
            round_id,
            purpose,
            delivery_through_queue_id,
            started_at_ms,
        } => {
            ordinary_round_started_step(
                state,
                activation_id,
                round_id,
                purpose,
                delivery_through_queue_id,
                started_at_ms,
            );
        },
        SessionEventView::ContextHandoffPlanned { plan } => {
            ordinary_plan_step(state, plan);
        },
        SessionEventView::ContextHandoffCreated { handoff } => {
            ordinary_document_step(state, handoff);
        },
        SessionEventView::ContextHandoffFailed { plan_id, error, .. } => {
            ordinary_handoff_failed_step(state, plan_id, error);
        },
        SessionEventView::ModelRequestPrepared {
            activation_id,
            round_id,
            request_id,
            request_fingerprint,
            provider_execution_fingerprint,
            prompt_fingerprint,
            tool_schema_fingerprint,
            envelope,
            maximum_attempts,
            minimum_auth_revision,
        } => {
            ordinary_request_declared_step(
                state,
                ModelRequestFactView {
                    activation_id,
                    round_id,
                    request_id,
                    request_fingerprint,
                    provider_execution_fingerprint,
                    prompt_fingerprint,
                    tool_schema_fingerprint,
                    legacy_envelope: Some(envelope),
                    maximum_attempts,
                    minimum_auth_revision,
                },
            );
        },
        SessionEventView::ModelRequestDeclared {
            activation_id,
            round_id,
            request_id,
            request_fingerprint,
            provider_execution_fingerprint,
            prompt_fingerprint,
            tool_schema_fingerprint,
            maximum_attempts,
            minimum_auth_revision,
        } => {
            ordinary_request_declared_step(
                state,
                ModelRequestFactView {
                    activation_id,
                    round_id,
                    request_id,
                    request_fingerprint,
                    provider_execution_fingerprint,
                    prompt_fingerprint,
                    tool_schema_fingerprint,
                    legacy_envelope: None,
                    maximum_attempts,
                    minimum_auth_revision,
                },
            );
        },
        SessionEventView::ModelAttemptStarted {
            activation_id,
            round_id,
            request_id,
            attempt_id,
            attempt_number,
            auth_revision,
            started_at_ms,
        } => {
            ordinary_attempt_started_step(
                state,
                ModelAttemptRecordView {
                    activation_id,
                    round_id,
                    request_id,
                    attempt_id,
                    attempt_number,
                    auth_revision,
                    started_at_ms,
                    outcome: ModelAttemptOutcome::Running,
                },
            );
        },
        SessionEventView::ModelAttemptFailedFact {
            activation_id,
            round_id,
            request_id,
            attempt_id,
            attempt_number,
            ..
        } => {
            ordinary_attempt_ended_step(
                state,
                current_attempt(
                    state,
                    activation_id,
                    round_id,
                    request_id,
                    attempt_id,
                    attempt_number,
                ),
                ModelAttemptOutcome::Failed,
                "model attempt failure is not first-wins"@,
            );
        },
        SessionEventView::ModelAttemptInterrupted {
            activation_id,
            round_id,
            request_id,
            attempt_id,
            attempt_number,
            ..
        } => {
            ordinary_attempt_ended_step(
                state,
                current_attempt(
                    state,
                    activation_id,
                    round_id,
                    request_id,
                    attempt_id,
                    attempt_number,
                ),
                ModelAttemptOutcome::Interrupted,
                "model attempt interruption is not first-wins"@,
            );
        },
        SessionEventView::ModelRequestAbandoned {
            activation_id,
            round_id,
            request_id,
            attempt_id,
            ..
        } => {
            ordinary_abandoned_step(state, activation_id, round_id, request_id, attempt_id);
        },
        SessionEventView::ModelAttemptsExhausted { fact } => {
            ordinary_exhausted_step(state, fact);
        },
        SessionEventView::ModelStepRetryScheduled { schedule } => {
            ordinary_retry_step(state, schedule);
        },
        SessionEventView::ModelRequestCompleted {
            activation_id,
            round_id,
            request_id,
            attempt_id,
            usage,
        } => {
            ordinary_completed_step(
                state,
                activation_id,
                round_id,
                request_id,
                attempt_id,
                usage,
            );
        },
        SessionEventView::ActivationFinished { activation_id, .. } => {
            ordinary_activation_finished_step(state, activation_id);
        },
        SessionEventView::ModelAttemptFailed { failure } => {
            ordinary_model_failed_step(state, failure);
        },
        SessionEventView::WaitSet { wait } => {
            ordinary_wait_set_step(state, wait);
        },
        SessionEventView::WaitTimerScheduled { timer } => {
            ordinary_timer_step(state, timer);
        },
        SessionEventView::WaitCleared { wait_id } => {
            ordinary_wait_ended_step(state, wait_id);
        },
        SessionEventView::WaitExpired { wait_id } => {
            ordinary_wait_ended_step(state, wait_id);
        },
        SessionEventView::AsyncToolCallStarted { record } => {
            ordinary_call_started_step(state, record);
        },
        SessionEventView::AsyncToolCallRunning { tool_call_id } => {
            ordinary_call_running_step(state, tool_call_id);
        },
        SessionEventView::AsyncToolCallUnknownOutcome { tool_call_id, .. } => {
            ordinary_outcome_unknown_step(state, tool_call_id);
        },
        SessionEventView::AsyncToolCallRuntimeRestarted {
            tool_call_id,
            reason,
            completed_at_ms,
        } => {
            ordinary_restarted_step(state, tool_call_id, reason, completed_at_ms);
        },
        SessionEventView::AsyncToolCallCallbackPlanned { binding } => {
            ordinary_callback_planned_step(state, binding);
        },
        SessionEventView::AsyncToolCallCallbackCompleted {
            callback_id,
            tool_call_id,
            payload_fingerprint,
            result,
            completed_at_ms,
        } => {
            ordinary_callback_ended_step(
                state,
                callback_id,
                tool_call_id,
                payload_fingerprint,
                CallEndView::Completed(result),
                completed_at_ms,
            );
        },
        SessionEventView::AsyncToolCallCallbackFailed {
            callback_id,
            tool_call_id,
            payload_fingerprint,
            error,
            completed_at_ms,
        } => {
            ordinary_callback_ended_step(
                state,
                callback_id,
                tool_call_id,
                payload_fingerprint,
                CallEndView::Failed(error),
                completed_at_ms,
            );
        },
        SessionEventView::AsyncToolCallProgress { tool_call_id, progress } => {
            ordinary_progress_step(state, tool_call_id, progress);
        },
        SessionEventView::AsyncToolCallCompleted { tool_call_id, result, completed_at_ms } => {
            ordinary_call_ended_step(
                state,
                tool_call_id,
                CallEndView::Completed(result),
                completed_at_ms,
            );
        },
        SessionEventView::AsyncToolCallFailed { tool_call_id, error, completed_at_ms } => {
            ordinary_call_ended_step(
                state,
                tool_call_id,
                CallEndView::Failed(error),
                completed_at_ms,
            );
        },
        SessionEventView::AsyncToolCallCancelled { tool_call_id, reason, completed_at_ms } => {
            ordinary_call_ended_step(
                state,
                tool_call_id,
                CallEndView::Cancelled(reason),
                completed_at_ms,
            );
        },
        SessionEventView::DedupeRecorded { key } => {
            ordinary_dedupe_step(state, key);
        },
    }
}

proof fn lemma_applied_ordinary(state: SessionStateView, event: SessionEventView)
    ensures
        applied(state, event) matches Err(fault) ==> fault != DomainErrorView::EmptyEventBatch,
{
    lemma_state(state);
    lemma_event(event);
    lemma_payload_ordinary(state, event);
    assert forall|next: SessionStateView| !is_batch_fault(#[trigger] state_fault(next)) by {
        lemma_state(next);
    }
}

proof fn lemma_applied_all_ordinary(state: SessionStateView, events: Seq<SessionEventView>)
    ensures
        applied_all(state, events) matches Err(fault) ==> fault
            != DomainErrorView::EmptyEventBatch,
    decreases events.len(),
{
    if events.len() > 0 {
        lemma_applied_all_ordinary(state, events.drop_last());
        if let Ok(before) = applied_all(state, events.drop_last()) {
            lemma_applied_ordinary(before, events.last());
        }
    }
}

/// A batch is answered as empty exactly if it is. What a decision keeps is a part of the batch, in
/// its order, and as much as the stream advances; and both the batch and that part lead to the
/// state that was decided.
pub proof fn decision_keeps_what_matters(state: SessionStateView, events: Seq<SessionEventView>)
    requires
        distinct_keys(state),
    ensures
        (decided(state, events) matches Err(fault) && fault == DomainErrorView::EmptyEventBatch)
            <==> events.len() == 0,
        decided(state, events) matches Ok(decision) ==> {
            &&& is_subsequence(decision.effective_events, events)
            &&& decision.state.stream_version == state.stream_version
                + decision.effective_events.len()
            &&& applied_events(state, events) == Ok::<SessionStateView, DomainErrorView>(
                decision.state,
            )
            &&& applied_events(state, decision.effective_events) == Ok::<
                SessionStateView,
                DomainErrorView,
            >(decision.state)
        },
{
    lemma_applied_all_ordinary(state, events);
    if decided(state, events) is Ok {
        effective_events_are_a_part(state, events);
        decision_counts_effective_events(state, events);
        effective_events_suffice(state, events);
    }
}

} // verus!
