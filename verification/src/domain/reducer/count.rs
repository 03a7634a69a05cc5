//! The count of rounds that old streams carry has no influence on what an event does.

use super::delivery::{acknowledge_step, append_step, materialize_step, queue_step};
use super::handoff::{document_step, handoff_failed_step, plan_step};
use super::model::{
    abandoned_step, activation_finished_step, activation_started_step, attempt_ended_step,
    attempt_started_step, completed_step, current_attempt, exhausted_step, model_failed_step,
    request_declared_step, retry_step, round_started_step,
};
use super::step::Step;
use super::tools::{
    call_ended_step, call_running_step, call_started_step, callback_ended_step,
    callback_planned_step, outcome_unknown_step, progress_step, restarted_step, CallEndView,
};
use super::waits::{timer_step, wait_ended_step, wait_set_step};
use super::{applied, created_step, dedupe_step, payload_step, reduced, reselected_step};
use crate::domain::error::DomainErrorView;
use crate::domain::event::SessionEventView;
use crate::domain::model::{
    ActiveActivationView, ContextHandoffDocumentView, ContextHandoffPlanView,
    ModelAttemptErrorView, ModelAttemptFailureView, ModelAttemptOutcome, ModelAttemptRecordView,
    ModelAttemptsExhaustedFactView, ModelRequestFactView, ModelRequestPurpose,
    ModelRetryScheduleView, ModelUsageAnchorView,
};
use crate::domain::payload::DurablePayloadView;
use crate::domain::selection::{SessionOwnerView, SessionSelectionView};
use crate::domain::state::{state_fault, SessionStateView};
use crate::domain::tools::{AsyncCallbackBindingView, AsyncToolCallRecordView};
use crate::domain::transcript::{QueuedDeliveryView, TranscriptMessageView};
use crate::domain::waits::{ActiveWaitView, WaitTimerIntentView};
use vstd::prelude::*;

verus! {

/// The state with another count of rounds, if it has an activation.
pub open spec fn recounted(state: SessionStateView, count: u32) -> SessionStateView {
    SessionStateView {
        active_activation: match state.active_activation {
            Some(activation) => Some(
                ActiveActivationView { legacy_rounds_started: count, ..activation },
            ),
            None => None,
        },
        ..state
    }
}

/// Whether two states differ in the count of rounds at most.
pub open spec fn same_but_for_count(left: SessionStateView, right: SessionStateView) -> bool {
    recounted(left, 0) == recounted(right, 0)
}

/// Whether two steps are the same but for the count of rounds.
spec fn alike(left: Step, right: Step) -> bool {
    match (left, right) {
        (Ok((a, took_effect)), Ok((b, took_effect_too))) => took_effect == took_effect_too
            && same_but_for_count(a, b),
        (Err(fault), Err(other)) => fault == other,
        _ => false,
    }
}

proof fn count_created_step(
    state: SessionStateView,
    session_id: Seq<char>,
    owner: SessionOwnerView,
    created_at_ms: i64,
    selection: SessionSelectionView,
    count: u32,
)
    ensures
        alike(
            created_step(state, session_id, owner, created_at_ms, selection),
            created_step(recounted(state, count), session_id, owner, created_at_ms, selection),
        ),
{
    reveal(created_step);
}

proof fn count_reselected_step(state: SessionStateView, selection: SessionSelectionView, count: u32)
    ensures
        alike(
            reselected_step(state, selection),
            reselected_step(recounted(state, count), selection),
        ),
{
    reveal(reselected_step);
}

proof fn count_queue_step(state: SessionStateView, delivery: QueuedDeliveryView, count: u32)
    ensures
        alike(queue_step(state, delivery), queue_step(recounted(state, count), delivery)),
{
    reveal(queue_step);
}

proof fn count_acknowledge_step(state: SessionStateView, through: u64, count: u32)
    ensures
        alike(acknowledge_step(state, through), acknowledge_step(recounted(state, count), through)),
{
    reveal(acknowledge_step);
}

proof fn count_materialize_step(
    state: SessionStateView,
    queue_id: u64,
    message: TranscriptMessageView,
    count: u32,
)
    ensures
        alike(
            materialize_step(state, queue_id, message),
            materialize_step(recounted(state, count), queue_id, message),
        ),
{
    reveal(materialize_step);
}

proof fn count_append_step(
    state: SessionStateView,
    message: TranscriptMessageView,
    wake_wait: bool,
    count: u32,
)
    ensures
        alike(
            append_step(state, message, wake_wait),
            append_step(recounted(state, count), message, wake_wait),
        ),
{
    reveal(append_step);
}

proof fn count_activation_started_step(
    state: SessionStateView,
    activation_id: Seq<char>,
    selection: SessionSelectionView,
    selection_version: u64,
    minimum_auth_revision: u64,
    started_at_ms: i64,
    count: u32,
)
    ensures
        alike(
            activation_started_step(
                state,
                activation_id,
                selection,
                selection_version,
                minimum_auth_revision,
                started_at_ms,
            ),
            activation_started_step(
                recounted(state, count),
                activation_id,
                selection,
                selection_version,
                minimum_auth_revision,
                started_at_ms,
            ),
        ),
{
    reveal(activation_started_step);
}

proof fn count_round_started_step(
    state: SessionStateView,
    activation_id: Seq<char>,
    round_id: Seq<char>,
    purpose: ModelRequestPurpose,
    delivery_through_queue_id: u64,
    started_at_ms: i64,
    count: u32,
)
    ensures
        alike(
            round_started_step(
                state,
                activation_id,
                round_id,
                purpose,
                delivery_through_queue_id,
                started_at_ms,
            ),
            round_started_step(
                recounted(state, count),
                activation_id,
                round_id,
                purpose,
                delivery_through_queue_id,
                started_at_ms,
            ),
        ),
{
    reveal(round_started_step);
}

proof fn count_plan_step(state: SessionStateView, plan: ContextHandoffPlanView, count: u32)
    ensures
        alike(plan_step(state, plan), plan_step(recounted(state, count), plan)),
{
    reveal(plan_step);
}

proof fn count_document_step(
    state: SessionStateView,
    handoff: ContextHandoffDocumentView,
    count: u32,
)
    ensures
        alike(document_step(state, handoff), document_step(recounted(state, count), handoff)),
{
    reveal(document_step);
}

proof fn count_handoff_failed_step(
    state: SessionStateView,
    plan_id: Seq<char>,
    error: ModelAttemptErrorView,
    count: u32,
)
    ensures
        alike(
            handoff_failed_step(state, plan_id, error),
            handoff_failed_step(recounted(state, count), plan_id, error),
        ),
{
    reveal(handoff_failed_step);
}

proof fn count_request_declared_step(
    state: SessionStateView,
    request: ModelRequestFactView,
    count: u32,
)
    ensures
        alike(
            request_declared_step(state, request),
            request_declared_step(recounted(state, count), request),
        ),
{
    reveal(request_declared_step);
}

proof fn count_attempt_started_step(
    state: SessionStateView,
    attempt: ModelAttemptRecordView,
    count: u32,
)
    ensures
        alike(
            attempt_started_step(state, attempt),
            attempt_started_step(recounted(state, count), attempt),
        ),
{
    reveal(attempt_started_step);
}

proof fn count_attempt_ended_step(
    state: SessionStateView,
    current: Result<ModelAttemptRecordView, DomainErrorView>,
    result: ModelAttemptOutcome,
    conflict: Seq<char>,
    count: u32,
)
    ensures
        alike(
            attempt_ended_step(state, current, result, conflict),
            attempt_ended_step(recounted(state, count), current, result, conflict),
        ),
{
    reveal(attempt_ended_step);
}

proof fn count_abandoned_step(
    state: SessionStateView,
    activation_id: Seq<char>,
    round_id: Seq<char>,
    request_id: Seq<char>,
    attempt_id: Seq<char>,
    count: u32,
)
    ensures
        alike(
            abandoned_step(state, activation_id, round_id, request_id, attempt_id),
            abandoned_step(
                recounted(state, count),
                activation_id,
                round_id,
                request_id,
                attempt_id,
            ),
        ),
{
    reveal(abandoned_step);
}

proof fn count_exhausted_step(
    state: SessionStateView,
    fact: ModelAttemptsExhaustedFactView,
    count: u32,
)
    ensures
        alike(exhausted_step(state, fact), exhausted_step(recounted(state, count), fact)),
{
    reveal(exhausted_step);
}

proof fn count_retry_step(state: SessionStateView, schedule: ModelRetryScheduleView, count: u32)
    ensures
        alike(retry_step(state, schedule), retry_step(recounted(state, count), schedule)),
{
    reveal(retry_step);
}

proof fn count_completed_step(
    state: SessionStateView,
    activation_id: Seq<char>,
    round_id: Seq<char>,
    request_id: Seq<char>,
    attempt_id: Seq<char>,
    usage: Option<ModelUsageAnchorView>,
    count: u32,
)
    ensures
        alike(
            completed_step(state, activation_id, round_id, request_id, attempt_id, usage),
            completed_step(
                recounted(state, count),
                activation_id,
                round_id,
                request_id,
                attempt_id,
                usage,
            ),
        ),
{
    reveal(completed_step);
}

proof fn count_activation_finished_step(
    state: SessionStateView,
    activation_id: Seq<char>,
    count: u32,
)
    ensures
        alike(
            activation_finished_step(state, activation_id),
            activation_finished_step(recounted(state, count), activation_id),
        ),
{
    reveal(activation_finished_step);
}

proof fn count_model_failed_step(
    state: SessionStateView,
    failure: ModelAttemptFailureView,
    count: u32,
)
    ensures
        alike(
            model_failed_step(state, failure),
            model_failed_step(recounted(state, count), failure),
        ),
{
    reveal(model_failed_step);
}

proof fn count_wait_set_step(state: SessionStateView, wait: ActiveWaitView, count: u32)
    ensures
        alike(wait_set_step(state, wait), wait_set_step(recounted(state, count), wait)),
{
    reveal(wait_set_step);
}

proof fn count_timer_step(state: SessionStateView, timer: WaitTimerIntentView, count: u32)
    ensures
        alike(timer_step(state, timer), timer_step(recounted(state, count), timer)),
{
    reveal(timer_step);
}

proof fn count_wait_ended_step(state: SessionStateView, wait_id: Seq<char>, count: u32)
    ensures
        alike(wait_ended_step(state, wait_id), wait_ended_step(recounted(state, count), wait_id)),
{
    reveal(wait_ended_step);
}

proof fn count_call_started_step(
    state: SessionStateView,
    record: AsyncToolCallRecordView,
    count: u32,
)
    ensures
        alike(call_started_step(state, record), call_started_step(recounted(state, count), record)),
{
    reveal(call_started_step);
}

proof fn count_call_running_step(state: SessionStateView, id: Seq<char>, count: u32)
    ensures
        alike(call_running_step(state, id), call_running_step(recounted(state, count), id)),
{
    reveal(call_running_step);
}

proof fn count_outcome_unknown_step(state: SessionStateView, id: Seq<char>, count: u32)
    ensures
        alike(outcome_unknown_step(state, id), outcome_unknown_step(recounted(state, count), id)),
{
    reveal(outcome_unknown_step);
}

proof fn count_restarted_step(
    state: SessionStateView,
    id: Seq<char>,
    reason: Seq<char>,
    completed_at_ms: i64,
    count: u32,
)
    ensures
        alike(
            restarted_step(state, id, reason, completed_at_ms),
            restarted_step(recounted(state, count), id, reason, completed_at_ms),
        ),
{
    reveal(restarted_step);
}

proof fn count_callback_planned_step(
    state: SessionStateView,
    binding: AsyncCallbackBindingView,
    count: u32,
)
    ensures
        alike(
            callback_planned_step(state, binding),
            callback_planned_step(recounted(state, count), binding),
        ),
{
    reveal(callback_planned_step);
}

proof fn count_callback_ended_step(
    state: SessionStateView,
    callback_id: Seq<char>,
    id: Seq<char>,
    payload_fingerprint: Seq<char>,
    end: CallEndView,
    completed_at_ms: i64,
    count: u32,
)
    ensures
        alike(
            callback_ended_step(
                state,
                callback_id,
                id,
                payload_fingerprint,
                end,
                completed_at_ms,
            ),
            callback_ended_step(
                recounted(state, count),
                callback_id,
                id,
                payload_fingerprint,
                end,
                completed_at_ms,
            ),
        ),
{
    reveal(callback_ended_step);
}

proof fn count_progress_step(
    state: SessionStateView,
    id: Seq<char>,
    progress: DurablePayloadView,
    count: u32,
)
    ensures
        alike(
            progress_step(state, id, progress),
            progress_step(recounted(state, count), id, progress),
        ),
{
    reveal(progress_step);
}

proof fn count_call_ended_step(
    state: SessionStateView,
    id: Seq<char>,
    end: CallEndView,
    completed_at_ms: i64,
    count: u32,
)
    ensures
        alike(
            call_ended_step(state, id, end, completed_at_ms),
            call_ended_step(recounted(state, count), id, end, completed_at_ms),
        ),
{
    reveal(call_ended_step);
}

proof fn count_dedupe_step(state: SessionStateView, key: Seq<char>, count: u32)
    ensures
        alike(dedupe_step(state, key), dedupe_step(recounted(state, count), key)),
{
    reveal(dedupe_step);
}

proof fn lemma_payload_alike(state: SessionStateView, event: SessionEventView, count: u32)
    ensures
        alike(payload_step(state, event), payload_step(recounted(state, count), event)),
{
    match event {
        SessionEventView::SessionCreated { session_id, owner, created_at_ms, selection, .. } => {
            count_created_step(state, session_id, owner, created_at_ms, selection, count);
        },
        SessionEventView::ModelSelectionChanged { selection } => {
            count_reselected_step(state, selection, count);
        },
        SessionEventView::StatusChanged { .. } => {},
        SessionEventView::DeliveryQueued { delivery } => {
            count_queue_step(state, delivery, count);
        },
        SessionEventView::DeliveryAcknowledged { through_queue_id } => {
            count_acknowledge_step(state, through_queue_id, count);
        },
        SessionEventView::DeliveryMaterialized { queue_id, message } => {
            count_materialize_step(state, queue_id, message, count);
        },
        SessionEventView::MessageAppended { message, wake_wait } => {
            count_append_step(state, message, wake_wait, count);
        },
        SessionEventView::ActivationStarted {
            activation_id,
            selection,
            selection_version,
            minimum_auth_revision,
            started_at_ms,
        } => {
            count_activation_started_step(
                state,
                activation_id,
                selection,
                selection_version,
                minimum_auth_revision,
                started_at_ms,
                count,
            );
        },
        SessionEventView::ModelRoundStarted {
            activation_id,
            round_id,
            purpose,
            delivery_through_queue_id,
            started_at_ms,
        } => {
            count_round_started_step(
                state,
                activation_id,
                round_id,
                purpose,
                delivery_through_queue_id,
                started_at_ms,
                count,
            );
        },
        SessionEventView::ContextHandoffPlanned { plan } => {
            count_plan_step(state, plan, count);
        },
        SessionEventView::ContextHandoffCreated { handoff } => {
            count_document_step(state, handoff, count);
        },
        SessionEventView::ContextHandoffFailed { plan_id, error, .. } => {
            count_handoff_failed_step(state, plan_id, error, count);
        },
        SessionEventView::ModelRequestPrepared {
            activation_id,
            round_id,
            request_id,
            request_fingerprint,
            provider_execution_fingerprint,
            prompt_fingerprint,
            tool_schema_fingerprint,
            envelope,
            maximum_attempts,
            minimum_auth_revision,
        } => {
            count_request_declared_step(
                state,
                ModelRequestFactView {
                    activation_id,
                    round_id,
                    request_id,
                    request_fingerprint,
                    provider_execution_fingerprint,
                    prompt_fingerprint,
                    tool_schema_fingerprint,
                    legacy_envelope: Some(envelope),
                    maximum_attempts,
                    minimum_auth_revision,
                },
                count,
            );
        },
        SessionEventView::ModelRequestDeclared {
            activation_id,
            round_id,
            request_id,
            request_fingerprint,
            provider_execution_fingerprint,
            prompt_fingerprint,
            tool_schema_fingerprint,
            maximum_attempts,
            minimum_auth_revision,
        } => {
            count_request_declared_step(
                state,
                ModelRequestFactView {
                    activation_id,
                    round_id,
                    request_id,
                    request_fingerprint,
                    provider_execution_fingerprint,
                    prompt_fingerprint,
                    tool_schema_fingerprint,
                    legacy_envelope: None,
                    maximum_attempts,
                    minimum_auth_revision,
                },
                count,
            );
        },
        SessionEventView::ModelAttemptStarted {
            activation_id,
            round_id,
            request_id,
            attempt_id,
            attempt_number,
            auth_revision,
            started_at_ms,
        } => {
            count_attempt_started_step(
                state,
                ModelAttemptRecordView {
                    activation_id,
                    round_id,
                    request_id,
                    attempt_id,
                    attempt_number,
                    auth_revision,
                    started_at_ms,
                    outcome: ModelAttemptOutcome::Running,
                },
                count,
            );
        },
        SessionEventView::ModelAttemptFailedFact {
            activation_id,
            round_id,
            request_id,
            attempt_id,
            attempt_number,
            ..
        } => {
            count_attempt_ended_step(
                state,
                current_attempt(
                    state,
                    activation_id,
                    round_id,
                    request_id,
                    attempt_id,
                    attempt_number,
                ),
                ModelAttemptOutcome::Failed,
                "model attempt failure is not first-wins"@,
                count,
            );
        },
        SessionEventView::ModelAttemptInterrupted {
            activation_id,
            round_id,
            request_id,
            attempt_id,
            attempt_number,
            ..
        } => {
            count_attempt_ended_step(
                state,
                current_attempt(
                    state,
                    activation_id,
                    round_id,
                    request_id,
                    attempt_id,
                    attempt_number,
                ),
                ModelAttemptOutcome::Interrupted,
                "model attempt interruption is not first-wins"@,
                count,
            );
        },
        SessionEventView::ModelRequestAbandoned {
            activation_id,
            round_id,
            request_id,
            attempt_id,
            ..
        } => {
            count_abandoned_step(state, activation_id, round_id, request_id, attempt_id, count);
        },
        SessionEventView::ModelAttemptsExhausted { fact } => {
            count_exhausted_step(state, fact, count);
        },
        SessionEventView::ModelStepRetryScheduled { schedule } => {
            count_retry_step(state, schedule, count);
        },
        SessionEventView::ModelRequestCompleted {
            activation_id,
            round_id,
            request_id,
            attempt_id,
            usage,
        } => {
            count_completed_step(
                state,
                activation_id,
                round_id,
                request_id,
                attempt_id,
                usage,
                count,
            );
        },
        SessionEventView::ActivationFinished { activation_id, .. } => {
            count_activation_finished_step(state, activation_id, count);
        },
        SessionEventView::ModelAttemptFailed { failure } => {
            count_model_failed_step(state, failure, count);
        },
        SessionEventView::WaitSet { wait } => {
            count_wait_set_step(state, wait, count);
        },
        SessionEventView::WaitTimerScheduled { timer } => {
            count_timer_step(state, timer, count);
        },
        SessionEventView::WaitCleared { wait_id } => {
            count_wait_ended_step(state, wait_id, count);
        },
        SessionEventView::WaitExpired { wait_id } => {
            count_wait_ended_step(state, wait_id, count);
        },
        SessionEventView::AsyncToolCallStarted { record } => {
            count_call_started_step(state, record, count);
        },
        SessionEventView::AsyncToolCallRunning { tool_call_id } => {
            count_call_running_step(state, tool_call_id, count);
        },
        SessionEventView::AsyncToolCallUnknownOutcome { tool_call_id, .. } => {
            count_outcome_unknown_step(state, tool_call_id, count);
        },
        SessionEventView::AsyncToolCallRuntimeRestarted {
            tool_call_id,
            reason,
            completed_at_ms,
        } => {
            count_restarted_step(state, tool_call_id, reason, completed_at_ms, count);
        },
        SessionEventView::AsyncToolCallCallbackPlanned { binding } => {
            count_callback_planned_step(state, binding, count);
        },
        SessionEventView::AsyncToolCallCallbackCompleted {
            callback_id,
            tool_call_id,
            payload_fingerprint,
            result,
            completed_at_ms,
        } => {
            count_callback_ended_step(
                state,
                callback_id,
                tool_call_id,
                payload_fingerprint,
                CallEndView::Completed(result),
                completed_at_ms,
                count,
            );
        },
        SessionEventView::AsyncToolCallCallbackFailed {
            callback_id,
            tool_call_id,
            payload_fingerprint,
            error,
            completed_at_ms,
        } => {
            count_callback_ended_step(
                state,
                callback_id,
                tool_call_id,
                payload_fingerprint,
                CallEndView::Failed(error),
                completed_at_ms,
                count,
            );
        },
        SessionEventView::AsyncToolCallProgress { tool_call_id, progress } => {
            count_progress_step(state, tool_call_id, progress, count);
        },
        SessionEventView::AsyncToolCallCompleted { tool_call_id, result, completed_at_ms } => {
            count_call_ended_step(
                state,
                tool_call_id,
                CallEndView::Completed(result),
                completed_at_ms,
                count,
            );
        },
        SessionEventView::AsyncToolCallFailed { tool_call_id, error, completed_at_ms } => {
            count_call_ended_step(
                state,
                tool_call_id,
                CallEndView::Failed(error),
                completed_at_ms,
                count,
            );
        },
        SessionEventView::AsyncToolCallCancelled { tool_call_id, reason, completed_at_ms } => {
            count_call_ended_step(
                state,
                tool_call_id,
                CallEndView::Cancelled(reason),
                completed_at_ms,
                count,
            );
        },
        SessionEventView::DedupeRecorded { key } => {
            count_dedupe_step(state, key, count);
        },
    }
}

proof fn lemma_same_fault(left: SessionStateView, right: SessionStateView)
    requires
        same_but_for_count(left, right),
    ensures
        state_fault(left) == state_fault(right),
{
    let zero = recounted(left, 0);
    assert(zero == recounted(right, 0));
    assert(left.transcript == zero.transcript && right.transcript == zero.transcript);
}

/// The count of rounds has no influence: whatever it is, an event is refused for the same reason,
/// or leads to states that differ in that count at most.
pub proof fn count_of_rounds_has_no_influence(
    state: SessionStateView,
    event: SessionEventView,
    count: u32,
)
    ensures
        match (applied(state, event), applied(recounted(state, count), event)) {
            (Ok(left), Ok(right)) => same_but_for_count(left, right),
            (Err(fault), Err(other)) => fault == other,
            _ => false,
        },
{
    let other = recounted(state, count);
    lemma_payload_alike(state, event, count);
    lemma_same_fault(state, other);
    if let (Ok(left), Ok(right)) = (reduced(state, event), reduced(other, event)) {
        assert(same_but_for_count(left, right));
        lemma_same_fault(left, right);
    }
}

} // verus!
