//! The events of a session.

use super::error::{fault_of, invalid, invalid_state, DomainError, DomainErrorView};
use super::model::{
    attempts_in_range, document_fault, exhausted_fault, model_error_fault, model_failure_fault,
    plan_fault, retry_fault, usage_fault, valid_attempts, validate_context_handoff_document,
    validate_context_handoff_plan, validate_model_attempt_failure,
    validate_model_attempts_exhausted, validate_model_error, validate_model_usage_anchor,
    validate_retry_schedule, ActivationOutcome, ContextHandoffDocument,
    ContextHandoffDocumentView, ContextHandoffPlan, ContextHandoffPlanView, ModelAttemptError,
    ModelAttemptErrorView, ModelAttemptFailure, ModelAttemptFailureView,
    ModelAttemptsExhaustedFact, ModelAttemptsExhaustedFactView, ModelRequestPurpose,
    ModelRetrySchedule, ModelRetryScheduleView, ModelUsageAnchor, ModelUsageAnchorView,
};
use super::payload::{payload_fault, DurablePayload, DurablePayloadView};
use super::rules::{
    bounded_text_fault, fingerprint_fault, identifier_fault, timestamp_fault,
    validate_bounded_text, validate_identifier, validate_model_fingerprint,
    validate_non_negative_timestamp,
};
use super::selection::{
    owner_fault, selection_fault, SessionOwner, SessionOwnerView, SessionSelection,
    SessionSelectionView,
};
use super::tools::{
    binding_fault, started_record_fault, tool_error_fault, validate_callback_binding,
    validate_started_record, validate_tool_error, AsyncCallbackBinding, AsyncCallbackBindingView,
    AsyncToolCallRecord, AsyncToolCallRecordView, ToolError, ToolErrorView,
};
use super::transcript::{
    delivery_fault, message_fault, validate_delivery, validate_message, QueuedDelivery,
    QueuedDeliveryView, TranscriptMessage, TranscriptMessageView,
};
use super::waits::{
    timer_fault, validate_timer, validate_wait, wait_fault, ActiveWait, ActiveWaitView,
    WaitTimerIntent, WaitTimerIntentView,
};
use super::SESSION_CREATED_SCHEMA_VERSION;
use crate::checks::{fault_if, optional_fault, Checks};
use crate::datum::Datum;
use vstd::prelude::*;

verus! {

/// Whether a session is at work.
#[derive(Clone, Copy, Debug, Eq, PartialEq, Structural)]
pub enum SessionStatus {
    Idle,
    Active,
}

impl Default for SessionStatus {
    fn default() -> (value: Self)
        ensures
            value == SessionStatus::Idle,
    {
        SessionStatus::Idle
    }
}

/// A fact that a session takes in.
#[derive(Clone, Debug, PartialEq)]
pub enum SessionEvent {
    SessionCreated {
        schema_version: u32,
        session_id: String,
        owner: SessionOwner,
        created_at_ms: i64,
        selection: SessionSelection,
    },
    ModelSelectionChanged { selection: SessionSelection },
    StatusChanged { status: SessionStatus },
    DeliveryQueued { delivery: QueuedDelivery },
    DeliveryAcknowledged { through_queue_id: u64 },
    DeliveryMaterialized { queue_id: u64, message: TranscriptMessage },
    MessageAppended { message: TranscriptMessage, wake_wait: bool },
    /// Claims the session for one activation, and fixes the selection of all its rounds.
    ActivationStarted {
        activation_id: String,
        selection: SessionSelection,
        selection_version: u64,
        minimum_auth_revision: u64,
        started_at_ms: i64,
    },
    ModelRoundStarted {
        activation_id: String,
        round_id: String,
        purpose: ModelRequestPurpose,
        delivery_through_queue_id: u64,
        started_at_ms: i64,
    },
    ContextHandoffPlanned { plan: ContextHandoffPlan },
    ContextHandoffCreated { handoff: ContextHandoffDocument },
    ContextHandoffFailed { plan_id: String, error: ModelAttemptError, finished_at_ms: i64 },
    /// The declaration of a request in old streams, which carried its content.
    ModelRequestPrepared {
        activation_id: String,
        round_id: String,
        request_id: String,
        request_fingerprint: String,
        provider_execution_fingerprint: String,
        prompt_fingerprint: String,
        tool_schema_fingerprint: String,
        envelope: DurablePayload,
        maximum_attempts: u32,
        minimum_auth_revision: u64,
    },
    ModelRequestDeclared {
        activation_id: String,
        round_id: String,
        request_id: String,
        request_fingerprint: String,
        provider_execution_fingerprint: String,
        prompt_fingerprint: String,
        tool_schema_fingerprint: String,
        maximum_attempts: u32,
        minimum_auth_revision: u64,
    },
    ModelAttemptStarted {
        activation_id: String,
        round_id: String,
        request_id: String,
        attempt_id: String,
        attempt_number: u32,
        auth_revision: u64,
        started_at_ms: i64,
    },
    /// The failure of an attempt. `ModelAttemptFailed` stands for a failure at admission.
    ModelAttemptFailedFact {
        activation_id: String,
        round_id: String,
        request_id: String,
        attempt_id: String,
        attempt_number: u32,
        error_class: String,
        retryable: bool,
    },
    ModelAttemptInterrupted {
        activation_id: String,
        round_id: String,
        request_id: String,
        attempt_id: String,
        attempt_number: u32,
        reason: String,
    },
    ModelRequestAbandoned {
        activation_id: String,
        round_id: String,
        request_id: String,
        attempt_id: String,
        reason: String,
        abandoned_at_ms: i64,
    },
    ModelAttemptsExhausted { fact: ModelAttemptsExhaustedFact },
    ModelStepRetryScheduled { schedule: ModelRetrySchedule },
    ModelRequestCompleted {
        activation_id: String,
        round_id: String,
        request_id: String,
        attempt_id: String,
        usage: Option<ModelUsageAnchor>,
    },
    ActivationFinished { activation_id: String, outcome: ActivationOutcome, finished_at_ms: i64 },
    ModelAttemptFailed { failure: ModelAttemptFailure },
    WaitSet { wait: ActiveWait },
    WaitTimerScheduled { timer: WaitTimerIntent },
    WaitCleared { wait_id: String },
    WaitExpired { wait_id: String },
    AsyncToolCallStarted { record: AsyncToolCallRecord },
    AsyncToolCallRunning { tool_call_id: String },
    AsyncToolCallUnknownOutcome { tool_call_id: String, reason: String },
    AsyncToolCallRuntimeRestarted { tool_call_id: String, reason: String, completed_at_ms: i64 },
    AsyncToolCallCallbackPlanned { binding: AsyncCallbackBinding },
    AsyncToolCallCallbackCompleted {
        callback_id: String,
        tool_call_id: String,
        payload_fingerprint: String,
        result: DurablePayload,
        completed_at_ms: i64,
    },
    AsyncToolCallCallbackFailed {
        callback_id: String,
        tool_call_id: String,
        payload_fingerprint: String,
        error: ToolError,
        completed_at_ms: i64,
    },
    AsyncToolCallProgress { tool_call_id: String, progress: DurablePayload },
    AsyncToolCallCompleted { tool_call_id: String, result: DurablePayload, completed_at_ms: i64 },
    AsyncToolCallFailed { tool_call_id: String, error: ToolError, completed_at_ms: i64 },
    AsyncToolCallCancelled { tool_call_id: String, reason: String, completed_at_ms: i64 },
    DedupeRecorded { key: String },
}

/// The content of a [`SessionEvent`].
pub enum SessionEventView {
    SessionCreated {
        schema_version: u32,
        session_id: Seq<char>,
        owner: SessionOwnerView,
        created_at_ms: i64,
        selection: SessionSelectionView,
    },
    ModelSelectionChanged { selection: SessionSelectionView },
    StatusChanged { status: SessionStatus },
    DeliveryQueued { delivery: QueuedDeliveryView },
    DeliveryAcknowledged { through_queue_id: u64 },
    DeliveryMaterialized { queue_id: u64, message: TranscriptMessageView },
    MessageAppended { message: TranscriptMessageView, wake_wait: bool },
    ActivationStarted {
        activation_id: Seq<char>,
        selection: SessionSelectionView,
        selection_version: u64,
        minimum_auth_revision: u64,
        started_at_ms: i64,
    },
    ModelRoundStarted {
        activation_id: Seq<char>,
        round_id: Seq<char>,
        purpose: ModelRequestPurpose,
        delivery_through_queue_id: u64,
        started_at_ms: i64,
    },
    ContextHandoffPlanned { plan: ContextHandoffPlanView },
    ContextHandoffCreated { handoff: ContextHandoffDocumentView },
    ContextHandoffFailed { plan_id: Seq<char>, error: ModelAttemptErrorView, finished_at_ms: i64 },
    ModelRequestPrepared {
        activation_id: Seq<char>,
        round_id: Seq<char>,
        request_id: Seq<char>,
        request_fingerprint: Seq<char>,
        provider_execution_fingerprint: Seq<char>,
        prompt_fingerprint: Seq<char>,
        tool_schema_fingerprint: Seq<char>,
        envelope: DurablePayloadView,
        maximum_attempts: u32,
        minimum_auth_revision: u64,
    },
    ModelRequestDeclared {
        activation_id: Seq<char>,
        round_id: Seq<char>,
        request_id: Seq<char>,
        request_fingerprint: Seq<char>,
        provider_execution_fingerprint: Seq<char>,
        prompt_fingerprint: Seq<char>,
        tool_schema_fingerprint: Seq<char>,
        maximum_attempts: u32,
        minimum_auth_revision: u64,
    },
    ModelAttemptStarted {
        activation_id: Seq<char>,
        round_id: Seq<char>,
        request_id: Seq<char>,
        attempt_id: Seq<char>,
        attempt_number: u32,
        auth_revision: u64,
        started_at_ms: i64,
    },
    ModelAttemptFailedFact {
        activation_id: Seq<char>,
        round_id: Seq<char>,
        request_id: Seq<char>,
        attempt_id: Seq<char>,
        attempt_number: u32,
        error_class: Seq<char>,
        retryable: bool,
    },
    ModelAttemptInterrupted {
        activation_id: Seq<char>,
        round_id: Seq<char>,
        request_id: Seq<char>,
        attempt_id: Seq<char>,
        attempt_number: u32,
        reason: Seq<char>,
    },
    ModelRequestAbandoned {
        activation_id: Seq<char>,
        round_id: Seq<char>,
        request_id: Seq<char>,
        attempt_id: Seq<char>,
        reason: Seq<char>,
        abandoned_at_ms: i64,
    },
    ModelAttemptsExhausted { fact: ModelAttemptsExhaustedFactView },
    ModelStepRetryScheduled { schedule: ModelRetryScheduleView },
    ModelRequestCompleted {
        activation_id: Seq<char>,
        round_id: Seq<char>,
        request_id: Seq<char>,
        attempt_id: Seq<char>,
        usage: Option<ModelUsageAnchorView>,
    },
    ActivationFinished {
        activation_id: Seq<char>,
        outcome: ActivationOutcome,
        finished_at_ms: i64,
    },
    ModelAttemptFailed { failure: ModelAttemptFailureView },
    WaitSet { wait: ActiveWaitView },
    WaitTimerScheduled { timer: WaitTimerIntentView },
    WaitCleared { wait_id: Seq<char> },
    WaitExpired { wait_id: Seq<char> },
    AsyncToolCallStarted { record: AsyncToolCallRecordView },
    AsyncToolCallRunning { tool_call_id: Seq<char> },
    AsyncToolCallUnknownOutcome { tool_call_id: Seq<char>, reason: Seq<char> },
    AsyncToolCallRuntimeRestarted {
        tool_call_id: Seq<char>,
        reason: Seq<char>,
        completed_at_ms: i64,
    },
    AsyncToolCallCallbackPlanned { binding: AsyncCallbackBindingView },
    AsyncToolCallCallbackCompleted {
        callback_id: Seq<char>,
        tool_call_id: Seq<char>,
        payload_fingerprint: Seq<char>,
        result: DurablePayloadView,
        completed_at_ms: i64,
    },
    AsyncToolCallCallbackFailed {
        callback_id: Seq<char>,
        tool_call_id: Seq<char>,
        payload_fingerprint: Seq<char>,
        error: ToolErrorView,
        completed_at_ms: i64,
    },
    AsyncToolCallProgress { tool_call_id: Seq<char>, progress: DurablePayloadView },
    AsyncToolCallCompleted {
        tool_call_id: Seq<char>,
        result: DurablePayloadView,
        completed_at_ms: i64,
    },
    AsyncToolCallFailed { tool_call_id: Seq<char>, error: ToolErrorView, completed_at_ms: i64 },
    AsyncToolCallCancelled { tool_call_id: Seq<char>, reason: Seq<char>, completed_at_ms: i64 },
    DedupeRecorded { key: Seq<char> },
}

impl DeepView for SessionEvent {
    type V = SessionEventView;

    open spec fn deep_view(&self) -> SessionEventView {
        match self {
            SessionEvent::SessionCreated {
                schema_version,
                session_id,
                owner,
                created_at_ms,
                selection,
            } => SessionEventView::SessionCreated {
                schema_version: *schema_version,
                session_id: session_id.deep_view(),
                owner: owner.deep_view(),
                created_at_ms: *created_at_ms,
                selection: selection.deep_view(),
            },
            SessionEvent::ModelSelectionChanged {
                selection,
            } => SessionEventView::ModelSelectionChanged {
                selection: selection.deep_view(),
            },
            SessionEvent::StatusChanged { status } => SessionEventView::StatusChanged {
                status: *status,
            },
            SessionEvent::DeliveryQueued { delivery } => SessionEventView::DeliveryQueued {
                delivery: delivery.deep_view(),
            },
            SessionEvent::DeliveryAcknowledged {
                through_queue_id,
            } => SessionEventView::DeliveryAcknowledged {
                through_queue_id: *through_queue_id,
            },
            SessionEvent::DeliveryMaterialized {
                queue_id,
                message,
            } => SessionEventView::DeliveryMaterialized {
                queue_id: *queue_id,
                message: message.deep_view(),
            },
            SessionEvent::MessageAppended {
                message,
                wake_wait,
            } => SessionEventView::MessageAppended {
                message: message.deep_view(),
                wake_wait: *wake_wait,
            },
            SessionEvent::ActivationStarted {
                activation_id,
                selection,
                selection_version,
                minimum_auth_revision,
                started_at_ms,
            } => SessionEventView::ActivationStarted {
                activation_id: activation_id.deep_view(),
                selection: selection.deep_view(),
                selection_version: *selection_version,
                minimum_auth_revision: *minimum_auth_revision,
                started_at_ms: *started_at_ms,
            },
            SessionEvent::ModelRoundStarted {
                activation_id,
                round_id,
                purpose,
                delivery_through_queue_id,
                started_at_ms,
            } => SessionEventView::ModelRoundStarted {
                activation_id: activation_id.deep_view(),
                round_id: round_id.deep_view(),
                purpose: *purpose,
                delivery_through_queue_id: *delivery_through_queue_id,
                started_at_ms: *started_at_ms,
            },
            SessionEvent::ContextHandoffPlanned {
                plan,
            } => SessionEventView::ContextHandoffPlanned {
                plan: plan.deep_view(),
            },
            SessionEvent::ContextHandoffCreated {
                handoff,
            } => SessionEventView::ContextHandoffCreated {
                handoff: handoff.deep_view(),
            },
            SessionEvent::ContextHandoffFailed {
                plan_id,
                error,
                finished_at_ms,
            } => SessionEventView::ContextHandoffFailed {
                plan_id: plan_id.deep_view(),
                error: error.deep_view(),
                finished_at_ms: *finished_at_ms,
            },
            SessionEvent::ModelRequestPrepared {
                activation_id,
                round_id,
                request_id,
                request_fingerprint,
                provider_execution_fingerprint,
                prompt_fingerprint,
                tool_schema_fingerprint,
                envelope,
                maximum_attempts,
                minimum_auth_revision,
            } => SessionEventView::ModelRequestPrepared {
                activation_id: activation_id.deep_view(),
                round_id: round_id.deep_view(),
                request_id: request_id.deep_view(),
                request_fingerprint: request_fingerprint.deep_view(),
                provider_execution_fingerprint: provider_execution_fingerprint.deep_view(),
                prompt_fingerprint: prompt_fingerprint.deep_view(),
                tool_schema_fingerprint: tool_schema_fingerprint.deep_view(),
                envelope: envelope.deep_view(),
                maximum_attempts: *maximum_attempts,
                minimum_auth_revision: *minimum_auth_revision,
            },
            SessionEvent::ModelRequestDeclared {
                activation_id,
                round_id,
                request_id,
                request_fingerprint,
                provider_execution_fingerprint,
                prompt_fingerprint,
                tool_schema_fingerprint,
                maximum_attempts,
                minimum_auth_revision,
            } => SessionEventView::ModelRequestDeclared {
                activation_id: activation_id.deep_view(),
                round_id: round_id.deep_view(),
                request_id: request_id.deep_view(),
                request_fingerprint: request_fingerprint.deep_view(),
                provider_execution_fingerprint: provider_execution_fingerprint.deep_view(),
                prompt_fingerprint: prompt_fingerprint.deep_view(),
                tool_schema_fingerprint: tool_schema_fingerprint.deep_view(),
                maximum_attempts: *maximum_attempts,
                minimum_auth_revision: *minimum_auth_revision,
            },
            SessionEvent::ModelAttemptStarted {
                activation_id,
                round_id,
                request_id,
                attempt_id,
                attempt_number,
                auth_revision,
                started_at_ms,
            } => SessionEventView::ModelAttemptStarted {
                activation_id: activation_id.deep_view(),
                round_id: round_id.deep_view(),
                request_id: request_id.deep_view(),
                attempt_id: attempt_id.deep_view(),
                attempt_number: *attempt_number,
                auth_revision: *auth_revision,
                started_at_ms: *started_at_ms,
            },
            SessionEvent::ModelAttemptFailedFact {
                activation_id,
                round_id,
                request_id,
                attempt_id,
                attempt_number,
                error_class,
                retryable,
            } => SessionEventView::ModelAttemptFailedFact {
                activation_id: activation_id.deep_view(),
                round_id: round_id.deep_view(),
                request_id: request_id.deep_view(),
                attempt_id: attempt_id.deep_view(),
                attempt_number: *attempt_number,
                error_class: error_class.deep_view(),
                retryable: *retryable,
            },
            SessionEvent::ModelAttemptInterrupted {
                activation_id,
                round_id,
                request_id,
                attempt_id,
                attempt_number,
                reason,
            } => SessionEventView::ModelAttemptInterrupted {
                activation_id: activation_id.deep_view(),
                round_id: round_id.deep_view(),
                request_id: request_id.deep_view(),
                attempt_id: attempt_id.deep_view(),
                attempt_number: *attempt_number,
                reason: reason.deep_view(),
            },
            SessionEvent::ModelRequestAbandoned {
                activation_id,
                round_id,
                request_id,
                attempt_id,
                reason,
                abandoned_at_ms,
            } => SessionEventView::ModelRequestAbandoned {
                activation_id: activation_id.deep_view(),
                round_id: round_id.deep_view(),
                request_id: request_id.deep_view(),
                attempt_id: attempt_id.deep_view(),
                reason: reason.deep_view(),
                abandoned_at_ms: *abandoned_at_ms,
            },
            SessionEvent::ModelAttemptsExhausted {
                fact,
            } => SessionEventView::ModelAttemptsExhausted {
                fact: fact.deep_view(),
            },
            SessionEvent::ModelStepRetryScheduled {
                schedule,
            } => SessionEventView::ModelStepRetryScheduled {
                schedule: schedule.deep_view(),
            },
            SessionEvent::ModelRequestCompleted {
                activation_id,
                round_id,
                request_id,
                attempt_id,
                usage,
            } => SessionEventView::ModelRequestCompleted {
                activation_id: activation_id.deep_view(),
                round_id: round_id.deep_view(),
                request_id: request_id.deep_view(),
                attempt_id: attempt_id.deep_view(),
                usage: usage.deep_view(),
            },
            SessionEvent::ActivationFinished {
                activation_id,
                outcome,
                finished_at_ms,
            } => SessionEventView::ActivationFinished {
                activation_id: activation_id.deep_view(),
                outcome: *outcome,
                finished_at_ms: *finished_at_ms,
            },
            SessionEvent::ModelAttemptFailed { failure } => SessionEventView::ModelAttemptFailed {
                failure: failure.deep_view(),
            },
            SessionEvent::WaitSet { wait } => SessionEventView::WaitSet { wait: wait.deep_view() },
            SessionEvent::WaitTimerScheduled { timer } => SessionEventView::WaitTimerScheduled {
                timer: timer.deep_view(),
            },
            SessionEvent::WaitCleared { wait_id } => SessionEventView::WaitCleared {
                wait_id: wait_id.deep_view(),
            },
            SessionEvent::WaitExpired { wait_id } => SessionEventView::WaitExpired {
                wait_id: wait_id.deep_view(),
            },
            SessionEvent::AsyncToolCallStarted {
                record,
            } => SessionEventView::AsyncToolCallStarted {
                record: record.deep_view(),
            },
            SessionEvent::AsyncToolCallRunning {
                tool_call_id,
            } => SessionEventView::AsyncToolCallRunning {
                tool_call_id: tool_call_id.deep_view(),
            },
            SessionEvent::AsyncToolCallUnknownOutcome {
                tool_call_id,
                reason,
            } => SessionEventView::AsyncToolCallUnknownOutcome {
                tool_call_id: tool_call_id.deep_view(),
                reason: reason.deep_view(),
            },
            SessionEvent::AsyncToolCallRuntimeRestarted {
                tool_call_id,
                reason,
                completed_at_ms,
            } => SessionEventView::AsyncToolCallRuntimeRestarted {
                tool_call_id: tool_call_id.deep_view(),
                reason: reason.deep_view(),
                completed_at_ms: *completed_at_ms,
            },
            SessionEvent::AsyncToolCallCallbackPlanned {
                binding,
            } => SessionEventView::AsyncToolCallCallbackPlanned {
                binding: binding.deep_view(),
            },
            SessionEvent::AsyncToolCallCallbackCompleted {
                callback_id,
                tool_call_id,
                payload_fingerprint,
                result,
                completed_at_ms,
            } => SessionEventView::AsyncToolCallCallbackCompleted {
                callback_id: callback_id.deep_view(),
                tool_call_id: tool_call_id.deep_view(),
                payload_fingerprint: payload_fingerprint.deep_view(),
                result: result.deep_view(),
                completed_at_ms: *completed_at_ms,
            },
            SessionEvent::AsyncToolCallCallbackFailed {
                callback_id,
                tool_call_id,
                payload_fingerprint,
                error,
                completed_at_ms,
            } => SessionEventView::AsyncToolCallCallbackFailed {
                callback_id: callback_id.deep_view(),
                tool_call_id: tool_call_id.deep_view(),
                payload_fingerprint: payload_fingerprint.deep_view(),
                error: error.deep_view(),
                completed_at_ms: *completed_at_ms,
            },
            SessionEvent::AsyncToolCallProgress {
                tool_call_id,
                progress,
            } => SessionEventView::AsyncToolCallProgress {
                tool_call_id: tool_call_id.deep_view(),
                progress: progress.deep_view(),
            },
            SessionEvent::AsyncToolCallCompleted {
                tool_call_id,
                result,
                completed_at_ms,
            } => SessionEventView::AsyncToolCallCompleted {
                tool_call_id: tool_call_id.deep_view(),
                result: result.deep_view(),
                completed_at_ms: *completed_at_ms,
            },
            SessionEvent::AsyncToolCallFailed {
                tool_call_id,
                error,
                completed_at_ms,
            } => SessionEventView::AsyncToolCallFailed {
                tool_call_id: tool_call_id.deep_view(),
                error: error.deep_view(),
                completed_at_ms: *completed_at_ms,
            },
            SessionEvent::AsyncToolCallCancelled {
                tool_call_id,
                reason,
                completed_at_ms,
            } => SessionEventView::AsyncToolCallCancelled {
                tool_call_id: tool_call_id.deep_view(),
                reason: reason.deep_view(),
                completed_at_ms: *completed_at_ms,
            },
            SessionEvent::DedupeRecorded { key } => SessionEventView::DedupeRecorded {
                key: key.deep_view(),
            },
        }
    }
}

impl Datum for SessionEvent {
    fn replica(&self) -> (copy: Self) {
        match self {
            SessionEvent::SessionCreated {
                schema_version,
                session_id,
                owner,
                created_at_ms,
                selection,
            } => SessionEvent::SessionCreated {
                schema_version: *schema_version,
                session_id: session_id.replica(),
                owner: owner.replica(),
                created_at_ms: *created_at_ms,
                selection: selection.replica(),
            },
            SessionEvent::ModelSelectionChanged {
                selection,
            } => SessionEvent::ModelSelectionChanged {
                selection: selection.replica(),
            },
            SessionEvent::StatusChanged { status } => SessionEvent::StatusChanged {
                status: *status,
            },
            SessionEvent::DeliveryQueued { delivery } => SessionEvent::DeliveryQueued {
                delivery: delivery.replica(),
            },
            SessionEvent::DeliveryAcknowledged {
                through_queue_id,
            } => SessionEvent::DeliveryAcknowledged {
                through_queue_id: *through_queue_id,
            },
            SessionEvent::DeliveryMaterialized {
                queue_id,
                message,
            } => SessionEvent::DeliveryMaterialized {
                queue_id: *queue_id,
                message: message.replica(),
            },
            SessionEvent::MessageAppended { message, wake_wait } => SessionEvent::MessageAppended {
                message: message.replica(),
                wake_wait: *wake_wait,
            },
            SessionEvent::ActivationStarted {
                activation_id,
                selection,
                selection_version,
                minimum_auth_revision,
                started_at_ms,
            } => SessionEvent::ActivationStarted {
                activation_id: activation_id.replica(),
                selection: selection.replica(),
                selection_version: *selection_version,
                minimum_auth_revision: *minimum_auth_revision,
                started_at_ms: *started_at_ms,
            },
            SessionEvent::ModelRoundStarted {
                activation_id,
                round_id,
                purpose,
                delivery_through_queue_id,
                started_at_ms,
            } => SessionEvent::ModelRoundStarted {
                activation_id: activation_id.replica(),
                round_id: round_id.replica(),
                purpose: *purpose,
                delivery_through_queue_id: *delivery_through_queue_id,
                started_at_ms: *started_at_ms,
            },
            SessionEvent::ContextHandoffPlanned { plan } => SessionEvent::ContextHandoffPlanned {
                plan: plan.replica(),
            },
            SessionEvent::ContextHandoffCreated { handoff } => SessionEvent::ContextHandoffCreated {
                handoff: handoff.replica(),
            },
            SessionEvent::ContextHandoffFailed {
                plan_id,
                error,
                finished_at_ms,
            } => SessionEvent::ContextHandoffFailed {
                plan_id: plan_id.replica(),
                error: error.replica(),
                finished_at_ms: *finished_at_ms,
            },
            SessionEvent::ModelRequestPrepared {
                activation_id,
                round_id,
                request_id,
                request_fingerprint,
                provider_execution_fingerprint,
                prompt_fingerprint,
                tool_schema_fingerprint,
                envelope,
                maximum_attempts,
                minimum_auth_revision,
            } => SessionEvent::ModelRequestPrepared {
                activation_id: activation_id.replica(),
                round_id: round_id.replica(),
                request_id: request_id.replica(),
                request_fingerprint: request_fingerprint.replica(),
                provider_execution_fingerprint: provider_execution_fingerprint.replica(),
                prompt_fingerprint: prompt_fingerprint.replica(),
                tool_schema_fingerprint: tool_schema_fingerprint.replica(),
                envelope: envelope.replica(),
                maximum_attempts: *maximum_attempts,
                minimum_auth_revision: *minimum_auth_revision,
            },
            SessionEvent::ModelRequestDeclared {
                activation_id,
                round_id,
                request_id,
                request_fingerprint,
                provider_execution_fingerprint,
                prompt_fingerprint,
                tool_schema_fingerprint,
                maximum_attempts,
                minimum_auth_revision,
            } => SessionEvent::ModelRequestDeclared {
                activation_id: activation_id.replica(),
                round_id: round_id.replica(),
                request_id: request_id.replica(),
                request_fingerprint: request_fingerprint.replica(),
                provider_execution_fingerprint: provider_execution_fingerprint.replica(),
                prompt_fingerprint: prompt_fingerprint.replica(),
                tool_schema_fingerprint: tool_schema_fingerprint.replica(),
                maximum_attempts: *maximum_attempts,
                minimum_auth_revision: *minimum_auth_revision,
            },
            SessionEvent::ModelAttemptStarted {
                activation_id,
                round_id,
                request_id,
                attempt_id,
                attempt_number,
                auth_revision,
                started_at_ms,
            } => SessionEvent::ModelAttemptStarted {
                activation_id: activation_id.replica(),
                round_id: round_id.replica(),
                request_id: request_id.replica(),
                attempt_id: attempt_id.replica(),
                attempt_number: *attempt_number,
                auth_revision: *auth_revision,
                started_at_ms: *started_at_ms,
            },
            SessionEvent::ModelAttemptFailedFact {
                activation_id,
                round_id,
                request_id,
                attempt_id,
                attempt_number,
                error_class,
                retryable,
            } => SessionEvent::ModelAttemptFailedFact {
                activation_id: activation_id.replica(),
                round_id: round_id.replica(),
                request_id: request_id.replica(),
                attempt_id: attempt_id.replica(),
                attempt_number: *attempt_number,
                error_class: error_class.replica(),
                retryable: *retryable,
            },
            SessionEvent::ModelAttemptInterrupted {
                activation_id,
                round_id,
                request_id,
                attempt_id,
                attempt_number,
                reason,
            } => SessionEvent::ModelAttemptInterrupted {
                activation_id: activation_id.replica(),
                round_id: round_id.replica(),
                request_id: request_id.replica(),
                attempt_id: attempt_id.replica(),
                attempt_number: *attempt_number,
                reason: reason.replica(),
            },
            SessionEvent::ModelRequestAbandoned {
                activation_id,
                round_id,
                request_id,
                attempt_id,
                reason,
                abandoned_at_ms,
            } => SessionEvent::ModelRequestAbandoned {
                activation_id: activation_id.replica(),
                round_id: round_id.replica(),
                request_id: request_id.replica(),
                attempt_id: attempt_id.replica(),
                reason: reason.replica(),
                abandoned_at_ms: *abandoned_at_ms,
            },
            SessionEvent::ModelAttemptsExhausted { fact } => SessionEvent::ModelAttemptsExhausted {
                fact: fact.replica(),
            },
            SessionEvent::ModelStepRetryScheduled {
                schedule,
            } => SessionEvent::ModelStepRetryScheduled {
                schedule: schedule.replica(),
            },
            SessionEvent::ModelRequestCompleted {
                activation_id,
                round_id,
                request_id,
                attempt_id,
                usage,
            } => SessionEvent::ModelRequestCompleted {
                activation_id: activation_id.replica(),
                round_id: round_id.replica(),
                request_id: request_id.replica(),
                attempt_id: attempt_id.replica(),
                usage: usage.replica(),
            },
            SessionEvent::ActivationFinished {
                activation_id,
                outcome,
                finished_at_ms,
            } => SessionEvent::ActivationFinished {
                activation_id: activation_id.replica(),
                outcome: *outcome,
                finished_at_ms: *finished_at_ms,
            },
            SessionEvent::ModelAttemptFailed { failure } => SessionEvent::ModelAttemptFailed {
                failure: failure.replica(),
            },
            SessionEvent::WaitSet { wait } => SessionEvent::WaitSet { wait: wait.replica() },
            SessionEvent::WaitTimerScheduled { timer } => SessionEvent::WaitTimerScheduled {
                timer: timer.replica(),
            },
            SessionEvent::WaitCleared { wait_id } => SessionEvent::WaitCleared {
                wait_id: wait_id.replica(),
            },
            SessionEvent::WaitExpired { wait_id } => SessionEvent::WaitExpired {
                wait_id: wait_id.replica(),
            },
            SessionEvent::AsyncToolCallStarted { record } => SessionEvent::AsyncToolCallStarted {
                record: record.replica(),
            },
            SessionEvent::AsyncToolCallRunning {
                tool_call_id,
            } => SessionEvent::AsyncToolCallRunning {
                tool_call_id: tool_call_id.replica(),
            },
            SessionEvent::AsyncToolCallUnknownOutcome {
                tool_call_id,
                reason,
            } => SessionEvent::AsyncToolCallUnknownOutcome {
                tool_call_id: tool_call_id.replica(),
                reason: reason.replica(),
            },
            SessionEvent::AsyncToolCallRuntimeRestarted {
                tool_call_id,
                reason,
                completed_at_ms,
            } => SessionEvent::AsyncToolCallRuntimeRestarted {
                tool_call_id: tool_call_id.replica(),
                reason: reason.replica(),
                completed_at_ms: *completed_at_ms,
            },
            SessionEvent::AsyncToolCallCallbackPlanned {
                binding,
            } => SessionEvent::AsyncToolCallCallbackPlanned {
                binding: binding.replica(),
            },
            SessionEvent::AsyncToolCallCallbackCompleted {
                callback_id,
                tool_call_id,
                payload_fingerprint,
                result,
                completed_at_ms,
            } => SessionEvent::AsyncToolCallCallbackCompleted {
                callback_id: callback_id.replica(),
                tool_call_id: tool_call_id.replica(),
                payload_fingerprint: payload_fingerprint.replica(),
                result: result.replica(),
                completed_at_ms: *completed_at_ms,
            },
            SessionEvent::AsyncToolCallCallbackFailed {
                callback_id,
                tool_call_id,
                payload_fingerprint,
                error,
                completed_at_ms,
            } => SessionEvent::AsyncToolCallCallbackFailed {
                callback_id: callback_id.replica(),
                tool_call_id: tool_call_id.replica(),
                payload_fingerprint: payload_fingerprint.replica(),
                error: error.replica(),
                completed_at_ms: *completed_at_ms,
            },
            SessionEvent::AsyncToolCallProgress {
                tool_call_id,
                progress,
            } => SessionEvent::AsyncToolCallProgress {
                tool_call_id: tool_call_id.replica(),
                progress: progress.replica(),
            },
            SessionEvent::AsyncToolCallCompleted {
                tool_call_id,
                result,
                completed_at_ms,
            } => SessionEvent::AsyncToolCallCompleted {
                tool_call_id: tool_call_id.replica(),
                result: result.replica(),
                completed_at_ms: *completed_at_ms,
            },
            SessionEvent::AsyncToolCallFailed {
                tool_call_id,
                error,
                completed_at_ms,
            } => SessionEvent::AsyncToolCallFailed {
                tool_call_id: tool_call_id.replica(),
                error: error.replica(),
                completed_at_ms: *completed_at_ms,
            },
            SessionEvent::AsyncToolCallCancelled {
                tool_call_id,
                reason,
                completed_at_ms,
            } => SessionEvent::AsyncToolCallCancelled {
                tool_call_id: tool_call_id.replica(),
                reason: reason.replica(),
                completed_at_ms: *completed_at_ms,
            },
            SessionEvent::DedupeRecorded { key } => SessionEvent::DedupeRecorded {
                key: key.replica(),
            },
        }
    }
}

/// An event that is to be stored, with its id.
#[derive(Clone, Debug, PartialEq)]
pub struct EventDraft {
    pub event_id: String,
    pub event: SessionEvent,
}

/// The content of a [`EventDraft`].
pub struct EventDraftView {
    pub event_id: Seq<char>,
    pub event: SessionEventView,
}

impl DeepView for EventDraft {
    type V = EventDraftView;

    open spec fn deep_view(&self) -> EventDraftView {
        EventDraftView {
            event_id: self.event_id.deep_view(),
            event: self.event.deep_view(),
        }
    }
}

impl Datum for EventDraft {
    fn replica(&self) -> (copy: Self) {
        EventDraft {
            event_id: self.event_id.replica(),
            event: self.event.replica(),
        }
    }
}

impl EventDraft {
    /// A draft of `event`.
    pub fn new(event_id: String, event: SessionEvent) -> (draft: Self)
        ensures
            draft.deep_view() == (EventDraftView {
                event_id: event_id@,
                event: event.deep_view(),
            }),
    {
        EventDraft { event_id, event }
    }
}

/// A stored event, with its place in the stream of its session and among all events.
#[derive(Clone, Debug, PartialEq)]
pub struct EventRecord {
    pub stream_id: String,
    pub stream_version: u64,
    pub global_position: u64,
    pub event_id: String,
    pub command_id: String,
    pub event_schema_version: u32,
    pub event: SessionEvent,
}

/// The content of a [`EventRecord`].
pub struct EventRecordView {
    pub stream_id: Seq<char>,
    pub stream_version: u64,
    pub global_position: u64,
    pub event_id: Seq<char>,
    pub command_id: Seq<char>,
    pub event_schema_version: u32,
    pub event: SessionEventView,
}

impl DeepView for EventRecord {
    type V = EventRecordView;

    open spec fn deep_view(&self) -> EventRecordView {
        EventRecordView {
            stream_id: self.stream_id.deep_view(),
            stream_version: self.stream_version,
            global_position: self.global_position,
            event_id: self.event_id.deep_view(),
            command_id: self.command_id.deep_view(),
            event_schema_version: self.event_schema_version,
            event: self.event.deep_view(),
        }
    }
}

impl Datum for EventRecord {
    fn replica(&self) -> (copy: Self) {
        EventRecord {
            stream_id: self.stream_id.replica(),
            stream_version: self.stream_version,
            global_position: self.global_position,
            event_id: self.event_id.replica(),
            command_id: self.command_id.replica(),
            event_schema_version: self.event_schema_version,
            event: self.event.replica(),
        }
    }
}

/// The name of an event's kind.
pub open spec fn event_kind(event: SessionEventView) -> Seq<char> {
    match event {
        SessionEventView::SessionCreated { .. } => "session_created"@,
        SessionEventView::ModelSelectionChanged { .. } => "model_selection_changed"@,
        SessionEventView::StatusChanged { .. } => "status_changed"@,
        SessionEventView::DeliveryQueued { .. } => "delivery_queued"@,
        SessionEventView::DeliveryAcknowledged { .. } => "delivery_acknowledged"@,
        SessionEventView::DeliveryMaterialized { .. } => "delivery_materialized"@,
        SessionEventView::MessageAppended { .. } => "message_appended"@,
        SessionEventView::ActivationStarted { .. } => "activation_started"@,
        SessionEventView::ModelRoundStarted { .. } => "model_round_started"@,
        SessionEventView::ContextHandoffPlanned { .. } => "context_handoff_planned"@,
        SessionEventView::ContextHandoffCreated { .. } => "context_handoff_created"@,
        SessionEventView::ContextHandoffFailed { .. } => "context_handoff_failed"@,
        SessionEventView::ModelRequestPrepared { .. } => "model_request_prepared"@,
        SessionEventView::ModelRequestDeclared { .. } => "model_request_declared"@,
        SessionEventView::ModelAttemptStarted { .. } => "model_attempt_started"@,
        SessionEventView::ModelAttemptFailedFact { .. } => "model_attempt_failed"@,
        SessionEventView::ModelAttemptInterrupted { .. } => "model_attempt_interrupted"@,
        SessionEventView::ModelRequestAbandoned { .. } => "model_request_abandoned"@,
        SessionEventView::ModelAttemptsExhausted { .. } => "model_attempts_exhausted"@,
        SessionEventView::ModelStepRetryScheduled { .. } => "model_step_retry_scheduled"@,
        SessionEventView::ModelRequestCompleted { .. } => "model_request_completed"@,
        SessionEventView::ActivationFinished { .. } => "activation_finished"@,
        SessionEventView::ModelAttemptFailed { .. } => "model_attempt_failed"@,
        SessionEventView::WaitSet { .. } => "wait_set"@,
        SessionEventView::WaitTimerScheduled { .. } => "wait_timer_scheduled"@,
        SessionEventView::WaitCleared { .. } => "wait_cleared"@,
        SessionEventView::WaitExpired { .. } => "wait_expired"@,
        SessionEventView::AsyncToolCallStarted { .. } => "async_tool_call_started"@,
        SessionEventView::AsyncToolCallRunning { .. } => "async_tool_call_running"@,
        SessionEventView::AsyncToolCallUnknownOutcome { .. } => "async_tool_call_unknown_outcome"@,
        SessionEventView::AsyncToolCallRuntimeRestarted { .. } => {
            "async_tool_call_runtime_restarted"@
        },
        SessionEventView::AsyncToolCallCallbackPlanned { .. } => {
            "async_tool_call_callback_planned"@
        },
        SessionEventView::AsyncToolCallCallbackCompleted { .. } => {
            "async_tool_call_callback_completed"@
        },
        SessionEventView::AsyncToolCallCallbackFailed { .. } => "async_tool_call_callback_failed"@,
        SessionEventView::AsyncToolCallProgress { .. } => "async_tool_call_progress"@,
        SessionEventView::AsyncToolCallCompleted { .. } => "async_tool_call_completed"@,
        SessionEventView::AsyncToolCallFailed { .. } => "async_tool_call_failed"@,
        SessionEventView::AsyncToolCallCancelled { .. } => "async_tool_call_cancelled"@,
        SessionEventView::DedupeRecorded { .. } => "dedupe_recorded"@,
    }
}

/// What is wrong with the ids of a model attempt.
pub open spec fn attempt_ids_fault(
    activation_id: Seq<char>,
    round_id: Seq<char>,
    request_id: Seq<char>,
    attempt_id: Seq<char>,
) -> Option<DomainErrorView> {
    identifier_fault("activation_id"@, activation_id).before(
        identifier_fault("round_id"@, round_id),
    ).before(identifier_fault("request_id"@, request_id)).before(
        identifier_fault("attempt_id"@, attempt_id),
    )
}

/// An attempt number must be in the bound of one step.
pub open spec fn attempt_number_fault(attempt_number: u32) -> Option<DomainErrorView> {
    fault_if(
        !attempts_in_range(attempt_number),
        invalid("model attempt number is outside the bounded range"@),
    )
}

/// What is wrong with the declaration of a model request.
pub open spec fn declaration_fault(
    activation_id: Seq<char>,
    round_id: Seq<char>,
    request_id: Seq<char>,
    request_fingerprint: Seq<char>,
    provider_execution_fingerprint: Seq<char>,
    prompt_fingerprint: Seq<char>,
    tool_schema_fingerprint: Seq<char>,
    maximum_attempts: u32,
    minimum_auth_revision: u64,
) -> Option<DomainErrorView> {
    identifier_fault("activation_id"@, activation_id).before(
        identifier_fault("round_id"@, round_id),
    ).before(identifier_fault("request_id"@, request_id)).before(
        fingerprint_fault("request_fingerprint"@, request_fingerprint),
    ).before(
        fingerprint_fault("provider_execution_fingerprint"@, provider_execution_fingerprint),
    ).before(fingerprint_fault("prompt_fingerprint"@, prompt_fingerprint)).before(
        fingerprint_fault("tool_schema_fingerprint"@, tool_schema_fingerprint),
    ).before(
        fault_if(
            !attempts_in_range(maximum_attempts),
            invalid("model request maximum attempts are outside the bounded range"@),
        ),
    ).before(
        fault_if(
            minimum_auth_revision == 0,
            invalid("model request minimum auth revision must be positive"@),
        ),
    )
}

/// What is wrong with an event by itself.
#[verifier::opaque]
pub open spec fn event_fault(event: SessionEventView) -> Option<DomainErrorView> {
    match event {
        SessionEventView::SessionCreated {
            schema_version,
            session_id,
            owner,
            created_at_ms,
            selection,
        } => fault_if(
            schema_version != SESSION_CREATED_SCHEMA_VERSION,
            DomainErrorView::UnsupportedSessionCreatedSchema(schema_version),
        ).before(identifier_fault("session_id"@, session_id)).before(owner_fault(owner)).before(
            fault_if(created_at_ms < 0, DomainErrorView::InvalidCreatedAt),
        ).before(selection_fault(selection)),
        SessionEventView::ModelSelectionChanged { selection } => selection_fault(selection),
        SessionEventView::StatusChanged { .. } => None,
        SessionEventView::DeliveryQueued { delivery } => delivery_fault(delivery, false),
        SessionEventView::DeliveryAcknowledged { .. } => None,
        SessionEventView::DeliveryMaterialized { queue_id, message } => fault_if(
            queue_id == 0,
            invalid("delivery materialization needs a queue id"@),
        ).before(message_fault(message)),
        SessionEventView::MessageAppended { message, .. } => message_fault(message),
        SessionEventView::ActivationStarted {
            activation_id,
            selection,
            selection_version,
            minimum_auth_revision,
            started_at_ms,
        } => identifier_fault("activation_id"@, activation_id).before(
            selection_fault(selection),
        ).before(
            fault_if(
                selection_version == 0 || minimum_auth_revision == 0,
                invalid("activation selection and auth revisions must be positive"@),
            ),
        ).before(timestamp_fault("activation started_at_ms"@, started_at_ms)),
        SessionEventView::ModelRoundStarted {
            activation_id,
            round_id,
            delivery_through_queue_id,
            started_at_ms,
            ..
        } => identifier_fault("activation_id"@, activation_id).before(
            identifier_fault("round_id"@, round_id),
        ).before(timestamp_fault("model round started_at_ms"@, started_at_ms)).before(
            fault_if(
                delivery_through_queue_id == 0,
                invalid("model round delivery boundary must be positive"@),
            ),
        ),
        SessionEventView::ContextHandoffPlanned { plan } => plan_fault(plan),
        SessionEventView::ContextHandoffCreated { handoff } => document_fault(handoff),
        SessionEventView::ContextHandoffFailed { plan_id, error, finished_at_ms } =>
            identifier_fault("context handoff plan_id"@, plan_id).before(
            model_error_fault(error),
        ).before(timestamp_fault("context handoff finished_at_ms"@, finished_at_ms)),
        SessionEventView::ModelRequestPrepared {
            activation_id,
            round_id,
            request_id,
            request_fingerprint,
            provider_execution_fingerprint,
            prompt_fingerprint,
            tool_schema_fingerprint,
            envelope,
            maximum_attempts,
            minimum_auth_revision,
        } => payload_fault(envelope).before(
            declaration_fault(
                activation_id,
                round_id,
                request_id,
                request_fingerprint,
                provider_execution_fingerprint,
                prompt_fingerprint,
                tool_schema_fingerprint,
                maximum_attempts,
                minimum_auth_revision,
            ),
        ),
        SessionEventView::ModelRequestDeclared {
            activation_id,
            round_id,
            request_id,
            request_fingerprint,
            provider_execution_fingerprint,
            prompt_fingerprint,
            tool_schema_fingerprint,
            maximum_attempts,
            minimum_auth_revision,
        } => declaration_fault(
            activation_id,
            round_id,
            request_id,
            request_fingerprint,
            provider_execution_fingerprint,
            prompt_fingerprint,
            tool_schema_fingerprint,
            maximum_attempts,
            minimum_auth_revision,
        ),
        SessionEventView::ModelAttemptStarted {
            activation_id,
            round_id,
            request_id,
            attempt_id,
            attempt_number,
            auth_revision,
            started_at_ms,
        } => attempt_ids_fault(activation_id, round_id, request_id, attempt_id).before(
            attempt_number_fault(attempt_number),
        ).before(
            fault_if(
                auth_revision == 0,
                invalid("model attempt auth revision must be positive"@),
            ),
        ).before(timestamp_fault("model attempt started_at_ms"@, started_at_ms)),
        SessionEventView::ModelAttemptFailedFact {
            activation_id,
            round_id,
            request_id,
            attempt_id,
            attempt_number,
            error_class,
            ..
        } => attempt_ids_fault(activation_id, round_id, request_id, attempt_id).before(
            identifier_fault("model attempt error class"@, error_class),
        ).before(attempt_number_fault(attempt_number)),
        SessionEventView::ModelAttemptInterrupted {
            activation_id,
            round_id,
            request_id,
            attempt_id,
            attempt_number,
            reason,
        } => attempt_ids_fault(activation_id, round_id, request_id, attempt_id).before(
            bounded_text_fault("model interruption reason"@, reason),
        ).before(attempt_number_fault(attempt_number)),
        SessionEventView::ModelRequestAbandoned {
            activation_id,
            round_id,
            request_id,
            attempt_id,
            reason,
            abandoned_at_ms,
        } => attempt_ids_fault(activation_id, round_id, request_id, attempt_id).before(
            bounded_text_fault("model request abandonment reason"@, reason),
        ).before(timestamp_fault("model request abandoned_at_ms"@, abandoned_at_ms)),
        SessionEventView::ModelAttemptsExhausted { fact } => exhausted_fault(fact),
        SessionEventView::ModelStepRetryScheduled { schedule } => retry_fault(schedule),
        SessionEventView::ModelRequestCompleted {
            activation_id,
            round_id,
            request_id,
            attempt_id,
            usage,
        } => attempt_ids_fault(activation_id, round_id, request_id, attempt_id).before(
            optional_fault(usage, |usage: ModelUsageAnchorView| usage_fault(usage)),
        ),
        SessionEventView::ActivationFinished { activation_id, finished_at_ms, .. } =>
            identifier_fault("activation_id"@, activation_id).before(
            timestamp_fault("activation finished_at_ms"@, finished_at_ms),
        ),
        SessionEventView::ModelAttemptFailed { failure } => model_failure_fault(failure),
        SessionEventView::WaitSet { wait } => wait_fault(wait),
        SessionEventView::WaitTimerScheduled { timer } => timer_fault(timer),
        SessionEventView::WaitCleared { wait_id } => identifier_fault("wait_id"@, wait_id),
        SessionEventView::WaitExpired { wait_id } => identifier_fault("wait_id"@, wait_id),
        SessionEventView::AsyncToolCallStarted { record } => started_record_fault(record),
        SessionEventView::AsyncToolCallRunning { tool_call_id } => identifier_fault(
            "tool_call_id"@,
            tool_call_id,
        ),
        SessionEventView::AsyncToolCallUnknownOutcome { tool_call_id, reason } => identifier_fault(
            "tool_call_id"@,
            tool_call_id,
        ).before(bounded_text_fault("unknown outcome reason"@, reason)),
        SessionEventView::AsyncToolCallRuntimeRestarted {
            tool_call_id,
            reason,
            completed_at_ms,
        } => identifier_fault("tool_call_id"@, tool_call_id).before(
            bounded_text_fault("runtime restart reason"@, reason),
        ).before(timestamp_fault("async runtime restarted completed_at_ms"@, completed_at_ms)),
        SessionEventView::AsyncToolCallCallbackPlanned { binding } => binding_fault(binding),
        SessionEventView::AsyncToolCallCallbackCompleted {
            callback_id,
            tool_call_id,
            payload_fingerprint,
            result,
            completed_at_ms,
        } => identifier_fault("callback_id"@, callback_id).before(
            identifier_fault("tool_call_id"@, tool_call_id),
        ).before(
            fingerprint_fault("callback payload fingerprint"@, payload_fingerprint),
        ).before(payload_fault(result)).before(
            timestamp_fault("callback completed_at_ms"@, completed_at_ms),
        ),
        SessionEventView::AsyncToolCallCallbackFailed {
            callback_id,
            tool_call_id,
            payload_fingerprint,
            error,
            completed_at_ms,
        } => identifier_fault("callback_id"@, callback_id).before(
            identifier_fault("tool_call_id"@, tool_call_id),
        ).before(
            fingerprint_fault("callback payload fingerprint"@, payload_fingerprint),
        ).before(tool_error_fault(error)).before(
            timestamp_fault("callback failed_at_ms"@, completed_at_ms),
        ),
        SessionEventView::AsyncToolCallProgress { tool_call_id, progress } => identifier_fault(
            "tool_call_id"@,
            tool_call_id,
        ).before(payload_fault(progress)),
        SessionEventView::AsyncToolCallCompleted { tool_call_id, result, completed_at_ms } =>
            identifier_fault("tool_call_id"@, tool_call_id).before(payload_fault(result)).before(
            timestamp_fault("async tool completed_at_ms"@, completed_at_ms),
        ),
        SessionEventView::AsyncToolCallFailed { tool_call_id, error, completed_at_ms } =>
            identifier_fault("tool_call_id"@, tool_call_id).before(tool_error_fault(error)).before(
            timestamp_fault("async tool completed_at_ms"@, completed_at_ms),
        ),
        SessionEventView::AsyncToolCallCancelled { tool_call_id, reason, completed_at_ms } =>
            identifier_fault("tool_call_id"@, tool_call_id).before(
            bounded_text_fault("reason"@, reason),
        ).before(timestamp_fault("async tool completed_at_ms"@, completed_at_ms)),
        SessionEventView::DedupeRecorded { key } => identifier_fault("key"@, key),
    }
}

fn validate_attempt_ids(
    activation_id: &str,
    round_id: &str,
    request_id: &str,
    attempt_id: &str,
) -> (result: Result<(), DomainError>)
    ensures
        fault_of(result) == attempt_ids_fault(activation_id@, round_id@, request_id@, attempt_id@),
{
    validate_identifier("activation_id", activation_id)?;
    validate_identifier("round_id", round_id)?;
    validate_identifier("request_id", request_id)?;
    validate_identifier("attempt_id", attempt_id)
}

fn validate_attempt_number(attempt_number: u32) -> (result: Result<(), DomainError>)
    ensures
        fault_of(result) == attempt_number_fault(attempt_number),
{
    if valid_attempts(attempt_number) {
        Ok(())
    } else {
        Err(invalid_state("model attempt number is outside the bounded range"))
    }
}

fn validate_declaration(
    activation_id: &str,
    round_id: &str,
    request_id: &str,
    request_fingerprint: &str,
    provider_execution_fingerprint: &str,
    prompt_fingerprint: &str,
    tool_schema_fingerprint: &str,
    maximum_attempts: u32,
    minimum_auth_revision: u64,
) -> (result: Result<(), DomainError>)
    ensures
        fault_of(result) == declaration_fault(
            activation_id@,
            round_id@,
            request_id@,
            request_fingerprint@,
            provider_execution_fingerprint@,
            prompt_fingerprint@,
            tool_schema_fingerprint@,
            maximum_attempts,
            minimum_auth_revision,
        ),
{
    validate_identifier("activation_id", activation_id)?;
    validate_identifier("round_id", round_id)?;
    validate_identifier("request_id", request_id)?;
    validate_model_fingerprint("request_fingerprint", request_fingerprint)?;
    validate_model_fingerprint("provider_execution_fingerprint", provider_execution_fingerprint)?;
    validate_model_fingerprint("prompt_fingerprint", prompt_fingerprint)?;
    validate_model_fingerprint("tool_schema_fingerprint", tool_schema_fingerprint)?;
    if !valid_attempts(maximum_attempts) {
        return Err(invalid_state("model request maximum attempts are outside the bounded range"));
    }
    if minimum_auth_revision == 0 {
        return Err(invalid_state("model request minimum auth revision must be positive"));
    }
    Ok(())
}

impl SessionEvent {
    /// The name of the event's kind.
    pub fn kind(&self) -> (kind: &'static str)
        ensures
            kind@ == event_kind(self.deep_view()),
    {
        match self {
            SessionEvent::SessionCreated { .. } => "session_created",
            SessionEvent::ModelSelectionChanged { .. } => "model_selection_changed",
            SessionEvent::StatusChanged { .. } => "status_changed",
            SessionEvent::DeliveryQueued { .. } => "delivery_queued",
            SessionEvent::DeliveryAcknowledged { .. } => "delivery_acknowledged",
            SessionEvent::DeliveryMaterialized { .. } => "delivery_materialized",
            SessionEvent::MessageAppended { .. } => "message_appended",
            SessionEvent::ActivationStarted { .. } => "activation_started",
            SessionEvent::ModelRoundStarted { .. } => "model_round_started",
            SessionEvent::ContextHandoffPlanned { .. } => "context_handoff_planned",
            SessionEvent::ContextHandoffCreated { .. } => "context_handoff_created",
            SessionEvent::ContextHandoffFailed { .. } => "context_handoff_failed",
            SessionEvent::ModelRequestPrepared { .. } => "model_request_prepared",
            SessionEvent::ModelRequestDeclared { .. } => "model_request_declared",
            SessionEvent::ModelAttemptStarted { .. } => "model_attempt_started",
            SessionEvent::ModelAttemptFailedFact { .. } => "model_attempt_failed",
            SessionEvent::ModelAttemptInterrupted { .. } => "model_attempt_interrupted",
            SessionEvent::ModelRequestAbandoned { .. } => "model_request_abandoned",
            SessionEvent::ModelAttemptsExhausted { .. } => "model_attempts_exhausted",
            SessionEvent::ModelStepRetryScheduled { .. } => "model_step_retry_scheduled",
            SessionEvent::ModelRequestCompleted { .. } => "model_request_completed",
            SessionEvent::ActivationFinished { .. } => "activation_finished",
            SessionEvent::ModelAttemptFailed { .. } => "model_attempt_failed",
            SessionEvent::WaitSet { .. } => "wait_set",
            SessionEvent::WaitTimerScheduled { .. } => "wait_timer_scheduled",
            SessionEvent::WaitCleared { .. } => "wait_cleared",
            SessionEvent::WaitExpired { .. } => "wait_expired",
            SessionEvent::AsyncToolCallStarted { .. } => "async_tool_call_started",
            SessionEvent::AsyncToolCallRunning { .. } => "async_tool_call_running",
            SessionEvent::AsyncToolCallUnknownOutcome { .. } => "async_tool_call_unknown_outcome",
            SessionEvent::AsyncToolCallRuntimeRestarted { .. } => {
                "async_tool_call_runtime_restarted"
            },
            SessionEvent::AsyncToolCallCallbackPlanned { .. } => "async_tool_call_callback_planned",
            SessionEvent::AsyncToolCallCallbackCompleted { .. } => {
                "async_tool_call_callback_completed"
            },
            SessionEvent::AsyncToolCallCallbackFailed { .. } => "async_tool_call_callback_failed",
            SessionEvent::AsyncToolCallProgress { .. } => "async_tool_call_progress",
            SessionEvent::AsyncToolCallCompleted { .. } => "async_tool_call_completed",
            SessionEvent::AsyncToolCallFailed { .. } => "async_tool_call_failed",
            SessionEvent::AsyncToolCallCancelled { .. } => "async_tool_call_cancelled",
            SessionEvent::DedupeRecorded { .. } => "dedupe_recorded",
        }
    }

    /// Checks the event by itself, whatever the state that it meets.
    #[verifier::rlimit(80)]
    #[verifier::spinoff_prover]
    pub fn validate(&self) -> (result: Result<(), DomainError>)
        ensures
            fault_of(result) == event_fault(self.deep_view()),
    {
        proof {
            reveal(event_fault);
        }
        match self {
            SessionEvent::SessionCreated {
                schema_version,
                session_id,
                owner,
                created_at_ms,
                selection,
            } => {
                if *schema_version != SESSION_CREATED_SCHEMA_VERSION {
                    return Err(DomainError::UnsupportedSessionCreatedSchema(*schema_version));
                }
                validate_identifier("session_id", session_id)?;
                owner.validate()?;
                if *created_at_ms < 0 {
                    return Err(DomainError::InvalidCreatedAt);
                }
                selection.validate()
            },
            SessionEvent::ModelSelectionChanged { selection } => selection.validate(),
            SessionEvent::StatusChanged { .. } => Ok(()),
            SessionEvent::DeliveryQueued { delivery } => validate_delivery(delivery, false),
            SessionEvent::DeliveryAcknowledged { .. } => Ok(()),
            SessionEvent::DeliveryMaterialized { queue_id, message } => {
                if *queue_id == 0 {
                    return Err(invalid_state("delivery materialization needs a queue id"));
                }
                validate_message(message)
            },
            SessionEvent::MessageAppended { message, .. } => validate_message(message),
            SessionEvent::ActivationStarted {
                activation_id,
                selection,
                selection_version,
                minimum_auth_revision,
                started_at_ms,
            } => {
                validate_identifier("activation_id", activation_id)?;
                selection.validate()?;
                if *selection_version == 0 || *minimum_auth_revision == 0 {
                    return Err(
                        invalid_state("activation selection and auth revisions must be positive"),
                    );
                }
                validate_non_negative_timestamp("activation started_at_ms", *started_at_ms)
            },
            SessionEvent::ModelRoundStarted {
                activation_id,
                round_id,
                delivery_through_queue_id,
                started_at_ms,
                ..
            } => {
                validate_identifier("activation_id", activation_id)?;
                validate_identifier("round_id", round_id)?;
                validate_non_negative_timestamp("model round started_at_ms", *started_at_ms)?;
                if *delivery_through_queue_id == 0 {
                    return Err(invalid_state("model round delivery boundary must be positive"));
                }
                Ok(())
            },
            SessionEvent::ContextHandoffPlanned { plan } => validate_context_handoff_plan(plan),
            SessionEvent::ContextHandoffCreated { handoff } => {
                validate_context_handoff_document(handoff)
            },
            SessionEvent::ContextHandoffFailed { plan_id, error, finished_at_ms } => {
                validate_identifier("context handoff plan_id", plan_id)?;
                validate_model_error(error)?;
                validate_non_negative_timestamp("context handoff finished_at_ms", *finished_at_ms)
            },
            SessionEvent::ModelRequestPrepared {
                activation_id,
                round_id,
                request_id,
                request_fingerprint,
                provider_execution_fingerprint,
                prompt_fingerprint,
                tool_schema_fingerprint,
                envelope,
                maximum_attempts,
                minimum_auth_revision,
            } => {
                envelope.validate()?;
                validate_declaration(
                    activation_id,
                    round_id,
                    request_id,
                    request_fingerprint,
                    provider_execution_fingerprint,
                    prompt_fingerprint,
                    tool_schema_fingerprint,
                    *maximum_attempts,
                    *minimum_auth_revision,
                )
            },
            SessionEvent::ModelRequestDeclared {
                activation_id,
                round_id,
                request_id,
                request_fingerprint,
                provider_execution_fingerprint,
                prompt_fingerprint,
                tool_schema_fingerprint,
                maximum_attempts,
                minimum_auth_revision,
            } => validate_declaration(
                activation_id,
                round_id,
                request_id,
                request_fingerprint,
                provider_execution_fingerprint,
                prompt_fingerprint,
                tool_schema_fingerprint,
                *maximum_attempts,
                *minimum_auth_revision,
            ),
            SessionEvent::ModelAttemptStarted {
                activation_id,
                round_id,
                request_id,
                attempt_id,
                attempt_number,
                auth_revision,
                started_at_ms,
            } => {
                validate_attempt_ids(activation_id, round_id, request_id, attempt_id)?;
                validate_attempt_number(*attempt_number)?;
                if *auth_revision == 0 {
                    return Err(invalid_state("model attempt auth revision must be positive"));
                }
                validate_non_negative_timestamp("model attempt started_at_ms", *started_at_ms)
            },
            SessionEvent::ModelAttemptFailedFact {
                activation_id,
                round_id,
                request_id,
                attempt_id,
                attempt_number,
                error_class,
                ..
            } => {
                validate_attempt_ids(activation_id, round_id, request_id, attempt_id)?;
                validate_identifier("model attempt error class", error_class)?;
                validate_attempt_number(*attempt_number)
            },
            SessionEvent::ModelAttemptInterrupted {
                activation_id,
                round_id,
                request_id,
                attempt_id,
                attempt_number,
                reason,
            } => {
                validate_attempt_ids(activation_id, round_id, request_id, attempt_id)?;
                validate_bounded_text("model interruption reason", reason)?;
                validate_attempt_number(*attempt_number)
            },
            SessionEvent::ModelRequestAbandoned {
                activation_id,
                round_id,
                request_id,
                attempt_id,
                reason,
                abandoned_at_ms,
            } => {
                validate_attempt_ids(activation_id, round_id, request_id, attempt_id)?;
                validate_bounded_text("model request abandonment reason", reason)?;
                validate_non_negative_timestamp("model request abandoned_at_ms", *abandoned_at_ms)
            },
            SessionEvent::ModelAttemptsExhausted { fact } => {
                validate_model_attempts_exhausted(fact)
            },
            SessionEvent::ModelStepRetryScheduled { schedule } => {
                validate_retry_schedule(schedule)
            },
            SessionEvent::ModelRequestCompleted {
                activation_id,
                round_id,
                request_id,
                attempt_id,
                usage,
            } => {
                validate_attempt_ids(activation_id, round_id, request_id, attempt_id)?;
                if let Some(usage) = usage {
                    validate_model_usage_anchor(usage)?;
                }
                Ok(())
            },
            SessionEvent::ActivationFinished { activation_id, finished_at_ms, .. } => {
                validate_identifier("activation_id", activation_id)?;
                validate_non_negative_timestamp("activation finished_at_ms", *finished_at_ms)
            },
            SessionEvent::ModelAttemptFailed { failure } => {
                validate_model_attempt_failure(failure)
            },
            SessionEvent::WaitSet { wait } => validate_wait(wait),
            SessionEvent::WaitTimerScheduled { timer } => validate_timer(timer),
            SessionEvent::WaitCleared { wait_id } => validate_identifier("wait_id", wait_id),
            SessionEvent::WaitExpired { wait_id } => validate_identifier("wait_id", wait_id),
            SessionEvent::AsyncToolCallStarted { record } => validate_started_record(record),
            SessionEvent::AsyncToolCallRunning { tool_call_id } => {
                validate_identifier("tool_call_id", tool_call_id)
            },
            SessionEvent::AsyncToolCallUnknownOutcome { tool_call_id, reason } => {
                validate_identifier("tool_call_id", tool_call_id)?;
                validate_bounded_text("unknown outcome reason", reason)
            },
            SessionEvent::AsyncToolCallRuntimeRestarted {
                tool_call_id,
                reason,
                completed_at_ms,
            } => {
                validate_identifier("tool_call_id", tool_call_id)?;
                validate_bounded_text("runtime restart reason", reason)?;
                validate_non_negative_timestamp(
                    "async runtime restarted completed_at_ms",
                    *completed_at_ms,
                )
            },
            SessionEvent::AsyncToolCallCallbackPlanned { binding } => {
                validate_callback_binding(binding)
            },
            SessionEvent::AsyncToolCallCallbackCompleted {
                callback_id,
                tool_call_id,
                payload_fingerprint,
                result,
                completed_at_ms,
            } => {
                validate_identifier("callback_id", callback_id)?;
                validate_identifier("tool_call_id", tool_call_id)?;
                validate_model_fingerprint("callback payload fingerprint", payload_fingerprint)?;
                result.validate()?;
                validate_non_negative_timestamp("callback completed_at_ms", *completed_at_ms)
            },
            SessionEvent::AsyncToolCallCallbackFailed {
                callback_id,
                tool_call_id,
                payload_fingerprint,
                error,
                completed_at_ms,
            } => {
                validate_identifier("callback_id", callback_id)?;
                validate_identifier("tool_call_id", tool_call_id)?;
                validate_model_fingerprint("callback payload fingerprint", payload_fingerprint)?;
                validate_tool_error(error)?;
                validate_non_negative_timestamp("callback failed_at_ms", *completed_at_ms)
            },
            SessionEvent::AsyncToolCallProgress { tool_call_id, progress } => {
                validate_identifier("tool_call_id", tool_call_id)?;
                progress.validate()
            },
            SessionEvent::AsyncToolCallCompleted { tool_call_id, result, completed_at_ms } => {
                validate_identifier("tool_call_id", tool_call_id)?;
                result.validate()?;
                validate_non_negative_timestamp("async tool completed_at_ms", *completed_at_ms)
            },
            SessionEvent::AsyncToolCallFailed { tool_call_id, error, completed_at_ms } => {
                validate_identifier("tool_call_id", tool_call_id)?;
                validate_tool_error(error)?;
                validate_non_negative_timestamp("async tool completed_at_ms", *completed_at_ms)
            },
            SessionEvent::AsyncToolCallCancelled { tool_call_id, reason, completed_at_ms } => {
                validate_identifier("tool_call_id", tool_call_id)?;
                validate_bounded_text("reason", reason)?;
                validate_non_negative_timestamp("async tool completed_at_ms", *completed_at_ms)
            },
            SessionEvent::DedupeRecorded { key } => validate_identifier("key", key),
        }
    }
}

} // verus!
