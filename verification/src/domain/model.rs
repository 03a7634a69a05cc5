//! Activations, model rounds with their requests and attempts, and context handoffs.

use super::error::{fault_of, invalid, invalid_state, DomainError, DomainErrorView};
use super::payload::{payload_fault, DurablePayload, DurablePayloadView};
use super::rules::{
    bounded_text_fault, fingerprint_fault, identifier_fault, limit_text, require_text,
    required_text_fault, text_size_fault, timestamp_fault, validate_bounded_text,
    validate_identifier, validate_model_fingerprint, validate_non_negative_timestamp,
};
use super::selection::{
    model_agrees, model_agrees_reflexive, model_fault, selection_fault, validate_model,
    SessionModelSelection, SessionModelSelectionView, SessionSelection, SessionSelectionView,
};
use super::{MAX_MESSAGE_CONTENT_BYTES, MAX_MODEL_ATTEMPTS_PER_STEP};
use crate::checks::{fault_if, optional_fault, Checks};
use crate::datum::{Datum, Same};
use vstd::prelude::*;

verus! {

/// How an activation ended.
#[derive(Clone, Copy, Debug, Eq, PartialEq, Structural)]
pub enum ActivationOutcome {
    Finished,
    Wait,
    Failed,
    Interrupted,
}

/// How far a model attempt is.
#[derive(Clone, Copy, Debug, Eq, PartialEq, Structural)]
pub enum ModelAttemptOutcome {
    Running,
    Failed,
    Interrupted,
    Completed,
}

impl Default for ModelAttemptOutcome {
    fn default() -> (value: Self)
        ensures
            value == ModelAttemptOutcome::Running,
    {
        ModelAttemptOutcome::Running
    }
}

/// What a model request is for.
#[derive(Clone, Copy, Debug, Eq, PartialEq, Structural)]
pub enum ModelRequestPurpose {
    Conversation,
    ContextHandoff,
}

impl Default for ModelRequestPurpose {
    fn default() -> (value: Self)
        ensures
            value == ModelRequestPurpose::Conversation,
    {
        ModelRequestPurpose::Conversation
    }
}

impl ModelRequestPurpose {
    /// Whether the request carries on the conversation.
    pub fn is_conversation(&self) -> (is_conversation: bool)
        ensures
            is_conversation == (*self == ModelRequestPurpose::Conversation),
    {
        matches!(self, ModelRequestPurpose::Conversation)
    }
}

/// The kinds of final model failures.
#[derive(Clone, Copy, Debug, Eq, PartialEq, Structural)]
pub enum ModelAttemptErrorClass {
    AuthReplicaUnavailable,
    InvalidToolArguments,
    ContextHandoffFailed,
}

/// The one activation that may own a session. It is the durable fact by which a restart and the
/// next round are fenced.
#[derive(Clone, Debug, PartialEq)]
pub struct ActiveActivation {
    pub activation_id: String,
    pub selection: SessionSelection,
    pub selection_version: u64,
    pub minimum_auth_revision: u64,
    pub started_at_ms: i64,
    /// A count that old streams carry; it never gates execution.
    pub legacy_rounds_started: u32,
}

/// The content of a [`ActiveActivation`].
pub struct ActiveActivationView {
    pub activation_id: Seq<char>,
    pub selection: SessionSelectionView,
    pub selection_version: u64,
    pub minimum_auth_revision: u64,
    pub started_at_ms: i64,
    pub legacy_rounds_started: u32,
}

impl DeepView for ActiveActivation {
    type V = ActiveActivationView;

    open spec fn deep_view(&self) -> ActiveActivationView {
        ActiveActivationView {
            activation_id: self.activation_id.deep_view(),
            selection: self.selection.deep_view(),
            selection_version: self.selection_version,
            minimum_auth_revision: self.minimum_auth_revision,
            started_at_ms: self.started_at_ms,
            legacy_rounds_started: self.legacy_rounds_started,
        }
    }
}

impl Datum for ActiveActivation {
    fn replica(&self) -> (copy: Self) {
        ActiveActivation {
            activation_id: self.activation_id.replica(),
            selection: self.selection.replica(),
            selection_version: self.selection_version,
            minimum_auth_revision: self.minimum_auth_revision,
            started_at_ms: self.started_at_ms,
            legacy_rounds_started: self.legacy_rounds_started,
        }
    }
}

/// A declared model request, by fingerprints of what was asked.
#[derive(Clone, Debug, PartialEq)]
pub struct ModelRequestFact {
    pub activation_id: String,
    pub round_id: String,
    pub request_id: String,
    pub request_fingerprint: String,
    pub provider_execution_fingerprint: String,
    pub prompt_fingerprint: String,
    pub tool_schema_fingerprint: String,
    /// The content of a request in old streams; new declarations leave it out.
    pub legacy_envelope: Option<DurablePayload>,
    pub maximum_attempts: u32,
    pub minimum_auth_revision: u64,
}

/// The content of a [`ModelRequestFact`].
pub struct ModelRequestFactView {
    pub activation_id: Seq<char>,
    pub round_id: Seq<char>,
    pub request_id: Seq<char>,
    pub request_fingerprint: Seq<char>,
    pub provider_execution_fingerprint: Seq<char>,
    pub prompt_fingerprint: Seq<char>,
    pub tool_schema_fingerprint: Seq<char>,
    pub legacy_envelope: Option<DurablePayloadView>,
    pub maximum_attempts: u32,
    pub minimum_auth_revision: u64,
}

impl DeepView for ModelRequestFact {
    type V = ModelRequestFactView;

    open spec fn deep_view(&self) -> ModelRequestFactView {
        ModelRequestFactView {
            activation_id: self.activation_id.deep_view(),
            round_id: self.round_id.deep_view(),
            request_id: self.request_id.deep_view(),
            request_fingerprint: self.request_fingerprint.deep_view(),
            provider_execution_fingerprint: self.provider_execution_fingerprint.deep_view(),
            prompt_fingerprint: self.prompt_fingerprint.deep_view(),
            tool_schema_fingerprint: self.tool_schema_fingerprint.deep_view(),
            legacy_envelope: self.legacy_envelope.deep_view(),
            maximum_attempts: self.maximum_attempts,
            minimum_auth_revision: self.minimum_auth_revision,
        }
    }
}

impl Datum for ModelRequestFact {
    fn replica(&self) -> (copy: Self) {
        ModelRequestFact {
            activation_id: self.activation_id.replica(),
            round_id: self.round_id.replica(),
            request_id: self.request_id.replica(),
            request_fingerprint: self.request_fingerprint.replica(),
            provider_execution_fingerprint: self.provider_execution_fingerprint.replica(),
            prompt_fingerprint: self.prompt_fingerprint.replica(),
            tool_schema_fingerprint: self.tool_schema_fingerprint.replica(),
            legacy_envelope: self.legacy_envelope.replica(),
            maximum_attempts: self.maximum_attempts,
            minimum_auth_revision: self.minimum_auth_revision,
        }
    }
}

/// One attempt at a model request.
#[derive(Clone, Debug, PartialEq)]
pub struct ModelAttemptRecord {
    pub activation_id: String,
    pub round_id: String,
    pub request_id: String,
    pub attempt_id: String,
    pub attempt_number: u32,
    pub auth_revision: u64,
    pub started_at_ms: i64,
    pub outcome: ModelAttemptOutcome,
}

/// The content of a [`ModelAttemptRecord`].
pub struct ModelAttemptRecordView {
    pub activation_id: Seq<char>,
    pub round_id: Seq<char>,
    pub request_id: Seq<char>,
    pub attempt_id: Seq<char>,
    pub attempt_number: u32,
    pub auth_revision: u64,
    pub started_at_ms: i64,
    pub outcome: ModelAttemptOutcome,
}

impl DeepView for ModelAttemptRecord {
    type V = ModelAttemptRecordView;

    open spec fn deep_view(&self) -> ModelAttemptRecordView {
        ModelAttemptRecordView {
            activation_id: self.activation_id.deep_view(),
            round_id: self.round_id.deep_view(),
            request_id: self.request_id.deep_view(),
            attempt_id: self.attempt_id.deep_view(),
            attempt_number: self.attempt_number,
            auth_revision: self.auth_revision,
            started_at_ms: self.started_at_ms,
            outcome: self.outcome,
        }
    }
}

impl Datum for ModelAttemptRecord {
    fn replica(&self) -> (copy: Self) {
        ModelAttemptRecord {
            activation_id: self.activation_id.replica(),
            round_id: self.round_id.replica(),
            request_id: self.request_id.replica(),
            attempt_id: self.attempt_id.replica(),
            attempt_number: self.attempt_number,
            auth_revision: self.auth_revision,
            started_at_ms: self.started_at_ms,
            outcome: self.outcome,
        }
    }
}

/// When a failed attempt is tried again.
#[derive(Clone, Debug, PartialEq)]
pub struct ModelRetrySchedule {
    pub activation_id: String,
    pub round_id: String,
    pub request_id: String,
    pub failed_attempt_id: String,
    pub next_attempt_id: String,
    pub failed_attempt_number: u32,
    pub next_attempt_number: u32,
    pub delay_ms: u64,
    pub not_before_ms: i64,
    pub maximum_attempts: u32,
    pub error_class: String,
}

/// The content of a [`ModelRetrySchedule`].
pub struct ModelRetryScheduleView {
    pub activation_id: Seq<char>,
    pub round_id: Seq<char>,
    pub request_id: Seq<char>,
    pub failed_attempt_id: Seq<char>,
    pub next_attempt_id: Seq<char>,
    pub failed_attempt_number: u32,
    pub next_attempt_number: u32,
    pub delay_ms: u64,
    pub not_before_ms: i64,
    pub maximum_attempts: u32,
    pub error_class: Seq<char>,
}

impl DeepView for ModelRetrySchedule {
    type V = ModelRetryScheduleView;

    open spec fn deep_view(&self) -> ModelRetryScheduleView {
        ModelRetryScheduleView {
            activation_id: self.activation_id.deep_view(),
            round_id: self.round_id.deep_view(),
            request_id: self.request_id.deep_view(),
            failed_attempt_id: self.failed_attempt_id.deep_view(),
            next_attempt_id: self.next_attempt_id.deep_view(),
            failed_attempt_number: self.failed_attempt_number,
            next_attempt_number: self.next_attempt_number,
            delay_ms: self.delay_ms,
            not_before_ms: self.not_before_ms,
            maximum_attempts: self.maximum_attempts,
            error_class: self.error_class.deep_view(),
        }
    }
}

impl Datum for ModelRetrySchedule {
    fn replica(&self) -> (copy: Self) {
        ModelRetrySchedule {
            activation_id: self.activation_id.replica(),
            round_id: self.round_id.replica(),
            request_id: self.request_id.replica(),
            failed_attempt_id: self.failed_attempt_id.replica(),
            next_attempt_id: self.next_attempt_id.replica(),
            failed_attempt_number: self.failed_attempt_number,
            next_attempt_number: self.next_attempt_number,
            delay_ms: self.delay_ms,
            not_before_ms: self.not_before_ms,
            maximum_attempts: self.maximum_attempts,
            error_class: self.error_class.replica(),
        }
    }
}

impl Same for ModelRetrySchedule {
    fn same(&self, other: &Self) -> (same: bool) {
        self.activation_id.same(&other.activation_id)
            && self.round_id.same(&other.round_id)
            && self.request_id.same(&other.request_id)
            && self.failed_attempt_id.same(&other.failed_attempt_id)
            && self.next_attempt_id.same(&other.next_attempt_id)
            && self.failed_attempt_number == other.failed_attempt_number
            && self.next_attempt_number == other.next_attempt_number
            && self.delay_ms == other.delay_ms
            && self.not_before_ms == other.not_before_ms
            && self.maximum_attempts == other.maximum_attempts
            && self.error_class.same(&other.error_class)
    }
}

/// The model round of an activation.
#[derive(Clone, Debug, PartialEq)]
pub struct ActiveModelRound {
    pub activation_id: String,
    pub round_id: String,
    pub purpose: ModelRequestPurpose,
    pub delivery_through_queue_id: u64,
    pub started_at_ms: i64,
    pub request: Option<ModelRequestFact>,
    pub attempt: Option<ModelAttemptRecord>,
    pub retry: Option<ModelRetrySchedule>,
}

/// The content of a [`ActiveModelRound`].
pub struct ActiveModelRoundView {
    pub activation_id: Seq<char>,
    pub round_id: Seq<char>,
    pub purpose: ModelRequestPurpose,
    pub delivery_through_queue_id: u64,
    pub started_at_ms: i64,
    pub request: Option<ModelRequestFactView>,
    pub attempt: Option<ModelAttemptRecordView>,
    pub retry: Option<ModelRetryScheduleView>,
}

impl DeepView for ActiveModelRound {
    type V = ActiveModelRoundView;

    open spec fn deep_view(&self) -> ActiveModelRoundView {
        ActiveModelRoundView {
            activation_id: self.activation_id.deep_view(),
            round_id: self.round_id.deep_view(),
            purpose: self.purpose,
            delivery_through_queue_id: self.delivery_through_queue_id,
            started_at_ms: self.started_at_ms,
            request: self.request.deep_view(),
            attempt: self.attempt.deep_view(),
            retry: self.retry.deep_view(),
        }
    }
}

impl Datum for ActiveModelRound {
    fn replica(&self) -> (copy: Self) {
        ActiveModelRound {
            activation_id: self.activation_id.replica(),
            round_id: self.round_id.replica(),
            purpose: self.purpose,
            delivery_through_queue_id: self.delivery_through_queue_id,
            started_at_ms: self.started_at_ms,
            request: self.request.replica(),
            attempt: self.attempt.replica(),
            retry: self.retry.replica(),
        }
    }
}

/// The token counts of one completed conversation request, from which the next one is estimated.
/// It holds numbers and fingerprints, never content.
#[derive(Clone, Debug, PartialEq)]
pub struct ModelUsageAnchor {
    pub context_generation: u64,
    pub selection_fingerprint: String,
    pub tool_schema_fingerprint: String,
    pub result_message_id: String,
    pub input_tokens: u64,
    pub output_tokens: u64,
    /// The local estimate of the same request.
    pub local_input_estimate_tokens: Option<u64>,
    /// The highest ratio of counted to estimated input tokens so far, in millionths.
    pub input_estimate_scale_millionths: Option<u64>,
}

/// The content of a [`ModelUsageAnchor`].
pub struct ModelUsageAnchorView {
    pub context_generation: u64,
    pub selection_fingerprint: Seq<char>,
    pub tool_schema_fingerprint: Seq<char>,
    pub result_message_id: Seq<char>,
    pub input_tokens: u64,
    pub output_tokens: u64,
    pub local_input_estimate_tokens: Option<u64>,
    pub input_estimate_scale_millionths: Option<u64>,
}

impl DeepView for ModelUsageAnchor {
    type V = ModelUsageAnchorView;

    open spec fn deep_view(&self) -> ModelUsageAnchorView {
        ModelUsageAnchorView {
            context_generation: self.context_generation,
            selection_fingerprint: self.selection_fingerprint.deep_view(),
            tool_schema_fingerprint: self.tool_schema_fingerprint.deep_view(),
            result_message_id: self.result_message_id.deep_view(),
            input_tokens: self.input_tokens,
            output_tokens: self.output_tokens,
            local_input_estimate_tokens: self.local_input_estimate_tokens,
            input_estimate_scale_millionths: self.input_estimate_scale_millionths,
        }
    }
}

impl Datum for ModelUsageAnchor {
    fn replica(&self) -> (copy: Self) {
        ModelUsageAnchor {
            context_generation: self.context_generation,
            selection_fingerprint: self.selection_fingerprint.replica(),
            tool_schema_fingerprint: self.tool_schema_fingerprint.replica(),
            result_message_id: self.result_message_id.replica(),
            input_tokens: self.input_tokens,
            output_tokens: self.output_tokens,
            local_input_estimate_tokens: self.local_input_estimate_tokens,
            input_estimate_scale_millionths: self.input_estimate_scale_millionths,
        }
    }
}

/// The plan to hand a context over to its next generation.
#[derive(Clone, Debug, PartialEq)]
pub struct ContextHandoffPlan {
    pub plan_id: String,
    pub activation_id: String,
    pub previous_handoff_id: Option<String>,
    pub next_generation: u64,
    pub covered_through_message_id: String,
    pub source_digest: String,
    pub source_tokens: u64,
    pub token_accounting_version: u32,
    pub selection: SessionModelSelection,
}

/// The content of a [`ContextHandoffPlan`].
pub struct ContextHandoffPlanView {
    pub plan_id: Seq<char>,
    pub activation_id: Seq<char>,
    pub previous_handoff_id: Option<Seq<char>>,
    pub next_generation: u64,
    pub covered_through_message_id: Seq<char>,
    pub source_digest: Seq<char>,
    pub source_tokens: u64,
    pub token_accounting_version: u32,
    pub selection: SessionModelSelectionView,
}

impl DeepView for ContextHandoffPlan {
    type V = ContextHandoffPlanView;

    open spec fn deep_view(&self) -> ContextHandoffPlanView {
        ContextHandoffPlanView {
            plan_id: self.plan_id.deep_view(),
            activation_id: self.activation_id.deep_view(),
            previous_handoff_id: self.previous_handoff_id.deep_view(),
            next_generation: self.next_generation,
            covered_through_message_id: self.covered_through_message_id.deep_view(),
            source_digest: self.source_digest.deep_view(),
            source_tokens: self.source_tokens,
            token_accounting_version: self.token_accounting_version,
            selection: self.selection.deep_view(),
        }
    }
}

impl Datum for ContextHandoffPlan {
    fn replica(&self) -> (copy: Self) {
        ContextHandoffPlan {
            plan_id: self.plan_id.replica(),
            activation_id: self.activation_id.replica(),
            previous_handoff_id: self.previous_handoff_id.replica(),
            next_generation: self.next_generation,
            covered_through_message_id: self.covered_through_message_id.replica(),
            source_digest: self.source_digest.replica(),
            source_tokens: self.source_tokens,
            token_accounting_version: self.token_accounting_version,
            selection: self.selection.replica(),
        }
    }
}

/// The document that opens the next generation of a context.
#[derive(Clone, Debug, PartialEq)]
pub struct ContextHandoffDocument {
    pub handoff_id: String,
    pub plan_id: String,
    pub previous_handoff_id: Option<String>,
    pub next_generation: u64,
    pub covered_through_message_id: String,
    pub source_digest: String,
    pub document: String,
    pub document_digest: String,
    pub source_tokens: u64,
    pub document_tokens: u64,
    pub token_accounting_version: u32,
    pub selection: SessionModelSelection,
}

/// The content of a [`ContextHandoffDocument`].
pub struct ContextHandoffDocumentView {
    pub handoff_id: Seq<char>,
    pub plan_id: Seq<char>,
    pub previous_handoff_id: Option<Seq<char>>,
    pub next_generation: u64,
    pub covered_through_message_id: Seq<char>,
    pub source_digest: Seq<char>,
    pub document: Seq<char>,
    pub document_digest: Seq<char>,
    pub source_tokens: u64,
    pub document_tokens: u64,
    pub token_accounting_version: u32,
    pub selection: SessionModelSelectionView,
}

impl DeepView for ContextHandoffDocument {
    type V = ContextHandoffDocumentView;

    open spec fn deep_view(&self) -> ContextHandoffDocumentView {
        ContextHandoffDocumentView {
            handoff_id: self.handoff_id.deep_view(),
            plan_id: self.plan_id.deep_view(),
            previous_handoff_id: self.previous_handoff_id.deep_view(),
            next_generation: self.next_generation,
            covered_through_message_id: self.covered_through_message_id.deep_view(),
            source_digest: self.source_digest.deep_view(),
            document: self.document.deep_view(),
            document_digest: self.document_digest.deep_view(),
            source_tokens: self.source_tokens,
            document_tokens: self.document_tokens,
            token_accounting_version: self.token_accounting_version,
            selection: self.selection.deep_view(),
        }
    }
}

impl Datum for ContextHandoffDocument {
    fn replica(&self) -> (copy: Self) {
        ContextHandoffDocument {
            handoff_id: self.handoff_id.replica(),
            plan_id: self.plan_id.replica(),
            previous_handoff_id: self.previous_handoff_id.replica(),
            next_generation: self.next_generation,
            covered_through_message_id: self.covered_through_message_id.replica(),
            source_digest: self.source_digest.replica(),
            document: self.document.replica(),
            document_digest: self.document_digest.replica(),
            source_tokens: self.source_tokens,
            document_tokens: self.document_tokens,
            token_accounting_version: self.token_accounting_version,
            selection: self.selection.replica(),
        }
    }
}

/// A final model failure.
#[derive(Clone, Debug, PartialEq)]
pub struct ModelAttemptError {
    pub class: ModelAttemptErrorClass,
    pub message: String,
}

/// The content of a [`ModelAttemptError`].
pub struct ModelAttemptErrorView {
    pub class: ModelAttemptErrorClass,
    pub message: Seq<char>,
}

impl DeepView for ModelAttemptError {
    type V = ModelAttemptErrorView;

    open spec fn deep_view(&self) -> ModelAttemptErrorView {
        ModelAttemptErrorView {
            class: self.class,
            message: self.message.deep_view(),
        }
    }
}

impl Datum for ModelAttemptError {
    fn replica(&self) -> (copy: Self) {
        ModelAttemptError {
            class: self.class,
            message: self.message.replica(),
        }
    }
}

impl Same for ModelAttemptError {
    fn same(&self, other: &Self) -> (same: bool) {
        self.class == other.class
            && self.message.same(&other.message)
    }
}

/// A final model failure, with the message that brought it about.
#[derive(Clone, Debug, PartialEq)]
pub struct ModelAttemptFailure {
    pub trigger_message_id: String,
    pub error: ModelAttemptError,
}

/// The content of a [`ModelAttemptFailure`].
pub struct ModelAttemptFailureView {
    pub trigger_message_id: Seq<char>,
    pub error: ModelAttemptErrorView,
}

impl DeepView for ModelAttemptFailure {
    type V = ModelAttemptFailureView;

    open spec fn deep_view(&self) -> ModelAttemptFailureView {
        ModelAttemptFailureView {
            trigger_message_id: self.trigger_message_id.deep_view(),
            error: self.error.deep_view(),
        }
    }
}

impl Datum for ModelAttemptFailure {
    fn replica(&self) -> (copy: Self) {
        ModelAttemptFailure {
            trigger_message_id: self.trigger_message_id.replica(),
            error: self.error.replica(),
        }
    }
}

impl Same for ModelAttemptFailure {
    fn same(&self, other: &Self) -> (same: bool) {
        self.trigger_message_id.same(&other.trigger_message_id)
            && self.error.same(&other.error)
    }
}

/// That the last attempt at a request has failed.
#[derive(Clone, Debug, PartialEq)]
pub struct ModelAttemptsExhaustedFact {
    pub activation_id: String,
    pub round_id: String,
    pub request_id: String,
    pub attempt_id: String,
    pub attempt_number: u32,
    pub maximum_attempts: u32,
    pub finished_at_ms: i64,
}

/// The content of a [`ModelAttemptsExhaustedFact`].
pub struct ModelAttemptsExhaustedFactView {
    pub activation_id: Seq<char>,
    pub round_id: Seq<char>,
    pub request_id: Seq<char>,
    pub attempt_id: Seq<char>,
    pub attempt_number: u32,
    pub maximum_attempts: u32,
    pub finished_at_ms: i64,
}

impl DeepView for ModelAttemptsExhaustedFact {
    type V = ModelAttemptsExhaustedFactView;

    open spec fn deep_view(&self) -> ModelAttemptsExhaustedFactView {
        ModelAttemptsExhaustedFactView {
            activation_id: self.activation_id.deep_view(),
            round_id: self.round_id.deep_view(),
            request_id: self.request_id.deep_view(),
            attempt_id: self.attempt_id.deep_view(),
            attempt_number: self.attempt_number,
            maximum_attempts: self.maximum_attempts,
            finished_at_ms: self.finished_at_ms,
        }
    }
}

impl Datum for ModelAttemptsExhaustedFact {
    fn replica(&self) -> (copy: Self) {
        ModelAttemptsExhaustedFact {
            activation_id: self.activation_id.replica(),
            round_id: self.round_id.replica(),
            request_id: self.request_id.replica(),
            attempt_id: self.attempt_id.replica(),
            attempt_number: self.attempt_number,
            maximum_attempts: self.maximum_attempts,
            finished_at_ms: self.finished_at_ms,
        }
    }
}

impl Same for ModelAttemptsExhaustedFact {
    fn same(&self, other: &Self) -> (same: bool) {
        self.activation_id.same(&other.activation_id)
            && self.round_id.same(&other.round_id)
            && self.request_id.same(&other.request_id)
            && self.attempt_id.same(&other.attempt_id)
            && self.attempt_number == other.attempt_number
            && self.maximum_attempts == other.maximum_attempts
            && self.finished_at_ms == other.finished_at_ms
    }
}

/// Equality of handoff plans.
pub open spec fn plan_agrees(left: ContextHandoffPlanView, right: ContextHandoffPlanView) -> bool {
    &&& model_agrees(left.selection, right.selection)
    &&& left == (ContextHandoffPlanView { selection: left.selection, ..right })
}

/// A handoff plan agrees with itself.
pub proof fn plan_agrees_reflexive(plan: ContextHandoffPlanView)
    ensures
        plan_agrees(plan, plan),
{
    model_agrees_reflexive(plan.selection);
}

/// Equality of handoff documents.
pub open spec fn document_agrees(
    left: ContextHandoffDocumentView,
    right: ContextHandoffDocumentView,
) -> bool {
    &&& model_agrees(left.selection, right.selection)
    &&& left == (ContextHandoffDocumentView { selection: left.selection, ..right })
}

impl ContextHandoffPlan {
    /// Whether both plans are equal.
    pub fn agrees(&self, other: &Self) -> (agrees: bool)
        ensures
            agrees == plan_agrees(self.deep_view(), other.deep_view()),
    {
        self.plan_id.same(&other.plan_id) && self.activation_id.same(&other.activation_id)
            && self.previous_handoff_id.same(&other.previous_handoff_id)
            && self.next_generation == other.next_generation
            && self.covered_through_message_id.same(&other.covered_through_message_id)
            && self.source_digest.same(&other.source_digest)
            && self.source_tokens == other.source_tokens
            && self.token_accounting_version == other.token_accounting_version
            && self.selection.agrees(&other.selection)
    }
}

impl ContextHandoffDocument {
    /// Whether both documents are equal.
    pub fn agrees(&self, other: &Self) -> (agrees: bool)
        ensures
            agrees == document_agrees(self.deep_view(), other.deep_view()),
    {
        self.handoff_id.same(&other.handoff_id) && self.plan_id.same(&other.plan_id)
            && self.previous_handoff_id.same(&other.previous_handoff_id)
            && self.next_generation == other.next_generation
            && self.covered_through_message_id.same(&other.covered_through_message_id)
            && self.source_digest.same(&other.source_digest)
            && self.document.same(&other.document)
            && self.document_digest.same(&other.document_digest)
            && self.source_tokens == other.source_tokens
            && self.document_tokens == other.document_tokens
            && self.token_accounting_version == other.token_accounting_version
            && self.selection.agrees(&other.selection)
    }
}

/// Whether an attempt number, or a number of attempts, is in the bound of one step.
pub open spec fn attempts_in_range(attempts: u32) -> bool {
    1 <= attempts <= MAX_MODEL_ATTEMPTS_PER_STEP
}

/// Whether an attempt number, or a number of attempts, is in the bound of one step.
pub(crate) fn valid_attempts(attempts: u32) -> (valid: bool)
    ensures
        valid == attempts_in_range(attempts),
{
    attempts != 0 && attempts <= MAX_MODEL_ATTEMPTS_PER_STEP
}

/// What is wrong with a model error.
pub open spec fn model_error_fault(error: ModelAttemptErrorView) -> Option<DomainErrorView> {
    bounded_text_fault("model error message"@, error.message)
}

/// What is wrong with a final model failure.
pub open spec fn model_failure_fault(failure: ModelAttemptFailureView) -> Option<
    DomainErrorView,
> {
    identifier_fault("trigger_message_id"@, failure.trigger_message_id).before(
        model_error_fault(failure.error),
    )
}

/// What is wrong with a usage anchor.
pub open spec fn usage_fault(anchor: ModelUsageAnchorView) -> Option<DomainErrorView> {
    fault_if(
        anchor.context_generation == 0 || anchor.input_tokens == 0
            || anchor.local_input_estimate_tokens == Some(0u64)
            || anchor.input_estimate_scale_millionths == Some(0u64),
        invalid("model usage anchor has invalid token accounting"@),
    ).before(
        fingerprint_fault("model usage selection fingerprint"@, anchor.selection_fingerprint),
    ).before(
        fingerprint_fault("model usage tool schema fingerprint"@, anchor.tool_schema_fingerprint),
    ).before(identifier_fault("model usage result_message_id"@, anchor.result_message_id))
}

/// What is wrong with a handoff plan.
pub open spec fn plan_fault(plan: ContextHandoffPlanView) -> Option<DomainErrorView> {
    identifier_fault("context handoff plan_id"@, plan.plan_id).before(
        identifier_fault("context handoff activation_id"@, plan.activation_id),
    ).before(
        optional_fault(
            plan.previous_handoff_id,
            |id: Seq<char>| identifier_fault("previous context handoff_id"@, id),
        ),
    ).before(
        identifier_fault(
            "context handoff covered message_id"@,
            plan.covered_through_message_id,
        ),
    ).before(fingerprint_fault("context handoff source digest"@, plan.source_digest)).before(
        fault_if(
            plan.next_generation < 2 || plan.source_tokens == 0 || plan.token_accounting_version
                == 0,
            invalid("context handoff plan has invalid generation or token accounting"@),
        ),
    ).before(model_fault(plan.selection))
}

/// What is wrong with a handoff document.
pub open spec fn document_fault(handoff: ContextHandoffDocumentView) -> Option<DomainErrorView> {
    identifier_fault("context handoff_id"@, handoff.handoff_id).before(
        identifier_fault("context handoff plan_id"@, handoff.plan_id),
    ).before(
        optional_fault(
            handoff.previous_handoff_id,
            |id: Seq<char>| identifier_fault("previous context handoff_id"@, id),
        ),
    ).before(
        identifier_fault(
            "context handoff covered message_id"@,
            handoff.covered_through_message_id,
        ),
    ).before(fingerprint_fault("context handoff source digest"@, handoff.source_digest)).before(
        fingerprint_fault("context handoff document digest"@, handoff.document_digest),
    ).before(required_text_fault("context handoff document"@, handoff.document)).before(
        text_size_fault("context handoff document"@, handoff.document, MAX_MESSAGE_CONTENT_BYTES),
    ).before(
        fault_if(
            handoff.next_generation < 2 || handoff.source_tokens == 0 || handoff.document_tokens
                == 0 || handoff.token_accounting_version == 0,
            invalid("context handoff document has invalid generation or token accounting"@),
        ),
    ).before(model_fault(handoff.selection))
}

/// What is wrong with the fact that the attempts are used up.
pub open spec fn exhausted_fault(fact: ModelAttemptsExhaustedFactView) -> Option<
    DomainErrorView,
> {
    identifier_fault("activation_id"@, fact.activation_id).before(
        identifier_fault("round_id"@, fact.round_id),
    ).before(identifier_fault("request_id"@, fact.request_id)).before(
        identifier_fault("attempt_id"@, fact.attempt_id),
    ).before(
        fault_if(
            !attempts_in_range(fact.attempt_number) || fact.attempt_number
                != fact.maximum_attempts,
            invalid("model attempts exhausted fact has invalid attempt bounds"@),
        ),
    ).before(timestamp_fault("model attempts exhausted finished_at_ms"@, fact.finished_at_ms))
}

/// What is wrong with a retry schedule.
pub open spec fn retry_fault(schedule: ModelRetryScheduleView) -> Option<DomainErrorView> {
    identifier_fault("activation_id"@, schedule.activation_id).before(
        identifier_fault("round_id"@, schedule.round_id),
    ).before(identifier_fault("request_id"@, schedule.request_id)).before(
        identifier_fault("failed_attempt_id"@, schedule.failed_attempt_id),
    ).before(identifier_fault("next_attempt_id"@, schedule.next_attempt_id)).before(
        identifier_fault("retry error class"@, schedule.error_class),
    ).before(
        fault_if(
            !(1 <= schedule.failed_attempt_number && schedule.next_attempt_number
                == schedule.failed_attempt_number + 1 && schedule.next_attempt_number
                <= schedule.maximum_attempts && schedule.maximum_attempts
                <= MAX_MODEL_ATTEMPTS_PER_STEP),
            invalid("model retry schedule has invalid attempt bounds"@),
        ),
    ).before(timestamp_fault("retry not_before_ms"@, schedule.not_before_ms))
}

/// What is wrong with an activation.
pub open spec fn activation_fault(activation: ActiveActivationView) -> Option<DomainErrorView> {
    identifier_fault("activation_id"@, activation.activation_id).before(
        selection_fault(activation.selection),
    ).before(
        fault_if(
            activation.selection_version == 0 || activation.minimum_auth_revision == 0,
            invalid("active activation revisions must be positive"@),
        ),
    ).before(timestamp_fault("activation started_at_ms"@, activation.started_at_ms))
}

/// What is wrong with the fingerprints of a request.
pub open spec fn request_fingerprints_fault(request: ModelRequestFactView) -> Option<
    DomainErrorView,
> {
    fingerprint_fault("request_fingerprint"@, request.request_fingerprint).before(
        fingerprint_fault(
            "provider_execution_fingerprint"@,
            request.provider_execution_fingerprint,
        ),
    ).before(fingerprint_fault("prompt_fingerprint"@, request.prompt_fingerprint)).before(
        fingerprint_fault("tool_schema_fingerprint"@, request.tool_schema_fingerprint),
    )
}

/// What is wrong with the attempt of a round, given the declared request.
pub open spec fn attempt_fault(
    round: ActiveModelRoundView,
    request: ModelRequestFactView,
    attempt: ModelAttemptRecordView,
) -> Option<DomainErrorView> {
    fault_if(
        attempt.activation_id != round.activation_id || attempt.round_id != round.round_id
            || attempt.request_id != request.request_id,
        invalid("model attempt belongs to another request"@),
    ).before(identifier_fault("attempt_id"@, attempt.attempt_id)).before(
        fault_if(
            attempt.attempt_number == 0 || attempt.attempt_number > request.maximum_attempts,
            invalid("model attempt number is outside declared request bounds"@),
        ),
    ).before(
        fault_if(
            attempt.auth_revision == 0,
            invalid("model attempt auth revision must be positive"@),
        ),
    ).before(timestamp_fault("model attempt started_at_ms"@, attempt.started_at_ms))
}

/// What is wrong with the declared request of a round, and with its attempt.
pub open spec fn request_fault(
    round: ActiveModelRoundView,
    request: ModelRequestFactView,
) -> Option<DomainErrorView> {
    identifier_fault("request_id"@, request.request_id).before(
        fault_if(
            request.activation_id != round.activation_id || request.round_id != round.round_id,
            invalid("declared model request belongs to another round"@),
        ),
    ).before(request_fingerprints_fault(request)).before(
        optional_fault(
            request.legacy_envelope,
            |envelope: DurablePayloadView| payload_fault(envelope),
        ),
    ).before(
        fault_if(
            !attempts_in_range(request.maximum_attempts) || request.minimum_auth_revision == 0,
            invalid("declared model request has invalid bounds"@),
        ),
    ).before(
        optional_fault(
            round.attempt,
            |attempt: ModelAttemptRecordView| attempt_fault(round, request, attempt),
        ),
    )
}

/// What is wrong with the retry schedule of a round, given the declared request.
pub open spec fn round_retry_fault(
    round: ActiveModelRoundView,
    request: ModelRequestFactView,
    schedule: ModelRetryScheduleView,
) -> Option<DomainErrorView> {
    retry_fault(schedule).before(
        fault_if(
            schedule.activation_id != round.activation_id || schedule.round_id != round.round_id
                || schedule.request_id != request.request_id,
            invalid("retry schedule belongs to another request"@),
        ),
    )
}

/// What is wrong with a model round.
pub open spec fn round_fault(round: ActiveModelRoundView) -> Option<DomainErrorView> {
    identifier_fault("activation_id"@, round.activation_id).before(
        identifier_fault("round_id"@, round.round_id),
    ).before(timestamp_fault("model round started_at_ms"@, round.started_at_ms)).before(
        fault_if(
            round.delivery_through_queue_id == 0,
            invalid("active model round delivery boundary must be positive"@),
        ),
    ).before(
        match round.request {
            Some(request) => request_fault(round, request).before(
                optional_fault(
                    round.retry,
                    |schedule: ModelRetryScheduleView|
                        round_retry_fault(round, request, schedule),
                ),
            ),
            None => fault_if(
                round.attempt is Some || round.retry is Some,
                invalid("model attempt/retry requires a declared request"@),
            ),
        },
    )
}

/// Checks a model error.
pub(crate) fn validate_model_error(error: &ModelAttemptError) -> (result: Result<(), DomainError>)
    ensures
        fault_of(result) == model_error_fault(error.deep_view()),
{
    validate_bounded_text("model error message", &error.message)
}

/// Checks a final model failure.
pub(crate) fn validate_model_attempt_failure(failure: &ModelAttemptFailure) -> (result: Result<
    (),
    DomainError,
>)
    ensures
        fault_of(result) == model_failure_fault(failure.deep_view()),
{
    validate_identifier("trigger_message_id", &failure.trigger_message_id)?;
    validate_model_error(&failure.error)
}

fn is_zero(count: Option<u64>) -> (zero: bool)
    ensures
        zero == (count == Some(0u64)),
{
    match count {
        Some(count) => count == 0,
        None => false,
    }
}

/// Checks a usage anchor.
pub(crate) fn validate_model_usage_anchor(anchor: &ModelUsageAnchor) -> (result: Result<
    (),
    DomainError,
>)
    ensures
        fault_of(result) == usage_fault(anchor.deep_view()),
{
    if anchor.context_generation == 0 || anchor.input_tokens == 0 || is_zero(
        anchor.local_input_estimate_tokens,
    ) || is_zero(anchor.input_estimate_scale_millionths) {
        return Err(invalid_state("model usage anchor has invalid token accounting"));
    }
    validate_model_fingerprint(
        "model usage selection fingerprint",
        &anchor.selection_fingerprint,
    )?;
    validate_model_fingerprint(
        "model usage tool schema fingerprint",
        &anchor.tool_schema_fingerprint,
    )?;
    validate_identifier("model usage result_message_id", &anchor.result_message_id)
}

/// Checks a handoff plan.
pub(crate) fn validate_context_handoff_plan(plan: &ContextHandoffPlan) -> (result: Result<
    (),
    DomainError,
>)
    ensures
        fault_of(result) == plan_fault(plan.deep_view()),
{
    validate_identifier("context handoff plan_id", &plan.plan_id)?;
    validate_identifier("context handoff activation_id", &plan.activation_id)?;
    if let Some(previous_handoff_id) = &plan.previous_handoff_id {
        validate_identifier("previous context handoff_id", previous_handoff_id)?;
    }
    validate_identifier("context handoff covered message_id", &plan.covered_through_message_id)?;
    validate_model_fingerprint("context handoff source digest", &plan.source_digest)?;
    if plan.next_generation < 2 || plan.source_tokens == 0 || plan.token_accounting_version == 0 {
        return Err(
            invalid_state("context handoff plan has invalid generation or token accounting"),
        );
    }
    validate_model(&plan.selection)
}

/// Checks a handoff document.
pub(crate) fn validate_context_handoff_document(handoff: &ContextHandoffDocument) -> (result:
    Result<(), DomainError>)
    ensures
        fault_of(result) == document_fault(handoff.deep_view()),
{
    validate_identifier("context handoff_id", &handoff.handoff_id)?;
    validate_identifier("context handoff plan_id", &handoff.plan_id)?;
    if let Some(previous_handoff_id) = &handoff.previous_handoff_id {
        validate_identifier("previous context handoff_id", previous_handoff_id)?;
    }
    validate_identifier(
        "context handoff covered message_id",
        &handoff.covered_through_message_id,
    )?;
    validate_model_fingerprint("context handoff source digest", &handoff.source_digest)?;
    validate_model_fingerprint("context handoff document digest", &handoff.document_digest)?;
    require_text("context handoff document", &handoff.document)?;
    limit_text("context handoff document", &handoff.document, MAX_MESSAGE_CONTENT_BYTES)?;
    if handoff.next_generation < 2 || handoff.source_tokens == 0 || handoff.document_tokens == 0
        || handoff.token_accounting_version == 0 {
        return Err(
            invalid_state("context handoff document has invalid generation or token accounting"),
        );
    }
    validate_model(&handoff.selection)
}

/// Checks the fact that the attempts are used up.
pub(crate) fn validate_model_attempts_exhausted(fact: &ModelAttemptsExhaustedFact) -> (result:
    Result<(), DomainError>)
    ensures
        fault_of(result) == exhausted_fault(fact.deep_view()),
{
    validate_identifier("activation_id", &fact.activation_id)?;
    validate_identifier("round_id", &fact.round_id)?;
    validate_identifier("request_id", &fact.request_id)?;
    validate_identifier("attempt_id", &fact.attempt_id)?;
    if !valid_attempts(fact.attempt_number) || !valid_attempts(fact.maximum_attempts)
        || fact.attempt_number != fact.maximum_attempts {
        return Err(invalid_state("model attempts exhausted fact has invalid attempt bounds"));
    }
    validate_non_negative_timestamp("model attempts exhausted finished_at_ms", fact.finished_at_ms)
}

/// Checks a retry schedule.
pub(crate) fn validate_retry_schedule(schedule: &ModelRetrySchedule) -> (result: Result<
    (),
    DomainError,
>)
    ensures
        fault_of(result) == retry_fault(schedule.deep_view()),
{
    validate_identifier("activation_id", &schedule.activation_id)?;
    validate_identifier("round_id", &schedule.round_id)?;
    validate_identifier("request_id", &schedule.request_id)?;
    validate_identifier("failed_attempt_id", &schedule.failed_attempt_id)?;
    validate_identifier("next_attempt_id", &schedule.next_attempt_id)?;
    validate_identifier("retry error class", &schedule.error_class)?;
    if schedule.failed_attempt_number == 0 || schedule.next_attempt_number
        != schedule.failed_attempt_number.saturating_add(1) || schedule.next_attempt_number
        > schedule.maximum_attempts || !valid_attempts(schedule.maximum_attempts) {
        return Err(invalid_state("model retry schedule has invalid attempt bounds"));
    }
    validate_non_negative_timestamp("retry not_before_ms", schedule.not_before_ms)
}

/// Checks an activation.
pub(crate) fn validate_active_activation(activation: &ActiveActivation) -> (result: Result<
    (),
    DomainError,
>)
    ensures
        fault_of(result) == activation_fault(activation.deep_view()),
{
    validate_identifier("activation_id", &activation.activation_id)?;
    activation.selection.validate()?;
    if activation.selection_version == 0 || activation.minimum_auth_revision == 0 {
        return Err(invalid_state("active activation revisions must be positive"));
    }
    validate_non_negative_timestamp("activation started_at_ms", activation.started_at_ms)
}

fn validate_round_attempt(
    round: &ActiveModelRound,
    request: &ModelRequestFact,
    attempt: &ModelAttemptRecord,
) -> (result: Result<(), DomainError>)
    ensures
        fault_of(result) == attempt_fault(
            round.deep_view(),
            request.deep_view(),
            attempt.deep_view(),
        ),
{
    if !attempt.activation_id.same(&round.activation_id) || !attempt.round_id.same(&round.round_id)
        || !attempt.request_id.same(&request.request_id) {
        return Err(invalid_state("model attempt belongs to another request"));
    }
    validate_identifier("attempt_id", &attempt.attempt_id)?;
    if attempt.attempt_number == 0 || attempt.attempt_number > request.maximum_attempts {
        return Err(invalid_state("model attempt number is outside declared request bounds"));
    }
    if attempt.auth_revision == 0 {
        return Err(invalid_state("model attempt auth revision must be positive"));
    }
    validate_non_negative_timestamp("model attempt started_at_ms", attempt.started_at_ms)
}

fn validate_round_request(round: &ActiveModelRound, request: &ModelRequestFact) -> (result: Result<
    (),
    DomainError,
>)
    ensures
        fault_of(result) == request_fault(round.deep_view(), request.deep_view()),
{
    validate_identifier("request_id", &request.request_id)?;
    if !request.activation_id.same(&round.activation_id) || !request.round_id.same(&round.round_id)
    {
        return Err(invalid_state("declared model request belongs to another round"));
    }
    validate_model_fingerprint("request_fingerprint", &request.request_fingerprint)?;
    validate_model_fingerprint(
        "provider_execution_fingerprint",
        &request.provider_execution_fingerprint,
    )?;
    validate_model_fingerprint("prompt_fingerprint", &request.prompt_fingerprint)?;
    validate_model_fingerprint("tool_schema_fingerprint", &request.tool_schema_fingerprint)?;
    if let Some(envelope) = &request.legacy_envelope {
        envelope.validate()?;
    }
    if !valid_attempts(request.maximum_attempts) || request.minimum_auth_revision == 0 {
        return Err(invalid_state("declared model request has invalid bounds"));
    }
    if let Some(attempt) = &round.attempt {
        validate_round_attempt(round, request, attempt)?;
    }
    Ok(())
}

/// Checks a model round.
pub(crate) fn validate_active_model_round(round: &ActiveModelRound) -> (result: Result<
    (),
    DomainError,
>)
    ensures
        fault_of(result) == round_fault(round.deep_view()),
{
    validate_identifier("activation_id", &round.activation_id)?;
    validate_identifier("round_id", &round.round_id)?;
    validate_non_negative_timestamp("model round started_at_ms", round.started_at_ms)?;
    if round.delivery_through_queue_id == 0 {
        return Err(invalid_state("active model round delivery boundary must be positive"));
    }
    match &round.request {
        Some(request) => {
            validate_round_request(round, request)?;
            if let Some(schedule) = &round.retry {
                validate_retry_schedule(schedule)?;
                if !schedule.activation_id.same(&round.activation_id) || !schedule.round_id.same(
                    &round.round_id,
                ) || !schedule.request_id.same(&request.request_id) {
                    return Err(invalid_state("retry schedule belongs to another request"));
                }
            }
        },
        None => {
            if round.attempt.is_some() || round.retry.is_some() {
                return Err(invalid_state("model attempt/retry requires a declared request"));
            }
        },
    }
    Ok(())
}

} // verus!
