//! Tool calls that run beside the session, and the callbacks that complete them.

use super::error::{fault_of, invalid, invalid_state, DomainError, DomainErrorView};
use super::payload::{
    payload_agrees, payload_agrees_reflexive, payload_fault, DurablePayload, DurablePayloadView,
};
use super::rules::{
    bounded_text_fault, fingerprint_fault, identifier_fault, terminal_timestamp_fault,
    timestamp_fault, validate_bounded_text, validate_identifier, validate_model_fingerprint,
    validate_non_negative_timestamp, validate_terminal_timestamp,
};
use super::waits::wait_seconds_in_range;
use super::{WAIT_MAX_SECONDS, WAIT_MIN_SECONDS};
use crate::checks::{fault_if, optional_fault, Checks};
use crate::datum::{Datum, Same};
use vstd::prelude::*;

verus! {

/// Who reports the end of a tool call.
#[derive(Clone, Copy, Debug, Eq, PartialEq, Structural)]
pub enum CompletionMode {
    ProcessLocal,
    ExternalCallback,
}

impl Default for CompletionMode {
    fn default() -> (value: Self)
        ensures
            value == CompletionMode::ProcessLocal,
    {
        CompletionMode::ProcessLocal
    }
}

/// How far a tool call is.
#[derive(Clone, Copy, Debug, Eq, PartialEq, Structural)]
pub enum AsyncToolStatus {
    Planned,
    Running,
    UnknownOutcome,
    RuntimeRestarted,
    Completed,
    Failed,
    Cancelled,
}

/// Whether a status is final.
pub open spec fn terminal(status: AsyncToolStatus) -> bool {
    status == AsyncToolStatus::RuntimeRestarted || status == AsyncToolStatus::Completed || status
        == AsyncToolStatus::Failed || status == AsyncToolStatus::Cancelled
}

impl AsyncToolStatus {
    /// Whether the status is final.
    pub fn is_terminal(&self) -> (is_terminal: bool)
        ensures
            is_terminal == terminal(*self),
    {
        matches!(
            self,
            AsyncToolStatus::RuntimeRestarted | AsyncToolStatus::Completed | AsyncToolStatus::Failed
            | AsyncToolStatus::Cancelled
        )
    }

    /// Whether the outcome may still be found out.
    pub fn is_reconcilable(&self) -> (is_reconcilable: bool)
        ensures
            is_reconcilable == (*self == AsyncToolStatus::UnknownOutcome),
    {
        matches!(self, AsyncToolStatus::UnknownOutcome)
    }
}

/// Why a tool call failed.
#[derive(Clone, Debug, PartialEq)]
pub struct ToolError {
    pub class: String,
    pub message: String,
}

/// The content of a [`ToolError`].
pub struct ToolErrorView {
    pub class: Seq<char>,
    pub message: Seq<char>,
}

impl DeepView for ToolError {
    type V = ToolErrorView;

    open spec fn deep_view(&self) -> ToolErrorView {
        ToolErrorView {
            class: self.class.deep_view(),
            message: self.message.deep_view(),
        }
    }
}

impl Datum for ToolError {
    fn replica(&self) -> (copy: Self) {
        ToolError {
            class: self.class.replica(),
            message: self.message.replica(),
        }
    }
}

impl Same for ToolError {
    fn same(&self, other: &Self) -> (same: bool) {
        self.class.same(&other.class)
            && self.message.same(&other.message)
    }
}

/// A tool call that runs beside the session.
#[derive(Clone, Debug, PartialEq)]
pub struct AsyncToolCallRecord {
    pub tool_call_id: String,
    pub tool_name: String,
    pub input: DurablePayload,
    pub status: AsyncToolStatus,
    pub started_at_ms: i64,
    pub auto_wait_seconds: Option<u32>,
    pub completion_mode: CompletionMode,
    pub retry_dispatch_deduplicated: bool,
    pub progress: Option<DurablePayload>,
    pub result: Option<DurablePayload>,
    pub error: Option<ToolError>,
    pub cancel_reason: Option<String>,
    pub completed_at_ms: Option<i64>,
}

/// The content of a [`AsyncToolCallRecord`].
pub struct AsyncToolCallRecordView {
    pub tool_call_id: Seq<char>,
    pub tool_name: Seq<char>,
    pub input: DurablePayloadView,
    pub status: AsyncToolStatus,
    pub started_at_ms: i64,
    pub auto_wait_seconds: Option<u32>,
    pub completion_mode: CompletionMode,
    pub retry_dispatch_deduplicated: bool,
    pub progress: Option<DurablePayloadView>,
    pub result: Option<DurablePayloadView>,
    pub error: Option<ToolErrorView>,
    pub cancel_reason: Option<Seq<char>>,
    pub completed_at_ms: Option<i64>,
}

impl DeepView for AsyncToolCallRecord {
    type V = AsyncToolCallRecordView;

    open spec fn deep_view(&self) -> AsyncToolCallRecordView {
        AsyncToolCallRecordView {
            tool_call_id: self.tool_call_id.deep_view(),
            tool_name: self.tool_name.deep_view(),
            input: self.input.deep_view(),
            status: self.status,
            started_at_ms: self.started_at_ms,
            auto_wait_seconds: self.auto_wait_seconds,
            completion_mode: self.completion_mode,
            retry_dispatch_deduplicated: self.retry_dispatch_deduplicated,
            progress: self.progress.deep_view(),
            result: self.result.deep_view(),
            error: self.error.deep_view(),
            cancel_reason: self.cancel_reason.deep_view(),
            completed_at_ms: self.completed_at_ms,
        }
    }
}

impl Datum for AsyncToolCallRecord {
    fn replica(&self) -> (copy: Self) {
        AsyncToolCallRecord {
            tool_call_id: self.tool_call_id.replica(),
            tool_name: self.tool_name.replica(),
            input: self.input.replica(),
            status: self.status,
            started_at_ms: self.started_at_ms,
            auto_wait_seconds: self.auto_wait_seconds,
            completion_mode: self.completion_mode,
            retry_dispatch_deduplicated: self.retry_dispatch_deduplicated,
            progress: self.progress.replica(),
            result: self.result.replica(),
            error: self.error.replica(),
            cancel_reason: self.cancel_reason.replica(),
            completed_at_ms: self.completed_at_ms,
        }
    }
}

/// The tool call that an external callback completes. The bearer itself is never kept, only a
/// keyed digest of it; the digest of the payload is there once the callback was answered.
#[derive(Clone, Debug, PartialEq)]
pub struct AsyncCallbackBinding {
    pub callback_id: String,
    pub tool_call_id: String,
    pub bearer_fingerprint: String,
    pub payload_fingerprint: Option<String>,
}

/// The content of a [`AsyncCallbackBinding`].
pub struct AsyncCallbackBindingView {
    pub callback_id: Seq<char>,
    pub tool_call_id: Seq<char>,
    pub bearer_fingerprint: Seq<char>,
    pub payload_fingerprint: Option<Seq<char>>,
}

impl DeepView for AsyncCallbackBinding {
    type V = AsyncCallbackBindingView;

    open spec fn deep_view(&self) -> AsyncCallbackBindingView {
        AsyncCallbackBindingView {
            callback_id: self.callback_id.deep_view(),
            tool_call_id: self.tool_call_id.deep_view(),
            bearer_fingerprint: self.bearer_fingerprint.deep_view(),
            payload_fingerprint: self.payload_fingerprint.deep_view(),
        }
    }
}

impl Datum for AsyncCallbackBinding {
    fn replica(&self) -> (copy: Self) {
        AsyncCallbackBinding {
            callback_id: self.callback_id.replica(),
            tool_call_id: self.tool_call_id.replica(),
            bearer_fingerprint: self.bearer_fingerprint.replica(),
            payload_fingerprint: self.payload_fingerprint.replica(),
        }
    }
}

impl Same for AsyncCallbackBinding {
    fn same(&self, other: &Self) -> (same: bool) {
        self.callback_id.same(&other.callback_id)
            && self.tool_call_id.same(&other.tool_call_id)
            && self.bearer_fingerprint.same(&other.bearer_fingerprint)
            && self.payload_fingerprint.same(&other.payload_fingerprint)
    }
}

/// Equality of optional payloads.
pub open spec fn optional_payload_agrees(
    left: Option<DurablePayloadView>,
    right: Option<DurablePayloadView>,
) -> bool {
    match (left, right) {
        (Some(a), Some(b)) => payload_agrees(a, b),
        (None, None) => true,
        _ => false,
    }
}

/// Equality of tool call records.
pub open spec fn record_agrees(
    left: AsyncToolCallRecordView,
    right: AsyncToolCallRecordView,
) -> bool {
    &&& payload_agrees(left.input, right.input)
    &&& optional_payload_agrees(left.progress, right.progress)
    &&& optional_payload_agrees(left.result, right.result)
    &&& left == (AsyncToolCallRecordView {
        input: left.input,
        progress: left.progress,
        result: left.result,
        ..right
    })
}

/// A tool call record agrees with itself.
pub proof fn record_agrees_reflexive(record: AsyncToolCallRecordView)
    ensures
        record_agrees(record, record),
{
    payload_agrees_reflexive(record.input);
    if let Some(progress) = record.progress {
        payload_agrees_reflexive(progress);
    }
    if let Some(result) = record.result {
        payload_agrees_reflexive(result);
    }
}

/// Whether both optional payloads are equal.
pub(crate) fn same_optional_payload(
    left: &Option<DurablePayload>,
    right: &Option<DurablePayload>,
) -> (agree: bool)
    ensures
        agree == optional_payload_agrees(left.deep_view(), right.deep_view()),
{
    match (left, right) {
        (Some(left), Some(right)) => left.agrees(right),
        (None, None) => true,
        _ => false,
    }
}

impl AsyncToolCallRecord {
    /// Whether both records are equal.
    pub fn agrees(&self, other: &Self) -> (agrees: bool)
        ensures
            agrees == record_agrees(self.deep_view(), other.deep_view()),
    {
        let same_wait = match (self.auto_wait_seconds, other.auto_wait_seconds) {
            (Some(left), Some(right)) => left == right,
            (None, None) => true,
            _ => false,
        };
        let same_end = match (self.completed_at_ms, other.completed_at_ms) {
            (Some(left), Some(right)) => left == right,
            (None, None) => true,
            _ => false,
        };
        same_wait && same_end && self.tool_call_id.same(&other.tool_call_id)
            && self.tool_name.same(&other.tool_name) && self.input.agrees(&other.input)
            && self.status == other.status && self.started_at_ms == other.started_at_ms
            && self.completion_mode == other.completion_mode
            && self.retry_dispatch_deduplicated == other.retry_dispatch_deduplicated
            && same_optional_payload(&self.progress, &other.progress)
            && same_optional_payload(&self.result, &other.result)
            && self.error.same(&other.error) && self.cancel_reason.same(&other.cancel_reason)
    }
}

/// What is wrong with a tool error.
pub open spec fn tool_error_fault(error: ToolErrorView) -> Option<DomainErrorView> {
    identifier_fault("error.class"@, error.class).before(
        bounded_text_fault("error.message"@, error.message),
    )
}

/// What is wrong with the identity, the input or the automatic wait of a call.
pub open spec fn call_identity_fault(record: AsyncToolCallRecordView) -> Option<DomainErrorView> {
    identifier_fault("tool_call_id"@, record.tool_call_id).before(
        identifier_fault("tool_name"@, record.tool_name),
    ).before(payload_fault(record.input)).before(
        optional_fault(
            record.auto_wait_seconds,
            |seconds: u32|
                fault_if(!wait_seconds_in_range(seconds), DomainErrorView::InvalidWaitTimeout),
        ),
    )
}

/// Whether a record has none of the fields of a call that ended.
pub open spec fn without_outcome(record: AsyncToolCallRecordView) -> bool {
    record.result is None && record.error is None && record.cancel_reason is None
        && record.completed_at_ms is None
}

/// What is wrong with the record of a call that starts.
pub open spec fn started_record_fault(record: AsyncToolCallRecordView) -> Option<DomainErrorView> {
    fault_if(
        !(record.status == AsyncToolStatus::Planned || record.status == AsyncToolStatus::Running)
            || record.progress is Some || !without_outcome(record),
        DomainErrorView::InvalidAsyncToolStart(record.tool_call_id),
    ).before(call_identity_fault(record))
}

/// What is wrong with the outcome of a record in the light of its status.
pub open spec fn outcome_fault(record: AsyncToolCallRecordView) -> Option<DomainErrorView> {
    match record.status {
        AsyncToolStatus::Planned | AsyncToolStatus::Running => fault_if(
            !without_outcome(record),
            invalid("running async tool calls cannot have terminal fields"@),
        ),
        AsyncToolStatus::UnknownOutcome => fault_if(
            !without_outcome(record),
            invalid("unknown-outcome async tool calls cannot have terminal fields"@),
        ),
        AsyncToolStatus::RuntimeRestarted => fault_if(
            record.result is Some || record.error is None || record.cancel_reason is Some
                || record.completed_at_ms is None,
            invalid("runtime-restarted async tool calls need only error and completion time"@),
        ).before(tool_error_fault(record.error->0)).before(
            terminal_timestamp_fault(record.started_at_ms, record.completed_at_ms),
        ),
        AsyncToolStatus::Completed => fault_if(
            record.result is None || record.error is Some || record.cancel_reason is Some
                || record.completed_at_ms is None,
            invalid("completed async tool calls need only result and completion time"@),
        ).before(payload_fault(record.result->0)).before(
            terminal_timestamp_fault(record.started_at_ms, record.completed_at_ms),
        ),
        AsyncToolStatus::Failed => fault_if(
            record.result is Some || record.error is None || record.cancel_reason is Some
                || record.completed_at_ms is None,
            invalid("failed async tool calls need only error and completion time"@),
        ).before(tool_error_fault(record.error->0)).before(
            terminal_timestamp_fault(record.started_at_ms, record.completed_at_ms),
        ),
        AsyncToolStatus::Cancelled => fault_if(
            record.result is Some || record.error is Some || record.cancel_reason is None
                || record.completed_at_ms is None,
            invalid("cancelled async tool calls need only cancel reason and completion time"@),
        ).before(bounded_text_fault("cancel_reason"@, record.cancel_reason->0)).before(
            terminal_timestamp_fault(record.started_at_ms, record.completed_at_ms),
        ),
    }
}

/// What is wrong with a record.
pub open spec fn record_fault(record: AsyncToolCallRecordView) -> Option<DomainErrorView> {
    call_identity_fault(record).before(
        timestamp_fault("async tool started_at_ms"@, record.started_at_ms),
    ).before(
        optional_fault(
            record.progress,
            |progress: DurablePayloadView| payload_fault(progress),
        ),
    ).before(outcome_fault(record))
}

/// What is wrong with a callback binding.
pub open spec fn binding_fault(binding: AsyncCallbackBindingView) -> Option<DomainErrorView> {
    identifier_fault("callback_id"@, binding.callback_id).before(
        identifier_fault("tool_call_id"@, binding.tool_call_id),
    ).before(
        fingerprint_fault("callback bearer fingerprint"@, binding.bearer_fingerprint),
    ).before(
        optional_fault(
            binding.payload_fingerprint,
            |fingerprint: Seq<char>|
                fingerprint_fault("callback payload fingerprint"@, fingerprint),
        ),
    )
}

/// Checks a tool error.
pub(crate) fn validate_tool_error(error: &ToolError) -> (result: Result<(), DomainError>)
    ensures
        fault_of(result) == tool_error_fault(error.deep_view()),
{
    validate_identifier("error.class", &error.class)?;
    validate_bounded_text("error.message", &error.message)
}

fn validate_async_identity_and_input(record: &AsyncToolCallRecord) -> (result: Result<
    (),
    DomainError,
>)
    ensures
        fault_of(result) == call_identity_fault(record.deep_view()),
{
    validate_identifier("tool_call_id", &record.tool_call_id)?;
    validate_identifier("tool_name", &record.tool_name)?;
    record.input.validate()?;
    if let Some(seconds) = record.auto_wait_seconds {
        if seconds < WAIT_MIN_SECONDS || seconds > WAIT_MAX_SECONDS {
            return Err(DomainError::InvalidWaitTimeout);
        }
    }
    Ok(())
}

fn has_no_outcome(record: &AsyncToolCallRecord) -> (none: bool)
    ensures
        none == without_outcome(record.deep_view()),
{
    record.result.is_none() && record.error.is_none() && record.cancel_reason.is_none()
        && record.completed_at_ms.is_none()
}

/// Checks the record of a call that starts.
pub(crate) fn validate_started_record(record: &AsyncToolCallRecord) -> (result: Result<
    (),
    DomainError,
>)
    ensures
        fault_of(result) == started_record_fault(record.deep_view()),
{
    if !matches!(record.status, AsyncToolStatus::Planned | AsyncToolStatus::Running)
        || record.progress.is_some() || !has_no_outcome(record) {
        return Err(DomainError::InvalidAsyncToolStart(record.tool_call_id.clone()));
    }
    validate_async_identity_and_input(record)
}

fn validate_outcome(record: &AsyncToolCallRecord) -> (result: Result<(), DomainError>)
    ensures
        fault_of(result) == outcome_fault(record.deep_view()),
{
    let ended = record.completed_at_ms.is_some();
    match record.status {
        AsyncToolStatus::Planned | AsyncToolStatus::Running => {
            if !has_no_outcome(record) {
                return Err(invalid_state("running async tool calls cannot have terminal fields"));
            }
            Ok(())
        },
        AsyncToolStatus::UnknownOutcome => {
            if !has_no_outcome(record) {
                return Err(
                    invalid_state("unknown-outcome async tool calls cannot have terminal fields"),
                );
            }
            Ok(())
        },
        AsyncToolStatus::RuntimeRestarted => {
            match (&record.result, &record.error, &record.cancel_reason, ended) {
                (None, Some(error), None, true) => {
                    validate_tool_error(error)?;
                    validate_terminal_timestamp(record.started_at_ms, record.completed_at_ms)
                },
                _ => Err(
                    invalid_state(
                        "runtime-restarted async tool calls need only error and completion time",
                    ),
                ),
            }
        },
        AsyncToolStatus::Completed => {
            match (&record.result, &record.error, &record.cancel_reason, ended) {
                (Some(payload), None, None, true) => {
                    payload.validate()?;
                    validate_terminal_timestamp(record.started_at_ms, record.completed_at_ms)
                },
                _ => Err(
                    invalid_state(
                        "completed async tool calls need only result and completion time",
                    ),
                ),
            }
        },
        AsyncToolStatus::Failed => {
            match (&record.result, &record.error, &record.cancel_reason, ended) {
                (None, Some(error), None, true) => {
                    validate_tool_error(error)?;
                    validate_terminal_timestamp(record.started_at_ms, record.completed_at_ms)
                },
                _ => Err(
                    invalid_state("failed async tool calls need only error and completion time"),
                ),
            }
        },
        AsyncToolStatus::Cancelled => {
            match (&record.result, &record.error, &record.cancel_reason, ended) {
                (None, None, Some(reason), true) => {
                    validate_bounded_text("cancel_reason", reason)?;
                    validate_terminal_timestamp(record.started_at_ms, record.completed_at_ms)
                },
                _ => Err(
                    invalid_state(
                        "cancelled async tool calls need only cancel reason and completion time",
                    ),
                ),
            }
        },
    }
}

/// Checks a record.
pub(crate) fn validate_async_record(record: &AsyncToolCallRecord) -> (result: Result<
    (),
    DomainError,
>)
    ensures
        fault_of(result) == record_fault(record.deep_view()),
{
    validate_async_identity_and_input(record)?;
    validate_non_negative_timestamp("async tool started_at_ms", record.started_at_ms)?;
    if let Some(progress) = &record.progress {
        progress.validate()?;
    }
    validate_outcome(record)
}

/// Checks a callback binding.
pub(crate) fn validate_callback_binding(binding: &AsyncCallbackBinding) -> (result: Result<
    (),
    DomainError,
>)
    ensures
        fault_of(result) == binding_fault(binding.deep_view()),
{
    validate_identifier("callback_id", &binding.callback_id)?;
    validate_identifier("tool_call_id", &binding.tool_call_id)?;
    validate_model_fingerprint("callback bearer fingerprint", &binding.bearer_fingerprint)?;
    if let Some(payload_fingerprint) = &binding.payload_fingerprint {
        validate_model_fingerprint("callback payload fingerprint", payload_fingerprint)?;
    }
    Ok(())
}

} // verus!
