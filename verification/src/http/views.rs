//! What is told of sessions.

use crate::domain::model::{
    ActivationOutcome, ActiveActivation, ActiveActivationView, ActiveModelRound,
    ActiveModelRoundView, ContextHandoffDocument, ContextHandoffDocumentView, ModelAttemptError,
    ModelAttemptErrorClass, ModelAttemptErrorView, ModelAttemptOutcome, ModelAttemptRecord,
    ModelAttemptRecordView, ModelAttemptsExhaustedFact, ModelAttemptsExhaustedFactView,
    ModelRequestFact, ModelRequestFactView, ModelRequestPurpose, ModelRetrySchedule,
    ModelRetryScheduleView,
};
use crate::domain::payload::{BlobRef, BlobRefView, DurablePayload, DurablePayloadView};
use crate::domain::selection::{
    ModelLimits, SessionModelSelection, SessionModelSelectionView, SessionSelection,
    SessionSelectionView,
};
use crate::domain::event::SessionStatus;
use crate::domain::state::{SessionState, SessionStateView};
use crate::domain::tools::{
    AsyncToolCallRecord, AsyncToolCallRecordView, AsyncToolStatus, CompletionMode, ToolError,
    ToolErrorView,
};
use crate::domain::transcript::{
    DeliveryKind, QueuedDelivery, QueuedDeliveryView, ToolCall, ToolCallView, TranscriptMessage,
    TranscriptMessageView, TranscriptRole,
};
use crate::domain::waits::{ActiveWait, ActiveWaitView, WaitSource};
use crate::json::{
    array_value, bool_value, fields, json_view, null_value, number_or_null, object_of, object_value,
    signed_value, string_value, unsigned_value, values_view, Fields, JsonView,
};
use crate::replicas::{ReplicaMetadata, ReplicaMetadataView};
use crate::text::same_text;
use crate::text_map::TextMap;
use serde_json::Value;
use vstd::prelude::*;

verus! {

/// A text, or null where it is absent.
pub open spec fn text_or_null(text: Option<Seq<char>>) -> JsonView {
    match text {
        Some(text) => JsonView::Text(text),
        None => JsonView::Null,
    }
}

/// A count, or null where it is absent.
pub open spec fn count_or_null(count: Option<u32>) -> JsonView {
    match count {
        Some(count) => JsonView::Integer(count as int),
        None => JsonView::Null,
    }
}

/// A list of texts.
pub open spec fn texts_json(texts: Seq<Seq<char>>) -> JsonView {
    JsonView::Array(Seq::new(texts.len(), |i: int| JsonView::Text(texts[i])))
}

pub(crate) fn optional_text(text: &Option<String>) -> (json: Value)
    ensures
        json_view(json) == text_or_null(text.deep_view()),
{
    match text {
        Some(text) => string_value(text.clone()),
        None => null_value(),
    }
}

fn optional_time(time: Option<i64>) -> (json: Value)
    ensures
        json_view(json) == number_or_null(time),
{
    match time {
        Some(time) => signed_value(time),
        None => null_value(),
    }
}

pub(crate) fn optional_count(count: Option<u32>) -> (json: Value)
    ensures
        json_view(json) == count_or_null(count),
{
    match count {
        Some(count) => unsigned_value(count as u64),
        None => null_value(),
    }
}

pub(crate) fn text_list(texts: &Vec<String>) -> (json: Value)
    ensures
        json_view(json) == texts_json(texts.deep_view()),
{
    let mut items: Vec<Value> = Vec::with_capacity(texts.len());
    let mut index: usize = 0;
    while index < texts.len()
        invariant
            index <= texts.len(),
            items.len() == index,
            forall|i: int|
                0 <= i < index ==> json_view(#[trigger] items[i]) == JsonView::Text(
                    texts.deep_view()[i],
                ),
        decreases texts.len() - index,
    {
        items.push(string_value(texts[index].clone()));
        index += 1;
    }
    assert(values_view(items@) =~= texts_json(texts.deep_view())->Array_0);
    array_value(items)
}

/// The name of a session status.
pub open spec fn session_status_name(value: SessionStatus) -> Seq<char> {
    match value {
        SessionStatus::Idle => "idle"@,
        SessionStatus::Active => "active"@,
    }
}

pub(crate) fn session_status_name_text(value: SessionStatus) -> (name: &'static str)
    ensures
        name@ == session_status_name(value),
{
    match value {
        SessionStatus::Idle => "idle",
        SessionStatus::Active => "active",
    }
}

/// The name of a role.
pub open spec fn role_name(value: TranscriptRole) -> Seq<char> {
    match value {
        TranscriptRole::System => "system"@,
        TranscriptRole::User => "user"@,
        TranscriptRole::Assistant => "assistant"@,
        TranscriptRole::Tool => "tool"@,
        TranscriptRole::Runtime => "runtime"@,
    }
}

pub(crate) fn role_name_text(value: TranscriptRole) -> (name: &'static str)
    ensures
        name@ == role_name(value),
{
    match value {
        TranscriptRole::System => "system",
        TranscriptRole::User => "user",
        TranscriptRole::Assistant => "assistant",
        TranscriptRole::Tool => "tool",
        TranscriptRole::Runtime => "runtime",
    }
}

/// The name of a kind of delivery.
pub open spec fn delivery_kind_name(value: DeliveryKind) -> Seq<char> {
    match value {
        DeliveryKind::UserInput => "user_input"@,
        DeliveryKind::RuntimeNotification => "runtime_notification"@,
    }
}

pub(crate) fn delivery_kind_name_text(value: DeliveryKind) -> (name: &'static str)
    ensures
        name@ == delivery_kind_name(value),
{
    match value {
        DeliveryKind::UserInput => "user_input",
        DeliveryKind::RuntimeNotification => "runtime_notification",
    }
}

/// The name of what began a wait.
pub open spec fn wait_source_name(value: WaitSource) -> Seq<char> {
    match value {
        WaitSource::WaitFor => "wait_for"@,
        WaitSource::AutoToolBatch => "auto_tool_batch"@,
        WaitSource::Runtime => "runtime"@,
    }
}

pub(crate) fn wait_source_name_text(value: WaitSource) -> (name: &'static str)
    ensures
        name@ == wait_source_name(value),
{
    match value {
        WaitSource::WaitFor => "wait_for",
        WaitSource::AutoToolBatch => "auto_tool_batch",
        WaitSource::Runtime => "runtime",
    }
}

/// The name of the status of a tool call.
pub open spec fn tool_status_name(value: AsyncToolStatus) -> Seq<char> {
    match value {
        AsyncToolStatus::Planned => "planned"@,
        AsyncToolStatus::Running => "running"@,
        AsyncToolStatus::UnknownOutcome => "unknown_outcome"@,
        AsyncToolStatus::RuntimeRestarted => "runtime_restarted"@,
        AsyncToolStatus::Completed => "completed"@,
        AsyncToolStatus::Failed => "failed"@,
        AsyncToolStatus::Cancelled => "cancelled"@,
    }
}

pub(crate) fn tool_status_name_text(value: AsyncToolStatus) -> (name: &'static str)
    ensures
        name@ == tool_status_name(value),
{
    match value {
        AsyncToolStatus::Planned => "planned",
        AsyncToolStatus::Running => "running",
        AsyncToolStatus::UnknownOutcome => "unknown_outcome",
        AsyncToolStatus::RuntimeRestarted => "runtime_restarted",
        AsyncToolStatus::Completed => "completed",
        AsyncToolStatus::Failed => "failed",
        AsyncToolStatus::Cancelled => "cancelled",
    }
}

/// The name of what a request is for.
pub open spec fn purpose_name(value: ModelRequestPurpose) -> Seq<char> {
    match value {
        ModelRequestPurpose::Conversation => "conversation"@,
        ModelRequestPurpose::ContextHandoff => "context_handoff"@,
    }
}

pub(crate) fn purpose_name_text(value: ModelRequestPurpose) -> (name: &'static str)
    ensures
        name@ == purpose_name(value),
{
    match value {
        ModelRequestPurpose::Conversation => "conversation",
        ModelRequestPurpose::ContextHandoff => "context_handoff",
    }
}

/// The name of the outcome of an attempt.
pub open spec fn attempt_outcome_name(value: ModelAttemptOutcome) -> Seq<char> {
    match value {
        ModelAttemptOutcome::Running => "running"@,
        ModelAttemptOutcome::Failed => "failed"@,
        ModelAttemptOutcome::Interrupted => "interrupted"@,
        ModelAttemptOutcome::Completed => "completed"@,
    }
}

pub(crate) fn attempt_outcome_name_text(value: ModelAttemptOutcome) -> (name: &'static str)
    ensures
        name@ == attempt_outcome_name(value),
{
    match value {
        ModelAttemptOutcome::Running => "running",
        ModelAttemptOutcome::Failed => "failed",
        ModelAttemptOutcome::Interrupted => "interrupted",
        ModelAttemptOutcome::Completed => "completed",
    }
}

/// The name of the outcome of an activation.
pub open spec fn activation_outcome_name(value: ActivationOutcome) -> Seq<char> {
    match value {
        ActivationOutcome::Finished => "finished"@,
        ActivationOutcome::Wait => "wait"@,
        ActivationOutcome::Failed => "failed"@,
        ActivationOutcome::Interrupted => "interrupted"@,
    }
}

pub(crate) fn activation_outcome_name_text(value: ActivationOutcome) -> (name: &'static str)
    ensures
        name@ == activation_outcome_name(value),
{
    match value {
        ActivationOutcome::Finished => "finished",
        ActivationOutcome::Wait => "wait",
        ActivationOutcome::Failed => "failed",
        ActivationOutcome::Interrupted => "interrupted",
    }
}

/// The name of a kind of model failure.
pub open spec fn error_class_name(value: ModelAttemptErrorClass) -> Seq<char> {
    match value {
        ModelAttemptErrorClass::AuthReplicaUnavailable => "auth_replica_unavailable"@,
        ModelAttemptErrorClass::InvalidToolArguments => "invalid_tool_arguments"@,
        ModelAttemptErrorClass::ContextHandoffFailed => "context_handoff_failed"@,
    }
}

pub(crate) fn error_class_name_text(value: ModelAttemptErrorClass) -> (name: &'static str)
    ensures
        name@ == error_class_name(value),
{
    match value {
        ModelAttemptErrorClass::AuthReplicaUnavailable => "auth_replica_unavailable",
        ModelAttemptErrorClass::InvalidToolArguments => "invalid_tool_arguments",
        ModelAttemptErrorClass::ContextHandoffFailed => "context_handoff_failed",
    }
}

/// The name of the way in which a tool ends.
pub open spec fn completion_name(mode: CompletionMode) -> Seq<char> {
    match mode {
        CompletionMode::ProcessLocal => "response"@,
        CompletionMode::ExternalCallback => "external_callback"@,
    }
}

/// The name of the way in which a tool ends.
pub fn completion_name_text(mode: CompletionMode) -> (name: &'static str)
    ensures
        name@ == completion_name(mode),
{
    match mode {
        CompletionMode::ProcessLocal => "response",
        CompletionMode::ExternalCallback => "external_callback",
    }
}

/// The limits of a model, or null where there are none.
pub open spec fn limits_json(limits: Option<ModelLimits>) -> JsonView {
    match limits {
        Some(limits) => JsonView::Object(
            fields().insert(
                "context_window_tokens"@,
                JsonView::Integer(limits.context_window_tokens as int),
            ).insert("max_output_tokens"@, JsonView::Integer(limits.max_output_tokens as int)),
        ),
        None => JsonView::Null,
    }
}

fn public_limits(limits: &Option<ModelLimits>) -> (json: Value)
    ensures
        json_view(json) == limits_json(*limits),
{
    match limits {
        Some(limits) => Fields::new().put(
            "context_window_tokens",
            unsigned_value(limits.context_window_tokens),
        ).put("max_output_tokens", unsigned_value(limits.max_output_tokens as u64)).value(),
        None => null_value(),
    }
}

/// A model selection: the credential by its ids alone.
pub open spec fn model_json(model: SessionModelSelectionView) -> JsonView {
    JsonView::Object(
        fields()
            .insert("provider"@, JsonView::Text(model.provider))
            .insert("provider_execution_schema"@, JsonView::Text(model.provider_execution.schema))
            .insert(
                "provider_execution_revision"@,
                JsonView::Integer(model.provider_execution.revision as int),
            )
            .insert("provider_execution_kind"@, JsonView::Text(model.provider_execution.kind))
            .insert(
                "provider_execution_base_url"@,
                JsonView::Text(model.provider_execution.base_url),
            )
            .insert(
                "provider_execution_options"@,
                JsonView::Object(object_of(model.provider_execution.options)),
            )
            .insert("model"@, JsonView::Text(model.model))
            .insert("limits"@, limits_json(model.limits))
            .insert("auth_authority_id"@, JsonView::Text(model.auth_authority_id))
            .insert("auth_profile_id"@, JsonView::Text(model.auth_profile_id))
            .insert("auth_revision"@, JsonView::Integer(model.auth_revision as int)),
    )
}

/// A model selection: the credential by its ids alone.
pub fn public_model(model: &SessionModelSelection) -> (json: Value)
    ensures
        json_view(json) == model_json(model.deep_view()),
{
    Fields::new()
        .put("provider", string_value(model.provider.clone()))
        .put("provider_execution_schema", string_value(model.provider_execution.schema.clone()))
        .put("provider_execution_revision", unsigned_value(model.provider_execution.revision))
        .put("provider_execution_kind", string_value(model.provider_execution.kind.clone()))
        .put("provider_execution_base_url", string_value(model.provider_execution.base_url.clone()))
        .put("provider_execution_options", object_value(&model.provider_execution.options))
        .put("model", string_value(model.model.clone()))
        .put("limits", public_limits(&model.limits))
        .put("auth_authority_id", string_value(model.auth_authority_id.clone()))
        .put("auth_profile_id", string_value(model.auth_profile_id.clone()))
        .put("auth_revision", unsigned_value(model.auth_revision))
        .value()
}

/// A model selection, or null where there is none.
pub open spec fn optional_model_json(value: Option<SessionModelSelectionView>) -> JsonView {
    match value {
        Some(value) => model_json(value),
        None => JsonView::Null,
    }
}

pub(crate) fn optional_model(value: &Option<SessionModelSelection>) -> (json: Value)
    ensures
        json_view(json) == optional_model_json(value.deep_view()),
{
    match value {
        Some(value) => public_model(value),
        None => null_value(),
    }
}

/// A declared call, without its input.
pub open spec fn call_json(call: ToolCallView) -> JsonView {
    JsonView::Object(
        fields()
            .insert("tool_call_id"@, JsonView::Text(call.tool_call_id))
            .insert("tool_name"@, JsonView::Text(call.tool_name)),
    )
}

/// A declared call, without its input.
pub fn public_call(call: &ToolCall) -> (json: Value)
    ensures
        json_view(json) == call_json(call.deep_view()),
{
    Fields::new()
        .put("tool_call_id", string_value(call.tool_call_id.clone()))
        .put("tool_name", string_value(call.tool_name.clone()))
        .value()
}

/// Declared calls.
pub open spec fn calls_json(values: Seq<ToolCallView>) -> JsonView {
    JsonView::Array(Seq::new(values.len(), |i: int| call_json(values[i])))
}

fn list_of_calls(values: &Vec<ToolCall>) -> (json: Value)
    ensures
        json_view(json) == calls_json(values.deep_view()),
{
    let mut items: Vec<Value> = Vec::with_capacity(values.len());
    let mut index: usize = 0;
    while index < values.len()
        invariant
            index <= values.len(),
            items.len() == index,
            forall|i: int|
                0 <= i < index ==> json_view(#[trigger] items[i]) == call_json(
                    values.deep_view()[i],
                ),
        decreases values.len() - index,
    {
        items.push(public_call(&values[index]));
        index += 1;
    }
    assert(values_view(items@) =~= calls_json(values.deep_view())->Array_0);
    array_value(items)
}

/// A message.
pub open spec fn message_json(message: TranscriptMessageView) -> JsonView {
    JsonView::Object(
        fields()
            .insert("message_id"@, JsonView::Text(message.message_id))
            .insert("role"@, JsonView::Text(role_name(message.role)))
            .insert("content"@, JsonView::Text(message.content))
            .insert("tool_call_id"@, text_or_null(message.tool_call_id))
            .insert("tool_calls"@, calls_json(message.tool_calls)),
    )
}

/// A message.
pub fn public_message(message: &TranscriptMessage) -> (json: Value)
    ensures
        json_view(json) == message_json(message.deep_view()),
{
    Fields::new()
        .put("message_id", string_value(message.message_id.clone()))
        .put("role", string_value(role_name_text(message.role).to_string()))
        .put("content", string_value(message.content.clone()))
        .put("tool_call_id", optional_text(&message.tool_call_id))
        .put("tool_calls", list_of_calls(&message.tool_calls))
        .value()
}

/// Messages.
pub open spec fn messages_json(values: Seq<TranscriptMessageView>) -> JsonView {
    JsonView::Array(Seq::new(values.len(), |i: int| message_json(values[i])))
}

fn list_of_messages(values: &Vec<TranscriptMessage>) -> (json: Value)
    ensures
        json_view(json) == messages_json(values.deep_view()),
{
    let mut items: Vec<Value> = Vec::with_capacity(values.len());
    let mut index: usize = 0;
    while index < values.len()
        invariant
            index <= values.len(),
            items.len() == index,
            forall|i: int|
                0 <= i < index ==> json_view(#[trigger] items[i]) == message_json(
                    values.deep_view()[i],
                ),
        decreases values.len() - index,
    {
        items.push(public_message(&values[index]));
        index += 1;
    }
    assert(values_view(items@) =~= messages_json(values.deep_view())->Array_0);
    array_value(items)
}

/// A wait.
pub open spec fn wait_json(wait: ActiveWaitView) -> JsonView {
    JsonView::Object(
        fields()
            .insert("wait_id"@, JsonView::Text(wait.wait_id))
            .insert("reason"@, JsonView::Text(wait.reason))
            .insert("timeout_seconds"@, JsonView::Integer(wait.timeout_seconds as int))
            .insert("deadline_ms"@, JsonView::Integer(wait.deadline_ms as int))
            .insert("source"@, JsonView::Text(wait_source_name(wait.source)))
            .insert("tool_call_ids"@, texts_json(wait.tool_call_ids)),
    )
}

/// A wait.
pub fn public_wait(wait: &ActiveWait) -> (json: Value)
    ensures
        json_view(json) == wait_json(wait.deep_view()),
{
    Fields::new()
        .put("wait_id", string_value(wait.wait_id.clone()))
        .put("reason", string_value(wait.reason.clone()))
        .put("timeout_seconds", unsigned_value(wait.timeout_seconds as u64))
        .put("deadline_ms", signed_value(wait.deadline_ms))
        .put("source", string_value(wait_source_name_text(wait.source).to_string()))
        .put("tool_call_ids", text_list(&wait.tool_call_ids))
        .value()
}

/// A wait, or null where there is none.
pub open spec fn optional_wait_json(value: Option<ActiveWaitView>) -> JsonView {
    match value {
        Some(value) => wait_json(value),
        None => JsonView::Null,
    }
}

fn optional_wait(value: &Option<ActiveWait>) -> (json: Value)
    ensures
        json_view(json) == optional_wait_json(value.deep_view()),
{
    match value {
        Some(value) => public_wait(value),
        None => null_value(),
    }
}

/// A blob, without its digest.
pub open spec fn blob_json(blob: BlobRefView) -> JsonView {
    JsonView::Object(
        fields()
            .insert("id"@, JsonView::Text(blob.blob_id))
            .insert("media_type"@, text_or_null(blob.media_type))
            .insert("bytes"@, JsonView::Integer(blob.byte_len as int)),
    )
}

/// A blob, without its digest.
pub fn public_blob(blob: &BlobRef) -> (json: Value)
    ensures
        json_view(json) == blob_json(blob.deep_view()),
{
    Fields::new()
        .put("id", string_value(blob.blob_id.clone()))
        .put("media_type", optional_text(&blob.media_type))
        .put("bytes", unsigned_value(blob.byte_len))
        .value()
}

/// A payload: the value itself, a blob, or that it was taken out.
pub open spec fn payload_json(payload: DurablePayloadView) -> JsonView {
    match payload {
        DurablePayloadView::Inline(inline) => inline.value,
        DurablePayloadView::BlobRef(blob) => JsonView::Object(
            fields().insert("blob"@, blob_json(blob)),
        ),
        DurablePayloadView::Redacted(_) => JsonView::Object(
            fields().insert("redacted"@, JsonView::Bool(true)),
        ),
    }
}

/// A payload: the value itself, a blob, or that it was taken out.
pub fn public_payload(payload: &DurablePayload) -> (json: Value)
    ensures
        json_view(json) == payload_json(payload.deep_view()),
{
    match payload {
        DurablePayload::Inline(inline) => inline.value().clone(),
        DurablePayload::BlobRef(blob) => Fields::new().put("blob", public_blob(blob)).value(),
        DurablePayload::Redacted(_) => Fields::new().put("redacted", bool_value(true)).value(),
    }
}

/// A payload, or null where there is none.
pub open spec fn optional_payload_json(value: Option<DurablePayloadView>) -> JsonView {
    match value {
        Some(value) => payload_json(value),
        None => JsonView::Null,
    }
}

fn optional_payload(value: &Option<DurablePayload>) -> (json: Value)
    ensures
        json_view(json) == optional_payload_json(value.deep_view()),
{
    match value {
        Some(value) => public_payload(value),
        None => null_value(),
    }
}

/// The class and the message of a tool error: those of the known classes, and else general ones.
pub open spec fn told_tool_error(class: Seq<char>) -> (Seq<char>, Seq<char>) {
    if class == "tool_execution_failed"@ {
        ("tool_execution_failed"@, "tool execution failed"@)
    } else if class == "tool_unavailable"@ {
        ("tool_unavailable"@, "tool unavailable"@)
    } else if class == "tool_cancelled"@ {
        ("tool_cancelled"@, "tool call cancelled"@)
    } else {
        ("tool_failed"@, "tool call failed"@)
    }
}

/// A tool error: never the message of the tool.
pub open spec fn tool_error_json(error: ToolErrorView) -> JsonView {
    let told = told_tool_error(error.class);
    JsonView::Object(
        fields().insert("class"@, JsonView::Text(told.0)).insert(
            "message"@,
            JsonView::Text(told.1),
        ),
    )
}

/// A tool error: never the message of the tool.
pub fn public_tool_error(error: &ToolError) -> (json: Value)
    ensures
        json_view(json) == tool_error_json(error.deep_view()),
{
    let (class, message) = if same_text(&error.class, "tool_execution_failed") {
        ("tool_execution_failed", "tool execution failed")
    } else if same_text(&error.class, "tool_unavailable") {
        ("tool_unavailable", "tool unavailable")
    } else if same_text(&error.class, "tool_cancelled") {
        ("tool_cancelled", "tool call cancelled")
    } else {
        ("tool_failed", "tool call failed")
    };
    Fields::new().put("class", string_value(class.to_string())).put(
        "message",
        string_value(message.to_string()),
    ).value()
}

/// A tool error, or null where there is none.
pub open spec fn optional_tool_error_json(value: Option<ToolErrorView>) -> JsonView {
    match value {
        Some(value) => tool_error_json(value),
        None => JsonView::Null,
    }
}

fn optional_tool_error(value: &Option<ToolError>) -> (json: Value)
    ensures
        json_view(json) == optional_tool_error_json(value.deep_view()),
{
    match value {
        Some(value) => public_tool_error(value),
        None => null_value(),
    }
}

/// What may be done with a tool call: one that has not ended can be cancelled, and one of unknown
/// outcome be sent again where that is safe.
pub open spec fn tool_actions(record: AsyncToolCallRecordView) -> Seq<Seq<char>> {
    if record.status == AsyncToolStatus::Planned || record.status == AsyncToolStatus::Running {
        seq!["cancel"@]
    } else if record.status == AsyncToolStatus::UnknownOutcome
        && record.retry_dispatch_deduplicated {
        seq!["retry_dispatch"@]
    } else {
        Seq::empty()
    }
}

/// What may be done with a tool call.
pub fn public_tool_actions(record: &AsyncToolCallRecord) -> (actions: Vec<String>)
    ensures
        actions.deep_view() == tool_actions(record.deep_view()),
{
    let mut actions: Vec<String> = Vec::new();
    match record.status {
        AsyncToolStatus::Planned | AsyncToolStatus::Running => {
            actions.push("cancel".to_string());
        },
        AsyncToolStatus::UnknownOutcome if record.retry_dispatch_deduplicated => {
            actions.push("retry_dispatch".to_string());
        },
        _ => {},
    }
    assert(actions.deep_view() =~= tool_actions(record.deep_view()));
    actions
}

/// Why a tool call waits to be reconciled, or null where it does not.
pub open spec fn reconciliation_json(status: AsyncToolStatus) -> JsonView {
    if status == AsyncToolStatus::UnknownOutcome {
        JsonView::Object(fields().insert("reason"@, JsonView::Text("unknown_outcome"@)))
    } else {
        JsonView::Null
    }
}

fn public_reconciliation(status: AsyncToolStatus) -> (json: Value)
    ensures
        json_view(json) == reconciliation_json(status),
{
    if status == AsyncToolStatus::UnknownOutcome {
        Fields::new().put("reason", string_value("unknown_outcome".to_string())).value()
    } else {
        null_value()
    }
}

/// A tool call.
pub open spec fn tool_fields(record: AsyncToolCallRecordView) -> Map<Seq<char>, JsonView> {
    fields()
        .insert("tool_call_id"@, JsonView::Text(record.tool_call_id))
        .insert("tool_name"@, JsonView::Text(record.tool_name))
        .insert("status"@, JsonView::Text(tool_status_name(record.status)))
        .insert("started_at_ms"@, JsonView::Integer(record.started_at_ms as int))
        .insert("auto_wait_seconds"@, count_or_null(record.auto_wait_seconds))
        .insert("completion_mode"@, JsonView::Text(completion_name(record.completion_mode)))
        .insert("allowed_actions"@, texts_json(tool_actions(record)))
        .insert("result"@, optional_payload_json(record.result))
        .insert("error"@, optional_tool_error_json(record.error))
        .insert("cancel_reason"@, text_or_null(record.cancel_reason))
        .insert("completed_at_ms"@, number_or_null(record.completed_at_ms))
        .insert("reconciliation"@, reconciliation_json(record.status))
}

/// A tool call.
pub open spec fn tool_json(record: AsyncToolCallRecordView) -> JsonView {
    JsonView::Object(tool_fields(record))
}

fn tool_in_fields(record: &AsyncToolCallRecord) -> (made: Fields)
    ensures
        made.is_object(),
        made.entries() == tool_fields(record.deep_view()),
{
    Fields::new()
        .put("tool_call_id", string_value(record.tool_call_id.clone()))
        .put("tool_name", string_value(record.tool_name.clone()))
        .put("status", string_value(tool_status_name_text(record.status).to_string()))
        .put("started_at_ms", signed_value(record.started_at_ms))
        .put("auto_wait_seconds", optional_count(record.auto_wait_seconds))
        .put(
            "completion_mode",
            string_value(completion_name_text(record.completion_mode).to_string()),
        )
        .put("allowed_actions", text_list(&public_tool_actions(record)))
        .put("result", optional_payload(&record.result))
        .put("error", optional_tool_error(&record.error))
        .put("cancel_reason", optional_text(&record.cancel_reason))
        .put("completed_at_ms", optional_time(record.completed_at_ms))
        .put("reconciliation", public_reconciliation(record.status))
}

/// A tool call.
pub fn public_tool(record: &AsyncToolCallRecord) -> (json: Value)
    ensures
        json_view(json) == tool_json(record.deep_view()),
{
    tool_in_fields(record).value()
}

/// The status of a tool call of a session.
pub fn public_tool_status(session_id: &String, record: &AsyncToolCallRecord) -> (json: Value)
    ensures
        json_view(json) == JsonView::Object(
            tool_fields(record.deep_view()).insert(
                "schema"@,
                JsonView::Text("zode.tool-call.v1"@),
            ).insert("session_id"@, JsonView::Text(session_id@)),
        ),
{
    tool_in_fields(record).put("schema", string_value("zode.tool-call.v1".to_string())).put(
        "session_id",
        string_value(session_id.clone()),
    ).value()
}

/// The tool calls of a session, in the order of their ids.
pub open spec fn tools_json(calls: Seq<(Seq<char>, AsyncToolCallRecordView)>) -> JsonView {
    JsonView::Array(Seq::new(calls.len(), |i: int| tool_json(calls[i].1)))
}

fn list_of_tools(calls: &TextMap<AsyncToolCallRecord>) -> (json: Value)
    ensures
        json_view(json) == tools_json(calls.deep_view()),
{
    let ghost view = calls.deep_view();
    let mut items: Vec<Value> = Vec::with_capacity(calls.len());
    let mut index: usize = 0;
    while index < calls.len()
        invariant
            view == calls.deep_view(),
            index <= view.len(),
            items.len() == index,
            forall|i: int| 0 <= i < index ==> json_view(#[trigger] items[i]) == tool_json(
                view[i].1,
            ),
        decreases view.len() - index,
    {
        items.push(public_tool(calls.value_at(index)));
        index += 1;
    }
    assert(values_view(items@) =~= tools_json(view)->Array_0);
    array_value(items)
}

/// An activation.
pub open spec fn activation_json(activation: ActiveActivationView) -> JsonView {
    JsonView::Object(
        fields()
            .insert("activation_id"@, JsonView::Text(activation.activation_id))
            .insert("selection_version"@, JsonView::Integer(activation.selection_version as int))
            .insert(
                "minimum_auth_revision"@,
                JsonView::Integer(activation.minimum_auth_revision as int),
            )
            .insert("started_at_ms"@, JsonView::Integer(activation.started_at_ms as int))
            .insert("model"@, optional_model_json(activation.selection.model))
            .insert("tools"@, texts_json(activation.selection.tools)),
    )
}

/// An activation.
pub fn public_activation(activation: &ActiveActivation) -> (json: Value)
    ensures
        json_view(json) == activation_json(activation.deep_view()),
{
    Fields::new()
        .put("activation_id", string_value(activation.activation_id.clone()))
        .put("selection_version", unsigned_value(activation.selection_version))
        .put("minimum_auth_revision", unsigned_value(activation.minimum_auth_revision))
        .put("started_at_ms", signed_value(activation.started_at_ms))
        .put("model", optional_model(&activation.selection.model))
        .put("tools", text_list(&activation.selection.tools))
        .value()
}

/// An activation, or null where there is none.
pub open spec fn optional_activation_json(value: Option<ActiveActivationView>) -> JsonView {
    match value {
        Some(value) => activation_json(value),
        None => JsonView::Null,
    }
}

fn optional_activation(value: &Option<ActiveActivation>) -> (json: Value)
    ensures
        json_view(json) == optional_activation_json(value.deep_view()),
{
    match value {
        Some(value) => public_activation(value),
        None => null_value(),
    }
}

/// A declared request, without its fingerprints.
pub open spec fn request_json(request: ModelRequestFactView) -> JsonView {
    JsonView::Object(
        fields()
            .insert("request_id"@, JsonView::Text(request.request_id))
            .insert("maximum_attempts"@, JsonView::Integer(request.maximum_attempts as int))
            .insert(
                "minimum_auth_revision"@,
                JsonView::Integer(request.minimum_auth_revision as int),
            ),
    )
}

/// A declared request, without its fingerprints.
pub fn public_request(request: &ModelRequestFact) -> (json: Value)
    ensures
        json_view(json) == request_json(request.deep_view()),
{
    Fields::new()
        .put("request_id", string_value(request.request_id.clone()))
        .put("maximum_attempts", unsigned_value(request.maximum_attempts as u64))
        .put("minimum_auth_revision", unsigned_value(request.minimum_auth_revision))
        .value()
}

/// A declared request, or null where there is none.
pub open spec fn optional_request_json(value: Option<ModelRequestFactView>) -> JsonView {
    match value {
        Some(value) => request_json(value),
        None => JsonView::Null,
    }
}

fn optional_request(value: &Option<ModelRequestFact>) -> (json: Value)
    ensures
        json_view(json) == optional_request_json(value.deep_view()),
{
    match value {
        Some(value) => public_request(value),
        None => null_value(),
    }
}

/// An attempt.
pub open spec fn attempt_json(attempt: ModelAttemptRecordView) -> JsonView {
    JsonView::Object(
        fields()
            .insert("attempt_id"@, JsonView::Text(attempt.attempt_id))
            .insert("attempt_number"@, JsonView::Integer(attempt.attempt_number as int))
            .insert("auth_revision"@, JsonView::Integer(attempt.auth_revision as int))
            .insert("outcome"@, JsonView::Text(attempt_outcome_name(attempt.outcome))),
    )
}

/// An attempt.
pub fn public_attempt(attempt: &ModelAttemptRecord) -> (json: Value)
    ensures
        json_view(json) == attempt_json(attempt.deep_view()),
{
    Fields::new()
        .put("attempt_id", string_value(attempt.attempt_id.clone()))
        .put("attempt_number", unsigned_value(attempt.attempt_number as u64))
        .put("auth_revision", unsigned_value(attempt.auth_revision))
        .put("outcome", string_value(attempt_outcome_name_text(attempt.outcome).to_string()))
        .value()
}

/// An attempt, or null where there is none.
pub open spec fn optional_attempt_json(value: Option<ModelAttemptRecordView>) -> JsonView {
    match value {
        Some(value) => attempt_json(value),
        None => JsonView::Null,
    }
}

fn optional_attempt(value: &Option<ModelAttemptRecord>) -> (json: Value)
    ensures
        json_view(json) == optional_attempt_json(value.deep_view()),
{
    match value {
        Some(value) => public_attempt(value),
        None => null_value(),
    }
}

/// A retry schedule.
pub open spec fn retry_json(retry: ModelRetryScheduleView) -> JsonView {
    JsonView::Object(
        fields()
            .insert("failed_attempt_number"@, JsonView::Integer(retry.failed_attempt_number as int))
            .insert("next_attempt_number"@, JsonView::Integer(retry.next_attempt_number as int))
            .insert("delay_ms"@, JsonView::Integer(retry.delay_ms as int))
            .insert("maximum_attempts"@, JsonView::Integer(retry.maximum_attempts as int))
            .insert("error_class"@, JsonView::Text(retry.error_class)),
    )
}

/// A retry schedule.
pub fn public_retry(retry: &ModelRetrySchedule) -> (json: Value)
    ensures
        json_view(json) == retry_json(retry.deep_view()),
{
    Fields::new()
        .put("failed_attempt_number", unsigned_value(retry.failed_attempt_number as u64))
        .put("next_attempt_number", unsigned_value(retry.next_attempt_number as u64))
        .put("delay_ms", unsigned_value(retry.delay_ms))
        .put("maximum_attempts", unsigned_value(retry.maximum_attempts as u64))
        .put("error_class", string_value(retry.error_class.clone()))
        .value()
}

/// A retry schedule, or null where there is none.
pub open spec fn optional_retry_json(value: Option<ModelRetryScheduleView>) -> JsonView {
    match value {
        Some(value) => retry_json(value),
        None => JsonView::Null,
    }
}

fn optional_retry(value: &Option<ModelRetrySchedule>) -> (json: Value)
    ensures
        json_view(json) == optional_retry_json(value.deep_view()),
{
    match value {
        Some(value) => public_retry(value),
        None => null_value(),
    }
}

/// A model round.
pub open spec fn round_json(round: ActiveModelRoundView) -> JsonView {
    JsonView::Object(
        fields()
            .insert("activation_id"@, JsonView::Text(round.activation_id))
            .insert("round_id"@, JsonView::Text(round.round_id))
            .insert("purpose"@, JsonView::Text(purpose_name(round.purpose)))
            .insert(
                "delivery_through_queue_id"@,
                JsonView::Integer(round.delivery_through_queue_id as int),
            )
            .insert("request"@, optional_request_json(round.request))
            .insert("attempt"@, optional_attempt_json(round.attempt))
            .insert("retry"@, optional_retry_json(round.retry)),
    )
}

/// A model round.
pub fn public_round(round: &ActiveModelRound) -> (json: Value)
    ensures
        json_view(json) == round_json(round.deep_view()),
{
    Fields::new()
        .put("activation_id", string_value(round.activation_id.clone()))
        .put("round_id", string_value(round.round_id.clone()))
        .put("purpose", string_value(purpose_name_text(round.purpose).to_string()))
        .put("delivery_through_queue_id", unsigned_value(round.delivery_through_queue_id))
        .put("request", optional_request(&round.request))
        .put("attempt", optional_attempt(&round.attempt))
        .put("retry", optional_retry(&round.retry))
        .value()
}

/// A model round, or null where there is none.
pub open spec fn optional_round_json(value: Option<ActiveModelRoundView>) -> JsonView {
    match value {
        Some(value) => round_json(value),
        None => JsonView::Null,
    }
}

fn optional_round(value: &Option<ActiveModelRound>) -> (json: Value)
    ensures
        json_view(json) == optional_round_json(value.deep_view()),
{
    match value {
        Some(value) => public_round(value),
        None => null_value(),
    }
}

/// That the attempts are used up.
pub open spec fn exhaustion_json(fact: ModelAttemptsExhaustedFactView) -> JsonView {
    JsonView::Object(
        fields()
            .insert("activation_id"@, JsonView::Text(fact.activation_id))
            .insert("round_id"@, JsonView::Text(fact.round_id))
            .insert("attempt_number"@, JsonView::Integer(fact.attempt_number as int))
            .insert("maximum_attempts"@, JsonView::Integer(fact.maximum_attempts as int))
            .insert("finished_at_ms"@, JsonView::Integer(fact.finished_at_ms as int))
            .insert("reason"@, JsonView::Text("model_attempts_exhausted"@)),
    )
}

/// That the attempts are used up.
fn public_exhaustion(fact: &ModelAttemptsExhaustedFact) -> (json: Value)
    ensures
        json_view(json) == exhaustion_json(fact.deep_view()),
{
    Fields::new()
        .put("activation_id", string_value(fact.activation_id.clone()))
        .put("round_id", string_value(fact.round_id.clone()))
        .put("attempt_number", unsigned_value(fact.attempt_number as u64))
        .put("maximum_attempts", unsigned_value(fact.maximum_attempts as u64))
        .put("finished_at_ms", signed_value(fact.finished_at_ms))
        .put("reason", string_value("model_attempts_exhausted".to_string()))
        .value()
}

/// That the attempts are used up, or null.
pub open spec fn optional_exhaustion_json(
    value: Option<ModelAttemptsExhaustedFactView>,
) -> JsonView {
    match value {
        Some(value) => exhaustion_json(value),
        None => JsonView::Null,
    }
}

fn optional_exhaustion(value: &Option<ModelAttemptsExhaustedFact>) -> (json: Value)
    ensures
        json_view(json) == optional_exhaustion_json(value.deep_view()),
{
    match value {
        Some(value) => public_exhaustion(value),
        None => null_value(),
    }
}

/// A context handoff, without its document.
pub open spec fn handoff_json(handoff: ContextHandoffDocumentView) -> JsonView {
    JsonView::Object(
        fields()
            .insert("handoff_id"@, JsonView::Text(handoff.handoff_id))
            .insert("previous_handoff_id"@, text_or_null(handoff.previous_handoff_id))
            .insert("generation"@, JsonView::Integer(handoff.next_generation as int))
            .insert(
                "covered_through_message_id"@,
                JsonView::Text(handoff.covered_through_message_id),
            )
            .insert("source_tokens"@, JsonView::Integer(handoff.source_tokens as int))
            .insert("document_tokens"@, JsonView::Integer(handoff.document_tokens as int))
            .insert(
                "token_accounting_version"@,
                JsonView::Integer(handoff.token_accounting_version as int),
            ),
    )
}

/// A context handoff, without its document.
pub fn public_handoff(handoff: &ContextHandoffDocument) -> (json: Value)
    ensures
        json_view(json) == handoff_json(handoff.deep_view()),
{
    Fields::new()
        .put("handoff_id", string_value(handoff.handoff_id.clone()))
        .put("previous_handoff_id", optional_text(&handoff.previous_handoff_id))
        .put("generation", unsigned_value(handoff.next_generation))
        .put("covered_through_message_id", string_value(handoff.covered_through_message_id.clone()))
        .put("source_tokens", unsigned_value(handoff.source_tokens))
        .put("document_tokens", unsigned_value(handoff.document_tokens))
        .put("token_accounting_version", unsigned_value(handoff.token_accounting_version as u64))
        .value()
}

/// A context handoff, or null where there is none.
pub open spec fn optional_handoff_json(value: Option<ContextHandoffDocumentView>) -> JsonView {
    match value {
        Some(value) => handoff_json(value),
        None => JsonView::Null,
    }
}

fn optional_handoff(value: &Option<ContextHandoffDocument>) -> (json: Value)
    ensures
        json_view(json) == optional_handoff_json(value.deep_view()),
{
    match value {
        Some(value) => public_handoff(value),
        None => null_value(),
    }
}

/// A delivery that waits, without its payload.
pub open spec fn delivery_json(delivery: QueuedDeliveryView) -> JsonView {
    JsonView::Object(
        fields()
            .insert("queue_id"@, JsonView::Integer(delivery.queue_id as int))
            .insert("delivery_id"@, JsonView::Text(delivery.delivery_id))
            .insert("kind"@, JsonView::Text(delivery_kind_name(delivery.kind)))
            .insert("wake"@, JsonView::Bool(delivery.wake))
            .insert("source_tool_call_id"@, text_or_null(delivery.source_tool_call_id))
            .insert("materialized_message_id"@, text_or_null(delivery.materialized_message_id)),
    )
}

/// A delivery that waits, without its payload.
pub fn public_delivery(delivery: &QueuedDelivery) -> (json: Value)
    ensures
        json_view(json) == delivery_json(delivery.deep_view()),
{
    Fields::new()
        .put("queue_id", unsigned_value(delivery.queue_id))
        .put("delivery_id", string_value(delivery.delivery_id.clone()))
        .put("kind", string_value(delivery_kind_name_text(delivery.kind).to_string()))
        .put("wake", bool_value(delivery.wake))
        .put("source_tool_call_id", optional_text(&delivery.source_tool_call_id))
        .put("materialized_message_id", optional_text(&delivery.materialized_message_id))
        .value()
}

/// Deliveries that wait.
pub open spec fn deliveries_json(values: Seq<QueuedDeliveryView>) -> JsonView {
    JsonView::Array(Seq::new(values.len(), |i: int| delivery_json(values[i])))
}

fn list_of_deliveries(values: &Vec<QueuedDelivery>) -> (json: Value)
    ensures
        json_view(json) == deliveries_json(values.deep_view()),
{
    let mut items: Vec<Value> = Vec::with_capacity(values.len());
    let mut index: usize = 0;
    while index < values.len()
        invariant
            index <= values.len(),
            items.len() == index,
            forall|i: int|
                0 <= i < index ==> json_view(#[trigger] items[i]) == delivery_json(
                    values.deep_view()[i],
                ),
        decreases values.len() - index,
    {
        items.push(public_delivery(&values[index]));
        index += 1;
    }
    assert(values_view(items@) =~= deliveries_json(values.deep_view())->Array_0);
    array_value(items)
}

/// A final model failure.
pub open spec fn model_error_json(error: ModelAttemptErrorView) -> JsonView {
    JsonView::Object(
        fields()
            .insert("class"@, JsonView::Text(error_class_name(error.class)))
            .insert("message"@, JsonView::Text(error.message)),
    )
}

/// A final model failure.
pub fn public_model_error(error: &ModelAttemptError) -> (json: Value)
    ensures
        json_view(json) == model_error_json(error.deep_view()),
{
    Fields::new()
        .put("class", string_value(error_class_name_text(error.class).to_string()))
        .put("message", string_value(error.message.clone()))
        .value()
}

/// A session.
pub open spec fn session_json(state: SessionStateView) -> JsonView {
    JsonView::Object(
        fields()
            .insert("schema"@, JsonView::Text("zode.session.v1"@))
            .insert("session_id"@, JsonView::Text(state.session_id))
            .insert("version"@, JsonView::Integer(state.stream_version as int))
            .insert("status"@, JsonView::Text(session_status_name(state.status)))
            .insert("model"@, optional_model_json(state.selection.model))
            .insert("transcript"@, messages_json(state.transcript))
            .insert(
                "delivery"@,
                JsonView::Object(
                    fields()
                        .insert(
                            "acknowledged_through"@,
                            JsonView::Integer(state.delivery_ack as int),
                        )
                        .insert("pending"@, deliveries_json(state.delivery_queue)),
                ),
            )
            .insert("wait"@, optional_wait_json(state.active_wait))
            .insert("tool_calls"@, tools_json(state.async_tool_calls))
            .insert("active_activation"@, optional_activation_json(state.active_activation))
            .insert("active_model_round"@, optional_round_json(state.active_model_round))
            .insert(
                "last_model_attempts_exhausted"@,
                optional_exhaustion_json(state.last_model_attempts_exhausted),
            )
            .insert("context_handoff"@, optional_handoff_json(state.latest_context_handoff)),
    )
}

/// A session.
pub fn session_view(state: &SessionState) -> (json: Value)
    ensures
        json_view(json) == session_json(state.deep_view()),
{
    Fields::new()
        .put("schema", string_value("zode.session.v1".to_string()))
        .put("session_id", string_value(state.session_id.clone()))
        .put("version", unsigned_value(state.stream_version))
        .put("status", string_value(session_status_name_text(state.status).to_string()))
        .put("model", optional_model(&state.selection.model))
        .put("transcript", list_of_messages(&state.transcript))
        .put(
            "delivery",
            Fields::new()
                .put("acknowledged_through", unsigned_value(state.delivery_ack))
                .put("pending", list_of_deliveries(&state.delivery_queue))
                .value(),
        )
        .put("wait", optional_wait(&state.active_wait))
        .put("tool_calls", list_of_tools(&state.async_tool_calls))
        .put("active_activation", optional_activation(&state.active_activation))
        .put("active_model_round", optional_round(&state.active_model_round))
        .put(
            "last_model_attempts_exhausted",
            optional_exhaustion(&state.last_model_attempts_exhausted),
        )
        .put("context_handoff", optional_handoff(&state.latest_context_handoff))
        .value()
}

/// What is told of a replica.
pub open spec fn replica_json(metadata: ReplicaMetadataView) -> JsonView {
    JsonView::Object(
        fields()
            .insert("schema"@, JsonView::Text("zode.auth-replica.v1"@))
            .insert("authority_id"@, JsonView::Text(metadata.authority_id))
            .insert("auth_profile_id"@, JsonView::Text(metadata.profile_id))
            .insert("provider"@, JsonView::Text(metadata.provider))
            .insert("revision"@, JsonView::Integer(metadata.revision as int))
            .insert("expires_at_ms"@, number_or_null(metadata.expires_at_ms))
            .insert("status"@, JsonView::Text(metadata.status)),
    )
}

/// What is told of a replica.
pub fn public_replica_metadata(metadata: &ReplicaMetadata) -> (json: Value)
    ensures
        json_view(json) == replica_json(metadata.deep_view()),
{
    Fields::new()
        .put("schema", string_value("zode.auth-replica.v1".to_string()))
        .put("authority_id", string_value(metadata.authority_id.clone()))
        .put("auth_profile_id", string_value(metadata.profile_id.clone()))
        .put("provider", string_value(metadata.provider.clone()))
        .put("revision", unsigned_value(metadata.revision))
        .put("expires_at_ms", optional_time(metadata.expires_at_ms))
        .put("status", string_value(metadata.status.to_string()))
        .value()
}

/// What is told of replicas.
pub open spec fn replicas_json(values: Seq<ReplicaMetadataView>) -> JsonView {
    JsonView::Array(Seq::new(values.len(), |i: int| replica_json(values[i])))
}

fn list_of_replicas(values: &Vec<ReplicaMetadata>) -> (json: Value)
    ensures
        json_view(json) == replicas_json(values.deep_view()),
{
    let mut items: Vec<Value> = Vec::with_capacity(values.len());
    let mut index: usize = 0;
    while index < values.len()
        invariant
            index <= values.len(),
            items.len() == index,
            forall|i: int|
                0 <= i < index ==> json_view(#[trigger] items[i]) == replica_json(
                    values.deep_view()[i],
                ),
        decreases values.len() - index,
    {
        items.push(public_replica_metadata(&values[index]));
        index += 1;
    }
    assert(values_view(items@) =~= replicas_json(values.deep_view())->Array_0);
    array_value(items)
}

/// The list of replicas.
pub fn public_replica_list(metadata: &Vec<ReplicaMetadata>) -> (json: Value)
    ensures
        json_view(json) == JsonView::Object(
            fields().insert("schema"@, JsonView::Text("zode.auth-replica-list.v1"@)).insert(
                "items"@,
                replicas_json(metadata.deep_view()),
            ),
        ),
{
    Fields::new().put("schema", string_value("zode.auth-replica-list.v1".to_string())).put(
        "items",
        list_of_replicas(metadata),
    ).value()
}

/// A session as it is listed.
#[derive(Clone, Debug, PartialEq)]
pub struct SessionListItem {
    pub session_id: String,
    pub version: u64,
    pub status: SessionStatus,
    pub created_at_ms: i64,
    pub selection: SessionSelection,
}

/// The content of a [`SessionListItem`].
pub struct SessionListItemView {
    pub session_id: Seq<char>,
    pub version: u64,
    pub status: SessionStatus,
    pub created_at_ms: i64,
    pub selection: SessionSelectionView,
}

impl DeepView for SessionListItem {
    type V = SessionListItemView;

    open spec fn deep_view(&self) -> SessionListItemView {
        SessionListItemView {
            session_id: self.session_id@,
            version: self.version,
            status: self.status,
            created_at_ms: self.created_at_ms,
            selection: self.selection.deep_view(),
        }
    }
}

/// A session as it is listed.
pub open spec fn item_json(item: SessionListItemView) -> JsonView {
    JsonView::Object(
        fields()
            .insert("session_id"@, JsonView::Text(item.session_id))
            .insert("version"@, JsonView::Integer(item.version as int))
            .insert("status"@, JsonView::Text(session_status_name(item.status)))
            .insert("created_at_ms"@, JsonView::Integer(item.created_at_ms as int))
            .insert("model"@, optional_model_json(item.selection.model)),
    )
}

/// A session as it is listed.
pub fn public_item(item: &SessionListItem) -> (json: Value)
    ensures
        json_view(json) == item_json(item.deep_view()),
{
    Fields::new()
        .put("session_id", string_value(item.session_id.clone()))
        .put("version", unsigned_value(item.version))
        .put("status", string_value(session_status_name_text(item.status).to_string()))
        .put("created_at_ms", signed_value(item.created_at_ms))
        .put("model", optional_model(&item.selection.model))
        .value()
}

/// Sessions as they are listed.
pub open spec fn items_json(values: Seq<SessionListItemView>) -> JsonView {
    JsonView::Array(Seq::new(values.len(), |i: int| item_json(values[i])))
}

fn list_of_items(values: &Vec<SessionListItem>) -> (json: Value)
    ensures
        json_view(json) == items_json(values.deep_view()),
{
    let mut items: Vec<Value> = Vec::with_capacity(values.len());
    let mut index: usize = 0;
    while index < values.len()
        invariant
            index <= values.len(),
            items.len() == index,
            forall|i: int|
                0 <= i < index ==> json_view(#[trigger] items[i]) == item_json(
                    values.deep_view()[i],
                ),
        decreases values.len() - index,
    {
        items.push(public_item(&values[index]));
        index += 1;
    }
    assert(values_view(items@) =~= items_json(values.deep_view())->Array_0);
    array_value(items)
}

/// A page of the list of sessions, with the cursor of the next one.
pub fn public_session_list(items: &Vec<SessionListItem>, next_cursor: &Option<String>) -> (json:
    Value)
    ensures
        json_view(json) == JsonView::Object(
            fields().insert("schema"@, JsonView::Text("zode.session-list.v1"@)).insert(
                "items"@,
                items_json(items.deep_view()),
            ).insert("next_cursor"@, text_or_null(next_cursor.deep_view())),
        ),
{
    Fields::new().put("schema", string_value("zode.session-list.v1".to_string())).put(
        "items",
        list_of_items(items),
    ).put("next_cursor", optional_text(next_cursor)).value()
}

/// The answer to a command that was accepted.
pub fn command_response(session_id: &String, version: u64) -> (json: Value)
    ensures
        json_view(json) == JsonView::Object(
            fields().insert("schema"@, JsonView::Text("zode.command.v1"@)).insert(
                "session_id"@,
                JsonView::Text(session_id@),
            ).insert("accepted"@, JsonView::Bool(true)).insert(
                "version"@,
                JsonView::Integer(version as int),
            ),
        ),
{
    Fields::new().put("schema", string_value("zode.command.v1".to_string())).put(
        "session_id",
        string_value(session_id.clone()),
    ).put("accepted", bool_value(true)).put("version", unsigned_value(version)).value()
}

/// A session is told without its private facts: whose it is, which keys it has seen, how its
/// callbacks are bound, what its requests cost, and which handoff of its context is planned.
pub proof fn private_facts_are_not_told(left: SessionStateView, right: SessionStateView)
    requires
        left == (SessionStateView {
            owner: left.owner,
            created_at_ms: left.created_at_ms,
            selection_version: left.selection_version,
            last_model_attempt_failure: left.last_model_attempt_failure,
            active_timer: left.active_timer,
            wake_pending_wait_id: left.wake_pending_wait_id,
            pending_context_handoff: left.pending_context_handoff,
            latest_model_usage: left.latest_model_usage,
            last_context_handoff_failure: left.last_context_handoff_failure,
            callback_bindings: left.callback_bindings,
            dedupe_facts: left.dedupe_facts,
            ..right
        }),
    ensures
        session_json(left) == session_json(right),
{
}

/// A tool call is told without its input and its progress, and its error without its words.
pub proof fn inputs_are_not_told(
    record: AsyncToolCallRecordView,
    input: DurablePayloadView,
    progress: Option<DurablePayloadView>,
    message: Seq<char>,
)
    ensures
        tool_json(record) == tool_json(
            AsyncToolCallRecordView {
                input,
                progress,
                error: match record.error {
                    Some(error) => Some(ToolErrorView { message, ..error }),
                    None => None,
                },
                ..record
            },
        ),
{
}

/// A message is told without the key and the queue that it came by.
pub proof fn origins_are_not_told(
    message: TranscriptMessageView,
    dedupe_key: Option<Seq<char>>,
    source_queue_id: Option<u64>,
)
    ensures
        message_json(message) == message_json(
            TranscriptMessageView { dedupe_key, source_queue_id, ..message },
        ),
{
}

} // verus!
