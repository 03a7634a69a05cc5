//! What is told of the events of a session.

use crate::domain::event::{
    event_kind, EventRecord, EventRecordView, SessionEvent, SessionEventView,
};
use crate::domain::transcript::{QueuedDeliveryView, TranscriptRole};
use crate::http::views::{
    activation_outcome_name, activation_outcome_name_text, completion_name, completion_name_text,
    count_or_null, delivery_kind_name, delivery_kind_name_text, handoff_json, message_json,
    model_error_json, optional_count, optional_model, optional_model_json, optional_text,
    public_handoff, public_message, public_model_error, public_tool_error, public_wait,
    purpose_name, purpose_name_text, session_status_name, session_status_name_text, text_list,
    text_or_null, texts_json, tool_error_json, tool_status_name, tool_status_name_text,
    told_tool_error, wait_json,
};
use crate::json::{
    bool_value, fields, json_view, null_value, signed_value, string_value, unsigned_value, Fields,
    JsonView,
};
use crate::number::{decimal, decimal_text};
use serde_json::Value;
use vstd::prelude::*;

verus! {

/// Whether an event is kept to the endpoint: claims of the runtime, and keys.
pub open spec fn is_private(event: SessionEventView) -> bool {
    match event {
        SessionEventView::ModelRequestPrepared { .. } => true,
        SessionEventView::ModelRequestDeclared { .. } => true,
        SessionEventView::ContextHandoffPlanned { .. } => true,
        SessionEventView::ModelAttemptStarted { .. } => true,
        SessionEventView::ModelRequestAbandoned { .. } => true,
        SessionEventView::ModelRequestCompleted { .. } => true,
        SessionEventView::WaitTimerScheduled { .. } => true,
        SessionEventView::AsyncToolCallCallbackPlanned { .. } => true,
        SessionEventView::DedupeRecorded { .. } => true,
        _ => false,
    }
}

/// The kind under which an event is told.
pub open spec fn told_kind(event: SessionEventView) -> Seq<char> {
    match event {
        SessionEventView::MessageAppended { message, .. } => if message.role
            == TranscriptRole::Assistant && message.tool_calls.len() == 0 {
            "assistant_message_committed"@
        } else {
            event_kind(event)
        },
        SessionEventView::ModelAttemptsExhausted { .. } => "model_attempts_exhausted"@,
        SessionEventView::ModelStepRetryScheduled { .. } => "model_step_retrying"@,
        SessionEventView::ContextHandoffCreated { .. } => "context_handoff_created"@,
        SessionEventView::ContextHandoffFailed { .. } => "context_handoff_failed"@,
        SessionEventView::AsyncToolCallCallbackCompleted { .. } => "async_tool_call_completed"@,
        SessionEventView::AsyncToolCallCallbackFailed { .. } => "async_tool_call_failed"@,
        _ => event_kind(event),
    }
}

/// What is told of an event.
pub open spec fn event_json(event: SessionEventView) -> JsonView {
    match event {
        SessionEventView::SessionCreated { session_id, .. } => JsonView::Object(
            fields()
                .insert("session_id"@, JsonView::Text(session_id)),
        ),
        SessionEventView::ModelSelectionChanged { selection } => JsonView::Object(
            fields()
                .insert("model"@, optional_model_json(selection.model))
                .insert("tools"@, texts_json(selection.tools)),
        ),
        SessionEventView::StatusChanged { status } => JsonView::Object(
            fields()
                .insert("status"@, JsonView::Text(session_status_name(status))),
        ),
        SessionEventView::DeliveryQueued { delivery } => JsonView::Object(
            fields()
                .insert("queue_id"@, JsonView::Integer(delivery.queue_id as int))
                .insert("delivery_id"@, JsonView::Text(delivery.delivery_id))
                .insert("kind"@, JsonView::Text(delivery_kind_name(delivery.kind)))
                .insert("wake"@, JsonView::Bool(delivery.wake))
                .insert("source_tool_call_id"@, text_or_null(delivery.source_tool_call_id)),
        ),
        SessionEventView::DeliveryAcknowledged { through_queue_id } => JsonView::Object(
            fields()
                .insert("through_queue_id"@, JsonView::Integer(through_queue_id as int)),
        ),
        SessionEventView::DeliveryMaterialized { queue_id, message } => JsonView::Object(
            fields()
                .insert("queue_id"@, JsonView::Integer(queue_id as int))
                .insert("message"@, message_json(message)),
        ),
        SessionEventView::MessageAppended { message, wake_wait } => JsonView::Object(
            fields()
                .insert("message"@, message_json(message))
                .insert("wake_wait"@, JsonView::Bool(wake_wait)),
        ),
        SessionEventView::ActivationStarted {
            activation_id,
            selection,
            selection_version,
            minimum_auth_revision,
            started_at_ms,
        } => JsonView::Object(
            fields()
                .insert("activation_id"@, JsonView::Text(activation_id))
                .insert("selection_version"@, JsonView::Integer(selection_version as int))
                .insert("minimum_auth_revision"@, JsonView::Integer(minimum_auth_revision as int))
                .insert("started_at_ms"@, JsonView::Integer(started_at_ms as int))
                .insert("model"@, optional_model_json(selection.model))
                .insert("tools"@, texts_json(selection.tools)),
        ),
        SessionEventView::ModelRoundStarted {
            activation_id,
            round_id,
            purpose,
            delivery_through_queue_id,
            started_at_ms,
        } => JsonView::Object(
            fields()
                .insert("activation_id"@, JsonView::Text(activation_id))
                .insert("round_id"@, JsonView::Text(round_id))
                .insert("purpose"@, JsonView::Text(purpose_name(purpose)))
                .insert(
                    "delivery_through_queue_id"@,
                    JsonView::Integer(delivery_through_queue_id as int),
                )
                .insert("started_at_ms"@, JsonView::Integer(started_at_ms as int)),
        ),
        SessionEventView::ContextHandoffCreated { handoff } => handoff_json(handoff),
        SessionEventView::ContextHandoffFailed {
            plan_id,
            error,
            finished_at_ms,
        } => JsonView::Object(
            fields()
                .insert("plan_id"@, JsonView::Text(plan_id))
                .insert("error"@, model_error_json(error))
                .insert("finished_at_ms"@, JsonView::Integer(finished_at_ms as int)),
        ),
        SessionEventView::ModelAttemptFailedFact {
            activation_id,
            round_id,
            attempt_number,
            error_class,
            retryable,
            ..
        } => JsonView::Object(
            fields()
                .insert("activation_id"@, JsonView::Text(activation_id))
                .insert("round_id"@, JsonView::Text(round_id))
                .insert("attempt_number"@, JsonView::Integer(attempt_number as int))
                .insert(
                    "error"@,
                    JsonView::Object(
                        fields().insert("class"@, JsonView::Text(error_class)).insert(
                            "retryable"@,
                            JsonView::Bool(retryable),
                        ),
                    ),
                ),
        ),
        SessionEventView::ModelAttemptInterrupted {
            activation_id,
            round_id,
            attempt_number,
            ..
        } => JsonView::Object(
            fields()
                .insert("activation_id"@, JsonView::Text(activation_id))
                .insert("round_id"@, JsonView::Text(round_id))
                .insert("attempt_number"@, JsonView::Integer(attempt_number as int))
                .insert("reason"@, JsonView::Text("model_attempt_interrupted"@)),
        ),
        SessionEventView::ModelAttemptsExhausted { fact } => JsonView::Object(
            fields()
                .insert("activation_id"@, JsonView::Text(fact.activation_id))
                .insert("round_id"@, JsonView::Text(fact.round_id))
                .insert("attempt_number"@, JsonView::Integer(fact.attempt_number as int))
                .insert("maximum_attempts"@, JsonView::Integer(fact.maximum_attempts as int))
                .insert("reason"@, JsonView::Text("model_attempts_exhausted"@))
                .insert("finished_at_ms"@, JsonView::Integer(fact.finished_at_ms as int)),
        ),
        SessionEventView::ModelStepRetryScheduled { schedule } => JsonView::Object(
            fields()
                .insert("activation_id"@, JsonView::Text(schedule.activation_id))
                .insert("round_id"@, JsonView::Text(schedule.round_id))
                .insert(
                    "failed_attempt_number"@,
                    JsonView::Integer(schedule.failed_attempt_number as int),
                )
                .insert(
                    "next_attempt_number"@,
                    JsonView::Integer(schedule.next_attempt_number as int),
                )
                .insert("delay_ms"@, JsonView::Integer(schedule.delay_ms as int))
                .insert("maximum_attempts"@, JsonView::Integer(schedule.maximum_attempts as int))
                .insert("error_class"@, JsonView::Text(schedule.error_class)),
        ),
        SessionEventView::ActivationFinished {
            activation_id,
            outcome,
            finished_at_ms,
        } => JsonView::Object(
            fields()
                .insert("activation_id"@, JsonView::Text(activation_id))
                .insert("outcome"@, JsonView::Text(activation_outcome_name(outcome)))
                .insert("finished_at_ms"@, JsonView::Integer(finished_at_ms as int)),
        ),
        SessionEventView::ModelAttemptFailed { failure } => JsonView::Object(
            fields()
                .insert("trigger_message_id"@, JsonView::Text(failure.trigger_message_id))
                .insert("error"@, model_error_json(failure.error)),
        ),
        SessionEventView::WaitSet { wait } => JsonView::Object(
            fields()
                .insert("wait"@, wait_json(wait)),
        ),
        SessionEventView::WaitCleared { wait_id } => JsonView::Object(
            fields()
                .insert("wait_id"@, JsonView::Text(wait_id)),
        ),
        SessionEventView::WaitExpired { wait_id } => JsonView::Object(
            fields()
                .insert("wait_id"@, JsonView::Text(wait_id)),
        ),
        SessionEventView::AsyncToolCallStarted { record } => JsonView::Object(
            fields()
                .insert("tool_call_id"@, JsonView::Text(record.tool_call_id))
                .insert("tool_name"@, JsonView::Text(record.tool_name))
                .insert("status"@, JsonView::Text(tool_status_name(record.status)))
                .insert("completion_mode"@, JsonView::Text(completion_name(record.completion_mode)))
                .insert("auto_wait_seconds"@, count_or_null(record.auto_wait_seconds)),
        ),
        SessionEventView::AsyncToolCallRunning { tool_call_id } => JsonView::Object(
            fields()
                .insert("tool_call_id"@, JsonView::Text(tool_call_id))
                .insert("status"@, JsonView::Text("running"@)),
        ),
        SessionEventView::AsyncToolCallUnknownOutcome { tool_call_id, .. } => JsonView::Object(
            fields()
                .insert("tool_call_id"@, JsonView::Text(tool_call_id))
                .insert("status"@, JsonView::Text("unknown_outcome"@)),
        ),
        SessionEventView::AsyncToolCallRuntimeRestarted {
            tool_call_id,
            completed_at_ms,
            ..
        } => JsonView::Object(
            fields()
                .insert("tool_call_id"@, JsonView::Text(tool_call_id))
                .insert("completed_at_ms"@, JsonView::Integer(completed_at_ms as int))
                .insert("status"@, JsonView::Text("runtime_restarted"@)),
        ),
        SessionEventView::AsyncToolCallCallbackCompleted {
            tool_call_id,
            completed_at_ms,
            ..
        } => JsonView::Object(
            fields()
                .insert("tool_call_id"@, JsonView::Text(tool_call_id))
                .insert("completed_at_ms"@, JsonView::Integer(completed_at_ms as int))
                .insert("status"@, JsonView::Text("completed"@)),
        ),
        SessionEventView::AsyncToolCallCallbackFailed {
            tool_call_id,
            completed_at_ms,
            ..
        } => JsonView::Object(
            fields()
                .insert("tool_call_id"@, JsonView::Text(tool_call_id))
                .insert("completed_at_ms"@, JsonView::Integer(completed_at_ms as int))
                .insert("status"@, JsonView::Text("failed"@)),
        ),
        SessionEventView::AsyncToolCallProgress { tool_call_id, .. } => JsonView::Object(
            fields()
                .insert("tool_call_id"@, JsonView::Text(tool_call_id)),
        ),
        SessionEventView::AsyncToolCallCompleted {
            tool_call_id,
            completed_at_ms,
            ..
        } => JsonView::Object(
            fields()
                .insert("tool_call_id"@, JsonView::Text(tool_call_id))
                .insert("completed_at_ms"@, JsonView::Integer(completed_at_ms as int))
                .insert("status"@, JsonView::Text("completed"@)),
        ),
        SessionEventView::AsyncToolCallFailed {
            tool_call_id,
            error,
            completed_at_ms,
        } => JsonView::Object(
            fields()
                .insert("tool_call_id"@, JsonView::Text(tool_call_id))
                .insert("completed_at_ms"@, JsonView::Integer(completed_at_ms as int))
                .insert("status"@, JsonView::Text("failed"@))
                .insert("error"@, tool_error_json(error)),
        ),
        SessionEventView::AsyncToolCallCancelled {
            tool_call_id,
            reason,
            completed_at_ms,
        } => JsonView::Object(
            fields()
                .insert("tool_call_id"@, JsonView::Text(tool_call_id))
                .insert("completed_at_ms"@, JsonView::Integer(completed_at_ms as int))
                .insert("status"@, JsonView::Text("cancelled"@))
                .insert("reason"@, JsonView::Text(reason)),
        ),
        _ => JsonView::Null,
    }
}

/// What is told of an event.
#[verifier::rlimit(40)]
#[verifier::spinoff_prover]
pub fn public_event_data(event: &SessionEvent) -> (json: Value)
    ensures
        json_view(json) == event_json(event.deep_view()),
{
    match event {
        SessionEvent::SessionCreated { session_id, .. } => Fields::new()
            .put("session_id", string_value(session_id.clone()))
            .value(),
        SessionEvent::ModelSelectionChanged { selection } => Fields::new()
            .put("model", optional_model(&selection.model))
            .put("tools", text_list(&selection.tools))
            .value(),
        SessionEvent::StatusChanged { status } => Fields::new()
            .put("status", string_value(session_status_name_text(*status).to_string()))
            .value(),
        SessionEvent::DeliveryQueued { delivery } => Fields::new()
            .put("queue_id", unsigned_value(delivery.queue_id))
            .put("delivery_id", string_value(delivery.delivery_id.clone()))
            .put("kind", string_value(delivery_kind_name_text(delivery.kind).to_string()))
            .put("wake", bool_value(delivery.wake))
            .put("source_tool_call_id", optional_text(&delivery.source_tool_call_id))
            .value(),
        SessionEvent::DeliveryAcknowledged { through_queue_id } => Fields::new()
            .put("through_queue_id", unsigned_value(*through_queue_id))
            .value(),
        SessionEvent::DeliveryMaterialized { queue_id, message } => Fields::new()
            .put("queue_id", unsigned_value(*queue_id))
            .put("message", public_message(message))
            .value(),
        SessionEvent::MessageAppended { message, wake_wait } => Fields::new()
            .put("message", public_message(message))
            .put("wake_wait", bool_value(*wake_wait))
            .value(),
        SessionEvent::ActivationStarted {
            activation_id,
            selection,
            selection_version,
            minimum_auth_revision,
            started_at_ms,
        } => Fields::new()
            .put("activation_id", string_value(activation_id.clone()))
            .put("selection_version", unsigned_value(*selection_version))
            .put("minimum_auth_revision", unsigned_value(*minimum_auth_revision))
            .put("started_at_ms", signed_value(*started_at_ms))
            .put("model", optional_model(&selection.model))
            .put("tools", text_list(&selection.tools))
            .value(),
        SessionEvent::ModelRoundStarted {
            activation_id,
            round_id,
            purpose,
            delivery_through_queue_id,
            started_at_ms,
        } => Fields::new()
            .put("activation_id", string_value(activation_id.clone()))
            .put("round_id", string_value(round_id.clone()))
            .put("purpose", string_value(purpose_name_text(*purpose).to_string()))
            .put("delivery_through_queue_id", unsigned_value(*delivery_through_queue_id))
            .put("started_at_ms", signed_value(*started_at_ms))
            .value(),
        SessionEvent::ContextHandoffCreated { handoff } => public_handoff(handoff),
        SessionEvent::ContextHandoffFailed { plan_id, error, finished_at_ms } => Fields::new()
            .put("plan_id", string_value(plan_id.clone()))
            .put("error", public_model_error(error))
            .put("finished_at_ms", signed_value(*finished_at_ms))
            .value(),
        SessionEvent::ModelAttemptFailedFact {
            activation_id,
            round_id,
            attempt_number,
            error_class,
            retryable,
            ..
        } => Fields::new()
            .put("activation_id", string_value(activation_id.clone()))
            .put("round_id", string_value(round_id.clone()))
            .put("attempt_number", unsigned_value(*attempt_number as u64))
            .put(
                "error",
                Fields::new()
                    .put("class", string_value(error_class.clone()))
                    .put("retryable", bool_value(*retryable))
                    .value(),
            )
            .value(),
        SessionEvent::ModelAttemptInterrupted {
            activation_id,
            round_id,
            attempt_number,
            ..
        } => Fields::new()
            .put("activation_id", string_value(activation_id.clone()))
            .put("round_id", string_value(round_id.clone()))
            .put("attempt_number", unsigned_value(*attempt_number as u64))
            .put("reason", string_value("model_attempt_interrupted".to_string()))
            .value(),
        SessionEvent::ModelAttemptsExhausted { fact } => Fields::new()
            .put("activation_id", string_value(fact.activation_id.clone()))
            .put("round_id", string_value(fact.round_id.clone()))
            .put("attempt_number", unsigned_value(fact.attempt_number as u64))
            .put("maximum_attempts", unsigned_value(fact.maximum_attempts as u64))
            .put("reason", string_value("model_attempts_exhausted".to_string()))
            .put("finished_at_ms", signed_value(fact.finished_at_ms))
            .value(),
        SessionEvent::ModelStepRetryScheduled { schedule } => Fields::new()
            .put("activation_id", string_value(schedule.activation_id.clone()))
            .put("round_id", string_value(schedule.round_id.clone()))
            .put("failed_attempt_number", unsigned_value(schedule.failed_attempt_number as u64))
            .put("next_attempt_number", unsigned_value(schedule.next_attempt_number as u64))
            .put("delay_ms", unsigned_value(schedule.delay_ms))
            .put("maximum_attempts", unsigned_value(schedule.maximum_attempts as u64))
            .put("error_class", string_value(schedule.error_class.clone()))
            .value(),
        SessionEvent::ActivationFinished { activation_id, outcome, finished_at_ms } => Fields::new()
            .put("activation_id", string_value(activation_id.clone()))
            .put("outcome", string_value(activation_outcome_name_text(*outcome).to_string()))
            .put("finished_at_ms", signed_value(*finished_at_ms))
            .value(),
        SessionEvent::ModelAttemptFailed { failure } => Fields::new()
            .put("trigger_message_id", string_value(failure.trigger_message_id.clone()))
            .put("error", public_model_error(&failure.error))
            .value(),
        SessionEvent::WaitSet { wait } => Fields::new()
            .put("wait", public_wait(wait))
            .value(),
        SessionEvent::WaitCleared { wait_id } => Fields::new()
            .put("wait_id", string_value(wait_id.clone()))
            .value(),
        SessionEvent::WaitExpired { wait_id } => Fields::new()
            .put("wait_id", string_value(wait_id.clone()))
            .value(),
        SessionEvent::AsyncToolCallStarted { record } => Fields::new()
            .put("tool_call_id", string_value(record.tool_call_id.clone()))
            .put("tool_name", string_value(record.tool_name.clone()))
            .put("status", string_value(tool_status_name_text(record.status).to_string()))
            .put(
                "completion_mode",
                string_value(completion_name_text(record.completion_mode).to_string()),
            )
            .put("auto_wait_seconds", optional_count(record.auto_wait_seconds))
            .value(),
        SessionEvent::AsyncToolCallRunning { tool_call_id } => Fields::new()
            .put("tool_call_id", string_value(tool_call_id.clone()))
            .put("status", string_value("running".to_string()))
            .value(),
        SessionEvent::AsyncToolCallUnknownOutcome { tool_call_id, .. } => Fields::new()
            .put("tool_call_id", string_value(tool_call_id.clone()))
            .put("status", string_value("unknown_outcome".to_string()))
            .value(),
        SessionEvent::AsyncToolCallRuntimeRestarted {
            tool_call_id,
            completed_at_ms,
            ..
        } => Fields::new()
            .put("tool_call_id", string_value(tool_call_id.clone()))
            .put("completed_at_ms", signed_value(*completed_at_ms))
            .put("status", string_value("runtime_restarted".to_string()))
            .value(),
        SessionEvent::AsyncToolCallCallbackCompleted {
            tool_call_id,
            completed_at_ms,
            ..
        } => Fields::new()
            .put("tool_call_id", string_value(tool_call_id.clone()))
            .put("completed_at_ms", signed_value(*completed_at_ms))
            .put("status", string_value("completed".to_string()))
            .value(),
        SessionEvent::AsyncToolCallCallbackFailed {
            tool_call_id,
            completed_at_ms,
            ..
        } => Fields::new()
            .put("tool_call_id", string_value(tool_call_id.clone()))
            .put("completed_at_ms", signed_value(*completed_at_ms))
            .put("status", string_value("failed".to_string()))
            .value(),
        SessionEvent::AsyncToolCallProgress { tool_call_id, .. } => Fields::new()
            .put("tool_call_id", string_value(tool_call_id.clone()))
            .value(),
        SessionEvent::AsyncToolCallCompleted { tool_call_id, completed_at_ms, .. } => Fields::new()
            .put("tool_call_id", string_value(tool_call_id.clone()))
            .put("completed_at_ms", signed_value(*completed_at_ms))
            .put("status", string_value("completed".to_string()))
            .value(),
        SessionEvent::AsyncToolCallFailed { tool_call_id, error, completed_at_ms } => Fields::new()
            .put("tool_call_id", string_value(tool_call_id.clone()))
            .put("completed_at_ms", signed_value(*completed_at_ms))
            .put("status", string_value("failed".to_string()))
            .put("error", public_tool_error(error))
            .value(),
        SessionEvent::AsyncToolCallCancelled {
            tool_call_id,
            reason,
            completed_at_ms,
        } => Fields::new()
            .put("tool_call_id", string_value(tool_call_id.clone()))
            .put("completed_at_ms", signed_value(*completed_at_ms))
            .put("status", string_value("cancelled".to_string()))
            .put("reason", string_value(reason.clone()))
            .value(),
        _ => null_value(),
    }
}

fn kept_private(event: &SessionEvent) -> (kept: bool)
    ensures
        kept == is_private(event.deep_view()),
{
    match event {
        SessionEvent::ModelRequestPrepared { .. } => true,
        SessionEvent::ModelRequestDeclared { .. } => true,
        SessionEvent::ContextHandoffPlanned { .. } => true,
        SessionEvent::ModelAttemptStarted { .. } => true,
        SessionEvent::ModelRequestAbandoned { .. } => true,
        SessionEvent::ModelRequestCompleted { .. } => true,
        SessionEvent::WaitTimerScheduled { .. } => true,
        SessionEvent::AsyncToolCallCallbackPlanned { .. } => true,
        SessionEvent::DedupeRecorded { .. } => true,
        _ => false,
    }
}

fn told_kind_text(event: &SessionEvent) -> (kind: &'static str)
    ensures
        kind@ == told_kind(event.deep_view()),
{
    match event {
        SessionEvent::MessageAppended { message, .. } => {
            if message.role == TranscriptRole::Assistant && message.tool_calls.len() == 0 {
                "assistant_message_committed"
            } else {
                event.kind()
            }
        },
        SessionEvent::ModelAttemptsExhausted { .. } => "model_attempts_exhausted",
        SessionEvent::ModelStepRetryScheduled { .. } => "model_step_retrying",
        SessionEvent::ContextHandoffCreated { .. } => "context_handoff_created",
        SessionEvent::ContextHandoffFailed { .. } => "context_handoff_failed",
        SessionEvent::AsyncToolCallCallbackCompleted { .. } => "async_tool_call_completed",
        SessionEvent::AsyncToolCallCallbackFailed { .. } => "async_tool_call_failed",
        _ => event.kind(),
    }
}

/// An event as it is told.
#[derive(Clone, Debug, PartialEq)]
pub struct PublicEvent {
    pub id: String,
    pub session_id: String,
    pub version: u64,
    pub kind: &'static str,
    pub data: Value,
}

/// The content of a [`PublicEvent`].
pub struct PublicEventView {
    pub id: Seq<char>,
    pub session_id: Seq<char>,
    pub version: u64,
    pub kind: Seq<char>,
    pub data: JsonView,
}

impl DeepView for PublicEvent {
    type V = PublicEventView;

    open spec fn deep_view(&self) -> PublicEventView {
        PublicEventView {
            id: self.id@,
            session_id: self.session_id@,
            version: self.version,
            kind: self.kind@,
            data: json_view(self.data),
        }
    }
}

/// A stored event as it is told, if it is: under its position among all events.
pub open spec fn told_event(record: EventRecordView) -> Option<PublicEventView> {
    if is_private(record.event) {
        None
    } else {
        Some(
            PublicEventView {
                id: decimal(record.global_position as nat),
                session_id: record.stream_id,
                version: record.stream_version,
                kind: told_kind(record.event),
                data: event_json(record.event),
            },
        )
    }
}

/// A stored event as it is told, if it is.
pub fn public_event(record: &EventRecord) -> (public: Option<PublicEvent>)
    ensures
        public.deep_view() == told_event(record.deep_view()),
{
    if kept_private(&record.event) {
        return None;
    }
    Some(
        PublicEvent {
            id: decimal_text(record.global_position),
            session_id: record.stream_id.clone(),
            version: record.stream_version,
            kind: told_kind_text(&record.event),
            data: public_event_data(&record.event),
        },
    )
}

/// The body of an event that is told.
pub open spec fn event_body(event: PublicEventView) -> JsonView {
    JsonView::Object(
        fields().insert("schema"@, JsonView::Text("zode.event.v1"@)).insert(
            "id"@,
            JsonView::Text(event.id),
        ).insert("session_id"@, JsonView::Text(event.session_id)).insert(
            "version"@,
            JsonView::Integer(event.version as int),
        ).insert("kind"@, JsonView::Text(event.kind)).insert("data"@, event.data),
    )
}

impl PublicEvent {
    /// The body of the event.
    pub fn body(&self) -> (body: Value)
        ensures
            json_view(body) == event_body(self.deep_view()),
    {
        Fields::new().put("schema", string_value("zode.event.v1".to_string())).put(
            "id",
            string_value(self.id.clone()),
        ).put("session_id", string_value(self.session_id.clone())).put(
            "version",
            unsigned_value(self.version),
        ).put("kind", string_value(self.kind.to_string())).put("data", self.data.clone()).value()
    }
}

/// The body of the event that tells of a failure inside.
pub open spec fn failure_body() -> JsonView {
    JsonView::Object(
        fields().insert("schema"@, JsonView::Text("zode.event.v1"@)).insert(
            "error"@,
            JsonView::Object(
                fields().insert("code"@, JsonView::Text("internal_error"@)).insert(
                    "message"@,
                    JsonView::Text("internal server error"@),
                ).insert("retryable"@, JsonView::Bool(false)),
            ),
        ),
    )
}

/// The body of the event that tells of a failure inside.
pub fn internal_error_body() -> (body: Value)
    ensures
        json_view(body) == failure_body(),
{
    let error = Fields::new().put("code", string_value("internal_error".to_string())).put(
        "message",
        string_value("internal server error".to_string()),
    ).put("retryable", bool_value(false));
    Fields::new().put("schema", string_value("zode.event.v1".to_string())).put(
        "error",
        error.value(),
    ).value()
}

/// Text of a model that comes in while it answers. It is told and not stored.
#[derive(Clone, Debug, PartialEq)]
pub struct TransientModelEvent {
    pub session_id: String,
    pub activation_id: String,
    pub round_id: String,
    pub text: String,
}

/// The content of a [`TransientModelEvent`].
pub struct TransientModelEventView {
    pub session_id: Seq<char>,
    pub activation_id: Seq<char>,
    pub round_id: Seq<char>,
    pub text: Seq<char>,
}

impl DeepView for TransientModelEvent {
    type V = TransientModelEventView;

    open spec fn deep_view(&self) -> TransientModelEventView {
        TransientModelEventView {
            session_id: self.session_id@,
            activation_id: self.activation_id@,
            round_id: self.round_id@,
            text: self.text@,
        }
    }
}

/// The body of an event with text of a model.
pub open spec fn text_body(event: TransientModelEventView) -> JsonView {
    JsonView::Object(
        fields().insert("schema"@, JsonView::Text("zode.transient-event.v1"@)).insert(
            "session_id"@,
            JsonView::Text(event.session_id),
        ).insert("activation_id"@, JsonView::Text(event.activation_id)).insert(
            "round_id"@,
            JsonView::Text(event.round_id),
        ).insert("text"@, JsonView::Text(event.text)),
    )
}

impl TransientModelEvent {
    /// The body of the event.
    pub fn body(&self) -> (body: Value)
        ensures
            json_view(body) == text_body(self.deep_view()),
    {
        Fields::new().put("schema", string_value("zode.transient-event.v1".to_string())).put(
            "session_id",
            string_value(self.session_id.clone()),
        ).put("activation_id", string_value(self.activation_id.clone())).put(
            "round_id",
            string_value(self.round_id.clone()),
        ).put("text", string_value(self.text.clone())).value()
    }
}

/// Whether two events differ at most in what is not told: payloads, the inputs and results of
/// tools, what tools say of their errors, and the reasons of interruptions.
pub open spec fn differ_in_private(left: SessionEventView, right: SessionEventView) -> bool {
    match (left, right) {
        (
            SessionEventView::DeliveryQueued { delivery: a },
            SessionEventView::DeliveryQueued { delivery: b },
        ) => a == (QueuedDeliveryView {
            payload: a.payload,
            dedupe_key: a.dedupe_key,
            created_at_ms: a.created_at_ms,
            materialized_message_id: a.materialized_message_id,
            ..b
        }),
        (
            SessionEventView::AsyncToolCallProgress { tool_call_id: a, .. },
            SessionEventView::AsyncToolCallProgress { tool_call_id: b, .. },
        ) => a == b,
        (
            SessionEventView::AsyncToolCallCompleted { tool_call_id: a, completed_at_ms: s, .. },
            SessionEventView::AsyncToolCallCompleted { tool_call_id: b, completed_at_ms: t, .. },
        ) => a == b && s == t,
        (
            SessionEventView::AsyncToolCallCallbackCompleted {
                tool_call_id: a,
                completed_at_ms: s,
                ..
            },
            SessionEventView::AsyncToolCallCallbackCompleted {
                tool_call_id: b,
                completed_at_ms: t,
                ..
            },
        ) => a == b && s == t,
        (
            SessionEventView::AsyncToolCallCallbackFailed {
                tool_call_id: a,
                completed_at_ms: s,
                ..
            },
            SessionEventView::AsyncToolCallCallbackFailed {
                tool_call_id: b,
                completed_at_ms: t,
                ..
            },
        ) => a == b && s == t,
        (
            SessionEventView::AsyncToolCallFailed {
                tool_call_id: a,
                error: e,
                completed_at_ms: s,
            },
            SessionEventView::AsyncToolCallFailed {
                tool_call_id: b,
                error: f,
                completed_at_ms: t,
            },
        ) => a == b && s == t && told_tool_error(e.class) == told_tool_error(f.class),
        (
            SessionEventView::AsyncToolCallUnknownOutcome { tool_call_id: a, .. },
            SessionEventView::AsyncToolCallUnknownOutcome { tool_call_id: b, .. },
        ) => a == b,
        _ => left == right || (is_private(left) && is_private(right)),
    }
}

/// What is told of an event does not depend on what is private in it.
pub proof fn private_content_is_not_told(left: SessionEventView, right: SessionEventView)
    requires
        differ_in_private(left, right),
    ensures
        event_json(left) == event_json(right),
{
}

/// A private event is never told.
pub proof fn private_event_is_not_told(record: EventRecordView)
    ensures
        is_private(record.event) ==> told_event(record) is None,
        !is_private(record.event) ==> told_event(record) is Some,
{
}

} // verus!
