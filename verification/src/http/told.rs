//! What clients are told of sessions, tool calls and replicas: each fact under its own name, and
//! nothing else.

use crate::domain::event::SessionStatus;
use crate::domain::model::{
    ActivationOutcome, ActiveActivationView, ActiveModelRoundView, ContextHandoffDocumentView,
    ModelAttemptErrorClass, ModelAttemptErrorView, ModelAttemptOutcome, ModelAttemptRecordView,
    ModelAttemptsExhaustedFactView, ModelRequestFactView, ModelRequestPurpose,
    ModelRetryScheduleView,
};
use crate::domain::payload::{BlobRefView, DurablePayloadView};
use crate::domain::selection::{ModelLimits, SessionModelSelectionView};
use crate::domain::state::SessionStateView;
use crate::domain::tools::{AsyncToolCallRecordView, AsyncToolStatus, CompletionMode, ToolErrorView};
use crate::domain::transcript::{
    DeliveryKind, QueuedDeliveryView, ToolCallView, TranscriptMessageView, TranscriptRole,
};
use crate::domain::waits::{ActiveWaitView, WaitSource};
use crate::http::views::{
    activation_json, activation_outcome_name, attempt_json, attempt_outcome_name, blob_json,
    call_json, calls_json, completion_name, deliveries_json, delivery_json, delivery_kind_name,
    error_class_name, exhaustion_json, handoff_json, item_json, items_json, limits_json,
    message_json, messages_json, model_error_json, model_json, payload_json, purpose_name,
    reconciliation_json, replica_json, replicas_json, request_json, retry_json, role_name,
    round_json, session_json, session_status_name, texts_json, tool_actions, tool_error_json,
    tool_json, tool_status_name, tools_json, wait_json, wait_source_name, SessionListItemView,
};
use crate::json::{object_of, JsonView};
use crate::replicas::ReplicaMetadataView;
use vstd::prelude::*;
use vstd::string::*;

verus! {

/// What is told under a name, if something is.
pub open spec fn entry(told: JsonView, name: Seq<char>) -> Option<JsonView> {
    match told {
        JsonView::Object(entries) if entries.dom().contains(name) => Some(entries[name]),
        _ => None,
    }
}

/// The names under which something is told.
pub open spec fn told_keys(told: JsonView) -> Set<Seq<char>> {
    match told {
        JsonView::Object(entries) => entries.dom(),
        _ => Set::empty(),
    }
}

/// Whether something is told under these names and no others.
pub open spec fn tells_only(told: JsonView, names: Set<Seq<char>>) -> bool {
    told is Object && told_keys(told) =~= names
}

/// The status of a session has a name of its own: two that differ are told differently.
pub proof fn session_statuses_have_names(value: SessionStatus)
    ensures
        session_status_name(value) == "idle"@ <==> value == SessionStatus::Idle,
        session_status_name(value) == "active"@ <==> value == SessionStatus::Active,
{
    reveal_strlit("idle");
    assert("idle"@.len() == 4);
    reveal_strlit("active");
    assert("active"@.len() == 6);
}

/// A role has a name of its own: two that differ are told differently.
pub proof fn roles_have_names(value: TranscriptRole)
    ensures
        role_name(value) == "system"@ <==> value == TranscriptRole::System,
        role_name(value) == "user"@ <==> value == TranscriptRole::User,
        role_name(value) == "assistant"@ <==> value == TranscriptRole::Assistant,
        role_name(value) == "tool"@ <==> value == TranscriptRole::Tool,
        role_name(value) == "runtime"@ <==> value == TranscriptRole::Runtime,
{
    reveal_strlit("system");
    assert("system"@.len() == 6);
    reveal_strlit("user");
    assert("user"@.len() == 4);
    reveal_strlit("assistant");
    assert("assistant"@.len() == 9);
    reveal_strlit("tool");
    assert("tool"@.len() == 4);
    reveal_strlit("runtime");
    assert("runtime"@.len() == 7);
    assert("user"@[0] != "tool"@[0]);
}

/// A kind of delivery has a name of its own.
pub proof fn deliveries_have_names(value: DeliveryKind)
    ensures
        delivery_kind_name(value) == "user_input"@ <==> value == DeliveryKind::UserInput,
        delivery_kind_name(value) == "runtime_notification"@
            <==> value == DeliveryKind::RuntimeNotification,
{
    reveal_strlit("user_input");
    assert("user_input"@.len() == 10);
    reveal_strlit("runtime_notification");
    assert("runtime_notification"@.len() == 20);
}

/// What began a wait has a name of its own.
pub proof fn waits_have_names(value: WaitSource)
    ensures
        wait_source_name(value) == "wait_for"@ <==> value == WaitSource::WaitFor,
        wait_source_name(value) == "auto_tool_batch"@ <==> value == WaitSource::AutoToolBatch,
        wait_source_name(value) == "runtime"@ <==> value == WaitSource::Runtime,
{
    reveal_strlit("wait_for");
    assert("wait_for"@.len() == 8);
    reveal_strlit("auto_tool_batch");
    assert("auto_tool_batch"@.len() == 15);
    reveal_strlit("runtime");
    assert("runtime"@.len() == 7);
}

/// The status of a tool call has a name of its own: two that differ are told differently.
pub proof fn tool_statuses_have_names(value: AsyncToolStatus)
    ensures
        tool_status_name(value) == "planned"@ <==> value == AsyncToolStatus::Planned,
        tool_status_name(value) == "running"@ <==> value == AsyncToolStatus::Running,
        tool_status_name(value) == "unknown_outcome"@ <==> value == AsyncToolStatus::UnknownOutcome,
        tool_status_name(value) == "runtime_restarted"@
            <==> value == AsyncToolStatus::RuntimeRestarted,
        tool_status_name(value) == "completed"@ <==> value == AsyncToolStatus::Completed,
        tool_status_name(value) == "failed"@ <==> value == AsyncToolStatus::Failed,
        tool_status_name(value) == "cancelled"@ <==> value == AsyncToolStatus::Cancelled,
{
    reveal_strlit("planned");
    assert("planned"@.len() == 7);
    reveal_strlit("running");
    assert("running"@.len() == 7);
    reveal_strlit("unknown_outcome");
    assert("unknown_outcome"@.len() == 15);
    reveal_strlit("runtime_restarted");
    assert("runtime_restarted"@.len() == 17);
    reveal_strlit("completed");
    assert("completed"@.len() == 9);
    reveal_strlit("failed");
    assert("failed"@.len() == 6);
    reveal_strlit("cancelled");
    assert("cancelled"@.len() == 9);
    assert("planned"@[0] != "running"@[0]);
    assert("completed"@[1] != "cancelled"@[1]);
}

/// What a request is for has a name of its own.
pub proof fn purposes_have_names(value: ModelRequestPurpose)
    ensures
        purpose_name(value) == "conversation"@ <==> value == ModelRequestPurpose::Conversation,
        purpose_name(value) == "context_handoff"@ <==> value == ModelRequestPurpose::ContextHandoff,
{
    reveal_strlit("conversation");
    assert("conversation"@.len() == 12);
    reveal_strlit("context_handoff");
    assert("context_handoff"@.len() == 15);
}

/// The outcome of an attempt has a name of its own.
pub proof fn attempts_have_names(value: ModelAttemptOutcome)
    ensures
        attempt_outcome_name(value) == "running"@ <==> value == ModelAttemptOutcome::Running,
        attempt_outcome_name(value) == "failed"@ <==> value == ModelAttemptOutcome::Failed,
        attempt_outcome_name(value) == "interrupted"@
            <==> value == ModelAttemptOutcome::Interrupted,
        attempt_outcome_name(value) == "completed"@ <==> value == ModelAttemptOutcome::Completed,
{
    reveal_strlit("running");
    assert("running"@.len() == 7);
    reveal_strlit("failed");
    assert("failed"@.len() == 6);
    reveal_strlit("interrupted");
    assert("interrupted"@.len() == 11);
    reveal_strlit("completed");
    assert("completed"@.len() == 9);
}

/// The outcome of an activation has a name of its own.
pub proof fn activations_have_names(value: ActivationOutcome)
    ensures
        activation_outcome_name(value) == "finished"@ <==> value == ActivationOutcome::Finished,
        activation_outcome_name(value) == "wait"@ <==> value == ActivationOutcome::Wait,
        activation_outcome_name(value) == "failed"@ <==> value == ActivationOutcome::Failed,
        activation_outcome_name(value) == "interrupted"@
            <==> value == ActivationOutcome::Interrupted,
{
    reveal_strlit("finished");
    assert("finished"@.len() == 8);
    reveal_strlit("wait");
    assert("wait"@.len() == 4);
    reveal_strlit("failed");
    assert("failed"@.len() == 6);
    reveal_strlit("interrupted");
    assert("interrupted"@.len() == 11);
}

/// A kind of model failure has a name of its own.
pub proof fn failures_have_names(value: ModelAttemptErrorClass)
    ensures
        error_class_name(value) == "auth_replica_unavailable"@
            <==> value == ModelAttemptErrorClass::AuthReplicaUnavailable,
        error_class_name(value) == "invalid_tool_arguments"@
            <==> value == ModelAttemptErrorClass::InvalidToolArguments,
        error_class_name(value) == "context_handoff_failed"@
            <==> value == ModelAttemptErrorClass::ContextHandoffFailed,
{
    reveal_strlit("auth_replica_unavailable");
    assert("auth_replica_unavailable"@.len() == 24);
    reveal_strlit("invalid_tool_arguments");
    assert("invalid_tool_arguments"@.len() == 22);
    reveal_strlit("context_handoff_failed");
    assert("context_handoff_failed"@.len() == 22);
    assert("invalid_tool_arguments"@[0] != "context_handoff_failed"@[0]);
}

/// The way in which a tool ends has a name of its own.
pub proof fn completions_have_names(value: CompletionMode)
    ensures
        completion_name(value) == "response"@ <==> value == CompletionMode::ProcessLocal,
        completion_name(value) == "external_callback"@
            <==> value == CompletionMode::ExternalCallback,
{
    reveal_strlit("response");
    assert("response"@.len() == 8);
    reveal_strlit("external_callback");
    assert("external_callback"@.len() == 17);
}

/// Of a selected model its provider, its execution and its ids are told, and of its credential the
/// ids alone.
pub proof fn selected_model_is_told(model: SessionModelSelectionView)
    ensures
        ({
            let told = model_json(model);
            &&& tells_only(told, set!["provider"@, "provider_execution_schema"@,
                "provider_execution_revision"@, "provider_execution_kind"@,
                "provider_execution_base_url"@, "provider_execution_options"@, "model"@, "limits"@,
                "auth_authority_id"@, "auth_profile_id"@, "auth_revision"@])
            &&& entry(told, "provider"@) == Some(JsonView::Text(model.provider))
            &&& entry(told, "provider_execution_schema"@)
                == Some(JsonView::Text(model.provider_execution.schema))
            &&& entry(told, "provider_execution_revision"@)
                == Some(JsonView::Integer(model.provider_execution.revision as int))
            &&& entry(told, "provider_execution_kind"@)
                == Some(JsonView::Text(model.provider_execution.kind))
            &&& entry(told, "provider_execution_base_url"@)
                == Some(JsonView::Text(model.provider_execution.base_url))
            &&& entry(told, "provider_execution_options"@)
                == Some(JsonView::Object(object_of(model.provider_execution.options)))
            &&& entry(told, "model"@) == Some(JsonView::Text(model.model))
            &&& entry(told, "limits"@) == Some(limits_json(model.limits))
            &&& entry(told, "auth_authority_id"@) == Some(JsonView::Text(model.auth_authority_id))
            &&& entry(told, "auth_profile_id"@) == Some(JsonView::Text(model.auth_profile_id))
            &&& entry(told, "auth_revision"@) == Some(JsonView::Integer(model.auth_revision as int))
        }),
{
    reveal_strlit("provider");
    assert("provider"@.len() == 8);
    reveal_strlit("provider_execution_schema");
    assert("provider_execution_schema"@.len() == 25);
    reveal_strlit("provider_execution_revision");
    assert("provider_execution_revision"@.len() == 27);
    reveal_strlit("provider_execution_kind");
    assert("provider_execution_kind"@.len() == 23);
    reveal_strlit("provider_execution_base_url");
    assert("provider_execution_base_url"@.len() == 27);
    reveal_strlit("provider_execution_options");
    assert("provider_execution_options"@.len() == 26);
    reveal_strlit("model");
    assert("model"@.len() == 5);
    reveal_strlit("limits");
    assert("limits"@.len() == 6);
    reveal_strlit("auth_authority_id");
    assert("auth_authority_id"@.len() == 17);
    reveal_strlit("auth_profile_id");
    assert("auth_profile_id"@.len() == 15);
    reveal_strlit("auth_revision");
    assert("auth_revision"@.len() == 13);
    assert("provider_execution_revision"@[19] != "provider_execution_base_url"@[19]);
    assert(told_keys(model_json(model)) =~= set!["provider"@, "provider_execution_schema"@,
        "provider_execution_revision"@, "provider_execution_kind"@, "provider_execution_base_url"@,
        "provider_execution_options"@, "model"@, "limits"@, "auth_authority_id"@,
        "auth_profile_id"@, "auth_revision"@]);
}

/// Of a declared call its id and its tool are told, and not its input.
pub proof fn declared_call_is_told(call: ToolCallView)
    ensures
        ({
            let told = call_json(call);
            &&& tells_only(told, set!["tool_call_id"@, "tool_name"@])
            &&& entry(told, "tool_call_id"@) == Some(JsonView::Text(call.tool_call_id))
            &&& entry(told, "tool_name"@) == Some(JsonView::Text(call.tool_name))
        }),
{
    reveal_strlit("tool_call_id");
    assert("tool_call_id"@.len() == 12);
    reveal_strlit("tool_name");
    assert("tool_name"@.len() == 9);
    assert(told_keys(call_json(call)) =~= set!["tool_call_id"@, "tool_name"@]);
}

/// Of a message its id, its role, its words, the call that it answers and those that it declares
/// are told.
pub proof fn message_is_told(message: TranscriptMessageView)
    ensures
        ({
            let told = message_json(message);
            &&& tells_only(told, set!["message_id"@, "role"@, "content"@, "tool_call_id"@,
                "tool_calls"@])
            &&& entry(told, "message_id"@) == Some(JsonView::Text(message.message_id))
            &&& message.role == TranscriptRole::System
                <==> entry(told, "role"@) == Some(JsonView::Text("system"@))
            &&& message.role == TranscriptRole::User
                <==> entry(told, "role"@) == Some(JsonView::Text("user"@))
            &&& message.role == TranscriptRole::Assistant
                <==> entry(told, "role"@) == Some(JsonView::Text("assistant"@))
            &&& message.role == TranscriptRole::Tool
                <==> entry(told, "role"@) == Some(JsonView::Text("tool"@))
            &&& message.role == TranscriptRole::Runtime
                <==> entry(told, "role"@) == Some(JsonView::Text("runtime"@))
            &&& entry(told, "content"@) == Some(JsonView::Text(message.content))
            &&& message.tool_call_id matches Some(held)
                ==> entry(told, "tool_call_id"@) == Some(JsonView::Text(held))
            &&& message.tool_call_id is None
                ==> entry(told, "tool_call_id"@) == Some(JsonView::Null)
            &&& entry(told, "tool_calls"@) == Some(calls_json(message.tool_calls))
        }),
{
    roles_have_names(message.role);
    reveal_strlit("message_id");
    assert("message_id"@.len() == 10);
    reveal_strlit("role");
    assert("role"@.len() == 4);
    reveal_strlit("content");
    assert("content"@.len() == 7);
    reveal_strlit("tool_call_id");
    assert("tool_call_id"@.len() == 12);
    reveal_strlit("tool_calls");
    assert("tool_calls"@.len() == 10);
    assert("message_id"@[0] != "tool_calls"@[0]);
    assert(told_keys(message_json(message)) =~= set!["message_id"@, "role"@, "content"@,
        "tool_call_id"@, "tool_calls"@]);
}

/// All of a wait is told.
pub proof fn wait_is_told(wait: ActiveWaitView)
    ensures
        ({
            let told = wait_json(wait);
            &&& tells_only(told, set!["wait_id"@, "reason"@, "timeout_seconds"@, "deadline_ms"@,
                "source"@, "tool_call_ids"@])
            &&& entry(told, "wait_id"@) == Some(JsonView::Text(wait.wait_id))
            &&& entry(told, "reason"@) == Some(JsonView::Text(wait.reason))
            &&& entry(told, "timeout_seconds"@)
                == Some(JsonView::Integer(wait.timeout_seconds as int))
            &&& entry(told, "deadline_ms"@) == Some(JsonView::Integer(wait.deadline_ms as int))
            &&& wait.source == WaitSource::WaitFor
                <==> entry(told, "source"@) == Some(JsonView::Text("wait_for"@))
            &&& wait.source == WaitSource::AutoToolBatch
                <==> entry(told, "source"@) == Some(JsonView::Text("auto_tool_batch"@))
            &&& wait.source == WaitSource::Runtime
                <==> entry(told, "source"@) == Some(JsonView::Text("runtime"@))
            &&& entry(told, "tool_call_ids"@) == Some(texts_json(wait.tool_call_ids))
        }),
{
    waits_have_names(wait.source);
    reveal_strlit("wait_id");
    assert("wait_id"@.len() == 7);
    reveal_strlit("reason");
    assert("reason"@.len() == 6);
    reveal_strlit("timeout_seconds");
    assert("timeout_seconds"@.len() == 15);
    reveal_strlit("deadline_ms");
    assert("deadline_ms"@.len() == 11);
    reveal_strlit("source");
    assert("source"@.len() == 6);
    reveal_strlit("tool_call_ids");
    assert("tool_call_ids"@.len() == 13);
    assert("reason"@[0] != "source"@[0]);
    assert(told_keys(wait_json(wait)) =~= set!["wait_id"@, "reason"@, "timeout_seconds"@,
        "deadline_ms"@, "source"@, "tool_call_ids"@]);
}

/// Of a blob its id, its type and its length are told.
pub proof fn blob_is_told(blob: BlobRefView)
    ensures
        ({
            let told = blob_json(blob);
            &&& tells_only(told, set!["id"@, "media_type"@, "bytes"@])
            &&& entry(told, "id"@) == Some(JsonView::Text(blob.blob_id))
            &&& blob.media_type matches Some(held)
                ==> entry(told, "media_type"@) == Some(JsonView::Text(held))
            &&& blob.media_type is None ==> entry(told, "media_type"@) == Some(JsonView::Null)
            &&& entry(told, "bytes"@) == Some(JsonView::Integer(blob.byte_len as int))
        }),
{
    reveal_strlit("id");
    assert("id"@.len() == 2);
    reveal_strlit("media_type");
    assert("media_type"@.len() == 10);
    reveal_strlit("bytes");
    assert("bytes"@.len() == 5);
    assert(told_keys(blob_json(blob)) =~= set!["id"@, "media_type"@, "bytes"@]);
}

/// Of an activation its id, its selection and its terms are told.
pub proof fn activation_is_told(activation: ActiveActivationView)
    ensures
        ({
            let told = activation_json(activation);
            &&& tells_only(told, set!["activation_id"@, "selection_version"@,
                "minimum_auth_revision"@, "started_at_ms"@, "model"@, "tools"@])
            &&& entry(told, "activation_id"@) == Some(JsonView::Text(activation.activation_id))
            &&& entry(told, "selection_version"@)
                == Some(JsonView::Integer(activation.selection_version as int))
            &&& entry(told, "minimum_auth_revision"@)
                == Some(JsonView::Integer(activation.minimum_auth_revision as int))
            &&& entry(told, "started_at_ms"@)
                == Some(JsonView::Integer(activation.started_at_ms as int))
            &&& activation.selection.model matches Some(held)
                ==> entry(told, "model"@) == Some(model_json(held))
            &&& activation.selection.model is None ==> entry(told, "model"@) == Some(JsonView::Null)
            &&& entry(told, "tools"@) == Some(texts_json(activation.selection.tools))
        }),
{
    reveal_strlit("activation_id");
    assert("activation_id"@.len() == 13);
    reveal_strlit("selection_version");
    assert("selection_version"@.len() == 17);
    reveal_strlit("minimum_auth_revision");
    assert("minimum_auth_revision"@.len() == 21);
    reveal_strlit("started_at_ms");
    assert("started_at_ms"@.len() == 13);
    reveal_strlit("model");
    assert("model"@.len() == 5);
    reveal_strlit("tools");
    assert("tools"@.len() == 5);
    assert("activation_id"@[0] != "started_at_ms"@[0]);
    assert("model"@[0] != "tools"@[0]);
    assert(told_keys(activation_json(activation)) =~= set!["activation_id"@, "selection_version"@,
        "minimum_auth_revision"@, "started_at_ms"@, "model"@, "tools"@]);
}

/// Of a request its id and its terms are told, and none of its fingerprints.
pub proof fn request_is_told(request: ModelRequestFactView)
    ensures
        ({
            let told = request_json(request);
            &&& tells_only(told, set!["request_id"@, "maximum_attempts"@, "minimum_auth_revision"@])
            &&& entry(told, "request_id"@) == Some(JsonView::Text(request.request_id))
            &&& entry(told, "maximum_attempts"@)
                == Some(JsonView::Integer(request.maximum_attempts as int))
            &&& entry(told, "minimum_auth_revision"@)
                == Some(JsonView::Integer(request.minimum_auth_revision as int))
        }),
{
    reveal_strlit("request_id");
    assert("request_id"@.len() == 10);
    reveal_strlit("maximum_attempts");
    assert("maximum_attempts"@.len() == 16);
    reveal_strlit("minimum_auth_revision");
    assert("minimum_auth_revision"@.len() == 21);
    assert(told_keys(request_json(request)) =~= set!["request_id"@, "maximum_attempts"@,
        "minimum_auth_revision"@]);
}

/// Of an attempt its id, its number, its credential and its outcome are told.
pub proof fn attempt_is_told(attempt: ModelAttemptRecordView)
    ensures
        ({
            let told = attempt_json(attempt);
            &&& tells_only(told, set!["attempt_id"@, "attempt_number"@, "auth_revision"@,
                "outcome"@])
            &&& entry(told, "attempt_id"@) == Some(JsonView::Text(attempt.attempt_id))
            &&& entry(told, "attempt_number"@)
                == Some(JsonView::Integer(attempt.attempt_number as int))
            &&& entry(told, "auth_revision"@)
                == Some(JsonView::Integer(attempt.auth_revision as int))
            &&& attempt.outcome == ModelAttemptOutcome::Running
                <==> entry(told, "outcome"@) == Some(JsonView::Text("running"@))
            &&& attempt.outcome == ModelAttemptOutcome::Failed
                <==> entry(told, "outcome"@) == Some(JsonView::Text("failed"@))
            &&& attempt.outcome == ModelAttemptOutcome::Interrupted
                <==> entry(told, "outcome"@) == Some(JsonView::Text("interrupted"@))
            &&& attempt.outcome == ModelAttemptOutcome::Completed
                <==> entry(told, "outcome"@) == Some(JsonView::Text("completed"@))
        }),
{
    attempts_have_names(attempt.outcome);
    reveal_strlit("attempt_id");
    assert("attempt_id"@.len() == 10);
    reveal_strlit("attempt_number");
    assert("attempt_number"@.len() == 14);
    reveal_strlit("auth_revision");
    assert("auth_revision"@.len() == 13);
    reveal_strlit("outcome");
    assert("outcome"@.len() == 7);
    assert(told_keys(attempt_json(attempt)) =~= set!["attempt_id"@, "attempt_number"@,
        "auth_revision"@, "outcome"@]);
}

/// Of a retry the attempts, the delay and the reason are told.
pub proof fn retry_is_told(retry: ModelRetryScheduleView)
    ensures
        ({
            let told = retry_json(retry);
            &&& tells_only(told, set!["failed_attempt_number"@, "next_attempt_number"@, "delay_ms"@,
                "maximum_attempts"@, "error_class"@])
            &&& entry(told, "failed_attempt_number"@)
                == Some(JsonView::Integer(retry.failed_attempt_number as int))
            &&& entry(told, "next_attempt_number"@)
                == Some(JsonView::Integer(retry.next_attempt_number as int))
            &&& entry(told, "delay_ms"@) == Some(JsonView::Integer(retry.delay_ms as int))
            &&& entry(told, "maximum_attempts"@)
                == Some(JsonView::Integer(retry.maximum_attempts as int))
            &&& entry(told, "error_class"@) == Some(JsonView::Text(retry.error_class))
        }),
{
    reveal_strlit("failed_attempt_number");
    assert("failed_attempt_number"@.len() == 21);
    reveal_strlit("next_attempt_number");
    assert("next_attempt_number"@.len() == 19);
    reveal_strlit("delay_ms");
    assert("delay_ms"@.len() == 8);
    reveal_strlit("maximum_attempts");
    assert("maximum_attempts"@.len() == 16);
    reveal_strlit("error_class");
    assert("error_class"@.len() == 11);
    assert(told_keys(retry_json(retry)) =~= set!["failed_attempt_number"@, "next_attempt_number"@,
        "delay_ms"@, "maximum_attempts"@, "error_class"@]);
}

/// Of a round its ids, its purpose and how far it is are told.
pub proof fn round_is_told(round: ActiveModelRoundView)
    ensures
        ({
            let told = round_json(round);
            &&& tells_only(told, set!["activation_id"@, "round_id"@, "purpose"@,
                "delivery_through_queue_id"@, "request"@, "attempt"@, "retry"@])
            &&& entry(told, "activation_id"@) == Some(JsonView::Text(round.activation_id))
            &&& entry(told, "round_id"@) == Some(JsonView::Text(round.round_id))
            &&& round.purpose == ModelRequestPurpose::Conversation
                <==> entry(told, "purpose"@) == Some(JsonView::Text("conversation"@))
            &&& round.purpose == ModelRequestPurpose::ContextHandoff
                <==> entry(told, "purpose"@) == Some(JsonView::Text("context_handoff"@))
            &&& entry(told, "delivery_through_queue_id"@)
                == Some(JsonView::Integer(round.delivery_through_queue_id as int))
            &&& round.request matches Some(held)
                ==> entry(told, "request"@) == Some(request_json(held))
            &&& round.request is None ==> entry(told, "request"@) == Some(JsonView::Null)
            &&& round.attempt matches Some(held)
                ==> entry(told, "attempt"@) == Some(attempt_json(held))
            &&& round.attempt is None ==> entry(told, "attempt"@) == Some(JsonView::Null)
            &&& round.retry matches Some(held) ==> entry(told, "retry"@) == Some(retry_json(held))
            &&& round.retry is None ==> entry(told, "retry"@) == Some(JsonView::Null)
        }),
{
    purposes_have_names(round.purpose);
    reveal_strlit("activation_id");
    assert("activation_id"@.len() == 13);
    reveal_strlit("round_id");
    assert("round_id"@.len() == 8);
    reveal_strlit("purpose");
    assert("purpose"@.len() == 7);
    reveal_strlit("delivery_through_queue_id");
    assert("delivery_through_queue_id"@.len() == 25);
    reveal_strlit("request");
    assert("request"@.len() == 7);
    reveal_strlit("attempt");
    assert("attempt"@.len() == 7);
    reveal_strlit("retry");
    assert("retry"@.len() == 5);
    assert("purpose"@[0] != "request"@[0]);
    assert("purpose"@[0] != "attempt"@[0]);
    assert("request"@[0] != "attempt"@[0]);
    assert(told_keys(round_json(round)) =~= set!["activation_id"@, "round_id"@, "purpose"@,
        "delivery_through_queue_id"@, "request"@, "attempt"@, "retry"@]);
}

/// That the attempts are used up is told with the attempt and its time.
pub proof fn exhaustion_is_told(fact: ModelAttemptsExhaustedFactView)
    ensures
        ({
            let told = exhaustion_json(fact);
            &&& tells_only(told, set!["activation_id"@, "round_id"@, "attempt_number"@,
                "maximum_attempts"@, "finished_at_ms"@, "reason"@])
            &&& entry(told, "activation_id"@) == Some(JsonView::Text(fact.activation_id))
            &&& entry(told, "round_id"@) == Some(JsonView::Text(fact.round_id))
            &&& entry(told, "attempt_number"@)
                == Some(JsonView::Integer(fact.attempt_number as int))
            &&& entry(told, "maximum_attempts"@)
                == Some(JsonView::Integer(fact.maximum_attempts as int))
            &&& entry(told, "finished_at_ms"@)
                == Some(JsonView::Integer(fact.finished_at_ms as int))
            &&& entry(told, "reason"@) == Some(JsonView::Text("model_attempts_exhausted"@))
        }),
{
    reveal_strlit("activation_id");
    assert("activation_id"@.len() == 13);
    reveal_strlit("round_id");
    assert("round_id"@.len() == 8);
    reveal_strlit("attempt_number");
    assert("attempt_number"@.len() == 14);
    reveal_strlit("maximum_attempts");
    assert("maximum_attempts"@.len() == 16);
    reveal_strlit("finished_at_ms");
    assert("finished_at_ms"@.len() == 14);
    reveal_strlit("reason");
    assert("reason"@.len() == 6);
    assert("attempt_number"@[0] != "finished_at_ms"@[0]);
    assert(told_keys(exhaustion_json(fact)) =~= set!["activation_id"@, "round_id"@,
        "attempt_number"@, "maximum_attempts"@, "finished_at_ms"@, "reason"@]);
}

/// Of a handoff its ids, its generation and its tokens are told, and not the document.
pub proof fn handoff_is_told(handoff: ContextHandoffDocumentView)
    ensures
        ({
            let told = handoff_json(handoff);
            &&& tells_only(told, set!["handoff_id"@, "previous_handoff_id"@, "generation"@,
                "covered_through_message_id"@, "source_tokens"@, "document_tokens"@,
                "token_accounting_version"@])
            &&& entry(told, "handoff_id"@) == Some(JsonView::Text(handoff.handoff_id))
            &&& handoff.previous_handoff_id matches Some(held)
                ==> entry(told, "previous_handoff_id"@) == Some(JsonView::Text(held))
            &&& handoff.previous_handoff_id is None
                ==> entry(told, "previous_handoff_id"@) == Some(JsonView::Null)
            &&& entry(told, "generation"@) == Some(
                JsonView::Integer(handoff.next_generation as int))
            &&& entry(told, "covered_through_message_id"@)
                == Some(JsonView::Text(handoff.covered_through_message_id))
            &&& entry(told, "source_tokens"@)
                == Some(JsonView::Integer(handoff.source_tokens as int))
            &&& entry(told, "document_tokens"@)
                == Some(JsonView::Integer(handoff.document_tokens as int))
            &&& entry(told, "token_accounting_version"@)
                == Some(JsonView::Integer(handoff.token_accounting_version as int))
        }),
{
    reveal_strlit("handoff_id");
    assert("handoff_id"@.len() == 10);
    reveal_strlit("previous_handoff_id");
    assert("previous_handoff_id"@.len() == 19);
    reveal_strlit("generation");
    assert("generation"@.len() == 10);
    reveal_strlit("covered_through_message_id");
    assert("covered_through_message_id"@.len() == 26);
    reveal_strlit("source_tokens");
    assert("source_tokens"@.len() == 13);
    reveal_strlit("document_tokens");
    assert("document_tokens"@.len() == 15);
    reveal_strlit("token_accounting_version");
    assert("token_accounting_version"@.len() == 24);
    assert("handoff_id"@[0] != "generation"@[0]);
    assert(told_keys(handoff_json(handoff)) =~= set!["handoff_id"@, "previous_handoff_id"@,
        "generation"@, "covered_through_message_id"@, "source_tokens"@, "document_tokens"@,
        "token_accounting_version"@]);
}

/// Of a delivery its place, its kind and what becomes of it are told, and not what it carries.
pub proof fn delivery_is_told(delivery: QueuedDeliveryView)
    ensures
        ({
            let told = delivery_json(delivery);
            &&& tells_only(told, set!["queue_id"@, "delivery_id"@, "kind"@, "wake"@,
                "source_tool_call_id"@, "materialized_message_id"@])
            &&& entry(told, "queue_id"@) == Some(JsonView::Integer(delivery.queue_id as int))
            &&& entry(told, "delivery_id"@) == Some(JsonView::Text(delivery.delivery_id))
            &&& delivery.kind == DeliveryKind::UserInput
                <==> entry(told, "kind"@) == Some(JsonView::Text("user_input"@))
            &&& delivery.kind == DeliveryKind::RuntimeNotification
                <==> entry(told, "kind"@) == Some(JsonView::Text("runtime_notification"@))
            &&& entry(told, "wake"@) == Some(JsonView::Bool(delivery.wake))
            &&& delivery.source_tool_call_id matches Some(held)
                ==> entry(told, "source_tool_call_id"@) == Some(JsonView::Text(held))
            &&& delivery.source_tool_call_id is None
                ==> entry(told, "source_tool_call_id"@) == Some(JsonView::Null)
            &&& delivery.materialized_message_id matches Some(held)
                ==> entry(told, "materialized_message_id"@) == Some(JsonView::Text(held))
            &&& delivery.materialized_message_id is None
                ==> entry(told, "materialized_message_id"@) == Some(JsonView::Null)
        }),
{
    deliveries_have_names(delivery.kind);
    reveal_strlit("queue_id");
    assert("queue_id"@.len() == 8);
    reveal_strlit("delivery_id");
    assert("delivery_id"@.len() == 11);
    reveal_strlit("kind");
    assert("kind"@.len() == 4);
    reveal_strlit("wake");
    assert("wake"@.len() == 4);
    reveal_strlit("source_tool_call_id");
    assert("source_tool_call_id"@.len() == 19);
    reveal_strlit("materialized_message_id");
    assert("materialized_message_id"@.len() == 23);
    assert("kind"@[0] != "wake"@[0]);
    assert(told_keys(delivery_json(delivery)) =~= set!["queue_id"@, "delivery_id"@, "kind"@,
        "wake"@, "source_tool_call_id"@, "materialized_message_id"@]);
}

/// Of the failure of a model its kind and its words are told.
pub proof fn model_failure_is_told(error: ModelAttemptErrorView)
    ensures
        ({
            let told = model_error_json(error);
            &&& tells_only(told, set!["class"@, "message"@])
            &&& error.class == ModelAttemptErrorClass::AuthReplicaUnavailable
                <==> entry(told, "class"@) == Some(JsonView::Text("auth_replica_unavailable"@))
            &&& error.class == ModelAttemptErrorClass::InvalidToolArguments
                <==> entry(told, "class"@) == Some(JsonView::Text("invalid_tool_arguments"@))
            &&& error.class == ModelAttemptErrorClass::ContextHandoffFailed
                <==> entry(told, "class"@) == Some(JsonView::Text("context_handoff_failed"@))
            &&& entry(told, "message"@) == Some(JsonView::Text(error.message))
        }),
{
    failures_have_names(error.class);
    reveal_strlit("class");
    assert("class"@.len() == 5);
    reveal_strlit("message");
    assert("message"@.len() == 7);
    assert(told_keys(model_error_json(error)) =~= set!["class"@, "message"@]);
}

/// Of a session its id, its version, its status and all that it holds are told, each under its own
/// name.
pub proof fn session_is_told(state: SessionStateView)
    ensures
        ({
            let told = session_json(state);
            &&& tells_only(told, set!["schema"@, "session_id"@, "version"@, "status"@, "model"@,
                "transcript"@, "delivery"@, "wait"@, "tool_calls"@, "active_activation"@,
                "active_model_round"@, "last_model_attempts_exhausted"@, "context_handoff"@])
            &&& entry(told, "schema"@) == Some(JsonView::Text("zode.session.v1"@))
            &&& entry(told, "session_id"@) == Some(JsonView::Text(state.session_id))
            &&& entry(told, "version"@) == Some(JsonView::Integer(state.stream_version as int))
            &&& state.status == SessionStatus::Idle
                <==> entry(told, "status"@) == Some(JsonView::Text("idle"@))
            &&& state.status == SessionStatus::Active
                <==> entry(told, "status"@) == Some(JsonView::Text("active"@))
            &&& state.selection.model matches Some(held)
                ==> entry(told, "model"@) == Some(model_json(held))
            &&& state.selection.model is None ==> entry(told, "model"@) == Some(JsonView::Null)
            &&& entry(told, "transcript"@) == Some(messages_json(state.transcript))
            &&& entry(told, "delivery"@) matches Some(inner) && {
&&& tells_only(inner, set!["acknowledged_through"@, "pending"@])
&&& entry(inner, "acknowledged_through"@) == Some(JsonView::Integer(state.delivery_ack as int))
&&& entry(inner, "pending"@) == Some(deliveries_json(state.delivery_queue))
}
            &&& state.active_wait matches Some(held)
                ==> entry(told, "wait"@) == Some(wait_json(held))
            &&& state.active_wait is None ==> entry(told, "wait"@) == Some(JsonView::Null)
            &&& entry(told, "tool_calls"@) == Some(tools_json(state.async_tool_calls))
            &&& state.active_activation matches Some(held)
                ==> entry(told, "active_activation"@) == Some(activation_json(held))
            &&& state.active_activation is None
                ==> entry(told, "active_activation"@) == Some(JsonView::Null)
            &&& state.active_model_round matches Some(held)
                ==> entry(told, "active_model_round"@) == Some(round_json(held))
            &&& state.active_model_round is None
                ==> entry(told, "active_model_round"@) == Some(JsonView::Null)
            &&& state.last_model_attempts_exhausted matches Some(held)
                ==> entry(told, "last_model_attempts_exhausted"@) == Some(exhaustion_json(held))
            &&& state.last_model_attempts_exhausted is None
                ==> entry(told, "last_model_attempts_exhausted"@) == Some(JsonView::Null)
            &&& state.latest_context_handoff matches Some(held)
                ==> entry(told, "context_handoff"@) == Some(handoff_json(held))
            &&& state.latest_context_handoff is None
                ==> entry(told, "context_handoff"@) == Some(JsonView::Null)
        }),
{
    session_statuses_have_names(state.status);
    reveal_strlit("schema");
    assert("schema"@.len() == 6);
    reveal_strlit("session_id");
    assert("session_id"@.len() == 10);
    reveal_strlit("version");
    assert("version"@.len() == 7);
    reveal_strlit("status");
    assert("status"@.len() == 6);
    reveal_strlit("model");
    assert("model"@.len() == 5);
    reveal_strlit("transcript");
    assert("transcript"@.len() == 10);
    reveal_strlit("delivery");
    assert("delivery"@.len() == 8);
    reveal_strlit("wait");
    assert("wait"@.len() == 4);
    reveal_strlit("tool_calls");
    assert("tool_calls"@.len() == 10);
    reveal_strlit("active_activation");
    assert("active_activation"@.len() == 17);
    reveal_strlit("active_model_round");
    assert("active_model_round"@.len() == 18);
    reveal_strlit("last_model_attempts_exhausted");
    assert("last_model_attempts_exhausted"@.len() == 29);
    reveal_strlit("context_handoff");
    assert("context_handoff"@.len() == 15);
    assert("schema"@[1] != "status"@[1]);
    assert("session_id"@[0] != "transcript"@[0]);
    assert("session_id"@[0] != "tool_calls"@[0]);
    assert("transcript"@[1] != "tool_calls"@[1]);
    reveal_strlit("acknowledged_through");
    assert("acknowledged_through"@.len() == 20);
    reveal_strlit("pending");
    assert("pending"@.len() == 7);
    assert(told_keys(session_json(state)) =~= set!["schema"@, "session_id"@, "version"@, "status"@,
        "model"@, "transcript"@, "delivery"@, "wait"@, "tool_calls"@, "active_activation"@,
        "active_model_round"@, "last_model_attempts_exhausted"@, "context_handoff"@]);
}

/// Of a replica its ids, its revision, its expiry and its status are told, and not the secret.
pub proof fn replica_is_told(metadata: ReplicaMetadataView)
    ensures
        ({
            let told = replica_json(metadata);
            &&& tells_only(told, set!["schema"@, "authority_id"@, "auth_profile_id"@, "provider"@,
                "revision"@, "expires_at_ms"@, "status"@])
            &&& entry(told, "schema"@) == Some(JsonView::Text("zode.auth-replica.v1"@))
            &&& entry(told, "authority_id"@) == Some(JsonView::Text(metadata.authority_id))
            &&& entry(told, "auth_profile_id"@) == Some(JsonView::Text(metadata.profile_id))
            &&& entry(told, "provider"@) == Some(JsonView::Text(metadata.provider))
            &&& entry(told, "revision"@) == Some(JsonView::Integer(metadata.revision as int))
            &&& metadata.expires_at_ms matches Some(held)
                ==> entry(told, "expires_at_ms"@) == Some(JsonView::Integer(held as int))
            &&& metadata.expires_at_ms is None
                ==> entry(told, "expires_at_ms"@) == Some(JsonView::Null)
            &&& entry(told, "status"@) == Some(JsonView::Text(metadata.status))
        }),
{
    reveal_strlit("schema");
    assert("schema"@.len() == 6);
    reveal_strlit("authority_id");
    assert("authority_id"@.len() == 12);
    reveal_strlit("auth_profile_id");
    assert("auth_profile_id"@.len() == 15);
    reveal_strlit("provider");
    assert("provider"@.len() == 8);
    reveal_strlit("revision");
    assert("revision"@.len() == 8);
    reveal_strlit("expires_at_ms");
    assert("expires_at_ms"@.len() == 13);
    reveal_strlit("status");
    assert("status"@.len() == 6);
    assert("schema"@[1] != "status"@[1]);
    assert("provider"@[0] != "revision"@[0]);
    assert(told_keys(replica_json(metadata)) =~= set!["schema"@, "authority_id"@,
        "auth_profile_id"@, "provider"@, "revision"@, "expires_at_ms"@, "status"@]);
}

/// Of a session in a list its id, its version, its status, its time and its model are told.
pub proof fn listed_session_is_told(item: SessionListItemView)
    ensures
        ({
            let told = item_json(item);
            &&& tells_only(told, set!["session_id"@, "version"@, "status"@, "created_at_ms"@,
                "model"@])
            &&& entry(told, "session_id"@) == Some(JsonView::Text(item.session_id))
            &&& entry(told, "version"@) == Some(JsonView::Integer(item.version as int))
            &&& item.status == SessionStatus::Idle
                <==> entry(told, "status"@) == Some(JsonView::Text("idle"@))
            &&& item.status == SessionStatus::Active
                <==> entry(told, "status"@) == Some(JsonView::Text("active"@))
            &&& entry(told, "created_at_ms"@) == Some(JsonView::Integer(item.created_at_ms as int))
            &&& item.selection.model matches Some(held)
                ==> entry(told, "model"@) == Some(model_json(held))
            &&& item.selection.model is None ==> entry(told, "model"@) == Some(JsonView::Null)
        }),
{
    session_statuses_have_names(item.status);
    reveal_strlit("session_id");
    assert("session_id"@.len() == 10);
    reveal_strlit("version");
    assert("version"@.len() == 7);
    reveal_strlit("status");
    assert("status"@.len() == 6);
    reveal_strlit("created_at_ms");
    assert("created_at_ms"@.len() == 13);
    reveal_strlit("model");
    assert("model"@.len() == 5);
    assert(told_keys(item_json(item)) =~= set!["session_id"@, "version"@, "status"@,
        "created_at_ms"@, "model"@]);
}

/// Of a tool call its tool, its status, its times, what may be done with it and how it ended are
/// told, and not its input.
pub proof fn tool_call_is_told(record: AsyncToolCallRecordView)
    ensures
        ({
            let told = tool_json(record);
            &&& tells_only(told, set!["tool_call_id"@, "tool_name"@, "status"@, "started_at_ms"@,
                "auto_wait_seconds"@, "completion_mode"@, "allowed_actions"@, "result"@, "error"@,
                "cancel_reason"@, "completed_at_ms"@, "reconciliation"@])
            &&& entry(told, "tool_call_id"@) == Some(JsonView::Text(record.tool_call_id))
            &&& entry(told, "tool_name"@) == Some(JsonView::Text(record.tool_name))
            &&& record.status == AsyncToolStatus::Planned
                <==> entry(told, "status"@) == Some(JsonView::Text("planned"@))
            &&& record.status == AsyncToolStatus::Running
                <==> entry(told, "status"@) == Some(JsonView::Text("running"@))
            &&& record.status == AsyncToolStatus::UnknownOutcome
                <==> entry(told, "status"@) == Some(JsonView::Text("unknown_outcome"@))
            &&& record.status == AsyncToolStatus::RuntimeRestarted
                <==> entry(told, "status"@) == Some(JsonView::Text("runtime_restarted"@))
            &&& record.status == AsyncToolStatus::Completed
                <==> entry(told, "status"@) == Some(JsonView::Text("completed"@))
            &&& record.status == AsyncToolStatus::Failed
                <==> entry(told, "status"@) == Some(JsonView::Text("failed"@))
            &&& record.status == AsyncToolStatus::Cancelled
                <==> entry(told, "status"@) == Some(JsonView::Text("cancelled"@))
            &&& entry(told, "started_at_ms"@)
                == Some(JsonView::Integer(record.started_at_ms as int))
            &&& record.auto_wait_seconds matches Some(held)
                ==> entry(told, "auto_wait_seconds"@) == Some(JsonView::Integer(held as int))
            &&& record.auto_wait_seconds is None
                ==> entry(told, "auto_wait_seconds"@) == Some(JsonView::Null)
            &&& record.completion_mode == CompletionMode::ProcessLocal
                <==> entry(told, "completion_mode"@) == Some(JsonView::Text("response"@))
            &&& record.completion_mode == CompletionMode::ExternalCallback
                <==> entry(told, "completion_mode"@) == Some(JsonView::Text("external_callback"@))
            &&& entry(told, "allowed_actions"@) == Some(texts_json(tool_actions(record)))
            &&& record.result matches Some(held)
                ==> entry(told, "result"@) == Some(payload_json(held))
            &&& record.result is None ==> entry(told, "result"@) == Some(JsonView::Null)
            &&& record.error matches Some(held)
                ==> entry(told, "error"@) == Some(tool_error_json(held))
            &&& record.error is None ==> entry(told, "error"@) == Some(JsonView::Null)
            &&& record.cancel_reason matches Some(held)
                ==> entry(told, "cancel_reason"@) == Some(JsonView::Text(held))
            &&& record.cancel_reason is None
                ==> entry(told, "cancel_reason"@) == Some(JsonView::Null)
            &&& record.completed_at_ms matches Some(held)
                ==> entry(told, "completed_at_ms"@) == Some(JsonView::Integer(held as int))
            &&& record.completed_at_ms is None
                ==> entry(told, "completed_at_ms"@) == Some(JsonView::Null)
            &&& entry(told, "reconciliation"@) == Some(reconciliation_json(record.status))
        }),
{
    tool_statuses_have_names(record.status);
    completions_have_names(record.completion_mode);
    reveal_strlit("tool_call_id");
    assert("tool_call_id"@.len() == 12);
    reveal_strlit("tool_name");
    assert("tool_name"@.len() == 9);
    reveal_strlit("status");
    assert("status"@.len() == 6);
    reveal_strlit("started_at_ms");
    assert("started_at_ms"@.len() == 13);
    reveal_strlit("auto_wait_seconds");
    assert("auto_wait_seconds"@.len() == 17);
    reveal_strlit("completion_mode");
    assert("completion_mode"@.len() == 15);
    reveal_strlit("allowed_actions");
    assert("allowed_actions"@.len() == 15);
    reveal_strlit("result");
    assert("result"@.len() == 6);
    reveal_strlit("error");
    assert("error"@.len() == 5);
    reveal_strlit("cancel_reason");
    assert("cancel_reason"@.len() == 13);
    reveal_strlit("completed_at_ms");
    assert("completed_at_ms"@.len() == 15);
    reveal_strlit("reconciliation");
    assert("reconciliation"@.len() == 14);
    assert("status"@[0] != "result"@[0]);
    assert("started_at_ms"@[0] != "cancel_reason"@[0]);
    assert("completion_mode"@[0] != "allowed_actions"@[0]);
    assert("completion_mode"@[7] != "completed_at_ms"@[7]);
    assert("allowed_actions"@[0] != "completed_at_ms"@[0]);
    assert(told_keys(tool_json(record)) =~= set!["tool_call_id"@, "tool_name"@, "status"@,
        "started_at_ms"@, "auto_wait_seconds"@, "completion_mode"@, "allowed_actions"@, "result"@,
        "error"@, "cancel_reason"@, "completed_at_ms"@, "reconciliation"@]);
}

/// What may be done with a tool call: one that is open can be cancelled; one whose outcome was lost
/// can be sent again, if that is safe; and nothing can be done with one that has ended.
pub proof fn actions_are_told(record: AsyncToolCallRecordView)
    ensures
        ({
            let actions = tool_actions(record);
            let open = record.status == AsyncToolStatus::Planned || record.status
                == AsyncToolStatus::Running;
            &&& actions.contains("cancel"@) <==> open
            &&& actions.contains("retry_dispatch"@) <==> record.status
                == AsyncToolStatus::UnknownOutcome && record.retry_dispatch_deduplicated
            &&& actions.len() <= 1
            &&& forall|action: Seq<char>| #[trigger]
                actions.contains(action) ==> action == "cancel"@ || action == "retry_dispatch"@
        }),
{
    reveal_strlit("cancel");
    reveal_strlit("retry_dispatch");
    assert("cancel"@.len() != "retry_dispatch"@.len());
    let actions = tool_actions(record);
    if actions.len() > 0 {
        assert(actions[0] == "cancel"@ || actions[0] == "retry_dispatch"@);
        assert(actions.contains(actions[0]));
    }
}

/// That the outcome of a tool call was lost is told as what is to be reconciled, and nothing else
/// is.
pub proof fn lost_outcome_is_told(status: AsyncToolStatus)
    ensures
        status == AsyncToolStatus::UnknownOutcome ==> entry(reconciliation_json(status), "reason"@)
            == Some(JsonView::Text("unknown_outcome"@)),
        status != AsyncToolStatus::UnknownOutcome <==> reconciliation_json(status)
            == JsonView::Null,
{
}

/// The error of a tool call is told by a class that clients know, with words that go with the
/// class: an unknown class is told as a failure, and the words of the tool are not told.
pub proof fn tool_error_is_told(error: ToolErrorView)
    ensures
        ({
            let told = tool_error_json(error);
            let class = entry(told, "class"@);
            let words = entry(told, "message"@);
            let known = error.class == "tool_execution_failed"@ || error.class
                == "tool_unavailable"@ || error.class == "tool_cancelled"@;
            &&& tells_only(told, set!["class"@, "message"@])
            &&& known ==> class == Some(JsonView::Text(error.class))
            &&& !known ==> class == Some(JsonView::Text("tool_failed"@))
            &&& error.class == "tool_execution_failed"@ ==> words == Some(
                JsonView::Text("tool execution failed"@),
            )
            &&& error.class == "tool_unavailable"@ ==> words == Some(
                JsonView::Text("tool unavailable"@),
            )
            &&& error.class == "tool_cancelled"@ ==> words == Some(
                JsonView::Text("tool call cancelled"@),
            )
            &&& !known ==> words == Some(JsonView::Text("tool call failed"@))
        }),
{
    reveal_strlit("class");
    reveal_strlit("message");
    assert("class"@.len() != "message"@.len());
    reveal_strlit("tool_execution_failed");
    reveal_strlit("tool_unavailable");
    reveal_strlit("tool_cancelled");
    assert("tool_execution_failed"@.len() != "tool_unavailable"@.len());
    assert("tool_execution_failed"@.len() != "tool_cancelled"@.len());
    assert("tool_unavailable"@.len() != "tool_cancelled"@.len());
    assert(told_keys(tool_error_json(error)) =~= set!["class"@, "message"@]);
}

/// A payload that is at hand is told as it is; one in a blob by the blob; and of one that was taken
/// out only that it was.
pub proof fn payload_is_told(payload: DurablePayloadView)
    ensures
        match payload {
            DurablePayloadView::Inline(inline) => payload_json(payload) == inline.value,
            DurablePayloadView::BlobRef(blob) => {
                &&& tells_only(payload_json(payload), set!["blob"@])
                &&& entry(payload_json(payload), "blob"@) == Some(blob_json(blob))
            },
            DurablePayloadView::Redacted(_) => {
                &&& tells_only(payload_json(payload), set!["redacted"@])
                &&& entry(payload_json(payload), "redacted"@) == Some(JsonView::Bool(true))
            },
        },
{
}

/// The limits of a model are told, each under its own name, or null where there are none.
pub proof fn limits_are_told(limits: Option<ModelLimits>)
    ensures
        limits is None <==> limits_json(limits) == JsonView::Null,
        limits matches Some(held) ==> {
            let told = limits_json(limits);
            &&& tells_only(told, set!["context_window_tokens"@, "max_output_tokens"@])
            &&& entry(told, "context_window_tokens"@) == Some(
                JsonView::Integer(held.context_window_tokens as int),
            )
            &&& entry(told, "max_output_tokens"@) == Some(
                JsonView::Integer(held.max_output_tokens as int),
            )
        },
{
    reveal_strlit("context_window_tokens");
    reveal_strlit("max_output_tokens");
    assert("context_window_tokens"@.len() != "max_output_tokens"@.len());
    assert(told_keys(limits_json(limits)) =~= if limits is Some {
        set!["context_window_tokens"@, "max_output_tokens"@]
    } else {
        Set::empty()
    });
}

/// Whether a list is told item by item, in its order.
pub open spec fn lists(told: JsonView, items: Seq<JsonView>) -> bool {
    told matches JsonView::Array(held) && held == items
}

/// Lists are told item by item, in their order, and whole.
pub proof fn lists_are_told(
    texts: Seq<Seq<char>>,
    calls: Seq<ToolCallView>,
    messages: Seq<TranscriptMessageView>,
    tools: Seq<(Seq<char>, AsyncToolCallRecordView)>,
    deliveries: Seq<QueuedDeliveryView>,
    replicas: Seq<ReplicaMetadataView>,
    sessions: Seq<SessionListItemView>,
)
    ensures
        lists(texts_json(texts), Seq::new(texts.len(), |i: int| JsonView::Text(texts[i]))),
        lists(calls_json(calls), Seq::new(calls.len(), |i: int| call_json(calls[i]))),
        lists(messages_json(messages), Seq::new(messages.len(),
            |i: int| message_json(messages[i]))),
        lists(tools_json(tools), Seq::new(tools.len(), |i: int| tool_json(tools[i].1))),
        lists(
            deliveries_json(deliveries),
            Seq::new(deliveries.len(), |i: int| delivery_json(deliveries[i])),
        ),
        lists(replicas_json(replicas), Seq::new(replicas.len(),
            |i: int| replica_json(replicas[i]))),
        lists(items_json(sessions), Seq::new(sessions.len(), |i: int| item_json(sessions[i]))),
{
    assert(texts_json(texts)->Array_0 =~= Seq::new(
        texts.len(),
        |i: int| JsonView::Text(texts[i]),
    ));
    assert(calls_json(calls)->Array_0 =~= Seq::new(calls.len(), |i: int| call_json(calls[i])));
    assert(messages_json(messages)->Array_0 =~= Seq::new(
        messages.len(),
        |i: int| message_json(messages[i]),
    ));
    assert(tools_json(tools)->Array_0 =~= Seq::new(tools.len(), |i: int| tool_json(tools[i].1)));
    assert(deliveries_json(deliveries)->Array_0 =~= Seq::new(
        deliveries.len(),
        |i: int| delivery_json(deliveries[i]),
    ));
    assert(replicas_json(replicas)->Array_0 =~= Seq::new(
        replicas.len(),
        |i: int| replica_json(replicas[i]),
    ));
    assert(items_json(sessions)->Array_0 =~= Seq::new(
        sessions.len(),
        |i: int| item_json(sessions[i]),
    ));
}

} // verus!
