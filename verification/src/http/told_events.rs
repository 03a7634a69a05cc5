//! What clients are told of events: under which name, and which facts of them.

use crate::domain::event::{event_kind, EventRecordView, SessionEventView, SessionStatus};
use crate::domain::model::{ActivationOutcome, ModelRequestPurpose};
use crate::domain::tools::{AsyncToolStatus, CompletionMode};
use crate::domain::transcript::{DeliveryKind, TranscriptRole};
use crate::http::events::{
    event_body, event_json, failure_body, text_body, told_event, told_kind, PublicEventView,
    TransientModelEventView,
};
use crate::http::frames::{frame_for, opening, StreamFrameView};
use crate::http::stream::StreamActionView;
use crate::http::told::{
    activations_have_names, completions_have_names, deliveries_have_names, entry,
    purposes_have_names, session_statuses_have_names, tells_only, told_keys,
    tool_statuses_have_names,
};
use crate::http::views::{
    handoff_json, message_json, model_error_json, model_json, texts_json, tool_error_json,
    wait_json,
};
use crate::json::JsonView;
use crate::number::decimal;
use vstd::prelude::*;
use vstd::string::*;

verus! {

/// The creation of a session is told with its id.
pub proof fn session_created_is_told(event: SessionEventView)
    ensures
        match event {
            SessionEventView::SessionCreated { session_id, .. } => {
                let told = event_json(event);
                &&& tells_only(told, set!["session_id"@])
                &&& entry(told, "session_id"@) == Some(JsonView::Text(session_id))
            },
            _ => true,
        },
{
    reveal_strlit("session_id");
    assert("session_id"@.len() == 10);
    if event is SessionCreated {
        assert(told_keys(event_json(event)) =~= set!["session_id"@]);
    }
}

/// A new selection is told with its model and its tools.
pub proof fn model_selection_changed_is_told(event: SessionEventView)
    ensures
        match event {
            SessionEventView::ModelSelectionChanged { selection } => {
                let told = event_json(event);
                &&& tells_only(told, set!["model"@, "tools"@])
                &&& selection.model matches Some(held)
                    ==> entry(told, "model"@) == Some(model_json(held))
                &&& selection.model is None ==> entry(told, "model"@) == Some(JsonView::Null)
                &&& entry(told, "tools"@) == Some(texts_json(selection.tools))
            },
            _ => true,
        },
{
    reveal_strlit("model");
    assert("model"@.len() == 5);
    reveal_strlit("tools");
    assert("tools"@.len() == 5);
    assert("model"@[0] != "tools"@[0]);
    if event is ModelSelectionChanged {
        assert(told_keys(event_json(event)) =~= set!["model"@, "tools"@]);
    }
}

/// A new status is told by its name.
pub proof fn status_changed_is_told(event: SessionEventView)
    ensures
        match event {
            SessionEventView::StatusChanged { status } => {
                let told = event_json(event);
                &&& tells_only(told, set!["status"@])
                &&& status == SessionStatus::Idle
                    <==> entry(told, "status"@) == Some(JsonView::Text("idle"@))
                &&& status == SessionStatus::Active
                    <==> entry(told, "status"@) == Some(JsonView::Text("active"@))
            },
            _ => true,
        },
{
    reveal_strlit("status");
    assert("status"@.len() == 6);
    if let SessionEventView::StatusChanged { status } = event {
        session_statuses_have_names(status);
    }
    if event is StatusChanged {
        assert(told_keys(event_json(event)) =~= set!["status"@]);
    }
}

/// A delivery that is queued is told with its place, its kind and whether it wakes, and not with
/// what it carries.
pub proof fn delivery_queued_is_told(event: SessionEventView)
    ensures
        match event {
            SessionEventView::DeliveryQueued { delivery } => {
                let told = event_json(event);
                &&& tells_only(told, set!["queue_id"@, "delivery_id"@, "kind"@, "wake"@,
                    "source_tool_call_id"@])
                &&& entry(told, "queue_id"@) == Some(JsonView::Integer(delivery.queue_id as int))
                &&& entry(told, "delivery_id"@) == Some(JsonView::Text(delivery.delivery_id))
                &&& delivery.kind == DeliveryKind::UserInput
                    <==> entry(told, "kind"@) == Some(JsonView::Text("user_input"@))
                &&& delivery.kind == DeliveryKind::RuntimeNotification
                    <==> entry(told, "kind"@) == Some(JsonView::Text("runtime_notification"@))
                &&& entry(told, "wake"@) == Some(JsonView::Bool(delivery.wake))
                &&& delivery.source_tool_call_id matches Some(held)
                    ==> entry(told, "source_tool_call_id"@) == Some(JsonView::Text(held))
                &&& delivery.source_tool_call_id is None
                    ==> entry(told, "source_tool_call_id"@) == Some(JsonView::Null)
            },
            _ => true,
        },
{
    reveal_strlit("queue_id");
    assert("queue_id"@.len() == 8);
    reveal_strlit("delivery_id");
    assert("delivery_id"@.len() == 11);
    reveal_strlit("kind");
    assert("kind"@.len() == 4);
    reveal_strlit("wake");
    assert("wake"@.len() == 4);
    reveal_strlit("source_tool_call_id");
    assert("source_tool_call_id"@.len() == 19);
    assert("kind"@[0] != "wake"@[0]);
    if let SessionEventView::DeliveryQueued { delivery } = event {
        deliveries_have_names(delivery.kind);
    }
    if event is DeliveryQueued {
        assert(told_keys(event_json(event)) =~= set!["queue_id"@, "delivery_id"@, "kind"@, "wake"@,
            "source_tool_call_id"@]);
    }
}

/// An acknowledgement is told with the last delivery that it is for.
pub proof fn delivery_acknowledged_is_told(event: SessionEventView)
    ensures
        match event {
            SessionEventView::DeliveryAcknowledged { through_queue_id } => {
                let told = event_json(event);
                &&& tells_only(told, set!["through_queue_id"@])
                &&& entry(told, "through_queue_id"@)
                    == Some(JsonView::Integer(through_queue_id as int))
            },
            _ => true,
        },
{
    reveal_strlit("through_queue_id");
    assert("through_queue_id"@.len() == 16);
    if event is DeliveryAcknowledged {
        assert(told_keys(event_json(event)) =~= set!["through_queue_id"@]);
    }
}

/// A delivery that became a message is told with its place and the message.
pub proof fn delivery_materialized_is_told(event: SessionEventView)
    ensures
        match event {
            SessionEventView::DeliveryMaterialized { queue_id, message } => {
                let told = event_json(event);
                &&& tells_only(told, set!["queue_id"@, "message"@])
                &&& entry(told, "queue_id"@) == Some(JsonView::Integer(queue_id as int))
                &&& entry(told, "message"@) == Some(message_json(message))
            },
            _ => true,
        },
{
    reveal_strlit("queue_id");
    assert("queue_id"@.len() == 8);
    reveal_strlit("message");
    assert("message"@.len() == 7);
    if event is DeliveryMaterialized {
        assert(told_keys(event_json(event)) =~= set!["queue_id"@, "message"@]);
    }
}

/// A message that joined the history is told whole, with whether it wakes.
pub proof fn message_appended_is_told(event: SessionEventView)
    ensures
        match event {
            SessionEventView::MessageAppended { message, wake_wait } => {
                let told = event_json(event);
                &&& tells_only(told, set!["message"@, "wake_wait"@])
                &&& entry(told, "message"@) == Some(message_json(message))
                &&& entry(told, "wake_wait"@) == Some(JsonView::Bool(wake_wait))
            },
            _ => true,
        },
{
    reveal_strlit("message");
    assert("message"@.len() == 7);
    reveal_strlit("wake_wait");
    assert("wake_wait"@.len() == 9);
    if event is MessageAppended {
        assert(told_keys(event_json(event)) =~= set!["message"@, "wake_wait"@]);
    }
}

/// An activation that began is told with its id, its terms and its selection.
pub proof fn activation_started_is_told(event: SessionEventView)
    ensures
        match event {
            SessionEventView::ActivationStarted { activation_id, selection, selection_version,
                minimum_auth_revision, started_at_ms, } => {
                let told = event_json(event);
                &&& tells_only(told, set!["activation_id"@, "selection_version"@,
                    "minimum_auth_revision"@, "started_at_ms"@, "model"@, "tools"@])
                &&& entry(told, "activation_id"@) == Some(JsonView::Text(activation_id))
                &&& entry(told, "selection_version"@)
                    == Some(JsonView::Integer(selection_version as int))
                &&& entry(told, "minimum_auth_revision"@)
                    == Some(JsonView::Integer(minimum_auth_revision as int))
                &&& entry(told, "started_at_ms"@) == Some(JsonView::Integer(started_at_ms as int))
                &&& selection.model matches Some(held)
                    ==> entry(told, "model"@) == Some(model_json(held))
                &&& selection.model is None ==> entry(told, "model"@) == Some(JsonView::Null)
                &&& entry(told, "tools"@) == Some(texts_json(selection.tools))
            },
            _ => true,
        },
{
    reveal_strlit("activation_id");
    assert("activation_id"@.len() == 13);
    reveal_strlit("selection_version");
    assert("selection_version"@.len() == 17);
    reveal_strlit("minimum_auth_revision");
    assert("minimum_auth_revision"@.len() == 21);
    reveal_strlit("started_at_ms");
    assert("started_at_ms"@.len() == 13);
    reveal_strlit("model");
    assert("model"@.len() == 5);
    reveal_strlit("tools");
    assert("tools"@.len() == 5);
    assert("activation_id"@[0] != "started_at_ms"@[0]);
    assert("model"@[0] != "tools"@[0]);
    if event is ActivationStarted {
        assert(told_keys(event_json(event)) =~= set!["activation_id"@, "selection_version"@,
            "minimum_auth_revision"@, "started_at_ms"@, "model"@, "tools"@]);
    }
}

/// A round that began is told with its ids, its purpose and its time.
pub proof fn model_round_started_is_told(event: SessionEventView)
    ensures
        match event {
            SessionEventView::ModelRoundStarted { activation_id, round_id, purpose,
                delivery_through_queue_id, started_at_ms, } => {
                let told = event_json(event);
                &&& tells_only(told, set!["activation_id"@, "round_id"@, "purpose"@,
                    "delivery_through_queue_id"@, "started_at_ms"@])
                &&& entry(told, "activation_id"@) == Some(JsonView::Text(activation_id))
                &&& entry(told, "round_id"@) == Some(JsonView::Text(round_id))
                &&& purpose == ModelRequestPurpose::Conversation
                    <==> entry(told, "purpose"@) == Some(JsonView::Text("conversation"@))
                &&& purpose == ModelRequestPurpose::ContextHandoff
                    <==> entry(told, "purpose"@) == Some(JsonView::Text("context_handoff"@))
                &&& entry(told, "delivery_through_queue_id"@)
                    == Some(JsonView::Integer(delivery_through_queue_id as int))
                &&& entry(told, "started_at_ms"@) == Some(JsonView::Integer(started_at_ms as int))
            },
            _ => true,
        },
{
    reveal_strlit("activation_id");
    assert("activation_id"@.len() == 13);
    reveal_strlit("round_id");
    assert("round_id"@.len() == 8);
    reveal_strlit("purpose");
    assert("purpose"@.len() == 7);
    reveal_strlit("delivery_through_queue_id");
    assert("delivery_through_queue_id"@.len() == 25);
    reveal_strlit("started_at_ms");
    assert("started_at_ms"@.len() == 13);
    assert("activation_id"@[0] != "started_at_ms"@[0]);
    if let SessionEventView::ModelRoundStarted { activation_id, round_id, purpose,
        delivery_through_queue_id, started_at_ms, } = event {
        purposes_have_names(purpose);
    }
    if event is ModelRoundStarted {
        assert(told_keys(event_json(event)) =~= set!["activation_id"@, "round_id"@, "purpose"@,
            "delivery_through_queue_id"@, "started_at_ms"@]);
    }
}

/// A handoff that was made is told as the handoff of a session is.
pub proof fn context_handoff_created_is_told(event: SessionEventView)
    ensures
        match event {
            SessionEventView::ContextHandoffCreated { handoff } => event_json(event)
                == handoff_json(
                handoff,
            ),
            _ => true,
        },
{
}

/// A handoff that failed is told with its plan, the error and the time.
pub proof fn context_handoff_failed_is_told(event: SessionEventView)
    ensures
        match event {
            SessionEventView::ContextHandoffFailed { plan_id, error, finished_at_ms, } => {
                let told = event_json(event);
                &&& tells_only(told, set!["plan_id"@, "error"@, "finished_at_ms"@])
                &&& entry(told, "plan_id"@) == Some(JsonView::Text(plan_id))
                &&& entry(told, "error"@) == Some(model_error_json(error))
                &&& entry(told, "finished_at_ms"@) == Some(JsonView::Integer(finished_at_ms as int))
            },
            _ => true,
        },
{
    reveal_strlit("plan_id");
    assert("plan_id"@.len() == 7);
    reveal_strlit("error");
    assert("error"@.len() == 5);
    reveal_strlit("finished_at_ms");
    assert("finished_at_ms"@.len() == 14);
    if event is ContextHandoffFailed {
        assert(told_keys(event_json(event)) =~= set!["plan_id"@, "error"@, "finished_at_ms"@]);
    }
}

/// An attempt that failed is told with its number, the kind of the error and whether it may be
/// tried again.
pub proof fn model_attempt_failed_fact_is_told(event: SessionEventView)
    ensures
        match event {
            SessionEventView::ModelAttemptFailedFact { activation_id, round_id, attempt_number,
                error_class, retryable, .. } => {
                let told = event_json(event);
                &&& tells_only(told, set!["activation_id"@, "round_id"@, "attempt_number"@,
                    "error"@])
                &&& entry(told, "activation_id"@) == Some(JsonView::Text(activation_id))
                &&& entry(told, "round_id"@) == Some(JsonView::Text(round_id))
                &&& entry(told, "attempt_number"@) == Some(JsonView::Integer(attempt_number as int))
                &&& entry(told, "error"@) matches Some(inner) && {
&&& tells_only(inner, set!["class"@, "retryable"@])
&&& entry(inner, "class"@) == Some(JsonView::Text(error_class))
&&& entry(inner, "retryable"@) == Some(JsonView::Bool(retryable))
}
            },
            _ => true,
        },
{
    reveal_strlit("activation_id");
    assert("activation_id"@.len() == 13);
    reveal_strlit("round_id");
    assert("round_id"@.len() == 8);
    reveal_strlit("attempt_number");
    assert("attempt_number"@.len() == 14);
    reveal_strlit("error");
    assert("error"@.len() == 5);
    reveal_strlit("class");
    assert("class"@.len() == 5);
    reveal_strlit("retryable");
    assert("retryable"@.len() == 9);
    if event is ModelAttemptFailedFact {
        assert(told_keys(event_json(event)) =~= set!["activation_id"@, "round_id"@,
            "attempt_number"@, "error"@]);
    }
}

/// An attempt that was interrupted is told as such, with its number.
pub proof fn model_attempt_interrupted_is_told(event: SessionEventView)
    ensures
        match event {
            SessionEventView::ModelAttemptInterrupted { activation_id, round_id, attempt_number,
                .. } => {
                let told = event_json(event);
                &&& tells_only(told, set!["activation_id"@, "round_id"@, "attempt_number"@,
                    "reason"@])
                &&& entry(told, "activation_id"@) == Some(JsonView::Text(activation_id))
                &&& entry(told, "round_id"@) == Some(JsonView::Text(round_id))
                &&& entry(told, "attempt_number"@) == Some(JsonView::Integer(attempt_number as int))
                &&& entry(told, "reason"@) == Some(JsonView::Text("model_attempt_interrupted"@))
            },
            _ => true,
        },
{
    reveal_strlit("activation_id");
    assert("activation_id"@.len() == 13);
    reveal_strlit("round_id");
    assert("round_id"@.len() == 8);
    reveal_strlit("attempt_number");
    assert("attempt_number"@.len() == 14);
    reveal_strlit("reason");
    assert("reason"@.len() == 6);
    if event is ModelAttemptInterrupted {
        assert(told_keys(event_json(event)) =~= set!["activation_id"@, "round_id"@,
            "attempt_number"@, "reason"@]);
    }
}

/// That the attempts are used up is told with the last attempt, the budget and the time.
pub proof fn model_attempts_exhausted_is_told(event: SessionEventView)
    ensures
        match event {
            SessionEventView::ModelAttemptsExhausted { fact } => {
                let told = event_json(event);
                &&& tells_only(told, set!["activation_id"@, "round_id"@, "attempt_number"@,
                    "maximum_attempts"@, "reason"@, "finished_at_ms"@])
                &&& entry(told, "activation_id"@) == Some(JsonView::Text(fact.activation_id))
                &&& entry(told, "round_id"@) == Some(JsonView::Text(fact.round_id))
                &&& entry(told, "attempt_number"@)
                    == Some(JsonView::Integer(fact.attempt_number as int))
                &&& entry(told, "maximum_attempts"@)
                    == Some(JsonView::Integer(fact.maximum_attempts as int))
                &&& entry(told, "reason"@) == Some(JsonView::Text("model_attempts_exhausted"@))
                &&& entry(told, "finished_at_ms"@)
                    == Some(JsonView::Integer(fact.finished_at_ms as int))
            },
            _ => true,
        },
{
    reveal_strlit("activation_id");
    assert("activation_id"@.len() == 13);
    reveal_strlit("round_id");
    assert("round_id"@.len() == 8);
    reveal_strlit("attempt_number");
    assert("attempt_number"@.len() == 14);
    reveal_strlit("maximum_attempts");
    assert("maximum_attempts"@.len() == 16);
    reveal_strlit("reason");
    assert("reason"@.len() == 6);
    reveal_strlit("finished_at_ms");
    assert("finished_at_ms"@.len() == 14);
    assert("attempt_number"@[0] != "finished_at_ms"@[0]);
    if event is ModelAttemptsExhausted {
        assert(told_keys(event_json(event)) =~= set!["activation_id"@, "round_id"@,
            "attempt_number"@, "maximum_attempts"@, "reason"@, "finished_at_ms"@]);
    }
}

/// A retry is told with both attempts, the delay, the budget and the reason.
pub proof fn model_step_retry_scheduled_is_told(event: SessionEventView)
    ensures
        match event {
            SessionEventView::ModelStepRetryScheduled { schedule } => {
                let told = event_json(event);
                &&& tells_only(told, set!["activation_id"@, "round_id"@, "failed_attempt_number"@,
                    "next_attempt_number"@, "delay_ms"@, "maximum_attempts"@, "error_class"@])
                &&& entry(told, "activation_id"@) == Some(JsonView::Text(schedule.activation_id))
                &&& entry(told, "round_id"@) == Some(JsonView::Text(schedule.round_id))
                &&& entry(told, "failed_attempt_number"@)
                    == Some(JsonView::Integer(schedule.failed_attempt_number as int))
                &&& entry(told, "next_attempt_number"@)
                    == Some(JsonView::Integer(schedule.next_attempt_number as int))
                &&& entry(told, "delay_ms"@) == Some(JsonView::Integer(schedule.delay_ms as int))
                &&& entry(told, "maximum_attempts"@)
                    == Some(JsonView::Integer(schedule.maximum_attempts as int))
                &&& entry(told, "error_class"@) == Some(JsonView::Text(schedule.error_class))
            },
            _ => true,
        },
{
    reveal_strlit("activation_id");
    assert("activation_id"@.len() == 13);
    reveal_strlit("round_id");
    assert("round_id"@.len() == 8);
    reveal_strlit("failed_attempt_number");
    assert("failed_attempt_number"@.len() == 21);
    reveal_strlit("next_attempt_number");
    assert("next_attempt_number"@.len() == 19);
    reveal_strlit("delay_ms");
    assert("delay_ms"@.len() == 8);
    reveal_strlit("maximum_attempts");
    assert("maximum_attempts"@.len() == 16);
    reveal_strlit("error_class");
    assert("error_class"@.len() == 11);
    assert("round_id"@[0] != "delay_ms"@[0]);
    if event is ModelStepRetryScheduled {
        assert(told_keys(event_json(event)) =~= set!["activation_id"@, "round_id"@,
            "failed_attempt_number"@, "next_attempt_number"@, "delay_ms"@, "maximum_attempts"@,
            "error_class"@]);
    }
}

/// The end of an activation is told with its outcome and its time.
pub proof fn activation_finished_is_told(event: SessionEventView)
    ensures
        match event {
            SessionEventView::ActivationFinished { activation_id, outcome, finished_at_ms, } => {
                let told = event_json(event);
                &&& tells_only(told, set!["activation_id"@, "outcome"@, "finished_at_ms"@])
                &&& entry(told, "activation_id"@) == Some(JsonView::Text(activation_id))
                &&& outcome == ActivationOutcome::Finished
                    <==> entry(told, "outcome"@) == Some(JsonView::Text("finished"@))
                &&& outcome == ActivationOutcome::Wait
                    <==> entry(told, "outcome"@) == Some(JsonView::Text("wait"@))
                &&& outcome == ActivationOutcome::Failed
                    <==> entry(told, "outcome"@) == Some(JsonView::Text("failed"@))
                &&& outcome == ActivationOutcome::Interrupted
                    <==> entry(told, "outcome"@) == Some(JsonView::Text("interrupted"@))
                &&& entry(told, "finished_at_ms"@) == Some(JsonView::Integer(finished_at_ms as int))
            },
            _ => true,
        },
{
    reveal_strlit("activation_id");
    assert("activation_id"@.len() == 13);
    reveal_strlit("outcome");
    assert("outcome"@.len() == 7);
    reveal_strlit("finished_at_ms");
    assert("finished_at_ms"@.len() == 14);
    if let SessionEventView::ActivationFinished { activation_id, outcome, finished_at_ms,
        } = event {
        activations_have_names(outcome);
    }
    if event is ActivationFinished {
        assert(told_keys(event_json(event)) =~= set!["activation_id"@, "outcome"@,
            "finished_at_ms"@]);
    }
}

/// A final failure of the model is told with its message and the error.
pub proof fn model_attempt_failed_is_told(event: SessionEventView)
    ensures
        match event {
            SessionEventView::ModelAttemptFailed { failure } => {
                let told = event_json(event);
                &&& tells_only(told, set!["trigger_message_id"@, "error"@])
                &&& entry(told, "trigger_message_id"@)
                    == Some(JsonView::Text(failure.trigger_message_id))
                &&& entry(told, "error"@) == Some(model_error_json(failure.error))
            },
            _ => true,
        },
{
    reveal_strlit("trigger_message_id");
    assert("trigger_message_id"@.len() == 18);
    reveal_strlit("error");
    assert("error"@.len() == 5);
    if event is ModelAttemptFailed {
        assert(told_keys(event_json(event)) =~= set!["trigger_message_id"@, "error"@]);
    }
}

/// A wait that began is told whole.
pub proof fn wait_set_is_told(event: SessionEventView)
    ensures
        match event {
            SessionEventView::WaitSet { wait } => {
                let told = event_json(event);
                &&& tells_only(told, set!["wait"@])
                &&& entry(told, "wait"@) == Some(wait_json(wait))
            },
            _ => true,
        },
{
    reveal_strlit("wait");
    assert("wait"@.len() == 4);
    if event is WaitSet {
        assert(told_keys(event_json(event)) =~= set!["wait"@]);
    }
}

/// The end of a wait is told with its id.
pub proof fn wait_cleared_is_told(event: SessionEventView)
    ensures
        match event {
            SessionEventView::WaitCleared { wait_id } => {
                let told = event_json(event);
                &&& tells_only(told, set!["wait_id"@])
                &&& entry(told, "wait_id"@) == Some(JsonView::Text(wait_id))
            },
            _ => true,
        },
{
    reveal_strlit("wait_id");
    assert("wait_id"@.len() == 7);
    if event is WaitCleared {
        assert(told_keys(event_json(event)) =~= set!["wait_id"@]);
    }
}

/// A wait that ran out is told with its id.
pub proof fn wait_expired_is_told(event: SessionEventView)
    ensures
        match event {
            SessionEventView::WaitExpired { wait_id } => {
                let told = event_json(event);
                &&& tells_only(told, set!["wait_id"@])
                &&& entry(told, "wait_id"@) == Some(JsonView::Text(wait_id))
            },
            _ => true,
        },
{
    reveal_strlit("wait_id");
    assert("wait_id"@.len() == 7);
    if event is WaitExpired {
        assert(told_keys(event_json(event)) =~= set!["wait_id"@]);
    }
}

/// A tool call that started is told with its tool, its status and how it ends, and not with its
/// input.
pub proof fn async_tool_call_started_is_told(event: SessionEventView)
    ensures
        match event {
            SessionEventView::AsyncToolCallStarted { record } => {
                let told = event_json(event);
                &&& tells_only(told, set!["tool_call_id"@, "tool_name"@, "status"@,
                    "completion_mode"@, "auto_wait_seconds"@])
                &&& entry(told, "tool_call_id"@) == Some(JsonView::Text(record.tool_call_id))
                &&& entry(told, "tool_name"@) == Some(JsonView::Text(record.tool_name))
                &&& record.status == AsyncToolStatus::Planned
                    <==> entry(told, "status"@) == Some(JsonView::Text("planned"@))
                &&& record.status == AsyncToolStatus::Running
                    <==> entry(told, "status"@) == Some(JsonView::Text("running"@))
                &&& record.status == AsyncToolStatus::UnknownOutcome
                    <==> entry(told, "status"@) == Some(JsonView::Text("unknown_outcome"@))
                &&& record.status == AsyncToolStatus::RuntimeRestarted
                    <==> entry(told, "status"@) == Some(JsonView::Text("runtime_restarted"@))
                &&& record.status == AsyncToolStatus::Completed
                    <==> entry(told, "status"@) == Some(JsonView::Text("completed"@))
                &&& record.status == AsyncToolStatus::Failed
                    <==> entry(told, "status"@) == Some(JsonView::Text("failed"@))
                &&& record.status == AsyncToolStatus::Cancelled
                    <==> entry(told, "status"@) == Some(JsonView::Text("cancelled"@))
                &&& record.completion_mode == CompletionMode::ProcessLocal
                    <==> entry(told, "completion_mode"@) == Some(JsonView::Text("response"@))
                &&& record.completion_mode == CompletionMode::ExternalCallback
                    <==> entry(told, "completion_mode"@)
                    == Some(JsonView::Text("external_callback"@))
                &&& record.auto_wait_seconds matches Some(held)
                    ==> entry(told, "auto_wait_seconds"@) == Some(JsonView::Integer(held as int))
                &&& record.auto_wait_seconds is None
                    ==> entry(told, "auto_wait_seconds"@) == Some(JsonView::Null)
            },
            _ => true,
        },
{
    reveal_strlit("tool_call_id");
    assert("tool_call_id"@.len() == 12);
    reveal_strlit("tool_name");
    assert("tool_name"@.len() == 9);
    reveal_strlit("status");
    assert("status"@.len() == 6);
    reveal_strlit("completion_mode");
    assert("completion_mode"@.len() == 15);
    reveal_strlit("auto_wait_seconds");
    assert("auto_wait_seconds"@.len() == 17);
    if let SessionEventView::AsyncToolCallStarted { record } = event {
        tool_statuses_have_names(record.status);
        completions_have_names(record.completion_mode);
    }
    if event is AsyncToolCallStarted {
        assert(told_keys(event_json(event)) =~= set!["tool_call_id"@, "tool_name"@, "status"@,
            "completion_mode"@, "auto_wait_seconds"@]);
    }
}

/// A tool call that runs is told as running.
pub proof fn async_tool_call_running_is_told(event: SessionEventView)
    ensures
        match event {
            SessionEventView::AsyncToolCallRunning { tool_call_id } => {
                let told = event_json(event);
                &&& tells_only(told, set!["tool_call_id"@, "status"@])
                &&& entry(told, "tool_call_id"@) == Some(JsonView::Text(tool_call_id))
                &&& entry(told, "status"@) == Some(JsonView::Text("running"@))
            },
            _ => true,
        },
{
    reveal_strlit("tool_call_id");
    assert("tool_call_id"@.len() == 12);
    reveal_strlit("status");
    assert("status"@.len() == 6);
    if event is AsyncToolCallRunning {
        assert(told_keys(event_json(event)) =~= set!["tool_call_id"@, "status"@]);
    }
}

/// A tool call whose outcome was lost is told as such.
pub proof fn async_tool_call_unknown_outcome_is_told(event: SessionEventView)
    ensures
        match event {
            SessionEventView::AsyncToolCallUnknownOutcome { tool_call_id, .. } => {
                let told = event_json(event);
                &&& tells_only(told, set!["tool_call_id"@, "status"@])
                &&& entry(told, "tool_call_id"@) == Some(JsonView::Text(tool_call_id))
                &&& entry(told, "status"@) == Some(JsonView::Text("unknown_outcome"@))
            },
            _ => true,
        },
{
    reveal_strlit("tool_call_id");
    assert("tool_call_id"@.len() == 12);
    reveal_strlit("status");
    assert("status"@.len() == 6);
    if event is AsyncToolCallUnknownOutcome {
        assert(told_keys(event_json(event)) =~= set!["tool_call_id"@, "status"@]);
    }
}

/// A tool call that ended with a restart is told as such, with the time.
pub proof fn async_tool_call_runtime_restarted_is_told(event: SessionEventView)
    ensures
        match event {
            SessionEventView::AsyncToolCallRuntimeRestarted { tool_call_id, completed_at_ms, .. } =>
                {
                let told = event_json(event);
                &&& tells_only(told, set!["tool_call_id"@, "completed_at_ms"@, "status"@])
                &&& entry(told, "tool_call_id"@) == Some(JsonView::Text(tool_call_id))
                &&& entry(told, "completed_at_ms"@)
                    == Some(JsonView::Integer(completed_at_ms as int))
                &&& entry(told, "status"@) == Some(JsonView::Text("runtime_restarted"@))
            },
            _ => true,
        },
{
    reveal_strlit("tool_call_id");
    assert("tool_call_id"@.len() == 12);
    reveal_strlit("completed_at_ms");
    assert("completed_at_ms"@.len() == 15);
    reveal_strlit("status");
    assert("status"@.len() == 6);
    if event is AsyncToolCallRuntimeRestarted {
        assert(told_keys(event_json(event)) =~= set!["tool_call_id"@, "completed_at_ms"@,
            "status"@]);
    }
}

/// A tool call that a callback completed is told as completed, with the time.
pub proof fn async_tool_call_callback_completed_is_told(event: SessionEventView)
    ensures
        match event {
            SessionEventView::AsyncToolCallCallbackCompleted { tool_call_id, completed_at_ms,
                .. } => {
                let told = event_json(event);
                &&& tells_only(told, set!["tool_call_id"@, "completed_at_ms"@, "status"@])
                &&& entry(told, "tool_call_id"@) == Some(JsonView::Text(tool_call_id))
                &&& entry(told, "completed_at_ms"@)
                    == Some(JsonView::Integer(completed_at_ms as int))
                &&& entry(told, "status"@) == Some(JsonView::Text("completed"@))
            },
            _ => true,
        },
{
    reveal_strlit("tool_call_id");
    assert("tool_call_id"@.len() == 12);
    reveal_strlit("completed_at_ms");
    assert("completed_at_ms"@.len() == 15);
    reveal_strlit("status");
    assert("status"@.len() == 6);
    if event is AsyncToolCallCallbackCompleted {
        assert(told_keys(event_json(event)) =~= set!["tool_call_id"@, "completed_at_ms"@,
            "status"@]);
    }
}

/// A tool call that a callback failed is told as failed, with the time.
pub proof fn async_tool_call_callback_failed_is_told(event: SessionEventView)
    ensures
        match event {
            SessionEventView::AsyncToolCallCallbackFailed { tool_call_id, completed_at_ms, .. } => {
                let told = event_json(event);
                &&& tells_only(told, set!["tool_call_id"@, "completed_at_ms"@, "status"@])
                &&& entry(told, "tool_call_id"@) == Some(JsonView::Text(tool_call_id))
                &&& entry(told, "completed_at_ms"@)
                    == Some(JsonView::Integer(completed_at_ms as int))
                &&& entry(told, "status"@) == Some(JsonView::Text("failed"@))
            },
            _ => true,
        },
{
    reveal_strlit("tool_call_id");
    assert("tool_call_id"@.len() == 12);
    reveal_strlit("completed_at_ms");
    assert("completed_at_ms"@.len() == 15);
    reveal_strlit("status");
    assert("status"@.len() == 6);
    if event is AsyncToolCallCallbackFailed {
        assert(told_keys(event_json(event)) =~= set!["tool_call_id"@, "completed_at_ms"@,
            "status"@]);
    }
}

/// The progress of a tool call is told by its id alone.
pub proof fn async_tool_call_progress_is_told(event: SessionEventView)
    ensures
        match event {
            SessionEventView::AsyncToolCallProgress { tool_call_id, .. } => {
                let told = event_json(event);
                &&& tells_only(told, set!["tool_call_id"@])
                &&& entry(told, "tool_call_id"@) == Some(JsonView::Text(tool_call_id))
            },
            _ => true,
        },
{
    reveal_strlit("tool_call_id");
    assert("tool_call_id"@.len() == 12);
    if event is AsyncToolCallProgress {
        assert(told_keys(event_json(event)) =~= set!["tool_call_id"@]);
    }
}

/// A tool call that completed is told as completed, with the time, and not with its result.
pub proof fn async_tool_call_completed_is_told(event: SessionEventView)
    ensures
        match event {
            SessionEventView::AsyncToolCallCompleted { tool_call_id, completed_at_ms, .. } => {
                let told = event_json(event);
                &&& tells_only(told, set!["tool_call_id"@, "completed_at_ms"@, "status"@])
                &&& entry(told, "tool_call_id"@) == Some(JsonView::Text(tool_call_id))
                &&& entry(told, "completed_at_ms"@)
                    == Some(JsonView::Integer(completed_at_ms as int))
                &&& entry(told, "status"@) == Some(JsonView::Text("completed"@))
            },
            _ => true,
        },
{
    reveal_strlit("tool_call_id");
    assert("tool_call_id"@.len() == 12);
    reveal_strlit("completed_at_ms");
    assert("completed_at_ms"@.len() == 15);
    reveal_strlit("status");
    assert("status"@.len() == 6);
    if event is AsyncToolCallCompleted {
        assert(told_keys(event_json(event)) =~= set!["tool_call_id"@, "completed_at_ms"@,
            "status"@]);
    }
}

/// A tool call that failed is told as failed, with the time and the error.
pub proof fn async_tool_call_failed_is_told(event: SessionEventView)
    ensures
        match event {
            SessionEventView::AsyncToolCallFailed { tool_call_id, error, completed_at_ms, } => {
                let told = event_json(event);
                &&& tells_only(told, set!["tool_call_id"@, "completed_at_ms"@, "status"@, "error"@])
                &&& entry(told, "tool_call_id"@) == Some(JsonView::Text(tool_call_id))
                &&& entry(told, "completed_at_ms"@)
                    == Some(JsonView::Integer(completed_at_ms as int))
                &&& entry(told, "status"@) == Some(JsonView::Text("failed"@))
                &&& entry(told, "error"@) == Some(tool_error_json(error))
            },
            _ => true,
        },
{
    reveal_strlit("tool_call_id");
    assert("tool_call_id"@.len() == 12);
    reveal_strlit("completed_at_ms");
    assert("completed_at_ms"@.len() == 15);
    reveal_strlit("status");
    assert("status"@.len() == 6);
    reveal_strlit("error");
    assert("error"@.len() == 5);
    if event is AsyncToolCallFailed {
        assert(told_keys(event_json(event)) =~= set!["tool_call_id"@, "completed_at_ms"@, "status"@,
            "error"@]);
    }
}

/// A tool call that was cancelled is told as cancelled, with the time and the reason.
pub proof fn async_tool_call_cancelled_is_told(event: SessionEventView)
    ensures
        match event {
            SessionEventView::AsyncToolCallCancelled { tool_call_id, reason, completed_at_ms, } => {
                let told = event_json(event);
                &&& tells_only(told, set!["tool_call_id"@, "completed_at_ms"@, "status"@,
                    "reason"@])
                &&& entry(told, "tool_call_id"@) == Some(JsonView::Text(tool_call_id))
                &&& entry(told, "completed_at_ms"@)
                    == Some(JsonView::Integer(completed_at_ms as int))
                &&& entry(told, "status"@) == Some(JsonView::Text("cancelled"@))
                &&& entry(told, "reason"@) == Some(JsonView::Text(reason))
            },
            _ => true,
        },
{
    reveal_strlit("tool_call_id");
    assert("tool_call_id"@.len() == 12);
    reveal_strlit("completed_at_ms");
    assert("completed_at_ms"@.len() == 15);
    reveal_strlit("status");
    assert("status"@.len() == 6);
    reveal_strlit("reason");
    assert("reason"@.len() == 6);
    assert("status"@[0] != "reason"@[0]);
    if event is AsyncToolCallCancelled {
        assert(told_keys(event_json(event)) =~= set!["tool_call_id"@, "completed_at_ms"@, "status"@,
            "reason"@]);
    }
}

/// An event is stored under a name of its kind.
pub proof fn events_are_stored_by_kind(event: SessionEventView)
    ensures
        match event {
            SessionEventView::SessionCreated { .. } => event_kind(event) == "session_created"@,
            SessionEventView::ModelSelectionChanged { .. } => event_kind(event)
                == "model_selection_changed"@,
            SessionEventView::StatusChanged { .. } => event_kind(event) == "status_changed"@,
            SessionEventView::DeliveryQueued { .. } => event_kind(event) == "delivery_queued"@,
            SessionEventView::DeliveryAcknowledged { .. } => event_kind(event)
                == "delivery_acknowledged"@,
            SessionEventView::DeliveryMaterialized { .. } => event_kind(event)
                == "delivery_materialized"@,
            SessionEventView::MessageAppended { .. } => event_kind(event) == "message_appended"@,
            SessionEventView::ActivationStarted { .. } => event_kind(event)
                == "activation_started"@,
            SessionEventView::ModelRoundStarted { .. } => event_kind(event)
                == "model_round_started"@,
            SessionEventView::ContextHandoffPlanned { .. } => event_kind(event)
                == "context_handoff_planned"@,
            SessionEventView::ContextHandoffCreated { .. } => event_kind(event)
                == "context_handoff_created"@,
            SessionEventView::ContextHandoffFailed { .. } => event_kind(event)
                == "context_handoff_failed"@,
            SessionEventView::ModelRequestPrepared { .. } => event_kind(event)
                == "model_request_prepared"@,
            SessionEventView::ModelRequestDeclared { .. } => event_kind(event)
                == "model_request_declared"@,
            SessionEventView::ModelAttemptStarted { .. } => event_kind(event)
                == "model_attempt_started"@,
            SessionEventView::ModelAttemptFailedFact { .. } => event_kind(event)
                == "model_attempt_failed"@,
            SessionEventView::ModelAttemptInterrupted { .. } => event_kind(event)
                == "model_attempt_interrupted"@,
            SessionEventView::ModelRequestAbandoned { .. } => event_kind(event)
                == "model_request_abandoned"@,
            SessionEventView::ModelAttemptsExhausted { .. } => event_kind(event)
                == "model_attempts_exhausted"@,
            SessionEventView::ModelStepRetryScheduled { .. } => event_kind(event)
                == "model_step_retry_scheduled"@,
            SessionEventView::ModelRequestCompleted { .. } => event_kind(event)
                == "model_request_completed"@,
            SessionEventView::ActivationFinished { .. } => event_kind(event)
                == "activation_finished"@,
            SessionEventView::ModelAttemptFailed { .. } => event_kind(event)
                == "model_attempt_failed"@,
            SessionEventView::WaitSet { .. } => event_kind(event) == "wait_set"@,
            SessionEventView::WaitTimerScheduled { .. } => event_kind(event)
                == "wait_timer_scheduled"@,
            SessionEventView::WaitCleared { .. } => event_kind(event) == "wait_cleared"@,
            SessionEventView::WaitExpired { .. } => event_kind(event) == "wait_expired"@,
            SessionEventView::AsyncToolCallStarted { .. } => event_kind(event)
                == "async_tool_call_started"@,
            SessionEventView::AsyncToolCallRunning { .. } => event_kind(event)
                == "async_tool_call_running"@,
            SessionEventView::AsyncToolCallUnknownOutcome { .. } => event_kind(event)
                == "async_tool_call_unknown_outcome"@,
            SessionEventView::AsyncToolCallCallbackFailed { .. } => event_kind(event)
                == "async_tool_call_callback_failed"@,
            SessionEventView::AsyncToolCallProgress { .. } => event_kind(event)
                == "async_tool_call_progress"@,
            SessionEventView::AsyncToolCallCompleted { .. } => event_kind(event)
                == "async_tool_call_completed"@,
            SessionEventView::AsyncToolCallFailed { .. } => event_kind(event)
                == "async_tool_call_failed"@,
            SessionEventView::AsyncToolCallCancelled { .. } => event_kind(event)
                == "async_tool_call_cancelled"@,
            SessionEventView::DedupeRecorded { .. } => event_kind(event) == "dedupe_recorded"@,
            SessionEventView::AsyncToolCallRuntimeRestarted { .. } => event_kind(event)
                == "async_tool_call_runtime_restarted"@,
            SessionEventView::AsyncToolCallCallbackPlanned { .. } => event_kind(event)
                == "async_tool_call_callback_planned"@,
            SessionEventView::AsyncToolCallCallbackCompleted { .. } => event_kind(event)
                == "async_tool_call_callback_completed"@,
        },
{
}

/// An event is told under the name of its kind. A message of the assistant that calls nothing is
/// told as committed, and how a call ended is told whether a callback ended it or not.
pub proof fn events_are_told_by_kind(event: SessionEventView)
    ensures
        match event {
            SessionEventView::MessageAppended { message, .. } => told_kind(event) == if message.role
                == TranscriptRole::Assistant && message.tool_calls.len() == 0 {
                "assistant_message_committed"@
            } else {
                "message_appended"@
            },
            SessionEventView::SessionCreated { .. } => told_kind(event) == "session_created"@,
            SessionEventView::ModelSelectionChanged { .. } => told_kind(event)
                == "model_selection_changed"@,
            SessionEventView::StatusChanged { .. } => told_kind(event) == "status_changed"@,
            SessionEventView::DeliveryQueued { .. } => told_kind(event) == "delivery_queued"@,
            SessionEventView::DeliveryAcknowledged { .. } => told_kind(event)
                == "delivery_acknowledged"@,
            SessionEventView::DeliveryMaterialized { .. } => told_kind(event)
                == "delivery_materialized"@,
            SessionEventView::ActivationStarted { .. } => told_kind(event) == "activation_started"@,
            SessionEventView::ModelRoundStarted { .. } => told_kind(event)
                == "model_round_started"@,
            SessionEventView::ContextHandoffPlanned { .. } => told_kind(event)
                == "context_handoff_planned"@,
            SessionEventView::ContextHandoffCreated { .. } => told_kind(event)
                == "context_handoff_created"@,
            SessionEventView::ContextHandoffFailed { .. } => told_kind(event)
                == "context_handoff_failed"@,
            SessionEventView::ModelRequestPrepared { .. } => told_kind(event)
                == "model_request_prepared"@,
            SessionEventView::ModelRequestDeclared { .. } => told_kind(event)
                == "model_request_declared"@,
            SessionEventView::ModelAttemptStarted { .. } => told_kind(event)
                == "model_attempt_started"@,
            SessionEventView::ModelAttemptFailedFact { .. } => told_kind(event)
                == "model_attempt_failed"@,
            SessionEventView::ModelAttemptInterrupted { .. } => told_kind(event)
                == "model_attempt_interrupted"@,
            SessionEventView::ModelRequestAbandoned { .. } => told_kind(event)
                == "model_request_abandoned"@,
            SessionEventView::ModelAttemptsExhausted { .. } => told_kind(event)
                == "model_attempts_exhausted"@,
            SessionEventView::ModelStepRetryScheduled { .. } => told_kind(event)
                == "model_step_retrying"@,
            SessionEventView::ModelRequestCompleted { .. } => told_kind(event)
                == "model_request_completed"@,
            SessionEventView::ActivationFinished { .. } => told_kind(event)
                == "activation_finished"@,
            SessionEventView::ModelAttemptFailed { .. } => told_kind(event)
                == "model_attempt_failed"@,
            SessionEventView::WaitSet { .. } => told_kind(event) == "wait_set"@,
            SessionEventView::WaitTimerScheduled { .. } => told_kind(event)
                == "wait_timer_scheduled"@,
            SessionEventView::WaitCleared { .. } => told_kind(event) == "wait_cleared"@,
            SessionEventView::WaitExpired { .. } => told_kind(event) == "wait_expired"@,
            SessionEventView::AsyncToolCallStarted { .. } => told_kind(event)
                == "async_tool_call_started"@,
            SessionEventView::AsyncToolCallRunning { .. } => told_kind(event)
                == "async_tool_call_running"@,
            SessionEventView::AsyncToolCallUnknownOutcome { .. } => told_kind(event)
                == "async_tool_call_unknown_outcome"@,
            SessionEventView::AsyncToolCallCallbackFailed { .. } => told_kind(event)
                == "async_tool_call_failed"@,
            SessionEventView::AsyncToolCallProgress { .. } => told_kind(event)
                == "async_tool_call_progress"@,
            SessionEventView::AsyncToolCallCompleted { .. } => told_kind(event)
                == "async_tool_call_completed"@,
            SessionEventView::AsyncToolCallFailed { .. } => told_kind(event)
                == "async_tool_call_failed"@,
            SessionEventView::AsyncToolCallCancelled { .. } => told_kind(event)
                == "async_tool_call_cancelled"@,
            SessionEventView::DedupeRecorded { .. } => told_kind(event) == "dedupe_recorded"@,
            SessionEventView::AsyncToolCallRuntimeRestarted { .. } => told_kind(event)
                == "async_tool_call_runtime_restarted"@,
            SessionEventView::AsyncToolCallCallbackPlanned { .. } => told_kind(event)
                == "async_tool_call_callback_planned"@,
            SessionEventView::AsyncToolCallCallbackCompleted { .. } => told_kind(event)
                == "async_tool_call_completed"@,
        },
{
}

/// What the runtime claims for itself, and keys, are told to nobody; every other event is told,
/// under its position as its id, with its session, its version, its kind and its facts.
pub proof fn all_but_claims_are_told(record: EventRecordView)
    ensures
        told_event(record) is None <==> {
            ||| record.event is ModelRequestPrepared
            ||| record.event is ModelRequestDeclared
            ||| record.event is ContextHandoffPlanned
            ||| record.event is ModelAttemptStarted
            ||| record.event is ModelRequestAbandoned
            ||| record.event is ModelRequestCompleted
            ||| record.event is WaitTimerScheduled
            ||| record.event is AsyncToolCallCallbackPlanned
            ||| record.event is DedupeRecorded
        },
        told_event(record) matches Some(event) ==> {
            &&& event.id == decimal(record.global_position as nat)
            &&& event.session_id == record.stream_id
            &&& event.version == record.stream_version
            &&& event.kind == told_kind(record.event)
            &&& event.data == event_json(record.event)
        },
{
}

/// The body of an event holds all of it, each part under its own name.
pub proof fn body_holds_the_event(event: PublicEventView)
    ensures
        ({
            let told = event_body(event);
            &&& tells_only(told, set!["schema"@, "id"@, "session_id"@, "version"@, "kind"@,
                "data"@])
            &&& entry(told, "schema"@) == Some(JsonView::Text("zode.event.v1"@))
            &&& entry(told, "id"@) == Some(JsonView::Text(event.id))
            &&& entry(told, "session_id"@) == Some(JsonView::Text(event.session_id))
            &&& entry(told, "version"@) == Some(JsonView::Integer(event.version as int))
            &&& entry(told, "kind"@) == Some(JsonView::Text(event.kind))
            &&& entry(told, "data"@) == Some(event.data)
        }),
{
    reveal_strlit("schema");
    assert("schema"@.len() == 6);
    reveal_strlit("id");
    assert("id"@.len() == 2);
    reveal_strlit("session_id");
    assert("session_id"@.len() == 10);
    reveal_strlit("version");
    assert("version"@.len() == 7);
    reveal_strlit("kind");
    assert("kind"@.len() == 4);
    reveal_strlit("data");
    assert("data"@.len() == 4);
    assert("kind"@[0] != "data"@[0]);
    assert(told_keys(event_body(event)) =~= set!["schema"@, "id"@, "session_id"@, "version"@,
        "kind"@, "data"@]);
}

/// The body of text of a model holds the text and where it belongs.
pub proof fn body_holds_the_text(event: TransientModelEventView)
    ensures
        ({
            let told = text_body(event);
            &&& tells_only(told, set!["schema"@, "session_id"@, "activation_id"@, "round_id"@,
                "text"@])
            &&& entry(told, "schema"@) == Some(JsonView::Text("zode.transient-event.v1"@))
            &&& entry(told, "session_id"@) == Some(JsonView::Text(event.session_id))
            &&& entry(told, "activation_id"@) == Some(JsonView::Text(event.activation_id))
            &&& entry(told, "round_id"@) == Some(JsonView::Text(event.round_id))
            &&& entry(told, "text"@) == Some(JsonView::Text(event.text))
        }),
{
    reveal_strlit("schema");
    assert("schema"@.len() == 6);
    reveal_strlit("session_id");
    assert("session_id"@.len() == 10);
    reveal_strlit("activation_id");
    assert("activation_id"@.len() == 13);
    reveal_strlit("round_id");
    assert("round_id"@.len() == 8);
    reveal_strlit("text");
    assert("text"@.len() == 4);
    assert(told_keys(text_body(event)) =~= set!["schema"@, "session_id"@, "activation_id"@,
        "round_id"@, "text"@]);
}

/// A failure inside is told as such, and not as one to be tried again.
pub proof fn body_tells_the_failure()
    ensures
        ({
            let told = failure_body();
            &&& tells_only(told, set!["schema"@, "error"@])
            &&& entry(told, "schema"@) == Some(JsonView::Text("zode.event.v1"@))
            &&& entry(told, "error"@) matches Some(inner) && {
&&& tells_only(inner, set!["code"@, "message"@, "retryable"@])
&&& entry(inner, "code"@) == Some(JsonView::Text("internal_error"@))
&&& entry(inner, "message"@) == Some(JsonView::Text("internal server error"@))
&&& entry(inner, "retryable"@) == Some(JsonView::Bool(false))
}
        }),
{
    reveal_strlit("schema");
    assert("schema"@.len() == 6);
    reveal_strlit("error");
    assert("error"@.len() == 5);
    reveal_strlit("code");
    assert("code"@.len() == 4);
    reveal_strlit("message");
    assert("message"@.len() == 7);
    reveal_strlit("retryable");
    assert("retryable"@.len() == 9);
    assert(told_keys(failure_body()) =~= set!["schema"@, "error"@]);
}

/// An event of the stream is sent under its id and its kind, with its body; text of a model without
/// an id; a failure as an error; and nothing else is sent.
pub proof fn frames_hold_what_is_told(action: StreamActionView)
    ensures
        match action {
            StreamActionView::TellDurable(event) => frame_for(action) == Some(
                StreamFrameView::Event {
                    id: Some(event.id),
                    kind: event.kind,
                    data: event_body(event),
                },
            ),
            StreamActionView::TellTransient(event) => frame_for(action) == Some(
                StreamFrameView::Event {
                    id: None,
                    kind: "assistant_message_delta"@,
                    data: text_body(event),
                },
            ),
            StreamActionView::Fail => frame_for(action) == Some(
                StreamFrameView::Event { id: None, kind: "error"@, data: failure_body() },
            ),
            _ => frame_for(action) is None,
        },
        opening() == StreamFrameView::Comment("stream-open"@),
{
}

} // verus!
