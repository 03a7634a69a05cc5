//! Sessions: their events, and what stays true of them.

use serde_json::Value;
use zode::domain::{
    ActivationOutcome, ActiveWait, AsyncCallbackBinding, AsyncToolCallRecord, AsyncToolStatus,
    CompletionMode, ContextHandoffDocument, ContextHandoffPlan, DeliveryKind, DomainError,
    DurablePayload, EventRecord, ModelAttemptError, ModelAttemptErrorClass, ModelAttemptFailure,
    ModelAttemptOutcome, ModelAttemptsExhaustedFact, ModelRequestPurpose, ModelRetrySchedule,
    ModelUsageAnchor, ProviderExecutionSelection, QueuedDelivery, SessionEvent,
    SessionModelSelection, SessionOwner, SessionSelection, SessionState, SessionStatus, ToolCall,
    ToolError, TranscriptMessage, TranscriptRole, WaitSource, WaitTimerIntent,
    MAX_IDENTIFIER_BYTES, MAX_RECENT_DEDUPE_FACTS,
};
use zode::text_map::TextMap;

fn text(value: &str) -> DurablePayload {
    DurablePayload::inline(Value::String(value.to_string())).unwrap()
}

fn execution() -> ProviderExecutionSelection {
    ProviderExecutionSelection {
        schema: "zode.provider-execution.v1".to_string(),
        revision: 1,
        kind: "openai_compatible".to_string(),
        base_url: "https://models.test/v1".to_string(),
        options: TextMap::new(),
    }
}

fn model() -> SessionModelSelection {
    SessionModelSelection {
        provider: "models".to_string(),
        provider_execution: execution(),
        model: "m-1".to_string(),
        limits: None,
        auth_authority_id: "authority".to_string(),
        auth_profile_id: "profile".to_string(),
        auth_revision: 1,
    }
}

fn selection() -> SessionSelection {
    SessionSelection { model: Some(model()), tools: vec![], callback_base_url: None }
}

fn created(id: &str) -> SessionEvent {
    SessionEvent::SessionCreated {
        schema_version: 2,
        session_id: id.to_string(),
        owner: SessionOwner::new("authority".to_string(), "subject".to_string()),
        created_at_ms: 5,
        selection: selection(),
    }
}

fn session() -> SessionState {
    SessionState::new("s".to_string()).apply_event(&created("s")).unwrap()
}

fn message(id: &str, role: TranscriptRole, content: &str) -> TranscriptMessage {
    TranscriptMessage {
        message_id: id.to_string(),
        role,
        content: content.to_string(),
        tool_call_id: None,
        tool_calls: vec![],
        dedupe_key: None,
        source_queue_id: None,
    }
}

fn appended(message: TranscriptMessage) -> SessionEvent {
    SessionEvent::MessageAppended { message, wake_wait: true }
}

fn delivery(queue_id: u64, id: &str) -> QueuedDelivery {
    QueuedDelivery {
        queue_id,
        delivery_id: id.to_string(),
        kind: DeliveryKind::UserInput,
        payload: text("hello"),
        dedupe_key: format!("key:{}", id),
        wake: true,
        created_at_ms: Some(1),
        source_tool_call_id: None,
        materialized_message_id: None,
    }
}

fn materialized(queue_id: u64, id: &str) -> SessionEvent {
    let mut message = message(id, TranscriptRole::User, "hello");
    message.source_queue_id = Some(queue_id);
    SessionEvent::DeliveryMaterialized { queue_id, message }
}

fn wait(id: &str) -> ActiveWait {
    ActiveWait {
        wait_id: id.to_string(),
        reason: "for a tool".to_string(),
        timeout_seconds: 30,
        deadline_ms: 100,
        source: WaitSource::WaitFor,
        tool_call_ids: vec![],
    }
}

fn record(version: u64, event: SessionEvent) -> EventRecord {
    EventRecord {
        stream_id: "s".to_string(),
        stream_version: version,
        global_position: 10 + version,
        event_id: format!("e-{}", version),
        command_id: "c".to_string(),
        event_schema_version: 1,
        event,
    }
}

fn with_call() -> SessionState {
    let mut declaring = message("a", TranscriptRole::Assistant, "");
    declaring.tool_calls = vec![
        ToolCall { tool_call_id: "t".to_string(), tool_name: "look".to_string(), input: text("x") },
        ToolCall { tool_call_id: "u".to_string(), tool_name: "call".to_string(), input: text("y") },
    ];
    session().apply_event(&appended(declaring)).unwrap()
}

fn call(id: &str, name: &str, input: &str, mode: CompletionMode) -> AsyncToolCallRecord {
    AsyncToolCallRecord {
        tool_call_id: id.to_string(),
        tool_name: name.to_string(),
        input: text(input),
        status: AsyncToolStatus::Planned,
        started_at_ms: 50,
        auto_wait_seconds: Some(30),
        completion_mode: mode,
        retry_dispatch_deduplicated: false,
        progress: None,
        result: None,
        error: None,
        cancel_reason: None,
        completed_at_ms: None,
    }
}

fn running_call() -> SessionState {
    with_call()
        .apply_events(&[
            SessionEvent::AsyncToolCallStarted {
                record: call("t", "look", "x", CompletionMode::ProcessLocal),
            },
            SessionEvent::AsyncToolCallRunning { tool_call_id: "t".to_string() },
        ])
        .unwrap()
}

fn activation() -> SessionEvent {
    SessionEvent::ActivationStarted {
        activation_id: "act".to_string(),
        selection: selection(),
        selection_version: 1,
        minimum_auth_revision: 1,
        started_at_ms: 6,
    }
}

fn round(purpose: ModelRequestPurpose) -> SessionEvent {
    SessionEvent::ModelRoundStarted {
        activation_id: "act".to_string(),
        round_id: "r".to_string(),
        purpose,
        delivery_through_queue_id: 1,
        started_at_ms: 7,
    }
}

fn declared() -> SessionEvent {
    let print = format!("sha256:v1:{}", "0".repeat(64));
    SessionEvent::ModelRequestDeclared {
        activation_id: "act".to_string(),
        round_id: "r".to_string(),
        request_id: "q".to_string(),
        request_fingerprint: print.clone(),
        provider_execution_fingerprint: print.clone(),
        prompt_fingerprint: print.clone(),
        tool_schema_fingerprint: print,
        maximum_attempts: 3,
        minimum_auth_revision: 1,
    }
}

fn attempt(id: &str, number: u32) -> SessionEvent {
    SessionEvent::ModelAttemptStarted {
        activation_id: "act".to_string(),
        round_id: "r".to_string(),
        request_id: "q".to_string(),
        attempt_id: id.to_string(),
        attempt_number: number,
        auth_revision: 1,
        started_at_ms: 8,
    }
}

fn attempt_failed(id: &str, number: u32) -> SessionEvent {
    SessionEvent::ModelAttemptFailedFact {
        activation_id: "act".to_string(),
        round_id: "r".to_string(),
        request_id: "q".to_string(),
        attempt_id: id.to_string(),
        attempt_number: number,
        error_class: "transport".to_string(),
        retryable: true,
    }
}

fn completed(id: &str, usage: Option<ModelUsageAnchor>) -> SessionEvent {
    SessionEvent::ModelRequestCompleted {
        activation_id: "act".to_string(),
        round_id: "r".to_string(),
        request_id: "q".to_string(),
        attempt_id: id.to_string(),
        usage,
    }
}

fn retry() -> ModelRetrySchedule {
    ModelRetrySchedule {
        activation_id: "act".to_string(),
        round_id: "r".to_string(),
        request_id: "q".to_string(),
        failed_attempt_id: "t-1".to_string(),
        next_attempt_id: "t-2".to_string(),
        failed_attempt_number: 1,
        next_attempt_number: 2,
        delay_ms: 500,
        not_before_ms: 600,
        maximum_attempts: 3,
        error_class: "transport".to_string(),
    }
}

fn attempting() -> SessionState {
    session()
        .apply_events(&[
            activation(),
            round(ModelRequestPurpose::Conversation),
            declared(),
            attempt("t-1", 1),
        ])
        .unwrap()
}

fn outcome(state: &SessionState) -> ModelAttemptOutcome {
    state.active_model_round.as_ref().unwrap().attempt.as_ref().unwrap().outcome
}

#[test]
fn a_session_begins_with_its_creation() {
    let empty = SessionState::new("s".to_string());
    assert_eq!(empty.validate(), Ok(()));
    assert_eq!(empty.stream_version, 0);
    assert_eq!(
        empty.apply_event(&SessionEvent::StatusChanged { status: SessionStatus::Active }),
        Err(DomainError::SessionNotCreated)
    );
    let state = session();
    assert_eq!(state.stream_version, 1);
    assert_eq!(state.selection_version, 1);
    assert_eq!(state.created_at_ms, Some(5));
    assert_eq!(state.selection, selection());
    assert_eq!(state.apply_event(&created("s")), Err(DomainError::SessionAlreadyCreated));
    assert_eq!(
        empty.apply_event(&created("other")),
        Err(DomainError::SessionMismatch {
            expected: "s".to_string(),
            actual: "other".to_string()
        })
    );
}

#[test]
fn a_creation_is_checked() {
    let empty = SessionState::new("s".to_string());
    let changed = |schema_version: u32, subject: &str, created_at_ms: i64| {
        empty.apply_event(&SessionEvent::SessionCreated {
            schema_version,
            session_id: "s".to_string(),
            owner: SessionOwner::new("authority".to_string(), subject.to_string()),
            created_at_ms,
            selection: selection(),
        })
    };
    assert!(changed(2, "subject", 0).is_ok());
    assert_eq!(
        changed(1, "subject", 0),
        Err(DomainError::UnsupportedSessionCreatedSchema(1))
    );
    assert_eq!(changed(2, "subject", -1), Err(DomainError::InvalidCreatedAt));
    assert!(matches!(changed(2, "", 0), Err(DomainError::EmptyField { .. })));
    let long = "x".repeat(MAX_IDENTIFIER_BYTES + 1);
    assert!(matches!(
        changed(2, &long, 0),
        Err(DomainError::TextTooLarge { bytes: 513, max: 512, .. })
    ));
}

#[test]
fn an_owner_is_made_of_identifiers() {
    assert!(SessionOwner::try_new("a".to_string(), "b".to_string()).is_ok());
    assert!(SessionOwner::try_new("".to_string(), "b".to_string()).is_err());
    assert!(SessionOwner::new("a".to_string(), "".to_string()).validate().is_err());
}

#[test]
fn a_status_that_holds_already_changes_nothing() {
    let state = session();
    let active = SessionEvent::StatusChanged { status: SessionStatus::Active };
    let next = state.apply_event(&active).unwrap();
    assert_eq!(next.stream_version, 2);
    assert_eq!(next.status, SessionStatus::Active);
    assert_eq!(next.apply_event(&active).unwrap(), next);
}

#[test]
fn a_selection_gets_a_new_version() {
    let mut chosen = selection();
    chosen.tools = vec!["look".to_string()];
    let next = session()
        .apply_event(&SessionEvent::ModelSelectionChanged { selection: chosen.clone() })
        .unwrap();
    assert_eq!(next.selection, chosen);
    assert_eq!(next.selection_version, 2);
}

#[test]
fn a_message_is_taken_once() {
    let state = session();
    let hello = message("m", TranscriptRole::User, "hello");
    let next = state.apply_event(&appended(hello.clone())).unwrap();
    assert_eq!(next.transcript, vec![hello.clone()]);
    assert_eq!(next.stream_version, 2);
    assert!(next.dedupe_facts.contains("message:m"));
    assert_eq!(next.apply_event(&appended(hello)).unwrap(), next);
    assert_eq!(
        next.apply_event(&appended(message("m", TranscriptRole::User, "other"))),
        Err(DomainError::ConflictingTranscriptMessage("m".to_string()))
    );
}

#[test]
fn a_dedupe_key_keeps_a_second_message_out() {
    let mut first = message("m", TranscriptRole::User, "hello");
    first.dedupe_key = Some("key".to_string());
    let mut second = message("n", TranscriptRole::User, "hello");
    second.dedupe_key = Some("key".to_string());
    let state = session().apply_event(&appended(first)).unwrap();
    assert_eq!(state.apply_event(&appended(second)).unwrap(), state);
}

#[test]
fn only_an_assistant_declares_calls() {
    let mut declaring = message("m", TranscriptRole::User, "");
    declaring.tool_calls =
        vec![ToolCall { tool_call_id: "t".to_string(), tool_name: "look".to_string(), input: text("x") }];
    assert_eq!(
        session().apply_event(&appended(declaring)),
        Err(DomainError::InvalidState("only assistant messages may declare tool calls".to_string()))
    );
    let mut answer = message("n", TranscriptRole::Tool, "y");
    answer.tool_call_id = Some("t".to_string());
    assert_eq!(
        session().apply_event(&appended(answer.clone())),
        Err(DomainError::UnknownToolCall("t".to_string()))
    );
    assert!(with_call().apply_event(&appended(answer)).is_ok());
    let mut again = message("b", TranscriptRole::Assistant, "");
    again.tool_calls =
        vec![ToolCall { tool_call_id: "t".to_string(), tool_name: "look".to_string(), input: text("x") }];
    assert_eq!(
        with_call().apply_event(&appended(again)),
        Err(DomainError::DuplicateTranscriptToolCallId("t".to_string()))
    );
}

#[test]
fn deliveries_go_through_the_queue_in_order() {
    let queue = |state: &SessionState, delivery: QueuedDelivery| {
        state.apply_event(&SessionEvent::DeliveryQueued { delivery })
    };
    let acknowledge = |state: &SessionState, through_queue_id: u64| {
        state.apply_event(&SessionEvent::DeliveryAcknowledged { through_queue_id })
    };
    let state = session();
    assert_eq!(
        queue(&state, delivery(2, "d-2")),
        Err(DomainError::DeliveryQueueOrder { expected: 1, actual: 2 })
    );
    let one = queue(&state, delivery(1, "d-1")).unwrap();
    assert!(one.dedupe_facts.contains("delivery:d-1"));
    assert!(one.dedupe_facts.contains("key:d-1"));
    assert_eq!(queue(&one, delivery(1, "d-1")).unwrap(), one);
    assert_eq!(
        queue(&one, delivery(1, "d-9")),
        Err(DomainError::ConflictingDelivery("d-9".to_string()))
    );
    assert_eq!(queue(&one, delivery(2, "d-1")).unwrap(), one);
    let two = queue(&one, delivery(2, "d-2")).unwrap();
    assert_eq!(two.delivery_queue.len(), 2);
    assert_eq!(
        acknowledge(&two, 3),
        Err(DomainError::AckBeyondEnqueued { requested: 3, max_queued: 2 })
    );
    assert_eq!(acknowledge(&two, 1), Err(DomainError::DeliveryNotMaterialized(1)));
    assert_eq!(
        two.apply_event(&materialized(2, "m-2")),
        Err(DomainError::InvalidState("deliveries must materialize in queue order".to_string()))
    );
    assert_eq!(
        two.apply_event(&materialized(3, "m-3")),
        Err(DomainError::UnknownDelivery(3))
    );
    let stored = two.apply_event(&materialized(1, "m-1")).unwrap();
    assert_eq!(stored.transcript.len(), 1);
    assert_eq!(stored.apply_event(&materialized(1, "m-1")).unwrap(), stored);
    assert_eq!(
        stored.apply_event(&materialized(1, "m-9")),
        Err(DomainError::ConflictingDelivery("d-1".to_string()))
    );
    let done = acknowledge(&stored, 1).unwrap();
    assert_eq!(done.delivery_ack, 1);
    assert_eq!(done.delivery_queue.len(), 1);
    assert_eq!(done.delivery_queue[0].queue_id, 2);
    assert_eq!(acknowledge(&done, 1).unwrap(), done);
    assert_eq!(queue(&done, delivery(1, "d-8")).unwrap(), done);
}

#[test]
fn a_materialized_message_names_its_place() {
    let state = session()
        .apply_event(&SessionEvent::DeliveryQueued { delivery: delivery(1, "d-1") })
        .unwrap();
    let event = SessionEvent::DeliveryMaterialized {
        queue_id: 1,
        message: message("m", TranscriptRole::User, "hello"),
    };
    assert_eq!(state.apply_event(&event), Err(DomainError::MaterializationIdentity(1)));
}

#[test]
fn a_wait_ends_by_its_own_name() {
    let waiting = session().apply_event(&SessionEvent::WaitSet { wait: wait("w") }).unwrap();
    assert_eq!(waiting.active_wait, Some(wait("w")));
    assert_eq!(
        waiting.apply_event(&SessionEvent::WaitSet { wait: wait("w") }).unwrap(),
        waiting
    );
    let timer = WaitTimerIntent { wait_id: "w".to_string(), deadline_ms: 100 };
    let timed = waiting
        .apply_event(&SessionEvent::WaitTimerScheduled { timer: timer.clone() })
        .unwrap();
    assert_eq!(timed.active_timer, Some(timer));
    assert_eq!(
        waiting.apply_event(&SessionEvent::WaitTimerScheduled {
            timer: WaitTimerIntent { wait_id: "w".to_string(), deadline_ms: 99 },
        }),
        Err(DomainError::InvalidState("wait timer does not match active wait".to_string()))
    );
    assert_eq!(
        timed.apply_event(&SessionEvent::WaitExpired { wait_id: "v".to_string() }).unwrap(),
        timed
    );
    let ended = timed.apply_event(&SessionEvent::WaitExpired { wait_id: "w".to_string() }).unwrap();
    assert_eq!(ended.active_wait, None);
    assert_eq!(ended.active_timer, None);
}

#[test]
fn a_waking_delivery_outlives_the_timer() {
    let state = session()
        .apply_events(&[
            SessionEvent::WaitSet { wait: wait("w") },
            SessionEvent::DeliveryQueued { delivery: delivery(1, "d-1") },
        ])
        .unwrap();
    assert_eq!(state.wake_pending_wait_id, Some("w".to_string()));
    assert_eq!(
        state.apply_event(&SessionEvent::WaitExpired { wait_id: "w".to_string() }).unwrap(),
        state
    );
    let woken = state.apply_event(&materialized(1, "m-1")).unwrap();
    assert_eq!(woken.active_wait, None);
    assert_eq!(woken.wake_pending_wait_id, None);
}

#[test]
fn the_seconds_of_a_wait_are_bounded() {
    for seconds in [0u32, 601] {
        let mut bad = wait("w");
        bad.timeout_seconds = seconds;
        assert_eq!(
            session().apply_event(&SessionEvent::WaitSet { wait: bad }),
            Err(DomainError::InvalidWaitTimeout)
        );
    }
}

#[test]
fn a_model_step_goes_through_its_phases() {
    let state = attempting();
    assert_eq!(outcome(&state), ModelAttemptOutcome::Running);
    assert_eq!(state.apply_event(&attempt("t-1", 1)).unwrap(), state);
    assert_eq!(
        state.apply_event(&attempt("t-2", 2)),
        Err(DomainError::InvalidState("model request already has an attempt".to_string()))
    );
    assert_eq!(
        state.apply_event(&declared()),
        Err(DomainError::InvalidState("model request was prepared more than once".to_string()))
    );
    assert_eq!(
        state.apply_event(&activation()),
        Err(DomainError::InvalidState("session already has an active activation".to_string()))
    );
    let done = state.apply_event(&completed("t-1", None)).unwrap();
    assert_eq!(outcome(&done), ModelAttemptOutcome::Completed);
    assert_eq!(done.apply_event(&completed("t-1", None)).unwrap(), done);
    let finished = done
        .apply_event(&SessionEvent::ActivationFinished {
            activation_id: "act".to_string(),
            outcome: ActivationOutcome::Finished,
            finished_at_ms: 9,
        })
        .unwrap();
    assert_eq!(finished.active_activation, None);
    assert_eq!(finished.active_model_round, None);
}

#[test]
fn the_first_outcome_of_an_attempt_wins() {
    let done = attempting().apply_event(&completed("t-1", None)).unwrap();
    assert_eq!(
        done.apply_event(&attempt_failed("t-1", 1)),
        Err(DomainError::InvalidState("model attempt failure is not first-wins".to_string()))
    );
    let failed = attempting().apply_event(&attempt_failed("t-1", 1)).unwrap();
    assert_eq!(outcome(&failed), ModelAttemptOutcome::Failed);
    assert_eq!(failed.apply_event(&attempt_failed("t-1", 1)).unwrap(), failed);
    assert_eq!(
        failed.apply_event(&completed("t-1", None)),
        Err(DomainError::InvalidState("model completion requires a running attempt".to_string()))
    );
}

#[test]
fn a_retry_takes_the_place_of_the_failed_attempt() {
    let scheduled = SessionEvent::ModelStepRetryScheduled { schedule: retry() };
    assert_eq!(
        attempting().apply_event(&scheduled),
        Err(DomainError::InvalidState(
            "retry schedule requires a failed or interrupted attempt".to_string()
        ))
    );
    let failed = attempting().apply_event(&attempt_failed("t-1", 1)).unwrap();
    let waiting = failed.apply_event(&scheduled).unwrap();
    assert_eq!(waiting.active_model_round.as_ref().unwrap().attempt, None);
    assert_eq!(
        waiting.apply_event(&attempt("t-3", 2)),
        Err(DomainError::InvalidState(
            "model attempt does not claim the scheduled retry".to_string()
        ))
    );
    let second = waiting.apply_event(&attempt("t-2", 2)).unwrap();
    let active = second.active_model_round.as_ref().unwrap();
    assert_eq!(active.retry, None);
    assert_eq!(active.attempt.as_ref().unwrap().attempt_number, 2);
}

#[test]
fn exhaustion_is_told_once() {
    let mut once = declared();
    if let SessionEvent::ModelRequestDeclared { maximum_attempts, .. } = &mut once {
        *maximum_attempts = 1;
    }
    let trying = session()
        .apply_events(&[
            activation(),
            round(ModelRequestPurpose::Conversation),
            once,
            attempt("t-1", 1),
        ])
        .unwrap();
    let fact = ModelAttemptsExhaustedFact {
        activation_id: "act".to_string(),
        round_id: "r".to_string(),
        request_id: "q".to_string(),
        attempt_id: "t-1".to_string(),
        attempt_number: 1,
        maximum_attempts: 1,
        finished_at_ms: 9,
    };
    let exhausted = SessionEvent::ModelAttemptsExhausted { fact: fact.clone() };
    assert_eq!(
        trying.apply_event(&exhausted),
        Err(DomainError::InvalidState(
            "model exhaustion requires a failed or interrupted attempt".to_string()
        ))
    );
    let failed = trying.apply_event(&attempt_failed("t-1", 1)).unwrap();
    let told = failed.apply_event(&exhausted).unwrap();
    assert_eq!(told.last_model_attempts_exhausted, Some(fact.clone()));
    assert_eq!(told.apply_event(&exhausted).unwrap(), told);
    let mut other = fact;
    other.finished_at_ms = 10;
    assert_eq!(
        told.apply_event(&SessionEvent::ModelAttemptsExhausted { fact: other }),
        Err(DomainError::InvalidState("model exhaustion has conflicting semantics".to_string()))
    );
}

#[test]
fn an_abandoned_request_frees_the_round() {
    let abandoned = SessionEvent::ModelRequestAbandoned {
        activation_id: "act".to_string(),
        round_id: "r".to_string(),
        request_id: "q".to_string(),
        attempt_id: "t-1".to_string(),
        reason: "restart".to_string(),
        abandoned_at_ms: 9,
    };
    assert_eq!(
        attempting().apply_event(&abandoned),
        Err(DomainError::InvalidState(
            "only a failed or interrupted model request can be abandoned".to_string()
        ))
    );
    let interrupted = attempting()
        .apply_event(&SessionEvent::ModelAttemptInterrupted {
            activation_id: "act".to_string(),
            round_id: "r".to_string(),
            request_id: "q".to_string(),
            attempt_id: "t-1".to_string(),
            attempt_number: 1,
            reason: "restart".to_string(),
        })
        .unwrap();
    let free = interrupted.apply_event(&abandoned).unwrap();
    assert_eq!(free.active_model_round, None);
    assert!(free.active_activation.is_some());
}

#[test]
fn a_terminal_failure_belongs_to_the_last_user_message() {
    let failure = ModelAttemptFailure {
        trigger_message_id: "m".to_string(),
        error: ModelAttemptError {
            class: ModelAttemptErrorClass::AuthReplicaUnavailable,
            message: "no credential".to_string(),
        },
    };
    let failed = SessionEvent::ModelAttemptFailed { failure: failure.clone() };
    assert_eq!(
        session().apply_event(&failed),
        Err(DomainError::InvalidState(
            "model attempt failure does not match the current user message".to_string()
        ))
    );
    let asked =
        session().apply_event(&appended(message("m", TranscriptRole::User, "hello"))).unwrap();
    let told = asked.apply_event(&failed).unwrap();
    assert_eq!(told.terminal_model_failure_for_last_user(), Some(&failure));
    let later =
        told.apply_event(&appended(message("n", TranscriptRole::Assistant, "again"))).unwrap();
    assert_eq!(later.terminal_model_failure_for_last_user(), None);
    assert_eq!(later.last_model_attempt_failure, Some(failure));
}

#[test]
fn a_call_is_declared_before_it_starts() {
    let started = |record| with_call().apply_event(&SessionEvent::AsyncToolCallStarted { record });
    assert!(started(call("t", "look", "x", CompletionMode::ProcessLocal)).is_ok());
    assert_eq!(
        started(call("v", "look", "x", CompletionMode::ProcessLocal)),
        Err(DomainError::UnknownToolCall("v".to_string()))
    );
    assert_eq!(
        started(call("t", "look", "z", CompletionMode::ProcessLocal)),
        Err(DomainError::ConflictingToolCallIdentity("t".to_string()))
    );
    let mut ended = call("t", "look", "x", CompletionMode::ProcessLocal);
    ended.status = AsyncToolStatus::Completed;
    assert_eq!(started(ended), Err(DomainError::InvalidAsyncToolStart("t".to_string())));
}

#[test]
fn a_call_that_has_ended_stays_as_it_is() {
    let running = running_call();
    assert_eq!(
        running.async_tool_calls.get("t").unwrap().status,
        AsyncToolStatus::Running
    );
    assert_eq!(
        running.apply_event(&SessionEvent::AsyncToolCallCompleted {
            tool_call_id: "t".to_string(),
            result: text("late"),
            completed_at_ms: 49,
        }),
        Err(DomainError::InvalidTimestampOrder { start: 50, end: 49 })
    );
    let done = running
        .apply_event(&SessionEvent::AsyncToolCallCompleted {
            tool_call_id: "t".to_string(),
            result: text("found"),
            completed_at_ms: 60,
        })
        .unwrap();
    let record = done.async_tool_calls.get("t").unwrap();
    assert_eq!(record.status, AsyncToolStatus::Completed);
    assert_eq!(record.result, Some(text("found")));
    for late in [
        SessionEvent::AsyncToolCallFailed {
            tool_call_id: "t".to_string(),
            error: ToolError { class: "c".to_string(), message: "m".to_string() },
            completed_at_ms: 70,
        },
        SessionEvent::AsyncToolCallCancelled {
            tool_call_id: "t".to_string(),
            reason: "r".to_string(),
            completed_at_ms: 70,
        },
        SessionEvent::AsyncToolCallProgress {
            tool_call_id: "t".to_string(),
            progress: text("half"),
        },
    ] {
        assert_eq!(done.apply_event(&late).unwrap(), done);
    }
}

#[test]
fn an_unknown_outcome_is_not_rewritten() {
    let unknown = running_call()
        .apply_event(&SessionEvent::AsyncToolCallUnknownOutcome {
            tool_call_id: "t".to_string(),
            reason: "restart".to_string(),
        })
        .unwrap();
    assert_eq!(
        unknown.apply_event(&SessionEvent::AsyncToolCallCompleted {
            tool_call_id: "t".to_string(),
            result: text("found"),
            completed_at_ms: 60,
        }),
        Err(DomainError::UnknownOutcomeTerminalConflict("t".to_string()))
    );
    assert_eq!(
        unknown.apply_event(&SessionEvent::AsyncToolCallRunning { tool_call_id: "t".to_string() }),
        Err(DomainError::InvalidState(
            "only a planned or safely reconcilable tool call can become running".to_string()
        ))
    );
}

#[test]
fn a_restart_ends_a_call() {
    let ended = running_call()
        .apply_event(&SessionEvent::AsyncToolCallRuntimeRestarted {
            tool_call_id: "t".to_string(),
            reason: "restart".to_string(),
            completed_at_ms: 60,
        })
        .unwrap();
    let record = ended.async_tool_calls.get("t").unwrap();
    assert_eq!(record.status, AsyncToolStatus::RuntimeRestarted);
    assert_eq!(
        record.error,
        Some(ToolError { class: "runtime_restarted".to_string(), message: "restart".to_string() })
    );
}

#[test]
fn a_callback_is_answered_once() {
    let planned = with_call()
        .apply_event(&SessionEvent::AsyncToolCallStarted {
            record: call("u", "call", "y", CompletionMode::ExternalCallback),
        })
        .unwrap();
    assert_eq!(
        planned.apply_event(&SessionEvent::AsyncToolCallRunning { tool_call_id: "u".to_string() }),
        Err(DomainError::InvalidState(
            "external callback tool must be bound before it becomes running".to_string()
        ))
    );
    let print = |digit: &str| format!("sha256:v1:{}", digit.repeat(64));
    let bound = planned
        .apply_event(&SessionEvent::AsyncToolCallCallbackPlanned {
            binding: AsyncCallbackBinding {
                callback_id: "cb".to_string(),
                tool_call_id: "u".to_string(),
                bearer_fingerprint: print("a"),
                payload_fingerprint: None,
            },
        })
        .unwrap();
    let answered = |fingerprint: String| SessionEvent::AsyncToolCallCallbackCompleted {
        callback_id: "cb".to_string(),
        tool_call_id: "u".to_string(),
        payload_fingerprint: fingerprint,
        result: text("answer"),
        completed_at_ms: 60,
    };
    let running = bound
        .apply_event(&SessionEvent::AsyncToolCallRunning { tool_call_id: "u".to_string() })
        .unwrap();
    let done = running.apply_event(&answered(print("b"))).unwrap();
    assert_eq!(done.async_tool_calls.get("u").unwrap().status, AsyncToolStatus::Completed);
    assert_eq!(done.apply_event(&answered(print("b"))).unwrap(), done);
    assert_eq!(
        done.apply_event(&answered(print("c"))),
        Err(DomainError::CallbackPayloadConflict("cb".to_string()))
    );
    let mut unknown = answered(print("b"));
    if let SessionEvent::AsyncToolCallCallbackCompleted { callback_id, .. } = &mut unknown {
        *callback_id = "other".to_string();
    }
    assert_eq!(
        running.apply_event(&unknown),
        Err(DomainError::UnknownCallback("other".to_string()))
    );
    let cancelled = running
        .apply_event(&SessionEvent::AsyncToolCallCancelled {
            tool_call_id: "u".to_string(),
            reason: "stop".to_string(),
            completed_at_ms: 55,
        })
        .unwrap();
    assert_eq!(
        cancelled.apply_event(&answered(print("b"))),
        Err(DomainError::CallbackTerminalConflict("u".to_string()))
    );
}

#[test]
fn a_handoff_leads_to_the_next_generation() {
    let start = session()
        .apply_events(&[
            appended(message("m", TranscriptRole::User, "hello")),
            activation(),
        ])
        .unwrap();
    let digest = format!("sha256:v1:{}", "0".repeat(64));
    let plan = ContextHandoffPlan {
        plan_id: "p".to_string(),
        activation_id: "act".to_string(),
        previous_handoff_id: None,
        next_generation: 2,
        covered_through_message_id: "m".to_string(),
        source_digest: digest.clone(),
        source_tokens: 10,
        token_accounting_version: 1,
        selection: model(),
    };
    let mut wrong = plan.clone();
    wrong.next_generation = 3;
    assert!(start.apply_event(&SessionEvent::ContextHandoffPlanned { plan: wrong }).is_err());
    let planned =
        start.apply_event(&SessionEvent::ContextHandoffPlanned { plan: plan.clone() }).unwrap();
    let handing = planned
        .apply_events(&[
            round(ModelRequestPurpose::ContextHandoff),
            declared(),
            attempt("t-1", 1),
            completed("t-1", None),
        ])
        .unwrap();
    let handoff = ContextHandoffDocument {
        handoff_id: "h".to_string(),
        plan_id: "p".to_string(),
        previous_handoff_id: None,
        next_generation: 2,
        covered_through_message_id: "m".to_string(),
        source_digest: digest.clone(),
        document: "what was said".to_string(),
        document_digest: digest,
        source_tokens: 10,
        document_tokens: 3,
        token_accounting_version: 1,
        selection: model(),
    };
    let created = handing
        .apply_event(&SessionEvent::ContextHandoffCreated { handoff: handoff.clone() })
        .unwrap();
    assert_eq!(created.pending_context_handoff, None);
    assert_eq!(created.latest_context_handoff, Some(handoff));
}

#[test]
fn keys_are_remembered_while_there_is_room() {
    let mut state = session();
    for number in 0..MAX_RECENT_DEDUPE_FACTS + 1 {
        state = state
            .apply_event(&SessionEvent::DedupeRecorded { key: format!("k-{}", number) })
            .unwrap();
    }
    assert_eq!(state.dedupe_facts.recent_keys.len(), MAX_RECENT_DEDUPE_FACTS);
    assert!(!state.dedupe_facts.contains("k-0"));
    assert!(state.dedupe_facts.contains("k-1"));
    assert!(state.dedupe_facts.contains("k-256"));
    let last = SessionEvent::DedupeRecorded { key: "k-256".to_string() };
    assert_eq!(state.apply_event(&last).unwrap(), state);
}

#[test]
fn a_batch_keeps_the_events_that_have_an_effect() {
    let state = session();
    assert_eq!(state.decide_batch(&[]), Err(DomainError::EmptyEventBatch));
    let active = SessionEvent::StatusChanged { status: SessionStatus::Active };
    let hello = appended(message("m", TranscriptRole::User, "hello"));
    let decision = state
        .decide_batch(&[active.clone(), active.clone(), hello.clone(), hello.clone()])
        .unwrap();
    assert_eq!(decision.effective_events, vec![active, hello]);
    assert_eq!(decision.state.stream_version, 3);
    assert_eq!(decision.state, state.apply_events(&decision.effective_events).unwrap());
}

#[test]
fn records_replay_to_the_same_session() {
    let hello = appended(message("m", TranscriptRole::User, "hello"));
    let records = [record(1, created("s")), record(2, hello.clone())];
    let state = SessionState::replay("s".to_string(), &records).unwrap();
    assert_eq!(state.stream_version, 2);
    assert!(state.dedupe_facts.contains("event:e-1"));
    assert!(state.dedupe_facts.contains("event:e-2"));
    let mut carried = session();
    carried.remember_committed_event_id("e-1").unwrap();
    let mut carried = carried.apply_event(&hello).unwrap();
    carried.remember_committed_event_id("e-2").unwrap();
    assert_eq!(carried, state);
    assert_eq!(
        carried.remember_committed_event_id("e-2"),
        Err(DomainError::DuplicateEventId("e-2".to_string()))
    );
}

#[test]
fn the_place_of_a_record_has_no_part_in_the_state() {
    let hello = appended(message("m", TranscriptRole::User, "hello"));
    let here = [record(1, created("s")), record(2, hello)];
    let mut there = here.clone();
    there[0].global_position = 700;
    there[1].global_position = 900;
    there[1].command_id = "other".to_string();
    assert_eq!(
        SessionState::replay("s".to_string(), &here).unwrap(),
        SessionState::replay("s".to_string(), &there).unwrap()
    );
}

#[test]
fn no_event_takes_a_message_or_a_call_away() {
    let mut state = running_call();
    for event in [
        SessionEvent::StatusChanged { status: SessionStatus::Active },
        appended(message("n", TranscriptRole::User, "more")),
        SessionEvent::ModelSelectionChanged { selection: selection() },
        SessionEvent::WaitSet { wait: wait("w") },
        SessionEvent::AsyncToolCallProgress {
            tool_call_id: "t".to_string(),
            progress: text("half"),
        },
        activation(),
        round(ModelRequestPurpose::Conversation),
    ] {
        let next = state.apply_event(&event);
        if let Ok(next) = next {
            assert_eq!(next.session_id, state.session_id);
            assert_eq!(next.owner, state.owner);
            assert_eq!(&next.transcript[..state.transcript.len()], &state.transcript[..]);
            assert!(next.async_tool_calls.contains_key("t"));
            assert!(next.selection_version >= state.selection_version);
            assert!(next.delivery_ack >= state.delivery_ack);
            state = next;
        }
    }
    assert_eq!(state.transcript.len(), 2);
}

#[test]
fn a_record_that_does_not_follow_is_refused() {
    let state = SessionState::replay("s".to_string(), &[record(1, created("s"))]).unwrap();
    let hello = appended(message("m", TranscriptRole::User, "hello"));
    assert_eq!(
        state.apply_record(&record(3, hello.clone())),
        Err(DomainError::StreamVersionGap { expected: 2, actual: 3 })
    );
    let mut other = record(2, hello.clone());
    other.stream_id = "o".to_string();
    assert_eq!(
        state.apply_record(&other),
        Err(DomainError::SessionMismatch { expected: "s".to_string(), actual: "o".to_string() })
    );
    let mut newer = record(2, hello.clone());
    newer.event_schema_version = 2;
    assert_eq!(state.apply_record(&newer), Err(DomainError::UnsupportedEventSchema(2)));
    let mut repeated = record(2, hello.clone());
    repeated.event_id = "e-1".to_string();
    assert_eq!(
        state.apply_record(&repeated),
        Err(DomainError::DuplicateEventId("e-1".to_string()))
    );
    assert_eq!(state.apply_record(&record(2, hello)).unwrap().stream_version, 2);
}

#[test]
fn a_stored_event_without_effect_still_counts() {
    let state = SessionState::replay(
        "s".to_string(),
        &[
            record(1, created("s")),
            record(2, SessionEvent::StatusChanged { status: SessionStatus::Idle }),
        ],
    )
    .unwrap();
    assert_eq!(state.stream_version, 2);
    assert_eq!(state.status, SessionStatus::Idle);
}

#[test]
fn a_broken_state_is_not_built_upon() {
    let mut state = session();
    state.selection_version = 0;
    let fault = DomainError::InvalidState(
        "created session selection version must be positive".to_string(),
    );
    assert_eq!(state.validate().unwrap_err(), fault);
    assert_eq!(
        state
            .apply_event(&SessionEvent::StatusChanged { status: SessionStatus::Active })
            .unwrap_err(),
        fault
    );
    let mut unmade = SessionState::new("s".to_string());
    unmade.created_at_ms = Some(1);
    assert_eq!(
        unmade.validate(),
        Err(DomainError::InvalidState("uncreated session contains creation facts".to_string()))
    );
}

#[test]
fn faults_have_words() {
    assert_eq!(
        DomainError::TextTooLarge { field: "content", bytes: 12, max: 10 }.message(),
        "content is too large: 12 bytes, maximum is 10"
    );
    assert_eq!(DomainError::EmptyField { field: "key" }.message(), "key must not be empty");
    assert_eq!(
        DomainError::InvalidTimestampOrder { start: 3, end: -7 }.message(),
        "timestamp order is invalid: 3 is after -7"
    );
    assert_eq!(
        DomainError::InvalidTimestampOrder { start: i64::MIN, end: 0 }.message(),
        "timestamp order is invalid: -9223372036854775808 is after 0"
    );
    assert_eq!(
        DomainError::AckBeyondEnqueued { requested: 9, max_queued: 2 }.message(),
        "delivery acknowledgement 9 skips future queue ids; maximum enqueued is 2"
    );
    assert_eq!(
        DomainError::UnknownToolCall("t".to_string()).message(),
        "tool call t is not declared by an assistant message"
    );
    assert_eq!(
        DomainError::InvalidWaitTimeout.message(),
        "wait timeout must be between 1 and 600 seconds"
    );
    assert_eq!(DomainError::VersionOverflow.message(), "stream version overflow");
}

fn bound_call() -> SessionState {
    with_call()
        .apply_events(&[
            SessionEvent::AsyncToolCallStarted {
                record: call("u", "call", "y", CompletionMode::ExternalCallback),
            },
            SessionEvent::AsyncToolCallCallbackPlanned {
                binding: AsyncCallbackBinding {
                    callback_id: "cb".to_string(),
                    tool_call_id: "u".to_string(),
                    bearer_fingerprint: format!("sha256:v1:{}", "a".repeat(64)),
                    payload_fingerprint: None,
                },
            },
        ])
        .unwrap()
}

#[test]
fn no_event_forgets_a_callback() {
    let mut state = bound_call();
    for event in [
        SessionEvent::AsyncToolCallRunning { tool_call_id: "u".to_string() },
        appended(message("n", TranscriptRole::User, "more")),
        SessionEvent::AsyncToolCallCancelled {
            tool_call_id: "u".to_string(),
            reason: "stop".to_string(),
            completed_at_ms: 55,
        },
        activation(),
    ] {
        state = state.apply_event(&event).unwrap();
        assert_eq!(state.callback_bindings.get("cb").unwrap().tool_call_id, "u");
    }
}

#[test]
fn an_activation_keeps_what_it_began_with() {
    let mut chosen = selection();
    chosen.tools = vec!["look".to_string()];
    let before = attempting();
    let after = before
        .apply_event(&SessionEvent::ModelSelectionChanged { selection: chosen.clone() })
        .unwrap();
    assert_eq!(after.selection, chosen);
    assert_eq!(after.selection_version, 2);
    let activation = after.active_activation.as_ref().unwrap();
    assert_eq!(activation.activation_id, "act");
    assert_eq!(activation.selection, selection());
    assert_eq!(activation.selection_version, 1);
    assert_eq!(activation.minimum_auth_revision, 1);
}

#[test]
fn the_count_of_rounds_decides_nothing() {
    let plain = session().apply_event(&activation()).unwrap();
    let mut counted = session().apply_event(&activation()).unwrap();
    counted.active_activation.as_mut().unwrap().legacy_rounds_started = u32::MAX;
    let plain = plain.apply_event(&round(ModelRequestPurpose::Conversation)).unwrap();
    let mut counted = counted.apply_event(&round(ModelRequestPurpose::Conversation)).unwrap();
    let count = counted.active_activation.as_ref().unwrap().legacy_rounds_started;
    assert_eq!(count, u32::MAX);
    assert_eq!(
        counted.apply_event(&attempt("t-1", 1)).unwrap_err(),
        plain.apply_event(&attempt("t-1", 1)).unwrap_err()
    );
    counted.active_activation.as_mut().unwrap().legacy_rounds_started = 1;
    assert_eq!(counted, plain);
}

#[test]
fn a_decided_batch_and_its_kept_part_lead_to_one_state() {
    let state = session();
    let active = SessionEvent::StatusChanged { status: SessionStatus::Active };
    let hello = appended(message("m", TranscriptRole::User, "hello"));
    let batch = [active.clone(), active, hello.clone(), hello];
    let decision = state.decide_batch(&batch).unwrap();
    assert_eq!(decision.effective_events, vec![batch[0].clone(), batch[2].clone()]);
    assert_eq!(state.apply_events(&batch).unwrap(), decision.state);
    assert_eq!(state.apply_events(&decision.effective_events).unwrap(), decision.state);
}

#[test]
fn a_remembered_event_equals_its_record() {
    let state = session();
    let hello = appended(message("m", TranscriptRole::User, "hello"));
    let mut live = state.apply_event(&hello).unwrap();
    assert_eq!(live.remember_committed_event_id("e-2"), Ok(()));
    assert_eq!(live.validate(), Ok(()));
    let mut stored = record(2, hello);
    stored.global_position = 400;
    stored.command_id = "other".to_string();
    assert_eq!(state.apply_record(&stored), Ok(live));
}

#[test]
fn a_refused_payload_leaves_the_state() {
    let before = running_call();
    let mut state = before.clone();
    let unknown = SessionEvent::AsyncToolCallRunning { tool_call_id: "other".to_string() };
    assert!(state.apply_payload(&unknown).is_err());
    assert_eq!(state, before);
    let same = SessionEvent::StatusChanged { status: before.status };
    assert_eq!(state.apply_payload(&same), Ok(false));
    assert_eq!(state, before);
    let hello = appended(message("m", TranscriptRole::User, "hello"));
    assert_eq!(state.apply_payload(&hello), Ok(true));
    assert_eq!(state.stream_version, before.stream_version);
    assert_eq!(state.async_tool_calls, before.async_tool_calls);
}
