//! What the endpoint answers: headers, bodies, errors, views and events.

use serde_json::Value;
use zode::config::ToolCompletion;
use zode::control::rotation::ControlRotationError;
use zode::domain::{
    AsyncToolCallRecord, AsyncToolStatus, CompletionMode, DurablePayload, EventRecord,
    ModelAttemptsExhaustedFact, SessionEvent, SessionOwner, SessionSelection, SessionState,
    SessionStatus, ToolError, TranscriptMessage, TranscriptRole,
};
use zode::http::capabilities::{
    build_capabilities, build_capabilities_with_callback, CapabilityTool, OutboundCapability,
};
use zode::http::errors::{
    ApiError, ControlAuthError, RuntimeCommandError, ServiceError, StoreError,
};
use zode::http::events::{internal_error_body, public_event, TransientModelEvent};
use zode::http::headers::{
    callback_bearer, optional_idempotency_key, parse_last_event_id, replay_only_mode,
    require_json_content_type, required_idempotency_key, rotation_idempotency_key,
};
use zode::http::requests::{
    check_callback, check_callback_id, check_cancel_reason, check_create_body, check_cursor_owner,
    check_reconcile_action, check_tool_path, list_limit, parse_body, read_replica,
    replica_request_kind, shared_session_owner, ExternalCallbackError, ExternalCallbackStatus,
    ReplicaRequestKind,
};
use zode::http::views::{
    command_response, public_message, public_replica_list, public_session_list, public_tool,
    public_tool_error, public_tool_status, session_view, SessionListItem,
};
use zode::replicas::{ReplicaMetadata, ReplicaPortError};

fn json(text: &str) -> Value {
    serde_json::from_str(text).unwrap()
}

fn header(values: &[&str]) -> Vec<Vec<u8>> {
    values.iter().map(|value| value.as_bytes().to_vec()).collect()
}

fn status(result: Result<(), ApiError>) -> u16 {
    match result {
        Ok(()) => 0,
        Err(error) => error.status,
    }
}

fn record(event: SessionEvent) -> EventRecord {
    EventRecord {
        stream_id: "s".to_string(),
        stream_version: 3,
        global_position: 17,
        event_id: "e".to_string(),
        command_id: "c".to_string(),
        event_schema_version: 1,
        event,
    }
}

fn message(role: TranscriptRole, content: &str) -> TranscriptMessage {
    TranscriptMessage {
        message_id: "m".to_string(),
        role,
        content: content.to_string(),
        tool_call_id: None,
        tool_calls: vec![],
        dedupe_key: Some("private".to_string()),
        source_queue_id: None,
    }
}

fn metadata(profile: &str, revision: u64) -> ReplicaMetadata {
    ReplicaMetadata {
        authority_id: "authority".to_string(),
        profile_id: profile.to_string(),
        provider: "models".to_string(),
        revision,
        expires_at_ms: None,
        status: "ready",
    }
}

fn tool_call(status: AsyncToolStatus) -> AsyncToolCallRecord {
    AsyncToolCallRecord {
        tool_call_id: "t".to_string(),
        tool_name: "look".to_string(),
        input: DurablePayload::inline(Value::from("secret input")).unwrap(),
        status,
        started_at_ms: 5,
        auto_wait_seconds: None,
        completion_mode: CompletionMode::ProcessLocal,
        retry_dispatch_deduplicated: false,
        progress: None,
        result: None,
        error: None,
        cancel_reason: None,
        completed_at_ms: None,
    }
}

#[test]
fn the_content_type_is_json() {
    let check = |values: &[&str]| status(require_json_content_type(&header(values)));
    assert_eq!(check(&["application/json"]), 0);
    assert_eq!(check(&["Application/JSON; charset=utf-8"]), 0);
    assert_eq!(check(&["text/plain"]), 422);
    assert_eq!(check(&[]), 422);
    assert_eq!(check(&["application/json", "application/json"]), 400);
}

#[test]
fn an_idempotency_key_is_given_once() {
    assert_eq!(optional_idempotency_key(&header(&[])), Ok(None));
    assert_eq!(optional_idempotency_key(&header(&["k"])), Ok(Some("k".to_string())));
    assert_eq!(
        optional_idempotency_key(&header(&["k", "k"])),
        Err(ServiceError::Invalid("duplicate Idempotency-Key".to_string()))
    );
    assert_eq!(
        optional_idempotency_key(&header(&[""])),
        Err(ServiceError::Invalid("Idempotency-Key must not be empty".to_string()))
    );
    assert_eq!(
        optional_idempotency_key(&header(&[&"k".repeat(1_025)])),
        Err(ServiceError::PayloadTooLarge)
    );
    assert_eq!(
        optional_idempotency_key(&vec![vec![0xff]]),
        Err(ServiceError::Invalid(
            "invalid Idempotency-Key: failed to convert header to a str".to_string()
        ))
    );
    assert!(required_idempotency_key(&header(&[])).is_err());
    assert_eq!(required_idempotency_key(&header(&["k"])), Ok("k".to_string()));
    assert_eq!(rotation_idempotency_key(&header(&["k"])), Ok("k".to_string()));
    assert_eq!(rotation_idempotency_key(&header(&[])).unwrap_err().status, 400);
    assert_eq!(rotation_idempotency_key(&header(&[&"k".repeat(1_025)])).unwrap_err().status, 413);
    assert_eq!(rotation_idempotency_key(&vec![vec![0xff]]).unwrap_err().status, 400);
}

#[test]
fn a_request_may_ask_for_a_replay_only() {
    assert_eq!(replay_only_mode(&header(&[])), Ok(false));
    assert_eq!(replay_only_mode(&header(&["replay-only"])), Ok(true));
    assert_eq!(
        replay_only_mode(&header(&["other"])),
        Err(ServiceError::Invalid("unsupported idempotency mode".to_string()))
    );
    assert_eq!(
        replay_only_mode(&header(&["replay-only", "replay-only"])),
        Err(ServiceError::Malformed)
    );
}

#[test]
fn a_stream_goes_on_after_an_event() {
    assert_eq!(parse_last_event_id(&header(&[])), Ok(None));
    assert_eq!(parse_last_event_id(&header(&["42"])), Ok(Some(42)));
    assert_eq!(parse_last_event_id(&header(&["x"])), Err(ServiceError::Malformed));
    assert_eq!(parse_last_event_id(&header(&["1", "2"])), Err(ServiceError::Malformed));
}

#[test]
fn a_bearer_is_one_word() {
    let bearer = |value: &str| callback_bearer(&header(&[value]));
    assert_eq!(bearer("Bearer abc"), Some("abc".to_string()));
    assert_eq!(bearer("bearer   abc  "), Some("abc".to_string()));
    assert_eq!(bearer("Basic abc"), None);
    assert_eq!(bearer("Bearer"), None);
    assert_eq!(bearer("Bearer a b"), None);
    assert_eq!(callback_bearer(&header(&["Bearer a", "Bearer a"])), None);
    assert_eq!(callback_bearer(&header(&[])), None);
}

#[test]
fn a_body_is_json() {
    assert_eq!(parse_body(&b"{\"a\":1}".to_vec()), Ok(json("{\"a\":1}")));
    assert_eq!(parse_body(&b"{".to_vec()).unwrap_err().status, 400);
    assert_eq!(parse_body(&vec![b'"', 0xff, b'"']).unwrap_err().status, 400);
}

#[test]
fn the_endpoint_makes_the_ids_of_sessions() {
    assert_eq!(check_create_body(&json("{}")), Ok(()));
    assert_eq!(
        check_create_body(&json("{\"session_id\":null}")).unwrap_err().message,
        "session_id is generated by the endpoint"
    );
    assert_eq!(
        check_create_body(&json("[]")).unwrap_err().message,
        "session create body must be an object"
    );
}

#[test]
fn a_list_has_a_limit() {
    assert_eq!(list_limit(None, 100), Ok(50));
    assert_eq!(list_limit(Some(100), 100), Ok(100));
    for bad in [0, 101] {
        let error = list_limit(Some(bad), 100).unwrap_err();
        assert_eq!(error.status, 422);
        assert_eq!(error.message, "limit must be between 1 and 100");
    }
    let owner = shared_session_owner();
    assert_eq!(owner, SessionOwner::new("local".to_string(), "shared".to_string()));
    assert_eq!(check_cursor_owner(&owner, &shared_session_owner()), Ok(()));
    let other = SessionOwner::new("local".to_string(), "other".to_string());
    assert_eq!(check_cursor_owner(&other, &owner).unwrap_err().status, 400);
}

#[test]
fn requests_on_tools_are_checked() {
    assert_eq!(status(check_tool_path("s", "t")), 0);
    assert_eq!(status(check_tool_path("s", "")), 404);
    assert_eq!(status(check_cancel_reason("enough")), 0);
    assert_eq!(status(check_cancel_reason("")), 422);
    assert_eq!(status(check_cancel_reason(&"x".repeat(8 * 1024 + 1))), 413);
    assert_eq!(status(check_reconcile_action("retry_dispatch")), 0);
    assert_eq!(status(check_reconcile_action("other")), 422);
}

#[test]
fn a_callback_says_how_it_ended() {
    let error = |class: &str, message: &str| Some(ExternalCallbackError {
        class: class.to_string(),
        message: message.to_string(),
    });
    let completed = ExternalCallbackStatus::Completed;
    let failed = ExternalCallbackStatus::Failed;
    assert_eq!(status(check_callback(completed, true, &None)), 0);
    assert_eq!(status(check_callback(completed, false, &None)), 422);
    assert_eq!(status(check_callback(completed, true, &error("c", "m"))), 422);
    assert_eq!(status(check_callback(failed, false, &error("c", "m"))), 0);
    assert_eq!(status(check_callback(failed, false, &None)), 422);
    assert_eq!(status(check_callback(failed, true, &error("c", "m"))), 422);
    assert_eq!(status(check_callback(failed, false, &error(" ", "m"))), 422);
    assert_eq!(status(check_callback(failed, false, &error(&"c".repeat(513), "m"))), 413);
    assert_eq!(status(check_callback_id("cb")), 0);
    assert_eq!(status(check_callback_id("")), 404);
    assert_eq!(status(check_callback_id(&"c".repeat(257))), 404);
}

#[test]
fn a_replica_request_names_its_schema() {
    let kind = |text: &str| replica_request_kind(&json(text));
    assert_eq!(
        kind("{\"schema\":\"zode.auth-replica.install.v1\"}"),
        Ok(ReplicaRequestKind::Install)
    );
    assert_eq!(
        kind("{\"schema\":\"zode.auth-replica.tombstone.v1\"}"),
        Ok(ReplicaRequestKind::Tombstone)
    );
    assert_eq!(
        kind("{\"schema\":\"other\"}").unwrap_err().message,
        "unsupported credential replica schema"
    );
    for bad in ["{}", "[]", "{\"schema\":1}"] {
        assert_eq!(kind(bad).unwrap_err().message, "credential replica schema is required");
    }
}

#[test]
fn replicas_are_told_without_their_secrets() {
    let list = vec![metadata("p", 1), metadata("q", 2)];
    let told = json(
        "{\"schema\":\"zode.auth-replica.v1\",\"authority_id\":\"authority\",\
         \"auth_profile_id\":\"q\",\"provider\":\"models\",\"revision\":2,\
         \"expires_at_ms\":null,\"status\":\"ready\"}",
    );
    assert_eq!(read_replica(&list, "q"), Ok(told.clone()));
    let all = public_replica_list(&list);
    assert_eq!(all["schema"], "zode.auth-replica-list.v1");
    assert_eq!(all["items"][1], told);
    assert_eq!(read_replica(&list, "r").unwrap_err().code, "auth_replica_not_found");
}

#[test]
fn failures_have_answers() {
    let answer = |error: ServiceError| {
        let answer = ApiError::from_service(error);
        (answer.status, answer.code, answer.retryable)
    };
    assert_eq!(answer(ServiceError::NotFound), (404, "session_not_found", false));
    assert_eq!(
        answer(ServiceError::AuthReplicaUnavailable),
        (503, "auth_replica_unavailable", true)
    );
    assert_eq!(answer(ServiceError::Backend), (500, "internal_error", false));
    assert_eq!(answer(ServiceError::PayloadTooLarge), (413, "payload_too_large", false));
    assert_eq!(
        answer(ServiceError::IdempotencyReceiptNotFound),
        (404, "idempotency_receipt_not_found", false)
    );
    assert_eq!(
        ApiError::invalid("no").body(),
        json(
            "{\"error\":{\"code\":\"invalid_request\",\"message\":\"no\",\"retryable\":false}}"
        )
    );
    assert_eq!(ServiceError::store(StoreError::SessionNotFound), ServiceError::NotFound);
    assert_eq!(
        ServiceError::store(StoreError::OptimisticConcurrency),
        ServiceError::Conflict("request conflicts with an existing command".to_string())
    );
    assert_eq!(ServiceError::read_store(StoreError::Other), ServiceError::Backend);
}

#[test]
fn other_failures_have_answers_too() {
    assert_eq!(ApiError::from_rotation(ControlRotationError::Conflict).status, 409);
    assert_eq!(ApiError::from_rotation(ControlRotationError::PayloadTooLarge).status, 413);
    assert_eq!(ApiError::from_replica(ReplicaPortError::NotFound).status, 404);
    assert_eq!(ApiError::from_replica(ReplicaPortError::Conflict).status, 409);
    assert_eq!(ApiError::from_runtime_session(RuntimeCommandError::NotFound).code, "session_not_found");
    assert_eq!(ApiError::from_runtime_tool(RuntimeCommandError::NotFound).code, "tool_call_not_found");
    assert_eq!(
        ApiError::from_runtime_callback(RuntimeCommandError::NotFound).code,
        "callback_not_found"
    );
    assert_eq!(ApiError::from_control(ControlAuthError::Unauthenticated).status, 401);
}

#[test]
fn a_session_is_told() {
    let state = SessionState::new("s".to_string())
        .apply_events(&[
            SessionEvent::SessionCreated {
                schema_version: 2,
                session_id: "s".to_string(),
                owner: shared_session_owner(),
                created_at_ms: 5,
                selection: SessionSelection {
                    model: None,
                    tools: vec!["look".to_string()],
                    callback_base_url: None,
                },
            },
            SessionEvent::MessageAppended {
                message: message(TranscriptRole::User, "hello"),
                wake_wait: true,
            },
        ])
        .unwrap();
    let view = session_view(&state);
    assert_eq!(view["session_id"], "s");
    assert_eq!(view["version"], 2);
    let written = view.to_string();
    assert!(written.contains("hello"));
    assert!(!written.contains("private"));
    assert!(public_message(&state.transcript[0])["content"] == "hello");
}

#[test]
fn a_tool_call_is_told_without_its_input() {
    let running = public_tool(&tool_call(AsyncToolStatus::Running));
    assert_eq!(running["tool_call_id"], "t");
    assert_eq!(running["status"], "running");
    assert!(!running.to_string().contains("secret input"));
    let told = public_tool_status(&"s".to_string(), &tool_call(AsyncToolStatus::Running));
    assert_eq!(told["session_id"], "s");
    let error = ToolError { class: "tool_cancelled".to_string(), message: "inner".to_string() };
    assert_eq!(
        public_tool_error(&error),
        json("{\"class\":\"tool_cancelled\",\"message\":\"tool call cancelled\"}")
    );
    let error = ToolError { class: "whatever".to_string(), message: "inner".to_string() };
    assert_eq!(
        public_tool_error(&error),
        json("{\"class\":\"tool_failed\",\"message\":\"tool call failed\"}")
    );
}

#[test]
fn sessions_are_listed() {
    let item = SessionListItem {
        session_id: "s".to_string(),
        version: 4,
        status: SessionStatus::Idle,
        created_at_ms: 5,
        selection: SessionSelection { model: None, tools: vec![], callback_base_url: None },
    };
    assert_eq!(
        public_session_list(&vec![item], &Some("next".to_string())),
        json(
            "{\"schema\":\"zode.session-list.v1\",\"items\":[{\"session_id\":\"s\",\"version\":4,\
             \"status\":\"idle\",\"created_at_ms\":5,\"model\":null}],\"next_cursor\":\"next\"}"
        )
    );
    assert_eq!(
        command_response(&"s".to_string(), 7),
        json(
            "{\"schema\":\"zode.command.v1\",\"session_id\":\"s\",\"accepted\":true,\"version\":7}"
        )
    );
}

#[test]
fn events_are_told_by_their_positions() {
    let told = public_event(&record(SessionEvent::StatusChanged {
        status: SessionStatus::Active,
    }))
    .unwrap();
    assert_eq!(told.id, "17");
    assert_eq!(told.version, 3);
    assert_eq!(told.kind, "status_changed");
    assert_eq!(told.body()["schema"], "zode.event.v1");
    assert_eq!(told.body()["session_id"], "s");
    let answer = public_event(&record(SessionEvent::MessageAppended {
        message: message(TranscriptRole::Assistant, "hello"),
        wake_wait: false,
    }))
    .unwrap();
    assert_eq!(answer.kind, "assistant_message_committed");
    assert!(!answer.body().to_string().contains("private"));
}

#[test]
fn some_events_are_not_told() {
    assert!(public_event(&record(SessionEvent::DedupeRecorded { key: "k".to_string() })).is_none());
    assert!(public_event(&record(SessionEvent::ModelRequestCompleted {
        activation_id: "a".to_string(),
        round_id: "r".to_string(),
        request_id: "q".to_string(),
        attempt_id: "t".to_string(),
        usage: None,
    }))
    .is_none());
    let failed = public_event(&record(SessionEvent::AsyncToolCallFailed {
        tool_call_id: "t".to_string(),
        error: ToolError { class: "c".to_string(), message: "inner secret".to_string() },
        completed_at_ms: 9,
    }))
    .unwrap();
    assert!(!failed.body().to_string().contains("inner secret"));
}

#[test]
fn text_is_told_as_it_comes() {
    let event = TransientModelEvent {
        session_id: "s".to_string(),
        activation_id: "a".to_string(),
        round_id: "r".to_string(),
        text: "he".to_string(),
    };
    assert_eq!(
        event.body(),
        json(
            "{\"schema\":\"zode.transient-event.v1\",\"session_id\":\"s\",\
             \"activation_id\":\"a\",\"round_id\":\"r\",\"text\":\"he\"}"
        )
    );
    assert_eq!(internal_error_body()["error"]["code"], "internal_error");
}

#[test]
fn capabilities_follow_from_what_is_configured() {
    let tool = |name: &str, completion_mode: ToolCompletion| CapabilityTool {
        name: name.to_string(),
        completion_mode,
    };
    let tools = vec![
        tool("zoom", ToolCompletion::Response),
        tool("call", ToolCompletion::ExternalCallback),
        tool("look", ToolCompletion::Response),
    ];
    let kinds = vec!["openai_compatible".to_string(), "anthropic".to_string()];
    let all = build_capabilities_with_callback(&kinds, &tools, true);
    assert_eq!(all.provider_adapter_kinds, vec!["anthropic", "openai_compatible"]);
    assert_eq!(
        all.credential_schemas,
        vec!["openai-compatible.api-key.v1", "anthropic.api-key.v1"]
    );
    assert_eq!(
        all.outbound_capabilities,
        vec![
            OutboundCapability::ProviderHttp,
            OutboundCapability::ToolHttp,
            OutboundCapability::ExternalCallback
        ]
    );
    let names = |tools: &Vec<CapabilityTool>| {
        tools.iter().map(|tool| tool.name.clone()).collect::<Vec<String>>()
    };
    assert_eq!(names(&all.tools), vec!["call", "look", "zoom"]);
    let some = build_capabilities(&kinds, &tools);
    assert_eq!(names(&some.tools), vec!["look", "zoom"]);
    assert_eq!(
        some.outbound_capabilities,
        vec![OutboundCapability::ProviderHttp, OutboundCapability::ToolHttp]
    );
    let none = build_capabilities(&vec![], &vec![tool("call", ToolCompletion::ExternalCallback)]);
    assert_eq!(none.outbound_capabilities, vec![]);
    assert_eq!(none.credential_schemas, Vec::<&str>::new());
}

#[test]
fn a_failed_command_on_a_tool_call_is_answered_by_its_reason() {
    let status = |error: StoreError| {
        ApiError::from_runtime_tool(RuntimeCommandError::from_store(error)).status
    };
    assert_eq!(status(StoreError::SessionNotFound), 404);
    assert_eq!(status(StoreError::OptimisticConcurrency), 409);
    assert_eq!(status(StoreError::CommandIdempotencyConflict), 409);
    assert_eq!(status(StoreError::Domain), 422);
    assert_eq!(status(StoreError::Other), 500);
}

#[test]
fn the_keys_of_an_exhaustion_come_in_order() {
    let record = EventRecord {
        stream_id: "s".to_string(),
        stream_version: 4,
        global_position: 9,
        event_id: "e".to_string(),
        command_id: "c".to_string(),
        event_schema_version: 1,
        event: SessionEvent::ModelAttemptsExhausted {
            fact: ModelAttemptsExhaustedFact {
                activation_id: "act".to_string(),
                round_id: "r".to_string(),
                request_id: "q".to_string(),
                attempt_id: "t".to_string(),
                attempt_number: 3,
                maximum_attempts: 3,
                finished_at_ms: 7,
            },
        },
    };
    assert_eq!(
        public_event(&record).unwrap().data.to_string(),
        "{\"activation_id\":\"act\",\"round_id\":\"r\",\"attempt_number\":3,\
         \"maximum_attempts\":3,\"reason\":\"model_attempts_exhausted\",\"finished_at_ms\":7}"
    );
}
