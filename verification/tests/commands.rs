//! Commands on sessions, and the stream of events.

use std::time::Duration;
use zode::config::{RetryDispatch, RunningRestart};
use zode::domain::{
    CompletionMode, EventRecord, ModelRetrySchedule, ProviderExecutionSelection, SessionEvent,
    SessionModelSelection, SessionOwner, SessionSelection, SessionState, SessionStatus,
};
use zode::http::commands::{
    replay_command, session_command_id, tell_after, AppendResult, CommandRequest, EventTail,
    MessageCommand,
};
use zode::http::create::{tools_offered, CreateAction, CreateFlow, CreatedSession};
use zode::http::errors::{ServiceError, StoreError};
use zode::http::events::TransientModelEvent;
use zode::http::flow::{check_created_selection, CommandFlow, FlowAction};
use zode::http::frames::{frame_of, opening_frame, StreamFrame};
use zode::http::owner::{owned_session, request_owner};
use zode::http::requests::shared_session_owner;
use zode::http::stream::{
    durable_fences_following_transient, EventStream, Live, Ownership, RuntimeStreamEvent,
    StreamAction, StreamFence,
};
use zode::json::Json;
use zode::provider::{ProviderExecutionPolicy, ProviderTransportRetryPolicy};
use zode::replicas::ReplicaError;
use zode::text_map::TextMap;
use zode::wiring::{selected_tools, HttpToolSpec};

fn policy() -> ProviderExecutionPolicy {
    ProviderExecutionPolicy::new(
        vec!["openai_compatible".to_string()],
        vec!["https://models.test".to_string()],
        ProviderTransportRetryPolicy { initial_delay: Duration::from_millis(250) },
    )
}

fn model(kind: &str) -> SessionModelSelection {
    SessionModelSelection {
        provider: "models".to_string(),
        provider_execution: ProviderExecutionSelection {
            schema: "zode.provider-execution.v1".to_string(),
            revision: 1,
            kind: kind.to_string(),
            base_url: "https://models.test/v1".to_string(),
            options: TextMap::new(),
        },
        model: "m-1".to_string(),
        limits: None,
        auth_authority_id: "authority".to_string(),
        auth_profile_id: "profile".to_string(),
        auth_revision: 1,
    }
}

fn selection(model: Option<SessionModelSelection>) -> SessionSelection {
    SessionSelection { model, tools: vec![], callback_base_url: None }
}

fn session(model: Option<SessionModelSelection>) -> SessionState {
    SessionState::new("s".to_string())
        .apply_event(&SessionEvent::SessionCreated {
            schema_version: 2,
            session_id: "s".to_string(),
            owner: shared_session_owner(),
            created_at_ms: 5,
            selection: selection(model),
        })
        .unwrap()
}

fn command(content: &str, created_at_ms: i64) -> MessageCommand {
    MessageCommand::new(
        &shared_session_owner(),
        "s",
        "key".to_string(),
        None,
        content.to_string(),
        created_at_ms,
    )
}

fn record(position: u64, command_id: &str, event: SessionEvent) -> EventRecord {
    EventRecord {
        stream_id: "s".to_string(),
        stream_version: position,
        global_position: position,
        event_id: format!("e-{}", position),
        command_id: command_id.to_string(),
        event_schema_version: 1,
        event,
    }
}

fn status(position: u64) -> EventRecord {
    record(position, "c", SessionEvent::StatusChanged { status: SessionStatus::Active })
}

fn private(position: u64) -> EventRecord {
    record(position, "c", SessionEvent::DedupeRecorded { key: "k".to_string() })
}

fn retry(position: u64) -> EventRecord {
    record(
        position,
        "c",
        SessionEvent::ModelStepRetryScheduled {
            schedule: ModelRetrySchedule {
                activation_id: "a".to_string(),
                round_id: "r".to_string(),
                request_id: "q".to_string(),
                failed_attempt_id: "t-1".to_string(),
                next_attempt_id: "t-2".to_string(),
                failed_attempt_number: 1,
                next_attempt_number: 2,
                delay_ms: 1,
                not_before_ms: 2,
                maximum_attempts: 3,
                error_class: "transport".to_string(),
            },
        },
    )
}

fn appended(record: &EventRecord) -> AppendResult {
    AppendResult {
        stream_id: "s".to_string(),
        command_id: record.command_id.clone(),
        events: vec![record.clone()],
        stream_version: record.stream_version,
        replayed: false,
    }
}

fn text(value: &str) -> TransientModelEvent {
    TransientModelEvent {
        session_id: "s".to_string(),
        activation_id: "a".to_string(),
        round_id: "r".to_string(),
        text: value.to_string(),
    }
}

fn fence(sequence: u64, durable_position: u64) -> StreamFence {
    StreamFence { sequence, durable_position, retry_barriers: TextMap::new() }
}

fn live(sequence: u64, event: RuntimeStreamEvent) -> Live {
    Live::Message { sequence, event }
}

fn told_id(action: StreamAction) -> String {
    match action {
        StreamAction::TellDurable(public) => public.id,
        other => panic!("not told: {:?}", other),
    }
}

#[test]
fn ids_follow_from_the_owner_the_session_and_the_key() {
    assert_eq!(
        session_command_id("model", &shared_session_owner(), "s", "key"),
        "sha256:v1:d4e7126c4e406e9b16be9566383514667e658389a917631cb245d880faa440b0"
    );
    let command = command("hello", 7);
    assert_eq!(
        command.command_id,
        "message-sha256:v1:763c7277171a074e936eab79715df1db10e3a26357e9eeb66199379dbeed88f1"
    );
    assert_eq!(
        command.message_id,
        "message-sha256:v1:1203a8342d864f296dc5eae7f1c37ddcdfad1f4d8374b94c57b4e091c4ceb735"
    );
    assert_eq!(
        command.event_id,
        "message-appended-sha256:v1:\
         6a55a2167483b3ed7a33e218a3016d768dee5545ddfc63db91432e4c6ae6ff50"
    );
    assert_eq!(
        command.delivery_id,
        "delivery-sha256:v1:3dea8ef87344c85aebc4ddeead998cc02a77934172c9aae187058a9ea8e92508"
    );
    assert_eq!(
        command.delivery_event_id,
        "delivery-queued-sha256:v1:\
         ec83b3ffdcdddd6a298f7f8175f8de49872e5fbb4589228effdc25029beef635"
    );
    assert_eq!(command.dedupe_key, format!("delivery:{}", command.command_id));
}

#[test]
fn a_message_is_stored_or_queued() {
    let command = command("hello", 7);
    let draft = command.message_draft();
    assert_eq!(draft.event_id, command.event_id);
    let queued = command.delivery_draft(&session(Some(model("openai_compatible")))).unwrap();
    match queued.event {
        SessionEvent::DeliveryQueued { delivery } => {
            assert_eq!(delivery.queue_id, 1);
            assert_eq!(delivery.created_at_ms, Some(7));
        }
        other => panic!("not queued: {:?}", other),
    }
    let mut full = session(None);
    full.delivery_ack = u64::MAX;
    assert_eq!(
        command.delivery_draft(&full),
        Err(ServiceError::Invalid("delivery queue is full".to_string()))
    );
    let large = self::command(&"x".repeat(70_000), 7);
    assert_eq!(large.delivery_draft(&session(None)), Err(ServiceError::PayloadTooLarge));
    assert!(large.requested_delivery().is_none());
}

#[test]
fn a_command_is_found_again() {
    let command = command("hello", 7);
    let stored = record(2, &command.command_id, command.message_draft().event);
    let request = |command: &MessageCommand| CommandRequest::Message {
        message: command.message(),
        delivery: command.requested_delivery(),
    };
    let records = vec![status(1), stored.clone(), status(3)];
    let found = replay_command("s", &command.command_id, &records, &request(&command))
        .unwrap()
        .unwrap();
    assert!(found.replayed);
    assert_eq!(found.stream_version, 2);
    assert_eq!(found.events, vec![stored.clone()]);
    assert_eq!(replay_command("s", "other", &records, &request(&command)), Ok(None));
    let conflict =
        Err(ServiceError::Conflict("request conflicts with an existing command".to_string()));
    let changed = self::command("bye", 7);
    assert_eq!(
        replay_command("s", &command.command_id, &records, &request(&changed)),
        conflict
    );
    let twice = vec![stored.clone(), stored];
    assert_eq!(replay_command("s", &command.command_id, &twice, &request(&command)), conflict);
}

#[test]
fn a_message_flows_into_the_store() {
    let flow = CommandFlow::message("s".to_string(), command("hello", 7), false);
    let (flow, action) = flow.stream_read(Ok(vec![status(1)]));
    assert_eq!(action, FlowAction::Rehydrate);
    let current = session(None);
    let (flow, action) = flow.rehydrated(&policy(), Ok(current.clone()));
    let draft = match action {
        FlowAction::Append { expected_version: 1, draft } => draft,
        other => panic!("not stored: {:?}", other),
    };
    let stored = record(2, &flow.command_id, draft.event);
    let (flow, action) = flow.appended(Ok(appended(&stored)));
    assert_eq!(action, FlowAction::Rehydrate);
    let (_, action) = flow.rehydrated(&policy(), Ok(current.clone()));
    assert_eq!(action, FlowAction::Finish(appended(&stored), current.clone()));

    let again = CommandFlow::message("s".to_string(), command("hello", 99), true);
    let (again, action) = again.stream_read(Ok(vec![status(1), stored.clone()]));
    assert_eq!(action, FlowAction::Rehydrate);
    let (_, action) = again.rehydrated(&policy(), Ok(current.clone()));
    let mut found = appended(&stored);
    found.replayed = true;
    assert_eq!(action, FlowAction::Finish(found, current));
}

#[test]
fn a_replay_that_finds_nothing_fails() {
    for records in [Ok(vec![]), Err(StoreError::SessionNotFound)] {
        let flow = CommandFlow::message("s".to_string(), command("hello", 7), true);
        let (_, action) = flow.stream_read(records);
        assert_eq!(action, FlowAction::Fail(ServiceError::IdempotencyReceiptNotFound));
    }
    let flow = CommandFlow::message("s".to_string(), command("hello", 7), false);
    let (_, action) = flow.stream_read(Err(StoreError::Other));
    assert_eq!(action, FlowAction::Fail(ServiceError::Backend));
    let flow = CommandFlow::message("s".to_string(), command("hello", 7), false);
    let (flow, _) = flow.stream_read(Err(StoreError::SessionNotFound));
    let (_, action) = flow.rehydrated(&policy(), Err(StoreError::SessionNotFound));
    assert_eq!(action, FlowAction::Fail(ServiceError::NotFound));
}

#[test]
fn a_delivery_is_tried_again_but_not_forever() {
    let current = session(Some(model("openai_compatible")));
    let flow = CommandFlow::message("s".to_string(), command("hello", 7), false);
    let (flow, _) = flow.stream_read(Ok(vec![]));
    let (mut flow, mut action) = flow.rehydrated(&policy(), Ok(current.clone()));
    let mut attempts = 0;
    while let FlowAction::Append { .. } = action {
        attempts += 1;
        let (next, between) = flow.appended(Err(StoreError::OptimisticConcurrency));
        assert_eq!(between, FlowAction::Rehydrate);
        let (next, after) = next.rehydrated(&policy(), Ok(current.clone()));
        flow = next;
        action = after;
    }
    assert_eq!(attempts, 16);
    assert_eq!(
        action,
        FlowAction::Fail(ServiceError::Conflict(
            "request could not be admitted concurrently".to_string()
        ))
    );
}

#[test]
fn a_delivery_that_another_attempt_stored_is_looked_up() {
    let current = session(Some(model("openai_compatible")));
    let start = || {
        let flow = CommandFlow::message("s".to_string(), command("hello", 7), false);
        let (flow, _) = flow.stream_read(Ok(vec![]));
        let (flow, _) = flow.rehydrated(&policy(), Ok(current.clone()));
        flow.appended(Err(StoreError::CommandIdempotencyConflict))
    };
    let (flow, action) = start();
    assert_eq!(action, FlowAction::ReadStream);
    let draft = command("hello", 1).delivery_draft(&current).unwrap();
    let stored = record(2, &flow.command_id, draft.event);
    let (_, action) = flow.stream_read(Ok(vec![stored]));
    assert_eq!(action, FlowAction::Rehydrate);
    let (flow, _) = start();
    let (_, action) = flow.stream_read(Ok(vec![]));
    assert_eq!(
        action,
        FlowAction::Fail(ServiceError::Conflict(
            "request conflicts with an existing command".to_string()
        ))
    );
}

#[test]
fn a_model_is_selected_with_its_credential() {
    let start = |kind: &str| {
        let flow = CommandFlow::model(
            &shared_session_owner(),
            "s".to_string(),
            "key",
            model(kind),
            false,
        );
        let (flow, _) = flow.stream_read(Ok(vec![]));
        flow.rehydrated(&policy(), Ok(session(None)))
    };
    let (_, action) = start("anthropic");
    assert_eq!(
        action,
        FlowAction::Fail(ServiceError::Invalid("invalid provider execution".to_string()))
    );
    let (flow, action) = start("openai_compatible");
    assert_eq!(action, FlowAction::ResolveReplica);
    let (flow, action) = flow.replica_resolved(Ok(()));
    match action {
        FlowAction::Append { expected_version: 1, draft } => {
            assert_eq!(draft.event_id, format!("model-selection-changed:{}", flow.command_id));
            assert_eq!(
                draft.event,
                SessionEvent::ModelSelectionChanged {
                    selection: selection(Some(model("openai_compatible")))
                }
            );
        }
        other => panic!("not stored: {:?}", other),
    }
    for (error, failure) in [
        (ReplicaError::Unavailable, ServiceError::AuthReplicaUnavailable),
        (
            ReplicaError::Invalid,
            ServiceError::Invalid("invalid credential replica selection".to_string()),
        ),
        (ReplicaError::Storage, ServiceError::Backend),
    ] {
        let (flow, _) = start("openai_compatible");
        let (_, action) = flow.replica_resolved(Err(error));
        assert_eq!(action, FlowAction::Fail(failure));
    }
}

#[test]
fn a_new_selection_is_checked() {
    let good = selection(Some(model("openai_compatible")));
    assert_eq!(check_created_selection(&good, true, &policy()), Ok(()));
    assert_eq!(
        check_created_selection(&good, false, &policy()),
        Err(ServiceError::Invalid("invalid tool selection".to_string()))
    );
    assert_eq!(
        check_created_selection(&selection(Some(model("other"))), true, &policy()),
        Err(ServiceError::Invalid("invalid provider execution".to_string()))
    );
    assert_eq!(check_created_selection(&selection(None), true, &policy()), Ok(()));
}

#[test]
fn a_session_is_created_once() {
    let made = CreatedSession { session_id: "s".to_string(), version: 1 };
    let with_model = || selection(Some(model("openai_compatible")));
    let (_, action) =
        CreateFlow::new(with_model(), true).looked_up(Ok(Some(made.clone())), true, &policy());
    assert_eq!(action, CreateAction::Answer(made.clone()));
    let (_, action) = CreateFlow::new(with_model(), true).looked_up(Ok(None), true, &policy());
    assert_eq!(action, CreateAction::Fail(ServiceError::IdempotencyReceiptNotFound));
    let (_, action) = CreateFlow::new(with_model(), false).looked_up(
        Err(StoreError::CommandIdempotencyConflict),
        true,
        &policy(),
    );
    assert_eq!(
        action,
        CreateAction::Fail(ServiceError::Conflict(
            "request conflicts with an existing command".to_string()
        ))
    );
    let (flow, action) = CreateFlow::new(with_model(), false).looked_up(Ok(None), true, &policy());
    assert_eq!(action, CreateAction::ResolveReplica);
    let (flow, action) = flow.replica_resolved(Ok(()));
    assert_eq!(action, CreateAction::Create);
    let (flow, action) = flow.created(Ok(made.clone()));
    assert_eq!(action, CreateAction::Answer(made.clone()));
    let (_, action) = flow.created(Ok(made));
    assert_eq!(action, CreateAction::Fail(ServiceError::Backend));
    let (_, action) = CreateFlow::new(selection(None), false).looked_up(Ok(None), true, &policy());
    assert_eq!(action, CreateAction::Create);
    for (error, failure) in [
        (ReplicaError::Disabled, ServiceError::AuthReplicaUnavailable),
        (ReplicaError::SecretUnavailable, ServiceError::AuthReplicaUnavailable),
        (ReplicaError::Unavailable, ServiceError::Backend),
        (
            ReplicaError::Invalid,
            ServiceError::Invalid("invalid credential replica selection".to_string()),
        ),
    ] {
        let (flow, _) = CreateFlow::new(with_model(), false).looked_up(Ok(None), true, &policy());
        assert_eq!(flow.replica_resolved(Err(error)).1, CreateAction::Fail(failure));
    }
}

#[test]
fn the_events_of_a_session_are_gathered() {
    let mut tail = EventTail { matching: vec![], after_position: 0 };
    let mut foreign = status(2);
    foreign.stream_id = "o".to_string();
    assert!(!tail.take_batch("s", vec![status(1), foreign, status(3)]));
    assert_eq!(tail.matching, vec![status(1), status(3)]);
    assert_eq!(tail.after_position, 3);
    assert!(tail.take_batch("s", vec![private(9); 256]));
    assert_eq!(tail.after_position, 9);
    assert!(!tail.take_batch("s", vec![]));
    assert_eq!(tail.after_position, 9);
}

#[test]
fn an_event_is_told_once() {
    let (told, position) = tell_after(2, &vec![status(2), status(3), private(4), status(4)]);
    let ids: Vec<String> = told.iter().map(|event| event.id.clone()).collect();
    assert_eq!(ids, vec!["3"]);
    assert_eq!(position, 4);
}

#[test]
fn a_stream_tells_what_was_stored_and_listens() {
    let mut stream = EventStream::open(None, fence(5, 2), vec![status(1), private(2)]);
    assert_eq!(stream.advance(), StreamAction::Poll);
    assert_eq!(stream.receive(Live::Nothing), StreamAction::CatchUp);
    assert_eq!(told_id(stream.catch_up()), "1");
    assert_eq!(stream.advance(), StreamAction::Poll);
    assert_eq!(stream.receive(Live::Nothing), StreamAction::CatchUp);
    assert_eq!(stream.catch_up(), StreamAction::Again);
    assert_eq!(stream.last_position(), 2);
    assert_eq!(stream.advance(), StreamAction::Receive);
    assert_eq!(
        stream.receive(live(5, RuntimeStreamEvent::Durable(status(3)))),
        StreamAction::Again
    );
    assert_eq!(
        stream.receive(live(6, RuntimeStreamEvent::Durable(status(3)))),
        StreamAction::CatchUp
    );
    assert_eq!(stream.catch_up(), StreamAction::ReadBatch);
    assert_eq!(told_id(stream.batch_read(Some(vec![status(3), status(4)]))), "3");
    assert_eq!(stream.advance(), StreamAction::Receive);
    assert_eq!(stream.receive(Live::Closed), StreamAction::Close);
}

#[test]
fn text_waits_for_a_stored_retry() {
    assert!(durable_fences_following_transient(&retry(3)));
    assert!(!durable_fences_following_transient(&status(3)));
    let mut stream = EventStream::open(Some(2), fence(0, 2), vec![]);
    assert_eq!(
        stream.receive(live(1, RuntimeStreamEvent::Transient(text("a")))),
        StreamAction::CheckOwner(text("a"))
    );
    assert_eq!(
        stream.owner_checked(text("a"), Ownership::Owned),
        StreamAction::TellTransient(text("a"))
    );
    assert_eq!(
        stream.receive(live(2, RuntimeStreamEvent::Durable(retry(3)))),
        StreamAction::CatchUp
    );
    assert_eq!(stream.advance(), StreamAction::CatchUp);
    assert_eq!(
        stream.receive(live(3, RuntimeStreamEvent::Transient(text("b")))),
        StreamAction::CatchUp
    );
    assert_eq!(stream.advance(), StreamAction::CatchUp);
    assert_eq!(stream.catch_up(), StreamAction::ReadBatch);
    assert_eq!(told_id(stream.batch_read(Some(vec![retry(3)]))), "3");
    assert_eq!(stream.advance(), StreamAction::TellTransient(text("b")));
    assert_eq!(stream.advance(), StreamAction::Receive);
}

#[test]
fn text_of_others_is_not_told() {
    let mut stream = EventStream::open(None, fence(0, 0), vec![]);
    assert_eq!(stream.owner_checked(text("a"), Ownership::Foreign), StreamAction::Again);
    assert_eq!(stream.owner_checked(text("a"), Ownership::Unknown), StreamAction::Fail);
}

#[test]
fn lost_messages_are_made_up_for() {
    let mut stream = EventStream::open(Some(4), fence(0, 4), vec![]);
    assert_eq!(stream.receive(Live::Lagged), StreamAction::Resubscribe);
    assert_eq!(
        stream.resubscribed(Some((fence(9, 6), vec![status(5), status(6)]))),
        StreamAction::CatchUp
    );
    assert_eq!(told_id(stream.catch_up()), "5");
    assert_eq!(stream.advance(), StreamAction::Poll);
    assert_eq!(stream.receive(Live::Nothing), StreamAction::CatchUp);
    assert_eq!(told_id(stream.catch_up()), "6");
    assert_eq!(stream.resubscribed(None), StreamAction::Fail);
    assert_eq!(stream.batch_read(None), StreamAction::Fail);
    assert_eq!(stream.batch_read(Some(vec![])), StreamAction::Again);
}

#[test]
fn a_stream_stops_at_its_fence() {
    let mut stream = EventStream::open(None, fence(0, 2), vec![status(1), status(3)]);
    assert_eq!(told_id(stream.catch_up()), "1");
    assert_eq!(stream.catch_up(), StreamAction::Again);
    assert_eq!(stream.last_position(), 1);
    assert_eq!(stream.advance(), StreamAction::Receive);
}

#[test]
fn the_ids_of_a_whole_run_rise() {
    let mut stream = EventStream::open(Some(1), fence(5, 3), vec![status(2), private(3)]);
    let mut told: Vec<u64> = Vec::new();
    let actions = vec![
        stream.advance(),
        stream.receive(Live::Nothing),
        stream.catch_up(),
        stream.receive(live(6, RuntimeStreamEvent::Durable(status(4)))),
        stream.catch_up(),
        stream.batch_read(Some(vec![status(2), status(4), status(5)])),
        stream.receive(Live::Lagged),
        stream.resubscribed(Some((fence(9, 7), vec![status(4), status(5), status(7)]))),
        stream.catch_up(),
        stream.advance(),
        stream.receive(Live::Nothing),
        stream.catch_up(),
        stream.catch_up(),
    ];
    for action in actions {
        if let StreamAction::TellDurable(public) = action {
            told.push(public.id.parse().unwrap());
        }
    }
    assert!(told.len() >= 3);
    assert!(told[0] > 1);
    assert!(told.windows(2).all(|pair| pair[0] < pair[1]));
    assert!(told.iter().all(|id| [2, 4, 5, 7].contains(id)));
}

fn offered(name: &str) -> HttpToolSpec {
    HttpToolSpec {
        name: name.to_string(),
        description: "a tool".to_string(),
        input_schema: Json { value: serde_json::from_str("{}").unwrap() },
        adapter_url: "https://tools.test/".to_string(),
        completion_mode: CompletionMode::ProcessLocal,
        auto_wait_seconds: Some(30),
        running_restart: RunningRestart::UnknownOutcome,
        retry_dispatch: RetryDispatch::Never,
    }
}

#[test]
fn selected_tools_are_offered_ones() {
    let names = |list: &[&str]| list.iter().map(|name| name.to_string()).collect::<Vec<String>>();
    let tools = vec![offered("look"), offered("call")];
    assert!(tools_offered(&names(&[]), &tools));
    assert!(tools_offered(&names(&["call", "look", "call"]), &tools));
    assert!(!tools_offered(&names(&["look", "other"]), &tools));
    assert!(!tools_offered(&names(&["look"]), &vec![]));
    assert_eq!(selected_tools(&names(&["call", "other"]), &tools), vec![offered("call")]);
    assert_eq!(selected_tools(&names(&["call", "look"]), &tools), tools);
}

#[test]
fn a_request_is_made_for_its_subject() {
    assert_eq!(request_owner("authority", None), Ok(shared_session_owner()));
    let owner = request_owner("authority", Some("subject")).unwrap();
    assert_eq!(owner, SessionOwner::new("authority".to_string(), "subject".to_string()));
    assert_eq!(request_owner("authority", Some("")).unwrap_err().status, 400);
    assert_eq!(request_owner("", Some("subject")).unwrap_err().status, 400);
}

#[test]
fn the_session_of_another_looks_missing() {
    let owner = request_owner("authority", Some("subject")).unwrap();
    let state = SessionState::new("s".to_string())
        .apply_event(&SessionEvent::SessionCreated {
            schema_version: 2,
            session_id: "s".to_string(),
            owner: owner.clone(),
            created_at_ms: 5,
            selection: SessionSelection { model: None, tools: vec![], callback_base_url: None },
        })
        .unwrap();
    assert_eq!(owned_session(Some(&state), &owner), Ok(&state));
    let missing = owned_session(None, &owner);
    assert_eq!(missing, Err(StoreError::SessionNotFound));
    for other in [
        request_owner("authority", Some("another")).unwrap(),
        request_owner("elsewhere", Some("subject")).unwrap(),
        shared_session_owner(),
    ] {
        assert_eq!(owned_session(Some(&state), &other), missing);
    }
    assert_eq!(owned_session(Some(&SessionState::new("s".to_string())), &owner), missing);
    let changed = SessionEvent::StatusChanged { status: SessionStatus::Active };
    let next = state.apply_event(&changed).unwrap();
    assert_eq!(owned_session(Some(&next), &owner), Ok(&next));
}

#[test]
fn a_stream_opens_with_a_comment() {
    assert_eq!(opening_frame(), StreamFrame::Comment("stream-open"));
    assert_eq!(frame_of(&StreamAction::Poll), None);
    assert_eq!(frame_of(&StreamAction::Close), None);
    let mut stream = EventStream::open(None, fence(0, 1), vec![status(1)]);
    match frame_of(&stream.catch_up()) {
        Some(StreamFrame::Event { id, kind, data }) => {
            assert_eq!(id, Some("1".to_string()));
            assert_eq!(kind, "status_changed");
            assert_eq!(data["id"], "1");
        }
        other => panic!("no event: {:?}", other),
    }
    match frame_of(&StreamAction::TellTransient(text("a"))) {
        Some(StreamFrame::Event { id, kind, data }) => {
            assert_eq!(id, None);
            assert_eq!(kind, "assistant_message_delta");
            assert_eq!(data["text"], "a");
        }
        other => panic!("no event: {:?}", other),
    }
    match frame_of(&StreamAction::Fail) {
        Some(StreamFrame::Event { id, kind, data }) => {
            assert_eq!((id, kind), (None, "error"));
            assert_eq!(data["error"]["code"], "internal_error");
        }
        other => panic!("no event: {:?}", other),
    }
}
