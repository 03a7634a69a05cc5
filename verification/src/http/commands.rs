//! Commands on sessions: their ids, the events that they lead to, and how they are repeated.

use crate::datum::{Datum, Same};
use crate::digest::{
    hex, hex_text, length_prefixed, push_length_prefixed, sha256, sha256_of, texts_view,
};
use crate::domain::error::DomainErrorView;
use crate::domain::event::{
    EventDraft, EventDraftView, EventRecord, EventRecordView, SessionEvent, SessionEventView,
};
use crate::domain::payload::{
    inline_payload, payload_agrees, payload_agrees_reflexive, DurablePayload, DurablePayloadView,
};
use crate::domain::selection::{
    chosen_model_agrees, model_agrees_reflexive, SessionModelSelection, SessionModelSelectionView,
    SessionOwner, SessionOwnerView, SessionSelectionView,
};
use crate::domain::state::{SessionState, SessionStateView};
use crate::domain::transcript::{
    message_agrees, message_agrees_reflexive, DeliveryKind, QueuedDelivery, QueuedDeliveryView,
    TranscriptMessage, TranscriptMessageView, TranscriptRole,
};
use crate::http::errors::{ServiceError, ServiceErrorView};
use crate::http::events::{public_event, told_event, PublicEvent, PublicEventView};
use crate::json::{fields, json_view, string_value, Fields, JsonView};
use crate::text::{joined, same_text};
use serde_json::Value;
use vstd::prelude::*;
use vstd::string::*;
use vstd::utf8::encode_utf8;

verus! {

/// How many events are read at once.
pub const READ_BATCH_SIZE: usize = 256;

/// The digest of fields under a kind.
pub open spec fn fields_digest(kind: Seq<char>, texts: Seq<Seq<char>>) -> Seq<char> {
    "sha256:v1:"@ + hex(sha256_of(encode_utf8(kind) + seq![0u8] + length_prefixed(texts)))
}

/// The digest of an owner.
pub open spec fn owner_digest(owner: SessionOwnerView) -> Seq<char> {
    fields_digest("zode.session-owner.v1"@, seq![owner.authority_id, owner.subject])
}

/// The digest of a value in a scope.
pub open spec fn semantic_digest(kind: Seq<char>, scope: Seq<char>, value: Seq<char>) -> Seq<char> {
    fields_digest(kind, seq![scope, value])
}

/// The id of a command of a session.
pub open spec fn command_id_of(
    kind: Seq<char>,
    owner: SessionOwnerView,
    session_id: Seq<char>,
    key: Seq<char>,
) -> Seq<char> {
    semantic_digest(
        "session."@ + kind + ".command"@,
        owner_digest(owner) + ":"@ + session_id + ":"@ + key,
        key,
    )
}

fn digest_pair(kind: &str, first: &str, second: &str) -> (digest: String)
    ensures
        digest@ == fields_digest(kind@, seq![first@, second@]),
{
    let mut source: Vec<u8> = Vec::new();
    source.extend_from_slice(kind.as_bytes());
    source.push(0);
    push_length_prefixed(&mut source, &[first, second]);
    proof {
        assert(texts_view(seq![first, second]) =~= seq![first@, second@]);
        assert(source@ =~= encode_utf8(kind@) + seq![0u8] + length_prefixed(
            seq![first@, second@],
        ));
    }
    joined("sha256:v1:", &hex_text(sha256(source.as_slice()).as_slice()))
}

fn digest_of_owner(owner: &SessionOwner) -> (digest: String)
    ensures
        digest@ == owner_digest(owner.deep_view()),
{
    digest_pair("zode.session-owner.v1", &owner.authority_id, &owner.subject)
}

/// The id of a command of a session: the same for the same owner, session and idempotency key.
pub fn session_command_id(
    kind: &str,
    owner: &SessionOwner,
    session_id: &str,
    key: &str,
) -> (id: String)
    ensures
        id@ == command_id_of(kind@, owner.deep_view(), session_id@, key@),
{
    let mut name = joined("session.", kind);
    name.append(".command");
    let mut scope = digest_of_owner(owner);
    scope.append(":");
    scope.append(session_id);
    scope.append(":");
    scope.append(key);
    digest_pair(&name, &scope, key)
}

/// A message that a user sends, with the ids of all that it leads to.
#[derive(Clone, Debug, PartialEq)]
pub struct MessageCommand {
    pub command_id: String,
    pub message_id: String,
    pub event_id: String,
    pub delivery_id: String,
    pub delivery_event_id: String,
    pub dedupe_key: String,
    pub idempotency_key: String,
    pub content: String,
    pub created_at_ms: i64,
}

/// The content of a [`MessageCommand`].
pub struct MessageCommandView {
    pub command_id: Seq<char>,
    pub message_id: Seq<char>,
    pub event_id: Seq<char>,
    pub delivery_id: Seq<char>,
    pub delivery_event_id: Seq<char>,
    pub dedupe_key: Seq<char>,
    pub idempotency_key: Seq<char>,
    pub content: Seq<char>,
    pub created_at_ms: i64,
}

impl DeepView for MessageCommand {
    type V = MessageCommandView;

    open spec fn deep_view(&self) -> MessageCommandView {
        MessageCommandView {
            command_id: self.command_id.deep_view(),
            message_id: self.message_id.deep_view(),
            event_id: self.event_id.deep_view(),
            delivery_id: self.delivery_id.deep_view(),
            delivery_event_id: self.delivery_event_id.deep_view(),
            dedupe_key: self.dedupe_key.deep_view(),
            idempotency_key: self.idempotency_key.deep_view(),
            content: self.content.deep_view(),
            created_at_ms: self.created_at_ms,
        }
    }
}

/// The command of a message. Its ids follow from the owner, the session and the idempotency key;
/// the message may have an id of its own.
pub open spec fn message_command_of(
    owner: SessionOwnerView,
    session_id: Seq<char>,
    idempotency_key: Seq<char>,
    message_id: Option<Seq<char>>,
    content: Seq<char>,
    created_at_ms: i64,
) -> MessageCommandView {
    let scope = owner_digest(owner) + ":"@ + session_id;
    let command_id = "message-"@ + semantic_digest("session.message.key"@, scope, idempotency_key);
    let message_id = match message_id {
        Some(id) => id,
        None => "message-"@ + semantic_digest("session.message.id"@, scope, idempotency_key),
    };
    MessageCommandView {
        command_id,
        message_id,
        event_id: "message-appended-"@ + semantic_digest(
            "session.message.event"@,
            command_id,
            message_id,
        ),
        delivery_id: "delivery-"@ + semantic_digest(
            "session.message.delivery"@,
            command_id,
            message_id,
        ),
        delivery_event_id: "delivery-queued-"@ + semantic_digest(
            "session.message.delivery-event"@,
            command_id,
            message_id,
        ),
        dedupe_key: "delivery:"@ + command_id,
        idempotency_key,
        content,
        created_at_ms,
    }
}

/// The message of a command.
pub open spec fn message_of(command: MessageCommandView) -> TranscriptMessageView {
    TranscriptMessageView {
        message_id: command.message_id,
        role: TranscriptRole::User,
        content: command.content,
        tool_call_id: None,
        tool_calls: Seq::empty(),
        dedupe_key: Some(command.idempotency_key),
        source_queue_id: None,
    }
}

/// What a delivery of the message carries.
pub open spec fn delivery_content(command: MessageCommandView) -> JsonView {
    JsonView::Object(
        fields().insert("message_id"@, JsonView::Text(command.message_id)).insert(
            "content"@,
            JsonView::Text(command.content),
        ),
    )
}

/// The delivery of the message at a place in the queue.
pub open spec fn delivery_of(
    command: MessageCommandView,
    queue_id: u64,
    payload: DurablePayloadView,
) -> QueuedDeliveryView {
    QueuedDeliveryView {
        queue_id,
        delivery_id: command.delivery_id,
        kind: DeliveryKind::UserInput,
        payload,
        dedupe_key: command.dedupe_key,
        wake: true,
        created_at_ms: Some(command.created_at_ms),
        source_tool_call_id: None,
        materialized_message_id: None,
    }
}

/// The delivery that a command asks for, if its content can be carried. It has no place yet.
pub open spec fn requested_delivery_of(command: MessageCommandView) -> Option<QueuedDeliveryView> {
    match inline_payload(delivery_content(command)) {
        Ok(payload) => Some(delivery_of(command, 0, DurablePayloadView::Inline(payload))),
        Err(_) => None,
    }
}

/// The failure of a message that the domain refuses.
pub open spec fn message_failure(fault: DomainErrorView) -> ServiceErrorView {
    match fault {
        DomainErrorView::DurablePayloadTooLarge { .. } => ServiceErrorView::PayloadTooLarge,
        DomainErrorView::TextTooLarge { .. } => ServiceErrorView::PayloadTooLarge,
        _ => ServiceErrorView::Invalid("invalid message request"@),
    }
}

/// The event with which a message is queued in the current state of its session.
pub open spec fn delivery_draft_of(
    current: SessionStateView,
    command: MessageCommandView,
) -> Result<EventDraftView, ServiceErrorView> {
    let queue_id = current.delivery_ack + current.delivery_queue.len() + 1;
    match inline_payload(delivery_content(command)) {
        Err(fault) => Err(message_failure(fault)),
        Ok(payload) => if queue_id > u64::MAX {
            Err(ServiceErrorView::Invalid("delivery queue is full"@))
        } else {
            Ok(
                EventDraftView {
                    event_id: command.delivery_event_id,
                    event: SessionEventView::DeliveryQueued {
                        delivery: delivery_of(
                            command,
                            queue_id as u64,
                            DurablePayloadView::Inline(payload),
                        ),
                    },
                },
            )
        },
    }
}

/// The event with which a message is added to the transcript.
pub open spec fn message_draft_of(command: MessageCommandView) -> EventDraftView {
    EventDraftView {
        event_id: command.event_id,
        event: SessionEventView::MessageAppended { message: message_of(command), wake_wait: true },
    }
}

impl MessageCommand {
    /// The command of a message.
    pub fn new(
        owner: &SessionOwner,
        session_id: &str,
        idempotency_key: String,
        message_id: Option<String>,
        content: String,
        created_at_ms: i64,
    ) -> (command: Self)
        ensures
            command.deep_view() == message_command_of(
                owner.deep_view(),
                session_id@,
                idempotency_key@,
                message_id.deep_view(),
                content@,
                created_at_ms,
            ),
    {
        let mut scope = digest_of_owner(owner);
        scope.append(":");
        scope.append(session_id);
        let command_id = joined(
            "message-",
            &digest_pair("session.message.key", &scope, &idempotency_key),
        );
        let message_id = match message_id {
            Some(id) => id,
            None => joined(
                "message-",
                &digest_pair("session.message.id", &scope, &idempotency_key),
            ),
        };
        let event_id = joined(
            "message-appended-",
            &digest_pair("session.message.event", &command_id, &message_id),
        );
        let delivery_id = joined(
            "delivery-",
            &digest_pair("session.message.delivery", &command_id, &message_id),
        );
        let delivery_event_id = joined(
            "delivery-queued-",
            &digest_pair("session.message.delivery-event", &command_id, &message_id),
        );
        let dedupe_key = joined("delivery:", &command_id);
        MessageCommand {
            command_id,
            message_id,
            event_id,
            delivery_id,
            delivery_event_id,
            dedupe_key,
            idempotency_key,
            content,
            created_at_ms,
        }
    }

    /// The message of the command.
    pub fn message(&self) -> (message: TranscriptMessage)
        ensures
            message.deep_view() == message_of(self.deep_view()),
    {
        let message = TranscriptMessage {
            message_id: self.message_id.clone(),
            role: TranscriptRole::User,
            content: self.content.clone(),
            tool_call_id: None,
            tool_calls: Vec::new(),
            dedupe_key: Some(self.idempotency_key.clone()),
            source_queue_id: None,
        };
        assert(message.deep_view().tool_calls =~= Seq::empty());
        message
    }

    fn delivery_value(&self) -> (value: Value)
        ensures
            json_view(value) == delivery_content(self.deep_view()),
    {
        Fields::new().put("message_id", string_value(self.message_id.clone())).put(
            "content",
            string_value(self.content.clone()),
        ).value()
    }

    fn delivery(&self, queue_id: u64, payload: DurablePayload) -> (delivery: QueuedDelivery)
        ensures
            delivery.deep_view() == delivery_of(self.deep_view(), queue_id, payload.deep_view()),
    {
        QueuedDelivery {
            queue_id,
            delivery_id: self.delivery_id.clone(),
            kind: DeliveryKind::UserInput,
            payload,
            dedupe_key: self.dedupe_key.clone(),
            wake: true,
            created_at_ms: Some(self.created_at_ms),
            source_tool_call_id: None,
            materialized_message_id: None,
        }
    }

    /// The delivery that the command asks for, without a place in the queue.
    pub fn requested_delivery(&self) -> (delivery: Option<QueuedDelivery>)
        ensures
            delivery.deep_view() == requested_delivery_of(self.deep_view()),
    {
        match DurablePayload::inline(self.delivery_value()) {
            Ok(payload) => Some(self.delivery(0, payload)),
            Err(_) => None,
        }
    }

    /// The event with which the message is added to the transcript.
    pub fn message_draft(&self) -> (draft: EventDraft)
        ensures
            draft.deep_view() == message_draft_of(self.deep_view()),
    {
        EventDraft::new(
            self.event_id.clone(),
            SessionEvent::MessageAppended { message: self.message(), wake_wait: true },
        )
    }

    /// The event with which the message is queued in the current state of its session.
    pub fn delivery_draft(&self, current: &SessionState) -> (result: Result<
        EventDraft,
        ServiceError,
    >)
        ensures
            match result {
                Ok(draft) => delivery_draft_of(current.deep_view(), self.deep_view()) == Ok::<
                    EventDraftView,
                    ServiceErrorView,
                >(draft.deep_view()),
                Err(error) => delivery_draft_of(current.deep_view(), self.deep_view()) == Err::<
                    EventDraftView,
                    ServiceErrorView,
                >(error.deep_view()),
            },
    {
        let payload = match DurablePayload::inline(self.delivery_value()) {
            Ok(payload) => payload,
            Err(error) => {
                return Err(ServiceError::from_domain(error));
            },
        };
        let queued: u64 = current.delivery_queue.len() as u64;
        let last: Option<u64> = match current.delivery_ack.checked_add(queued) {
            Some(last) => last.checked_add(1),
            None => None,
        };
        match last {
            Some(queue_id) => Ok(
                EventDraft::new(
                    self.delivery_event_id.clone(),
                    SessionEvent::DeliveryQueued { delivery: self.delivery(queue_id, payload) },
                ),
            ),
            None => Err(ServiceError::Invalid("delivery queue is full".to_string())),
        }
    }
}

/// The event with which a model is selected: the rest of the selection stays.
pub open spec fn model_draft_of(
    current: SessionStateView,
    model: SessionModelSelectionView,
    command_id: Seq<char>,
) -> EventDraftView {
    EventDraftView {
        event_id: "model-selection-changed:"@ + command_id,
        event: SessionEventView::ModelSelectionChanged {
            selection: SessionSelectionView { model: Some(model), ..current.selection },
        },
    }
}

/// The event with which a model is selected.
pub fn model_draft(
    current: &SessionState,
    model: SessionModelSelection,
    command_id: &str,
) -> (draft: EventDraft)
    ensures
        draft.deep_view() == model_draft_of(
            current.deep_view(),
            model.deep_view(),
            command_id@,
        ),
{
    let mut selection = current.selection.replica();
    selection.model = Some(model);
    EventDraft::new(
        joined("model-selection-changed:", command_id),
        SessionEvent::ModelSelectionChanged { selection },
    )
}

/// Whether two deliveries were asked for by the same request.
pub open spec fn same_request(left: QueuedDeliveryView, right: QueuedDeliveryView) -> bool {
    &&& left.delivery_id == right.delivery_id
    &&& left.kind == right.kind
    &&& payload_agrees(left.payload, right.payload)
    &&& left.dedupe_key == right.dedupe_key
    &&& left.wake == right.wake
    &&& left.source_tool_call_id == right.source_tool_call_id
}

fn same_delivery_request(left: &QueuedDelivery, right: &QueuedDelivery) -> (same: bool)
    ensures
        same == same_request(left.deep_view(), right.deep_view()),
{
    left.delivery_id.same(&right.delivery_id) && left.kind == right.kind && left.payload.agrees(
        &right.payload,
    ) && left.dedupe_key.same(&right.dedupe_key) && left.wake == right.wake
        && left.source_tool_call_id.same(&right.source_tool_call_id)
}

/// What a command asked for, as far as its event shows it.
pub enum CommandRequest {
    /// A message, which may have been stored itself or as a delivery.
    Message { message: TranscriptMessage, delivery: Option<QueuedDelivery> },
    /// A delivery.
    Delivery(QueuedDelivery),
    /// The selection of a model.
    Model(SessionModelSelection),
}

/// The content of a [`CommandRequest`].
pub enum CommandRequestView {
    Message { message: TranscriptMessageView, delivery: Option<QueuedDeliveryView> },
    Delivery(QueuedDeliveryView),
    Model(SessionModelSelectionView),
}

impl DeepView for CommandRequest {
    type V = CommandRequestView;

    open spec fn deep_view(&self) -> CommandRequestView {
        match self {
            CommandRequest::Message { message, delivery } => CommandRequestView::Message {
                message: message.deep_view(),
                delivery: delivery.deep_view(),
            },
            CommandRequest::Delivery(delivery) => CommandRequestView::Delivery(
                delivery.deep_view(),
            ),
            CommandRequest::Model(model) => CommandRequestView::Model(model.deep_view()),
        }
    }
}

/// Whether an event is what a request asked for.
pub open spec fn answers(event: SessionEventView, request: CommandRequestView) -> bool {
    match (request, event) {
        (
            CommandRequestView::Message { message, .. },
            SessionEventView::MessageAppended { message: stored, .. },
        ) => message_agrees(stored, message),
        (
            CommandRequestView::Message { delivery, .. },
            SessionEventView::DeliveryQueued { delivery: stored },
        ) => delivery matches Some(wanted) && same_request(stored, wanted),
        (
            CommandRequestView::Delivery(wanted),
            SessionEventView::DeliveryQueued { delivery: stored },
        ) => same_request(stored, wanted),
        (
            CommandRequestView::Model(model),
            SessionEventView::ModelSelectionChanged { selection },
        ) => chosen_model_agrees(selection.model, model),
        _ => false,
    }
}

fn is_answer(event: &SessionEvent, request: &CommandRequest) -> (is: bool)
    ensures
        is == answers(event.deep_view(), request.deep_view()),
{
    match (request, event) {
        (
            CommandRequest::Message { message, .. },
            SessionEvent::MessageAppended { message: stored, .. },
        ) => stored.agrees(message),
        (
            CommandRequest::Message { delivery, .. },
            SessionEvent::DeliveryQueued { delivery: stored },
        ) => match delivery {
            Some(wanted) => same_delivery_request(stored, wanted),
            None => false,
        },
        (CommandRequest::Delivery(wanted), SessionEvent::DeliveryQueued { delivery: stored }) => {
            same_delivery_request(stored, wanted)
        },
        (CommandRequest::Model(model), SessionEvent::ModelSelectionChanged { selection }) => {
            match &selection.model {
                Some(chosen) => chosen.agrees(model),
                None => false,
            }
        },
        _ => false,
    }
}

/// What a command has stored.
#[derive(Clone, Debug, PartialEq)]
pub struct AppendResult {
    pub stream_id: String,
    pub command_id: String,
    pub events: Vec<EventRecord>,
    pub stream_version: u64,
    pub replayed: bool,
}

/// The content of a [`AppendResult`].
pub struct AppendResultView {
    pub stream_id: Seq<char>,
    pub command_id: Seq<char>,
    pub events: Seq<EventRecordView>,
    pub stream_version: u64,
    pub replayed: bool,
}

impl DeepView for AppendResult {
    type V = AppendResultView;

    open spec fn deep_view(&self) -> AppendResultView {
        AppendResultView {
            stream_id: self.stream_id.deep_view(),
            command_id: self.command_id.deep_view(),
            events: self.events.deep_view(),
            stream_version: self.stream_version,
            replayed: self.replayed,
        }
    }
}

impl Datum for AppendResult {
    fn replica(&self) -> (copy: Self) {
        AppendResult {
            stream_id: self.stream_id.replica(),
            command_id: self.command_id.replica(),
            events: self.events.replica(),
            stream_version: self.stream_version,
            replayed: self.replayed,
        }
    }
}

/// Accepts the events of a command.
pub open spec fn of_command(command_id: Seq<char>) -> spec_fn(EventRecordView) -> bool {
    |record: EventRecordView| record.command_id == command_id
}

/// The failure of a request that conflicts with what its command has done.
pub open spec fn command_conflict() -> ServiceErrorView {
    ServiceErrorView::Conflict("request conflicts with an existing command"@)
}

/// What a command has stored, if it was given before: the same request finds it again, and another
/// under the same command conflicts.
pub open spec fn replayed_command(
    session_id: Seq<char>,
    command_id: Seq<char>,
    records: Seq<EventRecordView>,
    request: CommandRequestView,
) -> Result<Option<AppendResultView>, ServiceErrorView> {
    let events = records.filter(of_command(command_id));
    if events.len() == 0 {
        Ok(None)
    } else if events.len() != 1 || !answers(events[0].event, request) {
        Err(command_conflict())
    } else {
        Ok(
            Some(
                AppendResultView {
                    stream_id: session_id,
                    command_id,
                    events,
                    stream_version: events[0].stream_version,
                    replayed: true,
                },
            ),
        )
    }
}

fn events_of_command(records: &Vec<EventRecord>, command_id: &str) -> (events: Vec<EventRecord>)
    ensures
        events.deep_view() == records.deep_view().filter(of_command(command_id@)),
{
    let ghost view = records.deep_view();
    let ghost keep = of_command(command_id@);
    let mut events: Vec<EventRecord> = Vec::new();
    let mut index: usize = 0;
    proof {
        reveal(Seq::filter);
        assert(view.take(0) =~= Seq::empty());
        assert(events.deep_view() =~= Seq::empty());
    }
    while index < records.len()
        invariant
            view == records.deep_view(),
            keep == of_command(command_id@),
            index <= records.len(),
            events.deep_view() == view.take(index as int).filter(keep),
        decreases records.len() - index,
    {
        proof {
            reveal(Seq::filter);
            assert(view.take(index + 1).drop_last() =~= view.take(index as int));
        }
        if same_text(&records[index].command_id, command_id) {
            let ghost before = events.deep_view();
            events.push(records[index].replica());
            assert(events.deep_view() =~= before.push(view[index as int]));
        }
        index += 1;
    }
    assert(view.take(index as int) =~= view);
    events
}

/// What a command has stored, if it was given before.
pub fn replay_command(
    session_id: &str,
    command_id: &str,
    records: &Vec<EventRecord>,
    request: &CommandRequest,
) -> (result: Result<Option<AppendResult>, ServiceError>)
    ensures
        match result {
            Ok(found) => replayed_command(
                session_id@,
                command_id@,
                records.deep_view(),
                request.deep_view(),
            ) == Ok::<Option<AppendResultView>, ServiceErrorView>(found.deep_view()),
            Err(error) => replayed_command(
                session_id@,
                command_id@,
                records.deep_view(),
                request.deep_view(),
            ) == Err::<Option<AppendResultView>, ServiceErrorView>(error.deep_view()),
        },
{
    let events = events_of_command(records, command_id);
    if events.len() == 0 {
        return Ok(None);
    }
    if events.len() != 1 || !is_answer(&events[0].event, request) {
        return Err(
            ServiceError::Conflict("request conflicts with an existing command".to_string()),
        );
    }
    let stream_version: u64 = events[0].stream_version;
    Ok(
        Some(
            AppendResult {
                stream_id: session_id.to_string(),
                command_id: command_id.to_string(),
                events,
                stream_version,
                replayed: true,
            },
        ),
    )
}

/// Accepts the events of a session.
pub open spec fn of_session(session_id: Seq<char>) -> spec_fn(EventRecordView) -> bool {
    |record: EventRecordView| record.stream_id == session_id
}

/// The events of a session after a position, as far as they were read.
#[derive(Clone, Debug, PartialEq)]
pub struct EventTail {
    pub matching: Vec<EventRecord>,
    pub after_position: u64,
}

impl EventTail {
    /// Takes in a batch, and tells whether there may be more.
    pub fn take_batch(&mut self, session_id: &str, batch: Vec<EventRecord>) -> (more: bool)
        ensures
            final(self).matching.deep_view() == old(self).matching.deep_view()
                + batch.deep_view().filter(of_session(session_id@)),
            final(self).after_position == if batch.len() > 0 {
                batch.deep_view().last().global_position
            } else {
                old(self).after_position
            },
            more == (batch.len() == READ_BATCH_SIZE),
    {
        let ghost before = self.matching.deep_view();
        let ghost view = batch.deep_view();
        let ghost keep = of_session(session_id@);
        let ghost position = self.after_position;
        let mut index: usize = 0;
        proof {
            reveal(Seq::filter);
            assert(view.take(0) =~= Seq::empty());
            assert(before + view.take(0).filter(keep) =~= before);
        }
        while index < batch.len()
            invariant
                view == batch.deep_view(),
                keep == of_session(session_id@),
                index <= batch.len(),
                self.after_position == position,
                self.matching.deep_view() == before + view.take(index as int).filter(keep),
            decreases batch.len() - index,
        {
            proof {
                reveal(Seq::filter);
                assert(view.take(index + 1).drop_last() =~= view.take(index as int));
            }
            if same_text(&batch[index].stream_id, session_id) {
                let ghost earlier = self.matching.deep_view();
                self.matching.push(batch[index].replica());
                assert(self.matching.deep_view() =~= earlier.push(view[index as int]));
                assert(self.matching.deep_view() =~= before + view.take(index + 1).filter(keep));
            }
            index += 1;
        }
        assert(view.take(index as int) =~= view);
        if batch.len() > 0 {
            self.after_position = batch[batch.len() - 1].global_position;
        }
        batch.len() == READ_BATCH_SIZE
    }
}

/// The position of the last of some records that goes beyond a position, each in its turn.
pub open spec fn position_after(last: u64, records: Seq<EventRecordView>) -> u64
    decreases records.len(),
{
    if records.len() == 0 {
        last
    } else {
        let earlier = position_after(last, records.drop_last());
        if records.last().global_position > earlier {
            records.last().global_position
        } else {
            earlier
        }
    }
}

/// What is told of those records that go beyond a position, each in its turn.
pub open spec fn told_after(last: u64, records: Seq<EventRecordView>) -> Seq<PublicEventView>
    decreases records.len(),
{
    if records.len() == 0 {
        Seq::empty()
    } else {
        let earlier = told_after(last, records.drop_last());
        let record = records.last();
        match told_event(record) {
            Some(public) if record.global_position > position_after(
                last,
                records.drop_last(),
            ) => earlier.push(public),
            _ => earlier,
        }
    }
}

/// Tells those records that go beyond the last position that was told, and gives the new one.
pub fn tell_after(last: u64, records: &Vec<EventRecord>) -> (told: (Vec<PublicEvent>, u64))
    ensures
        told.0.deep_view() == told_after(last, records.deep_view()),
        told.1 == position_after(last, records.deep_view()),
{
    let ghost view = records.deep_view();
    let mut events: Vec<PublicEvent> = Vec::new();
    let mut position: u64 = last;
    let mut index: usize = 0;
    assert(view.take(0) =~= Seq::empty());
    assert(events.deep_view() =~= told_after(last, view.take(0)));
    while index < records.len()
        invariant
            view == records.deep_view(),
            index <= records.len(),
            events.deep_view() == told_after(last, view.take(index as int)),
            position == position_after(last, view.take(index as int)),
        decreases records.len() - index,
    {
        let record = &records[index];
        assert(view.take(index + 1).drop_last() =~= view.take(index as int));
        assert(view.take(index + 1).last() == record.deep_view());
        if record.global_position > position {
            position = record.global_position;
            if let Some(public) = public_event(record) {
                let ghost earlier = events.deep_view();
                let ghost added = public.deep_view();
                events.push(public);
                assert(events.deep_view() =~= earlier.push(added));
            }
        }
        index += 1;
    }
    assert(view.take(index as int) =~= view);
    (events, position)
}

/// A command that was stored and is given again finds what it stored; nothing new is stored.
pub proof fn repeated_command_is_found(
    session_id: Seq<char>,
    records: Seq<EventRecordView>,
    record: EventRecordView,
    request: CommandRequestView,
)
    requires
        records.filter(of_command(record.command_id)).len() == 0,
        answers(record.event, request),
    ensures
        replayed_command(
            session_id,
            record.command_id,
            records.push(record),
            request,
        ) matches Ok(Some(found)) && found.replayed && found.stream_version
            == record.stream_version && found.events == seq![record],
{
    reveal(Seq::filter);
    assert(records.push(record).drop_last() =~= records);
    assert(records.push(record).filter(of_command(record.command_id)) =~= seq![record]);
}

/// What a message stores answers the same message, given again at any time: whether it was queued
/// or added to the transcript.
pub proof fn stored_message_answers_itself(
    current: SessionStateView,
    command: MessageCommandView,
    created_at_ms: i64,
)
    ensures
        ({
            let again = MessageCommandView { created_at_ms, ..command };
            let request = CommandRequestView::Message {
                message: message_of(again),
                delivery: requested_delivery_of(again),
            };
            &&& answers(message_draft_of(command).event, request)
            &&& delivery_draft_of(current, command) matches Ok(draft) ==> answers(
                draft.event,
                request,
            )
        }),
{
    message_agrees_reflexive(message_of(command));
    if let Ok(payload) = inline_payload(delivery_content(command)) {
        payload_agrees_reflexive(DurablePayloadView::Inline(payload));
    }
}

/// What the selection of a model stores answers the same selection, given again.
pub proof fn stored_model_answers_itself(
    current: SessionStateView,
    model: SessionModelSelectionView,
    command_id: Seq<char>,
)
    ensures
        answers(model_draft_of(current, model, command_id).event, CommandRequestView::Model(model)),
{
    model_agrees_reflexive(model);
}

/// What is told never goes back to a position that was told before.
pub proof fn told_position_never_falls(last: u64, records: Seq<EventRecordView>)
    ensures
        position_after(last, records) >= last,
    decreases records.len(),
{
    if records.len() > 0 {
        told_position_never_falls(last, records.drop_last());
    }
}

} // verus!
