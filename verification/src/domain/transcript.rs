//! The messages of a session and the deliveries that wait for it.

use super::error::{fault_of, invalid, invalid_state, DomainError, DomainErrorView};
use super::payload::{
    payload_agrees, payload_agrees_reflexive, payload_fault, DurablePayload, DurablePayloadView,
};
use super::rules::{
    identifier_fault, limit_text, text_size_fault, timestamp_fault, validate_identifier,
    validate_non_negative_timestamp,
};
use super::{MAX_MESSAGE_CONTENT_BYTES, MAX_TOOL_CALLS_PER_MESSAGE};
use crate::checks::{
    fault_if, first_fault, lemma_first_fault_prefix, lemma_first_fault_step,
    lemma_first_fault_whole, optional_fault, Checks,
};
use crate::datum::{Datum, Same};
use crate::text::{holds_text, same_text};
use vstd::prelude::*;

verus! {

/// Who speaks in a message.
#[derive(Clone, Copy, Debug, Eq, PartialEq, Structural)]
pub enum TranscriptRole {
    System,
    User,
    Assistant,
    Tool,
    Runtime,
}

/// A tool call that an assistant message declares.
#[derive(Clone, Debug, PartialEq)]
pub struct ToolCall {
    pub tool_call_id: String,
    pub tool_name: String,
    pub input: DurablePayload,
}

/// The content of a [`ToolCall`].
pub struct ToolCallView {
    pub tool_call_id: Seq<char>,
    pub tool_name: Seq<char>,
    pub input: DurablePayloadView,
}

impl DeepView for ToolCall {
    type V = ToolCallView;

    open spec fn deep_view(&self) -> ToolCallView {
        ToolCallView {
            tool_call_id: self.tool_call_id.deep_view(),
            tool_name: self.tool_name.deep_view(),
            input: self.input.deep_view(),
        }
    }
}

impl Datum for ToolCall {
    fn replica(&self) -> (copy: Self) {
        ToolCall {
            tool_call_id: self.tool_call_id.replica(),
            tool_name: self.tool_name.replica(),
            input: self.input.replica(),
        }
    }
}

/// A message of a session.
#[derive(Clone, Debug, PartialEq)]
pub struct TranscriptMessage {
    pub message_id: String,
    pub role: TranscriptRole,
    pub content: String,
    pub tool_call_id: Option<String>,
    pub tool_calls: Vec<ToolCall>,
    pub dedupe_key: Option<String>,
    pub source_queue_id: Option<u64>,
}

/// The content of a [`TranscriptMessage`].
pub struct TranscriptMessageView {
    pub message_id: Seq<char>,
    pub role: TranscriptRole,
    pub content: Seq<char>,
    pub tool_call_id: Option<Seq<char>>,
    pub tool_calls: Seq<ToolCallView>,
    pub dedupe_key: Option<Seq<char>>,
    pub source_queue_id: Option<u64>,
}

impl DeepView for TranscriptMessage {
    type V = TranscriptMessageView;

    open spec fn deep_view(&self) -> TranscriptMessageView {
        TranscriptMessageView {
            message_id: self.message_id.deep_view(),
            role: self.role,
            content: self.content.deep_view(),
            tool_call_id: self.tool_call_id.deep_view(),
            tool_calls: self.tool_calls.deep_view(),
            dedupe_key: self.dedupe_key.deep_view(),
            source_queue_id: self.source_queue_id,
        }
    }
}

impl Datum for TranscriptMessage {
    fn replica(&self) -> (copy: Self) {
        TranscriptMessage {
            message_id: self.message_id.replica(),
            role: self.role,
            content: self.content.replica(),
            tool_call_id: self.tool_call_id.replica(),
            tool_calls: self.tool_calls.replica(),
            dedupe_key: self.dedupe_key.replica(),
            source_queue_id: self.source_queue_id,
        }
    }
}

/// What a delivery brings.
#[derive(Clone, Copy, Debug, Eq, PartialEq, Structural)]
pub enum DeliveryKind {
    UserInput,
    RuntimeNotification,
}

/// An input that waits in the queue of a session.
#[derive(Clone, Debug, PartialEq)]
pub struct QueuedDelivery {
    pub queue_id: u64,
    pub delivery_id: String,
    pub kind: DeliveryKind,
    pub payload: DurablePayload,
    pub dedupe_key: String,
    pub wake: bool,
    pub created_at_ms: Option<i64>,
    pub source_tool_call_id: Option<String>,
    pub materialized_message_id: Option<String>,
}

/// The content of a [`QueuedDelivery`].
pub struct QueuedDeliveryView {
    pub queue_id: u64,
    pub delivery_id: Seq<char>,
    pub kind: DeliveryKind,
    pub payload: DurablePayloadView,
    pub dedupe_key: Seq<char>,
    pub wake: bool,
    pub created_at_ms: Option<i64>,
    pub source_tool_call_id: Option<Seq<char>>,
    pub materialized_message_id: Option<Seq<char>>,
}

impl DeepView for QueuedDelivery {
    type V = QueuedDeliveryView;

    open spec fn deep_view(&self) -> QueuedDeliveryView {
        QueuedDeliveryView {
            queue_id: self.queue_id,
            delivery_id: self.delivery_id.deep_view(),
            kind: self.kind,
            payload: self.payload.deep_view(),
            dedupe_key: self.dedupe_key.deep_view(),
            wake: self.wake,
            created_at_ms: self.created_at_ms,
            source_tool_call_id: self.source_tool_call_id.deep_view(),
            materialized_message_id: self.materialized_message_id.deep_view(),
        }
    }
}

impl Datum for QueuedDelivery {
    fn replica(&self) -> (copy: Self) {
        QueuedDelivery {
            queue_id: self.queue_id,
            delivery_id: self.delivery_id.replica(),
            kind: self.kind,
            payload: self.payload.replica(),
            dedupe_key: self.dedupe_key.replica(),
            wake: self.wake,
            created_at_ms: self.created_at_ms,
            source_tool_call_id: self.source_tool_call_id.replica(),
            materialized_message_id: self.materialized_message_id.replica(),
        }
    }
}

/// Equality of declared tool calls.
pub open spec fn call_agrees(left: ToolCallView, right: ToolCallView) -> bool {
    &&& payload_agrees(left.input, right.input)
    &&& left == (ToolCallView { input: left.input, ..right })
}

/// Equality of lists of declared tool calls.
pub open spec fn calls_agree(left: Seq<ToolCallView>, right: Seq<ToolCallView>) -> bool {
    &&& left.len() == right.len()
    &&& forall|i: int| 0 <= i < left.len() ==> call_agrees(#[trigger] left[i], right[i])
}

/// Equality of messages.
pub open spec fn message_agrees(left: TranscriptMessageView, right: TranscriptMessageView) -> bool {
    &&& calls_agree(left.tool_calls, right.tool_calls)
    &&& left == (TranscriptMessageView { tool_calls: left.tool_calls, ..right })
}

/// A message agrees with itself.
pub proof fn message_agrees_reflexive(message: TranscriptMessageView)
    ensures
        message_agrees(message, message),
{
    assert forall|i: int| 0 <= i < message.tool_calls.len() implies call_agrees(
        #[trigger] message.tool_calls[i],
        message.tool_calls[i],
    ) by {
        payload_agrees_reflexive(message.tool_calls[i].input);
    }
}

/// Equality of deliveries.
pub open spec fn delivery_agrees(left: QueuedDeliveryView, right: QueuedDeliveryView) -> bool {
    &&& payload_agrees(left.payload, right.payload)
    &&& left == (QueuedDeliveryView { payload: left.payload, ..right })
}

/// A delivery agrees with itself.
pub proof fn delivery_agrees_reflexive(delivery: QueuedDeliveryView)
    ensures
        delivery_agrees(delivery, delivery),
{
    payload_agrees_reflexive(delivery.payload);
}

impl ToolCall {
    fn agrees(&self, other: &Self) -> (agrees: bool)
        ensures
            agrees == call_agrees(self.deep_view(), other.deep_view()),
    {
        self.tool_call_id.same(&other.tool_call_id) && self.tool_name.same(&other.tool_name)
            && self.input.agrees(&other.input)
    }
}

fn same_calls(left: &Vec<ToolCall>, right: &Vec<ToolCall>) -> (agree: bool)
    ensures
        agree == calls_agree(left.deep_view(), right.deep_view()),
{
    if left.len() != right.len() {
        return false;
    }
    let mut index: usize = 0;
    while index < left.len()
        invariant
            left.len() == right.len(),
            index <= left.len(),
            forall|i: int|
                0 <= i < index ==> call_agrees(
                    #[trigger] left.deep_view()[i],
                    right.deep_view()[i],
                ),
        decreases left.len() - index,
    {
        if !left[index].agrees(&right[index]) {
            assert(!call_agrees(left.deep_view()[index as int], right.deep_view()[index as int]));
            return false;
        }
        index += 1;
    }
    true
}

fn same_number(left: &Option<u64>, right: &Option<u64>) -> (same: bool)
    ensures
        same == (*left == *right),
{
    match (left, right) {
        (Some(left), Some(right)) => *left == *right,
        (None, None) => true,
        _ => false,
    }
}

fn same_time(left: &Option<i64>, right: &Option<i64>) -> (same: bool)
    ensures
        same == (*left == *right),
{
    match (left, right) {
        (Some(left), Some(right)) => *left == *right,
        (None, None) => true,
        _ => false,
    }
}

impl TranscriptMessage {
    /// Whether both messages are equal.
    pub fn agrees(&self, other: &Self) -> (agrees: bool)
        ensures
            agrees == message_agrees(self.deep_view(), other.deep_view()),
    {
        self.message_id.same(&other.message_id) && self.role == other.role
            && self.content.same(&other.content) && self.tool_call_id.same(&other.tool_call_id)
            && same_calls(&self.tool_calls, &other.tool_calls)
            && self.dedupe_key.same(&other.dedupe_key)
            && same_number(&self.source_queue_id, &other.source_queue_id)
    }
}

impl QueuedDelivery {
    /// Whether both deliveries are equal.
    pub fn agrees(&self, other: &Self) -> (agrees: bool)
        ensures
            agrees == delivery_agrees(self.deep_view(), other.deep_view()),
    {
        self.queue_id == other.queue_id && self.delivery_id.same(&other.delivery_id)
            && self.kind == other.kind && self.payload.agrees(&other.payload)
            && self.dedupe_key.same(&other.dedupe_key) && self.wake == other.wake
            && same_time(&self.created_at_ms, &other.created_at_ms)
            && self.source_tool_call_id.same(&other.source_tool_call_id)
            && self.materialized_message_id.same(&other.materialized_message_id)
    }
}

/// What is wrong with a delivery; a new one must not name a message yet.
pub open spec fn delivery_fault(delivery: QueuedDeliveryView, allow_materialized: bool) -> Option<
    DomainErrorView,
> {
    identifier_fault("delivery_id"@, delivery.delivery_id).before(
        identifier_fault("dedupe_key"@, delivery.dedupe_key),
    ).before(
        fault_if(delivery.queue_id == 0, invalid("delivery queue ids start at one"@)),
    ).before(payload_fault(delivery.payload)).before(
        optional_fault(
            delivery.source_tool_call_id,
            |id: Seq<char>| identifier_fault("source_tool_call_id"@, id),
        ),
    ).before(
        optional_fault(
            delivery.created_at_ms,
            |time: i64| timestamp_fault("delivery created_at_ms"@, time),
        ),
    ).before(
        fault_if(
            !allow_materialized && delivery.materialized_message_id is Some,
            invalid("new deliveries cannot already be materialized"@),
        ),
    )
}

/// Checks a delivery.
pub(crate) fn validate_delivery(
    delivery: &QueuedDelivery,
    allow_materialized: bool,
) -> (result: Result<(), DomainError>)
    ensures
        fault_of(result) == delivery_fault(delivery.deep_view(), allow_materialized),
{
    validate_identifier("delivery_id", &delivery.delivery_id)?;
    validate_identifier("dedupe_key", &delivery.dedupe_key)?;
    if delivery.queue_id == 0 {
        return Err(invalid_state("delivery queue ids start at one"));
    }
    delivery.payload.validate()?;
    if let Some(source_tool_call_id) = &delivery.source_tool_call_id {
        validate_identifier("source_tool_call_id", source_tool_call_id)?;
    }
    if let Some(created_at_ms) = delivery.created_at_ms {
        validate_non_negative_timestamp("delivery created_at_ms", created_at_ms)?;
    }
    if !allow_materialized && delivery.materialized_message_id.is_some() {
        return Err(invalid_state("new deliveries cannot already be materialized"));
    }
    Ok(())
}

/// Whether one of `calls` has the given id.
pub open spec fn declares(calls: Seq<ToolCallView>, id: Seq<char>) -> bool {
    exists|i: int| 0 <= i < calls.len() && (#[trigger] calls[i]).tool_call_id == id
}

fn declares_before(calls: &Vec<ToolCall>, end: usize, id: &str) -> (found: bool)
    requires
        end <= calls.len(),
    ensures
        found == declares(calls.deep_view().take(end as int), id@),
        end == calls.len() ==> found == declares(calls.deep_view(), id@),
{
    let ghost view = calls.deep_view();
    assert(end == calls.len() ==> view.take(end as int) =~= view);
    let mut index: usize = 0;
    while index < end
        invariant
            view == calls.deep_view(),
            index <= end <= calls.len(),
            forall|i: int| 0 <= i < index ==> (#[trigger] view[i]).tool_call_id != id@,
        decreases end - index,
    {
        if same_text(&calls[index].tool_call_id, id) {
            assert(view.take(end as int)[index as int].tool_call_id == id@);
            return true;
        }
        index += 1;
    }
    false
}

/// A declared call: sound by itself, and with an id that the message has not used before.
pub open spec fn declared_call_check(own: Option<Seq<char>>) -> spec_fn(
    Seq<ToolCallView>,
    ToolCallView,
) -> Option<DomainErrorView> {
    |before: Seq<ToolCallView>, call: ToolCallView|
        identifier_fault("tool_call_id"@, call.tool_call_id).before(
            identifier_fault("tool_name"@, call.tool_name),
        ).before(payload_fault(call.input)).before(
            fault_if(
                own == Some(call.tool_call_id) || declares(before, call.tool_call_id),
                DomainErrorView::DuplicateTranscriptToolCallId(call.tool_call_id),
            ),
        )
}

/// What is wrong with a message.
pub open spec fn message_fault(message: TranscriptMessageView) -> Option<DomainErrorView> {
    identifier_fault("message_id"@, message.message_id).before(
        text_size_fault("message content"@, message.content, MAX_MESSAGE_CONTENT_BYTES),
    ).before(
        optional_fault(
            message.tool_call_id,
            |id: Seq<char>| identifier_fault("tool_call_id"@, id),
        ),
    ).before(
        fault_if(
            message.tool_calls.len() > MAX_TOOL_CALLS_PER_MESSAGE,
            DomainErrorView::CollectionTooLarge {
                field: "message tool calls"@,
                items: message.tool_calls.len() as usize,
                max: MAX_TOOL_CALLS_PER_MESSAGE,
            },
        ),
    ).before(
        optional_fault(
            message.dedupe_key,
            |key: Seq<char>| identifier_fault("message dedupe_key"@, key),
        ),
    ).before(
        fault_if(
            message.source_queue_id == Some(0u64),
            invalid("message source queue ids start at one"@),
        ),
    ).before(first_fault(message.tool_calls, declared_call_check(message.tool_call_id)))
}

fn validate_calls(calls: &Vec<ToolCall>, own: &Option<String>) -> (result: Result<(), DomainError>)
    ensures
        fault_of(result) == first_fault(calls.deep_view(), declared_call_check(own.deep_view())),
{
    let ghost view = calls.deep_view();
    let ghost check = declared_call_check(own.deep_view());
    proof {
        lemma_first_fault_whole(view, check);
    }
    let mut index: usize = 0;
    while index < calls.len()
        invariant
            view == calls.deep_view(),
            check == declared_call_check(own.deep_view()),
            index <= calls.len(),
            first_fault(view.take(index as int), check) is None,
        decreases calls.len() - index,
    {
        proof {
            lemma_first_fault_step(view, check, index as int);
            if first_fault(view.take(index + 1), check) is Some {
                lemma_first_fault_prefix(view, check, index + 1);
            }
        }
        let call = &calls[index];
        validate_identifier("tool_call_id", &call.tool_call_id)?;
        validate_identifier("tool_name", &call.tool_name)?;
        call.input.validate()?;
        if holds_text(own, &call.tool_call_id) || declares_before(
            calls,
            index,
            &call.tool_call_id,
        ) {
            return Err(DomainError::DuplicateTranscriptToolCallId(call.tool_call_id.clone()));
        }
        index += 1;
    }
    proof {
        lemma_first_fault_whole(view, check);
    }
    Ok(())
}

/// Checks a message.
pub(crate) fn validate_message(message: &TranscriptMessage) -> (result: Result<(), DomainError>)
    ensures
        fault_of(result) == message_fault(message.deep_view()),
{
    validate_identifier("message_id", &message.message_id)?;
    limit_text("message content", &message.content, MAX_MESSAGE_CONTENT_BYTES)?;
    if let Some(tool_call_id) = &message.tool_call_id {
        validate_identifier("tool_call_id", tool_call_id)?;
    }
    if message.tool_calls.len() > MAX_TOOL_CALLS_PER_MESSAGE {
        return Err(
            DomainError::CollectionTooLarge {
                field: "message tool calls",
                items: message.tool_calls.len(),
                max: MAX_TOOL_CALLS_PER_MESSAGE,
            },
        );
    }
    if let Some(dedupe_key) = &message.dedupe_key {
        validate_identifier("message dedupe_key", dedupe_key)?;
    }
    if let Some(source_queue_id) = message.source_queue_id {
        if source_queue_id == 0 {
            return Err(invalid_state("message source queue ids start at one"));
        }
    }
    validate_calls(&message.tool_calls, &message.tool_call_id)
}

} // verus!
