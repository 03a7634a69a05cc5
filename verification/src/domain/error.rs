//! The faults that the session domain reports.

use crate::number::{decimal, decimal_text, signed_decimal, signed_text};
use crate::text::joined;
use vstd::prelude::*;
use vstd::string::*;

verus! {

/// Why an event, a command or a state was refused.
#[derive(Debug, PartialEq)]
pub enum DomainError {
    EmptyField { field: &'static str },
    TextTooLarge { field: &'static str, bytes: usize, max: usize },
    CollectionTooLarge { field: &'static str, items: usize, max: usize },
    DurablePayloadTooLarge { bytes: usize, max: usize },
    InvalidDurablePayload(String),
    InvalidWaitTimeout,
    EmptyEventBatch,
    SessionMismatch { expected: String, actual: String },
    StreamVersionGap { expected: u64, actual: u64 },
    DuplicateEventId(String),
    UnsupportedEventSchema(u32),
    UnsupportedSessionCreatedSchema(u32),
    SessionNotCreated,
    SessionAlreadyCreated,
    InvalidCreatedAt,
    InvalidTimestamp { field: &'static str },
    InvalidTimestampOrder { start: i64, end: i64 },
    InvalidState(String),
    InvalidAsyncToolStart(String),
    ConflictingAsyncToolCallStart(String),
    UnknownAsyncToolCall(String),
    UnknownOutcomeTerminalConflict(String),
    UnknownCallback(String),
    CallbackPayloadConflict(String),
    CallbackTerminalConflict(String),
    ConflictingDelivery(String),
    UnknownDelivery(u64),
    DeliveryNotMaterialized(u64),
    MaterializationIdentity(u64),
    AckBeyondEnqueued { requested: u64, max_queued: u64 },
    DeliveryQueueOrder { expected: u64, actual: u64 },
    ConflictingTranscriptMessage(String),
    DuplicateTranscriptToolCallId(String),
    UnknownToolCall(String),
    ConflictingToolCallIdentity(String),
    VersionOverflow,
}

/// The content of a [`DomainError`].
pub enum DomainErrorView {
    EmptyField { field: Seq<char> },
    TextTooLarge { field: Seq<char>, bytes: usize, max: usize },
    CollectionTooLarge { field: Seq<char>, items: usize, max: usize },
    DurablePayloadTooLarge { bytes: usize, max: usize },
    InvalidDurablePayload(Seq<char>),
    InvalidWaitTimeout,
    EmptyEventBatch,
    SessionMismatch { expected: Seq<char>, actual: Seq<char> },
    StreamVersionGap { expected: u64, actual: u64 },
    DuplicateEventId(Seq<char>),
    UnsupportedEventSchema(u32),
    UnsupportedSessionCreatedSchema(u32),
    SessionNotCreated,
    SessionAlreadyCreated,
    InvalidCreatedAt,
    InvalidTimestamp { field: Seq<char> },
    InvalidTimestampOrder { start: i64, end: i64 },
    InvalidState(Seq<char>),
    InvalidAsyncToolStart(Seq<char>),
    ConflictingAsyncToolCallStart(Seq<char>),
    UnknownAsyncToolCall(Seq<char>),
    UnknownOutcomeTerminalConflict(Seq<char>),
    UnknownCallback(Seq<char>),
    CallbackPayloadConflict(Seq<char>),
    CallbackTerminalConflict(Seq<char>),
    ConflictingDelivery(Seq<char>),
    UnknownDelivery(u64),
    DeliveryNotMaterialized(u64),
    MaterializationIdentity(u64),
    AckBeyondEnqueued { requested: u64, max_queued: u64 },
    DeliveryQueueOrder { expected: u64, actual: u64 },
    ConflictingTranscriptMessage(Seq<char>),
    DuplicateTranscriptToolCallId(Seq<char>),
    UnknownToolCall(Seq<char>),
    ConflictingToolCallIdentity(Seq<char>),
    VersionOverflow,
}

impl DeepView for DomainError {
    type V = DomainErrorView;

    open spec fn deep_view(&self) -> DomainErrorView {
        match self {
            DomainError::EmptyField { field } => DomainErrorView::EmptyField {
                field: field.deep_view(),
            },
            DomainError::TextTooLarge { field, bytes, max } => DomainErrorView::TextTooLarge {
                field: field.deep_view(),
                bytes: *bytes,
                max: *max,
            },
            DomainError::CollectionTooLarge {
                field,
                items,
                max,
            } => DomainErrorView::CollectionTooLarge {
                field: field.deep_view(),
                items: *items,
                max: *max,
            },
            DomainError::DurablePayloadTooLarge {
                bytes,
                max,
            } => DomainErrorView::DurablePayloadTooLarge {
                bytes: *bytes,
                max: *max,
            },
            DomainError::InvalidDurablePayload(value) => DomainErrorView::InvalidDurablePayload(
                value.deep_view(),
            ),
            DomainError::InvalidWaitTimeout => DomainErrorView::InvalidWaitTimeout,
            DomainError::EmptyEventBatch => DomainErrorView::EmptyEventBatch,
            DomainError::SessionMismatch { expected, actual } => DomainErrorView::SessionMismatch {
                expected: expected.deep_view(),
                actual: actual.deep_view(),
            },
            DomainError::StreamVersionGap {
                expected,
                actual,
            } => DomainErrorView::StreamVersionGap {
                expected: *expected,
                actual: *actual,
            },
            DomainError::DuplicateEventId(value) => DomainErrorView::DuplicateEventId(
                value.deep_view(),
            ),
            DomainError::UnsupportedEventSchema(value) => DomainErrorView::UnsupportedEventSchema(
                *value,
            ),
            DomainError::UnsupportedSessionCreatedSchema(value) => {
                DomainErrorView::UnsupportedSessionCreatedSchema(*value)
            },
            DomainError::SessionNotCreated => DomainErrorView::SessionNotCreated,
            DomainError::SessionAlreadyCreated => DomainErrorView::SessionAlreadyCreated,
            DomainError::InvalidCreatedAt => DomainErrorView::InvalidCreatedAt,
            DomainError::InvalidTimestamp { field } => DomainErrorView::InvalidTimestamp {
                field: field.deep_view(),
            },
            DomainError::InvalidTimestampOrder {
                start,
                end,
            } => DomainErrorView::InvalidTimestampOrder {
                start: *start,
                end: *end,
            },
            DomainError::InvalidState(value) => DomainErrorView::InvalidState(value.deep_view()),
            DomainError::InvalidAsyncToolStart(value) => DomainErrorView::InvalidAsyncToolStart(
                value.deep_view(),
            ),
            DomainError::ConflictingAsyncToolCallStart(value) => {
                DomainErrorView::ConflictingAsyncToolCallStart(value.deep_view())
            },
            DomainError::UnknownAsyncToolCall(value) => DomainErrorView::UnknownAsyncToolCall(
                value.deep_view(),
            ),
            DomainError::UnknownOutcomeTerminalConflict(value) => {
                DomainErrorView::UnknownOutcomeTerminalConflict(value.deep_view())
            },
            DomainError::UnknownCallback(value) => DomainErrorView::UnknownCallback(
                value.deep_view(),
            ),
            DomainError::CallbackPayloadConflict(value) => {
                DomainErrorView::CallbackPayloadConflict(value.deep_view())
            },
            DomainError::CallbackTerminalConflict(value) => {
                DomainErrorView::CallbackTerminalConflict(value.deep_view())
            },
            DomainError::ConflictingDelivery(value) => DomainErrorView::ConflictingDelivery(
                value.deep_view(),
            ),
            DomainError::UnknownDelivery(value) => DomainErrorView::UnknownDelivery(*value),
            DomainError::DeliveryNotMaterialized(value) => {
                DomainErrorView::DeliveryNotMaterialized(*value)
            },
            DomainError::MaterializationIdentity(value) => {
                DomainErrorView::MaterializationIdentity(*value)
            },
            DomainError::AckBeyondEnqueued {
                requested,
                max_queued,
            } => DomainErrorView::AckBeyondEnqueued {
                requested: *requested,
                max_queued: *max_queued,
            },
            DomainError::DeliveryQueueOrder {
                expected,
                actual,
            } => DomainErrorView::DeliveryQueueOrder {
                expected: *expected,
                actual: *actual,
            },
            DomainError::ConflictingTranscriptMessage(value) => {
                DomainErrorView::ConflictingTranscriptMessage(value.deep_view())
            },
            DomainError::DuplicateTranscriptToolCallId(value) => {
                DomainErrorView::DuplicateTranscriptToolCallId(value.deep_view())
            },
            DomainError::UnknownToolCall(value) => DomainErrorView::UnknownToolCall(
                value.deep_view(),
            ),
            DomainError::ConflictingToolCallIdentity(value) => {
                DomainErrorView::ConflictingToolCallIdentity(value.deep_view())
            },
            DomainError::VersionOverflow => DomainErrorView::VersionOverflow,
        }
    }
}

/// The fault of a result, if it is one.
pub open spec fn fault_of<T>(result: Result<T, DomainError>) -> Option<DomainErrorView> {
    match result {
        Ok(_) => None,
        Err(error) => Some(error.deep_view()),
    }
}

/// The fault of an inconsistent state or event.
pub open spec fn invalid(reason: Seq<char>) -> DomainErrorView {
    DomainErrorView::InvalidState(reason)
}

/// The error of an inconsistent state or event.
pub(crate) fn invalid_state(reason: &str) -> (error: DomainError)
    ensures
        error.deep_view() == invalid(reason@),
{
    DomainError::InvalidState(reason.to_string())
}

/// What is said of a fault.
pub open spec fn fault_text(fault: DomainErrorView) -> Seq<char> {
    match fault {
        DomainErrorView::EmptyField { field } => field + " must not be empty"@,
        DomainErrorView::TextTooLarge { field, bytes, max } => {
            field + " is too large: "@ + decimal(bytes as nat) + " bytes, maximum is "@
                + decimal(max as nat)
        },
        DomainErrorView::CollectionTooLarge { field, items, max } => {
            field + " collection is too large: "@ + decimal(items as nat) + " items, maximum is "@
                + decimal(max as nat)
        },
        DomainErrorView::DurablePayloadTooLarge { bytes, max } => {
            "durable payload is too large: "@ + decimal(bytes as nat) + " bytes, maximum is "@
                + decimal(max as nat)
        },
        DomainErrorView::InvalidDurablePayload(value) => "invalid durable payload: "@ + value,
        DomainErrorView::InvalidWaitTimeout => "wait timeout must be between 1 and 600 seconds"@,
        DomainErrorView::EmptyEventBatch => "event batch must not be empty"@,
        DomainErrorView::SessionMismatch { expected, actual } => {
            "session mismatch: expected "@ + expected + ", got "@ + actual
        },
        DomainErrorView::StreamVersionGap { expected, actual } => {
            "stream version gap: expected "@ + decimal(expected as nat) + ", got "@
                + decimal(actual as nat)
        },
        DomainErrorView::DuplicateEventId(value) => {
            "event id was applied more than once: "@ + value
        },
        DomainErrorView::UnsupportedEventSchema(value) => {
            "unsupported event schema version: "@ + decimal(value as nat)
        },
        DomainErrorView::UnsupportedSessionCreatedSchema(value) => {
            "unsupported SessionCreated schema version: "@ + decimal(value as nat)
        },
        DomainErrorView::SessionNotCreated => "session stream does not begin with SessionCreated"@,
        DomainErrorView::SessionAlreadyCreated => {
            "SessionCreated can only be the first stream event"@
        },
        DomainErrorView::InvalidCreatedAt => "session creation time must not be negative"@,
        DomainErrorView::InvalidTimestamp { field } => field + " must not be negative"@,
        DomainErrorView::InvalidTimestampOrder { start, end } => {
            "timestamp order is invalid: "@ + signed_decimal(start as int) + " is after "@
                + signed_decimal(end as int)
        },
        DomainErrorView::InvalidState(value) => "invalid state: "@ + value,
        DomainErrorView::InvalidAsyncToolStart(value) => {
            "async tool call "@ + value + " has an invalid start record"@
        },
        DomainErrorView::ConflictingAsyncToolCallStart(value) => {
            "async tool call "@ + value + " was started with conflicting semantics"@
        },
        DomainErrorView::UnknownAsyncToolCall(value) => {
            "async tool call "@ + value + " is unknown"@
        },
        DomainErrorView::UnknownOutcomeTerminalConflict(value) => {
            "async tool call "@ + value + " has an unknown outcome and cannot be rewritten"@
        },
        DomainErrorView::UnknownCallback(value) => "external callback "@ + value + " is unknown"@,
        DomainErrorView::CallbackPayloadConflict(value) => {
            "external callback "@ + value + " has a conflicting payload"@
        },
        DomainErrorView::CallbackTerminalConflict(value) => {
            "external callback terminal outcome conflicts for tool call "@ + value
        },
        DomainErrorView::ConflictingDelivery(value) => {
            "delivery "@ + value + " has conflicting semantics"@
        },
        DomainErrorView::UnknownDelivery(value) => {
            "delivery "@ + decimal(value as nat) + " is unknown"@
        },
        DomainErrorView::DeliveryNotMaterialized(value) => {
            "delivery "@ + decimal(value as nat) + " was not materialized"@
        },
        DomainErrorView::MaterializationIdentity(value) => {
            "delivery "@ + decimal(value as nat) + " materialization identity is invalid"@
        },
        DomainErrorView::AckBeyondEnqueued { requested, max_queued } => {
            "delivery acknowledgement "@ + decimal(requested as nat)
                + " skips future queue ids; maximum enqueued is "@ + decimal(max_queued as nat)
        },
        DomainErrorView::DeliveryQueueOrder { expected, actual } => {
            "delivery queue id expected "@ + decimal(expected as nat) + ", got "@
                + decimal(actual as nat)
        },
        DomainErrorView::ConflictingTranscriptMessage(value) => {
            "transcript message "@ + value + " has conflicting semantics"@
        },
        DomainErrorView::DuplicateTranscriptToolCallId(value) => {
            "transcript tool_call_id appears more than once: "@ + value
        },
        DomainErrorView::UnknownToolCall(value) => {
            "tool call "@ + value + " is not declared by an assistant message"@
        },
        DomainErrorView::ConflictingToolCallIdentity(value) => {
            "tool call "@ + value + " has conflicting durable identity"@
        },
        DomainErrorView::VersionOverflow => "stream version overflow"@,
    }
}

impl DomainError {
    /// What is said of the fault.
    pub fn message(&self) -> (message: String)
        ensures
            message@ == fault_text(self.deep_view()),
    {
        match self {
            DomainError::EmptyField { field } => joined(field, " must not be empty"),
            DomainError::TextTooLarge { field, bytes, max } => {
                let mut text = joined(field, " is too large: ");
                text.append(&decimal_text(*bytes as u64));
                text.append(" bytes, maximum is ");
                text.append(&decimal_text(*max as u64));
                text
            },
            DomainError::CollectionTooLarge { field, items, max } => {
                let mut text = joined(field, " collection is too large: ");
                text.append(&decimal_text(*items as u64));
                text.append(" items, maximum is ");
                text.append(&decimal_text(*max as u64));
                text
            },
            DomainError::DurablePayloadTooLarge { bytes, max } => {
                let mut text = joined(
                    "durable payload is too large: ",
                    &decimal_text(*bytes as u64),
                );
                text.append(" bytes, maximum is ");
                text.append(&decimal_text(*max as u64));
                text
            },
            DomainError::InvalidDurablePayload(value) => joined("invalid durable payload: ", value),
            DomainError::InvalidWaitTimeout => {
                "wait timeout must be between 1 and 600 seconds".to_string()
            },
            DomainError::EmptyEventBatch => "event batch must not be empty".to_string(),
            DomainError::SessionMismatch { expected, actual } => {
                let mut text = joined("session mismatch: expected ", expected);
                text.append(", got ");
                text.append(actual);
                text
            },
            DomainError::StreamVersionGap { expected, actual } => {
                let mut text = joined("stream version gap: expected ", &decimal_text(*expected));
                text.append(", got ");
                text.append(&decimal_text(*actual));
                text
            },
            DomainError::DuplicateEventId(value) => {
                joined("event id was applied more than once: ", value)
            },
            DomainError::UnsupportedEventSchema(value) => {
                joined("unsupported event schema version: ", &decimal_text(*value as u64))
            },
            DomainError::UnsupportedSessionCreatedSchema(value) => {
                joined("unsupported SessionCreated schema version: ", &decimal_text(*value as u64))
            },
            DomainError::SessionNotCreated => {
                "session stream does not begin with SessionCreated".to_string()
            },
            DomainError::SessionAlreadyCreated => {
                "SessionCreated can only be the first stream event".to_string()
            },
            DomainError::InvalidCreatedAt => {
                "session creation time must not be negative".to_string()
            },
            DomainError::InvalidTimestamp { field } => joined(field, " must not be negative"),
            DomainError::InvalidTimestampOrder { start, end } => {
                let mut text = joined("timestamp order is invalid: ", &signed_text(*start));
                text.append(" is after ");
                text.append(&signed_text(*end));
                text
            },
            DomainError::InvalidState(value) => joined("invalid state: ", value),
            DomainError::InvalidAsyncToolStart(value) => {
                let mut text = joined("async tool call ", value);
                text.append(" has an invalid start record");
                text
            },
            DomainError::ConflictingAsyncToolCallStart(value) => {
                let mut text = joined("async tool call ", value);
                text.append(" was started with conflicting semantics");
                text
            },
            DomainError::UnknownAsyncToolCall(value) => {
                let mut text = joined("async tool call ", value);
                text.append(" is unknown");
                text
            },
            DomainError::UnknownOutcomeTerminalConflict(value) => {
                let mut text = joined("async tool call ", value);
                text.append(" has an unknown outcome and cannot be rewritten");
                text
            },
            DomainError::UnknownCallback(value) => {
                let mut text = joined("external callback ", value);
                text.append(" is unknown");
                text
            },
            DomainError::CallbackPayloadConflict(value) => {
                let mut text = joined("external callback ", value);
                text.append(" has a conflicting payload");
                text
            },
            DomainError::CallbackTerminalConflict(value) => {
                joined("external callback terminal outcome conflicts for tool call ", value)
            },
            DomainError::ConflictingDelivery(value) => {
                let mut text = joined("delivery ", value);
                text.append(" has conflicting semantics");
                text
            },
            DomainError::UnknownDelivery(value) => {
                let mut text = joined("delivery ", &decimal_text(*value));
                text.append(" is unknown");
                text
            },
            DomainError::DeliveryNotMaterialized(value) => {
                let mut text = joined("delivery ", &decimal_text(*value));
                text.append(" was not materialized");
                text
            },
            DomainError::MaterializationIdentity(value) => {
                let mut text = joined("delivery ", &decimal_text(*value));
                text.append(" materialization identity is invalid");
                text
            },
            DomainError::AckBeyondEnqueued { requested, max_queued } => {
                let mut text = joined("delivery acknowledgement ", &decimal_text(*requested));
                text.append(" skips future queue ids; maximum enqueued is ");
                text.append(&decimal_text(*max_queued));
                text
            },
            DomainError::DeliveryQueueOrder { expected, actual } => {
                let mut text = joined("delivery queue id expected ", &decimal_text(*expected));
                text.append(", got ");
                text.append(&decimal_text(*actual));
                text
            },
            DomainError::ConflictingTranscriptMessage(value) => {
                let mut text = joined("transcript message ", value);
                text.append(" has conflicting semantics");
                text
            },
            DomainError::DuplicateTranscriptToolCallId(value) => {
                joined("transcript tool_call_id appears more than once: ", value)
            },
            DomainError::UnknownToolCall(value) => {
                let mut text = joined("tool call ", value);
                text.append(" is not declared by an assistant message");
                text
            },
            DomainError::ConflictingToolCallIdentity(value) => {
                let mut text = joined("tool call ", value);
                text.append(" has conflicting durable identity");
                text
            },
            DomainError::VersionOverflow => "stream version overflow".to_string(),
        }
    }
}

} // verus!
