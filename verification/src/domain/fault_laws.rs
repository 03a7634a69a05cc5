//! What is said of each fault.

use super::error::{fault_text, DomainErrorView};
use crate::number::{decimal, signed_decimal};
use vstd::prelude::*;

verus! {

/// What is said of a fault names what it is about, and tells every number that it holds.
pub proof fn faults_are_told(fault: DomainErrorView)
    ensures
        ({
            let said = fault_text(fault);
            match fault {
                DomainErrorView::EmptyField { field } => said == field + " must not be empty"@,
                DomainErrorView::TextTooLarge { field, bytes, max } => said == field
                    + " is too large: "@ + decimal(bytes as nat) + " bytes, maximum is "@
                    + decimal(max as nat),
                DomainErrorView::CollectionTooLarge { field, items, max } => said == field
                    + " collection is too large: "@ + decimal(items as nat) + " items, maximum is "@
                    + decimal(max as nat),
                DomainErrorView::DurablePayloadTooLarge { bytes, max } => said
                    == "durable payload is too large: "@ + decimal(bytes as nat)
                    + " bytes, maximum is "@ + decimal(max as nat),
                DomainErrorView::InvalidDurablePayload(value) => said
                    == "invalid durable payload: "@ + value,
                DomainErrorView::InvalidWaitTimeout => said
                    == "wait timeout must be between 1 and 600 seconds"@,
                DomainErrorView::EmptyEventBatch => said == "event batch must not be empty"@,
                DomainErrorView::SessionMismatch { expected, actual } => said
                    == "session mismatch: expected "@ + expected + ", got "@ + actual,
                DomainErrorView::StreamVersionGap { expected, actual } => said
                    == "stream version gap: expected "@ + decimal(expected as nat) + ", got "@
                    + decimal(actual as nat),
                DomainErrorView::DuplicateEventId(value) => said
                    == "event id was applied more than once: "@ + value,
                DomainErrorView::UnsupportedEventSchema(value) => said
                    == "unsupported event schema version: "@ + decimal(value as nat),
                DomainErrorView::UnsupportedSessionCreatedSchema(value) => said
                    == "unsupported SessionCreated schema version: "@ + decimal(value as nat),
                DomainErrorView::SessionNotCreated => said
                    == "session stream does not begin with SessionCreated"@,
                DomainErrorView::SessionAlreadyCreated => said
                    == "SessionCreated can only be the first stream event"@,
                DomainErrorView::InvalidCreatedAt => said
                    == "session creation time must not be negative"@,
                DomainErrorView::InvalidTimestamp { field } => said == field
                    + " must not be negative"@,
                DomainErrorView::InvalidTimestampOrder { start, end } => said
                    == "timestamp order is invalid: "@ + signed_decimal(start as int)
                    + " is after "@ + signed_decimal(end as int),
                DomainErrorView::InvalidState(value) => said == "invalid state: "@ + value,
                DomainErrorView::InvalidAsyncToolStart(value) => said == "async tool call "@ + value
                    + " has an invalid start record"@,
                DomainErrorView::ConflictingAsyncToolCallStart(value) => said == "async tool call "@
                    + value + " was started with conflicting semantics"@,
                DomainErrorView::UnknownAsyncToolCall(value) => said == "async tool call "@ + value
                    + " is unknown"@,
                DomainErrorView::UnknownOutcomeTerminalConflict(value) => said
                    == "async tool call "@ + value
                    + " has an unknown outcome and cannot be rewritten"@,
                DomainErrorView::UnknownCallback(value) => said == "external callback "@ + value
                    + " is unknown"@,
                DomainErrorView::CallbackPayloadConflict(value) => said == "external callback "@
                    + value + " has a conflicting payload"@,
                DomainErrorView::CallbackTerminalConflict(value) => said
                    == "external callback terminal outcome conflicts for tool call "@ + value,
                DomainErrorView::ConflictingDelivery(value) => said == "delivery "@ + value
                    + " has conflicting semantics"@,
                DomainErrorView::UnknownDelivery(value) => said == "delivery "@
                    + decimal(value as nat) + " is unknown"@,
                DomainErrorView::DeliveryNotMaterialized(value) => said == "delivery "@
                    + decimal(value as nat) + " was not materialized"@,
                DomainErrorView::MaterializationIdentity(value) => said == "delivery "@
                    + decimal(value as nat) + " materialization identity is invalid"@,
                DomainErrorView::AckBeyondEnqueued { requested, max_queued } => said
                    == "delivery acknowledgement "@ + decimal(requested as nat)
                    + " skips future queue ids; maximum enqueued is "@ + decimal(max_queued as nat),
                DomainErrorView::DeliveryQueueOrder { expected, actual } => said
                    == "delivery queue id expected "@ + decimal(expected as nat) + ", got "@
                    + decimal(actual as nat),
                DomainErrorView::ConflictingTranscriptMessage(value) => said
                    == "transcript message "@ + value + " has conflicting semantics"@,
                DomainErrorView::DuplicateTranscriptToolCallId(value) => said
                    == "transcript tool_call_id appears more than once: "@ + value,
                DomainErrorView::UnknownToolCall(value) => said == "tool call "@ + value
                    + " is not declared by an assistant message"@,
                DomainErrorView::ConflictingToolCallIdentity(value) => said == "tool call "@ + value
                    + " has conflicting durable identity"@,
                DomainErrorView::VersionOverflow => said == "stream version overflow"@,
            }
        }),
{
}

} // verus!
