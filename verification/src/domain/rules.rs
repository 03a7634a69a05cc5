//! The rules for single fields.

use super::error::{fault_of, invalid, invalid_state, DomainError, DomainErrorView};
use super::{MAX_ERROR_MESSAGE_BYTES, MAX_IDENTIFIER_BYTES, MAX_MODEL_FINGERPRINT_BYTES};
use crate::checks::{fault_if, Checks};
use crate::text::{byte_len, contains_control, has_control, joined, text_bytes};
use vstd::prelude::*;

verus! {

/// A text that must not be empty.
pub open spec fn required_text_fault(field: Seq<char>, value: Seq<char>) -> Option<
    DomainErrorView,
> {
    fault_if(value.len() == 0, DomainErrorView::EmptyField { field })
}

/// A text that must not be longer than `max` bytes.
pub open spec fn text_size_fault(field: Seq<char>, value: Seq<char>, max: usize) -> Option<
    DomainErrorView,
> {
    fault_if(
        byte_len(value) > max,
        DomainErrorView::TextTooLarge { field, bytes: byte_len(value) as usize, max },
    )
}

/// A text that must be present, short and free of control characters.
#[verifier::opaque]
pub open spec fn identifier_fault(field: Seq<char>, value: Seq<char>) -> Option<DomainErrorView> {
    required_text_fault(field, value).before(
        text_size_fault(field, value, MAX_IDENTIFIER_BYTES),
    ).before(fault_if(has_control(value), invalid(field + " contains a control character"@)))
}

/// A text that must be present and no longer than a message may be.
#[verifier::opaque]
pub open spec fn bounded_text_fault(field: Seq<char>, value: Seq<char>) -> Option<
    DomainErrorView,
> {
    required_text_fault(field, value).before(
        text_size_fault(field, value, MAX_ERROR_MESSAGE_BYTES),
    )
}

/// A fingerprint: an identifier with a bound of its own.
#[verifier::opaque]
pub open spec fn fingerprint_fault(field: Seq<char>, value: Seq<char>) -> Option<DomainErrorView> {
    identifier_fault(field, value).before(
        text_size_fault(field, value, MAX_MODEL_FINGERPRINT_BYTES),
    )
}

/// A time that must not lie before the epoch.
pub open spec fn timestamp_fault(field: Seq<char>, value: i64) -> Option<DomainErrorView> {
    fault_if(value < 0, DomainErrorView::InvalidTimestamp { field })
}

/// The time of a terminal state: present, and not before the start.
pub open spec fn terminal_timestamp_fault(start: i64, end: Option<i64>) -> Option<
    DomainErrorView,
> {
    match end {
        None => Some(invalid("terminal async tool state requires completion time"@)),
        Some(end) => timestamp_fault("async tool completed_at_ms"@, end).before(
            fault_if(end < start, DomainErrorView::InvalidTimestampOrder { start, end }),
        ),
    }
}

/// Refuses an empty text.
pub(crate) fn require_text(field: &'static str, value: &str) -> (result: Result<(), DomainError>)
    ensures
        fault_of(result) == required_text_fault(field@, value@),
{
    if value.is_empty() {
        Err(DomainError::EmptyField { field })
    } else {
        Ok(())
    }
}

/// Refuses a text of more than `max` bytes.
pub(crate) fn limit_text(field: &'static str, value: &str, max: usize) -> (result: Result<
    (),
    DomainError,
>)
    ensures
        fault_of(result) == text_size_fault(field@, value@, max),
{
    let bytes: usize = text_bytes(value);
    if bytes > max {
        Err(DomainError::TextTooLarge { field, bytes, max })
    } else {
        Ok(())
    }
}

/// Refuses a text that is longer than a message may be.
pub(crate) fn validate_text(field: &'static str, value: &str) -> (result: Result<(), DomainError>)
    ensures
        fault_of(result) == text_size_fault(field@, value@, MAX_ERROR_MESSAGE_BYTES),
{
    limit_text(field, value, MAX_ERROR_MESSAGE_BYTES)
}

/// Refuses what is no identifier.
pub(crate) fn validate_identifier(field: &'static str, value: &str) -> (result: Result<
    (),
    DomainError,
>)
    ensures
        fault_of(result) == identifier_fault(field@, value@),
{
    proof {
        reveal(identifier_fault);
    }
    require_text(field, value)?;
    limit_text(field, value, MAX_IDENTIFIER_BYTES)?;
    if contains_control(value) {
        return Err(DomainError::InvalidState(joined(field, " contains a control character")));
    }
    Ok(())
}

/// Refuses an empty or overlong text.
pub(crate) fn validate_bounded_text(field: &'static str, value: &str) -> (result: Result<
    (),
    DomainError,
>)
    ensures
        fault_of(result) == bounded_text_fault(field@, value@),
{
    proof {
        reveal(bounded_text_fault);
    }
    require_text(field, value)?;
    validate_text(field, value)
}

/// Refuses what is no fingerprint.
pub(crate) fn validate_model_fingerprint(field: &'static str, value: &str) -> (result: Result<
    (),
    DomainError,
>)
    ensures
        fault_of(result) == fingerprint_fault(field@, value@),
{
    proof {
        reveal(fingerprint_fault);
    }
    validate_identifier(field, value)?;
    limit_text(field, value, MAX_MODEL_FINGERPRINT_BYTES)
}

/// Refuses a time before the epoch.
pub(crate) fn validate_non_negative_timestamp(field: &'static str, value: i64) -> (result: Result<
    (),
    DomainError,
>)
    ensures
        fault_of(result) == timestamp_fault(field@, value),
{
    if value < 0 {
        Err(DomainError::InvalidTimestamp { field })
    } else {
        Ok(())
    }
}

/// Refuses a terminal time that is absent or lies before the start.
pub(crate) fn validate_terminal_timestamp(start: i64, end: Option<i64>) -> (result: Result<
    (),
    DomainError,
>)
    ensures
        fault_of(result) == terminal_timestamp_fault(start, end),
{
    let end: i64 = match end {
        Some(end) => end,
        None => {
            return Err(invalid_state("terminal async tool state requires completion time"));
        },
    };
    validate_non_negative_timestamp("async tool completed_at_ms", end)?;
    if end < start {
        return Err(DomainError::InvalidTimestampOrder { start, end });
    }
    Ok(())
}

} // verus!
