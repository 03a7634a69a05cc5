//! The rules of requests: what their bodies and paths may hold.

use crate::datum::Same;
use crate::domain::selection::{SessionOwner, SessionOwnerView};
use crate::domain::{MAX_ERROR_MESSAGE_BYTES, MAX_IDENTIFIER_BYTES};
use crate::http::errors::{
    callback_not_found_answer, invalid_answer, malformed_answer, payload_too_large_answer,
    replica_not_found_answer, tool_not_found_answer, ApiError, ApiErrorView,
};
use crate::http::headers::answer_of;
use crate::http::views::{public_replica_metadata, replica_json};
use crate::json::{
    body_content, content_of, entry_of, json_view, node, JsonNode, JsonView,
};
use crate::number::{decimal, decimal_text};
use crate::replicas::{ReplicaMetadata, ReplicaMetadataView};
use crate::text::{byte_len, characters, is_white, is_white_space, same_text, text_bytes};
use serde_json::Value;
use vstd::prelude::*;
use vstd::string::*;

verus! {

/// The most bytes of a request on a session.
pub const MAX_SESSION_REQUEST_BYTES: usize = 262144;

/// The most bytes of the id of a callback.
pub const MAX_CALLBACK_ID_BYTES: usize = 256;

/// How many sessions are listed where no limit is asked for.
pub const DEFAULT_SESSION_LIST_LIMIT: u64 = 50;

/// The owner of the sessions for which no subject is given.
pub open spec fn shared_owner() -> SessionOwnerView {
    SessionOwnerView { authority_id: "local"@, subject: "shared"@ }
}

/// The owner of the sessions for which no subject is given.
pub fn shared_session_owner() -> (owner: SessionOwner)
    ensures
        owner.deep_view() == shared_owner(),
{
    SessionOwner::new("local".to_string(), "shared".to_string())
}

/// Reads the JSON in the body of a request.
pub fn parse_body(body: &Vec<u8>) -> (result: Result<Value, ApiError>)
    ensures
        match result {
            Ok(value) => body_content(body@) == Some(json_view(value)),
            Err(error) => body_content(body@) is None && error.deep_view() == malformed_answer(),
        },
{
    match content_of(body) {
        Some(value) => Ok(value),
        None => Err(ApiError::malformed()),
    }
}

/// Why a body cannot ask for a session, if it cannot. The endpoint makes the ids of sessions.
pub open spec fn create_body_fault(body: JsonView) -> Option<ApiErrorView> {
    match body {
        JsonView::Object(entries) => if entries.dom().contains("session_id"@) {
            Some(invalid_answer("session_id is generated by the endpoint"@))
        } else {
            None
        },
        _ => Some(invalid_answer("session create body must be an object"@)),
    }
}

/// Checks that a body may ask for a session.
pub fn check_create_body(body: &Value) -> (result: Result<(), ApiError>)
    ensures
        answer_of(result) == create_body_fault(json_view(*body)),
{
    match node(body) {
        JsonNode::Object(_) => {
            if entry_of(body, "session_id").is_some() {
                Err(ApiError::invalid("session_id is generated by the endpoint"))
            } else {
                Ok(())
            }
        },
        _ => Err(ApiError::invalid("session create body must be an object")),
    }
}

/// The limit of a list of sessions, if what is asked for is allowed.
pub open spec fn list_limit_of(limit: Option<u64>, most: u64) -> Result<u64, ApiErrorView> {
    let asked = match limit {
        Some(limit) => limit,
        None => DEFAULT_SESSION_LIST_LIMIT,
    };
    if 1 <= asked <= most {
        Ok(asked)
    } else {
        Err(invalid_answer("limit must be between 1 and "@ + decimal(most as nat)))
    }
}

/// The limit of a list of sessions.
pub fn list_limit(limit: Option<u64>, most: u64) -> (result: Result<u64, ApiError>)
    ensures
        match result {
            Ok(asked) => list_limit_of(limit, most) == Ok::<u64, ApiErrorView>(asked),
            Err(error) => list_limit_of(limit, most) == Err::<u64, ApiErrorView>(error.deep_view()),
        },
{
    let asked: u64 = match limit {
        Some(limit) => limit,
        None => DEFAULT_SESSION_LIST_LIMIT,
    };
    if 1 <= asked && asked <= most {
        Ok(asked)
    } else {
        let mut message = "limit must be between 1 and ".to_string();
        message.append(&decimal_text(most));
        Err(ApiError::invalid(&message))
    }
}

/// Checks that a cursor was made for the one who uses it.
pub fn check_cursor_owner(cursor_owner: &SessionOwner, owner: &SessionOwner) -> (result: Result<
    (),
    ApiError,
>)
    ensures
        answer_of(result) == if cursor_owner.deep_view() == owner.deep_view() {
            None
        } else {
            Some(malformed_answer())
        },
{
    if cursor_owner.same(owner) {
        Ok(())
    } else {
        Err(ApiError::malformed())
    }
}

/// Checks that a path names a tool call.
pub fn check_tool_path(session_id: &str, tool_call_id: &str) -> (result: Result<(), ApiError>)
    ensures
        answer_of(result) == if session_id@.len() == 0 || tool_call_id@.len() == 0 {
            Some(tool_not_found_answer())
        } else {
            None
        },
{
    if session_id.is_empty() || tool_call_id.is_empty() {
        Err(ApiError::tool_not_found())
    } else {
        Ok(())
    }
}

/// Why a reason of a cancellation is refused, if it is.
pub open spec fn cancel_reason_fault(reason: Seq<char>) -> Option<ApiErrorView> {
    if reason.len() == 0 {
        Some(invalid_answer("cancellation reason is required"@))
    } else if byte_len(reason) > MAX_ERROR_MESSAGE_BYTES {
        Some(payload_too_large_answer())
    } else {
        None
    }
}

/// Checks the reason of a cancellation.
pub fn check_cancel_reason(reason: &str) -> (result: Result<(), ApiError>)
    ensures
        answer_of(result) == cancel_reason_fault(reason@),
{
    if reason.is_empty() {
        Err(ApiError::invalid("cancellation reason is required"))
    } else if text_bytes(reason) > MAX_ERROR_MESSAGE_BYTES {
        Err(ApiError::payload_too_large())
    } else {
        Ok(())
    }
}

/// Checks the action of a reconciliation: there is one.
pub fn check_reconcile_action(action: &str) -> (result: Result<(), ApiError>)
    ensures
        answer_of(result) == if action@ == "retry_dispatch"@ {
            None
        } else {
            Some(invalid_answer("unsupported reconciliation action"@))
        },
{
    if same_text(action, "retry_dispatch") {
        Ok(())
    } else {
        Err(ApiError::invalid("unsupported reconciliation action"))
    }
}

/// Checks that a path names a callback.
pub fn check_callback_id(callback_id: &str) -> (result: Result<(), ApiError>)
    ensures
        answer_of(result) == if callback_id@.len() == 0 || byte_len(callback_id@)
            > MAX_CALLBACK_ID_BYTES {
            Some(callback_not_found_answer())
        } else {
            None
        },
{
    if callback_id.is_empty() || text_bytes(callback_id) > MAX_CALLBACK_ID_BYTES {
        Err(ApiError::callback_not_found())
    } else {
        Ok(())
    }
}

/// How a tool that calls back has ended.
#[derive(Clone, Copy, Debug, PartialEq, Eq, Structural)]
pub enum ExternalCallbackStatus {
    Completed,
    Failed,
}

/// What a tool that calls back says of its failure.
#[derive(Clone, Debug, PartialEq)]
pub struct ExternalCallbackError {
    pub class: String,
    pub message: String,
}

/// Whether a text holds nothing but white space.
pub open spec fn is_blank(text: Seq<char>) -> bool {
    forall|i: int| 0 <= i < text.len() ==> is_white(#[trigger] text[i])
}

fn blank(text: &str) -> (is: bool)
    ensures
        is == is_blank(text@),
{
    let all = characters(text);
    let mut index: usize = 0;
    while index < all.len()
        invariant
            all@ == text@,
            index <= all.len(),
            forall|i: int| 0 <= i < index ==> is_white(#[trigger] text@[i]),
        decreases all.len() - index,
    {
        if !is_white_space(all[index]) {
            assert(!is_white(text@[index as int]));
            return false;
        }
        index += 1;
    }
    true
}

/// Why a callback is refused, if it is: it has a result or an error, as its status says.
pub open spec fn callback_fault(
    status: ExternalCallbackStatus,
    has_result: bool,
    error: Option<(Seq<char>, Seq<char>)>,
) -> Option<ApiErrorView> {
    match status {
        ExternalCallbackStatus::Completed => if !has_result || error is Some {
            Some(invalid_answer("invalid callback completion"@))
        } else {
            None
        },
        ExternalCallbackStatus::Failed => match error {
            None => Some(invalid_answer("invalid callback failure"@)),
            Some((class, message)) => if has_result || is_blank(class) || is_blank(message) {
                Some(invalid_answer("invalid callback failure"@))
            } else if byte_len(class) > MAX_IDENTIFIER_BYTES || byte_len(message)
                > MAX_ERROR_MESSAGE_BYTES {
                Some(payload_too_large_answer())
            } else {
                None
            },
        },
    }
}

/// The class and the message of an error.
pub open spec fn error_parts(error: Option<ExternalCallbackError>) -> Option<
    (Seq<char>, Seq<char>),
> {
    match error {
        Some(error) => Some((error.class@, error.message@)),
        None => None,
    }
}

/// Checks what a tool that calls back says.
pub fn check_callback(
    status: ExternalCallbackStatus,
    has_result: bool,
    error: &Option<ExternalCallbackError>,
) -> (result: Result<(), ApiError>)
    ensures
        answer_of(result) == callback_fault(status, has_result, error_parts(*error)),
{
    match status {
        ExternalCallbackStatus::Completed => {
            if !has_result || error.is_some() {
                Err(ApiError::invalid("invalid callback completion"))
            } else {
                Ok(())
            }
        },
        ExternalCallbackStatus::Failed => match error {
            None => Err(ApiError::invalid("invalid callback failure")),
            Some(error) => {
                if has_result || blank(&error.class) || blank(&error.message) {
                    Err(ApiError::invalid("invalid callback failure"))
                } else if text_bytes(&error.class) > MAX_IDENTIFIER_BYTES || text_bytes(
                    &error.message,
                ) > MAX_ERROR_MESSAGE_BYTES {
                    Err(ApiError::payload_too_large())
                } else {
                    Ok(())
                }
            },
        },
    }
}

/// What a request on a replica asks for.
#[derive(Clone, Copy, Debug, PartialEq, Eq, Structural)]
pub enum ReplicaRequestKind {
    Install,
    Tombstone,
}

/// What a request on a replica asks for, by the schema in its body.
pub open spec fn replica_request_of(body: JsonView) -> Result<ReplicaRequestKind, ApiErrorView> {
    match body {
        JsonView::Object(entries) if entries.dom().contains("schema"@) => match entries["schema"@] {
            JsonView::Text(schema) => if schema == "zode.auth-replica.install.v1"@ {
                Ok(ReplicaRequestKind::Install)
            } else if schema == "zode.auth-replica.tombstone.v1"@ {
                Ok(ReplicaRequestKind::Tombstone)
            } else {
                Err(invalid_answer("unsupported credential replica schema"@))
            },
            _ => Err(invalid_answer("credential replica schema is required"@)),
        },
        _ => Err(invalid_answer("credential replica schema is required"@)),
    }
}

/// Tells what a request on a replica asks for.
pub fn replica_request_kind(body: &Value) -> (result: Result<ReplicaRequestKind, ApiError>)
    ensures
        match result {
            Ok(kind) => replica_request_of(json_view(*body)) == Ok::<
                ReplicaRequestKind,
                ApiErrorView,
            >(kind),
            Err(error) => replica_request_of(json_view(*body)) == Err::<
                ReplicaRequestKind,
                ApiErrorView,
            >(error.deep_view()),
        },
{
    proof {
        reveal_strlit("zode.auth-replica.install.v1");
        reveal_strlit("zode.auth-replica.tombstone.v1");
    }
    let schema = match entry_of(body, "schema") {
        Some(schema) => schema,
        None => {
            return Err(ApiError::invalid("credential replica schema is required"));
        },
    };
    match node(schema) {
        JsonNode::Text(schema) => {
            if same_text(schema, "zode.auth-replica.install.v1") {
                Ok(ReplicaRequestKind::Install)
            } else if same_text(schema, "zode.auth-replica.tombstone.v1") {
                Ok(ReplicaRequestKind::Tombstone)
            } else {
                Err(ApiError::invalid("unsupported credential replica schema"))
            }
        },
        _ => Err(ApiError::invalid("credential replica schema is required")),
    }
}

/// What is told of the first replica of a profile.
pub open spec fn told_replica(metadata: Seq<ReplicaMetadataView>, profile_id: Seq<char>) -> Result<
    JsonView,
    ApiErrorView,
>
    decreases metadata.len(),
{
    if metadata.len() == 0 {
        Err(replica_not_found_answer())
    } else if metadata[0].profile_id == profile_id {
        Ok(replica_json(metadata[0]))
    } else {
        told_replica(metadata.skip(1), profile_id)
    }
}

/// Tells of the replica of a profile.
pub fn read_replica(metadata: &Vec<ReplicaMetadata>, profile_id: &str) -> (result: Result<
    Value,
    ApiError,
>)
    ensures
        match result {
            Ok(told) => told_replica(metadata.deep_view(), profile_id@) == Ok::<
                JsonView,
                ApiErrorView,
            >(json_view(told)),
            Err(error) => told_replica(metadata.deep_view(), profile_id@) == Err::<
                JsonView,
                ApiErrorView,
            >(error.deep_view()),
        },
{
    let ghost view = metadata.deep_view();
    let mut index: usize = 0;
    assert(view.skip(0) =~= view);
    while index < metadata.len()
        invariant
            view == metadata.deep_view(),
            index <= metadata.len(),
            told_replica(view.skip(index as int), profile_id@) == told_replica(view, profile_id@),
        decreases metadata.len() - index,
    {
        assert(view.skip(index as int)[0] == view[index as int]);
        assert(view.skip(index as int).skip(1) =~= view.skip(index + 1));
        if same_text(&metadata[index].profile_id, profile_id) {
            return Ok(public_replica_metadata(&metadata[index]));
        }
        index += 1;
    }
    Err(ApiError::replica_not_found())
}

} // verus!
