//! How failures are answered.

use crate::control::rotation::ControlRotationError;
use crate::domain::error::{DomainError, DomainErrorView};
use crate::json::{
    bool_value, fields, json_view, string_value, Fields, JsonView,
};
use crate::replicas::{ReplicaError, ReplicaPortError};
use crate::text::same_text;
use serde_json::Value;
use vstd::prelude::*;

verus! {

/// Why a caller is not let in.
#[derive(Clone, Copy, Debug, Eq, PartialEq, Structural)]
pub enum ControlAuthError {
    Unauthenticated,
    Malformed,
    PayloadTooLarge,
}

/// Why a request cannot be served.
#[derive(Clone, Debug, PartialEq)]
pub enum ServiceError {
    NotFound,
    IdempotencyReceiptNotFound,
    Conflict(String),
    AuthReplicaUnavailable,
    Malformed,
    Invalid(String),
    PayloadTooLarge,
    Backend,
}

/// The content of a [`ServiceError`].
pub enum ServiceErrorView {
    NotFound,
    IdempotencyReceiptNotFound,
    Conflict(Seq<char>),
    AuthReplicaUnavailable,
    Malformed,
    Invalid(Seq<char>),
    PayloadTooLarge,
    Backend,
}

impl DeepView for ServiceError {
    type V = ServiceErrorView;

    open spec fn deep_view(&self) -> ServiceErrorView {
        match self {
            ServiceError::NotFound => ServiceErrorView::NotFound,
            ServiceError::IdempotencyReceiptNotFound => {
                ServiceErrorView::IdempotencyReceiptNotFound
            },
            ServiceError::Conflict(value) => ServiceErrorView::Conflict(value.deep_view()),
            ServiceError::AuthReplicaUnavailable => ServiceErrorView::AuthReplicaUnavailable,
            ServiceError::Malformed => ServiceErrorView::Malformed,
            ServiceError::Invalid(value) => ServiceErrorView::Invalid(value.deep_view()),
            ServiceError::PayloadTooLarge => ServiceErrorView::PayloadTooLarge,
            ServiceError::Backend => ServiceErrorView::Backend,
        }
    }
}

/// Why the runtime refuses a command.
#[derive(Debug, PartialEq)]
pub enum RuntimeCommandError {
    NotFound,
    IdempotencyReceiptNotFound,
    Conflict,
    Invalid(&'static str),
    AuthReplicaUnavailable,
    Backend,
}

/// The content of a [`RuntimeCommandError`].
pub enum RuntimeCommandErrorView {
    NotFound,
    IdempotencyReceiptNotFound,
    Conflict,
    Invalid(Seq<char>),
    AuthReplicaUnavailable,
    Backend,
}

impl DeepView for RuntimeCommandError {
    type V = RuntimeCommandErrorView;

    open spec fn deep_view(&self) -> RuntimeCommandErrorView {
        match self {
            RuntimeCommandError::NotFound => RuntimeCommandErrorView::NotFound,
            RuntimeCommandError::IdempotencyReceiptNotFound => {
                RuntimeCommandErrorView::IdempotencyReceiptNotFound
            },
            RuntimeCommandError::Conflict => RuntimeCommandErrorView::Conflict,
            RuntimeCommandError::Invalid(value) => RuntimeCommandErrorView::Invalid(
                value.deep_view(),
            ),
            RuntimeCommandError::AuthReplicaUnavailable => {
                RuntimeCommandErrorView::AuthReplicaUnavailable
            },
            RuntimeCommandError::Backend => RuntimeCommandErrorView::Backend,
        }
    }
}

/// Why the event store refuses an operation, as far as callers tell the reasons apart.
#[derive(Clone, Copy, Debug, Eq, PartialEq, Structural)]
pub enum StoreError {
    OptimisticConcurrency,
    CommandIdempotencyConflict,
    EventIdempotencyConflict,
    DuplicateEventIdInBatch,
    SessionNotFound,
    InvalidSessionListLimit,
    InvalidSessionListCursor,
    EmptyField,
    Domain,
    Other,
}

/// The answer to a request that failed.
#[derive(Clone, Debug, PartialEq)]
pub struct ApiError {
    pub status: u16,
    pub code: &'static str,
    pub message: String,
    pub retryable: bool,
}

/// The content of a [`ApiError`].
pub struct ApiErrorView {
    pub status: u16,
    pub code: Seq<char>,
    pub message: Seq<char>,
    pub retryable: bool,
}

impl DeepView for ApiError {
    type V = ApiErrorView;

    open spec fn deep_view(&self) -> ApiErrorView {
        ApiErrorView {
            status: self.status,
            code: self.code.deep_view(),
            message: self.message.deep_view(),
            retryable: self.retryable,
        }
    }
}

/// An answer to a request that cannot be meant.
pub open spec fn invalid_answer(message: Seq<char>) -> ApiErrorView {
    ApiErrorView { status: 422, code: "invalid_request"@, message: message, retryable: false }
}

/// An answer to a request that another one rules out.
pub open spec fn conflict_answer(message: Seq<char>) -> ApiErrorView {
    ApiErrorView { status: 409, code: "conflict"@, message: message, retryable: false }
}

/// An answer to a request that cannot be read.
pub open spec fn malformed_answer() -> ApiErrorView {
    ApiErrorView {
        status: 400,
        code: "malformed_request"@,
        message: "malformed request"@,
        retryable: false,
    }
}

/// An answer to a request that is too large.
pub open spec fn payload_too_large_answer() -> ApiErrorView {
    ApiErrorView {
        status: 413,
        code: "payload_too_large"@,
        message: "request payload is too large"@,
        retryable: false,
    }
}

/// An answer to a request for a replica that is not there.
pub open spec fn replica_not_found_answer() -> ApiErrorView {
    ApiErrorView {
        status: 404,
        code: "auth_replica_not_found"@,
        message: "credential replica was not found"@,
        retryable: false,
    }
}

/// An answer to a request for a tool call that is not there.
pub open spec fn tool_not_found_answer() -> ApiErrorView {
    ApiErrorView {
        status: 404,
        code: "tool_call_not_found"@,
        message: "tool call was not found"@,
        retryable: false,
    }
}

/// An answer to a callback that is not expected.
pub open spec fn callback_not_found_answer() -> ApiErrorView {
    ApiErrorView {
        status: 404,
        code: "callback_not_found"@,
        message: "callback was not found"@,
        retryable: false,
    }
}

/// An answer to a request that failed inside.
pub open spec fn internal_answer() -> ApiErrorView {
    ApiErrorView {
        status: 500,
        code: "internal_error"@,
        message: "internal server error"@,
        retryable: false,
    }
}

/// An answer to a request for a session that is not there.
pub open spec fn session_not_found_answer() -> ApiErrorView {
    ApiErrorView {
        status: 404,
        code: "session_not_found"@,
        message: "session was not found"@,
        retryable: false,
    }
}

/// An answer to a request to repeat what was not done.
pub open spec fn receipt_not_found_answer() -> ApiErrorView {
    ApiErrorView {
        status: 404,
        code: "idempotency_receipt_not_found"@,
        message: "idempotency receipt was not found"@,
        retryable: false,
    }
}

/// An answer to a caller that is not known.
pub open spec fn unauthenticated_answer() -> ApiErrorView {
    ApiErrorView {
        status: 401,
        code: "unauthenticated"@,
        message: "authentication required"@,
        retryable: false,
    }
}

/// An answer to a request that needs a credential which is not there now.
pub open spec fn replica_unavailable_answer() -> ApiErrorView {
    ApiErrorView {
        status: 503,
        code: "auth_replica_unavailable"@,
        message: "credential replica is unavailable"@,
        retryable: true,
    }
}

/// The answer to a failure of the service.
pub open spec fn service_answer(error: ServiceErrorView) -> ApiErrorView {
    match error {
        ServiceErrorView::NotFound => session_not_found_answer(),
        ServiceErrorView::IdempotencyReceiptNotFound => receipt_not_found_answer(),
        ServiceErrorView::Conflict(message) => conflict_answer(message),
        ServiceErrorView::AuthReplicaUnavailable => replica_unavailable_answer(),
        ServiceErrorView::Malformed => malformed_answer(),
        ServiceErrorView::Invalid(message) => invalid_answer(message),
        ServiceErrorView::PayloadTooLarge => payload_too_large_answer(),
        ServiceErrorView::Backend => internal_answer(),
    }
}

impl ApiError {
    /// An answer to a request that cannot be meant.
    pub fn invalid(message: &str) -> (error: Self)
        ensures
            error.deep_view() == invalid_answer(message@),
    {
        ApiError {
            status: 422,
            code: "invalid_request",
            message: message.to_string(),
            retryable: false,
        }
    }

    /// An answer to a request that another one rules out.
    pub fn conflict(message: &str) -> (error: Self)
        ensures
            error.deep_view() == conflict_answer(message@),
    {
        ApiError { status: 409, code: "conflict", message: message.to_string(), retryable: false }
    }

    /// An answer to a request that cannot be read.
    pub fn malformed() -> (error: Self)
        ensures
            error.deep_view() == malformed_answer(),
    {
        ApiError {
            status: 400,
            code: "malformed_request",
            message: "malformed request".to_string(),
            retryable: false,
        }
    }

    /// An answer to a request that is too large.
    pub fn payload_too_large() -> (error: Self)
        ensures
            error.deep_view() == payload_too_large_answer(),
    {
        ApiError {
            status: 413,
            code: "payload_too_large",
            message: "request payload is too large".to_string(),
            retryable: false,
        }
    }

    /// An answer to a request for a replica that is not there.
    pub fn replica_not_found() -> (error: Self)
        ensures
            error.deep_view() == replica_not_found_answer(),
    {
        ApiError {
            status: 404,
            code: "auth_replica_not_found",
            message: "credential replica was not found".to_string(),
            retryable: false,
        }
    }

    /// An answer to a request for a tool call that is not there.
    pub fn tool_not_found() -> (error: Self)
        ensures
            error.deep_view() == tool_not_found_answer(),
    {
        ApiError {
            status: 404,
            code: "tool_call_not_found",
            message: "tool call was not found".to_string(),
            retryable: false,
        }
    }

    /// An answer to a callback that is not expected.
    pub fn callback_not_found() -> (error: Self)
        ensures
            error.deep_view() == callback_not_found_answer(),
    {
        ApiError {
            status: 404,
            code: "callback_not_found",
            message: "callback was not found".to_string(),
            retryable: false,
        }
    }

    /// An answer to a request that failed inside.
    pub fn internal() -> (error: Self)
        ensures
            error.deep_view() == internal_answer(),
    {
        ApiError {
            status: 500,
            code: "internal_error",
            message: "internal server error".to_string(),
            retryable: false,
        }
    }

    /// An answer to a request for a session that is not there.
    pub fn session_not_found() -> (error: Self)
        ensures
            error.deep_view() == session_not_found_answer(),
    {
        ApiError {
            status: 404,
            code: "session_not_found",
            message: "session was not found".to_string(),
            retryable: false,
        }
    }

    /// An answer to a request to repeat what was not done.
    pub fn receipt_not_found() -> (error: Self)
        ensures
            error.deep_view() == receipt_not_found_answer(),
    {
        ApiError {
            status: 404,
            code: "idempotency_receipt_not_found",
            message: "idempotency receipt was not found".to_string(),
            retryable: false,
        }
    }

    /// An answer to a caller that is not known.
    pub fn unauthenticated() -> (error: Self)
        ensures
            error.deep_view() == unauthenticated_answer(),
    {
        ApiError {
            status: 401,
            code: "unauthenticated",
            message: "authentication required".to_string(),
            retryable: false,
        }
    }

    /// An answer to a request that needs a credential which is not there now.
    pub fn replica_unavailable() -> (error: Self)
        ensures
            error.deep_view() == replica_unavailable_answer(),
    {
        ApiError {
            status: 503,
            code: "auth_replica_unavailable",
            message: "credential replica is unavailable".to_string(),
            retryable: true,
        }
    }

    /// The answer to a failure of the service.
    pub fn from_service(error: ServiceError) -> (answer: Self)
        ensures
            answer.deep_view() == service_answer(error.deep_view()),
    {
        match error {
            ServiceError::NotFound => ApiError::session_not_found(),
            ServiceError::IdempotencyReceiptNotFound => ApiError::receipt_not_found(),
            ServiceError::Conflict(message) => ApiError::conflict(&message),
            ServiceError::AuthReplicaUnavailable => ApiError::replica_unavailable(),
            ServiceError::Malformed => ApiError::malformed(),
            ServiceError::Invalid(message) => ApiError::invalid(&message),
            ServiceError::PayloadTooLarge => ApiError::payload_too_large(),
            ServiceError::Backend => ApiError::internal(),
        }
    }

    /// The answer to a caller that is not let in.
    pub fn from_control(error: ControlAuthError) -> (answer: Self)
        ensures
            answer.deep_view() == match error {
                ControlAuthError::Unauthenticated => unauthenticated_answer(),
                ControlAuthError::Malformed => malformed_answer(),
                ControlAuthError::PayloadTooLarge => payload_too_large_answer(),
            },
    {
        match error {
            ControlAuthError::Unauthenticated => ApiError::unauthenticated(),
            ControlAuthError::Malformed => ApiError::malformed(),
            ControlAuthError::PayloadTooLarge => ApiError::payload_too_large(),
        }
    }

    /// The answer to a rotation that is refused.
    pub fn from_rotation(error: ControlRotationError) -> (answer: Self)
        ensures
            answer.deep_view() == match error {
                ControlRotationError::Invalid => invalid_answer(
                    "invalid controller auth rotation"@,
                ),
                ControlRotationError::PayloadTooLarge => payload_too_large_answer(),
                ControlRotationError::Conflict => conflict_answer(
                    "controller auth operation conflicts"@,
                ),
                ControlRotationError::Internal => internal_answer(),
            },
    {
        match error {
            ControlRotationError::Invalid => ApiError::invalid("invalid controller auth rotation"),
            ControlRotationError::PayloadTooLarge => ApiError::payload_too_large(),
            ControlRotationError::Conflict => {
                ApiError::conflict("controller auth operation conflicts")
            },
            ControlRotationError::Internal => ApiError::internal(),
        }
    }

    /// The answer to a request on replicas that failed.
    pub fn from_replica(error: ReplicaPortError) -> (answer: Self)
        ensures
            answer.deep_view() == match error {
                ReplicaPortError::Invalid => invalid_answer(
                    "invalid credential replica request"@,
                ),
                ReplicaPortError::Conflict => conflict_answer(
                    "credential replica operation conflicts"@,
                ),
                ReplicaPortError::NotFound => replica_not_found_answer(),
                _ => internal_answer(),
            },
    {
        match error {
            ReplicaPortError::Invalid => ApiError::invalid("invalid credential replica request"),
            ReplicaPortError::Conflict => {
                ApiError::conflict("credential replica operation conflicts")
            },
            ReplicaPortError::NotFound => ApiError::replica_not_found(),
            _ => ApiError::internal(),
        }
    }

    /// The answer to a command on a session that the runtime refuses.
    pub fn from_runtime_session(error: RuntimeCommandError) -> (answer: Self)
        ensures
            answer.deep_view() == match error.deep_view() {
                RuntimeCommandErrorView::NotFound => session_not_found_answer(),
                RuntimeCommandErrorView::IdempotencyReceiptNotFound => receipt_not_found_answer(),
                RuntimeCommandErrorView::Conflict => conflict_answer(
                    "request conflicts with an existing command"@,
                ),
                RuntimeCommandErrorView::Invalid(message) => if message == "payload_too_large"@ {
                    payload_too_large_answer()
                } else {
                    invalid_answer(message)
                },
                RuntimeCommandErrorView::AuthReplicaUnavailable => replica_unavailable_answer(),
                RuntimeCommandErrorView::Backend => internal_answer(),
            },
    {
        match error {
            RuntimeCommandError::NotFound => ApiError::session_not_found(),
            RuntimeCommandError::IdempotencyReceiptNotFound => ApiError::receipt_not_found(),
            RuntimeCommandError::Conflict => {
                ApiError::conflict("request conflicts with an existing command")
            },
            RuntimeCommandError::Invalid(message) => {
                if same_text(message, "payload_too_large") {
                    ApiError::payload_too_large()
                } else {
                    ApiError::invalid(message)
                }
            },
            RuntimeCommandError::AuthReplicaUnavailable => ApiError::replica_unavailable(),
            RuntimeCommandError::Backend => ApiError::internal(),
        }
    }

    /// The answer to a command on a tool call that the runtime refuses.
    pub fn from_runtime_tool(error: RuntimeCommandError) -> (answer: Self)
        ensures
            answer.deep_view() == match error.deep_view() {
                RuntimeCommandErrorView::NotFound => tool_not_found_answer(),
                RuntimeCommandErrorView::Conflict => conflict_answer(
                    "tool call conflicts with its current state"@,
                ),
                RuntimeCommandErrorView::Invalid(_) => invalid_answer(
                    "invalid tool call request"@,
                ),
                _ => internal_answer(),
            },
    {
        match error {
            RuntimeCommandError::NotFound => ApiError::tool_not_found(),
            RuntimeCommandError::Conflict => {
                ApiError::conflict("tool call conflicts with its current state")
            },
            RuntimeCommandError::Invalid(_) => ApiError::invalid("invalid tool call request"),
            _ => ApiError::internal(),
        }
    }

    /// The answer to a callback that the runtime refuses.
    pub fn from_runtime_callback(error: RuntimeCommandError) -> (answer: Self)
        ensures
            answer.deep_view() == match error.deep_view() {
                RuntimeCommandErrorView::NotFound => callback_not_found_answer(),
                RuntimeCommandErrorView::Conflict => conflict_answer(
                    "callback conflicts with its terminal result"@,
                ),
                RuntimeCommandErrorView::Invalid(_) => invalid_answer("invalid callback request"@),
                _ => internal_answer(),
            },
    {
        match error {
            RuntimeCommandError::NotFound => ApiError::callback_not_found(),
            RuntimeCommandError::Conflict => {
                ApiError::conflict("callback conflicts with its terminal result")
            },
            RuntimeCommandError::Invalid(_) => ApiError::invalid("invalid callback request"),
            _ => ApiError::internal(),
        }
    }

    /// The body of the answer.
    pub fn body(&self) -> (body: Value)
        ensures
            json_view(body) == error_body(self.deep_view()),
    {
        let error = Fields::new().put("code", string_value(self.code.to_string())).put(
            "message",
            string_value(self.message.clone()),
        ).put("retryable", bool_value(self.retryable));
        Fields::new().put("error", error.value()).value()
    }
}

/// The body of an answer to a request that failed.
pub open spec fn error_body(error: ApiErrorView) -> JsonView {
    JsonView::Object(
        fields().insert(
            "error"@,
            JsonView::Object(
                fields().insert("code"@, JsonView::Text(error.code)).insert(
                    "message"@,
                    JsonView::Text(error.message),
                ).insert("retryable"@, JsonView::Bool(error.retryable)),
            ),
        ),
    )
}

impl RuntimeCommandError {
    /// A failure of the store in the course of a command on a tool call.
    pub fn from_store(error: StoreError) -> (runtime: Self)
        ensures
            runtime.deep_view() == match error {
                StoreError::SessionNotFound => RuntimeCommandErrorView::NotFound,
                StoreError::OptimisticConcurrency
                | StoreError::CommandIdempotencyConflict
                | StoreError::EventIdempotencyConflict
                | StoreError::DuplicateEventIdInBatch => RuntimeCommandErrorView::Conflict,
                StoreError::EmptyField | StoreError::Domain => RuntimeCommandErrorView::Invalid(
                    "invalid request"@,
                ),
                _ => RuntimeCommandErrorView::Backend,
            },
    {
        match error {
            StoreError::SessionNotFound => RuntimeCommandError::NotFound,
            StoreError::OptimisticConcurrency
            | StoreError::CommandIdempotencyConflict
            | StoreError::EventIdempotencyConflict
            | StoreError::DuplicateEventIdInBatch => RuntimeCommandError::Conflict,
            StoreError::EmptyField | StoreError::Domain => {
                RuntimeCommandError::Invalid("invalid request")
            },
            _ => RuntimeCommandError::Backend,
        }
    }
}

impl ServiceError {
    /// A failure of the store in the course of a command.
    pub fn store(error: StoreError) -> (service: Self)
        ensures
            service.deep_view() == match error {
                StoreError::OptimisticConcurrency
                | StoreError::CommandIdempotencyConflict
                | StoreError::EventIdempotencyConflict
                | StoreError::DuplicateEventIdInBatch => ServiceErrorView::Conflict(
                    "request conflicts with an existing command"@,
                ),
                StoreError::SessionNotFound => ServiceErrorView::NotFound,
                StoreError::InvalidSessionListLimit => ServiceErrorView::Invalid(
                    "invalid session list limit"@,
                ),
                StoreError::InvalidSessionListCursor => ServiceErrorView::Malformed,
                StoreError::EmptyField | StoreError::Domain => ServiceErrorView::Invalid(
                    "invalid request"@,
                ),
                StoreError::Other => ServiceErrorView::Backend,
            },
    {
        match error {
            StoreError::OptimisticConcurrency
            | StoreError::CommandIdempotencyConflict
            | StoreError::EventIdempotencyConflict
            | StoreError::DuplicateEventIdInBatch => ServiceError::Conflict(
                "request conflicts with an existing command".to_string(),
            ),
            StoreError::SessionNotFound => ServiceError::NotFound,
            StoreError::InvalidSessionListLimit => ServiceError::Invalid(
                "invalid session list limit".to_string(),
            ),
            StoreError::InvalidSessionListCursor => ServiceError::Malformed,
            StoreError::EmptyField | StoreError::Domain => ServiceError::Invalid(
                "invalid request".to_string(),
            ),
            StoreError::Other => ServiceError::Backend,
        }
    }

    /// A failure of the store in the course of a read.
    pub fn read_store(error: StoreError) -> (service: Self)
        ensures
            service.deep_view() == if error == StoreError::SessionNotFound {
                ServiceErrorView::NotFound
            } else {
                ServiceErrorView::Backend
            },
    {
        match error {
            StoreError::SessionNotFound => ServiceError::NotFound,
            _ => ServiceError::Backend,
        }
    }

    /// A message that the domain refuses.
    pub fn from_domain(error: DomainError) -> (service: Self)
        ensures
            service.deep_view() == match error.deep_view() {
                DomainErrorView::DurablePayloadTooLarge { .. } => ServiceErrorView::PayloadTooLarge,
                DomainErrorView::TextTooLarge { .. } => ServiceErrorView::PayloadTooLarge,
                _ => ServiceErrorView::Invalid("invalid message request"@),
            },
    {
        match error {
            DomainError::DurablePayloadTooLarge { .. } => ServiceError::PayloadTooLarge,
            DomainError::TextTooLarge { .. } => ServiceError::PayloadTooLarge,
            _ => ServiceError::Invalid("invalid message request".to_string()),
        }
    }

    /// A credential that cannot be selected when a session is created.
    pub fn from_created_replica(error: ReplicaError) -> (service: Self)
        ensures
            service.deep_view() == match error {
                ReplicaError::Disabled
                | ReplicaError::SecretUnavailable => ServiceErrorView::AuthReplicaUnavailable,
                ReplicaError::Invalid => ServiceErrorView::Invalid(
                    "invalid credential replica selection"@,
                ),
                _ => ServiceErrorView::Backend,
            },
    {
        match error {
            ReplicaError::Disabled | ReplicaError::SecretUnavailable => {
                ServiceError::AuthReplicaUnavailable
            },
            ReplicaError::Invalid => ServiceError::Invalid(
                "invalid credential replica selection".to_string(),
            ),
            _ => ServiceError::Backend,
        }
    }

    /// A credential that cannot be selected for a session that is there.
    pub fn from_selected_replica(error: ReplicaError) -> (service: Self)
        ensures
            service.deep_view() == match error {
                ReplicaError::Disabled
                | ReplicaError::SecretUnavailable
                | ReplicaError::Unavailable => ServiceErrorView::AuthReplicaUnavailable,
                ReplicaError::Invalid => ServiceErrorView::Invalid(
                    "invalid credential replica selection"@,
                ),
                _ => ServiceErrorView::Backend,
            },
    {
        match error {
            ReplicaError::Disabled
            | ReplicaError::SecretUnavailable
            | ReplicaError::Unavailable => {
                ServiceError::AuthReplicaUnavailable
            },
            ReplicaError::Invalid => ServiceError::Invalid(
                "invalid credential replica selection".to_string(),
            ),
            _ => ServiceError::Backend,
        }
    }
}

} // verus!
