//! The session domain: the facts of a session, the events that change them, and the rules that
//! both must meet.

use vstd::prelude::*;

pub mod dedupe;
pub mod equality;
pub mod error;
pub mod event;
pub mod fault_laws;
pub mod history;
pub mod model;
pub mod payload;
pub mod reducer;
pub mod rules;
pub mod selection;
pub mod state;
pub mod tools;
pub mod transcript;
pub mod validity;
pub mod waits;

pub use dedupe::{DedupeFacts, DedupeFactsView};
pub use error::{DomainError, DomainErrorView};
pub use event::{
    EventDraft, EventDraftView, EventRecord, EventRecordView, SessionEvent, SessionEventView,
    SessionStatus,
};
pub use model::{
    ActivationOutcome, ActiveActivation, ActiveActivationView, ActiveModelRound,
    ActiveModelRoundView, ContextHandoffDocument, ContextHandoffDocumentView, ContextHandoffPlan,
    ContextHandoffPlanView, ModelAttemptError, ModelAttemptErrorClass, ModelAttemptErrorView,
    ModelAttemptFailure, ModelAttemptFailureView, ModelAttemptOutcome, ModelAttemptRecord,
    ModelAttemptRecordView, ModelAttemptsExhaustedFact, ModelAttemptsExhaustedFactView,
    ModelRequestFact, ModelRequestFactView, ModelRequestPurpose, ModelRetrySchedule,
    ModelRetryScheduleView, ModelUsageAnchor, ModelUsageAnchorView,
};
pub use payload::{
    BlobRef, BlobRefView, DurablePayload, DurablePayloadView, InlinePayload, InlinePayloadView,
    OpaqueContinuation, OpaqueContinuationView, RedactedPayload, RedactedPayloadView,
};
pub use selection::{
    ModelLimits, ProviderExecutionSelection, ProviderExecutionSelectionView,
    SessionModelSelection, SessionModelSelectionView, SessionOwner, SessionOwnerView,
    SessionSelection, SessionSelectionView,
};
pub use state::{DomainDecision, DomainDecisionView, SessionState, SessionStateView};
pub use tools::{
    AsyncCallbackBinding, AsyncCallbackBindingView, AsyncToolCallRecord, AsyncToolCallRecordView,
    AsyncToolStatus, CompletionMode, ToolError, ToolErrorView,
};
pub use transcript::{
    DeliveryKind, QueuedDelivery, QueuedDeliveryView, ToolCall, ToolCallView, TranscriptMessage,
    TranscriptMessageView, TranscriptRole,
};
pub use waits::{ActiveWait, ActiveWaitView, WaitSource, WaitTimerIntent, WaitTimerIntentView};

verus! {

pub const EVENT_SCHEMA_VERSION: u32 = 1;

pub const STATE_SCHEMA_VERSION: u32 = 1;

pub const REDUCER_SCHEMA_VERSION: u32 = 1;

pub const SESSION_CREATED_SCHEMA_VERSION: u32 = 2;

pub const WAIT_MIN_SECONDS: u32 = 1;

pub const WAIT_MAX_SECONDS: u32 = 600;

pub const WAIT_FOR_TOOL_NAME: &'static str = "wait_for";

pub const MAX_INLINE_PAYLOAD_BYTES: usize = 64 * 1024;

pub const MAX_ERROR_MESSAGE_BYTES: usize = 8 * 1024;

pub const MAX_RECENT_DEDUPE_FACTS: usize = 256;

pub const MAX_IDENTIFIER_BYTES: usize = 512;

pub const MAX_MESSAGE_CONTENT_BYTES: usize = 256 * 1024;

pub const MAX_TRANSCRIPT_MESSAGES: usize = 8 * 1024;

pub const MAX_DELIVERY_QUEUE_ITEMS: usize = 4 * 1024;

pub const MAX_ASYNC_TOOL_CALLS: usize = 1_024;

pub const MAX_TOOL_CALLS_PER_MESSAGE: usize = 128;

pub const MAX_WAIT_TOOL_CALLS: usize = 128;

pub const MAX_SELECTED_TOOLS: usize = 256;

pub const MAX_OPAQUE_CONTINUATION_BYTES: usize = 64 * 1024;

pub const MAX_OPAQUE_CONTINUATIONS: usize = 8;

pub const MAX_PROVIDER_EXECUTION_OPTIONS_BYTES: usize = 64 * 1024;

pub const MAX_MODEL_ATTEMPTS_PER_STEP: u32 = 32;

pub const MAX_MODEL_FINGERPRINT_BYTES: usize = 512;

/// The position of an event in the stream of its session.
pub type StreamVersion = u64;

/// The position of an event among those of all sessions.
pub type GlobalPosition = u64;

} // verus!
