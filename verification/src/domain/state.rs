//! The state of a session and what must hold of it.

use super::dedupe::{dedupe_fault, DedupeFacts, DedupeFactsView};
use super::error::{fault_of, invalid, invalid_state, DomainError, DomainErrorView};
use super::event::{SessionEvent, SessionEventView, SessionStatus};
use super::history::{
    declared_call, find_declared_call, has_message, has_user_message, is_declared,
};
use super::model::{
    activation_fault, document_fault, exhausted_fault, model_error_fault, model_failure_fault,
    plan_fault, round_fault, usage_fault, validate_active_activation,
    validate_active_model_round, validate_context_handoff_document,
    validate_context_handoff_plan, validate_model_attempt_failure,
    validate_model_attempts_exhausted, validate_model_error, validate_model_usage_anchor,
    ActiveActivation, ActiveActivationView, ActiveModelRound, ActiveModelRoundView,
    ContextHandoffDocument, ContextHandoffDocumentView, ContextHandoffPlan,
    ContextHandoffPlanView, ModelAttemptError, ModelAttemptErrorView, ModelAttemptFailure,
    ModelAttemptFailureView, ModelAttemptOutcome, ModelAttemptsExhaustedFact,
    ModelAttemptsExhaustedFactView, ModelRequestPurpose, ModelUsageAnchor, ModelUsageAnchorView,
};
use super::payload::payload_agrees;
use super::rules::{require_text, required_text_fault, text_size_fault, validate_text};
use super::selection::{
    chosen_model_agrees, empty_selection, owner_fault, selection_fault, SessionModelSelection,
    SessionOwner, SessionOwnerView, SessionSelection, SessionSelectionView,
};
use super::tools::{
    binding_fault, record_fault, terminal, validate_async_record, validate_callback_binding,
    AsyncCallbackBinding, AsyncCallbackBindingView, AsyncToolCallRecord, AsyncToolCallRecordView,
    CompletionMode,
};
use super::transcript::{
    declares, delivery_fault, message_fault, validate_delivery, validate_message, QueuedDelivery,
    QueuedDeliveryView, ToolCall, ToolCallView, TranscriptMessage, TranscriptMessageView,
    TranscriptRole,
};
use super::waits::{
    validate_wait, wait_fault, ActiveWait, ActiveWaitView, WaitTimerIntent, WaitTimerIntentView,
};
use super::{MAX_ASYNC_TOOL_CALLS, MAX_DELIVERY_QUEUE_ITEMS, MAX_ERROR_MESSAGE_BYTES};
use crate::checks::{
    fault_if, first_fault, lemma_first_fault_prefix, lemma_first_fault_step,
    lemma_first_fault_whole, optional_fault, Checks,
};
use crate::datum::{Datum, Same};
use crate::text::{holds_text, same_text};
use crate::text_map::{lookup, TextMap};
use vstd::hash_set::StringHashSet;
use vstd::prelude::*;

verus! {

/// Everything that the events of a session amount to.
#[derive(Clone, Debug, PartialEq)]
pub struct SessionState {
    pub session_id: String,
    pub owner: Option<SessionOwner>,
    pub created_at_ms: Option<i64>,
    pub selection: SessionSelection,
    pub selection_version: u64,
    pub status: SessionStatus,
    pub transcript: Vec<TranscriptMessage>,
    pub last_model_attempt_failure: Option<ModelAttemptFailure>,
    pub delivery_queue: Vec<QueuedDelivery>,
    pub delivery_ack: u64,
    pub active_wait: Option<ActiveWait>,
    pub active_timer: Option<WaitTimerIntent>,
    pub wake_pending_wait_id: Option<String>,
    pub async_tool_calls: TextMap<AsyncToolCallRecord>,
    pub active_activation: Option<ActiveActivation>,
    pub active_model_round: Option<ActiveModelRound>,
    pub pending_context_handoff: Option<ContextHandoffPlan>,
    pub latest_context_handoff: Option<ContextHandoffDocument>,
    pub latest_model_usage: Option<ModelUsageAnchor>,
    pub last_context_handoff_failure: Option<ModelAttemptError>,
    pub callback_bindings: TextMap<AsyncCallbackBinding>,
    pub last_model_attempts_exhausted: Option<ModelAttemptsExhaustedFact>,
    pub stream_version: u64,
    pub dedupe_facts: DedupeFacts,
}

/// The content of a [`SessionState`].
pub struct SessionStateView {
    pub session_id: Seq<char>,
    pub owner: Option<SessionOwnerView>,
    pub created_at_ms: Option<i64>,
    pub selection: SessionSelectionView,
    pub selection_version: u64,
    pub status: SessionStatus,
    pub transcript: Seq<TranscriptMessageView>,
    pub last_model_attempt_failure: Option<ModelAttemptFailureView>,
    pub delivery_queue: Seq<QueuedDeliveryView>,
    pub delivery_ack: u64,
    pub active_wait: Option<ActiveWaitView>,
    pub active_timer: Option<WaitTimerIntentView>,
    pub wake_pending_wait_id: Option<Seq<char>>,
    pub async_tool_calls: Seq<(Seq<char>, AsyncToolCallRecordView)>,
    pub active_activation: Option<ActiveActivationView>,
    pub active_model_round: Option<ActiveModelRoundView>,
    pub pending_context_handoff: Option<ContextHandoffPlanView>,
    pub latest_context_handoff: Option<ContextHandoffDocumentView>,
    pub latest_model_usage: Option<ModelUsageAnchorView>,
    pub last_context_handoff_failure: Option<ModelAttemptErrorView>,
    pub callback_bindings: Seq<(Seq<char>, AsyncCallbackBindingView)>,
    pub last_model_attempts_exhausted: Option<ModelAttemptsExhaustedFactView>,
    pub stream_version: u64,
    pub dedupe_facts: DedupeFactsView,
}

impl DeepView for SessionState {
    type V = SessionStateView;

    open spec fn deep_view(&self) -> SessionStateView {
        SessionStateView {
            session_id: self.session_id.deep_view(),
            owner: self.owner.deep_view(),
            created_at_ms: self.created_at_ms,
            selection: self.selection.deep_view(),
            selection_version: self.selection_version,
            status: self.status,
            transcript: self.transcript.deep_view(),
            last_model_attempt_failure: self.last_model_attempt_failure.deep_view(),
            delivery_queue: self.delivery_queue.deep_view(),
            delivery_ack: self.delivery_ack,
            active_wait: self.active_wait.deep_view(),
            active_timer: self.active_timer.deep_view(),
            wake_pending_wait_id: self.wake_pending_wait_id.deep_view(),
            async_tool_calls: self.async_tool_calls.deep_view(),
            active_activation: self.active_activation.deep_view(),
            active_model_round: self.active_model_round.deep_view(),
            pending_context_handoff: self.pending_context_handoff.deep_view(),
            latest_context_handoff: self.latest_context_handoff.deep_view(),
            latest_model_usage: self.latest_model_usage.deep_view(),
            last_context_handoff_failure: self.last_context_handoff_failure.deep_view(),
            callback_bindings: self.callback_bindings.deep_view(),
            last_model_attempts_exhausted: self.last_model_attempts_exhausted.deep_view(),
            stream_version: self.stream_version,
            dedupe_facts: self.dedupe_facts.deep_view(),
        }
    }
}

impl Datum for SessionState {
    fn replica(&self) -> (copy: Self) {
        SessionState {
            session_id: self.session_id.replica(),
            owner: self.owner.replica(),
            created_at_ms: self.created_at_ms,
            selection: self.selection.replica(),
            selection_version: self.selection_version,
            status: self.status,
            transcript: self.transcript.replica(),
            last_model_attempt_failure: self.last_model_attempt_failure.replica(),
            delivery_queue: self.delivery_queue.replica(),
            delivery_ack: self.delivery_ack,
            active_wait: self.active_wait.replica(),
            active_timer: self.active_timer.replica(),
            wake_pending_wait_id: self.wake_pending_wait_id.replica(),
            async_tool_calls: self.async_tool_calls.replica(),
            active_activation: self.active_activation.replica(),
            active_model_round: self.active_model_round.replica(),
            pending_context_handoff: self.pending_context_handoff.replica(),
            latest_context_handoff: self.latest_context_handoff.replica(),
            latest_model_usage: self.latest_model_usage.replica(),
            last_context_handoff_failure: self.last_context_handoff_failure.replica(),
            callback_bindings: self.callback_bindings.replica(),
            last_model_attempts_exhausted: self.last_model_attempts_exhausted.replica(),
            stream_version: self.stream_version,
            dedupe_facts: self.dedupe_facts.replica(),
        }
    }
}

/// The events of a batch that change the state, and the state that they lead to.
#[derive(Clone, Debug, PartialEq)]
pub struct DomainDecision {
    pub effective_events: Vec<SessionEvent>,
    pub state: SessionState,
}

/// The content of a [`DomainDecision`].
pub struct DomainDecisionView {
    pub effective_events: Seq<SessionEventView>,
    pub state: SessionStateView,
}

impl DeepView for DomainDecision {
    type V = DomainDecisionView;

    open spec fn deep_view(&self) -> DomainDecisionView {
        DomainDecisionView {
            effective_events: self.effective_events.deep_view(),
            state: self.state.deep_view(),
        }
    }
}

/// A session to which nothing has happened.
pub open spec fn fresh_state(session_id: Seq<char>) -> SessionStateView {
    SessionStateView {
        session_id,
        owner: None,
        created_at_ms: None,
        selection: empty_selection(),
        selection_version: 0,
        status: SessionStatus::Idle,
        transcript: Seq::empty(),
        last_model_attempt_failure: None,
        delivery_queue: Seq::empty(),
        delivery_ack: 0,
        active_wait: None,
        active_timer: None,
        wake_pending_wait_id: None,
        async_tool_calls: Seq::empty(),
        active_activation: None,
        active_model_round: None,
        pending_context_handoff: None,
        latest_context_handoff: None,
        latest_model_usage: None,
        last_context_handoff_failure: None,
        callback_bindings: Seq::empty(),
        last_model_attempts_exhausted: None,
        stream_version: 0,
        dedupe_facts: DedupeFactsView { recent_keys: Seq::empty() },
    }
}

/// What is wrong with the identity of a session: before its creation there must be no trace of
/// one, and after it the facts of the creation must be there.
pub open spec fn creation_fault(state: SessionStateView) -> Option<DomainErrorView> {
    required_text_fault("session_id"@, state.session_id).before(
        text_size_fault("session_id"@, state.session_id, MAX_ERROR_MESSAGE_BYTES),
    ).before(
        if state.stream_version == 0 {
            fault_if(
                state.owner is Some || state.created_at_ms is Some,
                invalid("uncreated session contains creation facts"@),
            ).before(
                fault_if(
                    state.selection != empty_selection(),
                    invalid("uncreated session contains an initial selection"@),
                ),
            ).before(
                fault_if(
                    state.selection_version != 0,
                    invalid("uncreated session has a selection version"@),
                ),
            )
        } else {
            match (state.owner, state.created_at_ms) {
                (Some(owner), Some(created_at_ms)) => owner_fault(owner).before(
                    fault_if(created_at_ms < 0, DomainErrorView::InvalidCreatedAt),
                ).before(selection_fault(state.selection)).before(
                    fault_if(
                        state.selection_version == 0,
                        invalid("created session selection version must be positive"@),
                    ),
                ),
                _ => Some(DomainErrorView::SessionNotCreated),
            }
        },
    )
}

/// A declared call whose id no earlier call has, in earlier messages or in its own.
pub open spec fn fresh_call_check(history: Seq<TranscriptMessageView>) -> spec_fn(
    Seq<ToolCallView>,
    ToolCallView,
) -> Option<DomainErrorView> {
    |before: Seq<ToolCallView>, call: ToolCallView|
        fault_if(
            is_declared(history, call.tool_call_id) || declares(before, call.tool_call_id),
            DomainErrorView::DuplicateTranscriptToolCallId(call.tool_call_id),
        )
}

/// A message in the light of the messages before it.
pub open spec fn history_check() -> spec_fn(
    Seq<TranscriptMessageView>,
    TranscriptMessageView,
) -> Option<DomainErrorView> {
    |before: Seq<TranscriptMessageView>, message: TranscriptMessageView|
        message_fault(message).before(
            fault_if(
                has_message(before, message.message_id),
                DomainErrorView::ConflictingTranscriptMessage(message.message_id),
            ),
        ).before(
            fault_if(
                message.tool_calls.len() > 0 && message.role != TranscriptRole::Assistant,
                invalid("only assistant messages may declare tool calls"@),
            ),
        ).before(first_fault(message.tool_calls, fresh_call_check(before))).before(
            tool_answer_fault(before, message),
        )
}

/// A message that answers a tool call: it must be a tool message, and the call declared.
pub open spec fn tool_answer_fault(
    before: Seq<TranscriptMessageView>,
    message: TranscriptMessageView,
) -> Option<DomainErrorView> {
    optional_fault(
        message.tool_call_id,
        |id: Seq<char>|
            fault_if(
                message.role != TranscriptRole::Tool,
                invalid("tool_call_id may only be attached to tool messages"@),
            ).before(
                fault_if(
                    !is_declared(before, id) && !declares(message.tool_calls, id),
                    DomainErrorView::UnknownToolCall(id),
                ),
            ),
    )
}

/// What is wrong with the last final model failure.
pub open spec fn last_failure_fault(state: SessionStateView) -> Option<DomainErrorView> {
    optional_fault(
        state.last_model_attempt_failure,
        |failure: ModelAttemptFailureView|
            model_failure_fault(failure).before(
                fault_if(
                    !has_user_message(state.transcript, failure.trigger_message_id),
                    invalid("model attempt failure has no causal user message"@),
                ),
            ),
    )
}

/// A delivery in the light of those before it: the queue ids follow on the acknowledged one.
pub open spec fn queue_check(ack: u64) -> spec_fn(
    Seq<QueuedDeliveryView>,
    QueuedDeliveryView,
) -> Option<DomainErrorView> {
    |before: Seq<QueuedDeliveryView>, delivery: QueuedDeliveryView|
        delivery_fault(delivery, true).before(
            fault_if(
                delivery.queue_id != ack + 1 + before.len(),
                DomainErrorView::DeliveryQueueOrder {
                    expected: (ack + 1 + before.len()) as u64,
                    actual: delivery.queue_id,
                },
            ),
        ).before(
            fault_if(ack + 1 + before.len() >= u64::MAX, DomainErrorView::VersionOverflow),
        )
}

/// What is wrong with the delivery queue.
pub open spec fn queue_fault(state: SessionStateView) -> Option<DomainErrorView> {
    fault_if(state.delivery_ack == u64::MAX, DomainErrorView::VersionOverflow).before(
        first_fault(state.delivery_queue, queue_check(state.delivery_ack)),
    ).before(
        fault_if(
            state.delivery_queue.len() > MAX_DELIVERY_QUEUE_ITEMS,
            DomainErrorView::CollectionTooLarge {
                field: "delivery queue"@,
                items: state.delivery_queue.len() as usize,
                max: MAX_DELIVERY_QUEUE_ITEMS,
            },
        ),
    )
}

/// What is wrong with the wait, the wake that is due and the timer.
pub open spec fn active_wait_fault(state: SessionStateView) -> Option<DomainErrorView> {
    match state.active_wait {
        Some(wait) => wait_fault(wait).before(
            fault_if(
                state.wake_pending_wait_id matches Some(pending) && pending != wait.wait_id,
                invalid("pending wake belongs to a different active wait"@),
            ),
        ),
        None => fault_if(
            state.wake_pending_wait_id is Some,
            invalid("pending wake requires an active wait"@),
        ),
    }.before(
        optional_fault(
            state.active_timer,
            |timer: WaitTimerIntentView|
                fault_if(
                    !(state.active_wait matches Some(wait) && wait.wait_id == timer.wait_id),
                    invalid("wait timer must belong to the active wait"@),
                ).before(
                    fault_if(
                        state.active_wait matches Some(wait) && wait.deadline_ms
                            != timer.deadline_ms,
                        invalid("wait timer deadline does not match active wait"@),
                    ),
                ),
        ),
    )
}

/// What is wrong with the activation and its model round.
pub open spec fn active_round_fault(state: SessionStateView) -> Option<DomainErrorView> {
    optional_fault(
        state.active_activation,
        |activation: ActiveActivationView| activation_fault(activation),
    ).before(
        optional_fault(
            state.active_model_round,
            |round: ActiveModelRoundView|
                round_fault(round).before(
                    match state.active_activation {
                        None => Some(
                            invalid("active model round requires an active activation"@),
                        ),
                        Some(activation) => fault_if(
                            round.activation_id != activation.activation_id,
                            invalid("active model round belongs to another activation"@),
                        ),
                    },
                ),
        ),
    )
}

/// The id of the latest handoff.
pub open spec fn latest_handoff_id(state: SessionStateView) -> Option<Seq<char>> {
    match state.latest_context_handoff {
        Some(handoff) => Some(handoff.handoff_id),
        None => None,
    }
}

/// The generation that a plan must lead to.
pub open spec fn expected_generation(state: SessionStateView) -> u64 {
    match state.latest_context_handoff {
        Some(handoff) => if handoff.next_generation == u64::MAX {
            u64::MAX
        } else {
            (handoff.next_generation + 1) as u64
        },
        None => 2,
    }
}

/// What is wrong with the plan of a handoff that is under way.
pub open spec fn pending_handoff_fault(
    state: SessionStateView,
    plan: ContextHandoffPlanView,
) -> Option<DomainErrorView> {
    plan_fault(plan).before(
        match state.active_activation {
            None => Some(invalid("pending context handoff requires an active activation"@)),
            Some(activation) => fault_if(
                plan.activation_id != activation.activation_id || !chosen_model_agrees(
                    activation.selection.model,
                    plan.selection,
                ),
                invalid("pending context handoff belongs to another activation"@),
            ),
        },
    ).before(
        fault_if(
            plan.previous_handoff_id != latest_handoff_id(state),
            invalid("pending context handoff has a stale parent"@),
        ),
    ).before(
        fault_if(
            plan.next_generation != expected_generation(state),
            invalid("pending context handoff has an invalid generation"@),
        ),
    ).before(
        fault_if(
            !has_message(state.transcript, plan.covered_through_message_id),
            invalid("pending context handoff boundary is absent from history"@),
        ),
    )
}

/// What is wrong with the handoffs, the usage anchor and the last handoff failure.
pub open spec fn handoff_fault(state: SessionStateView) -> Option<DomainErrorView> {
    optional_fault(
        state.pending_context_handoff,
        |plan: ContextHandoffPlanView| pending_handoff_fault(state, plan),
    ).before(
        optional_fault(
            state.latest_context_handoff,
            |handoff: ContextHandoffDocumentView|
                document_fault(handoff).before(
                    fault_if(
                        !has_message(state.transcript, handoff.covered_through_message_id),
                        invalid("context handoff boundary is absent from history"@),
                    ),
                ),
        ),
    ).before(
        optional_fault(state.latest_model_usage, |usage: ModelUsageAnchorView| usage_fault(usage)),
    ).before(
        optional_fault(
            state.last_context_handoff_failure,
            |error: ModelAttemptErrorView| model_error_fault(error),
        ),
    )
}

/// Whether the attempt of a round is completed.
pub open spec fn round_completed(round: ActiveModelRoundView) -> bool {
    round.attempt matches Some(attempt) && attempt.outcome == ModelAttemptOutcome::Completed
}

/// A round that is not completed must serve the purpose that the handoff plan calls for.
pub open spec fn round_purpose_fault(state: SessionStateView) -> Option<DomainErrorView> {
    optional_fault(
        state.active_model_round,
        |round: ActiveModelRoundView|
            match round.purpose {
                ModelRequestPurpose::Conversation => fault_if(
                    state.pending_context_handoff is Some && !round_completed(round),
                    invalid("pending context handoff requires a handoff round"@),
                ),
                ModelRequestPurpose::ContextHandoff => fault_if(
                    state.pending_context_handoff is None && !round_completed(round)
                        && state.last_context_handoff_failure is None,
                    invalid("active context handoff round has no durable plan"@),
                ),
            },
    )
}

/// Entries of the map of tool calls.
pub type CallEntry = (Seq<char>, AsyncToolCallRecordView);

/// Entries of the map of callback bindings.
pub type BindingEntry = (Seq<char>, AsyncCallbackBindingView);

/// A tool call record: sound, under its own id, and as the history declares it.
pub open spec fn call_entry_check(history: Seq<TranscriptMessageView>) -> spec_fn(
    Seq<CallEntry>,
    CallEntry,
) -> Option<DomainErrorView> {
    |before: Seq<CallEntry>, entry: CallEntry|
        record_fault(entry.1).before(
            fault_if(
                entry.0 != entry.1.tool_call_id,
                invalid("async tool call map key does not match tool_call_id"@),
            ),
        ).before(
            match declared_call(history, entry.0) {
                None => Some(DomainErrorView::UnknownToolCall(entry.0)),
                Some(declared) => fault_if(
                    declared.tool_name != entry.1.tool_name || !payload_agrees(
                        declared.input,
                        entry.1.input,
                    ),
                    DomainErrorView::ConflictingToolCallIdentity(entry.0),
                ),
            },
        )
}

/// What is wrong with the tool calls.
pub open spec fn calls_fault(state: SessionStateView) -> Option<DomainErrorView> {
    fault_if(
        state.async_tool_calls.len() > MAX_ASYNC_TOOL_CALLS,
        DomainErrorView::CollectionTooLarge {
            field: "async tool calls"@,
            items: state.async_tool_calls.len() as usize,
            max: MAX_ASYNC_TOOL_CALLS,
        },
    ).before(first_fault(state.async_tool_calls, call_entry_check(state.transcript)))
}

/// Whether a binding is for the given tool call.
pub open spec fn is_bound(bindings: Seq<BindingEntry>, tool_call_id: Seq<char>) -> bool {
    exists|i: int|
        0 <= i < bindings.len() && (#[trigger] bindings[i]).1.tool_call_id == tool_call_id
}

/// A callback binding: sound, under its own id, and the only one of a tool call that an external
/// callback completes.
pub open spec fn binding_entry_check(calls: Seq<CallEntry>) -> spec_fn(
    Seq<BindingEntry>,
    BindingEntry,
) -> Option<DomainErrorView> {
    |before: Seq<BindingEntry>, entry: BindingEntry|
        binding_fault(entry.1).before(
            fault_if(
                entry.0 != entry.1.callback_id,
                invalid("callback binding map key does not match callback_id"@),
            ),
        ).before(
            match lookup(calls, entry.1.tool_call_id) {
                None => Some(DomainErrorView::UnknownAsyncToolCall(entry.1.tool_call_id)),
                Some(record) => fault_if(
                    record.completion_mode != CompletionMode::ExternalCallback,
                    invalid("callback binding requires external-callback tool mode"@),
                ).before(
                    fault_if(
                        entry.1.payload_fingerprint is Some && !terminal(record.status),
                        invalid("callback payload fingerprint requires a terminal tool call"@),
                    ),
                ),
            },
        ).before(
            fault_if(
                is_bound(before, entry.1.tool_call_id),
                invalid("tool call already has a callback binding"@),
            ),
        )
}

/// What is wrong with the callback bindings.
pub open spec fn bindings_fault(state: SessionStateView) -> Option<DomainErrorView> {
    fault_if(
        state.callback_bindings.len() > MAX_ASYNC_TOOL_CALLS,
        DomainErrorView::CollectionTooLarge {
            field: "callback bindings"@,
            items: state.callback_bindings.len() as usize,
            max: MAX_ASYNC_TOOL_CALLS,
        },
    ).before(first_fault(state.callback_bindings, binding_entry_check(state.async_tool_calls)))
}

/// What is wrong with a state; nothing is wrong with a valid one.
pub open spec fn state_fault(state: SessionStateView) -> Option<DomainErrorView> {
    creation_fault(state).before(dedupe_fault(state.dedupe_facts)).before(
        first_fault(state.transcript, history_check()),
    ).before(last_failure_fault(state)).before(queue_fault(state)).before(
        active_wait_fault(state),
    ).before(active_round_fault(state)).before(handoff_fault(state)).before(
        round_purpose_fault(state),
    ).before(calls_fault(state)).before(bindings_fault(state)).before(
        optional_fault(
            state.last_model_attempts_exhausted,
            |fact: ModelAttemptsExhaustedFactView| exhausted_fault(fact),
        ),
    )
}

/// Whether a state is consistent.
pub open spec fn valid_state(state: SessionStateView) -> bool {
    state_fault(state) is None
}

/// The ids of messages and declared calls in a history that was checked.
struct HistoryIndex {
    message_ids: StringHashSet,
    user_message_ids: StringHashSet,
    declared_ids: StringHashSet,
}

impl HistoryIndex {
    spec fn covers(&self, history: Seq<TranscriptMessageView>) -> bool {
        &&& forall|id: Seq<char>| #[trigger]
            self.message_ids@.contains(id) == has_message(history, id)
        &&& forall|id: Seq<char>| #[trigger]
            self.user_message_ids@.contains(id) == has_user_message(history, id)
        &&& forall|id: Seq<char>| #[trigger]
            self.declared_ids@.contains(id) == is_declared(history, id)
    }
}

proof fn lemma_pushed_message(
    before: Seq<TranscriptMessageView>,
    message: TranscriptMessageView,
    id: Seq<char>,
)
    ensures
        has_message(before.push(message), id) == (has_message(before, id) || message.message_id
            == id),
        has_user_message(before.push(message), id) == (has_user_message(before, id) || (
        message.message_id == id && message.role == TranscriptRole::User)),
        is_declared(before.push(message), id) == (is_declared(before, id) || declares(
            message.tool_calls,
            id,
        )),
{
    let after = before.push(message);
    let n = before.len() as int;
    assert(after[n] == message);
    assert forall|i: int| 0 <= i < n implies after[i] == before[i] by {}
    if has_message(before, id) {
        let i = choose|i: int| 0 <= i < n && (#[trigger] before[i]).message_id == id;
        assert(after[i].message_id == id);
    }
    if has_user_message(before, id) {
        let i = choose|i: int|
            0 <= i < n && (#[trigger] before[i]).message_id == id && before[i].role
                == TranscriptRole::User;
        assert(after[i].message_id == id);
    }
    if is_declared(before, id) {
        let i = choose|i: int| 0 <= i < n && declares((#[trigger] before[i]).tool_calls, id);
        assert(declares(after[i].tool_calls, id));
    }
    if is_declared(after, id) {
        let i = choose|i: int| 0 <= i < after.len() && declares(
            (#[trigger] after[i]).tool_calls,
            id,
        );
        if i < n {
            assert(declares(before[i].tool_calls, id));
        }
    }
}

fn index_calls(
    calls: &Vec<ToolCall>,
    declared_ids: &mut StringHashSet,
    history: Ghost<Seq<TranscriptMessageView>>,
) -> (result: Result<(), DomainError>)
    requires
        forall|id: Seq<char>| #[trigger]
            old(declared_ids)@.contains(id) == is_declared(history@, id),
    ensures
        fault_of(result) == first_fault(calls.deep_view(), fresh_call_check(history@)),
        result is Ok ==> forall|id: Seq<char>| #[trigger]
            final(declared_ids)@.contains(id) == (is_declared(history@, id) || declares(
                calls.deep_view(),
                id,
            )),
{
    let ghost view = calls.deep_view();
    let ghost check = fresh_call_check(history@);
    proof {
        lemma_first_fault_whole(view, check);
    }
    let mut index: usize = 0;
    while index < calls.len()
        invariant
            view == calls.deep_view(),
            check == fresh_call_check(history@),
            index <= calls.len(),
            first_fault(view.take(index as int), check) is None,
            forall|id: Seq<char>| #[trigger]
                declared_ids@.contains(id) == (is_declared(history@, id) || declares(
                    view.take(index as int),
                    id,
                )),
        decreases calls.len() - index,
    {
        proof {
            lemma_first_fault_step(view, check, index as int);
            if first_fault(view.take(index + 1), check) is Some {
                lemma_first_fault_prefix(view, check, index + 1);
            }
        }
        let id = calls[index].tool_call_id.clone();
        if !declared_ids.insert(id) {
            return Err(
                DomainError::DuplicateTranscriptToolCallId(calls[index].tool_call_id.clone()),
            );
        }
        proof {
            let before = view.take(index as int);
            let after = view.take(index + 1);
            assert(after =~= before.push(view[index as int]));
            assert forall|id: Seq<char>| declares(after, id) == (declares(before, id)
                || view[index as int].tool_call_id == id) by {
                if declares(before, id) {
                    let i = choose|i: int|
                        0 <= i < before.len() && (#[trigger] before[i]).tool_call_id == id;
                    assert(after[i].tool_call_id == id);
                }
                if view[index as int].tool_call_id == id {
                    assert(after[index as int].tool_call_id == id);
                }
                if declares(after, id) {
                    let i = choose|i: int|
                        0 <= i < after.len() && (#[trigger] after[i]).tool_call_id == id;
                    if i < index {
                        assert(before[i].tool_call_id == id);
                    }
                }
            }
        }
        index += 1;
    }
    proof {
        lemma_first_fault_whole(view, check);
        assert(view.take(index as int) =~= view);
    }
    Ok(())
}

fn index_message(
    message: &TranscriptMessage,
    index: &mut HistoryIndex,
    before: Ghost<Seq<TranscriptMessageView>>,
) -> (result: Result<(), DomainError>)
    requires
        old(index).covers(before@),
    ensures
        fault_of(result) == history_check()(before@, message.deep_view()),
        result is Ok ==> final(index).covers(before@.push(message.deep_view())),
{
    let ghost view = message.deep_view();
    validate_message(message)?;
    if !index.message_ids.insert(message.message_id.clone()) {
        return Err(DomainError::ConflictingTranscriptMessage(message.message_id.clone()));
    }
    if message.role == TranscriptRole::User {
        index.user_message_ids.insert(message.message_id.clone());
    }
    if message.tool_calls.len() > 0 && message.role != TranscriptRole::Assistant {
        return Err(invalid_state("only assistant messages may declare tool calls"));
    }
    index_calls(&message.tool_calls, &mut index.declared_ids, before)?;
    proof {
        assert forall|id: Seq<char>| true implies ({
            &&& #[trigger] index.message_ids@.contains(id) == has_message(before@.push(view), id)
            &&& index.user_message_ids@.contains(id) == has_user_message(before@.push(view), id)
            &&& index.declared_ids@.contains(id) == is_declared(before@.push(view), id)
        }) by {
            lemma_pushed_message(before@, view, id);
        }
        assert forall|id: Seq<char>| #[trigger]
            index.user_message_ids@.contains(id) == has_user_message(before@.push(view), id) by {
            lemma_pushed_message(before@, view, id);
        }
        assert forall|id: Seq<char>| #[trigger]
            index.declared_ids@.contains(id) == is_declared(before@.push(view), id) by {
            lemma_pushed_message(before@, view, id);
        }
    }
    if let Some(tool_call_id) = &message.tool_call_id {
        if message.role != TranscriptRole::Tool {
            return Err(invalid_state("tool_call_id may only be attached to tool messages"));
        }
        if !index.declared_ids.contains(tool_call_id) {
            return Err(DomainError::UnknownToolCall(tool_call_id.clone()));
        }
    }
    Ok(())
}

fn index_history(history: &Vec<TranscriptMessage>) -> (result: Result<HistoryIndex, DomainError>)
    ensures
        fault_of(result) == first_fault(history.deep_view(), history_check()),
        result matches Ok(index) ==> index.covers(history.deep_view()),
{
    let ghost view = history.deep_view();
    let ghost check = history_check();
    let mut ids = HistoryIndex {
        message_ids: StringHashSet::with_capacity(history.len()),
        user_message_ids: StringHashSet::new(),
        declared_ids: StringHashSet::new(),
    };
    proof {
        lemma_first_fault_whole(view, check);
        assert(view.take(0) =~= Seq::empty());
        assert(ids.covers(view.take(0)));
    }
    let mut index: usize = 0;
    while index < history.len()
        invariant
            view == history.deep_view(),
            check == history_check(),
            index <= history.len(),
            first_fault(view.take(index as int), check) is None,
            ids.covers(view.take(index as int)),
        decreases history.len() - index,
    {
        proof {
            lemma_first_fault_step(view, check, index as int);
            if first_fault(view.take(index + 1), check) is Some {
                lemma_first_fault_prefix(view, check, index + 1);
            }
            assert(view.take(index + 1) =~= view.take(index as int).push(view[index as int]));
        }
        index_message(&history[index], &mut ids, Ghost(view.take(index as int)))?;
        index += 1;
    }
    proof {
        lemma_first_fault_whole(view, check);
        assert(view.take(index as int) =~= view);
    }
    Ok(ids)
}

fn validate_queue(queue: &Vec<QueuedDelivery>, ack: u64) -> (result: Result<(), DomainError>)
    requires
        ack < u64::MAX,
    ensures
        fault_of(result) == first_fault(queue.deep_view(), queue_check(ack)),
{
    let ghost view = queue.deep_view();
    let ghost check = queue_check(ack);
    proof {
        lemma_first_fault_whole(view, check);
    }
    let mut expected: u64 = ack + 1;
    let mut index: usize = 0;
    while index < queue.len()
        invariant
            view == queue.deep_view(),
            check == queue_check(ack),
            index <= queue.len(),
            expected == ack + 1 + index,
            first_fault(view.take(index as int), check) is None,
        decreases queue.len() - index,
    {
        proof {
            lemma_first_fault_step(view, check, index as int);
            if first_fault(view.take(index + 1), check) is Some {
                lemma_first_fault_prefix(view, check, index + 1);
            }
        }
        let delivery = &queue[index];
        validate_delivery(delivery, true)?;
        if delivery.queue_id != expected {
            return Err(
                DomainError::DeliveryQueueOrder { expected, actual: delivery.queue_id },
            );
        }
        if expected == u64::MAX {
            return Err(DomainError::VersionOverflow);
        }
        expected += 1;
        index += 1;
    }
    proof {
        lemma_first_fault_whole(view, check);
    }
    Ok(())
}

fn validate_call_entries(
    calls: &TextMap<AsyncToolCallRecord>,
    history: &Vec<TranscriptMessage>,
) -> (result: Result<(), DomainError>)
    ensures
        fault_of(result) == first_fault(calls.deep_view(), call_entry_check(history.deep_view())),
{
    let ghost view = calls.deep_view();
    let ghost check = call_entry_check(history.deep_view());
    proof {
        lemma_first_fault_whole(view, check);
    }
    let mut index: usize = 0;
    while index < calls.len()
        invariant
            view == calls.deep_view(),
            check == call_entry_check(history.deep_view()),
            index <= view.len(),
            first_fault(view.take(index as int), check) is None,
        decreases view.len() - index,
    {
        proof {
            lemma_first_fault_step(view, check, index as int);
            if first_fault(view.take(index + 1), check) is Some {
                lemma_first_fault_prefix(view, check, index + 1);
            }
        }
        let tool_call_id = calls.key_at(index);
        let record = calls.value_at(index);
        validate_async_record(record)?;
        if !same_text(tool_call_id, &record.tool_call_id) {
            return Err(invalid_state("async tool call map key does not match tool_call_id"));
        }
        match find_declared_call(history, tool_call_id) {
            None => {
                return Err(DomainError::UnknownToolCall(tool_call_id.clone()));
            },
            Some(declared) => {
                if !declared.tool_name.same(&record.tool_name) || !declared.input.agrees(
                    &record.input,
                ) {
                    return Err(DomainError::ConflictingToolCallIdentity(tool_call_id.clone()));
                }
            },
        }
        index += 1;
    }
    proof {
        lemma_first_fault_whole(view, check);
        assert(view.take(index as int) =~= view);
    }
    Ok(())
}

proof fn lemma_pushed_binding(before: Seq<BindingEntry>, entry: BindingEntry, id: Seq<char>)
    ensures
        is_bound(before.push(entry), id) == (is_bound(before, id) || entry.1.tool_call_id == id),
{
    let after = before.push(entry);
    assert(after[before.len() as int] == entry);
    if is_bound(before, id) {
        let i = choose|i: int|
            0 <= i < before.len() && (#[trigger] before[i]).1.tool_call_id == id;
        assert(after[i].1.tool_call_id == id);
    }
    if is_bound(after, id) {
        let i = choose|i: int| 0 <= i < after.len() && (#[trigger] after[i]).1.tool_call_id == id;
        if i < before.len() {
            assert(before[i].1.tool_call_id == id);
        }
    }
}

fn validate_binding_entries(
    bindings: &TextMap<AsyncCallbackBinding>,
    calls: &TextMap<AsyncToolCallRecord>,
) -> (result: Result<(), DomainError>)
    ensures
        fault_of(result) == first_fault(
            bindings.deep_view(),
            binding_entry_check(calls.deep_view()),
        ),
{
    let ghost view = bindings.deep_view();
    let ghost check = binding_entry_check(calls.deep_view());
    let mut bound_ids = StringHashSet::with_capacity(bindings.len());
    proof {
        lemma_first_fault_whole(view, check);
    }
    let mut index: usize = 0;
    while index < bindings.len()
        invariant
            view == bindings.deep_view(),
            check == binding_entry_check(calls.deep_view()),
            index <= view.len(),
            first_fault(view.take(index as int), check) is None,
            forall|id: Seq<char>| #[trigger]
                bound_ids@.contains(id) == is_bound(view.take(index as int), id),
        decreases view.len() - index,
    {
        proof {
            lemma_first_fault_step(view, check, index as int);
            if first_fault(view.take(index + 1), check) is Some {
                lemma_first_fault_prefix(view, check, index + 1);
            }
        }
        let callback_id = bindings.key_at(index);
        let binding = bindings.value_at(index);
        validate_callback_binding(binding)?;
        if !same_text(callback_id, &binding.callback_id) {
            return Err(invalid_state("callback binding map key does not match callback_id"));
        }
        match calls.get(&binding.tool_call_id) {
            None => {
                return Err(DomainError::UnknownAsyncToolCall(binding.tool_call_id.clone()));
            },
            Some(record) => {
                if record.completion_mode != CompletionMode::ExternalCallback {
                    return Err(
                        invalid_state("callback binding requires external-callback tool mode"),
                    );
                }
                if binding.payload_fingerprint.is_some() && !record.status.is_terminal() {
                    return Err(
                        invalid_state("callback payload fingerprint requires a terminal tool call"),
                    );
                }
            },
        }
        if !bound_ids.insert(binding.tool_call_id.clone()) {
            return Err(invalid_state("tool call already has a callback binding"));
        }
        proof {
            let before = view.take(index as int);
            assert(view.take(index + 1) =~= before.push(view[index as int]));
            assert forall|id: Seq<char>| #[trigger]
                bound_ids@.contains(id) == is_bound(view.take(index + 1), id) by {
                lemma_pushed_binding(before, view[index as int], id);
            }
        }
        index += 1;
    }
    proof {
        lemma_first_fault_whole(view, check);
        assert(view.take(index as int) =~= view);
    }
    Ok(())
}

/// The generation that a plan must lead to, after the latest handoff.
pub(crate) fn next_generation(latest: &Option<ContextHandoffDocument>) -> (generation: u64)
    ensures
        forall|state: SessionStateView|
            state.latest_context_handoff == latest.deep_view() ==> generation
                == #[trigger] expected_generation(state),
{
    match latest {
        Some(handoff) => handoff.next_generation.saturating_add(1),
        None => 2,
    }
}

/// Whether a plan follows on the latest handoff.
pub(crate) fn follows_latest(
    previous: &Option<String>,
    latest: &Option<ContextHandoffDocument>,
) -> (follows: bool)
    ensures
        forall|state: SessionStateView|
            state.latest_context_handoff == latest.deep_view() ==> follows == (
            previous.deep_view() == #[trigger] latest_handoff_id(state)),
{
    match latest {
        Some(handoff) => holds_text(previous, &handoff.handoff_id),
        None => previous.is_none(),
    }
}

/// Whether the model of an activation is the given one.
pub(crate) fn uses_model(
    activation: &ActiveActivation,
    model: &SessionModelSelection,
) -> (uses: bool)
    ensures
        uses == chosen_model_agrees(activation.deep_view().selection.model, model.deep_view()),
{
    match &activation.selection.model {
        Some(chosen) => chosen.agrees(model),
        None => false,
    }
}

/// Whether the attempt of a round is completed.
pub(crate) fn is_completed(round: &ActiveModelRound) -> (completed: bool)
    ensures
        completed == round_completed(round.deep_view()),
{
    match &round.attempt {
        Some(attempt) => attempt.outcome == ModelAttemptOutcome::Completed,
        None => false,
    }
}

impl SessionState {
    /// A session to which nothing has happened.
    pub fn new(session_id: String) -> (state: Self)
        ensures
            state.deep_view() == fresh_state(session_id@),
    {
        let state = SessionState {
            session_id,
            owner: None,
            created_at_ms: None,
            selection: SessionSelection::default(),
            selection_version: 0,
            status: SessionStatus::Idle,
            transcript: Vec::new(),
            last_model_attempt_failure: None,
            delivery_queue: Vec::new(),
            delivery_ack: 0,
            active_wait: None,
            active_timer: None,
            wake_pending_wait_id: None,
            async_tool_calls: TextMap::new(),
            active_activation: None,
            active_model_round: None,
            pending_context_handoff: None,
            latest_context_handoff: None,
            latest_model_usage: None,
            last_context_handoff_failure: None,
            callback_bindings: TextMap::new(),
            last_model_attempts_exhausted: None,
            stream_version: 0,
            dedupe_facts: DedupeFacts::default(),
        };
        assert(state.deep_view().transcript =~= Seq::empty());
        assert(state.deep_view().delivery_queue =~= Seq::empty());
        state
    }

    fn validate_creation(&self) -> (result: Result<(), DomainError>)
        ensures
            fault_of(result) == creation_fault(self.deep_view()),
    {
        require_text("session_id", &self.session_id)?;
        validate_text("session_id", &self.session_id)?;
        if self.stream_version == 0 {
            if self.owner.is_some() || self.created_at_ms.is_some() {
                return Err(invalid_state("uncreated session contains creation facts"));
            }
            if !self.selection.is_empty() {
                return Err(invalid_state("uncreated session contains an initial selection"));
            }
            if self.selection_version != 0 {
                return Err(invalid_state("uncreated session has a selection version"));
            }
            return Ok(());
        }
        match (&self.owner, self.created_at_ms) {
            (Some(owner), Some(created_at_ms)) => {
                owner.validate()?;
                if created_at_ms < 0 {
                    return Err(DomainError::InvalidCreatedAt);
                }
                self.selection.validate()?;
                if self.selection_version == 0 {
                    return Err(
                        invalid_state("created session selection version must be positive"),
                    );
                }
                Ok(())
            },
            _ => Err(DomainError::SessionNotCreated),
        }
    }

    fn validate_last_failure(&self, index: &HistoryIndex) -> (result: Result<(), DomainError>)
        requires
            index.covers(self.deep_view().transcript),
        ensures
            fault_of(result) == last_failure_fault(self.deep_view()),
    {
        if let Some(failure) = &self.last_model_attempt_failure {
            validate_model_attempt_failure(failure)?;
            if !index.user_message_ids.contains(&failure.trigger_message_id) {
                return Err(invalid_state("model attempt failure has no causal user message"));
            }
        }
        Ok(())
    }

    fn validate_delivery_queue(&self) -> (result: Result<(), DomainError>)
        ensures
            fault_of(result) == queue_fault(self.deep_view()),
    {
        if self.delivery_ack == u64::MAX {
            return Err(DomainError::VersionOverflow);
        }
        validate_queue(&self.delivery_queue, self.delivery_ack)?;
        if self.delivery_queue.len() > MAX_DELIVERY_QUEUE_ITEMS {
            return Err(
                DomainError::CollectionTooLarge {
                    field: "delivery queue",
                    items: self.delivery_queue.len(),
                    max: MAX_DELIVERY_QUEUE_ITEMS,
                },
            );
        }
        Ok(())
    }

    fn validate_active_wait(&self) -> (result: Result<(), DomainError>)
        ensures
            fault_of(result) == active_wait_fault(self.deep_view()),
    {
        match &self.active_wait {
            Some(wait) => {
                validate_wait(wait)?;
                if let Some(pending_wait_id) = &self.wake_pending_wait_id {
                    if !same_text(pending_wait_id, &wait.wait_id) {
                        return Err(
                            invalid_state("pending wake belongs to a different active wait"),
                        );
                    }
                }
            },
            None => {
                if self.wake_pending_wait_id.is_some() {
                    return Err(invalid_state("pending wake requires an active wait"));
                }
            },
        }
        if let Some(timer) = &self.active_timer {
            match &self.active_wait {
                Some(wait) => {
                    if !same_text(&wait.wait_id, &timer.wait_id) {
                        return Err(invalid_state("wait timer must belong to the active wait"));
                    }
                    if wait.deadline_ms != timer.deadline_ms {
                        return Err(
                            invalid_state("wait timer deadline does not match active wait"),
                        );
                    }
                },
                None => {
                    return Err(invalid_state("wait timer must belong to the active wait"));
                },
            }
        }
        Ok(())
    }

    fn validate_active_round(&self) -> (result: Result<(), DomainError>)
        ensures
            fault_of(result) == active_round_fault(self.deep_view()),
    {
        if let Some(activation) = &self.active_activation {
            validate_active_activation(activation)?;
        }
        if let Some(round) = &self.active_model_round {
            validate_active_model_round(round)?;
            match &self.active_activation {
                None => {
                    return Err(
                        invalid_state("active model round requires an active activation"),
                    );
                },
                Some(activation) => {
                    if !same_text(&round.activation_id, &activation.activation_id) {
                        return Err(
                            invalid_state("active model round belongs to another activation"),
                        );
                    }
                },
            }
        }
        Ok(())
    }

    fn validate_pending_handoff(
        &self,
        plan: &ContextHandoffPlan,
        index: &HistoryIndex,
    ) -> (result: Result<(), DomainError>)
        requires
            index.covers(self.deep_view().transcript),
        ensures
            fault_of(result) == pending_handoff_fault(self.deep_view(), plan.deep_view()),
    {
        validate_context_handoff_plan(plan)?;
        match &self.active_activation {
            None => {
                return Err(
                    invalid_state("pending context handoff requires an active activation"),
                );
            },
            Some(activation) => {
                if !same_text(&plan.activation_id, &activation.activation_id) || !uses_model(
                    activation,
                    &plan.selection,
                ) {
                    return Err(
                        invalid_state("pending context handoff belongs to another activation"),
                    );
                }
            },
        }
        let ghost view = self.deep_view();
        if !follows_latest(&plan.previous_handoff_id, &self.latest_context_handoff) {
            assert(latest_handoff_id(view) != plan.deep_view().previous_handoff_id);
            return Err(invalid_state("pending context handoff has a stale parent"));
        }
        assert(latest_handoff_id(view) == plan.deep_view().previous_handoff_id);
        let expected: u64 = next_generation(&self.latest_context_handoff);
        assert(expected == expected_generation(view));
        if plan.next_generation != expected {
            return Err(invalid_state("pending context handoff has an invalid generation"));
        }
        if !index.message_ids.contains(&plan.covered_through_message_id) {
            return Err(invalid_state("pending context handoff boundary is absent from history"));
        }
        Ok(())
    }

    fn validate_handoffs(&self, index: &HistoryIndex) -> (result: Result<(), DomainError>)
        requires
            index.covers(self.deep_view().transcript),
        ensures
            fault_of(result) == handoff_fault(self.deep_view()),
    {
        if let Some(plan) = &self.pending_context_handoff {
            self.validate_pending_handoff(plan, index)?;
        }
        if let Some(handoff) = &self.latest_context_handoff {
            validate_context_handoff_document(handoff)?;
            if !index.message_ids.contains(&handoff.covered_through_message_id) {
                return Err(invalid_state("context handoff boundary is absent from history"));
            }
        }
        if let Some(usage) = &self.latest_model_usage {
            validate_model_usage_anchor(usage)?;
        }
        if let Some(error) = &self.last_context_handoff_failure {
            validate_model_error(error)?;
        }
        Ok(())
    }

    fn validate_round_purpose(&self) -> (result: Result<(), DomainError>)
        ensures
            fault_of(result) == round_purpose_fault(self.deep_view()),
    {
        if let Some(round) = &self.active_model_round {
            let completed = is_completed(round);
            match round.purpose {
                ModelRequestPurpose::Conversation => {
                    if self.pending_context_handoff.is_some() && !completed {
                        return Err(
                            invalid_state("pending context handoff requires a handoff round"),
                        );
                    }
                },
                ModelRequestPurpose::ContextHandoff => {
                    if self.pending_context_handoff.is_none() && !completed
                        && self.last_context_handoff_failure.is_none() {
                        return Err(
                            invalid_state("active context handoff round has no durable plan"),
                        );
                    }
                },
            }
        }
        Ok(())
    }

    fn validate_calls(&self) -> (result: Result<(), DomainError>)
        ensures
            fault_of(result) == calls_fault(self.deep_view()),
    {
        if self.async_tool_calls.len() > MAX_ASYNC_TOOL_CALLS {
            return Err(
                DomainError::CollectionTooLarge {
                    field: "async tool calls",
                    items: self.async_tool_calls.len(),
                    max: MAX_ASYNC_TOOL_CALLS,
                },
            );
        }
        validate_call_entries(&self.async_tool_calls, &self.transcript)
    }

    fn validate_bindings(&self) -> (result: Result<(), DomainError>)
        ensures
            fault_of(result) == bindings_fault(self.deep_view()),
    {
        if self.callback_bindings.len() > MAX_ASYNC_TOOL_CALLS {
            return Err(
                DomainError::CollectionTooLarge {
                    field: "callback bindings",
                    items: self.callback_bindings.len(),
                    max: MAX_ASYNC_TOOL_CALLS,
                },
            );
        }
        validate_binding_entries(&self.callback_bindings, &self.async_tool_calls)
    }

    /// Checks everything that must hold of a state, and gives the first fault.
    pub fn validate(&self) -> (result: Result<(), DomainError>)
        ensures
            fault_of(result) == state_fault(self.deep_view()),
    {
        self.validate_creation()?;
        self.dedupe_facts.validate()?;
        let index = index_history(&self.transcript)?;
        self.validate_last_failure(&index)?;
        self.validate_delivery_queue()?;
        self.validate_active_wait()?;
        self.validate_active_round()?;
        self.validate_handoffs(&index)?;
        self.validate_round_purpose()?;
        self.validate_calls()?;
        self.validate_bindings()?;
        if let Some(fact) = &self.last_model_attempts_exhausted {
            validate_model_attempts_exhausted(fact)?;
        }
        Ok(())
    }

    /// The final failure of the model on the last message, where that is a user's.
    pub fn terminal_model_failure_for_last_user(&self) -> (failure: Option<&ModelAttemptFailure>)
        ensures
            failure.deep_view() == match self.deep_view().last_model_attempt_failure {
                Some(last) => if self.deep_view().transcript.len() > 0
                    && self.deep_view().transcript.last().role == TranscriptRole::User
                    && self.deep_view().transcript.last().message_id == last.trigger_message_id {
                    Some(last)
                } else {
                    None
                },
                None => None,
            },
    {
        if self.transcript.len() == 0 {
            return None;
        }
        let message = &self.transcript[self.transcript.len() - 1];
        match &self.last_model_attempt_failure {
            Some(failure) => if message.role == TranscriptRole::User && same_text(
                &message.message_id,
                &failure.trigger_message_id,
            ) {
                Some(failure)
            } else {
                None
            },
            None => None,
        }
    }
}

} // verus!
