//! What holds of every session, whatever events it takes in.

use super::delivery::{
    acknowledge_step, append_step, holds_message, materialize_step, queue_step, queued_as,
    unmaterialized_before,
};
use super::handoff::{document_step, handoff_failed_step, plan_step};
use super::model::{
    abandoned_step, activation_finished_step, activation_started_step, attempt_ended_step,
    attempt_started_step, completed_step, current_attempt, exhausted_step, model_failed_step,
    request_declared_step, retry_step, round_started_step,
};
use super::step::{kept, left_by, Step};
use super::tools::{
    call_ended_step, call_running_step, call_started_step, callback_ended_step,
    callback_planned_step, outcome_unknown_step, ended_record, progress_step, restarted_step,
    CallEndView,
};
use super::waits::{timer_step, wait_ended_step, wait_set_step};
use super::{
    admitted_step, applied, applied_all, created_step, dedupe_step, effective, event_key, if_valid,
    event_id_fault, payload_step, record_applied, recorded, reduced, replayed, reselected_step,
    with_event_id,
};
use crate::checks::{first_index, lemma_first_index_is, lemma_first_index_sound, lemma_no_fault_at};
use crate::domain::dedupe::{newest_keys, remembered, without_key, DedupeFactsView};
use crate::domain::error::DomainErrorView;
use crate::domain::event::{EventRecordView, SessionEventView};
use crate::domain::history::named;
use crate::domain::rules::identifier_fault;
use crate::domain::model::{
    plan_agrees_reflexive, ActiveActivationView, ContextHandoffDocumentView, ContextHandoffPlanView,
    ModelAttemptErrorView, ModelAttemptFailureView, ModelAttemptOutcome, ModelAttemptRecordView,
    ModelAttemptsExhaustedFactView, ModelRequestFactView, ModelRequestPurpose,
    ModelRetryScheduleView, ModelUsageAnchorView,
};
use crate::domain::payload::{payload_agrees_reflexive, DurablePayloadView};
use crate::domain::selection::{SessionOwnerView, SessionSelectionView};
use crate::domain::state::{
    expected_generation, latest_handoff_id, queue_check, valid_state, SessionStateView,
};
use crate::domain::tools::{
    record_agrees_reflexive, terminal, AsyncCallbackBindingView, AsyncToolCallRecordView,
    AsyncToolStatus, ToolErrorView,
};
use crate::domain::transcript::{
    delivery_agrees_reflexive, message_agrees, message_agrees_reflexive, QueuedDeliveryView,
    TranscriptMessageView,
};
use crate::domain::waits::{ActiveWaitView, WaitTimerIntentView};
use crate::domain::{EVENT_SCHEMA_VERSION, MAX_RECENT_DEDUPE_FACTS};
use crate::text_map::{lookup, stored_then_found};
use vstd::prelude::*;
use vstd::string::*;

verus! {

/// An event is applied to a valid state only, and leads to a valid state only.
pub proof fn application_keeps_validity(state: SessionStateView, event: SessionEventView)
    ensures
        applied(state, event) matches Ok(next) ==> valid_state(state) && valid_state(next),
        !valid_state(state) ==> applied(state, event) is Err,
{
}

/// The creation is the first event of a stream and never comes again.
pub proof fn creation_comes_first_and_once(state: SessionStateView, event: SessionEventView)
    ensures
        reduced(state, event) is Ok ==> (state.stream_version == 0 <==> event is SessionCreated),
{
}

/// The keys without duplicates.
pub open spec fn distinct_keys(state: SessionStateView) -> bool {
    state.dedupe_facts.recent_keys.no_duplicates()
}

proof fn lemma_without_key(keys: Seq<Seq<char>>, key: Seq<char>)
    ensures
        without_key(keys, key).len() <= keys.len(),
        forall|other: Seq<char>| #[trigger]
            without_key(keys, key).contains(other) ==> keys.contains(other),
        forall|other: Seq<char>|
            other != key && keys.contains(other) ==> #[trigger] without_key(keys, key).contains(
                other,
            ),
        keys.no_duplicates() ==> without_key(keys, key).no_duplicates() && !without_key(
            keys,
            key,
        ).contains(key),
    decreases keys.len(),
{
    if keys.len() > 0 {
        let rest = keys.drop_first();
        let kept_keys = without_key(keys, key);
        assert(forall|i: int| 0 <= i < rest.len() ==> rest[i] == keys[i + 1]);
        assert forall|other: Seq<char>| keys.contains(other) implies other == keys[0]
            || rest.contains(other) by {
            let i = choose|i: int| 0 <= i < keys.len() && keys[i] == other;
            if i > 0 {
                assert(rest[i - 1] == other);
            }
        }
        if keys[0] == key {
            if keys.no_duplicates() && rest.contains(key) {
                let i = choose|i: int| 0 <= i < rest.len() && rest[i] == key;
                assert(keys[i + 1] == keys[0]);
            }
        } else {
            lemma_without_key(rest, key);
            let tail = without_key(rest, key);
            assert(kept_keys =~= seq![keys[0]] + tail);
            assert forall|other: Seq<char>| #[trigger] kept_keys.contains(other) implies (other
                == keys[0] || tail.contains(other)) && keys.contains(other) by {
                let i = choose|i: int| 0 <= i < kept_keys.len() && kept_keys[i] == other;
                if i > 0 {
                    assert(tail[i - 1] == other);
                    assert(tail.contains(other));
                    let j = choose|j: int| 0 <= j < rest.len() && rest[j] == other;
                    assert(keys[j + 1] == other);
                } else {
                    assert(keys[0] == other);
                }
            }
            assert forall|other: Seq<char>| other != key && keys.contains(
                other,
            ) implies #[trigger] kept_keys.contains(other) by {
                if other == keys[0] {
                    assert(kept_keys[0] == other);
                } else {
                    assert(tail.contains(other));
                    let j = choose|j: int| 0 <= j < tail.len() && tail[j] == other;
                    assert(kept_keys[j + 1] == other);
                }
            }
            if keys.no_duplicates() {
                assert(rest.no_duplicates());
                assert(!rest.contains(keys[0])) by {
                    if rest.contains(keys[0]) {
                        let i = choose|i: int| 0 <= i < rest.len() && rest[i] == keys[0];
                        assert(keys[i + 1] == keys[0]);
                    }
                }
                assert(!tail.contains(keys[0]));
            }
        }
    }
}

/// The window of keys stays in its bound. The key that was seen last is its newest, and nothing
/// comes in but that key.
pub proof fn newest_key_is_remembered(facts: DedupeFactsView, key: Seq<char>)
    ensures
        remembered(facts, key).recent_keys.len() <= MAX_RECENT_DEDUPE_FACTS,
        remembered(facts, key).recent_keys.len() > 0,
        remembered(facts, key).recent_keys.last() == key,
        forall|other: Seq<char>| #[trigger]
            remembered(facts, key).recent_keys.contains(other) ==> other == key
                || facts.recent_keys.contains(other),
{
    lemma_without_key(facts.recent_keys, key);
    let pushed = without_key(facts.recent_keys, key).push(key);
    let window = newest_keys(pushed);
    assert forall|other: Seq<char>| #[trigger] window.contains(other) implies other == key
        || facts.recent_keys.contains(other) by {
        let i = choose|i: int| 0 <= i < window.len() && window[i] == other;
        let skipped = pushed.len() - window.len();
        assert(pushed[i + skipped] == other);
        if i + skipped < pushed.len() - 1 {
            assert(without_key(facts.recent_keys, key)[i + skipped] == other);
            assert(without_key(facts.recent_keys, key).contains(other));
        }
    }
}

/// Where the window has room, no key leaves it.
pub proof fn keys_stay_while_there_is_room(facts: DedupeFactsView, key: Seq<char>, other: Seq<char>)
    requires
        facts.recent_keys.len() < MAX_RECENT_DEDUPE_FACTS,
        facts.recent_keys.contains(other),
    ensures
        remembered(facts, key).recent_keys.contains(other),
{
    lemma_without_key(facts.recent_keys, key);
    let rest = without_key(facts.recent_keys, key);
    let pushed = rest.push(key);
    if other == key {
        assert(pushed[rest.len() as int] == other);
    } else {
        assert(rest.contains(other));
        let i = choose|i: int| 0 <= i < rest.len() && rest[i] == other;
        assert(pushed[i] == other);
    }
}

proof fn lemma_remembered_distinct(facts: DedupeFactsView, key: Seq<char>)
    requires
        facts.recent_keys.no_duplicates(),
    ensures
        remembered(facts, key).recent_keys.no_duplicates(),
{
    lemma_without_key(facts.recent_keys, key);
    let rest = without_key(facts.recent_keys, key);
    let pushed = rest.push(key);
    assert(pushed.no_duplicates()) by {
        assert forall|i: int, j: int| 0 <= i < pushed.len() && 0 <= j < pushed.len() && i
            != j implies pushed[i] != pushed[j] by {
            if i == rest.len() {
                assert(rest.contains(pushed[j]));
            }
            if j == rest.len() {
                assert(rest.contains(pushed[i]));
            }
        }
    }
}

/// Whether an activation is the same one, on the same terms.
pub open spec fn same_activation(left: ActiveActivationView, right: ActiveActivationView) -> bool {
    &&& left.activation_id == right.activation_id
    &&& left.selection == right.selection
    &&& left.selection_version == right.selection_version
    &&& left.minimum_auth_revision == right.minimum_auth_revision
    &&& left.started_at_ms == right.started_at_ms
}

/// What every step keeps.
spec fn frame(step: Step, state: SessionStateView) -> bool {
    step matches Ok((next, took_effect)) ==> {
        &&& next.session_id == state.session_id
        &&& next.stream_version == state.stream_version
        &&& state.transcript.is_prefix_of(next.transcript)
        &&& next.transcript.len() <= state.transcript.len() + 1
        &&& next.delivery_ack >= state.delivery_ack
        &&& distinct_keys(state) ==> distinct_keys(next)
        &&& !took_effect && distinct_keys(state) && state.dedupe_facts.recent_keys.len()
            <= MAX_RECENT_DEDUPE_FACTS ==> next == state
        &&& next.dedupe_facts.recent_keys.len() <= MAX_RECENT_DEDUPE_FACTS || next.dedupe_facts
            == state.dedupe_facts
        &&& match (state.active_activation, next.active_activation) {
            (Some(activation), Some(next_activation)) => same_activation(
                activation,
                next_activation,
            ),
            _ => true,
        }
        &&& match (state.active_model_round, next.active_model_round) {
            (Some(round), Some(next_round)) => {
                ||| !(round.attempt matches Some(attempt) && attempt.outcome
                    != ModelAttemptOutcome::Running)
                ||| next_round.attempt is None
                ||| next_round.attempt == round.attempt
            },
            _ => true,
        }
    }
}

/// What every step but the creation keeps.
spec fn identity_frame(step: Step, state: SessionStateView) -> bool {
    step matches Ok((next, _)) ==> {
        &&& next.owner == state.owner
        &&& next.created_at_ms == state.created_at_ms
        &&& next.selection_version >= state.selection_version
    }
}

/// What every step keeps of the tool call and of the callback with an id.
spec fn call_frame(step: Step, state: SessionStateView, call: Seq<char>) -> bool {
    step matches Ok((next, _)) ==> {
        &&& lookup(state.async_tool_calls, call) matches Some(record) ==> {
            &&& lookup(next.async_tool_calls, call) is Some
            &&& terminal(record.status) ==> lookup(next.async_tool_calls, call) == Some(record)
        }
        &&& lookup(state.callback_bindings, call) matches Some(binding) ==> {
            lookup(next.callback_bindings, call) matches Some(after) && after
                == (AsyncCallbackBindingView {
                payload_fingerprint: after.payload_fingerprint,
                ..binding
            }) && (binding.payload_fingerprint is Some ==> after == binding)
        }
    }
}

/// What every step but a new handoff document keeps.
spec fn handoff_frame(step: Step, state: SessionStateView) -> bool {
    step matches Ok((next, _)) ==> next.latest_context_handoff == state.latest_context_handoff
}

proof fn lemma_newest_again(keys: Seq<Seq<char>>)
    requires
        keys.len() > 0,
        keys.no_duplicates(),
    ensures
        without_key(keys, keys.last()).push(keys.last()) == keys,
    decreases keys.len(),
{
    let key = keys.last();
    if keys.len() == 1 {
        assert(without_key(keys, key).push(key) =~= keys);
    } else {
        assert(keys[0] != key);
        let rest = keys.drop_first();
        assert(rest.last() == key);
        lemma_newest_again(rest);
        assert((seq![keys[0]] + without_key(rest, key)).push(key) =~= seq![keys[0]]
            + without_key(rest, key).push(key));
        assert(seq![keys[0]] + rest =~= keys);
    }
}

proof fn frame_created_step(
    state: SessionStateView,
    session_id: Seq<char>,
    owner: SessionOwnerView,
    created_at_ms: i64,
    selection: SessionSelectionView,
    call: Seq<char>,
)
    ensures
        frame(created_step(state, session_id, owner, created_at_ms, selection), state),
        call_frame(created_step(state, session_id, owner, created_at_ms, selection), state, call),
        handoff_frame(created_step(state, session_id, owner, created_at_ms, selection), state),
{
    reveal(created_step);
}

proof fn frame_reselected_step(
    state: SessionStateView,
    selection: SessionSelectionView,
    call: Seq<char>,
)
    ensures
        frame(reselected_step(state, selection), state),
        identity_frame(reselected_step(state, selection), state),
        call_frame(reselected_step(state, selection), state, call),
        handoff_frame(reselected_step(state, selection), state),
{
    reveal(reselected_step);
}

proof fn frame_queue_step(
    state: SessionStateView,
    delivery: QueuedDeliveryView,
    call: Seq<char>,
)
    ensures
        frame(queue_step(state, delivery), state),
        identity_frame(queue_step(state, delivery), state),
        call_frame(queue_step(state, delivery), state, call),
        handoff_frame(queue_step(state, delivery), state),
{
    reveal(queue_step);
    let delivery_key = "delivery:"@ + delivery.delivery_id;
    let facts = remembered(state.dedupe_facts, delivery_key);
    newest_key_is_remembered(state.dedupe_facts, delivery_key);
    newest_key_is_remembered(facts, delivery.dedupe_key);
    if distinct_keys(state) {
        lemma_remembered_distinct(state.dedupe_facts, delivery_key);
        lemma_remembered_distinct(facts, delivery.dedupe_key);
    }
}

proof fn frame_acknowledge_step(
    state: SessionStateView,
    through: u64,
    call: Seq<char>,
)
    ensures
        frame(acknowledge_step(state, through), state),
        identity_frame(acknowledge_step(state, through), state),
        call_frame(acknowledge_step(state, through), state, call),
        handoff_frame(acknowledge_step(state, through), state),
{
    reveal(acknowledge_step);
}

proof fn frame_materialize_step(
    state: SessionStateView,
    queue_id: u64,
    message: TranscriptMessageView,
    call: Seq<char>,
)
    ensures
        frame(materialize_step(state, queue_id, message), state),
        identity_frame(materialize_step(state, queue_id, message), state),
        call_frame(materialize_step(state, queue_id, message), state, call),
        handoff_frame(materialize_step(state, queue_id, message), state),
{
    reveal(materialize_step);
    let message_key = "message:"@ + message.message_id;
    newest_key_is_remembered(state.dedupe_facts, message_key);
    if distinct_keys(state) {
        lemma_remembered_distinct(state.dedupe_facts, message_key);
    }
}

proof fn frame_append_step(
    state: SessionStateView,
    message: TranscriptMessageView,
    wake_wait: bool,
    call: Seq<char>,
)
    ensures
        frame(append_step(state, message, wake_wait), state),
        identity_frame(append_step(state, message, wake_wait), state),
        call_frame(append_step(state, message, wake_wait), state, call),
        handoff_frame(append_step(state, message, wake_wait), state),
{
    reveal(append_step);
    let message_key = "message:"@ + message.message_id;
    newest_key_is_remembered(state.dedupe_facts, message_key);
    if distinct_keys(state) {
        lemma_remembered_distinct(state.dedupe_facts, message_key);
    }
    if let Some(key) = message.dedupe_key {
        let facts = remembered(state.dedupe_facts, message_key);
        newest_key_is_remembered(facts, key);
        if distinct_keys(state) {
            lemma_remembered_distinct(facts, key);
        }
    }
}

proof fn frame_activation_started_step(
    state: SessionStateView,
    activation_id: Seq<char>,
    selection: SessionSelectionView,
    selection_version: u64,
    minimum_auth_revision: u64,
    started_at_ms: i64,
    call: Seq<char>,
)
    ensures
        frame(
            activation_started_step(
                state,
                activation_id,
                selection,
                selection_version,
                minimum_auth_revision,
                started_at_ms,
            ),
            state,
        ),
        identity_frame(
            activation_started_step(
                state,
                activation_id,
                selection,
                selection_version,
                minimum_auth_revision,
                started_at_ms,
            ),
            state,
        ),
        call_frame(
            activation_started_step(
                state,
                activation_id,
                selection,
                selection_version,
                minimum_auth_revision,
                started_at_ms,
            ),
            state,
            call,
        ),
        handoff_frame(
            activation_started_step(
                state,
                activation_id,
                selection,
                selection_version,
                minimum_auth_revision,
                started_at_ms,
            ),
            state,
        ),
{
    reveal(activation_started_step);
}

proof fn frame_round_started_step(
    state: SessionStateView,
    activation_id: Seq<char>,
    round_id: Seq<char>,
    purpose: ModelRequestPurpose,
    delivery_through_queue_id: u64,
    started_at_ms: i64,
    call: Seq<char>,
)
    ensures
        frame(
            round_started_step(
                state,
                activation_id,
                round_id,
                purpose,
                delivery_through_queue_id,
                started_at_ms,
            ),
            state,
        ),
        identity_frame(
            round_started_step(
                state,
                activation_id,
                round_id,
                purpose,
                delivery_through_queue_id,
                started_at_ms,
            ),
            state,
        ),
        call_frame(
            round_started_step(
                state,
                activation_id,
                round_id,
                purpose,
                delivery_through_queue_id,
                started_at_ms,
            ),
            state,
            call,
        ),
        handoff_frame(
            round_started_step(
                state,
                activation_id,
                round_id,
                purpose,
                delivery_through_queue_id,
                started_at_ms,
            ),
            state,
        ),
{
    reveal(round_started_step);
}

proof fn frame_plan_step(
    state: SessionStateView,
    plan: ContextHandoffPlanView,
    call: Seq<char>,
)
    ensures
        frame(plan_step(state, plan), state),
        identity_frame(plan_step(state, plan), state),
        call_frame(plan_step(state, plan), state, call),
        handoff_frame(plan_step(state, plan), state),
{
    reveal(plan_step);
}

proof fn frame_document_step(
    state: SessionStateView,
    handoff: ContextHandoffDocumentView,
    call: Seq<char>,
)
    ensures
        frame(document_step(state, handoff), state),
        identity_frame(document_step(state, handoff), state),
        call_frame(document_step(state, handoff), state, call),
{
    reveal(document_step);
}

proof fn frame_handoff_failed_step(
    state: SessionStateView,
    plan_id: Seq<char>,
    error: ModelAttemptErrorView,
    call: Seq<char>,
)
    ensures
        frame(handoff_failed_step(state, plan_id, error), state),
        identity_frame(handoff_failed_step(state, plan_id, error), state),
        call_frame(handoff_failed_step(state, plan_id, error), state, call),
        handoff_frame(handoff_failed_step(state, plan_id, error), state),
{
    reveal(handoff_failed_step);
}

proof fn frame_request_declared_step(
    state: SessionStateView,
    request: ModelRequestFactView,
    call: Seq<char>,
)
    ensures
        frame(request_declared_step(state, request), state),
        identity_frame(request_declared_step(state, request), state),
        call_frame(request_declared_step(state, request), state, call),
        handoff_frame(request_declared_step(state, request), state),
{
    reveal(request_declared_step);
}

proof fn frame_attempt_started_step(
    state: SessionStateView,
    attempt: ModelAttemptRecordView,
    call: Seq<char>,
)
    ensures
        frame(attempt_started_step(state, attempt), state),
        identity_frame(attempt_started_step(state, attempt), state),
        call_frame(attempt_started_step(state, attempt), state, call),
        handoff_frame(attempt_started_step(state, attempt), state),
{
    reveal(attempt_started_step);
}

proof fn frame_attempt_ended_step(
    state: SessionStateView,
    current: Result<ModelAttemptRecordView, DomainErrorView>,
    result: ModelAttemptOutcome,
    conflict: Seq<char>,
    call: Seq<char>,
)
    requires
        current matches Ok(attempt) ==> state.active_model_round matches Some(round)
            && round.attempt == Some(attempt),
    ensures
        frame(attempt_ended_step(state, current, result, conflict), state),
        identity_frame(attempt_ended_step(state, current, result, conflict), state),
        call_frame(attempt_ended_step(state, current, result, conflict), state, call),
        handoff_frame(attempt_ended_step(state, current, result, conflict), state),
{
    reveal(attempt_ended_step);
}

proof fn frame_abandoned_step(
    state: SessionStateView,
    activation_id: Seq<char>,
    round_id: Seq<char>,
    request_id: Seq<char>,
    attempt_id: Seq<char>,
    call: Seq<char>,
)
    ensures
        frame(abandoned_step(state, activation_id, round_id, request_id, attempt_id), state),
        identity_frame(
            abandoned_step(state, activation_id, round_id, request_id, attempt_id),
            state,
        ),
        call_frame(
            abandoned_step(state, activation_id, round_id, request_id, attempt_id),
            state,
            call,
        ),
        handoff_frame(
            abandoned_step(state, activation_id, round_id, request_id, attempt_id),
            state,
        ),
{
    reveal(abandoned_step);
}

proof fn frame_exhausted_step(
    state: SessionStateView,
    fact: ModelAttemptsExhaustedFactView,
    call: Seq<char>,
)
    ensures
        frame(exhausted_step(state, fact), state),
        identity_frame(exhausted_step(state, fact), state),
        call_frame(exhausted_step(state, fact), state, call),
        handoff_frame(exhausted_step(state, fact), state),
{
    reveal(exhausted_step);
}

proof fn frame_retry_step(
    state: SessionStateView,
    schedule: ModelRetryScheduleView,
    call: Seq<char>,
)
    ensures
        frame(retry_step(state, schedule), state),
        identity_frame(retry_step(state, schedule), state),
        call_frame(retry_step(state, schedule), state, call),
        handoff_frame(retry_step(state, schedule), state),
{
    reveal(retry_step);
}

proof fn frame_completed_step(
    state: SessionStateView,
    activation_id: Seq<char>,
    round_id: Seq<char>,
    request_id: Seq<char>,
    attempt_id: Seq<char>,
    usage: Option<ModelUsageAnchorView>,
    call: Seq<char>,
)
    ensures
        frame(completed_step(state, activation_id, round_id, request_id, attempt_id, usage), state),
        identity_frame(
            completed_step(state, activation_id, round_id, request_id, attempt_id, usage),
            state,
        ),
        call_frame(
            completed_step(state, activation_id, round_id, request_id, attempt_id, usage),
            state,
            call,
        ),
        handoff_frame(
            completed_step(state, activation_id, round_id, request_id, attempt_id, usage),
            state,
        ),
{
    reveal(completed_step);
}

proof fn frame_activation_finished_step(
    state: SessionStateView,
    activation_id: Seq<char>,
    call: Seq<char>,
)
    ensures
        frame(activation_finished_step(state, activation_id), state),
        identity_frame(activation_finished_step(state, activation_id), state),
        call_frame(activation_finished_step(state, activation_id), state, call),
        handoff_frame(activation_finished_step(state, activation_id), state),
{
    reveal(activation_finished_step);
}

proof fn frame_model_failed_step(
    state: SessionStateView,
    failure: ModelAttemptFailureView,
    call: Seq<char>,
)
    ensures
        frame(model_failed_step(state, failure), state),
        identity_frame(model_failed_step(state, failure), state),
        call_frame(model_failed_step(state, failure), state, call),
        handoff_frame(model_failed_step(state, failure), state),
{
    reveal(model_failed_step);
}

proof fn frame_wait_set_step(
    state: SessionStateView,
    wait: ActiveWaitView,
    call: Seq<char>,
)
    ensures
        frame(wait_set_step(state, wait), state),
        identity_frame(wait_set_step(state, wait), state),
        call_frame(wait_set_step(state, wait), state, call),
        handoff_frame(wait_set_step(state, wait), state),
{
    reveal(wait_set_step);
}

proof fn frame_timer_step(
    state: SessionStateView,
    timer: WaitTimerIntentView,
    call: Seq<char>,
)
    ensures
        frame(timer_step(state, timer), state),
        identity_frame(timer_step(state, timer), state),
        call_frame(timer_step(state, timer), state, call),
        handoff_frame(timer_step(state, timer), state),
{
    reveal(timer_step);
}

proof fn frame_wait_ended_step(
    state: SessionStateView,
    wait_id: Seq<char>,
    call: Seq<char>,
)
    ensures
        frame(wait_ended_step(state, wait_id), state),
        identity_frame(wait_ended_step(state, wait_id), state),
        call_frame(wait_ended_step(state, wait_id), state, call),
        handoff_frame(wait_ended_step(state, wait_id), state),
{
    reveal(wait_ended_step);
}

proof fn frame_call_started_step(
    state: SessionStateView,
    record: AsyncToolCallRecordView,
    call: Seq<char>,
)
    ensures
        frame(call_started_step(state, record), state),
        identity_frame(call_started_step(state, record), state),
        call_frame(call_started_step(state, record), state, call),
        handoff_frame(call_started_step(state, record), state),
{
    reveal(call_started_step);
    if let Ok((next, true)) = call_started_step(state, record) {
        stored_then_found(state.async_tool_calls, record.tool_call_id, record, call);
    }
}

proof fn frame_call_running_step(
    state: SessionStateView,
    id: Seq<char>,
    call: Seq<char>,
)
    ensures
        frame(call_running_step(state, id), state),
        identity_frame(call_running_step(state, id), state),
        call_frame(call_running_step(state, id), state, call),
        handoff_frame(call_running_step(state, id), state),
{
    reveal(call_running_step);
    if let Ok((next, true)) = call_running_step(state, id) {
        let record = lookup(state.async_tool_calls, id)->0;
        stored_then_found(
            state.async_tool_calls,
            id,
            AsyncToolCallRecordView { status: AsyncToolStatus::Running, ..record },
            call,
        );
    }
}

proof fn frame_outcome_unknown_step(
    state: SessionStateView,
    id: Seq<char>,
    call: Seq<char>,
)
    ensures
        frame(outcome_unknown_step(state, id), state),
        identity_frame(outcome_unknown_step(state, id), state),
        call_frame(outcome_unknown_step(state, id), state, call),
        handoff_frame(outcome_unknown_step(state, id), state),
{
    reveal(outcome_unknown_step);
    if let Ok((next, true)) = outcome_unknown_step(state, id) {
        let record = lookup(state.async_tool_calls, id)->0;
        stored_then_found(
            state.async_tool_calls,
            id,
            AsyncToolCallRecordView { status: AsyncToolStatus::UnknownOutcome, ..record },
            call,
        );
    }
}

proof fn frame_restarted_step(
    state: SessionStateView,
    id: Seq<char>,
    reason: Seq<char>,
    completed_at_ms: i64,
    call: Seq<char>,
)
    ensures
        frame(restarted_step(state, id, reason, completed_at_ms), state),
        identity_frame(restarted_step(state, id, reason, completed_at_ms), state),
        call_frame(restarted_step(state, id, reason, completed_at_ms), state, call),
        handoff_frame(restarted_step(state, id, reason, completed_at_ms), state),
{
    reveal(restarted_step);
    if let Ok((next, true)) = restarted_step(state, id, reason, completed_at_ms) {
        let record = lookup(state.async_tool_calls, id)->0;
        stored_then_found(
            state.async_tool_calls,
            id,
            ended_record(
                record,
                CallEndView::RuntimeRestarted(
                    ToolErrorView { class: "runtime_restarted"@, message: reason },
                ),
                completed_at_ms,
            ),
            call,
        );
    }
}

proof fn frame_callback_planned_step(
    state: SessionStateView,
    binding: AsyncCallbackBindingView,
    call: Seq<char>,
)
    ensures
        frame(callback_planned_step(state, binding), state),
        identity_frame(callback_planned_step(state, binding), state),
        call_frame(callback_planned_step(state, binding), state, call),
        handoff_frame(callback_planned_step(state, binding), state),
{
    reveal(callback_planned_step);
    stored_then_found(state.callback_bindings, binding.callback_id, binding, call);
}

proof fn frame_callback_ended_step(
    state: SessionStateView,
    callback_id: Seq<char>,
    id: Seq<char>,
    payload_fingerprint: Seq<char>,
    end: CallEndView,
    completed_at_ms: i64,
    call: Seq<char>,
)
    ensures
        frame(
            callback_ended_step(state, callback_id, id, payload_fingerprint, end, completed_at_ms),
            state,
        ),
        identity_frame(
            callback_ended_step(state, callback_id, id, payload_fingerprint, end, completed_at_ms),
            state,
        ),
        call_frame(
            callback_ended_step(state, callback_id, id, payload_fingerprint, end, completed_at_ms),
            state,
            call,
        ),
        handoff_frame(
            callback_ended_step(state, callback_id, id, payload_fingerprint, end, completed_at_ms),
            state,
        ),
{
    reveal(callback_ended_step);
    if let Ok((next, true)) = callback_ended_step(
        state,
        callback_id,
        id,
        payload_fingerprint,
        end,
        completed_at_ms,
    ) {
        let record = lookup(state.async_tool_calls, id)->0;
        stored_then_found(
            state.async_tool_calls,
            id,
            ended_record(record, end, completed_at_ms),
            call,
        );
        let binding = lookup(state.callback_bindings, callback_id)->0;
        stored_then_found(
            state.callback_bindings,
            callback_id,
            AsyncCallbackBindingView {
                payload_fingerprint: Some(payload_fingerprint),
                ..binding
            },
            call,
        );
    }
}

proof fn frame_progress_step(
    state: SessionStateView,
    id: Seq<char>,
    progress: DurablePayloadView,
    call: Seq<char>,
)
    ensures
        frame(progress_step(state, id, progress), state),
        identity_frame(progress_step(state, id, progress), state),
        call_frame(progress_step(state, id, progress), state, call),
        handoff_frame(progress_step(state, id, progress), state),
{
    reveal(progress_step);
    if let Ok((next, true)) = progress_step(state, id, progress) {
        let record = lookup(state.async_tool_calls, id)->0;
        stored_then_found(
            state.async_tool_calls,
            id,
            AsyncToolCallRecordView { progress: Some(progress), ..record },
            call,
        );
    }
}

proof fn frame_call_ended_step(
    state: SessionStateView,
    id: Seq<char>,
    end: CallEndView,
    completed_at_ms: i64,
    call: Seq<char>,
)
    ensures
        frame(call_ended_step(state, id, end, completed_at_ms), state),
        identity_frame(call_ended_step(state, id, end, completed_at_ms), state),
        call_frame(call_ended_step(state, id, end, completed_at_ms), state, call),
        handoff_frame(call_ended_step(state, id, end, completed_at_ms), state),
{
    reveal(call_ended_step);
    if let Ok((next, true)) = call_ended_step(state, id, end, completed_at_ms) {
        let record = lookup(state.async_tool_calls, id)->0;
        stored_then_found(
            state.async_tool_calls,
            id,
            ended_record(record, end, completed_at_ms),
            call,
        );
    }
}

proof fn frame_dedupe_step(
    state: SessionStateView,
    key: Seq<char>,
    call: Seq<char>,
)
    ensures
        frame(dedupe_step(state, key), state),
        identity_frame(dedupe_step(state, key), state),
        call_frame(dedupe_step(state, key), state, call),
        handoff_frame(dedupe_step(state, key), state),
{
    reveal(dedupe_step);
    let keys = state.dedupe_facts.recent_keys;
    newest_key_is_remembered(state.dedupe_facts, key);
    if distinct_keys(state) {
        lemma_remembered_distinct(state.dedupe_facts, key);
        if keys.len() > 0 && keys.last() == key {
            lemma_newest_again(keys);
        }
    }
}

proof fn lemma_frame(state: SessionStateView, event: SessionEventView, call: Seq<char>)
    ensures
        frame(payload_step(state, event), state),
        !(event is SessionCreated) ==> identity_frame(payload_step(state, event), state),
        call_frame(payload_step(state, event), state, call),
        !(event is ContextHandoffCreated) ==> handoff_frame(payload_step(state, event), state),
{
    match event {
        SessionEventView::SessionCreated { session_id, owner, created_at_ms, selection, .. } => {
            frame_created_step(state, session_id, owner, created_at_ms, selection, call);
        },
        SessionEventView::ModelSelectionChanged { selection } => {
            frame_reselected_step(state, selection, call);
        },
        SessionEventView::StatusChanged { .. } => {},
        SessionEventView::DeliveryQueued { delivery } => {
            frame_queue_step(state, delivery, call);
        },
        SessionEventView::DeliveryAcknowledged { through_queue_id } => {
            frame_acknowledge_step(state, through_queue_id, call);
        },
        SessionEventView::DeliveryMaterialized { queue_id, message } => {
            frame_materialize_step(state, queue_id, message, call);
        },
        SessionEventView::MessageAppended { message, wake_wait } => {
            frame_append_step(state, message, wake_wait, call);
        },
        SessionEventView::ActivationStarted {
            activation_id,
            selection,
            selection_version,
            minimum_auth_revision,
            started_at_ms,
        } => {
            frame_activation_started_step(
                state,
                activation_id,
                selection,
                selection_version,
                minimum_auth_revision,
                started_at_ms,
                call,
            );
        },
        SessionEventView::ModelRoundStarted {
            activation_id,
            round_id,
            purpose,
            delivery_through_queue_id,
            started_at_ms,
        } => {
            frame_round_started_step(
                state,
                activation_id,
                round_id,
                purpose,
                delivery_through_queue_id,
                started_at_ms,
                call,
            );
        },
        SessionEventView::ContextHandoffPlanned { plan } => {
            frame_plan_step(state, plan, call);
        },
        SessionEventView::ContextHandoffCreated { handoff } => {
            frame_document_step(state, handoff, call);
        },
        SessionEventView::ContextHandoffFailed { plan_id, error, .. } => {
            frame_handoff_failed_step(state, plan_id, error, call);
        },
        SessionEventView::ModelRequestPrepared {
            activation_id,
            round_id,
            request_id,
            request_fingerprint,
            provider_execution_fingerprint,
            prompt_fingerprint,
            tool_schema_fingerprint,
            envelope,
            maximum_attempts,
            minimum_auth_revision,
        } => {
            frame_request_declared_step(
                state,
                ModelRequestFactView {
                    activation_id,
                    round_id,
                    request_id,
                    request_fingerprint,
                    provider_execution_fingerprint,
                    prompt_fingerprint,
                    tool_schema_fingerprint,
                    legacy_envelope: Some(envelope),
                    maximum_attempts,
                    minimum_auth_revision,
                },
                call,
            );
        },
        SessionEventView::ModelRequestDeclared {
            activation_id,
            round_id,
            request_id,
            request_fingerprint,
            provider_execution_fingerprint,
            prompt_fingerprint,
            tool_schema_fingerprint,
            maximum_attempts,
            minimum_auth_revision,
        } => {
            frame_request_declared_step(
                state,
                ModelRequestFactView {
                    activation_id,
                    round_id,
                    request_id,
                    request_fingerprint,
                    provider_execution_fingerprint,
                    prompt_fingerprint,
                    tool_schema_fingerprint,
                    legacy_envelope: None,
                    maximum_attempts,
                    minimum_auth_revision,
                },
                call,
            );
        },
        SessionEventView::ModelAttemptStarted {
            activation_id,
            round_id,
            request_id,
            attempt_id,
            attempt_number,
            auth_revision,
            started_at_ms,
        } => {
            frame_attempt_started_step(
                state,
                ModelAttemptRecordView {
                    activation_id,
                    round_id,
                    request_id,
                    attempt_id,
                    attempt_number,
                    auth_revision,
                    started_at_ms,
                    outcome: ModelAttemptOutcome::Running,
                },
                call,
            );
        },
        SessionEventView::ModelAttemptFailedFact {
            activation_id,
            round_id,
            request_id,
            attempt_id,
            attempt_number,
            ..
        } => {
            frame_attempt_ended_step(
                state,
                current_attempt(
                    state,
                    activation_id,
                    round_id,
                    request_id,
                    attempt_id,
                    attempt_number,
                ),
                ModelAttemptOutcome::Failed,
                "model attempt failure is not first-wins"@,
                call,
            );
        },
        SessionEventView::ModelAttemptInterrupted {
            activation_id,
            round_id,
            request_id,
            attempt_id,
            attempt_number,
            ..
        } => {
            frame_attempt_ended_step(
                state,
                current_attempt(
                    state,
                    activation_id,
                    round_id,
                    request_id,
                    attempt_id,
                    attempt_number,
                ),
                ModelAttemptOutcome::Interrupted,
                "model attempt interruption is not first-wins"@,
                call,
            );
        },
        SessionEventView::ModelRequestAbandoned {
            activation_id,
            round_id,
            request_id,
            attempt_id,
            ..
        } => {
            frame_abandoned_step(state, activation_id, round_id, request_id, attempt_id, call);
        },
        SessionEventView::ModelAttemptsExhausted { fact } => {
            frame_exhausted_step(state, fact, call);
        },
        SessionEventView::ModelStepRetryScheduled { schedule } => {
            frame_retry_step(state, schedule, call);
        },
        SessionEventView::ModelRequestCompleted {
            activation_id,
            round_id,
            request_id,
            attempt_id,
            usage,
        } => {
            frame_completed_step(
                state,
                activation_id,
                round_id,
                request_id,
                attempt_id,
                usage,
                call,
            );
        },
        SessionEventView::ActivationFinished { activation_id, .. } => {
            frame_activation_finished_step(state, activation_id, call);
        },
        SessionEventView::ModelAttemptFailed { failure } => {
            frame_model_failed_step(state, failure, call);
        },
        SessionEventView::WaitSet { wait } => {
            frame_wait_set_step(state, wait, call);
        },
        SessionEventView::WaitTimerScheduled { timer } => {
            frame_timer_step(state, timer, call);
        },
        SessionEventView::WaitCleared { wait_id } => {
            frame_wait_ended_step(state, wait_id, call);
        },
        SessionEventView::WaitExpired { wait_id } => {
            frame_wait_ended_step(state, wait_id, call);
        },
        SessionEventView::AsyncToolCallStarted { record } => {
            frame_call_started_step(state, record, call);
        },
        SessionEventView::AsyncToolCallRunning { tool_call_id } => {
            frame_call_running_step(state, tool_call_id, call);
        },
        SessionEventView::AsyncToolCallUnknownOutcome { tool_call_id, .. } => {
            frame_outcome_unknown_step(state, tool_call_id, call);
        },
        SessionEventView::AsyncToolCallRuntimeRestarted {
            tool_call_id,
            reason,
            completed_at_ms,
        } => {
            frame_restarted_step(state, tool_call_id, reason, completed_at_ms, call);
        },
        SessionEventView::AsyncToolCallCallbackPlanned { binding } => {
            frame_callback_planned_step(state, binding, call);
        },
        SessionEventView::AsyncToolCallCallbackCompleted {
            callback_id,
            tool_call_id,
            payload_fingerprint,
            result,
            completed_at_ms,
        } => {
            frame_callback_ended_step(
                state,
                callback_id,
                tool_call_id,
                payload_fingerprint,
                CallEndView::Completed(result),
                completed_at_ms,
                call,
            );
        },
        SessionEventView::AsyncToolCallCallbackFailed {
            callback_id,
            tool_call_id,
            payload_fingerprint,
            error,
            completed_at_ms,
        } => {
            frame_callback_ended_step(
                state,
                callback_id,
                tool_call_id,
                payload_fingerprint,
                CallEndView::Failed(error),
                completed_at_ms,
                call,
            );
        },
        SessionEventView::AsyncToolCallProgress { tool_call_id, progress } => {
            frame_progress_step(state, tool_call_id, progress, call);
        },
        SessionEventView::AsyncToolCallCompleted { tool_call_id, result, completed_at_ms } => {
            frame_call_ended_step(
                state,
                tool_call_id,
                CallEndView::Completed(result),
                completed_at_ms,
                call,
            );
        },
        SessionEventView::AsyncToolCallFailed { tool_call_id, error, completed_at_ms } => {
            frame_call_ended_step(
                state,
                tool_call_id,
                CallEndView::Failed(error),
                completed_at_ms,
                call,
            );
        },
        SessionEventView::AsyncToolCallCancelled { tool_call_id, reason, completed_at_ms } => {
            frame_call_ended_step(
                state,
                tool_call_id,
                CallEndView::Cancelled(reason),
                completed_at_ms,
                call,
            );
        },
        SessionEventView::DedupeRecorded { key } => {
            frame_dedupe_step(state, key, call);
        },
    }
}

proof fn lemma_admitted_frame(state: SessionStateView, event: SessionEventView)
    ensures
        frame(admitted_step(state, event), state),
        state.stream_version > 0 ==> identity_frame(admitted_step(state, event), state),
{
    lemma_frame(state, event, Seq::empty());
}

/// An event that takes effect advances the stream by exactly one, and another leaves it.
pub proof fn stream_advances_by_effect(state: SessionStateView, event: SessionEventView)
    ensures
        match admitted_step(state, event) {
            Ok((_, false)) => reduced(state, event) matches Ok(next) && next.stream_version
                == state.stream_version,
            Ok((_, true)) => if state.stream_version == u64::MAX {
                reduced(state, event) == Err::<SessionStateView, DomainErrorView>(
                    DomainErrorView::VersionOverflow,
                )
            } else {
                reduced(state, event) matches Ok(next) && next.stream_version
                    == state.stream_version + 1
            },
            Err(fault) => reduced(state, event) == Err::<SessionStateView, DomainErrorView>(fault),
        },
{
    lemma_admitted_frame(state, event);
}

/// No event renames a session, and after the creation none changes its owner or its time of
/// creation.
pub proof fn identity_is_fixed(state: SessionStateView, event: SessionEventView)
    requires
        reduced(state, event) is Ok,
    ensures
        reduced(state, event)->Ok_0.session_id == state.session_id,
        state.stream_version > 0 ==> reduced(state, event)->Ok_0.owner == state.owner,
        state.stream_version > 0 ==> reduced(state, event)->Ok_0.created_at_ms
            == state.created_at_ms,
{
    lemma_admitted_frame(state, event);
}

/// The history only grows: no event takes a message out or changes one.
pub proof fn history_only_grows(state: SessionStateView, event: SessionEventView)
    requires
        reduced(state, event) is Ok,
    ensures
        state.transcript.is_prefix_of(reduced(state, event)->Ok_0.transcript),
        reduced(state, event)->Ok_0.transcript.len() <= state.transcript.len() + 1,
{
    lemma_admitted_frame(state, event);
}

/// What was acknowledged stays acknowledged.
pub proof fn acknowledgement_never_falls(state: SessionStateView, event: SessionEventView)
    ensures
        reduced(state, event) matches Ok(next) ==> next.delivery_ack >= state.delivery_ack,
{
    lemma_admitted_frame(state, event);
}

/// The version of the selection never falls once a session is created.
pub proof fn selection_version_never_falls(state: SessionStateView, event: SessionEventView)
    requires
        state.stream_version > 0,
    ensures
        reduced(state, event) matches Ok(next) ==> next.selection_version
            >= state.selection_version,
{
    lemma_admitted_frame(state, event);
}

/// The queue of a valid state runs on from the acknowledged delivery without a gap.
pub proof fn queue_ids_are_consecutive(state: SessionStateView, index: int)
    requires
        valid_state(state),
        0 <= index < state.delivery_queue.len(),
    ensures
        state.delivery_queue[index].queue_id == state.delivery_ack + 1 + index,
{
    let queue = state.delivery_queue;
    let check = queue_check(state.delivery_ack);
    lemma_no_fault_at(queue, check, index);
}

/// A tool call that has ended never changes, whether an event is taken or refused.
pub proof fn ended_call_never_changes(
    state: SessionStateView,
    event: SessionEventView,
    id: Seq<char>,
)
    requires
        lookup(state.async_tool_calls, id) matches Some(record) && terminal(record.status),
    ensures
        lookup(left_by(payload_step(state, event), state).async_tool_calls, id) == lookup(
            state.async_tool_calls,
            id,
        ),
        reduced(state, event) matches Ok(next) ==> lookup(next.async_tool_calls, id) == lookup(
            state.async_tool_calls,
            id,
        ),
{
    lemma_frame(state, event, id);
}

/// No tool call is forgotten.
pub proof fn call_is_never_forgotten(
    state: SessionStateView,
    event: SessionEventView,
    id: Seq<char>,
)
    requires
        lookup(state.async_tool_calls, id) is Some,
        reduced(state, event) is Ok,
    ensures
        lookup(reduced(state, event)->Ok_0.async_tool_calls, id) is Some,
{
    lemma_frame(state, event, id);
}

/// No callback is forgotten or bound anew; what changes is that it is answered, once.
pub proof fn callback_is_never_forgotten(
    state: SessionStateView,
    event: SessionEventView,
    id: Seq<char>,
)
    requires
        lookup(state.callback_bindings, id) is Some,
        reduced(state, event) is Ok,
    ensures
        ({
            let before = lookup(state.callback_bindings, id)->0;
            lookup(reduced(state, event)->Ok_0.callback_bindings, id) matches Some(after) && {
                &&& after.callback_id == before.callback_id
                &&& after.tool_call_id == before.tool_call_id
                &&& after.bearer_fingerprint == before.bearer_fingerprint
                &&& before.payload_fingerprint is Some ==> after == before
            }
        }),
{
    lemma_frame(state, event, id);
}

/// The terms of an activation are frozen for as long as it lasts: no event changes its selection,
/// the version of that selection or the revision that it asks of a credential, whatever becomes
/// of the selection of the session.
pub proof fn activation_is_frozen(state: SessionStateView, event: SessionEventView)
    requires
        state.active_activation is Some,
    ensures
        reduced(state, event) matches Ok(next) ==> next.active_activation matches Some(activation)
            ==> same_activation(state.active_activation->0, activation),
{
    lemma_admitted_frame(state, event);
}

/// An event that is refused, and one without effect, leaves the whole state as it is; and no event
/// renames a session or moves its stream by itself.
pub proof fn refused_event_changes_nothing(state: SessionStateView, event: SessionEventView)
    requires
        distinct_keys(state),
        state.dedupe_facts.recent_keys.len() <= MAX_RECENT_DEDUPE_FACTS,
    ensures
        ({
            let after = left_by(payload_step(state, event), state);
            &&& after.session_id == state.session_id
            &&& after.stream_version == state.stream_version
            &&& !(payload_step(state, event) matches Ok((_, true))) ==> after == state
        }),
{
    lemma_frame(state, event, Seq::empty());
}

/// The payload that answered a callback is never replaced: the same one again changes nothing, and
/// another is refused.
pub proof fn callback_is_answered_once(
    state: SessionStateView,
    callback_id: Seq<char>,
    tool_call_id: Seq<char>,
    fingerprint: Seq<char>,
    end: CallEndView,
    completed_at_ms: i64,
)
    requires
        lookup(state.callback_bindings, callback_id) matches Some(binding) && binding.tool_call_id
            == tool_call_id && binding.payload_fingerprint is Some,
    ensures
        callback_ended_step(
            state,
            callback_id,
            tool_call_id,
            fingerprint,
            end,
            completed_at_ms,
        ) == if lookup(state.callback_bindings, callback_id)->0.payload_fingerprint == Some(
            fingerprint,
        ) {
            kept(state)
        } else {
            Err(DomainErrorView::CallbackPayloadConflict(callback_id))
        },
{
    reveal(callback_ended_step);
}

/// An attempt that has ended keeps its outcome for as long as it stands.
pub proof fn first_attempt_outcome_wins(state: SessionStateView, event: SessionEventView)
    requires
        state.active_model_round matches Some(round) && round.attempt matches Some(attempt)
            && attempt.outcome != ModelAttemptOutcome::Running,
    ensures
        reduced(state, event) matches Ok(next) ==> next.active_model_round matches Some(round)
            ==> round.attempt is None || round.attempt == state.active_model_round->0.attempt,
{
    lemma_admitted_frame(state, event);
}

/// A new handoff document leads to the next generation of the context, on top of the latest one.
pub proof fn handoff_leads_to_next_generation(state: SessionStateView, event: SessionEventView)
    requires
        valid_state(state),
        reduced(state, event) is Ok,
        reduced(state, event)->Ok_0.latest_context_handoff != state.latest_context_handoff,
    ensures
        reduced(state, event)->Ok_0.latest_context_handoff matches Some(handoff)
            && handoff.next_generation == expected_generation(state)
            && handoff.previous_handoff_id == latest_handoff_id(state),
{
    lemma_frame(state, event, Seq::empty());
    if let SessionEventView::ContextHandoffCreated { handoff } = event {
        reveal(document_step);
    }
}

/// No event makes a key occur twice in the window.
pub proof fn keys_stay_distinct(state: SessionStateView, event: SessionEventView)
    requires
        distinct_keys(state),
        admitted_step(state, event) is Ok,
    ensures
        distinct_keys(admitted_step(state, event)->Ok_0.0),
{
    lemma_admitted_frame(state, event);
}

/// An event without effect leaves the whole state as it is.
pub proof fn ineffective_event_changes_nothing(state: SessionStateView, event: SessionEventView)
    requires
        distinct_keys(state),
        state.dedupe_facts.recent_keys.len() <= MAX_RECENT_DEDUPE_FACTS,
        admitted_step(state, event) matches Ok((_, took_effect)) && !took_effect,
    ensures
        admitted_step(state, event)->Ok_0.0 == state,
        reduced(state, event) == Ok::<SessionStateView, DomainErrorView>(state),
{
    lemma_admitted_frame(state, event);
}

proof fn repeat_queue_step(
    state: SessionStateView,
    delivery: QueuedDeliveryView,
    after: SessionStateView,
)
    requires
        queue_step(state, delivery) matches Ok((next, true)) && after == (SessionStateView {
            stream_version: after.stream_version,
            ..next
        }),
    ensures
        queue_step(after, delivery) == kept(after),
{
    reveal(queue_step);
    lemma_first_index_sound(state.delivery_queue, queued_as(delivery.queue_id));
    delivery_agrees_reflexive(delivery);
    if delivery.queue_id > state.delivery_ack {
        lemma_first_index_is(
            after.delivery_queue,
            queued_as(delivery.queue_id),
            state.delivery_queue.len() as int,
        );
    }
}

proof fn repeat_acknowledge_step(
    state: SessionStateView,
    through: u64,
    after: SessionStateView,
)
    requires
        acknowledge_step(state, through) matches Ok((next, true)) && after == (SessionStateView {
            stream_version: after.stream_version,
            ..next
        }),
    ensures
        acknowledge_step(after, through) == kept(after),
{
    reveal(acknowledge_step);
}

proof fn repeat_materialize_step(
    state: SessionStateView,
    queue_id: u64,
    message: TranscriptMessageView,
    after: SessionStateView,
)
    requires
        materialize_step(state, queue_id, message) matches Ok((next, true))
            && after == (SessionStateView {
            stream_version: after.stream_version,
            ..next
        }),
    ensures
        materialize_step(after, queue_id, message) == kept(after),
{
    reveal(materialize_step);
    let pick = queued_as(queue_id);
    lemma_first_index_sound(state.delivery_queue, pick);
    let index = first_index(state.delivery_queue, pick)->0;
    lemma_first_index_is(after.delivery_queue, pick, index);
    message_agrees_reflexive(message);
    lemma_first_index_sound(state.transcript, named(message.message_id));
    match first_index(state.transcript, named(message.message_id)) {
        Some(position) => {
            assert(message_agrees(after.transcript[position], message));
        },
        None => {
            assert(after.transcript[state.transcript.len() as int] == message);
            assert(message_agrees(after.transcript[state.transcript.len() as int], message));
        },
    }
    assert(holds_message(after.transcript, message));
    assert(!unmaterialized_before(after.delivery_queue, index)) by {
        assert forall|i: int| 0 <= i < index implies (
        #[trigger] after.delivery_queue[i]).materialized_message_id is Some by {
            assert(state.delivery_queue[i].materialized_message_id is Some);
        }
    }
}

proof fn repeat_append_step(
    state: SessionStateView,
    message: TranscriptMessageView,
    wake_wait: bool,
    after: SessionStateView,
)
    requires
        append_step(state, message, wake_wait) matches Ok((next, true))
            && after == (SessionStateView {
            stream_version: after.stream_version,
            ..next
        }),
    ensures
        append_step(after, message, wake_wait) == kept(after),
{
    reveal(append_step);
    lemma_first_index_sound(state.transcript, named(message.message_id));
    message_agrees_reflexive(message);
    lemma_first_index_is(
        after.transcript,
        named(message.message_id),
        state.transcript.len() as int,
    );
}

proof fn repeat_plan_step(
    state: SessionStateView,
    plan: ContextHandoffPlanView,
    after: SessionStateView,
)
    requires
        plan_step(state, plan) matches Ok((next, true)) && after == (SessionStateView {
            stream_version: after.stream_version,
            ..next
        }),
    ensures
        plan_step(after, plan) == kept(after),
{
    reveal(plan_step);
    plan_agrees_reflexive(plan);
}

proof fn repeat_attempt_started_step(
    state: SessionStateView,
    attempt: ModelAttemptRecordView,
    after: SessionStateView,
)
    requires
        attempt_started_step(state, attempt) matches Ok((next, true))
            && after == (SessionStateView {
            stream_version: after.stream_version,
            ..next
        }),
    ensures
        attempt_started_step(after, attempt) == kept(after),
{
    reveal(attempt_started_step);
}

proof fn repeat_attempt_ended_step(
    state: SessionStateView,
    activation_id: Seq<char>,
    round_id: Seq<char>,
    request_id: Seq<char>,
    attempt_id: Seq<char>,
    attempt_number: u32,
    result: ModelAttemptOutcome,
    conflict: Seq<char>,
    after: SessionStateView,
)
    requires
        result != ModelAttemptOutcome::Running,
        attempt_ended_step(state, current_attempt(
                state,
                activation_id,
                round_id,
                request_id,
                attempt_id,
                attempt_number,
            ), result, conflict) matches Ok((next, true)) && after == (SessionStateView {
            stream_version: after.stream_version,
            ..next
        }),
    ensures
        attempt_ended_step(after, current_attempt(
                after,
                activation_id,
                round_id,
                request_id,
                attempt_id,
                attempt_number,
            ), result, conflict) == kept(after),
{
    reveal(attempt_ended_step);
}

proof fn repeat_exhausted_step(
    state: SessionStateView,
    fact: ModelAttemptsExhaustedFactView,
    after: SessionStateView,
)
    requires
        exhausted_step(state, fact) matches Ok((next, true)) && after == (SessionStateView {
            stream_version: after.stream_version,
            ..next
        }),
    ensures
        exhausted_step(after, fact) == kept(after),
{
    reveal(exhausted_step);
}

proof fn repeat_completed_step(
    state: SessionStateView,
    activation_id: Seq<char>,
    round_id: Seq<char>,
    request_id: Seq<char>,
    attempt_id: Seq<char>,
    usage: Option<ModelUsageAnchorView>,
    after: SessionStateView,
)
    requires
        completed_step(
            state,
            activation_id,
            round_id,
            request_id,
            attempt_id,
            usage,
        ) matches Ok((next, true))
            && after == (SessionStateView {
            stream_version: after.stream_version,
            ..next
        }),
    ensures
        completed_step(after, activation_id, round_id, request_id, attempt_id, usage) == kept(
            after,
        ),
{
    reveal(completed_step);
}

proof fn repeat_model_failed_step(
    state: SessionStateView,
    failure: ModelAttemptFailureView,
    after: SessionStateView,
)
    requires
        model_failed_step(state, failure) matches Ok((next, true)) && after == (SessionStateView {
            stream_version: after.stream_version,
            ..next
        }),
    ensures
        model_failed_step(after, failure) == kept(after),
{
    reveal(model_failed_step);
}

proof fn repeat_wait_set_step(
    state: SessionStateView,
    wait: ActiveWaitView,
    after: SessionStateView,
)
    requires
        wait_set_step(state, wait) matches Ok((next, true)) && after == (SessionStateView {
            stream_version: after.stream_version,
            ..next
        }),
    ensures
        wait_set_step(after, wait) == kept(after),
{
    reveal(wait_set_step);
}

proof fn repeat_timer_step(
    state: SessionStateView,
    timer: WaitTimerIntentView,
    after: SessionStateView,
)
    requires
        timer_step(state, timer) matches Ok((next, true)) && after == (SessionStateView {
            stream_version: after.stream_version,
            ..next
        }),
    ensures
        timer_step(after, timer) == kept(after),
{
    reveal(timer_step);
}

proof fn repeat_wait_ended_step(
    state: SessionStateView,
    wait_id: Seq<char>,
    after: SessionStateView,
)
    requires
        wait_ended_step(state, wait_id) matches Ok((next, true)) && after == (SessionStateView {
            stream_version: after.stream_version,
            ..next
        }),
    ensures
        wait_ended_step(after, wait_id) == kept(after),
{
    reveal(wait_ended_step);
}

proof fn repeat_call_started_step(
    state: SessionStateView,
    record: AsyncToolCallRecordView,
    after: SessionStateView,
)
    requires
        call_started_step(state, record) matches Ok((next, true)) && after == (SessionStateView {
            stream_version: after.stream_version,
            ..next
        }),
    ensures
        call_started_step(after, record) == kept(after),
{
    reveal(call_started_step);
    record_agrees_reflexive(record);
    stored_then_found(state.async_tool_calls, record.tool_call_id, record, record.tool_call_id);
}

proof fn repeat_call_running_step(
    state: SessionStateView,
    id: Seq<char>,
    after: SessionStateView,
)
    requires
        call_running_step(state, id) matches Ok((next, true)) && after == (SessionStateView {
            stream_version: after.stream_version,
            ..next
        }),
    ensures
        call_running_step(after, id) == kept(after),
{
    reveal(call_running_step);
    let record = lookup(state.async_tool_calls, id)->0;
    stored_then_found(
        state.async_tool_calls,
        id,
        AsyncToolCallRecordView { status: AsyncToolStatus::Running, ..record },
        id,
    );
}

proof fn repeat_outcome_unknown_step(
    state: SessionStateView,
    id: Seq<char>,
    after: SessionStateView,
)
    requires
        outcome_unknown_step(state, id) matches Ok((next, true)) && after == (SessionStateView {
            stream_version: after.stream_version,
            ..next
        }),
    ensures
        outcome_unknown_step(after, id) == kept(after),
{
    reveal(outcome_unknown_step);
    let record = lookup(state.async_tool_calls, id)->0;
    stored_then_found(
        state.async_tool_calls,
        id,
        AsyncToolCallRecordView { status: AsyncToolStatus::UnknownOutcome, ..record },
        id,
    );
}

proof fn repeat_restarted_step(
    state: SessionStateView,
    id: Seq<char>,
    reason: Seq<char>,
    completed_at_ms: i64,
    after: SessionStateView,
)
    requires
        restarted_step(state, id, reason, completed_at_ms) matches Ok((next, true))
            && after == (SessionStateView {
            stream_version: after.stream_version,
            ..next
        }),
    ensures
        restarted_step(after, id, reason, completed_at_ms) == kept(after),
{
    reveal(restarted_step);
    let record = lookup(state.async_tool_calls, id)->0;
    stored_then_found(
        state.async_tool_calls,
        id,
        ended_record(
            record,
            CallEndView::RuntimeRestarted(
                ToolErrorView { class: "runtime_restarted"@, message: reason },
            ),
            completed_at_ms,
        ),
        id,
    );
}

proof fn repeat_call_ended_step(
    state: SessionStateView,
    id: Seq<char>,
    end: CallEndView,
    completed_at_ms: i64,
    after: SessionStateView,
)
    requires
        call_ended_step(state, id, end, completed_at_ms) matches Ok((next, true))
            && after == (SessionStateView {
            stream_version: after.stream_version,
            ..next
        }),
    ensures
        call_ended_step(after, id, end, completed_at_ms) == kept(after),
{
    reveal(call_ended_step);
    let record = lookup(state.async_tool_calls, id)->0;
    stored_then_found(
        state.async_tool_calls,
        id,
        ended_record(record, end, completed_at_ms),
        id,
    );
}

proof fn repeat_progress_step(
    state: SessionStateView,
    id: Seq<char>,
    progress: DurablePayloadView,
    after: SessionStateView,
)
    requires
        progress_step(state, id, progress) matches Ok((next, true)) && after == (SessionStateView {
            stream_version: after.stream_version,
            ..next
        }),
    ensures
        progress_step(after, id, progress) == kept(after),
{
    reveal(progress_step);
    payload_agrees_reflexive(progress);
    let record = lookup(state.async_tool_calls, id)->0;
    stored_then_found(
        state.async_tool_calls,
        id,
        AsyncToolCallRecordView { progress: Some(progress), ..record },
        id,
    );
}

proof fn repeat_callback_planned_step(
    state: SessionStateView,
    binding: AsyncCallbackBindingView,
    after: SessionStateView,
)
    requires
        callback_planned_step(state, binding) matches Ok((next, true))
            && after == (SessionStateView {
            stream_version: after.stream_version,
            ..next
        }),
    ensures
        callback_planned_step(after, binding) == kept(after),
{
    reveal(callback_planned_step);
    stored_then_found(
        state.callback_bindings,
        binding.callback_id,
        binding,
        binding.callback_id,
    );
}

proof fn repeat_callback_ended_step(
    state: SessionStateView,
    callback_id: Seq<char>,
    id: Seq<char>,
    payload_fingerprint: Seq<char>,
    end: CallEndView,
    completed_at_ms: i64,
    after: SessionStateView,
)
    requires
        callback_ended_step(
            state,
            callback_id,
            id,
            payload_fingerprint,
            end,
            completed_at_ms,
        ) matches Ok((next, true))
            && after == (SessionStateView {
            stream_version: after.stream_version,
            ..next
        }),
    ensures
        callback_ended_step(
            after,
            callback_id,
            id,
            payload_fingerprint,
            end,
            completed_at_ms,
        ) == kept(after),
{
    reveal(callback_ended_step);
    let binding = lookup(state.callback_bindings, callback_id)->0;
    stored_then_found(
        state.callback_bindings,
        callback_id,
        AsyncCallbackBindingView { payload_fingerprint: Some(payload_fingerprint), ..binding },
        callback_id,
    );
}

proof fn repeat_dedupe_step(
    state: SessionStateView,
    key: Seq<char>,
    after: SessionStateView,
)
    requires
        distinct_keys(state),
        dedupe_step(state, key) matches Ok((next, true)) && after == (SessionStateView {
            stream_version: after.stream_version,
            ..next
        }),
    ensures
        dedupe_step(after, key) == kept(after),
{
    reveal(dedupe_step);
    newest_key_is_remembered(state.dedupe_facts, key);
    lemma_remembered_distinct(state.dedupe_facts, key);
    lemma_newest_again(after.dedupe_facts.recent_keys);
}

/// The events of which a second one, right after the first, has nothing left to do: all but those
/// that change a selection, that open or close an activation, a round or a request, or that end a
/// handoff.
pub open spec fn repeatable(event: SessionEventView) -> bool {
    match event {
        SessionEventView::SessionCreated { .. } => false,
        SessionEventView::ModelSelectionChanged { .. } => false,
        SessionEventView::ActivationStarted { .. } => false,
        SessionEventView::ModelRoundStarted { .. } => false,
        SessionEventView::ContextHandoffCreated { .. } => false,
        SessionEventView::ContextHandoffFailed { .. } => false,
        SessionEventView::ModelRequestPrepared { .. } => false,
        SessionEventView::ModelRequestDeclared { .. } => false,
        SessionEventView::ModelRequestAbandoned { .. } => false,
        SessionEventView::ModelStepRetryScheduled { .. } => false,
        SessionEventView::ActivationFinished { .. } => false,
        _ => true,
    }
}

/// A repeatable event that was applied can be applied again, and changes nothing then.
pub proof fn repeated_event_changes_nothing(state: SessionStateView, event: SessionEventView)
    requires
        repeatable(event),
        distinct_keys(state),
        state.dedupe_facts.recent_keys.len() <= MAX_RECENT_DEDUPE_FACTS,
        reduced(state, event) is Ok,
    ensures
        reduced(reduced(state, event)->Ok_0, event) == reduced(state, event),
{
    let after = reduced(state, event)->Ok_0;
    lemma_admitted_frame(state, event);
    if admitted_step(state, event)->Ok_0.1 {
        match event {
            SessionEventView::DeliveryQueued { delivery } => {
                repeat_queue_step(state, delivery, after);
            },
            SessionEventView::DeliveryAcknowledged { through_queue_id } => {
                repeat_acknowledge_step(state, through_queue_id, after);
            },
            SessionEventView::DeliveryMaterialized { queue_id, message } => {
                repeat_materialize_step(state, queue_id, message, after);
            },
            SessionEventView::MessageAppended { message, wake_wait } => {
                repeat_append_step(state, message, wake_wait, after);
            },
            SessionEventView::ContextHandoffPlanned { plan } => {
                repeat_plan_step(state, plan, after);
            },
            SessionEventView::ModelAttemptStarted {
                activation_id,
                round_id,
                request_id,
                attempt_id,
                attempt_number,
                auth_revision,
                started_at_ms,
            } => {
                repeat_attempt_started_step(
                    state,
                    ModelAttemptRecordView {
                        activation_id,
                        round_id,
                        request_id,
                        attempt_id,
                        attempt_number,
                        auth_revision,
                        started_at_ms,
                        outcome: ModelAttemptOutcome::Running,
                    },
                    after,
                );
            },
            SessionEventView::ModelAttemptFailedFact {
                activation_id,
                round_id,
                request_id,
                attempt_id,
                attempt_number,
                ..
            } => {
                repeat_attempt_ended_step(
                    state,
                    activation_id,
                    round_id,
                    request_id,
                    attempt_id,
                    attempt_number,
                    ModelAttemptOutcome::Failed,
                    "model attempt failure is not first-wins"@,
                    after,
                );
            },
            SessionEventView::ModelAttemptInterrupted {
                activation_id,
                round_id,
                request_id,
                attempt_id,
                attempt_number,
                ..
            } => {
                repeat_attempt_ended_step(
                    state,
                    activation_id,
                    round_id,
                    request_id,
                    attempt_id,
                    attempt_number,
                    ModelAttemptOutcome::Interrupted,
                    "model attempt interruption is not first-wins"@,
                    after,
                );
            },
            SessionEventView::ModelAttemptsExhausted { fact } => {
                repeat_exhausted_step(state, fact, after);
            },
            SessionEventView::ModelRequestCompleted {
                activation_id,
                round_id,
                request_id,
                attempt_id,
                usage,
            } => {
                repeat_completed_step(
                    state,
                    activation_id,
                    round_id,
                    request_id,
                    attempt_id,
                    usage,
                    after,
                );
            },
            SessionEventView::ModelAttemptFailed { failure } => {
                repeat_model_failed_step(state, failure, after);
            },
            SessionEventView::WaitSet { wait } => {
                repeat_wait_set_step(state, wait, after);
            },
            SessionEventView::WaitTimerScheduled { timer } => {
                repeat_timer_step(state, timer, after);
            },
            SessionEventView::WaitCleared { wait_id } => {
                repeat_wait_ended_step(state, wait_id, after);
            },
            SessionEventView::WaitExpired { wait_id } => {
                repeat_wait_ended_step(state, wait_id, after);
            },
            SessionEventView::AsyncToolCallStarted { record } => {
                repeat_call_started_step(state, record, after);
            },
            SessionEventView::AsyncToolCallRunning { tool_call_id } => {
                repeat_call_running_step(state, tool_call_id, after);
            },
            SessionEventView::AsyncToolCallUnknownOutcome { tool_call_id, .. } => {
                repeat_outcome_unknown_step(state, tool_call_id, after);
            },
            SessionEventView::AsyncToolCallRuntimeRestarted {
                tool_call_id,
                reason,
                completed_at_ms,
            } => {
                repeat_restarted_step(state, tool_call_id, reason, completed_at_ms, after);
            },
            SessionEventView::AsyncToolCallCallbackPlanned { binding } => {
                repeat_callback_planned_step(state, binding, after);
            },
            SessionEventView::AsyncToolCallCallbackCompleted {
                callback_id,
                tool_call_id,
                payload_fingerprint,
                result,
                completed_at_ms,
            } => {
                repeat_callback_ended_step(
                    state,
                    callback_id,
                    tool_call_id,
                    payload_fingerprint,
                    CallEndView::Completed(result),
                    completed_at_ms,
                    after,
                );
            },
            SessionEventView::AsyncToolCallCallbackFailed {
                callback_id,
                tool_call_id,
                payload_fingerprint,
                error,
                completed_at_ms,
            } => {
                repeat_callback_ended_step(
                    state,
                    callback_id,
                    tool_call_id,
                    payload_fingerprint,
                    CallEndView::Failed(error),
                    completed_at_ms,
                    after,
                );
            },
            SessionEventView::AsyncToolCallProgress { tool_call_id, progress } => {
                repeat_progress_step(state, tool_call_id, progress, after);
            },
            SessionEventView::AsyncToolCallCompleted { tool_call_id, result, completed_at_ms } => {
                repeat_call_ended_step(
                    state,
                    tool_call_id,
                    CallEndView::Completed(result),
                    completed_at_ms,
                    after,
                );
            },
            SessionEventView::AsyncToolCallFailed { tool_call_id, error, completed_at_ms } => {
                repeat_call_ended_step(
                    state,
                    tool_call_id,
                    CallEndView::Failed(error),
                    completed_at_ms,
                    after,
                );
            },
            SessionEventView::AsyncToolCallCancelled { tool_call_id, reason, completed_at_ms } => {
                repeat_call_ended_step(
                    state,
                    tool_call_id,
                    CallEndView::Cancelled(reason),
                    completed_at_ms,
                    after,
                );
            },
            SessionEventView::DedupeRecorded { key } => {
                repeat_dedupe_step(state, key, after);
            },
            _ => {},
        }
        assert(payload_step(after, event) == kept(after));
    }
}

/// A replayed state is at the version that its records count, under the id of its stream; it is
/// valid once there is a record, and no key occurs in it twice.
pub proof fn replay_counts_records(session_id: Seq<char>, records: Seq<EventRecordView>)
    requires
        replayed(session_id, records) is Ok,
    ensures
        replayed(session_id, records)->Ok_0.stream_version == records.len(),
        replayed(session_id, records)->Ok_0.session_id == session_id,
        records.len() > 0 ==> valid_state(replayed(session_id, records)->Ok_0),
        distinct_keys(replayed(session_id, records)->Ok_0),
    decreases records.len(),
{
    if records.len() > 0 {
        replay_counts_records(session_id, records.drop_last());
        let before = replayed(session_id, records.drop_last())->Ok_0;
        let record = records.last();
        lemma_admitted_frame(before, record.event);
        let next = admitted_step(before, record.event)->Ok_0.0;
        lemma_remembered_distinct(next.dedupe_facts, event_key(record.event_id));
    }
}

/// A stream that cannot be replayed cannot be made good by more records.
pub proof fn replay_fault_is_final(
    session_id: Seq<char>,
    records: Seq<EventRecordView>,
    more: Seq<EventRecordView>,
)
    requires
        replayed(session_id, records) is Err,
    ensures
        replayed(session_id, records + more) == replayed(session_id, records),
    decreases more.len(),
{
    if more.len() == 0 {
        assert(records + more =~= records);
    } else {
        replay_fault_is_final(session_id, records, more.drop_last());
        assert((records + more).drop_last() =~= records + more.drop_last());
    }
}

/// Reading a stored event back leads to the state that applying the event and then remembering its
/// id led to.
pub proof fn stored_event_reads_back(state: SessionStateView, record: EventRecordView)
    requires
        record.event_schema_version == EVENT_SCHEMA_VERSION,
        record.stream_id == state.session_id,
        record.stream_version == state.stream_version + 1,
        !state.dedupe_facts.recent_keys.contains(event_key(record.event_id)),
        admitted_step(state, record.event) matches Ok((_, took_effect)) && took_effect,
    ensures
        reduced(state, record.event) is Ok,
        recorded(state, record) == if_valid(
            with_event_id(reduced(state, record.event)->Ok_0, record.event_id),
        ),
{
    lemma_admitted_frame(state, record.event);
}

/// The events that a decision keeps are as many as the versions by which the stream advances.
pub proof fn decision_counts_effective_events(
    state: SessionStateView,
    events: Seq<SessionEventView>,
)
    requires
        applied_all(state, events) is Ok,
    ensures
        applied_all(state, events)->Ok_0.stream_version == state.stream_version + effective(
            state,
            events,
        ).len(),
        effective(state, events).len() <= events.len(),
    decreases events.len(),
{
    if events.len() > 0 {
        decision_counts_effective_events(state, events.drop_last());
        let before = applied_all(state, events.drop_last())->Ok_0;
        stream_advances_by_effect(before, events.last());
    }
}

proof fn lemma_applied_keeps_distinct(state: SessionStateView, event: SessionEventView)
    requires
        distinct_keys(state),
        applied(state, event) is Ok,
    ensures
        distinct_keys(applied(state, event)->Ok_0),
        state.dedupe_facts.recent_keys.len() <= MAX_RECENT_DEDUPE_FACTS,
        applied(state, event)->Ok_0.stream_version == state.stream_version ==> applied(
            state,
            event,
        )->Ok_0 == state,
{
    lemma_admitted_frame(state, event);
}

proof fn lemma_applied_all_distinct(state: SessionStateView, events: Seq<SessionEventView>)
    requires
        distinct_keys(state),
        applied_all(state, events) is Ok,
    ensures
        distinct_keys(applied_all(state, events)->Ok_0),
    decreases events.len(),
{
    if events.len() > 0 {
        lemma_applied_all_distinct(state, events.drop_last());
        lemma_applied_keeps_distinct(
            applied_all(state, events.drop_last())->Ok_0,
            events.last(),
        );
    }
}

/// The events that a decision keeps lead to the same state as the whole batch.
pub proof fn effective_events_suffice(state: SessionStateView, events: Seq<SessionEventView>)
    requires
        distinct_keys(state),
        applied_all(state, events) is Ok,
    ensures
        applied_all(state, effective(state, events)) == applied_all(state, events),
    decreases events.len(),
{
    if events.len() > 0 {
        let earlier = events.drop_last();
        effective_events_suffice(state, earlier);
        lemma_applied_all_distinct(state, earlier);
        let before = applied_all(state, earlier)->Ok_0;
        lemma_applied_keeps_distinct(before, events.last());
        let kept_events = effective(state, earlier);
        assert(kept_events.push(events.last()).drop_last() =~= kept_events);
    }
}

/// Remembering the id of an event keeps a state valid.
pub proof fn remembering_keeps_validity(state: SessionStateView, event_id: Seq<char>)
    requires
        valid_state(state),
    ensures
        valid_state(with_event_id(state, event_id)),
{
    let key = event_key(event_id);
    newest_key_is_remembered(state.dedupe_facts, key);
    assert(key.len() > 0) by {
        reveal_strlit("event:");
    }
    assert(key != Seq::<char>::empty());
}

/// Applying an event and then remembering its id is the same as applying its record, whatever the
/// place of the record and the command that led to it: the id is all that a state keeps of them.
pub proof fn remembered_event_equals_its_record(
    state: SessionStateView,
    next: SessionStateView,
    record: EventRecordView,
)
    requires
        applied(state, record.event) == Ok::<SessionStateView, DomainErrorView>(next),
        next.stream_version == state.stream_version + 1,
        identifier_fault("event_id"@, record.event_id) is None,
        !state.dedupe_facts.recent_keys.contains(event_key(record.event_id)),
        !next.dedupe_facts.recent_keys.contains(event_key(record.event_id)),
        record.event_schema_version == EVENT_SCHEMA_VERSION,
        record.stream_id == state.session_id,
        record.stream_version == next.stream_version,
    ensures
        event_id_fault(next, record.event_id) is None,
        record_applied(state, record) == Ok::<SessionStateView, DomainErrorView>(
            with_event_id(next, record.event_id),
        ),
{
    lemma_admitted_frame(state, record.event);
    remembering_keeps_validity(next, record.event_id);
    let (after, _) = admitted_step(state, record.event)->Ok_0;
    assert(next == (SessionStateView { stream_version: record.stream_version, ..after }));
}

/// Whether some events are those at ascending places of a batch.
pub open spec fn picks(
    places: Seq<int>,
    some: Seq<SessionEventView>,
    batch: Seq<SessionEventView>,
) -> bool {
    &&& places.len() == some.len()
    &&& forall|i: int|
        0 <= i < places.len() ==> 0 <= #[trigger] places[i] < batch.len() && some[i]
            == batch[places[i]]
    &&& forall|i: int, j: int|
        0 <= i < j < places.len() ==> #[trigger] places[i] < #[trigger] places[j]
}

/// Whether some events are a part of a batch, in its order.
pub open spec fn is_subsequence(some: Seq<SessionEventView>, batch: Seq<SessionEventView>) -> bool {
    exists|places: Seq<int>| picks(places, some, batch)
}

/// A part of a batch stays a part when the batch gets one event more, with that event or without.
proof fn lemma_subsequence_extends(some: Seq<SessionEventView>, batch: Seq<SessionEventView>)
    requires
        batch.len() > 0,
        is_subsequence(some, batch.drop_last()),
    ensures
        is_subsequence(some, batch),
        is_subsequence(some.push(batch.last()), batch),
{
    let front = batch.drop_last();
    let places = choose|places: Seq<int>| picks(places, some, front);
    assert forall|i: int| 0 <= i < places.len() implies 0 <= #[trigger] places[i] < batch.len()
        && some[i] == batch[places[i]] by {
        assert(front[places[i]] == batch[places[i]]);
    }
    assert(picks(places, some, batch));
    let more = places.push(batch.len() - 1);
    assert(picks(more, some.push(batch.last()), batch));
}

/// The events that a decision keeps are a part of the batch, in its order.
pub proof fn effective_events_are_a_part(state: SessionStateView, events: Seq<SessionEventView>)
    ensures
        is_subsequence(effective(state, events), events),
    decreases events.len(),
{
    if events.len() == 0 {
        assert(picks(Seq::empty(), Seq::empty(), events));
    } else {
        effective_events_are_a_part(state, events.drop_last());
        lemma_subsequence_extends(effective(state, events.drop_last()), events);
    }
}

/// Whether records are the same but for their places among the events of all sessions, and for the
/// commands that led to them.
pub open spec fn same_but_for_place(
    left: Seq<EventRecordView>,
    right: Seq<EventRecordView>,
) -> bool {
    &&& left.len() == right.len()
    &&& forall|i: int|
        0 <= i < left.len() ==> (#[trigger] left[i]) == (EventRecordView {
            global_position: left[i].global_position,
            command_id: left[i].command_id,
            ..right[i]
        })
}

/// Neither the place of an event among those of all sessions nor its command has a part in the
/// state.
pub proof fn place_and_command_do_not_matter(
    session_id: Seq<char>,
    left: Seq<EventRecordView>,
    right: Seq<EventRecordView>,
)
    requires
        same_but_for_place(left, right),
    ensures
        replayed(session_id, left) == replayed(session_id, right),
    decreases left.len(),
{
    if left.len() > 0 {
        assert(same_but_for_place(left.drop_last(), right.drop_last())) by {
            assert forall|i: int| 0 <= i < left.drop_last().len() implies (
            #[trigger] left.drop_last()[i]) == (EventRecordView {
                global_position: left.drop_last()[i].global_position,
                command_id: left.drop_last()[i].command_id,
                ..right.drop_last()[i]
            }) by {
                assert(left.drop_last()[i] == left[i]);
            }
        }
        place_and_command_do_not_matter(session_id, left.drop_last(), right.drop_last());
        assert(left[left.len() - 1] == left.last());
    }
}

} // verus!
