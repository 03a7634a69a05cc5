//! How events change the state of a session.
//!
//! Each kind of event has a spec function whose name ends in `_step`: the state that it leads to,
//! and whether it has an effect, or the fault for which it is refused. The steps are opaque; a
//! proof about one of them reveals it.

use self::delivery::{acknowledge_step, append_step, materialize_step, queue_step};
use self::handoff::{document_step, handoff_failed_step, plan_step};
use self::laws::{distinct_keys, ended_call_never_changes, refused_event_changes_nothing};
use self::model::{
    abandoned_step, activation_finished_step, activation_started_step, attempt_ended_step,
    attempt_started_step, completed_step, current_attempt, exhausted_step, model_failed_step,
    request_declared_step, retry_step, round_started_step,
};
use self::step::{changed, kept, left_by, outcome, refused, Step};
use self::tools::{
    call_ended_step, call_running_step, call_started_step, callback_ended_step,
    callback_planned_step, outcome_unknown_step, progress_step, restarted_step, CallEnd,
    CallEndView,
};
use self::waits::{timer_step, wait_ended_step, wait_set_step};
use super::dedupe::remembered;
use super::error::{fault_of, DomainError, DomainErrorView};
use super::event::{event_fault, EventRecord, EventRecordView, SessionEvent, SessionEventView};
use super::model::{
    ModelAttemptOutcome, ModelAttemptRecord, ModelAttemptRecordView, ModelRequestFact,
    ModelRequestFactView,
};
use super::rules::{identifier_fault, validate_identifier};
use super::selection::{SessionOwner, SessionOwnerView, SessionSelection, SessionSelectionView};
use super::state::{
    fresh_state, state_fault, DomainDecision, DomainDecisionView, SessionState, SessionStateView,
};
use super::tools::terminal;
use super::{EVENT_SCHEMA_VERSION, MAX_RECENT_DEDUPE_FACTS};
use crate::checks::{fault_if, Checks};
use crate::datum::Datum;
use crate::text::{joined, same_text};
use crate::text_map::lookup;
use vstd::prelude::*;

pub mod batch;
pub mod batch_laws;
pub mod count;
pub mod delivery;
pub mod effects;
pub mod handoff;
pub mod laws;
pub mod model;
pub mod model_effects;
pub mod refusals;
pub mod step;
pub mod tool_effects;
pub mod tools;
pub mod waits;

verus! {

/// A session is created, under the id that its stream has.
#[verifier::opaque]
pub open spec fn created_step(
    state: SessionStateView,
    session_id: Seq<char>,
    owner: SessionOwnerView,
    created_at_ms: i64,
    selection: SessionSelectionView,
) -> Step {
    if session_id != state.session_id {
        refused(
            DomainErrorView::SessionMismatch { expected: state.session_id, actual: session_id },
        )
    } else {
        changed(
            SessionStateView {
                owner: Some(owner),
                created_at_ms: Some(created_at_ms),
                selection,
                selection_version: 1,
                ..state
            },
        )
    }
}

/// The selection is replaced by its next version.
#[verifier::opaque]
pub open spec fn reselected_step(state: SessionStateView, selection: SessionSelectionView) -> Step {
    if state.selection_version == u64::MAX {
        refused(DomainErrorView::VersionOverflow)
    } else {
        changed(
            SessionStateView {
                selection,
                selection_version: (state.selection_version + 1) as u64,
                ..state
            },
        )
    }
}

/// A key is seen. It becomes the newest one; where it is that already, the event has no effect.
#[verifier::opaque]
pub open spec fn dedupe_step(state: SessionStateView, key: Seq<char>) -> Step {
    let keys = state.dedupe_facts.recent_keys;
    Ok(
        (
            SessionStateView { dedupe_facts: remembered(state.dedupe_facts, key), ..state },
            !(keys.len() > 0 && keys.last() == key),
        ),
    )
}

/// What an event does to a state.
pub open spec fn payload_step(state: SessionStateView, event: SessionEventView) -> Step {
    match event {
        SessionEventView::SessionCreated {
            session_id,
            owner,
            created_at_ms,
            selection,
            ..
        } => created_step(state, session_id, owner, created_at_ms, selection),
        SessionEventView::ModelSelectionChanged { selection } => reselected_step(state, selection),
        SessionEventView::StatusChanged { status } => if state.status == status {
            kept(state)
        } else {
            changed(SessionStateView { status, ..state })
        },
        SessionEventView::DeliveryQueued { delivery } => queue_step(state, delivery),
        SessionEventView::DeliveryAcknowledged { through_queue_id } => acknowledge_step(
            state,
            through_queue_id,
        ),
        SessionEventView::DeliveryMaterialized { queue_id, message } => materialize_step(
            state,
            queue_id,
            message,
        ),
        SessionEventView::MessageAppended { message, wake_wait } => append_step(
            state,
            message,
            wake_wait,
        ),
        SessionEventView::ActivationStarted {
            activation_id,
            selection,
            selection_version,
            minimum_auth_revision,
            started_at_ms,
        } => activation_started_step(
            state,
            activation_id,
            selection,
            selection_version,
            minimum_auth_revision,
            started_at_ms,
        ),
        SessionEventView::ModelRoundStarted {
            activation_id,
            round_id,
            purpose,
            delivery_through_queue_id,
            started_at_ms,
        } => round_started_step(
            state,
            activation_id,
            round_id,
            purpose,
            delivery_through_queue_id,
            started_at_ms,
        ),
        SessionEventView::ContextHandoffPlanned { plan } => plan_step(state, plan),
        SessionEventView::ContextHandoffCreated { handoff } => document_step(state, handoff),
        SessionEventView::ContextHandoffFailed { plan_id, error, .. } => handoff_failed_step(
            state,
            plan_id,
            error,
        ),
        SessionEventView::ModelRequestPrepared {
            activation_id,
            round_id,
            request_id,
            request_fingerprint,
            provider_execution_fingerprint,
            prompt_fingerprint,
            tool_schema_fingerprint,
            envelope,
            maximum_attempts,
            minimum_auth_revision,
        } => request_declared_step(
            state,
            ModelRequestFactView {
                activation_id,
                round_id,
                request_id,
                request_fingerprint,
                provider_execution_fingerprint,
                prompt_fingerprint,
                tool_schema_fingerprint,
                legacy_envelope: Some(envelope),
                maximum_attempts,
                minimum_auth_revision,
            },
        ),
        SessionEventView::ModelRequestDeclared {
            activation_id,
            round_id,
            request_id,
            request_fingerprint,
            provider_execution_fingerprint,
            prompt_fingerprint,
            tool_schema_fingerprint,
            maximum_attempts,
            minimum_auth_revision,
        } => request_declared_step(
            state,
            ModelRequestFactView {
                activation_id,
                round_id,
                request_id,
                request_fingerprint,
                provider_execution_fingerprint,
                prompt_fingerprint,
                tool_schema_fingerprint,
                legacy_envelope: None,
                maximum_attempts,
                minimum_auth_revision,
            },
        ),
        SessionEventView::ModelAttemptStarted {
            activation_id,
            round_id,
            request_id,
            attempt_id,
            attempt_number,
            auth_revision,
            started_at_ms,
        } => attempt_started_step(
            state,
            ModelAttemptRecordView {
                activation_id,
                round_id,
                request_id,
                attempt_id,
                attempt_number,
                auth_revision,
                started_at_ms,
                outcome: ModelAttemptOutcome::Running,
            },
        ),
        SessionEventView::ModelAttemptFailedFact {
            activation_id,
            round_id,
            request_id,
            attempt_id,
            attempt_number,
            ..
        } => attempt_ended_step(
            state,
            current_attempt(
                state,
                activation_id,
                round_id,
                request_id,
                attempt_id,
                attempt_number,
            ),
            ModelAttemptOutcome::Failed,
            "model attempt failure is not first-wins"@,
        ),
        SessionEventView::ModelAttemptInterrupted {
            activation_id,
            round_id,
            request_id,
            attempt_id,
            attempt_number,
            ..
        } => attempt_ended_step(
            state,
            current_attempt(
                state,
                activation_id,
                round_id,
                request_id,
                attempt_id,
                attempt_number,
            ),
            ModelAttemptOutcome::Interrupted,
            "model attempt interruption is not first-wins"@,
        ),
        SessionEventView::ModelRequestAbandoned {
            activation_id,
            round_id,
            request_id,
            attempt_id,
            ..
        } => abandoned_step(state, activation_id, round_id, request_id, attempt_id),
        SessionEventView::ModelAttemptsExhausted { fact } => exhausted_step(state, fact),
        SessionEventView::ModelStepRetryScheduled { schedule } => retry_step(state, schedule),
        SessionEventView::ModelRequestCompleted {
            activation_id,
            round_id,
            request_id,
            attempt_id,
            usage,
        } => completed_step(state, activation_id, round_id, request_id, attempt_id, usage),
        SessionEventView::ActivationFinished { activation_id, .. } => activation_finished_step(
            state,
            activation_id,
        ),
        SessionEventView::ModelAttemptFailed { failure } => model_failed_step(state, failure),
        SessionEventView::WaitSet { wait } => wait_set_step(state, wait),
        SessionEventView::WaitTimerScheduled { timer } => timer_step(state, timer),
        SessionEventView::WaitCleared { wait_id } => wait_ended_step(state, wait_id),
        SessionEventView::WaitExpired { wait_id } => wait_ended_step(state, wait_id),
        SessionEventView::AsyncToolCallStarted { record } => call_started_step(state, record),
        SessionEventView::AsyncToolCallRunning { tool_call_id } => call_running_step(
            state,
            tool_call_id,
        ),
        SessionEventView::AsyncToolCallUnknownOutcome { tool_call_id, .. } => outcome_unknown_step(
            state,
            tool_call_id,
        ),
        SessionEventView::AsyncToolCallRuntimeRestarted {
            tool_call_id,
            reason,
            completed_at_ms,
        } => restarted_step(state, tool_call_id, reason, completed_at_ms),
        SessionEventView::AsyncToolCallCallbackPlanned { binding } => callback_planned_step(
            state,
            binding,
        ),
        SessionEventView::AsyncToolCallCallbackCompleted {
            callback_id,
            tool_call_id,
            payload_fingerprint,
            result,
            completed_at_ms,
        } => callback_ended_step(
            state,
            callback_id,
            tool_call_id,
            payload_fingerprint,
            CallEndView::Completed(result),
            completed_at_ms,
        ),
        SessionEventView::AsyncToolCallCallbackFailed {
            callback_id,
            tool_call_id,
            payload_fingerprint,
            error,
            completed_at_ms,
        } => callback_ended_step(
            state,
            callback_id,
            tool_call_id,
            payload_fingerprint,
            CallEndView::Failed(error),
            completed_at_ms,
        ),
        SessionEventView::AsyncToolCallProgress { tool_call_id, progress } => progress_step(
            state,
            tool_call_id,
            progress,
        ),
        SessionEventView::AsyncToolCallCompleted { tool_call_id, result, completed_at_ms } =>
            call_ended_step(state, tool_call_id, CallEndView::Completed(result), completed_at_ms),
        SessionEventView::AsyncToolCallFailed { tool_call_id, error, completed_at_ms } =>
            call_ended_step(state, tool_call_id, CallEndView::Failed(error), completed_at_ms),
        SessionEventView::AsyncToolCallCancelled { tool_call_id, reason, completed_at_ms } =>
            call_ended_step(state, tool_call_id, CallEndView::Cancelled(reason), completed_at_ms),
        SessionEventView::DedupeRecorded { key } => dedupe_step(state, key),
    }
}

/// The creation is the first event of a stream, and only that.
pub open spec fn position_fault(
    state: SessionStateView,
    event: SessionEventView,
) -> Option<DomainErrorView> {
    if state.stream_version == 0 && !(event is SessionCreated) {
        Some(DomainErrorView::SessionNotCreated)
    } else if state.stream_version != 0 && event is SessionCreated {
        Some(DomainErrorView::SessionAlreadyCreated)
    } else {
        None
    }
}

/// The state after an event at its place in the stream, or why the event is refused.
pub open spec fn admitted_step(state: SessionStateView, event: SessionEventView) -> Step {
    if let Some(fault) = position_fault(state, event) {
        refused(fault)
    } else if let Some(fault) = event_fault(event) {
        refused(fault)
    } else {
        payload_step(state, event)
    }
}

/// A state, or the fault that stands in its way.
pub type Projection = Result<SessionStateView, DomainErrorView>;

/// The projection that a result holds.
pub open spec fn projection(result: Result<SessionState, DomainError>) -> Projection {
    match result {
        Ok(state) => Ok(state.deep_view()),
        Err(error) => Err(error.deep_view()),
    }
}

/// A state, if it is valid.
pub open spec fn if_valid(state: SessionStateView) -> Projection {
    match state_fault(state) {
        None => Ok(state),
        Some(fault) => Err(fault),
    }
}

/// The state after an event that is applied to a valid state. An event that takes effect advances
/// the stream by one.
pub open spec fn reduced(state: SessionStateView, event: SessionEventView) -> Projection {
    match admitted_step(state, event) {
        Err(fault) => Err(fault),
        Ok((next, effective)) => if !effective {
            Ok(next)
        } else if next.stream_version == u64::MAX {
            Err(DomainErrorView::VersionOverflow)
        } else {
            Ok(SessionStateView { stream_version: (next.stream_version + 1) as u64, ..next })
        },
    }
}

/// The valid state after an event that is applied to a valid state.
pub open spec fn applied(state: SessionStateView, event: SessionEventView) -> Projection {
    match if_valid(state) {
        Err(fault) => Err(fault),
        Ok(valid) => match reduced(valid, event) {
            Err(fault) => Err(fault),
            Ok(next) => if_valid(next),
        },
    }
}

/// The state after events that are applied one after the other.
pub open spec fn applied_all(state: SessionStateView, events: Seq<SessionEventView>) -> Projection
    decreases events.len(),
{
    if events.len() == 0 {
        Ok(state)
    } else {
        match applied_all(state, events.drop_last()) {
            Ok(before) => applied(before, events.last()),
            Err(fault) => Err(fault),
        }
    }
}

/// The valid state after some events, if each of them applies.
pub open spec fn applied_events(
    state: SessionStateView,
    events: Seq<SessionEventView>,
) -> Projection {
    match applied_all(state, events) {
        Ok(after) => if_valid(after),
        Err(fault) => Err(fault),
    }
}

/// The events that advance the stream when they are applied one after the other.
pub open spec fn effective(state: SessionStateView, events: Seq<SessionEventView>) -> Seq<
    SessionEventView,
>
    decreases events.len(),
{
    if events.len() == 0 {
        Seq::empty()
    } else {
        let earlier = effective(state, events.drop_last());
        match (applied_all(state, events.drop_last()), applied_all(state, events)) {
            (Ok(before), Ok(after)) if after.stream_version != before.stream_version =>
                earlier.push(events.last()),
            _ => earlier,
        }
    }
}

/// The decision on a batch: it must not be empty, the state must be valid, and every event must
/// apply.
pub open spec fn decided(state: SessionStateView, events: Seq<SessionEventView>) -> Result<
    DomainDecisionView,
    DomainErrorView,
> {
    if events.len() == 0 {
        Err(DomainErrorView::EmptyEventBatch)
    } else {
        match applied_all(state, events) {
            Err(fault) => Err(fault),
            Ok(after) => Ok(
                DomainDecisionView { effective_events: effective(state, events), state: after },
            ),
        }
    }
}

/// The key under which an event id is remembered.
pub open spec fn event_key(event_id: Seq<char>) -> Seq<char> {
    "event:"@ + event_id
}

/// The state that remembers an event id.
pub open spec fn with_event_id(state: SessionStateView, event_id: Seq<char>) -> SessionStateView {
    SessionStateView { dedupe_facts: remembered(state.dedupe_facts, event_key(event_id)), ..state }
}

/// Why an event id cannot be remembered: it must be an identifier, and new.
pub open spec fn event_id_fault(state: SessionStateView, event_id: Seq<char>) -> Option<
    DomainErrorView,
> {
    identifier_fault("event_id"@, event_id).before(
        fault_if(
            state.dedupe_facts.recent_keys.contains(event_key(event_id)),
            DomainErrorView::DuplicateEventId(event_id),
        ),
    )
}

/// The valid state after a stored event, which must be of this stream, be the next one, and be
/// new.
pub open spec fn recorded(state: SessionStateView, record: EventRecordView) -> Projection {
    if record.event_schema_version != EVENT_SCHEMA_VERSION {
        Err(DomainErrorView::UnsupportedEventSchema(record.event_schema_version))
    } else if record.stream_id != state.session_id {
        Err(
            DomainErrorView::SessionMismatch {
                expected: state.session_id,
                actual: record.stream_id,
            },
        )
    } else if state.stream_version == u64::MAX {
        Err(DomainErrorView::VersionOverflow)
    } else if record.stream_version != state.stream_version + 1 {
        Err(
            DomainErrorView::StreamVersionGap {
                expected: (state.stream_version + 1) as u64,
                actual: record.stream_version,
            },
        )
    } else if state.dedupe_facts.recent_keys.contains(event_key(record.event_id)) {
        Err(DomainErrorView::DuplicateEventId(record.event_id))
    } else {
        match admitted_step(state, record.event) {
            Err(fault) => Err(fault),
            Ok((next, _)) => if_valid(
                with_event_id(
                    SessionStateView { stream_version: record.stream_version, ..next },
                    record.event_id,
                ),
            ),
        }
    }
}

/// The valid state after a stored event that meets a valid state.
pub open spec fn record_applied(state: SessionStateView, record: EventRecordView) -> Projection {
    match if_valid(state) {
        Err(fault) => Err(fault),
        Ok(valid) => recorded(valid, record),
    }
}

/// The state that the records of a stream amount to.
pub open spec fn replayed(session_id: Seq<char>, records: Seq<EventRecordView>) -> Projection
    decreases records.len(),
{
    if records.len() == 0 {
        Ok(fresh_state(session_id))
    } else {
        match replayed(session_id, records.drop_last()) {
            Ok(before) => record_applied(before, records.last()),
            Err(fault) => Err(fault),
        }
    }
}

proof fn lemma_applied_all_step(
    state: SessionStateView,
    events: Seq<SessionEventView>,
    index: int,
)
    requires
        0 <= index < events.len(),
    ensures
        applied_all(state, events.take(index + 1)) == match applied_all(
            state,
            events.take(index),
        ) {
            Ok(before) => applied(before, events[index]),
            Err(fault) => Err(fault),
        },
        events.take(index + 1).drop_last() == events.take(index),
        events.take(index + 1).last() == events[index],
{
    assert(events.take(index + 1).drop_last() =~= events.take(index));
}

proof fn lemma_applied_all_prefix(
    state: SessionStateView,
    events: Seq<SessionEventView>,
    index: int,
)
    requires
        0 <= index <= events.len(),
        applied_all(state, events.take(index)) is Err,
    ensures
        applied_all(state, events) == applied_all(state, events.take(index)),
    decreases events.len() - index,
{
    if index == events.len() {
        assert(events.take(index) =~= events);
    } else {
        lemma_applied_all_step(state, events, index);
        lemma_applied_all_prefix(state, events, index + 1);
    }
}

proof fn lemma_replayed_step(session_id: Seq<char>, records: Seq<EventRecordView>, index: int)
    requires
        0 <= index < records.len(),
    ensures
        replayed(session_id, records.take(index + 1)) == match replayed(
            session_id,
            records.take(index),
        ) {
            Ok(before) => record_applied(before, records[index]),
            Err(fault) => Err(fault),
        },
{
    assert(records.take(index + 1).drop_last() =~= records.take(index));
}

proof fn lemma_replayed_prefix(session_id: Seq<char>, records: Seq<EventRecordView>, index: int)
    requires
        0 <= index <= records.len(),
        replayed(session_id, records.take(index)) is Err,
    ensures
        replayed(session_id, records) == replayed(session_id, records.take(index)),
    decreases records.len() - index,
{
    if index == records.len() {
        assert(records.take(index) =~= records);
    } else {
        lemma_replayed_step(session_id, records, index);
        lemma_replayed_prefix(session_id, records, index + 1);
    }
}

/// Whether the remembered keys are distinct, and no more than are kept.
pub open spec fn remembers_in_bounds(state: SessionStateView) -> bool {
    distinct_keys(state) && state.dedupe_facts.recent_keys.len() <= MAX_RECENT_DEDUPE_FACTS
}

/// Whether a tool call has ended.
pub open spec fn has_ended(state: SessionStateView, id: Seq<char>) -> bool {
    lookup(state.async_tool_calls, id) matches Some(record) && terminal(record.status)
}

impl SessionState {
    fn create(
        &mut self,
        session_id: &String,
        owner: &SessionOwner,
        created_at_ms: i64,
        selection: &SessionSelection,
    ) -> (result: Result<bool, DomainError>)
        ensures
            outcome(result, *final(self)) == created_step(
                old(self).deep_view(),
                session_id@,
                owner.deep_view(),
                created_at_ms,
                selection.deep_view(),
            ),
            result is Err ==> final(self).deep_view() == old(self).deep_view(),
    {
        proof {
            reveal(created_step);
        }
        if !same_text(session_id, &self.session_id) {
            return Err(
                DomainError::SessionMismatch {
                    expected: self.session_id.clone(),
                    actual: session_id.clone(),
                },
            );
        }
        self.owner = Some(owner.replica());
        self.created_at_ms = Some(created_at_ms);
        self.selection = selection.replica();
        self.selection_version = 1;
        Ok(true)
    }

    fn reselect(&mut self, selection: &SessionSelection) -> (result: Result<bool, DomainError>)
        ensures
            outcome(result, *final(self)) == reselected_step(
                old(self).deep_view(),
                selection.deep_view(),
            ),
            result is Err ==> final(self).deep_view() == old(self).deep_view(),
    {
        proof {
            reveal(reselected_step);
        }
        match self.selection_version.checked_add(1) {
            Some(version) => {
                self.selection = selection.replica();
                self.selection_version = version;
                Ok(true)
            },
            None => Err(DomainError::VersionOverflow),
        }
    }

    fn record_key(&mut self, key: &String) -> (result: Result<bool, DomainError>)
        ensures
            outcome(result, *final(self)) == dedupe_step(old(self).deep_view(), key@),
            result is Err ==> final(self).deep_view() == old(self).deep_view(),
    {
        proof {
            reveal(dedupe_step);
        }
        let known: usize = self.dedupe_facts.recent_keys.len();
        let newest = if known > 0 {
            same_text(&self.dedupe_facts.recent_keys[known - 1], key)
        } else {
            false
        };
        self.dedupe_facts.remember(key.clone());
        Ok(!newest)
    }

    /// Applies the payload of an event, and tells whether it took effect. The state is neither
    /// validated nor moved to its next version. An event that is refused or has no effect leaves
    /// the whole state as it is, and a tool call that has ended stays as it is in any case.
    pub fn apply_payload(&mut self, event: &SessionEvent) -> (result: Result<bool, DomainError>)
        ensures
            outcome(result, *final(self)) == payload_step(
                old(self).deep_view(),
                event.deep_view(),
            ),
            final(self).deep_view() == left_by(
                payload_step(old(self).deep_view(), event.deep_view()),
                old(self).deep_view(),
            ),
            remembers_in_bounds(old(self).deep_view()) ==> {
                &&& final(self).deep_view().session_id == old(self).deep_view().session_id
                &&& final(self).deep_view().stream_version == old(self).deep_view().stream_version
                &&& !(result matches Ok(true)) ==> final(self).deep_view() == old(
                    self,
                ).deep_view()
            },
            forall|id: Seq<char>|
                has_ended(old(self).deep_view(), id) ==> #[trigger] lookup(
                    final(self).deep_view().async_tool_calls,
                    id,
                ) == lookup(old(self).deep_view().async_tool_calls, id),
    {
        proof {
            let state = self.deep_view();
            let step = payload_step(state, event.deep_view());
            if remembers_in_bounds(state) {
                refused_event_changes_nothing(state, event.deep_view());
            }
            assert forall|id: Seq<char>| has_ended(state, id) implies #[trigger] lookup(
                left_by(step, state).async_tool_calls,
                id,
            ) == lookup(state.async_tool_calls, id) by {
                ended_call_never_changes(state, event.deep_view(), id);
            }
        }
        match event {
            SessionEvent::SessionCreated {
                session_id,
                owner,
                created_at_ms,
                selection,
                ..
            } => self.create(session_id, owner, *created_at_ms, selection),
            SessionEvent::ModelSelectionChanged { selection } => self.reselect(selection),
            SessionEvent::StatusChanged { status } => {
                if self.status == *status {
                    return Ok(false);
                }
                self.status = *status;
                Ok(true)
            },
            SessionEvent::DeliveryQueued { delivery } => self.queue_delivery(delivery),
            SessionEvent::DeliveryAcknowledged { through_queue_id } => {
                self.acknowledge_deliveries(*through_queue_id)
            },
            SessionEvent::DeliveryMaterialized { queue_id, message } => {
                self.materialize_delivery(*queue_id, message)
            },
            SessionEvent::MessageAppended { message, wake_wait } => {
                self.append_message(message, *wake_wait)
            },
            SessionEvent::ActivationStarted {
                activation_id,
                selection,
                selection_version,
                minimum_auth_revision,
                started_at_ms,
            } => self.start_activation(
                activation_id,
                selection,
                *selection_version,
                *minimum_auth_revision,
                *started_at_ms,
            ),
            SessionEvent::ModelRoundStarted {
                activation_id,
                round_id,
                purpose,
                delivery_through_queue_id,
                started_at_ms,
            } => self.start_round(
                activation_id,
                round_id,
                *purpose,
                *delivery_through_queue_id,
                *started_at_ms,
            ),
            SessionEvent::ContextHandoffPlanned { plan } => self.plan_handoff(plan),
            SessionEvent::ContextHandoffCreated { handoff } => self.create_handoff(handoff),
            SessionEvent::ContextHandoffFailed { plan_id, error, .. } => {
                self.fail_handoff(plan_id, error)
            },
            SessionEvent::ModelRequestPrepared {
                activation_id,
                round_id,
                request_id,
                request_fingerprint,
                provider_execution_fingerprint,
                prompt_fingerprint,
                tool_schema_fingerprint,
                envelope,
                maximum_attempts,
                minimum_auth_revision,
            } => self.declare_request(
                ModelRequestFact {
                    activation_id: activation_id.clone(),
                    round_id: round_id.clone(),
                    request_id: request_id.clone(),
                    request_fingerprint: request_fingerprint.clone(),
                    provider_execution_fingerprint: provider_execution_fingerprint.clone(),
                    prompt_fingerprint: prompt_fingerprint.clone(),
                    tool_schema_fingerprint: tool_schema_fingerprint.clone(),
                    legacy_envelope: Some(envelope.replica()),
                    maximum_attempts: *maximum_attempts,
                    minimum_auth_revision: *minimum_auth_revision,
                },
            ),
            SessionEvent::ModelRequestDeclared {
                activation_id,
                round_id,
                request_id,
                request_fingerprint,
                provider_execution_fingerprint,
                prompt_fingerprint,
                tool_schema_fingerprint,
                maximum_attempts,
                minimum_auth_revision,
            } => self.declare_request(
                ModelRequestFact {
                    activation_id: activation_id.clone(),
                    round_id: round_id.clone(),
                    request_id: request_id.clone(),
                    request_fingerprint: request_fingerprint.clone(),
                    provider_execution_fingerprint: provider_execution_fingerprint.clone(),
                    prompt_fingerprint: prompt_fingerprint.clone(),
                    tool_schema_fingerprint: tool_schema_fingerprint.clone(),
                    legacy_envelope: None,
                    maximum_attempts: *maximum_attempts,
                    minimum_auth_revision: *minimum_auth_revision,
                },
            ),
            SessionEvent::ModelAttemptStarted {
                activation_id,
                round_id,
                request_id,
                attempt_id,
                attempt_number,
                auth_revision,
                started_at_ms,
            } => self.start_attempt(
                ModelAttemptRecord {
                    activation_id: activation_id.clone(),
                    round_id: round_id.clone(),
                    request_id: request_id.clone(),
                    attempt_id: attempt_id.clone(),
                    attempt_number: *attempt_number,
                    auth_revision: *auth_revision,
                    started_at_ms: *started_at_ms,
                    outcome: ModelAttemptOutcome::Running,
                },
            ),
            SessionEvent::ModelAttemptFailedFact {
                activation_id,
                round_id,
                request_id,
                attempt_id,
                attempt_number,
                ..
            } => self.end_attempt(
                activation_id,
                round_id,
                request_id,
                attempt_id,
                *attempt_number,
                ModelAttemptOutcome::Failed,
                "model attempt failure is not first-wins",
            ),
            SessionEvent::ModelAttemptInterrupted {
                activation_id,
                round_id,
                request_id,
                attempt_id,
                attempt_number,
                ..
            } => self.end_attempt(
                activation_id,
                round_id,
                request_id,
                attempt_id,
                *attempt_number,
                ModelAttemptOutcome::Interrupted,
                "model attempt interruption is not first-wins",
            ),
            SessionEvent::ModelRequestAbandoned {
                activation_id,
                round_id,
                request_id,
                attempt_id,
                ..
            } => self.abandon_request(activation_id, round_id, request_id, attempt_id),
            SessionEvent::ModelAttemptsExhausted { fact } => self.exhaust_attempts(fact),
            SessionEvent::ModelStepRetryScheduled { schedule } => self.schedule_retry(schedule),
            SessionEvent::ModelRequestCompleted {
                activation_id,
                round_id,
                request_id,
                attempt_id,
                usage,
            } => self.complete_request(activation_id, round_id, request_id, attempt_id, usage),
            SessionEvent::ActivationFinished { activation_id, .. } => {
                self.finish_activation(activation_id)
            },
            SessionEvent::ModelAttemptFailed { failure } => self.fail_model(failure),
            SessionEvent::WaitSet { wait } => self.set_wait(wait),
            SessionEvent::WaitTimerScheduled { timer } => self.schedule_timer(timer),
            SessionEvent::WaitCleared { wait_id } => self.end_wait(wait_id),
            SessionEvent::WaitExpired { wait_id } => self.end_wait(wait_id),
            SessionEvent::AsyncToolCallStarted { record } => self.start_call(record),
            SessionEvent::AsyncToolCallRunning { tool_call_id } => self.run_call(tool_call_id),
            SessionEvent::AsyncToolCallUnknownOutcome { tool_call_id, .. } => {
                self.lose_call_outcome(tool_call_id)
            },
            SessionEvent::AsyncToolCallRuntimeRestarted {
                tool_call_id,
                reason,
                completed_at_ms,
            } => self.restart_call(tool_call_id, reason, *completed_at_ms),
            SessionEvent::AsyncToolCallCallbackPlanned { binding } => self.plan_callback(binding),
            SessionEvent::AsyncToolCallCallbackCompleted {
                callback_id,
                tool_call_id,
                payload_fingerprint,
                result,
                completed_at_ms,
            } => self.end_callback(
                callback_id,
                tool_call_id,
                payload_fingerprint,
                CallEnd::Completed(result.replica()),
                *completed_at_ms,
            ),
            SessionEvent::AsyncToolCallCallbackFailed {
                callback_id,
                tool_call_id,
                payload_fingerprint,
                error,
                completed_at_ms,
            } => self.end_callback(
                callback_id,
                tool_call_id,
                payload_fingerprint,
                CallEnd::Failed(error.replica()),
                *completed_at_ms,
            ),
            SessionEvent::AsyncToolCallProgress { tool_call_id, progress } => {
                self.report_progress(tool_call_id, progress)
            },
            SessionEvent::AsyncToolCallCompleted { tool_call_id, result, completed_at_ms } => {
                self.end_tool_call(
                    tool_call_id,
                    CallEnd::Completed(result.replica()),
                    *completed_at_ms,
                )
            },
            SessionEvent::AsyncToolCallFailed { tool_call_id, error, completed_at_ms } => {
                self.end_tool_call(tool_call_id, CallEnd::Failed(error.replica()), *completed_at_ms)
            },
            SessionEvent::AsyncToolCallCancelled { tool_call_id, reason, completed_at_ms } => {
                self.end_tool_call(
                    tool_call_id,
                    CallEnd::Cancelled(reason.clone()),
                    *completed_at_ms,
                )
            },
            SessionEvent::DedupeRecorded { key } => self.record_key(key),
        }
    }

    fn validate_event_position(&self, event: &SessionEvent) -> (result: Result<(), DomainError>)
        ensures
            fault_of(result) == position_fault(self.deep_view(), event.deep_view()),
    {
        match (self.stream_version, event) {
            (0, SessionEvent::SessionCreated { .. }) => Ok(()),
            (0, _) => Err(DomainError::SessionNotCreated),
            (_, SessionEvent::SessionCreated { .. }) => Err(DomainError::SessionAlreadyCreated),
            _ => Ok(()),
        }
    }

    fn take_in(&mut self, event: &SessionEvent) -> (result: Result<bool, DomainError>)
        ensures
            outcome(result, *final(self)) == admitted_step(
                old(self).deep_view(),
                event.deep_view(),
            ),
            result is Err ==> final(self).deep_view() == old(self).deep_view(),
    {
        self.validate_event_position(event)?;
        event.validate()?;
        self.apply_payload(event)
    }

    /// The state after one event. Both the state and the outcome must be valid.
    pub fn apply_event(&self, event: &SessionEvent) -> (result: Result<Self, DomainError>)
        ensures
            projection(result) == applied(self.deep_view(), event.deep_view()),
    {
        self.validate()?;
        let next = self.apply_event_from_valid_state(event)?;
        next.validate()?;
        Ok(next)
    }

    /// Applies one event to a state that the caller has validated as a whole. What the event itself
    /// must meet is checked here all the same.
    pub fn apply_event_from_valid_state(&self, event: &SessionEvent) -> (result: Result<
        Self,
        DomainError,
    >)
        ensures
            projection(result) == reduced(self.deep_view(), event.deep_view()),
    {
        self.replica().apply_event_from_valid_state_owned(event)
    }

    /// Applies one event to a validated state in place.
    pub fn apply_event_from_valid_state_owned(self, event: &SessionEvent) -> (result: Result<
        Self,
        DomainError,
    >)
        ensures
            projection(result) == reduced(self.deep_view(), event.deep_view()),
    {
        let mut state = self;
        if !state.take_in(event)? {
            return Ok(state);
        }
        match state.stream_version.checked_add(1) {
            Some(version) => {
                state.stream_version = version;
                Ok(state)
            },
            None => Err(DomainError::VersionOverflow),
        }
    }

    /// Applies a batch of events, and tells which of them advance the stream.
    pub fn decide_batch(&self, events: &[SessionEvent]) -> (result: Result<
        DomainDecision,
        DomainError,
    >)
        ensures
            match result {
                Ok(decision) => decided(self.deep_view(), events.deep_view()) == Ok::<
                    DomainDecisionView,
                    DomainErrorView,
                >(decision.deep_view()),
                Err(error) => decided(self.deep_view(), events.deep_view()) == Err::<
                    DomainDecisionView,
                    DomainErrorView,
                >(error.deep_view()),
            },
    {
        let ghost first = self.deep_view();
        let ghost all = events.deep_view();
        if events.len() == 0 {
            return Err(DomainError::EmptyEventBatch);
        }
        proof {
            lemma_applied_all_step(first, all, 0);
            assert(all.take(0) =~= Seq::empty());
            if state_fault(first) is Some {
                lemma_applied_all_prefix(first, all, 1);
            }
        }
        self.validate()?;
        let mut state = self.replica();
        let mut effective_events: Vec<SessionEvent> = Vec::with_capacity(events.len());
        assert(effective_events.deep_view() =~= Seq::empty());
        let mut index: usize = 0;
        while index < events.len()
            invariant
                all == events.deep_view(),
                index <= events.len(),
                applied_all(first, all.take(index as int)) == Ok::<
                    SessionStateView,
                    DomainErrorView,
                >(state.deep_view()),
                effective_events.deep_view() == effective(first, all.take(index as int)),
                events.len() > 0,
                first == self.deep_view(),
            decreases events.len() - index,
        {
            proof {
                lemma_applied_all_step(first, all, index as int);
                if applied_all(first, all.take(index + 1)) is Err {
                    lemma_applied_all_prefix(first, all, index + 1);
                }
            }
            let next = state.apply_event(&events[index])?;
            if next.stream_version != state.stream_version {
                let ghost earlier = effective_events.deep_view();
                effective_events.push(events[index].replica());
                assert(effective_events.deep_view() =~= earlier.push(all[index as int]));
            }
            state = next;
            index += 1;
        }
        assert(all.take(index as int) =~= all);
        Ok(DomainDecision { effective_events, state })
    }

    /// The valid state after a sequence of events.
    pub fn apply_events(&self, events: &[SessionEvent]) -> (result: Result<Self, DomainError>)
        ensures
            projection(result) == applied_events(self.deep_view(), events.deep_view()),
    {
        let ghost first = self.deep_view();
        let ghost all = events.deep_view();
        let mut state = self.replica();
        let mut index: usize = 0;
        assert(all.take(0) =~= Seq::empty());
        while index < events.len()
            invariant
                all == events.deep_view(),
                first == self.deep_view(),
                index <= events.len(),
                applied_all(first, all.take(index as int)) == Ok::<
                    SessionStateView,
                    DomainErrorView,
                >(state.deep_view()),
            decreases events.len() - index,
        {
            proof {
                lemma_applied_all_step(first, all, index as int);
                if applied_all(first, all.take(index + 1)) is Err {
                    lemma_applied_all_prefix(first, all, index + 1);
                }
            }
            state = state.apply_event(&events[index])?;
            index += 1;
        }
        assert(all.take(index as int) =~= all);
        state.validate()?;
        Ok(state)
    }

    /// The valid state after a stored event.
    pub fn apply_record(&self, record: &EventRecord) -> (result: Result<Self, DomainError>)
        ensures
            projection(result) == record_applied(self.deep_view(), record.deep_view()),
    {
        self.validate()?;
        self.replica().apply_record_from_valid_state_owned(record)
    }

    /// Applies a stored event to a validated state in place.
    pub fn apply_record_from_valid_state_owned(self, record: &EventRecord) -> (result: Result<
        Self,
        DomainError,
    >)
        ensures
            projection(result) == recorded(self.deep_view(), record.deep_view()),
    {
        let mut state = self;
        if record.event_schema_version != EVENT_SCHEMA_VERSION {
            return Err(DomainError::UnsupportedEventSchema(record.event_schema_version));
        }
        if !same_text(&record.stream_id, &state.session_id) {
            return Err(
                DomainError::SessionMismatch {
                    expected: state.session_id.clone(),
                    actual: record.stream_id.clone(),
                },
            );
        }
        let expected: u64 = match state.stream_version.checked_add(1) {
            Some(expected) => expected,
            None => {
                return Err(DomainError::VersionOverflow);
            },
        };
        if record.stream_version != expected {
            return Err(
                DomainError::StreamVersionGap { expected, actual: record.stream_version },
            );
        }
        let key = joined("event:", &record.event_id);
        if state.dedupe_facts.contains(&key) {
            return Err(DomainError::DuplicateEventId(record.event_id.clone()));
        }
        state.take_in(&record.event)?;
        state.stream_version = record.stream_version;
        state.dedupe_facts.remember(key);
        state.validate()?;
        Ok(state)
    }

    /// Remembers the id of an event that was stored after its payload had been applied.
    pub fn remember_committed_event_id(&mut self, event_id: &str) -> (result: Result<
        (),
        DomainError,
    >)
        ensures
            fault_of(result) == event_id_fault(old(self).deep_view(), event_id@),
            final(self).deep_view() == if result is Ok {
                with_event_id(old(self).deep_view(), event_id@)
            } else {
                old(self).deep_view()
            },
    {
        validate_identifier("event_id", event_id)?;
        let key = joined("event:", event_id);
        if self.dedupe_facts.contains(&key) {
            return Err(DomainError::DuplicateEventId(event_id.to_string()));
        }
        self.dedupe_facts.remember(key);
        Ok(())
    }

    /// Rebuilds a state from the records of its stream, in order, or gives the first fault.
    pub fn replay(session_id: String, records: &[EventRecord]) -> (result: Result<
        Self,
        DomainError,
    >)
        ensures
            projection(result) == replayed(session_id@, records.deep_view()),
    {
        let ghost id = session_id@;
        let ghost all = records.deep_view();
        let mut state = SessionState::new(session_id);
        let mut index: usize = 0;
        assert(all.take(0) =~= Seq::empty());
        while index < records.len()
            invariant
                all == records.deep_view(),
                index <= records.len(),
                replayed(id, all.take(index as int)) == Ok::<SessionStateView, DomainErrorView>(
                    state.deep_view(),
                ),
                id == session_id@,
            decreases records.len() - index,
        {
            proof {
                lemma_replayed_step(id, all, index as int);
                if replayed(id, all.take(index + 1)) is Err {
                    lemma_replayed_prefix(id, all, index + 1);
                }
            }
            state = state.apply_record(&records[index])?;
            index += 1;
        }
        assert(all.take(index as int) =~= all);
        Ok(state)
    }
}

} // verus!
