//! What a batch of events, and the records of a stream, lead to.

use super::{
    applied, applied_all, applied_events, decided, effective, event_id_fault, event_key,
    record_applied, replayed, with_event_id,
};
use super::effects::{after, is_refused};
use super::laws::newest_key_is_remembered;
use crate::domain::error::DomainErrorView;
use crate::domain::event::{event_fault, EventRecordView, SessionEventView};
use crate::domain::rules::identifier_fault;
use crate::domain::state::{fresh_state, valid_state, SessionStateView};
use crate::domain::validity::is_identifier;
use vstd::prelude::*;

verus! {

/// Events are applied one after the other, each to what those before it led to, and the first that
/// is refused has the whole batch refused with its fault. An event that advances the stream is
/// kept, and no other.
pub proof fn events_are_applied_in_turn(
    state: SessionStateView,
    events: Seq<SessionEventView>,
    event: SessionEventView,
)
    ensures
        applied_all(state, Seq::<SessionEventView>::empty()) matches Ok(same) && same == state,
        effective(state, Seq::<SessionEventView>::empty()).len() == 0,
        applied_all(state, events) is Err ==> applied_all(state, events.push(event)) == applied_all(
            state,
            events,
        ) && effective(state, events.push(event)) == effective(state, events),
        applied_all(state, events) matches Ok(between) ==> {
            &&& applied_all(state, events.push(event)) == applied(between, event)
            &&& effective(state, events.push(event)) == if applied(between, event) matches Ok(next)
                && next.stream_version != between.stream_version {
                effective(state, events).push(event)
            } else {
                effective(state, events)
            }
        },
{
    assert(events.push(event).drop_last() =~= events);
}

/// A batch must hold an event. It is decided as its events apply, and the decision holds the events
/// that took effect and the state that they lead to; a batch that is applied leads to a valid
/// state.
pub proof fn batches_are_decided(state: SessionStateView, events: Seq<SessionEventView>)
    ensures
        events.len() == 0 ==> (decided(state, events) matches Err(fault) && fault
            == DomainErrorView::EmptyEventBatch),
        events.len() > 0 ==> match applied_all(state, events) {
            Err(fault) => decided(state, events) matches Err(told) && told == fault,
            Ok(next) => decided(state, events) matches Ok(decision) && decision.state == next
                && decision.effective_events == effective(state, events),
        },
        applied_events(state, events) matches Ok(next) ==> valid_state(next) && (applied_all(
            state,
            events,
        ) matches Ok(same) && same == next),
        (applied_all(state, events) matches Ok(next) && valid_state(next)) ==> applied_events(
            state,
            events,
        ) is Ok,
        applied_all(state, events) matches Err(fault)
            ==> (applied_events(state, events) matches Err(
            told,
        ) && told == fault),
{
}

/// A record is taken exactly if it is of the first schema, of this stream, the next one and new,
/// its event is sound, at its place and accepted, and the state that it leads to is valid. That
/// state is at the version of the record and remembers its id.
pub proof fn records_are_taken_in_turn(state: SessionStateView, record: EventRecordView)
    ensures
        record_applied(state, record) is Ok <==> {
            &&& valid_state(state)
            &&& record.event_schema_version == 1
            &&& record.stream_id == state.session_id
            &&& record.stream_version == state.stream_version + 1
            &&& !state.dedupe_facts.recent_keys.contains("event:"@ + record.event_id)
            &&& event_fault(record.event) is None
            &&& record.event is SessionCreated <==> state.stream_version == 0
            &&& !is_refused(state, record.event)
            &&& valid_state(
                with_event_id(
                    SessionStateView {
                        stream_version: record.stream_version,
                        ..after(state, record.event)
                    },
                    record.event_id,
                ),
            )
        },
        record_applied(state, record) matches Ok(next) ==> next == with_event_id(
            SessionStateView {
                stream_version: record.stream_version,
                ..after(state, record.event)
            },
            record.event_id,
        ),
{
}

/// A record that is not taken is refused by the first thing that is wrong with it.
pub proof fn records_are_refused_by_their_fault(state: SessionStateView, record: EventRecordView)
    requires
        valid_state(state),
    ensures
        record.event_schema_version != 1 ==> (record_applied(state, record) matches Err(fault)
            && fault == DomainErrorView::UnsupportedEventSchema(record.event_schema_version)),
        record.event_schema_version == 1 && record.stream_id != state.session_id ==> (
        record_applied(state, record) matches Err(fault) && fault
            == (DomainErrorView::SessionMismatch {
            expected: state.session_id,
            actual: record.stream_id,
        })),
        record.event_schema_version == 1 && record.stream_id == state.session_id
            && state.stream_version < u64::MAX && record.stream_version != state.stream_version + 1
            ==> (record_applied(state, record) matches Err(fault)
            && fault matches DomainErrorView::StreamVersionGap { expected, actual } && expected
            == state.stream_version + 1 && actual == record.stream_version),
        record.event_schema_version == 1 && record.stream_id == state.session_id
            && record.stream_version == state.stream_version + 1
            && state.dedupe_facts.recent_keys.contains("event:"@ + record.event_id) ==> (
        record_applied(state, record) matches Err(fault) && fault
            == DomainErrorView::DuplicateEventId(record.event_id)),
{
}

/// A stream is replayed from a new session, record after record.
pub proof fn streams_are_replayed_in_turn(
    session_id: Seq<char>,
    records: Seq<EventRecordView>,
    record: EventRecordView,
)
    ensures
        replayed(session_id, Seq::<EventRecordView>::empty()) matches Ok(state) && state
            == fresh_state(session_id),
        replayed(session_id, records) matches Ok(state) ==> replayed(
            session_id,
            records.push(record),
        ) == record_applied(state, record),
{
    assert(records.push(record).drop_last() =~= records);
}

/// The id of an event can be remembered exactly if it can name something and is new. It is
/// remembered under a key of its own kind, and nothing else changes.
pub proof fn event_ids_are_remembered(state: SessionStateView, event_id: Seq<char>)
    ensures
        event_id_fault(state, event_id) is None <==> is_identifier(event_id)
            && !state.dedupe_facts.recent_keys.contains("event:"@ + event_id),
        event_key(event_id) == "event:"@ + event_id,
        ({
            let next = with_event_id(state, event_id);
            &&& next == (SessionStateView { dedupe_facts: next.dedupe_facts, ..state })
            &&& next.dedupe_facts.recent_keys.len() > 0
            &&& next.dedupe_facts.recent_keys.last() == "event:"@ + event_id
        }),
{
    reveal(identifier_fault);
    newest_key_is_remembered(state.dedupe_facts, event_key(event_id));
}

} // verus!
