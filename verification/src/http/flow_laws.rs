//! What a command, the creation of a session and a stream of events do next, whatever comes in.

use crate::domain::event::EventRecordView;
use crate::domain::selection::{SessionModelSelectionView, SessionSelectionView};
use crate::domain::state::SessionStateView;
use crate::http::commands::{
    delivery_draft_of, message_draft_of, model_draft_of, replayed_command, requested_delivery_of,
    AppendResultView, CommandRequestView, MessageCommandView,
};
use crate::http::create::{
    all_offered, is_offered, created_replica_step, created_step, looked_up_step, CreateActionView,
    CreateFlowView, CreatePhase, CreatedSessionView,
};
use crate::http::errors::{ServiceErrorView, StoreError};
use crate::http::events::{told_event, TransientModelEventView};
use crate::http::flow::{
    appended_step, created_selection_fault, flow_step, read_failure, rehydrated_step,
    replica_resolved_step, request_of, stream_read_step, write_failure, CommandFlowView,
    FlowActionView, FlowInputView, FlowPhaseView, FlowRequestView,
};
use crate::http::stream::{
    advance_step, batch_step, catch_up_step, drained, durable_step, fences, is_held,
    opened_stream, owner_step, passed, receive_step, resubscribe_step, EventStreamView, LiveView,
    Ownership, RuntimeStreamEventView, StreamActionView, StreamFenceView,
};
use crate::provider::{execution_fault, ProviderExecutionPolicyView};
use crate::replicas::ReplicaError;
use crate::text_map::{kept_is_found, lookup, removed_is_not_found, stored, stored_then_found};
use crate::wiring::HttpToolSpecView;
use vstd::prelude::*;

verus! {

/// What a reading or a writing of the store failed with is told by its kind: a session that is not
/// there is not found, what another command stored is a conflict, what was asked for wrongly is
/// invalid, and the rest is a failure of the store.
pub proof fn store_failures_are_told_by_kind(error: StoreError)
    ensures
        read_failure(error) is NotFound <==> error is SessionNotFound,
        read_failure(error) is Backend <==> !(error is SessionNotFound),
        write_failure(error) is NotFound <==> error is SessionNotFound,
        write_failure(error) is Conflict <==> error is OptimisticConcurrency
            || error is CommandIdempotencyConflict || error is EventIdempotencyConflict
            || error is DuplicateEventIdInBatch,
        write_failure(error) is Malformed <==> error is InvalidSessionListCursor,
        write_failure(error) is Backend <==> error is Other,
        error is InvalidSessionListLimit ==> write_failure(error) == ServiceErrorView::Invalid(
            "invalid session list limit"@,
        ),
        error is EmptyField || error is Domain ==> write_failure(error)
            == ServiceErrorView::Invalid("invalid request"@),
        write_failure(error) matches ServiceErrorView::Conflict(text) ==> text
            == "request conflicts with an existing command"@,
{
}

/// A command first looks for what it stored before. Where it finds that, it answers with it; where
/// there is nothing, it goes on, or fails if only that was asked for.
pub proof fn command_looks_first(
    flow: CommandFlowView,
    records: Result<Seq<EventRecordView>, StoreError>,
)
    requires
        flow.phase is LookUp,
    ensures
        ({
            let (next, action) = stream_read_step(flow, records);
            let nothing = records == Err::<Seq<EventRecordView>, StoreError>(
                StoreError::SessionNotFound,
            ) || (records matches Ok(all) && replayed_command(
                flow.session_id,
                flow.command_id,
                all,
                request_of(flow.request),
            ) == Ok::<Option<AppendResultView>, ServiceErrorView>(None));
            &&& nothing && !flow.replay_only ==> next.phase is Load && action is Rehydrate
            &&& nothing && flow.replay_only ==> action == FlowActionView::Fail(
                ServiceErrorView::IdempotencyReceiptNotFound,
            )
            &&& !nothing && records is Err ==> action == FlowActionView::Fail(
                ServiceErrorView::Backend,
            )
            &&& records matches Ok(all) ==> match replayed_command(
                flow.session_id,
                flow.command_id,
                all,
                request_of(flow.request),
            ) {
                Ok(Some(found)) => next.phase == FlowPhaseView::Replay(found)
                    && action is Rehydrate,
                Err(error) => action == FlowActionView::Fail(error),
                Ok(None) => true,
            }
        }),
{
}

/// What a command asks for is its message, with the delivery it would be, or its model.
pub proof fn command_asks_for_its_request(flow: CommandFlowView)
    ensures
        flow.request matches FlowRequestView::Model(model) ==> request_of(flow.request)
            == CommandRequestView::Model(model),
        flow.request matches FlowRequestView::Message(command) ==> (request_of(
            flow.request,
        ) matches CommandRequestView::Message { message, delivery } && message.content
            == command.content && message.message_id == command.message_id && delivery
            == requested_delivery_of(command)),
{
}

/// A command that has stored, or found what it stored before, ends with that and the state of the
/// session.
pub proof fn command_ends_with_what_is_stored(
    flow: CommandFlowView,
    stored_events: AppendResultView,
    policy: ProviderExecutionPolicyView,
    state: Result<SessionStateView, StoreError>,
)
    requires
        flow.phase == FlowPhaseView::Replay(stored_events) || flow.phase == FlowPhaseView::Commit(
            stored_events,
        ),
    ensures
        ({
            let (next, action) = rehydrated_step(flow, policy, state);
            &&& next.phase is Ended
            &&& state matches Ok(held) ==> action == FlowActionView::Finish(stored_events, held)
            &&& state matches Err(error) ==> action == FlowActionView::Fail(read_failure(error))
        }),
{
}

/// A message of a session that has a model is stored as a delivery, that of another as a message,
/// each behind the version that was read. A model is stored only if its provider may be reached and
/// its credential is there.
pub proof fn command_is_carried_out(
    flow: CommandFlowView,
    policy: ProviderExecutionPolicyView,
    state: SessionStateView,
)
    requires
        flow.phase is Load,
    ensures
        ({
            let (next, action) = rehydrated_step(flow, policy, Ok(state));
            match flow.request {
                FlowRequestView::Message(command) => if state.selection.model is Some {
                    match delivery_draft_of(state, command) {
                        Ok(queued) => {
                            &&& next.phase == FlowPhaseView::AppendDelivery(0)
                            &&& action matches FlowActionView::Append { expected_version, draft }
                                && expected_version == state.stream_version && draft == queued
                        },
                        Err(error) => action == FlowActionView::Fail(error),
                    }
                } else {
                    &&& next.phase is AppendEvent
                    &&& action matches FlowActionView::Append { expected_version, draft }
                        && expected_version == state.stream_version && draft == message_draft_of(
                        command,
                    )
                },
                FlowRequestView::Model(model) => if execution_fault(
                    model.provider_execution,
                    policy,
                ) is None {
                    next.phase == FlowPhaseView::Resolve(state) && action is ResolveReplica
                } else {
                    action == FlowActionView::Fail(
                        ServiceErrorView::Invalid("invalid provider execution"@),
                    )
                },
            }
        }),
        forall|error: StoreError|
            (#[trigger] rehydrated_step(flow, policy, Err(error))).1 == FlowActionView::Fail(
                read_failure(error),
            ),
{
}

/// A model whose credential is there is stored behind the version that was read; one whose
/// credential is not there is refused, by what was wrong.
pub proof fn model_is_stored_with_its_credential(
    flow: CommandFlowView,
    state: SessionStateView,
    model: SessionModelSelectionView,
    outcome: Result<(), ReplicaError>,
)
    requires
        flow.phase == FlowPhaseView::Resolve(state),
        flow.request == FlowRequestView::Model(model),
    ensures
        ({
            let (next, action) = replica_resolved_step(flow, outcome);
            match outcome {
                Ok(_) => {
                    &&& next.phase is AppendEvent
                    &&& action matches FlowActionView::Append { expected_version, draft }
                        && expected_version == state.stream_version && draft == model_draft_of(
                        state,
                        model,
                        flow.command_id,
                    )
                },
                Err(error) => action matches FlowActionView::Fail(failure) && {
                    &&& failure is AuthReplicaUnavailable <==> error is Disabled
                        || error is SecretUnavailable || error is Unavailable
                    &&& failure is Invalid <==> error is Invalid
                    &&& failure is AuthReplicaUnavailable || failure is Invalid
                        || failure is Backend
                },
            }
        }),
{
}

/// What was stored is answered. A delivery that another command came before is tried again, at most
/// sixteen times, one that was stored under its key before is looked for, and any other failure is
/// told.
pub proof fn command_is_tried_again(
    flow: CommandFlowView,
    outcome: Result<AppendResultView, StoreError>,
)
    requires
        flow.phase is AppendEvent || flow.phase is AppendDelivery,
    ensures
        ({
            let (next, action) = appended_step(flow, outcome);
            &&& outcome matches Ok(result) ==> next.phase == FlowPhaseView::Commit(result)
                && action is Rehydrate
            &&& outcome matches Err(error) ==> match flow.phase {
                FlowPhaseView::AppendDelivery(attempts) => {
                    &&& error is OptimisticConcurrency && attempts < 16 ==> (
                    next.phase matches FlowPhaseView::Reload(count) && count == attempts + 1)
                        && action is Rehydrate
                    &&& error is CommandIdempotencyConflict ==> next.phase is Recheck
                        && action is ReadStream
                    &&& !(error is OptimisticConcurrency && attempts < 16)
                        && !(error is CommandIdempotencyConflict) ==> action
                        == FlowActionView::Fail(write_failure(error))
                },
                _ => action == FlowActionView::Fail(write_failure(error)),
            }
        }),
{
}

/// A delivery that is tried again is made for the state as it is now, until it was tried sixteen
/// times.
pub proof fn delivery_is_made_anew(
    flow: CommandFlowView,
    attempts: u32,
    command: MessageCommandView,
    policy: ProviderExecutionPolicyView,
    state: SessionStateView,
)
    requires
        flow.phase == FlowPhaseView::Reload(attempts),
        flow.request == FlowRequestView::Message(command),
    ensures
        ({
            let (next, action) = rehydrated_step(flow, policy, Ok(state));
            if attempts >= 16 {
                action == FlowActionView::Fail(
                    ServiceErrorView::Conflict("request could not be admitted concurrently"@),
                )
            } else {
                match delivery_draft_of(state, command) {
                    Ok(queued) => {
                        &&& next.phase == FlowPhaseView::AppendDelivery(attempts)
                        &&& action matches FlowActionView::Append { expected_version, draft }
                            && expected_version == state.stream_version && draft == queued
                    },
                    Err(error) => action == FlowActionView::Fail(error),
                }
            }
        }),
{
}

/// A delivery whose key was used meanwhile is answered with what was stored, if that is the same
/// delivery.
pub proof fn stored_delivery_is_looked_for(
    flow: CommandFlowView,
    command: MessageCommandView,
    records: Seq<EventRecordView>,
)
    requires
        flow.phase is Recheck,
        flow.request == FlowRequestView::Message(command),
    ensures
        requested_delivery_of(command) matches Some(delivery) ==> {
            let (next, action) = stream_read_step(flow, Ok(records));
            match replayed_command(
                flow.session_id,
                flow.command_id,
                records,
                CommandRequestView::Delivery(delivery),
            ) {
                Ok(Some(found)) => next.phase == FlowPhaseView::Replay(found)
                    && action is Rehydrate,
                Ok(None) => action matches FlowActionView::Fail(failure) && failure is Conflict,
                Err(error) => action == FlowActionView::Fail(error),
            }
        },
        forall|error: StoreError|
            (#[trigger] stream_read_step(flow, Err(error))).1 == FlowActionView::Fail(
                read_failure(error),
            ),
{
}

/// A command that has ended does nothing more: whatever comes, it fails.
pub proof fn ended_command_does_nothing(flow: CommandFlowView, input: FlowInputView)
    requires
        flow.phase is Ended,
    ensures
        flow_step(flow, input).0 == flow,
        flow_step(flow, input).1 == FlowActionView::Fail(ServiceErrorView::Backend),
{
}

/// A session can be created exactly with tools that are offered and a provider that may be reached.
pub proof fn creations_are_checked(
    selection: SessionSelectionView,
    tools: Seq<HttpToolSpecView>,
    policy: ProviderExecutionPolicyView,
)
    ensures
        all_offered(selection.tools, tools) <==> forall|name: Seq<char>| #[trigger]
            selection.tools.contains(name) ==> tools.map_values(
                |tool: HttpToolSpecView| tool.name,
            ).contains(name),
        created_selection_fault(selection, all_offered(selection.tools, tools), policy) is None
            <==> all_offered(selection.tools, tools) && (selection.model matches Some(model)
            ==> execution_fault(model.provider_execution, policy) is None),
        !all_offered(selection.tools, tools) ==> created_selection_fault(
            selection,
            all_offered(selection.tools, tools),
            policy,
        ) == Some(ServiceErrorView::Invalid("invalid tool selection"@)),
        all_offered(selection.tools, tools) ==> (created_selection_fault(
            selection,
            true,
            policy,
        ) matches Some(error) ==> error == ServiceErrorView::Invalid(
            "invalid provider execution"@,
        )),
{
    let names = tools.map_values(|tool: HttpToolSpecView| tool.name);
    assert forall|name: Seq<char>| is_offered(name, tools) == #[trigger] names.contains(name) by {
        if is_offered(name, tools) {
            let i = choose|i: int| 0 <= i < tools.len() && (#[trigger] tools[i]).name == name;
            assert(names[i] == name);
        }
        if names.contains(name) {
            let i = choose|i: int| 0 <= i < names.len() && names[i] == name;
            assert(tools[i].name == name);
        }
    }
    if all_offered(selection.tools, tools) {
        assert forall|name: Seq<char>| #[trigger] selection.tools.contains(name) implies
            names.contains(name) by {
            let i = choose|i: int| 0 <= i < selection.tools.len() && selection.tools[i] == name;
            assert(is_offered(selection.tools[i], tools));
        }
    }
    if forall|name: Seq<char>| #[trigger] selection.tools.contains(name) ==> names.contains(name) {
        assert forall|i: int| 0 <= i < selection.tools.len() implies is_offered(
            #[trigger] selection.tools[i],
            tools,
        ) by {
            assert(selection.tools.contains(selection.tools[i]));
        }
    }
}

/// A session that was created before is answered; another is created, after its credential was
/// found if it has a model, or refused.
pub proof fn creation_is_looked_up(
    flow: CreateFlowView,
    found: Result<Option<CreatedSessionView>, StoreError>,
    offered: bool,
    policy: ProviderExecutionPolicyView,
)
    requires
        flow.phase == CreatePhase::LookUp,
    ensures
        ({
            let (next, action) = looked_up_step(flow, found, offered, policy);
            let fault = created_selection_fault(flow.selection, offered, policy);
            &&& next == (CreateFlowView { phase: next.phase, ..flow })
            &&& match found {
                Err(error) => action == CreateActionView::Fail(write_failure(error)) && next.phase
                    is Ended,
                Ok(Some(session)) => action == CreateActionView::Answer(session) && next.phase
                    is Ended,
                Ok(None) => {
                    &&& flow.replay_only ==> action == CreateActionView::Fail(
                        ServiceErrorView::IdempotencyReceiptNotFound,
                    ) && next.phase is Ended
                    &&& !flow.replay_only && fault is Some ==> action == CreateActionView::Fail(
                        fault->0,
                    ) && next.phase is Ended
                    &&& !flow.replay_only && fault is None && flow.selection.model is Some
                        ==> action is ResolveReplica && next.phase is Resolve
                    &&& !flow.replay_only && fault is None && flow.selection.model is None
                        ==> action is Create && next.phase is Create
                },
            }
        }),
{
}

/// A session whose credential was found is created; what the store gives is answered, and what it
/// failed with is told.
pub proof fn creation_is_carried_out(
    flow: CreateFlowView,
    outcome: Result<(), ReplicaError>,
    created: Result<CreatedSessionView, StoreError>,
)
    ensures
        flow.phase is Resolve ==> {
            let (next, action) = created_replica_step(flow, outcome);
            match outcome {
                Ok(_) => action is Create && next.phase is Create && next.selection
                    == flow.selection && next.replay_only == flow.replay_only,
                Err(error) => action matches CreateActionView::Fail(failure) && next.phase is Ended
                    && {
                    &&& failure is AuthReplicaUnavailable <==> error is Disabled
                        || error is SecretUnavailable
                    &&& failure is Invalid <==> error is Invalid
                    &&& failure is AuthReplicaUnavailable || failure is Invalid
                        || failure is Backend
                },
            }
        },
        flow.phase is Create ==> {
            let (next, action) = created_step(flow, created);
            match created {
                Ok(session) => action == CreateActionView::Answer(session) && next.phase is Ended,
                Err(error) => action == CreateActionView::Fail(write_failure(error)) && next.phase
                    is Ended,
            }
        },
        !(flow.phase is Resolve) ==> created_replica_step(flow, outcome).1
            == CreateActionView::Fail(ServiceErrorView::Backend),
        !(flow.phase is Create) ==> created_step(flow, created).1 == CreateActionView::Fail(
            ServiceErrorView::Backend,
        ),
{
}

/// A stream starts after the position that is asked for, with what was read, behind the fence, and
/// with every barrier that lies ahead.
pub proof fn stream_starts_at_the_fence(
    after: u64,
    fence: StreamFenceView,
    records: Seq<EventRecordView>,
    session_id: Seq<char>,
)
    ensures
        ({
            let stream = opened_stream(after, fence, records);
            &&& stream.last_position == after
            &&& stream.skip_through_sequence == fence.sequence
            &&& stream.catch_up_through == fence.durable_position
            &&& stream.catch_up_pending <==> records.len() > 0
            &&& stream.batch == records
            &&& stream.batch_was_full <==> records.len() == 256
            &&& stream.blocked_transient is None
            &&& stream.prefer_live
            &&& forall|session: Seq<char>| !stream.owned_sessions.contains(session)
            &&& (lookup(fence.retry_barriers, session_id) matches Some(position)
                && position > after)
                ==> is_held(stream, session_id)
        }),
{
    if let Some(position) = lookup(fence.retry_barriers, session_id) {
        if position > after {
            kept_is_found(fence.retry_barriers, after, session_id);
        }
    }
}

/// What a stream does next: text that waited is told once its session is not held, and else stored
/// events come first; without such text, messages are waited for when nothing stored is left, and
/// looked for or left out in turn when something is.
pub proof fn stream_goes_on(stream: EventStreamView)
    ensures
        ({
            let (next, action) = advance_step(stream);
            match stream.blocked_transient {
                Some(event) => if is_held(stream, event.session_id) {
                    next == stream && action is CatchUp
                } else {
                    &&& action == StreamActionView::TellTransient(event)
                    &&& next.blocked_transient is None
                    &&& !next.prefer_live
                    &&& lookup(next.retry_barriers, event.session_id) is None
                    &&& next == (EventStreamView {
                        blocked_transient: None,
                        prefer_live: false,
                        retry_barriers: next.retry_barriers,
                        ..stream
                    })
                },
                None => {
                    &&& next == stream
                    &&& action is Receive <==> !stream.catch_up_pending
                    &&& action is Poll <==> stream.catch_up_pending && stream.prefer_live
                    &&& action is CatchUp <==> stream.catch_up_pending && !stream.prefer_live
                },
            }
        }),
{
    if let Some(event) = stream.blocked_transient {
        removed_is_not_found(stream.retry_barriers, event.session_id, event.session_id);
    }
}

/// Whether a stream tells text of a model, or keeps it until the stored events before it are told.
pub open spec fn takes_text(
    stream: EventStreamView,
    event: TransientModelEventView,
    next: EventStreamView,
    action: StreamActionView,
) -> bool {
    if is_held(stream, event.session_id) {
        action is CatchUp && next == (EventStreamView {
            blocked_transient: Some(event),
            prefer_live: false,
            ..stream
        })
    } else {
        action == StreamActionView::TellTransient(event) && next == (EventStreamView {
            prefer_live: false,
            ..stream
        })
    }
}

/// A message that is known is left out. Text of a session that is known to be the client's is
/// taken, and of another the owner is asked for. Without a message the stored events come, after
/// lost ones the stream subscribes anew, and after the last one it ends.
pub proof fn messages_are_taken(stream: EventStreamView, live: LiveView)
    ensures
        ({
            let (next, action) = receive_step(stream, live);
            match live {
                LiveView::Nothing => next == stream && action is CatchUp,
                LiveView::Lagged => next == stream && action is Resubscribe,
                LiveView::Closed => next == stream && action is Close,
                LiveView::Message { sequence, event } => {
                    &&& sequence <= stream.skip_through_sequence ==> next == stream
                        && action is Again
                    &&& sequence > stream.skip_through_sequence ==> match event {
                        RuntimeStreamEventView::Transient(text) =>
                            if stream.owned_sessions.contains(
                            text.session_id,
                        ) {
                            takes_text(stream, text, next, action)
                        } else {
                            next == stream && action == StreamActionView::CheckOwner(text)
                        },
                        RuntimeStreamEventView::Durable(record) => (next, action) == durable_step(
                            stream,
                            record,
                        ),
                    }
                },
            }
        }),
{
}

/// A stored event that is new has the stream read on at least to it, and one that schedules a retry
/// holds its session until then, and no other; one that was told or passed over changes nothing.
pub proof fn stored_events_are_noted(
    stream: EventStreamView,
    record: EventRecordView,
    session_id: Seq<char>,
)
    ensures
        fences(record.event) <==> record.event is ModelStepRetryScheduled,
        ({
            let (next, action) = durable_step(stream, record);
            if record.global_position <= stream.last_position {
                next == stream && action is Again
            } else {
                &&& action is CatchUp
                &&& next == (EventStreamView {
                    catch_up_through: next.catch_up_through,
                    catch_up_pending: true,
                    retry_barriers: next.retry_barriers,
                    ..stream
                })
                &&& next.catch_up_through >= record.global_position
                &&& next.catch_up_through >= stream.catch_up_through
                &&& next.catch_up_through == record.global_position || next.catch_up_through
                    == stream.catch_up_through
                &&& lookup(next.retry_barriers, session_id) == if session_id == record.stream_id
                    && record.event is ModelStepRetryScheduled {
                    Some(record.global_position)
                } else {
                    lookup(stream.retry_barriers, session_id)
                }
            }
        }),
{
    stored_then_found(
        stream.retry_barriers,
        record.stream_id,
        record.global_position,
        session_id,
    );
}

/// Text of a session that turns out to be the client's is taken, and the session is known from then
/// on; text of another's is left out; and where that cannot be found out the stream fails.
pub proof fn owners_are_asked_for(
    stream: EventStreamView,
    event: TransientModelEventView,
    ownership: Ownership,
)
    ensures
        ({
            let (next, action) = owner_step(stream, event, ownership);
            let known = EventStreamView {
                owned_sessions: stream.owned_sessions.insert(event.session_id),
                ..stream
            };
            &&& ownership is Owned ==> takes_text(known, event, next, action)
            &&& ownership is Foreign ==> next == stream && action is Again
            &&& ownership is Unknown ==> next == stream && action is Fail
        }),
{
}

/// A stream that subscribes anew stays where it is, knows the sessions it knew, drops text that
/// waited, and takes up what was read and the barriers that lie ahead.
pub proof fn subscriptions_go_on(
    stream: EventStreamView,
    fence: StreamFenceView,
    records: Seq<EventRecordView>,
    session_id: Seq<char>,
)
    ensures
        resubscribe_step(stream, None) == (stream, StreamActionView::Fail),
        ({
            let (next, action) = resubscribe_step(stream, Some((fence, records)));
            &&& action is CatchUp
            &&& next.last_position == stream.last_position
            &&& next.owned_sessions == stream.owned_sessions
            &&& next.skip_through_sequence == fence.sequence
            &&& next.catch_up_through >= stream.catch_up_through
            &&& next.catch_up_through >= fence.durable_position
            &&& next.catch_up_through == stream.catch_up_through || next.catch_up_through
                == fence.durable_position
            &&& next.catch_up_pending <==> records.len() > 0
            &&& next.prefer_live <==> records.len() == 0
            &&& next.blocked_transient is None
            &&& next.batch == records
            &&& next.batch_was_full <==> records.len() == 256
            &&& (lookup(fence.retry_barriers, session_id) matches Some(position) && position
                > stream.last_position) ==> is_held(next, session_id)
        }),
{
    if let Some(position) = lookup(fence.retry_barriers, session_id) {
        if position > stream.last_position {
            kept_is_found(fence.retry_barriers, stream.last_position, session_id);
        }
    }
}

/// A stored event that is passed is the last position, its session is known, and what is left of
/// the batch stays, until the position that was to be reached or the end of what is stored.
pub proof fn stored_events_are_passed(stream: EventStreamView, record: EventRecordView)
    requires
        stream.batch.len() > 0,
    ensures
        ({
            let next = passed(stream, record);
            let done = record.global_position == stream.catch_up_through || (stream.batch.len() == 1
                && !stream.batch_was_full);
            &&& next.last_position == record.global_position
            &&& next.owned_sessions == stream.owned_sessions.insert(record.stream_id)
            &&& next.prefer_live
            &&& next.catch_up_pending <==> stream.catch_up_pending && !done
            &&& done ==> next.batch.len() == 0
            &&& !done ==> next.batch == stream.batch.skip(1)
            &&& next.skip_through_sequence == stream.skip_through_sequence
            &&& next.catch_up_through == stream.catch_up_through
            &&& next.blocked_transient == stream.blocked_transient
            &&& next.batch_was_full == stream.batch_was_full
        }),
{
}

/// Stored events are read where some may be left and none are at hand, and told one at a time;
/// where none are left the stream goes on with messages, and where they cannot be read it fails.
pub proof fn stored_events_are_told(
    stream: EventStreamView,
    records: Option<Seq<EventRecordView>>,
)
    ensures
        ({
            let (next, action) = catch_up_step(stream);
            let (left, told) = drained(stream);
            &&& !stream.catch_up_pending ==> next == stream && action is Again
            &&& stream.catch_up_pending && stream.batch.len() == 0 ==> next == stream
                && action is ReadBatch
            &&& stream.catch_up_pending && stream.batch.len() > 0 ==> next == left && match told {
                Some(public) => action == StreamActionView::TellDurable(public),
                None => action is Again,
            }
        }),
        records is None ==> batch_step(stream, records) == (stream, StreamActionView::Fail),
        records matches Some(read) ==> read.len() == 0 ==> {
            let (next, action) = batch_step(stream, records);
            &&& action is Again
            &&& next == (EventStreamView { catch_up_pending: false, prefer_live: true, ..stream })
        },
        records matches Some(read) ==> read.len() > 0 ==> {
            let (next, action) = batch_step(stream, records);
            let (left, told) = drained(
                EventStreamView { batch: read, batch_was_full: read.len() == 256, ..stream },
            );
            &&& next == left
            &&& told matches Some(public) ==> action == StreamActionView::TellDurable(public)
            &&& told is None ==> action is Again
        },
{
}

/// The first event at hand is told if it is new, lies in reach and is one that is told; one that is
/// not new is left out; and one that is out of reach ends the reading.
pub proof fn first_event_is_told(stream: EventStreamView)
    requires
        stream.batch.len() > 0,
    ensures
        ({
            let record = stream.batch[0];
            let (next, told) = drained(stream);
            &&& record.global_position > stream.catch_up_through ==> {
                &&& told is None
                &&& next == (EventStreamView {
                    batch: Seq::empty(),
                    catch_up_pending: false,
                    prefer_live: true,
                    ..stream
                })
            }
            &&& record.global_position <= stream.catch_up_through && record.global_position
                <= stream.last_position ==> (next, told) == drained(
                EventStreamView { batch: stream.batch.skip(1), ..stream },
            )
            &&& stream.last_position < record.global_position <= stream.catch_up_through && (
            told_event(record) matches Some(_)) ==> told == told_event(record) && next == passed(
                stream,
                record,
            )
        }),
{
}

} // verus!
