//! How a command on a session is carried out against the event store.
//!
//! A [`CommandFlow`] decides; whoever runs it does what its [`FlowAction`] says and hands back what
//! came of it.

use crate::datum::Datum;
use crate::domain::event::{EventDraft, EventDraftView, EventRecord, EventRecordView};
use crate::domain::selection::{
    SessionModelSelection, SessionModelSelectionView, SessionOwner, SessionSelection,
    SessionSelectionView,
};
use crate::domain::state::{SessionState, SessionStateView};
use crate::http::commands::{
    answers, command_conflict, command_id_of, delivery_draft_of, message_draft_of, message_of,
    model_draft, model_draft_of, of_command, repeated_command_is_found, replay_command,
    replayed_command, requested_delivery_of, session_command_id, stored_message_answers_itself,
    stored_model_answers_itself, AppendResult, AppendResultView, CommandRequest,
    CommandRequestView, MessageCommand, MessageCommandView,
};
use crate::http::errors::{ServiceError, ServiceErrorView, StoreError};
use crate::http::headers::failure_of;
use crate::provider::{execution_fault, ProviderExecutionPolicy, ProviderExecutionPolicyView};
use crate::replicas::ReplicaError;
use vstd::prelude::*;

verus! {

/// How often a delivery is tried against concurrent commands.
pub const MAX_ADMISSION_ATTEMPTS: u32 = 16;

/// What a command is to do.
pub enum FlowRequest {
    /// Take a message.
    Message(MessageCommand),
    /// Select a model.
    Model(SessionModelSelection),
}

/// The content of a [`FlowRequest`].
pub enum FlowRequestView {
    Message(MessageCommandView),
    Model(SessionModelSelectionView),
}

impl DeepView for FlowRequest {
    type V = FlowRequestView;

    open spec fn deep_view(&self) -> FlowRequestView {
        match self {
            FlowRequest::Message(command) => FlowRequestView::Message(command.deep_view()),
            FlowRequest::Model(model) => FlowRequestView::Model(model.deep_view()),
        }
    }
}

/// What a command waits for.
pub enum FlowPhase {
    /// The events of the session, to see whether the command was given before.
    LookUp,
    /// The state of the session, to answer with what the command stored before.
    Replay(AppendResult),
    /// The state of the session, to carry the command out.
    Load,
    /// The credential of the model.
    Resolve(SessionState),
    /// The store, with an event.
    AppendEvent,
    /// The store, with a delivery, after a number of attempts.
    AppendDelivery(u32),
    /// The state of the session, to try a delivery again, after a number of attempts.
    Reload(u32),
    /// The events of the session, to see what another attempt stored.
    Recheck,
    /// The state of the session, to answer with what was stored.
    Commit(AppendResult),
    /// Nothing.
    Ended,
}

/// The content of a [`FlowPhase`].
pub enum FlowPhaseView {
    LookUp,
    Replay(AppendResultView),
    Load,
    Resolve(SessionStateView),
    AppendEvent,
    AppendDelivery(u32),
    Reload(u32),
    Recheck,
    Commit(AppendResultView),
    Ended,
}

impl DeepView for FlowPhase {
    type V = FlowPhaseView;

    open spec fn deep_view(&self) -> FlowPhaseView {
        match self {
            FlowPhase::LookUp => FlowPhaseView::LookUp,
            FlowPhase::Replay(result) => FlowPhaseView::Replay(result.deep_view()),
            FlowPhase::Load => FlowPhaseView::Load,
            FlowPhase::Resolve(state) => FlowPhaseView::Resolve(state.deep_view()),
            FlowPhase::AppendEvent => FlowPhaseView::AppendEvent,
            FlowPhase::AppendDelivery(attempts) => FlowPhaseView::AppendDelivery(*attempts),
            FlowPhase::Reload(attempts) => FlowPhaseView::Reload(*attempts),
            FlowPhase::Recheck => FlowPhaseView::Recheck,
            FlowPhase::Commit(result) => FlowPhaseView::Commit(result.deep_view()),
            FlowPhase::Ended => FlowPhaseView::Ended,
        }
    }
}

/// What is to be done next.
#[derive(Clone, Debug, PartialEq)]
pub enum FlowAction {
    /// Read all events of the session, and call [`CommandFlow::stream_read`].
    ReadStream,
    /// Read the state of the session, and call [`CommandFlow::rehydrated`].
    Rehydrate,
    /// Look for the credential of the model, and call [`CommandFlow::replica_resolved`].
    ResolveReplica,
    /// Store an event behind a version of the session, and call [`CommandFlow::appended`].
    Append { expected_version: u64, draft: EventDraft },
    /// End, with what was stored and the state of the session.
    Finish(AppendResult, SessionState),
    /// End, with a failure.
    Fail(ServiceError),
}

/// The content of a [`FlowAction`].
pub enum FlowActionView {
    ReadStream,
    Rehydrate,
    ResolveReplica,
    Append { expected_version: u64, draft: EventDraftView },
    Finish(AppendResultView, SessionStateView),
    Fail(ServiceErrorView),
}

impl DeepView for FlowAction {
    type V = FlowActionView;

    open spec fn deep_view(&self) -> FlowActionView {
        match self {
            FlowAction::ReadStream => FlowActionView::ReadStream,
            FlowAction::Rehydrate => FlowActionView::Rehydrate,
            FlowAction::ResolveReplica => FlowActionView::ResolveReplica,
            FlowAction::Append { expected_version, draft } => FlowActionView::Append {
                expected_version: *expected_version,
                draft: draft.deep_view(),
            },
            FlowAction::Finish(result, state) => FlowActionView::Finish(
                result.deep_view(),
                state.deep_view(),
            ),
            FlowAction::Fail(error) => FlowActionView::Fail(error.deep_view()),
        }
    }
}

/// A command in the course of being carried out.
pub struct CommandFlow {
    pub session_id: String,
    pub command_id: String,
    pub request: FlowRequest,
    pub replay_only: bool,
    pub phase: FlowPhase,
}

/// The content of a [`CommandFlow`].
pub struct CommandFlowView {
    pub session_id: Seq<char>,
    pub command_id: Seq<char>,
    pub request: FlowRequestView,
    pub replay_only: bool,
    pub phase: FlowPhaseView,
}

impl DeepView for CommandFlow {
    type V = CommandFlowView;

    open spec fn deep_view(&self) -> CommandFlowView {
        CommandFlowView {
            session_id: self.session_id@,
            command_id: self.command_id@,
            request: self.request.deep_view(),
            replay_only: self.replay_only,
            phase: self.phase.deep_view(),
        }
    }
}

/// A command with its next phase, and what is to be done.
pub open spec fn turned(
    flow: CommandFlowView,
    phase: FlowPhaseView,
    action: FlowActionView,
) -> (CommandFlowView, FlowActionView) {
    (CommandFlowView { phase, ..flow }, action)
}

/// A command that fails.
pub open spec fn failed(flow: CommandFlowView, error: ServiceErrorView) -> (
    CommandFlowView,
    FlowActionView,
) {
    turned(flow, FlowPhaseView::Ended, FlowActionView::Fail(error))
}

/// What a command asks for, as far as its event shows it.
pub open spec fn request_of(request: FlowRequestView) -> CommandRequestView {
    match request {
        FlowRequestView::Message(command) => CommandRequestView::Message {
            message: message_of(command),
            delivery: requested_delivery_of(command),
        },
        FlowRequestView::Model(model) => CommandRequestView::Model(model),
    }
}

/// The failure of a read.
pub open spec fn read_failure(error: StoreError) -> ServiceErrorView {
    if error == StoreError::SessionNotFound {
        ServiceErrorView::NotFound
    } else {
        ServiceErrorView::Backend
    }
}

/// The failure of a write.
pub open spec fn write_failure(error: StoreError) -> ServiceErrorView {
    match error {
        StoreError::OptimisticConcurrency
        | StoreError::CommandIdempotencyConflict
        | StoreError::EventIdempotencyConflict
        | StoreError::DuplicateEventIdInBatch => command_conflict(),
        StoreError::SessionNotFound => ServiceErrorView::NotFound,
        StoreError::InvalidSessionListLimit => ServiceErrorView::Invalid(
            "invalid session list limit"@,
        ),
        StoreError::InvalidSessionListCursor => ServiceErrorView::Malformed,
        StoreError::EmptyField | StoreError::Domain => ServiceErrorView::Invalid(
            "invalid request"@,
        ),
        StoreError::Other => ServiceErrorView::Backend,
    }
}

/// A command that was not given before: it is carried out, unless only an earlier one was asked
/// for.
pub open spec fn unseen_step(flow: CommandFlowView) -> (CommandFlowView, FlowActionView) {
    if flow.replay_only {
        failed(flow, ServiceErrorView::IdempotencyReceiptNotFound)
    } else {
        turned(flow, FlowPhaseView::Load, FlowActionView::Rehydrate)
    }
}

/// What follows on the events of the session.
pub open spec fn stream_read_step(
    flow: CommandFlowView,
    records: Result<Seq<EventRecordView>, StoreError>,
) -> (CommandFlowView, FlowActionView) {
    match (flow.phase, records) {
        (FlowPhaseView::LookUp, Err(error)) => if error == StoreError::SessionNotFound {
            unseen_step(flow)
        } else {
            failed(flow, ServiceErrorView::Backend)
        },
        (FlowPhaseView::LookUp, Ok(records)) => match replayed_command(
            flow.session_id,
            flow.command_id,
            records,
            request_of(flow.request),
        ) {
            Err(error) => failed(flow, error),
            Ok(None) => unseen_step(flow),
            Ok(Some(found)) => turned(
                flow,
                FlowPhaseView::Replay(found),
                FlowActionView::Rehydrate,
            ),
        },
        (FlowPhaseView::Recheck, Err(error)) => failed(flow, read_failure(error)),
        (FlowPhaseView::Recheck, Ok(records)) => match flow.request {
            FlowRequestView::Message(command) => match requested_delivery_of(command) {
                Some(delivery) => match replayed_command(
                    flow.session_id,
                    flow.command_id,
                    records,
                    CommandRequestView::Delivery(delivery),
                ) {
                    Err(error) => failed(flow, error),
                    Ok(None) => failed(flow, command_conflict()),
                    Ok(Some(found)) => turned(
                        flow,
                        FlowPhaseView::Replay(found),
                        FlowActionView::Rehydrate,
                    ),
                },
                None => failed(flow, ServiceErrorView::Backend),
            },
            FlowRequestView::Model(_) => failed(flow, ServiceErrorView::Backend),
        },
        _ => failed(flow, ServiceErrorView::Backend),
    }
}

/// A delivery that is tried in the current state of its session, after a number of attempts.
pub open spec fn delivery_step(
    flow: CommandFlowView,
    command: MessageCommandView,
    current: SessionStateView,
    attempts: u32,
) -> (CommandFlowView, FlowActionView) {
    if attempts >= MAX_ADMISSION_ATTEMPTS {
        failed(flow, ServiceErrorView::Conflict("request could not be admitted concurrently"@))
    } else {
        match delivery_draft_of(current, command) {
            Err(error) => failed(flow, error),
            Ok(draft) => turned(
                flow,
                FlowPhaseView::AppendDelivery(attempts),
                FlowActionView::Append { expected_version: current.stream_version, draft },
            ),
        }
    }
}

/// What follows on the state of the session. A message is queued where the session has a model. A
/// model is selected only if the policy allows it; this is looked at once the session is known to
/// be there.
pub open spec fn rehydrated_step(
    flow: CommandFlowView,
    policy: ProviderExecutionPolicyView,
    state: Result<SessionStateView, StoreError>,
) -> (CommandFlowView, FlowActionView) {
    match (flow.phase, state) {
        (FlowPhaseView::Replay(result), Ok(state)) => turned(
            flow,
            FlowPhaseView::Ended,
            FlowActionView::Finish(result, state),
        ),
        (FlowPhaseView::Commit(result), Ok(state)) => turned(
            flow,
            FlowPhaseView::Ended,
            FlowActionView::Finish(result, state),
        ),
        (FlowPhaseView::Load, Ok(state)) => match flow.request {
            FlowRequestView::Message(command) => if state.selection.model is Some {
                delivery_step(flow, command, state, 0)
            } else {
                turned(
                    flow,
                    FlowPhaseView::AppendEvent,
                    FlowActionView::Append {
                        expected_version: state.stream_version,
                        draft: message_draft_of(command),
                    },
                )
            },
            FlowRequestView::Model(model) => if execution_fault(
                model.provider_execution,
                policy,
            ) is Some {
                failed(flow, ServiceErrorView::Invalid("invalid provider execution"@))
            } else {
                turned(flow, FlowPhaseView::Resolve(state), FlowActionView::ResolveReplica)
            },
        },
        (FlowPhaseView::Reload(attempts), Ok(state)) => match flow.request {
            FlowRequestView::Message(command) => delivery_step(flow, command, state, attempts),
            FlowRequestView::Model(_) => failed(flow, ServiceErrorView::Backend),
        },
        (FlowPhaseView::Replay(_), Err(error)) => failed(flow, read_failure(error)),
        (FlowPhaseView::Commit(_), Err(error)) => failed(flow, read_failure(error)),
        (FlowPhaseView::Load, Err(error)) => failed(flow, read_failure(error)),
        (FlowPhaseView::Reload(_), Err(error)) => failed(flow, read_failure(error)),
        _ => failed(flow, ServiceErrorView::Backend),
    }
}

/// What follows on looking for the credential of the model.
pub open spec fn replica_resolved_step(
    flow: CommandFlowView,
    outcome: Result<(), ReplicaError>,
) -> (CommandFlowView, FlowActionView) {
    match (flow.phase, flow.request, outcome) {
        (FlowPhaseView::Resolve(state), FlowRequestView::Model(model), Ok(_)) => turned(
            flow,
            FlowPhaseView::AppendEvent,
            FlowActionView::Append {
                expected_version: state.stream_version,
                draft: model_draft_of(state, model, flow.command_id),
            },
        ),
        (FlowPhaseView::Resolve(_), _, Err(error)) => failed(
            flow,
            match error {
                ReplicaError::Disabled
                | ReplicaError::SecretUnavailable
                | ReplicaError::Unavailable => ServiceErrorView::AuthReplicaUnavailable,
                ReplicaError::Invalid => ServiceErrorView::Invalid(
                    "invalid credential replica selection"@,
                ),
                _ => ServiceErrorView::Backend,
            },
        ),
        _ => failed(flow, ServiceErrorView::Backend),
    }
}

/// What follows on storing. A delivery that another command came before is tried again, and one
/// whose command was given before is looked up.
pub open spec fn appended_step(
    flow: CommandFlowView,
    outcome: Result<AppendResultView, StoreError>,
) -> (CommandFlowView, FlowActionView) {
    match (flow.phase, outcome) {
        (FlowPhaseView::AppendEvent, Ok(result)) => turned(
            flow,
            FlowPhaseView::Commit(result),
            FlowActionView::Rehydrate,
        ),
        (FlowPhaseView::AppendDelivery(_), Ok(result)) => turned(
            flow,
            FlowPhaseView::Commit(result),
            FlowActionView::Rehydrate,
        ),
        (FlowPhaseView::AppendEvent, Err(error)) => failed(flow, write_failure(error)),
        (FlowPhaseView::AppendDelivery(attempts), Err(error)) => if error
            == StoreError::OptimisticConcurrency && attempts < MAX_ADMISSION_ATTEMPTS {
            turned(
                flow,
                FlowPhaseView::Reload((attempts + 1) as u32),
                FlowActionView::Rehydrate,
            )
        } else if error == StoreError::CommandIdempotencyConflict {
            turned(flow, FlowPhaseView::Recheck, FlowActionView::ReadStream)
        } else {
            failed(flow, write_failure(error))
        },
        _ => failed(flow, ServiceErrorView::Backend),
    }
}

impl CommandFlow {
    /// A command that takes a message. Its events are to be read first.
    pub fn message(session_id: String, command: MessageCommand, replay_only: bool) -> (flow: Self)
        ensures
            flow.deep_view() == (CommandFlowView {
                session_id: session_id@,
                command_id: command.command_id@,
                request: FlowRequestView::Message(command.deep_view()),
                replay_only,
                phase: FlowPhaseView::LookUp,
            }),
    {
        CommandFlow {
            session_id,
            command_id: command.command_id.clone(),
            request: FlowRequest::Message(command),
            replay_only,
            phase: FlowPhase::LookUp,
        }
    }

    /// A command that selects a model. Its events are to be read first.
    pub fn model(
        owner: &SessionOwner,
        session_id: String,
        idempotency_key: &str,
        model: SessionModelSelection,
        replay_only: bool,
    ) -> (flow: Self)
        ensures
            flow.deep_view() == (CommandFlowView {
                session_id: session_id@,
                command_id: command_id_of(
                    "model"@,
                    owner.deep_view(),
                    session_id@,
                    idempotency_key@,
                ),
                request: FlowRequestView::Model(model.deep_view()),
                replay_only,
                phase: FlowPhaseView::LookUp,
            }),
    {
        let command_id = session_command_id("model", owner, &session_id, idempotency_key);
        CommandFlow {
            session_id,
            command_id,
            request: FlowRequest::Model(model),
            replay_only,
            phase: FlowPhase::LookUp,
        }
    }

    fn turn(self, phase: FlowPhase, action: FlowAction) -> (next: (Self, FlowAction))
        ensures
            (next.0.deep_view(), next.1.deep_view()) == turned(
                self.deep_view(),
                phase.deep_view(),
                action.deep_view(),
            ),
    {
        (CommandFlow { phase, ..self }, action)
    }

    fn fail(self, error: ServiceError) -> (next: (Self, FlowAction))
        ensures
            (next.0.deep_view(), next.1.deep_view()) == failed(self.deep_view(), error.deep_view()),
    {
        self.turn(FlowPhase::Ended, FlowAction::Fail(error))
    }

    fn unseen(self) -> (next: (Self, FlowAction))
        ensures
            (next.0.deep_view(), next.1.deep_view()) == unseen_step(self.deep_view()),
    {
        if self.replay_only {
            self.fail(ServiceError::IdempotencyReceiptNotFound)
        } else {
            self.turn(FlowPhase::Load, FlowAction::Rehydrate)
        }
    }

    fn asked_for(&self) -> (request: CommandRequest)
        ensures
            request.deep_view() == request_of(self.request.deep_view()),
    {
        match &self.request {
            FlowRequest::Message(command) => CommandRequest::Message {
                message: command.message(),
                delivery: command.requested_delivery(),
            },
            FlowRequest::Model(model) => CommandRequest::Model(model.replica()),
        }
    }

    /// Takes the events of the session.
    pub fn stream_read(self, records: Result<Vec<EventRecord>, StoreError>) -> (next: (
        Self,
        FlowAction,
    ))
        ensures
            (next.0.deep_view(), next.1.deep_view()) == stream_read_step(
                self.deep_view(),
                match records {
                    Ok(records) => Ok(records.deep_view()),
                    Err(error) => Err(error),
                },
            ),
    {
        match (&self.phase, records) {
            (FlowPhase::LookUp, Err(error)) => match error {
                StoreError::SessionNotFound => self.unseen(),
                _ => self.fail(ServiceError::Backend),
            },
            (FlowPhase::LookUp, Ok(records)) => {
                let request = self.asked_for();
                match replay_command(&self.session_id, &self.command_id, &records, &request) {
                    Err(error) => self.fail(error),
                    Ok(None) => self.unseen(),
                    Ok(Some(found)) => self.turn(FlowPhase::Replay(found), FlowAction::Rehydrate),
                }
            },
            (FlowPhase::Recheck, Err(error)) => self.fail(ServiceError::read_store(error)),
            (FlowPhase::Recheck, Ok(records)) => {
                let delivery = match &self.request {
                    FlowRequest::Message(command) => command.requested_delivery(),
                    FlowRequest::Model(_) => None,
                };
                let request = match delivery {
                    Some(delivery) => CommandRequest::Delivery(delivery),
                    None => {
                        return self.fail(ServiceError::Backend);
                    },
                };
                match replay_command(&self.session_id, &self.command_id, &records, &request) {
                    Err(error) => self.fail(error),
                    Ok(None) => self.fail(
                        ServiceError::Conflict(
                            "request conflicts with an existing command".to_string(),
                        ),
                    ),
                    Ok(Some(found)) => self.turn(FlowPhase::Replay(found), FlowAction::Rehydrate),
                }
            },
            _ => self.fail(ServiceError::Backend),
        }
    }

    fn deliver(self, current: &SessionState, attempts: u32) -> (next: (Self, FlowAction))
        requires
            self.deep_view().request is Message,
        ensures
            (next.0.deep_view(), next.1.deep_view()) == delivery_step(
                self.deep_view(),
                self.deep_view().request->Message_0,
                current.deep_view(),
                attempts,
            ),
    {
        if attempts >= MAX_ADMISSION_ATTEMPTS {
            return self.fail(
                ServiceError::Conflict("request could not be admitted concurrently".to_string()),
            );
        }
        let drafted = match &self.request {
            FlowRequest::Message(command) => command.delivery_draft(current),
            FlowRequest::Model(_) => Err(ServiceError::Backend),
        };
        match drafted {
            Err(error) => self.fail(error),
            Ok(draft) => self.turn(
                FlowPhase::AppendDelivery(attempts),
                FlowAction::Append { expected_version: current.stream_version, draft },
            ),
        }
    }

    fn load(self, policy: &ProviderExecutionPolicy, current: SessionState) -> (next: (
        Self,
        FlowAction,
    ))
        requires
            self.deep_view().phase is Load,
        ensures
            (next.0.deep_view(), next.1.deep_view()) == rehydrated_step(
                self.deep_view(),
                policy.deep_view(),
                Ok(current.deep_view()),
            ),
    {
        match &self.request {
            FlowRequest::Message(command) => {
                if current.selection.model.is_some() {
                    return self.deliver(&current, 0);
                }
                let draft = command.message_draft();
                self.turn(
                    FlowPhase::AppendEvent,
                    FlowAction::Append { expected_version: current.stream_version, draft },
                )
            },
            FlowRequest::Model(model) => match policy.validate(&model.provider_execution) {
                Err(_) => self.fail(
                    ServiceError::Invalid("invalid provider execution".to_string()),
                ),
                Ok(_) => self.turn(FlowPhase::Resolve(current), FlowAction::ResolveReplica),
            },
        }
    }

    /// Takes the state of the session.
    pub fn rehydrated(
        self,
        policy: &ProviderExecutionPolicy,
        state: Result<SessionState, StoreError>,
    ) -> (next: (Self, FlowAction))
        ensures
            (next.0.deep_view(), next.1.deep_view()) == rehydrated_step(
                self.deep_view(),
                policy.deep_view(),
                match state {
                    Ok(state) => Ok(state.deep_view()),
                    Err(error) => Err(error),
                },
            ),
    {
        match (&self.phase, state) {
            (FlowPhase::Replay(result), Ok(state)) => {
                let found = result.replica();
                self.turn(FlowPhase::Ended, FlowAction::Finish(found, state))
            },
            (FlowPhase::Commit(result), Ok(state)) => {
                let stored = result.replica();
                self.turn(FlowPhase::Ended, FlowAction::Finish(stored, state))
            },
            (FlowPhase::Load, Ok(state)) => self.load(policy, state),
            (FlowPhase::Reload(attempts), Ok(state)) => {
                let attempts: u32 = *attempts;
                if let FlowRequest::Model(_) = &self.request {
                    return self.fail(ServiceError::Backend);
                }
                self.deliver(&state, attempts)
            },
            (FlowPhase::Replay(_), Err(error)) => self.fail(ServiceError::read_store(error)),
            (FlowPhase::Commit(_), Err(error)) => self.fail(ServiceError::read_store(error)),
            (FlowPhase::Load, Err(error)) => self.fail(ServiceError::read_store(error)),
            (FlowPhase::Reload(_), Err(error)) => self.fail(ServiceError::read_store(error)),
            _ => self.fail(ServiceError::Backend),
        }
    }

    /// Takes what came of looking for the credential of the model.
    pub fn replica_resolved(self, outcome: Result<(), ReplicaError>) -> (next: (Self, FlowAction))
        ensures
            (next.0.deep_view(), next.1.deep_view()) == replica_resolved_step(
                self.deep_view(),
                outcome,
            ),
    {
        match (&self.phase, &self.request, outcome) {
            (FlowPhase::Resolve(state), FlowRequest::Model(model), Ok(_)) => {
                let expected_version: u64 = state.stream_version;
                let draft = model_draft(state, model.replica(), &self.command_id);
                self.turn(FlowPhase::AppendEvent, FlowAction::Append { expected_version, draft })
            },
            (FlowPhase::Resolve(_), _, Err(error)) => self.fail(
                ServiceError::from_selected_replica(error),
            ),
            _ => self.fail(ServiceError::Backend),
        }
    }

    /// Takes what came of storing.
    pub fn appended(self, outcome: Result<AppendResult, StoreError>) -> (next: (Self, FlowAction))
        ensures
            (next.0.deep_view(), next.1.deep_view()) == appended_step(
                self.deep_view(),
                match outcome {
                    Ok(result) => Ok(result.deep_view()),
                    Err(error) => Err(error),
                },
            ),
    {
        match (&self.phase, outcome) {
            (FlowPhase::AppendEvent, Ok(result)) => self.turn(
                FlowPhase::Commit(result),
                FlowAction::Rehydrate,
            ),
            (FlowPhase::AppendDelivery(_), Ok(result)) => self.turn(
                FlowPhase::Commit(result),
                FlowAction::Rehydrate,
            ),
            (FlowPhase::AppendEvent, Err(error)) => self.fail(ServiceError::store(error)),
            (FlowPhase::AppendDelivery(attempts), Err(error)) => {
                let attempts: u32 = *attempts;
                if error == StoreError::OptimisticConcurrency && attempts
                    < MAX_ADMISSION_ATTEMPTS {
                    self.turn(FlowPhase::Reload(attempts + 1), FlowAction::Rehydrate)
                } else if error == StoreError::CommandIdempotencyConflict {
                    self.turn(FlowPhase::Recheck, FlowAction::ReadStream)
                } else {
                    self.fail(ServiceError::store(error))
                }
            },
            _ => self.fail(ServiceError::Backend),
        }
    }
}

/// Why the selection of a new session is refused, if it is: for its tools, or for the execution of
/// its model.
pub open spec fn created_selection_fault(
    selection: SessionSelectionView,
    tools_offered: bool,
    policy: ProviderExecutionPolicyView,
) -> Option<ServiceErrorView> {
    if !tools_offered {
        Some(ServiceErrorView::Invalid("invalid tool selection"@))
    } else {
        match selection.model {
            Some(model) if execution_fault(model.provider_execution, policy) is Some => Some(
                ServiceErrorView::Invalid("invalid provider execution"@),
            ),
            _ => None,
        }
    }
}

/// Checks the selection of a new session, where it is known whether its tools are offered.
pub fn check_created_selection(
    selection: &SessionSelection,
    tools_offered: bool,
    policy: &ProviderExecutionPolicy,
) -> (result: Result<(), ServiceError>)
    ensures
        failure_of(result) == created_selection_fault(
            selection.deep_view(),
            tools_offered,
            policy.deep_view(),
        ),
{
    if !tools_offered {
        return Err(ServiceError::Invalid("invalid tool selection".to_string()));
    }
    if let Some(model) = &selection.model {
        if policy.validate(&model.provider_execution).is_err() {
            return Err(ServiceError::Invalid("invalid provider execution".to_string()));
        }
    }
    Ok(())
}

/// What is handed to a command.
pub enum FlowInputView {
    StreamRead(Result<Seq<EventRecordView>, StoreError>),
    Rehydrated(ProviderExecutionPolicyView, Result<SessionStateView, StoreError>),
    ReplicaResolved(Result<(), ReplicaError>),
    Appended(Result<AppendResultView, StoreError>),
}

/// The step of a command on what is handed to it.
pub open spec fn flow_step(flow: CommandFlowView, input: FlowInputView) -> (
    CommandFlowView,
    FlowActionView,
) {
    match input {
        FlowInputView::StreamRead(records) => stream_read_step(flow, records),
        FlowInputView::Rehydrated(policy, state) => rehydrated_step(flow, policy, state),
        FlowInputView::ReplicaResolved(outcome) => replica_resolved_step(flow, outcome),
        FlowInputView::Appended(outcome) => appended_step(flow, outcome),
    }
}

/// Whether a command is in a phase that it can come to.
pub open spec fn is_sound(flow: CommandFlowView) -> bool {
    match flow.phase {
        FlowPhaseView::LookUp => true,
        FlowPhaseView::Replay(_) => true,
        FlowPhaseView::Ended => true,
        FlowPhaseView::AppendDelivery(attempts) => !flow.replay_only && attempts
            < MAX_ADMISSION_ATTEMPTS,
        FlowPhaseView::Reload(attempts) => !flow.replay_only && 1 <= attempts
            <= MAX_ADMISSION_ATTEMPTS,
        _ => !flow.replay_only,
    }
}

/// A command stays what it is while it is carried out. One that asks only for what was stored
/// before never stores, and no delivery is tried more often than allowed.
pub proof fn command_keeps_its_bounds(flow: CommandFlowView, input: FlowInputView)
    requires
        is_sound(flow),
    ensures
        ({
            let (next, action) = flow_step(flow, input);
            &&& is_sound(next)
            &&& next.session_id == flow.session_id
            &&& next.command_id == flow.command_id
            &&& next.request == flow.request
            &&& next.replay_only == flow.replay_only
            &&& flow.replay_only ==> !(action is Append)
            &&& next.phase matches FlowPhaseView::AppendDelivery(attempts) ==> attempts
                < MAX_ADMISSION_ATTEMPTS
            &&& (action is Finish || action is Fail) <==> next.phase is Ended
        }),
{
}

/// A message that was stored and is sent again is answered with what it stored, and nothing more
/// is stored: whenever it comes, and whether only an earlier one was asked for or not.
pub proof fn repeated_message_is_answered(
    flow: CommandFlowView,
    command: MessageCommandView,
    created_at_ms: i64,
    current: SessionStateView,
    records: Seq<EventRecordView>,
    record: EventRecordView,
    policy: ProviderExecutionPolicyView,
    state: SessionStateView,
)
    requires
        flow.phase is LookUp,
        flow.request == FlowRequestView::Message(MessageCommandView { created_at_ms, ..command }),
        records.filter(of_command(flow.command_id)).len() == 0,
        record.command_id == flow.command_id,
        record.event == message_draft_of(command).event || (delivery_draft_of(
            current,
            command,
        ) matches Ok(draft) && record.event == draft.event),
    ensures
        ({
            let (found, first) = stream_read_step(flow, Ok(records.push(record)));
            let (_, second) = rehydrated_step(found, policy, Ok(state));
            &&& first is Rehydrate
            &&& second matches FlowActionView::Finish(result, told) && result.events == seq![record]
                && result.stream_version == record.stream_version && result.replayed && told
                == state
        }),
{
    stored_message_answers_itself(current, command, created_at_ms);
    repeated_command_is_found(flow.session_id, records, record, request_of(flow.request));
}

/// A model that was selected and is selected again under the same key is answered with what was
/// stored.
pub proof fn repeated_selection_is_answered(
    flow: CommandFlowView,
    model: SessionModelSelectionView,
    current: SessionStateView,
    records: Seq<EventRecordView>,
    record: EventRecordView,
    policy: ProviderExecutionPolicyView,
    state: SessionStateView,
)
    requires
        flow.phase is LookUp,
        flow.request == FlowRequestView::Model(model),
        records.filter(of_command(flow.command_id)).len() == 0,
        record.command_id == flow.command_id,
        record.event == model_draft_of(current, model, flow.command_id).event,
    ensures
        ({
            let (found, first) = stream_read_step(flow, Ok(records.push(record)));
            let (_, second) = rehydrated_step(found, policy, Ok(state));
            &&& first is Rehydrate
            &&& second matches FlowActionView::Finish(result, told) && result.events == seq![record]
                && result.stream_version == record.stream_version && result.replayed && told
                == state
        }),
{
    stored_model_answers_itself(current, model, flow.command_id);
    repeated_command_is_found(flow.session_id, records, record, request_of(flow.request));
}

/// A key that was used for one message cannot be used for another.
pub proof fn reused_key_is_a_conflict(
    flow: CommandFlowView,
    records: Seq<EventRecordView>,
    record: EventRecordView,
)
    requires
        flow.phase is LookUp,
        records.filter(of_command(flow.command_id)) == seq![record],
        !answers(record.event, request_of(flow.request)),
    ensures
        stream_read_step(flow, Ok(records)).1 == FlowActionView::Fail(command_conflict()),
{
}

} // verus!
