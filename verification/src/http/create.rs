//! How a session is created, step by step.
//!
//! A [`CreateFlow`] decides; whoever runs it does what its [`CreateAction`] says and hands back
//! what came of it.

use crate::domain::selection::{SessionSelection, SessionSelectionView};
use crate::http::errors::{ServiceError, ServiceErrorView, StoreError};
use crate::http::flow::{check_created_selection, created_selection_fault, write_failure};
use crate::provider::{ProviderExecutionPolicy, ProviderExecutionPolicyView};
use crate::replicas::ReplicaError;
use crate::text::same_text;
use crate::wiring::{HttpToolSpec, HttpToolSpecView};
use vstd::prelude::*;

verus! {

/// A session that is there.
#[derive(Clone, Debug, PartialEq)]
pub struct CreatedSession {
    pub session_id: String,
    pub version: u64,
}

/// The content of a [`CreatedSession`].
pub struct CreatedSessionView {
    pub session_id: Seq<char>,
    pub version: u64,
}

impl DeepView for CreatedSession {
    type V = CreatedSessionView;

    open spec fn deep_view(&self) -> CreatedSessionView {
        CreatedSessionView { session_id: self.session_id@, version: self.version }
    }
}

/// Whether a tool is offered under a name.
pub open spec fn is_offered(name: Seq<char>, tools: Seq<HttpToolSpecView>) -> bool {
    exists|i: int| 0 <= i < tools.len() && (#[trigger] tools[i]).name == name
}

/// Whether every tool that is selected is offered.
pub open spec fn all_offered(selected: Seq<Seq<char>>, tools: Seq<HttpToolSpecView>) -> bool {
    forall|i: int| 0 <= i < selected.len() ==> is_offered(#[trigger] selected[i], tools)
}

fn tool_offered(name: &str, tools: &Vec<HttpToolSpec>) -> (offered: bool)
    ensures
        offered == is_offered(name@, tools.deep_view()),
{
    let ghost view = tools.deep_view();
    let mut index: usize = 0;
    while index < tools.len()
        invariant
            view == tools.deep_view(),
            index <= tools.len(),
            forall|i: int| 0 <= i < index ==> (#[trigger] view[i]).name != name@,
        decreases tools.len() - index,
    {
        if same_text(&tools[index].name, name) {
            assert(view[index as int].name == name@);
            return true;
        }
        index += 1;
    }
    false
}

/// Whether every tool that is selected is offered.
pub fn tools_offered(selected: &Vec<String>, tools: &Vec<HttpToolSpec>) -> (offered: bool)
    ensures
        offered == all_offered(selected.deep_view(), tools.deep_view()),
{
    let ghost names = selected.deep_view();
    let mut index: usize = 0;
    while index < selected.len()
        invariant
            names == selected.deep_view(),
            index <= selected.len(),
            forall|i: int|
                0 <= i < index ==> is_offered(#[trigger] names[i], tools.deep_view()),
        decreases selected.len() - index,
    {
        if !tool_offered(&selected[index], tools) {
            assert(!is_offered(names[index as int], tools.deep_view()));
            return false;
        }
        index += 1;
    }
    true
}

/// What the creation of a session waits for.
#[derive(Clone, Copy, Debug, PartialEq, Eq, Structural)]
pub enum CreatePhase {
    /// Whether the command created a session before.
    LookUp,
    /// The credential of the model.
    Resolve,
    /// The store.
    Create,
    /// Nothing.
    Ended,
}

/// What is to be done next.
#[derive(Clone, Debug, PartialEq)]
pub enum CreateAction {
    /// Look for the credential of the model, and call [`CreateFlow::replica_resolved`].
    ResolveReplica,
    /// Store the session, and call [`CreateFlow::created`].
    Create,
    /// End, with a session.
    Answer(CreatedSession),
    /// End, with a failure.
    Fail(ServiceError),
}

/// The content of a [`CreateAction`].
pub enum CreateActionView {
    ResolveReplica,
    Create,
    Answer(CreatedSessionView),
    Fail(ServiceErrorView),
}

impl DeepView for CreateAction {
    type V = CreateActionView;

    open spec fn deep_view(&self) -> CreateActionView {
        match self {
            CreateAction::ResolveReplica => CreateActionView::ResolveReplica,
            CreateAction::Create => CreateActionView::Create,
            CreateAction::Answer(session) => CreateActionView::Answer(session.deep_view()),
            CreateAction::Fail(error) => CreateActionView::Fail(error.deep_view()),
        }
    }
}

/// The creation of a session in the course of being carried out. The command is to be looked up
/// first.
pub struct CreateFlow {
    pub selection: SessionSelection,
    pub replay_only: bool,
    pub phase: CreatePhase,
}

/// The content of a [`CreateFlow`].
pub struct CreateFlowView {
    pub selection: SessionSelectionView,
    pub replay_only: bool,
    pub phase: CreatePhase,
}

impl DeepView for CreateFlow {
    type V = CreateFlowView;

    open spec fn deep_view(&self) -> CreateFlowView {
        CreateFlowView {
            selection: self.selection.deep_view(),
            replay_only: self.replay_only,
            phase: self.phase,
        }
    }
}

/// The creation with its next phase, and what is to be done.
pub open spec fn turned(flow: CreateFlowView, phase: CreatePhase, action: CreateActionView) -> (
    CreateFlowView,
    CreateActionView,
) {
    (CreateFlowView { phase, ..flow }, action)
}

/// A creation that fails.
pub open spec fn failed(flow: CreateFlowView, error: ServiceErrorView) -> (
    CreateFlowView,
    CreateActionView,
) {
    turned(flow, CreatePhase::Ended, CreateActionView::Fail(error))
}

/// What follows on looking the command up: a session that it created before is the answer; else
/// its selection is checked, unless only an earlier session was asked for.
pub open spec fn looked_up_step(
    flow: CreateFlowView,
    found: Result<Option<CreatedSessionView>, StoreError>,
    tools_offered: bool,
    policy: ProviderExecutionPolicyView,
) -> (CreateFlowView, CreateActionView) {
    match (flow.phase, found) {
        (CreatePhase::LookUp, Err(error)) => failed(flow, write_failure(error)),
        (CreatePhase::LookUp, Ok(Some(session))) => turned(
            flow,
            CreatePhase::Ended,
            CreateActionView::Answer(session),
        ),
        (CreatePhase::LookUp, Ok(None)) => if flow.replay_only {
            failed(flow, ServiceErrorView::IdempotencyReceiptNotFound)
        } else {
            match created_selection_fault(flow.selection, tools_offered, policy) {
                Some(error) => failed(flow, error),
                None => if flow.selection.model is Some {
                    turned(flow, CreatePhase::Resolve, CreateActionView::ResolveReplica)
                } else {
                    turned(flow, CreatePhase::Create, CreateActionView::Create)
                },
            }
        },
        _ => failed(flow, ServiceErrorView::Backend),
    }
}

/// What follows on looking for the credential of the model.
pub open spec fn created_replica_step(
    flow: CreateFlowView,
    outcome: Result<(), ReplicaError>,
) -> (CreateFlowView, CreateActionView) {
    match (flow.phase, outcome) {
        (CreatePhase::Resolve, Ok(_)) => turned(
            flow,
            CreatePhase::Create,
            CreateActionView::Create,
        ),
        (CreatePhase::Resolve, Err(error)) => failed(
            flow,
            match error {
                ReplicaError::Disabled
                | ReplicaError::SecretUnavailable => ServiceErrorView::AuthReplicaUnavailable,
                ReplicaError::Invalid => ServiceErrorView::Invalid(
                    "invalid credential replica selection"@,
                ),
                _ => ServiceErrorView::Backend,
            },
        ),
        _ => failed(flow, ServiceErrorView::Backend),
    }
}

/// What follows on storing the session.
pub open spec fn created_step(
    flow: CreateFlowView,
    outcome: Result<CreatedSessionView, StoreError>,
) -> (CreateFlowView, CreateActionView) {
    match (flow.phase, outcome) {
        (CreatePhase::Create, Ok(session)) => turned(
            flow,
            CreatePhase::Ended,
            CreateActionView::Answer(session),
        ),
        (CreatePhase::Create, Err(error)) => failed(flow, write_failure(error)),
        _ => failed(flow, ServiceErrorView::Backend),
    }
}

impl CreateFlow {
    /// The creation of a session with a selection.
    pub fn new(selection: SessionSelection, replay_only: bool) -> (flow: Self)
        ensures
            flow.deep_view() == (CreateFlowView {
                selection: selection.deep_view(),
                replay_only,
                phase: CreatePhase::LookUp,
            }),
    {
        CreateFlow { selection, replay_only, phase: CreatePhase::LookUp }
    }

    fn turn(self, phase: CreatePhase, action: CreateAction) -> (next: (Self, CreateAction))
        ensures
            (next.0.deep_view(), next.1.deep_view()) == turned(
                self.deep_view(),
                phase,
                action.deep_view(),
            ),
    {
        (CreateFlow { phase, ..self }, action)
    }

    fn fail(self, error: ServiceError) -> (next: (Self, CreateAction))
        ensures
            (next.0.deep_view(), next.1.deep_view()) == failed(self.deep_view(), error.deep_view()),
    {
        self.turn(CreatePhase::Ended, CreateAction::Fail(error))
    }

    /// Takes the session that the command created before, if it did, and whether the tools of the
    /// selection are offered.
    pub fn looked_up(
        self,
        found: Result<Option<CreatedSession>, StoreError>,
        tools_offered: bool,
        policy: &ProviderExecutionPolicy,
    ) -> (next: (Self, CreateAction))
        ensures
            (next.0.deep_view(), next.1.deep_view()) == looked_up_step(
                self.deep_view(),
                match found {
                    Ok(found) => Ok(found.deep_view()),
                    Err(error) => Err(error),
                },
                tools_offered,
                policy.deep_view(),
            ),
    {
        match (self.phase, found) {
            (CreatePhase::LookUp, Err(error)) => self.fail(ServiceError::store(error)),
            (CreatePhase::LookUp, Ok(Some(session))) => self.turn(
                CreatePhase::Ended,
                CreateAction::Answer(session),
            ),
            (CreatePhase::LookUp, Ok(None)) => {
                if self.replay_only {
                    return self.fail(ServiceError::IdempotencyReceiptNotFound);
                }
                let checked = check_created_selection(&self.selection, tools_offered, policy);
                if let Err(error) = checked {
                    return self.fail(error);
                }
                if self.selection.model.is_some() {
                    self.turn(CreatePhase::Resolve, CreateAction::ResolveReplica)
                } else {
                    self.turn(CreatePhase::Create, CreateAction::Create)
                }
            },
            _ => self.fail(ServiceError::Backend),
        }
    }

    /// Takes what came of looking for the credential of the model.
    pub fn replica_resolved(self, outcome: Result<(), ReplicaError>) -> (next: (
        Self,
        CreateAction,
    ))
        ensures
            (next.0.deep_view(), next.1.deep_view()) == created_replica_step(
                self.deep_view(),
                outcome,
            ),
    {
        match (self.phase, outcome) {
            (CreatePhase::Resolve, Ok(_)) => self.turn(CreatePhase::Create, CreateAction::Create),
            (CreatePhase::Resolve, Err(error)) => self.fail(
                ServiceError::from_created_replica(error),
            ),
            _ => self.fail(ServiceError::Backend),
        }
    }

    /// Takes what came of storing the session.
    pub fn created(self, outcome: Result<CreatedSession, StoreError>) -> (next: (
        Self,
        CreateAction,
    ))
        ensures
            (next.0.deep_view(), next.1.deep_view()) == created_step(
                self.deep_view(),
                match outcome {
                    Ok(session) => Ok(session.deep_view()),
                    Err(error) => Err(error),
                },
            ),
    {
        match (self.phase, outcome) {
            (CreatePhase::Create, Ok(session)) => self.turn(
                CreatePhase::Ended,
                CreateAction::Answer(session),
            ),
            (CreatePhase::Create, Err(error)) => self.fail(ServiceError::store(error)),
            _ => self.fail(ServiceError::Backend),
        }
    }
}

/// A session is created only for a command that created none, that asks for more than an earlier
/// session, and whose selection is sound; a command that created one is answered with it.
pub proof fn session_is_created_once(
    flow: CreateFlowView,
    found: Option<CreatedSessionView>,
    tools_offered: bool,
    policy: ProviderExecutionPolicyView,
)
    requires
        flow.phase == CreatePhase::LookUp,
    ensures
        ({
            let (next, action) = looked_up_step(flow, Ok(found), tools_offered, policy);
            &&& next.selection == flow.selection
            &&& found matches Some(session) ==> action == CreateActionView::Answer(session)
            &&& (action is Create || action is ResolveReplica) <==> found is None
                && !flow.replay_only && created_selection_fault(
                flow.selection,
                tools_offered,
                policy,
            ) is None
            &&& action is Create ==> flow.selection.model is None
        }),
{
}

} // verus!
