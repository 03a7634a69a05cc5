//! Whose sessions a request is about: each subject of an authority sees its own sessions, and those
//! of others as if they were not there.

use crate::datum::Same;
use crate::domain::event::SessionEventView;
use crate::domain::reducer::laws::identity_is_fixed;
use crate::domain::reducer::reduced;
use crate::domain::selection::{owner_fault, SessionOwner, SessionOwnerView};
use crate::domain::state::{SessionState, SessionStateView};
use crate::http::errors::{
    malformed_answer, service_answer, session_not_found_answer, ApiError, ApiErrorView,
    ServiceErrorView, StoreError,
};
use crate::http::flow::{
    flow_step, read_failure, write_failure, CommandFlowView, FlowActionView, FlowInputView,
};
use crate::http::requests::{shared_owner, shared_session_owner};
use crate::provider::ProviderExecutionPolicyView;
use vstd::prelude::*;

verus! {

/// The owner of what a request is about: the subject that it is made for, within its authority.
/// Where no subject is given, sessions are shared.
pub open spec fn owner_for(authority_id: Seq<char>, subject: Option<Seq<char>>) -> Result<
    SessionOwnerView,
    ApiErrorView,
> {
    match subject {
        None => Ok(shared_owner()),
        Some(subject) => {
            let owner = SessionOwnerView { authority_id, subject };
            if owner_fault(owner) is None {
                Ok(owner)
            } else {
                Err(malformed_answer())
            }
        },
    }
}

/// Makes the owner of what a request is about.
pub fn request_owner(authority_id: &str, subject: Option<&str>) -> (result: Result<
    SessionOwner,
    ApiError,
>)
    ensures
        match result {
            Ok(owner) => owner_for(authority_id@, subject.deep_view()) == Ok::<
                SessionOwnerView,
                ApiErrorView,
            >(owner.deep_view()),
            Err(error) => owner_for(authority_id@, subject.deep_view()) == Err::<
                SessionOwnerView,
                ApiErrorView,
            >(error.deep_view()),
        },
{
    match subject {
        None => Ok(shared_session_owner()),
        Some(subject) => match SessionOwner::try_new(
            authority_id.to_string(),
            subject.to_string(),
        ) {
            Ok(owner) => Ok(owner),
            Err(_) => Err(ApiError::malformed()),
        },
    }
}

/// A session as an owner sees it: one that belongs to another is not there.
pub open spec fn seen_by(found: Option<SessionStateView>, owner: SessionOwnerView) -> Result<
    SessionStateView,
    StoreError,
> {
    match found {
        Some(state) if state.owner == Some(owner) => Ok(state),
        _ => Err(StoreError::SessionNotFound),
    }
}

/// The session that was found, if it belongs to the one who asks.
pub fn owned_session<'a>(found: Option<&'a SessionState>, owner: &SessionOwner) -> (result: Result<
    &'a SessionState,
    StoreError,
>)
    ensures
        match result {
            Ok(state) => seen_by(found.deep_view(), owner.deep_view()) == Ok::<
                SessionStateView,
                StoreError,
            >(state.deep_view()) && found == Some(state),
            Err(error) => seen_by(found.deep_view(), owner.deep_view()) == Err::<
                SessionStateView,
                StoreError,
            >(error),
        },
{
    match found {
        Some(state) => match &state.owner {
            Some(held) => if held.same(owner) {
                Ok(state)
            } else {
                Err(StoreError::SessionNotFound)
            },
            None => Err(StoreError::SessionNotFound),
        },
        None => Err(StoreError::SessionNotFound),
    }
}

/// The session of another subject looks like a missing one: it is answered the same, and a command
/// on it goes the same way. Nothing else of such a command is looked at.
pub proof fn foreign_session_looks_missing(
    state: SessionStateView,
    owner: SessionOwnerView,
    flow: CommandFlowView,
    policy: ProviderExecutionPolicyView,
)
    requires
        state.owner != Some(owner),
    ensures
        seen_by(Some(state), owner) == seen_by(None, owner),
        seen_by(Some(state), owner) matches Err(error) && {
            &&& service_answer(read_failure(error)) == session_not_found_answer()
            &&& service_answer(write_failure(error)) == session_not_found_answer()
        },
        flow_step(flow, FlowInputView::Rehydrated(policy, seen_by(Some(state), owner)))
            == flow_step(flow, FlowInputView::Rehydrated(policy, seen_by(None, owner))),
        flow.phase is Load ==> flow_step(
            flow,
            FlowInputView::Rehydrated(policy, seen_by(Some(state), owner)),
        ).1 == FlowActionView::Fail(ServiceErrorView::NotFound),
{
}

/// Two subjects share no session, nor do two authorities.
pub proof fn sessions_are_kept_apart(
    state: SessionStateView,
    authority: Seq<char>,
    subject: Seq<char>,
    other_authority: Seq<char>,
    other_subject: Seq<char>,
)
    requires
        owner_for(authority, Some(subject)) is Ok,
        owner_for(other_authority, Some(other_subject)) is Ok,
        authority != other_authority || subject != other_subject,
    ensures
        seen_by(Some(state), owner_for(authority, Some(subject))->Ok_0) is Ok ==> seen_by(
            Some(state),
            owner_for(other_authority, Some(other_subject))->Ok_0,
        ) == seen_by(None, owner_for(other_authority, Some(other_subject))->Ok_0),
{
}

/// A session belongs to the same owner for good: no event hands it to another or hides it.
pub proof fn ownership_lasts(
    state: SessionStateView,
    event: SessionEventView,
    owner: SessionOwnerView,
)
    requires
        state.stream_version > 0,
        reduced(state, event) is Ok,
    ensures
        seen_by(Some(reduced(state, event)->Ok_0), owner) is Ok <==> seen_by(
            Some(state),
            owner,
        ) is Ok,
{
    identity_is_fixed(state, event);
}

} // verus!
