//! Context handoffs.

use super::step::{changed, kept, outcome, refused, Step};
use crate::datum::{Datum, Same};
use crate::domain::error::{invalid, invalid_state, DomainError};
use crate::domain::history::{find_message, has_message};
use crate::domain::model::{
    document_agrees, plan_agrees, ContextHandoffDocument, ContextHandoffDocumentView,
    ContextHandoffPlan, ContextHandoffPlanView, ModelAttemptError, ModelAttemptErrorView,
};
use crate::domain::selection::{chosen_model_agrees, model_agrees};
use crate::domain::state::{
    expected_generation, follows_latest, latest_handoff_id, next_generation, uses_model,
    SessionState, SessionStateView,
};
use crate::text::{holds_text, same_text};
use vstd::prelude::*;

verus! {

/// A handoff is planned in the activation, on top of the latest handoff. The plan that is pending
/// already changes nothing, another is refused.
#[verifier::opaque]
pub open spec fn plan_step(state: SessionStateView, plan: ContextHandoffPlanView) -> Step {
    match state.active_activation {
        None => refused(invalid("context handoff plan has no active activation"@)),
        Some(activation) => if plan.activation_id != activation.activation_id
            || !chosen_model_agrees(activation.selection.model, plan.selection) {
            refused(invalid("context handoff plan belongs to another activation"@))
        } else if plan.previous_handoff_id != latest_handoff_id(state) {
            refused(invalid("context handoff plan has a stale parent"@))
        } else if plan.next_generation != expected_generation(state) {
            refused(invalid("context handoff plan has an invalid generation"@))
        } else if !has_message(state.transcript, plan.covered_through_message_id) {
            refused(invalid("context handoff plan boundary is absent from history"@))
        } else if let Some(existing) = state.pending_context_handoff {
            if plan_agrees(existing, plan) {
                kept(state)
            } else {
                refused(invalid("context handoff already has a pending plan"@))
            }
        } else {
            changed(
                SessionStateView {
                    pending_context_handoff: Some(plan),
                    last_context_handoff_failure: None,
                    ..state
                },
            )
        },
    }
}

/// Whether a document carries out a plan.
pub open spec fn carries_out(
    handoff: ContextHandoffDocumentView,
    plan: ContextHandoffPlanView,
) -> bool {
    &&& handoff.plan_id == plan.plan_id
    &&& handoff.previous_handoff_id == plan.previous_handoff_id
    &&& handoff.next_generation == plan.next_generation
    &&& handoff.covered_through_message_id == plan.covered_through_message_id
    &&& handoff.source_digest == plan.source_digest
    &&& handoff.source_tokens == plan.source_tokens
    &&& handoff.token_accounting_version == plan.token_accounting_version
    &&& model_agrees(handoff.selection, plan.selection)
}

/// The document of the pending plan becomes the latest handoff. Where it is that already, only the
/// plan is done with.
#[verifier::opaque]
pub open spec fn document_step(
    state: SessionStateView,
    handoff: ContextHandoffDocumentView,
) -> Step {
    match state.pending_context_handoff {
        None => refused(invalid("context handoff document has no pending plan"@)),
        Some(plan) => if !carries_out(handoff, plan) {
            refused(invalid("context handoff document conflicts with its durable plan"@))
        } else if state.latest_context_handoff matches Some(existing) && document_agrees(
            existing,
            handoff,
        ) {
            changed(SessionStateView { pending_context_handoff: None, ..state })
        } else if state.latest_context_handoff matches Some(existing)
            && handoff.previous_handoff_id != Some(existing.handoff_id) {
            refused(invalid("context handoff document has a stale parent"@))
        } else {
            changed(
                SessionStateView {
                    latest_context_handoff: Some(handoff),
                    latest_model_usage: None,
                    pending_context_handoff: None,
                    last_context_handoff_failure: None,
                    ..state
                },
            )
        },
    }
}

/// The pending plan fails.
#[verifier::opaque]
pub open spec fn handoff_failed_step(
    state: SessionStateView,
    plan_id: Seq<char>,
    error: ModelAttemptErrorView,
) -> Step {
    match state.pending_context_handoff {
        None => refused(invalid("context handoff failure has no pending plan"@)),
        Some(plan) => if plan.plan_id != plan_id {
            refused(invalid("context handoff failure belongs to another plan"@))
        } else {
            changed(
                SessionStateView {
                    pending_context_handoff: None,
                    last_context_handoff_failure: Some(error),
                    ..state
                },
            )
        },
    }
}

fn is_carried_out(handoff: &ContextHandoffDocument, plan: &ContextHandoffPlan) -> (carried: bool)
    ensures
        carried == carries_out(handoff.deep_view(), plan.deep_view()),
{
    handoff.plan_id.same(&plan.plan_id) && handoff.previous_handoff_id.same(
        &plan.previous_handoff_id,
    ) && handoff.next_generation == plan.next_generation
        && handoff.covered_through_message_id.same(&plan.covered_through_message_id)
        && handoff.source_digest.same(&plan.source_digest) && handoff.source_tokens
        == plan.source_tokens && handoff.token_accounting_version == plan.token_accounting_version
        && handoff.selection.agrees(&plan.selection)
}

impl SessionState {
    pub(crate) fn plan_handoff(&mut self, plan: &ContextHandoffPlan) -> (result: Result<
        bool,
        DomainError,
    >)
        ensures
            outcome(result, *final(self)) == plan_step(old(self).deep_view(), plan.deep_view()),
            result is Err ==> final(self).deep_view() == old(self).deep_view(),
    {
        proof {
            reveal(plan_step);
        }
        let ghost view = self.deep_view();
        match &self.active_activation {
            None => {
                return Err(invalid_state("context handoff plan has no active activation"));
            },
            Some(activation) => {
                if !same_text(&plan.activation_id, &activation.activation_id) || !uses_model(
                    activation,
                    &plan.selection,
                ) {
                    return Err(
                        invalid_state("context handoff plan belongs to another activation"),
                    );
                }
            },
        }
        if !follows_latest(&plan.previous_handoff_id, &self.latest_context_handoff) {
            assert(latest_handoff_id(view) != plan.deep_view().previous_handoff_id);
            return Err(invalid_state("context handoff plan has a stale parent"));
        }
        assert(latest_handoff_id(view) == plan.deep_view().previous_handoff_id);
        let expected: u64 = next_generation(&self.latest_context_handoff);
        assert(expected == expected_generation(view));
        if plan.next_generation != expected {
            return Err(invalid_state("context handoff plan has an invalid generation"));
        }
        if find_message(&self.transcript, &plan.covered_through_message_id).is_none() {
            return Err(invalid_state("context handoff plan boundary is absent from history"));
        }
        if let Some(existing) = &self.pending_context_handoff {
            if existing.agrees(plan) {
                return Ok(false);
            }
            return Err(invalid_state("context handoff already has a pending plan"));
        }
        self.pending_context_handoff = Some(plan.replica());
        self.last_context_handoff_failure = None;
        Ok(true)
    }

    pub(crate) fn create_handoff(&mut self, handoff: &ContextHandoffDocument) -> (result: Result<
        bool,
        DomainError,
    >)
        ensures
            outcome(result, *final(self)) == document_step(
                old(self).deep_view(),
                handoff.deep_view(),
            ),
            result is Err ==> final(self).deep_view() == old(self).deep_view(),
    {
        proof {
            reveal(document_step);
        }
        match &self.pending_context_handoff {
            None => {
                return Err(invalid_state("context handoff document has no pending plan"));
            },
            Some(plan) => {
                if !is_carried_out(handoff, plan) {
                    return Err(
                        invalid_state("context handoff document conflicts with its durable plan"),
                    );
                }
            },
        }
        if let Some(existing) = &self.latest_context_handoff {
            if existing.agrees(handoff) {
                self.pending_context_handoff = None;
                return Ok(true);
            }
            if !holds_text(&handoff.previous_handoff_id, &existing.handoff_id) {
                return Err(invalid_state("context handoff document has a stale parent"));
            }
        }
        self.latest_context_handoff = Some(handoff.replica());
        self.latest_model_usage = None;
        self.pending_context_handoff = None;
        self.last_context_handoff_failure = None;
        Ok(true)
    }

    pub(crate) fn fail_handoff(&mut self, plan_id: &String, error: &ModelAttemptError) -> (result:
        Result<bool, DomainError>)
        ensures
            outcome(result, *final(self)) == handoff_failed_step(
                old(self).deep_view(),
                plan_id@,
                error.deep_view(),
            ),
            result is Err ==> final(self).deep_view() == old(self).deep_view(),
    {
        proof {
            reveal(handoff_failed_step);
        }
        match &self.pending_context_handoff {
            None => {
                return Err(invalid_state("context handoff failure has no pending plan"));
            },
            Some(plan) => {
                if !same_text(&plan.plan_id, plan_id) {
                    return Err(invalid_state("context handoff failure belongs to another plan"));
                }
            },
        }
        self.pending_context_handoff = None;
        self.last_context_handoff_failure = Some(error.replica());
        Ok(true)
    }
}

} // verus!
