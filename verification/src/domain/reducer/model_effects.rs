//! What events do to the activation of a session, to the rounds of its model, and to the handoff of
//! its context.

use super::effects::{after, is_passed_over, is_refused, takes_effect};
use super::handoff::{document_step, handoff_failed_step, plan_step};
use super::model::{
    abandoned_step, activation_finished_step, activation_started_step, attempt_ended_step,
    attempt_started_step, completed_step, exhausted_step, model_failed_step,
    request_declared_step, retry_step, round_started_step,
};
use crate::domain::event::SessionEventView;
use crate::domain::model::{
    document_agrees, plan_agrees, ActiveActivationView, ActiveModelRoundView,
    ModelAttemptOutcome, ModelAttemptRecordView, ModelRequestFactView, ModelRequestPurpose,
};
use crate::domain::selection::model_agrees;
use crate::domain::state::SessionStateView;
use crate::domain::transcript::TranscriptRole;
use vstd::prelude::*;

verus! {

/// Whether two states differ in the round of the model at most.
pub open spec fn only_round_differs(state: SessionStateView, next: SessionStateView) -> bool {
    next == (SessionStateView { active_model_round: next.active_model_round, ..state })
}

/// Whether a round has ended with the answer of the model.
pub open spec fn is_answered(round: ActiveModelRoundView) -> bool {
    round.attempt matches Some(attempt) && attempt.outcome == ModelAttemptOutcome::Completed
}

/// Whether an attempt has ended without an answer.
pub open spec fn is_lost(attempt: ModelAttemptRecordView) -> bool {
    attempt.outcome == ModelAttemptOutcome::Failed || attempt.outcome
        == ModelAttemptOutcome::Interrupted
}

/// An activation claims a session that has none, if it knows the version of the selection. It is
/// kept as it came, before its first round, and there is no round then. Nothing else changes.
pub proof fn activation_takes_effect(state: SessionStateView, event: SessionEventView)
    ensures
        match event {
            SessionEventView::ActivationStarted {
                activation_id,
                selection,
                selection_version,
                minimum_auth_revision,
                started_at_ms,
            } => {
                let next = after(state, event);
                &&& takes_effect(state, event) <==> state.active_activation is None
                    && selection_version == state.selection_version
                &&& !takes_effect(state, event) ==> is_refused(state, event) && next == state
                &&& takes_effect(state, event) ==> {
                    &&& next.active_activation matches Some(activation) && {
                        &&& activation.activation_id == activation_id
                        &&& activation.selection == selection
                        &&& activation.selection_version == selection_version
                        &&& activation.minimum_auth_revision == minimum_auth_revision
                        &&& activation.started_at_ms == started_at_ms
                        &&& activation.legacy_rounds_started == 0
                    }
                    &&& next.active_model_round is None
                    &&& next == (SessionStateView {
                        active_activation: next.active_activation,
                        active_model_round: next.active_model_round,
                        ..state
                    })
                }
            },
            _ => true,
        },
{
    reveal(activation_started_step);
}

/// An activation ends by its own id only. The session is free then, without a round; nothing else
/// changes, however the activation ended.
pub proof fn end_of_activation_takes_effect(state: SessionStateView, event: SessionEventView)
    ensures
        match event {
            SessionEventView::ActivationFinished { activation_id, .. } => {
                let next = after(state, event);
                &&& takes_effect(state, event) <==> (state.active_activation matches Some(active)
                    && active.activation_id == activation_id)
                &&& !takes_effect(state, event) ==> is_refused(state, event) && next == state
                &&& takes_effect(state, event) ==> {
                    &&& next.active_activation is None
                    &&& next.active_model_round is None
                    &&& next == (SessionStateView {
                        active_activation: None,
                        active_model_round: None,
                        ..state
                    })
                }
            },
            _ => true,
        },
{
    reveal(activation_finished_step);
}

/// A round begins in the activation that it names, where there is no round or the last one was
/// answered. It has no request, no attempt and no retry yet. The activation counts one round more,
/// as far as the count goes, and nothing else changes.
pub proof fn round_takes_effect(state: SessionStateView, event: SessionEventView)
    ensures
        match event {
            SessionEventView::ModelRoundStarted {
                activation_id,
                round_id,
                purpose,
                delivery_through_queue_id,
                started_at_ms,
            } => {
                let next = after(state, event);
                &&& takes_effect(state, event) <==> {
                    &&& state.active_activation matches Some(active) && active.activation_id
                        == activation_id
                    &&& state.active_model_round matches Some(round) ==> is_answered(round)
                }
                &&& !takes_effect(state, event) ==> is_refused(state, event) && next == state
                &&& takes_effect(state, event) ==> {
                    &&& next.active_model_round matches Some(round) && {
                        &&& round.activation_id == activation_id
                        &&& round.round_id == round_id
                        &&& round.purpose == purpose
                        &&& round.delivery_through_queue_id == delivery_through_queue_id
                        &&& round.started_at_ms == started_at_ms
                        &&& round.request is None
                        &&& round.attempt is None
                        &&& round.retry is None
                    }
                    &&& next.active_activation matches Some(activation) && {
                        let count = state.active_activation->0.legacy_rounds_started;
                        &&& activation.legacy_rounds_started == if count == u32::MAX {
                            count as int
                        } else {
                            count + 1
                        }
                        &&& activation == (ActiveActivationView {
                            legacy_rounds_started: activation.legacy_rounds_started,
                            ..state.active_activation->0
                        })
                    }
                    &&& next == (SessionStateView {
                        active_activation: next.active_activation,
                        active_model_round: next.active_model_round,
                        ..state
                    })
                }
            },
            _ => true,
        },
{
    reveal(round_started_step);
}

/// Whether a request may be declared: its round is the active one and has none, and it asks for a
/// credential that is recent enough for the activation.
pub open spec fn may_be_declared(
    state: SessionStateView,
    activation_id: Seq<char>,
    round_id: Seq<char>,
    minimum_auth_revision: u64,
) -> bool {
    &&& state.active_model_round matches Some(round) && {
        &&& round.activation_id == activation_id
        &&& round.round_id == round_id
        &&& round.request is None
    }
    &&& state.active_activation matches Some(activation) && activation.minimum_auth_revision
        <= minimum_auth_revision
}

/// A request is declared once in its round, and kept there as it came. The round is otherwise as it
/// was, and nothing else changes.
pub proof fn request_takes_effect(state: SessionStateView, event: SessionEventView)
    ensures
        match event {
            SessionEventView::ModelRequestDeclared {
                activation_id,
                round_id,
                request_id,
                request_fingerprint,
                provider_execution_fingerprint,
                prompt_fingerprint,
                tool_schema_fingerprint,
                maximum_attempts,
                minimum_auth_revision,
            } => {
                let next = after(state, event);
                &&& takes_effect(state, event) <==> may_be_declared(
                    state,
                    activation_id,
                    round_id,
                    minimum_auth_revision,
                )
                &&& !takes_effect(state, event) ==> is_refused(state, event) && next == state
                &&& takes_effect(state, event) ==> only_round_differs(state, next)
                    && next.active_model_round == Some(
                    ActiveModelRoundView {
                        request: Some(
                            ModelRequestFactView {
                                activation_id,
                                round_id,
                                request_id,
                                request_fingerprint,
                                provider_execution_fingerprint,
                                prompt_fingerprint,
                                tool_schema_fingerprint,
                                legacy_envelope: None,
                                maximum_attempts,
                                minimum_auth_revision,
                            },
                        ),
                        ..state.active_model_round->0
                    },
                )
            },
            SessionEventView::ModelRequestPrepared {
                activation_id,
                round_id,
                request_id,
                request_fingerprint,
                provider_execution_fingerprint,
                prompt_fingerprint,
                tool_schema_fingerprint,
                envelope,
                maximum_attempts,
                minimum_auth_revision,
            } => {
                let next = after(state, event);
                &&& takes_effect(state, event) <==> may_be_declared(
                    state,
                    activation_id,
                    round_id,
                    minimum_auth_revision,
                )
                &&& !takes_effect(state, event) ==> is_refused(state, event) && next == state
                &&& takes_effect(state, event) ==> only_round_differs(state, next)
                    && next.active_model_round == Some(
                    ActiveModelRoundView {
                        request: Some(
                            ModelRequestFactView {
                                activation_id,
                                round_id,
                                request_id,
                                request_fingerprint,
                                provider_execution_fingerprint,
                                prompt_fingerprint,
                                tool_schema_fingerprint,
                                legacy_envelope: Some(envelope),
                                maximum_attempts,
                                minimum_auth_revision,
                            },
                        ),
                        ..state.active_model_round->0
                    },
                )
            },
            _ => true,
        },
{
    reveal(request_declared_step);
}

/// An attempt at the declared request begins, within the budget of the request: the first one, or
/// the one that was scheduled, whose schedule is done with then. It runs, and is kept as it came.
/// The attempt that is there already is passed over. Nothing else changes.
pub proof fn attempt_takes_effect(state: SessionStateView, event: SessionEventView)
    ensures
        match event {
            SessionEventView::ModelAttemptStarted {
                activation_id,
                round_id,
                request_id,
                attempt_id,
                attempt_number,
                auth_revision,
                started_at_ms,
            } => {
                let next = after(state, event);
                let named = state.active_model_round matches Some(round) && (
                round.request matches Some(request) && {
                    &&& request.activation_id == activation_id
                    &&& request.round_id == round_id
                    &&& request.request_id == request_id
                    &&& attempt_number <= request.maximum_attempts
                });
                &&& takes_effect(state, event) <==> named && (
                state.active_model_round matches Some(round) && round.attempt is None
                    && match round.retry {
                    Some(schedule) => schedule.next_attempt_id == attempt_id
                        && schedule.next_attempt_number == attempt_number,
                    None => attempt_number == 1,
                })
                &&& is_passed_over(state, event) <==> named && (
                state.active_model_round matches Some(round) && (
                round.attempt matches Some(existing) && existing.attempt_id == attempt_id
                    && existing.attempt_number == attempt_number))
                &&& !takes_effect(state, event) ==> next == state
                &&& takes_effect(state, event) ==> only_round_differs(state, next)
                    && next.active_model_round == Some(
                    ActiveModelRoundView {
                        attempt: Some(
                            ModelAttemptRecordView {
                                activation_id,
                                round_id,
                                request_id,
                                attempt_id,
                                attempt_number,
                                auth_revision,
                                started_at_ms,
                                outcome: ModelAttemptOutcome::Running,
                            },
                        ),
                        retry: None,
                        ..state.active_model_round->0
                    },
                )
            },
            _ => true,
        },
{
    reveal(attempt_started_step);
}

/// Whether the ids are those of the attempt that is there, and of its request and round.
pub open spec fn names_attempt(
    state: SessionStateView,
    activation_id: Seq<char>,
    round_id: Seq<char>,
    request_id: Seq<char>,
    attempt_id: Seq<char>,
    attempt_number: u32,
) -> bool {
    state.active_model_round matches Some(round) && {
        &&& round.activation_id == activation_id
        &&& round.round_id == round_id
        &&& round.request matches Some(request) && {
            &&& request.activation_id == activation_id
            &&& request.round_id == round_id
            &&& request.request_id == request_id
        }
        &&& round.attempt matches Some(attempt) && {
            &&& attempt.attempt_id == attempt_id
            &&& attempt.attempt_number == attempt_number
        }
    }
}

/// Whether the attempt of the round has got an outcome, and nothing else has changed in the round.
pub open spec fn attempt_gets(
    state: SessionStateView,
    next: SessionStateView,
    outcome: ModelAttemptOutcome,
) -> bool {
    next.active_model_round == Some(
        ActiveModelRoundView {
            attempt: Some(
                ModelAttemptRecordView { outcome, ..state.active_model_round->0.attempt->0 },
            ),
            ..state.active_model_round->0
        },
    )
}

/// The outcome of an attempt that is there.
pub open spec fn outcome_of(state: SessionStateView) -> ModelAttemptOutcome {
    state.active_model_round->0.attempt->0.outcome
}

/// Whether an attempt ends with an outcome, if it runs and is named; the same outcome again is
/// passed over, and another one is refused.
pub open spec fn ends_with(
    state: SessionStateView,
    event: SessionEventView,
    named: bool,
    outcome: ModelAttemptOutcome,
) -> bool {
    let next = after(state, event);
    &&& takes_effect(state, event) <==> named && outcome_of(state) == ModelAttemptOutcome::Running
    &&& is_passed_over(state, event) <==> named && outcome_of(state) == outcome
    &&& !takes_effect(state, event) ==> next == state
    &&& takes_effect(state, event) ==> attempt_gets(state, next, outcome) && only_round_differs(
        state,
        next,
    )
}

/// A running attempt that fails has failed, and one that is interrupted was interrupted.
pub proof fn lost_attempt_takes_effect(state: SessionStateView, event: SessionEventView)
    ensures
        match event {
            SessionEventView::ModelAttemptFailedFact {
                activation_id,
                round_id,
                request_id,
                attempt_id,
                attempt_number,
                ..
            } => ends_with(
                state,
                event,
                names_attempt(
                    state,
                    activation_id,
                    round_id,
                    request_id,
                    attempt_id,
                    attempt_number,
                ),
                ModelAttemptOutcome::Failed,
            ),
            SessionEventView::ModelAttemptInterrupted {
                activation_id,
                round_id,
                request_id,
                attempt_id,
                attempt_number,
                ..
            } => ends_with(
                state,
                event,
                names_attempt(
                    state,
                    activation_id,
                    round_id,
                    request_id,
                    attempt_id,
                    attempt_number,
                ),
                ModelAttemptOutcome::Interrupted,
            ),
            _ => true,
        },
{
    reveal(attempt_ended_step);
}

/// A running attempt that completes its request has completed. In a conversation its usage, if it
/// has one, is kept as the latest; a handoff leaves the latest usage as it was. Nothing else
/// changes.
pub proof fn answer_takes_effect(state: SessionStateView, event: SessionEventView)
    ensures
        match event {
            SessionEventView::ModelRequestCompleted {
                activation_id,
                round_id,
                request_id,
                attempt_id,
                usage,
            } => {
                let next = after(state, event);
                let named = state.active_model_round matches Some(round) && (
                round.attempt matches Some(attempt) && {
                    &&& attempt.activation_id == activation_id
                    &&& attempt.round_id == round_id
                    &&& attempt.request_id == request_id
                    &&& attempt.attempt_id == attempt_id
                });
                &&& takes_effect(state, event) <==> named && outcome_of(state)
                    == ModelAttemptOutcome::Running
                &&& is_passed_over(state, event) <==> named && outcome_of(state)
                    == ModelAttemptOutcome::Completed
                &&& !takes_effect(state, event) ==> next == state
                &&& takes_effect(state, event) ==> {
                    &&& attempt_gets(state, next, ModelAttemptOutcome::Completed)
                    &&& next.latest_model_usage == if usage is Some
                        && state.active_model_round->0.purpose
                        == ModelRequestPurpose::Conversation {
                        usage
                    } else {
                        state.latest_model_usage
                    }
                    &&& next == (SessionStateView {
                        active_model_round: next.active_model_round,
                        latest_model_usage: next.latest_model_usage,
                        ..state
                    })
                }
            },
            _ => true,
        },
{
    reveal(completed_step);
}

/// A request whose attempt was lost is given up, and with it the round. Nothing else changes.
pub proof fn abandonment_takes_effect(state: SessionStateView, event: SessionEventView)
    ensures
        match event {
            SessionEventView::ModelRequestAbandoned {
                activation_id,
                round_id,
                request_id,
                attempt_id,
                ..
            } => {
                let next = after(state, event);
                &&& takes_effect(state, event) <==> (state.active_model_round matches Some(round)
                    && {
                    &&& round.activation_id == activation_id
                    &&& round.round_id == round_id
                    &&& round.request matches Some(request) && request.request_id == request_id
                    &&& round.attempt matches Some(attempt) && attempt.attempt_id == attempt_id
                        && is_lost(attempt)
                })
                &&& !takes_effect(state, event) ==> is_refused(state, event) && next == state
                &&& takes_effect(state, event) ==> next.active_model_round is None
                    && only_round_differs(state, next)
            },
            _ => true,
        },
{
    reveal(abandoned_step);
}

/// That the attempts are used up is kept as it came, for an attempt that was lost and is named with
/// the budget of its request, once in an activation. The same fact again is passed over. Nothing
/// else changes.
pub proof fn exhaustion_takes_effect(state: SessionStateView, event: SessionEventView)
    ensures
        match event {
            SessionEventView::ModelAttemptsExhausted { fact } => {
                let next = after(state, event);
                &&& is_passed_over(state, event) <==> state.last_model_attempts_exhausted == Some(
                    fact,
                )
                &&& takes_effect(state, event) <==> {
                    &&& state.last_model_attempts_exhausted matches Some(known)
                        ==> known.activation_id
                        != fact.activation_id
                    &&& state.active_model_round matches Some(round) && {
                        &&& round.activation_id == fact.activation_id
                        &&& round.round_id == fact.round_id
                        &&& round.request matches Some(request) && request.request_id
                            == fact.request_id && request.maximum_attempts == fact.maximum_attempts
                        &&& round.attempt matches Some(attempt) && attempt.attempt_id
                            == fact.attempt_id && attempt.attempt_number == fact.attempt_number
                            && is_lost(attempt)
                    }
                }
                &&& !takes_effect(state, event) ==> next == state
                &&& takes_effect(state, event) ==> {
                    &&& next.last_model_attempts_exhausted == Some(fact)
                    &&& next == (SessionStateView {
                        last_model_attempts_exhausted: next.last_model_attempts_exhausted,
                        ..state
                    })
                }
            },
            _ => true,
        },
{
    reveal(exhausted_step);
}

/// A retry is scheduled, as it came, for an attempt that was lost and is named. It takes the place
/// of the attempt. Nothing else changes.
pub proof fn retry_takes_effect(state: SessionStateView, event: SessionEventView)
    ensures
        match event {
            SessionEventView::ModelStepRetryScheduled { schedule } => {
                let next = after(state, event);
                let named = state.active_model_round matches Some(round) && (
                round.attempt matches Some(attempt) && {
                    &&& attempt.activation_id == schedule.activation_id
                    &&& attempt.round_id == schedule.round_id
                    &&& attempt.request_id == schedule.request_id
                    &&& attempt.attempt_id == schedule.failed_attempt_id
                    &&& attempt.attempt_number == schedule.failed_attempt_number
                    &&& is_lost(attempt)
                });
                &&& takes_effect(state, event) <==> named && state.active_model_round->0.retry
                    is None
                &&& is_passed_over(state, event) <==> named && state.active_model_round->0.retry
                    == Some(schedule)
                &&& !takes_effect(state, event) ==> next == state
                &&& takes_effect(state, event) ==> only_round_differs(state, next)
                    && next.active_model_round == Some(
                    ActiveModelRoundView {
                        retry: Some(schedule),
                        attempt: None,
                        ..state.active_model_round->0
                    },
                )
            },
            _ => true,
        },
{
    reveal(retry_step);
}

/// The model fails for good, as it came, on the last message of the history, which is one of a
/// user; of that message once. The same failure again is passed over. Nothing else changes.
pub proof fn final_failure_takes_effect(state: SessionStateView, event: SessionEventView)
    ensures
        match event {
            SessionEventView::ModelAttemptFailed { failure } => {
                let next = after(state, event);
                let history = state.transcript;
                let due = history.len() > 0 && history[history.len() - 1].role
                    == TranscriptRole::User && history[history.len() - 1].message_id
                    == failure.trigger_message_id;
                &&& is_passed_over(state, event) <==> due && state.last_model_attempt_failure
                    == Some(failure)
                &&& takes_effect(state, event) <==> due && (
                state.last_model_attempt_failure matches Some(known) ==> known.trigger_message_id
                    != failure.trigger_message_id)
                &&& !takes_effect(state, event) ==> next == state
                &&& takes_effect(state, event) ==> {
                    &&& next.last_model_attempt_failure == Some(failure)
                    &&& next == (SessionStateView {
                        last_model_attempt_failure: next.last_model_attempt_failure,
                        ..state
                    })
                }
            },
            _ => true,
        },
{
    reveal(model_failed_step);
}

/// A handoff is planned, as it came, in the activation and for its model, on top of the latest
/// handoff and for the generation after it, up to a message of the history; and only one at a time.
/// A plan that failed before is forgotten. Nothing else changes.
pub proof fn plan_takes_effect(state: SessionStateView, event: SessionEventView)
    ensures
        match event {
            SessionEventView::ContextHandoffPlanned { plan } => {
                let next = after(state, event);
                let fits = {
                    &&& state.active_activation matches Some(activation) && {
                        &&& activation.activation_id == plan.activation_id
                        &&& activation.selection.model matches Some(model) && model_agrees(
                            model,
                            plan.selection,
                        )
                    }
                    &&& plan.previous_handoff_id == match state.latest_context_handoff {
                        Some(latest) => Some(latest.handoff_id),
                        None => None,
                    }
                    &&& plan.next_generation == match state.latest_context_handoff {
                        Some(latest) => if latest.next_generation == u64::MAX {
                            u64::MAX as int
                        } else {
                            latest.next_generation + 1
                        },
                        None => 2,
                    }
                    &&& exists|i: int|
                        0 <= i < state.transcript.len() && (
                        #[trigger] state.transcript[i]).message_id
                            == plan.covered_through_message_id
                };
                &&& takes_effect(state, event) <==> fits && state.pending_context_handoff is None
                &&& is_passed_over(state, event) <==> fits && (
                state.pending_context_handoff matches Some(known) && plan_agrees(known, plan))
                &&& !takes_effect(state, event) ==> next == state
                &&& takes_effect(state, event) ==> {
                    &&& next.pending_context_handoff == Some(plan)
                    &&& next.last_context_handoff_failure is None
                    &&& next == (SessionStateView {
                        pending_context_handoff: next.pending_context_handoff,
                        last_context_handoff_failure: next.last_context_handoff_failure,
                        ..state
                    })
                }
            },
            _ => true,
        },
{
    reveal(plan_step);
}

/// The document of the pending plan becomes the latest handoff, as it came, if it says what the
/// plan said. The plan is done with, and so are the usage and the failure before it. Nothing else
/// changes.
pub proof fn document_takes_effect(state: SessionStateView, event: SessionEventView)
    ensures
        match event {
            SessionEventView::ContextHandoffCreated { handoff } => {
                let next = after(state, event);
                let planned = state.pending_context_handoff matches Some(plan) && {
                    &&& handoff.plan_id == plan.plan_id
                    &&& handoff.previous_handoff_id == plan.previous_handoff_id
                    &&& handoff.next_generation == plan.next_generation
                    &&& handoff.covered_through_message_id == plan.covered_through_message_id
                    &&& handoff.source_digest == plan.source_digest
                    &&& handoff.source_tokens == plan.source_tokens
                    &&& handoff.token_accounting_version == plan.token_accounting_version
                    &&& model_agrees(handoff.selection, plan.selection)
                };
                let known = state.latest_context_handoff matches Some(latest) && document_agrees(
                    latest,
                    handoff,
                );
                let follows = state.latest_context_handoff matches Some(latest)
                    ==> handoff.previous_handoff_id == Some(latest.handoff_id);
                &&& takes_effect(state, event) <==> planned && (known || follows)
                &&& !takes_effect(state, event) ==> is_refused(state, event) && next == state
                &&& takes_effect(state, event) ==> next.pending_context_handoff is None
                &&& takes_effect(state, event) && !known ==> {
                    &&& next.latest_context_handoff == Some(handoff)
                    &&& next.latest_model_usage is None
                    &&& next.last_context_handoff_failure is None
                }
                &&& takes_effect(state, event) && known ==> {
                    &&& next.latest_context_handoff == state.latest_context_handoff
                    &&& next.latest_model_usage == state.latest_model_usage
                    &&& next.last_context_handoff_failure == state.last_context_handoff_failure
                }
                &&& next == (SessionStateView {
                    latest_context_handoff: next.latest_context_handoff,
                    latest_model_usage: next.latest_model_usage,
                    pending_context_handoff: next.pending_context_handoff,
                    last_context_handoff_failure: next.last_context_handoff_failure,
                    ..state
                })
            },
            _ => true,
        },
{
    reveal(document_step);
}

/// The pending plan fails by its own id only, with the error that came. The plan is done with, and
/// nothing else changes.
pub proof fn failed_handoff_takes_effect(state: SessionStateView, event: SessionEventView)
    ensures
        match event {
            SessionEventView::ContextHandoffFailed { plan_id, error, .. } => {
                let next = after(state, event);
                &&& takes_effect(state, event)
                    <==> (state.pending_context_handoff matches Some(plan)
                    && plan.plan_id == plan_id)
                &&& !takes_effect(state, event) ==> is_refused(state, event) && next == state
                &&& takes_effect(state, event) ==> {
                    &&& next.pending_context_handoff is None
                    &&& next.last_context_handoff_failure == Some(error)
                    &&& next == (SessionStateView {
                        pending_context_handoff: next.pending_context_handoff,
                        last_context_handoff_failure: next.last_context_handoff_failure,
                        ..state
                    })
                }
            },
            _ => true,
        },
{
    reveal(handoff_failed_step);
}

} // verus!
