//! Activations, model rounds, requests and attempts.

use super::step::{changed, kept, outcome, refused, Step};
use crate::datum::{Datum, Same};
use crate::domain::error::{invalid, invalid_state, DomainError, DomainErrorView};
use crate::domain::model::{
    ActiveActivation, ActiveActivationView, ActiveModelRound, ActiveModelRoundView,
    ModelAttemptFailure, ModelAttemptFailureView, ModelAttemptOutcome, ModelAttemptRecord,
    ModelAttemptRecordView, ModelAttemptsExhaustedFact, ModelAttemptsExhaustedFactView,
    ModelRequestFact, ModelRequestFactView, ModelRequestPurpose, ModelRetrySchedule,
    ModelRetryScheduleView, ModelUsageAnchor, ModelUsageAnchorView,
};
use crate::domain::selection::{SessionSelection, SessionSelectionView};
use crate::domain::state::{is_completed, round_completed, SessionState, SessionStateView};
use crate::domain::transcript::TranscriptRole;
use crate::text::same_text;
use vstd::prelude::*;

verus! {

/// A session is claimed for an activation. There must be none, and the activation must know the
/// current selection.
#[verifier::opaque]
pub open spec fn activation_started_step(
    state: SessionStateView,
    activation_id: Seq<char>,
    selection: SessionSelectionView,
    selection_version: u64,
    minimum_auth_revision: u64,
    started_at_ms: i64,
) -> Step {
    if state.active_activation is Some {
        refused(invalid("session already has an active activation"@))
    } else if selection_version != state.selection_version {
        refused(invalid("activation selection version does not match session selection"@))
    } else {
        changed(
            SessionStateView {
                active_activation: Some(
                    ActiveActivationView {
                        activation_id,
                        selection,
                        selection_version,
                        minimum_auth_revision,
                        started_at_ms,
                        legacy_rounds_started: 0,
                    },
                ),
                active_model_round: None,
                ..state
            },
        )
    }
}

/// One more round, as far as the count goes.
pub open spec fn next_round_count(rounds: u32) -> u32 {
    if rounds < u32::MAX {
        (rounds + 1) as u32
    } else {
        u32::MAX
    }
}

/// A round begins in the activation. The round before it must be completed.
#[verifier::opaque]
pub open spec fn round_started_step(
    state: SessionStateView,
    activation_id: Seq<char>,
    round_id: Seq<char>,
    purpose: ModelRequestPurpose,
    delivery_through_queue_id: u64,
    started_at_ms: i64,
) -> Step {
    match state.active_activation {
        None => refused(invalid("model round has no activation"@)),
        Some(activation) => if activation.activation_id != activation_id {
            refused(invalid("model round belongs to another activation"@))
        } else if state.active_model_round matches Some(existing) && !round_completed(existing) {
            refused(invalid("session already has an active model round"@))
        } else {
            changed(
                SessionStateView {
                    active_activation: Some(
                        ActiveActivationView {
                            legacy_rounds_started: next_round_count(
                                activation.legacy_rounds_started,
                            ),
                            ..activation
                        },
                    ),
                    active_model_round: Some(
                        ActiveModelRoundView {
                            activation_id,
                            round_id,
                            purpose,
                            delivery_through_queue_id,
                            started_at_ms,
                            request: None,
                            attempt: None,
                            retry: None,
                        },
                    ),
                    ..state
                },
            )
        },
    }
}

/// A request is declared in its round, once, for a credential that is recent enough.
#[verifier::opaque]
pub open spec fn request_declared_step(
    state: SessionStateView,
    request: ModelRequestFactView,
) -> Step {
    match state.active_model_round {
        None => refused(invalid("model request has no active round"@)),
        Some(round) => if round.activation_id != request.activation_id || round.round_id
            != request.round_id {
            refused(invalid("model request belongs to another round"@))
        } else if round.request is Some {
            refused(invalid("model request was prepared more than once"@))
        } else if !(state.active_activation matches Some(activation)
            && activation.minimum_auth_revision <= request.minimum_auth_revision) {
            refused(
                invalid("model request minimum auth revision is below activation requirement"@),
            )
        } else {
            changed(
                SessionStateView {
                    active_model_round: Some(
                        ActiveModelRoundView { request: Some(request), ..round },
                    ),
                    ..state
                },
            )
        },
    }
}

/// An attempt at the declared request begins: the first one, or the one that is scheduled. The
/// attempt that runs already changes nothing.
#[verifier::opaque]
pub open spec fn attempt_started_step(
    state: SessionStateView,
    attempt: ModelAttemptRecordView,
) -> Step {
    match state.active_model_round {
        None => refused(invalid("model attempt has no active round"@)),
        Some(round) => match round.request {
            None => refused(invalid("model attempt has no declared request"@)),
            Some(request) => if request.activation_id != attempt.activation_id || request.round_id
                != attempt.round_id || request.request_id != attempt.request_id {
                refused(invalid("model attempt belongs to another request"@))
            } else if attempt.attempt_number > request.maximum_attempts {
                refused(invalid("model attempt exceeds declared request budget"@))
            } else if let Some(existing) = round.attempt {
                if existing.attempt_id == attempt.attempt_id && existing.attempt_number
                    == attempt.attempt_number {
                    kept(state)
                } else {
                    refused(invalid("model request already has an attempt"@))
                }
            } else if round.retry matches Some(schedule) && (schedule.next_attempt_id
                != attempt.attempt_id || schedule.next_attempt_number != attempt.attempt_number) {
                refused(invalid("model attempt does not claim the scheduled retry"@))
            } else if round.retry is None && attempt.attempt_number != 1 {
                refused(invalid("first model attempt must have number one"@))
            } else {
                changed(
                    SessionStateView {
                        active_model_round: Some(
                            ActiveModelRoundView {
                                attempt: Some(attempt),
                                retry: None,
                                ..round
                            },
                        ),
                        ..state
                    },
                )
            },
        },
    }
}

/// The current attempt, if it is the one that the ids name.
pub open spec fn current_attempt(
    state: SessionStateView,
    activation_id: Seq<char>,
    round_id: Seq<char>,
    request_id: Seq<char>,
    attempt_id: Seq<char>,
    attempt_number: u32,
) -> Result<ModelAttemptRecordView, DomainErrorView> {
    match state.active_model_round {
        None => Err(invalid("model attempt has no active round"@)),
        Some(round) => match round.request {
            None => Err(invalid("model attempt has no declared request"@)),
            Some(request) => if request.activation_id != activation_id || request.round_id
                != round_id || request.request_id != request_id || round.activation_id
                != activation_id || round.round_id != round_id {
                Err(invalid("model attempt belongs to another request"@))
            } else {
                match round.attempt {
                    None => Err(invalid("model attempt has no started attempt"@)),
                    Some(attempt) => if attempt.attempt_id != attempt_id || attempt.attempt_number
                        != attempt_number {
                        Err(invalid("model attempt identity does not match"@))
                    } else {
                        Ok(attempt)
                    },
                }
            },
        },
    }
}

/// The state in which the current attempt has the given outcome.
pub open spec fn with_outcome(
    state: SessionStateView,
    result: ModelAttemptOutcome,
) -> SessionStateView {
    let round = state.active_model_round->0;
    SessionStateView {
        active_model_round: Some(
            ActiveModelRoundView {
                attempt: Some(ModelAttemptRecordView { outcome: result, ..round.attempt->0 }),
                ..round
            },
        ),
        ..state
    }
}

/// The current attempt ends without a result. The first outcome counts: the same one changes
/// nothing, another is refused.
#[verifier::opaque]
pub open spec fn attempt_ended_step(
    state: SessionStateView,
    current: Result<ModelAttemptRecordView, DomainErrorView>,
    result: ModelAttemptOutcome,
    conflict: Seq<char>,
) -> Step {
    match current {
        Err(fault) => refused(fault),
        Ok(attempt) => if attempt.outcome == ModelAttemptOutcome::Running {
            changed(with_outcome(state, result))
        } else if attempt.outcome == result {
            kept(state)
        } else {
            refused(invalid(conflict))
        },
    }
}

/// Whether an attempt has ended without a result.
pub open spec fn failed_or_interrupted(attempt: ModelAttemptRecordView) -> bool {
    attempt.outcome == ModelAttemptOutcome::Failed || attempt.outcome
        == ModelAttemptOutcome::Interrupted
}

/// A request whose attempt failed is given up, and with it the round.
#[verifier::opaque]
pub open spec fn abandoned_step(
    state: SessionStateView,
    activation_id: Seq<char>,
    round_id: Seq<char>,
    request_id: Seq<char>,
    attempt_id: Seq<char>,
) -> Step {
    match state.active_model_round {
        None => refused(invalid("abandonment has no active model round"@)),
        Some(round) => match (round.request, round.attempt) {
            (None, _) => refused(invalid("abandonment has no declared request"@)),
            (_, None) => refused(invalid("abandonment has no model attempt"@)),
            (Some(request), Some(attempt)) => if round.activation_id != activation_id
                || round.round_id != round_id || request.request_id != request_id
                || attempt.attempt_id != attempt_id {
                refused(invalid("abandonment belongs to another model request"@))
            } else if !failed_or_interrupted(attempt) {
                refused(invalid("only a failed or interrupted model request can be abandoned"@))
            } else {
                changed(SessionStateView { active_model_round: None, ..state })
            },
        },
    }
}

/// The attempts of a request are used up. The same fact again changes nothing; of one activation
/// there is only one such fact.
#[verifier::opaque]
pub open spec fn exhausted_step(
    state: SessionStateView,
    fact: ModelAttemptsExhaustedFactView,
) -> Step {
    if state.last_model_attempts_exhausted == Some(fact) {
        kept(state)
    } else if state.last_model_attempts_exhausted matches Some(existing) && existing.activation_id
        == fact.activation_id {
        refused(invalid("model exhaustion has conflicting semantics"@))
    } else {
        match state.active_model_round {
            None => refused(invalid("model exhaustion has no active round"@)),
            Some(round) => match (round.request, round.attempt) {
                (None, _) => refused(invalid("model exhaustion has no declared request"@)),
                (_, None) => refused(invalid("model exhaustion has no active attempt"@)),
                (Some(request), Some(attempt)) => if round.activation_id != fact.activation_id
                    || round.round_id != fact.round_id || request.request_id != fact.request_id
                    || attempt.attempt_id != fact.attempt_id || attempt.attempt_number
                    != fact.attempt_number || request.maximum_attempts != fact.maximum_attempts {
                    refused(invalid("model exhaustion belongs to another attempt"@))
                } else if !failed_or_interrupted(attempt) {
                    refused(invalid("model exhaustion requires a failed or interrupted attempt"@))
                } else {
                    changed(
                        SessionStateView { last_model_attempts_exhausted: Some(fact), ..state },
                    )
                },
            },
        }
    }
}

/// A failed attempt is to be tried again. The schedule takes the place of the attempt.
#[verifier::opaque]
pub open spec fn retry_step(state: SessionStateView, schedule: ModelRetryScheduleView) -> Step {
    match state.active_model_round {
        None => refused(invalid("retry has no active model round"@)),
        Some(round) => match round.attempt {
            None => refused(invalid("retry has no model attempt"@)),
            Some(attempt) => if attempt.activation_id != schedule.activation_id || attempt.round_id
                != schedule.round_id || attempt.request_id != schedule.request_id
                || attempt.attempt_id != schedule.failed_attempt_id || attempt.attempt_number
                != schedule.failed_attempt_number {
                refused(invalid("retry schedule does not match failed attempt"@))
            } else if !failed_or_interrupted(attempt) {
                refused(invalid("retry schedule requires a failed or interrupted attempt"@))
            } else if let Some(existing) = round.retry {
                if existing == schedule {
                    kept(state)
                } else {
                    refused(invalid("model retry schedule has conflicting semantics"@))
                }
            } else {
                changed(
                    SessionStateView {
                        active_model_round: Some(
                            ActiveModelRoundView {
                                retry: Some(schedule),
                                attempt: None,
                                ..round
                            },
                        ),
                        ..state
                    },
                )
            },
        },
    }
}

/// The current attempt completes its request. In a conversation its usage is kept.
#[verifier::opaque]
pub open spec fn completed_step(
    state: SessionStateView,
    activation_id: Seq<char>,
    round_id: Seq<char>,
    request_id: Seq<char>,
    attempt_id: Seq<char>,
    usage: Option<ModelUsageAnchorView>,
) -> Step {
    match state.active_model_round {
        None => refused(invalid("model completion has no active round"@)),
        Some(round) => match round.attempt {
            None => refused(invalid("model completion has no attempt"@)),
            Some(attempt) => if attempt.activation_id != activation_id || attempt.round_id
                != round_id || attempt.request_id != request_id || attempt.attempt_id
                != attempt_id {
                refused(invalid("model completion belongs to another attempt"@))
            } else if attempt.outcome == ModelAttemptOutcome::Running {
                changed(
                    SessionStateView {
                        latest_model_usage: if round.purpose == ModelRequestPurpose::Conversation
                            && usage is Some {
                            usage
                        } else {
                            state.latest_model_usage
                        },
                        ..with_outcome(state, ModelAttemptOutcome::Completed)
                    },
                )
            } else if attempt.outcome == ModelAttemptOutcome::Completed {
                kept(state)
            } else {
                refused(invalid("model completion requires a running attempt"@))
            },
        },
    }
}

/// The activation ends, and with it its round.
#[verifier::opaque]
pub open spec fn activation_finished_step(
    state: SessionStateView,
    activation_id: Seq<char>,
) -> Step {
    match state.active_activation {
        None => refused(invalid("activation finish has no active activation"@)),
        Some(active) => if active.activation_id != activation_id {
            refused(invalid("activation finish belongs to another activation"@))
        } else {
            changed(
                SessionStateView { active_activation: None, active_model_round: None, ..state },
            )
        },
    }
}

/// The model fails for good on the last message, which must be a user's. Of one message there is
/// only one such failure.
#[verifier::opaque]
pub open spec fn model_failed_step(
    state: SessionStateView,
    failure: ModelAttemptFailureView,
) -> Step {
    if !(state.transcript.len() > 0 && state.transcript.last().role == TranscriptRole::User
        && state.transcript.last().message_id == failure.trigger_message_id) {
        refused(invalid("model attempt failure does not match the current user message"@))
    } else if state.last_model_attempt_failure == Some(failure) {
        kept(state)
    } else if state.last_model_attempt_failure matches Some(existing)
        && existing.trigger_message_id == failure.trigger_message_id {
        refused(invalid("current user message has conflicting terminal model failures"@))
    } else {
        changed(SessionStateView { last_model_attempt_failure: Some(failure), ..state })
    }
}

fn ended_without_result(attempt: &ModelAttemptRecord) -> (ended: bool)
    ensures
        ended == failed_or_interrupted(attempt.deep_view()),
{
    matches!(attempt.outcome, ModelAttemptOutcome::Failed | ModelAttemptOutcome::Interrupted)
}

impl SessionState {
    pub(crate) fn start_activation(
        &mut self,
        activation_id: &String,
        selection: &SessionSelection,
        selection_version: u64,
        minimum_auth_revision: u64,
        started_at_ms: i64,
    ) -> (result: Result<bool, DomainError>)
        ensures
            outcome(result, *final(self)) == activation_started_step(
                old(self).deep_view(),
                activation_id@,
                selection.deep_view(),
                selection_version,
                minimum_auth_revision,
                started_at_ms,
            ),
            result is Err ==> final(self).deep_view() == old(self).deep_view(),
    {
        proof {
            reveal(activation_started_step);
        }
        if self.active_activation.is_some() {
            return Err(invalid_state("session already has an active activation"));
        }
        if selection_version != self.selection_version {
            return Err(
                invalid_state("activation selection version does not match session selection"),
            );
        }
        self.active_activation = Some(
            ActiveActivation {
                activation_id: activation_id.clone(),
                selection: selection.replica(),
                selection_version,
                minimum_auth_revision,
                started_at_ms,
                legacy_rounds_started: 0,
            },
        );
        self.active_model_round = None;
        Ok(true)
    }

    pub(crate) fn start_round(
        &mut self,
        activation_id: &String,
        round_id: &String,
        purpose: ModelRequestPurpose,
        delivery_through_queue_id: u64,
        started_at_ms: i64,
    ) -> (result: Result<bool, DomainError>)
        ensures
            outcome(result, *final(self)) == round_started_step(
                old(self).deep_view(),
                activation_id@,
                round_id@,
                purpose,
                delivery_through_queue_id,
                started_at_ms,
            ),
            result is Err ==> final(self).deep_view() == old(self).deep_view(),
    {
        proof {
            reveal(round_started_step);
        }
        match &mut self.active_activation {
            None => {
                return Err(invalid_state("model round has no activation"));
            },
            Some(activation) => {
                if !same_text(&activation.activation_id, activation_id) {
                    return Err(invalid_state("model round belongs to another activation"));
                }
                if let Some(existing) = &self.active_model_round {
                    if !is_completed(existing) {
                        return Err(invalid_state("session already has an active model round"));
                    }
                }
                activation.legacy_rounds_started =
                    activation.legacy_rounds_started.saturating_add(1);
            },
        }
        self.active_model_round = Some(
            ActiveModelRound {
                activation_id: activation_id.clone(),
                round_id: round_id.clone(),
                purpose,
                delivery_through_queue_id,
                started_at_ms,
                request: None,
                attempt: None,
                retry: None,
            },
        );
        Ok(true)
    }

    pub(crate) fn declare_request(&mut self, request: ModelRequestFact) -> (result: Result<
        bool,
        DomainError,
    >)
        ensures
            outcome(result, *final(self)) == request_declared_step(
                old(self).deep_view(),
                request.deep_view(),
            ),
            result is Err ==> final(self).deep_view() == old(self).deep_view(),
    {
        proof {
            reveal(request_declared_step);
        }
        match &mut self.active_model_round {
            None => Err(invalid_state("model request has no active round")),
            Some(round) => {
                if !same_text(&round.activation_id, &request.activation_id) || !same_text(
                    &round.round_id,
                    &request.round_id,
                ) {
                    return Err(invalid_state("model request belongs to another round"));
                }
                if round.request.is_some() {
                    return Err(invalid_state("model request was prepared more than once"));
                }
                let recent_enough = match &self.active_activation {
                    Some(activation) => activation.minimum_auth_revision
                        <= request.minimum_auth_revision,
                    None => false,
                };
                if !recent_enough {
                    return Err(
                        invalid_state(
                            "model request minimum auth revision is below activation requirement",
                        ),
                    );
                }
                round.request = Some(request);
                Ok(true)
            },
        }
    }

    pub(crate) fn start_attempt(&mut self, attempt: ModelAttemptRecord) -> (result: Result<
        bool,
        DomainError,
    >)
        ensures
            outcome(result, *final(self)) == attempt_started_step(
                old(self).deep_view(),
                attempt.deep_view(),
            ),
            result is Err ==> final(self).deep_view() == old(self).deep_view(),
    {
        proof {
            reveal(attempt_started_step);
        }
        match &mut self.active_model_round {
            None => Err(invalid_state("model attempt has no active round")),
            Some(round) => {
                match &round.request {
                    None => {
                        return Err(invalid_state("model attempt has no declared request"));
                    },
                    Some(request) => {
                        if !same_text(&request.activation_id, &attempt.activation_id) || !same_text(
                            &request.round_id,
                            &attempt.round_id,
                        ) || !same_text(&request.request_id, &attempt.request_id) {
                            return Err(invalid_state("model attempt belongs to another request"));
                        }
                        if attempt.attempt_number > request.maximum_attempts {
                            return Err(
                                invalid_state("model attempt exceeds declared request budget"),
                            );
                        }
                    },
                }
                if let Some(existing) = &round.attempt {
                    if same_text(&existing.attempt_id, &attempt.attempt_id)
                        && existing.attempt_number == attempt.attempt_number {
                        return Ok(false);
                    }
                    return Err(invalid_state("model request already has an attempt"));
                }
                match &round.retry {
                    Some(schedule) => {
                        if !same_text(&schedule.next_attempt_id, &attempt.attempt_id)
                            || schedule.next_attempt_number != attempt.attempt_number {
                            return Err(
                                invalid_state("model attempt does not claim the scheduled retry"),
                            );
                        }
                    },
                    None => {
                        if attempt.attempt_number != 1 {
                            return Err(invalid_state("first model attempt must have number one"));
                        }
                    },
                }
                round.attempt = Some(attempt);
                round.retry = None;
                Ok(true)
            },
        }
    }

    fn current_model_attempt(
        &self,
        activation_id: &String,
        round_id: &String,
        request_id: &String,
        attempt_id: &String,
        attempt_number: u32,
    ) -> (result: Result<&ModelAttemptRecord, DomainError>)
        ensures
            match result {
                Ok(attempt) => current_attempt(
                    self.deep_view(),
                    activation_id@,
                    round_id@,
                    request_id@,
                    attempt_id@,
                    attempt_number,
                ) == Ok::<ModelAttemptRecordView, DomainErrorView>(attempt.deep_view()),
                Err(error) => current_attempt(
                    self.deep_view(),
                    activation_id@,
                    round_id@,
                    request_id@,
                    attempt_id@,
                    attempt_number,
                ) == Err::<ModelAttemptRecordView, DomainErrorView>(error.deep_view()),
            },
    {
        match &self.active_model_round {
            None => Err(invalid_state("model attempt has no active round")),
            Some(round) => match &round.request {
                None => Err(invalid_state("model attempt has no declared request")),
                Some(request) => {
                    if !same_text(&request.activation_id, activation_id) || !same_text(
                        &request.round_id,
                        round_id,
                    ) || !same_text(&request.request_id, request_id) || !same_text(
                        &round.activation_id,
                        activation_id,
                    ) || !same_text(&round.round_id, round_id) {
                        return Err(invalid_state("model attempt belongs to another request"));
                    }
                    match &round.attempt {
                        None => Err(invalid_state("model attempt has no started attempt")),
                        Some(attempt) => {
                            if !same_text(&attempt.attempt_id, attempt_id)
                                || attempt.attempt_number != attempt_number {
                                return Err(
                                    invalid_state("model attempt identity does not match"),
                                );
                            }
                            Ok(attempt)
                        },
                    }
                },
            },
        }
    }

    fn set_attempt_outcome(&mut self, result: ModelAttemptOutcome)
        requires
            old(self).deep_view().active_model_round matches Some(round) && round.attempt is Some,
        ensures
            final(self).deep_view() == with_outcome(old(self).deep_view(), result),
    {
        if let Some(round) = &mut self.active_model_round {
            if let Some(attempt) = &mut round.attempt {
                attempt.outcome = result;
            }
        }
    }

    pub(crate) fn end_attempt(
        &mut self,
        activation_id: &String,
        round_id: &String,
        request_id: &String,
        attempt_id: &String,
        attempt_number: u32,
        ended: ModelAttemptOutcome,
        conflict: &str,
    ) -> (result: Result<bool, DomainError>)
        ensures
            outcome(result, *final(self)) == attempt_ended_step(
                old(self).deep_view(),
                current_attempt(
                    old(self).deep_view(),
                    activation_id@,
                    round_id@,
                    request_id@,
                    attempt_id@,
                    attempt_number,
                ),
                ended,
                conflict@,
            ),
            result is Err ==> final(self).deep_view() == old(self).deep_view(),
    {
        proof {
            reveal(attempt_ended_step);
        }
        let current: ModelAttemptOutcome = self.current_model_attempt(
            activation_id,
            round_id,
            request_id,
            attempt_id,
            attempt_number,
        )?.outcome;
        if current == ModelAttemptOutcome::Running {
            self.set_attempt_outcome(ended);
            return Ok(true);
        }
        if current == ended {
            return Ok(false);
        }
        Err(invalid_state(conflict))
    }

    pub(crate) fn abandon_request(
        &mut self,
        activation_id: &String,
        round_id: &String,
        request_id: &String,
        attempt_id: &String,
    ) -> (result: Result<bool, DomainError>)
        ensures
            outcome(result, *final(self)) == abandoned_step(
                old(self).deep_view(),
                activation_id@,
                round_id@,
                request_id@,
                attempt_id@,
            ),
            result is Err ==> final(self).deep_view() == old(self).deep_view(),
    {
        proof {
            reveal(abandoned_step);
        }
        match &self.active_model_round {
            None => {
                return Err(invalid_state("abandonment has no active model round"));
            },
            Some(round) => match (&round.request, &round.attempt) {
                (None, _) => {
                    return Err(invalid_state("abandonment has no declared request"));
                },
                (_, None) => {
                    return Err(invalid_state("abandonment has no model attempt"));
                },
                (Some(request), Some(attempt)) => {
                    if !same_text(&round.activation_id, activation_id) || !same_text(
                        &round.round_id,
                        round_id,
                    ) || !same_text(&request.request_id, request_id) || !same_text(
                        &attempt.attempt_id,
                        attempt_id,
                    ) {
                        return Err(invalid_state("abandonment belongs to another model request"));
                    }
                    if !ended_without_result(attempt) {
                        return Err(
                            invalid_state(
                                "only a failed or interrupted model request can be abandoned",
                            ),
                        );
                    }
                },
            },
        }
        self.active_model_round = None;
        Ok(true)
    }

    pub(crate) fn exhaust_attempts(&mut self, fact: &ModelAttemptsExhaustedFact) -> (result: Result<
        bool,
        DomainError,
    >)
        ensures
            outcome(result, *final(self)) == exhausted_step(
                old(self).deep_view(),
                fact.deep_view(),
            ),
            result is Err ==> final(self).deep_view() == old(self).deep_view(),
    {
        proof {
            reveal(exhausted_step);
        }
        if let Some(existing) = &self.last_model_attempts_exhausted {
            if existing.same(fact) {
                return Ok(false);
            }
            if same_text(&existing.activation_id, &fact.activation_id) {
                return Err(invalid_state("model exhaustion has conflicting semantics"));
            }
        }
        match &self.active_model_round {
            None => {
                return Err(invalid_state("model exhaustion has no active round"));
            },
            Some(round) => match (&round.request, &round.attempt) {
                (None, _) => {
                    return Err(invalid_state("model exhaustion has no declared request"));
                },
                (_, None) => {
                    return Err(invalid_state("model exhaustion has no active attempt"));
                },
                (Some(request), Some(attempt)) => {
                    if !same_text(&round.activation_id, &fact.activation_id) || !same_text(
                        &round.round_id,
                        &fact.round_id,
                    ) || !same_text(&request.request_id, &fact.request_id) || !same_text(
                        &attempt.attempt_id,
                        &fact.attempt_id,
                    ) || attempt.attempt_number != fact.attempt_number || request.maximum_attempts
                        != fact.maximum_attempts {
                        return Err(invalid_state("model exhaustion belongs to another attempt"));
                    }
                    if !ended_without_result(attempt) {
                        return Err(
                            invalid_state(
                                "model exhaustion requires a failed or interrupted attempt",
                            ),
                        );
                    }
                },
            },
        }
        self.last_model_attempts_exhausted = Some(fact.replica());
        Ok(true)
    }

    pub(crate) fn schedule_retry(&mut self, schedule: &ModelRetrySchedule) -> (result: Result<
        bool,
        DomainError,
    >)
        ensures
            outcome(result, *final(self)) == retry_step(
                old(self).deep_view(),
                schedule.deep_view(),
            ),
            result is Err ==> final(self).deep_view() == old(self).deep_view(),
    {
        proof {
            reveal(retry_step);
        }
        match &mut self.active_model_round {
            None => Err(invalid_state("retry has no active model round")),
            Some(round) => {
                match &round.attempt {
                    None => {
                        return Err(invalid_state("retry has no model attempt"));
                    },
                    Some(attempt) => {
                        if !same_text(&attempt.activation_id, &schedule.activation_id)
                            || !same_text(&attempt.round_id, &schedule.round_id) || !same_text(
                            &attempt.request_id,
                            &schedule.request_id,
                        ) || !same_text(&attempt.attempt_id, &schedule.failed_attempt_id)
                            || attempt.attempt_number != schedule.failed_attempt_number {
                            return Err(
                                invalid_state("retry schedule does not match failed attempt"),
                            );
                        }
                        if !ended_without_result(attempt) {
                            return Err(
                                invalid_state(
                                    "retry schedule requires a failed or interrupted attempt",
                                ),
                            );
                        }
                    },
                }
                if let Some(existing) = &round.retry {
                    if existing.same(schedule) {
                        return Ok(false);
                    }
                    return Err(invalid_state("model retry schedule has conflicting semantics"));
                }
                round.retry = Some(schedule.replica());
                round.attempt = None;
                Ok(true)
            },
        }
    }

    pub(crate) fn complete_request(
        &mut self,
        activation_id: &String,
        round_id: &String,
        request_id: &String,
        attempt_id: &String,
        usage: &Option<ModelUsageAnchor>,
    ) -> (result: Result<bool, DomainError>)
        ensures
            outcome(result, *final(self)) == completed_step(
                old(self).deep_view(),
                activation_id@,
                round_id@,
                request_id@,
                attempt_id@,
                usage.deep_view(),
            ),
            result is Err ==> final(self).deep_view() == old(self).deep_view(),
    {
        proof {
            reveal(completed_step);
        }
        let conversation = match &self.active_model_round {
            None => {
                return Err(invalid_state("model completion has no active round"));
            },
            Some(round) => {
                match &round.attempt {
                    None => {
                        return Err(invalid_state("model completion has no attempt"));
                    },
                    Some(attempt) => {
                        if !same_text(&attempt.activation_id, activation_id) || !same_text(
                            &attempt.round_id,
                            round_id,
                        ) || !same_text(&attempt.request_id, request_id) || !same_text(
                            &attempt.attempt_id,
                            attempt_id,
                        ) {
                            return Err(
                                invalid_state("model completion belongs to another attempt"),
                            );
                        }
                        match attempt.outcome {
                            ModelAttemptOutcome::Running => {},
                            ModelAttemptOutcome::Completed => {
                                return Ok(false);
                            },
                            _ => {
                                return Err(
                                    invalid_state("model completion requires a running attempt"),
                                );
                            },
                        }
                    },
                }
                round.purpose.is_conversation()
            },
        };
        self.set_attempt_outcome(ModelAttemptOutcome::Completed);
        if conversation && usage.is_some() {
            self.latest_model_usage = usage.replica();
        }
        Ok(true)
    }

    pub(crate) fn finish_activation(&mut self, activation_id: &String) -> (result: Result<
        bool,
        DomainError,
    >)
        ensures
            outcome(result, *final(self)) == activation_finished_step(
                old(self).deep_view(),
                activation_id@,
            ),
            result is Err ==> final(self).deep_view() == old(self).deep_view(),
    {
        proof {
            reveal(activation_finished_step);
        }
        match &self.active_activation {
            None => {
                return Err(invalid_state("activation finish has no active activation"));
            },
            Some(active) => {
                if !same_text(&active.activation_id, activation_id) {
                    return Err(invalid_state("activation finish belongs to another activation"));
                }
            },
        }
        self.active_activation = None;
        self.active_model_round = None;
        Ok(true)
    }

    pub(crate) fn fail_model(&mut self, failure: &ModelAttemptFailure) -> (result: Result<
        bool,
        DomainError,
    >)
        ensures
            outcome(result, *final(self)) == model_failed_step(
                old(self).deep_view(),
                failure.deep_view(),
            ),
            result is Err ==> final(self).deep_view() == old(self).deep_view(),
    {
        proof {
            reveal(model_failed_step);
        }
        let current = if self.transcript.len() > 0 {
            let message = &self.transcript[self.transcript.len() - 1];
            message.role == TranscriptRole::User && same_text(
                &message.message_id,
                &failure.trigger_message_id,
            )
        } else {
            false
        };
        if !current {
            return Err(
                invalid_state("model attempt failure does not match the current user message"),
            );
        }
        if let Some(existing) = &self.last_model_attempt_failure {
            if same_text(&existing.trigger_message_id, &failure.trigger_message_id) {
                if existing.same(failure) {
                    return Ok(false);
                }
                return Err(
                    invalid_state("current user message has conflicting terminal model failures"),
                );
            }
        }
        self.last_model_attempt_failure = Some(failure.replica());
        Ok(true)
    }
}

} // verus!
