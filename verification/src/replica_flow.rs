//! How a change of a credential replica is carried out, step by step.
//!
//! A [`ReplicaFlow`] decides; whoever runs it does what its [`ReplicaAction`] says and hands back
//! what came of it. The record is written before the receipt, so a change that breaks off between
//! them is confirmed when it is asked for again.

use crate::datum::Datum;
use crate::replicas::{
    answer_from_receipt, decide_mutation, fingerprint_of, mutation_allowed, receipt_step,
    record_step, request_fingerprint, stored_record_is_sound, validate_mutation, ReplicaDecision,
    ReplicaDecisionView, ReplicaError, ReplicaMutation, ReplicaMutationView,
    ReplicaProvisionOutcome, ReplicaProvisionOutcomeView, ReplicaReceipt, ReplicaReceiptView,
    ReplicaRecord, ReplicaRecordView,
};
use vstd::prelude::*;

verus! {

/// What a change waits for.
pub enum ReplicaPhase {
    LoadKey,
    /// With the fingerprint of the request.
    LoadReceipt(String),
    /// With the fingerprint of the request.
    LoadRecord(String),
    WriteRecord { receipt: ReplicaReceipt, outcome: ReplicaProvisionOutcome },
    WriteReceipt(ReplicaProvisionOutcome),
    Ended,
}

/// The content of a [`ReplicaPhase`].
pub enum ReplicaPhaseView {
    LoadKey,
    LoadReceipt(Seq<char>),
    LoadRecord(Seq<char>),
    WriteRecord { receipt: ReplicaReceiptView, outcome: ReplicaProvisionOutcomeView },
    WriteReceipt(ReplicaProvisionOutcomeView),
    Ended,
}

impl DeepView for ReplicaPhase {
    type V = ReplicaPhaseView;

    open spec fn deep_view(&self) -> ReplicaPhaseView {
        match self {
            ReplicaPhase::LoadKey => ReplicaPhaseView::LoadKey,
            ReplicaPhase::LoadReceipt(fingerprint) => ReplicaPhaseView::LoadReceipt(fingerprint@),
            ReplicaPhase::LoadRecord(fingerprint) => ReplicaPhaseView::LoadRecord(fingerprint@),
            ReplicaPhase::WriteRecord { receipt, outcome } => ReplicaPhaseView::WriteRecord {
                receipt: receipt.deep_view(),
                outcome: outcome.deep_view(),
            },
            ReplicaPhase::WriteReceipt(outcome) => ReplicaPhaseView::WriteReceipt(
                outcome.deep_view(),
            ),
            ReplicaPhase::Ended => ReplicaPhaseView::Ended,
        }
    }
}

/// What is to be done next.
#[derive(Clone, Debug, PartialEq)]
pub enum ReplicaAction {
    /// Read the key, and call [`ReplicaFlow::key_loaded`].
    LoadKey,
    /// Read the receipt of the idempotency key, and call [`ReplicaFlow::receipt_loaded`].
    LoadReceipt,
    /// Read the record of the profile, and call [`ReplicaFlow::record_loaded`].
    LoadRecord,
    /// Write the record, and call [`ReplicaFlow::record_written`].
    WriteRecord(ReplicaRecord),
    /// Write the receipt, and call [`ReplicaFlow::receipt_written`].
    WriteReceipt(ReplicaReceipt),
    /// End, with an answer.
    Answer(ReplicaProvisionOutcome),
    /// End, with a failure.
    Fail(ReplicaError),
}

/// The content of a [`ReplicaAction`].
pub enum ReplicaActionView {
    LoadKey,
    LoadReceipt,
    LoadRecord,
    WriteRecord(ReplicaRecordView),
    WriteReceipt(ReplicaReceiptView),
    Answer(ReplicaProvisionOutcomeView),
    Fail(ReplicaError),
}

impl DeepView for ReplicaAction {
    type V = ReplicaActionView;

    open spec fn deep_view(&self) -> ReplicaActionView {
        match self {
            ReplicaAction::LoadKey => ReplicaActionView::LoadKey,
            ReplicaAction::LoadReceipt => ReplicaActionView::LoadReceipt,
            ReplicaAction::LoadRecord => ReplicaActionView::LoadRecord,
            ReplicaAction::WriteRecord(record) => ReplicaActionView::WriteRecord(
                record.deep_view(),
            ),
            ReplicaAction::WriteReceipt(receipt) => ReplicaActionView::WriteReceipt(
                receipt.deep_view(),
            ),
            ReplicaAction::Answer(outcome) => ReplicaActionView::Answer(outcome.deep_view()),
            ReplicaAction::Fail(error) => ReplicaActionView::Fail(*error),
        }
    }
}

/// A change in the course of being carried out.
pub struct ReplicaFlow {
    pub profile_id: String,
    pub authority_id: String,
    pub idempotency_key: String,
    pub mutation: ReplicaMutation,
    pub phase: ReplicaPhase,
}

/// The content of a [`ReplicaFlow`].
pub struct ReplicaFlowView {
    pub profile_id: Seq<char>,
    pub authority_id: Seq<char>,
    pub idempotency_key: Seq<char>,
    pub mutation: ReplicaMutationView,
    pub phase: ReplicaPhaseView,
}

impl DeepView for ReplicaFlow {
    type V = ReplicaFlowView;

    open spec fn deep_view(&self) -> ReplicaFlowView {
        ReplicaFlowView {
            profile_id: self.profile_id@,
            authority_id: self.authority_id@,
            idempotency_key: self.idempotency_key@,
            mutation: self.mutation.deep_view(),
            phase: self.phase.deep_view(),
        }
    }
}

/// A change with its next phase, and what is to be done.
pub open spec fn turned(
    flow: ReplicaFlowView,
    phase: ReplicaPhaseView,
    action: ReplicaActionView,
) -> (ReplicaFlowView, ReplicaActionView) {
    (ReplicaFlowView { phase, ..flow }, action)
}

/// A change that ends.
pub open spec fn ended(
    flow: ReplicaFlowView,
    result: Result<ReplicaProvisionOutcomeView, ReplicaError>,
) -> (ReplicaFlowView, ReplicaActionView) {
    turned(
        flow,
        ReplicaPhaseView::Ended,
        match result {
            Ok(outcome) => ReplicaActionView::Answer(outcome),
            Err(error) => ReplicaActionView::Fail(error),
        },
    )
}

/// What follows on the key under which requests are fingerprinted.
pub open spec fn key_loaded_step(
    flow: ReplicaFlowView,
    key: Result<Seq<u8>, ReplicaError>,
) -> (ReplicaFlowView, ReplicaActionView) {
    match (flow.phase, key) {
        (ReplicaPhaseView::LoadKey, Ok(key)) => match fingerprint_of(
            key,
            flow.profile_id,
            flow.idempotency_key,
            flow.mutation,
        ) {
            Some(fingerprint) => turned(
                flow,
                ReplicaPhaseView::LoadReceipt(fingerprint),
                ReplicaActionView::LoadReceipt,
            ),
            None => ended(flow, Err(ReplicaError::Record)),
        },
        (ReplicaPhaseView::LoadKey, Err(error)) => ended(flow, Err(error)),
        _ => ended(flow, Err(ReplicaError::Unavailable)),
    }
}

/// What follows on the receipt of the idempotency key: a request that was answered is answered the
/// same, and another under its key is refused.
pub open spec fn receipt_loaded_step(
    flow: ReplicaFlowView,
    receipt: Result<Option<ReplicaReceiptView>, ReplicaError>,
) -> (ReplicaFlowView, ReplicaActionView) {
    match (flow.phase, receipt) {
        (ReplicaPhaseView::LoadReceipt(fingerprint), Ok(Some(receipt))) => ended(
            flow,
            receipt_step(receipt, flow.authority_id, flow.profile_id, fingerprint),
        ),
        (ReplicaPhaseView::LoadReceipt(fingerprint), Ok(None)) => turned(
            flow,
            ReplicaPhaseView::LoadRecord(fingerprint),
            ReplicaActionView::LoadRecord,
        ),
        (ReplicaPhaseView::LoadReceipt(_), Err(error)) => ended(flow, Err(error)),
        _ => ended(flow, Err(ReplicaError::Unavailable)),
    }
}

/// What follows on the record of the profile.
pub open spec fn record_loaded_step(
    flow: ReplicaFlowView,
    existing: Result<Option<ReplicaRecordView>, ReplicaError>,
) -> (ReplicaFlowView, ReplicaActionView) {
    match (flow.phase, existing) {
        (ReplicaPhaseView::LoadRecord(fingerprint), Ok(existing)) => match record_step(
            existing,
            flow.authority_id,
            flow.profile_id,
            flow.mutation,
            fingerprint,
        ) {
            Err(error) => ended(flow, Err(error)),
            Ok(ReplicaDecisionView::Confirmed { receipt, outcome }) => turned(
                flow,
                ReplicaPhaseView::WriteReceipt(outcome),
                ReplicaActionView::WriteReceipt(receipt),
            ),
            Ok(ReplicaDecisionView::Stored { record, receipt, outcome }) => turned(
                flow,
                ReplicaPhaseView::WriteRecord { receipt, outcome },
                ReplicaActionView::WriteRecord(record),
            ),
        },
        (ReplicaPhaseView::LoadRecord(_), Err(error)) => ended(flow, Err(error)),
        _ => ended(flow, Err(ReplicaError::Unavailable)),
    }
}

/// What follows on writing the record.
pub open spec fn record_written_step(
    flow: ReplicaFlowView,
    written: Result<(), ReplicaError>,
) -> (ReplicaFlowView, ReplicaActionView) {
    match (flow.phase, written) {
        (ReplicaPhaseView::WriteRecord { receipt, outcome }, Ok(_)) => turned(
            flow,
            ReplicaPhaseView::WriteReceipt(outcome),
            ReplicaActionView::WriteReceipt(receipt),
        ),
        (ReplicaPhaseView::WriteRecord { .. }, Err(error)) => ended(flow, Err(error)),
        _ => ended(flow, Err(ReplicaError::Unavailable)),
    }
}

/// What follows on writing the receipt.
pub open spec fn receipt_written_step(
    flow: ReplicaFlowView,
    written: Result<(), ReplicaError>,
) -> (ReplicaFlowView, ReplicaActionView) {
    match (flow.phase, written) {
        (ReplicaPhaseView::WriteReceipt(outcome), Ok(_)) => ended(flow, Ok(outcome)),
        (ReplicaPhaseView::WriteReceipt(_), Err(error)) => ended(flow, Err(error)),
        _ => ended(flow, Err(ReplicaError::Unavailable)),
    }
}

impl ReplicaFlow {
    /// A change, if it is sound. The key is to be read first.
    pub fn new(
        profile_id: String,
        authority_id: String,
        idempotency_key: String,
        mutation: ReplicaMutation,
    ) -> (result: Result<Self, ReplicaError>)
        ensures
            if mutation_allowed(
                profile_id@,
                authority_id@,
                idempotency_key@,
                mutation.deep_view(),
            ) {
                result matches Ok(flow) && flow.deep_view() == (ReplicaFlowView {
                    profile_id: profile_id@,
                    authority_id: authority_id@,
                    idempotency_key: idempotency_key@,
                    mutation: mutation.deep_view(),
                    phase: ReplicaPhaseView::LoadKey,
                })
            } else {
                result matches Err(error) && error == ReplicaError::Invalid
            },
    {
        validate_mutation(&profile_id, &authority_id, &idempotency_key, &mutation)?;
        Ok(
            ReplicaFlow {
                profile_id,
                authority_id,
                idempotency_key,
                mutation,
                phase: ReplicaPhase::LoadKey,
            },
        )
    }

    fn turn(self, phase: ReplicaPhase, action: ReplicaAction) -> (next: (Self, ReplicaAction))
        ensures
            (next.0.deep_view(), next.1.deep_view()) == turned(
                self.deep_view(),
                phase.deep_view(),
                action.deep_view(),
            ),
    {
        (ReplicaFlow { phase, ..self }, action)
    }

    fn end(self, result: Result<ReplicaProvisionOutcome, ReplicaError>) -> (next: (
        Self,
        ReplicaAction,
    ))
        ensures
            (next.0.deep_view(), next.1.deep_view()) == ended(
                self.deep_view(),
                match result {
                    Ok(outcome) => Ok(outcome.deep_view()),
                    Err(error) => Err(error),
                },
            ),
    {
        match result {
            Ok(outcome) => self.turn(ReplicaPhase::Ended, ReplicaAction::Answer(outcome)),
            Err(error) => self.turn(ReplicaPhase::Ended, ReplicaAction::Fail(error)),
        }
    }

    /// Takes the key under which requests are fingerprinted.
    pub fn key_loaded(self, key: Result<Vec<u8>, ReplicaError>) -> (next: (Self, ReplicaAction))
        ensures
            (next.0.deep_view(), next.1.deep_view()) == key_loaded_step(
                self.deep_view(),
                match key {
                    Ok(key) => Ok(key@),
                    Err(error) => Err(error),
                },
            ),
    {
        match (&self.phase, key) {
            (ReplicaPhase::LoadKey, Ok(key)) => {
                match request_fingerprint(
                    key.as_slice(),
                    &self.profile_id,
                    &self.idempotency_key,
                    &self.mutation,
                ) {
                    Ok(fingerprint) => self.turn(
                        ReplicaPhase::LoadReceipt(fingerprint),
                        ReplicaAction::LoadReceipt,
                    ),
                    Err(error) => self.end(Err(error)),
                }
            },
            (ReplicaPhase::LoadKey, Err(error)) => self.end(Err(error)),
            _ => self.end(Err(ReplicaError::Unavailable)),
        }
    }

    /// Takes the receipt of the idempotency key.
    pub fn receipt_loaded(
        self,
        receipt: Result<Option<ReplicaReceipt>, ReplicaError>,
    ) -> (next: (Self, ReplicaAction))
        ensures
            (next.0.deep_view(), next.1.deep_view()) == receipt_loaded_step(
                self.deep_view(),
                match receipt {
                    Ok(receipt) => Ok(receipt.deep_view()),
                    Err(error) => Err(error),
                },
            ),
    {
        match (&self.phase, receipt) {
            (ReplicaPhase::LoadReceipt(fingerprint), Ok(Some(receipt))) => {
                let result = answer_from_receipt(
                    &receipt,
                    &self.authority_id,
                    &self.profile_id,
                    fingerprint,
                );
                self.end(result)
            },
            (ReplicaPhase::LoadReceipt(fingerprint), Ok(None)) => {
                let fingerprint = fingerprint.clone();
                self.turn(ReplicaPhase::LoadRecord(fingerprint), ReplicaAction::LoadRecord)
            },
            (ReplicaPhase::LoadReceipt(_), Err(error)) => self.end(Err(error)),
            _ => self.end(Err(ReplicaError::Unavailable)),
        }
    }

    /// Takes the record of the profile.
    pub fn record_loaded(
        self,
        existing: Result<Option<ReplicaRecord>, ReplicaError>,
    ) -> (next: (Self, ReplicaAction))
        ensures
            (next.0.deep_view(), next.1.deep_view()) == record_loaded_step(
                self.deep_view(),
                match existing {
                    Ok(existing) => Ok(existing.deep_view()),
                    Err(error) => Err(error),
                },
            ),
    {
        match (&self.phase, existing) {
            (ReplicaPhase::LoadRecord(fingerprint), Ok(existing)) => {
                let decided = decide_mutation(
                    existing.as_ref(),
                    &self.authority_id,
                    &self.profile_id,
                    self.mutation.replica(),
                    fingerprint,
                );
                match decided {
                    Err(error) => self.end(Err(error)),
                    Ok(ReplicaDecision::Confirmed { receipt, outcome }) => self.turn(
                        ReplicaPhase::WriteReceipt(outcome),
                        ReplicaAction::WriteReceipt(receipt),
                    ),
                    Ok(ReplicaDecision::Stored { record, receipt, outcome }) => self.turn(
                        ReplicaPhase::WriteRecord { receipt, outcome },
                        ReplicaAction::WriteRecord(record),
                    ),
                }
            },
            (ReplicaPhase::LoadRecord(_), Err(error)) => self.end(Err(error)),
            _ => self.end(Err(ReplicaError::Unavailable)),
        }
    }

    /// Takes what came of writing the record.
    pub fn record_written(self, written: Result<(), ReplicaError>) -> (next: (
        Self,
        ReplicaAction,
    ))
        ensures
            (next.0.deep_view(), next.1.deep_view()) == record_written_step(
                self.deep_view(),
                written,
            ),
    {
        match (&self.phase, written) {
            (ReplicaPhase::WriteRecord { receipt, outcome }, Ok(_)) => {
                let receipt = receipt.replica();
                let outcome = outcome.replica();
                self.turn(
                    ReplicaPhase::WriteReceipt(outcome),
                    ReplicaAction::WriteReceipt(receipt),
                )
            },
            (ReplicaPhase::WriteRecord { .. }, Err(error)) => self.end(Err(error)),
            _ => self.end(Err(ReplicaError::Unavailable)),
        }
    }

    /// Takes what came of writing the receipt.
    pub fn receipt_written(self, written: Result<(), ReplicaError>) -> (next: (
        Self,
        ReplicaAction,
    ))
        ensures
            (next.0.deep_view(), next.1.deep_view()) == receipt_written_step(
                self.deep_view(),
                written,
            ),
    {
        match (&self.phase, written) {
            (ReplicaPhase::WriteReceipt(outcome), Ok(_)) => {
                let outcome = outcome.replica();
                self.end(Ok(outcome))
            },
            (ReplicaPhase::WriteReceipt(_), Err(error)) => self.end(Err(error)),
            _ => self.end(Err(ReplicaError::Unavailable)),
        }
    }
}

/// The answer to a change that is stored without a break: the record, then the receipt.
pub open spec fn uninterrupted(
    flow: ReplicaFlowView,
    existing: Option<ReplicaRecordView>,
) -> ReplicaActionView {
    let (loaded, _) = record_loaded_step(flow, Ok(existing));
    let (written, _) = record_written_step(loaded, Ok(()));
    receipt_written_step(written, Ok(())).1
}

/// The answer to a change whose record is stored already, once its receipt is written.
pub open spec fn resumed(flow: ReplicaFlowView, record: ReplicaRecordView) -> ReplicaActionView {
    let (loaded, _) = record_loaded_step(flow, Ok(Some(record)));
    receipt_written_step(loaded, Ok(())).1
}

/// A change that breaks off between its record and its receipt gets, when it is asked for again,
/// the answer that it would have got; and so does one that was answered and is asked for again.
pub proof fn interrupted_change_is_answered_the_same(
    flow: ReplicaFlowView,
    fingerprint: Seq<char>,
    existing: Option<ReplicaRecordView>,
    record: ReplicaRecordView,
    receipt: ReplicaReceiptView,
)
    requires
        mutation_allowed(
            flow.profile_id,
            flow.authority_id,
            flow.idempotency_key,
            flow.mutation,
        ),
        fingerprint.len() > 0,
        flow.phase == ReplicaPhaseView::LoadRecord(fingerprint),
        record_loaded_step(flow, Ok(existing)).1 == ReplicaActionView::WriteRecord(record),
        record_written_step(record_loaded_step(flow, Ok(existing)).0, Ok(())).1
            == ReplicaActionView::WriteReceipt(receipt),
    ensures
        uninterrupted(flow, existing) is Answer,
        resumed(flow, record) == uninterrupted(flow, existing),
        ({
            let again = ReplicaFlowView {
                phase: ReplicaPhaseView::LoadReceipt(fingerprint),
                ..flow
            };
            receipt_loaded_step(again, Ok(Some(receipt))).1 == uninterrupted(flow, existing)
        }),
{
    stored_record_is_sound(
        existing,
        flow.authority_id,
        flow.profile_id,
        flow.idempotency_key,
        flow.mutation,
        fingerprint,
    );
}

/// Nothing is answered before it is written down: an answer comes only from a receipt, one that
/// was there or one that was written now, and a receipt is written only when the record is there.
pub proof fn answer_follows_the_receipt(flow: ReplicaFlowView)
    ensures
        forall|key: Result<Seq<u8>, ReplicaError>|
            !((#[trigger] key_loaded_step(flow, key)).1 is Answer),
        forall|existing: Result<Option<ReplicaRecordView>, ReplicaError>|
            !((#[trigger] record_loaded_step(flow, existing)).1 is Answer),
        forall|written: Result<(), ReplicaError>|
            !((#[trigger] record_written_step(flow, written)).1 is Answer),
        receipt_loaded_step(flow, Ok(None)).1 !is Answer,
        record_loaded_step(flow, Ok(None)).1 !is WriteReceipt,
{
}

} // verus!
