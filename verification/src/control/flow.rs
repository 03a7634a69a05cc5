//! How the secret of a controller is rotated, step by step.
//!
//! A [`RotationFlow`] decides; whoever runs it does what its [`RotationAction`] says and hands back
//! what came of it. The order of the steps is such that a rotation that breaks off anywhere can be
//! finished later.

use super::rotation::{
    complete_receipt, entry_outcome, finish_rotation, finish_step, outcome_for_record,
    plan_rotation, receipt_of, replay_rotation, replay_step, rotation_plan, ActivePointer,
    ActivePointerView, ControlRotationError, JournalPhase, JournalRecord, JournalRecordView,
    RotationEnd, RotationEndView, RotationInput, RotationInputView, RotationOutcome,
    RotationOutcomeView, RotationPlan, RotationPlanView,
};
use super::{check_root, ControlInitError, DirectoryIdentity};
use crate::datum::Datum;
use vstd::prelude::*;

verus! {

/// What a rotation has done so far.
#[derive(Clone, Copy, Debug, PartialEq, Eq, Structural)]
pub struct RotationProgress {
    /// The new secret is stored.
    pub staged: bool,
    /// The intent is in the journal.
    pub journaled: bool,
    /// The authority is marked as one that was rotated.
    pub marked: bool,
    /// The pointer names the new secret.
    pub promoted: bool,
    /// The new secret counts in this process.
    pub told: bool,
}

/// The progress of a rotation that has not begun.
pub open spec fn no_progress() -> RotationProgress {
    RotationProgress {
        staged: false,
        journaled: false,
        marked: false,
        promoted: false,
        told: false,
    }
}

/// What a rotation waits for.
pub enum RotationPhase {
    AdmitRoot,
    LoadReceipt,
    LoadPointer(Option<JournalRecord>),
    AppendRefused(JournalRecord),
    Stage { intent: JournalRecord, append: bool, pointer: ActivePointer, resumed: bool },
    AppendIntent { pointer: ActivePointer, resumed: bool },
    ReadMarker(ActivePointer),
    SetMarker(ActivePointer),
    Fence(ActivePointer),
    Promote(ActivePointer),
    ConfirmPromoted(ActivePointer),
    ReadSecret { pointer: ActivePointer, fenced: bool },
    LateFence(JournalRecord),
    Tell(JournalRecord),
    WriteReceipt(JournalRecord),
    ConfirmAnswered(JournalRecord),
    Ended,
}

/// The content of a [`RotationPhase`].
pub enum RotationPhaseView {
    AdmitRoot,
    LoadReceipt,
    LoadPointer(Option<JournalRecordView>),
    AppendRefused(JournalRecordView),
    Stage { intent: JournalRecordView, append: bool, pointer: ActivePointerView, resumed: bool },
    AppendIntent { pointer: ActivePointerView, resumed: bool },
    ReadMarker(ActivePointerView),
    SetMarker(ActivePointerView),
    Fence(ActivePointerView),
    Promote(ActivePointerView),
    ConfirmPromoted(ActivePointerView),
    ReadSecret { pointer: ActivePointerView, fenced: bool },
    LateFence(JournalRecordView),
    Tell(JournalRecordView),
    WriteReceipt(JournalRecordView),
    ConfirmAnswered(JournalRecordView),
    Ended,
}

impl DeepView for RotationPhase {
    type V = RotationPhaseView;

    open spec fn deep_view(&self) -> RotationPhaseView {
        match self {
            RotationPhase::AdmitRoot => RotationPhaseView::AdmitRoot,
            RotationPhase::LoadReceipt => RotationPhaseView::LoadReceipt,
            RotationPhase::LoadPointer(existing) => RotationPhaseView::LoadPointer(
                existing.deep_view(),
            ),
            RotationPhase::AppendRefused(intent) => RotationPhaseView::AppendRefused(
                intent.deep_view(),
            ),
            RotationPhase::Stage { intent, append, pointer, resumed } => RotationPhaseView::Stage {
                intent: intent.deep_view(),
                append: *append,
                pointer: pointer.deep_view(),
                resumed: *resumed,
            },
            RotationPhase::AppendIntent { pointer, resumed } => RotationPhaseView::AppendIntent {
                pointer: pointer.deep_view(),
                resumed: *resumed,
            },
            RotationPhase::ReadMarker(pointer) => RotationPhaseView::ReadMarker(
                pointer.deep_view(),
            ),
            RotationPhase::SetMarker(pointer) => RotationPhaseView::SetMarker(pointer.deep_view()),
            RotationPhase::Fence(pointer) => RotationPhaseView::Fence(pointer.deep_view()),
            RotationPhase::Promote(pointer) => RotationPhaseView::Promote(pointer.deep_view()),
            RotationPhase::ConfirmPromoted(pointer) => RotationPhaseView::ConfirmPromoted(
                pointer.deep_view(),
            ),
            RotationPhase::ReadSecret { pointer, fenced } => RotationPhaseView::ReadSecret {
                pointer: pointer.deep_view(),
                fenced: *fenced,
            },
            RotationPhase::LateFence(receipt) => RotationPhaseView::LateFence(receipt.deep_view()),
            RotationPhase::Tell(receipt) => RotationPhaseView::Tell(receipt.deep_view()),
            RotationPhase::WriteReceipt(receipt) => RotationPhaseView::WriteReceipt(
                receipt.deep_view(),
            ),
            RotationPhase::ConfirmAnswered(receipt) => RotationPhaseView::ConfirmAnswered(
                receipt.deep_view(),
            ),
            RotationPhase::Ended => RotationPhaseView::Ended,
        }
    }
}

/// What is to be done next.
#[derive(Clone, Debug, PartialEq)]
pub enum RotationAction {
    /// Look which directory the path of the store names, and call [`RotationFlow::root_seen`].
    CheckRoot,
    /// Read the receipt of the operation, and call [`RotationFlow::receipt_loaded`].
    LoadReceipt,
    /// Read the pointer of the authority, and call [`RotationFlow::pointer_loaded`].
    LoadPointer,
    /// Store the new secret under a name, and call [`RotationFlow::secret_staged`].
    StageSecret(String),
    /// Write an intent to the journal, and call [`RotationFlow::intent_appended`].
    AppendIntent(JournalRecord),
    /// Read whether the authority is marked, and call [`RotationFlow::marker_read`].
    ReadMarker,
    /// Mark the authority, and call [`RotationFlow::marker_set`].
    SetMarker,
    /// Keep others from counting on the old secret, and call [`RotationFlow::fenced`].
    Fence,
    /// Write the pointer, and call [`RotationFlow::pointer_promoted`].
    PromotePointer(ActivePointer),
    /// Read the secret of a name, and call [`RotationFlow::secret_read`].
    ReadSecret(String),
    /// Let the new secret count in this process, and call [`RotationFlow::promotion_told`].
    TellPromoted,
    /// Write a receipt, and call [`RotationFlow::receipt_written`].
    WriteReceipt(JournalRecord),
    /// End, with an answer.
    Answer(RotationOutcome),
    /// End, with a failure.
    Fail(ControlRotationError),
}

/// The content of a [`RotationAction`].
pub enum RotationActionView {
    CheckRoot,
    LoadReceipt,
    LoadPointer,
    StageSecret(Seq<char>),
    AppendIntent(JournalRecordView),
    ReadMarker,
    SetMarker,
    Fence,
    PromotePointer(ActivePointerView),
    ReadSecret(Seq<char>),
    TellPromoted,
    WriteReceipt(JournalRecordView),
    Answer(RotationOutcomeView),
    Fail(ControlRotationError),
}

impl DeepView for RotationAction {
    type V = RotationActionView;

    open spec fn deep_view(&self) -> RotationActionView {
        match self {
            RotationAction::CheckRoot => RotationActionView::CheckRoot,
            RotationAction::LoadReceipt => RotationActionView::LoadReceipt,
            RotationAction::LoadPointer => RotationActionView::LoadPointer,
            RotationAction::StageSecret(name) => RotationActionView::StageSecret(name@),
            RotationAction::AppendIntent(intent) => RotationActionView::AppendIntent(
                intent.deep_view(),
            ),
            RotationAction::ReadMarker => RotationActionView::ReadMarker,
            RotationAction::SetMarker => RotationActionView::SetMarker,
            RotationAction::Fence => RotationActionView::Fence,
            RotationAction::PromotePointer(pointer) => RotationActionView::PromotePointer(
                pointer.deep_view(),
            ),
            RotationAction::ReadSecret(name) => RotationActionView::ReadSecret(name@),
            RotationAction::TellPromoted => RotationActionView::TellPromoted,
            RotationAction::WriteReceipt(receipt) => RotationActionView::WriteReceipt(
                receipt.deep_view(),
            ),
            RotationAction::Answer(outcome) => RotationActionView::Answer(outcome.deep_view()),
            RotationAction::Fail(error) => RotationActionView::Fail(*error),
        }
    }
}

/// A rotation in the course of being carried out.
pub struct RotationFlow {
    /// The directory that was admitted at the start.
    pub admitted: DirectoryIdentity,
    pub input: RotationInput,
    pub revision: u64,
    pub operation_id: String,
    pub fingerprint: String,
    pub candidate: Vec<u8>,
    pub done: RotationProgress,
    pub phase: RotationPhase,
}

/// The content of a [`RotationFlow`].
pub struct RotationFlowView {
    pub admitted: DirectoryIdentity,
    pub input: RotationInputView,
    pub revision: u64,
    pub operation_id: Seq<char>,
    pub fingerprint: Seq<char>,
    pub candidate: Seq<u8>,
    pub done: RotationProgress,
    pub phase: RotationPhaseView,
}

impl DeepView for RotationFlow {
    type V = RotationFlowView;

    open spec fn deep_view(&self) -> RotationFlowView {
        RotationFlowView {
            admitted: self.admitted,
            input: self.input.deep_view(),
            revision: self.revision,
            operation_id: self.operation_id@,
            fingerprint: self.fingerprint@,
            candidate: self.candidate@,
            done: self.done,
            phase: self.phase.deep_view(),
        }
    }
}

/// A rotation with its next phase, and what is to be done.
pub open spec fn turned(
    flow: RotationFlowView,
    done: RotationProgress,
    phase: RotationPhaseView,
    action: RotationActionView,
) -> (RotationFlowView, RotationActionView) {
    (RotationFlowView { done, phase, ..flow }, action)
}

/// A rotation that ends.
pub open spec fn ended(
    flow: RotationFlowView,
    result: Result<RotationOutcomeView, ControlRotationError>,
) -> (RotationFlowView, RotationActionView) {
    turned(
        flow,
        flow.done,
        RotationPhaseView::Ended,
        match result {
            Ok(outcome) => RotationActionView::Answer(outcome),
            Err(error) => RotationActionView::Fail(error),
        },
    )
}

/// A rotation that fails inside.
pub open spec fn broken(flow: RotationFlowView) -> (RotationFlowView, RotationActionView) {
    ended(flow, Err(ControlRotationError::Internal))
}

/// What follows on seeing which directory the path of the store names: a rotation goes on, and is
/// acknowledged, only in the directory that was admitted.
pub open spec fn root_seen_step(
    flow: RotationFlowView,
    current: Result<DirectoryIdentity, ControlInitError>,
) -> (RotationFlowView, RotationActionView) {
    if current != Ok::<DirectoryIdentity, ControlInitError>(flow.admitted) {
        broken(flow)
    } else {
        match flow.phase {
            RotationPhaseView::AdmitRoot => turned(
                flow,
                flow.done,
                RotationPhaseView::LoadReceipt,
                RotationActionView::LoadReceipt,
            ),
            RotationPhaseView::ConfirmPromoted(pointer) => turned(
                flow,
                flow.done,
                RotationPhaseView::ReadSecret { pointer, fenced: true },
                RotationActionView::ReadSecret(pointer.secret_ref),
            ),
            RotationPhaseView::ConfirmAnswered(receipt) => ended(flow, entry_outcome(receipt)),
            _ => broken(flow),
        }
    }
}

/// What follows on the receipt and the latest entry of the operation: an operation that was
/// answered is answered the same.
pub open spec fn receipt_loaded_step(
    flow: RotationFlowView,
    receipt: Result<Option<JournalRecordView>, ControlRotationError>,
    existing: Option<JournalRecordView>,
) -> (RotationFlowView, RotationActionView) {
    match (flow.phase, receipt) {
        (RotationPhaseView::LoadReceipt, Ok(receipt)) => match replay_step(
            receipt,
            existing,
            flow.fingerprint,
        ) {
            Err(error) => ended(flow, Err(error)),
            Ok(Some(outcome)) => ended(flow, Ok(outcome)),
            Ok(None) => turned(
                flow,
                flow.done,
                RotationPhaseView::LoadPointer(existing),
                RotationActionView::LoadPointer,
            ),
        },
        (RotationPhaseView::LoadReceipt, Err(error)) => ended(flow, Err(error)),
        _ => broken(flow),
    }
}

/// What follows on the pointer of the authority.
pub open spec fn pointer_loaded_step(
    flow: RotationFlowView,
    pointer: Result<Option<ActivePointerView>, ControlRotationError>,
) -> (RotationFlowView, RotationActionView) {
    match (flow.phase, pointer) {
        (RotationPhaseView::LoadPointer(existing), Ok(pointer)) => match rotation_plan(
            existing,
            pointer,
            flow.input,
            flow.revision,
            flow.operation_id,
            flow.fingerprint,
        ) {
            Err(error) => ended(flow, Err(error)),
            Ok(RotationPlanView::Refused { intent, append }) => if append {
                turned(
                    flow,
                    flow.done,
                    RotationPhaseView::AppendRefused(intent),
                    RotationActionView::AppendIntent(intent),
                )
            } else {
                refused(flow, intent)
            },
            Ok(RotationPlanView::Promoted { intent, append, pointer, resumed }) => turned(
                flow,
                flow.done,
                RotationPhaseView::Stage { intent, append, pointer, resumed },
                RotationActionView::StageSecret(intent.secret_ref),
            ),
        },
        (RotationPhaseView::LoadPointer(_), Err(error)) => ended(flow, Err(error)),
        _ => broken(flow),
    }
}

/// A rotation whose revision is not new: it gets the receipt of a conflict.
pub open spec fn refused(flow: RotationFlowView, intent: JournalRecordView) -> (
    RotationFlowView,
    RotationActionView,
) {
    if intent.phase == JournalPhase::Intent {
        turned(
            flow,
            flow.done,
            RotationPhaseView::WriteReceipt(receipt_of(intent, 409)),
            RotationActionView::WriteReceipt(receipt_of(intent, 409)),
        )
    } else {
        broken(flow)
    }
}

/// A rotation whose secret is staged and whose intent is in the journal.
pub open spec fn recoverable(
    flow: RotationFlowView,
    pointer: ActivePointerView,
    resumed: bool,
) -> (RotationFlowView, RotationActionView) {
    let done = RotationProgress { staged: true, journaled: true, ..flow.done };
    if resumed {
        turned(
            flow,
            done,
            RotationPhaseView::ReadMarker(pointer),
            RotationActionView::ReadMarker,
        )
    } else {
        turned(flow, done, RotationPhaseView::SetMarker(pointer), RotationActionView::SetMarker)
    }
}

/// What follows on storing the new secret.
pub open spec fn secret_staged_step(
    flow: RotationFlowView,
    outcome: Result<(), ControlRotationError>,
) -> (RotationFlowView, RotationActionView) {
    match (flow.phase, outcome) {
        (RotationPhaseView::Stage { intent, append, pointer, resumed }, Ok(_)) => if append {
            turned(
                flow,
                RotationProgress { staged: true, ..flow.done },
                RotationPhaseView::AppendIntent { pointer, resumed },
                RotationActionView::AppendIntent(intent),
            )
        } else {
            recoverable(flow, pointer, resumed)
        },
        (RotationPhaseView::Stage { .. }, Err(error)) => ended(flow, Err(error)),
        _ => broken(flow),
    }
}

/// What follows on writing the intent to the journal.
pub open spec fn intent_appended_step(
    flow: RotationFlowView,
    outcome: Result<(), ControlRotationError>,
) -> (RotationFlowView, RotationActionView) {
    match (flow.phase, outcome) {
        (RotationPhaseView::AppendRefused(intent), Ok(_)) => refused(flow, intent),
        (RotationPhaseView::AppendRefused(_), Err(error)) => ended(flow, Err(error)),
        (RotationPhaseView::AppendIntent { pointer, resumed }, Ok(_)) => recoverable(
            flow,
            pointer,
            resumed,
        ),
        (RotationPhaseView::AppendIntent { .. }, Err(error)) => ended(flow, Err(error)),
        _ => broken(flow),
    }
}

/// What follows on the mark of an authority whose pointer names the new secret already.
pub open spec fn marker_read_step(
    flow: RotationFlowView,
    marked: Result<bool, ControlRotationError>,
) -> (RotationFlowView, RotationActionView) {
    match (flow.phase, marked) {
        (RotationPhaseView::ReadMarker(pointer), Ok(true)) => turned(
            flow,
            RotationProgress { marked: true, promoted: true, ..flow.done },
            RotationPhaseView::ReadSecret { pointer, fenced: false },
            RotationActionView::ReadSecret(pointer.secret_ref),
        ),
        (RotationPhaseView::ReadMarker(_), Err(error)) => ended(flow, Err(error)),
        _ => broken(flow),
    }
}

/// What follows on marking the authority.
pub open spec fn marker_set_step(
    flow: RotationFlowView,
    outcome: Result<(), ControlRotationError>,
) -> (RotationFlowView, RotationActionView) {
    match (flow.phase, outcome) {
        (RotationPhaseView::SetMarker(pointer), Ok(_)) => turned(
            flow,
            RotationProgress { marked: true, ..flow.done },
            RotationPhaseView::Fence(pointer),
            RotationActionView::Fence,
        ),
        (RotationPhaseView::SetMarker(_), Err(error)) => ended(flow, Err(error)),
        _ => broken(flow),
    }
}

/// What follows on keeping others from counting on the old secret.
pub open spec fn fenced_step(
    flow: RotationFlowView,
    outcome: Result<(), ControlRotationError>,
) -> (RotationFlowView, RotationActionView) {
    match (flow.phase, outcome) {
        (RotationPhaseView::Fence(pointer), Ok(_)) => turned(
            flow,
            flow.done,
            RotationPhaseView::Promote(pointer),
            RotationActionView::PromotePointer(pointer),
        ),
        (RotationPhaseView::LateFence(receipt), Ok(_)) => turned(
            flow,
            flow.done,
            RotationPhaseView::Tell(receipt),
            RotationActionView::TellPromoted,
        ),
        (RotationPhaseView::Fence(_), Err(error)) => ended(flow, Err(error)),
        (RotationPhaseView::LateFence(_), Err(error)) => ended(flow, Err(error)),
        _ => broken(flow),
    }
}

/// What follows on writing the pointer.
pub open spec fn pointer_promoted_step(
    flow: RotationFlowView,
    outcome: Result<(), ControlRotationError>,
) -> (RotationFlowView, RotationActionView) {
    match (flow.phase, outcome) {
        (RotationPhaseView::Promote(pointer), Ok(_)) => turned(
            flow,
            RotationProgress { promoted: true, ..flow.done },
            RotationPhaseView::ConfirmPromoted(pointer),
            RotationActionView::CheckRoot,
        ),
        (RotationPhaseView::Promote(_), Err(error)) => ended(flow, Err(error)),
        _ => broken(flow),
    }
}

/// What follows on the secret that the pointer names, and the latest entry of the operation.
pub open spec fn secret_read_step(
    flow: RotationFlowView,
    secret: Result<Seq<u8>, ControlRotationError>,
    latest: Option<JournalRecordView>,
) -> (RotationFlowView, RotationActionView) {
    match (flow.phase, secret) {
        (RotationPhaseView::ReadSecret { pointer, fenced }, Ok(secret)) => match finish_step(
            pointer,
            latest,
            secret,
            flow.candidate,
        ) {
            Err(error) => ended(flow, Err(error)),
            Ok(RotationEndView::Answered(outcome)) => ended(flow, Ok(outcome)),
            Ok(RotationEndView::Receipt(receipt)) => if fenced {
                turned(
                    flow,
                    flow.done,
                    RotationPhaseView::Tell(receipt),
                    RotationActionView::TellPromoted,
                )
            } else {
                turned(
                    flow,
                    flow.done,
                    RotationPhaseView::LateFence(receipt),
                    RotationActionView::Fence,
                )
            },
        },
        (RotationPhaseView::ReadSecret { .. }, Err(error)) => ended(flow, Err(error)),
        _ => broken(flow),
    }
}

/// What follows once the new secret counts in this process.
pub open spec fn promotion_told_step(
    flow: RotationFlowView,
    outcome: Result<(), ControlRotationError>,
) -> (RotationFlowView, RotationActionView) {
    match (flow.phase, outcome) {
        (RotationPhaseView::Tell(receipt), Ok(_)) => turned(
            flow,
            RotationProgress { told: true, ..flow.done },
            RotationPhaseView::WriteReceipt(receipt),
            RotationActionView::WriteReceipt(receipt),
        ),
        (RotationPhaseView::Tell(_), Err(error)) => ended(flow, Err(error)),
        _ => broken(flow),
    }
}

/// What follows on writing the receipt: a rotation that was done is acknowledged only once the
/// directory was seen to be the admitted one still.
pub open spec fn receipt_written_step(
    flow: RotationFlowView,
    outcome: Result<(), ControlRotationError>,
) -> (RotationFlowView, RotationActionView) {
    match (flow.phase, outcome) {
        (RotationPhaseView::WriteReceipt(receipt), Ok(_)) => if receipt.status == 200 {
            turned(
                flow,
                flow.done,
                RotationPhaseView::ConfirmAnswered(receipt),
                RotationActionView::CheckRoot,
            )
        } else {
            ended(flow, entry_outcome(receipt))
        },
        (RotationPhaseView::WriteReceipt(_), Err(error)) => ended(flow, Err(error)),
        _ => broken(flow),
    }
}

impl RotationFlow {
    /// A rotation. The directory of the store is to be looked at first.
    pub fn new(
        admitted: DirectoryIdentity,
        input: RotationInput,
        revision: u64,
        operation_id: String,
        fingerprint: String,
        candidate: Vec<u8>,
    ) -> (flow: Self)
        ensures
            flow.deep_view() == (RotationFlowView {
                admitted,
                input: input.deep_view(),
                revision,
                operation_id: operation_id@,
                fingerprint: fingerprint@,
                candidate: candidate@,
                done: no_progress(),
                phase: RotationPhaseView::AdmitRoot,
            }),
    {
        RotationFlow {
            admitted,
            input,
            revision,
            operation_id,
            fingerprint,
            candidate,
            done: RotationProgress {
                staged: false,
                journaled: false,
                marked: false,
                promoted: false,
                told: false,
            },
            phase: RotationPhase::AdmitRoot,
        }
    }

    fn turn(self, done: RotationProgress, phase: RotationPhase, action: RotationAction) -> (next: (
        Self,
        RotationAction,
    ))
        ensures
            (next.0.deep_view(), next.1.deep_view()) == turned(
                self.deep_view(),
                done,
                phase.deep_view(),
                action.deep_view(),
            ),
    {
        (RotationFlow { done, phase, ..self }, action)
    }

    fn fail(self, error: ControlRotationError) -> (next: (Self, RotationAction))
        ensures
            (next.0.deep_view(), next.1.deep_view()) == ended(self.deep_view(), Err(error)),
    {
        let done = self.done;
        self.turn(done, RotationPhase::Ended, RotationAction::Fail(error))
    }

    fn end(self, result: Result<RotationOutcome, ControlRotationError>) -> (next: (
        Self,
        RotationAction,
    ))
        ensures
            (next.0.deep_view(), next.1.deep_view()) == ended(
                self.deep_view(),
                match result {
                    Ok(outcome) => Ok(outcome.deep_view()),
                    Err(error) => Err(error),
                },
            ),
    {
        match result {
            Ok(outcome) => {
                let done = self.done;
                self.turn(done, RotationPhase::Ended, RotationAction::Answer(outcome))
            },
            Err(error) => self.fail(error),
        }
    }

    /// Takes the directory that the path of the store names.
    pub fn root_seen(self, current: Result<DirectoryIdentity, ControlInitError>) -> (next: (
        Self,
        RotationAction,
    ))
        ensures
            (next.0.deep_view(), next.1.deep_view()) == root_seen_step(self.deep_view(), current),
    {
        let seen = match current {
            Ok(current) => check_root(&self.admitted, &current),
            Err(error) => Err(error),
        };
        if seen.is_err() {
            return self.fail(ControlRotationError::Internal);
        }
        let done = self.done;
        match &self.phase {
            RotationPhase::AdmitRoot => self.turn(
                done,
                RotationPhase::LoadReceipt,
                RotationAction::LoadReceipt,
            ),
            RotationPhase::ConfirmPromoted(pointer) => {
                let pointer = pointer.replica();
                let name = pointer.secret_ref.clone();
                self.turn(
                    done,
                    RotationPhase::ReadSecret { pointer, fenced: true },
                    RotationAction::ReadSecret(name),
                )
            },
            RotationPhase::ConfirmAnswered(receipt) => {
                let result = outcome_for_record(receipt);
                self.end(result)
            },
            _ => self.fail(ControlRotationError::Internal),
        }
    }

    /// Takes the receipt of the operation, and its latest entry in the journal.
    pub fn receipt_loaded(
        self,
        receipt: Result<Option<JournalRecord>, ControlRotationError>,
        existing: Option<JournalRecord>,
    ) -> (next: (Self, RotationAction))
        ensures
            (next.0.deep_view(), next.1.deep_view()) == receipt_loaded_step(
                self.deep_view(),
                match receipt {
                    Ok(receipt) => Ok(receipt.deep_view()),
                    Err(error) => Err(error),
                },
                existing.deep_view(),
            ),
    {
        match (&self.phase, receipt) {
            (RotationPhase::LoadReceipt, Ok(receipt)) => {
                match replay_rotation(receipt.as_ref(), existing.as_ref(), &self.fingerprint) {
                    Err(error) => self.fail(error),
                    Ok(Some(outcome)) => self.end(Ok(outcome)),
                    Ok(None) => {
                        let done = self.done;
                        self.turn(
                            done,
                            RotationPhase::LoadPointer(existing),
                            RotationAction::LoadPointer,
                        )
                    },
                }
            },
            (RotationPhase::LoadReceipt, Err(error)) => self.fail(error),
            _ => self.fail(ControlRotationError::Internal),
        }
    }

    fn refuse(self, intent: &JournalRecord) -> (next: (Self, RotationAction))
        ensures
            (next.0.deep_view(), next.1.deep_view()) == refused(
                self.deep_view(),
                intent.deep_view(),
            ),
    {
        match complete_receipt(intent, 409) {
            Ok(receipt) => {
                let done = self.done;
                let copy = receipt.replica();
                self.turn(
                    done,
                    RotationPhase::WriteReceipt(receipt),
                    RotationAction::WriteReceipt(copy),
                )
            },
            Err(error) => self.fail(error),
        }
    }

    /// Takes the pointer of the authority.
    pub fn pointer_loaded(
        self,
        pointer: Result<Option<ActivePointer>, ControlRotationError>,
    ) -> (next: (Self, RotationAction))
        ensures
            (next.0.deep_view(), next.1.deep_view()) == pointer_loaded_step(
                self.deep_view(),
                match pointer {
                    Ok(pointer) => Ok(pointer.deep_view()),
                    Err(error) => Err(error),
                },
            ),
    {
        match (&self.phase, pointer) {
            (RotationPhase::LoadPointer(existing), Ok(pointer)) => {
                let planned = plan_rotation(
                    existing.as_ref(),
                    pointer,
                    &self.input,
                    self.revision,
                    &self.operation_id,
                    &self.fingerprint,
                );
                let done = self.done;
                match planned {
                    Err(error) => self.fail(error),
                    Ok(RotationPlan::Refused { intent, append }) => {
                        if append {
                            let copy = intent.replica();
                            self.turn(
                                done,
                                RotationPhase::AppendRefused(intent),
                                RotationAction::AppendIntent(copy),
                            )
                        } else {
                            self.refuse(&intent)
                        }
                    },
                    Ok(RotationPlan::Promoted { intent, append, pointer, resumed }) => {
                        let name = intent.secret_ref.clone();
                        self.turn(
                            done,
                            RotationPhase::Stage { intent, append, pointer, resumed },
                            RotationAction::StageSecret(name),
                        )
                    },
                }
            },
            (RotationPhase::LoadPointer(_), Err(error)) => self.fail(error),
            _ => self.fail(ControlRotationError::Internal),
        }
    }

    fn recover(self, pointer: ActivePointer, resumed: bool) -> (next: (Self, RotationAction))
        ensures
            (next.0.deep_view(), next.1.deep_view()) == recoverable(
                self.deep_view(),
                pointer.deep_view(),
                resumed,
            ),
    {
        let done = RotationProgress { staged: true, journaled: true, ..self.done };
        if resumed {
            self.turn(done, RotationPhase::ReadMarker(pointer), RotationAction::ReadMarker)
        } else {
            self.turn(done, RotationPhase::SetMarker(pointer), RotationAction::SetMarker)
        }
    }

    /// Takes what came of storing the new secret.
    pub fn secret_staged(self, outcome: Result<(), ControlRotationError>) -> (next: (
        Self,
        RotationAction,
    ))
        ensures
            (next.0.deep_view(), next.1.deep_view()) == secret_staged_step(
                self.deep_view(),
                outcome,
            ),
    {
        match (&self.phase, outcome) {
            (RotationPhase::Stage { intent, append, pointer, resumed }, Ok(_)) => {
                let intent = intent.replica();
                let pointer = pointer.replica();
                let resumed: bool = *resumed;
                if *append {
                    let done = RotationProgress { staged: true, ..self.done };
                    self.turn(
                        done,
                        RotationPhase::AppendIntent { pointer, resumed },
                        RotationAction::AppendIntent(intent),
                    )
                } else {
                    self.recover(pointer, resumed)
                }
            },
            (RotationPhase::Stage { .. }, Err(error)) => self.fail(error),
            _ => self.fail(ControlRotationError::Internal),
        }
    }

    /// Takes what came of writing the intent to the journal.
    pub fn intent_appended(self, outcome: Result<(), ControlRotationError>) -> (next: (
        Self,
        RotationAction,
    ))
        ensures
            (next.0.deep_view(), next.1.deep_view()) == intent_appended_step(
                self.deep_view(),
                outcome,
            ),
    {
        match (&self.phase, outcome) {
            (RotationPhase::AppendRefused(intent), Ok(_)) => {
                let intent = intent.replica();
                self.refuse(&intent)
            },
            (RotationPhase::AppendRefused(_), Err(error)) => self.fail(error),
            (RotationPhase::AppendIntent { pointer, resumed }, Ok(_)) => {
                let pointer = pointer.replica();
                let resumed: bool = *resumed;
                self.recover(pointer, resumed)
            },
            (RotationPhase::AppendIntent { .. }, Err(error)) => self.fail(error),
            _ => self.fail(ControlRotationError::Internal),
        }
    }

    /// Takes whether the authority is marked.
    pub fn marker_read(self, marked: Result<bool, ControlRotationError>) -> (next: (
        Self,
        RotationAction,
    ))
        ensures
            (next.0.deep_view(), next.1.deep_view()) == marker_read_step(self.deep_view(), marked),
    {
        match (&self.phase, marked) {
            (RotationPhase::ReadMarker(pointer), Ok(true)) => {
                let done = RotationProgress { marked: true, promoted: true, ..self.done };
                let pointer = pointer.replica();
                let name = pointer.secret_ref.clone();
                self.turn(
                    done,
                    RotationPhase::ReadSecret { pointer, fenced: false },
                    RotationAction::ReadSecret(name),
                )
            },
            (RotationPhase::ReadMarker(_), Err(error)) => self.fail(error),
            _ => self.fail(ControlRotationError::Internal),
        }
    }

    /// Takes what came of marking the authority.
    pub fn marker_set(self, outcome: Result<(), ControlRotationError>) -> (next: (
        Self,
        RotationAction,
    ))
        ensures
            (next.0.deep_view(), next.1.deep_view()) == marker_set_step(self.deep_view(), outcome),
    {
        match (&self.phase, outcome) {
            (RotationPhase::SetMarker(pointer), Ok(_)) => {
                let done = RotationProgress { marked: true, ..self.done };
                let pointer = pointer.replica();
                self.turn(done, RotationPhase::Fence(pointer), RotationAction::Fence)
            },
            (RotationPhase::SetMarker(_), Err(error)) => self.fail(error),
            _ => self.fail(ControlRotationError::Internal),
        }
    }

    /// Takes what came of keeping others from counting on the old secret.
    pub fn fenced(self, outcome: Result<(), ControlRotationError>) -> (next: (
        Self,
        RotationAction,
    ))
        ensures
            (next.0.deep_view(), next.1.deep_view()) == fenced_step(self.deep_view(), outcome),
    {
        let done = self.done;
        match (&self.phase, outcome) {
            (RotationPhase::Fence(pointer), Ok(_)) => {
                let pointer = pointer.replica();
                let copy = pointer.replica();
                self.turn(
                    done,
                    RotationPhase::Promote(pointer),
                    RotationAction::PromotePointer(copy),
                )
            },
            (RotationPhase::LateFence(receipt), Ok(_)) => {
                let receipt = receipt.replica();
                self.turn(done, RotationPhase::Tell(receipt), RotationAction::TellPromoted)
            },
            (RotationPhase::Fence(_), Err(error)) => self.fail(error),
            (RotationPhase::LateFence(_), Err(error)) => self.fail(error),
            _ => self.fail(ControlRotationError::Internal),
        }
    }

    /// Takes what came of writing the pointer.
    pub fn pointer_promoted(self, outcome: Result<(), ControlRotationError>) -> (next: (
        Self,
        RotationAction,
    ))
        ensures
            (next.0.deep_view(), next.1.deep_view()) == pointer_promoted_step(
                self.deep_view(),
                outcome,
            ),
    {
        match (&self.phase, outcome) {
            (RotationPhase::Promote(pointer), Ok(_)) => {
                let done = RotationProgress { promoted: true, ..self.done };
                let pointer = pointer.replica();
                self.turn(
                    done,
                    RotationPhase::ConfirmPromoted(pointer),
                    RotationAction::CheckRoot,
                )
            },
            (RotationPhase::Promote(_), Err(error)) => self.fail(error),
            _ => self.fail(ControlRotationError::Internal),
        }
    }

    /// Takes the secret that the pointer names, and the latest entry of the operation.
    pub fn secret_read(
        self,
        secret: Result<Vec<u8>, ControlRotationError>,
        latest: Option<JournalRecord>,
    ) -> (next: (Self, RotationAction))
        ensures
            (next.0.deep_view(), next.1.deep_view()) == secret_read_step(
                self.deep_view(),
                match secret {
                    Ok(secret) => Ok(secret@),
                    Err(error) => Err(error),
                },
                latest.deep_view(),
            ),
    {
        let done = self.done;
        match (&self.phase, secret) {
            (RotationPhase::ReadSecret { pointer, fenced }, Ok(secret)) => {
                let fenced: bool = *fenced;
                let finished = finish_rotation(
                    pointer,
                    latest.as_ref(),
                    secret.as_slice(),
                    self.candidate.as_slice(),
                );
                match finished {
                    Err(error) => self.fail(error),
                    Ok(RotationEnd::Answered(outcome)) => self.end(Ok(outcome)),
                    Ok(RotationEnd::Receipt(receipt)) => {
                        if fenced {
                            self.turn(
                                done,
                                RotationPhase::Tell(receipt),
                                RotationAction::TellPromoted,
                            )
                        } else {
                            self.turn(
                                done,
                                RotationPhase::LateFence(receipt),
                                RotationAction::Fence,
                            )
                        }
                    },
                }
            },
            (RotationPhase::ReadSecret { .. }, Err(error)) => self.fail(error),
            _ => self.fail(ControlRotationError::Internal),
        }
    }

    /// Takes what came of letting the new secret count in this process.
    pub fn promotion_told(self, outcome: Result<(), ControlRotationError>) -> (next: (
        Self,
        RotationAction,
    ))
        ensures
            (next.0.deep_view(), next.1.deep_view()) == promotion_told_step(
                self.deep_view(),
                outcome,
            ),
    {
        match (&self.phase, outcome) {
            (RotationPhase::Tell(receipt), Ok(_)) => {
                let done = RotationProgress { told: true, ..self.done };
                let receipt = receipt.replica();
                let copy = receipt.replica();
                self.turn(
                    done,
                    RotationPhase::WriteReceipt(receipt),
                    RotationAction::WriteReceipt(copy),
                )
            },
            (RotationPhase::Tell(_), Err(error)) => self.fail(error),
            _ => self.fail(ControlRotationError::Internal),
        }
    }

    /// Takes what came of writing the receipt.
    pub fn receipt_written(self, outcome: Result<(), ControlRotationError>) -> (next: (
        Self,
        RotationAction,
    ))
        ensures
            (next.0.deep_view(), next.1.deep_view()) == receipt_written_step(
                self.deep_view(),
                outcome,
            ),
    {
        match (&self.phase, outcome) {
            (RotationPhase::WriteReceipt(receipt), Ok(_)) => {
                if receipt.status == 200 {
                    let done = self.done;
                    let receipt = receipt.replica();
                    self.turn(
                        done,
                        RotationPhase::ConfirmAnswered(receipt),
                        RotationAction::CheckRoot,
                    )
                } else {
                    let result = outcome_for_record(receipt);
                    self.end(result)
                }
            },
            (RotationPhase::WriteReceipt(_), Err(error)) => self.fail(error),
            _ => self.fail(ControlRotationError::Internal),
        }
    }
}

/// What is handed to a rotation.
pub enum RotationEventView {
    RootSeen(Result<DirectoryIdentity, ControlInitError>),
    ReceiptLoaded(
        Result<Option<JournalRecordView>, ControlRotationError>,
        Option<JournalRecordView>,
    ),
    PointerLoaded(Result<Option<ActivePointerView>, ControlRotationError>),
    SecretStaged(Result<(), ControlRotationError>),
    IntentAppended(Result<(), ControlRotationError>),
    MarkerRead(Result<bool, ControlRotationError>),
    MarkerSet(Result<(), ControlRotationError>),
    Fenced(Result<(), ControlRotationError>),
    PointerPromoted(Result<(), ControlRotationError>),
    SecretRead(Result<Seq<u8>, ControlRotationError>, Option<JournalRecordView>),
    PromotionTold(Result<(), ControlRotationError>),
    ReceiptWritten(Result<(), ControlRotationError>),
}

/// The step of a rotation on what is handed to it.
pub open spec fn rotation_step(flow: RotationFlowView, event: RotationEventView) -> (
    RotationFlowView,
    RotationActionView,
) {
    match event {
        RotationEventView::RootSeen(current) => root_seen_step(flow, current),
        RotationEventView::ReceiptLoaded(receipt, existing) => receipt_loaded_step(
            flow,
            receipt,
            existing,
        ),
        RotationEventView::PointerLoaded(pointer) => pointer_loaded_step(flow, pointer),
        RotationEventView::SecretStaged(outcome) => secret_staged_step(flow, outcome),
        RotationEventView::IntentAppended(outcome) => intent_appended_step(flow, outcome),
        RotationEventView::MarkerRead(marked) => marker_read_step(flow, marked),
        RotationEventView::MarkerSet(outcome) => marker_set_step(flow, outcome),
        RotationEventView::Fenced(outcome) => fenced_step(flow, outcome),
        RotationEventView::PointerPromoted(outcome) => pointer_promoted_step(flow, outcome),
        RotationEventView::SecretRead(secret, latest) => secret_read_step(flow, secret, latest),
        RotationEventView::PromotionTold(outcome) => promotion_told_step(flow, outcome),
        RotationEventView::ReceiptWritten(outcome) => receipt_written_step(flow, outcome),
    }
}

/// Whether a rotation has done what its phase builds upon, and no more.
pub open spec fn is_sound(flow: RotationFlowView) -> bool {
    let done = flow.done;
    let recoverable = done.staged && done.journaled;
    let promoted = recoverable && done.marked && done.promoted;
    match flow.phase {
        RotationPhaseView::AppendIntent { .. } => done.staged && !done.promoted && !done.told,
        RotationPhaseView::ReadMarker(_) => recoverable && !done.promoted && !done.told,
        RotationPhaseView::SetMarker(_) => recoverable && !done.promoted && !done.told,
        RotationPhaseView::Fence(_) => recoverable && done.marked && !done.promoted && !done.told,
        RotationPhaseView::Promote(_) => recoverable && done.marked && !done.promoted
            && !done.told,
        RotationPhaseView::ConfirmPromoted(_) => promoted && !done.told,
        RotationPhaseView::ReadSecret { .. } => promoted && !done.told,
        RotationPhaseView::LateFence(receipt) => promoted && !done.told && receipt.status == 200,
        RotationPhaseView::Tell(receipt) => promoted && !done.told && receipt.status == 200,
        RotationPhaseView::WriteReceipt(receipt) => if receipt.status == 200 {
            promoted && done.told
        } else {
            receipt.status == 409 && !done.promoted && !done.told
        },
        RotationPhaseView::ConfirmAnswered(receipt) => promoted && done.told && receipt.status
            == 200,
        RotationPhaseView::Ended => true,
        _ => !done.promoted && !done.told,
    }
}

/// What holds of a step of a rotation.
pub open spec fn goes_in_order(flow: RotationFlowView, event: RotationEventView) -> bool {
    let (next, action) = rotation_step(flow, event);
    &&& is_sound(next)
    &&& action is PromotePointer ==> next.done.staged && next.done.journaled && next.done.marked
    &&& action is TellPromoted ==> next.done.promoted
    &&& action matches RotationActionView::WriteReceipt(receipt) ==> {
        ||| receipt.status == 200 && next.done.promoted && next.done.told
        ||| receipt.status == 409 && !next.done.promoted && !next.done.told
    }
    &&& (action is Answer || action is Fail) <==> next.phase is Ended
}

proof fn lemma_root_in_order(
    flow: RotationFlowView,
    current: Result<DirectoryIdentity, ControlInitError>,
)
    requires
        is_sound(flow),
    ensures
        goes_in_order(flow, RotationEventView::RootSeen(current)),
{
}

proof fn lemma_receipt_in_order(
    flow: RotationFlowView,
    receipt: Result<Option<JournalRecordView>, ControlRotationError>,
    existing: Option<JournalRecordView>,
)
    requires
        is_sound(flow),
    ensures
        goes_in_order(flow, RotationEventView::ReceiptLoaded(receipt, existing)),
{
}

proof fn lemma_pointer_in_order(
    flow: RotationFlowView,
    pointer: Result<Option<ActivePointerView>, ControlRotationError>,
)
    requires
        is_sound(flow),
    ensures
        goes_in_order(flow, RotationEventView::PointerLoaded(pointer)),
{
}

proof fn lemma_staging_in_order(
    flow: RotationFlowView,
    outcome: Result<(), ControlRotationError>,
)
    requires
        is_sound(flow),
    ensures
        goes_in_order(flow, RotationEventView::SecretStaged(outcome)),
        goes_in_order(flow, RotationEventView::IntentAppended(outcome)),
{
}

proof fn lemma_marking_in_order(
    flow: RotationFlowView,
    marked: Result<bool, ControlRotationError>,
    outcome: Result<(), ControlRotationError>,
)
    requires
        is_sound(flow),
    ensures
        goes_in_order(flow, RotationEventView::MarkerRead(marked)),
        goes_in_order(flow, RotationEventView::MarkerSet(outcome)),
{
}

proof fn lemma_promotion_in_order(
    flow: RotationFlowView,
    outcome: Result<(), ControlRotationError>,
)
    requires
        is_sound(flow),
    ensures
        goes_in_order(flow, RotationEventView::Fenced(outcome)),
        goes_in_order(flow, RotationEventView::PointerPromoted(outcome)),
{
}

proof fn lemma_secret_in_order(
    flow: RotationFlowView,
    secret: Result<Seq<u8>, ControlRotationError>,
    latest: Option<JournalRecordView>,
)
    requires
        is_sound(flow),
    ensures
        goes_in_order(flow, RotationEventView::SecretRead(secret, latest)),
{
}

proof fn lemma_end_in_order(
    flow: RotationFlowView,
    outcome: Result<(), ControlRotationError>,
)
    requires
        is_sound(flow),
    ensures
        goes_in_order(flow, RotationEventView::PromotionTold(outcome)),
        goes_in_order(flow, RotationEventView::ReceiptWritten(outcome)),
{
}

/// A rotation can be finished from wherever it breaks off: the pointer is written only once the
/// secret is stored, the intent is in the journal and the authority is marked; the new secret
/// counts in this process only once the pointer names it; and success is written down only after
/// that. A rotation that is refused has set no pointer.
pub proof fn rotation_goes_in_order(flow: RotationFlowView, event: RotationEventView)
    requires
        is_sound(flow),
    ensures
        goes_in_order(flow, event),
{
    match event {
        RotationEventView::RootSeen(current) => lemma_root_in_order(flow, current),
        RotationEventView::ReceiptLoaded(receipt, existing) => lemma_receipt_in_order(
            flow,
            receipt,
            existing,
        ),
        RotationEventView::PointerLoaded(pointer) => lemma_pointer_in_order(flow, pointer),
        RotationEventView::SecretStaged(outcome) => lemma_staging_in_order(flow, outcome),
        RotationEventView::IntentAppended(outcome) => lemma_staging_in_order(flow, outcome),
        RotationEventView::MarkerRead(marked) => lemma_marking_in_order(flow, marked, Ok(())),
        RotationEventView::MarkerSet(outcome) => lemma_marking_in_order(flow, Ok(true), outcome),
        RotationEventView::Fenced(outcome) => lemma_promotion_in_order(flow, outcome),
        RotationEventView::PointerPromoted(outcome) => lemma_promotion_in_order(flow, outcome),
        RotationEventView::SecretRead(secret, latest) => lemma_secret_in_order(
            flow,
            secret,
            latest,
        ),
        RotationEventView::PromotionTold(outcome) => lemma_end_in_order(flow, outcome),
        RotationEventView::ReceiptWritten(outcome) => lemma_end_in_order(flow, outcome),
    }
}

/// Whether what is handed to a rotation says that the directory is the one with this identity.
pub open spec fn confirms(event: RotationEventView, admitted: DirectoryIdentity) -> bool {
    event == RotationEventView::RootSeen(Ok(admitted))
}

/// Nothing is read before the directory was seen to be the one that was admitted; a pointer that
/// this rotation set counts, and a rotation that was done is acknowledged, only on seeing it
/// again.
pub proof fn directory_is_confirmed(flow: RotationFlowView, event: RotationEventView)
    requires
        is_sound(flow),
    ensures
        ({
            let (next, action) = rotation_step(flow, event);
            &&& next.admitted == flow.admitted
            &&& flow.phase is AdmitRoot && !(action is Fail) ==> confirms(event, flow.admitted)
            &&& flow.phase is Promote && !(action is Fail) ==> action is CheckRoot
                && next.phase is ConfirmPromoted
            &&& flow.phase is ConfirmPromoted && !(action is Fail) ==> confirms(
                event,
                flow.admitted,
            )
            &&& action is Answer && next.done.told ==> confirms(event, flow.admitted)
        }),
{
}

/// A rotation after all that was handed to it, and what is to be done then.
pub open spec fn rotated(flow: RotationFlowView, events: Seq<RotationEventView>) -> (
    RotationFlowView,
    RotationActionView,
)
    decreases events.len(),
{
    if events.len() == 0 {
        (flow, RotationActionView::CheckRoot)
    } else {
        rotation_step(rotated(flow, events.drop_last()).0, events.last())
    }
}

/// Over a whole run, from its start on, a rotation that was done is acknowledged only in the
/// directory that was admitted at the start: the last that it was handed says that the path of the
/// store still names that directory.
pub proof fn rotation_is_acknowledged_in_place(
    flow: RotationFlowView,
    events: Seq<RotationEventView>,
)
    requires
        flow.done == no_progress(),
        flow.phase is AdmitRoot,
    ensures
        ({
            let (now, action) = rotated(flow, events);
            &&& is_sound(now)
            &&& now.admitted == flow.admitted
            &&& action is Answer && now.done.told ==> events.len() > 0 && confirms(
                events.last(),
                flow.admitted,
            )
        }),
    decreases events.len(),
{
    if events.len() > 0 {
        rotation_is_acknowledged_in_place(flow, events.drop_last());
        let before = rotated(flow, events.drop_last()).0;
        rotation_goes_in_order(before, events.last());
        directory_is_confirmed(before, events.last());
    }
}

/// Whether a rotation is the same operation as before, and has done all that it had done.
pub open spec fn advances(flow: RotationFlowView, next: RotationFlowView) -> bool {
    &&& next.admitted == flow.admitted
    &&& next.input == flow.input
    &&& next.revision == flow.revision
    &&& next.operation_id == flow.operation_id
    &&& next.fingerprint == flow.fingerprint
    &&& next.candidate == flow.candidate
    &&& flow.done.staged ==> next.done.staged
    &&& flow.done.journaled ==> next.done.journaled
    &&& flow.done.marked ==> next.done.marked
    &&& flow.done.promoted ==> next.done.promoted
    &&& flow.done.told ==> next.done.told
}

proof fn lemma_loading_advances(
    flow: RotationFlowView,
    receipt: Result<Option<JournalRecordView>, ControlRotationError>,
    existing: Option<JournalRecordView>,
    pointer: Result<Option<ActivePointerView>, ControlRotationError>,
)
    ensures
        advances(flow, receipt_loaded_step(flow, receipt, existing).0),
        advances(flow, pointer_loaded_step(flow, pointer).0),
{
}

proof fn lemma_writing_advances(
    flow: RotationFlowView,
    outcome: Result<(), ControlRotationError>,
)
    ensures
        advances(flow, secret_staged_step(flow, outcome).0),
        advances(flow, intent_appended_step(flow, outcome).0),
        advances(flow, marker_set_step(flow, outcome).0),
        advances(flow, fenced_step(flow, outcome).0),
        advances(flow, pointer_promoted_step(flow, outcome).0),
        advances(flow, promotion_told_step(flow, outcome).0),
        advances(flow, receipt_written_step(flow, outcome).0),
{
}

/// A rotation stays the same operation while it is carried out, and what it has done stays done.
pub proof fn rotation_only_advances(flow: RotationFlowView, event: RotationEventView)
    ensures
        advances(flow, rotation_step(flow, event).0),
{
    match event {
        RotationEventView::ReceiptLoaded(receipt, existing) => lemma_loading_advances(
            flow,
            receipt,
            existing,
            Ok(None),
        ),
        RotationEventView::PointerLoaded(pointer) => lemma_loading_advances(
            flow,
            Ok(None),
            None,
            pointer,
        ),
        RotationEventView::SecretStaged(outcome) => lemma_writing_advances(flow, outcome),
        RotationEventView::IntentAppended(outcome) => lemma_writing_advances(flow, outcome),
        RotationEventView::MarkerSet(outcome) => lemma_writing_advances(flow, outcome),
        RotationEventView::Fenced(outcome) => lemma_writing_advances(flow, outcome),
        RotationEventView::PointerPromoted(outcome) => lemma_writing_advances(flow, outcome),
        RotationEventView::PromotionTold(outcome) => lemma_writing_advances(flow, outcome),
        RotationEventView::ReceiptWritten(outcome) => lemma_writing_advances(flow, outcome),
        RotationEventView::RootSeen(_) => {},
        RotationEventView::MarkerRead(_) => {},
        RotationEventView::SecretRead(_, _) => {},
    }
}

} // verus!
