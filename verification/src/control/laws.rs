//! What holds of the rotation of controller secrets: what a request leads to, what is written down
//! of it, and what is made of it after a restart.

use super::flow::{
    fenced_step, intent_appended_step, marker_read_step, marker_set_step, pointer_loaded_step,
    pointer_promoted_step, promotion_told_step, receipt_loaded_step, receipt_written_step,
    root_seen_step, secret_read_step, secret_staged_step, RotationActionView, RotationFlowView,
    RotationPhaseView,
};
use super::rotation::{
    authorities_allowed, authority_expected, authority_source, current_pointer,
    current_secret_name, entry_allowed, entry_outcome, finish_step, initialization_allowed,
    intent_for, intent_task, is_digest_text, is_new_secret, is_unanswered, journal_allowed,
    kept_operation, latest_entry, may_follow, may_set_up, pending_entries,
    pointer_allowed, pointer_for, pointer_name, pointer_task, pointers_expected, points_to,
    receipt_of, receipts_agree, replay_step, response_body, rotation_plan,
    rotation_request_fault, secret_name, secret_needed, ActivePointerView, ControlRotationError,
    ControllerAuthRotationRequestView, InitializationAuthorityView, InitializationFactView,
    IntentTaskView, JournalPhase, JournalRecordView, PointerTaskView, RotationEndView,
    RotationInputView, RotationOutcomeView, RotationPlanView,
};
use super::ControlInitError;
use crate::json::{object_text, JsonView};
use crate::text::byte_len;
use vstd::prelude::*;
use vstd::string::*;

verus! {

/// An operation that has a receipt, in its file or in the journal, is answered with it; one that
/// was begun with another request conflicts; and any other is carried out.
pub proof fn operations_are_answered_once(
    receipt: Option<JournalRecordView>,
    existing: Option<JournalRecordView>,
    fingerprint: Seq<char>,
)
    ensures
        ({
            let known = match receipt {
                Some(_) => receipt,
                None => existing,
            };
            let step = replay_step(receipt, existing, fingerprint);
            &&& step == Err::<Option<RotationOutcomeView>, ControlRotationError>(
                ControlRotationError::Conflict,
            ) <==> (known matches Some(record) && record.fingerprint != fingerprint)
            &&& (step matches Ok(answer) && answer is None) <==> known is None || (receipt is None
                && known->0.fingerprint == fingerprint && known->0.phase == JournalPhase::Intent)
            &&& step matches Ok(Some(outcome)) ==> {
                &&& outcome.status == known->0.status
                &&& Some(outcome.body) == known->0.response
            }
        }),
{
}

/// An intent names its operation, its authority, its revision and its request, and the file of its
/// secret; it has no answer yet. Its receipt says the same, with the answer.
pub proof fn receipts_repeat_their_intents(
    authority_id: Seq<char>,
    revision: u64,
    operation_id: Seq<char>,
    fingerprint: Seq<char>,
    intent: JournalRecordView,
    status: u16,
)
    ensures
        ({
            let new = intent_for(authority_id, revision, operation_id, fingerprint);
            &&& new.operation_id == operation_id
            &&& new.authority_id == authority_id
            &&& new.revision == revision
            &&& new.fingerprint == fingerprint
            &&& new.secret_ref == secret_name(authority_id, revision, operation_id)
            &&& new.phase == JournalPhase::Intent
            &&& new.status == 0
            &&& new.response is None
        }),
        ({
            let receipt = receipt_of(intent, status);
            &&& receipt.phase == JournalPhase::Receipt
            &&& receipt.status == status
            &&& receipt.response == Some(
                response_body(status, intent.authority_id, intent.revision),
            )
            &&& receipt == (JournalRecordView {
                phase: receipt.phase,
                status: receipt.status,
                response: receipt.response,
                ..intent
            })
            &&& entry_outcome(receipt) matches Ok(outcome) && outcome.status == status
        }),
        entry_outcome(intent) is Ok <==> intent.response is Some,
        entry_outcome(intent) matches Ok(outcome) ==> outcome.status == intent.status && Some(
            outcome.body,
        ) == intent.response,
{
}

/// The pointer of an intent names the secret, the revision and the operation of that intent, as
/// ready.
pub proof fn pointers_name_their_intents(intent: JournalRecordView, pointer: ActivePointerView)
    ensures
        ({
            let made = pointer_for(intent);
            &&& made.authority_id == intent.authority_id
            &&& made.revision == intent.revision
            &&& made.secret_ref == intent.secret_ref
            &&& made.operation_id == Some(intent.operation_id)
            &&& made.fingerprint == Some(intent.fingerprint)
            &&& made.response == response_body(200, intent.authority_id, intent.revision)
            &&& made.schema == "zode.controller-auth.pointer.v1"@
        }),
        points_to(pointer, intent) <==> {
            &&& pointer.authority_id == intent.authority_id
            &&& pointer.revision == intent.revision
            &&& pointer.secret_ref == intent.secret_ref
            &&& pointer.operation_id == Some(intent.operation_id)
            &&& pointer.fingerprint == Some(intent.fingerprint)
        },
{
}

/// A rotation is carried out exactly if its revision is higher than the one that is set and the one
/// that counts, or if its own pointer is set already. It goes on with the intent that was written,
/// or with a new one, which is then written first. A pointer that names the intent already is taken
/// up; otherwise a new one is to be set, with the revision, the operation and the request, and with
/// the secret of the intent.
pub proof fn higher_revisions_are_promoted(
    existing: Option<JournalRecordView>,
    pointer: Option<ActivePointerView>,
    input: RotationInputView,
    revision: u64,
    operation_id: Seq<char>,
    fingerprint: Seq<char>,
)
    ensures
        ({
            let plan = rotation_plan(
                existing,
                pointer,
                input,
                revision,
                operation_id,
                fingerprint,
            );
            let set = match pointer {
                Some(held) => held.revision,
                None => input.current_revision,
            };
            let foreign = pointer matches Some(held) && held.authority_id != input.authority_id;
            let own = pointer matches Some(held) && held.operation_id == Some(operation_id)
                && held.fingerprint == Some(fingerprint);
            let wanted = match existing {
                Some(record) => record,
                None => intent_for(input.authority_id, revision, operation_id, fingerprint),
            };
            &&& plan is Err <==> foreign
            &&& plan matches Err(error) ==> error == ControlRotationError::Internal
            &&& !foreign ==> ((plan matches Ok(held) && held is Promoted) <==> own
                || (revision > set
                && revision > input.current_revision))
            &&& plan matches Ok(RotationPlanView::Refused { intent, append }) ==> intent == wanted
                && append == (existing is None)
            &&& plan matches Ok(
                RotationPlanView::Promoted { intent, append, pointer: target, resumed },
            ) ==> {
                &&& intent == wanted
                &&& append == (existing is None)
                &&& resumed <==> (pointer matches Some(held) && points_to(held, wanted))
                &&& resumed ==> Some(target) == pointer
                &&& !resumed ==> {
                    &&& target.authority_id == input.authority_id
                    &&& target.revision == revision
                    &&& target.operation_id == Some(operation_id)
                    &&& target.fingerprint == Some(fingerprint)
                    &&& target.secret_ref == wanted.secret_ref
                    &&& target.response == response_body(200, input.authority_id, revision)
                    &&& target.schema == "zode.controller-auth.pointer.v1"@
                }
            }
        }),
{
}

/// A rotation whose pointer is set ends exactly if the journal holds the entry that the pointer
/// names and the secret that is stored is the one that was asked for. An entry that was answered
/// gives its answer; an intent gets the receipt of one that was done.
pub proof fn rotations_end_with_their_secret(
    pointer: ActivePointerView,
    latest: Option<JournalRecordView>,
    secret: Seq<u8>,
    candidate: Seq<u8>,
)
    ensures
        ({
            let end = finish_step(pointer, latest, secret, candidate);
            let named = latest matches Some(record) && points_to(pointer, record);
            &&& !named ==> end == Err::<RotationEndView, ControlRotationError>(
                ControlRotationError::Internal,
            )
            &&& named && secret != candidate ==> end == Err::<
                RotationEndView,
                ControlRotationError,
            >(ControlRotationError::Conflict)
            &&& named && secret == candidate && latest->0.phase == JournalPhase::Intent ==> (
            end matches Ok(RotationEndView::Receipt(receipt)) && {
                &&& receipt.status == 200
                &&& receipt.phase == JournalPhase::Receipt
                &&& receipt.operation_id == latest->0.operation_id
                &&& receipt.authority_id == latest->0.authority_id
                &&& receipt.revision == latest->0.revision
                &&& receipt.secret_ref == latest->0.secret_ref
            })
            &&& end matches Ok(RotationEndView::Answered(outcome)) ==> named && secret == candidate
                && latest->0.phase == JournalPhase::Receipt && outcome.status == latest->0.status
                && Some(outcome.body) == latest->0.response
        }),
{
}

/// After a restart, a pointer that an operation set must be marked as rotated, and only such a one.
/// Its intent is completed as done; the receipt of one that was done is kept; without an entry the
/// receipt is to be read; and nothing else fits together.
pub proof fn pointers_are_taken_up_again(
    pointer: ActivePointerView,
    rotated: bool,
    latest: Option<JournalRecordView>,
)
    ensures
        ({
            let task = pointer_task(pointer, rotated, latest);
            let set = pointer.operation_id is Some;
            &&& set != rotated ==> task is Err
            &&& !set && !rotated ==> (task is Ok <==> pointer.fingerprint is None)
            &&& (task matches Ok(held) && held is Settled) ==> !set && !rotated
            &&& set && rotated ==> match latest {
                None => task matches Ok(held) && held is ReadReceipt,
                Some(record) => {
                    &&& task is Ok <==> points_to(pointer, record) && (record.phase
                        == JournalPhase::Intent || record.status == 200)
                    &&& task matches Ok(PointerTaskView::Complete(receipt)) ==> record.phase
                        == JournalPhase::Intent && receipt.status == 200 && receipt.operation_id
                        == record.operation_id
                    &&& task matches Ok(PointerTaskView::Persist(receipt)) ==> record.phase
                        == JournalPhase::Receipt && receipt == record
                    &&& !(task matches Ok(PointerTaskView::ReadReceipt))
                },
            }
            &&& task matches Err(error) ==> error == ControlInitError::Invalid
        }),
{
}

/// After a restart, an intent without a receipt is settled if the pointer names it; refused if the
/// pointer has its revision or a higher one; and promoted otherwise, as it would have been.
pub proof fn intents_are_taken_up_again(
    record: JournalRecordView,
    current: Option<ActivePointerView>,
)
    ensures
        ({
            let task = intent_task(record, current);
            let named = current matches Some(pointer) && points_to(pointer, record);
            let late = current matches Some(pointer) && pointer.revision >= record.revision;
            &&& task is Settled <==> named
            &&& task is Refused <==> !named && late
            &&& task is Promoted <==> !named && !late
            &&& task matches IntentTaskView::Refused(receipt) ==> receipt.status == 409
                && receipt.operation_id == record.operation_id && receipt.phase
                == JournalPhase::Receipt
            &&& task matches IntentTaskView::Promoted { pointer, receipt } ==> {
                &&& pointer.secret_ref == record.secret_ref
                &&& pointer.revision == record.revision
                &&& pointer.authority_id == record.authority_id
                &&& pointer.operation_id == Some(record.operation_id)
                &&& pointer.fingerprint == Some(record.fingerprint)
                &&& receipt.status == 200
                &&& receipt.phase == JournalPhase::Receipt
                &&& receipt.operation_id == record.operation_id
            }
        }),
{
}

/// A request to rotate is taken exactly if it is of this version, for the authority that it came
/// for, with a revision that counts and a secret in an envelope that is short enough and a token. A
/// secret that is too large is told as such.
pub proof fn sound_rotations_are_taken(
    authority_id: Seq<char>,
    request: ControllerAuthRotationRequestView,
    most: usize,
    token_valid: bool,
)
    ensures
        ({
            let fault = rotation_request_fault(authority_id, request, most, token_valid);
            let described = request.schema == "zode.controller-auth.rotate.v1"@
                && request.authority_id == authority_id && request.secret.encoding
                == "application/zode-secret-envelope"@ && request.revision > 0;
            let large = byte_len(request.secret.payload) > most;
            &&& fault is None <==> described && !large && token_valid
            &&& fault == Some(ControlRotationError::PayloadTooLarge) <==> described && large
            &&& fault == Some(ControlRotationError::Invalid) <==> !described || (!large
                && !token_valid)
        }),
{
}

/// An entry of the journal is sound exactly if its ids are digests, it has an authority and a
/// revision, its secret is in the file of its own name, and it is an intent without an answer or a
/// receipt with the answer that goes with its status.
pub proof fn sound_entries_are_whole(record: JournalRecordView)
    ensures
        entry_allowed(record) <==> {
            &&& is_digest_text(record.operation_id)
            &&& is_digest_text(record.fingerprint)
            &&& record.authority_id.len() > 0
            &&& record.revision > 0
            &&& record.secret_ref == secret_name(
                record.authority_id,
                record.revision,
                record.operation_id,
            )
            &&& record.phase == JournalPhase::Intent ==> record.status == 0 && record.response
                is None
            &&& record.phase == JournalPhase::Receipt ==> (record.status == 200 || record.status
                == 409) && record.response == Some(
                response_body(record.status, record.authority_id, record.revision),
            )
        },
{
}

/// A digest is told with its kind and sixty-four hexadecimal digits.
pub proof fn digests_have_their_form(text: Seq<char>)
    ensures
        is_digest_text(text) ==> {
            &&& text.len() == 79
            &&& text.take(15) == "hmac-sha256:v1:"@
            &&& forall|i: int|
                15 <= i < 79 ==> ('0' <= #[trigger] text[i] <= '9' || 'a' <= text[i] <= 'f' || 'A'
                    <= text[i] <= 'F')
        },
{
    reveal_strlit("hmac-sha256:v1:");
    assert("hmac-sha256:v1:"@.len() == 15);
    if is_digest_text(text) {
        assert(text.take(15) =~= "hmac-sha256:v1:"@);
    }
}

/// The latest entry of an operation is its last one, and there is one exactly if the operation has
/// an entry.
pub proof fn latest_entry_is_the_last(records: Seq<JournalRecordView>, operation_id: Seq<char>)
    ensures
        latest_entry(records, operation_id) is None <==> forall|i: int|
            0 <= i < records.len() ==> (#[trigger] records[i]).operation_id != operation_id,
        latest_entry(records, operation_id) matches Some(record) ==> exists|i: int|
            0 <= i < records.len() && (#[trigger] records[i]) == record && record.operation_id
                == operation_id && (forall|j: int|
                i < j < records.len() ==> (#[trigger] records[j]).operation_id != operation_id),
    decreases records.len(),
{
    if records.len() > 0 {
        let front = records.drop_last();
        latest_entry_is_the_last(front, operation_id);
        assert(records[records.len() - 1] == records.last());
        if records.last().operation_id != operation_id {
            if latest_entry(front, operation_id) is None {
                assert forall|i: int| 0 <= i < records.len() implies (
                #[trigger] records[i]).operation_id != operation_id by {
                    if i < front.len() {
                        assert(front[i].operation_id != operation_id);
                    }
                }
            } else {
                let record = latest_entry(front, operation_id)->0;
                let i = choose|i: int|
                    0 <= i < front.len() && (#[trigger] front[i]) == record && record.operation_id
                        == operation_id && (forall|j: int|
                        i < j < front.len() ==> (#[trigger] front[j]).operation_id
                            != operation_id);
                assert(records[i] == record);
                assert forall|j: int| i < j < records.len() implies (
                #[trigger] records[j]).operation_id != operation_id by {
                    if j < front.len() {
                        assert(front[j].operation_id != operation_id);
                    }
                }
            }
        }
    }
}

/// An intent begins an operation, and a receipt with the same content ends it, once; nothing else
/// may be written to a journal. A journal is sound as long as every entry might be written when it
/// was.
pub proof fn journals_pair_intents_with_receipts(
    records: Seq<JournalRecordView>,
    record: JournalRecordView,
)
    ensures
        may_follow(records, record) <==> entry_allowed(record) && match latest_entry(
            records,
            record.operation_id,
        ) {
            None => record.phase == JournalPhase::Intent,
            Some(previous) => {
                &&& record.phase == JournalPhase::Receipt
                &&& previous.phase == JournalPhase::Intent
                &&& previous.operation_id == record.operation_id
                &&& previous.authority_id == record.authority_id
                &&& previous.revision == record.revision
                &&& previous.fingerprint == record.fingerprint
                &&& previous.secret_ref == record.secret_ref
            },
        },
        journal_allowed(records.push(record)) <==> journal_allowed(records) && may_follow(
            records,
            record,
        ),
        journal_allowed(Seq::empty()),
{
    assert(records.push(record).drop_last() =~= records);
}

/// The entries that wait are intents of operations whose latest entry is still an intent, and all
/// of those are among them.
pub proof fn pending_entries_wait(records: Seq<JournalRecordView>, record: JournalRecordView)
    ensures
        pending_entries(records).contains(record) <==> records.contains(record) && record.phase
            == JournalPhase::Intent && (latest_entry(
            records,
            record.operation_id,
        ) matches Some(latest) && latest.phase == JournalPhase::Intent),
{
    broadcast use vstd::seq_lib::group_filter_ensures;

    let keep = |held: JournalRecordView|
        held.phase == JournalPhase::Intent && is_unanswered(records, held.operation_id);
    let pending = pending_entries(records);
    assert(pending == records.filter(keep));
    if pending.contains(record) {
        let i = choose|i: int| 0 <= i < pending.len() && pending[i] == record;
        assert(keep(pending[i]));
        records.lemma_filter_contains_rev(keep, record);
    }
    if records.contains(record) && keep(record) {
        let i = choose|i: int| 0 <= i < records.len() && records[i] == record;
        assert(keep(records[i]));
        assert(records.filter(keep).contains(records[i]));
    }
}

/// The entries of an operation stay in the journal after its receipt exactly if it was done.
pub proof fn done_operations_are_kept(receipt: JournalRecordView)
    ensures
        kept_operation(receipt) == Some(receipt.operation_id) <==> receipt.status == 200,
        kept_operation(receipt) is None <==> receipt.status != 200,
{
}

/// Two receipts agree exactly if they are receipts of the same operation with the same content and
/// the same answer.
pub proof fn receipts_agree_by_content(left: JournalRecordView, right: JournalRecordView)
    ensures
        receipts_agree(left, right) <==> left == right && left.phase == JournalPhase::Receipt,
{
}

/// A pointer is sound exactly if it is of this version, in the file of its authority, with a
/// revision and the answer of one that is ready; and if it names the secret with which the
/// authority was set up, or the one of its operation.
pub proof fn sound_pointers_are_whole(pointer: ActivePointerView, file_name: Seq<char>)
    ensures
        pointer_allowed(pointer, file_name) <==> {
            &&& pointer.schema == "zode.controller-auth.pointer.v1"@
            &&& pointer.authority_id.len() > 0
            &&& pointer.revision > 0
            &&& file_name == pointer_name(pointer.authority_id)
            &&& pointer.response == response_body(200, pointer.authority_id, pointer.revision)
            &&& pointer.operation_id is Some == pointer.fingerprint is Some
            &&& pointer.operation_id is None ==> pointer.secret_ref == current_secret_name(
                pointer.authority_id,
                pointer.revision,
            )
            &&& pointer.operation_id matches Some(operation_id) ==> {
                &&& is_digest_text(operation_id)
                &&& is_digest_text(pointer.fingerprint->0)
                &&& pointer.secret_ref == secret_name(
                    pointer.authority_id,
                    pointer.revision,
                    operation_id,
                )
            }
        },
{
}

/// The secret of an authority that counts is the one of its pointer, if that is marked as rotated
/// when an operation set it and does not go back behind the configuration; without a pointer and
/// without a mark it is the one that the authority was set up with.
pub proof fn current_secrets_are_found(
    authority: InitializationAuthorityView,
    pointer: Option<ActivePointerView>,
    rotated: bool,
)
    ensures
        match pointer {
            Some(held) => {
                &&& authority_source(authority, pointer, rotated) is Some <==> (held.operation_id
                    is Some) == rotated && held.revision >= authority.revision
                &&& authority_source(authority, pointer, rotated) matches Some((revision, name))
                    ==> revision == held.revision && name == held.secret_ref
            },
            None => {
                &&& authority_source(authority, pointer, rotated) is Some <==> !rotated
                &&& authority_source(authority, pointer, rotated) matches Some((revision, name))
                    ==> revision == authority.revision && name == current_secret_name(
                    authority.authority_id,
                    authority.revision,
                )
            },
        },
{
}

/// Whether one of the authorities has the given name.
pub open spec fn is_among(
    authority_id: Seq<char>,
    authorities: Seq<InitializationAuthorityView>,
) -> bool {
    exists|j: int|
        0 <= j < authorities.len() && (#[trigger] authorities[j]).authority_id == authority_id
}

/// Secrets are set up only in a new place: where all is allowed and new, and nothing but the key is
/// there. Authorities have short names of their own and revisions that count; a secret is no
/// other's; and what was set up is found again as it was. A pointer belongs to one of the
/// authorities.
pub proof fn secrets_are_set_up_once(
    names: Seq<Seq<char>>,
    allow_create: bool,
    identity_created: bool,
    key_created: bool,
    fact: InitializationFactView,
    endpoint_id: Seq<char>,
    expected: Seq<InitializationAuthorityView>,
    most: usize,
    pointers: Seq<ActivePointerView>,
    secrets: Seq<Vec<u8>>,
    secret: Seq<u8>,
)
    ensures
        may_set_up(names, allow_create, identity_created, key_created) <==> allow_create
            && identity_created && key_created && (forall|i: int|
            0 <= i < names.len() ==> #[trigger] names[i] == "fingerprint.key"@),
        authorities_allowed(expected, most) ==> {
            &&& forall|i: int|
                0 <= i < expected.len() ==> (#[trigger] expected[i]).authority_id.len() > 0
                    && byte_len(expected[i].authority_id) <= most && expected[i].revision > 0
            &&& forall|i: int, j: int|
                0 <= i < expected.len() && 0 <= j < expected.len() && (
                #[trigger] expected[i]).authority_id == (#[trigger] expected[j]).authority_id
                    ==> i == j
        },
        initialization_allowed(fact, endpoint_id, expected, most) <==> {
            &&& fact.schema == "zode.controller-auth.initialization.v1"@
            &&& fact.endpoint_id == endpoint_id
            &&& endpoint_id.len() > 0
            &&& byte_len(endpoint_id) <= most
            &&& fact.authorities == expected
        },
        pointers_expected(pointers, expected) ==> forall|i: int|
            0 <= i < pointers.len() ==> is_among(
                (#[trigger] pointers[i]).authority_id,
                expected,
            ),
        pointers.len() > expected.len() ==> !pointers_expected(pointers, expected),
        is_new_secret(secrets, secret) <==> !(exists|i: int|
            0 <= i < secrets.len() && (#[trigger] secrets[i])@ == secret),
{
    assert forall|i: int, j: int|
        authorities_allowed(expected, most) && 0 <= i < expected.len() && 0 <= j < expected.len()
            && (#[trigger] expected[i]).authority_id == (
        #[trigger] expected[j]).authority_id implies i == j by {
        if i < j {
            assert(expected[i].authority_id != expected[j].authority_id);
        } else if j < i {
            assert(expected[j].authority_id != expected[i].authority_id);
        }
    }
    if pointers_expected(pointers, expected) {
        assert forall|i: int| 0 <= i < pointers.len() implies is_among(
            (#[trigger] pointers[i]).authority_id,
            expected,
        ) by {
            assert(authority_expected(expected, pointers[i].authority_id));
        }
    }
}

/// A secret is kept as long as a pointer names it, or an intent that has no receipt yet.
pub proof fn needed_secrets_are_kept(
    name: Seq<char>,
    pointers: Seq<ActivePointerView>,
    records: Seq<JournalRecordView>,
    index: int,
)
    ensures
        0 <= index < pointers.len() && pointers[index].secret_ref == name ==> secret_needed(
            name,
            pointers,
            records,
        ),
        0 <= index < records.len() && records[index].secret_ref == name && records[index].phase
            == JournalPhase::Intent && latest_entry(records, records[index].operation_id) == Some(
            records[index],
        ) ==> secret_needed(name, pointers, records),
        (forall|i: int| 0 <= i < pointers.len() ==> (#[trigger] pointers[i]).secret_ref != name)
            && (forall|i: int|
            0 <= i < records.len() && (#[trigger] records[i]).secret_ref == name ==> latest_entry(
                records,
                records[i].operation_id,
            ) != Some(records[i]) || records[i].phase == JournalPhase::Receipt) ==> !secret_needed(
            name,
            pointers,
            records,
        ),
{
}

/// Each step of a rotation goes on to the next one with what came of it: nothing is passed over,
/// and what is handed on is what was decided.
pub proof fn rotation_steps_follow(flow: RotationFlowView)
    ensures
        root_seen_step(
            RotationFlowView { phase: RotationPhaseView::AdmitRoot, ..flow },
            Ok(flow.admitted),
        ).1 == RotationActionView::LoadReceipt,
        flow.phase matches RotationPhaseView::Stage { intent, append, pointer, resumed } ==> {
            secret_staged_step(flow, Ok(())).1 == if append {
                RotationActionView::AppendIntent(intent)
            } else if resumed {
                RotationActionView::ReadMarker
            } else {
                RotationActionView::SetMarker
            }
        },
        flow.phase matches RotationPhaseView::AppendIntent { pointer, resumed } ==> {
            intent_appended_step(flow, Ok(())).1 == if resumed {
                RotationActionView::ReadMarker
            } else {
                RotationActionView::SetMarker
            }
        },
        flow.phase matches RotationPhaseView::ReadMarker(pointer) ==> {
            &&& marker_read_step(flow, Ok(true)).1 == RotationActionView::ReadSecret(
                pointer.secret_ref,
            )
            &&& marker_read_step(flow, Ok(false)).1 == RotationActionView::Fail(
                ControlRotationError::Internal,
            )
        },
        flow.phase is SetMarker ==> marker_set_step(flow, Ok(())).1 == RotationActionView::Fence,
        flow.phase matches RotationPhaseView::Fence(pointer) ==> fenced_step(flow, Ok(())).1
            == RotationActionView::PromotePointer(pointer),
        flow.phase matches RotationPhaseView::LateFence(receipt) ==> fenced_step(flow, Ok(()))
            == (
            RotationFlowView { phase: RotationPhaseView::Tell(receipt), ..flow },
            RotationActionView::TellPromoted,
        ),
        flow.phase is Promote ==> pointer_promoted_step(flow, Ok(())).1
            == RotationActionView::CheckRoot,
        flow.phase matches RotationPhaseView::ConfirmPromoted(pointer) ==> root_seen_step(
            flow,
            Ok(flow.admitted),
        ).1 == RotationActionView::ReadSecret(pointer.secret_ref),
        flow.phase matches RotationPhaseView::Tell(receipt) ==> promotion_told_step(
            flow,
            Ok(()),
        ).1 == RotationActionView::WriteReceipt(receipt),
        flow.phase matches RotationPhaseView::WriteReceipt(receipt) ==> {
            &&& receipt.status == 200 ==> receipt_written_step(flow, Ok(())).1
                == RotationActionView::CheckRoot
            &&& receipt.status != 200 ==> (receipt.response matches Some(body)
                ==> receipt_written_step(flow, Ok(())).1 == RotationActionView::Answer(
                RotationOutcomeView { status: receipt.status, body },
            ))
        },
        flow.phase matches RotationPhaseView::ConfirmAnswered(receipt) ==> (
        receipt.response matches Some(body) ==> root_seen_step(flow, Ok(flow.admitted)).1
            == RotationActionView::Answer(RotationOutcomeView { status: receipt.status, body })),
{
}

/// The pointer of the authority decides how a rotation goes on: one that is refused gets the
/// receipt of a conflict, once its intent is written; another stores its secret first.
pub proof fn planned_rotation_goes_on(
    flow: RotationFlowView,
    existing: Option<JournalRecordView>,
    pointer: Option<ActivePointerView>,
)
    requires
        flow.phase == RotationPhaseView::LoadPointer(existing),
    ensures
        ({
            let plan = rotation_plan(
                existing,
                pointer,
                flow.input,
                flow.revision,
                flow.operation_id,
                flow.fingerprint,
            );
            let (next, action) = pointer_loaded_step(flow, Ok(pointer));
            match plan {
                Err(error) => action == RotationActionView::Fail(error),
                Ok(RotationPlanView::Refused { intent, append }) => {
                    &&& append ==> action == RotationActionView::AppendIntent(intent) && (
                    intent.phase == JournalPhase::Intent ==> intent_appended_step(next, Ok(())).1
                        == RotationActionView::WriteReceipt(receipt_of(intent, 409)))
                    &&& !append && intent.phase == JournalPhase::Intent ==> action
                        == RotationActionView::WriteReceipt(receipt_of(intent, 409))
                },
                Ok(RotationPlanView::Promoted { intent, append, pointer: target, resumed }) => {
                    &&& action == RotationActionView::StageSecret(intent.secret_ref)
                    &&& next.phase == (RotationPhaseView::Stage {
                        intent,
                        append,
                        pointer: target,
                        resumed,
                    })
                },
            }
        }),
{
}

/// What was answered is answered again at the start of a rotation, and what is new goes on to the
/// pointer with the entry that was found.
pub proof fn known_rotation_is_answered(
    flow: RotationFlowView,
    receipt: Option<JournalRecordView>,
    existing: Option<JournalRecordView>,
)
    requires
        flow.phase is LoadReceipt,
    ensures
        receipt_loaded_step(flow, Ok(receipt), existing) == match replay_step(
            receipt,
            existing,
            flow.fingerprint,
        ) {
            Ok(Some(outcome)) => (
                RotationFlowView { phase: RotationPhaseView::Ended, ..flow },
                RotationActionView::Answer(outcome),
            ),
            Ok(None) => (
                RotationFlowView { phase: RotationPhaseView::LoadPointer(existing), ..flow },
                RotationActionView::LoadPointer,
            ),
            Err(error) => (
                RotationFlowView { phase: RotationPhaseView::Ended, ..flow },
                RotationActionView::Fail(error),
            ),
        },
{
}

/// The secret that the pointer names decides how a rotation ends: it is told once others are kept
/// from the old one, which is made sure of now where it was not before.
pub proof fn promoted_rotation_goes_on(
    flow: RotationFlowView,
    pointer: ActivePointerView,
    fenced: bool,
    secret: Seq<u8>,
    latest: Option<JournalRecordView>,
)
    requires
        flow.phase == (RotationPhaseView::ReadSecret { pointer, fenced }),
    ensures
        ({
            let (next, action) = secret_read_step(flow, Ok(secret), latest);
            match finish_step(pointer, latest, secret, flow.candidate) {
                Ok(RotationEndView::Answered(outcome)) => action == RotationActionView::Answer(
                    outcome,
                ),
                Ok(RotationEndView::Receipt(receipt)) => if fenced {
                    action == RotationActionView::TellPromoted && next.phase
                        == RotationPhaseView::Tell(receipt)
                } else {
                    action == RotationActionView::Fence && next.phase
                        == RotationPhaseView::LateFence(receipt)
                },
                Err(error) => action == RotationActionView::Fail(error),
            }
        }),
{
}

/// What cannot be done ends a rotation with that error.
pub proof fn rotation_fails_by_its_error(flow: RotationFlowView, error: ControlRotationError)
    ensures
        flow.phase is LoadReceipt ==> receipt_loaded_step(flow, Err(error), None).1
            == RotationActionView::Fail(error),
        flow.phase is LoadPointer ==> pointer_loaded_step(flow, Err(error)).1
            == RotationActionView::Fail(error),
        flow.phase is Stage ==> secret_staged_step(flow, Err(error)).1 == RotationActionView::Fail(
            error,
        ),
        flow.phase is AppendIntent || flow.phase is AppendRefused ==> intent_appended_step(
            flow,
            Err(error),
        ).1 == RotationActionView::Fail(error),
        flow.phase is ReadMarker ==> marker_read_step(flow, Err(error)).1
            == RotationActionView::Fail(error),
        flow.phase is SetMarker ==> marker_set_step(flow, Err(error)).1 == RotationActionView::Fail(
            error,
        ),
        flow.phase is Fence || flow.phase is LateFence ==> fenced_step(flow, Err(error)).1
            == RotationActionView::Fail(error),
        flow.phase is Promote ==> pointer_promoted_step(flow, Err(error)).1
            == RotationActionView::Fail(error),
        flow.phase is ReadSecret ==> secret_read_step(flow, Err(error), None).1
            == RotationActionView::Fail(error),
        flow.phase is Tell ==> promotion_told_step(flow, Err(error)).1 == RotationActionView::Fail(
            error,
        ),
        flow.phase is WriteReceipt ==> receipt_written_step(flow, Err(error)).1
            == RotationActionView::Fail(error),
{
}

/// A rotation is answered with its authority, its revision and that it is ready, or with that it is
/// a conflict, under the schema.
pub proof fn answers_tell_what_came_of_it(status: u16, authority_id: Seq<char>, revision: u64)
    ensures
        response_body(200, authority_id, revision) == object_text(
            seq![
                ("schema"@, JsonView::Text("zode.controller-auth.v1"@)),
                ("authority_id"@, JsonView::Text(authority_id)),
                ("revision"@, JsonView::Integer(revision as int)),
                ("status"@, JsonView::Text("ready"@)),
            ],
        ),
        status != 200 ==> response_body(status, authority_id, revision) == object_text(
            seq![
                ("schema"@, JsonView::Text("zode.controller-auth.v1"@)),
                ("status"@, JsonView::Text("conflict"@)),
            ],
        ),
{
}

/// An authority that was never rotated counts as pointing to the secret that it was set up with, as
/// no operation left it.
pub proof fn first_pointer_is_the_set_up_one(
    pointer: Option<ActivePointerView>,
    input: RotationInputView,
)
    ensures
        pointer matches Some(held) ==> current_pointer(pointer, input) == held,
        pointer is None ==> {
            let first = current_pointer(pointer, input);
            &&& first.schema == "zode.controller-auth.pointer.v1"@
            &&& first.authority_id == input.authority_id
            &&& first.revision == input.current_revision
            &&& first.operation_id is None
            &&& first.fingerprint is None
            &&& first.secret_ref == current_secret_name(input.authority_id, input.current_revision)
            &&& first.response == response_body(200, input.authority_id, input.current_revision)
        },
{
}

/// Authorities can be set up exactly if each has a name in the bound and a revision that counts,
/// and no two have the same name.
pub proof fn authorities_are_sound(specs: Seq<InitializationAuthorityView>, most: usize)
    ensures
        authorities_allowed(specs, most) <==> {
            &&& forall|i: int|
                0 <= i < specs.len() ==> (#[trigger] specs[i]).authority_id.len() > 0 && byte_len(
                    specs[i].authority_id,
                ) <= most && specs[i].revision >= 1
            &&& forall|i: int, j: int|
                0 <= i < specs.len() && 0 <= j < specs.len() && (#[trigger] specs[i]).authority_id
                    == (#[trigger] specs[j]).authority_id ==> i == j
        },
{
}

/// A text of the right length, with the kind and hexadecimal digits, has the form of a digest.
pub proof fn digests_are_told_by_their_form(text: Seq<char>)
    requires
        text.len() == 79,
        text.take(15) == "hmac-sha256:v1:"@,
        forall|i: int|
            15 <= i < 79 ==> ('0' <= #[trigger] text[i] <= '9' || 'a' <= text[i] <= 'f' || 'A'
                <= text[i] <= 'F'),
    ensures
        is_digest_text(text),
{
    reveal_strlit("hmac-sha256:v1:");
    assert("hmac-sha256:v1:"@.len() == 15);
    assert(text.subrange(0, 15) =~= text.take(15));
}

} // verus!
