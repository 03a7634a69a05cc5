//! The rotation of controller secrets, and the identity of the endpoint.

use zode::control::flow::{RotationAction, RotationFlow};
use zode::control::lines::{journal_lines, journal_tail, mended_journal, JournalTail};
use zode::control::rotation::{
    check_first_secret, check_pointers, check_staged_secret, check_unclaimed, complete_receipt,
    confirm_pointer, confirm_receipt, current_authority, expected_current_secret_ref,
    expected_secret_ref, finish_rotation, initial_authorities, is_orphan_secret, key_source,
    marks_rotation, names_pointer, operation_to_keep, outcome_for_record, plan_rotation,
    pointer_file_name, reconcile_intent, reconcile_pointer, replay_rotation, response_for,
    rotation_fingerprint, rotation_marker_file_name, rotation_operation_id,
    rotation_receipt_file_name, secret_is_needed, validate_history, validate_initialization,
    validate_pointer, validate_receipt, validate_request, ActivePointer, ControlRotationError,
    ControllerAuthRotationRequest, InitializationAuthority, InitializationFact, IntentTask,
    JournalPhase, JournalRecord, KeySource, PointerTask, RotationEnd, RotationInput,
    RotationJournal, RotationPlan, RotationSecret, ROTATION_MARKER,
};
use zode::control::{
    accept_identity, check_root, identity_source, ControlInitError, DirectoryIdentity,
    IdentitySource,
};

const AUTHORITY_KEY: &str = "8f76fd501bb68ef71f4e276bc28f29bce1003b0c2c9d9478de81b5bfc0cde1e9";

fn operation() -> String {
    rotation_operation_id(&[0u8; 32], "authority", "subject", "key")
}

fn fingerprint() -> String {
    rotation_fingerprint(&[0u8; 32], b"request")
}

fn input(current_revision: u64) -> RotationInput {
    RotationInput {
        authority_id: "authority".to_string(),
        subject: "subject".to_string(),
        idempotency_key: "key".to_string(),
        current_revision,
    }
}

fn plan(
    existing: Option<&JournalRecord>,
    pointer: Option<ActivePointer>,
    revision: u64,
) -> Result<RotationPlan, ControlRotationError> {
    plan_rotation(existing, pointer, &input(1), revision, &operation(), &fingerprint())
}

fn promoted(revision: u64) -> (JournalRecord, ActivePointer) {
    match plan(None, None, revision) {
        Ok(RotationPlan::Promoted { intent, append: true, pointer, resumed: false }) => {
            (intent, pointer)
        }
        other => panic!("not promoted: {:?}", other),
    }
}

const HOME: DirectoryIdentity = DirectoryIdentity { device: 1, inode: 7 };

const ELSEWHERE: DirectoryIdentity = DirectoryIdentity { device: 1, inode: 8 };

fn new_flow(current_revision: u64) -> RotationFlow {
    let candidate = b"new".to_vec();
    RotationFlow::new(HOME, input(current_revision), 2, operation(), fingerprint(), candidate)
}

fn begun(current_revision: u64) -> RotationFlow {
    let (flow, action) = new_flow(current_revision).root_seen(Ok(HOME));
    assert_eq!(action, RotationAction::LoadReceipt);
    flow
}

fn authority(id: &str, revision: u64) -> InitializationAuthority {
    InitializationAuthority { authority_id: id.to_string(), revision }
}

#[test]
fn names_are_made_of_digests() {
    assert_eq!(pointer_file_name("authority"), format!("active-{}.manifest", AUTHORITY_KEY));
    assert_eq!(
        rotation_marker_file_name("authority"),
        format!("rotated-{}.marker", AUTHORITY_KEY)
    );
    assert_eq!(
        rotation_receipt_file_name("authority"),
        format!("receipt-{}.json", AUTHORITY_KEY)
    );
    assert_eq!(
        expected_current_secret_ref("authority", 12),
        format!("current-{}-12.secret", AUTHORITY_KEY)
    );
    assert!(expected_secret_ref("authority", 12, "operation")
        .starts_with(&format!("secret-{}-12-", AUTHORITY_KEY)));
    assert_eq!(
        operation(),
        "hmac-sha256:v1:ca54728ac6e02d8b68d93d8bd197ef3a5668bac1c6cbe05c1ff1a46fae27ff78"
    );
    assert_eq!(
        fingerprint(),
        "hmac-sha256:v1:86435b52a44b52f9806a03033472def344bf707eb0a241cef9f36c5d2666acff"
    );
}

#[test]
fn answers_have_a_fixed_form() {
    assert_eq!(
        response_for(200, "authority", 3),
        "{\"schema\":\"zode.controller-auth.v1\",\"authority_id\":\"authority\",\
         \"revision\":3,\"status\":\"ready\"}"
    );
    assert_eq!(
        response_for(409, "authority", 3),
        "{\"schema\":\"zode.controller-auth.v1\",\"status\":\"conflict\"}"
    );
}

#[test]
fn a_rotation_goes_from_intent_to_receipt() {
    let (intent, pointer) = promoted(2);
    assert_eq!(intent.phase, JournalPhase::Intent);
    assert_eq!(pointer.revision, 2);
    assert_eq!(validate_pointer(&pointer, &pointer_file_name("authority")), Ok(()));
    assert_eq!(
        validate_pointer(&pointer, &pointer_file_name("other")),
        Err(ControlInitError::Invalid)
    );
    let mut journal = RotationJournal::open(vec![]).ok().unwrap();
    assert_eq!(journal.append_record(intent.clone()), Ok(()));
    assert_eq!(journal.append_record(intent.clone()), Err(ControlInitError::Invalid));
    let receipt = match finish_rotation(&pointer, journal.latest_for(&operation()), b"a", b"a") {
        Ok(RotationEnd::Receipt(receipt)) => receipt,
        other => panic!("no receipt: {:?}", other),
    };
    assert_eq!(receipt, complete_receipt(&intent, 200).unwrap());
    assert_eq!(validate_receipt(&receipt, &operation(), "authority"), Ok(()));
    assert_eq!(
        validate_receipt(&receipt, &operation(), "other"),
        Err(ControlInitError::Invalid)
    );
    assert_eq!(journal.append_record(receipt.clone()), Ok(()));
    assert_eq!(journal.append_record(receipt.clone()), Err(ControlInitError::Invalid));
    let outcome = outcome_for_record(&receipt).unwrap();
    assert_eq!(outcome.status, 200);
    assert_eq!(outcome.body, response_for(200, "authority", 2));
    assert_eq!(
        replay_rotation(None, journal.latest_for(&operation()), &fingerprint()),
        Ok(Some(outcome.clone()))
    );
    assert_eq!(replay_rotation(Some(&receipt), None, &fingerprint()), Ok(Some(outcome)));
    assert_eq!(
        replay_rotation(Some(&receipt), None, "other"),
        Err(ControlRotationError::Conflict)
    );
    assert_eq!(validate_history(journal.records()), Ok(()));
    assert_eq!(
        validate_history(&vec![receipt.clone()]),
        Err(ControlInitError::Invalid)
    );
    assert_eq!(confirm_receipt(&receipt, &receipt), Ok(()));
    assert!(confirm_receipt(&receipt, &complete_receipt(&intent, 409).unwrap()).is_err());
}

#[test]
fn a_rotation_goes_step_by_step() {
    let start = || begun(1).receipt_loaded(Ok(None), None);
    let (flow, action) = start();
    assert_eq!(action, RotationAction::LoadPointer);
    let (intent, pointer) = promoted(2);
    let (flow, action) = flow.pointer_loaded(Ok(None));
    assert_eq!(action, RotationAction::StageSecret(intent.secret_ref.clone()));
    let (flow, action) = flow.secret_staged(Ok(()));
    assert_eq!(action, RotationAction::AppendIntent(intent.clone()));
    let (flow, action) = flow.intent_appended(Ok(()));
    assert_eq!(action, RotationAction::SetMarker);
    let (flow, action) = flow.marker_set(Ok(()));
    assert_eq!(action, RotationAction::Fence);
    let (flow, action) = flow.fenced(Ok(()));
    assert_eq!(action, RotationAction::PromotePointer(pointer.clone()));
    let (flow, action) = flow.pointer_promoted(Ok(()));
    assert_eq!(action, RotationAction::CheckRoot);
    let (flow, action) = flow.root_seen(Ok(HOME));
    assert_eq!(action, RotationAction::ReadSecret(intent.secret_ref.clone()));
    let (flow, action) = flow.secret_read(Ok(b"new".to_vec()), Some(intent.clone()));
    assert_eq!(action, RotationAction::TellPromoted);
    let (flow, action) = flow.promotion_told(Ok(()));
    let receipt = complete_receipt(&intent, 200).unwrap();
    assert_eq!(action, RotationAction::WriteReceipt(receipt.clone()));
    assert!(flow.done.staged && flow.done.journaled && flow.done.marked && flow.done.promoted);
    let (flow, action) = flow.receipt_written(Ok(()));
    assert_eq!(action, RotationAction::CheckRoot);
    let (_, action) = flow.root_seen(Ok(HOME));
    let answer = RotationAction::Answer(outcome_for_record(&receipt).unwrap());
    assert_eq!(action, answer);

    let again = begun(1);
    assert_eq!(again.receipt_loaded(Ok(Some(receipt)), None).1, answer);

    let (flow, _) = start();
    let (flow, _) = flow.pointer_loaded(Ok(Some(pointer)));
    let (flow, _) = flow.secret_staged(Ok(()));
    let (flow, action) = flow.intent_appended(Ok(()));
    assert_eq!(action, RotationAction::ReadMarker);
    let (flow, _) = flow.marker_read(Ok(true));
    let (flow, action) = flow.secret_read(Ok(b"new".to_vec()), Some(intent));
    assert_eq!(action, RotationAction::Fence);
    assert_eq!(flow.fenced(Ok(())).1, RotationAction::TellPromoted);
}

#[test]
fn a_rotation_that_is_refused_sets_no_pointer() {
    let flow = begun(2);
    let (flow, _) = flow.receipt_loaded(Ok(None), None);
    let (flow, action) = flow.pointer_loaded(Ok(None));
    assert!(matches!(action, RotationAction::AppendIntent(_)));
    let (flow, action) = flow.intent_appended(Ok(()));
    match action {
        RotationAction::WriteReceipt(receipt) => assert_eq!(receipt.status, 409),
        other => panic!("not refused: {:?}", other),
    }
    assert!(!flow.done.promoted);
    match flow.receipt_written(Ok(())).1 {
        RotationAction::Answer(outcome) => assert_eq!(outcome.status, 409),
        other => panic!("not answered: {:?}", other),
    }
    let flow = begun(1);
    assert_eq!(
        flow.receipt_loaded(Err(ControlRotationError::Internal), None).1,
        RotationAction::Fail(ControlRotationError::Internal)
    );
    let flow = begun(1);
    assert_eq!(
        flow.marker_set(Ok(())).1,
        RotationAction::Fail(ControlRotationError::Internal)
    );
}

#[test]
fn a_rotation_does_not_go_back() {
    match plan(None, None, 1) {
        Ok(RotationPlan::Refused { intent, append: true }) => {
            let receipt = complete_receipt(&intent, 409).unwrap();
            assert_eq!(receipt.response, Some(response_for(409, "authority", 1)));
        }
        other => panic!("not refused: {:?}", other),
    }
    let (_, pointer) = promoted(5);
    let mut elsewhere = pointer.clone();
    elsewhere.operation_id = Some("other".to_string());
    assert!(matches!(
        plan(None, Some(elsewhere), 5),
        Ok(RotationPlan::Refused { .. })
    ));
    assert!(matches!(
        plan(None, Some(pointer.clone()), 5),
        Ok(RotationPlan::Promoted { resumed: true, .. })
    ));
    let mut foreign = pointer;
    foreign.authority_id = "other".to_string();
    assert_eq!(plan(None, Some(foreign), 6), Err(ControlRotationError::Internal));
}

#[test]
fn secrets_are_compared_before_a_rotation_ends() {
    assert_eq!(check_staged_secret(b"abc", b"abc"), Ok(()));
    assert_eq!(check_staged_secret(b"abc", b"abd"), Err(ControlRotationError::Conflict));
    assert_eq!(check_staged_secret(b"abc", b"ab"), Err(ControlRotationError::Conflict));
    let (intent, pointer) = promoted(2);
    assert_eq!(
        finish_rotation(&pointer, Some(&intent), b"a", b"b"),
        Err(ControlRotationError::Conflict)
    );
    assert_eq!(
        finish_rotation(&pointer, None, b"a", b"a"),
        Err(ControlRotationError::Internal)
    );
}

#[test]
fn a_restart_finishes_what_was_begun() {
    let (intent, pointer) = promoted(2);
    let receipt = complete_receipt(&intent, 200).unwrap();
    assert_eq!(
        reconcile_pointer(&pointer, true, Some(&intent)),
        Ok(PointerTask::Complete(receipt.clone()))
    );
    assert_eq!(
        reconcile_pointer(&pointer, true, Some(&receipt)),
        Ok(PointerTask::Persist(receipt.clone()))
    );
    assert_eq!(reconcile_pointer(&pointer, true, None), Ok(PointerTask::ReadReceipt));
    assert_eq!(reconcile_pointer(&pointer, false, None), Err(ControlInitError::Invalid));
    assert_eq!(confirm_pointer(&pointer, Some(&receipt)), Ok(()));
    assert_eq!(confirm_pointer(&pointer, None), Err(ControlInitError::Invalid));
    assert_eq!(reconcile_intent(&intent, Some(&pointer)), IntentTask::Settled);
    assert_eq!(
        reconcile_intent(&intent, None),
        IntentTask::Promoted { pointer: pointer.clone(), receipt }
    );
    let mut later = pointer;
    later.operation_id = Some("other".to_string());
    assert_eq!(
        reconcile_intent(&intent, Some(&later)),
        IntentTask::Refused(complete_receipt(&intent, 409).unwrap())
    );
}

#[test]
fn compaction_keeps_what_is_pending() {
    let (first, _) = promoted(2);
    let receipt = complete_receipt(&first, 200).unwrap();
    let other = match plan_rotation(
        None,
        None,
        &input(1),
        3,
        &rotation_operation_id(&[0u8; 32], "authority", "subject", "other"),
        &fingerprint(),
    ) {
        Ok(RotationPlan::Promoted { intent, .. }) => intent,
        other => panic!("not promoted: {:?}", other),
    };
    let journal =
        RotationJournal::open(vec![first.clone(), receipt.clone(), other.clone()]).ok().unwrap();
    assert_eq!(journal.compact(None).records(), &vec![other.clone()]);
    assert_eq!(
        journal.compact(Some(&operation())).records(),
        &vec![first.clone(), receipt, other.clone()]
    );
    assert!(secret_is_needed(&other.secret_ref, &vec![], &journal));
    assert!(!secret_is_needed(&first.secret_ref, &vec![], &journal));
    let (_, pointer) = promoted(2);
    assert!(secret_is_needed(&first.secret_ref, &vec![pointer], &journal));
}

#[test]
fn a_rotation_request_is_checked() {
    let request = |schema: &str, revision: u64, payload: &str| ControllerAuthRotationRequest {
        schema: schema.to_string(),
        authority_id: "authority".to_string(),
        revision,
        secret: RotationSecret {
            encoding: "application/zode-secret-envelope".to_string(),
            payload: payload.to_string(),
        },
    };
    let good = request("zode.controller-auth.rotate.v1", 2, "token");
    assert_eq!(validate_request("authority", &good, 5, true), Ok(()));
    assert_eq!(
        validate_request("authority", &good, 4, true),
        Err(ControlRotationError::PayloadTooLarge)
    );
    assert_eq!(
        validate_request("authority", &good, 5, false),
        Err(ControlRotationError::Invalid)
    );
    assert_eq!(validate_request("other", &good, 5, true), Err(ControlRotationError::Invalid));
    for bad in [
        request("other", 2, "token"),
        request("zode.controller-auth.rotate.v1", 0, "token"),
    ] {
        assert_eq!(validate_request("authority", &bad, 5, true), Err(ControlRotationError::Invalid));
    }
}

#[test]
fn authorities_are_initialized_once() {
    let known = initial_authorities(&vec![authority("b", 1), authority("a", 2)], 64).unwrap();
    assert_eq!(known, vec![authority("a", 2), authority("b", 1)]);
    for bad in [
        vec![authority("a", 1), authority("a", 2)],
        vec![authority("", 1)],
        vec![authority("a", 0)],
        vec![authority("abcde", 1)],
    ] {
        assert_eq!(initial_authorities(&bad, 4), Err(ControlInitError::Invalid));
    }
    let fact = InitializationFact {
        schema: "zode.controller-auth.initialization.v1".to_string(),
        endpoint_id: "endpoint".to_string(),
        authorities: known.clone(),
    };
    assert_eq!(validate_initialization(&fact, "endpoint", &known, 64), Ok(()));
    assert_eq!(
        validate_initialization(&fact, "other", &known, 64),
        Err(ControlInitError::Invalid)
    );
    assert_eq!(
        validate_initialization(&fact, "endpoint", &vec![authority("a", 2)], 64),
        Err(ControlInitError::Invalid)
    );
}

#[test]
fn secrets_are_set_up_in_a_new_place() {
    let names = |list: &[&str]| list.iter().map(|name| name.to_string()).collect::<Vec<String>>();
    let key = names(&["fingerprint.key"]);
    assert_eq!(check_unclaimed(&key, true, true, true), Ok(()));
    assert_eq!(check_unclaimed(&names(&[]), true, true, true), Ok(()));
    assert_eq!(check_unclaimed(&key, true, false, true), Err(ControlInitError::Invalid));
    assert_eq!(check_unclaimed(&key, false, true, true), Err(ControlInitError::Invalid));
    assert_eq!(check_unclaimed(&key, true, true, false), Err(ControlInitError::Invalid));
    let claimed = names(&["fingerprint.key", "operations.jsonl"]);
    assert_eq!(check_unclaimed(&claimed, true, true, true), Err(ControlInitError::Invalid));
    let secrets = vec![b"one".to_vec()];
    assert_eq!(check_first_secret(&secrets, b"two", true), Ok(()));
    assert_eq!(check_first_secret(&secrets, b"one", true), Err(ControlInitError::Invalid));
    assert_eq!(check_first_secret(&secrets, b"two", false), Err(ControlInitError::Invalid));
}

#[test]
fn a_pointer_gives_the_current_secret() {
    let (_, pointer) = promoted(4);
    assert_eq!(
        current_authority(&authority("authority", 1), Some(&pointer), true),
        Ok((4, pointer.secret_ref.clone()))
    );
    assert_eq!(
        current_authority(&authority("authority", 1), None, false),
        Ok((1, expected_current_secret_ref("authority", 1)))
    );
    assert_eq!(
        current_authority(&authority("authority", 1), None, true),
        Err(ControlInitError::Invalid)
    );
    assert_eq!(
        current_authority(&authority("authority", 5), Some(&pointer), true),
        Err(ControlInitError::Invalid)
    );
    assert_eq!(check_pointers(&vec![pointer.clone()], &vec![authority("authority", 1)]), Ok(()));
    assert_eq!(
        check_pointers(&vec![pointer], &vec![authority("other", 1)]),
        Err(ControlInitError::Invalid)
    );
}

#[test]
fn a_journal_is_read_by_lines() {
    let lines = journal_lines(b"ab\n\ncd\ne");
    assert_eq!(lines.ended, vec![(0, 2), (4, 6)]);
    assert_eq!(lines.open_from, 7);
    let whole = journal_lines(b"ab\n");
    assert_eq!(whole.ended, vec![(0, 2)]);
    assert_eq!(whole.open_from, 3);
}

#[test]
fn an_identity_is_a_ulid() {
    let id = "01ARZ3NDEKTSV4RRFFQ69G5FAV";
    assert_eq!(accept_identity(id.as_bytes().to_vec()), Ok(id.to_string()));
    for bad in ["01ARZ3NDEKTSV4RRFFQ69G5FA", "01ARZ3NDEKTSV4RRFFQ69G5FA!", ""] {
        assert_eq!(accept_identity(bad.as_bytes().to_vec()), Err(ControlInitError::Invalid));
    }
    assert_eq!(accept_identity(vec![0xff; 26]), Err(ControlInitError::Invalid));
    assert_eq!(
        identity_source(Some(id.to_string()), false),
        Ok(IdentitySource::Known(id.to_string()))
    );
    assert_eq!(identity_source(None, true), Ok(IdentitySource::Created));
    assert_eq!(identity_source(None, false), Err(ControlInitError::Invalid));
}

#[test]
fn a_journal_ends_closed_whole_or_torn() {
    assert_eq!(journal_tail(&b"".to_vec()), JournalTail::Closed);
    assert_eq!(journal_tail(&b"{}\n".to_vec()), JournalTail::Closed);
    assert_eq!(journal_tail(&b"{}\n{\"a\":1}".to_vec()), JournalTail::Whole);
    assert_eq!(journal_tail(&b"{}\n{\"a\":".to_vec()), JournalTail::Torn);
    assert_eq!(journal_tail(&vec![b'"', 0xff, b'"']), JournalTail::Torn);
}

#[test]
fn the_end_of_a_journal_is_mended() {
    assert_eq!(mended_journal(&b"{}\n".to_vec()), None);
    let whole = mended_journal(&b"{}\n[1]".to_vec()).unwrap();
    assert_eq!(whole, b"{}\n[1]\n".to_vec());
    assert_eq!(journal_lines(&whole).ended, vec![(0, 2), (3, 6)]);
    assert_eq!(journal_tail(&whole), JournalTail::Closed);
    let torn = mended_journal(&b"{}\n[1".to_vec()).unwrap();
    assert_eq!(torn, b"{}\n".to_vec());
    assert_eq!(mended_journal(&torn), None);
    assert_eq!(mended_journal(&b"[".to_vec()), Some(vec![]));
}

#[test]
fn an_intent_is_pending_until_its_receipt() {
    let (intent, _) = promoted(2);
    let receipt = complete_receipt(&intent, 200).unwrap();
    let begun = RotationJournal::open(vec![intent.clone()]).ok().unwrap();
    assert!(begun.awaits_receipt(&operation()));
    assert!(!begun.awaits_receipt("other"));
    assert_eq!(begun.pending(), vec![intent.clone()]);
    let done = RotationJournal::open(vec![intent.clone(), receipt.clone()]).ok().unwrap();
    assert!(!done.awaits_receipt(&operation()));
    assert_eq!(done.pending(), vec![]);
    assert_eq!(operation_to_keep(&receipt), Some(operation().as_str()));
    assert_eq!(operation_to_keep(&complete_receipt(&intent, 409).unwrap()), None);
}

#[test]
fn files_are_told_apart_by_name() {
    assert!(names_pointer(&pointer_file_name("authority")));
    assert!(!names_pointer(&rotation_marker_file_name("authority")));
    let (intent, pointer) = promoted(2);
    let empty = RotationJournal::open(vec![]).ok().unwrap();
    assert!(is_orphan_secret(&intent.secret_ref, &vec![], &empty));
    assert!(!is_orphan_secret(&intent.secret_ref, &vec![pointer], &empty));
    assert!(!is_orphan_secret(&expected_current_secret_ref("authority", 1), &vec![], &empty));
    assert!(!is_orphan_secret(&rotation_receipt_file_name("o"), &vec![], &empty));
}

#[test]
fn a_marker_holds_its_text() {
    assert!(marks_rotation(Some(&ROTATION_MARKER.as_bytes().to_vec())));
    assert!(!marks_rotation(Some(&b"zode.controller-auth.rotated.v1".to_vec())));
    assert!(!marks_rotation(None));
}

#[test]
fn a_fingerprint_key_is_known_or_made() {
    assert_eq!(key_source(Some(vec![7; 32]), false), Ok(KeySource::Known(vec![7; 32])));
    assert_eq!(key_source(Some(vec![7; 31]), true), Err(ControlInitError::Invalid));
    assert_eq!(key_source(None, true), Ok(KeySource::Created));
    assert_eq!(key_source(None, false), Err(ControlInitError::Invalid));
}

#[test]
fn a_directory_is_known_by_its_identity() {
    assert_eq!(check_root(&HOME, &HOME), Ok(()));
    assert_eq!(check_root(&HOME, &ELSEWHERE), Err(ControlInitError::Invalid));
    let moved = DirectoryIdentity { device: 2, inode: 7 };
    assert_eq!(check_root(&HOME, &moved), Err(ControlInitError::Invalid));
}

#[test]
fn a_rotation_is_acknowledged_only_in_the_admitted_directory() {
    let broken = RotationAction::Fail(ControlRotationError::Internal);
    assert_eq!(new_flow(1).root_seen(Ok(ELSEWHERE)).1, broken);
    assert_eq!(new_flow(1).root_seen(Err(ControlInitError::Storage)).1, broken);
    assert_eq!(new_flow(1).receipt_loaded(Ok(None), None).1, broken);
    let promoted_flow = || {
        let (flow, _) = begun(1).receipt_loaded(Ok(None), None);
        let (flow, _) = flow.pointer_loaded(Ok(None));
        let (flow, _) = flow.secret_staged(Ok(()));
        let (flow, _) = flow.intent_appended(Ok(()));
        let (flow, _) = flow.marker_set(Ok(()));
        let (flow, _) = flow.fenced(Ok(()));
        flow.pointer_promoted(Ok(())).0
    };
    assert_eq!(promoted_flow().root_seen(Ok(ELSEWHERE)).1, broken);
    let (flow, _) = promoted_flow().root_seen(Ok(HOME));
    let (flow, _) = flow.secret_read(Ok(b"new".to_vec()), Some(promoted(2).0));
    let (flow, _) = flow.promotion_told(Ok(()));
    let (flow, action) = flow.receipt_written(Ok(()));
    assert_eq!(action, RotationAction::CheckRoot);
    assert_eq!(flow.root_seen(Ok(ELSEWHERE)).1, broken);
}
