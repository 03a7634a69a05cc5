//! Credential replicas: their requests, records, receipts and leases.

use std::collections::BTreeMap;
use zode::replica_flow::{ReplicaAction, ReplicaFlow};
use zode::replicas::{
    accept_key, answer_from_receipt, check_listing, check_lookup, decide_mutation,
    lease_from_record, metadata_from_record, names_replica, port_error, read_metadata,
    receipt_file_name, replica_file_name, request_fingerprint, validate_mutation, validate_receipt,
    validate_record, ReplicaDecision, ReplicaError, ReplicaInstallRequest, ReplicaListing,
    ReplicaMutation, ReplicaPortError, ReplicaProvisionOutcome, ReplicaReceipt, ReplicaRecord,
    ReplicaSecret, ReplicaTombstoneRequest,
};

fn request(revision: u64) -> ReplicaInstallRequest {
    ReplicaInstallRequest {
        schema: "zode.auth-replica.install.v1".to_string(),
        authority_id: "authority".to_string(),
        provider: "models".to_string(),
        kind: "api_key".to_string(),
        revision,
        credential_schema: "openai-compatible.api-key.v1".to_string(),
        expires_at_ms: None,
        secret: ReplicaSecret {
            encoding: "application/zode-secret-envelope".to_string(),
            payload: "pa55".to_string(),
        },
    }
}

fn install(revision: u64) -> ReplicaMutation {
    ReplicaMutation::Install(request(revision))
}

fn tombstone(revision: u64) -> ReplicaMutation {
    ReplicaMutation::Tombstone(ReplicaTombstoneRequest {
        schema: "zode.auth-replica.tombstone.v1".to_string(),
        authority_id: "authority".to_string(),
        provider: "models".to_string(),
        revision,
    })
}

fn decide(
    existing: Option<&ReplicaRecord>,
    mutation: ReplicaMutation,
    fingerprint: &str,
) -> Result<ReplicaDecision, ReplicaError> {
    decide_mutation(existing, "authority", "profile", mutation, fingerprint)
}

fn stored(existing: Option<&ReplicaRecord>, mutation: ReplicaMutation, fingerprint: &str) -> ReplicaRecord {
    match decide(existing, mutation, fingerprint) {
        Ok(ReplicaDecision::Stored { record, .. }) => record,
        other => panic!("not stored: {:?}", other),
    }
}

#[test]
fn a_change_is_checked_before_anything_is_stored() {
    let check = |mutation: &ReplicaMutation| validate_mutation("profile", "authority", "key", mutation);
    assert_eq!(check(&install(1)), Ok(()));
    assert_eq!(check(&tombstone(1)), Ok(()));
    assert_eq!(check(&install(0)), Err(ReplicaError::Invalid));
    assert_eq!(
        validate_mutation("profile", "other", "key", &install(1)),
        Err(ReplicaError::Invalid)
    );
    assert_eq!(validate_mutation("", "authority", "key", &install(1)), Err(ReplicaError::Invalid));
    assert_eq!(
        validate_mutation("profile", "authority", "", &install(1)),
        Err(ReplicaError::Invalid)
    );
    let mut changed = request(1);
    changed.secret.payload = "a\0b".to_string();
    assert_eq!(check(&ReplicaMutation::Install(changed)), Err(ReplicaError::Invalid));
    let mut changed = request(1);
    changed.kind = "password".to_string();
    assert_eq!(check(&ReplicaMutation::Install(changed)), Err(ReplicaError::Invalid));
    let mut changed = request(1);
    changed.credential_schema = "other".to_string();
    assert_eq!(check(&ReplicaMutation::Install(changed)), Err(ReplicaError::Invalid));
    let mut changed = request(1);
    changed.expires_at_ms = Some(-1);
    assert_eq!(check(&ReplicaMutation::Install(changed)), Err(ReplicaError::Invalid));
}

#[test]
fn a_fingerprint_is_a_keyed_digest_of_the_request() {
    let key = [7u8; 32];
    assert_eq!(
        request_fingerprint(&key, "profile", "key", &install(1)).unwrap(),
        "hmac-sha256:v1:fb792eb5e60178007dab9a7d36f1c23fc87af935a4a01a324c1f244f777b1009"
    );
    assert_eq!(
        request_fingerprint(&key, "profile", "key", &tombstone(2)).unwrap(),
        "hmac-sha256:v1:7fa5fc61d5423c3bf112bc86f759294cbd04e883982bf35f5b8dac7402cbc177"
    );
    assert_ne!(
        request_fingerprint(&key, "profile", "key", &install(1)).unwrap(),
        request_fingerprint(&[8u8; 32], "profile", "key", &install(1)).unwrap()
    );
    assert_ne!(
        request_fingerprint(&key, "profile", "key", &install(1)).unwrap(),
        request_fingerprint(&key, "profile", "yek", &install(1)).unwrap()
    );
}

#[test]
fn files_are_named_by_digests() {
    assert_eq!(
        replica_file_name("authority", "profile"),
        "replica-9fd861471d74510bbae6730a84e25a30f3fdf3391e1d1f5253aef3c00078c06c.json"
    );
    assert_eq!(
        receipt_file_name("authority", "profile", "key"),
        "receipt-1f3aed8d031ecca294925d05fd4f33e6dffef03ff44ae1dd07d75fec11018e99.json"
    );
    assert_ne!(replica_file_name("ab", "c"), replica_file_name("a", "bc"));
    assert!(names_replica("replica-1.json"));
    assert!(!names_replica("receipt-1.json"));
    assert!(!names_replica("replica-1.tmp"));
}

#[test]
fn a_new_record_is_sound_and_confirmed_to_its_request() {
    let record = stored(None, install(1), "fp");
    assert_eq!(record.response_status, 201);
    assert_eq!(record.status, "ready");
    assert_eq!(record.secret, Some("pa55".to_string()));
    assert_eq!(validate_record(&record, "authority", "profile"), Ok(()));
    assert_eq!(
        validate_record(&record, "authority", "other"),
        Err(ReplicaError::SecretUnavailable)
    );
    match decide(Some(&record), install(1), "fp").unwrap() {
        ReplicaDecision::Confirmed { receipt, outcome } => {
            assert_eq!(outcome.status, 201);
            assert_eq!(outcome.metadata.status, "ready");
            assert_eq!(validate_receipt(&receipt, "authority", "profile"), Ok(()));
            assert_eq!(
                answer_from_receipt(&receipt, "authority", "profile", "fp"),
                Ok(outcome)
            );
            assert_eq!(
                answer_from_receipt(&receipt, "authority", "profile", "other"),
                Err(ReplicaError::Conflict)
            );
            assert_eq!(
                answer_from_receipt(&receipt, "authority", "elsewhere", "fp"),
                Err(ReplicaError::SecretUnavailable)
            );
        }
        other => panic!("not confirmed: {:?}", other),
    }
}

#[test]
fn a_revision_only_rises() {
    let record = stored(None, install(2), "fp");
    assert_eq!(decide(Some(&record), install(2), "other"), Err(ReplicaError::Conflict));
    assert_eq!(decide(Some(&record), install(1), "fp"), Err(ReplicaError::Conflict));
    assert_eq!(stored(Some(&record), install(3), "next").revision, 3);
    let mut elsewhere = request(3);
    elsewhere.provider = "others".to_string();
    assert_eq!(
        decide(Some(&record), ReplicaMutation::Install(elsewhere), "fp"),
        Err(ReplicaError::Conflict)
    );
    let mut broken = record;
    broken.fingerprint = "".to_string();
    assert_eq!(decide(Some(&broken), install(3), "fp"), Err(ReplicaError::SecretUnavailable));
}

#[test]
fn a_change_goes_from_record_to_receipt() {
    let start = || {
        let flow = ReplicaFlow::new(
            "profile".to_string(),
            "authority".to_string(),
            "key".to_string(),
            install(1),
        )
        .ok()
        .unwrap();
        let (flow, action) = flow.key_loaded(Ok(vec![7; 32]));
        assert_eq!(action, ReplicaAction::LoadReceipt);
        flow
    };
    let (flow, action) = start().receipt_loaded(Ok(None));
    assert_eq!(action, ReplicaAction::LoadRecord);
    let (flow, action) = flow.record_loaded(Ok(None));
    let record = match action {
        ReplicaAction::WriteRecord(record) => record,
        other => panic!("no record: {:?}", other),
    };
    let (flow, action) = flow.record_written(Ok(()));
    let receipt = match action {
        ReplicaAction::WriteReceipt(receipt) => receipt,
        other => panic!("no receipt: {:?}", other),
    };
    let (_, answer) = flow.receipt_written(Ok(()));
    match &answer {
        ReplicaAction::Answer(outcome) => assert_eq!(outcome.status, 201),
        other => panic!("no answer: {:?}", other),
    }
    let (flow, _) = start().receipt_loaded(Ok(None));
    let (flow, action) = flow.record_loaded(Ok(Some(record)));
    assert_eq!(action, ReplicaAction::WriteReceipt(receipt.clone()));
    assert_eq!(flow.receipt_written(Ok(())).1, answer);
    assert_eq!(start().receipt_loaded(Ok(Some(receipt))).1, answer);
    assert_eq!(
        start().receipt_loaded(Err(ReplicaError::Storage)).1,
        ReplicaAction::Fail(ReplicaError::Storage)
    );
    assert_eq!(
        start().record_written(Ok(())).1,
        ReplicaAction::Fail(ReplicaError::Unavailable)
    );
    let refused = ReplicaFlow::new(
        "profile".to_string(),
        "authority".to_string(),
        "key".to_string(),
        install(0),
    );
    assert_eq!(refused.err(), Some(ReplicaError::Invalid));
}

#[test]
fn a_withdrawn_secret_is_not_lent() {
    let record = stored(None, install(1), "fp");
    let gone = stored(Some(&record), tombstone(2), "next");
    assert_eq!(gone.status, "tombstoned");
    assert_eq!(gone.secret, None);
    assert_eq!(gone.response_status, 200);
    assert_eq!(metadata_from_record(&gone).status, "tombstoned");
    assert_eq!(
        lease_from_record(gone, "authority", "profile", "models", 1, 0),
        Err(ReplicaError::SecretUnavailable)
    );
}

#[test]
fn a_secret_is_lent_while_it_is_good() {
    let mut asked = request(2);
    asked.expires_at_ms = Some(100);
    let record = stored(None, ReplicaMutation::Install(asked), "fp");
    let lease =
        lease_from_record(record.clone(), "authority", "profile", "models", 2, 99).unwrap();
    assert_eq!(lease.secret, "pa55");
    assert_eq!(lease.revision, 2);
    assert_eq!(lease.credential_schema, "openai-compatible.api-key.v1");
    for (provider, revision, now) in [("models", 2, 100), ("models", 3, 0), ("others", 1, 0)] {
        assert_eq!(
            lease_from_record(record.clone(), "authority", "profile", provider, revision, now),
            Err(ReplicaError::SecretUnavailable)
        );
    }
    assert_eq!(check_lookup("authority", "profile", "models", 1), Ok(()));
    assert_eq!(check_lookup("authority", "profile", "models", 0), Err(ReplicaError::Invalid));
    assert_eq!(check_lookup("", "profile", "models", 1), Err(ReplicaError::Invalid));
}

#[test]
fn a_listing_shows_each_profile_once() {
    let record = |profile: &str, authority: &str, revision: u64| {
        let mut record = stored(None, install(revision), "fp");
        record.profile_id = profile.to_string();
        record.authority_id = authority.to_string();
        record
    };
    let listing = ReplicaListing::new()
        .add_record("authority", record("q", "authority", 1)).ok().unwrap()
        .add_record("authority", record("p", "authority", 2)).ok().unwrap()
        .add_record("authority", record("p", "authority", 1)).ok().unwrap()
        .add_record("authority", record("z", "other", 1)).ok().unwrap();
    let told: Vec<(String, u64)> = listing
        .metadata()
        .iter()
        .map(|metadata| (metadata.profile_id.clone(), metadata.revision))
        .collect();
    assert_eq!(told, vec![("p".to_string(), 2), ("q".to_string(), 1)]);
    let mut broken = record("p", "authority", 3);
    broken.schema = "other".to_string();
    assert_eq!(
        listing.add_record("authority", broken).err(),
        Some(ReplicaError::SecretUnavailable)
    );
}

#[test]
fn metadata_is_read_from_a_sound_record() {
    let record = stored(None, install(1), "fp");
    let metadata = read_metadata(&record, "authority", "profile").unwrap();
    assert_eq!(metadata.provider, "models");
    assert_eq!(
        read_metadata(&record, "other", "profile"),
        Err(ReplicaError::SecretUnavailable)
    );
}

#[test]
fn a_key_has_its_length() {
    assert_eq!(accept_key(vec![1; 32]), Ok(vec![1; 32]));
    assert_eq!(accept_key(vec![1; 31]), Err(ReplicaError::SecretUnavailable));
}

#[test]
fn errors_are_told_to_the_runtime() {
    assert_eq!(port_error(ReplicaError::NotFound), ReplicaPortError::NotFound);
    assert_eq!(port_error(ReplicaError::Storage), ReplicaPortError::Backend);
    assert_eq!(port_error(ReplicaError::SecretUnavailable), ReplicaPortError::SecretUnavailable);
}

#[test]
fn replicas_are_listed_for_a_named_authority() {
    assert_eq!(check_listing("authority"), Ok(()));
    assert_eq!(check_listing(""), Err(ReplicaError::Invalid));
    let record = stored(None, install(1), "fp");
    assert_eq!(read_metadata(&record, "", "profile"), Err(ReplicaError::Invalid));
    assert_eq!(read_metadata(&record, "authority", ""), Err(ReplicaError::Invalid));
}

/// The files of a store, in memory.
#[derive(Clone, Default, PartialEq)]
struct Files {
    receipts: BTreeMap<String, ReplicaReceipt>,
    records: BTreeMap<String, ReplicaRecord>,
}

impl Files {
    fn apply(
        &mut self,
        key: &str,
        mutation: ReplicaMutation,
    ) -> Result<ReplicaProvisionOutcome, ReplicaError> {
        let receipt_name = receipt_file_name("authority", "profile", key);
        let record_name = replica_file_name("authority", "profile");
        let mut flow = ReplicaFlow::new(
            "profile".to_string(),
            "authority".to_string(),
            key.to_string(),
            mutation,
        )?;
        let mut action = ReplicaAction::LoadKey;
        loop {
            (flow, action) = match action {
                ReplicaAction::LoadKey => flow.key_loaded(Ok(vec![7; 32])),
                ReplicaAction::LoadReceipt => {
                    flow.receipt_loaded(Ok(self.receipts.get(&receipt_name).cloned()))
                }
                ReplicaAction::LoadRecord => {
                    flow.record_loaded(Ok(self.records.get(&record_name).cloned()))
                }
                ReplicaAction::WriteRecord(record) => {
                    self.records.insert(record_name.clone(), record);
                    flow.record_written(Ok(()))
                }
                ReplicaAction::WriteReceipt(receipt) => {
                    self.receipts.insert(receipt_name.clone(), receipt);
                    flow.receipt_written(Ok(()))
                }
                ReplicaAction::Answer(outcome) => return Ok(outcome),
                ReplicaAction::Fail(error) => return Err(error),
            };
        }
    }
}

#[test]
fn an_answered_request_stays_answered() {
    let mut files = Files::default();
    let first = files.apply("key", install(1)).unwrap();
    assert_eq!(first.status, 201);
    files.apply("second", install(2)).unwrap();
    files.apply("third", tombstone(3)).unwrap();
    assert_eq!(files.apply("fourth", install(2)), Err(ReplicaError::Conflict));
    let kept = files.clone();
    assert_eq!(files.apply("key", install(1)), Ok(first));
    assert_eq!(files.apply("key", install(4)), Err(ReplicaError::Conflict));
    assert_eq!(files.apply("key", tombstone(1)), Err(ReplicaError::Conflict));
    assert!(files == kept);
}
