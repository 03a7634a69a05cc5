//! What holds of credential replicas: which requests are taken, what they store and what they are
//! answered, and when a secret is lent.

use crate::replica_flow::{
    key_loaded_step, receipt_loaded_step, receipt_written_step, record_loaded_step,
    record_written_step, ReplicaActionView, ReplicaFlowView, ReplicaPhaseView,
};
use crate::replicas::{
    canonical_request, fingerprint_of, is_replica_name, listing_step, lookup_allowed, may_lend,
    mutation_allowed,
    receipt_allowed, receipt_name_source, receipt_step, record_allowed, record_metadata,
    record_step, ReplicaDecisionView, ReplicaError, ReplicaMutationView,
    ReplicaProvisionOutcomeView, ReplicaReceiptView, ReplicaRecordView,
};
use crate::digest::{length_prefixed, length_prefixed_is_injective};
use crate::text::byte_len;
use crate::text_map::{lookup, stored_then_found};
use vstd::prelude::*;
use vstd::string::*;
use vstd::utf8::encode_utf8;

verus! {

/// Whether a text is there and has at most so many bytes.
pub open spec fn is_within(text: Seq<char>, bytes: int) -> bool {
    text.len() > 0 && byte_len(text) <= bytes
}

/// A request is taken exactly if its names and its key are there and short, its revision counts,
/// and it is of the version of its kind and for the authority that it came for; to install, also,
/// if the kind and the form of the credential are known, its secret is there, short, without a zero
/// and in an envelope, and it does not expire before the beginning of time.
pub proof fn sound_requests_are_taken(
    profile_id: Seq<char>,
    authority_id: Seq<char>,
    key: Seq<char>,
    mutation: ReplicaMutationView,
)
    ensures
        mutation_allowed(profile_id, authority_id, key, mutation) <==> {
            &&& is_within(key, 1024)
            &&& is_within(profile_id, 256)
            &&& is_within(authority_id, 256)
            &&& match mutation {
                ReplicaMutationView::Install(request) => {
                    &&& request.schema == "zode.auth-replica.install.v1"@
                    &&& request.authority_id == authority_id
                    &&& is_within(request.provider, 256)
                    &&& request.revision > 0
                    &&& request.kind == "api_key"@ || request.kind == "oauth"@
                    &&& request.credential_schema == "openai-compatible.api-key.v1"@
                        || request.credential_schema == "anthropic.api-key.v1"@
                    &&& request.secret.encoding == "application/zode-secret-envelope"@
                    &&& is_within(request.secret.payload, 65536)
                    &&& !request.secret.payload.contains('\0')
                    &&& request.expires_at_ms matches Some(expires) ==> expires >= 0
                },
                ReplicaMutationView::Tombstone(request) => {
                    &&& request.schema == "zode.auth-replica.tombstone.v1"@
                    &&& request.authority_id == authority_id
                    &&& is_within(request.provider, 256)
                    &&& request.revision > 0
                },
            }
        },
{
}

/// The provider that a request is for.
pub open spec fn asked_provider(mutation: ReplicaMutationView) -> Seq<char> {
    match mutation {
        ReplicaMutationView::Install(request) => request.provider,
        ReplicaMutationView::Tombstone(request) => request.provider,
    }
}

/// The revision that a request leads to.
pub open spec fn asked_revision(mutation: ReplicaMutationView) -> u64 {
    match mutation {
        ReplicaMutationView::Install(request) => request.revision,
        ReplicaMutationView::Tombstone(request) => request.revision,
    }
}

/// A request is stored exactly if there is nothing yet, or a sound record of the same provider with
/// a lower revision. The record of the very same request is confirmed. What is not sound cannot be
/// built upon, and every other request conflicts.
pub proof fn higher_revisions_are_stored(
    existing: Option<ReplicaRecordView>,
    authority_id: Seq<char>,
    profile_id: Seq<char>,
    mutation: ReplicaMutationView,
    fingerprint: Seq<char>,
)
    ensures
        ({
            let decision = record_step(existing, authority_id, profile_id, mutation, fingerprint);
            &&& (decision matches Ok(taken) && taken is Stored) <==> (existing matches Some(current)
                ==> {
                &&& record_allowed(current, authority_id, profile_id)
                &&& current.provider == asked_provider(mutation)
                &&& current.revision < asked_revision(mutation)
            })
            &&& (decision matches Ok(taken) && taken is Confirmed)
                <==> (existing matches Some(current)
                && {
                &&& record_allowed(current, authority_id, profile_id)
                &&& current.provider == asked_provider(mutation)
                &&& current.revision == asked_revision(mutation)
                &&& current.fingerprint == fingerprint
            })
            &&& decision matches Err(error) ==> (existing matches Some(current) && error == (
            if record_allowed(current, authority_id, profile_id) {
                ReplicaError::Conflict
            } else {
                ReplicaError::SecretUnavailable
            }))
        }),
{
}

/// Whether what is told of a record is what it holds.
pub open spec fn is_told_of(
    outcome: ReplicaProvisionOutcomeView,
    record: ReplicaRecordView,
) -> bool {
    &&& outcome.status == record.response_status
    &&& outcome.metadata.authority_id == record.authority_id
    &&& outcome.metadata.profile_id == record.profile_id
    &&& outcome.metadata.provider == record.provider
    &&& outcome.metadata.revision == record.revision
    &&& outcome.metadata.expires_at_ms == record.expires_at_ms
    &&& outcome.metadata.status == record.status
}

/// Whether a receipt repeats a record, for the request with a fingerprint.
pub open spec fn is_receipt_of(
    receipt: ReplicaReceiptView,
    record: ReplicaRecordView,
    fingerprint: Seq<char>,
) -> bool {
    &&& receipt.schema == "zode.auth-replica.receipt.v1"@
    &&& receipt.authority_id == record.authority_id
    &&& receipt.profile_id == record.profile_id
    &&& receipt.provider == record.provider
    &&& receipt.revision == record.revision
    &&& receipt.expires_at_ms == record.expires_at_ms
    &&& receipt.response_status == record.response_status
    &&& receipt.metadata_status == record.status
    &&& receipt.fingerprint == fingerprint
}

/// An installed credential is stored as it came, ready, under its authority and profile and with
/// the fingerprint of its request. It is answered as created, with what is told of it; its secret
/// is not told. The receipt repeats that.
pub proof fn installed_credential_is_stored(
    existing: Option<ReplicaRecordView>,
    authority_id: Seq<char>,
    profile_id: Seq<char>,
    mutation: ReplicaMutationView,
    fingerprint: Seq<char>,
)
    ensures
        record_step(existing, authority_id, profile_id, mutation, fingerprint) matches Ok(
            ReplicaDecisionView::Stored { record, receipt, outcome },
        ) ==> {
            &&& record.schema == "zode.auth-replica.record.v1"@
            &&& record.authority_id == authority_id
            &&& record.profile_id == profile_id
            &&& record.provider == asked_provider(mutation)
            &&& record.revision == asked_revision(mutation)
            &&& record.fingerprint == fingerprint
            &&& is_told_of(outcome, record)
            &&& is_receipt_of(receipt, record, fingerprint)
            &&& mutation matches ReplicaMutationView::Install(request) ==> {
                &&& record.status == "ready"@
                &&& record.response_status == 201
                &&& record.kind == Some(request.kind)
                &&& record.credential_schema == Some(request.credential_schema)
                &&& record.expires_at_ms == request.expires_at_ms
                &&& record.secret == Some(request.secret.payload)
            }
            &&& mutation is Tombstone ==> {
                &&& record.status == "tombstoned"@
                &&& record.response_status == 200
                &&& record.kind is None
                &&& record.credential_schema is None
                &&& record.expires_at_ms is None
                &&& record.secret is None
            }
        },
{
    reveal_strlit("ready");
    reveal_strlit("tombstoned");
    assert("ready"@.len() == 5);
    assert("tombstoned"@.len() == 10);
}

/// A record that is confirmed is answered with what it holds, as it was answered before.
pub proof fn confirmed_record_is_told(
    current: ReplicaRecordView,
    authority_id: Seq<char>,
    profile_id: Seq<char>,
    mutation: ReplicaMutationView,
    fingerprint: Seq<char>,
)
    ensures
        record_step(Some(current), authority_id, profile_id, mutation, fingerprint) matches Ok(
            ReplicaDecisionView::Confirmed { receipt, outcome },
        ) ==> is_told_of(outcome, current) && is_receipt_of(receipt, current, fingerprint),
{
    reveal_strlit("ready");
    reveal_strlit("tombstoned");
    assert("ready"@.len() == 5);
    assert("tombstoned"@.len() == 10);
}

/// A receipt gives its answer again, part by part, to the request with its fingerprint, if it is
/// sound; to another request it is a conflict.
pub proof fn receipt_gives_its_answer(
    receipt: ReplicaReceiptView,
    authority_id: Seq<char>,
    profile_id: Seq<char>,
    fingerprint: Seq<char>,
)
    ensures
        ({
            let answer = receipt_step(receipt, authority_id, profile_id, fingerprint);
            &&& answer is Ok <==> receipt_allowed(receipt, authority_id, profile_id)
                && receipt.fingerprint == fingerprint
            &&& answer matches Err(error) ==> error == if receipt_allowed(
                receipt,
                authority_id,
                profile_id,
            ) {
                ReplicaError::Conflict
            } else {
                ReplicaError::SecretUnavailable
            }
            &&& answer matches Ok(outcome) ==> {
                &&& outcome.status == receipt.response_status
                &&& outcome.metadata.authority_id == receipt.authority_id
                &&& outcome.metadata.profile_id == receipt.profile_id
                &&& outcome.metadata.provider == receipt.provider
                &&& outcome.metadata.revision == receipt.revision
                &&& outcome.metadata.expires_at_ms == receipt.expires_at_ms
                &&& outcome.metadata.status == receipt.metadata_status
            }
        }),
{
    reveal_strlit("ready");
    reveal_strlit("tombstoned");
    assert("ready"@.len() == 5);
    assert("tombstoned"@.len() == 10);
}

/// A record is sound exactly if it is of this version, for its authority and profile, with a
/// provider, a revision and a fingerprint, and answered as done or created; if it is ready with a
/// known credential, or withdrawn without one.
pub proof fn sound_records_are_whole(
    record: ReplicaRecordView,
    authority_id: Seq<char>,
    profile_id: Seq<char>,
)
    ensures
        record_allowed(record, authority_id, profile_id) <==> {
            &&& record.schema == "zode.auth-replica.record.v1"@
            &&& record.authority_id == authority_id
            &&& record.profile_id == profile_id
            &&& is_within(record.provider, 256)
            &&& record.revision > 0
            &&& record.fingerprint.len() > 0
            &&& record.response_status == 200 || record.response_status == 201
            &&& record.expires_at_ms matches Some(expires) ==> expires >= 0
            &&& record.status == "ready"@ || record.status == "tombstoned"@
            &&& record.status == "ready"@ ==> {
                &&& record.kind == Some("api_key"@) || record.kind == Some("oauth"@)
                &&& record.credential_schema == Some("openai-compatible.api-key.v1"@)
                    || record.credential_schema == Some("anthropic.api-key.v1"@)
                &&& record.secret matches Some(secret) && is_within(secret, 65536)
            }
            &&& record.status == "tombstoned"@ ==> record.secret is None && record.expires_at_ms
                is None
        },
{
    reveal_strlit("ready");
    reveal_strlit("tombstoned");
    assert("ready"@.len() == 5);
    assert("tombstoned"@.len() == 10);
}

/// A receipt is sound exactly if it is of this version, for its authority and profile, with a
/// provider, a revision and a fingerprint; and if it tells of a ready replica as done or created,
/// or of a withdrawn one as done.
pub proof fn sound_receipts_are_whole(
    receipt: ReplicaReceiptView,
    authority_id: Seq<char>,
    profile_id: Seq<char>,
)
    ensures
        receipt_allowed(receipt, authority_id, profile_id) <==> {
            &&& receipt.schema == "zode.auth-replica.receipt.v1"@
            &&& receipt.authority_id == authority_id
            &&& receipt.profile_id == profile_id
            &&& is_within(receipt.provider, 256)
            &&& receipt.revision > 0
            &&& receipt.fingerprint.len() > 0
            &&& receipt.expires_at_ms matches Some(expires) ==> expires >= 0
            &&& receipt.metadata_status == "ready"@ || receipt.metadata_status == "tombstoned"@
            &&& receipt.metadata_status == "ready"@ ==> receipt.response_status == 200
                || receipt.response_status == 201
            &&& receipt.metadata_status == "tombstoned"@ ==> receipt.response_status == 200
                && receipt.expires_at_ms is None
        },
{
    reveal_strlit("ready");
    reveal_strlit("tombstoned");
    assert("ready"@.len() == 5);
    assert("tombstoned"@.len() == 10);
}

/// A secret is lent exactly if its record is sound, of the provider that is asked for, ready, at
/// least of the revision that is asked for, and not expired yet; and then there is one. What a
/// secret is asked for by has to be there.
pub proof fn secrets_are_lent_while_they_last(
    record: ReplicaRecordView,
    authority_id: Seq<char>,
    profile_id: Seq<char>,
    provider: Seq<char>,
    minimum_revision: u64,
    now_ms: i64,
)
    ensures
        may_lend(record, authority_id, profile_id, provider, minimum_revision, now_ms) <==> {
            &&& record_allowed(record, authority_id, profile_id)
            &&& record.provider == provider
            &&& record.status == "ready"@
            &&& minimum_revision <= record.revision
            &&& record.expires_at_ms is None || now_ms < record.expires_at_ms->0
        },
        may_lend(record, authority_id, profile_id, provider, minimum_revision, now_ms) ==> {
            record.secret is Some && record.credential_schema is Some
        },
        lookup_allowed(authority_id, profile_id, provider, minimum_revision) <==> {
            &&& authority_id.len() > 0
            &&& profile_id.len() > 0
            &&& provider.len() > 0
            &&& minimum_revision > 0
        },
{
}

/// A secret that is installed can be lent to its provider at once, up to its revision and until it
/// expires.
pub proof fn installed_secret_can_be_lent(
    authority_id: Seq<char>,
    profile_id: Seq<char>,
    key: Seq<char>,
    mutation: ReplicaMutationView,
    fingerprint: Seq<char>,
    minimum_revision: u64,
    now_ms: i64,
)
    requires
        mutation is Install,
        mutation_allowed(profile_id, authority_id, key, mutation),
        fingerprint.len() > 0,
        minimum_revision <= mutation->Install_0.revision,
        mutation->Install_0.expires_at_ms matches Some(expires) ==> now_ms < expires,
    ensures
        record_step(None, authority_id, profile_id, mutation, fingerprint) matches Ok(
            ReplicaDecisionView::Stored { record, .. },
        ) && may_lend(
            record,
            authority_id,
            profile_id,
            mutation->Install_0.provider,
            minimum_revision,
            now_ms,
        ) && record.secret == Some(mutation->Install_0.secret.payload),
{
}

/// What is told of a record is what it holds, but for its secret.
pub proof fn metadata_is_told(record: ReplicaRecordView)
    ensures
        ({
            let told = record_metadata(record);
            &&& told.authority_id == record.authority_id
            &&& told.profile_id == record.profile_id
            &&& told.provider == record.provider
            &&& told.revision == record.revision
            &&& told.expires_at_ms == record.expires_at_ms
            &&& told.status == "tombstoned"@ <==> record.status == "tombstoned"@
            &&& told.status == "ready"@ <==> record.status != "tombstoned"@
        }),
{
    reveal_strlit("ready");
    reveal_strlit("tombstoned");
    assert("ready"@.len() == 5);
    assert("tombstoned"@.len() == 10);
}

/// Two requests with one fingerprint source are the same request: nothing of a request is left out
/// of it.
pub proof fn fingerprints_take_in_the_whole_request(
    profile_a: Seq<char>,
    key_a: Seq<char>,
    mutation_a: ReplicaMutationView,
    profile_b: Seq<char>,
    key_b: Seq<char>,
    mutation_b: ReplicaMutationView,
)
    requires
        canonical_request(profile_a, key_a, mutation_a) == canonical_request(
            profile_b,
            key_b,
            mutation_b,
        ),
    ensures
        profile_a == profile_b,
        key_a == key_b,
        mutation_a == mutation_b,
{
    reveal_strlit("install");
    reveal_strlit("tombstone");
    assert("install"@.len() == 7);
    assert("tombstone"@.len() == 9);
    let a = canonical_request(profile_a, key_a, mutation_a)->Array_0;
    let b = canonical_request(profile_b, key_b, mutation_b)->Array_0;
    assert(a[0] == b[0] && a[1] == b[1] && a[2] == b[2] && a[3] == b[3] && a[4] == b[4] && a[5]
        == b[5] && a[6] == b[6]);
    if mutation_a is Install {
        assert(a[7] == b[7] && a[8] == b[8] && a[9] == b[9] && a[10] == b[10] && a[11] == b[11]);
    }
}

/// No two requests name their receipt from the same bytes, unless they are under the same key for
/// the same replica.
pub proof fn receipt_names_have_distinct_sources(
    authority_a: Seq<char>,
    profile_a: Seq<char>,
    key_a: Seq<char>,
    authority_b: Seq<char>,
    profile_b: Seq<char>,
    key_b: Seq<char>,
)
    requires
        byte_len(authority_a) <= 1024,
        byte_len(profile_a) <= 1024,
        byte_len(key_a) <= 1024,
        byte_len(authority_b) <= 1024,
        byte_len(profile_b) <= 1024,
        byte_len(key_b) <= 1024,
        receipt_name_source(authority_a, profile_a, key_a) == receipt_name_source(
            authority_b,
            profile_b,
            key_b,
        ),
    ensures
        authority_a == authority_b,
        profile_a == profile_b,
        key_a == key_b,
{
    let a = seq![authority_a, profile_a, key_a];
    let b = seq![authority_b, profile_b, key_b];
    let head = encode_utf8("zode:auth-replica-receipt:v1"@);
    let left = length_prefixed(a);
    let right = length_prefixed(b);
    assert((head + left).skip(head.len() as int) =~= left);
    assert((head + right).skip(head.len() as int) =~= right);
    length_prefixed_is_injective(a, b);
    assert(a[0] == b[0] && a[1] == b[1] && a[2] == b[2]);
}

/// A list holds, of each profile of its authority, the record with the highest revision that was
/// read. Records of others are passed over; one that is not sound ends the list.
pub proof fn lists_hold_the_latest_records(
    listing: Seq<(Seq<char>, ReplicaRecordView)>,
    authority_id: Seq<char>,
    record: ReplicaRecordView,
    profile_id: Seq<char>,
)
    ensures
        ({
            let step = listing_step(listing, authority_id, record);
            let own = record.authority_id == authority_id;
            let known = lookup(listing, record.profile_id);
            &&& step is Err <==> own && !record_allowed(record, authority_id, record.profile_id)
            &&& step matches Err(error) ==> error == ReplicaError::SecretUnavailable
            &&& step matches Ok(next) ==> lookup(next, profile_id) == if own && profile_id
                == record.profile_id && (known matches Some(current) ==> current.revision
                < record.revision) {
                Some(record)
            } else {
                lookup(listing, profile_id)
            }
        }),
{
    stored_then_found(listing, record.profile_id, record, profile_id);
}

/// A change reads its key, its receipt and its record before it writes; it writes the record that
/// was decided before the receipt that goes with it; and it is answered with that outcome.
pub proof fn change_goes_in_order(flow: ReplicaFlowView)
    ensures
        forall|key: Seq<u8>| #![trigger key_loaded_step(flow, Ok(key))]
            flow.phase is LoadKey ==> match fingerprint_of(
                key,
                flow.profile_id,
                flow.idempotency_key,
                flow.mutation,
            ) {
                Some(fingerprint) => key_loaded_step(flow, Ok(key)) == (
                    ReplicaFlowView {
                        phase: ReplicaPhaseView::LoadReceipt(fingerprint),
                        ..flow
                    },
                    ReplicaActionView::LoadReceipt,
                ),
                None => key_loaded_step(flow, Ok(key)).1 == ReplicaActionView::Fail(
                    ReplicaError::Record,
                ),
            },
        flow.phase matches ReplicaPhaseView::LoadReceipt(fingerprint) ==> {
            &&& receipt_loaded_step(flow, Ok(None)) == (
                ReplicaFlowView { phase: ReplicaPhaseView::LoadRecord(fingerprint), ..flow },
                ReplicaActionView::LoadRecord,
            )
            &&& forall|receipt: ReplicaReceiptView|
                (#[trigger] receipt_loaded_step(flow, Ok(Some(receipt)))).1 == match receipt_step(
                    receipt,
                    flow.authority_id,
                    flow.profile_id,
                    fingerprint,
                ) {
                    Ok(outcome) => ReplicaActionView::Answer(outcome),
                    Err(error) => ReplicaActionView::Fail(error),
                }
        },
        flow.phase matches ReplicaPhaseView::LoadRecord(fingerprint) ==> forall|
            existing: Option<ReplicaRecordView>,
        |
            (#[trigger] record_loaded_step(flow, Ok(existing))).1 == match record_step(
                existing,
                flow.authority_id,
                flow.profile_id,
                flow.mutation,
                fingerprint,
            ) {
                Ok(ReplicaDecisionView::Stored { record, .. }) => ReplicaActionView::WriteRecord(
                    record,
                ),
                Ok(ReplicaDecisionView::Confirmed { receipt, .. }) => {
                    ReplicaActionView::WriteReceipt(receipt)
                },
                Err(error) => ReplicaActionView::Fail(error),
            },
        flow.phase matches ReplicaPhaseView::WriteRecord { receipt, outcome } ==> {
            let (next, action) = record_written_step(flow, Ok(()));
            &&& action == ReplicaActionView::WriteReceipt(receipt)
            &&& receipt_written_step(next, Ok(())).1 == ReplicaActionView::Answer(outcome)
        },
        flow.phase matches ReplicaPhaseView::WriteReceipt(outcome) ==> receipt_written_step(
            flow,
            Ok(()),
        ).1 == ReplicaActionView::Answer(outcome),
{
}

/// What cannot be read or written ends a change with that error, and nothing more is written.
pub proof fn change_fails_by_its_error(flow: ReplicaFlowView, error: ReplicaError)
    ensures
        flow.phase is LoadKey ==> key_loaded_step(flow, Err(error)).1 == ReplicaActionView::Fail(
            error,
        ),
        flow.phase is LoadReceipt ==> receipt_loaded_step(flow, Err(error)).1
            == ReplicaActionView::Fail(error),
        flow.phase is LoadRecord ==> record_loaded_step(flow, Err(error)).1
            == ReplicaActionView::Fail(error),
        flow.phase is WriteRecord ==> record_written_step(flow, Err(error)).1
            == ReplicaActionView::Fail(error),
        flow.phase is WriteReceipt ==> receipt_written_step(flow, Err(error)).1
            == ReplicaActionView::Fail(error),
{
}

/// The records of replicas are told by the front and the end of their file names.
pub proof fn replica_files_are_told_by_their_names(name: Seq<char>)
    ensures
        is_replica_name(name) <==> "replica-"@.is_prefix_of(name) && ".json"@.is_suffix_of(name),
{
}

/// A change that is answered or fails has ended, and stays what it was.
pub proof fn answered_change_has_ended(
    flow: ReplicaFlowView,
    key: Result<Seq<u8>, ReplicaError>,
    receipt: Result<Option<ReplicaReceiptView>, ReplicaError>,
    record: Result<Option<ReplicaRecordView>, ReplicaError>,
    done: Result<(), ReplicaError>,
)
    ensures
        has_ended_if_answered(flow, key_loaded_step(flow, key)),
        has_ended_if_answered(flow, receipt_loaded_step(flow, receipt)),
        has_ended_if_answered(flow, record_loaded_step(flow, record)),
        has_ended_if_answered(flow, record_written_step(flow, done)),
        has_ended_if_answered(flow, receipt_written_step(flow, done)),
{
}

/// Whether a change has ended exactly if it is answered or fails, and is the same but for its
/// phase.
pub open spec fn has_ended_if_answered(
    flow: ReplicaFlowView,
    step: (ReplicaFlowView, ReplicaActionView),
) -> bool {
    &&& step.0.phase is Ended <==> step.1 is Answer || step.1 is Fail
    &&& step.0 == (ReplicaFlowView { phase: step.0.phase, ..flow })
}

} // verus!
