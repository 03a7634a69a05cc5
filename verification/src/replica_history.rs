//! What holds of a store of replicas over any number of requests, where its files can be read and
//! written.

use crate::replica_flow::{
    key_loaded_step, receipt_loaded_step, receipt_written_step, record_loaded_step,
    record_written_step, ReplicaActionView, ReplicaFlowView, ReplicaPhaseView,
};
use crate::replicas::{
    fingerprint_of, mutation_allowed, receipt_name, replica_name,
    same_request_is_answered_the_same, ReplicaError, ReplicaMutationView,
    ReplicaProvisionOutcomeView, ReplicaReceiptView, ReplicaRecordView,
};
use vstd::prelude::*;

verus! {

/// The files of a store: its key, and by their names the receipts and the records.
pub struct ReplicaFilesView {
    pub key: Seq<u8>,
    pub receipts: Map<Seq<char>, ReplicaReceiptView>,
    pub records: Map<Seq<char>, ReplicaRecordView>,
}

/// A request for a change.
pub struct ReplicaRequestView {
    pub profile_id: Seq<char>,
    pub authority_id: Seq<char>,
    pub idempotency_key: Seq<char>,
    pub mutation: ReplicaMutationView,
}

/// The file of the receipt of a request.
pub open spec fn receipt_file(request: ReplicaRequestView) -> Seq<char> {
    receipt_name(request.authority_id, request.profile_id, request.idempotency_key)
}

/// The file of the record that a request is about.
pub open spec fn record_file(request: ReplicaRequestView) -> Seq<char> {
    replica_name(request.authority_id, request.profile_id)
}

/// What a file holds, if it is there.
pub open spec fn held<T>(files: Map<Seq<char>, T>, name: Seq<char>) -> Option<T> {
    if files.dom().contains(name) {
        Some(files[name])
    } else {
        None
    }
}

/// The flow of a request that is sound.
pub open spec fn flow_of(request: ReplicaRequestView) -> ReplicaFlowView {
    ReplicaFlowView {
        profile_id: request.profile_id,
        authority_id: request.authority_id,
        idempotency_key: request.idempotency_key,
        mutation: request.mutation,
        phase: ReplicaPhaseView::LoadKey,
    }
}

/// The end of a flow.
pub open spec fn result_of(action: ReplicaActionView) -> Result<
    ReplicaProvisionOutcomeView,
    ReplicaError,
> {
    match action {
        ReplicaActionView::Answer(outcome) => Ok(outcome),
        ReplicaActionView::Fail(error) => Err(error),
        _ => Err(ReplicaError::Unavailable),
    }
}

/// A flow that writes its receipt.
pub open spec fn receipt_kept(
    files: ReplicaFilesView,
    request: ReplicaRequestView,
    flow: ReplicaFlowView,
    receipt: ReplicaReceiptView,
) -> (ReplicaFilesView, Result<ReplicaProvisionOutcomeView, ReplicaError>) {
    (
        ReplicaFilesView {
            receipts: files.receipts.insert(receipt_file(request), receipt),
            ..files
        },
        result_of(receipt_written_step(flow, Ok(())).1),
    )
}

/// A flow that has read its receipt, and goes on to the record.
pub open spec fn record_changed(
    files: ReplicaFilesView,
    request: ReplicaRequestView,
    flow: ReplicaFlowView,
) -> (ReplicaFilesView, Result<ReplicaProvisionOutcomeView, ReplicaError>) {
    let (next, action) = record_loaded_step(flow, Ok(held(files.records, record_file(request))));
    match action {
        ReplicaActionView::WriteRecord(record) => {
            let written = ReplicaFilesView {
                records: files.records.insert(record_file(request), record),
                ..files
            };
            let (last, then) = record_written_step(next, Ok(()));
            match then {
                ReplicaActionView::WriteReceipt(receipt) => receipt_kept(
                    written,
                    request,
                    last,
                    receipt,
                ),
                other => (written, result_of(other)),
            }
        },
        ReplicaActionView::WriteReceipt(receipt) => receipt_kept(files, request, next, receipt),
        other => (files, result_of(other)),
    }
}

/// A store after a request, and its answer: what the flow of the request reads is what the store
/// holds, and what it writes the store holds then.
pub open spec fn changed(files: ReplicaFilesView, request: ReplicaRequestView) -> (
    ReplicaFilesView,
    Result<ReplicaProvisionOutcomeView, ReplicaError>,
) {
    if !mutation_allowed(
        request.profile_id,
        request.authority_id,
        request.idempotency_key,
        request.mutation,
    ) {
        (files, Err(ReplicaError::Invalid))
    } else {
        let (keyed, first) = key_loaded_step(flow_of(request), Ok(files.key));
        if first is LoadReceipt {
            let (looked, second) = receipt_loaded_step(
                keyed,
                Ok(held(files.receipts, receipt_file(request))),
            );
            if second is LoadRecord {
                record_changed(files, request, looked)
            } else {
                (files, result_of(second))
            }
        } else {
            (files, result_of(first))
        }
    }
}

/// A store after any number of requests.
pub open spec fn after(
    files: ReplicaFilesView,
    requests: Seq<ReplicaRequestView>,
) -> ReplicaFilesView
    decreases requests.len(),
{
    if requests.len() == 0 {
        files
    } else {
        changed(after(files, requests.drop_last()), requests.last()).0
    }
}

/// A store that nothing was written to.
pub open spec fn new_files(key: Seq<u8>) -> ReplicaFilesView {
    ReplicaFilesView { key, receipts: Map::empty(), records: Map::empty() }
}

/// Whether the records of a store were written by requests: a withdrawal was answered as one.
pub open spec fn is_kept(files: ReplicaFilesView) -> bool {
    forall|name: Seq<char>| #[trigger]
        files.records.dom().contains(name) ==> files.records[name].status == "tombstoned"@
            ==> files.records[name].response_status == 200
}

/// What a store holds over any number of requests, from the first on: its key stays, and its
/// records are such as requests write.
pub proof fn store_is_kept(key: Seq<u8>, requests: Seq<ReplicaRequestView>)
    ensures
        is_kept(after(new_files(key), requests)),
        after(new_files(key), requests).key == key,
    decreases requests.len(),
{
    if requests.len() > 0 {
        store_is_kept(key, requests.drop_last());
        lemma_change_keeps(after(new_files(key), requests.drop_last()), requests.last());
    }
}

proof fn lemma_change_keeps(files: ReplicaFilesView, request: ReplicaRequestView)
    ensures
        changed(files, request).0.key == files.key,
        is_kept(files) ==> is_kept(changed(files, request).0),
        forall|name: Seq<char>|
            name != receipt_file(request) ==> #[trigger] held(
                changed(files, request).0.receipts,
                name,
            ) == held(files.receipts, name),
{
    reveal_strlit("ready");
    reveal_strlit("tombstoned");
    assert("ready"@.len() != "tombstoned"@.len());
}

proof fn lemma_others_leave_the_receipt(
    files: ReplicaFilesView,
    others: Seq<ReplicaRequestView>,
    name: Seq<char>,
)
    requires
        forall|i: int| 0 <= i < others.len() ==> receipt_file(#[trigger] others[i]) != name,
    ensures
        after(files, others).key == files.key,
        held(after(files, others).receipts, name) == held(files.receipts, name),
    decreases others.len(),
{
    if others.len() > 0 {
        let earlier = others.drop_last();
        assert forall|i: int| 0 <= i < earlier.len() implies receipt_file(#[trigger] earlier[i])
            != name by {
            assert(earlier[i] == others[i]);
        }
        lemma_others_leave_the_receipt(files, earlier, name);
        lemma_change_keeps(after(files, earlier), others.last());
        assert(receipt_file(others[others.len() - 1]) != name);
    }
}

/// A fingerprint is not empty.
proof fn lemma_fingerprint(key: Seq<u8>, request: ReplicaRequestView)
    ensures
        fingerprint_of(
            key,
            request.profile_id,
            request.idempotency_key,
            request.mutation,
        ) matches Some(fingerprint) ==> fingerprint.len() > 0,
{
    reveal_strlit("hmac-sha256:v1:");
}

/// A request that was answered has left its receipt, and the receipt gives that answer.
proof fn lemma_answered(files: ReplicaFilesView, request: ReplicaRequestView)
    requires
        is_kept(files),
        changed(files, request).1 is Ok,
    ensures
        ({
            let (next, answer) = changed(files, request);
            let (keyed, _) = key_loaded_step(flow_of(request), Ok(files.key));
            let receipt = held(next.receipts, receipt_file(request));
            &&& receipt is Some
            &&& receipt_loaded_step(keyed, Ok(receipt)).1 == ReplicaActionView::Answer(answer->Ok_0)
        }),
{
    lemma_fingerprint(files.key, request);
    let fingerprint = fingerprint_of(
        files.key,
        request.profile_id,
        request.idempotency_key,
        request.mutation,
    );
    if fingerprint is Some {
        same_request_is_answered_the_same(
            held(files.records, record_file(request)),
            request.authority_id,
            request.profile_id,
            request.idempotency_key,
            request.mutation,
            fingerprint->0,
        );
    }
}

/// A request that was answered is answered the same whenever it comes again, whatever other
/// requests came in between, higher revisions too, as long as their receipts have other files;
/// and it changes nothing then.
pub proof fn answered_request_stays_answered(
    files: ReplicaFilesView,
    request: ReplicaRequestView,
    others: Seq<ReplicaRequestView>,
)
    requires
        is_kept(files),
        changed(files, request).1 is Ok,
        forall|i: int|
            0 <= i < others.len() ==> receipt_file(#[trigger] others[i]) != receipt_file(request),
    ensures
        ({
            let later = after(changed(files, request).0, others);
            changed(later, request) == (later, changed(files, request).1)
        }),
{
    lemma_answered(files, request);
    lemma_change_keeps(files, request);
    lemma_others_leave_the_receipt(changed(files, request).0, others, receipt_file(request));
}

/// Another request under the key of one that was answered is refused as a conflict whenever it
/// comes, and changes nothing: one that is sound, and whose fingerprint is another.
pub proof fn used_key_stays_used(
    files: ReplicaFilesView,
    request: ReplicaRequestView,
    others: Seq<ReplicaRequestView>,
    mutation: ReplicaMutationView,
)
    requires
        is_kept(files),
        changed(files, request).1 is Ok,
        forall|i: int|
            0 <= i < others.len() ==> receipt_file(#[trigger] others[i]) != receipt_file(request),
        mutation_allowed(
            request.profile_id,
            request.authority_id,
            request.idempotency_key,
            mutation,
        ),
        fingerprint_of(files.key, request.profile_id, request.idempotency_key, mutation) is Some,
        fingerprint_of(files.key, request.profile_id, request.idempotency_key, mutation)
            != fingerprint_of(
            files.key,
            request.profile_id,
            request.idempotency_key,
            request.mutation,
        ),
    ensures
        ({
            let later = after(changed(files, request).0, others);
            changed(later, ReplicaRequestView { mutation, ..request }) == (
                later,
                Err::<ReplicaProvisionOutcomeView, ReplicaError>(ReplicaError::Conflict),
            )
        }),
{
    lemma_answered(files, request);
    lemma_change_keeps(files, request);
    lemma_others_leave_the_receipt(changed(files, request).0, others, receipt_file(request));
}

} // verus!
