//! The rotation of the secrets with which controllers authenticate.
//!
//! A rotation is written to a journal as an intent, then promoted by a pointer, then answered by a
//! receipt. Each step can be repeated after a crash; the functions here decide what is left to do.

use super::ControlInitError;
use crate::datum::{Datum, Same};
use crate::digest::{hex, hex_text, hmac_sha256, hmac_sha256_of, same_secret, sha256, sha256_of};
use crate::json::{
    object_text, string_value, text_of_object, unsigned_value, values_pairs, JsonView,
};
use crate::number::{decimal, decimal_text};
use crate::sorting::{in_name_order, sort_by_name, Named};
use crate::text::{
    byte_len, characters, has_prefix, has_suffix, holds_text, joined, lemma_same_bytes, same_text,
    text_bytes,
};
use serde_json::Value;
use vstd::prelude::*;
use vstd::string::*;
use vstd::utf8::encode_utf8;

verus! {

/// The length of the key under which requests are fingerprinted.
pub const ROTATION_KEY_BYTES: usize = 32;

/// How far a rotation is.
#[derive(Clone, Copy, Debug, Eq, PartialEq, Structural)]
pub enum JournalPhase {
    Intent,
    Receipt,
}

/// Why a rotation is refused.
#[derive(Clone, Copy, Debug, Eq, PartialEq, Structural)]
pub enum ControlRotationError {
    Invalid,
    PayloadTooLarge,
    Conflict,
    Internal,
}

/// An entry of the journal.
#[derive(Clone, Debug, PartialEq)]
pub struct JournalRecord {
    pub operation_id: String,
    pub authority_id: String,
    pub revision: u64,
    pub fingerprint: String,
    pub secret_ref: String,
    pub phase: JournalPhase,
    pub status: u16,
    pub response: Option<String>,
}

/// The content of a [`JournalRecord`].
pub struct JournalRecordView {
    pub operation_id: Seq<char>,
    pub authority_id: Seq<char>,
    pub revision: u64,
    pub fingerprint: Seq<char>,
    pub secret_ref: Seq<char>,
    pub phase: JournalPhase,
    pub status: u16,
    pub response: Option<Seq<char>>,
}

impl DeepView for JournalRecord {
    type V = JournalRecordView;

    open spec fn deep_view(&self) -> JournalRecordView {
        JournalRecordView {
            operation_id: self.operation_id.deep_view(),
            authority_id: self.authority_id.deep_view(),
            revision: self.revision,
            fingerprint: self.fingerprint.deep_view(),
            secret_ref: self.secret_ref.deep_view(),
            phase: self.phase,
            status: self.status,
            response: self.response.deep_view(),
        }
    }
}

impl Datum for JournalRecord {
    fn replica(&self) -> (copy: Self) {
        JournalRecord {
            operation_id: self.operation_id.replica(),
            authority_id: self.authority_id.replica(),
            revision: self.revision,
            fingerprint: self.fingerprint.replica(),
            secret_ref: self.secret_ref.replica(),
            phase: self.phase,
            status: self.status,
            response: self.response.replica(),
        }
    }
}

/// Which secret of an authority counts.
#[derive(Clone, Debug, PartialEq)]
pub struct ActivePointer {
    pub schema: String,
    pub authority_id: String,
    pub revision: u64,
    pub operation_id: Option<String>,
    pub secret_ref: String,
    pub fingerprint: Option<String>,
    pub response: String,
}

/// The content of a [`ActivePointer`].
pub struct ActivePointerView {
    pub schema: Seq<char>,
    pub authority_id: Seq<char>,
    pub revision: u64,
    pub operation_id: Option<Seq<char>>,
    pub secret_ref: Seq<char>,
    pub fingerprint: Option<Seq<char>>,
    pub response: Seq<char>,
}

impl DeepView for ActivePointer {
    type V = ActivePointerView;

    open spec fn deep_view(&self) -> ActivePointerView {
        ActivePointerView {
            schema: self.schema.deep_view(),
            authority_id: self.authority_id.deep_view(),
            revision: self.revision,
            operation_id: self.operation_id.deep_view(),
            secret_ref: self.secret_ref.deep_view(),
            fingerprint: self.fingerprint.deep_view(),
            response: self.response.deep_view(),
        }
    }
}

impl Datum for ActivePointer {
    fn replica(&self) -> (copy: Self) {
        ActivePointer {
            schema: self.schema.replica(),
            authority_id: self.authority_id.replica(),
            revision: self.revision,
            operation_id: self.operation_id.replica(),
            secret_ref: self.secret_ref.replica(),
            fingerprint: self.fingerprint.replica(),
            response: self.response.replica(),
        }
    }
}

/// An authority as it was first set up.
#[derive(Clone, Debug, PartialEq)]
pub struct InitializationAuthority {
    pub authority_id: String,
    pub revision: u64,
}

/// The content of a [`InitializationAuthority`].
pub struct InitializationAuthorityView {
    pub authority_id: Seq<char>,
    pub revision: u64,
}

impl DeepView for InitializationAuthority {
    type V = InitializationAuthorityView;

    open spec fn deep_view(&self) -> InitializationAuthorityView {
        InitializationAuthorityView {
            authority_id: self.authority_id.deep_view(),
            revision: self.revision,
        }
    }
}

impl Datum for InitializationAuthority {
    fn replica(&self) -> (copy: Self) {
        InitializationAuthority {
            authority_id: self.authority_id.replica(),
            revision: self.revision,
        }
    }
}

impl Same for InitializationAuthority {
    fn same(&self, other: &Self) -> (same: bool) {
        self.authority_id.same(&other.authority_id)
            && self.revision == other.revision
    }
}

/// The authorities for which a store was first set up.
#[derive(Clone, Debug, PartialEq)]
pub struct InitializationFact {
    pub schema: String,
    pub endpoint_id: String,
    pub authorities: Vec<InitializationAuthority>,
}

/// The content of a [`InitializationFact`].
pub struct InitializationFactView {
    pub schema: Seq<char>,
    pub endpoint_id: Seq<char>,
    pub authorities: Seq<InitializationAuthorityView>,
}

impl DeepView for InitializationFact {
    type V = InitializationFactView;

    open spec fn deep_view(&self) -> InitializationFactView {
        InitializationFactView {
            schema: self.schema.deep_view(),
            endpoint_id: self.endpoint_id.deep_view(),
            authorities: self.authorities.deep_view(),
        }
    }
}

impl Datum for InitializationFact {
    fn replica(&self) -> (copy: Self) {
        InitializationFact {
            schema: self.schema.replica(),
            endpoint_id: self.endpoint_id.replica(),
            authorities: self.authorities.replica(),
        }
    }
}

/// The answer to a rotation.
#[derive(Clone, Debug, PartialEq)]
pub struct RotationOutcome {
    pub status: u16,
    pub body: String,
}

/// The content of a [`RotationOutcome`].
pub struct RotationOutcomeView {
    pub status: u16,
    pub body: Seq<char>,
}

impl DeepView for RotationOutcome {
    type V = RotationOutcomeView;

    open spec fn deep_view(&self) -> RotationOutcomeView {
        RotationOutcomeView {
            status: self.status,
            body: self.body.deep_view(),
        }
    }
}

impl Datum for RotationOutcome {
    fn replica(&self) -> (copy: Self) {
        RotationOutcome {
            status: self.status,
            body: self.body.replica(),
        }
    }
}

/// Who asks for a rotation.
#[derive(Clone, Debug, PartialEq)]
pub struct RotationInput {
    pub authority_id: String,
    pub subject: String,
    pub idempotency_key: String,
    pub current_revision: u64,
}

/// The content of a [`RotationInput`].
pub struct RotationInputView {
    pub authority_id: Seq<char>,
    pub subject: Seq<char>,
    pub idempotency_key: Seq<char>,
    pub current_revision: u64,
}

impl DeepView for RotationInput {
    type V = RotationInputView;

    open spec fn deep_view(&self) -> RotationInputView {
        RotationInputView {
            authority_id: self.authority_id.deep_view(),
            subject: self.subject.deep_view(),
            idempotency_key: self.idempotency_key.deep_view(),
            current_revision: self.current_revision,
        }
    }
}

/// A secret in its envelope.
#[derive(Clone, Debug, PartialEq)]
pub struct RotationSecret {
    pub encoding: String,
    pub payload: String,
}

/// The content of a [`RotationSecret`].
pub struct RotationSecretView {
    pub encoding: Seq<char>,
    pub payload: Seq<char>,
}

impl DeepView for RotationSecret {
    type V = RotationSecretView;

    open spec fn deep_view(&self) -> RotationSecretView {
        RotationSecretView {
            encoding: self.encoding.deep_view(),
            payload: self.payload.deep_view(),
        }
    }
}

/// What a rotation asks for.
#[derive(Clone, Debug, PartialEq)]
pub struct ControllerAuthRotationRequest {
    pub schema: String,
    pub authority_id: String,
    pub revision: u64,
    pub secret: RotationSecret,
}

/// The content of a [`ControllerAuthRotationRequest`].
pub struct ControllerAuthRotationRequestView {
    pub schema: Seq<char>,
    pub authority_id: Seq<char>,
    pub revision: u64,
    pub secret: RotationSecretView,
}

impl DeepView for ControllerAuthRotationRequest {
    type V = ControllerAuthRotationRequestView;

    open spec fn deep_view(&self) -> ControllerAuthRotationRequestView {
        ControllerAuthRotationRequestView {
            schema: self.schema.deep_view(),
            authority_id: self.authority_id.deep_view(),
            revision: self.revision,
            secret: self.secret.deep_view(),
        }
    }
}

/// What a rotation calls for.
#[derive(Clone, Debug, PartialEq)]
pub enum RotationPlan {
    /// The revision is not new: the intent, written if it is not yet, gets the receipt of a
    /// conflict.
    Refused { intent: JournalRecord, append: bool },
    /// The secret is staged, the intent written if it is not yet, and the pointer set unless it
    /// is.
    Promoted {
        intent: JournalRecord,
        append: bool,
        pointer: ActivePointer,
        resumed: bool,
    },
}

/// The content of a [`RotationPlan`].
pub enum RotationPlanView {
    Refused { intent: JournalRecordView, append: bool },
    Promoted {
        intent: JournalRecordView,
        append: bool,
        pointer: ActivePointerView,
        resumed: bool,
    },
}

impl DeepView for RotationPlan {
    type V = RotationPlanView;

    open spec fn deep_view(&self) -> RotationPlanView {
        match self {
            RotationPlan::Refused { intent, append } => RotationPlanView::Refused {
                intent: intent.deep_view(),
                append: *append,
            },
            RotationPlan::Promoted {
                intent,
                append,
                pointer,
                resumed,
            } => RotationPlanView::Promoted {
                intent: intent.deep_view(),
                append: *append,
                pointer: pointer.deep_view(),
                resumed: *resumed,
            },
        }
    }
}

/// What is left to do for a pointer after a restart.
#[derive(Clone, Debug, PartialEq)]
pub enum PointerTask {
    Settled,
    /// The receipt is to be written.
    Complete(JournalRecord),
    /// The receipt is written to the journal only.
    Persist(JournalRecord),
    /// The journal has no entry: the receipt must be there.
    ReadReceipt,
}

/// The content of a [`PointerTask`].
pub enum PointerTaskView {
    Settled,
    Complete(JournalRecordView),
    Persist(JournalRecordView),
    ReadReceipt,
}

impl DeepView for PointerTask {
    type V = PointerTaskView;

    open spec fn deep_view(&self) -> PointerTaskView {
        match self {
            PointerTask::Settled => PointerTaskView::Settled,
            PointerTask::Complete(value) => PointerTaskView::Complete(value.deep_view()),
            PointerTask::Persist(value) => PointerTaskView::Persist(value.deep_view()),
            PointerTask::ReadReceipt => PointerTaskView::ReadReceipt,
        }
    }
}

/// What is left to do for an intent after a restart.
#[derive(Clone, Debug, PartialEq)]
pub enum IntentTask {
    Settled,
    /// A later revision counts: the receipt of a conflict is to be written.
    Refused(JournalRecord),
    /// The pointer is to be set and the receipt written.
    Promoted { pointer: ActivePointer, receipt: JournalRecord },
}

/// The content of a [`IntentTask`].
pub enum IntentTaskView {
    Settled,
    Refused(JournalRecordView),
    Promoted { pointer: ActivePointerView, receipt: JournalRecordView },
}

impl DeepView for IntentTask {
    type V = IntentTaskView;

    open spec fn deep_view(&self) -> IntentTaskView {
        match self {
            IntentTask::Settled => IntentTaskView::Settled,
            IntentTask::Refused(value) => IntentTaskView::Refused(value.deep_view()),
            IntentTask::Promoted { pointer, receipt } => IntentTaskView::Promoted {
                pointer: pointer.deep_view(),
                receipt: receipt.deep_view(),
            },
        }
    }
}

impl Named for InitializationAuthority {
    open spec fn name_of(content: InitializationAuthorityView) -> Seq<char> {
        content.authority_id
    }

    fn name(&self) -> (name: &String) {
        &self.authority_id
    }
}

/// The part of a file name that stands for an authority or an operation.
pub open spec fn file_key(id: Seq<char>) -> Seq<char> {
    hex(sha256_of(encode_utf8(id)))
}

/// The file of the secret with which an authority was set up.
pub open spec fn current_secret_name(authority_id: Seq<char>, revision: u64) -> Seq<char> {
    "current-"@ + file_key(authority_id) + "-"@ + decimal(revision as nat) + ".secret"@
}

/// The file of the secret that an operation brought.
pub open spec fn secret_name(
    authority_id: Seq<char>,
    revision: u64,
    operation_id: Seq<char>,
) -> Seq<char> {
    "secret-"@ + file_key(authority_id) + "-"@ + decimal(revision as nat) + "-"@ + file_key(
        operation_id,
    ) + ".secret"@
}

/// The file of the pointer of an authority.
pub open spec fn pointer_name(authority_id: Seq<char>) -> Seq<char> {
    "active-"@ + file_key(authority_id) + ".manifest"@
}

/// The file of a receipt.
pub open spec fn rotation_receipt_name(operation_id: Seq<char>) -> Seq<char> {
    "receipt-"@ + file_key(operation_id) + ".json"@
}

/// The file that marks that an authority was rotated.
pub open spec fn marker_name(authority_id: Seq<char>) -> Seq<char> {
    "rotated-"@ + file_key(authority_id) + ".marker"@
}

/// The body of an answer.
pub open spec fn response_body(status: u16, authority_id: Seq<char>, revision: u64) -> Seq<char> {
    if status == 200 {
        object_text(
            seq![
                ("schema"@, JsonView::Text("zode.controller-auth.v1"@)),
                ("authority_id"@, JsonView::Text(authority_id)),
                ("revision"@, JsonView::Integer(revision as int)),
                ("status"@, JsonView::Text("ready"@)),
            ],
        )
    } else {
        object_text(
            seq![
                ("schema"@, JsonView::Text("zode.controller-auth.v1"@)),
                ("status"@, JsonView::Text("conflict"@)),
            ],
        )
    }
}

fn file_key_text(id: &str) -> (key: String)
    ensures
        key@ == file_key(id@),
{
    hex_text(sha256(id.as_bytes()).as_slice())
}

/// The file of the secret with which an authority was set up.
pub fn expected_current_secret_ref(authority_id: &str, revision: u64) -> (name: String)
    ensures
        name@ == current_secret_name(authority_id@, revision),
{
    let mut name = joined("current-", &file_key_text(authority_id));
    name.append("-");
    name.append(&decimal_text(revision));
    name.append(".secret");
    name
}

/// The file of the secret that an operation brought.
pub fn expected_secret_ref(authority_id: &str, revision: u64, operation_id: &str) -> (name: String)
    ensures
        name@ == secret_name(authority_id@, revision, operation_id@),
{
    let mut name = joined("secret-", &file_key_text(authority_id));
    name.append("-");
    name.append(&decimal_text(revision));
    name.append("-");
    name.append(&file_key_text(operation_id));
    name.append(".secret");
    name
}

/// The file of the pointer of an authority.
pub fn pointer_file_name(authority_id: &str) -> (name: String)
    ensures
        name@ == pointer_name(authority_id@),
{
    let mut name = joined("active-", &file_key_text(authority_id));
    name.append(".manifest");
    name
}

/// The file of a receipt.
pub fn rotation_receipt_file_name(operation_id: &str) -> (name: String)
    ensures
        name@ == rotation_receipt_name(operation_id@),
{
    let mut name = joined("receipt-", &file_key_text(operation_id));
    name.append(".json");
    name
}

/// The file that marks that an authority was rotated.
pub fn rotation_marker_file_name(authority_id: &str) -> (name: String)
    ensures
        name@ == marker_name(authority_id@),
{
    let mut name = joined("rotated-", &file_key_text(authority_id));
    name.append(".marker");
    name
}

/// The body of an answer.
pub fn response_for(status: u16, authority_id: &str, revision: u64) -> (body: String)
    ensures
        body@ == response_body(status, authority_id@, revision),
{
    let mut entries: Vec<(String, Value)> = Vec::new();
    entries.push(
        ("schema".to_string(), string_value("zode.controller-auth.v1".to_string())),
    );
    if status == 200 {
        entries.push(("authority_id".to_string(), string_value(authority_id.to_string())));
        entries.push(("revision".to_string(), unsigned_value(revision)));
        entries.push(("status".to_string(), string_value("ready".to_string())));
        assert(values_pairs(entries@) =~= seq![
            ("schema"@, JsonView::Text("zode.controller-auth.v1"@)),
            ("authority_id"@, JsonView::Text(authority_id@)),
            ("revision"@, JsonView::Integer(revision as int)),
            ("status"@, JsonView::Text("ready"@)),
        ]);
    } else {
        entries.push(("status".to_string(), string_value("conflict".to_string())));
        assert(values_pairs(entries@) =~= seq![
            ("schema"@, JsonView::Text("zode.controller-auth.v1"@)),
            ("status"@, JsonView::Text("conflict"@)),
        ]);
    }
    text_of_object(entries)
}

/// A keyed digest for one purpose, in text.
pub open spec fn purpose_digest(key: Seq<u8>, purpose: Seq<char>, message: Seq<u8>) -> Seq<char> {
    "hmac-sha256:v1:"@ + hex(hmac_sha256_of(key, encode_utf8(purpose) + seq![0u8] + message))
}

fn digest_for(key: &[u8], purpose: &str, message: &[u8]) -> (text: String)
    ensures
        text@ == purpose_digest(key@, purpose@, message@),
{
    let mut bytes: Vec<u8> = Vec::new();
    bytes.extend_from_slice(purpose.as_bytes());
    bytes.push(0);
    bytes.extend_from_slice(message);
    assert(bytes@ =~= encode_utf8(purpose@) + seq![0u8] + message@);
    joined("hmac-sha256:v1:", &hex_text(hmac_sha256(key, bytes.as_slice()).as_slice()))
}

/// The fingerprint of a request, from its encoding.
pub fn rotation_fingerprint(key: &[u8], request: &[u8]) -> (fingerprint: String)
    ensures
        fingerprint@ == purpose_digest(key@, "rotation-fingerprint:v1"@, request@),
{
    digest_for(key, "rotation-fingerprint:v1", request)
}

/// What the id of an operation is made from.
pub open spec fn operation_source(
    authority_id: Seq<char>,
    subject: Seq<char>,
    idempotency_key: Seq<char>,
) -> Seq<u8> {
    encode_utf8("zode.controller-auth.rotate.v1"@) + seq![0u8] + encode_utf8(authority_id) + seq![
        0u8,
    ] + encode_utf8(subject) + seq![0u8] + encode_utf8(idempotency_key)
}

/// The id of an operation: the same for the same authority, subject and idempotency key.
pub fn rotation_operation_id(
    key: &[u8],
    authority_id: &str,
    subject: &str,
    idempotency_key: &str,
) -> (operation_id: String)
    ensures
        operation_id@ == purpose_digest(
            key@,
            "rotation-operation:v1"@,
            operation_source(authority_id@, subject@, idempotency_key@),
        ),
{
    let mut bytes: Vec<u8> = Vec::new();
    bytes.extend_from_slice("zode.controller-auth.rotate.v1".as_bytes());
    bytes.push(0);
    bytes.extend_from_slice(authority_id.as_bytes());
    bytes.push(0);
    bytes.extend_from_slice(subject.as_bytes());
    bytes.push(0);
    bytes.extend_from_slice(idempotency_key.as_bytes());
    assert(bytes@ =~= operation_source(authority_id@, subject@, idempotency_key@));
    digest_for(key, "rotation-operation:v1", bytes.as_slice())
}

/// Whether a character is a hexadecimal digit.
pub open spec fn is_hex_digit(c: char) -> bool {
    '0' <= c <= '9' || 'a' <= c <= 'f' || 'A' <= c <= 'F'
}

/// Whether a text has the form of a keyed digest.
pub open spec fn is_digest_text(text: Seq<char>) -> bool {
    let prefix = "hmac-sha256:v1:"@;
    &&& prefix.is_prefix_of(text)
    &&& text.len() == prefix.len() + 64
    &&& forall|i: int| prefix.len() <= i < text.len() ==> is_hex_digit(#[trigger] text[i])
}

fn valid_digest(value: &str) -> (valid: bool)
    ensures
        valid == is_digest_text(value@),
{
    proof {
        reveal_strlit("hmac-sha256:v1:");
    }
    let all = characters(value);
    if !has_prefix(value, "hmac-sha256:v1:") || all.len() != 79 {
        return false;
    }
    let mut index: usize = 15;
    while index < all.len()
        invariant
            all@ == value@,
            all.len() == 79,
            "hmac-sha256:v1:"@.len() == 15,
            15 <= index <= all.len(),
            forall|i: int| 15 <= i < index ==> is_hex_digit(#[trigger] value@[i]),
        decreases all.len() - index,
    {
        let c = all[index];
        if !(('0' <= c && c <= '9') || ('a' <= c && c <= 'f') || ('A' <= c && c <= 'F')) {
            assert(!is_hex_digit(value@[index as int]));
            return false;
        }
        index += 1;
    }
    true
}

fn same_digest(left: &str, right: &str) -> (same: bool)
    ensures
        same == (left@ == right@),
{
    let same = same_secret(left.as_bytes(), right.as_bytes());
    proof {
        if same {
            lemma_same_bytes(left@, right@);
        }
    }
    same
}

fn holds_digest(optional: &Option<String>, digest: &str) -> (holds: bool)
    ensures
        holds == (optional.deep_view() == Some(digest@)),
{
    match optional {
        Some(present) => same_digest(present, digest),
        None => false,
    }
}

/// Whether an entry of the journal is sound by itself.
pub open spec fn entry_allowed(record: JournalRecordView) -> bool {
    &&& is_digest_text(record.operation_id)
    &&& is_digest_text(record.fingerprint)
    &&& record.authority_id.len() > 0
    &&& record.revision > 0
    &&& record.secret_ref == secret_name(
        record.authority_id,
        record.revision,
        record.operation_id,
    )
    &&& match record.phase {
        JournalPhase::Intent => record.status == 0 && record.response is None,
        JournalPhase::Receipt => {
            &&& record.status == 200 || record.status == 409
            &&& record.response == Some(
                response_body(record.status, record.authority_id, record.revision),
            )
        },
    }
}

fn check_entry(record: &JournalRecord) -> (allowed: bool)
    ensures
        allowed == entry_allowed(record.deep_view()),
{
    if !valid_digest(&record.operation_id) || !valid_digest(&record.fingerprint)
        || record.authority_id.as_str().is_empty() || record.revision == 0 {
        return false;
    }
    if !same_text(
        &record.secret_ref,
        &expected_secret_ref(&record.authority_id, record.revision, &record.operation_id),
    ) {
        return false;
    }
    match record.phase {
        JournalPhase::Intent => record.status == 0 && record.response.is_none(),
        JournalPhase::Receipt => (record.status == 200 || record.status == 409) && holds_text(
            &record.response,
            &response_for(record.status, &record.authority_id, record.revision),
        ),
    }
}

/// The latest entry of an operation.
pub open spec fn latest_entry(records: Seq<JournalRecordView>, operation_id: Seq<char>) -> Option<
    JournalRecordView,
>
    decreases records.len(),
{
    if records.len() == 0 {
        None
    } else if records.last().operation_id == operation_id {
        Some(records.last())
    } else {
        latest_entry(records.drop_last(), operation_id)
    }
}

/// Whether two entries are of the same operation with the same content.
pub open spec fn same_operation(left: JournalRecordView, right: JournalRecordView) -> bool {
    &&& left.operation_id == right.operation_id
    &&& left.authority_id == right.authority_id
    &&& left.revision == right.revision
    &&& left.fingerprint == right.fingerprint
    &&& left.secret_ref == right.secret_ref
}

/// Whether an entry may follow on a journal: an intent on none of its operation, a receipt on its
/// intent.
pub open spec fn may_follow(records: Seq<JournalRecordView>, record: JournalRecordView) -> bool {
    &&& entry_allowed(record)
    &&& match latest_entry(records, record.operation_id) {
        None => record.phase == JournalPhase::Intent,
        Some(previous) => same_operation(previous, record) && previous.phase
            == JournalPhase::Intent && record.phase == JournalPhase::Receipt,
    }
}

/// Whether a journal is sound: each entry may follow on those before it.
pub open spec fn journal_allowed(records: Seq<JournalRecordView>) -> bool
    decreases records.len(),
{
    records.len() == 0 || (journal_allowed(records.drop_last()) && may_follow(
        records.drop_last(),
        records.last(),
    ))
}

fn same_operation_metadata(left: &JournalRecord, right: &JournalRecord) -> (same: bool)
    ensures
        same == same_operation(left.deep_view(), right.deep_view()),
{
    same_digest(&left.operation_id, &right.operation_id) && left.authority_id.same(
        &right.authority_id,
    ) && left.revision == right.revision && same_digest(&left.fingerprint, &right.fingerprint)
        && left.secret_ref.same(&right.secret_ref)
}

fn latest_before<'a>(records: &'a Vec<JournalRecord>, end: usize, operation_id: &str) -> (found:
    Option<&'a JournalRecord>)
    requires
        end <= records.len(),
    ensures
        found.deep_view() == latest_entry(records.deep_view().take(end as int), operation_id@),
{
    let ghost view = records.deep_view();
    let mut index: usize = end;
    while index > 0
        invariant
            view == records.deep_view(),
            index <= end <= records.len(),
            latest_entry(view.take(end as int), operation_id@) == latest_entry(
                view.take(index as int),
                operation_id@,
            ),
        decreases index,
    {
        assert(view.take(index as int).drop_last() =~= view.take(index - 1));
        assert(view.take(index as int).last() == records[index - 1].deep_view());
        if same_digest(&records[index - 1].operation_id, operation_id) {
            return Some(&records[index - 1]);
        }
        index -= 1;
    }
    None
}

fn check_follows(
    records: &Vec<JournalRecord>,
    end: usize,
    record: &JournalRecord,
) -> (allowed: bool)
    requires
        end <= records.len(),
    ensures
        allowed == may_follow(records.deep_view().take(end as int), record.deep_view()),
{
    if !check_entry(record) {
        return false;
    }
    match latest_before(records, end, &record.operation_id) {
        None => record.phase == JournalPhase::Intent,
        Some(previous) => same_operation_metadata(previous, record) && previous.phase
            == JournalPhase::Intent && record.phase == JournalPhase::Receipt,
    }
}

proof fn lemma_journal_prefix(records: Seq<JournalRecordView>, n: int)
    requires
        0 <= n <= records.len(),
        journal_allowed(records),
    ensures
        journal_allowed(records.take(n)),
    decreases records.len() - n,
{
    if n == records.len() {
        assert(records.take(n) =~= records);
    } else {
        lemma_journal_prefix(records, n + 1);
        assert(records.take(n + 1).drop_last() =~= records.take(n));
    }
}

/// Checks a whole journal.
pub fn validate_history(records: &Vec<JournalRecord>) -> (result: Result<(), ControlInitError>)
    ensures
        result == if journal_allowed(records.deep_view()) {
            Ok::<(), ControlInitError>(())
        } else {
            Err::<(), ControlInitError>(ControlInitError::Invalid)
        },
{
    let ghost view = records.deep_view();
    let mut index: usize = 0;
    while index < records.len()
        invariant
            view == records.deep_view(),
            index <= records.len(),
            journal_allowed(view.take(index as int)),
        decreases records.len() - index,
    {
        assert(view.take(index + 1).drop_last() =~= view.take(index as int));
        if !check_follows(records, index, &records[index]) {
            proof {
                if journal_allowed(view) {
                    lemma_journal_prefix(view, index + 1);
                }
            }
            return Err(ControlInitError::Invalid);
        }
        index += 1;
    }
    assert(view.take(index as int) =~= view);
    Ok(())
}

/// The journal of rotations, as far as it was not compacted.
pub struct RotationJournal {
    records: Vec<JournalRecord>,
}

impl DeepView for RotationJournal {
    type V = Seq<JournalRecordView>;

    closed spec fn deep_view(&self) -> Self::V {
        self.records.deep_view()
    }
}

/// Whether an entry stays in a compacted journal: an intent that has no receipt yet, and all of
/// the current operation once it has one.
pub open spec fn stays(
    records: Seq<JournalRecordView>,
    current: Option<Seq<char>>,
    record: JournalRecordView,
) -> bool {
    match latest_entry(records, record.operation_id) {
        None => false,
        Some(latest) => {
            let is_current = current == Some(record.operation_id) && latest.phase
                == JournalPhase::Receipt;
            match record.phase {
                JournalPhase::Intent => latest.phase == JournalPhase::Intent || is_current,
                JournalPhase::Receipt => is_current,
            }
        },
    }
}

/// The journal without what it need not keep.
pub open spec fn compacted(records: Seq<JournalRecordView>, current: Option<Seq<char>>) -> Seq<
    JournalRecordView,
> {
    records.filter(|record: JournalRecordView| stays(records, current, record))
}

/// Whether the latest entry of an operation is an intent.
pub open spec fn is_unanswered(records: Seq<JournalRecordView>, operation_id: Seq<char>) -> bool {
    latest_entry(records, operation_id) matches Some(latest) && latest.phase
        == JournalPhase::Intent
}

/// The intents of the operations that were not answered.
pub open spec fn pending_entries(records: Seq<JournalRecordView>) -> Seq<JournalRecordView> {
    records.filter(
        |record: JournalRecordView|
            record.phase == JournalPhase::Intent && is_unanswered(records, record.operation_id),
    )
}

impl RotationJournal {
    /// A journal that was read, if it is sound.
    pub fn open(records: Vec<JournalRecord>) -> (result: Result<Self, ControlInitError>)
        ensures
            if journal_allowed(records.deep_view()) {
                result matches Ok(journal) && journal.deep_view() == records.deep_view()
            } else {
                result matches Err(error) && error == ControlInitError::Invalid
            },
    {
        validate_history(&records)?;
        Ok(RotationJournal { records })
    }

    /// The latest entry of an operation.
    pub fn latest_for(&self, operation_id: &str) -> (found: Option<&JournalRecord>)
        ensures
            found.deep_view() == latest_entry(self.deep_view(), operation_id@),
    {
        let ghost view = self.deep_view();
        assert(view.take(view.len() as int) =~= view);
        latest_before(&self.records, self.records.len(), operation_id)
    }

    /// Adds an entry, if the journal stays sound with it.
    pub fn append_record(&mut self, record: JournalRecord) -> (result: Result<(), ControlInitError>)
        ensures
            if journal_allowed(old(self).deep_view().push(record.deep_view())) {
                &&& result is Ok
                &&& final(self).deep_view() == old(self).deep_view().push(record.deep_view())
            } else {
                &&& result == Err::<(), ControlInitError>(ControlInitError::Invalid)
                &&& final(self).deep_view() == old(self).deep_view()
            },
    {
        let ghost view = self.deep_view();
        let ghost added = record.deep_view();
        assert(view.take(view.len() as int) =~= view);
        assert(view.push(added).drop_last() =~= view);
        validate_history(&self.records)?;
        if !check_follows(&self.records, self.records.len(), &record) {
            return Err(ControlInitError::Invalid);
        }
        self.records.push(record);
        assert(self.deep_view() =~= view.push(added));
        Ok(())
    }

    fn keeps(&self, current: Option<&str>, record: &JournalRecord) -> (keeps: bool)
        ensures
            keeps == stays(self.deep_view(), current.deep_view(), record.deep_view()),
    {
        match self.latest_for(&record.operation_id) {
            None => false,
            Some(latest) => {
                let is_current = match current {
                    Some(operation) => same_digest(operation, &record.operation_id),
                    None => false,
                } && latest.phase == JournalPhase::Receipt;
                match record.phase {
                    JournalPhase::Intent => latest.phase == JournalPhase::Intent || is_current,
                    JournalPhase::Receipt => is_current,
                }
            },
        }
    }

    /// Leaves out what the journal need not keep.
    pub fn compact(&self, current: Option<&str>) -> (journal: Self)
        ensures
            journal.deep_view() == compacted(self.deep_view(), current.deep_view()),
    {
        let ghost view = self.deep_view();
        let ghost keep = |record: JournalRecordView| stays(view, current.deep_view(), record);
        let mut records: Vec<JournalRecord> = Vec::new();
        let mut index: usize = 0;
        proof {
            reveal(Seq::filter);
            assert(view.take(0) =~= Seq::empty());
            assert(records.deep_view() =~= Seq::empty());
        }
        while index < self.records.len()
            invariant
                view == self.deep_view(),
                view == self.records.deep_view(),
                keep == (|record: JournalRecordView| stays(view, current.deep_view(), record)),
                index <= self.records.len(),
                records.deep_view() == view.take(index as int).filter(keep),
            decreases self.records.len() - index,
        {
            proof {
                reveal(Seq::filter);
                assert(view.take(index + 1).drop_last() =~= view.take(index as int));
            }
            if self.keeps(current, &self.records[index]) {
                let ghost before = records.deep_view();
                records.push(self.records[index].replica());
                assert(records.deep_view() =~= before.push(view[index as int]));
            }
            index += 1;
        }
        assert(view.take(index as int) =~= view);
        RotationJournal { records }
    }

    /// Whether an operation still waits for its receipt.
    pub fn awaits_receipt(&self, operation_id: &str) -> (awaits: bool)
        ensures
            awaits == is_unanswered(self.deep_view(), operation_id@),
    {
        match self.latest_for(operation_id) {
            Some(latest) => latest.phase == JournalPhase::Intent,
            None => false,
        }
    }

    /// The intents that still wait for their receipts, in the order of the journal.
    pub fn pending(&self) -> (pending: Vec<JournalRecord>)
        ensures
            pending.deep_view() == pending_entries(self.deep_view()),
    {
        let ghost view = self.deep_view();
        let ghost waits = |record: JournalRecordView|
            record.phase == JournalPhase::Intent && is_unanswered(view, record.operation_id);
        let mut pending: Vec<JournalRecord> = Vec::new();
        let mut index: usize = 0;
        proof {
            reveal(Seq::filter);
            assert(view.take(0) =~= Seq::empty());
            assert(pending.deep_view() =~= Seq::empty());
        }
        while index < self.records.len()
            invariant
                view == self.deep_view(),
                view == self.records.deep_view(),
                waits == (|record: JournalRecordView|
                    record.phase == JournalPhase::Intent && is_unanswered(
                        view,
                        record.operation_id,
                    )),
                index <= self.records.len(),
                pending.deep_view() == view.take(index as int).filter(waits),
            decreases self.records.len() - index,
        {
            proof {
                reveal(Seq::filter);
                assert(view.take(index + 1).drop_last() =~= view.take(index as int));
            }
            let record = &self.records[index];
            assert(view[index as int] == record.deep_view());
            if record.phase == JournalPhase::Intent && self.awaits_receipt(&record.operation_id) {
                let ghost before = pending.deep_view();
                pending.push(record.replica());
                assert(pending.deep_view() =~= before.push(view[index as int]));
            }
            index += 1;
        }
        assert(view.take(index as int) =~= view);
        pending
    }

    /// The entries.
    pub fn records(&self) -> (records: &Vec<JournalRecord>)
        ensures
            records.deep_view() == self.deep_view(),
    {
        &self.records
    }
}

/// Whether a pointer stands for an entry.
pub open spec fn points_to(pointer: ActivePointerView, record: JournalRecordView) -> bool {
    &&& pointer.authority_id == record.authority_id
    &&& pointer.revision == record.revision
    &&& pointer.secret_ref == record.secret_ref
    &&& pointer.operation_id == Some(record.operation_id)
    &&& pointer.fingerprint == Some(record.fingerprint)
}

fn same_pointer_record(pointer: &ActivePointer, record: &JournalRecord) -> (same: bool)
    ensures
        same == points_to(pointer.deep_view(), record.deep_view()),
{
    pointer.authority_id.same(&record.authority_id) && pointer.revision == record.revision
        && pointer.secret_ref.same(&record.secret_ref) && holds_digest(
        &pointer.operation_id,
        &record.operation_id,
    ) && holds_digest(&pointer.fingerprint, &record.fingerprint)
}

/// Whether a pointer is sound, in the file that it was read from.
pub open spec fn pointer_allowed(pointer: ActivePointerView, file_name: Seq<char>) -> bool {
    &&& pointer.schema == "zode.controller-auth.pointer.v1"@
    &&& pointer.authority_id.len() > 0
    &&& pointer.revision > 0
    &&& pointer.response == response_body(200, pointer.authority_id, pointer.revision)
    &&& file_name == pointer_name(pointer.authority_id)
    &&& match (pointer.operation_id, pointer.fingerprint) {
        (None, None) => pointer.secret_ref == current_secret_name(
            pointer.authority_id,
            pointer.revision,
        ),
        (Some(operation_id), Some(fingerprint)) => is_digest_text(operation_id) && is_digest_text(
            fingerprint,
        ) && pointer.secret_ref == secret_name(
            pointer.authority_id,
            pointer.revision,
            operation_id,
        ),
        _ => false,
    }
}

/// Checks a pointer.
pub fn validate_pointer(pointer: &ActivePointer, file_name: &str) -> (result: Result<
    (),
    ControlInitError,
>)
    ensures
        result == if pointer_allowed(pointer.deep_view(), file_name@) {
            Ok::<(), ControlInitError>(())
        } else {
            Err::<(), ControlInitError>(ControlInitError::Invalid)
        },
{
    if !same_text(&pointer.schema, "zode.controller-auth.pointer.v1")
        || pointer.authority_id.as_str().is_empty() || pointer.revision == 0 || !same_text(
        &pointer.response,
        &response_for(200, &pointer.authority_id, pointer.revision),
    ) || !same_text(file_name, &pointer_file_name(&pointer.authority_id)) {
        return Err(ControlInitError::Invalid);
    }
    let allowed = match (&pointer.operation_id, &pointer.fingerprint) {
        (None, None) => same_text(
            &pointer.secret_ref,
            &expected_current_secret_ref(&pointer.authority_id, pointer.revision),
        ),
        (Some(operation_id), Some(fingerprint)) => valid_digest(operation_id) && valid_digest(
            fingerprint,
        ) && same_text(
            &pointer.secret_ref,
            &expected_secret_ref(&pointer.authority_id, pointer.revision, operation_id),
        ),
        _ => false,
    };
    if allowed {
        Ok(())
    } else {
        Err(ControlInitError::Invalid)
    }
}

/// Checks a receipt that was read for an operation of an authority.
pub fn validate_receipt(receipt: &JournalRecord, operation_id: &str, authority_id: &str) -> (result:
    Result<(), ControlInitError>)
    ensures
        result == if entry_allowed(receipt.deep_view()) && receipt.phase == JournalPhase::Receipt
            && receipt.authority_id@ == authority_id@ && receipt.operation_id@ == operation_id@ {
            Ok::<(), ControlInitError>(())
        } else {
            Err::<(), ControlInitError>(ControlInitError::Invalid)
        },
{
    if check_entry(receipt) && receipt.phase == JournalPhase::Receipt && same_text(
        &receipt.authority_id,
        authority_id,
    ) && same_digest(&receipt.operation_id, operation_id) {
        Ok(())
    } else {
        Err(ControlInitError::Invalid)
    }
}

/// Whether two receipts say the same.
pub open spec fn receipts_agree(left: JournalRecordView, right: JournalRecordView) -> bool {
    &&& left.phase == JournalPhase::Receipt
    &&& right.phase == JournalPhase::Receipt
    &&& same_operation(left, right)
    &&& left.status == right.status
    &&& left.response == right.response
}

/// Checks that a receipt which is there already says what is to be written.
pub fn confirm_receipt(existing: &JournalRecord, receipt: &JournalRecord) -> (result: Result<
    (),
    ControlInitError,
>)
    ensures
        result == if receipts_agree(existing.deep_view(), receipt.deep_view()) {
            Ok::<(), ControlInitError>(())
        } else {
            Err::<(), ControlInitError>(ControlInitError::Invalid)
        },
{
    if existing.phase == JournalPhase::Receipt && receipt.phase == JournalPhase::Receipt
        && same_operation_metadata(existing, receipt) && existing.status == receipt.status
        && existing.response.same(&receipt.response) {
        Ok(())
    } else {
        Err(ControlInitError::Invalid)
    }
}

/// The intent of an operation.
pub open spec fn intent_for(
    authority_id: Seq<char>,
    revision: u64,
    operation_id: Seq<char>,
    fingerprint: Seq<char>,
) -> JournalRecordView {
    JournalRecordView {
        operation_id,
        authority_id,
        revision,
        fingerprint,
        secret_ref: secret_name(authority_id, revision, operation_id),
        phase: JournalPhase::Intent,
        status: 0,
        response: None,
    }
}

/// The receipt of an intent.
pub open spec fn receipt_of(intent: JournalRecordView, status: u16) -> JournalRecordView {
    JournalRecordView {
        phase: JournalPhase::Receipt,
        status,
        response: Some(response_body(status, intent.authority_id, intent.revision)),
        ..intent
    }
}

/// The receipt of an intent.
pub fn complete_receipt(intent: &JournalRecord, status: u16) -> (result: Result<
    JournalRecord,
    ControlRotationError,
>)
    ensures
        if intent.phase == JournalPhase::Intent {
            result matches Ok(receipt) && receipt.deep_view() == receipt_of(
                intent.deep_view(),
                status,
            )
        } else {
            result == Err::<JournalRecord, ControlRotationError>(ControlRotationError::Internal)
        },
{
    if intent.phase != JournalPhase::Intent {
        return Err(ControlRotationError::Internal);
    }
    Ok(receipt_record(intent, status))
}

fn receipt_record(intent: &JournalRecord, status: u16) -> (receipt: JournalRecord)
    ensures
        receipt.deep_view() == receipt_of(intent.deep_view(), status),
{
    JournalRecord {
        operation_id: intent.operation_id.clone(),
        authority_id: intent.authority_id.clone(),
        revision: intent.revision,
        fingerprint: intent.fingerprint.clone(),
        secret_ref: intent.secret_ref.clone(),
        phase: JournalPhase::Receipt,
        status,
        response: Some(response_for(status, &intent.authority_id, intent.revision)),
    }
}

/// The pointer that an intent is promoted by.
pub open spec fn pointer_for(intent: JournalRecordView) -> ActivePointerView {
    ActivePointerView {
        schema: "zode.controller-auth.pointer.v1"@,
        authority_id: intent.authority_id,
        revision: intent.revision,
        operation_id: Some(intent.operation_id),
        secret_ref: intent.secret_ref,
        fingerprint: Some(intent.fingerprint),
        response: response_body(200, intent.authority_id, intent.revision),
    }
}

fn promoted_pointer(intent: &JournalRecord) -> (pointer: ActivePointer)
    ensures
        pointer.deep_view() == pointer_for(intent.deep_view()),
{
    ActivePointer {
        schema: "zode.controller-auth.pointer.v1".to_string(),
        authority_id: intent.authority_id.clone(),
        revision: intent.revision,
        operation_id: Some(intent.operation_id.clone()),
        secret_ref: intent.secret_ref.clone(),
        fingerprint: Some(intent.fingerprint.clone()),
        response: response_for(200, &intent.authority_id, intent.revision),
    }
}

/// The answer that an entry holds.
pub open spec fn entry_outcome(record: JournalRecordView) -> Result<
    RotationOutcomeView,
    ControlRotationError,
> {
    match record.response {
        Some(body) => Ok(RotationOutcomeView { status: record.status, body }),
        None => Err(ControlRotationError::Internal),
    }
}

/// The answer that an entry holds.
pub fn outcome_for_record(record: &JournalRecord) -> (result: Result<
    RotationOutcome,
    ControlRotationError,
>)
    ensures
        match result {
            Ok(outcome) => entry_outcome(record.deep_view()) == Ok::<
                RotationOutcomeView,
                ControlRotationError,
            >(outcome.deep_view()),
            Err(error) => entry_outcome(record.deep_view()) == Err::<
                RotationOutcomeView,
                ControlRotationError,
            >(error),
        },
{
    match &record.response {
        Some(body) => Ok(RotationOutcome { status: record.status, body: body.clone() }),
        None => Err(ControlRotationError::Internal),
    }
}

/// What is known of an operation from its receipt, or else from the journal: an operation with
/// another request is refused, one that was answered is answered the same, and of another there
/// may be an intent.
pub open spec fn replay_step(
    receipt: Option<JournalRecordView>,
    existing: Option<JournalRecordView>,
    fingerprint: Seq<char>,
) -> Result<Option<RotationOutcomeView>, ControlRotationError> {
    let known = if receipt is Some {
        receipt
    } else {
        existing
    };
    match known {
        None => Ok(None),
        Some(record) => if record.fingerprint != fingerprint {
            Err(ControlRotationError::Conflict)
        } else if receipt is Some || record.phase == JournalPhase::Receipt {
            match entry_outcome(record) {
                Ok(outcome) => Ok(Some(outcome)),
                Err(error) => Err(error),
            }
        } else {
            Ok(None)
        },
    }
}

/// The answer to an operation that was answered, if it was.
pub fn replay_rotation(
    receipt: Option<&JournalRecord>,
    existing: Option<&JournalRecord>,
    fingerprint: &str,
) -> (result: Result<Option<RotationOutcome>, ControlRotationError>)
    ensures
        match result {
            Ok(outcome) => replay_step(
                receipt.deep_view(),
                existing.deep_view(),
                fingerprint@,
            ) == Ok::<Option<RotationOutcomeView>, ControlRotationError>(outcome.deep_view()),
            Err(error) => replay_step(
                receipt.deep_view(),
                existing.deep_view(),
                fingerprint@,
            ) == Err::<Option<RotationOutcomeView>, ControlRotationError>(error),
        },
{
    if let Some(receipt) = receipt {
        if !same_digest(&receipt.fingerprint, fingerprint) {
            return Err(ControlRotationError::Conflict);
        }
        return match outcome_for_record(receipt) {
            Ok(outcome) => Ok(Some(outcome)),
            Err(error) => Err(error),
        };
    }
    if let Some(record) = existing {
        if !same_digest(&record.fingerprint, fingerprint) {
            return Err(ControlRotationError::Conflict);
        }
        if record.phase == JournalPhase::Receipt {
            return match outcome_for_record(record) {
                Ok(outcome) => Ok(Some(outcome)),
                Err(error) => Err(error),
            };
        }
    }
    Ok(None)
}

/// The pointer of an authority, or the one that its setting up implies.
pub open spec fn current_pointer(
    pointer: Option<ActivePointerView>,
    input: RotationInputView,
) -> ActivePointerView {
    match pointer {
        Some(pointer) => pointer,
        None => ActivePointerView {
            schema: "zode.controller-auth.pointer.v1"@,
            authority_id: input.authority_id,
            revision: input.current_revision,
            operation_id: None,
            secret_ref: current_secret_name(input.authority_id, input.current_revision),
            fingerprint: None,
            response: response_body(200, input.authority_id, input.current_revision),
        },
    }
}

/// What a rotation calls for, where its operation was not answered. A revision must be new: higher
/// than the one that counts and than the one that the caller knows, unless this very operation
/// has set the pointer already.
pub open spec fn rotation_plan(
    existing: Option<JournalRecordView>,
    pointer: Option<ActivePointerView>,
    input: RotationInputView,
    revision: u64,
    operation_id: Seq<char>,
    fingerprint: Seq<char>,
) -> Result<RotationPlanView, ControlRotationError> {
    let current = current_pointer(pointer, input);
    let promoted = current.operation_id == Some(operation_id) && current.fingerprint == Some(
        fingerprint,
    );
    let intent = match existing {
        Some(record) => record,
        None => intent_for(input.authority_id, revision, operation_id, fingerprint),
    };
    if current.authority_id != input.authority_id {
        Err(ControlRotationError::Internal)
    } else if !promoted && (current.revision >= revision || revision <= input.current_revision) {
        Ok(RotationPlanView::Refused { intent, append: existing is None })
    } else if points_to(current, intent) {
        Ok(
            RotationPlanView::Promoted {
                intent,
                append: existing is None,
                pointer: current,
                resumed: true,
            },
        )
    } else {
        Ok(
            RotationPlanView::Promoted {
                intent,
                append: existing is None,
                pointer: ActivePointerView {
                    schema: "zode.controller-auth.pointer.v1"@,
                    authority_id: input.authority_id,
                    revision,
                    operation_id: Some(operation_id),
                    secret_ref: intent.secret_ref,
                    fingerprint: Some(fingerprint),
                    response: response_body(200, input.authority_id, revision),
                },
                resumed: false,
            },
        )
    }
}

/// Decides on a rotation whose operation was not answered.
pub fn plan_rotation(
    existing: Option<&JournalRecord>,
    pointer: Option<ActivePointer>,
    input: &RotationInput,
    revision: u64,
    operation_id: &str,
    fingerprint: &str,
) -> (result: Result<RotationPlan, ControlRotationError>)
    ensures
        match result {
            Ok(plan) => rotation_plan(
                existing.deep_view(),
                pointer.deep_view(),
                input.deep_view(),
                revision,
                operation_id@,
                fingerprint@,
            ) == Ok::<RotationPlanView, ControlRotationError>(plan.deep_view()),
            Err(error) => rotation_plan(
                existing.deep_view(),
                pointer.deep_view(),
                input.deep_view(),
                revision,
                operation_id@,
                fingerprint@,
            ) == Err::<RotationPlanView, ControlRotationError>(error),
        },
{
    let current = match pointer {
        Some(pointer) => pointer,
        None => ActivePointer {
            schema: "zode.controller-auth.pointer.v1".to_string(),
            authority_id: input.authority_id.clone(),
            revision: input.current_revision,
            operation_id: None,
            secret_ref: expected_current_secret_ref(&input.authority_id, input.current_revision),
            fingerprint: None,
            response: response_for(200, &input.authority_id, input.current_revision),
        },
    };
    if !same_text(&current.authority_id, &input.authority_id) {
        return Err(ControlRotationError::Internal);
    }
    let append = existing.is_none();
    let intent = match existing {
        Some(record) => record.replica(),
        None => JournalRecord {
            operation_id: operation_id.to_string(),
            authority_id: input.authority_id.clone(),
            revision,
            fingerprint: fingerprint.to_string(),
            secret_ref: expected_secret_ref(&input.authority_id, revision, operation_id),
            phase: JournalPhase::Intent,
            status: 0,
            response: None,
        },
    };
    let promoted = holds_digest(&current.operation_id, operation_id) && holds_digest(
        &current.fingerprint,
        fingerprint,
    );
    if !promoted && (current.revision >= revision || revision <= input.current_revision) {
        return Ok(RotationPlan::Refused { intent, append });
    }
    if same_pointer_record(&current, &intent) {
        return Ok(RotationPlan::Promoted { intent, append, pointer: current, resumed: true });
    }
    let pointer = ActivePointer {
        schema: "zode.controller-auth.pointer.v1".to_string(),
        authority_id: input.authority_id.clone(),
        revision,
        operation_id: Some(operation_id.to_string()),
        secret_ref: intent.secret_ref.clone(),
        fingerprint: Some(fingerprint.to_string()),
        response: response_for(200, &input.authority_id, revision),
    };
    Ok(RotationPlan::Promoted { intent, append, pointer, resumed: false })
}

/// Checks a secret that is staged already against the one that was asked for.
pub fn check_staged_secret(staged: &[u8], candidate: &[u8]) -> (result: Result<
    (),
    ControlRotationError,
>)
    ensures
        result == if staged@ == candidate@ {
            Ok::<(), ControlRotationError>(())
        } else {
            Err::<(), ControlRotationError>(ControlRotationError::Conflict)
        },
{
    if same_secret(staged, candidate) {
        Ok(())
    } else {
        Err(ControlRotationError::Conflict)
    }
}

/// How a rotation ends once its pointer is set.
#[derive(Clone, Debug, PartialEq)]
pub enum RotationEnd {
    /// It was answered before.
    Answered(RotationOutcome),
    /// The receipt is to be written.
    Receipt(JournalRecord),
}

/// The content of a [`RotationEnd`].
pub enum RotationEndView {
    Answered(RotationOutcomeView),
    Receipt(JournalRecordView),
}

impl DeepView for RotationEnd {
    type V = RotationEndView;

    open spec fn deep_view(&self) -> RotationEndView {
        match self {
            RotationEnd::Answered(value) => RotationEndView::Answered(value.deep_view()),
            RotationEnd::Receipt(value) => RotationEndView::Receipt(value.deep_view()),
        }
    }
}

/// The end of a rotation whose pointer is set: the journal must hold its entry, and the secret be
/// the one that was asked for.
pub open spec fn finish_step(
    pointer: ActivePointerView,
    latest: Option<JournalRecordView>,
    secret: Seq<u8>,
    candidate: Seq<u8>,
) -> Result<RotationEndView, ControlRotationError> {
    match latest {
        None => Err(ControlRotationError::Internal),
        Some(record) => if !points_to(pointer, record) {
            Err(ControlRotationError::Internal)
        } else if secret != candidate {
            Err(ControlRotationError::Conflict)
        } else if record.phase == JournalPhase::Receipt {
            match entry_outcome(record) {
                Ok(outcome) => Ok(RotationEndView::Answered(outcome)),
                Err(error) => Err(error),
            }
        } else {
            Ok(RotationEndView::Receipt(receipt_of(record, 200)))
        },
    }
}

/// Ends a rotation whose pointer is set.
pub fn finish_rotation(
    pointer: &ActivePointer,
    latest: Option<&JournalRecord>,
    secret: &[u8],
    candidate: &[u8],
) -> (result: Result<RotationEnd, ControlRotationError>)
    ensures
        match result {
            Ok(end) => finish_step(
                pointer.deep_view(),
                latest.deep_view(),
                secret@,
                candidate@,
            ) == Ok::<RotationEndView, ControlRotationError>(end.deep_view()),
            Err(error) => finish_step(
                pointer.deep_view(),
                latest.deep_view(),
                secret@,
                candidate@,
            ) == Err::<RotationEndView, ControlRotationError>(error),
        },
{
    let record = match latest {
        Some(record) => record,
        None => {
            return Err(ControlRotationError::Internal);
        },
    };
    if !same_pointer_record(pointer, record) {
        return Err(ControlRotationError::Internal);
    }
    check_staged_secret(secret, candidate)?;
    if record.phase == JournalPhase::Receipt {
        return match outcome_for_record(record) {
            Ok(outcome) => Ok(RotationEnd::Answered(outcome)),
            Err(error) => Err(error),
        };
    }
    Ok(RotationEnd::Receipt(receipt_record(record, 200)))
}

/// What is left to do for a pointer after a restart. A pointer of an operation goes with the mark
/// of a rotation, and the journal must agree with it.
pub open spec fn pointer_task(
    pointer: ActivePointerView,
    rotated: bool,
    latest: Option<JournalRecordView>,
) -> Result<PointerTaskView, ControlInitError> {
    if pointer.operation_id is Some != rotated {
        Err(ControlInitError::Invalid)
    } else if pointer.operation_id is None {
        if pointer.fingerprint is Some {
            Err(ControlInitError::Invalid)
        } else {
            Ok(PointerTaskView::Settled)
        }
    } else {
        match latest {
            None => Ok(PointerTaskView::ReadReceipt),
            Some(record) => if !points_to(pointer, record) {
                Err(ControlInitError::Invalid)
            } else if record.phase == JournalPhase::Intent {
                Ok(PointerTaskView::Complete(receipt_of(record, 200)))
            } else if record.status == 200 {
                Ok(PointerTaskView::Persist(record))
            } else {
                Err(ControlInitError::Invalid)
            },
        }
    }
}

/// Decides what is left to do for a pointer after a restart.
pub fn reconcile_pointer(
    pointer: &ActivePointer,
    rotated: bool,
    latest: Option<&JournalRecord>,
) -> (result: Result<PointerTask, ControlInitError>)
    ensures
        match result {
            Ok(task) => pointer_task(pointer.deep_view(), rotated, latest.deep_view()) == Ok::<
                PointerTaskView,
                ControlInitError,
            >(task.deep_view()),
            Err(error) => pointer_task(pointer.deep_view(), rotated, latest.deep_view()) == Err::<
                PointerTaskView,
                ControlInitError,
            >(error),
        },
{
    if pointer.operation_id.is_some() != rotated {
        return Err(ControlInitError::Invalid);
    }
    if pointer.operation_id.is_none() {
        if pointer.fingerprint.is_some() {
            return Err(ControlInitError::Invalid);
        }
        return Ok(PointerTask::Settled);
    }
    match latest {
        None => Ok(PointerTask::ReadReceipt),
        Some(record) => {
            if !same_pointer_record(pointer, record) {
                return Err(ControlInitError::Invalid);
            }
            if record.phase == JournalPhase::Intent {
                Ok(PointerTask::Complete(receipt_record(record, 200)))
            } else if record.status == 200 {
                Ok(PointerTask::Persist(record.replica()))
            } else {
                Err(ControlInitError::Invalid)
            }
        },
    }
}

/// Checks the receipt of a pointer that the journal knows nothing of.
pub fn confirm_pointer(pointer: &ActivePointer, receipt: Option<&JournalRecord>) -> (result: Result<
    (),
    ControlInitError,
>)
    ensures
        result == match receipt.deep_view() {
            Some(record) if points_to(pointer.deep_view(), record) && record.status == 200 => Ok::<
                (),
                ControlInitError,
            >(()),
            _ => Err::<(), ControlInitError>(ControlInitError::Invalid),
        },
{
    match receipt {
        Some(record) => if same_pointer_record(pointer, record) && record.status == 200 {
            Ok(())
        } else {
            Err(ControlInitError::Invalid)
        },
        None => Err(ControlInitError::Invalid),
    }
}

/// What is left to do for an intent after a restart: nothing where the pointer stands for it, a
/// conflict where a later revision counts, and else its promotion.
pub open spec fn intent_task(
    record: JournalRecordView,
    current: Option<ActivePointerView>,
) -> IntentTaskView {
    if current matches Some(pointer) && points_to(pointer, record) {
        IntentTaskView::Settled
    } else if current matches Some(pointer) && pointer.revision >= record.revision {
        IntentTaskView::Refused(receipt_of(record, 409))
    } else {
        IntentTaskView::Promoted {
            pointer: pointer_for(record),
            receipt: receipt_of(record, 200),
        }
    }
}

/// Decides what is left to do for an intent after a restart.
pub fn reconcile_intent(record: &JournalRecord, current: Option<&ActivePointer>) -> (task:
    IntentTask)
    ensures
        task.deep_view() == intent_task(record.deep_view(), current.deep_view()),
{
    if let Some(pointer) = current {
        if same_pointer_record(pointer, record) {
            return IntentTask::Settled;
        }
        if pointer.revision >= record.revision {
            return IntentTask::Refused(receipt_record(record, 409));
        }
    }
    IntentTask::Promoted {
        pointer: promoted_pointer(record),
        receipt: receipt_record(record, 200),
    }
}

/// Whether a request is sound, for the authority that makes it. `token_valid` tells whether the
/// secret can be a bearer token.
pub open spec fn rotation_request_fault(
    authority_id: Seq<char>,
    request: ControllerAuthRotationRequestView,
    max_secret_bytes: usize,
    token_valid: bool,
) -> Option<ControlRotationError> {
    if request.schema != "zode.controller-auth.rotate.v1"@ || request.authority_id != authority_id
        || request.secret.encoding != "application/zode-secret-envelope"@ || request.revision
        == 0 {
        Some(ControlRotationError::Invalid)
    } else if byte_len(request.secret.payload) > max_secret_bytes {
        Some(ControlRotationError::PayloadTooLarge)
    } else if !token_valid {
        Some(ControlRotationError::Invalid)
    } else {
        None
    }
}

/// Checks a request.
pub fn validate_request(
    authority_id: &str,
    request: &ControllerAuthRotationRequest,
    max_secret_bytes: usize,
    token_valid: bool,
) -> (result: Result<(), ControlRotationError>)
    ensures
        result == match rotation_request_fault(
            authority_id@,
            request.deep_view(),
            max_secret_bytes,
            token_valid,
        ) {
            Some(error) => Err::<(), ControlRotationError>(error),
            None => Ok::<(), ControlRotationError>(()),
        },
{
    if !same_text(&request.schema, "zode.controller-auth.rotate.v1") || !same_text(
        &request.authority_id,
        authority_id,
    ) || !same_text(&request.secret.encoding, "application/zode-secret-envelope")
        || request.revision == 0 {
        return Err(ControlRotationError::Invalid);
    }
    if text_bytes(&request.secret.payload) > max_secret_bytes {
        return Err(ControlRotationError::PayloadTooLarge);
    }
    if !token_valid {
        return Err(ControlRotationError::Invalid);
    }
    Ok(())
}

/// Whether authorities can be set up: each has a short name of its own and a revision.
pub open spec fn authorities_allowed(
    specs: Seq<InitializationAuthorityView>,
    max_id_bytes: usize,
) -> bool {
    &&& forall|i: int|
        0 <= i < specs.len() ==> {
            &&& (#[trigger] specs[i]).authority_id.len() > 0
            &&& byte_len(specs[i].authority_id) <= max_id_bytes
            &&& specs[i].revision > 0
        }
    &&& forall|i: int, j: int|
        0 <= i < j < specs.len() ==> (#[trigger] specs[i]).authority_id != (
        #[trigger] specs[j]).authority_id
}

fn authority_taken(specs: &Vec<InitializationAuthority>, index: usize) -> (taken: bool)
    requires
        index < specs.len(),
    ensures
        taken == exists|i: int|
            0 <= i < index && (#[trigger] specs.deep_view()[i]).authority_id
                == specs.deep_view()[index as int].authority_id,
{
    let ghost view = specs.deep_view();
    let mut position: usize = 0;
    while position < index
        invariant
            view == specs.deep_view(),
            position <= index < specs.len(),
            forall|i: int|
                0 <= i < position ==> (#[trigger] view[i]).authority_id
                    != view[index as int].authority_id,
        decreases index - position,
    {
        if same_text(&specs[position].authority_id, &specs[index].authority_id) {
            assert(view[position as int].authority_id == view[index as int].authority_id);
            return true;
        }
        position += 1;
    }
    false
}

/// The authorities that a store is set up for, in the order of their names.
pub fn initial_authorities(specs: &Vec<InitializationAuthority>, max_id_bytes: usize) -> (result:
    Result<Vec<InitializationAuthority>, ControlInitError>)
    ensures
        if authorities_allowed(specs.deep_view(), max_id_bytes) {
            result matches Ok(authorities) && authorities.deep_view() == in_name_order::<
                InitializationAuthority,
            >(specs.deep_view())
        } else {
            result matches Err(error) && error == ControlInitError::Invalid
        },
{
    let ghost view = specs.deep_view();
    let mut index: usize = 0;
    while index < specs.len()
        invariant
            view == specs.deep_view(),
            index <= specs.len(),
            forall|i: int|
                0 <= i < index ==> {
                    &&& (#[trigger] view[i]).authority_id.len() > 0
                    &&& byte_len(view[i].authority_id) <= max_id_bytes
                    &&& view[i].revision > 0
                },
            forall|i: int, j: int|
                0 <= i < j < index ==> (#[trigger] view[i]).authority_id != (
                #[trigger] view[j]).authority_id,
        decreases specs.len() - index,
    {
        let spec = &specs[index];
        assert(view[index as int] == spec.deep_view());
        if spec.authority_id.as_str().is_empty() || text_bytes(&spec.authority_id) > max_id_bytes
            || spec.revision == 0 || authority_taken(specs, index) {
            return Err(ControlInitError::Invalid);
        }
        index += 1;
    }
    Ok(sort_by_name(specs))
}

/// Whether the secrets of controllers may be set up: everything is new, and nothing stands in
/// their directory but the key.
pub open spec fn may_set_up(
    names: Seq<Seq<char>>,
    allow_create: bool,
    identity_created: bool,
    key_created: bool,
) -> bool {
    &&& allow_create
    &&& identity_created
    &&& key_created
    &&& forall|i: int| 0 <= i < names.len() ==> (#[trigger] names[i]) == "fingerprint.key"@
}

/// Checks that the secrets of controllers may be set up, by the names in their directory.
pub fn check_unclaimed(
    names: &Vec<String>,
    allow_create: bool,
    identity_created: bool,
    key_created: bool,
) -> (result: Result<(), ControlInitError>)
    ensures
        result == if may_set_up(names.deep_view(), allow_create, identity_created, key_created) {
            Ok::<(), ControlInitError>(())
        } else {
            Err::<(), ControlInitError>(ControlInitError::Invalid)
        },
{
    if !(allow_create && identity_created && key_created) {
        return Err(ControlInitError::Invalid);
    }
    let ghost view = names.deep_view();
    let mut index: usize = 0;
    while index < names.len()
        invariant
            view == names.deep_view(),
            index <= names.len(),
            forall|i: int| 0 <= i < index ==> (#[trigger] view[i]) == "fingerprint.key"@,
        decreases names.len() - index,
    {
        if !same_text(&names[index], "fingerprint.key") {
            assert(view[index as int] != "fingerprint.key"@);
            return Err(ControlInitError::Invalid);
        }
        index += 1;
    }
    Ok(())
}

/// Whether a secret is none of some others.
pub open spec fn is_new_secret(secrets: Seq<Vec<u8>>, secret: Seq<u8>) -> bool {
    forall|i: int| 0 <= i < secrets.len() ==> (#[trigger] secrets[i])@ != secret
}

/// Checks that the first secret of a controller can be one, and is that of no other.
pub fn check_first_secret(
    secrets: &Vec<Vec<u8>>,
    secret: &[u8],
    token_valid: bool,
) -> (result: Result<(), ControlInitError>)
    ensures
        result == if token_valid && is_new_secret(secrets@, secret@) {
            Ok::<(), ControlInitError>(())
        } else {
            Err::<(), ControlInitError>(ControlInitError::Invalid)
        },
{
    if !token_valid {
        return Err(ControlInitError::Invalid);
    }
    let mut index: usize = 0;
    while index < secrets.len()
        invariant
            index <= secrets.len(),
            forall|i: int| 0 <= i < index ==> (#[trigger] secrets@[i])@ != secret@,
        decreases secrets.len() - index,
    {
        if same_secret(secret, secrets[index].as_slice()) {
            assert(secrets@[index as int]@ == secret@);
            return Err(ControlInitError::Invalid);
        }
        index += 1;
    }
    Ok(())
}

/// Whether a store was set up for this endpoint and these authorities.
pub open spec fn initialization_allowed(
    fact: InitializationFactView,
    endpoint_id: Seq<char>,
    expected: Seq<InitializationAuthorityView>,
    max_id_bytes: usize,
) -> bool {
    &&& fact.schema == "zode.controller-auth.initialization.v1"@
    &&& fact.endpoint_id == endpoint_id
    &&& fact.endpoint_id.len() > 0
    &&& byte_len(fact.endpoint_id) <= max_id_bytes
    &&& fact.authorities == expected
}

/// Checks that a store was set up for this endpoint and these authorities.
pub fn validate_initialization(
    fact: &InitializationFact,
    endpoint_id: &str,
    expected: &Vec<InitializationAuthority>,
    max_id_bytes: usize,
) -> (result: Result<(), ControlInitError>)
    ensures
        result == if initialization_allowed(
            fact.deep_view(),
            endpoint_id@,
            expected.deep_view(),
            max_id_bytes,
        ) {
            Ok::<(), ControlInitError>(())
        } else {
            Err::<(), ControlInitError>(ControlInitError::Invalid)
        },
{
    if same_text(&fact.schema, "zode.controller-auth.initialization.v1") && same_text(
        &fact.endpoint_id,
        endpoint_id,
    ) && !fact.endpoint_id.as_str().is_empty() && text_bytes(&fact.endpoint_id) <= max_id_bytes
        && fact.authorities.same(expected) {
        Ok(())
    } else {
        Err(ControlInitError::Invalid)
    }
}

/// Whether an authority is among the expected ones.
pub open spec fn authority_expected(
    expected: Seq<InitializationAuthorityView>,
    authority_id: Seq<char>,
) -> bool {
    exists|j: int| 0 <= j < expected.len() && (#[trigger] expected[j]).authority_id == authority_id
}

/// Whether pointers are those of expected authorities, and not too many.
pub open spec fn pointers_expected(
    pointers: Seq<ActivePointerView>,
    expected: Seq<InitializationAuthorityView>,
) -> bool {
    &&& pointers.len() <= expected.len()
    &&& forall|i: int|
        0 <= i < pointers.len() ==> authority_expected(
            expected,
            (#[trigger] pointers[i]).authority_id,
        )
}

fn is_expected(authority_id: &str, expected: &Vec<InitializationAuthority>) -> (is: bool)
    ensures
        is == authority_expected(expected.deep_view(), authority_id@),
{
    let mut index: usize = 0;
    while index < expected.len()
        invariant
            index <= expected.len(),
            forall|j: int|
                0 <= j < index ==> (#[trigger] expected.deep_view()[j]).authority_id
                    != authority_id@,
        decreases expected.len() - index,
    {
        if same_text(&expected[index].authority_id, authority_id) {
            assert(expected.deep_view()[index as int].authority_id == authority_id@);
            return true;
        }
        index += 1;
    }
    false
}

/// Checks that the pointers which were found are those of expected authorities.
pub fn check_pointers(
    pointers: &Vec<ActivePointer>,
    expected: &Vec<InitializationAuthority>,
) -> (result: Result<(), ControlInitError>)
    ensures
        result == if pointers_expected(pointers.deep_view(), expected.deep_view()) {
            Ok::<(), ControlInitError>(())
        } else {
            Err::<(), ControlInitError>(ControlInitError::Invalid)
        },
{
    if pointers.len() > expected.len() {
        return Err(ControlInitError::Invalid);
    }
    let ghost view = pointers.deep_view();
    let ghost names = expected.deep_view();
    let mut index: usize = 0;
    while index < pointers.len()
        invariant
            view == pointers.deep_view(),
            names == expected.deep_view(),
            pointers.len() <= expected.len(),
            index <= pointers.len(),
            forall|i: int|
                0 <= i < index ==> authority_expected(names, (#[trigger] view[i]).authority_id),
        decreases pointers.len() - index,
    {
        assert(view[index as int] == pointers[index as int].deep_view());
        if !is_expected(&pointers[index].authority_id, expected) {
            return Err(ControlInitError::Invalid);
        }
        index += 1;
    }
    Ok(())
}

/// The revision of an authority that counts and the file of its secret: those of the pointer, or
/// those of its setting up where there is none. The mark of a rotation must agree, and a revision
/// never falls below the first one.
pub open spec fn authority_source(
    authority: InitializationAuthorityView,
    pointer: Option<ActivePointerView>,
    rotated: bool,
) -> Option<(u64, Seq<char>)> {
    match pointer {
        Some(pointer) => if pointer.operation_id is Some != rotated || pointer.revision
            < authority.revision {
            None
        } else {
            Some((pointer.revision, pointer.secret_ref))
        },
        None => if rotated {
            None
        } else {
            Some(
                (
                    authority.revision,
                    current_secret_name(authority.authority_id, authority.revision),
                ),
            )
        },
    }
}

/// The revision of an authority that counts and the file of its secret.
pub fn current_authority(
    authority: &InitializationAuthority,
    pointer: Option<&ActivePointer>,
    rotated: bool,
) -> (result: Result<(u64, String), ControlInitError>)
    ensures
        match authority_source(authority.deep_view(), pointer.deep_view(), rotated) {
            Some(source) => result matches Ok(found) && found.0 == source.0 && found.1@
                == source.1,
            None => result matches Err(error) && error == ControlInitError::Invalid,
        },
{
    match pointer {
        Some(pointer) => {
            if pointer.operation_id.is_some() != rotated || pointer.revision < authority.revision {
                return Err(ControlInitError::Invalid);
            }
            Ok((pointer.revision, pointer.secret_ref.clone()))
        },
        None => {
            if rotated {
                return Err(ControlInitError::Invalid);
            }
            Ok(
                (
                    authority.revision,
                    expected_current_secret_ref(&authority.authority_id, authority.revision),
                ),
            )
        },
    }
}

/// Whether a file name is that of some pointer.
pub open spec fn is_pointer_name(name: Seq<char>) -> bool {
    "active-"@.is_prefix_of(name) && ".manifest"@.is_suffix_of(name)
}

/// Whether a file name is that of some pointer.
pub fn names_pointer(name: &str) -> (names: bool)
    ensures
        names == is_pointer_name(name@),
{
    has_prefix(name, "active-") && has_suffix(name, ".manifest")
}

/// Whether a file is a secret that nothing needs any more, and may be removed.
pub fn is_orphan_secret(
    name: &str,
    pointers: &Vec<ActivePointer>,
    journal: &RotationJournal,
) -> (orphan: bool)
    ensures
        orphan == ("secret-"@.is_prefix_of(name@) && !secret_needed(
            name@,
            pointers.deep_view(),
            journal.deep_view(),
        )),
{
    has_prefix(name, "secret-") && !secret_is_needed(name, pointers, journal)
}

/// The operation of which a compacted journal keeps the entries once a receipt is written: that of
/// the receipt, if the rotation was done.
pub open spec fn kept_operation(receipt: JournalRecordView) -> Option<Seq<char>> {
    if receipt.status == 200 {
        Some(receipt.operation_id)
    } else {
        None
    }
}

/// The operation that stays in the journal after its receipt.
pub fn operation_to_keep(receipt: &JournalRecord) -> (operation_id: Option<&str>)
    ensures
        operation_id.deep_view() == kept_operation(receipt.deep_view()),
{
    if receipt.status == 200 {
        Some(receipt.operation_id.as_str())
    } else {
        None
    }
}

/// What the file holds that marks an authority as rotated.
pub const ROTATION_MARKER: &'static str = "zode.controller-auth.rotated.v1\n";

fn same_bytes(left: &[u8], right: &[u8]) -> (same: bool)
    ensures
        same == (left@ == right@),
{
    if left.len() != right.len() {
        return false;
    }
    let mut index: usize = 0;
    while index < left.len()
        invariant
            left.len() == right.len(),
            index <= left.len(),
            forall|i: int| 0 <= i < index ==> left@[i] == right@[i],
        decreases left.len() - index,
    {
        if left[index] != right[index] {
            return false;
        }
        index += 1;
    }
    assert(left@ =~= right@);
    true
}

/// Whether a file, if there is one, marks an authority as rotated.
pub fn marks_rotation(content: Option<&Vec<u8>>) -> (marks: bool)
    ensures
        marks == (content matches Some(bytes) && bytes@ == encode_utf8(ROTATION_MARKER@)),
{
    match content {
        Some(bytes) => same_bytes(bytes.as_slice(), ROTATION_MARKER.as_bytes()),
        None => false,
    }
}

/// Where the key comes from under which requests are fingerprinted.
#[derive(Clone, Debug, PartialEq)]
pub enum KeySource {
    /// It was read.
    Known(Vec<u8>),
    /// It is to be made and written.
    Created,
}

/// Decides where the key comes from. One that was read has the length of a key, and a new one is
/// made for a new store only.
pub fn key_source(known: Option<Vec<u8>>, allow_create: bool) -> (result: Result<
    KeySource,
    ControlInitError,
>)
    ensures
        result == match known {
            Some(key) => if key@.len() == ROTATION_KEY_BYTES {
                Ok::<KeySource, ControlInitError>(KeySource::Known(key))
            } else {
                Err::<KeySource, ControlInitError>(ControlInitError::Invalid)
            },
            None => if allow_create {
                Ok::<KeySource, ControlInitError>(KeySource::Created)
            } else {
                Err::<KeySource, ControlInitError>(ControlInitError::Invalid)
            },
        },
{
    match known {
        Some(key) => if key.len() == ROTATION_KEY_BYTES {
            Ok(KeySource::Known(key))
        } else {
            Err(ControlInitError::Invalid)
        },
        None => if allow_create {
            Ok(KeySource::Created)
        } else {
            Err(ControlInitError::Invalid)
        },
    }
}

/// Whether the secret that a file name stands for is still needed: by a pointer, or by an intent
/// that was not answered.
pub fn secret_is_needed(
    name: &str,
    pointers: &Vec<ActivePointer>,
    journal: &RotationJournal,
) -> (needed: bool)
    ensures
        needed == secret_needed(name@, pointers.deep_view(), journal.deep_view()),
{
    let ghost view = pointers.deep_view();
    let mut index: usize = 0;
    while index < pointers.len()
        invariant
            view == pointers.deep_view(),
            index <= pointers.len(),
            forall|i: int| 0 <= i < index ==> (#[trigger] view[i]).secret_ref != name@,
        decreases pointers.len() - index,
    {
        if same_text(&pointers[index].secret_ref, name) {
            assert(view[index as int].secret_ref == name@);
            return true;
        }
        index += 1;
    }
    let ghost entries = journal.deep_view();
    let mut index: usize = 0;
    while index < journal.records.len()
        invariant
            entries == journal.deep_view(),
            entries == journal.records.deep_view(),
            index <= journal.records.len(),
            forall|i: int|
                0 <= i < index ==> !((#[trigger] entries[i]).secret_ref == name@ && latest_entry(
                    entries,
                    entries[i].operation_id,
                ) == Some(entries[i]) && entries[i].phase == JournalPhase::Intent),
            forall|i: int| 0 <= i < view.len() ==> (#[trigger] view[i]).secret_ref != name@,
            view == pointers.deep_view(),
        decreases journal.records.len() - index,
    {
        let record = &journal.records[index];
        assert(entries[index as int] == record.deep_view());
        if record.phase == JournalPhase::Intent && same_text(&record.secret_ref, name) {
            if let Some(latest) = journal.latest_for(&record.operation_id) {
                if latest.phase == JournalPhase::Intent && same_entry(latest, record) {
                    return true;
                }
            }
        }
        index += 1;
    }
    false
}

fn same_entry(left: &JournalRecord, right: &JournalRecord) -> (same: bool)
    ensures
        same == (left.deep_view() == right.deep_view()),
{
    left.operation_id.same(&right.operation_id) && left.authority_id.same(&right.authority_id)
        && left.revision == right.revision && left.fingerprint.same(&right.fingerprint)
        && left.secret_ref.same(&right.secret_ref) && left.phase == right.phase && left.status
        == right.status && left.response.same(&right.response)
}

/// Whether a secret is needed by a pointer, or by the latest entry of an operation that is still an
/// intent.
pub open spec fn secret_needed(
    name: Seq<char>,
    pointers: Seq<ActivePointerView>,
    records: Seq<JournalRecordView>,
) -> bool {
    ||| exists|i: int| 0 <= i < pointers.len() && (#[trigger] pointers[i]).secret_ref == name
    ||| exists|i: int|
        0 <= i < records.len() && (#[trigger] records[i]).secret_ref == name && latest_entry(
            records,
            records[i].operation_id,
        ) == Some(records[i]) && records[i].phase == JournalPhase::Intent
}

/// A walk through the store finds every pointer by its name, and takes only the secrets that
/// operations brought for removable: none with which an authority was set up, no pointer, no
/// receipt and no marker.
pub proof fn files_are_told_apart(
    authority_id: Seq<char>,
    revision: u64,
    operation_id: Seq<char>,
)
    ensures
        is_pointer_name(pointer_name(authority_id)),
        "secret-"@.is_prefix_of(secret_name(authority_id, revision, operation_id)),
        !"secret-"@.is_prefix_of(current_secret_name(authority_id, revision)),
        !"secret-"@.is_prefix_of(pointer_name(authority_id)),
        !"secret-"@.is_prefix_of(rotation_receipt_name(operation_id)),
        !"secret-"@.is_prefix_of(marker_name(authority_id)),
{
    reveal_strlit("secret-");
    reveal_strlit("current-");
    reveal_strlit("active-");
    reveal_strlit("receipt-");
    reveal_strlit("rotated-");
    let pointer = pointer_name(authority_id);
    assert("active-"@ =~= pointer.subrange(0, "active-"@.len() as int));
    assert(".manifest"@ =~= pointer.subrange(
        pointer.len() - ".manifest"@.len(),
        pointer.len() as int,
    ));
    let secret = secret_name(authority_id, revision, operation_id);
    assert("secret-"@ =~= secret.subrange(0, "secret-"@.len() as int));
    assert("secret-"@[0] == 's');
    assert(current_secret_name(authority_id, revision)[0] == "current-"@[0]);
    assert(pointer[0] == "active-"@[0]);
    assert(rotation_receipt_name(operation_id)[0] == "receipt-"@[0]);
    assert(marker_name(authority_id)[0] == "rotated-"@[0]);
}

/// After a receipt, a sound journal has nothing more of that operation.
pub proof fn receipt_is_final(records: Seq<JournalRecordView>, record: JournalRecordView)
    requires
        journal_allowed(records.push(record)),
    ensures
        latest_entry(records, record.operation_id) matches Some(previous) ==> previous.phase
            == JournalPhase::Intent && record.phase == JournalPhase::Receipt,
        latest_entry(records, record.operation_id) is None ==> record.phase
            == JournalPhase::Intent,
{
    assert(records.push(record).drop_last() =~= records);
}

/// A planned intent and its receipt can be written to a sound journal that has nothing of the
/// operation yet.
pub proof fn planned_rotation_can_be_recorded(
    records: Seq<JournalRecordView>,
    input: RotationInputView,
    revision: u64,
    operation_id: Seq<char>,
    fingerprint: Seq<char>,
    status: u16,
)
    requires
        journal_allowed(records),
        latest_entry(records, operation_id) is None,
        is_digest_text(operation_id),
        is_digest_text(fingerprint),
        input.authority_id.len() > 0,
        revision > 0,
        status == 200 || status == 409,
    ensures
        ({
            let intent = intent_for(input.authority_id, revision, operation_id, fingerprint);
            &&& may_follow(records, intent)
            &&& may_follow(records.push(intent), receipt_of(intent, status))
        }),
{
    let intent = intent_for(input.authority_id, revision, operation_id, fingerprint);
    assert(records.push(intent).drop_last() =~= records);
}

/// An operation that was answered is answered the same again, and refused with another request.
pub proof fn answered_rotation_is_answered_the_same(
    intent: JournalRecordView,
    status: u16,
    fingerprint: Seq<char>,
    existing: Option<JournalRecordView>,
)
    ensures
        replay_step(Some(receipt_of(intent, status)), existing, fingerprint) == if fingerprint
            == intent.fingerprint {
            Ok::<Option<RotationOutcomeView>, ControlRotationError>(
                Some(
                    RotationOutcomeView {
                        status,
                        body: response_body(status, intent.authority_id, intent.revision),
                    },
                ),
            )
        } else {
            Err::<Option<RotationOutcomeView>, ControlRotationError>(
                ControlRotationError::Conflict,
            )
        },
{
}

/// A rotation never sets a pointer to a revision that is not higher than the one that counts,
/// unless it has set that pointer itself.
pub proof fn rotated_revision_rises(
    existing: Option<JournalRecordView>,
    pointer: Option<ActivePointerView>,
    input: RotationInputView,
    revision: u64,
    operation_id: Seq<char>,
    fingerprint: Seq<char>,
)
    ensures
        match rotation_plan(existing, pointer, input, revision, operation_id, fingerprint) {
            Ok(RotationPlanView::Promoted { pointer: next, resumed: false, .. }) => {
                let current = current_pointer(pointer, input);
                next.revision > current.revision || (current.operation_id == Some(operation_id)
                    && current.fingerprint == Some(fingerprint))
            },
            Ok(RotationPlanView::Promoted { pointer: next, resumed: true, .. }) => next
                == current_pointer(pointer, input),
            _ => true,
        },
{
}

/// A pointer that an intent is promoted by stands for that intent, and is sound in its own file.
pub proof fn promoted_pointer_is_sound(intent: JournalRecordView)
    requires
        entry_allowed(intent),
        intent.phase == JournalPhase::Intent,
    ensures
        points_to(pointer_for(intent), intent),
        points_to(pointer_for(intent), receipt_of(intent, 200)),
        pointer_allowed(pointer_for(intent), pointer_name(intent.authority_id)),
{
}

proof fn lemma_latest_is_entry(records: Seq<JournalRecordView>, operation_id: Seq<char>)
    ensures
        latest_entry(records, operation_id) matches Some(latest) ==> latest.operation_id
            == operation_id && records.contains(latest),
        latest_entry(records, operation_id) is None ==> forall|i: int|
            0 <= i < records.len() ==> (#[trigger] records[i]).operation_id != operation_id,
    decreases records.len(),
{
    if records.len() > 0 {
        let rest = records.drop_last();
        lemma_latest_is_entry(rest, operation_id);
        if records.last().operation_id == operation_id {
            assert(records[records.len() - 1] == records.last());
        } else {
            match latest_entry(rest, operation_id) {
                Some(latest) => {
                    let k = choose|k: int| 0 <= k < rest.len() && rest[k] == latest;
                    assert(records[k] == latest);
                },
                None => {
                    assert forall|i: int| 0 <= i < records.len() implies (
                    #[trigger] records[i]).operation_id != operation_id by {
                        if i < rest.len() {
                            assert(rest[i] == records[i]);
                        }
                    }
                },
            }
        }
    }
}

/// Whether all entries of an operation stay when a journal is compacted, or none.
spec fn operation_stays(
    records: Seq<JournalRecordView>,
    current: Option<Seq<char>>,
    operation_id: Seq<char>,
) -> bool {
    latest_entry(records, operation_id) matches Some(latest) && (latest.phase
        == JournalPhase::Intent || current == Some(operation_id))
}

proof fn lemma_stays_by_operation(
    records: Seq<JournalRecordView>,
    current: Option<Seq<char>>,
    n: int,
)
    requires
        journal_allowed(records),
        0 <= n <= records.len(),
    ensures
        forall|i: int|
            0 <= i < n ==> stays(records, current, #[trigger] records[i]) == operation_stays(
                records,
                current,
                records[i].operation_id,
            ),
    decreases n,
{
    if n > 0 {
        lemma_stays_by_operation(records, current, n - 1);
        let record = records[n - 1];
        lemma_receipt_latest(records, n - 1);
    }
}

proof fn lemma_receipt_latest(records: Seq<JournalRecordView>, index: int)
    requires
        journal_allowed(records),
        0 <= index < records.len(),
    ensures
        latest_entry(records, records[index].operation_id) is Some,
        records[index].phase == JournalPhase::Receipt ==> latest_entry(
            records,
            records[index].operation_id,
        )->0.phase == JournalPhase::Receipt,
    decreases records.len(),
{
    let operation_id = records[index].operation_id;
    if index == records.len() - 1 {
        assert(records.last() == records[index]);
    } else {
        let rest = records.drop_last();
        lemma_receipt_latest(rest, index);
        assert(rest[index] == records[index]);
    }
}

proof fn lemma_filter_latest(
    records: Seq<JournalRecordView>,
    keep: spec_fn(JournalRecordView) -> bool,
    operation_id: Seq<char>,
)
    requires
        forall|i: int, j: int|
            0 <= i < records.len() && 0 <= j < records.len() && (
            #[trigger] records[i]).operation_id == (#[trigger] records[j]).operation_id ==> keep(
                records[i],
            ) == keep(records[j]),
    ensures
        latest_entry(records, operation_id) matches Some(latest) ==> latest_entry(
            records.filter(keep),
            operation_id,
        ) == if keep(latest) {
            Some(latest)
        } else {
            None
        },
        latest_entry(records, operation_id) is None ==> latest_entry(
            records.filter(keep),
            operation_id,
        ) is None,
    decreases records.len(),
{
    reveal(Seq::filter);
    if records.len() > 0 {
        let rest = records.drop_last();
        assert forall|i: int, j: int|
            0 <= i < rest.len() && 0 <= j < rest.len() && (#[trigger] rest[i]).operation_id == (
            #[trigger] rest[j]).operation_id implies keep(rest[i]) == keep(rest[j]) by {
            assert(rest[i] == records[i] && rest[j] == records[j]);
        }
        lemma_filter_latest(rest, keep, operation_id);
        lemma_latest_is_entry(rest, operation_id);
        let last = records.last();
        if keep(last) {
            assert(records.filter(keep).drop_last() =~= rest.filter(keep));
        }
        if last.operation_id == operation_id && !keep(last) {
            if let Some(latest) = latest_entry(rest, operation_id) {
                let k = choose|k: int| 0 <= k < rest.len() && rest[k] == latest;
                assert(records[k] == latest);
                assert(records[records.len() - 1] == last);
            }
        }
    }
}

proof fn lemma_filter_allowed(
    records: Seq<JournalRecordView>,
    keep: spec_fn(JournalRecordView) -> bool,
)
    requires
        journal_allowed(records),
        forall|i: int, j: int|
            0 <= i < records.len() && 0 <= j < records.len() && (
            #[trigger] records[i]).operation_id == (#[trigger] records[j]).operation_id ==> keep(
                records[i],
            ) == keep(records[j]),
    ensures
        journal_allowed(records.filter(keep)),
    decreases records.len(),
{
    reveal(Seq::filter);
    if records.len() > 0 {
        let rest = records.drop_last();
        assert forall|i: int, j: int|
            0 <= i < rest.len() && 0 <= j < rest.len() && (#[trigger] rest[i]).operation_id == (
            #[trigger] rest[j]).operation_id implies keep(rest[i]) == keep(rest[j]) by {
            assert(rest[i] == records[i] && rest[j] == records[j]);
        }
        lemma_filter_allowed(rest, keep);
        let last = records.last();
        if keep(last) {
            assert(records.filter(keep).drop_last() =~= rest.filter(keep));
            lemma_filter_latest(rest, keep, last.operation_id);
            lemma_latest_is_entry(rest, last.operation_id);
            if let Some(latest) = latest_entry(rest, last.operation_id) {
                let k = choose|k: int| 0 <= k < rest.len() && rest[k] == latest;
                assert(records[k] == latest);
                assert(records[records.len() - 1] == last);
            }
        }
    }
}

/// A compacted journal is sound, and every intent that was not answered is still in it.
pub proof fn compaction_keeps_what_is_pending(
    records: Seq<JournalRecordView>,
    current: Option<Seq<char>>,
    operation_id: Seq<char>,
)
    requires
        journal_allowed(records),
    ensures
        journal_allowed(compacted(records, current)),
        (latest_entry(records, operation_id) matches Some(latest) && latest.phase
            == JournalPhase::Intent) ==> latest_entry(compacted(records, current), operation_id)
            == latest_entry(records, operation_id),
{
    let keep = |record: JournalRecordView| stays(records, current, record);
    lemma_stays_by_operation(records, current, records.len() as int);
    assert forall|i: int, j: int|
        0 <= i < records.len() && 0 <= j < records.len() && (#[trigger] records[i]).operation_id
            == (#[trigger] records[j]).operation_id implies keep(records[i]) == keep(
        records[j],
    ) by {
        assert(stays(records, current, records[i]) == operation_stays(
            records,
            current,
            records[i].operation_id,
        ));
        assert(stays(records, current, records[j]) == operation_stays(
            records,
            current,
            records[j].operation_id,
        ));
    }
    lemma_filter_allowed(records, keep);
    lemma_filter_latest(records, keep, operation_id);
    lemma_latest_is_entry(records, operation_id);
}

} // verus!
