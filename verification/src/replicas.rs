//! Replicas of credentials: which are accepted, how they are stored, and to whom they are lent.

use crate::datum::Datum;
use crate::digest::{
    hex, hex_text, hmac_sha256, hmac_sha256_of, length_prefixed, length_prefixed_is_injective,
    push_length_prefixed, same_secret, sha256, sha256_of, texts_view,
};
use crate::json::{
    array_value, encoded, is_flat, json_encoding, json_view, null_value, number_or_null,
    signed_value, string_value, unsigned_value, values_view, JsonView,
};
use crate::text::{
    byte_len, contains_char, has_prefix, has_suffix, joined, lemma_same_bytes, same_text,
    text_bytes,
};
use crate::text_map::{lookup, stored, TextMap};
use serde_json::Value;
use vstd::prelude::*;
use vstd::string::*;
use vstd::utf8::encode_utf8;

verus! {

pub const MAX_SECRET_BYTES: usize = 64 * 1024;

pub const MAX_NAME_BYTES: usize = 256;

pub const MAX_IDEMPOTENCY_KEY_BYTES: usize = 1_024;

/// The length of the key under which requests are fingerprinted.
pub const REPLICA_KEY_BYTES: usize = 32;

/// Why a replica is not stored, read or lent.
#[derive(Clone, Copy, Debug, Eq, PartialEq, Structural)]
pub enum ReplicaError {
    Disabled,
    Invalid,
    Conflict,
    NotFound,
    Unavailable,
    Storage,
    Record,
    SecretUnavailable,
}

/// A replica error as callers of the store see it.
#[derive(Clone, Copy, Debug, Eq, PartialEq, Structural)]
pub enum ReplicaPortError {
    Invalid,
    Conflict,
    NotFound,
    Disabled,
    Unavailable,
    SecretUnavailable,
    Backend,
}

/// A secret in its envelope.
#[derive(Clone, Debug, PartialEq)]
pub struct ReplicaSecret {
    pub encoding: String,
    pub payload: String,
}

/// The content of a [`ReplicaSecret`].
pub struct ReplicaSecretView {
    pub encoding: Seq<char>,
    pub payload: Seq<char>,
}

impl DeepView for ReplicaSecret {
    type V = ReplicaSecretView;

    open spec fn deep_view(&self) -> ReplicaSecretView {
        ReplicaSecretView {
            encoding: self.encoding.deep_view(),
            payload: self.payload.deep_view(),
        }
    }
}

impl Datum for ReplicaSecret {
    fn replica(&self) -> (copy: Self) {
        ReplicaSecret {
            encoding: self.encoding.replica(),
            payload: self.payload.replica(),
        }
    }
}

/// The request to install a revision of a credential.
#[derive(Clone, Debug, PartialEq)]
pub struct ReplicaInstallRequest {
    pub schema: String,
    pub authority_id: String,
    pub provider: String,
    pub kind: String,
    pub revision: u64,
    pub credential_schema: String,
    pub expires_at_ms: Option<i64>,
    pub secret: ReplicaSecret,
}

/// The content of a [`ReplicaInstallRequest`].
pub struct ReplicaInstallRequestView {
    pub schema: Seq<char>,
    pub authority_id: Seq<char>,
    pub provider: Seq<char>,
    pub kind: Seq<char>,
    pub revision: u64,
    pub credential_schema: Seq<char>,
    pub expires_at_ms: Option<i64>,
    pub secret: ReplicaSecretView,
}

impl DeepView for ReplicaInstallRequest {
    type V = ReplicaInstallRequestView;

    open spec fn deep_view(&self) -> ReplicaInstallRequestView {
        ReplicaInstallRequestView {
            schema: self.schema.deep_view(),
            authority_id: self.authority_id.deep_view(),
            provider: self.provider.deep_view(),
            kind: self.kind.deep_view(),
            revision: self.revision,
            credential_schema: self.credential_schema.deep_view(),
            expires_at_ms: self.expires_at_ms,
            secret: self.secret.deep_view(),
        }
    }
}

impl Datum for ReplicaInstallRequest {
    fn replica(&self) -> (copy: Self) {
        ReplicaInstallRequest {
            schema: self.schema.replica(),
            authority_id: self.authority_id.replica(),
            provider: self.provider.replica(),
            kind: self.kind.replica(),
            revision: self.revision,
            credential_schema: self.credential_schema.replica(),
            expires_at_ms: self.expires_at_ms,
            secret: self.secret.replica(),
        }
    }
}

/// The request to withdraw a credential.
#[derive(Clone, Debug, PartialEq)]
pub struct ReplicaTombstoneRequest {
    pub schema: String,
    pub authority_id: String,
    pub provider: String,
    pub revision: u64,
}

/// The content of a [`ReplicaTombstoneRequest`].
pub struct ReplicaTombstoneRequestView {
    pub schema: Seq<char>,
    pub authority_id: Seq<char>,
    pub provider: Seq<char>,
    pub revision: u64,
}

impl DeepView for ReplicaTombstoneRequest {
    type V = ReplicaTombstoneRequestView;

    open spec fn deep_view(&self) -> ReplicaTombstoneRequestView {
        ReplicaTombstoneRequestView {
            schema: self.schema.deep_view(),
            authority_id: self.authority_id.deep_view(),
            provider: self.provider.deep_view(),
            revision: self.revision,
        }
    }
}

impl Datum for ReplicaTombstoneRequest {
    fn replica(&self) -> (copy: Self) {
        ReplicaTombstoneRequest {
            schema: self.schema.replica(),
            authority_id: self.authority_id.replica(),
            provider: self.provider.replica(),
            revision: self.revision,
        }
    }
}

/// A change to a replica.
#[derive(Clone, Debug, PartialEq)]
pub enum ReplicaMutation {
    Install(ReplicaInstallRequest),
    Tombstone(ReplicaTombstoneRequest),
}

/// The content of a [`ReplicaMutation`].
pub enum ReplicaMutationView {
    Install(ReplicaInstallRequestView),
    Tombstone(ReplicaTombstoneRequestView),
}

impl DeepView for ReplicaMutation {
    type V = ReplicaMutationView;

    open spec fn deep_view(&self) -> ReplicaMutationView {
        match self {
            ReplicaMutation::Install(value) => ReplicaMutationView::Install(value.deep_view()),
            ReplicaMutation::Tombstone(value) => ReplicaMutationView::Tombstone(value.deep_view()),
        }
    }
}

impl Datum for ReplicaMutation {
    fn replica(&self) -> (copy: Self) {
        match self {
            ReplicaMutation::Install(value) => ReplicaMutation::Install(value.replica()),
            ReplicaMutation::Tombstone(value) => ReplicaMutation::Tombstone(value.replica()),
        }
    }
}

/// A replica as it is stored.
#[derive(Clone, Debug, PartialEq)]
pub struct ReplicaRecord {
    pub schema: String,
    pub authority_id: String,
    pub profile_id: String,
    pub provider: String,
    pub kind: Option<String>,
    pub revision: u64,
    pub credential_schema: Option<String>,
    pub expires_at_ms: Option<i64>,
    pub fingerprint: String,
    pub response_status: u16,
    pub status: String,
    pub secret: Option<String>,
}

/// The content of a [`ReplicaRecord`].
pub struct ReplicaRecordView {
    pub schema: Seq<char>,
    pub authority_id: Seq<char>,
    pub profile_id: Seq<char>,
    pub provider: Seq<char>,
    pub kind: Option<Seq<char>>,
    pub revision: u64,
    pub credential_schema: Option<Seq<char>>,
    pub expires_at_ms: Option<i64>,
    pub fingerprint: Seq<char>,
    pub response_status: u16,
    pub status: Seq<char>,
    pub secret: Option<Seq<char>>,
}

impl DeepView for ReplicaRecord {
    type V = ReplicaRecordView;

    open spec fn deep_view(&self) -> ReplicaRecordView {
        ReplicaRecordView {
            schema: self.schema.deep_view(),
            authority_id: self.authority_id.deep_view(),
            profile_id: self.profile_id.deep_view(),
            provider: self.provider.deep_view(),
            kind: self.kind.deep_view(),
            revision: self.revision,
            credential_schema: self.credential_schema.deep_view(),
            expires_at_ms: self.expires_at_ms,
            fingerprint: self.fingerprint.deep_view(),
            response_status: self.response_status,
            status: self.status.deep_view(),
            secret: self.secret.deep_view(),
        }
    }
}

impl Datum for ReplicaRecord {
    fn replica(&self) -> (copy: Self) {
        ReplicaRecord {
            schema: self.schema.replica(),
            authority_id: self.authority_id.replica(),
            profile_id: self.profile_id.replica(),
            provider: self.provider.replica(),
            kind: self.kind.replica(),
            revision: self.revision,
            credential_schema: self.credential_schema.replica(),
            expires_at_ms: self.expires_at_ms,
            fingerprint: self.fingerprint.replica(),
            response_status: self.response_status,
            status: self.status.replica(),
            secret: self.secret.replica(),
        }
    }
}

/// What was answered to a request, so that the same request is answered the same.
#[derive(Clone, Debug, PartialEq)]
pub struct ReplicaReceipt {
    pub schema: String,
    pub authority_id: String,
    pub profile_id: String,
    pub provider: String,
    pub revision: u64,
    pub expires_at_ms: Option<i64>,
    pub response_status: u16,
    pub metadata_status: String,
    pub fingerprint: String,
}

/// The content of a [`ReplicaReceipt`].
pub struct ReplicaReceiptView {
    pub schema: Seq<char>,
    pub authority_id: Seq<char>,
    pub profile_id: Seq<char>,
    pub provider: Seq<char>,
    pub revision: u64,
    pub expires_at_ms: Option<i64>,
    pub response_status: u16,
    pub metadata_status: Seq<char>,
    pub fingerprint: Seq<char>,
}

impl DeepView for ReplicaReceipt {
    type V = ReplicaReceiptView;

    open spec fn deep_view(&self) -> ReplicaReceiptView {
        ReplicaReceiptView {
            schema: self.schema.deep_view(),
            authority_id: self.authority_id.deep_view(),
            profile_id: self.profile_id.deep_view(),
            provider: self.provider.deep_view(),
            revision: self.revision,
            expires_at_ms: self.expires_at_ms,
            response_status: self.response_status,
            metadata_status: self.metadata_status.deep_view(),
            fingerprint: self.fingerprint.deep_view(),
        }
    }
}

impl Datum for ReplicaReceipt {
    fn replica(&self) -> (copy: Self) {
        ReplicaReceipt {
            schema: self.schema.replica(),
            authority_id: self.authority_id.replica(),
            profile_id: self.profile_id.replica(),
            provider: self.provider.replica(),
            revision: self.revision,
            expires_at_ms: self.expires_at_ms,
            response_status: self.response_status,
            metadata_status: self.metadata_status.replica(),
            fingerprint: self.fingerprint.replica(),
        }
    }
}

/// What may be told of a replica.
#[derive(Clone, Debug, PartialEq)]
pub struct ReplicaMetadata {
    pub authority_id: String,
    pub profile_id: String,
    pub provider: String,
    pub revision: u64,
    pub expires_at_ms: Option<i64>,
    pub status: &'static str,
}

/// The content of a [`ReplicaMetadata`].
pub struct ReplicaMetadataView {
    pub authority_id: Seq<char>,
    pub profile_id: Seq<char>,
    pub provider: Seq<char>,
    pub revision: u64,
    pub expires_at_ms: Option<i64>,
    pub status: Seq<char>,
}

impl DeepView for ReplicaMetadata {
    type V = ReplicaMetadataView;

    open spec fn deep_view(&self) -> ReplicaMetadataView {
        ReplicaMetadataView {
            authority_id: self.authority_id.deep_view(),
            profile_id: self.profile_id.deep_view(),
            provider: self.provider.deep_view(),
            revision: self.revision,
            expires_at_ms: self.expires_at_ms,
            status: self.status.deep_view(),
        }
    }
}

/// The answer to a request.
#[derive(Clone, Debug, PartialEq)]
pub struct ReplicaProvisionOutcome {
    pub status: u16,
    pub metadata: ReplicaMetadata,
}

/// The content of a [`ReplicaProvisionOutcome`].
pub struct ReplicaProvisionOutcomeView {
    pub status: u16,
    pub metadata: ReplicaMetadataView,
}

impl DeepView for ReplicaProvisionOutcome {
    type V = ReplicaProvisionOutcomeView;

    open spec fn deep_view(&self) -> ReplicaProvisionOutcomeView {
        ReplicaProvisionOutcomeView {
            status: self.status,
            metadata: self.metadata.deep_view(),
        }
    }
}

impl Datum for ReplicaMetadata {
    fn replica(&self) -> (copy: Self) {
        ReplicaMetadata {
            authority_id: self.authority_id.replica(),
            profile_id: self.profile_id.replica(),
            provider: self.provider.replica(),
            revision: self.revision,
            expires_at_ms: self.expires_at_ms,
            status: self.status,
        }
    }
}

impl Datum for ReplicaProvisionOutcome {
    fn replica(&self) -> (copy: Self) {
        ReplicaProvisionOutcome { status: self.status, metadata: self.metadata.replica() }
    }
}

/// A secret that is lent for a request.
#[derive(Clone, Debug, PartialEq)]
pub struct SecretLease {
    pub revision: u64,
    pub credential_schema: String,
    pub secret: String,
}

/// The content of a [`SecretLease`].
pub struct SecretLeaseView {
    pub revision: u64,
    pub credential_schema: Seq<char>,
    pub secret: Seq<char>,
}

impl DeepView for SecretLease {
    type V = SecretLeaseView;

    open spec fn deep_view(&self) -> SecretLeaseView {
        SecretLeaseView {
            revision: self.revision,
            credential_schema: self.credential_schema.deep_view(),
            secret: self.secret.deep_view(),
        }
    }
}

impl Datum for SecretLease {
    fn replica(&self) -> (copy: Self) {
        SecretLease {
            revision: self.revision,
            credential_schema: self.credential_schema.replica(),
            secret: self.secret.replica(),
        }
    }
}

/// What a change calls for.
#[derive(Debug, PartialEq)]
pub enum ReplicaDecision {
    /// The revision is stored already: only the receipt is to be written.
    Confirmed { receipt: ReplicaReceipt, outcome: ReplicaProvisionOutcome },
    /// The record is to be written, and then the receipt.
    Stored {
        record: ReplicaRecord,
        receipt: ReplicaReceipt,
        outcome: ReplicaProvisionOutcome,
    },
}

/// The content of a [`ReplicaDecision`].
pub enum ReplicaDecisionView {
    Confirmed { receipt: ReplicaReceiptView, outcome: ReplicaProvisionOutcomeView },
    Stored {
        record: ReplicaRecordView,
        receipt: ReplicaReceiptView,
        outcome: ReplicaProvisionOutcomeView,
    },
}

impl DeepView for ReplicaDecision {
    type V = ReplicaDecisionView;

    open spec fn deep_view(&self) -> ReplicaDecisionView {
        match self {
            ReplicaDecision::Confirmed { receipt, outcome } => ReplicaDecisionView::Confirmed {
                receipt: receipt.deep_view(),
                outcome: outcome.deep_view(),
            },
            ReplicaDecision::Stored { record, receipt, outcome } => ReplicaDecisionView::Stored {
                record: record.deep_view(),
                receipt: receipt.deep_view(),
                outcome: outcome.deep_view(),
            },
        }
    }
}

/// The provider of a change.
pub open spec fn provider_of(mutation: ReplicaMutationView) -> Seq<char> {
    match mutation {
        ReplicaMutationView::Install(request) => request.provider,
        ReplicaMutationView::Tombstone(request) => request.provider,
    }
}

/// The revision of a change.
pub open spec fn revision_of(mutation: ReplicaMutationView) -> u64 {
    match mutation {
        ReplicaMutationView::Install(request) => request.revision,
        ReplicaMutationView::Tombstone(request) => request.revision,
    }
}

/// Whether a text is present and no longer than `max` bytes.
pub open spec fn bounded(text: Seq<char>, max: usize) -> bool {
    text.len() > 0 && byte_len(text) <= max
}

/// Whether a time of expiry can be one.
pub open spec fn expiry_allowed(expires_at_ms: Option<i64>) -> bool {
    expires_at_ms matches Some(expires) ==> expires >= 0
}

/// Whether a credential has a schema that some adapter takes.
pub open spec fn schema_supported(schema: Seq<char>) -> bool {
    schema == "openai-compatible.api-key.v1"@ || schema == "anthropic.api-key.v1"@
}

/// Whether a credential is of a known kind.
pub open spec fn kind_supported(kind: Seq<char>) -> bool {
    kind == "api_key"@ || kind == "oauth"@
}

/// Whether a change is sound, for the profile and the authority it comes to.
pub open spec fn mutation_allowed(
    profile_id: Seq<char>,
    authority_id: Seq<char>,
    idempotency_key: Seq<char>,
    mutation: ReplicaMutationView,
) -> bool {
    &&& bounded(idempotency_key, MAX_IDEMPOTENCY_KEY_BYTES)
    &&& bounded(profile_id, MAX_NAME_BYTES)
    &&& bounded(authority_id, MAX_NAME_BYTES)
    &&& bounded(provider_of(mutation), MAX_NAME_BYTES)
    &&& revision_of(mutation) > 0
    &&& match mutation {
        ReplicaMutationView::Install(request) => {
            &&& request.schema == "zode.auth-replica.install.v1"@
            &&& request.authority_id == authority_id
            &&& kind_supported(request.kind)
            &&& schema_supported(request.credential_schema)
            &&& request.secret.encoding == "application/zode-secret-envelope"@
            &&& bounded(request.secret.payload, MAX_SECRET_BYTES)
            &&& !request.secret.payload.contains('\0')
            &&& expiry_allowed(request.expires_at_ms)
        },
        ReplicaMutationView::Tombstone(request) => {
            &&& request.schema == "zode.auth-replica.tombstone.v1"@
            &&& request.authority_id == authority_id
        },
    }
}

fn is_bounded(text: &str, max: usize) -> (is: bool)
    ensures
        is == bounded(text@, max),
{
    !text.is_empty() && text_bytes(text) <= max
}

fn valid_expiry(expires_at_ms: Option<i64>) -> (valid: bool)
    ensures
        valid == expiry_allowed(expires_at_ms),
{
    match expires_at_ms {
        Some(expires) => expires >= 0,
        None => true,
    }
}

fn supported_credential_schema(schema: &str) -> (supported: bool)
    ensures
        supported == schema_supported(schema@),
{
    same_text(schema, "openai-compatible.api-key.v1") || same_text(schema, "anthropic.api-key.v1")
}

fn supported_kind(kind: &str) -> (supported: bool)
    ensures
        supported == kind_supported(kind@),
{
    same_text(kind, "api_key") || same_text(kind, "oauth")
}

fn mutation_provider(mutation: &ReplicaMutation) -> (provider: &String)
    ensures
        provider@ == provider_of(mutation.deep_view()),
{
    match mutation {
        ReplicaMutation::Install(request) => &request.provider,
        ReplicaMutation::Tombstone(request) => &request.provider,
    }
}

fn mutation_revision(mutation: &ReplicaMutation) -> (revision: u64)
    ensures
        revision == revision_of(mutation.deep_view()),
{
    match mutation {
        ReplicaMutation::Install(request) => request.revision,
        ReplicaMutation::Tombstone(request) => request.revision,
    }
}

/// Checks a change before anything is read or written.
pub fn validate_mutation(
    profile_id: &str,
    authority_id: &str,
    idempotency_key: &str,
    mutation: &ReplicaMutation,
) -> (result: Result<(), ReplicaError>)
    ensures
        result == if mutation_allowed(
            profile_id@,
            authority_id@,
            idempotency_key@,
            mutation.deep_view(),
        ) {
            Ok::<(), ReplicaError>(())
        } else {
            Err::<(), ReplicaError>(ReplicaError::Invalid)
        },
{
    if !is_bounded(idempotency_key, MAX_IDEMPOTENCY_KEY_BYTES) || !is_bounded(
        profile_id,
        MAX_NAME_BYTES,
    ) || !is_bounded(authority_id, MAX_NAME_BYTES) || !is_bounded(
        mutation_provider(mutation),
        MAX_NAME_BYTES,
    ) || mutation_revision(mutation) == 0 {
        return Err(ReplicaError::Invalid);
    }
    let allowed = match mutation {
        ReplicaMutation::Install(request) => same_text(
            &request.schema,
            "zode.auth-replica.install.v1",
        ) && same_text(&request.authority_id, authority_id) && supported_kind(&request.kind)
            && supported_credential_schema(&request.credential_schema) && same_text(
            &request.secret.encoding,
            "application/zode-secret-envelope",
        ) && is_bounded(&request.secret.payload, MAX_SECRET_BYTES) && !contains_char(
            &request.secret.payload,
            '\0',
        ) && valid_expiry(request.expires_at_ms),
        ReplicaMutation::Tombstone(request) => same_text(
            &request.schema,
            "zode.auth-replica.tombstone.v1",
        ) && same_text(&request.authority_id, authority_id),
    };
    if allowed {
        Ok(())
    } else {
        Err(ReplicaError::Invalid)
    }
}

/// A request in the form in which it is fingerprinted: a list of all that it asks.
pub open spec fn canonical_request(
    profile_id: Seq<char>,
    idempotency_key: Seq<char>,
    mutation: ReplicaMutationView,
) -> JsonView {
    match mutation {
        ReplicaMutationView::Install(request) => JsonView::Array(
            seq![
                JsonView::Text("install"@),
                JsonView::Text(profile_id),
                JsonView::Text(idempotency_key),
                JsonView::Text(request.schema),
                JsonView::Text(request.authority_id),
                JsonView::Text(request.provider),
                JsonView::Text(request.kind),
                JsonView::Integer(request.revision as int),
                JsonView::Text(request.credential_schema),
                number_or_null(request.expires_at_ms),
                JsonView::Text(request.secret.encoding),
                JsonView::Text(request.secret.payload),
            ],
        ),
        ReplicaMutationView::Tombstone(request) => JsonView::Array(
            seq![
                JsonView::Text("tombstone"@),
                JsonView::Text(profile_id),
                JsonView::Text(idempotency_key),
                JsonView::Text(request.schema),
                JsonView::Text(request.authority_id),
                JsonView::Text(request.provider),
                JsonView::Integer(request.revision as int),
            ],
        ),
    }
}

/// The fingerprint of a request under a key, if the request can be encoded.
pub open spec fn fingerprint_of(
    key: Seq<u8>,
    profile_id: Seq<char>,
    idempotency_key: Seq<char>,
    mutation: ReplicaMutationView,
) -> Option<Seq<char>> {
    match json_encoding(canonical_request(profile_id, idempotency_key, mutation)) {
        Ok(bytes) => Some(
            "hmac-sha256:v1:"@ + hex(
                hmac_sha256_of(key, encode_utf8("zode:auth-replica-fingerprint:v1"@) + bytes),
            ),
        ),
        Err(_) => None,
    }
}

fn text_item(text: &str) -> (value: Value)
    ensures
        json_view(value) == JsonView::Text(text@),
{
    string_value(text.to_string())
}

fn canonical_value(profile_id: &str, idempotency_key: &str, mutation: &ReplicaMutation) -> (value:
    Value)
    ensures
        json_view(value) == canonical_request(profile_id@, idempotency_key@, mutation.deep_view()),
{
    let mut items: Vec<Value> = Vec::new();
    match mutation {
        ReplicaMutation::Install(request) => {
            items.push(text_item("install"));
            items.push(text_item(profile_id));
            items.push(text_item(idempotency_key));
            items.push(text_item(&request.schema));
            items.push(text_item(&request.authority_id));
            items.push(text_item(&request.provider));
            items.push(text_item(&request.kind));
            items.push(unsigned_value(request.revision));
            items.push(text_item(&request.credential_schema));
            items.push(
                match request.expires_at_ms {
                    Some(expires) => signed_value(expires),
                    None => null_value(),
                },
            );
            items.push(text_item(&request.secret.encoding));
            items.push(text_item(&request.secret.payload));
        },
        ReplicaMutation::Tombstone(request) => {
            items.push(text_item("tombstone"));
            items.push(text_item(profile_id));
            items.push(text_item(idempotency_key));
            items.push(text_item(&request.schema));
            items.push(text_item(&request.authority_id));
            items.push(text_item(&request.provider));
            items.push(unsigned_value(request.revision));
        },
    }
    assert(JsonView::Array(values_view(items@)) =~= canonical_request(
        profile_id@,
        idempotency_key@,
        mutation.deep_view(),
    )) by {
        assert(values_view(items@) =~= canonical_request(
            profile_id@,
            idempotency_key@,
            mutation.deep_view(),
        )->Array_0);
    }
    array_value(items)
}

/// The fingerprint of a request: a keyed digest of all that it asks.
pub fn request_fingerprint(
    key: &[u8],
    profile_id: &str,
    idempotency_key: &str,
    mutation: &ReplicaMutation,
) -> (result: Result<String, ReplicaError>)
    ensures
        match fingerprint_of(key@, profile_id@, idempotency_key@, mutation.deep_view()) {
            Some(fingerprint) => result matches Ok(text) && text@ == fingerprint,
            None => result == Err::<String, ReplicaError>(ReplicaError::Record),
        },
{
    let value = canonical_value(profile_id, idempotency_key, mutation);
    assert(is_flat(json_view(value)));
    let canonical = match encoded(&value) {
        Ok(bytes) => bytes,
        Err(_) => {
            return Err(ReplicaError::Record);
        },
    };
    let mut message: Vec<u8> = Vec::new();
    message.extend_from_slice("zode:auth-replica-fingerprint:v1".as_bytes());
    message.extend_from_slice(canonical.as_slice());
    assert(message@ =~= encode_utf8("zode:auth-replica-fingerprint:v1"@) + canonical@);
    let code = hmac_sha256(key, message.as_slice());
    Ok(joined("hmac-sha256:v1:", &hex_text(code.as_slice())))
}

/// What the name of the file of a replica is made from.
pub open spec fn replica_name_source(authority_id: Seq<char>, profile_id: Seq<char>) -> Seq<u8> {
    length_prefixed(seq![authority_id, profile_id])
}

/// The name of the file of a replica.
pub open spec fn replica_name(authority_id: Seq<char>, profile_id: Seq<char>) -> Seq<char> {
    "replica-"@ + hex(sha256_of(replica_name_source(authority_id, profile_id))) + ".json"@
}

/// What the name of the file of a receipt is made from.
pub open spec fn receipt_name_source(
    authority_id: Seq<char>,
    profile_id: Seq<char>,
    idempotency_key: Seq<char>,
) -> Seq<u8> {
    encode_utf8("zode:auth-replica-receipt:v1"@) + length_prefixed(
        seq![authority_id, profile_id, idempotency_key],
    )
}

/// The name of the file of a receipt.
pub open spec fn receipt_name(
    authority_id: Seq<char>,
    profile_id: Seq<char>,
    idempotency_key: Seq<char>,
) -> Seq<char> {
    "receipt-"@ + hex(sha256_of(receipt_name_source(authority_id, profile_id, idempotency_key)))
        + ".json"@
}

/// The name of the file of a replica.
pub fn replica_file_name(authority_id: &str, profile_id: &str) -> (name: String)
    ensures
        name@ == replica_name(authority_id@, profile_id@),
{
    let mut source: Vec<u8> = Vec::new();
    push_length_prefixed(&mut source, &[authority_id, profile_id]);
    proof {
        assert(texts_view(seq![authority_id, profile_id]) =~= seq![authority_id@, profile_id@]);
        assert(source@ =~= replica_name_source(authority_id@, profile_id@));
    }
    let digest = sha256(source.as_slice());
    let mut name = joined("replica-", &hex_text(digest.as_slice()));
    name.append(".json");
    name
}

/// The name of the file of a receipt.
pub fn receipt_file_name(authority_id: &str, profile_id: &str, idempotency_key: &str) -> (name:
    String)
    ensures
        name@ == receipt_name(authority_id@, profile_id@, idempotency_key@),
{
    let mut source: Vec<u8> = Vec::new();
    source.extend_from_slice("zode:auth-replica-receipt:v1".as_bytes());
    push_length_prefixed(&mut source, &[authority_id, profile_id, idempotency_key]);
    proof {
        assert(texts_view(seq![authority_id, profile_id, idempotency_key]) =~= seq![
            authority_id@,
            profile_id@,
            idempotency_key@,
        ]);
        assert(source@ =~= receipt_name_source(authority_id@, profile_id@, idempotency_key@));
    }
    let digest = sha256(source.as_slice());
    let mut name = joined("receipt-", &hex_text(digest.as_slice()));
    name.append(".json");
    name
}

/// Whether a file name is that of some replica.
pub open spec fn is_replica_name(name: Seq<char>) -> bool {
    "replica-"@.is_prefix_of(name) && ".json"@.is_suffix_of(name)
}

/// Whether a file name is that of some replica.
pub fn names_replica(name: &str) -> (names: bool)
    ensures
        names == is_replica_name(name@),
{
    has_prefix(name, "replica-") && has_suffix(name, ".json")
}

/// Whether a record is sound, for its authority and profile.
pub open spec fn record_allowed(
    record: ReplicaRecordView,
    authority_id: Seq<char>,
    profile_id: Seq<char>,
) -> bool {
    &&& record.schema == "zode.auth-replica.record.v1"@
    &&& record.authority_id == authority_id
    &&& record.profile_id == profile_id
    &&& bounded(record.provider, MAX_NAME_BYTES)
    &&& record.revision > 0
    &&& expiry_allowed(record.expires_at_ms)
    &&& record.response_status == 200 || record.response_status == 201
    &&& record.fingerprint.len() > 0
    &&& if record.status == "ready"@ {
        &&& record.kind matches Some(kind) && kind_supported(kind)
        &&& record.credential_schema matches Some(schema) && schema_supported(schema)
        &&& record.secret matches Some(secret) && bounded(secret, MAX_SECRET_BYTES)
    } else {
        &&& record.status == "tombstoned"@
        &&& record.secret is None
        &&& record.expires_at_ms is None
    }
}

/// Whether a receipt is sound, for its authority and profile.
pub open spec fn receipt_allowed(
    receipt: ReplicaReceiptView,
    authority_id: Seq<char>,
    profile_id: Seq<char>,
) -> bool {
    &&& receipt.schema == "zode.auth-replica.receipt.v1"@
    &&& receipt.authority_id == authority_id
    &&& receipt.profile_id == profile_id
    &&& bounded(receipt.provider, MAX_NAME_BYTES)
    &&& receipt.revision > 0
    &&& expiry_allowed(receipt.expires_at_ms)
    &&& receipt.fingerprint.len() > 0
    &&& if receipt.metadata_status == "ready"@ {
        receipt.response_status == 200 || receipt.response_status == 201
    } else {
        &&& receipt.metadata_status == "tombstoned"@
        &&& receipt.response_status == 200
        &&& receipt.expires_at_ms is None
    }
}

/// Checks a stored record.
pub fn validate_record(record: &ReplicaRecord, authority_id: &str, profile_id: &str) -> (result:
    Result<(), ReplicaError>)
    ensures
        result == if record_allowed(record.deep_view(), authority_id@, profile_id@) {
            Ok::<(), ReplicaError>(())
        } else {
            Err::<(), ReplicaError>(ReplicaError::SecretUnavailable)
        },
{
    if !same_text(&record.schema, "zode.auth-replica.record.v1") || !same_text(
        &record.authority_id,
        authority_id,
    ) || !same_text(&record.profile_id, profile_id) || !is_bounded(&record.provider, MAX_NAME_BYTES)
        || record.revision == 0 || !valid_expiry(record.expires_at_ms) || !(record.response_status
        == 200 || record.response_status == 201) || record.fingerprint.as_str().is_empty() {
        return Err(ReplicaError::SecretUnavailable);
    }
    let allowed = if same_text(&record.status, "ready") {
        (match &record.kind {
            Some(kind) => supported_kind(kind),
            None => false,
        }) && (match &record.credential_schema {
            Some(schema) => supported_credential_schema(schema),
            None => false,
        }) && (match &record.secret {
            Some(secret) => is_bounded(secret, MAX_SECRET_BYTES),
            None => false,
        })
    } else {
        same_text(&record.status, "tombstoned") && record.secret.is_none()
            && record.expires_at_ms.is_none()
    };
    if allowed {
        Ok(())
    } else {
        Err(ReplicaError::SecretUnavailable)
    }
}

/// Checks a stored receipt.
pub fn validate_receipt(receipt: &ReplicaReceipt, authority_id: &str, profile_id: &str) -> (result:
    Result<(), ReplicaError>)
    ensures
        result == if receipt_allowed(receipt.deep_view(), authority_id@, profile_id@) {
            Ok::<(), ReplicaError>(())
        } else {
            Err::<(), ReplicaError>(ReplicaError::SecretUnavailable)
        },
{
    if !same_text(&receipt.schema, "zode.auth-replica.receipt.v1") || !same_text(
        &receipt.authority_id,
        authority_id,
    ) || !same_text(&receipt.profile_id, profile_id) || !is_bounded(
        &receipt.provider,
        MAX_NAME_BYTES,
    ) || receipt.revision == 0 || !valid_expiry(receipt.expires_at_ms)
        || receipt.fingerprint.as_str().is_empty() {
        return Err(ReplicaError::SecretUnavailable);
    }
    let allowed = if same_text(&receipt.metadata_status, "ready") {
        receipt.response_status == 200 || receipt.response_status == 201
    } else {
        same_text(&receipt.metadata_status, "tombstoned") && receipt.response_status == 200
            && receipt.expires_at_ms.is_none()
    };
    if allowed {
        Ok(())
    } else {
        Err(ReplicaError::SecretUnavailable)
    }
}

/// The status that is told: of a withdrawn replica that it is, of another that it is ready.
pub open spec fn told_status(status: Seq<char>) -> Seq<char> {
    if status == "tombstoned"@ {
        "tombstoned"@
    } else {
        "ready"@
    }
}

/// What is told of a record.
pub open spec fn record_metadata(record: ReplicaRecordView) -> ReplicaMetadataView {
    ReplicaMetadataView {
        authority_id: record.authority_id,
        profile_id: record.profile_id,
        provider: record.provider,
        revision: record.revision,
        expires_at_ms: record.expires_at_ms,
        status: told_status(record.status),
    }
}

/// What is told of a receipt.
pub open spec fn receipt_metadata(receipt: ReplicaReceiptView) -> ReplicaMetadataView {
    ReplicaMetadataView {
        authority_id: receipt.authority_id,
        profile_id: receipt.profile_id,
        provider: receipt.provider,
        revision: receipt.revision,
        expires_at_ms: receipt.expires_at_ms,
        status: told_status(receipt.metadata_status),
    }
}

/// The answer that goes with a record.
pub open spec fn record_outcome(record: ReplicaRecordView) -> ReplicaProvisionOutcomeView {
    ReplicaProvisionOutcomeView {
        status: record.response_status,
        metadata: record_metadata(record),
    }
}

/// The answer that a receipt repeats.
pub open spec fn receipt_outcome(receipt: ReplicaReceiptView) -> ReplicaProvisionOutcomeView {
    ReplicaProvisionOutcomeView {
        status: receipt.response_status,
        metadata: receipt_metadata(receipt),
    }
}

/// The receipt of a record.
pub open spec fn receipt_for(
    record: ReplicaRecordView,
    fingerprint: Seq<char>,
) -> ReplicaReceiptView {
    ReplicaReceiptView {
        schema: "zode.auth-replica.receipt.v1"@,
        authority_id: record.authority_id,
        profile_id: record.profile_id,
        provider: record.provider,
        revision: record.revision,
        expires_at_ms: record.expires_at_ms,
        response_status: record.response_status,
        metadata_status: record.status,
        fingerprint,
    }
}

/// The record that a change leads to.
pub open spec fn new_record(
    mutation: ReplicaMutationView,
    authority_id: Seq<char>,
    profile_id: Seq<char>,
    fingerprint: Seq<char>,
) -> ReplicaRecordView {
    match mutation {
        ReplicaMutationView::Install(request) => ReplicaRecordView {
            schema: "zode.auth-replica.record.v1"@,
            authority_id,
            profile_id,
            provider: request.provider,
            kind: Some(request.kind),
            revision: request.revision,
            credential_schema: Some(request.credential_schema),
            expires_at_ms: request.expires_at_ms,
            fingerprint,
            response_status: 201,
            status: "ready"@,
            secret: Some(request.secret.payload),
        },
        ReplicaMutationView::Tombstone(request) => ReplicaRecordView {
            schema: "zode.auth-replica.record.v1"@,
            authority_id,
            profile_id,
            provider: request.provider,
            kind: None,
            revision: request.revision,
            credential_schema: None,
            expires_at_ms: None,
            fingerprint,
            response_status: 200,
            status: "tombstoned"@,
            secret: None,
        },
    }
}

/// The answer to a request whose key has a receipt: what was answered before, if the request is
/// the same.
pub open spec fn receipt_step(
    receipt: ReplicaReceiptView,
    authority_id: Seq<char>,
    profile_id: Seq<char>,
    fingerprint: Seq<char>,
) -> Result<ReplicaProvisionOutcomeView, ReplicaError> {
    if !receipt_allowed(receipt, authority_id, profile_id) {
        Err(ReplicaError::SecretUnavailable)
    } else if receipt.fingerprint == fingerprint {
        Ok(receipt_outcome(receipt))
    } else {
        Err(ReplicaError::Conflict)
    }
}

/// What a change calls for, given the record that is stored. The provider stays, and a revision
/// only rises; the revision that is stored is confirmed to the request that stored it.
pub open spec fn record_step(
    existing: Option<ReplicaRecordView>,
    authority_id: Seq<char>,
    profile_id: Seq<char>,
    mutation: ReplicaMutationView,
    fingerprint: Seq<char>,
) -> Result<ReplicaDecisionView, ReplicaError> {
    let record = new_record(mutation, authority_id, profile_id, fingerprint);
    let stored_decision = ReplicaDecisionView::Stored {
        record,
        receipt: receipt_for(record, fingerprint),
        outcome: record_outcome(record),
    };
    match existing {
        None => Ok(stored_decision),
        Some(current) => if !record_allowed(current, authority_id, profile_id) {
            Err(ReplicaError::SecretUnavailable)
        } else if current.provider != provider_of(mutation) {
            Err(ReplicaError::Conflict)
        } else if current.revision == revision_of(mutation) {
            if current.fingerprint == fingerprint {
                Ok(
                    ReplicaDecisionView::Confirmed {
                        receipt: receipt_for(current, fingerprint),
                        outcome: record_outcome(current),
                    },
                )
            } else {
                Err(ReplicaError::Conflict)
            }
        } else if revision_of(mutation) < current.revision {
            Err(ReplicaError::Conflict)
        } else {
            Ok(stored_decision)
        },
    }
}

fn metadata_status(status: &str) -> (told: &'static str)
    ensures
        told@ == told_status(status@),
{
    if same_text(status, "tombstoned") {
        "tombstoned"
    } else {
        "ready"
    }
}

/// What is told of a record.
pub fn metadata_from_record(record: &ReplicaRecord) -> (metadata: ReplicaMetadata)
    ensures
        metadata.deep_view() == record_metadata(record.deep_view()),
{
    ReplicaMetadata {
        authority_id: record.authority_id.clone(),
        profile_id: record.profile_id.clone(),
        provider: record.provider.clone(),
        revision: record.revision,
        expires_at_ms: record.expires_at_ms,
        status: metadata_status(&record.status),
    }
}

fn outcome_from_record(record: &ReplicaRecord) -> (outcome: ReplicaProvisionOutcome)
    ensures
        outcome.deep_view() == record_outcome(record.deep_view()),
{
    ReplicaProvisionOutcome {
        status: record.response_status,
        metadata: metadata_from_record(record),
    }
}

fn outcome_from_receipt(receipt: &ReplicaReceipt) -> (outcome: ReplicaProvisionOutcome)
    ensures
        outcome.deep_view() == receipt_outcome(receipt.deep_view()),
{
    ReplicaProvisionOutcome {
        status: receipt.response_status,
        metadata: ReplicaMetadata {
            authority_id: receipt.authority_id.clone(),
            profile_id: receipt.profile_id.clone(),
            provider: receipt.provider.clone(),
            revision: receipt.revision,
            expires_at_ms: receipt.expires_at_ms,
            status: metadata_status(&receipt.metadata_status),
        },
    }
}

fn receipt_from_record(record: &ReplicaRecord, fingerprint: &str) -> (receipt: ReplicaReceipt)
    ensures
        receipt.deep_view() == receipt_for(record.deep_view(), fingerprint@),
{
    ReplicaReceipt {
        schema: "zode.auth-replica.receipt.v1".to_string(),
        authority_id: record.authority_id.clone(),
        profile_id: record.profile_id.clone(),
        provider: record.provider.clone(),
        revision: record.revision,
        expires_at_ms: record.expires_at_ms,
        response_status: record.response_status,
        metadata_status: record.status.clone(),
        fingerprint: fingerprint.to_string(),
    }
}

fn same_fingerprint(left: &str, right: &str) -> (same: bool)
    ensures
        same == (left@ == right@),
{
    let same = same_secret(left.as_bytes(), right.as_bytes());
    proof {
        if same {
            lemma_same_bytes(left@, right@);
        }
    }
    same
}

/// Answers a request whose idempotency key has a receipt.
pub fn answer_from_receipt(
    receipt: &ReplicaReceipt,
    authority_id: &str,
    profile_id: &str,
    fingerprint: &str,
) -> (result: Result<ReplicaProvisionOutcome, ReplicaError>)
    ensures
        match result {
            Ok(outcome) => receipt_step(
                receipt.deep_view(),
                authority_id@,
                profile_id@,
                fingerprint@,
            ) == Ok::<ReplicaProvisionOutcomeView, ReplicaError>(outcome.deep_view()),
            Err(error) => receipt_step(
                receipt.deep_view(),
                authority_id@,
                profile_id@,
                fingerprint@,
            ) == Err::<ReplicaProvisionOutcomeView, ReplicaError>(error),
        },
{
    validate_receipt(receipt, authority_id, profile_id)?;
    if same_fingerprint(&receipt.fingerprint, fingerprint) {
        Ok(outcome_from_receipt(receipt))
    } else {
        Err(ReplicaError::Conflict)
    }
}

fn record_for(
    mutation: ReplicaMutation,
    authority_id: &str,
    profile_id: &str,
    fingerprint: &str,
) -> (record: ReplicaRecord)
    ensures
        record.deep_view() == new_record(
            mutation.deep_view(),
            authority_id@,
            profile_id@,
            fingerprint@,
        ),
{
    match mutation {
        ReplicaMutation::Install(request) => ReplicaRecord {
            schema: "zode.auth-replica.record.v1".to_string(),
            authority_id: authority_id.to_string(),
            profile_id: profile_id.to_string(),
            provider: request.provider,
            kind: Some(request.kind),
            revision: request.revision,
            credential_schema: Some(request.credential_schema),
            expires_at_ms: request.expires_at_ms,
            fingerprint: fingerprint.to_string(),
            response_status: 201,
            status: "ready".to_string(),
            secret: Some(request.secret.payload),
        },
        ReplicaMutation::Tombstone(request) => ReplicaRecord {
            schema: "zode.auth-replica.record.v1".to_string(),
            authority_id: authority_id.to_string(),
            profile_id: profile_id.to_string(),
            provider: request.provider,
            kind: None,
            revision: request.revision,
            credential_schema: None,
            expires_at_ms: None,
            fingerprint: fingerprint.to_string(),
            response_status: 200,
            status: "tombstoned".to_string(),
            secret: None,
        },
    }
}

/// Decides on a change whose idempotency key has no receipt, given the record that is stored.
pub fn decide_mutation(
    existing: Option<&ReplicaRecord>,
    authority_id: &str,
    profile_id: &str,
    mutation: ReplicaMutation,
    fingerprint: &str,
) -> (result: Result<ReplicaDecision, ReplicaError>)
    ensures
        match result {
            Ok(decision) => record_step(
                existing.deep_view(),
                authority_id@,
                profile_id@,
                mutation.deep_view(),
                fingerprint@,
            ) == Ok::<ReplicaDecisionView, ReplicaError>(decision.deep_view()),
            Err(error) => record_step(
                existing.deep_view(),
                authority_id@,
                profile_id@,
                mutation.deep_view(),
                fingerprint@,
            ) == Err::<ReplicaDecisionView, ReplicaError>(error),
        },
{
    if let Some(current) = existing {
        validate_record(current, authority_id, profile_id)?;
        if !same_text(&current.provider, mutation_provider(&mutation)) {
            return Err(ReplicaError::Conflict);
        }
        let revision: u64 = mutation_revision(&mutation);
        if current.revision == revision {
            if same_fingerprint(&current.fingerprint, fingerprint) {
                return Ok(
                    ReplicaDecision::Confirmed {
                        receipt: receipt_from_record(current, fingerprint),
                        outcome: outcome_from_record(current),
                    },
                );
            }
            return Err(ReplicaError::Conflict);
        }
        if revision < current.revision {
            return Err(ReplicaError::Conflict);
        }
    }
    let record = record_for(mutation, authority_id, profile_id, fingerprint);
    let receipt = receipt_from_record(&record, fingerprint);
    let outcome = outcome_from_record(&record);
    Ok(ReplicaDecision::Stored { record, receipt, outcome })
}

/// Whether a secret may be asked for in this way.
pub open spec fn lookup_allowed(
    authority_id: Seq<char>,
    profile_id: Seq<char>,
    provider: Seq<char>,
    minimum_revision: u64,
) -> bool {
    authority_id.len() > 0 && profile_id.len() > 0 && provider.len() > 0 && minimum_revision > 0
}

/// Checks what a secret is asked for by, before anything is read.
pub fn check_lookup(
    authority_id: &str,
    profile_id: &str,
    provider: &str,
    minimum_revision: u64,
) -> (result: Result<(), ReplicaError>)
    ensures
        result == if lookup_allowed(authority_id@, profile_id@, provider@, minimum_revision) {
            Ok::<(), ReplicaError>(())
        } else {
            Err::<(), ReplicaError>(ReplicaError::Invalid)
        },
{
    if authority_id.is_empty() || profile_id.is_empty() || provider.is_empty() || minimum_revision
        == 0 {
        Err(ReplicaError::Invalid)
    } else {
        Ok(())
    }
}

/// Whether the secret of a record may be lent: the record is sound, of the provider, ready, recent
/// enough and not expired.
pub open spec fn may_lend(
    record: ReplicaRecordView,
    authority_id: Seq<char>,
    profile_id: Seq<char>,
    provider: Seq<char>,
    minimum_revision: u64,
    now_ms: i64,
) -> bool {
    &&& record_allowed(record, authority_id, profile_id)
    &&& record.provider == provider
    &&& record.status == "ready"@
    &&& record.revision >= minimum_revision
    &&& record.expires_at_ms matches Some(expires) ==> expires > now_ms
}

/// Lends the secret of a record.
pub fn lease_from_record(
    record: ReplicaRecord,
    authority_id: &str,
    profile_id: &str,
    provider: &str,
    minimum_revision: u64,
    now_ms: i64,
) -> (result: Result<SecretLease, ReplicaError>)
    ensures
        if may_lend(
            record.deep_view(),
            authority_id@,
            profile_id@,
            provider@,
            minimum_revision,
            now_ms,
        ) {
            result matches Ok(lease) && lease.deep_view() == (SecretLeaseView {
                revision: record.revision,
                credential_schema: record.deep_view().credential_schema->0,
                secret: record.deep_view().secret->0,
            })
        } else {
            result == Err::<SecretLease, ReplicaError>(ReplicaError::SecretUnavailable)
        },
{
    validate_record(&record, authority_id, profile_id)?;
    if !same_text(&record.provider, provider) || !same_text(&record.status, "ready")
        || record.revision < minimum_revision {
        return Err(ReplicaError::SecretUnavailable);
    }
    if let Some(expires) = record.expires_at_ms {
        if expires <= now_ms {
            return Err(ReplicaError::SecretUnavailable);
        }
    }
    match (record.credential_schema, record.secret) {
        (Some(credential_schema), Some(secret)) => Ok(
            SecretLease { revision: record.revision, credential_schema, secret },
        ),
        _ => Err(ReplicaError::SecretUnavailable),
    }
}

/// The metadata of a record that was read for an authority and a profile. Both have to be named.
pub fn read_metadata(record: &ReplicaRecord, authority_id: &str, profile_id: &str) -> (result:
    Result<ReplicaMetadata, ReplicaError>)
    ensures
        if authority_id@.len() == 0 || profile_id@.len() == 0 {
            result == Err::<ReplicaMetadata, ReplicaError>(ReplicaError::Invalid)
        } else if record_allowed(record.deep_view(), authority_id@, profile_id@) {
            result matches Ok(metadata) && metadata.deep_view() == record_metadata(
                record.deep_view(),
            )
        } else {
            result == Err::<ReplicaMetadata, ReplicaError>(ReplicaError::SecretUnavailable)
        },
{
    if authority_id.is_empty() || profile_id.is_empty() {
        return Err(ReplicaError::Invalid);
    }
    validate_record(record, authority_id, profile_id)?;
    Ok(metadata_from_record(record))
}

/// Checks the authority whose replicas are to be listed, before anything is read.
pub fn check_listing(authority_id: &str) -> (result: Result<(), ReplicaError>)
    ensures
        result == if authority_id@.len() > 0 {
            Ok::<(), ReplicaError>(())
        } else {
            Err::<(), ReplicaError>(ReplicaError::Invalid)
        },
{
    if authority_id.is_empty() {
        Err(ReplicaError::Invalid)
    } else {
        Ok(())
    }
}

/// The latest records of an authority, by profile, as far as they were read.
pub struct ReplicaListing {
    records: TextMap<ReplicaRecord>,
}

impl DeepView for ReplicaListing {
    type V = Seq<(Seq<char>, ReplicaRecordView)>;

    closed spec fn deep_view(&self) -> Self::V {
        self.records.deep_view()
    }
}

/// A listing with one more record: those of other authorities are passed over, and of one profile
/// the first record with the highest revision stays.
pub open spec fn listing_step(
    listing: Seq<(Seq<char>, ReplicaRecordView)>,
    authority_id: Seq<char>,
    record: ReplicaRecordView,
) -> Result<Seq<(Seq<char>, ReplicaRecordView)>, ReplicaError> {
    if record.authority_id != authority_id {
        Ok(listing)
    } else if !record_allowed(record, authority_id, record.profile_id) {
        Err(ReplicaError::SecretUnavailable)
    } else if lookup(listing, record.profile_id) matches Some(current) && record.revision
        <= current.revision {
        Ok(listing)
    } else {
        Ok(stored(listing, record.profile_id, record))
    }
}

impl ReplicaListing {
    /// A listing without records.
    pub fn new() -> (listing: Self)
        ensures
            listing.deep_view() == Seq::<(Seq<char>, ReplicaRecordView)>::empty(),
    {
        ReplicaListing { records: TextMap::new() }
    }

    /// Takes in one more record.
    pub fn add_record(self, authority_id: &str, record: ReplicaRecord) -> (result: Result<
        Self,
        ReplicaError,
    >)
        ensures
            match result {
                Ok(next) => listing_step(
                    self.deep_view(),
                    authority_id@,
                    record.deep_view(),
                ) == Ok::<Seq<(Seq<char>, ReplicaRecordView)>, ReplicaError>(next.deep_view()),
                Err(error) => listing_step(
                    self.deep_view(),
                    authority_id@,
                    record.deep_view(),
                ) == Err::<Seq<(Seq<char>, ReplicaRecordView)>, ReplicaError>(error),
            },
    {
        let mut listing = self;
        if !same_text(&record.authority_id, authority_id) {
            return Ok(listing);
        }
        validate_record(&record, authority_id, &record.profile_id)?;
        if let Some(current) = listing.records.get(&record.profile_id) {
            if record.revision <= current.revision {
                return Ok(listing);
            }
        }
        listing.records.insert(record.profile_id.clone(), record);
        Ok(listing)
    }

    /// The metadata of the records, in the order of their profiles.
    pub fn metadata(&self) -> (metadata: Vec<ReplicaMetadata>)
        ensures
            metadata.deep_view() == Seq::new(
                self.deep_view().len(),
                |i: int| record_metadata(self.deep_view()[i].1),
            ),
    {
        let ghost view = self.deep_view();
        let mut metadata: Vec<ReplicaMetadata> = Vec::new();
        let mut index: usize = 0;
        while index < self.records.len()
            invariant
                view == self.records.deep_view(),
                index <= view.len(),
                metadata.len() == index,
                forall|i: int|
                    0 <= i < index ==> (#[trigger] metadata[i]).deep_view() == record_metadata(
                        view[i].1,
                    ),
            decreases view.len() - index,
        {
            metadata.push(metadata_from_record(self.records.value_at(index)));
            index += 1;
        }
        assert(metadata.deep_view() =~= Seq::new(
            view.len(),
            |i: int| record_metadata(view[i].1),
        ));
        metadata
    }
}

/// Checks the key under which requests are fingerprinted, as it was read back.
pub fn accept_key(key: Vec<u8>) -> (result: Result<Vec<u8>, ReplicaError>)
    ensures
        result == if key@.len() == REPLICA_KEY_BYTES {
            Ok::<Vec<u8>, ReplicaError>(key)
        } else {
            Err::<Vec<u8>, ReplicaError>(ReplicaError::SecretUnavailable)
        },
{
    if key.len() == REPLICA_KEY_BYTES {
        Ok(key)
    } else {
        Err(ReplicaError::SecretUnavailable)
    }
}

/// A replica error as callers of the store see it.
pub fn port_error(error: ReplicaError) -> (port: ReplicaPortError)
    ensures
        port == match error {
            ReplicaError::Invalid => ReplicaPortError::Invalid,
            ReplicaError::Conflict => ReplicaPortError::Conflict,
            ReplicaError::NotFound => ReplicaPortError::NotFound,
            ReplicaError::Disabled => ReplicaPortError::Disabled,
            ReplicaError::Unavailable => ReplicaPortError::Unavailable,
            ReplicaError::SecretUnavailable => ReplicaPortError::SecretUnavailable,
            ReplicaError::Storage | ReplicaError::Record => ReplicaPortError::Backend,
        },
{
    match error {
        ReplicaError::Invalid => ReplicaPortError::Invalid,
        ReplicaError::Conflict => ReplicaPortError::Conflict,
        ReplicaError::NotFound => ReplicaPortError::NotFound,
        ReplicaError::Disabled => ReplicaPortError::Disabled,
        ReplicaError::Unavailable => ReplicaPortError::Unavailable,
        ReplicaError::SecretUnavailable => ReplicaPortError::SecretUnavailable,
        ReplicaError::Storage | ReplicaError::Record => ReplicaPortError::Backend,
    }
}

/// A walk through the store finds every replica by its name, and takes no receipt for one.
pub proof fn replicas_are_found_by_name(
    authority_id: Seq<char>,
    profile_id: Seq<char>,
    idempotency_key: Seq<char>,
)
    ensures
        is_replica_name(replica_name(authority_id, profile_id)),
        !is_replica_name(receipt_name(authority_id, profile_id, idempotency_key)),
{
    reveal_strlit("replica-");
    reveal_strlit("receipt-");
    let name = replica_name(authority_id, profile_id);
    assert("replica-"@ =~= name.subrange(0, "replica-"@.len() as int));
    assert(".json"@ =~= name.subrange(name.len() - ".json"@.len(), name.len() as int));
    assert("replica-"@[2] == 'p');
    assert(receipt_name(authority_id, profile_id, idempotency_key)[2] == "receipt-"@[2]);
}

/// A change that is stored is sound again when it is read back.
pub proof fn stored_record_is_sound(
    existing: Option<ReplicaRecordView>,
    authority_id: Seq<char>,
    profile_id: Seq<char>,
    idempotency_key: Seq<char>,
    mutation: ReplicaMutationView,
    fingerprint: Seq<char>,
)
    requires
        mutation_allowed(profile_id, authority_id, idempotency_key, mutation),
        fingerprint.len() > 0,
    ensures
        record_step(existing, authority_id, profile_id, mutation, fingerprint) matches Ok(
            ReplicaDecisionView::Stored { record, .. },
        ) ==> record_allowed(record, authority_id, profile_id),
{
    reveal_strlit("ready");
    reveal_strlit("tombstoned");
    assert("ready"@.len() != "tombstoned"@.len());
}

/// A request that was answered is answered the same when it comes again.
pub proof fn same_request_is_answered_the_same(
    existing: Option<ReplicaRecordView>,
    authority_id: Seq<char>,
    profile_id: Seq<char>,
    idempotency_key: Seq<char>,
    mutation: ReplicaMutationView,
    fingerprint: Seq<char>,
)
    requires
        mutation_allowed(profile_id, authority_id, idempotency_key, mutation),
        fingerprint.len() > 0,
        existing matches Some(current) ==> current.status == "tombstoned"@
            ==> current.response_status == 200,
    ensures
        match record_step(existing, authority_id, profile_id, mutation, fingerprint) {
            Ok(ReplicaDecisionView::Stored { receipt, outcome, .. }) => receipt_step(
                receipt,
                authority_id,
                profile_id,
                fingerprint,
            ) == Ok::<ReplicaProvisionOutcomeView, ReplicaError>(outcome),
            Ok(ReplicaDecisionView::Confirmed { receipt, outcome }) => receipt_step(
                receipt,
                authority_id,
                profile_id,
                fingerprint,
            ) == Ok::<ReplicaProvisionOutcomeView, ReplicaError>(outcome),
            Err(_) => true,
        },
{
    reveal_strlit("ready");
    reveal_strlit("tombstoned");
    assert("ready"@.len() != "tombstoned"@.len());
}

/// A request whose key was used for another request is refused.
pub proof fn reused_key_is_refused(
    receipt: ReplicaReceiptView,
    authority_id: Seq<char>,
    profile_id: Seq<char>,
    fingerprint: Seq<char>,
)
    requires
        receipt.fingerprint != fingerprint,
    ensures
        receipt_step(receipt, authority_id, profile_id, fingerprint) is Err,
{
}

/// The revision of a replica only rises, and its provider stays.
pub proof fn revision_only_rises(
    existing: ReplicaRecordView,
    authority_id: Seq<char>,
    profile_id: Seq<char>,
    mutation: ReplicaMutationView,
    fingerprint: Seq<char>,
)
    ensures
        record_step(Some(existing), authority_id, profile_id, mutation, fingerprint) matches Ok(
            ReplicaDecisionView::Stored { record, .. },
        ) ==> record.revision > existing.revision && record.provider == existing.provider,
{
}

/// A credential that was withdrawn is lent to nobody.
pub proof fn withdrawn_secret_is_not_lent(
    existing: Option<ReplicaRecordView>,
    authority_id: Seq<char>,
    profile_id: Seq<char>,
    request: ReplicaTombstoneRequestView,
    fingerprint: Seq<char>,
    provider: Seq<char>,
    minimum_revision: u64,
    now_ms: i64,
)
    ensures
        record_step(
            existing,
            authority_id,
            profile_id,
            ReplicaMutationView::Tombstone(request),
            fingerprint,
        ) matches Ok(ReplicaDecisionView::Stored { record, .. }) ==> !may_lend(
            record,
            authority_id,
            profile_id,
            provider,
            minimum_revision,
            now_ms,
        ),
{
    reveal_strlit("ready");
    reveal_strlit("tombstoned");
    assert("ready"@.len() != "tombstoned"@.len());
}

/// No two pairs of an authority and a profile name their replica from the same bytes.
pub proof fn replica_names_have_distinct_sources(
    authority_a: Seq<char>,
    profile_a: Seq<char>,
    authority_b: Seq<char>,
    profile_b: Seq<char>,
)
    requires
        byte_len(authority_a) <= MAX_NAME_BYTES,
        byte_len(profile_a) <= MAX_NAME_BYTES,
        byte_len(authority_b) <= MAX_NAME_BYTES,
        byte_len(profile_b) <= MAX_NAME_BYTES,
        replica_name_source(authority_a, profile_a) == replica_name_source(
            authority_b,
            profile_b,
        ),
    ensures
        authority_a == authority_b,
        profile_a == profile_b,
{
    let a = seq![authority_a, profile_a];
    let b = seq![authority_b, profile_b];
    length_prefixed_is_injective(a, b);
    assert(a[0] == b[0] && a[1] == b[1]);
}

} // verus!
