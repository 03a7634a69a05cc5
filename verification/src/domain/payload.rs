//! Payloads that are stored with a session, and opaque model continuations.

use super::error::{fault_of, invalid, invalid_state, DomainError, DomainErrorView};
use super::rules::{
    bounded_text_fault, identifier_fault, require_text, required_text_fault,
    validate_bounded_text, validate_identifier,
};
use super::{MAX_ERROR_MESSAGE_BYTES, MAX_INLINE_PAYLOAD_BYTES, MAX_OPAQUE_CONTINUATION_BYTES};
use crate::checks::{fault_if, optional_fault, Checks};
use crate::datum::{Datum, Same};
use crate::json::{
    encoded_len,
    equal_values,
    json_equal,
    json_equal_reflexive,
    json_size,
    json_view,
    JsonView,
};
use crate::text::{byte_len, text_bytes};
use serde_json::Value;
use vstd::prelude::*;

verus! {

/// A provider-neutral continuation that may be carried across model rounds. Its bytes are never
/// decoded here.
#[derive(Clone, Debug, PartialEq)]
pub struct OpaqueContinuation {
    pub provider_type: String,
    pub codec_version: u32,
    pub semantic_kind: String,
    pub bytes: Vec<u8>,
}

/// The content of a [`OpaqueContinuation`].
pub struct OpaqueContinuationView {
    pub provider_type: Seq<char>,
    pub codec_version: u32,
    pub semantic_kind: Seq<char>,
    pub bytes: Seq<u8>,
}

impl DeepView for OpaqueContinuation {
    type V = OpaqueContinuationView;

    open spec fn deep_view(&self) -> OpaqueContinuationView {
        OpaqueContinuationView {
            provider_type: self.provider_type.deep_view(),
            codec_version: self.codec_version,
            semantic_kind: self.semantic_kind.deep_view(),
            bytes: self.bytes@,
        }
    }
}

impl Datum for OpaqueContinuation {
    fn replica(&self) -> (copy: Self) {
        OpaqueContinuation {
            provider_type: self.provider_type.replica(),
            codec_version: self.codec_version,
            semantic_kind: self.semantic_kind.replica(),
            bytes: self.bytes.clone(),
        }
    }
}

/// What is wrong with a continuation.
pub open spec fn continuation_fault(continuation: OpaqueContinuationView) -> Option<
    DomainErrorView,
> {
    identifier_fault("continuation provider type"@, continuation.provider_type).before(
        fault_if(
            continuation.codec_version == 0,
            invalid("continuation codec version must be positive"@),
        ),
    ).before(
        identifier_fault("continuation semantic kind"@, continuation.semantic_kind),
    ).before(
        fault_if(
            continuation.bytes.len() > MAX_OPAQUE_CONTINUATION_BYTES,
            DomainErrorView::CollectionTooLarge {
                field: "opaque continuation bytes"@,
                items: continuation.bytes.len() as usize,
                max: MAX_OPAQUE_CONTINUATION_BYTES,
            },
        ),
    )
}

impl OpaqueContinuation {
    /// A continuation, if its envelope is sound.
    pub fn new(
        provider_type: String,
        codec_version: u32,
        semantic_kind: String,
        bytes: Vec<u8>,
    ) -> (result: Result<Self, DomainError>)
        ensures
            ({
                let wanted = OpaqueContinuationView {
                    provider_type: provider_type@,
                    codec_version,
                    semantic_kind: semantic_kind@,
                    bytes: bytes@,
                };
                &&& fault_of(result) == continuation_fault(wanted)
                &&& result matches Ok(continuation) ==> continuation.deep_view() == wanted
            }),
    {
        let continuation = OpaqueContinuation {
            provider_type,
            codec_version,
            semantic_kind,
            bytes,
        };
        continuation.validate()?;
        Ok(continuation)
    }

    /// Checks the envelope and the bound of the continuation.
    pub fn validate(&self) -> (result: Result<(), DomainError>)
        ensures
            fault_of(result) == continuation_fault(self.deep_view()),
    {
        validate_identifier("continuation provider type", &self.provider_type)?;
        if self.codec_version == 0 {
            return Err(invalid_state("continuation codec version must be positive"));
        }
        validate_identifier("continuation semantic kind", &self.semantic_kind)?;
        if self.bytes.len() > MAX_OPAQUE_CONTINUATION_BYTES {
            return Err(
                DomainError::CollectionTooLarge {
                    field: "opaque continuation bytes",
                    items: self.bytes.len(),
                    max: MAX_OPAQUE_CONTINUATION_BYTES,
                },
            );
        }
        Ok(())
    }
}

/// A JSON value that is stored in place, with the length of its encoding.
#[derive(Clone, Debug, PartialEq)]
pub struct InlinePayload {
    value: Value,
    encoded_len: usize,
}

/// The content of an [`InlinePayload`].
pub struct InlinePayloadView {
    pub value: JsonView,
    pub encoded_len: usize,
}

impl DeepView for InlinePayload {
    type V = InlinePayloadView;

    closed spec fn deep_view(&self) -> InlinePayloadView {
        InlinePayloadView { value: json_view(self.value), encoded_len: self.encoded_len }
    }
}

impl Datum for InlinePayload {
    fn replica(&self) -> (copy: Self) {
        InlinePayload { value: self.value.clone(), encoded_len: self.encoded_len }
    }
}

/// The payload of a JSON content, or why there is none: it must encode, and stay in the bound.
pub open spec fn inline_payload(value: JsonView) -> Result<InlinePayloadView, DomainErrorView> {
    match json_size(value) {
        Err(message) => Err(DomainErrorView::InvalidDurablePayload(message)),
        Ok(bytes) => if bytes > MAX_INLINE_PAYLOAD_BYTES {
            Err(
                DomainErrorView::DurablePayloadTooLarge {
                    bytes: bytes as usize,
                    max: MAX_INLINE_PAYLOAD_BYTES,
                },
            )
        } else {
            Ok(InlinePayloadView { value, encoded_len: bytes as usize })
        },
    }
}

impl InlinePayload {
    /// Admits a value whose encoding stays in the bound of inline payloads.
    pub fn new(value: Value) -> (result: Result<Self, DomainError>)
        ensures
            match result {
                Ok(payload) => inline_payload(json_view(value)) == Ok::<
                    InlinePayloadView,
                    DomainErrorView,
                >(payload.deep_view()),
                Err(error) => inline_payload(json_view(value)) == Err::<
                    InlinePayloadView,
                    DomainErrorView,
                >(error.deep_view()),
            },
    {
        let encoded_len = match encoded_len(&value) {
            Ok(bytes) => bytes,
            Err(message) => {
                return Err(DomainError::InvalidDurablePayload(message));
            },
        };
        if encoded_len > MAX_INLINE_PAYLOAD_BYTES {
            return Err(
                DomainError::DurablePayloadTooLarge {
                    bytes: encoded_len,
                    max: MAX_INLINE_PAYLOAD_BYTES,
                },
            );
        }
        Ok(InlinePayload { value, encoded_len })
    }

    /// The stored value.
    pub fn value(&self) -> (value: &Value)
        ensures
            json_view(*value) == self.deep_view().value,
    {
        &self.value
    }

    /// The length of the stored value's encoding.
    pub fn encoded_len(&self) -> (bytes: usize)
        ensures
            bytes == self.deep_view().encoded_len,
    {
        self.encoded_len
    }

    fn agrees(&self, other: &Self) -> (agrees: bool)
        ensures
            agrees == (self.deep_view().encoded_len == other.deep_view().encoded_len
                && json_equal(self.deep_view().value, other.deep_view().value)),
    {
        self.encoded_len == other.encoded_len && equal_values(&self.value, &other.value)
    }
}

/// A reference to content that is stored elsewhere.
#[derive(Clone, Debug, PartialEq)]
pub struct BlobRef {
    pub blob_id: String,
    pub byte_len: u64,
    pub sha256: String,
    pub media_type: Option<String>,
}

/// The content of a [`BlobRef`].
pub struct BlobRefView {
    pub blob_id: Seq<char>,
    pub byte_len: u64,
    pub sha256: Seq<char>,
    pub media_type: Option<Seq<char>>,
}

impl DeepView for BlobRef {
    type V = BlobRefView;

    open spec fn deep_view(&self) -> BlobRefView {
        BlobRefView {
            blob_id: self.blob_id.deep_view(),
            byte_len: self.byte_len,
            sha256: self.sha256.deep_view(),
            media_type: self.media_type.deep_view(),
        }
    }
}

impl Datum for BlobRef {
    fn replica(&self) -> (copy: Self) {
        BlobRef {
            blob_id: self.blob_id.replica(),
            byte_len: self.byte_len,
            sha256: self.sha256.replica(),
            media_type: self.media_type.replica(),
        }
    }
}

impl Same for BlobRef {
    fn same(&self, other: &Self) -> (same: bool) {
        self.blob_id.same(&other.blob_id)
            && self.byte_len == other.byte_len
            && self.sha256.same(&other.sha256)
            && self.media_type.same(&other.media_type)
    }
}

/// What is wrong with a blob reference.
pub open spec fn blob_ref_fault(blob: BlobRefView) -> Option<DomainErrorView> {
    identifier_fault("blob_id"@, blob.blob_id).before(
        bounded_text_fault("sha256"@, blob.sha256),
    ).before(
        optional_fault(
            blob.media_type,
            |media_type: Seq<char>| bounded_text_fault("media_type"@, media_type),
        ),
    )
}

impl BlobRef {
    /// Checks the texts of the reference.
    pub fn validate(&self) -> (result: Result<(), DomainError>)
        ensures
            fault_of(result) == blob_ref_fault(self.deep_view()),
    {
        validate_identifier("blob_id", &self.blob_id)?;
        validate_bounded_text("sha256", &self.sha256)?;
        if let Some(media_type) = &self.media_type {
            validate_bounded_text("media_type", media_type)?;
        }
        Ok(())
    }
}

/// A payload that was taken out, with the reason.
#[derive(Clone, Debug, PartialEq)]
pub struct RedactedPayload {
    pub reason: String,
}

/// The content of a [`RedactedPayload`].
pub struct RedactedPayloadView {
    pub reason: Seq<char>,
}

impl DeepView for RedactedPayload {
    type V = RedactedPayloadView;

    open spec fn deep_view(&self) -> RedactedPayloadView {
        RedactedPayloadView {
            reason: self.reason.deep_view(),
        }
    }
}

impl Datum for RedactedPayload {
    fn replica(&self) -> (copy: Self) {
        RedactedPayload {
            reason: self.reason.replica(),
        }
    }
}

impl Same for RedactedPayload {
    fn same(&self, other: &Self) -> (same: bool) {
        self.reason.same(&other.reason)
    }
}

/// A payload as it is stored with a session.
#[derive(Clone, Debug, PartialEq)]
pub enum DurablePayload {
    Inline(InlinePayload),
    BlobRef(BlobRef),
    Redacted(RedactedPayload),
}

/// The content of a [`DurablePayload`].
pub enum DurablePayloadView {
    Inline(InlinePayloadView),
    BlobRef(BlobRefView),
    Redacted(RedactedPayloadView),
}

impl DeepView for DurablePayload {
    type V = DurablePayloadView;

    open spec fn deep_view(&self) -> DurablePayloadView {
        match self {
            DurablePayload::Inline(value) => DurablePayloadView::Inline(value.deep_view()),
            DurablePayload::BlobRef(value) => DurablePayloadView::BlobRef(value.deep_view()),
            DurablePayload::Redacted(value) => DurablePayloadView::Redacted(value.deep_view()),
        }
    }
}

impl Datum for DurablePayload {
    fn replica(&self) -> (copy: Self) {
        match self {
            DurablePayload::Inline(value) => DurablePayload::Inline(value.replica()),
            DurablePayload::BlobRef(value) => DurablePayload::BlobRef(value.replica()),
            DurablePayload::Redacted(value) => DurablePayload::Redacted(value.replica()),
        }
    }
}

/// Equality of payloads: by content, where an inline value is compared as JSON.
pub open spec fn payload_agrees(left: DurablePayloadView, right: DurablePayloadView) -> bool {
    match (left, right) {
        (DurablePayloadView::Inline(a), DurablePayloadView::Inline(b)) => {
            a.encoded_len == b.encoded_len && json_equal(a.value, b.value)
        },
        _ => left == right,
    }
}

/// A payload agrees with itself.
pub proof fn payload_agrees_reflexive(payload: DurablePayloadView)
    ensures
        payload_agrees(payload, payload),
{
    if let DurablePayloadView::Inline(inline) = payload {
        json_equal_reflexive(inline.value);
    }
}

/// What is wrong with a stored payload.
pub open spec fn payload_fault(payload: DurablePayloadView) -> Option<DomainErrorView> {
    match payload {
        DurablePayloadView::Inline(inline) => fault_if(
            inline.encoded_len > MAX_INLINE_PAYLOAD_BYTES,
            DomainErrorView::DurablePayloadTooLarge {
                bytes: inline.encoded_len,
                max: MAX_INLINE_PAYLOAD_BYTES,
            },
        ),
        DurablePayloadView::BlobRef(blob) => blob_ref_fault(blob),
        DurablePayloadView::Redacted(redacted) => required_text_fault(
            "redaction reason"@,
            redacted.reason,
        ).before(
            fault_if(
                byte_len(redacted.reason) > MAX_ERROR_MESSAGE_BYTES,
                DomainErrorView::TextTooLarge {
                    field: "redaction reason"@,
                    bytes: byte_len(redacted.reason) as usize,
                    max: MAX_ERROR_MESSAGE_BYTES,
                },
            ),
        ),
    }
}

impl DurablePayload {
    /// A payload that stores `value` in place, if its encoding stays in the bound.
    pub fn inline(value: Value) -> (result: Result<Self, DomainError>)
        ensures
            match inline_payload(json_view(value)) {
                Ok(inline) => result matches Ok(payload) && payload.deep_view()
                    == DurablePayloadView::Inline(inline),
                Err(fault) => fault_of(result) == Some(fault),
            },
    {
        let payload = InlinePayload::new(value)?;
        Ok(DurablePayload::Inline(payload))
    }

    /// A payload that refers to a blob.
    pub fn blob_ref(
        blob_id: String,
        byte_len: u64,
        sha256: String,
        media_type: Option<String>,
    ) -> (payload: Self)
        ensures
            payload.deep_view() == DurablePayloadView::BlobRef(
                (BlobRefView {
                    blob_id: blob_id@,
                    byte_len,
                    sha256: sha256@,
                    media_type: media_type.deep_view(),
                }),
            ),
    {
        DurablePayload::BlobRef(BlobRef { blob_id, byte_len, sha256, media_type })
    }

    /// A payload that was taken out.
    pub fn redacted(reason: String) -> (payload: Self)
        ensures
            payload.deep_view() == DurablePayloadView::Redacted(
                (RedactedPayloadView { reason: reason@ }),
            ),
    {
        DurablePayload::Redacted(RedactedPayload { reason })
    }

    /// Checks the bound of an inline value and the texts of the other kinds.
    pub fn validate(&self) -> (result: Result<(), DomainError>)
        ensures
            fault_of(result) == payload_fault(self.deep_view()),
    {
        match self {
            DurablePayload::Inline(value) => {
                let bytes: usize = value.encoded_len();
                if bytes > MAX_INLINE_PAYLOAD_BYTES {
                    return Err(
                        DomainError::DurablePayloadTooLarge {
                            bytes,
                            max: MAX_INLINE_PAYLOAD_BYTES,
                        },
                    );
                }
            },
            DurablePayload::BlobRef(blob) => {
                blob.validate()?;
            },
            DurablePayload::Redacted(redacted) => {
                require_text("redaction reason", &redacted.reason)?;
                let bytes: usize = text_bytes(&redacted.reason);
                if bytes > MAX_ERROR_MESSAGE_BYTES {
                    return Err(
                        DomainError::TextTooLarge {
                            field: "redaction reason",
                            bytes,
                            max: MAX_ERROR_MESSAGE_BYTES,
                        },
                    );
                }
            },
        }
        Ok(())
    }

    /// Whether both payloads are equal.
    pub fn agrees(&self, other: &Self) -> (agrees: bool)
        ensures
            agrees == payload_agrees(self.deep_view(), other.deep_view()),
    {
        match (self, other) {
            (DurablePayload::Inline(left), DurablePayload::Inline(right)) => left.agrees(right),
            (DurablePayload::BlobRef(left), DurablePayload::BlobRef(right)) => left.same(right),
            (DurablePayload::Redacted(left), DurablePayload::Redacted(right)) => left.same(right),
            _ => false,
        }
    }
}

} // verus!
