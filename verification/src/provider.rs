//! Which providers may be reached, what they are asked, and how their answers are put together.

use crate::checks::{
    first_index, lemma_first_index_is, lemma_first_index_sound, lemma_no_first_index,
};
use crate::domain::payload::{inline_payload, DurablePayload, DurablePayloadView};
use crate::domain::selection::{ProviderExecutionSelection, ProviderExecutionSelectionView};
use crate::domain::transcript::{
    ToolCall, ToolCallView, TranscriptMessage, TranscriptMessageView, TranscriptRole,
};
use crate::domain::MAX_PROVIDER_EXECUTION_OPTIONS_BYTES;
use crate::json::{
    encoded_len, entries_view, json_parse, json_size, json_view, node, object_holds_entries,
    object_of, object_value, parsed, string_value, values_view, Json, JsonNode, JsonView,
};
use crate::text::{characters, contains_text, same_text};
use crate::text_map::TextMap;
use crate::web::{address_of, parse_address, same_origin, shares_origin, WebAddress, WebAddressView};
use serde_json::Value;
use std::time::Duration;
use vstd::prelude::*;
use vstd::string::*;

verus! {

/// Why a provider execution is refused.
#[derive(Clone, Copy, Debug, Eq, PartialEq, Structural)]
pub enum ProviderExecutionValidationError {
    Invalid,
    AdapterDisabled,
    DisallowedOrigin,
}

/// Why a model gives no outcome.
#[derive(Clone, Copy, Debug, Eq, PartialEq, Structural)]
pub enum ModelError {
    Unavailable,
    InvalidSelection,
    AuthReplicaUnavailable,
    ProviderFailed,
}

/// How the transport tries again.
#[derive(Clone, Copy, Debug)]
pub struct ProviderTransportRetryPolicy {
    pub initial_delay: Duration,
}

/// The adapters and the origins that may be used.
#[derive(Clone, Debug)]
pub struct ProviderExecutionPolicy {
    adapter_kinds: Vec<String>,
    allowed_origins: Vec<String>,
    transport_retry: ProviderTransportRetryPolicy,
}

/// The content of a [`ProviderExecutionPolicy`].
pub struct ProviderExecutionPolicyView {
    pub adapter_kinds: Seq<Seq<char>>,
    pub allowed_origins: Seq<Seq<char>>,
    pub transport_retry: ProviderTransportRetryPolicy,
}

impl DeepView for ProviderExecutionPolicy {
    type V = ProviderExecutionPolicyView;

    closed spec fn deep_view(&self) -> ProviderExecutionPolicyView {
        ProviderExecutionPolicyView {
            adapter_kinds: self.adapter_kinds.deep_view(),
            allowed_origins: self.allowed_origins.deep_view(),
            transport_retry: self.transport_retry,
        }
    }
}

/// A provider that is reached through its adapter.
pub struct AimuxProvider {
    policy: ProviderExecutionPolicy,
}

impl DeepView for AimuxProvider {
    type V = ProviderExecutionPolicyView;

    closed spec fn deep_view(&self) -> ProviderExecutionPolicyView {
        self.policy.deep_view()
    }
}

/// The schema of the credential that an adapter takes.
pub open spec fn credential_schema(kind: Seq<char>) -> Option<Seq<char>> {
    if kind == "openai_compatible"@ {
        Some("openai-compatible.api-key.v1"@)
    } else if kind == "anthropic"@ {
        Some("anthropic.api-key.v1"@)
    } else {
        None
    }
}

/// The schema of the credential that an adapter takes.
pub fn credential_schema_for_adapter(kind: &str) -> (schema: Option<&'static str>)
    ensures
        schema.deep_view() == credential_schema(kind@),
{
    if same_text(kind, "openai_compatible") {
        Some("openai-compatible.api-key.v1")
    } else if same_text(kind, "anthropic") {
        Some("anthropic.api-key.v1")
    } else {
        None
    }
}

/// The code of a character of an option key: capital letters count as small ones, and a hyphen as
/// an underscore.
pub open spec fn folded(c: char) -> u32 {
    if 'A' <= c <= 'Z' {
        (c as u32 + 32) as u32
    } else if c == '-' {
        '_' as u32
    } else {
        c as u32
    }
}

/// Whether `word` stands in `key` at a position.
pub open spec fn reads_at(key: Seq<char>, word: Seq<char>, at: int) -> bool {
    &&& 0 <= at
    &&& at + word.len() <= key.len()
    &&& forall|i: int| 0 <= i < word.len() ==> folded(key[at + i]) == #[trigger] word[i] as u32
}

/// Whether `key` is `word`.
pub open spec fn reads(key: Seq<char>, word: Seq<char>) -> bool {
    key.len() == word.len() && reads_at(key, word, 0)
}

/// Whether `word` stands somewhere in `key`.
pub open spec fn mentions(key: Seq<char>, word: Seq<char>) -> bool {
    exists|at: int| #[trigger] reads_at(key, word, at)
}

/// Whether an option key names a credential or headers.
pub open spec fn sensitive_key(key: Seq<char>) -> bool {
    ||| reads(key, "authorization"@)
    ||| reads(key, "headers"@)
    ||| mentions(key, "api_key"@)
    ||| mentions(key, "access_token"@)
    ||| mentions(key, "refresh_token"@)
    ||| mentions(key, "secret"@)
}

/// Whether an option value holds a sensitive key, at any depth.
pub open spec fn sensitive_value(content: JsonView) -> bool
    decreases content,
{
    match content {
        JsonView::Object(entries) => entries.dom().finite() && exists|key: Seq<char>| #[trigger]
            entries.dom().contains(key) && (sensitive_key(key) || sensitive_value(entries[key])),
        JsonView::Array(items) => exists|i: int|
            0 <= i < items.len() && sensitive_value(#[trigger] items[i]),
        _ => false,
    }
}

/// Whether one of the options is sensitive.
pub open spec fn sensitive_options(options: Seq<(Seq<char>, JsonView)>) -> bool {
    exists|i: int|
        0 <= i < options.len() && (sensitive_key((#[trigger] options[i]).0) || sensitive_value(
            options[i].1,
        ))
}

fn fold(c: char) -> (code: u32)
    ensures
        code == folded(c),
{
    let code: u32 = c as u32;
    if 'A' <= c && c <= 'Z' {
        code + 32
    } else if c == '-' {
        '_' as u32
    } else {
        code
    }
}

fn word_at(key: &Vec<char>, word: &Vec<char>, at: usize) -> (found: bool)
    ensures
        found == reads_at(key@, word@, at as int),
{
    if word.len() > key.len() || at > key.len() - word.len() {
        return false;
    }
    let mut index: usize = 0;
    while index < word.len()
        invariant
            at + word.len() <= key.len(),
            index <= word.len(),
            forall|i: int| 0 <= i < index ==> folded(key@[at + i]) == #[trigger] word@[i] as u32,
        decreases word.len() - index,
    {
        if fold(key[at + index]) != word[index] as u32 {
            assert(folded(key@[at + index]) != word@[index as int] as u32);
            return false;
        }
        index += 1;
    }
    true
}

fn mentions_word(key: &Vec<char>, word: &str) -> (found: bool)
    ensures
        found == mentions(key@, word@),
{
    let letters = characters(word);
    let mut at: usize = 0;
    while at < key.len()
        invariant
            letters@ == word@,
            at <= key.len(),
            forall|i: int| 0 <= i < at ==> !#[trigger] reads_at(key@, word@, i),
        decreases key.len() - at,
    {
        if word_at(key, &letters, at) {
            return true;
        }
        at += 1;
    }
    let found = word_at(key, &letters, at);
    proof {
        if !found {
            assert forall|i: int| !#[trigger] reads_at(key@, word@, i) by {}
        }
    }
    found
}

fn is_word(key: &Vec<char>, word: &str) -> (same: bool)
    ensures
        same == reads(key@, word@),
{
    let letters = characters(word);
    key.len() == letters.len() && word_at(key, &letters, 0)
}

fn sensitive_option_key(value: &str) -> (sensitive: bool)
    ensures
        sensitive == sensitive_key(value@),
{
    let key = characters(value);
    is_word(&key, "authorization") || is_word(&key, "headers") || mentions_word(&key, "api_key")
        || mentions_word(&key, "access_token") || mentions_word(&key, "refresh_token")
        || mentions_word(&key, "secret")
}

fn contains_sensitive_option(value: &Value) -> (sensitive: bool)
    ensures
        sensitive == sensitive_value(json_view(*value)),
    decreases json_view(*value),
{
    match node(value) {
        JsonNode::Array(items) => {
            let ghost contents = values_view(items@);
            let mut index: usize = 0;
            while index < items.len()
                invariant
                    contents == values_view(items@),
                    json_view(*value) == JsonView::Array(contents),
                    index <= items.len(),
                    forall|i: int| 0 <= i < index ==> !sensitive_value(#[trigger] contents[i]),
                decreases items.len() - index,
            {
                let item = &items[index];
                assert(json_view(*item) == contents[index as int]);
                proof {
                    let content = json_view(*value);
                    assert(content->Array_0 == contents);
                    assert(decreases_to!(content => content->Array_0));
                    assert(decreases_to!(contents => contents[index as int]));
                }
                if contains_sensitive_option(item) {
                    assert(sensitive_value(contents[index as int]));
                    return true;
                }
                index += 1;
            }
            false
        },
        JsonNode::Object(entries) => {
            let ghost contents = entries_view(entries@);
            let ghost whole = object_of(contents);
            proof {
                object_holds_entries(contents);
            }
            let mut index: usize = 0;
            while index < entries.len()
                invariant
                    contents == entries_view(entries@),
                    whole == object_of(contents),
                    json_view(*value) == JsonView::Object(whole),
                    whole.dom().finite(),
                    forall|i: int|
                        0 <= i < contents.len() ==> whole.dom().contains(
                            (#[trigger] contents[i]).0,
                        ) && whole[contents[i].0] == contents[i].1,
                    index <= entries.len(),
                    forall|i: int|
                        0 <= i < index ==> !sensitive_key((#[trigger] contents[i]).0)
                            && !sensitive_value(contents[i].1),
                decreases entries.len() - index,
            {
                let (key, held) = entries[index];
                assert(contents[index as int] == (key@, json_view(*held)));
                assert(whole[key@] == json_view(*held));
                proof {
                    let content = json_view(*value);
                    assert(content->Object_0 == whole);
                    assert(decreases_to!(content => content->Object_0));
                    assert(decreases_to!(whole => whole[key@]));
                }
                if sensitive_option_key(key) || contains_sensitive_option(held) {
                    return true;
                }
                index += 1;
            }
            proof {
                assert forall|key: Seq<char>| #[trigger]
                    whole.dom().contains(key) implies !sensitive_key(key) && !sensitive_value(
                    whole[key],
                ) by {
                    let i = choose|i: int|
                        0 <= i < contents.len() && (#[trigger] contents[i]).0 == key && whole[key]
                            == contents[i].1;
                    assert(!sensitive_key(contents[i].0));
                }
            }
            false
        },
        _ => false,
    }
}

fn any_sensitive_option(options: &TextMap<Json>) -> (sensitive: bool)
    ensures
        sensitive == sensitive_options(options.deep_view()),
{
    let ghost view = options.deep_view();
    let mut index: usize = 0;
    while index < options.len()
        invariant
            view == options.deep_view(),
            index <= view.len(),
            forall|i: int|
                0 <= i < index ==> !sensitive_key((#[trigger] view[i]).0) && !sensitive_value(
                    view[i].1,
                ),
        decreases view.len() - index,
    {
        if sensitive_option_key(options.key_at(index)) || contains_sensitive_option(
            &options.value_at(index).value,
        ) {
            assert(sensitive_key(view[index as int].0) || sensitive_value(view[index as int].1));
            return true;
        }
        index += 1;
    }
    false
}

/// Whether an address has an allowed origin. Origins are compared whole: one that names a host
/// alone stands for the port that its scheme implies.
pub open spec fn allowed_origin(base: WebAddressView, allowed: Seq<Seq<char>>) -> bool {
    exists|i: int|
        0 <= i < allowed.len() && (address_of(#[trigger] allowed[i]) matches Some(address)
            && same_origin(address, base))
}

fn origin_allowed(base: &WebAddress, allowed_origins: &Vec<String>) -> (allowed: bool)
    ensures
        allowed == allowed_origin(base.deep_view(), allowed_origins.deep_view()),
{
    let ghost view = allowed_origins.deep_view();
    let mut index: usize = 0;
    while index < allowed_origins.len()
        invariant
            view == allowed_origins.deep_view(),
            index <= allowed_origins.len(),
            forall|i: int|
                0 <= i < index ==> !(address_of(#[trigger] view[i]) matches Some(address)
                    && same_origin(address, base.deep_view())),
        decreases allowed_origins.len() - index,
    {
        if let Some(address) = parse_address(&allowed_origins[index]) {
            if shares_origin(&address, base) {
                assert(address_of(view[index as int]) == Some(address.deep_view()));
                return true;
            }
        }
        index += 1;
    }
    false
}

/// Whether the options of a provider execution are too large, or cannot be encoded.
pub open spec fn options_too_large(options: Seq<(Seq<char>, JsonView)>) -> bool {
    match json_size(JsonView::Object(object_of(options))) {
        Ok(bytes) => bytes > MAX_PROVIDER_EXECUTION_OPTIONS_BYTES,
        Err(_) => true,
    }
}

/// Whether the address of a provider holds a user name, a password, a query or a fragment.
pub open spec fn has_private_parts(address: WebAddressView) -> bool {
    address.username.len() > 0 || address.password is Some || address.query is Some
        || address.fragment is Some
}

/// Why a provider execution is refused under a policy, if it is.
pub open spec fn execution_fault(
    descriptor: ProviderExecutionSelectionView,
    policy: ProviderExecutionPolicyView,
) -> Option<ProviderExecutionValidationError> {
    if descriptor.schema != "zode.provider-execution.v1"@ || descriptor.revision == 0 {
        Some(ProviderExecutionValidationError::Invalid)
    } else {
        match address_of(descriptor.base_url) {
            None => Some(ProviderExecutionValidationError::Invalid),
            Some(address) => if has_private_parts(address) || options_too_large(descriptor.options)
                || sensitive_options(descriptor.options) {
                Some(ProviderExecutionValidationError::Invalid)
            } else if !policy.adapter_kinds.contains(descriptor.kind) || credential_schema(
                descriptor.kind,
            ) is None {
                Some(ProviderExecutionValidationError::AdapterDisabled)
            } else if !allowed_origin(address, policy.allowed_origins) {
                Some(ProviderExecutionValidationError::DisallowedOrigin)
            } else {
                None
            },
        }
    }
}

/// Checks a provider execution against a policy.
pub fn validate_provider_execution_descriptor(
    descriptor: &ProviderExecutionSelection,
    policy: &ProviderExecutionPolicy,
) -> (result: Result<(), ProviderExecutionValidationError>)
    ensures
        match result {
            Ok(_) => execution_fault(descriptor.deep_view(), policy.deep_view()) is None,
            Err(error) => execution_fault(descriptor.deep_view(), policy.deep_view()) == Some(
                error,
            ),
        },
{
    if !same_text(&descriptor.schema, "zode.provider-execution.v1") || descriptor.revision == 0 {
        return Err(ProviderExecutionValidationError::Invalid);
    }
    let address = match parse_address(&descriptor.base_url) {
        Some(address) => address,
        None => {
            return Err(ProviderExecutionValidationError::Invalid);
        },
    };
    let too_large = match encoded_len(&object_value(&descriptor.options)) {
        Ok(bytes) => bytes > MAX_PROVIDER_EXECUTION_OPTIONS_BYTES,
        Err(_) => true,
    };
    if !address.username.as_str().is_empty() || address.password.is_some()
        || address.query.is_some() || address.fragment.is_some() || too_large
        || any_sensitive_option(&descriptor.options) {
        return Err(ProviderExecutionValidationError::Invalid);
    }
    if !contains_text(&policy.adapter_kinds, &descriptor.kind) || credential_schema_for_adapter(
        &descriptor.kind,
    ).is_none() {
        return Err(ProviderExecutionValidationError::AdapterDisabled);
    }
    if !origin_allowed(&address, &policy.allowed_origins) {
        return Err(ProviderExecutionValidationError::DisallowedOrigin);
    }
    Ok(())
}

impl ProviderExecutionPolicy {
    /// A policy.
    pub fn new(
        adapter_kinds: Vec<String>,
        allowed_origins: Vec<String>,
        transport_retry: ProviderTransportRetryPolicy,
    ) -> (policy: Self)
        ensures
            policy.deep_view() == (ProviderExecutionPolicyView {
                adapter_kinds: adapter_kinds.deep_view(),
                allowed_origins: allowed_origins.deep_view(),
                transport_retry,
            }),
    {
        ProviderExecutionPolicy { adapter_kinds, allowed_origins, transport_retry }
    }

    /// Checks a provider execution.
    pub fn validate(&self, descriptor: &ProviderExecutionSelection) -> (result: Result<
        (),
        ProviderExecutionValidationError,
    >)
        ensures
            match result {
                Ok(_) => execution_fault(descriptor.deep_view(), self.deep_view()) is None,
                Err(error) => execution_fault(descriptor.deep_view(), self.deep_view()) == Some(
                    error,
                ),
            },
    {
        validate_provider_execution_descriptor(descriptor, self)
    }

    /// How the transport tries again.
    pub fn transport_retry(&self) -> (retry: ProviderTransportRetryPolicy)
        ensures
            retry == self.deep_view().transport_retry,
    {
        self.transport_retry
    }
}

/// Why a request with a credential of the given schema is not sent, if it is not.
pub open spec fn request_fault(
    descriptor: ProviderExecutionSelectionView,
    policy: ProviderExecutionPolicyView,
    lease_schema: Seq<char>,
) -> Option<ModelError> {
    match execution_fault(descriptor, policy) {
        Some(ProviderExecutionValidationError::AdapterDisabled) => Some(ModelError::Unavailable),
        Some(_) => Some(ModelError::InvalidSelection),
        None => if credential_schema(descriptor.kind) != Some(lease_schema) {
            Some(ModelError::AuthReplicaUnavailable)
        } else {
            None
        },
    }
}

impl AimuxProvider {
    /// A provider under a policy.
    pub fn new(policy: ProviderExecutionPolicy) -> (provider: Self)
        ensures
            provider.deep_view() == policy.deep_view(),
    {
        AimuxProvider { policy }
    }

    /// The policy.
    pub fn policy(&self) -> (policy: &ProviderExecutionPolicy)
        ensures
            policy.deep_view() == self.deep_view(),
    {
        &self.policy
    }

    /// Checks, before anything is sent, that the provider may be reached and that the credential
    /// is of the kind that it takes.
    pub fn check_request(
        &self,
        descriptor: &ProviderExecutionSelection,
        lease_schema: &str,
    ) -> (result: Result<(), ModelError>)
        ensures
            match result {
                Ok(_) => request_fault(descriptor.deep_view(), self.deep_view(), lease_schema@)
                    is None,
                Err(error) => request_fault(
                    descriptor.deep_view(),
                    self.deep_view(),
                    lease_schema@,
                ) == Some(error),
            },
    {
        match self.policy.validate(descriptor) {
            Ok(_) => {},
            Err(ProviderExecutionValidationError::AdapterDisabled) => {
                return Err(ModelError::Unavailable);
            },
            Err(_) => {
                return Err(ModelError::InvalidSelection);
            },
        }
        match credential_schema_for_adapter(&descriptor.kind) {
            Some(expected) => if same_text(lease_schema, expected) {
                Ok(())
            } else {
                Err(ModelError::AuthReplicaUnavailable)
            },
            None => Err(ModelError::InvalidSelection),
        }
    }
}

/// A time in milliseconds, as far as a `u64` can tell it.
pub fn timeout_millis(millis: u128) -> (bounded: u64)
    ensures
        bounded == if millis < u64::MAX {
            millis
        } else {
            u64::MAX as u128
        },
{
    if millis < u64::MAX as u128 {
        millis as u64
    } else {
        u64::MAX
    }
}

/// Why a model stopped.
#[derive(Clone, Copy, Debug, Eq, PartialEq, Structural)]
pub enum FinishReason {
    Stop,
    ToolCalls,
    Length,
    ContentFilter,
    Error,
    Other,
}

/// The tokens that a request took.
#[derive(Clone, Copy, Debug, Eq, PartialEq, Structural)]
pub struct ModelTokenUsage {
    pub input_tokens: u64,
    pub output_tokens: u64,
}

/// A tool call whose input is still coming in.
#[derive(Clone, Debug, PartialEq)]
pub struct PendingCall {
    pub tool_call_id: String,
    pub tool_name: String,
    pub input: String,
    pub parsed: Option<Json>,
}

/// The content of a [`PendingCall`].
pub struct PendingCallView {
    pub tool_call_id: Seq<char>,
    pub tool_name: Seq<char>,
    pub input: Seq<char>,
    pub parsed: Option<JsonView>,
}

impl DeepView for PendingCall {
    type V = PendingCallView;

    open spec fn deep_view(&self) -> PendingCallView {
        PendingCallView {
            tool_call_id: self.tool_call_id.deep_view(),
            tool_name: self.tool_name.deep_view(),
            input: self.input.deep_view(),
            parsed: self.parsed.deep_view(),
        }
    }
}

/// A part of the answer of a model.
#[derive(Clone, Debug, PartialEq)]
pub enum ModelPart {
    TextDelta(String),
    ToolInputStart { tool_call_id: String, tool_name: String },
    ToolInputDelta { tool_call_id: String, delta: String },
    ToolInputEnd { tool_call_id: String },
    ToolCall { tool_call_id: String, tool_name: String, input: Json },
    /// The end, with the reason as the provider names it, where it names one.
    Finish {
        reason: FinishReason,
        raw_reason: Option<String>,
        input_tokens: Option<u64>,
        output_tokens: Option<u64>,
    },
    Error,
    Other,
}

/// The content of a [`ModelPart`].
pub enum ModelPartView {
    TextDelta(Seq<char>),
    ToolInputStart { tool_call_id: Seq<char>, tool_name: Seq<char> },
    ToolInputDelta { tool_call_id: Seq<char>, delta: Seq<char> },
    ToolInputEnd { tool_call_id: Seq<char> },
    ToolCall { tool_call_id: Seq<char>, tool_name: Seq<char>, input: JsonView },
    Finish {
        reason: FinishReason,
        raw_reason: Option<Seq<char>>,
        input_tokens: Option<u64>,
        output_tokens: Option<u64>,
    },
    Error,
    Other,
}

impl DeepView for ModelPart {
    type V = ModelPartView;

    open spec fn deep_view(&self) -> ModelPartView {
        match self {
            ModelPart::TextDelta(value) => ModelPartView::TextDelta(value.deep_view()),
            ModelPart::ToolInputStart { tool_call_id, tool_name } => ModelPartView::ToolInputStart {
                tool_call_id: tool_call_id.deep_view(),
                tool_name: tool_name.deep_view(),
            },
            ModelPart::ToolInputDelta { tool_call_id, delta } => ModelPartView::ToolInputDelta {
                tool_call_id: tool_call_id.deep_view(),
                delta: delta.deep_view(),
            },
            ModelPart::ToolInputEnd { tool_call_id } => ModelPartView::ToolInputEnd {
                tool_call_id: tool_call_id.deep_view(),
            },
            ModelPart::ToolCall { tool_call_id, tool_name, input } => ModelPartView::ToolCall {
                tool_call_id: tool_call_id.deep_view(),
                tool_name: tool_name.deep_view(),
                input: input.deep_view(),
            },
            ModelPart::Finish {
                reason,
                raw_reason,
                input_tokens,
                output_tokens,
            } => ModelPartView::Finish {
                reason: *reason,
                raw_reason: raw_reason.deep_view(),
                input_tokens: *input_tokens,
                output_tokens: *output_tokens,
            },
            ModelPart::Error => ModelPartView::Error,
            ModelPart::Other => ModelPartView::Other,
        }
    }
}

/// The answer of a model as far as it has come in.
#[derive(Clone, Debug, PartialEq)]
pub struct ModelStream {
    pub text: String,
    pub calls: Vec<PendingCall>,
    pub finish: Option<FinishReason>,
    pub usage: Option<ModelTokenUsage>,
}

/// The content of a [`ModelStream`].
pub struct ModelStreamView {
    pub text: Seq<char>,
    pub calls: Seq<PendingCallView>,
    pub finish: Option<FinishReason>,
    pub usage: Option<ModelTokenUsage>,
}

impl DeepView for ModelStream {
    type V = ModelStreamView;

    open spec fn deep_view(&self) -> ModelStreamView {
        ModelStreamView {
            text: self.text.deep_view(),
            calls: self.calls.deep_view(),
            finish: self.finish,
            usage: self.usage,
        }
    }
}

/// The answer of a model.
#[derive(Clone, Debug, PartialEq)]
pub struct ModelOutcome {
    pub text: String,
    pub tool_calls: Vec<ToolCall>,
    pub usage: Option<ModelTokenUsage>,
}

/// The content of a [`ModelOutcome`].
pub struct ModelOutcomeView {
    pub text: Seq<char>,
    pub tool_calls: Seq<ToolCallView>,
    pub usage: Option<ModelTokenUsage>,
}

impl DeepView for ModelOutcome {
    type V = ModelOutcomeView;

    open spec fn deep_view(&self) -> ModelOutcomeView {
        ModelOutcomeView {
            text: self.text.deep_view(),
            tool_calls: self.tool_calls.deep_view(),
            usage: self.usage,
        }
    }
}

/// Accepts the call with the given id.
pub open spec fn pending_as(id: Seq<char>) -> spec_fn(PendingCallView) -> bool {
    |call: PendingCallView| call.tool_call_id == id
}

/// The answer after one more part, or a failure: a part of a call that was not begun, an input that
/// is no JSON, an end without a reason, or an error of the provider.
pub open spec fn part_step(stream: ModelStreamView, part: ModelPartView) -> Result<
    ModelStreamView,
    ModelError,
> {
    match part {
        ModelPartView::TextDelta(delta) => Ok(
            ModelStreamView { text: stream.text + delta, ..stream },
        ),
        ModelPartView::ToolInputStart { tool_call_id, tool_name } => match first_index(
            stream.calls,
            pending_as(tool_call_id),
        ) {
            Some(_) => Ok(stream),
            None => Ok(
                ModelStreamView {
                    calls: stream.calls.push(
                        PendingCallView {
                            tool_call_id,
                            tool_name,
                            input: Seq::empty(),
                            parsed: None,
                        },
                    ),
                    ..stream
                },
            ),
        },
        ModelPartView::ToolInputDelta { tool_call_id, delta } => match first_index(
            stream.calls,
            pending_as(tool_call_id),
        ) {
            None => Err(ModelError::ProviderFailed),
            Some(index) => Ok(
                ModelStreamView {
                    calls: stream.calls.update(
                        index,
                        PendingCallView {
                            input: stream.calls[index].input + delta,
                            ..stream.calls[index]
                        },
                    ),
                    ..stream
                },
            ),
        },
        ModelPartView::ToolInputEnd { tool_call_id } => match first_index(
            stream.calls,
            pending_as(tool_call_id),
        ) {
            None => Err(ModelError::ProviderFailed),
            Some(index) => match json_parse(stream.calls[index].input) {
                None => Err(ModelError::ProviderFailed),
                Some(input) => Ok(
                    ModelStreamView {
                        calls: stream.calls.update(
                            index,
                            PendingCallView { parsed: Some(input), ..stream.calls[index] },
                        ),
                        ..stream
                    },
                ),
            },
        },
        ModelPartView::ToolCall { tool_call_id, tool_name, input } => match first_index(
            stream.calls,
            pending_as(tool_call_id),
        ) {
            Some(index) => Ok(
                ModelStreamView {
                    calls: stream.calls.update(
                        index,
                        PendingCallView {
                            tool_name,
                            parsed: Some(input),
                            ..stream.calls[index]
                        },
                    ),
                    ..stream
                },
            ),
            None => Ok(
                ModelStreamView {
                    calls: stream.calls.push(
                        PendingCallView {
                            tool_call_id,
                            tool_name,
                            input: Seq::empty(),
                            parsed: Some(input),
                        },
                    ),
                    ..stream
                },
            ),
        },
        ModelPartView::Finish { reason, raw_reason, input_tokens, output_tokens } => if raw_reason
            is None {
            Err(ModelError::ProviderFailed)
        } else {
            Ok(
                ModelStreamView {
                    finish: Some(reason),
                    usage: match input_tokens {
                        Some(input_tokens) => Some(
                            ModelTokenUsage {
                                input_tokens,
                                output_tokens: match output_tokens {
                                    Some(output_tokens) => output_tokens,
                                    None => 0,
                                },
                            },
                        ),
                        None => None,
                    },
                    ..stream
                },
            )
        },
        ModelPartView::Error => Err(ModelError::ProviderFailed),
        ModelPartView::Other => Ok(stream),
    }
}

/// A call of the answer, if its tool was offered and its input is a JSON object that can be
/// stored.
pub open spec fn finished_call(call: PendingCallView, offered: Seq<Seq<char>>) -> Option<
    ToolCallView,
> {
    let input = match call.parsed {
        Some(input) => Some(input),
        None => json_parse(call.input),
    };
    match input {
        Some(content) => match inline_payload(content) {
            Ok(payload) if offered.contains(call.tool_name) && content is Object => Some(
                ToolCallView {
                    tool_call_id: call.tool_call_id,
                    tool_name: call.tool_name,
                    input: DurablePayloadView::Inline(payload),
                },
            ),
            _ => None,
        },
        None => None,
    }
}

/// The whole answer: a text that stops without calls, or calls that are all sound.
pub open spec fn model_outcome(stream: ModelStreamView, offered: Seq<Seq<char>>) -> Result<
    ModelOutcomeView,
    ModelError,
> {
    match stream.finish {
        Some(FinishReason::Stop) if stream.calls.len() == 0 => Ok(
            ModelOutcomeView {
                text: stream.text,
                tool_calls: Seq::empty(),
                usage: stream.usage,
            },
        ),
        Some(FinishReason::ToolCalls) if stream.calls.len() > 0 && (forall|i: int|
            0 <= i < stream.calls.len() ==> finished_call(
                #[trigger] stream.calls[i],
                offered,
            ) is Some) => Ok(
            ModelOutcomeView {
                text: stream.text,
                tool_calls: Seq::new(
                    stream.calls.len(),
                    |i: int| finished_call(stream.calls[i], offered)->0,
                ),
                usage: stream.usage,
            },
        ),
        _ => Err(ModelError::ProviderFailed),
    }
}

fn find_pending(calls: &Vec<PendingCall>, id: &str) -> (found: Option<usize>)
    ensures
        match found {
            Some(index) => index < calls.len() && first_index(calls.deep_view(), pending_as(id@))
                == Some(index as int),
            None => first_index(calls.deep_view(), pending_as(id@)) is None,
        },
{
    let ghost view = calls.deep_view();
    let mut index: usize = 0;
    while index < calls.len()
        invariant
            view == calls.deep_view(),
            index <= calls.len(),
            forall|i: int| 0 <= i < index ==> (#[trigger] view[i]).tool_call_id != id@,
        decreases calls.len() - index,
    {
        if same_text(&calls[index].tool_call_id, id) {
            proof {
                assert(view[index as int].tool_call_id == id@);
                lemma_first_index_is(view, pending_as(id@), index as int);
            }
            return Some(index);
        }
        index += 1;
    }
    proof {
        lemma_no_first_index(view, pending_as(id@));
    }
    None
}

fn finish_call(call: PendingCall, offered: &Vec<String>) -> (finished: Option<ToolCall>)
    ensures
        finished.deep_view() == finished_call(call.deep_view(), offered.deep_view()),
{
    let input = match call.parsed {
        Some(input) => input.value,
        None => match parsed(&call.input) {
            Some(input) => input,
            None => {
                return None;
            },
        },
    };
    if !contains_text(offered, &call.tool_name) {
        return None;
    }
    if !matches!(node(&input), JsonNode::Object(_)) {
        return None;
    }
    match DurablePayload::inline(input) {
        Ok(payload) => Some(
            ToolCall {
                tool_call_id: call.tool_call_id,
                tool_name: call.tool_name,
                input: payload,
            },
        ),
        Err(_) => None,
    }
}

fn finish_calls(calls: Vec<PendingCall>, offered: &Vec<String>) -> (finished: Option<
    Vec<ToolCall>,
>)
    ensures
        match finished {
            Some(finished) => finished.len() == calls.len() && forall|i: int|
                0 <= i < calls.len() ==> finished_call(
                    #[trigger] calls.deep_view()[i],
                    offered.deep_view(),
                ) == Some(finished[i].deep_view()),
            None => exists|i: int|
                0 <= i < calls.len() && finished_call(
                    #[trigger] calls.deep_view()[i],
                    offered.deep_view(),
                ) is None,
        },
{
    let ghost view = calls.deep_view();
    let ghost names = offered.deep_view();
    let total: usize = calls.len();
    let mut rest = calls;
    let mut finished: Vec<ToolCall> = Vec::new();
    while finished.len() < total
        invariant
            total == view.len(),
            view == calls.deep_view(),
            total == calls.len(),
            names == offered.deep_view(),
            rest.len() + finished.len() == total,
            forall|i: int|
                0 <= i < rest.len() ==> (#[trigger] rest[i]).deep_view() == view[i
                    + finished.len()],
            forall|i: int|
                0 <= i < finished.len() ==> finished_call(#[trigger] view[i], names) == Some(
                    finished[i].deep_view(),
                ),
        decreases total - finished.len(),
    {
        let ghost index = finished.len() as int;
        assert(rest[0].deep_view() == view[index]);
        let call = rest.remove(0);
        match finish_call(call, offered) {
            Some(call) => {
                finished.push(call);
            },
            None => {
                assert(finished_call(view[index], names) is None);
                return None;
            },
        }
    }
    Some(finished)
}

impl ModelStream {
    /// An answer of which nothing has come in.
    pub fn new() -> (stream: Self)
        ensures
            stream.deep_view() == (ModelStreamView {
                text: Seq::empty(),
                calls: Seq::empty(),
                finish: None,
                usage: None,
            }),
    {
        let stream = ModelStream {
            text: String::new(),
            calls: Vec::new(),
            finish: None,
            usage: None,
        };
        assert(stream.deep_view().calls =~= Seq::empty());
        assert(stream.deep_view().text =~= Seq::empty());
        stream
    }

    /// Takes in one more part of the answer.
    pub fn accept(self, part: ModelPart) -> (result: Result<Self, ModelError>)
        ensures
            match result {
                Ok(next) => part_step(self.deep_view(), part.deep_view()) == Ok::<
                    ModelStreamView,
                    ModelError,
                >(next.deep_view()),
                Err(error) => part_step(self.deep_view(), part.deep_view()) == Err::<
                    ModelStreamView,
                    ModelError,
                >(error),
            },
    {
        let ghost before = self.deep_view();
        let mut stream = self;
        match part {
            ModelPart::TextDelta(delta) => {
                stream.text.append(&delta);
            },
            ModelPart::ToolInputStart { tool_call_id, tool_name } => {
                if find_pending(&stream.calls, &tool_call_id).is_none() {
                    let call = PendingCall {
                        tool_call_id,
                        tool_name,
                        input: String::new(),
                        parsed: None,
                    };
                    assert(call.deep_view().input =~= Seq::empty());
                    let ghost added = call.deep_view();
                    stream.calls.push(call);
                    assert(stream.deep_view().calls =~= before.calls.push(added));
                }
            },
            ModelPart::ToolInputDelta { tool_call_id, delta } => {
                match find_pending(&stream.calls, &tool_call_id) {
                    None => {
                        return Err(ModelError::ProviderFailed);
                    },
                    Some(index) => {
                        let call = &mut stream.calls[index];
                        call.input.append(&delta);
                        assert(stream.deep_view().calls =~= before.calls.update(
                            index as int,
                            PendingCallView {
                                input: before.calls[index as int].input + delta@,
                                ..before.calls[index as int]
                            },
                        ));
                    },
                }
            },
            ModelPart::ToolInputEnd { tool_call_id } => {
                match find_pending(&stream.calls, &tool_call_id) {
                    None => {
                        return Err(ModelError::ProviderFailed);
                    },
                    Some(index) => {
                        assert(before.calls[index as int].input
                            == stream.calls[index as int].input@);
                        match parsed(&stream.calls[index].input) {
                            None => {
                                return Err(ModelError::ProviderFailed);
                            },
                            Some(value) => {
                                let ghost content = json_view(value);
                                let call = &mut stream.calls[index];
                                call.parsed = Some(Json { value });
                                assert(stream.deep_view().calls =~= before.calls.update(
                                    index as int,
                                    PendingCallView {
                                        parsed: Some(content),
                                        ..before.calls[index as int]
                                    },
                                ));
                            },
                        }
                    },
                }
            },
            ModelPart::ToolCall { tool_call_id, tool_name, input } => {
                match find_pending(&stream.calls, &tool_call_id) {
                    Some(index) => {
                        let ghost content = input.deep_view();
                        let ghost name = tool_name@;
                        let call = &mut stream.calls[index];
                        call.tool_name = tool_name;
                        call.parsed = Some(input);
                        assert(stream.deep_view().calls =~= before.calls.update(
                            index as int,
                            PendingCallView {
                                tool_name: name,
                                parsed: Some(content),
                                ..before.calls[index as int]
                            },
                        ));
                    },
                    None => {
                        let call = PendingCall {
                            tool_call_id,
                            tool_name,
                            input: String::new(),
                            parsed: Some(input),
                        };
                        assert(call.deep_view().input =~= Seq::empty());
                        let ghost added = call.deep_view();
                        stream.calls.push(call);
                        assert(stream.deep_view().calls =~= before.calls.push(added));
                    },
                }
            },
            ModelPart::Finish { reason, raw_reason, input_tokens, output_tokens } => {
                if raw_reason.is_none() {
                    return Err(ModelError::ProviderFailed);
                }
                stream.usage = match input_tokens {
                    Some(input_tokens) => Some(
                        ModelTokenUsage {
                            input_tokens,
                            output_tokens: match output_tokens {
                                Some(output_tokens) => output_tokens,
                                None => 0,
                            },
                        },
                    ),
                    None => None,
                };
                stream.finish = Some(reason);
            },
            ModelPart::Error => {
                return Err(ModelError::ProviderFailed);
            },
            ModelPart::Other => {},
        }
        Ok(stream)
    }

    /// The whole answer, once the last part has come in.
    pub fn finish(self, offered: &Vec<String>) -> (result: Result<ModelOutcome, ModelError>)
        ensures
            match result {
                Ok(outcome) => model_outcome(self.deep_view(), offered.deep_view()) == Ok::<
                    ModelOutcomeView,
                    ModelError,
                >(outcome.deep_view()),
                Err(error) => model_outcome(self.deep_view(), offered.deep_view()) == Err::<
                    ModelOutcomeView,
                    ModelError,
                >(error),
            },
    {
        let ghost view = self.deep_view();
        let ghost names = offered.deep_view();
        match self.finish {
            Some(FinishReason::Stop) => {
                if self.calls.len() > 0 {
                    return Err(ModelError::ProviderFailed);
                }
                let outcome = ModelOutcome {
                    text: self.text,
                    tool_calls: Vec::new(),
                    usage: self.usage,
                };
                assert(outcome.deep_view().tool_calls =~= Seq::empty());
                Ok(outcome)
            },
            Some(FinishReason::ToolCalls) => {
                if self.calls.len() == 0 {
                    return Err(ModelError::ProviderFailed);
                }
                let tool_calls = match finish_calls(self.calls, offered) {
                    Some(tool_calls) => tool_calls,
                    None => {
                        return Err(ModelError::ProviderFailed);
                    },
                };
                let outcome = ModelOutcome { text: self.text, tool_calls, usage: self.usage };
                assert(outcome.deep_view().tool_calls =~= Seq::new(
                    view.calls.len(),
                    |i: int| finished_call(view.calls[i], names)->0,
                ));
                Ok(outcome)
            },
            _ => Err(ModelError::ProviderFailed),
        }
    }
}

/// Who speaks in a message to a model.
#[derive(Clone, Copy, Debug, Eq, PartialEq, Structural)]
pub enum PromptRole {
    System,
    User,
    Assistant,
    Tool,
}

/// A part of a message to a model.
#[derive(Clone, Debug, PartialEq)]
pub enum PromptPart {
    Text(String),
    ToolCall { tool_call_id: String, tool_name: String, input: Json },
    ToolResult { tool_call_id: String, result: Json },
}

/// The content of a [`PromptPart`].
pub enum PromptPartView {
    Text(Seq<char>),
    ToolCall { tool_call_id: Seq<char>, tool_name: Seq<char>, input: JsonView },
    ToolResult { tool_call_id: Seq<char>, result: JsonView },
}

impl DeepView for PromptPart {
    type V = PromptPartView;

    open spec fn deep_view(&self) -> PromptPartView {
        match self {
            PromptPart::Text(value) => PromptPartView::Text(value.deep_view()),
            PromptPart::ToolCall { tool_call_id, tool_name, input } => PromptPartView::ToolCall {
                tool_call_id: tool_call_id.deep_view(),
                tool_name: tool_name.deep_view(),
                input: input.deep_view(),
            },
            PromptPart::ToolResult { tool_call_id, result } => PromptPartView::ToolResult {
                tool_call_id: tool_call_id.deep_view(),
                result: result.deep_view(),
            },
        }
    }
}

/// A message to a model.
#[derive(Clone, Debug, PartialEq)]
pub struct PromptMessage {
    pub role: PromptRole,
    pub content: Vec<PromptPart>,
}

/// The content of a [`PromptMessage`].
pub struct PromptMessageView {
    pub role: PromptRole,
    pub content: Seq<PromptPartView>,
}

impl DeepView for PromptMessage {
    type V = PromptMessageView;

    open spec fn deep_view(&self) -> PromptMessageView {
        PromptMessageView {
            role: self.role,
            content: self.content.deep_view(),
        }
    }
}

/// The role in which a message is sent. What the runtime says is sent as the system's.
pub open spec fn prompt_role(role: TranscriptRole) -> PromptRole {
    match role {
        TranscriptRole::System => PromptRole::System,
        TranscriptRole::User => PromptRole::User,
        TranscriptRole::Assistant => PromptRole::Assistant,
        TranscriptRole::Tool => PromptRole::Tool,
        TranscriptRole::Runtime => PromptRole::System,
    }
}

/// The text of a message, where it is sent: not that of a tool, and not what stands before the
/// calls of an assistant where that is to be left out.
pub open spec fn text_parts(message: TranscriptMessageView, suppress_preamble: bool) -> Seq<
    PromptPartView,
> {
    if message.role != TranscriptRole::Tool && message.content.len() > 0 && !(suppress_preamble
        && message.role == TranscriptRole::Assistant && message.tool_calls.len() > 0) {
        seq![PromptPartView::Text(message.content)]
    } else {
        Seq::empty()
    }
}

/// A declared call as it is sent.
pub open spec fn call_part(call: ToolCallView) -> Option<PromptPartView> {
    match call.input {
        DurablePayloadView::Inline(input) => Some(
            PromptPartView::ToolCall {
                tool_call_id: call.tool_call_id,
                tool_name: call.tool_name,
                input: input.value,
            },
        ),
        _ => None,
    }
}

/// The calls of an assistant message, if the input of each is there.
pub open spec fn call_parts(message: TranscriptMessageView) -> Option<Seq<PromptPartView>> {
    if message.role != TranscriptRole::Assistant {
        Some(Seq::empty())
    } else if forall|i: int|
        0 <= i < message.tool_calls.len() ==> call_part(#[trigger] message.tool_calls[i]) is Some {
        Some(
            Seq::new(message.tool_calls.len(), |i: int| call_part(message.tool_calls[i])->0),
        )
    } else {
        None
    }
}

/// The result that a tool message brings: the JSON that it encodes, or its text.
pub open spec fn result_parts(message: TranscriptMessageView) -> Option<Seq<PromptPartView>> {
    if message.role != TranscriptRole::Tool {
        Some(Seq::empty())
    } else {
        match message.tool_call_id {
            None => None,
            Some(tool_call_id) => Some(
                seq![
                    PromptPartView::ToolResult {
                        tool_call_id,
                        result: match json_parse(message.content) {
                            Some(content) => content,
                            None => JsonView::Text(message.content),
                        },
                    },
                ],
            ),
        }
    }
}

/// A message as it is sent, if all that it needs is there. It has at least one part.
pub open spec fn prompt_message(message: TranscriptMessageView, suppress_preamble: bool) -> Option<
    PromptMessageView,
> {
    match (call_parts(message), result_parts(message)) {
        (Some(calls), Some(results)) => {
            let content = text_parts(message, suppress_preamble) + calls + results;
            Some(
                PromptMessageView {
                    role: prompt_role(message.role),
                    content: if content.len() == 0 {
                        seq![PromptPartView::Text(Seq::empty())]
                    } else {
                        content
                    },
                },
            )
        },
        _ => None,
    }
}

fn push_calls(content: Vec<PromptPart>, message: &TranscriptMessage) -> (result: Option<
    Vec<PromptPart>,
>)
    requires
        message.role == TranscriptRole::Assistant,
    ensures
        match call_parts(message.deep_view()) {
            Some(parts) => result matches Some(all) && all.deep_view() == content.deep_view()
                + parts,
            None => result is None,
        },
{
    let ghost before = content.deep_view();
    let ghost calls = message.deep_view().tool_calls;
    let mut content = content;
    let mut index: usize = 0;
    while index < message.tool_calls.len()
        invariant
            calls == message.deep_view().tool_calls,
            message.role == TranscriptRole::Assistant,
            index <= message.tool_calls.len(),
            content.deep_view().len() == before.len() + index,
            content.deep_view().take(before.len() as int) == before,
            forall|i: int|
                0 <= i < index ==> call_part(#[trigger] calls[i]) == Some(
                    content.deep_view()[before.len() + i],
                ),
        decreases message.tool_calls.len() - index,
    {
        let call = &message.tool_calls[index];
        assert(calls[index as int] == call.deep_view());
        match &call.input {
            DurablePayload::Inline(input) => {
                let part = PromptPart::ToolCall {
                    tool_call_id: call.tool_call_id.clone(),
                    tool_name: call.tool_name.clone(),
                    input: Json { value: input.value().clone() },
                };
                let ghost earlier = content.deep_view();
                let ghost added = part.deep_view();
                content.push(part);
                assert(content.deep_view() =~= earlier.push(added));
                assert(content.deep_view().take(before.len() as int) =~= before);
            },
            _ => {
                assert(call_part(calls[index as int]) is None);
                return None;
            },
        }
        index += 1;
    }
    assert(content.deep_view() =~= before + Seq::new(
        calls.len(),
        |i: int| call_part(calls[i])->0,
    ));
    Some(content)
}

fn message_prompt(message: &TranscriptMessage, suppress_preamble: bool) -> (result: Option<
    PromptMessage,
>)
    ensures
        result.deep_view() == prompt_message(message.deep_view(), suppress_preamble),
{
    let ghost view = message.deep_view();
    let role = match message.role {
        TranscriptRole::System => PromptRole::System,
        TranscriptRole::User => PromptRole::User,
        TranscriptRole::Assistant => PromptRole::Assistant,
        TranscriptRole::Tool => PromptRole::Tool,
        TranscriptRole::Runtime => PromptRole::System,
    };
    let mut content: Vec<PromptPart> = Vec::new();
    let assistant_tool_turn = suppress_preamble && message.role == TranscriptRole::Assistant
        && message.tool_calls.len() > 0;
    assert(content.deep_view() =~= Seq::empty());
    if message.role != TranscriptRole::Tool && !message.content.as_str().is_empty()
        && !assistant_tool_turn {
        content.push(PromptPart::Text(message.content.clone()));
    }
    assert(content.deep_view() =~= text_parts(view, suppress_preamble));
    if message.role == TranscriptRole::Assistant {
        content = match push_calls(content, message) {
            Some(all) => all,
            None => {
                return None;
            },
        };
    }
    let ghost earlier = content.deep_view();
    assert(earlier =~= text_parts(view, suppress_preamble) + call_parts(view)->0);
    if message.role == TranscriptRole::Tool {
        let tool_call_id = match &message.tool_call_id {
            Some(tool_call_id) => tool_call_id.clone(),
            None => {
                return None;
            },
        };
        let result = match parsed(&message.content) {
            Some(value) => value,
            None => string_value(message.content.clone()),
        };
        content.push(PromptPart::ToolResult { tool_call_id, result: Json { value: result } });
    }
    assert(content.deep_view() =~= earlier + result_parts(view)->0);
    if content.len() == 0 {
        let text = String::new();
        assert(text@ =~= Seq::<char>::empty());
        content.push(PromptPart::Text(text));
        assert(content.deep_view() =~= seq![PromptPartView::Text(Seq::empty())]);
    }
    Some(PromptMessage { role, content })
}

/// The messages of a session as they are sent to a model. It fails where the input of a call, or
/// the call that a tool answers, is not there.
pub fn prompt_from_transcript(transcript: &Vec<TranscriptMessage>, suppress_preamble: bool) -> (
result: Result<Vec<PromptMessage>, ModelError>)
    ensures
        match result {
            Ok(prompt) => {
                &&& prompt.len() == transcript.len()
                &&& forall|i: int|
                    0 <= i < prompt.len() ==> prompt_message(
                        transcript.deep_view()[i],
                        suppress_preamble,
                    ) == Some(#[trigger] prompt.deep_view()[i])
            },
            Err(error) => {
                &&& error == ModelError::ProviderFailed
                &&& exists|i: int|
                    0 <= i < transcript.len() && prompt_message(
                        #[trigger] transcript.deep_view()[i],
                        suppress_preamble,
                    ) is None
            },
        },
{
    let mut prompt: Vec<PromptMessage> = Vec::with_capacity(transcript.len());
    let mut index: usize = 0;
    while index < transcript.len()
        invariant
            index <= transcript.len(),
            prompt.len() == index,
            forall|i: int|
                0 <= i < index ==> prompt_message(transcript.deep_view()[i], suppress_preamble)
                    == Some(#[trigger] prompt.deep_view()[i]),
        decreases transcript.len() - index,
    {
        assert(transcript.deep_view()[index as int] == transcript[index as int].deep_view());
        match message_prompt(&transcript[index], suppress_preamble) {
            Some(message) => {
                let ghost earlier = prompt.deep_view();
                let ghost added = message.deep_view();
                prompt.push(message);
                assert(prompt.deep_view() =~= earlier.push(added));
            },
            None => {
                return Err(ModelError::ProviderFailed);
            },
        }
        index += 1;
    }
    Ok(prompt)
}

/// Whether no two calls have one id.
pub open spec fn distinct_calls(calls: Seq<PendingCallView>) -> bool {
    forall|i: int, j: int|
        0 <= i < j < calls.len() ==> (#[trigger] calls[i]).tool_call_id != (
        #[trigger] calls[j]).tool_call_id
}

proof fn lemma_no_pending(calls: Seq<PendingCallView>, id: Seq<char>)
    ensures
        match first_index(calls, pending_as(id)) {
            Some(index) => 0 <= index < calls.len() && calls[index].tool_call_id == id,
            None => forall|i: int|
                0 <= i < calls.len() ==> (#[trigger] calls[i]).tool_call_id != id,
        },
{
    lemma_first_index_sound(calls, pending_as(id));
}

/// What a model has said stays: text is only added to, no call is lost or changes its id, and no
/// two calls have one id.
pub proof fn answer_only_grows(stream: ModelStreamView, part: ModelPartView)
    requires
        distinct_calls(stream.calls),
    ensures
        part_step(stream, part) matches Ok(next) ==> {
            &&& distinct_calls(next.calls)
            &&& next.text.len() >= stream.text.len()
            &&& next.text.take(stream.text.len() as int) == stream.text
            &&& next.calls.len() >= stream.calls.len()
            &&& forall|i: int|
                0 <= i < stream.calls.len() ==> (#[trigger] next.calls[i]).tool_call_id
                    == stream.calls[i].tool_call_id
        },
{
    if let Ok(next) = part_step(stream, part) {
        assert(next.text.take(stream.text.len() as int) =~= stream.text);
        match part {
            ModelPartView::ToolInputStart { tool_call_id, .. } => {
                lemma_no_pending(stream.calls, tool_call_id);
            },
            ModelPartView::ToolInputDelta { tool_call_id, .. } => {
                lemma_no_pending(stream.calls, tool_call_id);
            },
            ModelPartView::ToolInputEnd { tool_call_id } => {
                lemma_no_pending(stream.calls, tool_call_id);
            },
            ModelPartView::ToolCall { tool_call_id, .. } => {
                lemma_no_pending(stream.calls, tool_call_id);
            },
            _ => {},
        }
    }
}

/// An answer that is taken calls tools exactly if it ended for that reason, and calls none but
/// those that were offered, each with an object.
pub proof fn answer_calls_what_was_offered(
    stream: ModelStreamView,
    offered: Seq<Seq<char>>,
    outcome: ModelOutcomeView,
)
    requires
        model_outcome(stream, offered) == Ok::<ModelOutcomeView, ModelError>(outcome),
    ensures
        outcome.text == stream.text,
        (outcome.tool_calls.len() > 0) == (stream.finish == Some(FinishReason::ToolCalls)),
        forall|i: int|
            0 <= i < outcome.tool_calls.len() ==> {
                &&& offered.contains((#[trigger] outcome.tool_calls[i]).tool_name)
                &&& outcome.tool_calls[i].input matches DurablePayloadView::Inline(input)
                    && input.value is Object
            },
{
    assert forall|i: int| 0 <= i < outcome.tool_calls.len() implies {
        &&& offered.contains((#[trigger] outcome.tool_calls[i]).tool_name)
        &&& outcome.tool_calls[i].input matches DurablePayloadView::Inline(input)
            && input.value is Object
    } by {
        assert(finished_call(stream.calls[i], offered) is Some);
    }
}

} // verus!
