//! What holds of the conversation with a model: what it is sent, how its answer is put together,
//! and which providers may be reached.

use crate::checks::{first_index, lemma_first_index_sound};
use crate::domain::payload::{inline_payload, DurablePayloadView};
use crate::domain::selection::ProviderExecutionSelectionView;
use crate::domain::transcript::{TranscriptMessageView, TranscriptRole};
use crate::domain::MAX_PROVIDER_EXECUTION_OPTIONS_BYTES;
use crate::json::{json_parse, json_size, object_of, JsonView};
use crate::provider::{
    call_part, credential_schema, distinct_calls, execution_fault, finished_call, folded, mentions,
    model_outcome, part_step, pending_as, prompt_message, reads, reads_at, request_fault,
    sensitive_key, sensitive_options, sensitive_value, FinishReason, ModelError, ModelPartView,
    ModelStreamView, PendingCallView, PromptPartView, PromptRole, ProviderExecutionPolicyView,
    ProviderExecutionValidationError,
};
use crate::web::{address_of, same_origin};
use vstd::prelude::*;
use vstd::string::*;

verus! {

/// Whether a call was begun under the given id.
pub open spec fn is_begun(stream: ModelStreamView, id: Seq<char>) -> bool {
    exists|i: int| 0 <= i < stream.calls.len() && (#[trigger] stream.calls[i]).tool_call_id == id
}

/// Whether an answer has changed in its calls at most.
pub open spec fn only_calls_differ(stream: ModelStreamView, next: ModelStreamView) -> bool {
    next.text == stream.text && next.finish == stream.finish && next.usage == stream.usage
}

/// Whether the calls of an answer are as they were, but for the one with the given id.
pub open spec fn other_calls_stay(
    stream: ModelStreamView,
    next: ModelStreamView,
    id: Seq<char>,
) -> bool {
    &&& next.calls.len() == stream.calls.len()
    &&& forall|i: int|
        0 <= i < stream.calls.len() && stream.calls[i].tool_call_id != id
            ==> #[trigger] next.calls[i] == stream.calls[i]
}

proof fn lemma_begun(stream: ModelStreamView, id: Seq<char>)
    requires
        distinct_calls(stream.calls),
    ensures
        first_index(stream.calls, pending_as(id)) is Some <==> is_begun(stream, id),
        first_index(stream.calls, pending_as(id)) matches Some(index) ==> {
            &&& 0 <= index < stream.calls.len()
            &&& stream.calls[index].tool_call_id == id
            &&& forall|i: int|
                0 <= i < stream.calls.len() && i != index ==> (
                #[trigger] stream.calls[i]).tool_call_id != id
        },
{
    let pick = pending_as(id);
    lemma_first_index_sound(stream.calls, pick);
    match first_index(stream.calls, pick) {
        Some(index) => {
            assert(pick(stream.calls[index]));
        },
        None => {
            assert forall|i: int| 0 <= i < stream.calls.len() implies (
            #[trigger] stream.calls[i]).tool_call_id != id by {
                assert(!pick(stream.calls[i]));
            }
        },
    }
}

/// Text comes after the text that came before. The calls stay as they are.
pub proof fn text_is_added(stream: ModelStreamView, delta: Seq<char>)
    ensures
        part_step(stream, ModelPartView::TextDelta(delta)) matches Ok(next) && {
            &&& next.text == stream.text + delta
            &&& next == (ModelStreamView { text: next.text, ..stream })
        },
{
}

/// A call begins under its id and its name, without input. One that was begun already stays as it
/// is, and so does everything else.
pub proof fn call_is_begun(
    stream: ModelStreamView,
    tool_call_id: Seq<char>,
    tool_name: Seq<char>,
)
    requires
        distinct_calls(stream.calls),
    ensures
        part_step(stream, ModelPartView::ToolInputStart { tool_call_id, tool_name }) matches Ok(
            next,
        ) && {
            &&& is_begun(stream, tool_call_id) ==> next == stream
            &&& !is_begun(stream, tool_call_id) ==> {
                &&& only_calls_differ(stream, next)
                &&& next.calls.len() == stream.calls.len() + 1
                &&& forall|i: int|
                    0 <= i < stream.calls.len() ==> #[trigger] next.calls[i] == stream.calls[i]
                &&& next.calls.last().tool_call_id == tool_call_id
                &&& next.calls.last().tool_name == tool_name
                &&& next.calls.last().input.len() == 0
                &&& next.calls.last().parsed is None
            }
        },
{
    lemma_begun(stream, tool_call_id);
}

/// The input of a call comes after its own input that came before. Every other call, and the text,
/// stays as it is. Input of a call that was not begun is a failure.
pub proof fn input_is_added(stream: ModelStreamView, tool_call_id: Seq<char>, delta: Seq<char>)
    requires
        distinct_calls(stream.calls),
    ensures
        ({
            let step = part_step(stream, ModelPartView::ToolInputDelta { tool_call_id, delta });
            &&& step is Ok <==> is_begun(stream, tool_call_id)
            &&& step matches Err(error) ==> error == ModelError::ProviderFailed
            &&& step matches Ok(next) ==> {
                &&& only_calls_differ(stream, next)
                &&& other_calls_stay(stream, next, tool_call_id)
                &&& forall|i: int|
                    0 <= i < stream.calls.len() && stream.calls[i].tool_call_id == tool_call_id
                        ==> {
                        &&& (#[trigger] next.calls[i]).input == stream.calls[i].input + delta
                        &&& next.calls[i] == (PendingCallView {
                            input: next.calls[i].input,
                            ..stream.calls[i]
                        })
                    }
            }
        }),
{
    lemma_begun(stream, tool_call_id);
}

/// The end of an input reads the whole input of that call as JSON, and keeps the input. An input
/// that is no JSON, and the end of a call that was not begun, is a failure. Everything else stays
/// as it is.
pub proof fn input_is_read(stream: ModelStreamView, tool_call_id: Seq<char>)
    requires
        distinct_calls(stream.calls),
    ensures
        ({
            let step = part_step(stream, ModelPartView::ToolInputEnd { tool_call_id });
            &&& step matches Err(error) ==> error == ModelError::ProviderFailed
            &&& !is_begun(stream, tool_call_id) ==> step is Err
            &&& forall|i: int|
                0 <= i < stream.calls.len() && (#[trigger] stream.calls[i]).tool_call_id
                    == tool_call_id ==> (step is Ok <==> json_parse(stream.calls[i].input) is Some)
            &&& step matches Ok(next) ==> {
                &&& only_calls_differ(stream, next)
                &&& other_calls_stay(stream, next, tool_call_id)
                &&& forall|i: int|
                    0 <= i < stream.calls.len() && stream.calls[i].tool_call_id == tool_call_id
                        ==> {
                        &&& (#[trigger] next.calls[i]).parsed == json_parse(stream.calls[i].input)
                        &&& next.calls[i] == (PendingCallView {
                            parsed: next.calls[i].parsed,
                            ..stream.calls[i]
                        })
                    }
            }
        }),
{
    lemma_begun(stream, tool_call_id);
}

/// A whole call counts with its own name and its own input, whether it was begun or not. Everything
/// else stays as it is.
pub proof fn whole_call_is_taken(
    stream: ModelStreamView,
    tool_call_id: Seq<char>,
    tool_name: Seq<char>,
    input: JsonView,
)
    requires
        distinct_calls(stream.calls),
    ensures
        part_step(stream, ModelPartView::ToolCall { tool_call_id, tool_name, input }) matches Ok(
            next,
        ) && {
            &&& only_calls_differ(stream, next)
            &&& is_begun(next, tool_call_id)
            &&& forall|i: int|
                0 <= i < next.calls.len() && (#[trigger] next.calls[i]).tool_call_id == tool_call_id
                    ==> next.calls[i].tool_name == tool_name && next.calls[i].parsed == Some(input)
            &&& forall|i: int|
                0 <= i < stream.calls.len() && stream.calls[i].tool_call_id != tool_call_id
                    ==> #[trigger] next.calls[i] == stream.calls[i]
            &&& is_begun(stream, tool_call_id) ==> next.calls.len() == stream.calls.len()
            &&& !is_begun(stream, tool_call_id) ==> next.calls.len() == stream.calls.len() + 1
        },
{
    lemma_begun(stream, tool_call_id);
    let next = part_step(
        stream,
        ModelPartView::ToolCall { tool_call_id, tool_name, input },
    )->Ok_0;
    match first_index(stream.calls, pending_as(tool_call_id)) {
        Some(index) => {
            assert(next.calls[index].tool_call_id == tool_call_id);
        },
        None => {
            assert(next.calls[stream.calls.len() as int].tool_call_id == tool_call_id);
        },
    }
}

/// The end of an answer is kept with its reason, if the provider named one. The tokens are those of
/// the end: none where the input was not counted, and no output where that was not. The text and
/// the calls stay as they are. An error of the provider is a failure, and what is not known changes
/// nothing.
pub proof fn end_is_taken(stream: ModelStreamView, part: ModelPartView)
    ensures
        match part {
            ModelPartView::Finish { reason, raw_reason, input_tokens, output_tokens } => {
                let step = part_step(stream, part);
                &&& step is Ok <==> raw_reason is Some
                &&& step matches Err(error) ==> error == ModelError::ProviderFailed
                &&& step matches Ok(next) ==> {
                    &&& next.finish == Some(reason)
                    &&& next.usage is Some <==> input_tokens is Some
                    &&& next.usage matches Some(usage) ==> {
                        &&& Some(usage.input_tokens) == input_tokens
                        &&& output_tokens matches Some(tokens) ==> usage.output_tokens == tokens
                        &&& output_tokens is None ==> usage.output_tokens == 0
                    }
                    &&& next == (ModelStreamView {
                        finish: next.finish,
                        usage: next.usage,
                        ..stream
                    })
                }
            },
            ModelPartView::Error => part_step(stream, part) == Err::<ModelStreamView, ModelError>(
                ModelError::ProviderFailed,
            ),
            ModelPartView::Other => part_step(stream, part) == Ok::<ModelStreamView, ModelError>(
                stream,
            ),
            _ => true,
        },
{
}

/// The JSON that a call was given: as a whole, or else the text that came in.
pub open spec fn given_input(call: PendingCallView) -> Option<JsonView> {
    if call.parsed is Some {
        call.parsed
    } else {
        json_parse(call.input)
    }
}

/// An answer is a text that stopped without calls, or one that ended for its calls. It has the
/// text, the tokens and the calls that came in, in their order: each under its own id and name,
/// with its own input, whose tool was offered and whose input is an object. Every other answer is a
/// failure.
pub proof fn answer_is_what_came_in(stream: ModelStreamView, offered: Seq<Seq<char>>)
    ensures
        ({
            let outcome = model_outcome(stream, offered);
            let sound = forall|i: int|
                0 <= i < stream.calls.len() ==> {
                    &&& offered.contains((#[trigger] stream.calls[i]).tool_name)
                    &&& given_input(stream.calls[i]) matches Some(input) && input is Object
                        && inline_payload(input) is Ok
                };
            &&& outcome is Ok <==> (stream.finish == Some(FinishReason::Stop) && stream.calls.len()
                == 0) || (stream.finish == Some(FinishReason::ToolCalls) && stream.calls.len() > 0
                && sound)
            &&& outcome matches Err(error) ==> error == ModelError::ProviderFailed
            &&& outcome matches Ok(answer) ==> {
                &&& answer.text == stream.text
                &&& answer.usage == stream.usage
                &&& answer.tool_calls.len() == stream.calls.len()
                &&& forall|i: int|
                    0 <= i < stream.calls.len() ==> {
                        &&& (#[trigger] answer.tool_calls[i]).tool_call_id
                            == stream.calls[i].tool_call_id
                        &&& answer.tool_calls[i].tool_name == stream.calls[i].tool_name
                        &&& answer.tool_calls[i].input matches DurablePayloadView::Inline(payload)
                            && Some(payload.value) == given_input(stream.calls[i])
                    }
            }
        }),
{
    let outcome = model_outcome(stream, offered);
    assert forall|i: int| 0 <= i < stream.calls.len() implies {
        let call = #[trigger] stream.calls[i];
        finished_call(call, offered) is Some <==> {
            &&& offered.contains(call.tool_name)
            &&& given_input(call) matches Some(input) && input is Object && inline_payload(
                input,
            ) is Ok
        }
    } by {}
    if let Ok(answer) = outcome {
        assert forall|i: int| 0 <= i < stream.calls.len() implies {
            &&& (#[trigger] answer.tool_calls[i]).tool_call_id == stream.calls[i].tool_call_id
            &&& answer.tool_calls[i].tool_name == stream.calls[i].tool_name
            &&& answer.tool_calls[i].input matches DurablePayloadView::Inline(payload) && Some(
                payload.value,
            ) == given_input(stream.calls[i])
        } by {
            assert(finished_call(stream.calls[i], offered) is Some);
        }
    }
}

/// A message is sent in the role of who wrote it; what the runtime wrote is sent as the system's.
pub proof fn message_is_sent_in_its_role(message: TranscriptMessageView, suppress_preamble: bool)
    ensures
        prompt_message(message, suppress_preamble) matches Some(sent) ==> {
            &&& sent.role == PromptRole::System <==> message.role == TranscriptRole::System
                || message.role == TranscriptRole::Runtime
            &&& sent.role == PromptRole::User <==> message.role == TranscriptRole::User
            &&& sent.role == PromptRole::Assistant <==> message.role == TranscriptRole::Assistant
            &&& sent.role == PromptRole::Tool <==> message.role == TranscriptRole::Tool
        },
{
}

/// A message of the system, of a user or of the runtime is sent with exactly its words.
pub proof fn words_are_sent(message: TranscriptMessageView, suppress_preamble: bool)
    requires
        message.role == TranscriptRole::System || message.role == TranscriptRole::User
            || message.role == TranscriptRole::Runtime,
    ensures
        prompt_message(message, suppress_preamble) matches Some(sent) && sent.content.len() == 1
            && sent.content[0] == PromptPartView::Text(message.content),
{
    if message.content.len() == 0 {
        assert(message.content =~= Seq::empty());
    }
}

/// Whether every call of a message has its input at hand.
pub open spec fn inputs_at_hand(message: TranscriptMessageView) -> bool {
    forall|i: int|
        0 <= i < message.tool_calls.len() ==> (#[trigger] message.tool_calls[i]).input is Inline
}

/// A message of the assistant is sent with its words, if it has any and they are not left out
/// before its calls, and then with its calls in their order, each under its id and name and with
/// its input. Where the input of a call is not at hand, it cannot be sent.
pub proof fn calls_are_sent(message: TranscriptMessageView, suppress_preamble: bool)
    requires
        message.role == TranscriptRole::Assistant,
    ensures
        prompt_message(message, suppress_preamble) is Some <==> inputs_at_hand(message),
        prompt_message(message, suppress_preamble) matches Some(sent) ==> {
            let calls = message.tool_calls;
            let words: int = if message.content.len() > 0 && !(suppress_preamble && calls.len() > 0)
                || calls.len() == 0 {
                1
            } else {
                0
            };
            &&& sent.content.len() == words + calls.len()
            &&& words == 1 ==> sent.content[0] == PromptPartView::Text(message.content)
            &&& forall|i: int|
                0 <= i < calls.len() ==> {
                    &&& (#[trigger] calls[i]).input matches DurablePayloadView::Inline(input)
                        && sent.content[words + i] == (PromptPartView::ToolCall {
                        tool_call_id: calls[i].tool_call_id,
                        tool_name: calls[i].tool_name,
                        input: input.value,
                    })
                }
        },
{
    let calls = message.tool_calls;
    if message.content.len() == 0 {
        assert(message.content =~= Seq::empty());
    }
    assert forall|i: int| 0 <= i < calls.len() implies (call_part(#[trigger] calls[i]) is Some
        <==> calls[i].input is Inline) by {}
    if let Some(sent) = prompt_message(message, suppress_preamble) {
        assert(inputs_at_hand(message)) by {
            assert forall|i: int| 0 <= i < calls.len() implies (
            #[trigger] message.tool_calls[i]).input is Inline by {
                assert(call_part(calls[i]) is Some);
            }
        }
    }
    if inputs_at_hand(message) {
        assert forall|i: int| 0 <= i < calls.len() implies call_part(#[trigger] calls[i])
            is Some by {
            assert(message.tool_calls[i].input is Inline);
        }
    }
}

/// A message of a tool is sent as the result of the call that it answers: the JSON that it holds,
/// or else its words. Without a call it cannot be sent.
pub proof fn results_are_sent(message: TranscriptMessageView, suppress_preamble: bool)
    requires
        message.role == TranscriptRole::Tool,
    ensures
        prompt_message(message, suppress_preamble) is Some <==> message.tool_call_id is Some,
        prompt_message(message, suppress_preamble) matches Some(sent) ==> {
            &&& sent.content.len() == 1
            &&& sent.content[0] matches PromptPartView::ToolResult { tool_call_id, result } && {
                &&& Some(tool_call_id) == message.tool_call_id
                &&& json_parse(message.content) matches Some(content) ==> result == content
                &&& json_parse(message.content) is None ==> result == JsonView::Text(
                    message.content,
                )
            }
        },
{
}

/// An adapter takes one kind of credential, and no two adapters take the same: there are two of
/// them.
pub proof fn adapters_take_their_credentials(kind: Seq<char>)
    ensures
        credential_schema(kind) == Some("openai-compatible.api-key.v1"@) <==> kind
            == "openai_compatible"@,
        credential_schema(kind) == Some("anthropic.api-key.v1"@) <==> kind == "anthropic"@,
        credential_schema(kind) is None <==> kind != "openai_compatible"@ && kind != "anthropic"@,
{
    reveal_strlit("openai-compatible.api-key.v1");
    reveal_strlit("anthropic.api-key.v1");
    reveal_strlit("openai_compatible");
    reveal_strlit("anthropic");
    assert("openai-compatible.api-key.v1"@.len() != "anthropic.api-key.v1"@.len());
    assert("openai_compatible"@.len() != "anthropic"@.len());
}

/// A provider may be reached exactly if its description is of this version, its address holds
/// nothing private, its options are small and hold no credential, its adapter is enabled and known,
/// and its origin is one of those allowed. The reason for a refusal is the first that is not so.
pub proof fn providers_are_reached_by_policy(
    descriptor: ProviderExecutionSelectionView,
    policy: ProviderExecutionPolicyView,
)
    ensures
        ({
            let described = {
                &&& descriptor.schema == "zode.provider-execution.v1"@
                &&& descriptor.revision > 0
                &&& address_of(descriptor.base_url) matches Some(address) && {
                    &&& address.username.len() == 0
                    &&& address.password is None
                    &&& address.query is None
                    &&& address.fragment is None
                }
                &&& json_size(JsonView::Object(object_of(descriptor.options))) matches Ok(bytes)
                    && bytes <= MAX_PROVIDER_EXECUTION_OPTIONS_BYTES
                &&& !sensitive_options(descriptor.options)
            };
            let enabled = policy.adapter_kinds.contains(descriptor.kind) && (descriptor.kind
                == "openai_compatible"@ || descriptor.kind == "anthropic"@);
            let allowed = exists|i: int|
                0 <= i < policy.allowed_origins.len() && (address_of(
                    #[trigger] policy.allowed_origins[i],
                ) matches Some(origin) && same_origin(
                    origin,
                    address_of(descriptor.base_url)->0,
                ));
            execution_fault(descriptor, policy) == if !described {
                Some(ProviderExecutionValidationError::Invalid)
            } else if !enabled {
                Some(ProviderExecutionValidationError::AdapterDisabled)
            } else if !allowed {
                Some(ProviderExecutionValidationError::DisallowedOrigin)
            } else {
                None
            }
        }),
{
    adapters_take_their_credentials(descriptor.kind);
}

/// A request is sent exactly if its provider may be reached and its credential is of the kind that
/// the adapter takes. An adapter that is not enabled is unavailable; a wrong credential is one that
/// is not there.
pub proof fn requests_are_sent_by_policy(
    descriptor: ProviderExecutionSelectionView,
    policy: ProviderExecutionPolicyView,
    lease_schema: Seq<char>,
)
    ensures
        request_fault(descriptor, policy, lease_schema) is None <==> execution_fault(
            descriptor,
            policy,
        ) is None && credential_schema(descriptor.kind) == Some(lease_schema),
        request_fault(descriptor, policy, lease_schema) == Some(ModelError::Unavailable)
            <==> execution_fault(descriptor, policy) == Some(
            ProviderExecutionValidationError::AdapterDisabled,
        ),
        request_fault(descriptor, policy, lease_schema) == Some(ModelError::AuthReplicaUnavailable)
            <==> execution_fault(descriptor, policy) is None && credential_schema(descriptor.kind)
            != Some(lease_schema),
        execution_fault(descriptor, policy) == Some(ProviderExecutionValidationError::Invalid)
            || execution_fault(descriptor, policy) == Some(
            ProviderExecutionValidationError::DisallowedOrigin,
        ) ==> request_fault(descriptor, policy, lease_schema) == Some(ModelError::InvalidSelection),
{
}

proof fn lemma_mentioned(prefix: Seq<char>, word: Seq<char>, suffix: Seq<char>)
    requires
        forall|i: int| 0 <= i < word.len() ==> folded(#[trigger] word[i]) == word[i] as u32,
    ensures
        mentions(prefix + word + suffix, word),
{
    let key = prefix + word + suffix;
    assert forall|i: int| 0 <= i < word.len() implies folded(key[prefix.len() + i])
        == #[trigger] word[i] as u32 by {
        assert(key[prefix.len() + i] == word[i]);
    }
    assert(reads_at(key, word, prefix.len() as int));
}

/// An option whose name holds a word for a credential is sensitive, whatever stands around the
/// word; and so are the names of the headers that carry one.
pub proof fn credentials_are_sensitive(prefix: Seq<char>, suffix: Seq<char>)
    ensures
        sensitive_key(prefix + "api_key"@ + suffix),
        sensitive_key(prefix + "access_token"@ + suffix),
        sensitive_key(prefix + "refresh_token"@ + suffix),
        sensitive_key(prefix + "secret"@ + suffix),
        sensitive_key("authorization"@),
        sensitive_key("headers"@),
{
    reveal_strlit("api_key");
    reveal_strlit("access_token");
    reveal_strlit("refresh_token");
    reveal_strlit("secret");
    reveal_strlit("authorization");
    reveal_strlit("headers");
    lemma_mentioned(prefix, "api_key"@, suffix);
    lemma_mentioned(prefix, "access_token"@, suffix);
    lemma_mentioned(prefix, "refresh_token"@, suffix);
    lemma_mentioned(prefix, "secret"@, suffix);
    assert(reads("authorization"@, "authorization"@));
    assert(reads("headers"@, "headers"@));
}

/// Whether two characters are the same letter, small or capital, or the same otherwise; a hyphen
/// counts as an underscore.
pub open spec fn same_letter(left: char, right: char) -> bool {
    ||| left == right
    ||| 'A' <= left <= 'Z' && right as u32 == left as u32 + 32
    ||| 'A' <= right <= 'Z' && left as u32 == right as u32 + 32
    ||| left == '-' && right == '_'
    ||| left == '_' && right == '-'
}

proof fn lemma_mentions_alike(left: Seq<char>, right: Seq<char>, word: Seq<char>)
    requires
        left.len() == right.len(),
        forall|i: int| 0 <= i < left.len() ==> folded(#[trigger] left[i]) == folded(right[i]),
    ensures
        mentions(left, word) ==> mentions(right, word),
        reads(left, word) ==> reads(right, word),
{
    if mentions(left, word) {
        let at = choose|at: int| #[trigger] reads_at(left, word, at);
        assert forall|i: int| 0 <= i < word.len() implies folded(right[at + i])
            == #[trigger] word[i] as u32 by {
            assert(folded(left[at + i]) == word[i] as u32);
        }
        assert(reads_at(right, word, at));
    }
    if reads(left, word) {
        assert forall|i: int| 0 <= i < word.len() implies folded(right[0 + i])
            == #[trigger] word[i] as u32 by {
            assert(folded(left[0 + i]) == word[i] as u32);
        }
    }
}

/// Whether the name of an option is sensitive depends neither on capital letters nor on hyphens in
/// place of underscores.
pub proof fn case_hides_no_credential(left: Seq<char>, right: Seq<char>)
    requires
        left.len() == right.len(),
        forall|i: int| 0 <= i < left.len() ==> same_letter(#[trigger] left[i], right[i]),
    ensures
        sensitive_key(left) == sensitive_key(right),
{
    assert forall|i: int| 0 <= i < left.len() implies folded(#[trigger] left[i]) == folded(
        right[i],
    ) by {
        assert(same_letter(left[i], right[i]));
    }
    assert forall|i: int| 0 <= i < right.len() implies folded(#[trigger] right[i]) == folded(
        left[i],
    ) by {
        assert(same_letter(left[i], right[i]));
    }
    lemma_mentions_alike(left, right, "authorization"@);
    lemma_mentions_alike(left, right, "headers"@);
    lemma_mentions_alike(left, right, "api_key"@);
    lemma_mentions_alike(left, right, "access_token"@);
    lemma_mentions_alike(left, right, "refresh_token"@);
    lemma_mentions_alike(left, right, "secret"@);
    lemma_mentions_alike(right, left, "authorization"@);
    lemma_mentions_alike(right, left, "headers"@);
    lemma_mentions_alike(right, left, "api_key"@);
    lemma_mentions_alike(right, left, "access_token"@);
    lemma_mentions_alike(right, left, "refresh_token"@);
    lemma_mentions_alike(right, left, "secret"@);
}

/// A name that is too short for any of the words is not sensitive.
pub proof fn short_names_are_harmless(key: Seq<char>)
    requires
        key.len() < 6,
    ensures
        !sensitive_key(key),
{
    reveal_strlit("api_key");
    reveal_strlit("access_token");
    reveal_strlit("refresh_token");
    reveal_strlit("secret");
    reveal_strlit("authorization");
    reveal_strlit("headers");
}

/// A credential in an option is found at any depth: under its name in an object, and within any
/// entry of an object and any item of a list. Plain values hold none.
pub proof fn credentials_are_found_at_any_depth(content: JsonView)
    ensures
        match content {
            JsonView::Object(entries) => entries.dom().finite() ==> (sensitive_value(content)
                <==> exists|key: Seq<char>| #[trigger]
                entries.dom().contains(key) && (sensitive_key(key) || sensitive_value(
                    entries[key],
                ))),
            JsonView::Array(items) => sensitive_value(content) <==> exists|i: int|
                0 <= i < items.len() && sensitive_value(#[trigger] items[i]),
            _ => !sensitive_value(content),
        },
{
}

} // verus!
