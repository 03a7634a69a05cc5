//! Calls of a model: what may be called, what is sent, and what comes back.

use serde_json::Value;
use std::time::Duration;
use zode::domain::{
    DurablePayload, ProviderExecutionSelection, ToolCall, TranscriptMessage, TranscriptRole,
};
use zode::json::Json;
use zode::provider::{
    credential_schema_for_adapter, prompt_from_transcript, timeout_millis,
    validate_provider_execution_descriptor, AimuxProvider, FinishReason, ModelError, ModelOutcome,
    ModelPart, ModelStream, ModelTokenUsage, PromptMessage, PromptPart, PromptRole,
    ProviderExecutionPolicy, ProviderExecutionValidationError, ProviderTransportRetryPolicy,
};
use zode::text_map::TextMap;

fn parse(text: &str) -> Json {
    Json { value: serde_json::from_str(text).unwrap() }
}

fn policy() -> ProviderExecutionPolicy {
    ProviderExecutionPolicy::new(
        vec!["openai_compatible".to_string(), "custom".to_string()],
        vec!["https://models.test".to_string()],
        ProviderTransportRetryPolicy { initial_delay: Duration::from_millis(250) },
    )
}

fn execution() -> ProviderExecutionSelection {
    ProviderExecutionSelection {
        schema: "zode.provider-execution.v1".to_string(),
        revision: 1,
        kind: "openai_compatible".to_string(),
        base_url: "https://models.test/v1".to_string(),
        options: TextMap::new(),
    }
}

fn with_option(key: &str, value: &str) -> ProviderExecutionSelection {
    let mut changed = execution();
    changed.options.insert(key.to_string(), parse(value));
    changed
}

fn fault(descriptor: &ProviderExecutionSelection) -> Option<ProviderExecutionValidationError> {
    validate_provider_execution_descriptor(descriptor, &policy()).err()
}

fn finished(parts: Vec<ModelPart>, offered: &[&str]) -> Result<ModelOutcome, ModelError> {
    let mut stream = ModelStream::new();
    for part in parts {
        stream = stream.accept(part)?;
    }
    stream.finish(&offered.iter().map(|name| name.to_string()).collect())
}

fn end(reason: FinishReason) -> ModelPart {
    ModelPart::Finish {
        reason,
        raw_reason: Some("end".to_string()),
        input_tokens: Some(11),
        output_tokens: None,
    }
}

fn message(role: TranscriptRole, content: &str) -> TranscriptMessage {
    TranscriptMessage {
        message_id: "m".to_string(),
        role,
        content: content.to_string(),
        tool_call_id: None,
        tool_calls: vec![],
        dedupe_key: None,
        source_queue_id: None,
    }
}

#[test]
fn an_adapter_has_a_schema_of_credentials() {
    assert_eq!(
        credential_schema_for_adapter("openai_compatible"),
        Some("openai-compatible.api-key.v1")
    );
    assert_eq!(credential_schema_for_adapter("anthropic"), Some("anthropic.api-key.v1"));
    assert_eq!(credential_schema_for_adapter("other"), None);
}

#[test]
fn a_provider_is_held_to_the_policy() {
    assert_eq!(fault(&execution()), None);
    assert!(policy().validate(&execution()).is_ok());
    let mut changed = execution();
    changed.kind = "anthropic".to_string();
    assert_eq!(fault(&changed), Some(ProviderExecutionValidationError::AdapterDisabled));
    let mut changed = execution();
    changed.kind = "custom".to_string();
    assert_eq!(fault(&changed), Some(ProviderExecutionValidationError::AdapterDisabled));
    let mut changed = execution();
    changed.base_url = "https://models.test:8443/v1".to_string();
    assert_eq!(fault(&changed), Some(ProviderExecutionValidationError::DisallowedOrigin));
    let mut changed = execution();
    changed.revision = 0;
    assert_eq!(fault(&changed), Some(ProviderExecutionValidationError::Invalid));
    for address in [
        "nowhere",
        "https://user@models.test/v1",
        "https://:pw@models.test/v1",
        "https://models.test/v1?x=1",
        "https://models.test/v1#x",
    ] {
        let mut changed = execution();
        changed.base_url = address.to_string();
        assert_eq!(fault(&changed), Some(ProviderExecutionValidationError::Invalid));
    }
}

#[test]
fn options_hold_no_secrets() {
    assert_eq!(fault(&with_option("temperature", "1")), None);
    for (key, value) in [
        ("api_key", "\"x\""),
        ("API-Key", "\"x\""),
        ("headers", "{\"Authorization\":\"x\"}"),
        ("nested", "[{\"deep\":{\"client_secret\":1}}]"),
    ] {
        assert_eq!(
            fault(&with_option(key, value)),
            Some(ProviderExecutionValidationError::Invalid)
        );
    }
    let large = format!("\"{}\"", "x".repeat(64 * 1024));
    assert_eq!(
        fault(&with_option("note", &large)),
        Some(ProviderExecutionValidationError::Invalid)
    );
}

#[test]
fn a_request_needs_the_right_credential() {
    let provider = AimuxProvider::new(policy());
    assert_eq!(provider.check_request(&execution(), "openai-compatible.api-key.v1"), Ok(()));
    assert!(provider.check_request(&execution(), "anthropic.api-key.v1").is_err());
    let mut changed = execution();
    changed.revision = 0;
    assert!(provider.check_request(&changed, "openai-compatible.api-key.v1").is_err());
    assert_eq!(
        provider.policy().transport_retry().initial_delay,
        Duration::from_millis(250)
    );
}

#[test]
fn a_timeout_is_counted_in_milliseconds() {
    assert_eq!(timeout_millis(1_500), 1_500);
    assert_eq!(timeout_millis(u128::MAX), u64::MAX);
}

#[test]
fn text_is_put_together() {
    let outcome = finished(
        vec![
            ModelPart::TextDelta("he".to_string()),
            ModelPart::Other,
            ModelPart::TextDelta("llo".to_string()),
            end(FinishReason::Stop),
        ],
        &[],
    )
    .unwrap();
    assert_eq!(outcome.text, "hello");
    assert_eq!(outcome.tool_calls, vec![]);
    assert_eq!(outcome.usage, Some(ModelTokenUsage { input_tokens: 11, output_tokens: 0 }));
}

#[test]
fn calls_are_put_together() {
    let start = || ModelPart::ToolInputStart {
        tool_call_id: "t".to_string(),
        tool_name: "look".to_string(),
    };
    let delta = |text: &str| ModelPart::ToolInputDelta {
        tool_call_id: "t".to_string(),
        delta: text.to_string(),
    };
    let parts = || vec![
        start(),
        delta("{\"a\""),
        start(),
        delta(":1}"),
        ModelPart::ToolInputEnd { tool_call_id: "t".to_string() },
        end(FinishReason::ToolCalls),
    ];
    let outcome = finished(parts(), &["look"]).unwrap();
    assert_eq!(outcome.tool_calls, vec![ToolCall {
        tool_call_id: "t".to_string(),
        tool_name: "look".to_string(),
        input: DurablePayload::inline(parse("{\"a\":1}").value).unwrap(),
    }]);
    assert_eq!(finished(parts(), &["other"]), Err(ModelError::ProviderFailed));
    let called = |input: &str, reason: FinishReason| finished(
        vec![
            ModelPart::ToolCall {
                tool_call_id: "t".to_string(),
                tool_name: "look".to_string(),
                input: parse(input),
            },
            end(reason),
        ],
        &["look"],
    );
    assert!(called("{}", FinishReason::ToolCalls).is_ok());
    assert_eq!(called("[]", FinishReason::ToolCalls), Err(ModelError::ProviderFailed));
    assert_eq!(called("{}", FinishReason::Stop), Err(ModelError::ProviderFailed));
    assert_eq!(
        finished(vec![start(), delta("{"), end(FinishReason::ToolCalls)], &["look"]),
        Err(ModelError::ProviderFailed)
    );
}

#[test]
fn a_broken_answer_fails() {
    let failed = Err(ModelError::ProviderFailed);
    assert_eq!(finished(vec![], &[]), failed);
    assert_eq!(finished(vec![ModelPart::Error], &[]), failed);
    assert_eq!(finished(vec![end(FinishReason::Length)], &[]), failed);
    assert_eq!(finished(vec![end(FinishReason::ToolCalls)], &[]), failed);
    assert_eq!(
        finished(
            vec![ModelPart::Finish {
                reason: FinishReason::Stop,
                raw_reason: None,
                input_tokens: None,
                output_tokens: None,
            }],
            &[]
        ),
        failed
    );
    for part in [
        ModelPart::ToolInputDelta { tool_call_id: "t".to_string(), delta: "x".to_string() },
        ModelPart::ToolInputEnd { tool_call_id: "t".to_string() },
    ] {
        assert_eq!(finished(vec![part], &[]), failed);
    }
}

#[test]
fn a_transcript_becomes_a_prompt() {
    let mut calling = message(TranscriptRole::Assistant, "let me see");
    calling.tool_calls = vec![ToolCall {
        tool_call_id: "t".to_string(),
        tool_name: "look".to_string(),
        input: DurablePayload::inline(parse("{\"a\":1}").value).unwrap(),
    }];
    let mut answer = message(TranscriptRole::Tool, "{\"b\":2}");
    answer.tool_call_id = Some("t".to_string());
    let transcript = vec![
        message(TranscriptRole::User, "hello"),
        calling.clone(),
        answer.clone(),
        message(TranscriptRole::Assistant, ""),
    ];
    let call = PromptPart::ToolCall {
        tool_call_id: "t".to_string(),
        tool_name: "look".to_string(),
        input: parse("{\"a\":1}"),
    };
    let prompt = prompt_from_transcript(&transcript, false).unwrap();
    assert_eq!(
        prompt,
        vec![
            PromptMessage {
                role: PromptRole::User,
                content: vec![PromptPart::Text("hello".to_string())],
            },
            PromptMessage {
                role: PromptRole::Assistant,
                content: vec![PromptPart::Text("let me see".to_string()), call.clone()],
            },
            PromptMessage {
                role: PromptRole::Tool,
                content: vec![PromptPart::ToolResult {
                    tool_call_id: "t".to_string(),
                    result: parse("{\"b\":2}"),
                }],
            },
            PromptMessage {
                role: PromptRole::Assistant,
                content: vec![PromptPart::Text("".to_string())],
            },
        ]
    );
    let short = prompt_from_transcript(&transcript, true).unwrap();
    assert_eq!(short[1].content, vec![call]);
    answer.content = "plain".to_string();
    let told = prompt_from_transcript(&vec![answer.clone()], false).unwrap();
    assert_eq!(
        told[0].content,
        vec![PromptPart::ToolResult {
            tool_call_id: "t".to_string(),
            result: Json { value: Value::from("plain") },
        }]
    );
    answer.tool_call_id = None;
    assert!(prompt_from_transcript(&vec![answer], false).is_err());
    calling.tool_calls[0].input = DurablePayload::redacted("gone".to_string());
    assert!(prompt_from_transcript(&vec![calling], false).is_err());
}
