use std::collections::HashMap;

use liter_llm::error::LiterLlmError;
use liter_llm::text::{micros_decimal, provider_prefix, rounded_secs_exec, concat2, concat3, hex_string};
use liter_llm::tower::guardrail::{
    input_verdict, output_stage_applies, output_verdict, replaced_response, serialize_failure, GuardrailDecision, GuardrailLayer, OutputAnswer,
};
use liter_llm::tower::health::{probe_status, probe_url, HealthCheckLayer, HealthStatus};
use liter_llm::tower::hooks::{
    classify_error_outcome, error_usage_record, first_finish_reason, pre_hook_step, request_id,
    success_usage_record, usage_tokens, PreHookOutcome, UsageOutcome,
};
use liter_llm::tower::cost::{cost_inputs, CostTrackingLayer};
use liter_llm::tower::request::RequestKind;
use liter_llm::types::batch::BatchStatus;
use liter_llm::types::embedding::{base64_embedding_bits, embedding_bits_from_bytes, EmbeddingDecodeError};
use base64::Engine;
use liter_llm::tower::service::LlmService;
use liter_llm::tower::tracing::{
    choice_finish_reasons, finish_reason_name, finish_reasons_str, request_span_attributes, TracingLayer,
};
use liter_llm::types::chat::{ChatCompletionResponse, Choice, FinishReason};
use liter_llm::types::common::{
    ContentPart, ImageDetail, JsonSchemaFormat, Message, PromptTokensDetails, ResponseFormat, Usage, UserContent,
};

fn usage() -> Usage {
    Usage {
        prompt_tokens: 10,
        completion_tokens: 5,
        total_tokens: 15,
        prompt_tokens_details: Some(PromptTokensDetails { cached_tokens: 4, audio_tokens: 0 }),
    }
}

fn chat_with(reasons: Vec<Option<FinishReason>>) -> ChatCompletionResponse {
    let choices = reasons
        .into_iter()
        .enumerate()
        .map(|(i, finish_reason)| Choice { index: i as u32, message: Default::default(), finish_reason })
        .collect();
    ChatCompletionResponse { id: "id-1".to_string(), model: "gpt-4".to_string(), choices, ..Default::default() }
}

#[test]
fn error_classification_and_names() {
    assert!(LiterLlmError::Timeout.is_transient());
    assert!(LiterLlmError::Network { message: String::new() }.is_transient());
    assert!(LiterLlmError::ServerError { message: String::new(), status: 502 }.is_transient());
    assert!(!LiterLlmError::HookRejected { message: String::new() }.is_transient());
    assert_eq!(LiterLlmError::Timeout.error_type(), "timeout");
    assert_eq!(LiterLlmError::RateLimited { message: String::new(), retry_after_ms: None }.error_type(), "rate_limited");
    assert_eq!(LiterLlmError::IdempotencyInFlight { key: String::new() }.error_type(), "idempotency_in_flight");
}

#[test]
fn micros_and_seconds_rendering() {
    assert_eq!(micros_decimal(0), "0.000000");
    assert_eq!(micros_decimal(1_500_000), "1.500000");
    assert_eq!(micros_decimal(123), "0.000123");
    assert_eq!(rounded_secs_exec(1500), 2);
    assert_eq!(rounded_secs_exec(2500), 2);
    assert_eq!(rounded_secs_exec(2501), 3);
    assert_eq!(rounded_secs_exec(60_000), 60);
    assert_eq!(concat2("a", "b"), "ab");
    assert_eq!(concat3("a", "b", "c"), "abc");
    assert_eq!(hex_string(255, 4), "00ff");
}

#[test]
fn provider_prefix_of_model() {
    assert_eq!(provider_prefix("openai/gpt-4"), "openai");
    assert_eq!(provider_prefix("a/b/c"), "a");
    assert_eq!(provider_prefix("gpt-4"), "");
    assert_eq!(provider_prefix("/x"), "");
}

#[test]
fn content_parts_carry_urls_and_details() {
    match ContentPart::image_with_detail("https://x/img.png".to_string(), ImageDetail::High) {
        ContentPart::ImageUrl { image_url } => {
            assert_eq!(image_url.url, "https://x/img.png");
            assert!(matches!(image_url.detail, Some(ImageDetail::High)));
        }
        other => panic!("unexpected {other:?}"),
    }
    match ContentPart::image_jpeg(b"hi") {
        ContentPart::ImageUrl { image_url } => assert_eq!(image_url.url, "data:image/jpeg;base64,aGk="),
        other => panic!("unexpected {other:?}"),
    }
    match ContentPart::image_webp(b"") {
        ContentPart::ImageUrl { image_url } => assert_eq!(image_url.url, "data:image/webp;base64,"),
        other => panic!("unexpected {other:?}"),
    }
    match ContentPart::image_tiff(b"abc") {
        ContentPart::ImageUrl { image_url } => assert_eq!(image_url.url, "data:image/tiff;base64,YWJj"),
        other => panic!("unexpected {other:?}"),
    }
    match Message::user_with_parts(vec![ContentPart::text("hello")]) {
        Message::User(u) => match u.content {
            UserContent::Parts(parts) => assert!(matches!(&parts[0], ContentPart::Text { text } if text == "hello")),
            other => panic!("unexpected {other:?}"),
        },
        other => panic!("unexpected {other:?}"),
    }
}

#[test]
fn finish_reasons_joined_with_spaces() {
    assert_eq!(finish_reason_name(&FinishReason::ToolCalls), "tool_calls");
    assert_eq!(finish_reasons_str(&vec![]), "");
    assert_eq!(finish_reasons_str(&vec![None]), "");
    assert_eq!(finish_reasons_str(&vec![Some(FinishReason::Stop)]), "stop");
    assert_eq!(
        finish_reasons_str(&vec![Some(FinishReason::Stop), None, Some(FinishReason::Length)]),
        "stop length"
    );
    let resp = chat_with(vec![Some(FinishReason::ContentFilter), None]);
    assert_eq!(choice_finish_reasons(&resp), vec![Some(FinishReason::ContentFilter), None]);
}

#[test]
fn span_attributes_from_request() {
    let a = request_span_attributes(RequestKind::ChatStream, Some("openai/gpt-4"));
    assert_eq!(a.operation_name, "chat");
    assert_eq!(a.model, "openai/gpt-4");
    assert_eq!(a.system, "openai");
    let b = request_span_attributes(RequestKind::ListModels, None);
    assert_eq!(b.operation_name, "list_models");
    assert_eq!(b.model, "");
    assert_eq!(b.system, "");
    assert_eq!(RequestKind::ChatStream.request_type(), "chat_stream");
    assert_eq!(RequestKind::Embed.request_type(), "embeddings");
    assert_eq!(TracingLayer.layer(3u8).inner, 3);
}

#[test]
fn guardrail_block_messages() {
    let block = GuardrailDecision::Block { reason: "banned user".to_string(), code: "deny".to_string() };
    match input_verdict(&block) {
        Some(LiterLlmError::HookRejected { message }) => {
            assert_eq!(message, "guardrail blocked [code=deny]: banned user")
        }
        other => panic!("unexpected {other:?}"),
    }
    assert!(input_verdict(&GuardrailDecision::Allow).is_none());
    assert!(input_verdict(&GuardrailDecision::Mutate { payload: "{}".to_string() }).is_none());
    match output_verdict(&block, 1u8) {
        Err(LiterLlmError::HookRejected { message }) => {
            assert_eq!(message, "guardrail blocked output [code=deny]: banned user")
        }
        other => panic!("unexpected {other:?}"),
    }
    assert!(matches!(output_verdict(&GuardrailDecision::Allow, 1u8), Ok(OutputAnswer::Original(1))));
    match output_verdict(&GuardrailDecision::Mutate { payload: "{\"id\":2}".to_string() }, 1u8) {
        Ok(OutputAnswer::Replaced(p)) => assert_eq!(p, "{\"id\":2}"),
        other => panic!("unexpected {other:?}"),
    }
    assert!(matches!(replaced_response(Some(7u8)), Ok(7)));
    match replaced_response::<u8>(None) {
        Err(LiterLlmError::InternalError { message }) => {
            assert_eq!(message, "guardrail: mutated output is not a valid response")
        }
        other => panic!("unexpected {other:?}"),
    }
    assert!(output_stage_applies(RequestKind::ListModels));
    assert!(!output_stage_applies(RequestKind::Speech));
    match serialize_failure("bad value") {
        LiterLlmError::InternalError { message } => {
            assert_eq!(message, "guardrail: failed to serialize request: bad value")
        }
        other => panic!("unexpected {other:?}"),
    }
}

#[test]
fn guardrail_layer_allows_when_registry_is_empty() {
    let layer = GuardrailLayer::with_registry(std::sync::Arc::new(Vec::<u8>::new()));
    let svc = layer.layer(7u8);
    assert_eq!(svc.inner, 7);
    assert!(svc.metadata.is_empty());
    let mut meta = HashMap::new();
    meta.insert("user_id".to_string(), "good-user".to_string());
    let svc = GuardrailLayer::new(std::sync::Arc::new(()), meta).layer(1u8);
    assert_eq!(svc.metadata.get("user_id").map(String::as_str), Some("good-user"));
}

#[test]
fn hooks_pre_hook_outcomes() {
    assert!(pre_hook_step(PreHookOutcome::Passed).is_none());
    assert!(matches!(pre_hook_step(PreHookOutcome::Failed(LiterLlmError::Timeout)), Some(LiterLlmError::Timeout)));
    match pre_hook_step(PreHookOutcome::Panicked) {
        Some(LiterLlmError::HookRejected { message }) => assert_eq!(message, "hook panicked"),
        other => panic!("unexpected {other:?}"),
    }
    assert_eq!(classify_error_outcome(&LiterLlmError::Timeout), UsageOutcome::TimedOut);
    assert_eq!(classify_error_outcome(&LiterLlmError::Network { message: String::new() }), UsageOutcome::Error);
}

#[test]
fn usage_records_success_and_error() {
    assert_eq!(usage_tokens(&None), (0, 0, 0, 0));
    assert_eq!(usage_tokens(&Some(usage())), (10, 5, 4, 15));
    let resp = chat_with(vec![Some(FinishReason::ToolCalls)]);
    assert_eq!(first_finish_reason(&resp), Some("toolcalls".to_string()));
    let r = success_usage_record(
        Some("t1".to_string()),
        request_id(None, 42),
        Some("mistral/large"),
        &Some(usage()),
        Some(&resp),
        12,
    );
    assert_eq!(r.request_id, "42");
    assert_eq!(r.model, "mistral/large");
    assert_eq!(r.provider, "mistral");
    assert_eq!((r.prompt_tokens, r.completion_tokens, r.cached_tokens, r.total_tokens), (10, 5, 4, 15));
    assert_eq!(r.finish_reason, Some("toolcalls".to_string()));
    assert_eq!(r.outcome, UsageOutcome::Success);
    let e = error_usage_record(None, request_id(Some("idem".to_string()), 1), None, UsageOutcome::Cancelled, 3);
    assert_eq!(e.request_id, "idem");
    assert_eq!(e.model, "");
    assert_eq!(e.provider, "");
    assert_eq!(e.total_tokens, 0);
    assert_eq!(e.outcome, UsageOutcome::Cancelled);
}

#[test]
fn cost_inputs_need_model_and_usage() {
    assert_eq!(cost_inputs(Some("gpt-4".to_string()), &Some(usage())), Some(("gpt-4".to_string(), 10, 4, 5)));
    assert_eq!(cost_inputs(None, &Some(usage())), None);
    assert_eq!(cost_inputs(Some("gpt-4".to_string()), &None), None);
    assert_eq!(CostTrackingLayer.layer(2u8).inner, 2);
}

#[test]
fn health_probe_helpers() {
    let mut urls = HashMap::new();
    urls.insert("openai".to_string(), "https://status.openai.example/health".to_string());
    assert_eq!(probe_url(&urls, "openai"), "https://status.openai.example/health");
    assert_eq!(probe_url(&urls, "https://api.example"), "https://api.example");
    assert_eq!(probe_status(Some(200)), HealthStatus::Healthy);
    assert_eq!(probe_status(Some(302)), HealthStatus::Healthy);
    assert_eq!(probe_status(Some(404)), HealthStatus::Unhealthy);
    assert_eq!(probe_status(None), HealthStatus::Unhealthy);
    assert_eq!(HealthCheckLayer::new(30_000).interval_ms(), 30_000);
}

#[test]
fn llm_service_shares_client() {
    let s = LlmService::new(5u8);
    assert_eq!(*s.inner(), 5);
    let t = LlmService::new_from_arc(std::sync::Arc::new(6u8));
    assert_eq!(*t.inner(), 6);
    assert_eq!(*s.share().inner(), 5);
}

#[test]
fn request_type_labels() {
    assert_eq!(RequestKind::Chat.request_type(), "chat");
    assert_eq!(RequestKind::ChatStream.request_type(), "chat_stream");
    assert_eq!(RequestKind::Embed.request_type(), "embeddings");
    assert_eq!(RequestKind::ListModels.request_type(), "list_models");
}

#[test]
fn operation_name_labels() {
    assert_eq!(RequestKind::Chat.operation_name(), "chat");
    assert_eq!(RequestKind::ChatStream.operation_name(), "chat");
    assert_eq!(RequestKind::Embed.operation_name(), "embeddings");
    assert_eq!(RequestKind::ListModels.operation_name(), "list_models");
}

#[test]
fn batch_status_displays_wire_names() {
    assert_eq!(BatchStatus::InProgress.as_str(), "in_progress");
    assert_eq!(BatchStatus::Validating.as_str(), "validating");
    assert_eq!(BatchStatus::Cancelled.as_str(), "cancelled");
    assert_eq!(BatchStatus::default().as_str(), "validating");
}

fn decoded_floats(text: &str) -> Result<Vec<f32>, String> {
    base64_embedding_bits(text).map(|w| w.into_iter().map(f32::from_bits).collect()).map_err(|e| e.message())
}

#[test]
fn base64_embedding_round_trips_bit_exact() {
    let src: [f32; 5] = [1.0, -2.5, 12.375, 0.0, f32::MIN_POSITIVE];
    let mut bytes = Vec::with_capacity(src.len() * 4);
    for v in src {
        bytes.extend_from_slice(&v.to_le_bytes());
    }
    let encoded = base64::engine::general_purpose::STANDARD.encode(&bytes);
    let floats = decoded_floats(&encoded).expect("base64 embedding should decode");
    assert_eq!(floats, src, "decoded floats must match source bit-exactly");
}

#[test]
fn openai_base64_anchor_decodes_to_one() {
    assert_eq!(decoded_floats("AACAPw==").expect("anchor decodes"), vec![1.0_f32]);
}

#[test]
fn odd_length_base64_errors_with_multiple_of_four_message() {
    let encoded = base64::engine::general_purpose::STANDARD.encode(b"abcdef");
    let err = decoded_floats(&encoded).expect_err("6-byte base64 payload must error");
    assert!(err.contains("not a multiple of 4"), "expected multiple-of-4 message, got: {err}");
    assert_eq!(err, "base64 embedding length 6 is not a multiple of 4");
}

#[test]
fn invalid_base64_errors() {
    let err = decoded_floats("not valid base64!!!").expect_err("non-base64 string must error");
    assert!(err.contains("invalid base64 embedding"), "expected invalid base64 message, got: {err}");
}

#[test]
fn embedding_words_are_little_endian() {
    let words = embedding_bits_from_bytes(vec![0x01, 0x02, 0x03, 0x04, 0xff, 0, 0, 0x80]).expect("8 bytes");
    assert_eq!(words, vec![0x0403_0201, 0x8000_00ff]);
    assert_eq!(embedding_bits_from_bytes(vec![1, 2, 3]), Err(EmbeddingDecodeError::NotMultipleOfFour(3)));
    assert_eq!(embedding_bits_from_bytes(Vec::new()), Ok(Vec::new()));
}

fn empty_object() -> serde_json::Value {
    serde_json::Value::Object(serde_json::Map::new())
}

#[test]
fn json_schema_new_defaults_strict_true() {
    let fmt = JsonSchemaFormat::new("S", empty_object());
    assert_eq!(fmt.strict, Some(true));
    assert_eq!(fmt.description, None);
    assert_eq!(fmt.name, "S");
}

#[test]
fn json_schema_strict_toggle() {
    let fmt = JsonSchemaFormat::new("S", empty_object()).strict(false);
    assert_eq!(fmt.strict, Some(false));
}

#[test]
fn json_schema_description_attaches() {
    let fmt = JsonSchemaFormat::new("S", empty_object()).description("d");
    assert_eq!(fmt.description.as_deref(), Some("d"));
}

#[test]
fn response_format_constructors_pick_their_variant() {
    let schema: serde_json::Value = serde_json::from_str(r#"{"type": "object"}"#).unwrap();
    match ResponseFormat::json_schema("S", schema.clone()) {
        ResponseFormat::JsonSchema { json_schema } => {
            assert_eq!(json_schema.name, "S");
            assert_eq!(json_schema.schema, schema);
            assert_eq!(json_schema.strict, Some(true));
            assert!(json_schema.description.is_none());
        }
        other => panic!("unexpected format {other:?}"),
    }
    assert!(matches!(ResponseFormat::json_object(), ResponseFormat::JsonObject));
    assert!(matches!(ResponseFormat::text(), ResponseFormat::Text));
    assert!(matches!(ResponseFormat::default(), ResponseFormat::Text));
}
