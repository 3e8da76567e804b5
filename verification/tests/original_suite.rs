use std::time::Duration;

use liter_llm::error::LiterLlmError;
use liter_llm::tower::health::{HealthCheckConfig, HealthStatus, ProviderHealthState};
use liter_llm::tower::metrics::{
    record_cache_hit, record_cache_miss, record_cache_stale, record_circuit_trip, record_retry_attempt,
};
use liter_llm::tower::router::Weight;
use liter_llm::types::common::{ContentPart, ImageDetail, ImageUrl, Message, UserContent, UserMessage};
use liter_llm::util::bounds::{
    check_bound, EVENT_STREAM_BUFFER_MAX_BYTES, RESPONSE_BODY_MAX_BYTES, SSE_BUFFER_MAX_BYTES,
};

fn bound_message(r: Result<(), LiterLlmError>) -> String {
    match r {
        Err(LiterLlmError::Streaming { message }) => message,
        other => panic!("expected a streaming error, got {other:?}"),
    }
}

#[test]
fn health_check_config_default_values() {
    let config = HealthCheckConfig::default();
    assert_eq!(Duration::from_millis(config.interval_ms), Duration::from_secs(30));
    assert_eq!(Duration::from_millis(config.timeout_ms), Duration::from_secs(5));
    assert_eq!(config.unhealthy_threshold, 3);
    assert_eq!(config.healthy_threshold, 2);
}

#[test]
fn health_checker_marks_down_after_threshold() {
    let config = HealthCheckConfig { unhealthy_threshold: 3, healthy_threshold: 1, ..Default::default() };
    let mut state = ProviderHealthState::new(true);

    state.record(HealthStatus::Unhealthy, &config);
    assert!(state.is_healthy(), "should still be healthy after 1 failure");

    state.record(HealthStatus::Unhealthy, &config);
    assert!(state.is_healthy(), "should still be healthy after 2 failures");

    state.record(HealthStatus::Unhealthy, &config);
    assert!(!state.is_healthy(), "should be unhealthy after 3 consecutive failures");
}

#[test]
fn health_checker_marks_up_after_threshold() {
    let config = HealthCheckConfig { unhealthy_threshold: 1, healthy_threshold: 2, ..Default::default() };
    let mut state = ProviderHealthState::new(false);

    state.record(HealthStatus::Healthy, &config);
    assert!(!state.is_healthy(), "should still be unhealthy after 1 success");

    state.record(HealthStatus::Healthy, &config);
    assert!(state.is_healthy(), "should be healthy after 2 consecutive successes");
}

#[test]
fn health_checker_resets_counters_on_state_change() {
    let config = HealthCheckConfig { unhealthy_threshold: 2, healthy_threshold: 2, ..Default::default() };
    let mut state = ProviderHealthState::new(true);

    state.record(HealthStatus::Unhealthy, &config);
    state.record(HealthStatus::Healthy, &config);
    state.record(HealthStatus::Unhealthy, &config);
    assert!(state.is_healthy(), "one failure after reset should not mark unhealthy");
    state.record(HealthStatus::Unhealthy, &config);
    assert!(!state.is_healthy(), "second failure after reset should mark unhealthy");
}

#[test]
fn metrics_record_helpers_no_op_without_meter() {
    record_cache_hit("openai", "gpt-4", "chat");
    record_cache_miss("openai", "gpt-4", "chat");
    record_cache_stale("openai", "gpt-4", "chat");
    record_circuit_trip("openai", "gpt-4");
    record_retry_attempt("openai", "gpt-4", "chat");
}

#[test]
fn tower_metrics_record_helpers_no_op_without_meter() {
    record_cache_hit("openai", "gpt-4", "chat");
    record_cache_miss("openai", "gpt-4", "chat");
    record_cache_stale("openai", "gpt-4", "chat");
    record_circuit_trip("openai", "gpt-4");
    record_retry_attempt("openai", "gpt-4", "chat");
}

#[test]
fn weight_default_is_one() {
    assert_eq!(Weight::default().as_u32(), 1);
}

#[test]
fn content_part_image_png_round_trip() {
    let part = ContentPart::image_png(b"hi");
    match &part {
        ContentPart::ImageUrl { image_url } => {
            assert!(
                image_url.url.starts_with("data:image/png;base64,"),
                "expected png data URL, got: {}",
                image_url.url
            );
        }
        other => panic!("expected ImageUrl variant, got: {other:?}"),
    }
}

#[test]
fn check_bound_passes_when_within_limit() {
    assert!(check_bound("test", 100, 50, 200).is_ok());
}

#[test]
fn check_bound_passes_at_exact_limit() {
    assert!(check_bound("test", 100, 100, 200).is_ok());
}

#[test]
fn check_bound_fails_when_exceeds_limit() {
    let err = bound_message(check_bound("test ctx", 100, 101, 200));
    assert!(err.contains("test ctx"));
    assert!(err.contains("200"));
}

#[test]
fn check_bound_saturating_add_does_not_overflow() {
    let err = bound_message(check_bound("overflow", usize::MAX, 1, 1024));
    assert!(err.contains("overflow"));
}

#[test]
fn check_bound_refuses_overflowing_sum_at_largest_limit() {
    let err = bound_message(check_bound("huge", usize::MAX, 1, usize::MAX));
    assert!(err.contains("huge"));
    assert!(check_bound("huge", usize::MAX - 1, 1, usize::MAX).is_ok());
}

#[test]
fn sse_constant_is_one_mib() {
    assert_eq!(SSE_BUFFER_MAX_BYTES, 1024 * 1024);
}

#[test]
fn event_stream_constant_is_sixteen_mib() {
    assert_eq!(EVENT_STREAM_BUFFER_MAX_BYTES, 16 * 1024 * 1024);
}

#[test]
fn response_body_constant_is_thirty_two_mib() {
    assert_eq!(RESPONSE_BODY_MAX_BYTES, 32 * 1024 * 1024);
}

#[test]
fn content_part_text_constructor() {
    let part = ContentPart::text("hi");
    assert_eq!(part, ContentPart::Text { text: "hi".to_string() });
}

#[test]
fn content_part_image_data_url_constructor() {
    let part = ContentPart::image_data_url("data:image/png;base64,aGk=".to_string());
    assert_eq!(
        part,
        ContentPart::ImageUrl { image_url: ImageUrl { url: "data:image/png;base64,aGk=".to_string(), detail: None } }
    );
}

#[test]
fn content_part_image_with_detail() {
    let part = ContentPart::image_with_detail("https://example.com/img.png".to_string(), ImageDetail::High);
    assert_eq!(
        part,
        ContentPart::ImageUrl {
            image_url: ImageUrl { url: "https://example.com/img.png".to_string(), detail: Some(ImageDetail::High) }
        }
    );
}

#[test]
fn message_user_with_parts() {
    let msg = Message::user_with_parts(vec![
        ContentPart::text("hello"),
        ContentPart::image_data_url("data:image/png;base64,aGk=".to_string()),
    ]);
    assert_eq!(
        msg,
        Message::User(UserMessage {
            content: UserContent::Parts(vec![
                ContentPart::Text { text: "hello".to_string() },
                ContentPart::ImageUrl {
                    image_url: ImageUrl { url: "data:image/png;base64,aGk=".to_string(), detail: None }
                },
            ]),
            name: None,
        })
    );
}
