use std::collections::HashMap;

use liter_llm::error::LiterLlmError;
use liter_llm::tower::route_classify::{
    build_routing_prompt, cascade_next, cascade_start, filter_available, model_from_reply, parse_model_from_response, reply_json_span,
    CascadeStep, ClassifierVerdictCache, ClassifyContext, KeywordClassifier, LlmClassifier, DEFAULT_VERDICT_TTL_MS,
};
use liter_llm::tower::router::{
    dynamic_call_gate, lowest_latency_index, weighted_random_select, weighted_select, DynamicRouterConfig,
    ProviderConfig, RouteDecision, Router, RouterError, RoutingStrategy, StaticDiscover, Weight,
    DEFAULT_CONCURRENCY_LIMIT,
};
use liter_llm::types::common::{Message, UserContent};

fn bad_request_message(r: Result<Router<u8>, LiterLlmError>) -> String {
    match r {
        Err(LiterLlmError::BadRequest { message, status }) => {
            assert_eq!(status, 400);
            message
        }
        Err(other) => panic!("unexpected {other:?}"),
        Ok(_) => panic!("router should be refused"),
    }
}

#[test]
fn weight_constants() {
    assert_eq!(Weight::zero().as_u32(), 0);
    assert_eq!(Weight::one().as_u32(), 1);
    assert_eq!(Weight::max_value().as_u32(), u32::MAX);
}

#[test]
fn router_rejects_empty_deployments() {
    let msg = bad_request_message(Router::new(Vec::<u8>::new(), RoutingStrategy::RoundRobin));
    assert_eq!(msg, "Router requires at least one deployment");
}

#[test]
fn weighted_random_rejects_mismatched_weights() {
    let strategy = RoutingStrategy::WeightedRandom { weights: vec![Weight(1)] };
    let msg = bad_request_message(Router::new(vec![1u8, 2u8], strategy));
    assert_eq!(msg, "WeightedRandom: weights length (1) must match deployments length (2)");
}

#[test]
fn weighted_random_rejects_zero_total_weight() {
    let strategy = RoutingStrategy::WeightedRandom { weights: vec![Weight(0), Weight(0)] };
    let msg = bad_request_message(Router::new(vec![1u8, 2u8], strategy));
    assert_eq!(msg, "WeightedRandom: total weight must be positive");
}

#[test]
fn round_robin_cycles_through_deployments() {
    let mut router = Router::new(vec![10u8, 20u8, 30u8], RoutingStrategy::RoundRobin).expect("valid router");
    let picks: Vec<RouteDecision> = (0..4).map(|_| router.route()).collect();
    assert_eq!(
        picks,
        vec![
            RouteDecision::Deployment(0),
            RouteDecision::Deployment(1),
            RouteDecision::Deployment(2),
            RouteDecision::Deployment(0)
        ]
    );
    assert_eq!(*router.deployment(1), 20);
}

#[test]
fn in_order_and_latency_strategies_defer() {
    let mut r = Router::new(vec![1u8], RoutingStrategy::Fallback).unwrap();
    assert_eq!(r.route(), RouteDecision::InOrder);
    let mut r = Router::new(vec![1u8], RoutingStrategy::CostBased).unwrap();
    assert_eq!(r.route(), RouteDecision::InOrder);
    let mut r = Router::new(vec![1u8], RoutingStrategy::LatencyBased).unwrap();
    assert_eq!(r.route(), RouteDecision::LowestLatency);
}

#[test]
fn weighted_select_follows_cumulative_weights() {
    let w = vec![Weight(1), Weight(0), Weight(3)];
    // total 4: draws 0 → 0, 1..=3 → 2; weight-0 deployment never chosen.
    assert_eq!(weighted_select(&w, 0), 0);
    assert_eq!(weighted_select(&w, 1), 2);
    assert_eq!(weighted_select(&w, 3), 2);
    assert_eq!(weighted_select(&w, 4), 0);
    assert_eq!(weighted_select(&w, 5), 2);
    assert_eq!(weighted_select(&vec![Weight(0)], 9), 0);
    assert_eq!(weighted_select(&Vec::new(), 9), 0);
}

#[test]
fn weighted_random_select_returns_valid_index() {
    let weights = vec![Weight(1), Weight(2), Weight(3)];
    for _ in 0..100 {
        let idx = weighted_random_select(&weights);
        assert!(idx < weights.len());
    }
    let only_last = vec![Weight(0), Weight(0), Weight(5)];
    for _ in 0..20 {
        assert_eq!(weighted_random_select(&only_last), 2);
    }
}

#[test]
fn weighted_router_routes_to_positive_weight() {
    let strategy = RoutingStrategy::WeightedRandom { weights: vec![Weight(0), Weight(7)] };
    let mut router = Router::new(vec![1u8, 2u8], strategy).unwrap();
    for _ in 0..20 {
        assert_eq!(router.route(), RouteDecision::Deployment(1));
    }
}

#[test]
fn latency_choice_takes_first_lowest() {
    assert_eq!(lowest_latency_index(&vec![5, 3, 3, 9]), 1);
    assert_eq!(lowest_latency_index(&vec![0, 0]), 0);
    assert_eq!(lowest_latency_index(&vec![7]), 0);
}

#[test]
fn static_discover_yields_all_services() {
    let mut d = StaticDiscover::new(vec![("a".to_string(), 1u8), ("b".to_string(), 2u8)]);
    assert_eq!(d.next(), Some(("a".to_string(), 1)));
    assert_eq!(d.next(), Some(("b".to_string(), 2)));
    assert_eq!(d.next(), None);
}

#[test]
fn provider_config_default_limit() {
    assert_eq!(ProviderConfig::default().concurrency_limit, DEFAULT_CONCURRENCY_LIMIT);
    assert_eq!(DEFAULT_CONCURRENCY_LIMIT, 256);
}

fn ctx<'a>(prompt: &'a str, meta: &'a HashMap<String, String>, available: &'a [String]) -> ClassifyContext<'a> {
    ClassifyContext { prompt, system_prompt: None, metadata: meta, available_models: available }
}

#[test]
fn routing_prompt_lists_models() {
    let meta = HashMap::new();
    let models = vec!["gpt-4".to_string(), "mistral".to_string()];
    let p = build_routing_prompt(&ctx("hello", &meta, &models));
    assert_eq!(
        p,
        "Available models: [gpt-4, mistral]\nUser prompt: hello\n\nRespond with ONLY a JSON object in this exact format: {\"model\": \"<model_id>\"}\nChoose the most appropriate model from the available models list."
    );
}

#[test]
fn llm_classifier_builds_request_messages() {
    let c = LlmClassifier::new(std::sync::Arc::new(()), "router-model".to_string(), "Pick a model.".to_string());
    assert_eq!(c.model(), "router-model");
    let meta = HashMap::new();
    let models = vec!["a".to_string()];
    let msgs = c.request_messages(&ctx("q", &meta, &models));
    assert_eq!(msgs.len(), 2);
    match &msgs[0] {
        Message::System(s) => assert_eq!(s.content, "Pick a model."),
        other => panic!("unexpected {other:?}"),
    }
    match &msgs[1] {
        Message::User(u) => match &u.content {
            UserContent::Text(t) => assert!(t.starts_with("Available models: [a]\nUser prompt: q")),
            other => panic!("unexpected {other:?}"),
        },
        other => panic!("unexpected {other:?}"),
    }
}

#[test]
fn parse_model_from_reply_text() {
    assert_eq!(parse_model_from_response(r#"Sure: {"model": "gpt-4"} done"#), Some("gpt-4".to_string()));
    assert_eq!(parse_model_from_response(r#"{"other": 1}"#), None);
    assert_eq!(parse_model_from_response("no json here"), None);
    assert_eq!(parse_model_from_response("} backwards {"), None);
    assert_eq!(parse_model_from_response(r#"{"model": 3}"#), None);
    assert_eq!(reply_json_span("x {a} y {b} z"), Some("{a} y {b}".to_string()));
}

#[test]
fn classifier_reply_must_name_available_model() {
    let available = vec!["gpt-4".to_string(), "mistral".to_string()];
    assert_eq!(model_from_reply(Some(r#"{"model": "mistral"}"#), &available), Some("mistral".to_string()));
    assert_eq!(model_from_reply(Some(r#"{"model": "llama"}"#), &available), None);
    assert_eq!(model_from_reply(None, &available), None);
    assert_eq!(filter_available(Some("gpt-4".to_string()), &available), Some("gpt-4".to_string()));
    assert_eq!(filter_available(None, &available), None);
}

#[test]
fn keyword_classifier_first_match_wins() {
    let rules = vec![
        (regex::Regex::new(r"(?i)code").unwrap(), "coder".to_string()),
        (regex::Regex::new(r"(?i)math|code").unwrap(), "mathematician".to_string()),
    ];
    let k = KeywordClassifier::new(rules);
    let meta = HashMap::new();
    let models: Vec<String> = Vec::new();
    assert_eq!(k.classify(&ctx("Write CODE please", &meta, &models)), Some("coder".to_string()));
    assert_eq!(k.classify(&ctx("some math", &meta, &models)), Some("mathematician".to_string()));
    assert_eq!(k.classify(&ctx("poetry", &meta, &models)), None);
    assert_eq!(k.first_hit_model(&vec![false, true]), Some("mathematician".to_string()));
    assert_eq!(k.first_hit_model(&vec![true, true]), Some("coder".to_string()));
    assert_eq!(k.first_hit_model(&vec![false]), None);
    assert_eq!(k.first_hit_model(&Vec::new()), None);
}

#[test]
fn verdict_cache_respects_ttl() {
    let mut cache = ClassifierVerdictCache::with_ttl((), 1000);
    let meta = HashMap::new();
    let models: Vec<String> = Vec::new();
    let key = ClassifierVerdictCache::<()>::cache_key(&ctx("prompt", &meta, &models));
    let same = ClassifierVerdictCache::<()>::cache_key(&ctx("prompt", &meta, &models));
    let other = ClassifierVerdictCache::<()>::cache_key(&ctx("other prompt", &meta, &models));
    assert_eq!(key, same);
    assert_ne!(key, other);
    assert_eq!(cache.get_cached(key, 0), None);
    assert_eq!(cache.record_verdict(key, Some("gpt-4".to_string()), 100), Some("gpt-4".to_string()));
    assert_eq!(cache.get_cached(key, 1100), Some("gpt-4".to_string()));
    assert_eq!(cache.get_cached(key, 1101), None);
    assert_eq!(cache.record_verdict(other, None, 0), None);
    assert_eq!(cache.get_cached(other, 0), None);
    let default_cache = ClassifierVerdictCache::new(());
    assert_eq!(DEFAULT_VERDICT_TTL_MS, 3_600_000);
    assert_eq!(default_cache.get_cached(key, 0), None);
}

#[test]
fn llm_classifier_parse_with_preamble() {
    let text = r#"Sure! Here is my answer: {"model": "sonnet-3-5"} Hope that helps!"#;
    assert_eq!(parse_model_from_response(text), Some("sonnet-3-5".into()));
}

#[test]
fn llm_classifier_parse_malformed_returns_none() {
    assert_eq!(parse_model_from_response("I cannot decide."), None);
}

#[test]
fn router_error_codes_and_messages() {
    let d = RouterError::discover("stream closed".to_string());
    assert_eq!(d.code(), 2001);
    assert_eq!(d.message(), "discovery error (code 2001): stream closed");
    match d.into_error() {
        LiterLlmError::ServerError { message, status } => {
            assert_eq!(status, 503);
            assert_eq!(message, "discovery error (code 2001): stream closed");
        }
        other => panic!("unexpected {other:?}"),
    }
    let n = RouterError::no_ready_upstream();
    assert_eq!(n.code(), 2002);
    assert_eq!(n.message(), "no ready upstream available (code 2002)");
    assert!(dynamic_call_gate(1).is_ok());
    assert_eq!(dynamic_call_gate(0), Err(RouterError::NoReadyUpstream { code: 2002 }));
}

#[test]
fn dynamic_router_concurrency_limits() {
    let config = DynamicRouterConfig::new().with_provider_config("openai".to_string(), ProviderConfig { concurrency_limit: 8 });
    assert_eq!(config.concurrency_limit("openai"), 8);
    assert_eq!(config.concurrency_limit("azure"), DEFAULT_CONCURRENCY_LIMIT);
    let config = config.with_provider_config("openai".to_string(), ProviderConfig { concurrency_limit: 3 });
    assert_eq!(config.concurrency_limit("openai"), 3);
}

#[test]
fn cascade_answers_first_verdict() {
    assert_eq!(cascade_start(0), CascadeStep::Answer(None));
    assert_eq!(cascade_start(3), CascadeStep::Ask(0));
    assert_eq!(cascade_next(None, 0, 3), CascadeStep::Ask(1));
    assert_eq!(cascade_next(Some("gpt-4o".to_string()), 1, 3), CascadeStep::Answer(Some("gpt-4o".to_string())));
    assert_eq!(cascade_next(None, 2, 3), CascadeStep::Answer(None));
    // Walk a cascade whose second classifier answers.
    let verdicts = [None, Some("b".to_string()), Some("c".to_string())];
    let mut step = cascade_start(verdicts.len());
    let answer = loop {
        match step {
            CascadeStep::Answer(v) => break v,
            CascadeStep::Ask(i) => step = cascade_next(verdicts[i].clone(), i, verdicts.len()),
        }
    };
    assert_eq!(answer, Some("b".to_string()));
}

#[test]
fn weighted_random_selects_proportionally() {
    // Weight distribution 1:2:3; every index must come up in 600 draws.
    let weights = vec![Weight(1), Weight(2), Weight(3)];
    let mut counts = [0usize; 3];
    for _ in 0..600u64 {
        let idx = weighted_random_select(&weights);
        assert!(idx < 3, "index {idx} out of range");
        counts[idx] += 1;
    }
    for (i, &count) in counts.iter().enumerate() {
        assert!(count > 0, "index {i} was never selected (counts: {counts:?})");
    }
}
