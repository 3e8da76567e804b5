use liter_llm::error::LiterLlmError;
use liter_llm::tower::budget::{
    budget_preflight, check_budget, soft_warnings, BudgetConfig, BudgetDimension, BudgetState, BudgetVerdict,
    Enforcement,
};
use liter_llm::tower::ledger::{CostCheckContext, DimensionLimits, InMemoryBudgetLedger};
use liter_llm::tower::rate_limit::{ModelRateLimiter, RateLimitConfig};
use liter_llm::tower::window::SpendWindow;

const USD: u64 = 1_000_000;

fn ctx<'a>(model: &'a str, user: Option<&'a str>, now: u64) -> CostCheckContext<'a> {
    CostCheckContext { model, provider: "openai", tenant_id: None, user_id: user, api_key_id: None, timestamp_secs: now }
}

#[test]
fn hard_enforcement_rejects_when_global_limit_exceeded() {
    let mut state = BudgetState::new();
    state.record("gpt-4", 10 * USD);
    let mut config = BudgetConfig::new();
    config.global_limit_mc = Some(5 * USD);
    match check_budget(&config, &state, "gpt-4") {
        Some(LiterLlmError::BudgetExceeded { message, model }) => {
            assert_eq!(message, "global budget exceeded: spent $10.000000, limit $5.000000");
            assert_eq!(model, None);
        }
        other => panic!("unexpected {other:?}"),
    }
}

#[test]
fn hard_enforcement_rejects_when_model_limit_exceeded() {
    let mut state = BudgetState::new();
    state.record("gpt-4", 1_500_000);
    let mut config = BudgetConfig::new();
    config.set_model_limit("gpt-4", USD);
    match check_budget(&config, &state, "gpt-4") {
        Some(LiterLlmError::BudgetExceeded { message, model }) => {
            assert_eq!(message, "model gpt-4 budget exceeded: spent $1.500000, limit $1.000000");
            assert_eq!(model, Some("gpt-4".to_string()));
        }
        other => panic!("unexpected {other:?}"),
    }
    assert!(check_budget(&config, &state, "mistral").is_none());
}

#[test]
fn budget_under_limit_allows() {
    let mut state = BudgetState::new();
    state.record("gpt-4", 999_999);
    let mut config = BudgetConfig::new();
    config.global_limit_mc = Some(USD);
    assert!(check_budget(&config, &state, "gpt-4").is_none());
    state.record("gpt-4", 1);
    assert!(check_budget(&config, &state, "gpt-4").is_some());
}

#[test]
fn soft_enforcement_never_rejects_but_reports() {
    let mut state = BudgetState::new();
    state.record("gpt-4", 3 * USD);
    let mut config = BudgetConfig::new();
    config.global_limit_mc = Some(USD);
    config.set_model_limit("gpt-4", 2 * USD);
    config.enforcement = Enforcement::Soft;
    assert!(budget_preflight(&config, &state, "gpt-4").is_none());
    assert_eq!(soft_warnings(&config, &state, "gpt-4"), (true, true));
    config.enforcement = Enforcement::Hard;
    assert!(budget_preflight(&config, &state, "gpt-4").is_some());
}

#[test]
fn budget_state_tracks_and_resets() {
    let mut state = BudgetState::new();
    state.record("a", 5);
    state.record("b", 7);
    state.record("a", 1);
    assert_eq!(state.global_spend(), 13);
    assert_eq!(state.model_spend("a"), 6);
    assert_eq!(state.model_spend("c"), 0);
    state.reset();
    assert_eq!(state.global_spend(), 0);
    assert_eq!(state.model_spend("a"), 0);
}

#[test]
fn spend_window_restarts_after_elapsed() {
    let mut w = SpendWindow::new(60, 0);
    w.add_mc(10, 5);
    assert_eq!(w.spend_mc(59), 10);
    assert_eq!(w.spend_mc(60), 0);
    w.add_mc(4, 61);
    assert_eq!(w.spend_mc(100), 4);
}

fn ledger_with_limits() -> InMemoryBudgetLedger {
    let mut limits = DimensionLimits::new();
    limits.global = Some(100 * USD);
    limits.per_model.insert("gpt-4".to_string(), 2 * USD);
    limits.per_user.insert("alice".to_string(), USD);
    InMemoryBudgetLedger::new(limits, 3600, 0)
}

fn reject(v: BudgetVerdict) -> (String, BudgetDimension) {
    match v {
        BudgetVerdict::Reject { reason, dimension } => (reason, dimension),
        BudgetVerdict::Allow => panic!("expected a rejection"),
    }
}

#[test]
fn ledger_allows_under_limits() {
    let mut l = ledger_with_limits();
    assert!(matches!(l.check(&ctx("gpt-4", Some("alice"), 10)), BudgetVerdict::Allow));
}

#[test]
fn ledger_rejects_model_then_user() {
    let mut l = ledger_with_limits();
    l.record("gpt-4", None, Some("alice"), None, 2 * USD, 10);
    let (reason, dim) = reject(l.check(&ctx("gpt-4", Some("alice"), 20)));
    assert_eq!(reason, "model:gpt-4 budget exceeded: spent $2.000000, limit $2.000000");
    assert!(matches!(dim, BudgetDimension::Model(m) if m == "gpt-4"));
    // Another model: the user's limit is the first one reached.
    let (reason, dim) = reject(l.check(&ctx("mistral", Some("alice"), 20)));
    assert_eq!(reason, "user:alice budget exceeded: spent $2.000000, limit $1.000000");
    assert!(matches!(dim, BudgetDimension::User(u) if u == "alice"));
    // Without a user, mistral passes.
    assert!(matches!(l.check(&ctx("mistral", None, 20)), BudgetVerdict::Allow));
}

#[test]
fn ledger_global_limit_checked_first() {
    let mut limits = DimensionLimits::new();
    limits.global = Some(USD);
    limits.per_model.insert("gpt-4".to_string(), USD);
    let mut l = InMemoryBudgetLedger::new(limits, 3600, 0);
    l.record("gpt-4", None, None, None, USD, 1);
    let (reason, dim) = reject(l.check(&ctx("gpt-4", None, 2)));
    assert_eq!(reason, "global budget exceeded: spent $1.000000, limit $1.000000");
    assert!(matches!(dim, BudgetDimension::Global));
}

#[test]
fn ledger_window_expiry_forgets_spend() {
    let mut l = ledger_with_limits();
    l.record("gpt-4", None, None, None, 3 * USD, 0);
    assert!(matches!(l.check(&ctx("gpt-4", None, 100)), BudgetVerdict::Reject { .. }));
    assert!(matches!(l.check(&ctx("gpt-4", None, 3700)), BudgetVerdict::Allow));
    assert_eq!(l.model_spend("gpt-4", 3700), 0);
}

#[test]
fn ledger_reset_clears_spend() {
    let mut l = ledger_with_limits();
    l.record("gpt-4", None, None, None, 3 * USD, 0);
    l.reset(10);
    assert_eq!(l.global_spend(10), 0);
    assert_eq!(l.model_spend("gpt-4", 10), 0);
    assert!(matches!(l.check(&ctx("gpt-4", None, 10)), BudgetVerdict::Allow));
}

#[test]
fn rate_limiter_rejects_after_rpm() {
    let config = RateLimitConfig { rpm: Some(2), tpm: None, window_ms: 60_000 };
    let mut rl = ModelRateLimiter::new(config);
    assert!(rl.pre_flight("gpt-4", 0).is_ok());
    assert!(rl.pre_flight("gpt-4", 1).is_ok());
    match rl.pre_flight("gpt-4", 2) {
        Err(LiterLlmError::RateLimited { message, retry_after_ms }) => {
            assert_eq!(message, "model gpt-4 exceeded 2 requests per 60s window");
            assert_eq!(retry_after_ms, Some(60_000));
        }
        other => panic!("unexpected {other:?}"),
    }
    // Other models are independent.
    assert!(rl.pre_flight("mistral", 2).is_ok());
    // The window resets.
    assert!(rl.pre_flight("gpt-4", 60_000).is_ok());
}

#[test]
fn rate_limiter_counts_tokens() {
    let config = RateLimitConfig { rpm: None, tpm: Some(100), window_ms: 60_000 };
    let mut rl = ModelRateLimiter::new(config);
    assert!(rl.pre_flight("m", 0).is_ok());
    rl.post_flight("m", 150, 1);
    match rl.pre_flight("m", 2) {
        Err(LiterLlmError::RateLimited { message, .. }) => {
            assert_eq!(message, "model m exceeded 100 tokens per 60s window")
        }
        other => panic!("unexpected {other:?}"),
    }
    rl.post_flight("untracked", 10, 3);
    assert!(rl.counters("untracked").is_none());
}

#[test]
fn ledger_snapshot_lists_every_dimension() {
    let mut l = ledger_with_limits();
    l.record("gpt-4", Some("acme"), Some("alice"), Some("key-1"), 3, 0);
    l.record("mistral", None, Some("alice"), None, 4, 1);
    let snap = l.snapshot(2);
    assert_eq!(snap.global_spend_mc, 7);
    assert_eq!(snap.per_model, vec![("gpt-4".to_string(), 3), ("mistral".to_string(), 4)]);
    assert_eq!(snap.per_tenant, vec![("acme".to_string(), 3)]);
    assert_eq!(snap.per_user, vec![("alice".to_string(), 7)]);
    assert_eq!(snap.per_api_key, vec![("key-1".to_string(), 3)]);
    assert_eq!(snap.limit_global, Some(100 * USD));
    assert_eq!(l.user_limit("alice"), Some(USD));
    assert_eq!(l.user_limit("bob"), None);
    assert_eq!(l.api_key_limit("key-1"), None);
    assert_eq!(l.tenant_limit("acme"), None);
    let later = l.snapshot(4000);
    assert_eq!(later.global_spend_mc, 0);
    assert_eq!(later.per_model, vec![("gpt-4".to_string(), 0), ("mistral".to_string(), 0)]);
}

#[test]
fn ledger_from_config_enforces_global_and_model_caps() {
    let mut config = BudgetConfig::new();
    config.global_limit_mc = Some(10 * USD);
    config.set_model_limit("gpt-4", 2 * USD);
    let mut ledger = InMemoryBudgetLedger::from_config(config, 0);
    assert!(matches!(ledger.check(&ctx("gpt-4", None, 1)), BudgetVerdict::Allow));
    ledger.record("gpt-4", None, None, None, 2 * USD, 1);
    match ledger.check(&ctx("gpt-4", None, 2)) {
        BudgetVerdict::Reject { dimension, .. } => assert!(matches!(dimension, BudgetDimension::Model(m) if m == "gpt-4")),
        other => panic!("unexpected {other:?}"),
    }
    assert!(matches!(ledger.check(&ctx("gpt-3.5", None, 2)), BudgetVerdict::Allow));
    ledger.record("gpt-3.5", None, None, None, 8 * USD, 3);
    match ledger.check(&ctx("gpt-3.5", None, 4)) {
        BudgetVerdict::Reject { dimension, .. } => assert!(matches!(dimension, BudgetDimension::Global)),
        other => panic!("unexpected {other:?}"),
    }
    // After the 30-day window the spend starts over.
    assert!(matches!(ledger.check(&ctx("gpt-4", None, 2_600_000)), BudgetVerdict::Allow));
}

#[test]
fn hedge_pairs_follow_limited_dimensions() {
    let mut l = ledger_with_limits();
    l.record("gpt-4", Some("acme"), Some("alice"), Some("key-1"), 3, 0);
    let call = CostCheckContext {
        model: "gpt-4",
        provider: "openai",
        tenant_id: Some("acme"),
        user_id: Some("alice"),
        api_key_id: Some("key-1"),
        timestamp_secs: 2,
    };
    // Global and user have limits; the API key and tenant have none.
    assert_eq!(l.hedge_budget_pairs(&call), vec![(3, 100 * USD), (3, USD)]);
    let stranger = CostCheckContext { user_id: Some("bob"), ..call };
    assert_eq!(l.hedge_budget_pairs(&stranger), vec![(3, 100 * USD)]);
}
