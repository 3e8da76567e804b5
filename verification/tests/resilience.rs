use std::sync::Arc;

use liter_llm::error::LiterLlmError;
use liter_llm::tower::circuit::{
    circuit_gate, circuit_observe, CircuitLayer, CircuitPolicy, CircuitState, ExponentialBackoffCircuit,
};
use liter_llm::tower::cooldown::{CooldownLayer, CooldownState};
use liter_llm::tower::error::{CircuitOpenError, HedgeExhaustedError};
use liter_llm::tower::fallback::{fallback_after_primary, FallbackLayer, FallbackStep};
use liter_llm::tower::fallback_chain::{
    chain_next, chain_start, ChainStep, DefaultRetryPolicy, FallbackChainLayer, RetryClass, RetryPolicy,
};
use liter_llm::tower::hedge::{next_hedge_delay, FixedDelayHedge, HedgeEvent, HedgeLayer, HedgePolicy, HedgeRace};

fn timeout() -> LiterLlmError {
    LiterLlmError::Timeout
}

fn auth() -> LiterLlmError {
    LiterLlmError::Authentication { message: "bad key".to_string() }
}

#[test]
fn circuit_state_byte_round_trip() {
    for s in [CircuitState::Closed, CircuitState::Open, CircuitState::HalfOpen] {
        assert_eq!(CircuitState::from_u8(s.as_u8()), s);
    }
    assert_eq!(CircuitState::from_u8(7), CircuitState::Closed);
}

#[test]
fn circuit_opens_after_threshold_and_backs_off() {
    let mut c = ExponentialBackoffCircuit::new(3, 1000);
    c.record_failure(10);
    c.record_failure(20);
    assert_eq!(c.state(), CircuitState::Closed);
    assert!(c.should_allow());
    c.record_failure(30);
    assert_eq!(c.state(), CircuitState::Open);
    assert!(!c.should_allow());
    // First opening: backoff is base × 2^1.
    assert_eq!(c.current_backoff_ms(), 2000);
    assert!(!c.maybe_half_open(2029));
    assert!(c.maybe_half_open(2030));
    assert_eq!(c.state(), CircuitState::HalfOpen);
}

#[test]
fn circuit_half_open_failure_reopens_with_longer_backoff() {
    let mut c = ExponentialBackoffCircuit::new(1, 500);
    c.record_failure(0);
    assert_eq!(c.state(), CircuitState::Open);
    assert_eq!(c.current_backoff_ms(), 1000);
    assert!(c.maybe_half_open(1000));
    c.record_failure(1000);
    assert_eq!(c.state(), CircuitState::Open);
    assert_eq!(c.current_backoff_ms(), 2000);
    c.record_success();
    assert_eq!(c.state(), CircuitState::Closed);
}

#[test]
fn circuit_backoff_is_capped() {
    let mut c = ExponentialBackoffCircuit::new(1, 100_000);
    c.record_failure(0);
    assert_eq!(c.current_backoff_ms(), 120_000);
}

#[test]
fn circuit_gate_rejects_when_open() {
    let mut c = ExponentialBackoffCircuit::new(1, 1000);
    assert!(circuit_gate(&mut c, "openai").is_ok());
    c.record_failure(5);
    match circuit_gate(&mut c, "openai") {
        Err(LiterLlmError::ServiceUnavailable { message, status }) => {
            assert_eq!(status, 503);
            assert_eq!(message, "circuit breaker open for provider 'openai'");
        }
        other => panic!("unexpected {other:?}"),
    }
}

#[test]
fn circuit_half_open_lets_one_probe_through() {
    let mut c = ExponentialBackoffCircuit::new(1, 500);
    c.record_failure(0);
    assert!(c.maybe_half_open(1000));
    assert!(c.should_allow());
    assert!(circuit_gate(&mut c, "openai").is_ok());
    // The probe is pending: every other request is rejected.
    assert!(!c.should_allow());
    assert!(circuit_gate(&mut c, "openai").is_err());
    assert!(circuit_gate(&mut c, "openai").is_err());
    // A non-counted outcome frees the probe slot; a success closes the circuit.
    let r: Result<(), LiterLlmError> = Err(auth());
    circuit_observe(&mut c, &r, 1000);
    assert_eq!(c.state(), CircuitState::HalfOpen);
    assert!(circuit_gate(&mut c, "openai").is_ok());
    let ok: Result<(), LiterLlmError> = Ok(());
    circuit_observe(&mut c, &ok, 1001);
    assert_eq!(c.state(), CircuitState::Closed);
    assert!(circuit_gate(&mut c, "openai").is_ok());
    assert!(circuit_gate(&mut c, "openai").is_ok());
}

#[test]
fn circuit_observe_ignores_terminal_errors() {
    let mut c = ExponentialBackoffCircuit::new(1, 1000);
    let r: Result<(), LiterLlmError> = Err(auth());
    circuit_observe(&mut c, &r, 0);
    assert_eq!(c.state(), CircuitState::Closed);
    let r: Result<(), LiterLlmError> = Err(timeout());
    circuit_observe(&mut c, &r, 0);
    assert_eq!(c.state(), CircuitState::Open);
    let ok: Result<(), LiterLlmError> = Ok(());
    circuit_observe(&mut c, &ok, 0);
    assert_eq!(c.state(), CircuitState::Closed);
}

#[test]
fn circuit_layer_shares_policy() {
    let layer = CircuitLayer::new(Arc::new(ExponentialBackoffCircuit::new(2, 10)), "anthropic".to_string());
    assert_eq!(layer.provider(), "anthropic");
    let svc = layer.layer(42u8);
    assert_eq!(svc.inner, 42);
    assert_eq!(svc.provider, "anthropic");
}

#[test]
fn cooldown_rejects_within_window_then_clears() {
    let layer = CooldownLayer::new(1500);
    assert_eq!(layer.duration_ms(), 1500);
    let mut st = CooldownState::new();
    assert!(st.gate(1500, 0).is_ok());
    let err: Result<(), LiterLlmError> = Err(timeout());
    st.observe(&err, 100);
    assert_eq!(st.start_ms(), Some(100));
    match st.gate(1500, 1599) {
        Err(LiterLlmError::ServiceUnavailable { message, status }) => {
            assert_eq!(status, 503);
            // 1.5 s renders as "2" (ties to even).
            assert_eq!(message, "service is cooling down for 2s after a transient error");
        }
        other => panic!("unexpected {other:?}"),
    }
    assert!(st.gate(1500, 1600).is_ok());
    assert_eq!(st.start_ms(), None);
}

#[test]
fn cooldown_ignores_non_transient_errors() {
    let mut st = CooldownState::new();
    let err: Result<(), LiterLlmError> = Err(auth());
    st.observe(&err, 10);
    assert_eq!(st.start_ms(), None);
}

#[test]
fn fallback_only_on_transient_errors() {
    assert!(matches!(fallback_after_primary::<u8>(Err(timeout())), FallbackStep::TryFallback));
    assert!(matches!(
        fallback_after_primary::<u8>(Err(auth())),
        FallbackStep::Return(Err(LiterLlmError::Authentication { .. }))
    ));
    assert!(matches!(fallback_after_primary::<u8>(Ok(3)), FallbackStep::Return(Ok(3))));
    let svc = FallbackLayer::new(9u8).layer(1u8);
    assert_eq!(svc.primary, 1);
    assert_eq!(svc.fallback, 9);
}

#[test]
fn retry_policy_classifies_by_transience() {
    let p = DefaultRetryPolicy;
    assert_eq!(p.classify(&timeout()), RetryClass::Transient);
    assert_eq!(p.classify(&LiterLlmError::RateLimited { message: String::new(), retry_after_ms: None }), RetryClass::Transient);
    assert_eq!(p.classify(&auth()), RetryClass::Terminal);
    assert_eq!(
        p.classify(&LiterLlmError::BadRequest { message: String::new(), status: 400 }),
        RetryClass::Terminal
    );
}

#[test]
fn fallback_chain_empty_returns_server_error() {
    match chain_start::<u8>(0) {
        ChainStep::Done(Err(LiterLlmError::ServerError { message, status })) => {
            assert_eq!(status, 500);
            assert_eq!(message, "fallback chain is empty");
        }
        _ => panic!("empty chain must fail"),
    }
    assert!(matches!(chain_start::<u8>(2), ChainStep::Try(0)));
}

#[test]
fn fallback_chain_walk_advances_and_aborts() {
    let p = DefaultRetryPolicy;
    // Transient on the first of three: try the second.
    assert!(matches!(chain_next::<_, u8>(&p, 3, 0, Err(timeout())), ChainStep::Try(1)));
    // Terminal error aborts at once.
    assert!(matches!(
        chain_next::<_, u8>(&p, 3, 0, Err(auth())),
        ChainStep::Done(Err(LiterLlmError::Authentication { .. }))
    ));
    // Success ends the walk.
    assert!(matches!(chain_next(&p, 3, 1, Ok(7u8)), ChainStep::Done(Ok(7))));
    // The last transient error is returned when the chain is exhausted.
    assert!(matches!(chain_next::<_, u8>(&p, 3, 2, Err(timeout())), ChainStep::Done(Err(LiterLlmError::Timeout))));
}

#[test]
fn fallback_chain_prepend_inserts_at_head() {
    let layer = FallbackChainLayer::new(vec![2u8, 3u8]).prepend(1u8);
    let svc = layer.layer();
    assert_eq!(svc.len(), 3);
    assert_eq!(*svc.service(0), 1);
    assert_eq!(*svc.service(1), 2);
    assert_eq!(*svc.service(2), 3);
    // A chain shared with an existing service is copied, not changed under it.
    let shared = FallbackChainLayer::new(vec![5u8]);
    let before = shared.layer();
    let grown = shared.prepend(4u8).layer();
    assert_eq!(before.len(), 1);
    assert_eq!(grown.len(), 2);
    assert_eq!(*grown.service(0), 4);
}

#[test]
fn fallback_chain_with_custom_policy() {
    struct AllTerminal;
    impl RetryPolicy for AllTerminal {
        fn spec_classify(&self, _error: LiterLlmError) -> RetryClass {
            RetryClass::Terminal
        }
        fn classify(&self, _error: &LiterLlmError) -> RetryClass {
            RetryClass::Terminal
        }
    }
    let layer = FallbackChainLayer::with_policy(vec![1u8, 2u8], AllTerminal);
    let svc = layer.layer();
    assert!(matches!(
        chain_next::<_, u8>(svc.policy(), svc.len(), 0, Err(timeout())),
        ChainStep::Done(Err(LiterLlmError::Timeout))
    ));
}

#[test]
fn fixed_delay_hedge_policy_respects_max_attempts() {
    let policy = FixedDelayHedge::new(100, 3);
    assert_eq!(policy.delay_for_attempt(1, 0), Some(0));
    assert_eq!(policy.delay_for_attempt(2, 0), Some(100));
    assert_eq!(policy.delay_for_attempt(3, 0), Some(200));
    assert_eq!(policy.delay_for_attempt(4, 0), None);
    assert_eq!(policy.max_attempts(), 3);
    assert_eq!(FixedDelayHedge::new(5, 0).max_attempts(), 1);
    assert_eq!(FixedDelayHedge::new(u64::MAX, 3).delay_for_attempt(3, 0), Some(u64::MAX));
}

#[test]
fn hedge_schedule_stops_after_cap() {
    let policy = FixedDelayHedge::new(50, 2);
    assert_eq!(next_hedge_delay(&policy, 2, 0), Some(50));
    assert_eq!(next_hedge_delay(&policy, 3, 0), None);
    let layer = HedgeLayer::new(Arc::new(policy));
    let svc = layer.layer(0u8);
    assert_eq!(svc.policy.max_attempts(), 2);
}

#[test]
fn hedge_race_first_success_wins() {
    let mut race = HedgeRace::new();
    assert_eq!(race.observe::<u8>(HedgeEvent::Finished(Err(timeout()))), None);
    assert_eq!(race.observe::<u8>(HedgeEvent::Cancelled), None);
    assert_eq!(race.observe(HedgeEvent::Finished(Ok(5u8))), Some(5));
}

#[test]
fn hedge_race_all_failures_return_last_error() {
    let mut race = HedgeRace::new();
    race.observe::<u8>(HedgeEvent::Finished(Err(auth())));
    race.observe::<u8>(HedgeEvent::Finished(Err(timeout())));
    assert!(matches!(race.finish(), LiterLlmError::Timeout));

    let mut race = HedgeRace::new();
    race.observe::<u8>(HedgeEvent::Panicked("boom".to_string()));
    match race.finish() {
        LiterLlmError::InternalError { message } => assert_eq!(message, "hedge task panicked: boom"),
        other => panic!("unexpected {other:?}"),
    }
    match HedgeRace::new().finish() {
        LiterLlmError::InternalError { message } => {
            assert_eq!(message, "all hedged attempts failed with no error recorded")
        }
        other => panic!("unexpected {other:?}"),
    }
}

#[test]
fn layer_errors_convert() {
    let e = CircuitOpenError { provider: "openai".to_string(), retry_after_ms: 1500 };
    assert_eq!(e.message(), "circuit open for provider openai: retry after 1.5s");
    match e.into_error() {
        LiterLlmError::InternalError { message } => {
            assert_eq!(message, "circuit open for provider openai: retry after 1.5s");
        }
        other => panic!("unexpected {other:?}"),
    }
    let h = HedgeExhaustedError { attempts: 3 };
    assert_eq!(h.message(), "all 3 hedged attempts exhausted");
    match h.into_error() {
        LiterLlmError::InternalError { message } => assert_eq!(message, "all 3 hedged attempts exhausted"),
        other => panic!("unexpected {other:?}"),
    }
}
