//! Per-model request/token rate limiting over fixed windows, and cost-based
//! rate limiting over minute, hour and day windows.
//!
//! Times are supplied by the caller: milliseconds on a monotonic clock for
//! the request/token limiter, Unix seconds for the cost limiter.

use vstd::prelude::*;
use vstd::string::*;
use dashmap::DashMap;
use crate::util::dash::{rate_entries, rates_new, rates_get, rates_insert};
use crate::error::LiterLlmError;
use crate::text::{decimal_text, u64_decimal, micros_text, micros_decimal, rounded_secs, rounded_secs_exec};
use crate::tower::window::{SpendWindow, WindowModel, window_at, window_after_add};

verus! {

/// Configuration for per-model rate limits.
#[derive(Debug, Clone, Copy, PartialEq, Eq, Structural)]
pub struct RateLimitConfig {
    /// Maximum requests per window; `None` means unlimited.
    pub rpm: Option<u32>,
    /// Maximum tokens per window; `None` means unlimited.
    pub tpm: Option<u64>,
    /// Fixed window length in milliseconds (default 60 s).
    pub window_ms: u64,
}

impl Default for RateLimitConfig {
    /// Unlimited, with a 60-second window.
    fn default() -> (c: Self)
        ensures
            c == (RateLimitConfig { rpm: None, tpm: None, window_ms: 60000 }),
    {
        RateLimitConfig { rpm: None, tpm: None, window_ms: 60000 }
    }
}

/// Per-model counters for the current window.
#[derive(Debug, Clone, Copy, PartialEq, Eq, Structural)]
pub struct ModelRateState {
    /// Requests admitted in the current window.
    pub request_count: u64,
    /// Tokens consumed in the current window.
    pub token_count: u64,
    /// Start of the current window.
    pub window_start_ms: u64,
}

/// The counters as seen at `now`: zeroed and restarted if the window elapsed.
pub open spec fn rate_state_at(s: ModelRateState, window_ms: u64, now: u64) -> ModelRateState {
    if (if now >= s.window_start_ms { now - s.window_start_ms } else { 0 }) >= window_ms {
        ModelRateState { request_count: 0, token_count: 0, window_start_ms: now }
    } else {
        s
    }
}

impl ModelRateState {
    /// Empty counters for a window starting at `now_ms`.
    pub fn new(now_ms: u64) -> (s: Self)
        ensures
            s == (ModelRateState { request_count: 0, token_count: 0, window_start_ms: now_ms }),
    {
        ModelRateState { request_count: 0, token_count: 0, window_start_ms: now_ms }
    }

    /// Reset the counters if the current window has elapsed at `now_ms`.
    pub fn maybe_reset(&mut self, window_ms: u64, now_ms: u64)
        ensures
            *final(self) == rate_state_at(*old(self), window_ms, now_ms),
    {
        if now_ms.saturating_sub(self.window_start_ms) >= window_ms {
            self.request_count = 0;
            self.token_count = 0;
            self.window_start_ms = now_ms;
        }
    }
}

/// `a + b` saturated at `u64::MAX`.
pub open spec fn sat_add(a: nat, b: nat) -> nat {
    if a + b > u64::MAX { u64::MAX as nat } else { a + b }
}

/// Why a request was rate limited.
pub enum RateRejection {
    /// The request-per-window limit was reached.
    Requests,
    /// The token-per-window limit was reached.
    Tokens,
}

/// The counters a pre-flight check starts from: the model's entry if it has
/// one, fresh counters otherwise, as seen at `now`.
pub open spec fn preflight_start(m: Map<Seq<char>, ModelRateState>, config: RateLimitConfig, model: Seq<char>, now: u64) -> ModelRateState {
    let base = if m.contains_key(model) {
        m[model]
    } else {
        ModelRateState { request_count: 0, token_count: 0, window_start_ms: now }
    };
    rate_state_at(base, config.window_ms, now)
}

/// The verdict of a pre-flight check on counters `s`.
pub open spec fn preflight_verdict(s: ModelRateState, config: RateLimitConfig) -> Option<RateRejection> {
    if config.rpm matches Some(rpm) && s.request_count >= rpm {
        Some(RateRejection::Requests)
    } else if config.tpm matches Some(tpm) && s.token_count >= tpm {
        Some(RateRejection::Tokens)
    } else {
        None
    }
}

/// The counters stored after a pre-flight check: an admitted request is counted.
pub open spec fn preflight_after(s: ModelRateState, config: RateLimitConfig) -> ModelRateState {
    if preflight_verdict(s, config) is Some {
        s
    } else {
        ModelRateState { request_count: sat_add(s.request_count as nat, 1) as u64, ..s }
    }
}

/// The message of a request-limit rejection.
pub open spec fn rpm_message(model: Seq<char>, rpm: nat, window_ms: nat) -> Seq<char> {
    "model "@ + model + " exceeded "@ + decimal_text(rpm) + " requests per "@
        + decimal_text(rounded_secs(window_ms)) + "s window"@
}

/// The message of a token-limit rejection.
pub open spec fn tpm_message(model: Seq<char>, tpm: nat, window_ms: nat) -> Seq<char> {
    "model "@ + model + " exceeded "@ + decimal_text(tpm) + " tokens per "@
        + decimal_text(rounded_secs(window_ms)) + "s window"@
}

/// Per-model fixed-window limiter: the shared state behind the rate-limit layer.
pub struct ModelRateLimiter {
    config: RateLimitConfig,
    state: DashMap<String, ModelRateState>,
}

impl ModelRateLimiter {
    /// The configuration.
    pub closed spec fn spec_config(&self) -> RateLimitConfig {
        self.config
    }

    /// Counters per model name.
    pub closed spec fn spec_state(&self) -> Map<Seq<char>, ModelRateState> {
        rate_entries(self.state)
    }

    /// A limiter with no tracked models.
    pub fn new(config: RateLimitConfig) -> (l: Self)
        ensures
            l.spec_config() == config,
            l.spec_state() == Map::<Seq<char>, ModelRateState>::empty(),
    {
        let l = ModelRateLimiter { config, state: rates_new() };
        assert(l.spec_state() =~= Map::<Seq<char>, ModelRateState>::empty());
        l
    }

    /// The configuration.
    pub fn config(&self) -> (c: RateLimitConfig)
        ensures
            c == self.spec_config(),
    {
        self.config
    }

    /// The counters of `model`, if it is tracked.
    pub fn counters(&self, model: &str) -> (r: Option<ModelRateState>)
        ensures
            r == (if self.spec_state().contains_key(model@) { Some(self.spec_state()[model@]) } else { None }),
    {
        rates_get(&self.state, model)
    }

    /// Pre-flight check for a request to `model` at `now_ms`.
    ///
    /// The model's counters are created if absent and reset if their window
    /// elapsed.  The request is rejected when the request count, or else the
    /// token count, has reached its limit; otherwise it is counted and admitted.
    pub fn pre_flight(&mut self, model: &str, now_ms: u64) -> (r: Result<(), LiterLlmError>)
        ensures
            final(self).spec_config() == old(self).spec_config(),
            ({
                let s = preflight_start(old(self).spec_state(), old(self).spec_config(), model@, now_ms);
                let cfg = old(self).spec_config();
                &&& final(self).spec_state() == old(self).spec_state().insert(model@, preflight_after(s, cfg))
                &&& (r is Ok <==> preflight_verdict(s, cfg) is None)
                &&& (preflight_verdict(s, cfg) == Some(RateRejection::Requests) ==>
                    (r matches Err(LiterLlmError::RateLimited { message, retry_after_ms })
                        && retry_after_ms == Some(cfg.window_ms)
                        && message@ == rpm_message(model@, cfg.rpm->0 as nat, cfg.window_ms as nat)))
                &&& (preflight_verdict(s, cfg) == Some(RateRejection::Tokens) ==>
                    (r matches Err(LiterLlmError::RateLimited { message, retry_after_ms })
                        && retry_after_ms == Some(cfg.window_ms)
                        && message@ == tpm_message(model@, cfg.tpm->0 as nat, cfg.window_ms as nat)))
            }),
    {
        let mut entry = match rates_get(&self.state, model) {
            Some(s) => s,
            None => ModelRateState::new(now_ms),
        };
        entry.maybe_reset(self.config.window_ms, now_ms);
        let window_ms = self.config.window_ms;
        if let Some(rpm) = self.config.rpm {
            if entry.request_count >= rpm as u64 {
                rates_insert(&mut self.state, String::from_str(model), entry);
                let mut message = String::from_str("model ");
                message.append(model);
                message.append(" exceeded ");
                let n = u64_decimal(rpm as u64);
                message.append(n.as_str());
                message.append(" requests per ");
                let secs = u64_decimal(rounded_secs_exec(window_ms));
                message.append(secs.as_str());
                message.append("s window");
                proof {
                    reveal_strlit("model ");
                    reveal_strlit(" exceeded ");
                    reveal_strlit(" requests per ");
                    reveal_strlit("s window");
                    assert(message@ =~= rpm_message(model@, rpm as nat, window_ms as nat));
                }
                return Err(LiterLlmError::RateLimited { message, retry_after_ms: Some(window_ms) });
            }
        }
        if let Some(tpm) = self.config.tpm {
            if entry.token_count >= tpm {
                rates_insert(&mut self.state, String::from_str(model), entry);
                let mut message = String::from_str("model ");
                message.append(model);
                message.append(" exceeded ");
                let n = u64_decimal(tpm);
                message.append(n.as_str());
                message.append(" tokens per ");
                let secs = u64_decimal(rounded_secs_exec(window_ms));
                message.append(secs.as_str());
                message.append("s window");
                proof {
                    reveal_strlit("model ");
                    reveal_strlit(" exceeded ");
                    reveal_strlit(" tokens per ");
                    reveal_strlit("s window");
                    assert(message@ =~= tpm_message(model@, tpm as nat, window_ms as nat));
                }
                return Err(LiterLlmError::RateLimited { message, retry_after_ms: Some(window_ms) });
            }
        }
        entry.request_count = entry.request_count.saturating_add(1);
        rates_insert(&mut self.state, String::from_str(model), entry);
        Ok(())
    }

    /// Post-flight accounting: add the response's `total_tokens` to a tracked
    /// model's window (reset first if it elapsed); untracked models are ignored.
    pub fn post_flight(&mut self, model: &str, total_tokens: u64, now_ms: u64)
        ensures
            final(self).spec_config() == old(self).spec_config(),
            old(self).spec_state().contains_key(model@) ==> ({
                let s = rate_state_at(old(self).spec_state()[model@], old(self).spec_config().window_ms, now_ms);
                final(self).spec_state() == old(self).spec_state().insert(model@,
                    ModelRateState { token_count: sat_add(s.token_count as nat, total_tokens as nat) as u64, ..s })
            }),
            !old(self).spec_state().contains_key(model@) ==> final(self).spec_state() == old(self).spec_state(),
    {
        let current = rates_get(&self.state, model);
        if let Some(mut entry) = current {
            entry.maybe_reset(self.config.window_ms, now_ms);
            entry.token_count = entry.token_count.saturating_add(total_tokens);
            rates_insert(&mut self.state, String::from_str(model), entry);
        }
    }
}

/// Models are limited independently: a check or an accounting step for one
/// model leaves every other model's counters as they were.
pub proof fn law_rate_limit_models_independent(
    m: Map<Seq<char>, ModelRateState>,
    config: RateLimitConfig,
    model: Seq<char>,
    other: Seq<char>,
    now: u64,
)
    requires
        model != other,
    ensures
        m.insert(model, preflight_after(preflight_start(m, config, model, now), config)).contains_key(other)
            == m.contains_key(other),
        m.contains_key(other) ==> m.insert(model, preflight_after(preflight_start(m, config, model, now), config))[other]
            == m[other],
{
}

/// Within one window no more than `rpm` requests are admitted: once the
/// count reaches the limit every further request is rejected and the count
/// stays put, and a count at or below the limit stays at or below it.
pub proof fn law_rate_limit_rpm_bound(s: ModelRateState, config: RateLimitConfig, rpm: u32)
    requires
        config.rpm == Some(rpm),
        s.request_count <= rpm,
    ensures
        preflight_after(s, config).request_count <= rpm,
        s.request_count == rpm ==> preflight_verdict(s, config) == Some(RateRejection::Requests),
        preflight_verdict(s, config) is None ==> preflight_after(s, config).request_count == s.request_count + 1,
{
}

/// Once the window has elapsed the counters start from zero again, so a
/// model that was rejected is admitted in the next window (if its limits
/// are positive).
pub proof fn law_rate_limit_window_resets(s: ModelRateState, config: RateLimitConfig, now: u64)
    requires
        now >= s.window_start_ms + config.window_ms,
        config.rpm matches Some(r) ==> r > 0,
        config.tpm matches Some(t) ==> t > 0,
    ensures
        rate_state_at(s, config.window_ms, now).request_count == 0,
        rate_state_at(s, config.window_ms, now).token_count == 0,
        preflight_verdict(rate_state_at(s, config.window_ms, now), config) is None,
{
}

// ─── Cost-based limiting ─────────────────────────────────────────────────────

/// Cost limits in micro-dollars per window; `None` means unlimited.
#[derive(Debug, Clone, Copy, PartialEq, Eq, Structural)]
pub struct CostLimitsMc {
    /// Limit per 60-second window.
    pub per_minute: Option<u64>,
    /// Limit per 3600-second window.
    pub per_hour: Option<u64>,
    /// Limit per 86400-second window.
    pub per_day: Option<u64>,
}

/// The message of a cost-limit rejection.
pub open spec fn cost_message(spend_mc: nat, limit_mc: nat, period: Seq<char>) -> Seq<char> {
    "cost rate limit exceeded: $"@ + micros_text(spend_mc) + " >= $"@ + micros_text(limit_mc) + " per "@ + period
}

/// The three spend windows behind the cost-rate-limit layer.
pub struct CostRateLimitState {
    per_minute: SpendWindow,
    per_hour: SpendWindow,
    per_day: SpendWindow,
}

/// Abstract state of a [`CostRateLimitState`].
pub struct CostModel {
    /// The 60-second window.
    pub minute: WindowModel,
    /// The 3600-second window.
    pub hour: WindowModel,
    /// The 86400-second window.
    pub day: WindowModel,
}

/// The verdict of a cost check: the first window (minute, hour, day) whose
/// spend at `now` has reached its limit, with that spend and limit.
pub open spec fn cost_verdict(c: CostModel, limits: CostLimitsMc, now: nat) -> Option<(nat, nat, nat)> {
    let m = window_at(c.minute, now).spend_mc;
    let h = window_at(c.hour, now).spend_mc;
    let d = window_at(c.day, now).spend_mc;
    if limits.per_minute is Some && m >= limits.per_minute->0 {
        Some((m, limits.per_minute->0 as nat, 60))
    } else if limits.per_hour is Some && h >= limits.per_hour->0 {
        Some((h, limits.per_hour->0 as nat, 3600))
    } else if limits.per_day is Some && d >= limits.per_day->0 {
        Some((d, limits.per_day->0 as nat, 86400))
    } else {
        None
    }
}

/// The name of the period of a window length.
pub open spec fn period_name(secs: nat) -> Seq<char> {
    if secs == 60 { "minute"@ } else if secs == 3600 { "hour"@ } else { "day"@ }
}

impl View for CostRateLimitState {
    type V = CostModel;

    closed spec fn view(&self) -> CostModel {
        CostModel { minute: self.per_minute@, hour: self.per_hour@, day: self.per_day@ }
    }
}

impl CostRateLimitState {
    /// Empty minute, hour and day windows starting at `now_secs`.
    pub fn new(now_secs: u64) -> (s: Self)
        ensures
            s@.minute == (WindowModel { spend_mc: 0, start_secs: now_secs as nat, window_secs: 60 }),
            s@.hour == (WindowModel { spend_mc: 0, start_secs: now_secs as nat, window_secs: 3600 }),
            s@.day == (WindowModel { spend_mc: 0, start_secs: now_secs as nat, window_secs: 86400 }),
    {
        CostRateLimitState {
            per_minute: SpendWindow::new(60, now_secs),
            per_hour: SpendWindow::new(3600, now_secs),
            per_day: SpendWindow::new(86400, now_secs),
        }
    }

    /// Pre-flight check: reject when a configured window's spend has reached
    /// its limit, minute first, then hour, then day.  Each window consulted
    /// (those with a limit, up to the first that refuses) is restarted if it
    /// elapsed; the others are left as they were.
    pub fn check(&mut self, limits: &CostLimitsMc, now_secs: u64) -> (r: Option<LiterLlmError>)
        ensures
            r is Some <==> cost_verdict(old(self)@, *limits, now_secs as nat) is Some,
            cost_verdict(old(self)@, *limits, now_secs as nat) matches Some((spend, limit, secs)) ==>
                (r matches Some(LiterLlmError::RateLimited { message, retry_after_ms })
                    && retry_after_ms == Some((secs * 1000) as u64)
                    && message@ == cost_message(spend, limit, period_name(secs))),
            limits.per_minute is Some ==> final(self)@.minute == window_at(old(self)@.minute, now_secs as nat),
            limits.per_minute is None ==> final(self)@.minute == old(self)@.minute,
            ({
                let now = now_secs as nat;
                let c = old(self)@;
                let minute_rejects = limits.per_minute is Some && window_at(c.minute, now).spend_mc >= limits.per_minute->0;
                let hour_read = !minute_rejects && limits.per_hour is Some;
                let hour_rejects = hour_read && window_at(c.hour, now).spend_mc >= limits.per_hour->0;
                let day_read = !minute_rejects && !hour_rejects && limits.per_day is Some;
                &&& final(self)@.hour == (if hour_read { window_at(c.hour, now) } else { c.hour })
                &&& final(self)@.day == (if day_read { window_at(c.day, now) } else { c.day })
            }),
    {
        if let Some(limit) = limits.per_minute {
            let spend = self.per_minute.spend_mc(now_secs);
            if spend >= limit {
                return Some(cost_error(spend, limit, 60));
            }
        }
        if let Some(limit) = limits.per_hour {
            let spend = self.per_hour.spend_mc(now_secs);
            if spend >= limit {
                return Some(cost_error(spend, limit, 3600));
            }
        }
        if let Some(limit) = limits.per_day {
            let spend = self.per_day.spend_mc(now_secs);
            if spend >= limit {
                return Some(cost_error(spend, limit, 86400));
            }
        }
        None
    }

    /// Record the cost of a completed call in all three windows.
    pub fn record(&mut self, mc: u64, now_secs: u64)
        ensures
            final(self)@.minute == window_after_add(old(self)@.minute, mc as nat, now_secs as nat),
            final(self)@.hour == window_after_add(old(self)@.hour, mc as nat, now_secs as nat),
            final(self)@.day == window_after_add(old(self)@.day, mc as nat, now_secs as nat),
    {
        self.per_minute.add_mc(mc, now_secs);
        self.per_hour.add_mc(mc, now_secs);
        self.per_day.add_mc(mc, now_secs);
    }
}

/// The `RateLimited` error for a window of `secs` seconds.
fn cost_error(spend: u64, limit: u64, secs: u64) -> (e: LiterLlmError)
    requires
        secs == 60 || secs == 3600 || secs == 86400,
    ensures
        e matches LiterLlmError::RateLimited { message, retry_after_ms }
            && retry_after_ms == Some((secs * 1000) as u64)
            && message@ == cost_message(spend as nat, limit as nat, period_name(secs as nat)),
{
    let mut message = String::from_str("cost rate limit exceeded: $");
    let s = micros_decimal(spend);
    message.append(s.as_str());
    message.append(" >= $");
    let l = micros_decimal(limit);
    message.append(l.as_str());
    message.append(" per ");
    proof {
        reveal_strlit("cost rate limit exceeded: $");
        reveal_strlit(" >= $");
        reveal_strlit(" per ");
        reveal_strlit("minute");
        reveal_strlit("hour");
        reveal_strlit("day");
    }
    if secs == 60 {
        message.append("minute");
    } else if secs == 3600 {
        message.append("hour");
    } else {
        message.append("day");
    }
    proof {
        assert(message@ =~= cost_message(spend as nat, limit as nat, period_name(secs as nat)));
    }
    LiterLlmError::RateLimited { message, retry_after_ms: Some(secs * 1000) }
}

} // verus!
