//! Budget enforcement in micro-dollars (`USD × 10^6`).
//!
//! [`BudgetState`] with [`check_budget`] is the simple global and per-model
//! budget: under hard enforcement a request is refused once the spend has
//! reached a limit.  [`InMemoryBudgetLedger`] tracks spend per dimension
//! (global, model, tenant, user, API key) in fixed windows and checks the
//! dimensions in that order.

use vstd::prelude::*;
use vstd::hash_map::StringHashMap;
use dashmap::DashMap;
use crate::util::dash::{counter_entries, counters_new, counters_get, counters_insert, counters_clear};
use crate::error::LiterLlmError;
use crate::text::{micros_text, micros_decimal};
use crate::tower::window::{SpendWindow, WindowModel, window_at, window_after_add};

verus! {

broadcast use vstd::std_specs::hash::group_hash_axioms;

/// How budget limits are enforced.
#[derive(Debug, Clone, Copy, PartialEq, Eq, Structural)]
pub enum Enforcement {
    /// Refuse requests once a limit is reached.
    Hard,
    /// Let requests through; exceeded limits are only reported.
    Soft,
}

/// The dimension along which a budget rejection was triggered.
#[derive(Debug, Clone)]
pub enum BudgetDimension {
    /// Cumulative spend across all dimensions.
    Global,
    /// Spend for a specific model.
    Model(String),
    /// Spend for a tenant.
    Tenant(String),
    /// Spend for an end-user.
    User(String),
    /// Spend for an API key.
    ApiKey(String),
}

/// Decision of a ledger check.
#[derive(Debug, Clone)]
pub enum BudgetVerdict {
    /// The request may proceed.
    Allow,
    /// The request is refused because a limit was reached.
    Reject { reason: String, dimension: BudgetDimension },
}

/// `a + b` modulo 2^64, as an atomic counter adds.
pub open spec fn wrap_add(a: nat, b: nat) -> nat {
    (a + b) % 0x1_0000_0000_0000_0000
}

/// Message when the global budget is exhausted.
pub open spec fn global_exceeded_message(spend: nat, limit: nat) -> Seq<char> {
    "global budget exceeded: spent $"@ + micros_text(spend) + ", limit $"@ + micros_text(limit)
}

/// Message when a model's budget is exhausted.
pub open spec fn model_exceeded_message(model: Seq<char>, spend: nat, limit: nat) -> Seq<char> {
    "model "@ + model + " budget exceeded: spent $"@ + micros_text(spend) + ", limit $"@ + micros_text(limit)
}

/// Global and per-model limits in micro-dollars.
pub struct BudgetConfig {
    /// Cap on total spend; `None` is unlimited.
    pub global_limit_mc: Option<u64>,
    /// Caps per model name.
    pub model_limits_mc: StringHashMap<u64>,
    /// Hard or soft enforcement.
    pub enforcement: Enforcement,
}

impl BudgetConfig {
    /// No limits, hard enforcement.
    pub fn new() -> (c: Self)
        ensures
            c.global_limit_mc is None,
            c.model_limits_mc@ == Map::<Seq<char>, u64>::empty(),
            c.enforcement == Enforcement::Hard,
    {
        BudgetConfig { global_limit_mc: None, model_limits_mc: StringHashMap::new(), enforcement: Enforcement::Hard }
    }

    /// Set the cap for `model`.
    pub fn set_model_limit(&mut self, model: &str, limit_mc: u64)
        ensures
            final(self).model_limits_mc@ == old(self).model_limits_mc@.insert(model@, limit_mc),
            final(self).global_limit_mc == old(self).global_limit_mc,
            final(self).enforcement == old(self).enforcement,
    {
        self.model_limits_mc.insert(String::from_str(model), limit_mc);
    }
}

/// Accumulated spend, global and per model.
pub struct BudgetState {
    global_mc: u64,
    model_mc: DashMap<String, u64>,
}

impl BudgetState {
    /// Total spend.
    pub closed spec fn spec_global(&self) -> nat {
        self.global_mc as nat
    }

    /// Spend per model seen so far.
    pub closed spec fn spec_models(&self) -> Map<Seq<char>, u64> {
        counter_entries(self.model_mc)
    }

    /// Spend of `model` (0 when it was never seen).
    pub open spec fn spec_model_spend(&self, model: Seq<char>) -> nat {
        if self.spec_models().contains_key(model) { self.spec_models()[model] as nat } else { 0 }
    }

    /// A zeroed state.
    pub fn new() -> (s: Self)
        ensures
            s.spec_global() == 0,
            s.spec_models() == Map::<Seq<char>, u64>::empty(),
    {
        let s = BudgetState { global_mc: 0, model_mc: counters_new() };
        assert(s.spec_models() =~= Map::<Seq<char>, u64>::empty());
        s
    }

    /// Total spend.
    pub fn global_spend(&self) -> (mc: u64)
        ensures
            mc == self.spec_global(),
    {
        self.global_mc
    }

    /// Spend of `model` (0 when it was never seen).
    pub fn model_spend(&self, model: &str) -> (mc: u64)
        ensures
            mc == self.spec_model_spend(model@),
    {
        match counters_get(&self.model_mc, model) {
            Some(v) => v,
            None => 0,
        }
    }

    /// Reset all counters to zero.
    pub fn reset(&mut self)
        ensures
            final(self).spec_global() == 0,
            final(self).spec_models() == Map::<Seq<char>, u64>::empty(),
    {
        self.global_mc = 0;
        counters_clear(&mut self.model_mc);
        assert(self.spec_models() =~= Map::<Seq<char>, u64>::empty());
    }

    /// Add `mc` to the global and the model's counters (wrapping, as atomic
    /// counters do).
    pub fn record(&mut self, model: &str, mc: u64)
        ensures
            final(self).spec_global() == wrap_add(old(self).spec_global(), mc as nat),
            final(self).spec_models() == old(self).spec_models().insert(model@,
                wrap_add(old(self).spec_model_spend(model@), mc as nat) as u64),
    {
        self.global_mc = self.global_mc.wrapping_add(mc);
        let cur = self.model_spend(model);
        counters_insert(&mut self.model_mc, String::from_str(model), cur.wrapping_add(mc));
    }
}

/// What the budget check answers for `model`: the global limit is checked
/// first, then the model's; `None` when neither is reached.
pub open spec fn is_budget_verdict(config: &BudgetConfig, state: &BudgetState, model: Seq<char>, r: Option<LiterLlmError>) -> bool {
    if config.global_limit_mc matches Some(limit) && state.spec_global() >= limit {
        r matches Some(LiterLlmError::BudgetExceeded { message, model: m }) && m is None
            && message@ == global_exceeded_message(state.spec_global(), config.global_limit_mc->0 as nat)
    } else if config.model_limits_mc@.contains_key(model) && state.spec_model_spend(model) >= config.model_limits_mc@[model] {
        r matches Some(LiterLlmError::BudgetExceeded { message, model: m }) && m matches Some(name)
            && name@ == model
            && message@ == model_exceeded_message(model, state.spec_model_spend(model), config.model_limits_mc@[model] as nat)
    } else {
        r is None
    }
}

/// The budget error for `model` under hard enforcement, if any.
pub fn check_budget(config: &BudgetConfig, state: &BudgetState, model: &str) -> (r: Option<LiterLlmError>)
    ensures
        is_budget_verdict(config, state, model@, r),
{
    if let Some(limit) = config.global_limit_mc {
        let spend = state.global_spend();
        if spend >= limit {
            let mut message = String::from_str("global budget exceeded: spent $");
            let a = micros_decimal(spend);
            message.append(a.as_str());
            message.append(", limit $");
            let b = micros_decimal(limit);
            message.append(b.as_str());
            proof {
                reveal_strlit("global budget exceeded: spent $");
                reveal_strlit(", limit $");
                assert(message@ =~= global_exceeded_message(spend as nat, limit as nat));
            }
            return Some(LiterLlmError::BudgetExceeded { message, model: None });
        }
    }
    match config.model_limits_mc.get(model) {
        Some(limit) => {
            let limit = *limit;
            let spend = state.model_spend(model);
            if spend >= limit {
                let mut message = String::from_str("model ");
                message.append(model);
                message.append(" budget exceeded: spent $");
                let a = micros_decimal(spend);
                message.append(a.as_str());
                message.append(", limit $");
                let b = micros_decimal(limit);
                message.append(b.as_str());
                proof {
                    reveal_strlit("model ");
                    reveal_strlit(" budget exceeded: spent $");
                    reveal_strlit(", limit $");
                    assert(message@ =~= model_exceeded_message(model@, spend as nat, limit as nat));
                }
                return Some(LiterLlmError::BudgetExceeded { message, model: Some(String::from_str(model)) });
            }
            None
        },
        None => None,
    }
}

/// Which limits are exceeded after recording, for soft enforcement's
/// warnings: `(global, model)`.
pub fn soft_warnings(config: &BudgetConfig, state: &BudgetState, model: &str) -> (r: (bool, bool))
    ensures
        r.0 == (config.global_limit_mc matches Some(limit) && state.spec_global() >= limit),
        r.1 == (config.model_limits_mc@.contains_key(model@) && state.spec_model_spend(model@) >= config.model_limits_mc@[model@]),
{
    let global = match config.global_limit_mc {
        Some(limit) => state.global_spend() >= limit,
        None => false,
    };
    let per_model = match config.model_limits_mc.get(model) {
        Some(limit) => state.model_spend(model) >= *limit,
        None => false,
    };
    (global, per_model)
}

/// Pre-flight decision of the budget service: under hard enforcement the
/// request is refused with [`check_budget`]'s error; soft enforcement never
/// refuses.
pub fn budget_preflight(config: &BudgetConfig, state: &BudgetState, model: &str) -> (r: Option<LiterLlmError>)
    ensures
        config.enforcement == Enforcement::Soft ==> r is None,
        config.enforcement == Enforcement::Hard ==> is_budget_verdict(config, state, model@, r),
{
    if config.enforcement == Enforcement::Hard {
        check_budget(config, state, model)
    } else {
        None
    }
}

/// A refused request stays refused: once the global spend has reached the
/// global limit, every model is refused under hard enforcement until the
/// state is reset, however much more is recorded (short of the 2^64 wrap).
pub proof fn law_budget_exceeded_stays_exceeded(spend: nat, limit: nat, more: nat)
    requires
        spend >= limit,
        spend + more < 0x1_0000_0000_0000_0000,
    ensures
        wrap_add(spend, more) >= limit,
{
}

} // verus!
