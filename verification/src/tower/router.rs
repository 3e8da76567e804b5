//! Provider routing: which deployment a request goes to.
//!
//! A [`Router`] holds one or more deployments and a [`RoutingStrategy`].
//! Round-robin and weighted-random pick one deployment per request; the
//! fallback and cost-based strategies walk the deployments in order
//! (advancing on transient errors, as in
//! [`chain_next`](crate::tower::fallback_chain::chain_next) with the default
//! retry policy); the latency-based strategy picks the deployment whose
//! latency key is lowest (see [`lowest_latency_index`]).

use vstd::prelude::*;
use vstd::std_specs::vecdeque::*;
use vstd::hash_map::StringHashMap;
use std::collections::VecDeque;
use crate::error::LiterLlmError;
use crate::text::{usize_decimal, decimal_text};

verus! {

broadcast use vstd::std_specs::vecdeque::group_vec_dequeue_axioms;

/// An integer traffic weight; 0 means the deployment receives no traffic.
#[derive(Copy, Clone, Debug, PartialEq, Eq, PartialOrd, Ord, Hash, Structural)]
pub struct Weight(pub u32);

impl Weight {
    /// Zero weight: the deployment receives no traffic.
    pub fn zero() -> (w: Weight)
        ensures
            w.0 == 0,
    {
        Weight(0)
    }

    /// The unit weight.
    pub fn one() -> (w: Weight)
        ensures
            w.0 == 1,
    {
        Weight(1)
    }

    /// The largest weight.
    pub fn max_value() -> (w: Weight)
        ensures
            w.0 == u32::MAX,
    {
        Weight(u32::MAX)
    }

    /// The raw value.
    pub fn as_u32(self) -> (v: u32)
        ensures
            v == self.0,
    {
        self.0
    }
}

impl Default for Weight {
    /// The unit weight.
    fn default() -> (w: Self)
        ensures
            w.0 == 1,
    {
        Weight(1)
    }
}

/// Sum of the first `n` weights.
pub open spec fn prefix_total(w: Seq<Weight>, n: nat) -> nat
    decreases n,
{
    if n == 0 {
        0
    } else {
        prefix_total(w, (n - 1) as nat) + w[n - 1].0 as nat
    }
}

/// Sum of all weights.
pub open spec fn weights_total(w: Seq<Weight>) -> nat {
    prefix_total(w, w.len())
}

/// Prefix sums never decrease.
pub proof fn lemma_prefix_monotone(w: Seq<Weight>, i: nat, j: nat)
    requires
        i <= j,
    ensures
        prefix_total(w, i) <= prefix_total(w, j),
    decreases j - i,
{
    if i < j {
        lemma_prefix_monotone(w, i, (j - 1) as nat);
    }
}

/// The weights are all zero exactly when their sum is zero.
pub proof fn lemma_total_zero(w: Seq<Weight>, n: nat)
    requires
        n <= w.len(),
    ensures
        prefix_total(w, n) == 0 <==> forall|i: int| 0 <= i < n ==> (#[trigger] w[i]).0 == 0,
    decreases n,
{
    if n > 0 {
        lemma_total_zero(w, (n - 1) as nat);
    }
}

/// Routing strategy for selecting among deployments.
#[derive(Debug, Clone)]
pub enum RoutingStrategy {
    /// Round-robin across the deployments in order.
    RoundRobin,
    /// Try deployments in order; advance on a transient error.
    Fallback,
    /// The deployment with the lowest observed latency.
    LatencyBased,
    /// Deployments in order, as for `Fallback` (estimated cost is only reported).
    CostBased,
    /// Weighted random choice; weight 0 excludes a deployment.
    WeightedRandom { weights: Vec<Weight> },
}

/// What [`Router::route`] decided for one request.
#[derive(Debug, Clone, Copy, PartialEq, Eq, Structural)]
pub enum RouteDecision {
    /// Send the request to this deployment.
    Deployment(usize),
    /// Send it to the deployment with the lowest latency key.
    LowestLatency,
    /// Walk the deployments in order, advancing on transient errors.
    InOrder,
}

/// Message when a router is built without deployments.
pub open spec fn no_deployment_message() -> Seq<char> {
    "Router requires at least one deployment"@
}

/// Message when the weights do not match the deployments.
pub open spec fn weights_length_message(weights: nat, deployments: nat) -> Seq<char> {
    "WeightedRandom: weights length ("@ + decimal_text(weights) + ") must match deployments length ("@
        + decimal_text(deployments) + ")"@
}

/// Message when every weight is zero.
pub open spec fn zero_weight_message() -> Seq<char> {
    "WeightedRandom: total weight must be positive"@
}

/// Whether `strategy` can route over `n` deployments.
pub open spec fn router_config_ok(n: nat, strategy: RoutingStrategy) -> bool {
    &&& n > 0
    &&& strategy matches RoutingStrategy::WeightedRandom { weights } ==> (weights@.len() == n && weights_total(weights@) > 0)
}

/// Why `strategy` cannot route over `n` deployments (meaningful when
/// [`router_config_ok`] fails).
pub open spec fn router_config_message(n: nat, strategy: RoutingStrategy) -> Seq<char> {
    if n == 0 {
        no_deployment_message()
    } else {
        match strategy {
            RoutingStrategy::WeightedRandom { weights } => if weights@.len() != n {
                weights_length_message(weights@.len(), n)
            } else {
                zero_weight_message()
            },
            _ => zero_weight_message(),
        }
    }
}

/// Distributes requests across deployments according to a strategy.
pub struct Router<S> {
    deployments: Vec<S>,
    strategy: RoutingStrategy,
    counter: usize,
}

impl<S> Router<S> {
    /// The deployments.
    pub closed spec fn spec_deployments(&self) -> Seq<S> {
        self.deployments@
    }

    /// The strategy.
    pub closed spec fn spec_strategy(&self) -> RoutingStrategy {
        self.strategy
    }

    /// The round-robin counter.
    pub closed spec fn spec_counter(&self) -> usize {
        self.counter
    }

    /// A router that can route every request.
    pub open spec fn wf(&self) -> bool {
        &&& router_config_ok(self.spec_deployments().len(), self.spec_strategy())
        &&& self.spec_strategy() matches RoutingStrategy::WeightedRandom { weights } ==> weights_total(weights@) <= u64::MAX
    }

    /// Build a router.  It is refused (400) when there is no deployment;
    /// for weighted-random routing, also when the number of weights differs
    /// from the number of deployments or every weight is zero.
    pub fn new(deployments: Vec<S>, strategy: RoutingStrategy) -> (r: Result<Self, LiterLlmError>)
        requires
            strategy matches RoutingStrategy::WeightedRandom { weights } ==> weights_total(weights@) <= u64::MAX,
        ensures
            r is Ok <==> router_config_ok(deployments@.len(), strategy),
            r matches Ok(router) ==> {
                &&& router.wf()
                &&& router.spec_deployments() == deployments@
                &&& router.spec_strategy() == strategy
                &&& router.spec_counter() == 0
            },
            r matches Err(e) ==> e matches LiterLlmError::BadRequest { message, status } && status == 400
                && message@ == router_config_message(deployments@.len(), strategy),
    {
        if deployments.len() == 0 {
            return Err(LiterLlmError::BadRequest {
                message: String::from_str("Router requires at least one deployment"),
                status: 400,
            });
        }
        if let RoutingStrategy::WeightedRandom { weights } = &strategy {
            if weights.len() != deployments.len() {
                let mut message = String::from_str("WeightedRandom: weights length (");
                let a = usize_decimal(weights.len());
                message.append(a.as_str());
                message.append(") must match deployments length (");
                let b = usize_decimal(deployments.len());
                message.append(b.as_str());
                message.append(")");
                return Err(LiterLlmError::BadRequest { message, status: 400 });
            }
            let mut any_positive = false;
            let mut i: usize = 0;
            while i < weights.len()
                invariant
                    i <= weights.len(),
                    any_positive <==> exists|j: int| 0 <= j < i && (#[trigger] weights@[j]).0 > 0,
                decreases weights.len() - i,
            {
                if weights[i].0 > 0 {
                    any_positive = true;
                }
                i = i + 1;
            }
            proof {
                lemma_total_zero(weights@, weights@.len());
            }
            if !any_positive {
                return Err(LiterLlmError::BadRequest {
                    message: String::from_str("WeightedRandom: total weight must be positive"),
                    status: 400,
                });
            }
        }
        Ok(Router { deployments, strategy, counter: 0 })
    }

    /// The deployment at position `i`.
    pub fn deployment(&self, i: usize) -> (s: &S)
        requires
            i < self.spec_deployments().len(),
        ensures
            *s == self.spec_deployments()[i as int],
    {
        &self.deployments[i]
    }

    /// Number of deployments.
    pub fn len(&self) -> (n: usize)
        ensures
            n == self.spec_deployments().len(),
    {
        self.deployments.len()
    }

    /// Route one request.  Round-robin takes the deployment at the counter
    /// (modulo the number of deployments) and advances the counter, wrapping
    /// to 0 after `usize::MAX`; weighted-random draws a deployment with a positive
    /// weight; the other strategies defer to the walk or latency choice.
    pub fn route(&mut self) -> (d: RouteDecision)
        requires
            old(self).wf(),
        ensures
            final(self).wf(),
            final(self).spec_deployments() == old(self).spec_deployments(),
            final(self).spec_strategy() == old(self).spec_strategy(),
            old(self).spec_strategy() is RoundRobin ==> {
                &&& d == RouteDecision::Deployment((old(self).spec_counter() as nat % old(self).spec_deployments().len()) as usize)
                &&& final(self).spec_counter() == (if old(self).spec_counter() == usize::MAX { 0 } else { old(self).spec_counter() + 1 })
            },
            !(old(self).spec_strategy() is RoundRobin) ==> final(self).spec_counter() == old(self).spec_counter(),
            old(self).spec_strategy() matches RoutingStrategy::WeightedRandom { weights } ==> (d matches RouteDecision::Deployment(i)
                && i < weights@.len() && weights@[i as int].0 > 0
                && exists|draw: nat| #![trigger draw % weights_total(weights@)] draw < 1_000_000_000 && {
                    let t = draw % weights_total(weights@);
                    prefix_total(weights@, i as nat) <= t < prefix_total(weights@, i as nat + 1)
                }),
            old(self).spec_strategy() is LatencyBased ==> d == RouteDecision::LowestLatency,
            (old(self).spec_strategy() is Fallback || old(self).spec_strategy() is CostBased) ==> d == RouteDecision::InOrder,
    {
        match &self.strategy {
            RoutingStrategy::RoundRobin => {
                let idx = self.counter % self.deployments.len();
                self.counter = self.counter.wrapping_add(1);
                RouteDecision::Deployment(idx)
            },
            RoutingStrategy::Fallback => RouteDecision::InOrder,
            RoutingStrategy::CostBased => RouteDecision::InOrder,
            RoutingStrategy::LatencyBased => RouteDecision::LowestLatency,
            RoutingStrategy::WeightedRandom { weights } => {
                RouteDecision::Deployment(weighted_random_select(weights))
            },
        }
    }
}

/// Round-robin reaches every deployment: from any counter value, each of
/// the `n` deployments is chosen within the next `n` requests (as long as
/// the counter does not wrap).
pub proof fn law_round_robin_covers_all(c: nat, n: nat, d: nat)
    requires
        n > 0,
        d < n,
    ensures
        exists|j: nat| j < n && #[trigger] ((c + j) % n) == d,
{
    let r = c % n;
    let q = c / n;
    let j: nat = if d >= r { (d - r) as nat } else { (d + n - r) as nat };
    vstd::arithmetic::div_mod::lemma_fundamental_div_mod(c as int, n as int);
    vstd::arithmetic::mul::lemma_mul_is_commutative(n as int, q as int);
    if d >= r {
        assert((c + j) as int == q * n + d);
        vstd::arithmetic::div_mod::lemma_fundamental_div_mod_converse_mod((c + j) as int, n as int, q as int, d as int);
    } else {
        vstd::arithmetic::mul::lemma_mul_is_distributive_add_other_way(n as int, q as int, 1);
        assert((c + j) as int == (q + 1) * n + d);
        vstd::arithmetic::div_mod::lemma_fundamental_div_mod_converse_mod((c + j) as int, n as int, (q + 1) as int, d as int);
    }
    assert((c + j) % n == d);
}

/// Weighted choice for a given `draw`: with `t = draw % total`, the index
/// `i` whose weight interval `[prefix(i), prefix(i + 1))` holds `t`.  All
/// weights zero (or none) gives 0.
pub fn weighted_select(weights: &Vec<Weight>, draw: u64) -> (r: usize)
    requires
        weights_total(weights@) <= u64::MAX,
    ensures
        weights_total(weights@) == 0 ==> r == 0,
        weights_total(weights@) > 0 ==> {
            let t = draw as nat % weights_total(weights@);
            &&& r < weights@.len()
            &&& prefix_total(weights@, r as nat) <= t < prefix_total(weights@, r as nat + 1)
        },
{
    let mut total: u64 = 0;
    let mut i: usize = 0;
    while i < weights.len()
        invariant
            i <= weights.len(),
            total == prefix_total(weights@, i as nat),
            weights_total(weights@) <= u64::MAX,
        decreases weights.len() - i,
    {
        proof {
            lemma_prefix_monotone(weights@, i as nat + 1, weights@.len());
        }
        total = total + weights[i].0 as u64;
        i = i + 1;
    }
    if total == 0 {
        return 0;
    }
    let threshold = draw % total;
    let mut cumulative: u64 = 0;
    let mut j: usize = 0;
    while j < weights.len()
        invariant
            j <= weights.len(),
            total == weights_total(weights@),
            total > 0,
            threshold == draw as nat % total as nat,
            cumulative == prefix_total(weights@, j as nat),
            threshold >= cumulative,
        decreases weights.len() - j,
    {
        proof {
            lemma_prefix_monotone(weights@, j as nat + 1, weights@.len());
        }
        cumulative = cumulative + weights[j].0 as u64;
        if threshold < cumulative {
            return j;
        }
        j = j + 1;
    }
    proof {
        assert(false);
    }
    weights.len() - 1
}

/// Sub-second part, in nanoseconds, of the time elapsed since the Unix epoch
/// (`SystemTime::now().duration_since(UNIX_EPOCH)`, zero for a clock before
/// the epoch).  It changes with the clock; it is always below one second.
#[verifier::external_body]
fn clock_subsec_nanos() -> (n: u32)
    ensures
        n < 1_000_000_000,
{
    std::time::SystemTime::now().duration_since(std::time::UNIX_EPOCH).unwrap_or_default().subsec_nanos()
}

/// Weighted random choice, drawing from the clock: the weighted choice
/// ([`weighted_select`]) for a draw below one billion (the clock's
/// sub-second nanoseconds).  Whatever the draw, the chosen deployment has a
/// positive weight (0 when every weight is zero).
pub fn weighted_random_select(weights: &Vec<Weight>) -> (r: usize)
    requires
        weights_total(weights@) <= u64::MAX,
    ensures
        weights_total(weights@) == 0 ==> r == 0,
        weights_total(weights@) > 0 ==> r < weights@.len() && weights@[r as int].0 > 0,
        weights_total(weights@) > 0 ==> exists|draw: nat| #![trigger draw % weights_total(weights@)] draw < 1_000_000_000 && {
            let t = draw % weights_total(weights@);
            prefix_total(weights@, r as nat) <= t < prefix_total(weights@, r as nat + 1)
        },
{
    let nanos = clock_subsec_nanos();
    let r = weighted_select(weights, nanos as u64);
    r
}

/// The first position whose latency key is lowest (keys order deployments
/// as their average latencies do; a deployment without data has key 0).
pub fn lowest_latency_index(keys: &Vec<u64>) -> (r: usize)
    requires
        keys@.len() > 0,
    ensures
        r < keys@.len(),
        forall|j: int| 0 <= j < keys@.len() ==> keys@[r as int] <= #[trigger] keys@[j],
        forall|j: int| 0 <= j < r ==> keys@[r as int] < #[trigger] keys@[j],
{
    let mut best: usize = 0;
    let mut i: usize = 1;
    while i < keys.len()
        invariant
            1 <= i <= keys.len(),
            best < i,
            forall|j: int| 0 <= j < i ==> keys@[best as int] <= #[trigger] keys@[j],
            forall|j: int| 0 <= j < best ==> keys@[best as int] < #[trigger] keys@[j],
        decreases keys.len() - i,
    {
        if keys[i] < keys[best] {
            best = i;
        }
        i = i + 1;
    }
    best
}

/// Default cap on concurrent in-flight requests per provider.
pub const DEFAULT_CONCURRENCY_LIMIT: usize = 256;

/// Per-provider configuration of a dynamic router.
#[derive(Debug, Clone, Copy)]
pub struct ProviderConfig {
    /// Maximum concurrent requests allowed to this upstream.
    pub concurrency_limit: usize,
}

impl Default for ProviderConfig {
    /// The default concurrency limit.
    fn default() -> (c: Self)
        ensures
            c.concurrency_limit == DEFAULT_CONCURRENCY_LIMIT,
    {
        ProviderConfig { concurrency_limit: DEFAULT_CONCURRENCY_LIMIT }
    }
}

/// Per-provider configuration of a dynamic router, keyed by provider name.
pub struct DynamicRouterConfig {
    provider_configs: StringHashMap<ProviderConfig>,
}

impl DynamicRouterConfig {
    /// The configured providers.
    pub closed spec fn spec_configs(&self) -> Map<Seq<char>, ProviderConfig> {
        self.provider_configs@
    }

    /// No provider configured.
    pub fn new() -> (c: Self)
        ensures
            c.spec_configs() == Map::<Seq<char>, ProviderConfig>::empty(),
    {
        DynamicRouterConfig { provider_configs: StringHashMap::new() }
    }

    /// Attach `config` to the provider `key`, replacing an earlier one.
    pub fn with_provider_config(self, key: String, config: ProviderConfig) -> (c: Self)
        ensures
            c.spec_configs() == self.spec_configs().insert(key@, config),
    {
        let mut configs = self.provider_configs;
        configs.insert(key, config);
        DynamicRouterConfig { provider_configs: configs }
    }

    /// Concurrency limit of the upstream `key`: its configured limit, or
    /// [`DEFAULT_CONCURRENCY_LIMIT`] when it has no configuration.
    pub fn concurrency_limit(&self, key: &str) -> (n: usize)
        ensures
            n == (if self.spec_configs().contains_key(key@) {
                self.spec_configs()[key@].concurrency_limit
            } else {
                DEFAULT_CONCURRENCY_LIMIT
            }),
    {
        match self.provider_configs.get(key) {
            Some(c) => c.concurrency_limit,
            None => DEFAULT_CONCURRENCY_LIMIT,
        }
    }
}

/// Errors produced by the dynamic router.
#[derive(Debug, Clone, PartialEq, Eq)]
pub enum RouterError {
    /// The discovery stream failed; `source` is its error's message.
    Discover { source: String, code: u32 },
    /// No upstream is ready to serve the request.
    NoReadyUpstream { code: u32 },
}

/// Code of a discovery failure.
pub const ROUTER_DISCOVER_CODE: u32 = 2001;

/// Code of a call with no ready upstream.
pub const ROUTER_NO_READY_CODE: u32 = 2002;

/// Display text of a router error.
pub open spec fn router_error_message(e: RouterError) -> Seq<char> {
    match e {
        RouterError::Discover { source, .. } => "discovery error (code 2001): "@ + source@,
        RouterError::NoReadyUpstream { .. } => "no ready upstream available (code 2002)"@,
    }
}

impl RouterError {
    /// A discovery failure whose error reads `source`.
    pub fn discover(source: String) -> (e: Self)
        ensures
            e == (RouterError::Discover { source, code: ROUTER_DISCOVER_CODE }),
    {
        RouterError::Discover { source, code: ROUTER_DISCOVER_CODE }
    }

    /// The error of a call made while no upstream is ready.
    pub fn no_ready_upstream() -> (e: Self)
        ensures
            e == (RouterError::NoReadyUpstream { code: ROUTER_NO_READY_CODE }),
    {
        RouterError::NoReadyUpstream { code: ROUTER_NO_READY_CODE }
    }

    /// Numeric code, for cross-language error conversion.
    pub fn code(&self) -> (c: u32)
        ensures
            c == (match *self {
                RouterError::Discover { code, .. } => code,
                RouterError::NoReadyUpstream { code } => code,
            }),
    {
        match self {
            RouterError::Discover { code, .. } => *code,
            RouterError::NoReadyUpstream { code } => *code,
        }
    }

    /// Display text of the error.
    pub fn message(&self) -> (s: String)
        ensures
            s@ == router_error_message(*self),
    {
        match self {
            RouterError::Discover { source, .. } => {
                let mut s = String::from_str("discovery error (code 2001): ");
                s.append(source.as_str());
                proof { reveal_strlit("discovery error (code 2001): "); }
                s
            },
            RouterError::NoReadyUpstream { .. } => {
                proof { reveal_strlit("no ready upstream available (code 2002)"); }
                String::from_str("no ready upstream available (code 2002)")
            },
        }
    }

    /// The library error a router error becomes: a server error (503)
    /// carrying the display text.
    pub fn into_error(self) -> (e: LiterLlmError)
        ensures
            e matches LiterLlmError::ServerError { message, status } && status == 503
                && message@ == router_error_message(self),
    {
        let message = self.message();
        LiterLlmError::ServerError { message, status: 503 }
    }
}

/// Gate of a dynamic router's call: refused with
/// [`RouterError::NoReadyUpstream`] while no upstream is ready.
pub fn dynamic_call_gate(ready_len: usize) -> (r: Result<(), RouterError>)
    ensures
        r is Ok <==> ready_len > 0,
        r is Err ==> r == Err::<(), RouterError>(RouterError::NoReadyUpstream { code: ROUTER_NO_READY_CODE }),
{
    if ready_len > 0 {
        Ok(())
    } else {
        Err(RouterError::no_ready_upstream())
    }
}

/// A fixed list of named services, handed out one by one in order.
pub struct StaticDiscover<S> {
    keys: VecDeque<String>,
    services: VecDeque<S>,
}

impl<S> StaticDiscover<S> {
    /// The names still to be handed out, in order.
    pub closed spec fn spec_keys(&self) -> Seq<Seq<char>> {
        self.keys@.map_values(|k: String| k@)
    }

    /// The services still to be handed out, in order.
    pub closed spec fn spec_services(&self) -> Seq<S> {
        self.services@
    }

    /// Both queues hold the same number of entries.
    pub closed spec fn wf(&self) -> bool {
        self.keys@.len() == self.services@.len()
    }

    /// A discovery source over `(name, service)` pairs.
    pub fn new(services: Vec<(String, S)>) -> (d: Self)
        ensures
            d.wf(),
            d.spec_keys() == services@.map_values(|p: (String, S)| p.0@),
            d.spec_services() == services@.map_values(|p: (String, S)| p.1),
    {
        let mut rest = services;
        let ghost all = rest@;
        let mut keys: VecDeque<String> = VecDeque::new();
        let mut svcs: VecDeque<S> = VecDeque::new();
        while rest.len() > 0
            invariant
                rest@ == all.subrange(0, rest@.len() as int),
                keys@.len() == svcs@.len(),
                keys@.len() + rest@.len() == all.len(),
                forall|i: int| 0 <= i < keys@.len() ==> (#[trigger] keys@[i])@ == all[rest@.len() + i].0@,
                forall|i: int| 0 <= i < svcs@.len() ==> #[trigger] svcs@[i] == all[rest@.len() + i].1,
            decreases rest@.len(),
        {
            let (k, s) = rest.pop().unwrap();
            keys.push_front(k);
            svcs.push_front(s);
        }
        let d = StaticDiscover { keys, services: svcs };
        assert(d.spec_keys() =~= all.map_values(|p: (String, S)| p.0@));
        assert(d.spec_services() =~= all.map_values(|p: (String, S)| p.1));
        d
    }

    /// The next `(name, service)` pair, or `None` once all were handed out.
    pub fn next(&mut self) -> (r: Option<(String, S)>)
        requires
            old(self).wf(),
        ensures
            final(self).wf(),
            old(self).spec_keys().len() == 0 ==> r is None && final(self).spec_keys() == old(self).spec_keys(),
            old(self).spec_keys().len() > 0 ==> {
                &&& r matches Some((k, s)) && k@ == old(self).spec_keys()[0] && s == old(self).spec_services()[0]
                &&& final(self).spec_keys() == old(self).spec_keys().drop_first()
                &&& final(self).spec_services() == old(self).spec_services().drop_first()
            },
    {
        if self.keys.len() == 0 {
            return None;
        }
        let k = self.keys.pop_front().unwrap();
        let s = self.services.pop_front().unwrap();
        proof {
            assert(self.spec_keys() =~= old(self).spec_keys().drop_first());
        }
        Some((k, s))
    }
}

} // verus!
