//! Multi-dimensional budget ledger: spend per global, model, tenant, user
//! and API-key dimension, each in a fixed window (micro-dollars, seconds).
//!
//! A check consults the dimensions in the order global → model → tenant →
//! user → API key and refuses on the first whose spend has reached its
//! limit.  Reading a dimension restarts its window when the window has
//! elapsed, as recording does.

use vstd::prelude::*;
use vstd::hash_map::StringHashMap;
use dashmap::DashMap;
use crate::util::dash::{window_entries, windows_new, windows_get, windows_insert, windows_clear};
use crate::text::{micros_text, micros_decimal, str_eq};
use crate::tower::window::{SpendWindow, WindowModel, window_at, window_after_add};
use crate::tower::budget::{BudgetConfig, BudgetDimension, BudgetVerdict};

verus! {

broadcast use vstd::std_specs::hash::group_hash_axioms;

/// Abstract state of a [`DimensionTable`]: limits and windows per key.
pub struct TableModel {
    /// Configured caps per key.
    pub limits: Map<Seq<char>, u64>,
    /// Spend windows of the keys seen so far.
    pub windows: Map<Seq<char>, WindowModel>,
}

/// Reading `key` at `now`: its spend (0 when never seen) and the table with
/// its window restarted if elapsed.
pub open spec fn table_read(t: TableModel, key: Seq<char>, now: nat) -> (nat, TableModel) {
    if t.windows.contains_key(key) {
        let w = window_at(t.windows[key], now);
        (w.spend_mc, TableModel { windows: t.windows.insert(key, w), ..t })
    } else {
        (0, t)
    }
}

/// Checking `key` at `now`: `(spend, limit)` when the key has a limit and
/// its spend has reached it.  The window is read only when a limit exists.
pub open spec fn table_check(t: TableModel, key: Seq<char>, now: nat) -> (Option<(nat, nat)>, TableModel) {
    if t.limits.contains_key(key) {
        let (spend, t2) = table_read(t, key, now);
        let limit = t.limits[key] as nat;
        (if spend >= limit { Some((spend, limit)) } else { None }, t2)
    } else {
        (None, t)
    }
}

/// Recording `mc` for `key` at `now`; an unseen key gets a fresh window of
/// `window_secs` starting at `now`.
pub open spec fn table_add(t: TableModel, key: Seq<char>, mc: nat, window_secs: nat, now: nat) -> TableModel {
    let w = if t.windows.contains_key(key) {
        t.windows[key]
    } else {
        WindowModel { spend_mc: 0, start_secs: now, window_secs }
    };
    TableModel { windows: t.windows.insert(key, window_after_add(w, mc, now)), ..t }
}

/// Limits and spend windows for one dimension, keyed by name.
pub struct DimensionTable {
    limits: StringHashMap<u64>,
    windows: DashMap<String, SpendWindow>,
    keys: Vec<String>,
}

impl View for DimensionTable {
    type V = TableModel;

    closed spec fn view(&self) -> TableModel {
        TableModel { limits: self.limits@, windows: window_entries(self.windows).map_values(|w: SpendWindow| w@) }
    }
}

impl DimensionTable {
    /// The keys seen so far, in the order they were first recorded.
    pub closed spec fn spec_keys(&self) -> Seq<Seq<char>> {
        self.keys@.map_values(|k: String| k@)
    }

    /// The key list holds each key with a window exactly once.
    pub open spec fn wf(&self) -> bool {
        &&& forall|i: int, j: int| 0 <= i < j < self.spec_keys().len() ==> self.spec_keys()[i] != self.spec_keys()[j]
        &&& forall|i: int| 0 <= i < self.spec_keys().len() ==> self@.windows.contains_key(#[trigger] self.spec_keys()[i])
        &&& forall|k: Seq<char>| #[trigger] self@.windows.contains_key(k) ==> self.spec_keys().contains(k)
    }

    /// No limits, no spend.
    pub fn new() -> (t: Self)
        ensures
            t.wf(),
            t@.limits == Map::<Seq<char>, u64>::empty(),
            t@.windows == Map::<Seq<char>, WindowModel>::empty(),
            t.spec_keys() == Seq::<Seq<char>>::empty(),
    {
        Self::with_limits(StringHashMap::new())
    }

    /// A table with the given limits and no spend.
    pub fn with_limits(limits: StringHashMap<u64>) -> (t: Self)
        ensures
            t.wf(),
            t@.limits == limits@,
            t@.windows == Map::<Seq<char>, WindowModel>::empty(),
            t.spec_keys() == Seq::<Seq<char>>::empty(),
    {
        let t = DimensionTable { limits, windows: windows_new(), keys: Vec::new() };
        assert(t@.windows =~= Map::<Seq<char>, WindowModel>::empty());
        assert(t.spec_keys() =~= Seq::<Seq<char>>::empty());
        t
    }

    /// Set the cap of `key`.
    pub fn set_limit(&mut self, key: &str, limit_mc: u64)
        requires
            old(self).wf(),
        ensures
            final(self).wf(),
            final(self).spec_keys() == old(self).spec_keys(),
            final(self)@ == (TableModel { limits: old(self)@.limits.insert(key@, limit_mc), ..old(self)@ }),
    {
        self.limits.insert(String::from_str(key), limit_mc);
        assert(self@.windows == old(self)@.windows);
        assert(self.spec_keys() == old(self).spec_keys());
    }

    /// The cap of `key`, if any.
    pub fn limit(&self, key: &str) -> (r: Option<u64>)
        ensures
            r == (if self@.limits.contains_key(key@) { Some(self@.limits[key@]) } else { None }),
    {
        match self.limits.get(key) {
            Some(v) => Some(*v),
            None => None,
        }
    }

    fn put_window(&mut self, key: &str, w: SpendWindow)
        requires
            old(self).wf(),
            old(self)@.windows.contains_key(key@),
        ensures
            final(self).wf(),
            final(self).spec_keys() == old(self).spec_keys(),
            final(self)@ == (TableModel { windows: old(self)@.windows.insert(key@, w@), ..old(self)@ }),
    {
        windows_insert(&mut self.windows, String::from_str(key), w);
        assert(self@.windows =~= old(self)@.windows.insert(key@, w@));
        assert(self@.windows.dom() =~= old(self)@.windows.dom());
    }

    /// Spend of `key` at `now` (0 when never seen), restarting its window if
    /// it has elapsed.
    pub fn spend(&mut self, key: &str, now_secs: u64) -> (mc: u64)
        requires
            old(self).wf(),
        ensures
            final(self).wf(),
            final(self).spec_keys() == old(self).spec_keys(),
            (mc as nat, final(self)@) == table_read(old(self)@, key@, now_secs as nat),
    {
        let current = windows_get(&self.windows, key);
        match current {
            Some(w) => {
                let mut w = w;
                let mc = w.spend_mc(now_secs);
                self.put_window(key, w);
                mc
            },
            None => 0,
        }
    }

    /// `(spend, limit)` when `key` has a limit that its spend has reached.
    pub fn check(&mut self, key: &str, now_secs: u64) -> (r: Option<(u64, u64)>)
        requires
            old(self).wf(),
        ensures
            final(self).wf(),
            final(self).spec_keys() == old(self).spec_keys(),
            ((match r { Some((s, l)) => Some((s as nat, l as nat)), None => None }), final(self)@)
                == table_check(old(self)@, key@, now_secs as nat),
    {
        match self.limit(key) {
            None => None,
            Some(limit) => {
                let spend = self.spend(key, now_secs);
                if spend >= limit { Some((spend, limit)) } else { None }
            },
        }
    }

    /// Record `mc` for `key` at `now`; a key seen for the first time is
    /// appended to the key list.
    pub fn add(&mut self, key: &str, mc: u64, window_secs: u64, now_secs: u64)
        requires
            old(self).wf(),
        ensures
            final(self).wf(),
            final(self)@ == table_add(old(self)@, key@, mc as nat, window_secs as nat, now_secs as nat),
            old(self)@.windows.contains_key(key@) ==> final(self).spec_keys() == old(self).spec_keys(),
            !old(self)@.windows.contains_key(key@) ==> final(self).spec_keys() == old(self).spec_keys().push(key@),
    {
        let existing = windows_get(&self.windows, key);
        let mut w = match existing {
            Some(w) => w,
            None => SpendWindow::new(window_secs, now_secs),
        };
        w.add_mc(mc, now_secs);
        if existing.is_none() {
            let ghost ks = self.spec_keys();
            self.keys.push(String::from_str(key));
            windows_insert(&mut self.windows, String::from_str(key), w);
            assert(self.spec_keys() =~= ks.push(key@));
            assert(self@.windows =~= old(self)@.windows.insert(key@, w@));
            assert forall|k: Seq<char>| #[trigger] self@.windows.contains_key(k) implies self.spec_keys().contains(k) by {
                if k == key@ {
                    assert(self.spec_keys()[ks.len() as int] == key@);
                } else {
                    assert(old(self)@.windows.contains_key(k));
                    let i = choose|i: int| 0 <= i < ks.len() && ks[i] == k;
                    assert(self.spec_keys()[i] == k);
                }
            }
            assert forall|i: int, j: int| 0 <= i < j < self.spec_keys().len() implies self.spec_keys()[i] != self.spec_keys()[j] by {
                if j == ks.len() {
                    assert(old(self)@.windows.contains_key(ks[i]));
                }
            }
        } else {
            self.put_window(key, w);
        }
    }

    /// Forget all spend; limits stay.
    pub fn clear_spend(&mut self)
        requires
            old(self).wf(),
        ensures
            final(self).wf(),
            final(self).spec_keys() == Seq::<Seq<char>>::empty(),
            final(self)@ == (TableModel { windows: Map::empty(), ..old(self)@ }),
    {
        windows_clear(&mut self.windows);
        self.keys.clear();
        assert(self@.windows =~= Map::<Seq<char>, WindowModel>::empty());
        assert(self.spec_keys() =~= Seq::<Seq<char>>::empty());
    }

    /// The spend of every key seen, in first-recorded order, each read at
    /// `now` (so every elapsed window restarts).
    pub fn snapshot(&mut self, now_secs: u64) -> (out: Vec<(String, u64)>)
        requires
            old(self).wf(),
        ensures
            final(self).wf(),
            final(self).spec_keys() == old(self).spec_keys(),
            final(self)@.limits == old(self)@.limits,
            final(self)@.windows == old(self)@.windows.map_values(|w: WindowModel| window_at(w, now_secs as nat)),
            out@.len() == old(self).spec_keys().len(),
            forall|i: int| 0 <= i < out@.len() ==> (#[trigger] out@[i]).0@ == old(self).spec_keys()[i]
                && out@[i].1 as nat == window_at(old(self)@.windows[old(self).spec_keys()[i]], now_secs as nat).spend_mc,
    {
        let mut out: Vec<(String, u64)> = Vec::new();
        let n = self.keys.len();
        let ghost ks = self.spec_keys();
        let ghost w0 = self@.windows;
        let mut i: usize = 0;
        while i < n
            invariant
                self.wf(),
                n == ks.len(),
                self.spec_keys() == ks,
                i <= n,
                self@.limits == old(self)@.limits,
                w0 == old(self)@.windows,
                ks == old(self).spec_keys(),
                self@.windows.dom() == w0.dom(),
                forall|j: int| 0 <= j < i ==> self@.windows[#[trigger] ks[j]] == window_at(w0[ks[j]], now_secs as nat),
                forall|j: int| i <= j < n ==> self@.windows[#[trigger] ks[j]] == w0[ks[j]],
                out@.len() == i,
                forall|j: int| 0 <= j < i ==> (#[trigger] out@[j]).0@ == ks[j]
                    && out@[j].1 as nat == window_at(w0[ks[j]], now_secs as nat).spend_mc,
            decreases n - i,
        {
            let k = self.keys[i].clone();
            proof {
                assert(k@ == ks[i as int]);
                assert(self@.windows.contains_key(ks[i as int]));
            }
            let ghost before = self@.windows;
            let mc = self.spend(k.as_str(), now_secs);
            proof {
                assert forall|j: int| 0 <= j < n && j != i implies self@.windows[#[trigger] ks[j]] == before[ks[j]] by {
                    assert(ks[j] != ks[i as int]);
                }
                assert(self@.windows.dom() =~= w0.dom());
            }
            out.push((k, mc));
            i = i + 1;
        }
        proof {
            assert forall|k: Seq<char>| #[trigger] self@.windows.contains_key(k)
                implies self@.windows[k] == window_at(w0[k], now_secs as nat) by {
                let j = choose|j: int| 0 <= j < ks.len() && ks[j] == k;
                assert(self@.windows[ks[j]] == window_at(w0[ks[j]], now_secs as nat));
            }
            assert(self@.windows =~= w0.map_values(|w: WindowModel| window_at(w, now_secs as nat)));
        }
        out
    }
}

/// Limits of a ledger, per dimension.
pub struct DimensionLimits {
    /// Global cap; `None` is unlimited.
    pub global: Option<u64>,
    /// Caps per model.
    pub per_model: StringHashMap<u64>,
    /// Caps per tenant.
    pub per_tenant: StringHashMap<u64>,
    /// Caps per user.
    pub per_user: StringHashMap<u64>,
    /// Caps per API key.
    pub per_api_key: StringHashMap<u64>,
}

impl DimensionLimits {
    /// No limits.
    pub fn new() -> (l: Self)
        ensures
            l.global is None,
            l.per_model@ == Map::<Seq<char>, u64>::empty(),
            l.per_tenant@ == Map::<Seq<char>, u64>::empty(),
            l.per_user@ == Map::<Seq<char>, u64>::empty(),
            l.per_api_key@ == Map::<Seq<char>, u64>::empty(),
    {
        DimensionLimits {
            global: None,
            per_model: StringHashMap::new(),
            per_tenant: StringHashMap::new(),
            per_user: StringHashMap::new(),
            per_api_key: StringHashMap::new(),
        }
    }
}

/// Pre-flight context of a ledger check.
pub struct CostCheckContext<'a> {
    /// The model name.
    pub model: &'a str,
    /// The provider name.
    pub provider: &'a str,
    /// Optional tenant identifier.
    pub tenant_id: Option<&'a str>,
    /// Optional end-user identifier.
    pub user_id: Option<&'a str>,
    /// Optional API-key handle.
    pub api_key_id: Option<&'a str>,
    /// Wall-clock time of the check, in seconds since the Unix epoch.
    pub timestamp_secs: u64,
}

/// Abstract state of an [`InMemoryBudgetLedger`].
pub struct LedgerModel {
    /// Global cap.
    pub global_limit: Option<u64>,
    /// Window length for every dimension.
    pub window_secs: nat,
    /// Global spend window.
    pub global: WindowModel,
    /// Per-model table.
    pub model: TableModel,
    /// Per-tenant table.
    pub tenant: TableModel,
    /// Per-user table.
    pub user: TableModel,
    /// Per-API-key table.
    pub api_key: TableModel,
}

/// The dimension a check refused on.
#[derive(PartialEq, Eq, Structural)]
pub enum LedgerHit {
    Global,
    Model,
    Tenant,
    User,
    ApiKey,
}

/// Checking an optional key of a table.
pub open spec fn opt_check(t: TableModel, key: Option<Seq<char>>, now: nat) -> (Option<(nat, nat)>, TableModel) {
    match key {
        Some(k) => table_check(t, k, now),
        None => (None, t),
    }
}

/// Recording for an optional key of a table.
pub open spec fn opt_add(t: TableModel, key: Option<Seq<char>>, mc: nat, window_secs: nat, now: nat) -> TableModel {
    match key {
        Some(k) => table_add(t, k, mc, window_secs, now),
        None => t,
    }
}

/// A ledger check at `now`: the first dimension (global, model, tenant,
/// user, API key) whose spend reached its limit, with that spend and limit,
/// and the ledger after the dimensions consulted were read.
pub open spec fn ledger_check(
    l: LedgerModel,
    model: Seq<char>,
    tenant: Option<Seq<char>>,
    user: Option<Seq<char>>,
    api_key: Option<Seq<char>>,
    now: nat,
) -> (Option<(LedgerHit, nat, nat)>, LedgerModel) {
    let (g, l1) = match l.global_limit {
        Some(limit) => {
            let w = window_at(l.global, now);
            (if w.spend_mc >= limit { Some((w.spend_mc, limit as nat)) } else { None }, LedgerModel { global: w, ..l })
        },
        None => (None, l),
    };
    if let Some((s, lim)) = g {
        (Some((LedgerHit::Global, s, lim)), l1)
    } else {
        let (m, t1) = table_check(l1.model, model, now);
        let l2 = LedgerModel { model: t1, ..l1 };
        if let Some((s, lim)) = m {
            (Some((LedgerHit::Model, s, lim)), l2)
        } else {
            let (te, t2) = opt_check(l2.tenant, tenant, now);
            let l3 = LedgerModel { tenant: t2, ..l2 };
            if let Some((s, lim)) = te {
                (Some((LedgerHit::Tenant, s, lim)), l3)
            } else {
                let (u, t3) = opt_check(l3.user, user, now);
                let l4 = LedgerModel { user: t3, ..l3 };
                if let Some((s, lim)) = u {
                    (Some((LedgerHit::User, s, lim)), l4)
                } else {
                    let (k, t4) = opt_check(l4.api_key, api_key, now);
                    let l5 = LedgerModel { api_key: t4, ..l4 };
                    if let Some((s, lim)) = k {
                        (Some((LedgerHit::ApiKey, s, lim)), l5)
                    } else {
                        (None, l5)
                    }
                }
            }
        }
    }
}

/// The ledger after recording `mc` for a call at `now`.
pub open spec fn ledger_record(
    l: LedgerModel,
    model: Seq<char>,
    tenant: Option<Seq<char>>,
    user: Option<Seq<char>>,
    api_key: Option<Seq<char>>,
    mc: nat,
    now: nat,
) -> LedgerModel {
    LedgerModel {
        global: window_after_add(l.global, mc, now),
        model: table_add(l.model, model, mc, l.window_secs, now),
        tenant: opt_add(l.tenant, tenant, mc, l.window_secs, now),
        user: opt_add(l.user, user, mc, l.window_secs, now),
        api_key: opt_add(l.api_key, api_key, mc, l.window_secs, now),
        ..l
    }
}

/// Refusal reason: `"<label> budget exceeded: spent $<spend>, limit $<limit>"`.
pub open spec fn reject_reason(label: Seq<char>, spend: nat, limit: nat) -> Seq<char> {
    label + " budget exceeded: spent $"@ + micros_text(spend) + ", limit $"@ + micros_text(limit)
}

/// The label of a dimension in refusal reasons: `global`, `model:<m>`,
/// `tenant:<t>`, `user:<u>`, `api_key:<k>`.
pub open spec fn hit_label(hit: LedgerHit, model: Seq<char>, tenant: Option<Seq<char>>, user: Option<Seq<char>>, api_key: Option<Seq<char>>) -> Seq<char> {
    match hit {
        LedgerHit::Global => "global"@,
        LedgerHit::Model => "model:"@ + model,
        LedgerHit::Tenant => "tenant:"@ + tenant->0,
        LedgerHit::User => "user:"@ + user->0,
        LedgerHit::ApiKey => "api_key:"@ + api_key->0,
    }
}

/// Whether `d` names the dimension `hit` for the given identifiers.
pub open spec fn dimension_is(d: BudgetDimension, hit: LedgerHit, model: Seq<char>, tenant: Option<Seq<char>>, user: Option<Seq<char>>, api_key: Option<Seq<char>>) -> bool {
    match hit {
        LedgerHit::Global => d is Global,
        LedgerHit::Model => d matches BudgetDimension::Model(m) && m@ == model,
        LedgerHit::Tenant => d matches BudgetDimension::Tenant(t) && Some(t@) == tenant,
        LedgerHit::User => d matches BudgetDimension::User(u) && Some(u@) == user,
        LedgerHit::ApiKey => d matches BudgetDimension::ApiKey(k) && Some(k@) == api_key,
    }
}

/// The view of an optional string slice.
pub open spec fn opt_view(s: Option<&str>) -> Option<Seq<char>> {
    match s {
        Some(v) => Some(v@),
        None => None,
    }
}

/// In-memory ledger with fixed-window accumulators per dimension.
pub struct InMemoryBudgetLedger {
    global_limit: Option<u64>,
    window_secs: u64,
    global: SpendWindow,
    per_model: DimensionTable,
    per_tenant: DimensionTable,
    per_user: DimensionTable,
    per_api_key: DimensionTable,
}

impl View for InMemoryBudgetLedger {
    type V = LedgerModel;

    closed spec fn view(&self) -> LedgerModel {
        LedgerModel {
            global_limit: self.global_limit,
            window_secs: self.window_secs as nat,
            global: self.global@,
            model: self.per_model@,
            tenant: self.per_tenant@,
            user: self.per_user@,
            api_key: self.per_api_key@,
        }
    }
}

/// Refusal for a dimension, built from its label.
fn reject(label: String, spend: u64, limit: u64, dimension: BudgetDimension) -> (v: BudgetVerdict)
    ensures
        v matches BudgetVerdict::Reject { reason, dimension: d } && d == dimension
            && reason@ == reject_reason(label@, spend as nat, limit as nat),
{
    let mut reason = label;
    reason.append(" budget exceeded: spent $");
    let a = micros_decimal(spend);
    reason.append(a.as_str());
    reason.append(", limit $");
    let b = micros_decimal(limit);
    reason.append(b.as_str());
    proof {
        reveal_strlit(" budget exceeded: spent $");
        reveal_strlit(", limit $");
        assert(reason@ =~= reject_reason(label@, spend as nat, limit as nat));
    }
    BudgetVerdict::Reject { reason, dimension }
}

fn labelled(prefix: &str, key: &str) -> (s: String)
    ensures
        s@ == prefix@ + key@,
{
    let mut s = String::from_str(prefix);
    s.append(key);
    s
}

/// Window of a ledger built from a budget configuration: 30 days.
pub const LEDGER_CONFIG_WINDOW_SECS: u64 = 2592000;

impl InMemoryBudgetLedger {
    /// Every table keeps its key list in step with its windows.
    pub closed spec fn wf(&self) -> bool {
        self.per_model.wf() && self.per_tenant.wf() && self.per_user.wf() && self.per_api_key.wf()
    }

    /// A ledger with `limits` and windows of `window_secs`, the global window
    /// starting at `now_secs`.
    pub fn new(limits: DimensionLimits, window_secs: u64, now_secs: u64) -> (l: Self)
        ensures
            l.wf(),
            l@.global_limit == limits.global,
            l@.window_secs == window_secs,
            l@.global == (WindowModel { spend_mc: 0, start_secs: now_secs as nat, window_secs: window_secs as nat }),
            l@.model == (TableModel { limits: limits.per_model@, windows: Map::empty() }),
            l@.tenant == (TableModel { limits: limits.per_tenant@, windows: Map::empty() }),
            l@.user == (TableModel { limits: limits.per_user@, windows: Map::empty() }),
            l@.api_key == (TableModel { limits: limits.per_api_key@, windows: Map::empty() }),
    {
        InMemoryBudgetLedger {
            global_limit: limits.global,
            window_secs,
            global: SpendWindow::new(window_secs, now_secs),
            per_model: DimensionTable::with_limits(limits.per_model),
            per_tenant: DimensionTable::with_limits(limits.per_tenant),
            per_user: DimensionTable::with_limits(limits.per_user),
            per_api_key: DimensionTable::with_limits(limits.per_api_key),
        }
    }

    /// A ledger enforcing a budget configuration: its global and per-model
    /// caps, over windows of [`LEDGER_CONFIG_WINDOW_SECS`] (30 days).
    pub fn from_config(config: BudgetConfig, now_secs: u64) -> (l: Self)
        ensures
            l.wf(),
            l@.global_limit == config.global_limit_mc,
            l@.window_secs == LEDGER_CONFIG_WINDOW_SECS,
            l@.global == (WindowModel { spend_mc: 0, start_secs: now_secs as nat, window_secs: LEDGER_CONFIG_WINDOW_SECS as nat }),
            l@.model == (TableModel { limits: config.model_limits_mc@, windows: Map::empty() }),
            l@.tenant == (TableModel { limits: Map::empty(), windows: Map::empty() }),
            l@.user == (TableModel { limits: Map::empty(), windows: Map::empty() }),
            l@.api_key == (TableModel { limits: Map::empty(), windows: Map::empty() }),
    {
        let mut limits = DimensionLimits::new();
        limits.global = config.global_limit_mc;
        limits.per_model = config.model_limits_mc;
        Self::new(limits, LEDGER_CONFIG_WINDOW_SECS, now_secs)
    }

    /// Record the cost `cost_mc` of a successful call against the global,
    /// model, and the tenant, user and API-key dimensions that are given.
    pub fn record(
        &mut self,
        model: &str,
        tenant_id: Option<&str>,
        user_id: Option<&str>,
        api_key_id: Option<&str>,
        cost_mc: u64,
        now_secs: u64,
    )
        requires
            old(self).wf(),
        ensures
            final(self).wf(),
            final(self)@ == ledger_record(old(self)@, model@, opt_view(tenant_id), opt_view(user_id),
                opt_view(api_key_id), cost_mc as nat, now_secs as nat),
    {
        self.global.add_mc(cost_mc, now_secs);
        let ws = self.window_secs;
        self.per_model.add(model, cost_mc, ws, now_secs);
        if let Some(t) = tenant_id {
            self.per_tenant.add(t, cost_mc, ws, now_secs);
        }
        if let Some(u) = user_id {
            self.per_user.add(u, cost_mc, ws, now_secs);
        }
        if let Some(k) = api_key_id {
            self.per_api_key.add(k, cost_mc, ws, now_secs);
        }
    }

    /// Pre-flight check: refuse on the first dimension (global, model,
    /// tenant, user, API key) whose spend has reached its limit.
    pub fn check(&mut self, ctx: &CostCheckContext) -> (v: BudgetVerdict)
        requires
            old(self).wf(),
        ensures
            final(self).wf(),
            ({
                let (hit, after) = ledger_check(old(self)@, ctx.model@, opt_view(ctx.tenant_id), opt_view(ctx.user_id),
                    opt_view(ctx.api_key_id), ctx.timestamp_secs as nat);
                &&& final(self)@ == after
                &&& hit is None ==> v is Allow
                &&& hit matches Some((h, spend, limit)) ==> (v matches BudgetVerdict::Reject { reason, dimension }
                    && reason@ == reject_reason(hit_label(h, ctx.model@, opt_view(ctx.tenant_id), opt_view(ctx.user_id),
                        opt_view(ctx.api_key_id)), spend, limit)
                    && dimension_is(dimension, h, ctx.model@, opt_view(ctx.tenant_id), opt_view(ctx.user_id),
                        opt_view(ctx.api_key_id)))
            }),
    {
        let now = ctx.timestamp_secs;
        if let Some(limit) = self.global_limit {
            let spend = self.global.spend_mc(now);
            if spend >= limit {
                proof { reveal_strlit("global"); }
                return reject(String::from_str("global"), spend, limit, BudgetDimension::Global);
            }
        }
        if let Some((spend, limit)) = self.per_model.check(ctx.model, now) {
            let label = labelled("model:", ctx.model);
            return reject(label, spend, limit, BudgetDimension::Model(String::from_str(ctx.model)));
        }
        if let Some(t) = ctx.tenant_id {
            if let Some((spend, limit)) = self.per_tenant.check(t, now) {
                let label = labelled("tenant:", t);
                return reject(label, spend, limit, BudgetDimension::Tenant(String::from_str(t)));
            }
        }
        if let Some(u) = ctx.user_id {
            if let Some((spend, limit)) = self.per_user.check(u, now) {
                let label = labelled("user:", u);
                return reject(label, spend, limit, BudgetDimension::User(String::from_str(u)));
            }
        }
        if let Some(k) = ctx.api_key_id {
            if let Some((spend, limit)) = self.per_api_key.check(k, now) {
                let label = labelled("api_key:", k);
                return reject(label, spend, limit, BudgetDimension::ApiKey(String::from_str(k)));
            }
        }
        BudgetVerdict::Allow
    }

    /// Spend of the global window at `now` (restarting it if elapsed).
    pub fn global_spend(&mut self, now_secs: u64) -> (mc: u64)
        requires
            old(self).wf(),
        ensures
            final(self).wf(),
            final(self)@ == (LedgerModel { global: window_at(old(self)@.global, now_secs as nat), ..old(self)@ }),
            mc as nat == window_at(old(self)@.global, now_secs as nat).spend_mc,
    {
        self.global.spend_mc(now_secs)
    }

    /// Spend of `model` at `now` (0 when never recorded).
    pub fn model_spend(&mut self, model: &str, now_secs: u64) -> (mc: u64)
        requires
            old(self).wf(),
        ensures
            final(self).wf(),
            (mc as nat, final(self)@.model) == table_read(old(self)@.model, model@, now_secs as nat),
            final(self)@ == (LedgerModel { model: final(self)@.model, ..old(self)@ }),
    {
        self.per_model.spend(model, now_secs)
    }

    /// Forget all spend: the global window restarts at `now_secs` (its start
    /// is first moved back to the epoch, so the restart happens as soon as
    /// `now_secs` is at least one window long) and the per-key windows are
    /// dropped.
    pub fn reset(&mut self, now_secs: u64)
        requires
            old(self).wf(),
        ensures
            final(self).wf(),
            final(self)@ == (LedgerModel {
                global: window_at(WindowModel { spend_mc: 0, start_secs: 0, ..old(self)@.global }, now_secs as nat),
                model: TableModel { windows: Map::empty(), ..old(self)@.model },
                tenant: TableModel { windows: Map::empty(), ..old(self)@.tenant },
                user: TableModel { windows: Map::empty(), ..old(self)@.user },
                api_key: TableModel { windows: Map::empty(), ..old(self)@.api_key },
                ..old(self)@
            }),
    {
        self.global.reset(0);
        let _ = self.global.spend_mc(now_secs);
        self.per_model.clear_spend();
        self.per_tenant.clear_spend();
        self.per_user.clear_spend();
        self.per_api_key.clear_spend();
    }
}

/// Spend of every tracked dimension at one instant.
pub struct BudgetSnapshot {
    /// Global spend.
    pub global_spend_mc: u64,
    /// Spend per model seen, in first-recorded order.
    pub per_model: Vec<(String, u64)>,
    /// Spend per tenant seen.
    pub per_tenant: Vec<(String, u64)>,
    /// Spend per user seen.
    pub per_user: Vec<(String, u64)>,
    /// Spend per API key seen.
    pub per_api_key: Vec<(String, u64)>,
    /// The configured global cap.
    pub limit_global: Option<u64>,
}

/// `out` lists, in order, the keys of a table with their spend read at `now`.
pub open spec fn lists_spend(out: Seq<(String, u64)>, keys: Seq<Seq<char>>, t: TableModel, now: nat) -> bool {
    &&& out.len() == keys.len()
    &&& forall|i: int| 0 <= i < out.len() ==> (#[trigger] out[i]).0@ == keys[i]
        && out[i].1 as nat == window_at(t.windows[keys[i]], now).spend_mc
}

impl InMemoryBudgetLedger {
    /// The keys of each table, in first-recorded order:
    /// `(model, tenant, user, api_key)`.
    pub closed spec fn spec_keys(&self) -> (Seq<Seq<char>>, Seq<Seq<char>>, Seq<Seq<char>>, Seq<Seq<char>>) {
        (self.per_model.spec_keys(), self.per_tenant.spec_keys(), self.per_user.spec_keys(), self.per_api_key.spec_keys())
    }

    /// Spend of every dimension at `now_secs`; every elapsed window restarts.
    pub fn snapshot(&mut self, now_secs: u64) -> (s: BudgetSnapshot)
        requires
            old(self).wf(),
        ensures
            final(self).wf(),
            final(self).spec_keys() == old(self).spec_keys(),
            s.global_spend_mc as nat == window_at(old(self)@.global, now_secs as nat).spend_mc,
            s.limit_global == old(self)@.global_limit,
            lists_spend(s.per_model@, old(self).spec_keys().0, old(self)@.model, now_secs as nat),
            lists_spend(s.per_tenant@, old(self).spec_keys().1, old(self)@.tenant, now_secs as nat),
            lists_spend(s.per_user@, old(self).spec_keys().2, old(self)@.user, now_secs as nat),
            lists_spend(s.per_api_key@, old(self).spec_keys().3, old(self)@.api_key, now_secs as nat),
            final(self)@.global == window_at(old(self)@.global, now_secs as nat),
            final(self)@.model.windows == old(self)@.model.windows.map_values(|w: WindowModel| window_at(w, now_secs as nat)),
            final(self)@.tenant.windows == old(self)@.tenant.windows.map_values(|w: WindowModel| window_at(w, now_secs as nat)),
            final(self)@.user.windows == old(self)@.user.windows.map_values(|w: WindowModel| window_at(w, now_secs as nat)),
            final(self)@.api_key.windows == old(self)@.api_key.windows.map_values(|w: WindowModel| window_at(w, now_secs as nat)),
            final(self)@.global_limit == old(self)@.global_limit,
            final(self)@.window_secs == old(self)@.window_secs,
            final(self)@.model.limits == old(self)@.model.limits,
            final(self)@.tenant.limits == old(self)@.tenant.limits,
            final(self)@.user.limits == old(self)@.user.limits,
            final(self)@.api_key.limits == old(self)@.api_key.limits,
    {
        let global_spend_mc = self.global.spend_mc(now_secs);
        let per_model = self.per_model.snapshot(now_secs);
        let per_tenant = self.per_tenant.snapshot(now_secs);
        let per_user = self.per_user.snapshot(now_secs);
        let per_api_key = self.per_api_key.snapshot(now_secs);
        BudgetSnapshot { global_spend_mc, per_model, per_tenant, per_user, per_api_key, limit_global: self.global_limit }
    }

    /// The cap of a user, if any.
    pub fn user_limit(&self, user: &str) -> (r: Option<u64>)
        ensures
            r == (if self@.user.limits.contains_key(user@) { Some(self@.user.limits[user@]) } else { None }),
    {
        self.per_user.limit(user)
    }

    /// The cap of an API key, if any.
    pub fn api_key_limit(&self, key: &str) -> (r: Option<u64>)
        ensures
            r == (if self@.api_key.limits.contains_key(key@) { Some(self@.api_key.limits[key@]) } else { None }),
    {
        self.per_api_key.limit(key)
    }

    /// The cap of a tenant, if any.
    pub fn tenant_limit(&self, tenant: &str) -> (r: Option<u64>)
        ensures
            r == (if self@.tenant.limits.contains_key(tenant@) { Some(self@.tenant.limits[tenant@]) } else { None }),
    {
        self.per_tenant.limit(tenant)
    }
}

/// Spend of `key` in a table read at `now` (0 for a key never recorded).
pub open spec fn table_spend(t: TableModel, key: Seq<char>, now: nat) -> nat {
    if t.windows.contains_key(key) { window_at(t.windows[key], now).spend_mc } else { 0 }
}

/// The `(spend, limit)` pair of an optional key of a table, when the key is
/// given and has a limit.
pub open spec fn limited_pair(t: TableModel, key: Option<Seq<char>>, now: nat) -> Seq<(nat, nat)> {
    match key {
        Some(k) => if t.limits.contains_key(k) { seq![(table_spend(t, k, now), t.limits[k] as nat)] } else { Seq::empty() },
        None => Seq::empty(),
    }
}

/// The `(spend, limit)` pairs a hedging decision weighs, in order: the
/// global dimension, then the user, API-key and tenant dimensions of the
/// call, each only when it has a limit; spends are read at `now`.
pub open spec fn hedge_pairs(l: LedgerModel, user: Option<Seq<char>>, api_key: Option<Seq<char>>, tenant: Option<Seq<char>>, now: nat) -> Seq<(nat, nat)> {
    (match l.global_limit {
        Some(limit) => seq![(window_at(l.global, now).spend_mc, limit as nat)],
        None => Seq::<(nat, nat)>::empty(),
    }) + limited_pair(l.user, user, now) + limited_pair(l.api_key, api_key, now) + limited_pair(l.tenant, tenant, now)
}

/// The spend listed for `key`: that of the first entry named `key`, or 0.
fn listed_spend(list: &Vec<(String, u64)>, key: &str) -> (r: u64)
    ensures
        forall|i: int| 0 <= i < list@.len() && list@[i].0@ == key@
            && (forall|j: int| 0 <= j < i ==> (#[trigger] list@[j]).0@ != key@) ==> r == list@[i].1,
        (forall|i: int| 0 <= i < list@.len() ==> (#[trigger] list@[i]).0@ != key@) ==> r == 0,
{
    let mut i: usize = 0;
    while i < list.len()
        invariant
            i <= list@.len(),
            forall|j: int| 0 <= j < i ==> (#[trigger] list@[j]).0@ != key@,
        decreases list@.len() - i,
    {
        if str_eq(list[i].0.as_str(), key) {
            return list[i].1;
        }
        i = i + 1;
    }
    0
}

/// Looking a key up in the spend list of a well-formed table gives its spend.
proof fn lemma_listed_is_table_spend(out: Seq<(String, u64)>, keys: Seq<Seq<char>>, t: TableModel, now: nat, key: Seq<char>, r: u64)
    requires
        lists_spend(out, keys, t, now),
        forall|i: int, j: int| 0 <= i < j < keys.len() ==> keys[i] != keys[j],
        forall|i: int| 0 <= i < keys.len() ==> t.windows.contains_key(#[trigger] keys[i]),
        forall|k: Seq<char>| #[trigger] t.windows.contains_key(k) ==> keys.contains(k),
        forall|i: int| 0 <= i < out.len() && out[i].0@ == key
            && (forall|j: int| 0 <= j < i ==> (#[trigger] out[j]).0@ != key) ==> r == out[i].1,
        (forall|i: int| 0 <= i < out.len() ==> (#[trigger] out[i]).0@ != key) ==> r == 0,
    ensures
        r as nat == table_spend(t, key, now),
{
    if t.windows.contains_key(key) {
        let i = choose|i: int| 0 <= i < keys.len() && keys[i] == key;
        assert(out[i].0@ == key);
        assert forall|j: int| 0 <= j < i implies (#[trigger] out[j]).0@ != key by {
            assert(out[j].0@ == keys[j]);
        }
    } else {
        assert forall|i: int| 0 <= i < out.len() implies (#[trigger] out[i]).0@ != key by {
            assert(out[i].0@ == keys[i]);
        }
    }
}

impl InMemoryBudgetLedger {
    /// The `(spend, limit)` pairs a hedging decision weighs for the call
    /// `ctx` (see [`hedge_pairs`]), read from a snapshot at the call's time,
    /// so that every elapsed window restarts as in [`Self::snapshot`].
    pub fn hedge_budget_pairs(&mut self, ctx: &CostCheckContext) -> (r: Vec<(u64, u64)>)
        requires
            old(self).wf(),
        ensures
            final(self).wf(),
            r@.map_values(|p: (u64, u64)| (p.0 as nat, p.1 as nat))
                == hedge_pairs(old(self)@, opt_view(ctx.user_id), opt_view(ctx.api_key_id), opt_view(ctx.tenant_id), ctx.timestamp_secs as nat),
            final(self).spec_keys() == old(self).spec_keys(),
            final(self)@.global == window_at(old(self)@.global, ctx.timestamp_secs as nat),
            final(self)@.model.windows == old(self)@.model.windows.map_values(|w: WindowModel| window_at(w, ctx.timestamp_secs as nat)),
            final(self)@.tenant.windows == old(self)@.tenant.windows.map_values(|w: WindowModel| window_at(w, ctx.timestamp_secs as nat)),
            final(self)@.user.windows == old(self)@.user.windows.map_values(|w: WindowModel| window_at(w, ctx.timestamp_secs as nat)),
            final(self)@.api_key.windows == old(self)@.api_key.windows.map_values(|w: WindowModel| window_at(w, ctx.timestamp_secs as nat)),
            final(self)@.global_limit == old(self)@.global_limit,
            final(self)@.window_secs == old(self)@.window_secs,
            final(self)@.model.limits == old(self)@.model.limits,
            final(self)@.tenant.limits == old(self)@.tenant.limits,
            final(self)@.user.limits == old(self)@.user.limits,
            final(self)@.api_key.limits == old(self)@.api_key.limits,
    {
        let now = ctx.timestamp_secs;
        let ghost l0 = self@;
        let ghost k0 = self.spec_keys();
        proof {
            assert(self.per_user.wf() && self.per_api_key.wf() && self.per_tenant.wf());
        }
        let snap = self.snapshot(now);
        let mut pairs: Vec<(u64, u64)> = Vec::new();
        if let Some(limit) = snap.limit_global {
            pairs.push((snap.global_spend_mc, limit));
        }
        let ghost p0 = pairs@;
        if let Some(u) = ctx.user_id {
            if let Some(limit) = self.user_limit(u) {
                let spend = listed_spend(&snap.per_user, u);
                proof { lemma_listed_is_table_spend(snap.per_user@, k0.2, l0.user, now as nat, u@, spend); }
                pairs.push((spend, limit));
            }
        }
        let ghost p1 = pairs@;
        if let Some(k) = ctx.api_key_id {
            if let Some(limit) = self.api_key_limit(k) {
                let spend = listed_spend(&snap.per_api_key, k);
                proof { lemma_listed_is_table_spend(snap.per_api_key@, k0.3, l0.api_key, now as nat, k@, spend); }
                pairs.push((spend, limit));
            }
        }
        let ghost p2 = pairs@;
        if let Some(t) = ctx.tenant_id {
            if let Some(limit) = self.tenant_limit(t) {
                let spend = listed_spend(&snap.per_tenant, t);
                proof { lemma_listed_is_table_spend(snap.per_tenant@, k0.1, l0.tenant, now as nat, t@, spend); }
                pairs.push((spend, limit));
            }
        }
        proof {
            let f = |p: (u64, u64)| (p.0 as nat, p.1 as nat);
            let g = match l0.global_limit {
                Some(limit) => seq![(window_at(l0.global, now as nat).spend_mc, limit as nat)],
                None => Seq::<(nat, nat)>::empty(),
            };
            let lu = limited_pair(l0.user, opt_view(ctx.user_id), now as nat);
            let lk = limited_pair(l0.api_key, opt_view(ctx.api_key_id), now as nat);
            let lt = limited_pair(l0.tenant, opt_view(ctx.tenant_id), now as nat);
            assert(p0.map_values(f) =~= g);
            assert(p1.map_values(f) =~= g + lu);
            assert(p2.map_values(f) =~= g + lu + lk);
            assert(pairs@.map_values(f) =~= g + lu + lk + lt);
        }
        pairs
    }
}

/// The global limit is consulted first: when it is reached the check refuses
/// on the global dimension whatever the other dimensions hold.
pub proof fn law_ledger_global_first(
    l: LedgerModel,
    model: Seq<char>,
    tenant: Option<Seq<char>>,
    user: Option<Seq<char>>,
    api_key: Option<Seq<char>>,
    now: nat,
)
    requires
        l.global_limit matches Some(limit) && window_at(l.global, now).spend_mc >= limit,
    ensures
        ledger_check(l, model, tenant, user, api_key, now).0 matches Some((h, _, _)) && h == LedgerHit::Global,
{
}

/// Spend recorded for a model counts against its limit within the window:
/// when the recorded total reaches the model's limit (and no global limit
/// is set), the next check in the same window refuses on that model.
/// (A zero-length window restarts at every read, so nothing accumulates.)
pub proof fn law_ledger_record_then_check(l: LedgerModel, model: Seq<char>, mc: nat, now: nat)
    requires
        l.global_limit is None,
        l.model.limits.contains_key(model),
        l.model.windows.contains_key(model),
        l.model.windows[model].window_secs > 0,
        window_at(l.model.windows[model], now).spend_mc + mc < 0x1_0000_0000_0000_0000,
        window_at(l.model.windows[model], now).spend_mc + mc >= l.model.limits[model],
    ensures
        ledger_check(ledger_record(l, model, None, None, None, mc, now), model, None, None, None, now).0
            == Some((LedgerHit::Model, window_at(l.model.windows[model], now).spend_mc + mc, l.model.limits[model] as nat)),
{
    let w = window_at(l.model.windows[model], now);
    let after = window_after_add(l.model.windows[model], mc, now);
    assert(after.spend_mc == w.spend_mc + mc);
    assert(!crate::tower::window::window_elapsed(after.start_secs, after.window_secs, now));
}

} // verus!
