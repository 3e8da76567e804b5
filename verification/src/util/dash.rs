//! Concurrent maps (`dashmap::DashMap`) held by the library.
//!
//! Each map is owned by one library value and changed only through `&mut`
//! access, so what it holds is a function of that value: a name per kind of
//! map says what, and each operation below states its effect on it.

use vstd::prelude::*;
use dashmap::DashMap;
use crate::tower::window::SpendWindow;
use crate::tower::rate_limit::ModelRateState;

verus! {

/// `dashmap::DashMap`, a sharded concurrent hash map.
#[verifier::external_type_specification]
#[verifier::external_body]
#[verifier::reject_recursive_types(K)]
#[verifier::reject_recursive_types(V)]
#[verifier::reject_recursive_types(S)]
pub struct ExDashMap<K, V, S>(DashMap<K, V, S>);

/// What a map of spend windows holds: the window stored under each name.
pub uninterp spec fn window_entries(m: DashMap<String, SpendWindow>) -> Map<Seq<char>, SpendWindow>;

/// `DashMap::new`: a map holding nothing.
#[verifier::external_body]
pub(crate) fn windows_new() -> (m: DashMap<String, SpendWindow>)
    ensures
        window_entries(m).dom() == Set::<Seq<char>>::empty(),
{
    DashMap::new()
}

/// `DashMap::get`, copying the window out of the returned guard: the window
/// stored under `key`, if any.
#[verifier::external_body]
pub(crate) fn windows_get(m: &DashMap<String, SpendWindow>, key: &str) -> (r: Option<SpendWindow>)
    ensures
        r == (if window_entries(*m).contains_key(key@) { Some(window_entries(*m)[key@]) } else { None }),
{
    match m.get(key) {
        Some(w) => Some(*w),
        None => None,
    }
}

/// `DashMap::insert`: `w` is stored under `key`, replacing any window there;
/// nothing else changes.
#[verifier::external_body]
pub(crate) fn windows_insert(m: &mut DashMap<String, SpendWindow>, key: String, w: SpendWindow)
    ensures
        window_entries(*final(m)) == window_entries(*old(m)).insert(key@, w),
{
    m.insert(key, w);
}

/// `DashMap::clear`: the map holds nothing afterwards.
#[verifier::external_body]
pub(crate) fn windows_clear(m: &mut DashMap<String, SpendWindow>)
    ensures
        window_entries(*final(m)).dom() == Set::<Seq<char>>::empty(),
{
    m.clear();
}

/// What a map of counters holds: the count stored under each name.
pub uninterp spec fn counter_entries(m: DashMap<String, u64>) -> Map<Seq<char>, u64>;

/// `DashMap::new`: a map holding nothing.
#[verifier::external_body]
pub(crate) fn counters_new() -> (m: DashMap<String, u64>)
    ensures
        counter_entries(m).dom() == Set::<Seq<char>>::empty(),
{
    DashMap::new()
}

/// `DashMap::get`, copying the count out of the returned guard: the count
/// stored under `key`, if any.
#[verifier::external_body]
pub(crate) fn counters_get(m: &DashMap<String, u64>, key: &str) -> (r: Option<u64>)
    ensures
        r == (if counter_entries(*m).contains_key(key@) { Some(counter_entries(*m)[key@]) } else { None }),
{
    match m.get(key) {
        Some(v) => Some(*v),
        None => None,
    }
}

/// `DashMap::insert`: `v` is stored under `key`, replacing any count there;
/// nothing else changes.
#[verifier::external_body]
pub(crate) fn counters_insert(m: &mut DashMap<String, u64>, key: String, v: u64)
    ensures
        counter_entries(*final(m)) == counter_entries(*old(m)).insert(key@, v),
{
    m.insert(key, v);
}

/// `DashMap::clear`: the map holds nothing afterwards.
#[verifier::external_body]
pub(crate) fn counters_clear(m: &mut DashMap<String, u64>)
    ensures
        counter_entries(*final(m)).dom() == Set::<Seq<char>>::empty(),
{
    m.clear();
}

/// What a map of rate counters holds: the counters stored under each model.
pub uninterp spec fn rate_entries(m: DashMap<String, ModelRateState>) -> Map<Seq<char>, ModelRateState>;

/// `DashMap::new`: a map holding nothing.
#[verifier::external_body]
pub(crate) fn rates_new() -> (m: DashMap<String, ModelRateState>)
    ensures
        rate_entries(m).dom() == Set::<Seq<char>>::empty(),
{
    DashMap::new()
}

/// `DashMap::get`, copying the counters out of the returned guard: the
/// counters stored under `key`, if any.
#[verifier::external_body]
pub(crate) fn rates_get(m: &DashMap<String, ModelRateState>, key: &str) -> (r: Option<ModelRateState>)
    ensures
        r == (if rate_entries(*m).contains_key(key@) { Some(rate_entries(*m)[key@]) } else { None }),
{
    match m.get(key) {
        Some(v) => Some(*v),
        None => None,
    }
}

/// `DashMap::insert`: `v` is stored under `key`, replacing any counters
/// there; nothing else changes.
#[verifier::external_body]
pub(crate) fn rates_insert(m: &mut DashMap<String, ModelRateState>, key: String, v: ModelRateState)
    ensures
        rate_entries(*final(m)) == rate_entries(*old(m)).insert(key@, v),
{
    m.insert(key, v);
}

/// What a set of in-flight keys holds (the map's keys; its values are `()`).
pub uninterp spec fn flight_keys(m: DashMap<u64, ()>) -> Set<u64>;

/// `DashMap::new`: a map holding nothing.
#[verifier::external_body]
pub(crate) fn flights_new() -> (m: DashMap<u64, ()>)
    ensures
        flight_keys(m) == Set::<u64>::empty(),
{
    DashMap::new()
}

/// `DashMap::contains_key`: whether `key` is held.
#[verifier::external_body]
pub(crate) fn flights_contains(m: &DashMap<u64, ()>, key: u64) -> (b: bool)
    ensures
        b == flight_keys(*m).contains(key),
{
    m.contains_key(&key)
}

/// `DashMap::insert`: `key` is held afterwards; nothing else changes.
#[verifier::external_body]
pub(crate) fn flights_insert(m: &mut DashMap<u64, ()>, key: u64)
    ensures
        flight_keys(*final(m)) == flight_keys(*old(m)).insert(key),
{
    m.insert(key, ());
}

/// `DashMap::remove`: `key` is not held afterwards; nothing else changes.
#[verifier::external_body]
pub(crate) fn flights_remove(m: &mut DashMap<u64, ()>, key: u64)
    ensures
        flight_keys(*final(m)) == flight_keys(*old(m)).remove(key),
{
    m.remove(&key);
}

} // verus!
