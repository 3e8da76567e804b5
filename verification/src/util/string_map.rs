//! Lookups in string-keyed standard maps.

use vstd::prelude::*;
use std::collections::HashMap;

verus! {

/// `HashMap::get` with a string-slice key: the value stored under the key
/// whose text equals `key`, if any.
#[verifier::external_body]
pub(crate) fn string_map_get<'a>(map: &'a HashMap<String, String>, key: &str) -> (r: Option<&'a String>)
    ensures
        r matches Some(v) ==> exists|k: String| k@ == key@ && #[trigger] map@.contains_key(k) && map@[k] == *v,
        r is None ==> forall|k: String| k@ == key@ ==> !#[trigger] map@.contains_key(k),
{
    map.get(key)
}

} // verus!
