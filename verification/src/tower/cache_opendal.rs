//! Response cache over an OpenDAL object store.
//!
//! Each entry is one object at `prefix` followed by the decimal key, holding
//! the request body, the response and an absolute expiry in seconds.  A
//! read of an expired object deletes it and misses; a read whose stored
//! body differs from the request's misses.  The object I/O itself is done
//! by the embedding application; the decisions are here.

use vstd::prelude::*;
use std::collections::HashMap;
use crate::error::LiterLlmError;
use crate::text::{str_eq, u64_decimal, decimal_text};

verus! {

/// `opendal::Operator`, a handle on an object store.
#[verifier::external_type_specification]
#[verifier::external_body]
pub struct ExOpendalOperator(opendal::Operator);

/// `opendal::Error`, the error of an object-store operation.
#[verifier::external_type_specification]
#[verifier::external_body]
pub struct ExOpendalError(opendal::Error);

/// `Operator::via_iter`: an operator for `scheme` configured by the
/// key-value pairs.  Whether it succeeds depends on the schemes registered
/// in the process-wide registry, so nothing is stated of the outcome.
#[verifier::external_body]
fn operator_via_iter(scheme: &str, config: HashMap<String, String>) -> Result<opendal::Operator, opendal::Error> {
    opendal::Operator::via_iter(scheme, config)
}

/// The display text of an `opendal::Error`.  Nothing is stated of it.
#[verifier::external_body]
fn opendal_error_text(e: &opendal::Error) -> String {
    e.to_string()
}

/// Message of the error answered when no operator could be built.
pub open spec fn operator_build_message(scheme: Seq<char>, detail: Seq<char>) -> Seq<char> {
    "failed to build OpenDAL operator for '"@ + scheme + "': "@ + detail
}

/// Cache store over an object store.
pub struct OpenDalCacheStore {
    operator: opendal::Operator,
    prefix: String,
    ttl_secs: u64,
}

impl OpenDalCacheStore {
    /// Path prefix of the objects.
    pub closed spec fn spec_prefix(&self) -> Seq<char> {
        self.prefix@
    }

    /// The object store.
    pub closed spec fn spec_operator(&self) -> opendal::Operator {
        self.operator
    }

    /// Lifetime of an entry in seconds.
    pub closed spec fn spec_ttl_secs(&self) -> u64 {
        self.ttl_secs
    }

    /// A store over `operator`, objects under `prefix`, entries living
    /// `ttl_secs` seconds.
    pub fn new(operator: opendal::Operator, prefix: String, ttl_secs: u64) -> (s: Self)
        ensures
            s.spec_operator() == operator,
            s.spec_prefix() == prefix@,
            s.spec_ttl_secs() == ttl_secs,
    {
        OpenDalCacheStore { operator, prefix, ttl_secs }
    }

    /// The store for the outcome of building an operator for `scheme`: the
    /// store over the operator, or an internal error carrying the build
    /// error's text.
    pub fn from_operator_result(
        scheme: &str,
        operator: Result<opendal::Operator, String>,
        prefix: String,
        ttl_secs: u64,
    ) -> (r: Result<Self, LiterLlmError>)
        ensures
            operator is Ok <==> r is Ok,
            r matches Ok(s) ==> s.spec_prefix() == prefix@ && s.spec_ttl_secs() == ttl_secs
                && operator == Ok::<opendal::Operator, String>(s.spec_operator()),
            operator matches Err(detail) ==> (r matches Err(LiterLlmError::InternalError { message })
                && message@ == operator_build_message(scheme@, detail@)),
    {
        match operator {
            Ok(op) => Ok(Self::new(op, prefix, ttl_secs)),
            Err(detail) => {
                let mut message = String::from_str("failed to build OpenDAL operator for '");
                message.append(scheme);
                message.append("': ");
                message.append(detail.as_str());
                proof {
                    reveal_strlit("failed to build OpenDAL operator for '");
                    reveal_strlit("': ");
                }
                Err(LiterLlmError::InternalError { message })
            },
        }
    }

    /// A store over the operator built for `scheme` from `config`; an
    /// unknown scheme or an invalid configuration is an internal error.
    pub fn from_config(
        scheme: &str,
        config: HashMap<String, String>,
        prefix: String,
        ttl_secs: u64,
    ) -> (r: Result<Self, LiterLlmError>)
        ensures
            r matches Ok(s) ==> s.spec_prefix() == prefix@ && s.spec_ttl_secs() == ttl_secs,
            r matches Err(e) ==> (e matches LiterLlmError::InternalError { message }
                && exists|detail: Seq<char>| message@ == operator_build_message(scheme@, detail)),
    {
        match operator_via_iter(scheme, config) {
            Ok(op) => Self::from_operator_result(scheme, Ok(op), prefix, ttl_secs),
            Err(e) => {
                let detail = opendal_error_text(&e);
                let ghost d = detail@;
                let r = Self::from_operator_result(scheme, Err(detail), prefix, ttl_secs);
                assert(r matches Err(LiterLlmError::InternalError { message })
                    && message@ == operator_build_message(scheme@, d));
                r
            },
        }
    }

    /// The object store.
    pub fn operator(&self) -> (o: &opendal::Operator)
        ensures
            *o == self.spec_operator(),
    {
        &self.operator
    }

    /// Lifetime of an entry in seconds.
    pub fn ttl_secs(&self) -> (t: u64)
        ensures
            t == self.spec_ttl_secs(),
    {
        self.ttl_secs
    }

    /// The object path of `key`: the prefix followed by the key in decimal.
    pub fn key_path(&self, key: u64) -> (p: String)
        ensures
            p@ == self.spec_prefix() + decimal_text(key as nat),
    {
        let mut p = self.prefix.clone();
        let digits = u64_decimal(key);
        p.append(digits.as_str());
        p
    }

    /// Expiry (seconds since the epoch) of an entry written at `now_secs`.
    pub fn expiry(&self, now_secs: u64) -> (t: u64)
        requires
            now_secs + self.spec_ttl_secs() <= u64::MAX,
        ensures
            t == now_secs + self.spec_ttl_secs(),
    {
        now_secs + self.ttl_secs
    }
}

/// What a read of a stored entry finds.
#[derive(Debug, Clone, Copy, PartialEq, Eq, Structural)]
pub enum StoredLookup {
    /// The entry has expired: delete it and miss.
    Expired,
    /// The entry belongs to another request body: miss.
    BodyMismatch,
    /// The entry answers the request.
    Hit,
}

/// Decision on a stored entry expiring at `expires_at` with body
/// `stored_body`, read for `request_body` at `now_secs`: expired when
/// `now_secs` is past the expiry, else a hit exactly when the bodies match.
pub fn stored_entry_lookup(expires_at: u64, stored_body: &str, request_body: &str, now_secs: u64) -> (l: StoredLookup)
    ensures
        now_secs > expires_at ==> l == StoredLookup::Expired,
        now_secs <= expires_at && stored_body@ != request_body@ ==> l == StoredLookup::BodyMismatch,
        now_secs <= expires_at && stored_body@ == request_body@ ==> l == StoredLookup::Hit,
{
    if now_secs > expires_at {
        StoredLookup::Expired
    } else if !str_eq(stored_body, request_body) {
        StoredLookup::BodyMismatch
    } else {
        StoredLookup::Hit
    }
}

} // verus!
