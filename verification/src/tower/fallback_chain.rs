//! Multi-step fallback chain.
//!
//! An ordered list of services is walked front to back.  A transient error
//! moves on to the next service, a terminal error ends the walk at once, and
//! the first success is returned.  When every service failed transiently the
//! last error is returned; an empty chain answers with a 500 server error.
//!
//! The walk alternates calls of services with decisions; the decisions are
//! [`chain_start`] and [`chain_next`], which a driver applies after each
//! attempt (the error of a failed readiness check counts as that attempt's
//! error).

use vstd::prelude::*;
use std::sync::Arc;
use crate::error::{LiterLlmError, spec_is_transient};

verus! {

/// Classification of a failed attempt.
#[derive(Clone, Copy, Debug, Eq, PartialEq, Structural)]
pub enum RetryClass {
    /// Advance to the next service in the chain.
    Transient,
    /// Return immediately without consulting further services.
    Terminal,
}

/// Classifies an error as transient or terminal for the chain walk.
pub trait RetryPolicy {
    /// The classification of `error`.
    spec fn spec_classify(&self, error: LiterLlmError) -> RetryClass;

    /// Classify `error`.
    fn classify(&self, error: &LiterLlmError) -> (c: RetryClass)
        ensures
            c == self.spec_classify(*error),
    ;
}

/// Transient exactly when [`LiterLlmError::is_transient`] says so.
#[derive(Clone, Copy, Debug, Default)]
pub struct DefaultRetryPolicy;

impl RetryPolicy for DefaultRetryPolicy {
    open spec fn spec_classify(&self, error: LiterLlmError) -> RetryClass {
        if spec_is_transient(error) { RetryClass::Transient } else { RetryClass::Terminal }
    }

    fn classify(&self, error: &LiterLlmError) -> (c: RetryClass) {
        if error.is_transient() { RetryClass::Transient } else { RetryClass::Terminal }
    }
}

/// Unique access to the shared chain; when the chain is shared it is cloned
/// first (`Arc::make_mut`), so each element is the original or a clone of it.
#[verifier::external_body]
fn unique_chain<S: Clone>(chain: &mut Arc<Vec<S>>) -> (v: &mut Vec<S>)
    ensures
        v@.len() == (**old(chain))@.len(),
        forall|i: int| 0 <= i < v@.len() ==> cloned::<S>((**old(chain))@[i], #[trigger] v@[i]),
        **final(chain) == *final(v),
{
    Arc::make_mut(chain)
}

/// Layer that owns an ordered chain of services and a retry policy.
pub struct FallbackChainLayer<S, R> {
    chain: Arc<Vec<S>>,
    policy: Arc<R>,
}

impl<S, R> FallbackChainLayer<S, R> {
    /// The services, in the order they are tried.
    pub closed spec fn spec_chain(&self) -> Seq<S> {
        (*self.chain)@
    }

    /// The retry policy.
    pub closed spec fn spec_policy(&self) -> R {
        *self.policy
    }

    /// A layer over `chain` with a custom retry policy.
    pub fn with_policy(chain: Vec<S>, policy: R) -> (l: Self)
        ensures
            l.spec_chain() == chain@,
            l.spec_policy() == policy,
    {
        FallbackChainLayer { chain: Arc::new(chain), policy: Arc::new(policy) }
    }

    /// The service that walks this layer's chain (the layer has no single
    /// inner service; the argument of a Tower `layer` call is `()`).
    pub fn layer(&self) -> (s: FallbackChainService<S, R>)
        ensures
            s.spec_chain() == self.spec_chain(),
            s.spec_policy() == self.spec_policy(),
    {
        FallbackChainService { chain: Arc::clone(&self.chain), policy: Arc::clone(&self.policy) }
    }
}

impl<S> FallbackChainLayer<S, DefaultRetryPolicy> {
    /// A layer over `chain` with the default retry policy.  An empty chain
    /// is allowed: every call then answers with a server error.
    pub fn new(chain: Vec<S>) -> (l: Self)
        ensures
            l.spec_chain() == chain@,
    {
        FallbackChainLayer { chain: Arc::new(chain), policy: Arc::new(DefaultRetryPolicy) }
    }
}

impl<S: Clone, R> FallbackChainLayer<S, R> {
    /// The same layer with `head` tried first.  Where the chain is shared
    /// with services already built, it is copied (element by element, each
    /// the original or a clone of it) before the insertion.
    pub fn prepend(self, head: S) -> (l: Self)
        ensures
            l.spec_chain().len() == self.spec_chain().len() + 1,
            l.spec_chain()[0] == head,
            forall|i: int| 0 <= i < self.spec_chain().len()
                ==> cloned::<S>(self.spec_chain()[i], #[trigger] l.spec_chain()[i + 1]),
            l.spec_policy() == self.spec_policy(),
    {
        let mut this = self;
        let ghost before = (*this.chain)@;
        let v = unique_chain(&mut this.chain);
        v.insert(0, head);
        proof {
            assert forall|i: int| 0 <= i < before.len()
                implies cloned::<S>(before[i], #[trigger] (*this.chain)@[i + 1]) by {
                assert((*this.chain)@[i + 1] == (*this.chain)@[i + 1]);
            }
        }
        this
    }
}

/// Service produced by [`FallbackChainLayer`].
pub struct FallbackChainService<S, R> {
    chain: Arc<Vec<S>>,
    policy: Arc<R>,
}

impl<S, R> FallbackChainService<S, R> {
    /// The services, in the order they are tried.
    pub closed spec fn spec_chain(&self) -> Seq<S> {
        (*self.chain)@
    }

    /// The retry policy.
    pub closed spec fn spec_policy(&self) -> R {
        *self.policy
    }

    /// The service at position `i` of the chain.
    pub fn service(&self, i: usize) -> (s: &S)
        requires
            i < self.spec_chain().len(),
        ensures
            *s == self.spec_chain()[i as int],
    {
        &self.chain[i]
    }

    /// Number of services in the chain.
    pub fn len(&self) -> (n: usize)
        ensures
            n == self.spec_chain().len(),
    {
        self.chain.len()
    }

    /// The retry policy.
    pub fn policy(&self) -> (p: &R)
        ensures
            *p == self.spec_policy(),
    {
        &*self.policy
    }
}

/// Next move of a chain walk.
pub enum ChainStep<T> {
    /// Call the service at this position.
    Try(usize),
    /// The walk is over; hand this result to the caller.
    Done(Result<T, LiterLlmError>),
}

/// Message of the error answered by an empty chain.
pub open spec fn empty_chain_message() -> Seq<char> {
    "fallback chain is empty"@
}

/// The error answered by an empty chain.
pub open spec fn is_empty_chain_error(e: LiterLlmError) -> bool {
    e matches LiterLlmError::ServerError { message, status } && status == 500 && message@ == empty_chain_message()
}

/// First move: the head of the chain, or the empty-chain error.
pub fn chain_start<T>(len: usize) -> (s: ChainStep<T>)
    ensures
        len > 0 ==> s == ChainStep::<T>::Try(0),
        len == 0 ==> (s matches ChainStep::Done(Err(e)) && is_empty_chain_error(e)),
{
    if len == 0 {
        ChainStep::Done(Err(LiterLlmError::ServerError { message: String::from_str("fallback chain is empty"), status: 500 }))
    } else {
        ChainStep::Try(0)
    }
}

/// The move after attempt `attempt` of a chain of `len` services.
pub open spec fn spec_chain_next<P: RetryPolicy, T>(
    policy: P,
    len: nat,
    attempt: nat,
    outcome: Result<T, LiterLlmError>,
) -> ChainStep<T> {
    match outcome {
        Ok(v) => ChainStep::Done(Ok(v)),
        Err(e) => if policy.spec_classify(e) == RetryClass::Terminal || attempt + 1 >= len {
            ChainStep::Done(Err(e))
        } else {
            ChainStep::Try((attempt + 1) as usize)
        },
    }
}

/// Decision after attempt `attempt`: a success or a terminal error ends the
/// walk with that result; a transient error moves to the next service, or,
/// after the last one, ends the walk with that (the last) error.
pub fn chain_next<P: RetryPolicy, T>(policy: &P, len: usize, attempt: usize, outcome: Result<T, LiterLlmError>) -> (s: ChainStep<T>)
    requires
        attempt < len,
    ensures
        s == spec_chain_next(*policy, len as nat, attempt as nat, outcome),
{
    match outcome {
        Ok(v) => ChainStep::Done(Ok(v)),
        Err(e) => {
            let class = policy.classify(&e);
            if class == RetryClass::Terminal || attempt + 1 >= len {
                ChainStep::Done(Err(e))
            } else {
                ChainStep::Try(attempt + 1)
            }
        },
    }
}

/// An attempt that ends the walk: a success or a terminal error.
pub open spec fn decisive<P: RetryPolicy, T>(policy: P, r: Result<T, LiterLlmError>) -> bool {
    match r {
        Ok(_) => true,
        Err(e) => policy.spec_classify(e) == RetryClass::Terminal,
    }
}

/// The walk from attempt `i` on, when attempt `j` yields `outcomes[j]`:
/// the result handed to the caller and how many services were called.
/// (`None` when the walk runs past the end, which a non-empty chain never does.)
pub open spec fn walk_from<P: RetryPolicy, T>(policy: P, outcomes: Seq<Result<T, LiterLlmError>>, i: nat) -> (Option<Result<T, LiterLlmError>>, nat)
    decreases outcomes.len() - i,
{
    if i >= outcomes.len() {
        (None, i)
    } else {
        match spec_chain_next(policy, outcomes.len(), i, outcomes[i as int]) {
            ChainStep::Done(r) => (Some(r), i + 1),
            ChainStep::Try(_) => walk_from(policy, outcomes, i + 1),
        }
    }
}

/// The walk of a non-empty chain returns the outcome of the first decisive
/// attempt (a success or a terminal error), and calls no service after it;
/// when no attempt is decisive every service is called once and the last
/// transient error is returned.
pub proof fn law_chain_walk<P: RetryPolicy, T>(policy: P, outcomes: Seq<Result<T, LiterLlmError>>, k: nat)
    requires
        k < outcomes.len(),
        decisive(policy, outcomes[k as int]),
        forall|j: int| 0 <= j < k ==> !decisive(policy, #[trigger] outcomes[j]),
    ensures
        walk_from(policy, outcomes, 0) == (Some(outcomes[k as int]), k + 1),
{
    lemma_walk_reaches(policy, outcomes, 0, k);
}

/// Transient failures all the way: every service is called and the last
/// error is the answer.
pub proof fn law_chain_exhausted<P: RetryPolicy, T>(policy: P, outcomes: Seq<Result<T, LiterLlmError>>)
    requires
        outcomes.len() > 0,
        forall|j: int| 0 <= j < outcomes.len() ==> !decisive(policy, #[trigger] outcomes[j]),
    ensures
        walk_from(policy, outcomes, 0) == (Some(outcomes.last()), outcomes.len()),
{
    lemma_walk_reaches(policy, outcomes, 0, (outcomes.len() - 1) as nat);
}

proof fn lemma_walk_reaches<P: RetryPolicy, T>(policy: P, outcomes: Seq<Result<T, LiterLlmError>>, i: nat, k: nat)
    requires
        i <= k < outcomes.len(),
        decisive(policy, outcomes[k as int]) || k + 1 == outcomes.len(),
        forall|j: int| i <= j < k ==> !decisive(policy, #[trigger] outcomes[j]),
    ensures
        walk_from(policy, outcomes, i) == (Some(outcomes[k as int]), k + 1),
    decreases k - i,
{
    if i < k {
        assert(!decisive(policy, outcomes[i as int]));
        lemma_walk_reaches(policy, outcomes, i + 1, k);
    }
}

} // verus!
