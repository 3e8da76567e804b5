//! The bottom of the stack: a service over an LLM client.

use vstd::prelude::*;
use std::sync::Arc;

verus! {

/// A service that forwards each request to the matching method of a shared
/// client.
pub struct LlmService<C> {
    inner: Arc<C>,
}

impl<C> LlmService<C> {
    /// The shared client.
    pub closed spec fn spec_client(&self) -> C {
        *self.inner
    }

    /// A service owning `client`.
    pub fn new(client: C) -> (s: Self)
        ensures
            s.spec_client() == client,
    {
        LlmService { inner: Arc::new(client) }
    }

    /// A service over an already shared client.
    pub fn new_from_arc(client: Arc<C>) -> (s: Self)
        ensures
            s.spec_client() == *client,
    {
        LlmService { inner: client }
    }

    /// The client.
    pub fn inner(&self) -> (c: &C)
        ensures
            *c == self.spec_client(),
    {
        &*self.inner
    }

    /// A handle sharing the same client.
    pub fn share(&self) -> (s: Self)
        ensures
            s.spec_client() == self.spec_client(),
    {
        LlmService { inner: Arc::clone(&self.inner) }
    }
}

} // verus!
