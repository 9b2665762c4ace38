//! The provider registration step of the calling core: a configuration
//! that is built up before use, so that "provider not yet set" is visible
//! in its state.

use vstd::prelude::*;

use crate::providers::ProviderInterface;

verus! {

/// Collects the provider the calling core will run against.
pub struct RpcCoreBuilder<P: ProviderInterface> {
    provider: Option<P>,
}

impl<P: ProviderInterface> RpcCoreBuilder<P> {
    /// The provider registered so far, if any.
    pub closed spec fn spec_provider(self) -> Option<P> {
        self.provider
    }

    /// Whether a provider has been registered.
    pub fn has_provider(&self) -> (r: bool)
        ensures
            r == (self.spec_provider() is Some),
    {
        self.provider.is_some()
    }

    /// Registers `provider`; a later registration replaces an earlier one.
    pub fn add_provider(&mut self, provider: P)
        ensures
            final(self).spec_provider() == Some(provider),
    {
        self.provider = Some(provider);
    }
}

impl<P: ProviderInterface> Default for RpcCoreBuilder<P> {
    fn default() -> (r: Self)
        ensures
            r.spec_provider() is None,
    {
        RpcCoreBuilder { provider: None }
    }
}

} // verus!
