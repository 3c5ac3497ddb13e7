//! Selects the capability that a configuration asks for.

use vstd::prelude::*;

use crate::auth::gcp::GcpAuthProvider;
use crate::auth::gcp::GcpAuthProviderView;
use crate::auth::token_cache::TokenCacheView;
use crate::auth::token_cache::DEFAULT_STALENESS_THRESHOLD;
use crate::auth::unauthenticated::Unauthenticated;
use crate::auth::TokenProvider;
use crate::config::AuthConfig;

verus! {

/// Creates a new token provider based on the given authentication
/// configuration: none, or one for the configured GCP project that holds no
/// token yet.
pub fn new_gen_token(config: &AuthConfig) -> (provider: TokenProvider)
    ensures
        match config {
            AuthConfig::Unauthenticated => provider is Unauthenticated,
            AuthConfig::GCPAuth(conf) => provider matches TokenProvider::Gcp(gcp) && gcp@ == (
                GcpAuthProviderView {
                    cache: TokenCacheView { current: None, staleness_threshold: DEFAULT_STALENESS_THRESHOLD },
                    project_id: conf.project_id@,
                }),
        },
{
    match config {
        AuthConfig::Unauthenticated => TokenProvider::Unauthenticated(Unauthenticated::new()),
        AuthConfig::GCPAuth(conf) => TokenProvider::Gcp(GcpAuthProvider::new_with_default(conf)),
    }
}

} // verus!
