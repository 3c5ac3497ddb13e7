//! The capability that attaches a GCP bearer token.

use vstd::prelude::*;
use vstd::string::StringExecFns;

use crate::auth::token_cache::TokenAction;
use crate::auth::token_cache::TokenActionView;
use crate::auth::token_cache::TokenCache;
use crate::auth::token_cache::TokenCacheView;
use crate::auth::token_cache::DEFAULT_STALENESS_THRESHOLD;
use crate::auth::AuthEvent;
use crate::auth::AuthEventView;
use crate::auth::GetToken;
use crate::auth::HeaderAction;
use crate::auth::HeaderActionView;
use crate::auth::Pairs;
use crate::config::GCPAuthConfig;

verus! {

/// Attaches a cached GCP bearer token, fetched anew once it is stale, and
/// the project that requests are billed to.
pub struct GcpAuthProvider {
    cache: TokenCache,
    project_id: String,
}

/// The mathematical value of a [`GcpAuthProvider`].
pub struct GcpAuthProviderView {
    pub cache: TokenCacheView,
    pub project_id: Seq<char>,
}

/// The pairs that carry `token` for `project_id`.
pub open spec fn gcp_pairs(token: Seq<char>, project_id: Seq<char>) -> Pairs {
    seq![("authorization"@, "Bearer "@ + token), ("x-goog-user-project"@, project_id)]
}

impl GcpAuthProviderView {
    /// The answer to `event`: the pairs for the token that the cache serves,
    /// or what the cache answers in place of a token.
    pub open spec fn answer(self, event: AuthEventView) -> HeaderActionView {
        match self.cache.step(event).1 {
            TokenActionView::Serve(token) => HeaderActionView::Ready(gcp_pairs(token, self.project_id)),
            TokenActionView::Fetch => HeaderActionView::Fetch,
            TokenActionView::Fail(e) => HeaderActionView::Fail(e),
        }
    }

    /// The provider after `event`: the cache has taken its step, the project
    /// is the one given at construction.
    pub open spec fn after(self, event: AuthEventView) -> GcpAuthProviderView {
        GcpAuthProviderView { cache: self.cache.step(event).0, project_id: self.project_id }
    }
}

impl View for GcpAuthProvider {
    type V = GcpAuthProviderView;

    closed spec fn view(&self) -> GcpAuthProviderView {
        GcpAuthProviderView { cache: self.cache@, project_id: self.project_id@ }
    }
}

impl GcpAuthProvider {
    /// Creates a new instance of `GcpAuthProvider` for the project of
    /// `config`. It holds no token yet and serves a fetched one for
    /// `DEFAULT_STALENESS_THRESHOLD` seconds.
    pub fn new_with_default(config: &GCPAuthConfig) -> (provider: GcpAuthProvider)
        ensures
            provider@ == (GcpAuthProviderView {
                cache: TokenCacheView { current: None, staleness_threshold: DEFAULT_STALENESS_THRESHOLD },
                project_id: config.project_id@,
            }),
    {
        GcpAuthProvider {
            cache: TokenCache::new(DEFAULT_STALENESS_THRESHOLD),
            project_id: config.project_id.clone(),
        }
    }
}

impl GetToken for GcpAuthProvider {
    open spec fn answer(&self, event: AuthEventView) -> HeaderActionView {
        self@.answer(event)
    }

    open spec fn steps_to(&self, event: AuthEventView, next: &GcpAuthProvider) -> bool {
        next@ == self@.after(event)
    }

    fn get_auth_headers(&mut self, event: AuthEvent) -> (action: HeaderAction) {
        match self.cache.get_and_update_token(event) {
            TokenAction::Serve(token) => {
                let mut pairs: Vec<(String, String)> = Vec::new();
                pairs.push((String::from_str("authorization"), String::from_str("Bearer ").concat(token.as_str())));
                pairs.push((String::from_str("x-goog-user-project"), self.project_id.clone()));
                assert(pairs.deep_view() =~= gcp_pairs(token@, self.project_id@));
                HeaderAction::Ready(pairs)
            },
            TokenAction::Fetch => HeaderAction::Fetch,
            TokenAction::Fail(e) => HeaderAction::Fail(e),
        }
    }
}

} // verus!
