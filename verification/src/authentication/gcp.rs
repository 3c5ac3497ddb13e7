//! The interceptor that authenticates gRPC requests with GCP credentials.

use tonic::metadata::MetadataMap;
use vstd::prelude::*;

use crate::auth::clock::Timestamp;
use crate::auth::gcp::GcpAuthProvider;
use crate::auth::gcp::GcpAuthProviderView;
use crate::auth::token_cache::TokenCacheView;
use crate::auth::token_cache::DEFAULT_STALENESS_THRESHOLD;
use crate::auth::AuthEvent;
use crate::auth::AuthEventView;
use crate::config::ConfigError;
use crate::config::GCPAuthConfig;
use crate::tracer::decided;
use crate::tracer::intercept;
use crate::tracer::is_header_text;
use crate::tracer::is_header_text_char;
use crate::tracer::lemma_credential_names_are_taken;
use crate::tracer::lemma_first_invalid_value;
use crate::tracer::merged;
use crate::tracer::AdapterError;
use crate::tracer::Entries;
use crate::tracer::HeaderSink;
use crate::tracer::Intercepted;
use crate::tracer::MergeError;
use crate::tracer::Outcome;
use crate::tracer::RpcCode;
use crate::tracer::MAX_NAMES;

verus! {

/// `GCPAuthenticationInterceptor` is a gRPC interceptor that handles
/// authentication using Google Cloud Platform (GCP) credentials. It keeps
/// the access token and asks for a new one once the token is stale.
pub struct GCPAuthenticationInterceptor {
    provider: GcpAuthProvider,
}

impl View for GCPAuthenticationInterceptor {
    type V = GcpAuthProviderView;

    closed spec fn view(&self) -> GcpAuthProviderView {
        self.provider@
    }
}

impl GCPAuthenticationInterceptor {
    /// Creates a new instance of `GCPAuthenticationInterceptor` for the
    /// project that `GOOGLE_PROJECT_ID` names. Without a project there is
    /// no interceptor. The interceptor holds no token yet and serves a
    /// fetched one for `DEFAULT_STALENESS_THRESHOLD` seconds.
    pub fn new_with_default(google_project_id: Option<&String>) -> (r: Result<
        GCPAuthenticationInterceptor,
        ConfigError,
    >)
        ensures
            match google_project_id {
                Some(project) => r matches Ok(interceptor) && interceptor@ == (GcpAuthProviderView {
                    cache: TokenCacheView { current: None, staleness_threshold: DEFAULT_STALENESS_THRESHOLD },
                    project_id: project@,
                }),
                None => r matches Err(e) && e == ConfigError::MissingProjectId,
            },
    {
        match google_project_id {
            Some(project) => {
                let config = GCPAuthConfig { project_id: project.clone() };
                Ok(GCPAuthenticationInterceptor { provider: GcpAuthProvider::new_with_default(&config) })
            },
            None => Err(ConfigError::MissingProjectId),
        }
    }

    /// One step for a request whose metadata is `metadata`: the token that
    /// the cache serves goes in as the authorization entry, then the project
    /// as the entry that names who is billed; or the request is rejected.
    pub fn call(&mut self, metadata: MetadataMap, event: AuthEvent) -> (r: Intercepted<MetadataMap>)
        ensures
            final(self)@ == old(self)@.after(event@),
            r.outcome() == decided::<MetadataMap>(old(self)@.answer(event@), metadata.entries()),
            r matches Intercepted::Fetch(back) ==> back == metadata,
    {
        intercept(&mut self.provider, metadata, event)
    }
}

/// An interceptor whose project holds an ASCII control character other
/// than the tab rejects the request that a fetched token is reported for,
/// and does so for an invalid value, which is reported as an internal
/// condition: the token is merged in, the project is not.
pub proof fn lemma_project_with_control_character_is_internal(
    interceptor: GcpAuthProviderView,
    entries: Entries,
    token: Seq<char>,
    now: Option<Timestamp>,
    j: int,
)
    requires
        is_header_text(token),
        entries.dom().len() < MAX_NAMES,
        0 <= j < interceptor.project_id.len(),
        interceptor.project_id[j] != '\t',
        (interceptor.project_id[j] as u32) < 32 || interceptor.project_id[j] as u32 == 127,
    ensures
        decided::<MetadataMap>(interceptor.answer(AuthEventView::Fetched { result: Ok(token), now }), entries)
            == Outcome::Reject(AdapterError::Headers(MergeError::InvalidValue)),
        AdapterError::Headers(MergeError::InvalidValue).spec_rpc_code() == RpcCode::Internal,
{
    let project = interceptor.project_id;
    let pairs = crate::auth::gcp::gcp_pairs(token, project);
    lemma_credential_names_are_taken();
    reveal_strlit("Bearer ");
    let bearer = "Bearer "@ + token;
    assert forall|i: int| 0 <= i < bearer.len() implies is_header_text_char(#[trigger] bearer[i]) by {
        if i >= 7 {
            assert(bearer[i] == token[i - 7]);
        } else {
            assert(bearer[i] == "Bearer "@[i]);
        }
    }
    assert(is_header_text(bearer));
    assert(!is_header_text_char(project[j]));
    assert(!is_header_text(project));
    let first = pairs.take(1);
    assert(first.first() == ("authorization"@, bearer));
    assert(first.drop_first() =~= Seq::<(Seq<char>, Seq<char>)>::empty());
    assert(MetadataMap::name_of("authorization"@) is Some);
    assert(merged::<MetadataMap>(entries, first) is Ok) by {
        reveal_with_fuel(merged, 2);
    }
    assert(pairs[1] == ("x-goog-user-project"@, project));
    lemma_first_invalid_value::<MetadataMap>(entries, pairs, 1);
}

} // verus!
