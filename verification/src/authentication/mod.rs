//! Interceptors for gRPC requests, selected by configuration.

use tonic::metadata::MetadataMap;
use vstd::prelude::*;

pub mod gcp;
pub mod unauthenticated;

use crate::auth::gcp::GcpAuthProviderView;
use crate::auth::token_cache::TokenCacheView;
use crate::auth::token_cache::DEFAULT_STALENESS_THRESHOLD;
use crate::auth::AuthEvent;
use crate::auth::AuthEventView;
use crate::authentication::gcp::GCPAuthenticationInterceptor;
use crate::authentication::unauthenticated::UnauthenticatedInterceptor;
use crate::config::ConfigError;
use crate::config::OTLPTraceInterceptor;
use crate::tracer::decided;
use crate::tracer::Entries;
use crate::tracer::HeaderSink;
use crate::tracer::Intercepted;
use crate::tracer::Outcome;

verus! {

/// A common interceptor that can represent different authentication
/// strategies.
pub enum CommonInterceptor {
    Unauthenticated(UnauthenticatedInterceptor),
    GCP(GCPAuthenticationInterceptor),
}

impl CommonInterceptor {
    /// Create a new CommonInterceptor based on the OTLPTraceInterceptor
    /// configuration and the project that `GOOGLE_PROJECT_ID` names. The
    /// GCP strategy cannot be had without a project; the other one does not
    /// look at it.
    pub fn new(interceptor_config: &OTLPTraceInterceptor, google_project_id: Option<&String>) -> (r: Result<
        CommonInterceptor,
        ConfigError,
    >)
        ensures
            match (interceptor_config, google_project_id) {
                (OTLPTraceInterceptor::Unauthenticated, _) => r matches Ok(interceptor)
                    && interceptor is Unauthenticated,
                (OTLPTraceInterceptor::GCP, Some(project)) => r matches Ok(CommonInterceptor::GCP(gcp)) && gcp@ == (
                    GcpAuthProviderView {
                        cache: TokenCacheView { current: None, staleness_threshold: DEFAULT_STALENESS_THRESHOLD },
                        project_id: project@,
                    }),
                (OTLPTraceInterceptor::GCP, None) => r matches Err(e) && e == ConfigError::MissingProjectId,
            },
    {
        match interceptor_config {
            OTLPTraceInterceptor::Unauthenticated => Ok(
                CommonInterceptor::Unauthenticated(UnauthenticatedInterceptor::new()),
            ),
            OTLPTraceInterceptor::GCP => match GCPAuthenticationInterceptor::new_with_default(google_project_id) {
                Ok(interceptor) => Ok(CommonInterceptor::GCP(interceptor)),
                Err(e) => Err(e),
            },
        }
    }

    /// The decision of the strategy held for a request that holds
    /// `entries`.
    pub open spec fn decided(&self, entries: Entries, event: AuthEventView) -> Outcome {
        match self {
            CommonInterceptor::Unauthenticated(_) => Outcome::Forward(entries),
            CommonInterceptor::GCP(gcp) => decided::<MetadataMap>(gcp@.answer(event), entries),
        }
    }

    /// One step for a request whose metadata is `metadata`: that of the
    /// strategy held.
    pub fn call(&mut self, metadata: MetadataMap, event: AuthEvent) -> (r: Intercepted<MetadataMap>)
        ensures
            r.outcome() == old(self).decided(metadata.entries(), event@),
            match (*old(self), *final(self)) {
                (CommonInterceptor::Unauthenticated(_), CommonInterceptor::Unauthenticated(_)) => true,
                (CommonInterceptor::GCP(before), CommonInterceptor::GCP(after)) => after@ == before@.after(event@),
                _ => false,
            },
            r matches Intercepted::Fetch(back) ==> back == metadata,
    {
        match self {
            CommonInterceptor::Unauthenticated(interceptor) => interceptor.call(metadata),
            CommonInterceptor::GCP(interceptor) => interceptor.call(metadata, event),
        }
    }
}

} // verus!
