//! The gRPC interceptor.

use tonic::metadata::MetadataMap;
use vstd::prelude::*;

use crate::auth::AuthEvent;
use crate::auth::GetToken;
use crate::auth::TokenProvider;
use crate::tracer::decided;
use crate::tracer::intercept;
use crate::tracer::HeaderSink;
use crate::tracer::Intercepted;

verus! {

/// A gRPC interceptor that adds authorization metadata to requests.
pub struct TonicInterceptor {
    token_provider: TokenProvider,
}

impl TonicInterceptor {
    /// The capability that this interceptor holds.
    pub closed spec fn provider(&self) -> TokenProvider {
        self.token_provider
    }

    /// Creates a new instance of `TonicInterceptor`.
    pub fn new(token_provider: TokenProvider) -> (interceptor: TonicInterceptor)
        ensures
            interceptor.provider() == token_provider,
    {
        TonicInterceptor { token_provider }
    }

    /// One step for a request whose metadata is `metadata`: the pairs of the
    /// capability are merged into the metadata, or the request is rejected.
    pub fn call(&mut self, metadata: MetadataMap, event: AuthEvent) -> (r: Intercepted<MetadataMap>)
        ensures
            old(self).provider().steps_to(event@, &final(self).provider()),
            r.outcome() == decided::<MetadataMap>(old(self).provider().answer(event@), metadata.entries()),
            r matches Intercepted::Fetch(back) ==> back == metadata,
    {
        intercept(&mut self.token_provider, metadata, event)
    }
}

} // verus!
