//! The adapter for HTTP requests sent through a reqwest client.

use tonic::codegen::http::HeaderMap;
use tonic::codegen::http::HeaderValue;
use vstd::prelude::*;

use crate::auth::AuthEvent;
use crate::auth::GetToken;
use crate::auth::TokenProvider;
use crate::tracer::decided;
use crate::tracer::intercept;
use crate::tracer::HeaderSink;
use crate::tracer::Intercepted;

verus! {

/// A Reqwest-based HTTP client that adds authentication tokens to requests.
pub struct ReqwestTracerClient {
    token_provider: TokenProvider,
}

impl ReqwestTracerClient {
    /// The capability that this client holds.
    pub closed spec fn provider(&self) -> TokenProvider {
        self.token_provider
    }

    /// Creates a new instance of `ReqwestTracerClient`.
    pub fn new(token_provider: TokenProvider) -> (client: ReqwestTracerClient)
        ensures
            client.provider() == token_provider,
    {
        ReqwestTracerClient { token_provider }
    }

    /// One step for a request whose headers are `headers`: the pairs of the
    /// capability are merged into the headers, or the request is rejected.
    pub fn get_token(&mut self, headers: HeaderMap<HeaderValue>, event: AuthEvent) -> (r: Intercepted<
        HeaderMap<HeaderValue>,
    >)
        ensures
            old(self).provider().steps_to(event@, &final(self).provider()),
            r.outcome() == decided::<HeaderMap<HeaderValue>>(
                old(self).provider().answer(event@),
                headers.entries(),
            ),
            r matches Intercepted::Fetch(back) ==> back == headers,
    {
        intercept(&mut self.token_provider, headers, event)
    }
}

} // verus!
