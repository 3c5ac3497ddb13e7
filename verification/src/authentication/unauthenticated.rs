//! The interceptor that lets requests pass as they are.

use tonic::metadata::MetadataMap;
use vstd::prelude::*;

use crate::tracer::Intercepted;

verus! {

/// An interceptor that adds nothing to a request.
#[derive(Clone, Debug)]
pub struct UnauthenticatedInterceptor;

impl UnauthenticatedInterceptor {
    /// Create a new instance of UnauthenticatedInterceptor.
    pub fn new() -> UnauthenticatedInterceptor {
        UnauthenticatedInterceptor {  }
    }

    /// The request remains unchanged.
    pub fn call(&mut self, metadata: MetadataMap) -> (r: Intercepted<MetadataMap>)
        ensures
            r == Intercepted::Forward(metadata),
    {
        Intercepted::Forward(metadata)
    }
}

} // verus!
