//! The adapter for gRPC requests.

pub mod interceptor;
pub mod metadata;
