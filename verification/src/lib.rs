//! Bearer credentials for telemetry export.
//!
//! A token cache fetches a short-lived bearer token lazily, keeps it for a
//! bounded window and hands it out as request headers; transport adapters
//! merge those headers into gRPC metadata or HTTP header maps.
//!
//! Fetching a token is network work that this crate does not perform. Each
//! stateful operation is therefore a step function: it takes an
//! [`auth::AuthEvent`] and answers with an action, one of which asks the
//! caller to fetch and to come back with the outcome.

pub mod auth;
pub mod authentication;
pub mod config;
pub mod tracer;
