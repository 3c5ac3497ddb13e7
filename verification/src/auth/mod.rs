//! The credential capability: one operation that yields the header pairs to
//! attach to an outbound request.

use vstd::prelude::*;

pub mod clock;
pub mod gcp;
pub mod layer;
pub mod token_cache;
pub mod token_source;
pub mod unauthenticated;

use crate::auth::clock::Timestamp;
use crate::auth::gcp::GcpAuthProvider;
use crate::auth::unauthenticated::Unauthenticated;

verus! {

/// Why the credential authority yielded no bearer token.
#[derive(Clone, Copy, Debug, PartialEq, Eq, Hash, Structural)]
pub enum FetchError {
    /// No credentials could be set up for the authority.
    Credentials,
    /// The authority did not answer the request for headers.
    Headers,
    /// The answer carried no bearer token.
    MissingToken,
}

/// What a caller reports to a step function. Each event carries the
/// instant that the clock showed, or `None` where the clock could not be
/// read.
#[derive(Debug, PartialEq, Eq)]
pub enum AuthEvent {
    /// An outbound request needs credentials at `now`.
    Request { now: Option<Timestamp> },
    /// A fetch that a previous step asked for has ended at `now`.
    Fetched { result: Result<String, FetchError>, now: Option<Timestamp> },
}

/// The mathematical value of an [`AuthEvent`].
pub enum AuthEventView {
    Request { now: Option<Timestamp> },
    Fetched { result: Result<Seq<char>, FetchError>, now: Option<Timestamp> },
}

impl View for AuthEvent {
    type V = AuthEventView;

    open spec fn view(&self) -> AuthEventView {
        match self {
            AuthEvent::Request { now } => AuthEventView::Request { now: *now },
            AuthEvent::Fetched { result, now } => AuthEventView::Fetched {
                result: match result {
                    Ok(token) => Ok(token@),
                    Err(e) => Err(*e),
                },
                now: *now,
            },
        }
    }
}

/// Header pairs as plain text: each a name and a value.
pub type Pairs = Seq<(Seq<char>, Seq<char>)>;

/// What a capability answers a step with.
#[derive(Debug, Clone, PartialEq, Eq)]
pub enum HeaderAction {
    /// Attach these pairs to the request.
    Ready(Vec<(String, String)>),
    /// Fetch a token and report the outcome as `AuthEvent::Fetched`.
    Fetch,
    /// Drop the request: no credentials could be had. No pair is produced.
    Fail(FetchError),
}

/// The mathematical value of a [`HeaderAction`].
pub enum HeaderActionView {
    Ready(Pairs),
    Fetch,
    Fail(FetchError),
}

impl View for HeaderAction {
    type V = HeaderActionView;

    open spec fn view(&self) -> HeaderActionView {
        match self {
            HeaderAction::Ready(pairs) => HeaderActionView::Ready(pairs.deep_view()),
            HeaderAction::Fetch => HeaderActionView::Fetch,
            HeaderAction::Fail(e) => HeaderActionView::Fail(*e),
        }
    }
}

/// The credential capability: yields the header pairs for one request.
pub trait GetToken: Sized {
    /// The answer to `event`.
    spec fn answer(&self, event: AuthEventView) -> HeaderActionView;

    /// Whether `next` is this capability after `event`.
    spec fn steps_to(&self, event: AuthEventView, next: &Self) -> bool;

    /// One step: takes `event` in and answers it.
    fn get_auth_headers(&mut self, event: AuthEvent) -> (action: HeaderAction)
        ensures
            old(self).steps_to(event@, final(self)),
            action@ == old(self).answer(event@),
    ;
}

/// The capabilities that a configuration can select.
pub enum TokenProvider {
    /// Attaches nothing.
    Unauthenticated(Unauthenticated),
    /// Attaches a GCP bearer token and the project that is billed.
    Gcp(GcpAuthProvider),
}

impl GetToken for TokenProvider {
    open spec fn answer(&self, event: AuthEventView) -> HeaderActionView {
        match self {
            TokenProvider::Unauthenticated(inner) => inner.answer(event),
            TokenProvider::Gcp(inner) => inner.answer(event),
        }
    }

    open spec fn steps_to(&self, event: AuthEventView, next: &TokenProvider) -> bool {
        match (self, next) {
            (TokenProvider::Unauthenticated(inner), TokenProvider::Unauthenticated(after)) => inner.steps_to(
                event,
                after,
            ),
            (TokenProvider::Gcp(inner), TokenProvider::Gcp(after)) => inner.steps_to(event, after),
            _ => false,
        }
    }

    fn get_auth_headers(&mut self, event: AuthEvent) -> (action: HeaderAction) {
        match self {
            TokenProvider::Unauthenticated(inner) => inner.get_auth_headers(event),
            TokenProvider::Gcp(inner) => inner.get_auth_headers(event),
        }
    }
}

} // verus!
