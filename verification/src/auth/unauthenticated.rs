//! The capability that attaches nothing.

use vstd::prelude::*;

use crate::auth::AuthEvent;
use crate::auth::AuthEventView;
use crate::auth::GetToken;
use crate::auth::HeaderAction;
use crate::auth::HeaderActionView;

verus! {

/// An authentication provider that does not provide any token.
#[derive(Debug, Clone)]
pub struct Unauthenticated;

impl Unauthenticated {
    /// Creates a new instance of `Unauthenticated`.
    pub fn new() -> (provider: Unauthenticated)
        ensures
            forall|event: AuthEventView|
                #[trigger] provider.answer(event) == HeaderActionView::Ready(Seq::empty()),
    {
        Unauthenticated {  }
    }
}

impl GetToken for Unauthenticated {
    /// No pairs, whatever the event and whatever came before.
    open spec fn answer(&self, event: AuthEventView) -> HeaderActionView {
        HeaderActionView::Ready(Seq::empty())
    }

    open spec fn steps_to(&self, event: AuthEventView, next: &Unauthenticated) -> bool {
        true
    }

    fn get_auth_headers(&mut self, event: AuthEvent) -> (action: HeaderAction)
        ensures
            action@ == HeaderActionView::Ready(Seq::empty()),
    {
        let pairs: Vec<(String, String)> = Vec::new();
        assert(pairs.deep_view() =~= Seq::empty());
        HeaderAction::Ready(pairs)
    }
}

} // verus!
