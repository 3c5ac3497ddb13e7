//! The token cache: at most one current token and the instant it was fetched.

use vstd::prelude::*;

use crate::auth::clock::Timestamp;
use crate::auth::clock::NANOS_PER_SEC;
use crate::auth::AuthEvent;
use crate::auth::AuthEventView;
use crate::auth::FetchError;

verus! {

/// Seconds for which a fetched token is served without a new fetch.
pub const DEFAULT_STALENESS_THRESHOLD: u64 = 600;

/// A bearer token and the instant at which the fetch that produced it
/// ended, `None` where the clock could not be read then.
#[derive(Debug, Clone, PartialEq, Eq)]
pub struct Token {
    pub value: String,
    pub fetched_at: Option<Timestamp>,
}

/// The mathematical value of a [`Token`].
pub struct TokenView {
    pub value: Seq<char>,
    pub fetched_at: Option<Timestamp>,
}

impl View for Token {
    type V = TokenView;

    open spec fn view(&self) -> TokenView {
        TokenView { value: self.value@, fetched_at: self.fetched_at }
    }
}

/// What a step of the cache tells its caller to do.
#[derive(Debug, Clone, PartialEq, Eq)]
pub enum TokenAction {
    /// Use this token.
    Serve(String),
    /// Fetch a token and report the outcome as `AuthEvent::Fetched`.
    Fetch,
    /// Give up on this request: the fetch failed.
    Fail(FetchError),
}

/// The mathematical value of a [`TokenAction`].
pub enum TokenActionView {
    Serve(Seq<char>),
    Fetch,
    Fail(FetchError),
}

impl View for TokenAction {
    type V = TokenActionView;

    open spec fn view(&self) -> TokenActionView {
        match self {
            TokenAction::Serve(token) => TokenActionView::Serve(token@),
            TokenAction::Fetch => TokenActionView::Fetch,
            TokenAction::Fail(e) => TokenActionView::Fail(*e),
        }
    }
}

/// Caches one bearer token for `staleness_threshold` seconds.
pub struct TokenCache {
    current: Option<Token>,
    staleness_threshold: u64,
}

/// The mathematical value of a [`TokenCache`]: the current token, absent
/// until a fetch has succeeded, and the threshold in seconds.
pub struct TokenCacheView {
    pub current: Option<TokenView>,
    pub staleness_threshold: u64,
}

impl TokenCacheView {
    /// Whether a request at `now` must fetch. It must where no token is
    /// held, and where the time since the fetch cannot be told: the clock
    /// cannot be read now, could not be read when the fetch ended, or shows
    /// an earlier instant than it did then. Otherwise it must once more
    /// time than the threshold has passed since the fetch.
    pub open spec fn stale_at(self, now: Option<Timestamp>) -> bool {
        match (self.current, now) {
            (Some(token), Some(now)) => match token.fetched_at {
                Some(fetched_at) => now.nanos < fetched_at.nanos || now.nanos - fetched_at.nanos
                    > self.staleness_threshold * NANOS_PER_SEC,
                None => true,
            },
            _ => true,
        }
    }

    /// The cache after a fetch that ended at `now`: a fetched token replaces
    /// the current one together with its instant, a failure changes nothing.
    pub open spec fn install(self, result: Result<Seq<char>, FetchError>, now: Option<Timestamp>) -> TokenCacheView {
        match result {
            Ok(value) => TokenCacheView {
                current: Some(TokenView { value, fetched_at: now }),
                staleness_threshold: self.staleness_threshold,
            },
            Err(_) => self,
        }
    }

    /// One step: the cache after `event` and the action it answers with.
    pub open spec fn step(self, event: AuthEventView) -> (TokenCacheView, TokenActionView) {
        match event {
            AuthEventView::Request { now } => if self.stale_at(now) {
                (self, TokenActionView::Fetch)
            } else {
                (self, TokenActionView::Serve(self.current->0.value))
            },
            AuthEventView::Fetched { result, now } => (
                self.install(result, now),
                match result {
                    Ok(value) => TokenActionView::Serve(value),
                    Err(e) => TokenActionView::Fail(e),
                },
            ),
        }
    }

    /// The cache after the steps for `events` in order, and their actions.
    pub open spec fn run(self, events: Seq<AuthEventView>) -> (TokenCacheView, Seq<TokenActionView>)
        decreases events.len(),
    {
        if events.len() == 0 {
            (self, Seq::empty())
        } else {
            let (before, actions) = self.run(events.drop_last());
            let (after, action) = before.step(events.last());
            (after, actions.push(action))
        }
    }
}

/// One request event for each of `times`, in order.
pub open spec fn requests_at(times: Seq<Timestamp>) -> Seq<AuthEventView> {
    Seq::new(times.len(), |i: int| AuthEventView::Request { now: Some(times[i]) })
}

/// Whether `now` lies no more than `threshold` seconds after `fetched_at`.
pub open spec fn within_window(fetched_at: Timestamp, now: Timestamp, threshold: u64) -> bool {
    fetched_at.nanos <= now.nanos && now.nanos - fetched_at.nanos <= threshold * NANOS_PER_SEC
}

impl View for TokenCache {
    type V = TokenCacheView;

    closed spec fn view(&self) -> TokenCacheView {
        TokenCacheView {
            current: match self.current {
                Some(token) => Some(token@),
                None => None,
            },
            staleness_threshold: self.staleness_threshold,
        }
    }
}

impl TokenCache {
    /// A cache that holds no token yet.
    pub fn new(staleness_threshold: u64) -> (cache: TokenCache)
        ensures
            cache@ == (TokenCacheView { current: None, staleness_threshold }),
    {
        TokenCache { current: None, staleness_threshold }
    }

    /// Whether a request at `now` must fetch.
    pub fn is_stale(&self, now: Option<Timestamp>) -> (stale: bool)
        ensures
            stale == self@.stale_at(now),
    {
        match (&self.current, now) {
            (Some(token), Some(now)) => match token.fetched_at {
                Some(fetched_at) => {
                    let threshold: u128 = self.staleness_threshold as u128;
                    assert(threshold * NANOS_PER_SEC <= u128::MAX) by (nonlinear_arith)
                        requires
                            threshold <= u64::MAX,
                            NANOS_PER_SEC == 1_000_000_000,
                    ;
                    now.nanos < fetched_at.nanos || now.nanos - fetched_at.nanos > threshold * NANOS_PER_SEC
                },
                None => true,
            },
            _ => true,
        }
    }

    /// Takes in the outcome of a fetch that ended at `now`.
    pub fn authenticate(&mut self, fetched: Result<String, FetchError>, now: Option<Timestamp>) -> (r: Result<
        (),
        FetchError,
    >)
        ensures
            final(self)@ == old(self)@.install(
                match fetched {
                    Ok(token) => Ok(token@),
                    Err(e) => Err(e),
                },
                now,
            ),
            r == (match fetched {
                Ok(_) => Ok::<(), FetchError>(()),
                Err(e) => Err(e),
            }),
    {
        match fetched {
            Ok(value) => {
                self.current = Some(Token { value, fetched_at: now });
                Ok(())
            },
            Err(e) => Err(e),
        }
    }

    /// One step of the cache. A request is served from the cache while the
    /// token is fresh and answered with `Fetch` otherwise; the outcome of a
    /// fetch is installed and served, or reported as a failure that leaves
    /// the cache as it was.
    pub fn get_and_update_token(&mut self, event: AuthEvent) -> (action: TokenAction)
        ensures
            (final(self)@, action@) == old(self)@.step(event@),
    {
        match event {
            AuthEvent::Request { now } => {
                if self.is_stale(now) {
                    TokenAction::Fetch
                } else {
                    match &self.current {
                        Some(token) => TokenAction::Serve(token.value.clone()),
                        None => TokenAction::Fetch,
                    }
                }
            },
            AuthEvent::Fetched { result, now } => {
                match result {
                    Ok(value) => {
                        let served: String = value.clone();
                        let _ = self.authenticate(Ok(value), now);
                        TokenAction::Serve(served)
                    },
                    Err(e) => TokenAction::Fail(e),
                }
            },
        }
    }
}

/// How many of `actions` ask for a fetch.
pub open spec fn count_fetches(actions: Seq<TokenActionView>) -> nat
    decreases actions.len(),
{
    if actions.len() == 0 {
        0
    } else {
        count_fetches(actions.drop_last()) + if actions.last() is Fetch {
            1nat
        } else {
            0nat
        }
    }
}

/// How many of `events` are requests.
pub open spec fn count_requests(events: Seq<AuthEventView>) -> nat
    decreases events.len(),
{
    if events.len() == 0 {
        0
    } else {
        count_requests(events.drop_last()) + if events.last() is Request {
            1nat
        } else {
            0nat
        }
    }
}

/// How many of `events` report the outcome of a fetch.
pub open spec fn count_reports(events: Seq<AuthEventView>) -> nat
    decreases events.len(),
{
    if events.len() == 0 {
        0
    } else {
        count_reports(events.drop_last()) + if events.last() is Fetched {
            1nat
        } else {
            0nat
        }
    }
}

/// Whether `events`, taken by `cache` in this order, can come from callers
/// that each make one request and, if told to fetch, fetch with success and
/// report it: every report brings a token and answers a fetch that was asked
/// for before it and not reported yet, and no fetch is left unreported.
pub open spec fn callers_history(cache: TokenCacheView, events: Seq<AuthEventView>) -> bool {
    &&& forall|i: int|
        0 <= i < events.len() && (#[trigger] events[i]) is Fetched ==> events[i]->Fetched_result is Ok
            && count_reports(events.take(i)) < count_fetches(cache.run(events.take(i)).1)
    &&& count_reports(events) == count_fetches(cache.run(events).1)
}

/// A run answers each event with one action.
pub proof fn lemma_run_len(cache: TokenCacheView, events: Seq<AuthEventView>)
    ensures
        cache.run(events).1.len() == events.len(),
    decreases events.len(),
{
    if events.len() > 0 {
        lemma_run_len(cache, events.drop_last());
    }
}

/// The run of the first `n` events is the start of the run of all.
pub proof fn lemma_run_prefix(cache: TokenCacheView, events: Seq<AuthEventView>, n: int)
    requires
        0 <= n <= events.len(),
    ensures
        cache.run(events.take(n)).1 == cache.run(events).1.take(n),
        n < events.len() ==> cache.run(events).1[n] == cache.run(events.take(n)).0.step(events[n]).1,
    decreases events.len(),
{
    lemma_run_len(cache, events);
    if n == events.len() {
        assert(events.take(n) =~= events);
        assert(cache.run(events).1.take(n) =~= cache.run(events).1);
    } else {
        let shorter = events.drop_last();
        lemma_run_len(cache, shorter);
        lemma_run_prefix(cache, shorter, n);
        assert(shorter.take(n) =~= events.take(n));
        assert(cache.run(shorter).1.take(n) =~= cache.run(events).1.take(n));
        if n == shorter.len() {
            assert(shorter.take(n) =~= shorter);
        }
    }
}

/// The fetches asked for in the first `n` actions are among those asked for
/// in all.
proof fn lemma_count_fetches_prefix(actions: Seq<TokenActionView>, n: int)
    requires
        0 <= n <= actions.len(),
    ensures
        count_fetches(actions.take(n)) <= count_fetches(actions),
    decreases actions.len(),
{
    if n == actions.len() {
        assert(actions.take(n) =~= actions);
    } else {
        lemma_count_fetches_prefix(actions.drop_last(), n);
        assert(actions.drop_last().take(n) =~= actions.take(n));
    }
}

/// Only a request is answered with `Fetch`, so no more fetches are asked
/// for than requests are made.
proof fn lemma_fetches_at_most_requests(cache: TokenCacheView, events: Seq<AuthEventView>)
    ensures
        count_fetches(cache.run(events).1) <= count_requests(events),
    decreases events.len(),
{
    if events.len() > 0 {
        lemma_fetches_at_most_requests(cache, events.drop_last());
        assert(cache.run(events).1.drop_last() =~= cache.run(events.drop_last()).1);
    }
}

/// Whether the event at `at` reports a fetch that brought `value`.
pub open spec fn brought(events: Seq<AuthEventView>, at: int, value: Seq<char>) -> bool {
    &&& 0 <= at < events.len()
    &&& events[at] matches AuthEventView::Fetched { result, .. }
    &&& result == Ok::<Seq<char>, FetchError>(value)
}

/// A cache that started without a token holds no value but one that a
/// report has brought.
pub proof fn lemma_held_token_was_brought(cache: TokenCacheView, events: Seq<AuthEventView>)
    requires
        cache.current is None,
    ensures
        cache.run(events).0.current matches Some(token) ==> exists|at: int| brought(events, at, token.value),
    decreases events.len(),
{
    if events.len() > 0 {
        let earlier = events.drop_last();
        lemma_held_token_was_brought(cache, earlier);
        let before = cache.run(earlier).0;
        let after = cache.run(events).0;
        if after.current is Some {
            let value = after.current->0.value;
            if before.current == after.current {
                let at = choose|at: int| brought(earlier, at, value);
                assert(earlier[at] == events[at]);
                assert(brought(events, at, value));
            } else {
                assert(brought(events, events.len() - 1, value));
            }
        }
    }
}

/// The first event of a history on a cache without a token is a request,
/// and it is answered with a fetch.
proof fn lemma_first_caller_fetches(cache: TokenCacheView, events: Seq<AuthEventView>)
    requires
        cache.current is None,
        events.len() > 0,
        callers_history(cache, events),
    ensures
        1 <= count_fetches(cache.run(events).1),
{
    let actions = cache.run(events).1;
    lemma_run_len(cache, events);
    assert(events.take(0) =~= Seq::<AuthEventView>::empty());
    assert(count_reports(events.take(0)) == 0);
    assert(cache.run(events.take(0)).1 =~= Seq::<TokenActionView>::empty());
    assert(count_fetches(cache.run(events.take(0)).1) == 0);
    assert(events[0] is Request);
    lemma_run_prefix(cache, events, 0);
    assert(cache.run(events.take(0)).0 == cache);
    assert(actions[0] is Fetch);
    let first = actions.take(1);
    assert(first.drop_last() =~= Seq::<TokenActionView>::empty());
    assert(first.last() == actions[0]);
    assert(count_fetches(first.drop_last()) == 0);
    assert(count_fetches(first) == 1);
    lemma_count_fetches_prefix(actions, 1);
}

/// Whether the caller behind the event at `i` is answered well: a request
/// is told to fetch, or served a value that an earlier report brought; a
/// report brings a token and is served that token.
pub open spec fn answered_well(events: Seq<AuthEventView>, actions: Seq<TokenActionView>, i: int) -> bool {
    if events[i] is Request {
        actions[i] is Fetch || (actions[i] is Serve && served_before(events, actions[i]->Serve_0, i))
    } else {
        events[i]->Fetched_result is Ok && actions[i] == TokenActionView::Serve(events[i]->Fetched_result->Ok_0)
    }
}

/// Whether a report before the event at `i` brought `value`.
pub open spec fn served_before(events: Seq<AuthEventView>, value: Seq<char>, i: int) -> bool {
    exists|at: int| #[trigger] brought(events, at, value) && at < i
}

/// How the event at `i` of a history on a cache without a token is
/// answered.
proof fn lemma_caller_answer(cache: TokenCacheView, events: Seq<AuthEventView>, i: int)
    requires
        cache.current is None,
        callers_history(cache, events),
        0 <= i < events.len(),
    ensures
        answered_well(events, cache.run(events).1, i),
{
    let actions = cache.run(events).1;
    lemma_run_prefix(cache, events, i);
    let seen = events.take(i);
    let held = cache.run(seen).0;
    assert(actions[i] == held.step(events[i]).1);
    if events[i] is Request {
        let now = events[i]->Request_now;
        if held.stale_at(now) {
            assert(actions[i] is Fetch);
        } else {
            lemma_held_token_was_brought(cache, seen);
            let value = held.current->0.value;
            assert(actions[i] == TokenActionView::Serve(value));
            let at = choose|at: int| brought(seen, at, value);
            assert(brought(seen, at, value));
            assert(seen[at] == events[at]);
            assert(brought(events, at, value) && at < i);
        }
    } else {
        assert(events[i] is Fetched);
    }
}

/// Callers that all start on a cache without a token, in whatever order
/// their steps interleave, each end with a token: a request is served from
/// the cache or told to fetch, and a fetch, once reported, is served what it
/// brought. What the cache serves to a request is a value that an earlier
/// report brought. At least one fetch is made, and no more than there are
/// callers.
pub proof fn lemma_callers_on_empty_cache(cache: TokenCacheView, events: Seq<AuthEventView>)
    requires
        cache.current is None,
        events.len() > 0,
        callers_history(cache, events),
    ensures
        ({
            let actions = cache.run(events).1;
            &&& actions.len() == events.len()
            &&& 1 <= count_fetches(actions) <= count_requests(events)
            &&& count_fetches(actions) == count_reports(events)
            &&& forall|i: int| 0 <= i < events.len() ==> answered_well(events, actions, i)
        }),
{
    let actions = cache.run(events).1;
    lemma_run_len(cache, events);
    lemma_fetches_at_most_requests(cache, events);
    lemma_first_caller_fetches(cache, events);
    assert forall|i: int| 0 <= i < events.len() implies answered_well(events, actions, i) by {
        lemma_caller_answer(cache, events, i);
    }
}

/// After a successful fetch, any sequence of requests made within the
/// staleness window is served the fetched value, each time, and none of them
/// asks for a fetch or changes the cache.
pub proof fn lemma_requests_in_window_agree(
    cache: TokenCacheView,
    value: Seq<char>,
    fetched_at: Timestamp,
    times: Seq<Timestamp>,
)
    requires
        forall|i: int|
            0 <= i < times.len() ==> within_window(fetched_at, #[trigger] times[i], cache.staleness_threshold),
    ensures
        ({
            let fetched = cache.step(AuthEventView::Fetched { result: Ok(value), now: Some(fetched_at) }).0;
            fetched.run(requests_at(times)) == (
                fetched,
                Seq::new(times.len(), |i: int| TokenActionView::Serve(value)),
            )
        }),
    decreases times.len(),
{
    let fetched = cache.step(AuthEventView::Fetched { result: Ok(value), now: Some(fetched_at) }).0;
    let served = Seq::new(times.len(), |i: int| TokenActionView::Serve(value));
    if times.len() == 0 {
        assert(fetched.run(requests_at(times)).1 =~= served);
    } else {
        let earlier = times.drop_last();
        lemma_requests_in_window_agree(cache, value, fetched_at, earlier);
        assert(requests_at(times).drop_last() =~= requests_at(earlier));
        assert(within_window(fetched_at, times[times.len() - 1], cache.staleness_threshold));
        assert(fetched.run(requests_at(times)).1 =~= served);
    }
}

/// Once more time than the threshold has passed since the last successful
/// fetch, be it by a nanosecond, the next request is answered with one
/// `Fetch` and the cache is left as it was.
pub proof fn lemma_request_past_window_fetches(
    cache: TokenCacheView,
    value: Seq<char>,
    fetched_at: Timestamp,
    now: Timestamp,
)
    requires
        now.nanos - fetched_at.nanos > cache.staleness_threshold * NANOS_PER_SEC,
    ensures
        ({
            let fetched = cache.step(AuthEventView::Fetched { result: Ok(value), now: Some(fetched_at) }).0;
            fetched.step(AuthEventView::Request { now: Some(now) }) == (fetched, TokenActionView::Fetch)
        }),
{
}

/// While the clock cannot be read, every request is answered with `Fetch`;
/// and a token whose fetch ended under such a clock is served to the caller
/// that fetched it and to no request after, whatever the clock shows then.
pub proof fn lemma_unreadable_clock_is_stale(
    cache: TokenCacheView,
    value: Seq<char>,
    later: Option<Timestamp>,
)
    ensures
        cache.step(AuthEventView::Request { now: None }) == (cache, TokenActionView::Fetch),
        ({
            let (fetched, action) = cache.step(AuthEventView::Fetched { result: Ok(value), now: None });
            &&& action == TokenActionView::Serve(value)
            &&& fetched.step(AuthEventView::Request { now: later }) == (fetched, TokenActionView::Fetch)
        }),
{
}

/// A fetch that fails while no token has ever been cached is reported as
/// that failure and leaves the cache without a token, so that the next
/// request, whenever it comes, asks for a fetch again.
pub proof fn lemma_failed_first_fetch_keeps_absent(
    cache: TokenCacheView,
    error: FetchError,
    failed_at: Option<Timestamp>,
    next: Option<Timestamp>,
)
    requires
        cache.current is None,
    ensures
        cache.step(AuthEventView::Fetched { result: Err(error), now: failed_at }) == (
            cache,
            TokenActionView::Fail(error),
        ),
        cache.step(AuthEventView::Request { now: next }) == (cache, TokenActionView::Fetch),
{
}

/// A refresh that fails while a stale token is held is reported as that
/// failure: the stale token is not served in its place. The token and its
/// instant stay as they were, so a request at any instant at which the token
/// is stale asks for a fetch again.
pub proof fn lemma_failed_refresh_is_reported(
    cache: TokenCacheView,
    error: FetchError,
    now: Option<Timestamp>,
    failed_at: Option<Timestamp>,
    next: Option<Timestamp>,
)
    requires
        cache.current is Some,
        cache.stale_at(now),
        cache.stale_at(next),
    ensures
        cache.step(AuthEventView::Request { now }) == (cache, TokenActionView::Fetch),
        cache.step(AuthEventView::Fetched { result: Err(error), now: failed_at }) == (
            cache,
            TokenActionView::Fail(error),
        ),
        cache.step(AuthEventView::Request { now: next }) == (cache, TokenActionView::Fetch),
{
}

/// A token that has gone stale stays stale as time goes on: once stale at
/// an instant not before its fetch, it is stale at every later instant.
pub proof fn lemma_stale_stays_stale(cache: TokenCacheView, now: Timestamp, later: Timestamp)
    requires
        cache.current matches Some(token) && token.fetched_at matches Some(fetched_at) && fetched_at.nanos
            <= now.nanos,
        now.nanos <= later.nanos,
        cache.stale_at(Some(now)),
    ensures
        cache.stale_at(Some(later)),
{
}

} // verus!
