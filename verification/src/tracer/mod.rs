//! Transport adapters: each merges the header pairs of a credential
//! capability into the headers of one outbound request.

use vstd::prelude::*;

pub mod grpc;
pub mod http;
pub mod reqwest;

use crate::auth::AuthEvent;
use crate::auth::FetchError;
use crate::auth::GetToken;
use crate::auth::HeaderAction;
use crate::auth::HeaderActionView;
use crate::auth::Pairs;

verus! {

/// The number of names from which on a request is rejected in place of
/// merging another pair into it. The header collections behind the adapters
/// give up, with a panic, once their table would have to grow past 32768
/// slots; a table grows only when it holds at least a fifth of its slots,
/// which at that size are 6554 names. Below that number a merge cannot fail
/// for size.
pub const MAX_NAMES: usize = 6554;

/// The longest header name, in bytes.
pub const MAX_NAME_LEN: usize = 65535;

/// Whether `c` may stand in a header name: an ASCII letter, a digit, or one
/// of the signs that HTTP allows in a token.
pub open spec fn is_name_char(c: char) -> bool {
    ||| 'a' <= c <= 'z'
    ||| 'A' <= c <= 'Z'
    ||| '0' <= c <= '9'
    ||| c == '!'
    ||| c == '#'
    ||| c == '$'
    ||| c == '%'
    ||| c == '&'
    ||| c == '\''
    ||| c == '*'
    ||| c == '+'
    ||| c == '-'
    ||| c == '.'
    ||| c == '^'
    ||| c == '_'
    ||| c == '`'
    ||| c == '|'
    ||| c == '~'
}

/// `c` with an upper-case ASCII letter turned into its lower-case letter.
pub open spec fn lower_case(c: char) -> char {
    if 'A' <= c <= 'Z' {
        ((c as u8) + 32) as u8 as char
    } else {
        c
    }
}

/// The header name that `key` stands for: `key` in lower case, where `key`
/// is not empty, no longer than `MAX_NAME_LEN` and made of name characters
/// only. Any other `key` stands for no name.
pub open spec fn header_name_of(key: Seq<char>) -> Option<Seq<char>> {
    if 1 <= key.len() <= MAX_NAME_LEN && (forall|i: int| 0 <= i < key.len() ==> is_name_char(#[trigger] key[i])) {
        Some(Seq::new(key.len(), |i: int| lower_case(key[i])))
    } else {
        None
    }
}

/// Whether `name` ends in `-bin`, which marks a gRPC metadata entry as
/// binary.
pub open spec fn ends_in_bin(name: Seq<char>) -> bool {
    &&& name.len() >= 4
    &&& name[name.len() - 4] == '-'
    &&& name[name.len() - 3] == 'b'
    &&& name[name.len() - 2] == 'i'
    &&& name[name.len() - 1] == 'n'
}

/// The key of the text metadata entry that `key` stands for: its header
/// name, unless that ends in `-bin`.
pub open spec fn metadata_key_of(key: Seq<char>) -> Option<Seq<char>> {
    match header_name_of(key) {
        Some(name) => if ends_in_bin(name) {
            None
        } else {
            Some(name)
        },
        None => None,
    }
}

/// Whether `c` may stand in a header value: a tab, or any character but the
/// other ASCII control characters.
pub open spec fn is_header_text_char(c: char) -> bool {
    c == '\t' || (c as u32 >= 32 && c as u32 != 127)
}

/// Whether `value` may be sent as a header value.
pub open spec fn is_header_text(value: Seq<char>) -> bool {
    forall|i: int| 0 <= i < value.len() ==> is_header_text_char(#[trigger] value[i])
}

/// The headers of a request, by name. Each name maps to the values sent
/// under it, in order, each as the bytes that go on the wire.
pub type Entries = Map<Seq<char>, Seq<Seq<u8>>>;

/// Whether `entries` holds `count` names, and so finitely many.
pub open spec fn holds_names(entries: Entries, count: nat) -> bool {
    entries.dom().finite() && entries.dom().len() == count
}

/// Why a pair could not be merged.
#[derive(Clone, Copy, Debug, PartialEq, Eq, Hash, Structural)]
pub enum MergeError {
    /// The transport refuses the pair's name.
    InvalidName,
    /// The pair's value holds a character that no header value may hold.
    InvalidValue,
    /// The request holds `MAX_NAMES` names already.
    TooManyNames,
}

/// What an adapter needs of a header collection: to tell whether it takes a
/// name and a value, and to set a name to one value.
pub trait HeaderSink: Sized {
    /// The headers held.
    spec fn entries(&self) -> Entries;

    /// The name under which a pair with the key `key` is stored, or `None`
    /// where the collection refuses `key`.
    spec fn name_of(key: Seq<char>) -> Option<Seq<char>>;

    /// Whether the collection takes `key` as a name.
    fn accepts_name(key: &str) -> (ok: bool)
        ensures
            ok == (Self::name_of(key@) is Some),
    ;

    /// Whether the collection takes `value` as a value.
    fn accepts_value(value: &str) -> (ok: bool)
        ensures
            ok == is_header_text(value@),
    ;

    /// Whether a pair may still be merged.
    fn has_room(&self) -> (ok: bool)
        ensures
            self.entries().dom().finite(),
            ok == (self.entries().dom().len() < MAX_NAMES),
    ;

    /// Sets the name of `key` to the single value `value`, in place of all
    /// values held under that name.
    fn set(&mut self, key: &str, value: &str)
        requires
            Self::name_of(key@) is Some,
            is_header_text(value@),
            old(self).entries().dom().len() < MAX_NAMES,
        ensures
            final(self).entries() == with_header(old(self).entries(), Self::name_of(key@)->0, value@),
    ;
}

/// `entries` with `name` set to the single value `value`.
pub open spec fn with_header(entries: Entries, name: Seq<char>, value: Seq<char>) -> Entries {
    entries.insert(name, seq![vstd::utf8::encode_utf8(value)])
}

/// The headers after merging `pairs` into `entries` in order, each pair
/// replacing what is held under its name; or the reason for which the first
/// pair that cannot be merged is refused.
pub open spec fn merged<S: HeaderSink>(entries: Entries, pairs: Seq<(Seq<char>, Seq<char>)>) -> Result<
    Entries,
    MergeError,
>
    decreases pairs.len(),
{
    if pairs.len() == 0 {
        Ok(entries)
    } else {
        let (key, value) = pairs.first();
        if S::name_of(key) is None {
            Err(MergeError::InvalidName)
        } else if !is_header_text(value) {
            Err(MergeError::InvalidValue)
        } else if entries.dom().len() >= MAX_NAMES {
            Err(MergeError::TooManyNames)
        } else {
            merged::<S>(with_header(entries, S::name_of(key)->0, value), pairs.drop_first())
        }
    }
}

/// Merges `pairs` into `sink` in order. The first pair that cannot be merged
/// ends the merge with its reason, and `sink` is dropped.
pub fn merge_headers<S: HeaderSink>(sink: S, pairs: &Vec<(String, String)>) -> (r: Result<S, MergeError>)
    ensures
        match merged::<S>(sink.entries(), pairs.deep_view()) {
            Ok(entries) => r matches Ok(filled) && filled.entries() == entries,
            Err(e) => r matches Err(reason) && reason == e,
        },
{
    let mut filled = sink;
    let ghost start = sink.entries();
    let ghost all = pairs.deep_view();
    let mut i: usize = 0;
    assert(all.skip(0) =~= all);
    while i < pairs.len()
        invariant
            i <= pairs.len(),
            all == pairs.deep_view(),
            start == sink.entries(),
            merged::<S>(start, all) == merged::<S>(filled.entries(), all.skip(i as int)),
        decreases pairs.len() - i,
    {
        let key: &str = pairs[i].0.as_str();
        let value: &str = pairs[i].1.as_str();
        proof {
            let rest = all.skip(i as int);
            assert(rest.len() > 0);
            assert(rest.first() == all[i as int]);
            assert(all[i as int] == pairs@[i as int].deep_view());
            assert(rest.first() == (key@, value@));
            assert(rest.drop_first() =~= all.skip(i + 1));
        }
        if !S::accepts_name(key) {
            return Err(MergeError::InvalidName);
        }
        if !S::accepts_value(value) {
            return Err(MergeError::InvalidValue);
        }
        if !filled.has_room() {
            return Err(MergeError::TooManyNames);
        }
        filled.set(key, value);
        i = i + 1;
    }
    proof {
        assert(all.skip(i as int).len() == 0);
    }
    Ok(filled)
}

/// The value that merging `pairs` leaves under `name`: that of the last pair
/// stored under `name`, or `None` where no pair is.
pub open spec fn value_for<S: HeaderSink>(pairs: Pairs, name: Seq<char>) -> Option<Seq<char>>
    decreases pairs.len(),
{
    if pairs.len() == 0 {
        None
    } else {
        match value_for::<S>(pairs.drop_first(), name) {
            Some(value) => Some(value),
            None => if S::name_of(pairs.first().0) == Some(name) {
                Some(pairs.first().1)
            } else {
                None
            },
        }
    }
}

/// A merge that succeeds overwrites and adds, and touches nothing else:
/// under a name that a pair is stored under, the request then holds the
/// value of the last such pair and no other value; any other name holds
/// what it held before, or is absent as before.
pub proof fn lemma_merge_overwrites<S: HeaderSink>(entries: Entries, pairs: Pairs, name: Seq<char>)
    requires
        merged::<S>(entries, pairs) is Ok,
    ensures
        ({
            let filled = merged::<S>(entries, pairs)->Ok_0;
            match value_for::<S>(pairs, name) {
                Some(value) => filled.contains_key(name) && filled[name] == seq![vstd::utf8::encode_utf8(value)],
                None => filled.contains_key(name) == entries.contains_key(name) && (entries.contains_key(name)
                    ==> filled[name] == entries[name]),
            }
        }),
    decreases pairs.len(),
{
    if pairs.len() > 0 {
        let (key, value) = pairs.first();
        lemma_merge_overwrites::<S>(with_header(entries, S::name_of(key)->0, value), pairs.drop_first(), name);
    }
}

/// A pair whose value holds an ASCII control character other than the tab
/// keeps the request from being sent, wherever the pair stands.
pub proof fn lemma_control_character_rejects<S: HeaderSink>(entries: Entries, pairs: Pairs, k: int, j: int)
    requires
        0 <= k < pairs.len(),
        0 <= j < pairs[k].1.len(),
        pairs[k].1[j] != '\t',
        (pairs[k].1[j] as u32) < 32 || pairs[k].1[j] as u32 == 127,
    ensures
        merged::<S>(entries, pairs) is Err,
    decreases pairs.len(),
{
    let (key, value) = pairs.first();
    if k == 0 {
        assert(!is_header_text_char(value[j]));
        assert(!is_header_text(value));
    } else if S::name_of(key) is Some && is_header_text(value) && entries.dom().len() < MAX_NAMES {
        let rest = pairs.drop_first();
        assert(rest[k - 1] == pairs[k]);
        lemma_control_character_rejects::<S>(with_header(entries, S::name_of(key)->0, value), rest, k - 1, j);
    }
}

/// Merging pairs is merging those before `k`, then the rest into what that
/// gave; a failure among the first ends the merge.
pub proof fn lemma_merge_split<S: HeaderSink>(entries: Entries, pairs: Pairs, k: int)
    requires
        0 <= k <= pairs.len(),
    ensures
        merged::<S>(entries, pairs) == (match merged::<S>(entries, pairs.take(k)) {
            Ok(filled) => merged::<S>(filled, pairs.skip(k)),
            Err(e) => Err(e),
        }),
    decreases k,
{
    if k == 0 {
        assert(pairs.take(0) =~= Seq::<(Seq<char>, Seq<char>)>::empty());
        assert(pairs.skip(0) =~= pairs);
    } else {
        let (key, value) = pairs.first();
        let front = pairs.take(k);
        assert(front.first() == pairs.first());
        assert(front.drop_first() =~= pairs.drop_first().take(k - 1));
        assert(pairs.drop_first().skip(k - 1) =~= pairs.skip(k));
        if S::name_of(key) is Some && is_header_text(value) && entries.dom().len() < MAX_NAMES {
            lemma_merge_split::<S>(with_header(entries, S::name_of(key)->0, value), pairs.drop_first(), k - 1);
        }
    }
}

/// Where the pairs before `k` merge and the pair at `k` has a name that is
/// taken and a value that is not header text, the merge fails for an invalid
/// value, which a gRPC request reports as an internal condition and not as a
/// lack of credentials.
pub proof fn lemma_first_invalid_value<S: HeaderSink>(entries: Entries, pairs: Pairs, k: int)
    requires
        0 <= k < pairs.len(),
        merged::<S>(entries, pairs.take(k)) is Ok,
        S::name_of(pairs[k].0) is Some,
        !is_header_text(pairs[k].1),
    ensures
        merged::<S>(entries, pairs) == Err::<Entries, MergeError>(MergeError::InvalidValue),
        AdapterError::Headers(MergeError::InvalidValue).spec_rpc_code() == RpcCode::Internal,
{
    lemma_merge_split::<S>(entries, pairs, k);
    assert(pairs.skip(k).first() == pairs[k]);
}

/// The two names that credentials travel under are header names and text
/// metadata keys, each stored as it is written.
pub proof fn lemma_credential_names_are_taken()
    ensures
        header_name_of("authorization"@) == Some("authorization"@),
        header_name_of("x-goog-user-project"@) == Some("x-goog-user-project"@),
        metadata_key_of("authorization"@) == Some("authorization"@),
        metadata_key_of("x-goog-user-project"@) == Some("x-goog-user-project"@),
{
    reveal_strlit("authorization");
    reveal_strlit("x-goog-user-project");
    let a = "authorization"@;
    let p = "x-goog-user-project"@;
    assert(forall|i: int| 0 <= i < a.len() ==> is_name_char(#[trigger] a[i]) && lower_case(a[i]) == a[i]);
    assert(forall|i: int| 0 <= i < p.len() ==> is_name_char(#[trigger] p[i]) && lower_case(p[i]) == p[i]);
    assert(header_name_of(a)->0 =~= a);
    assert(header_name_of(p)->0 =~= p);
}

/// Why an adapter does not let a request pass.
#[derive(Clone, Copy, Debug, PartialEq, Eq, Hash, Structural)]
pub enum AdapterError {
    /// The capability could not produce credentials.
    Credentials(FetchError),
    /// A pair that the capability produced could not be merged.
    Headers(MergeError),
}

/// The condition that a rejected gRPC request is reported with.
#[derive(Clone, Copy, Debug, PartialEq, Eq, Hash, Structural)]
pub enum RpcCode {
    /// The request lacks valid credentials. Callers may retry.
    Unauthenticated,
    /// The request could not be put together: a defect on this side.
    Internal,
}

impl AdapterError {
    /// The condition that this failure is reported with on a gRPC request:
    /// unauthenticated for a failed fetch and for a refused name, internal
    /// for anything else.
    pub open spec fn spec_rpc_code(self) -> RpcCode {
        match self {
            AdapterError::Credentials(_) => RpcCode::Unauthenticated,
            AdapterError::Headers(MergeError::InvalidName) => RpcCode::Unauthenticated,
            AdapterError::Headers(_) => RpcCode::Internal,
        }
    }

    /// The condition that this failure is reported with on a gRPC request.
    pub fn rpc_code(&self) -> (code: RpcCode)
        ensures
            code == self.spec_rpc_code(),
    {
        match self {
            AdapterError::Credentials(_) => RpcCode::Unauthenticated,
            AdapterError::Headers(MergeError::InvalidName) => RpcCode::Unauthenticated,
            AdapterError::Headers(_) => RpcCode::Internal,
        }
    }
}

/// What an adapter decides for one request.
#[derive(Debug, Clone, PartialEq, Eq)]
pub enum Intercepted<S> {
    /// Send the request with these headers.
    Forward(S),
    /// Do not send the request.
    Reject(AdapterError),
    /// Fetch a token, then step again with `AuthEvent::Fetched` and these
    /// headers, which are the request's own.
    Fetch(S),
}

/// The mathematical value of an [`Intercepted`].
pub enum Outcome {
    Forward(Entries),
    Reject(AdapterError),
    Fetch(Entries),
}

impl<S: HeaderSink> Intercepted<S> {
    /// The decision, with headers as what they hold.
    pub open spec fn outcome(self) -> Outcome {
        match self {
            Intercepted::Forward(sink) => Outcome::Forward(sink.entries()),
            Intercepted::Reject(e) => Outcome::Reject(e),
            Intercepted::Fetch(sink) => Outcome::Fetch(sink.entries()),
        }
    }
}

/// The decision for a request that holds `entries`, given the capability's
/// answer: its pairs are merged in and the request is sent; a failure, of
/// the capability or of the merge, rejects the request; a fetch is passed
/// on with the request untouched.
pub open spec fn decided<S: HeaderSink>(answer: HeaderActionView, entries: Entries) -> Outcome {
    match answer {
        HeaderActionView::Ready(pairs) => match merged::<S>(entries, pairs) {
            Ok(filled) => Outcome::Forward(filled),
            Err(e) => Outcome::Reject(AdapterError::Headers(e)),
        },
        HeaderActionView::Fetch => Outcome::Fetch(entries),
        HeaderActionView::Fail(e) => Outcome::Reject(AdapterError::Credentials(e)),
    }
}

/// One step of an adapter: steps the capability with `event` and applies
/// its answer to the headers of the request.
pub fn intercept<P: GetToken, S: HeaderSink>(provider: &mut P, sink: S, event: AuthEvent) -> (r: Intercepted<S>)
    ensures
        old(provider).steps_to(event@, final(provider)),
        r.outcome() == decided::<S>(old(provider).answer(event@), sink.entries()),
        r matches Intercepted::Fetch(back) ==> back == sink,
{
    match provider.get_auth_headers(event) {
        HeaderAction::Ready(pairs) => match merge_headers(sink, &pairs) {
            Ok(filled) => Intercepted::Forward(filled),
            Err(e) => Intercepted::Reject(AdapterError::Headers(e)),
        },
        HeaderAction::Fetch => Intercepted::Fetch(sink),
        HeaderAction::Fail(e) => Intercepted::Reject(AdapterError::Credentials(e)),
    }
}

} // verus!
