//! HTTP header maps as a header collection.

use std::str::FromStr;
use tonic::codegen::http::HeaderMap;
use tonic::codegen::http::HeaderName;
use tonic::codegen::http::HeaderValue;
use vstd::prelude::*;

use crate::tracer::header_name_of;
use crate::tracer::holds_names;
use crate::tracer::is_header_text;
use crate::tracer::with_header;
use crate::tracer::Entries;
use crate::tracer::HeaderSink;
use crate::tracer::MAX_NAMES;

verus! {

/// `http::HeaderValue`, named only as what a header map holds.
#[verifier::external_type_specification]
#[verifier::external_body]
pub struct ExHeaderValue(HeaderValue);

/// `http::HeaderMap`, the headers of an HTTP request or response. What it
/// holds is spoken of as `header_entries`.
#[verifier::external_type_specification]
#[verifier::external_body]
#[verifier::reject_recursive_types(T)]
pub struct ExHeaderMap<T>(HeaderMap<T>);

/// The headers that a header map holds, by name.
pub uninterp spec fn header_entries(map: HeaderMap<HeaderValue>) -> Map<Seq<char>, Seq<Seq<u8>>>;

/// `HeaderName::from_str`: whether `key` parses as a header name. It does
/// where it is not empty, no longer than 65535 bytes and made of token
/// characters only.
#[verifier::external_body]
fn is_header_name(key: &str) -> (ok: bool)
    ensures
        ok == (header_name_of(key@) is Some),
{
    HeaderName::from_str(key).is_ok()
}

/// `HeaderValue::from_str`: whether `value` parses as a header value. It
/// does unless one of its bytes is an ASCII control character other than the
/// tab; bytes of characters beyond ASCII pass.
#[verifier::external_body]
fn is_header_value(value: &str) -> (ok: bool)
    ensures
        ok == is_header_text(value@),
{
    HeaderValue::from_str(value).is_ok()
}

/// `HeaderMap::keys_len`: the number of names that the map holds, which
/// are finitely many.
#[verifier::external_body]
fn header_keys_len(map: &HeaderMap<HeaderValue>) -> (n: usize)
    ensures
        holds_names(header_entries(*map), n as nat),
{
    map.keys_len()
}

/// `HeaderMap::insert`, with the name and the value parsed from text as
/// above: the values under the name, which is stored in lower case, are
/// replaced by the one value, and the
/// other names stay as they are. The table panics only where it would have
/// to grow past 32768 slots, and it grows only once it holds at least a
/// fifth of its slots, 6554 names at that size; a map of fewer than
/// `MAX_NAMES` names cannot get there.
#[verifier::external_body]
fn header_insert(map: &mut HeaderMap<HeaderValue>, key: &str, value: &str)
    requires
        header_name_of(key@) is Some,
        is_header_text(value@),
        header_entries(*old(map)).dom().len() < MAX_NAMES,
    ensures
        header_entries(*final(map)) == with_header(
            header_entries(*old(map)),
            header_name_of(key@)->0,
            value@,
        ),
{
    let name: HeaderName = HeaderName::from_str(key).unwrap();
    let parsed: HeaderValue = HeaderValue::from_str(value).unwrap();
    map.insert(name, parsed);
}

/// `HeaderMap::get` with a name given as text: the bytes of the first value
/// held under the header name that `name` stands for, if `name` stands for
/// one and a value is held under it.
#[verifier::external_body]
pub(crate) fn first_value(map: &HeaderMap<HeaderValue>, name: &str) -> (value: Option<Vec<u8>>)
    ensures
        match value {
            Some(bytes) => header_name_of(name@) matches Some(held) && header_entries(*map).contains_key(held)
                && bytes@ == header_entries(*map)[held].first(),
            None => header_name_of(name@) matches Some(held) ==> !header_entries(*map).contains_key(held),
        },
{
    match map.get(name) {
        Some(found) => Some(found.as_bytes().to_vec()),
        None => None,
    }
}

impl HeaderSink for HeaderMap<HeaderValue> {
    open spec fn entries(&self) -> Entries {
        header_entries(*self)
    }

    open spec fn name_of(key: Seq<char>) -> Option<Seq<char>> {
        header_name_of(key)
    }

    fn accepts_name(key: &str) -> (ok: bool) {
        is_header_name(key)
    }

    fn accepts_value(value: &str) -> (ok: bool) {
        is_header_value(value)
    }

    fn has_room(&self) -> (ok: bool) {
        header_keys_len(self) < MAX_NAMES
    }

    fn set(&mut self, key: &str, value: &str) {
        header_insert(self, key, value)
    }
}

} // verus!
