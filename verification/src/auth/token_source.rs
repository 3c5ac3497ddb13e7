//! The token source: what one answer of the credential authority yields.
//!
//! The round trip to the authority is the caller's; this module reads the
//! bearer token out of the answer.

use tonic::codegen::http::HeaderMap;
use tonic::codegen::http::HeaderValue;
use vstd::prelude::*;
use vstd::utf8::decode_utf8;
use vstd::utf8::encode_utf8;
use vstd::utf8::encode_utf8_decode_utf8;
use vstd::utf8::encode_utf8_valid_utf8;
use vstd::utf8::is_ascii_chars;
use vstd::utf8::is_ascii_chars_encode_utf8;
use vstd::utf8::valid_utf8;

use crate::auth::FetchError;
use crate::tracer::http::headers::first_value;
use crate::tracer::http::headers::header_entries;
use crate::tracer::lemma_credential_names_are_taken;

verus! {

/// The headers that the authority answered with.
pub enum CacheableHeaders {
    /// Fresh headers.
    New { data: HeaderMap<HeaderValue> },
    /// The headers that were handed out before still hold.
    NotModified,
}

/// How the round trip to the authority ended.
pub enum CredentialResponse {
    /// No credentials could be set up.
    NoCredentials,
    /// The authority gave no headers.
    NoHeaders,
    /// The authority gave these headers.
    Headers(CacheableHeaders),
}

/// Whether `b` is a printable ASCII character or a tab.
pub open spec fn is_visible_ascii(b: u8) -> bool {
    (32 <= b < 127) || b == 9
}

/// Whether `b` separates words: a space or a tab.
pub open spec fn is_blank(b: u8) -> bool {
    b == 32 || b == 9
}

/// The first position at or after `from` that holds no blank.
pub open spec fn skip_blanks(s: Seq<u8>, from: int) -> int
    decreases s.len() - from,
{
    if 0 <= from < s.len() && is_blank(s[from]) {
        skip_blanks(s, from + 1)
    } else {
        from
    }
}

/// The first position at or after `from` that holds a blank.
pub open spec fn skip_word(s: Seq<u8>, from: int) -> int
    decreases s.len() - from,
{
    if 0 <= from < s.len() && !is_blank(s[from]) {
        skip_word(s, from + 1)
    } else {
        from
    }
}

/// The second of the words that blanks divide `s` into, if there are two.
pub open spec fn second_word(s: Seq<u8>) -> Option<Seq<u8>> {
    let first_start = skip_blanks(s, 0);
    let first_end = skip_word(s, first_start);
    let start = skip_blanks(s, first_end);
    let end = skip_word(s, start);
    if start < s.len() {
        Some(s.subrange(start, end))
    } else {
        None
    }
}

/// ASCII bytes as characters.
pub open spec fn ascii_text(bytes: Seq<u8>) -> Seq<char> {
    Seq::new(bytes.len(), |i: int| bytes[i] as char)
}

/// The bearer token in the value of an authorization header: the second
/// word of a value that is all printable ASCII and tabs. Any other value
/// holds no token.
pub open spec fn bearer_token_of(value: Seq<u8>) -> Option<Seq<char>> {
    if forall|i: int| 0 <= i < value.len() ==> is_visible_ascii(#[trigger] value[i]) {
        match second_word(value) {
            Some(word) => Some(ascii_text(word)),
            None => None,
        }
    } else {
        None
    }
}

/// The bearer token that `headers` carry: that of the first authorization
/// header of fresh headers.
pub open spec fn token_in(headers: CacheableHeaders) -> Option<Seq<char>> {
    match headers {
        CacheableHeaders::New { data } => if header_entries(data).contains_key("authorization"@) {
            bearer_token_of(header_entries(data)["authorization"@].first())
        } else {
            None
        },
        CacheableHeaders::NotModified => None,
    }
}

/// `String::from_utf8`: the string whose UTF-8 encoding is `bytes`, or
/// `None` where `bytes` is not valid UTF-8.
#[verifier::external_body]
fn string_from_utf8(bytes: Vec<u8>) -> (text: Option<String>)
    ensures
        match text {
            Some(s) => encode_utf8(s@) == bytes@,
            None => !valid_utf8(bytes@),
        },
{
    String::from_utf8(bytes).ok()
}

/// ASCII bytes are the UTF-8 encoding of their own characters, and of no
/// other text.
proof fn lemma_ascii_text_encoding(bytes: Seq<u8>)
    requires
        forall|i: int| 0 <= i < bytes.len() ==> #[trigger] bytes[i] < 128,
    ensures
        encode_utf8(ascii_text(bytes)) == bytes,
        valid_utf8(bytes),
        forall|text: Seq<char>| encode_utf8(text) == bytes ==> text == ascii_text(bytes),
{
    let text = ascii_text(bytes);
    assert forall|i: int| 0 <= i < text.len() implies '\0' <= #[trigger] text[i] <= '\u{7f}' by {
        assert(bytes[i] < 128);
    }
    assert(is_ascii_chars(text));
    is_ascii_chars_encode_utf8(text);
    assert forall|i: int| 0 <= i < bytes.len() implies encode_utf8(text)[i] == bytes[i] by {
        assert(text[i] as u8 == encode_utf8(text)[i]);
        assert(bytes[i] < 128);
        assert((bytes[i] as char) as u8 == bytes[i]);
    }
    assert(encode_utf8(text) =~= bytes);
    encode_utf8_valid_utf8(text);
    encode_utf8_decode_utf8(text);
    assert forall|other: Seq<char>| encode_utf8(other) == bytes implies other == text by {
        encode_utf8_decode_utf8(other);
        assert(decode_utf8(encode_utf8(other)) == other);
        assert(decode_utf8(encode_utf8(text)) == text);
    }
}

/// The first position at or after `from` that holds no blank.
fn find_word(value: &Vec<u8>, from: usize) -> (at: usize)
    requires
        from <= value.len(),
    ensures
        at == skip_blanks(value@, from as int),
        from <= at <= value.len(),
{
    let mut at: usize = from;
    while at < value.len() && (value[at] == 32 || value[at] == 9)
        invariant
            from <= at <= value.len(),
            skip_blanks(value@, from as int) == skip_blanks(value@, at as int),
        decreases value.len() - at,
    {
        at = at + 1;
    }
    at
}

/// The first position at or after `from` that holds a blank.
fn find_blank(value: &Vec<u8>, from: usize) -> (at: usize)
    requires
        from <= value.len(),
    ensures
        at == skip_word(value@, from as int),
        from <= at <= value.len(),
{
    let mut at: usize = from;
    while at < value.len() && !(value[at] == 32 || value[at] == 9)
        invariant
            from <= at <= value.len(),
            skip_word(value@, from as int) == skip_word(value@, at as int),
        decreases value.len() - at,
    {
        at = at + 1;
    }
    at
}

/// Whether `value` is all printable ASCII and tabs.
fn all_visible(value: &Vec<u8>) -> (ok: bool)
    ensures
        ok == (forall|i: int| 0 <= i < value.len() ==> is_visible_ascii(#[trigger] value[i])),
{
    let mut i: usize = 0;
    while i < value.len()
        invariant
            i <= value.len(),
            forall|j: int| 0 <= j < i ==> is_visible_ascii(#[trigger] value[j]),
        decreases value.len() - i,
    {
        let b: u8 = value[i];
        if !((32 <= b && b < 127) || b == 9) {
            return false;
        }
        i = i + 1;
    }
    true
}

/// Reads the bearer token out of the value of an authorization header.
pub fn bearer_token(value: &Vec<u8>) -> (token: Option<String>)
    ensures
        match bearer_token_of(value@) {
            Some(text) => token matches Some(found) && found@ == text,
            None => token is None,
        },
{
    if !all_visible(value) {
        return None;
    }
    let first_start: usize = find_word(value, 0);
    let first_end: usize = find_blank(value, first_start);
    let start: usize = find_word(value, first_end);
    let end: usize = find_blank(value, start);
    if start >= value.len() {
        return None;
    }
    let mut word: Vec<u8> = Vec::new();
    let mut i: usize = start;
    while i < end
        invariant
            start <= i <= end <= value.len(),
            word@ == value@.subrange(start as int, i as int),
        decreases end - i,
    {
        word.push(value[i]);
        assert(word@ =~= value@.subrange(start as int, i + 1));
        i = i + 1;
    }
    proof {
        assert forall|j: int| 0 <= j < word@.len() implies #[trigger] word@[j] < 128 by {
            assert(is_visible_ascii(value[start + j]));
        }
        lemma_ascii_text_encoding(word@);
    }
    string_from_utf8(word)
}

/// Extracts the token from the provided headers.
pub fn get_token_from_headers(headers: &CacheableHeaders) -> (token: Option<String>)
    ensures
        match token_in(*headers) {
            Some(text) => token matches Some(found) && found@ == text,
            None => token is None,
        },
{
    match headers {
        CacheableHeaders::New { data } => {
            proof {
                lemma_credential_names_are_taken();
            }
            match first_value(data, "authorization") {
                Some(value) => bearer_token(&value),
                None => None,
            }
        },
        CacheableHeaders::NotModified => None,
    }
}

/// The token that a round trip to the authority has brought, or the reason
/// for which it brought none.
pub open spec fn fetched_token(response: CredentialResponse) -> Result<Seq<char>, FetchError> {
    match response {
        CredentialResponse::NoCredentials => Err(FetchError::Credentials),
        CredentialResponse::NoHeaders => Err(FetchError::Headers),
        CredentialResponse::Headers(headers) => match token_in(headers) {
            Some(token) => Ok(token),
            None => Err(FetchError::MissingToken),
        },
    }
}

/// Retrieves a new access token from the answer of the authority.
pub fn get_new_token(response: &CredentialResponse) -> (r: Result<String, FetchError>)
    ensures
        match fetched_token(*response) {
            Ok(text) => r matches Ok(token) && token@ == text,
            Err(e) => r matches Err(reason) && reason == e,
        },
{
    match response {
        CredentialResponse::NoCredentials => Err(FetchError::Credentials),
        CredentialResponse::NoHeaders => Err(FetchError::Headers),
        CredentialResponse::Headers(headers) => match get_token_from_headers(headers) {
            Some(token) => Ok(token),
            None => Err(FetchError::MissingToken),
        },
    }
}

} // verus!
