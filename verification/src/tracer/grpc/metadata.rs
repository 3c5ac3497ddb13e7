//! gRPC request metadata as a header collection.

use std::str::FromStr;
use tonic::metadata::Ascii;
use tonic::metadata::MetadataKey;
use tonic::metadata::MetadataMap;
use tonic::metadata::MetadataValue;
use vstd::prelude::*;

use crate::tracer::holds_names;
use crate::tracer::is_header_text;
use crate::tracer::metadata_key_of;
use crate::tracer::with_header;
use crate::tracer::Entries;
use crate::tracer::HeaderSink;
use crate::tracer::MAX_NAMES;

verus! {

/// `tonic::metadata::MetadataMap`, the metadata of a gRPC request. What it
/// holds is spoken of as `metadata_entries`.
#[verifier::external_type_specification]
#[verifier::external_body]
pub struct ExMetadataMap(MetadataMap);

/// The entries that a metadata map holds, by key.
pub uninterp spec fn metadata_entries(map: MetadataMap) -> Map<Seq<char>, Seq<Seq<u8>>>;

/// `MetadataKey::<Ascii>::from_str`: whether `key` parses as the key of an
/// ASCII metadata entry. It does where it parses as a header name, which
/// `HeaderName::from_bytes` takes where it is not empty, no longer than
/// 65535 bytes and made of token characters only, and where that name, in
/// lower case, does not end in `-bin`.
#[verifier::external_body]
fn is_metadata_key(key: &str) -> (ok: bool)
    ensures
        ok == (metadata_key_of(key@) is Some),
{
    MetadataKey::<Ascii>::from_str(key).is_ok()
}

/// `MetadataValue::<Ascii>::from_str`: whether `value` parses as an ASCII
/// metadata value. It does unless one of its bytes is an ASCII control
/// character other than the tab; bytes of characters beyond ASCII pass.
#[verifier::external_body]
fn is_metadata_value(value: &str) -> (ok: bool)
    ensures
        ok == is_header_text(value@),
{
    MetadataValue::<Ascii>::from_str(value).is_ok()
}

/// `MetadataMap::keys_len`: the number of keys that the map holds, which
/// are finitely many.
#[verifier::external_body]
fn metadata_keys_len(map: &MetadataMap) -> (n: usize)
    ensures
        holds_names(metadata_entries(*map), n as nat),
{
    map.keys_len()
}

/// `MetadataMap::insert`, with the key and the value parsed from text as
/// above: the values under the key, which is stored in lower case, are
/// replaced by the one value, and the other keys stay as they are. The
/// table underneath panics only where it
/// would have to grow past 32768 slots, and it grows only once it holds at
/// least a fifth of its slots, 6554 keys at that size; a map of fewer than
/// `MAX_NAMES` keys cannot get there.
#[verifier::external_body]
fn metadata_insert(map: &mut MetadataMap, key: &str, value: &str)
    requires
        metadata_key_of(key@) is Some,
        is_header_text(value@),
        metadata_entries(*old(map)).dom().len() < MAX_NAMES,
    ensures
        metadata_entries(*final(map)) == with_header(
            metadata_entries(*old(map)),
            metadata_key_of(key@)->0,
            value@,
        ),
{
    let parsed_key: MetadataKey<Ascii> = MetadataKey::from_str(key).unwrap();
    let parsed_value: MetadataValue<Ascii> = MetadataValue::from_str(value).unwrap();
    map.insert(parsed_key, parsed_value);
}

impl HeaderSink for MetadataMap {
    open spec fn entries(&self) -> Entries {
        metadata_entries(*self)
    }

    open spec fn name_of(key: Seq<char>) -> Option<Seq<char>> {
        metadata_key_of(key)
    }

    fn accepts_name(key: &str) -> (ok: bool) {
        is_metadata_key(key)
    }

    fn accepts_value(value: &str) -> (ok: bool) {
        is_metadata_value(value)
    }

    fn has_room(&self) -> (ok: bool) {
        metadata_keys_len(self) < MAX_NAMES
    }

    fn set(&mut self, key: &str, value: &str) {
        metadata_insert(self, key, value)
    }
}

} // verus!
