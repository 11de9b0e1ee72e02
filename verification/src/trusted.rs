//! Contracts assumed about outside code.
//!
//! Everything in this module is believed, not proved: each item names the
//! function of an outside crate (or of `std`, where vstd gives it no
//! specification) that it relies on, and states no more than that function's
//! own documentation promises.

use vstd::prelude::*;

verus! {

/// Relies on `String::push`: appends one character to the string.
pub assume_specification[ String::push ](s: &mut String, c: char)
    ensures
        final(s)@ == old(s)@.push(c),
;

/// `serde_json::Value` carried as an opaque value: the library never reads
/// it directly, only through the accessors below.
#[verifier::external_type_specification]
#[verifier::external_body]
pub struct ExValue(serde_json::Value);

/// Relies on `serde_json::Value::get`: the member of a JSON object under
/// this key, if the value is an object and the key is present.
#[verifier::external_body]
pub(crate) fn json_field<'a>(v: &'a serde_json::Value, key: &str) -> Option<&'a serde_json::Value> {
    v.get(key)
}

/// Relies on `serde_json::Value::as_i64`: the value as a signed integer, if
/// it is an integer number in range.
#[verifier::external_body]
pub(crate) fn json_as_i64(v: &serde_json::Value) -> Option<i64> {
    v.as_i64()
}

/// What `str::to_lowercase` returns for a given sequence of characters: the
/// Unicode lowercase mapping, a function of the characters alone.
pub uninterp spec fn lower_of(s: Seq<char>) -> Seq<char>;

/// Relies on `str::to_lowercase`: the Unicode lowercase of the string,
/// depending on its characters alone.
#[verifier::external_body]
pub(crate) fn lowercase(s: &str) -> (r: String)
    ensures
        r@ == lower_of(s@),
{
    s.to_lowercase()
}

/// What the standard base64 engine encodes a byte run to: a function of
/// the bytes alone.
pub uninterp spec fn b64_of(bytes: Seq<u8>) -> Seq<char>;

/// What the standard base64 engine decodes a text to, when it decodes at
/// all: a function of the characters alone.
pub uninterp spec fn b64_decode_of(text: Seq<char>) -> Option<Seq<u8>>;

/// Relies on `base64::Engine::encode` with the standard alphabet: the
/// encoding depends on the bytes alone, and decoding it yields the bytes
/// back.
#[verifier::external_body]
pub(crate) fn b64_encode(bytes: &[u8]) -> (r: String)
    ensures
        r@ == b64_of(bytes@),
        b64_decode_of(r@) == Some(bytes@),
{
    base64::Engine::encode(&base64::engine::general_purpose::STANDARD, bytes)
}

/// Relies on `base64::Engine::decode` with the standard alphabet: the
/// decoding depends on the characters alone, and fails exactly on text the
/// engine rejects.
#[verifier::external_body]
pub(crate) fn b64_decode(text: &str) -> (r: Option<Vec<u8>>)
    ensures
        match r {
            Some(v) => b64_decode_of(text@) == Some(v@),
            None => b64_decode_of(text@) is None,
        },
{
    base64::Engine::decode(&base64::engine::general_purpose::STANDARD, text).ok()
}

/// Relies on `std::time::SystemTime::now`: nanoseconds since the Unix
/// epoch, used only to seed the throwaway password generator.  Nothing can
/// be promised of a clock reading.
#[verifier::external_body]
pub(crate) fn unix_nanos() -> u128 {
    match std::time::SystemTime::now().duration_since(std::time::UNIX_EPOCH) {
        Ok(d) => d.as_nanos(),
        Err(_) => 0,
    }
}

} // verus!
