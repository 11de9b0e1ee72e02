//! Credential obfuscation for the file fallback of the credential store.
//!
//! When the system keychain is unavailable, credentials are kept in a file
//! with basic obfuscation only — an XOR against a fixed label, then base64.
//! This is not encryption; it prevents casual viewing and nothing more.
//! The file and keychain traffic itself lives with the surrounding
//! application.

use crate::trusted::{b64_decode, b64_decode_of, b64_encode, b64_of};
use vstd::prelude::*;

verus! {

/// The fixed obfuscation key: the ASCII bytes of the store label.
pub open spec fn spec_obfuscation_key() -> Seq<u8> {
    seq![110u8, 99u8, 45u8, 100u8, 97u8, 116u8, 97u8, 45u8, 101u8, 120u8, 112u8, 111u8, 114u8, 116u8, 45u8, 106u8, 119u8, 116u8, 45u8, 115u8, 116u8, 111u8, 114u8, 101u8, 45u8, 107u8, 101u8, 121u8]
}

/// The store label the obfuscation key is drawn from.
pub fn get_obfuscation_key() -> (r: String)
    ensures
        r@ == "nc-data-export-jwt-store-key"@,
{
    let r: String = "nc-data-export-jwt-store-key".to_owned();
    r
}

fn obfuscation_key_bytes() -> (r: Vec<u8>)
    ensures
        r@ == spec_obfuscation_key(),
{
    let mut k: Vec<u8> = Vec::new();
    k.push(110);
    k.push(99);
    k.push(45);
    k.push(100);
    k.push(97);
    k.push(116);
    k.push(97);
    k.push(45);
    k.push(101);
    k.push(120);
    k.push(112);
    k.push(111);
    k.push(114);
    k.push(116);
    k.push(45);
    k.push(106);
    k.push(119);
    k.push(116);
    k.push(45);
    k.push(115);
    k.push(116);
    k.push(111);
    k.push(114);
    k.push(101);
    k.push(45);
    k.push(107);
    k.push(101);
    k.push(121);
    assert(k@ =~= spec_obfuscation_key());
    k
}

/// Each byte XOR-ed with the key byte at its position, the key repeating.
pub open spec fn spec_xor_bytes(data: Seq<u8>, key: Seq<u8>) -> Seq<u8>
    recommends
        key.len() > 0,
{
    Seq::new(data.len(), |i: int| data[i] ^ key[i % key.len() as int])
}

fn xor_bytes(data: &[u8], key: &[u8]) -> (r: Vec<u8>)
    requires
        key@.len() > 0,
    ensures
        r@ == spec_xor_bytes(data@, key@),
{
    let mut r: Vec<u8> = Vec::new();
    let mut i: usize = 0;
    while i < data.len()
        invariant
            i <= data@.len(),
            key@.len() > 0,
            r@.len() == i,
            forall|j: int| 0 <= j < i ==> r@[j] == data@[j] ^ key@[j % key@.len() as int],
        decreases data@.len() - i,
    {
        let k: usize = i % key.len();
        r.push(data[i] ^ key[k]);
        i += 1;
    }
    assert(r@ =~= spec_xor_bytes(data@, key@));
    r
}

/// XOR with the same key twice gives the bytes back.
pub proof fn lemma_xor_bytes_involutive(data: Seq<u8>, key: Seq<u8>)
    requires
        key.len() > 0,
    ensures
        spec_xor_bytes(spec_xor_bytes(data, key), key) == data,
{
    let once = spec_xor_bytes(data, key);
    let twice = spec_xor_bytes(once, key);
    assert forall|i: int| 0 <= i < data.len() implies twice[i] == data[i] by {
        let k: u8 = key[i % key.len() as int];
        let d: u8 = data[i];
        assert((d ^ k) ^ k == d) by (bit_vector);
    }
    assert(twice =~= data);
}

/// Obfuscates bytes: XOR against the fixed key, then base64.  The result
/// always deobfuscates back to the input.
pub fn obfuscate_bytes(data: &[u8]) -> (r: String)
    ensures
        r@ == b64_of(spec_xor_bytes(data@, spec_obfuscation_key())),
        b64_decode_of(r@) == Some(spec_xor_bytes(data@, spec_obfuscation_key())),
{
    let key = obfuscation_key_bytes();
    let x = xor_bytes(data, key.as_slice());
    b64_encode(x.as_slice())
}

/// Deobfuscates a stored text back to bytes; text the base64 engine
/// rejects yields nothing.
pub fn deobfuscate_bytes(text: &str) -> (r: Option<Vec<u8>>)
    ensures
        match r {
            Some(v) => b64_decode_of(text@) matches Some(x) && v@ == spec_xor_bytes(
                x,
                spec_obfuscation_key(),
            ),
            None => b64_decode_of(text@) is None,
        },
{
    let key = obfuscation_key_bytes();
    match b64_decode(text) {
        Some(x) => Some(xor_bytes(x.as_slice(), key.as_slice())),
        None => None,
    }
}

/// What is stored deobfuscates to what was obfuscated: the two functions
/// compose to the identity on the byte level.
pub fn obfuscation_round_trip(data: &[u8]) -> (r: Option<Vec<u8>>)
    ensures
        r matches Some(v) && v@ == data@,
{
    let stored = obfuscate_bytes(data);
    let back = deobfuscate_bytes(stored.as_str());
    proof {
        lemma_xor_bytes_involutive(data@, spec_obfuscation_key());
    }
    back
}

} // verus!
