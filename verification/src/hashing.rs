//! Content-addressed cache keys: the digest of the `(text, voice, speed)`
//! triple, rendered in lowercase hexadecimal, names the cache file.

use vstd::prelude::*;
use vstd::string::StringExecFns;
use vstd::string::StringSliceAdditionalSpecFns;
use vstd::utf8::encode_utf8;
use sha2::Digest;

verus! {

/// The SHA-256 digest of a byte sequence. The digest itself is far too long
/// to state here; it is a pure function of the input, which is all the cache
/// key needs.
pub uninterp spec fn sha256_of(data: Seq<u8>) -> Seq<u8>;

/// Relies on `sha2::Sha256`: a 32-byte digest computed from the input bytes
/// alone.
#[verifier::external_body]
pub fn sha256(data: &[u8]) -> (r: Vec<u8>)
    ensures
        r@ == sha256_of(data@),
        r@.len() == 32,
{
    let mut hasher = sha2::Sha256::new();
    hasher.update(data);
    hasher.finalize().to_vec()
}

/// The character for one hexadecimal digit, lowercase.
pub open spec fn hex_digit(d: nat) -> char {
    if d == 0 {
        '0'
    } else if d == 1 {
        '1'
    } else if d == 2 {
        '2'
    } else if d == 3 {
        '3'
    } else if d == 4 {
        '4'
    } else if d == 5 {
        '5'
    } else if d == 6 {
        '6'
    } else if d == 7 {
        '7'
    } else if d == 8 {
        '8'
    } else if d == 9 {
        '9'
    } else if d == 10 {
        'a'
    } else if d == 11 {
        'b'
    } else if d == 12 {
        'c'
    } else if d == 13 {
        'd'
    } else if d == 14 {
        'e'
    } else {
        'f'
    }
}

/// Lowercase hexadecimal rendering of a byte sequence, two digits per byte,
/// high nibble first.
pub open spec fn hex_of(bytes: Seq<u8>) -> Seq<char>
    decreases bytes.len(),
{
    if bytes.len() == 0 {
        Seq::empty()
    } else {
        seq![
            hex_digit((bytes[0] >> 4u8) as nat),
            hex_digit((bytes[0] & 0x0fu8) as nat),
        ] + hex_of(bytes.drop_first())
    }
}

/// Relies on `hex::encode`: each byte becomes two lowercase hexadecimal
/// digits, high nibble first.
#[verifier::external_body]
pub fn hex_lower(data: &Vec<u8>) -> (r: String)
    ensures
        r@ == hex_of(data@),
{
    hex::encode(data)
}

proof fn lemma_hex_len(bytes: Seq<u8>)
    ensures
        hex_of(bytes).len() == 2 * bytes.len(),
    decreases bytes.len(),
{
    if bytes.len() > 0 {
        lemma_hex_len(bytes.drop_first());
    }
}

/// The material that is hashed for the cache key: the triple joined with
/// dashes, exactly as `text-voice-speed`.
pub open spec fn key_material_of(text: Seq<char>, voice: Seq<char>, speed: Seq<char>) -> Seq<
    char,
> {
    text + "-"@ + voice + "-"@ + speed
}

/// The cache key of an input triple: the digest of the UTF-8 bytes of the
/// joined material, in lowercase hex.
pub open spec fn cache_key_of(text: Seq<char>, voice: Seq<char>, speed: Seq<char>) -> Seq<char> {
    hex_of(sha256_of(encode_utf8(key_material_of(text, voice, speed))))
}

/// Computes the cache key of a synthesis input triple. `speed` is the decimal
/// rendering of the speed multiplier, as the caller displays it.
pub fn cache_key(text: &str, voice: &str, speed: &str) -> (r: String)
    ensures
        r@ == cache_key_of(text@, voice@, speed@),
        r@.len() == 64,
{
    let mut material = text.to_owned();
    material.append("-");
    material.append(voice);
    material.append("-");
    material.append(speed);
    let bytes = material.as_str().as_bytes();
    proof {
        assert(bytes@ == encode_utf8(key_material_of(text@, voice@, speed@)));
    }
    let digest = sha256(bytes);
    let r = hex_lower(&digest);
    proof {
        lemma_hex_len(digest@);
    }
    r
}

/// Law: the cache key is a function of the input triple alone, so repeated
/// synthesis of one `(text, voice, speed)` names the same cache file.
pub proof fn lemma_cache_key_idempotent(
    t1: Seq<char>,
    v1: Seq<char>,
    s1: Seq<char>,
    t2: Seq<char>,
    v2: Seq<char>,
    s2: Seq<char>,
)
    requires
        t1 == t2,
        v1 == v2,
        s1 == s2,
    ensures
        cache_key_of(t1, v1, s1) == cache_key_of(t2, v2, s2),
{
}

} // verus!
