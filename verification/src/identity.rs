//! Derivation of the stable identifier for a name: the lowercase hex
//! encoding of the SHA-256 digest of the UTF-8 bytes of the name with a
//! fixed, process-wide salt appended.

use vstd::prelude::*;
use vstd::string::StringExecFns;
use vstd::utf8::encode_utf8;
use sha2::Digest;

verus! {

/// The process-wide salt appended to every name before hashing.
pub open spec fn spec_salt() -> Seq<char> {
    "UNIQUE_SAL"@
}

/// The fixed salt as text.
pub fn salt() -> (r: &'static str)
    ensures
        r@ == spec_salt(),
{
    "UNIQUE_SAL"
}

/// What the SHA-256 digest of a byte sequence is: fixed by the bytes alone.
pub uninterp spec fn sha256_of(bytes: Seq<u8>) -> Seq<u8>;

/// The lowercase hex digit for a nibble.
pub open spec fn hex_digit_char(v: u8) -> char
    recommends
        v < 16,
{
    if v < 10 {
        ((0x30 + v) as u8) as char
    } else {
        ((0x57 + v) as u8) as char
    }
}

/// The lowercase hex encoding of a byte sequence: two digits per byte,
/// high nibble first.
pub open spec fn hex_lower(bytes: Seq<u8>) -> Seq<char> {
    Seq::new(
        bytes.len() * 2,
        |i: int|
            if i % 2 == 0 {
                hex_digit_char((bytes[i / 2] / 16) as u8)
            } else {
                hex_digit_char((bytes[i / 2] % 16) as u8)
            },
    )
}

/// The UTF-8 bytes a name is hashed over: the name with the salt appended.
pub open spec fn salted_bytes(name: Seq<char>) -> Seq<u8> {
    encode_utf8(name + spec_salt())
}

/// The identifier a name derives to: the lowercase hex encoding of the
/// SHA-256 digest of its salted UTF-8 bytes.
pub open spec fn spec_identifier(name: Seq<char>) -> Seq<char> {
    hex_lower(sha256_of(salted_bytes(name)))
}

/// Relies on sha2's `Sha256` through `Digest::digest`: the 32-byte SHA-256
/// digest of the input, a function of the input bytes alone.
#[verifier::external_body]
fn sha256_digest(bytes: &[u8]) -> (r: Vec<u8>)
    ensures
        r@ == sha256_of(bytes@),
        r@.len() == 32,
{
    sha2::Sha256::digest(bytes).to_vec()
}

/// Relies on `base16ct::lower::encode_string`: two lowercase hex digits per
/// input byte, high nibble first. It panics on inputs longer than half the
/// address space, so such inputs are excluded.
#[verifier::external_body]
fn hex_encode_lower(bytes: &[u8]) -> (r: String)
    requires
        bytes@.len() <= usize::MAX / 2,
    ensures
        r@ == hex_lower(bytes@),
{
    base16ct::lower::encode_string(bytes)
}

/// Derive the stable identifier for a name. Total and deterministic: every
/// string, the empty one included, derives to a 64-character lowercase hex
/// identifier, a function of the name alone.
pub fn derive(name: &str) -> (r: String)
    ensures
        r@ == spec_identifier(name@),
        r@.len() == 64,
{
    let mut salted: String = String::from_str(name);
    salted.append(salt());
    let digest: Vec<u8> = sha256_digest(salted.as_str().as_bytes());
    hex_encode_lower(digest.as_slice())
}

/// Law: derivation is deterministic — two derivations of one name yield
/// the same identifier.
pub proof fn lemma_derive_deterministic(name: Seq<char>, first: Seq<char>, second: Seq<char>)
    requires
        first == spec_identifier(name),
        second == spec_identifier(name),
    ensures
        first == second,
{
}

/// Law: distinct identifiers come only from distinct names — the
/// contrapositive of determinism. That distinct names never share an
/// identifier is a property of the hash, checked on samples, not proved.
pub proof fn lemma_distinct_identifiers_distinct_names(left: Seq<char>, right: Seq<char>)
    requires
        spec_identifier(left) != spec_identifier(right),
    ensures
        left != right,
{
}

} // verus!
