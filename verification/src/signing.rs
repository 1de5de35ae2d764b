//! The signing scheme: a keyed SHA-256 digest of the payload, written in hex.
//!
//! The scheme is symmetric. It detects tampering by anyone who does not know
//! the secret; whoever extracts the secret can forge signatures.

use crate::text::same_text;
use vstd::prelude::*;
use vstd::string::StringSliceAdditionalSpecFns;

verus! {

/// The secret that issuer and validator share.
pub const SIGNING_SECRET: &'static str = "scc-license-salt-2025";

/// The SHA-256 digest of a byte string, as `sha2` computes it.
pub uninterp spec fn sha256_digest(data: Seq<u8>) -> Seq<u8>;

/// The hex digit of a value below sixteen.
pub open spec fn hex_digit(nibble: int) -> char {
    "0123456789abcdef"@[nibble]
}

/// A byte string in lower-case hex: two digits for each byte, the high half first.
pub open spec fn hex_text(bytes: Seq<u8>) -> Seq<char> {
    Seq::new(
        2 * bytes.len(),
        |i: int|
            if i % 2 == 0 {
                hex_digit(bytes[i / 2] as int / 16)
            } else {
                hex_digit(bytes[i / 2] as int % 16)
            },
    )
}

/// The bytes of the shared secret.
pub open spec fn secret_bytes() -> Seq<u8> {
    SIGNING_SECRET.spec_bytes()
}

/// The signature of a payload, as bytes: the digest of the payload followed by the secret.
pub open spec fn signature_bytes(payload: Seq<u8>) -> Seq<u8> {
    sha256_digest(payload + secret_bytes())
}

/// The signature of a payload, as the hex text that an artifact carries.
pub open spec fn signature_text(payload: Seq<u8>) -> Seq<char> {
    hex_text(signature_bytes(payload))
}

/// Calls `sha2::Sha256::digest` (the `Digest` trait's one-shot function) and
/// copies the 32-byte output into a vector. The contract only names the digest.
#[verifier::external_body]
fn sha256(data: &[u8]) -> (digest: Vec<u8>)
    ensures
        digest@ == sha256_digest(data@),
{
    <sha2::Sha256 as sha2::Digest>::digest(data).to_vec()
}

/// Calls `hex::encode`, which writes each byte as two lower-case hex digits.
#[verifier::external_body]
fn hex_encode(bytes: &[u8]) -> (text: String)
    ensures
        text@ == hex_text(bytes@),
{
    hex::encode(bytes)
}

/// Signs a payload: the SHA-256 digest of the payload followed by the secret.
pub fn sign(payload: &[u8]) -> (signature: Vec<u8>)
    ensures
        signature@ == signature_bytes(payload@),
{
    let mut keyed: Vec<u8> = Vec::new();
    keyed.extend_from_slice(payload);
    keyed.extend_from_slice(SIGNING_SECRET.as_bytes());
    assert(keyed@ =~= payload@ + secret_bytes());
    sha256(keyed.as_slice())
}

/// The signature of a payload in the hex text that an artifact carries.
pub fn compute_signature(payload: &[u8]) -> (signature: String)
    ensures
        signature@ == signature_text(payload@),
{
    let digest = sign(payload);
    hex_encode(digest.as_slice())
}

/// Whether `signature` is the signature of `payload`: the signature is
/// computed again and compared character by character.
pub fn verify_signature(payload: &[u8], signature: &str) -> (authentic: bool)
    ensures
        authentic == (signature@ == signature_text(payload@)),
{
    let expected = compute_signature(payload);
    same_text(signature, expected.as_str())
}

/// Two byte strings with the same hex text are the same.
pub proof fn hex_text_is_injective(a: Seq<u8>, b: Seq<u8>)
    requires
        hex_text(a) == hex_text(b),
    ensures
        a == b,
{
    reveal_strlit("0123456789abcdef");
    assert(hex_text(a).len() == 2 * a.len());
    assert(hex_text(b).len() == 2 * b.len());
    assert forall|i: int| 0 <= i < a.len() implies a[i] == b[i] by {
        let high_a = a[i] as int / 16;
        let high_b = b[i] as int / 16;
        let low_a = a[i] as int % 16;
        let low_b = b[i] as int % 16;
        assert(hex_text(a)[2 * i] == hex_digit(high_a));
        assert(hex_text(b)[2 * i] == hex_digit(high_b));
        assert(hex_text(a)[2 * i + 1] == hex_digit(low_a));
        assert(hex_text(b)[2 * i + 1] == hex_digit(low_b));
        assert(high_a == high_b);
        assert(low_a == low_b);
    }
    assert(a =~= b);
}

} // verus!
