//! The identity of a migration script: the SHA-256 digest of its text,
//! written as 64 lowercase hexadecimal characters.

use crypto::digest::Digest;
use crypto::sha2::Sha256;
use vstd::prelude::*;

verus! {

/// The hexadecimal SHA-256 digest of the UTF-8 encoding of `text`.
pub uninterp spec fn sha256_hex(text: Seq<char>) -> Seq<char>;

/// Whether `c` is one of `0`..`9`, `a`..`f`.
pub open spec fn is_lower_hex(c: char) -> bool {
    ('0' <= c && c <= '9') || ('a' <= c && c <= 'f')
}

/// Whether `fp` has the shape of a fingerprint: 64 lowercase hexadecimal
/// characters.
pub open spec fn is_fingerprint(fp: Seq<char>) -> bool {
    &&& fp.len() == 64
    &&& forall|i: int| 0 <= i < fp.len() ==> is_lower_hex(#[trigger] fp[i])
}

/// Calls `crypto::sha2::Sha256` through `Digest::input_str` and
/// `Digest::result_str`. Trusted: the result is the digest of the text's
/// bytes, a function of the text alone, and `result_str` writes each of
/// the 32 digest bytes as two characters out of `0123456789abcdef`.
#[verifier::external_body]
fn hash(s: &str) -> (digest: String)
    ensures
        digest@ == sha256_hex(s@),
        is_fingerprint(digest@),
{
    let mut hasher = Sha256::new();
    hasher.input_str(s);
    hasher.result_str()
}

/// The fingerprint of a script's text. The same text always has the same
/// fingerprint, whenever and wherever it is computed.
pub fn fingerprint(text: &str) -> (fp: String)
    ensures
        fp@ == sha256_hex(text@),
        is_fingerprint(fp@),
{
    hash(text)
}

/// Determinism: two fingerprints of the same text are the same, wherever
/// and whenever each was computed.
pub proof fn law_same_text_same_fingerprint(a: &str, b: &str, of_a: String, of_b: String)
    requires
        a@ == b@,
        of_a@ == sha256_hex(a@),
        of_b@ == sha256_hex(b@),
    ensures
        of_a@ == of_b@,
{
}

} // verus!
