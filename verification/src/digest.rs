//! Content fingerprinting: a deterministic digest of a file's bytes.
//!
//! The digest is the hex form of a SHA-1 hash, held as a `String` of forty
//! hex characters. It is a pure function of the bytes, so two fingerprints
//! of the same content are always equal, and an unchanged manifest is
//! recognised by digest equality alone.

use vstd::prelude::*;

verus! {

/// The hex form of the SHA-1 digest of a byte sequence. The digest is a
/// function of the bytes alone, so this name is well defined; its value on
/// given bytes is known only to the hash implementation.
pub uninterp spec fn sha1_hex_of(bytes: Seq<u8>) -> Seq<char>;

/// Relies on `sha1::Sha1` (`new`, `update`, `digest`) and the `Display`
/// form of `sha1::Digest`: the digest is a function of the input bytes
/// alone, rendered as forty lowercase hex characters.
#[verifier::external_body]
fn sha1_hex(bytes: &Vec<u8>) -> (r: String)
    ensures
        r@ == sha1_hex_of(bytes@),
        r@.len() == 40,
{
    let mut m = sha1::Sha1::new();
    m.update(bytes.as_slice());
    m.digest().to_string()
}

/// Computes the content fingerprint of a manifest's bytes.
///
/// Deterministic: the result is a function of `bytes` alone, so two calls
/// on equal contents return equal digests.
pub fn fingerprint(bytes: &Vec<u8>) -> (d: String)
    ensures
        d@ == sha1_hex_of(bytes@),
        d@.len() == 40,
{
    sha1_hex(bytes)
}

/// Fingerprinting is deterministic: equal byte contents have equal digests.
pub proof fn lemma_fingerprint_deterministic(b1: Seq<u8>, b2: Seq<u8>)
    requires
        b1 == b2,
    ensures
        sha1_hex_of(b1) == sha1_hex_of(b2),
{
}

} // verus!
