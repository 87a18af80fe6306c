//! A branch's generation: the SHA-256 digest of its reflog's bytes. Git
//! appends to a branch's reflog whenever it updates, deletes or recreates the
//! branch, so two reads with the same digest saw the same generation.
use vstd::prelude::*;

verus! {

/// The SHA-256 digest of a byte string.
pub uninterp spec fn sha256_digest(bytes: Seq<u8>) -> Seq<u8>;

/// Calls `<sha2::Sha256 as sha2::Digest>::digest` on the bytes and copies the
/// 32-byte output into a `Vec`. Claims that the result is the SHA-256 digest
/// of the bytes, a function of them alone, and that it has 32 bytes; what the
/// digest is on given bytes is left to the name `sha256_digest`.
#[verifier::external_body]
pub(crate) fn sha256(bytes: &[u8]) -> (r: Vec<u8>)
    ensures
        r@ == sha256_digest(bytes@),
        r@.len() == 32,
{
    <sha2::Sha256 as sha2::Digest>::digest(bytes).to_vec()
}

/// The generation token of a reflog's bytes.
pub open spec fn generation_of(reflog: Seq<u8>) -> Seq<u8> {
    sha256_digest(reflog)
}

/// The generation token of a reflog's bytes: their SHA-256 digest.
pub fn reflog_generation(reflog: &[u8]) -> (r: Vec<u8>)
    ensures
        r@ == generation_of(reflog@),
        r@.len() == 32,
{
    sha256(reflog)
}

} // verus!
