use vstd::prelude::*;

verus! {

/// The width of the digest, in bytes.
pub const DIGEST_LEN: usize = 64;

/// The unkeyed BLAKE2b digest with a 64-byte output of a byte sequence.
pub uninterp spec fn blake2b_512_of(data: Seq<u8>) -> Seq<u8>;

/// Relies on blake2_rfc::blake2b::blake2b with an output width of 64 bytes
/// and an empty key: it hashes `data` in one pass, and the result's
/// `as_bytes` holds exactly the 64 bytes of the digest.
#[verifier::external_body]
pub(crate) fn blake2b_512(data: &[u8]) -> (r: Vec<u8>)
    ensures
        r@ == blake2b_512_of(data@),
        r@.len() == DIGEST_LEN,
{
    blake2_rfc::blake2b::blake2b(DIGEST_LEN, &[], data).as_bytes().to_vec()
}

} // verus!
