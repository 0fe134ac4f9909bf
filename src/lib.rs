use vstd::prelude::*;
use vstd::utf8::encode_utf8;

pub mod digest;
pub mod hex_text;

use crate::digest::{blake2b_512, blake2b_512_of, DIGEST_LEN};
use crate::hex_text::{
    decode, decode_outcome, encode_upper, hex_upper, lemma_decode_hex_upper, result_view, DecodeError,
};

verus! {

/// BLAKE2b-512 fingerprints of file contents, as upper-case hexadecimal text.
pub struct Blake2bSum;

impl Blake2bSum {
    /// The 128-character upper-case hexadecimal text of the BLAKE2b-512
    /// digest of a file's contents.
    pub fn new(contents: &[u8]) -> (r: String)
        ensures
            r@ == hex_upper(blake2b_512_of(contents@)),
            r@.len() == 2 * DIGEST_LEN,
    {
        let hash = blake2b_512(contents);
        encode_upper(hash.as_slice())
    }

    /// The 64-byte BLAKE2b-512 digest of a byte sequence.
    pub fn digest(contents: &[u8]) -> (r: Vec<u8>)
        ensures
            r@ == blake2b_512_of(contents@),
            r@.len() == DIGEST_LEN,
    {
        blake2b_512(contents)
    }

    /// The bytes that a hexadecimal text stands for, upper and lower case
    /// digits alike, or why the text is not one.
    pub fn to_bytes(s: String) -> (r: Result<Vec<u8>, DecodeError>)
        ensures
            decode_outcome(encode_utf8(s@), result_view(r)),
    {
        decode(s.as_str().as_bytes())
    }
}

/// Decoding the text that `new` gives for some contents yields exactly the
/// digest that `digest` gives for them.
pub proof fn lemma_round_trip(contents: Seq<u8>)
    ensures
        decode_outcome(
            encode_utf8(hex_upper(blake2b_512_of(contents))),
            Ok(blake2b_512_of(contents)),
        ),
{
    lemma_decode_hex_upper(blake2b_512_of(contents));
}

/// Hashing the same contents twice gives the same digest and the same text.
pub proof fn lemma_deterministic(first: Seq<u8>, second: Seq<u8>)
    requires
        first == second,
    ensures
        blake2b_512_of(first) == blake2b_512_of(second),
        hex_upper(blake2b_512_of(first)) == hex_upper(blake2b_512_of(second)),
{
}

} // verus!
