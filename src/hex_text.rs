use vstd::prelude::*;
use vstd::utf8::{encode_utf8, is_ascii_chars, is_ascii_chars_encode_utf8};

verus! {

/// The upper-case hexadecimal digit for a nibble value below 16.
pub open spec fn upper_hex_digit(n: int) -> char {
    if n < 10 {
        (n + 48) as char
    } else {
        (n + 55) as char
    }
}

/// The upper-case hexadecimal text of a byte sequence: two digits per byte,
/// the high nibble first.
pub open spec fn hex_upper(bytes: Seq<u8>) -> Seq<char> {
    Seq::new(
        2 * bytes.len(),
        |k: int|
            if k % 2 == 0 {
                upper_hex_digit(bytes[k / 2] as int / 16)
            } else {
                upper_hex_digit(bytes[k / 2] as int % 16)
            },
    )
}

/// Relies on hex::encode_upper: each byte becomes its two upper-case digits
/// from "0123456789ABCDEF", high nibble first, in byte order.
#[verifier::external_body]
pub(crate) fn encode_upper(bytes: &[u8]) -> (r: String)
    ensures
        r@ == hex_upper(bytes@),
{
    hex::encode_upper(bytes)
}

/// Why a text is not the hexadecimal form of a byte sequence.
#[derive(Debug, Clone, Copy, PartialEq, Eq, Structural)]
pub enum DecodeError {
    /// The byte at `index` of the text, read as `c`, is not a hexadecimal digit.
    InvalidHexCharacter { c: char, index: usize },
    /// The text has an odd number of bytes.
    OddLength,
    /// The text does not fit the length of a fixed-size output.
    InvalidStringLength,
}

/// A byte that is one of `0-9`, `A-F` or `a-f`.
pub open spec fn is_hex_digit(b: u8) -> bool {
    (48 <= b <= 57) || (65 <= b <= 70) || (97 <= b <= 102)
}

/// The value of a hexadecimal digit byte.
pub open spec fn hex_digit_value(b: u8) -> int {
    if 48 <= b <= 57 {
        b - 48
    } else if 65 <= b <= 70 {
        b - 55
    } else {
        b - 87
    }
}

/// Every byte of the text is a hexadecimal digit.
pub open spec fn all_hex_digits(text: Seq<u8>) -> bool {
    forall|i: int| 0 <= i < text.len() ==> is_hex_digit(#[trigger] text[i])
}

/// The bytes that an even-length text of hexadecimal digits stands for:
/// each pair of digits gives one byte, the first digit the high nibble.
pub open spec fn hex_decoded(text: Seq<u8>) -> Seq<u8> {
    Seq::new(
        text.len() / 2,
        |i: int| (hex_digit_value(text[2 * i]) * 16 + hex_digit_value(text[2 * i + 1])) as u8,
    )
}

/// `outcome` is what decoding `text` gives: an odd length is refused first;
/// otherwise the first byte that is not a hexadecimal digit is reported;
/// otherwise the text decodes to `hex_decoded(text)`.
pub open spec fn decode_outcome(text: Seq<u8>, outcome: Result<Seq<u8>, DecodeError>) -> bool {
    match outcome {
        Ok(bytes) => text.len() % 2 == 0 && all_hex_digits(text) && bytes == hex_decoded(text),
        Err(DecodeError::OddLength) => text.len() % 2 != 0,
        Err(DecodeError::InvalidHexCharacter { c, index }) => {
            &&& text.len() % 2 == 0
            &&& index < text.len()
            &&& !is_hex_digit(text[index as int])
            &&& all_hex_digits(text.take(index as int))
            &&& c == text[index as int] as char
        },
        Err(DecodeError::InvalidStringLength) => false,
    }
}

/// The view of a decoding result, with the bytes as a sequence.
pub open spec fn result_view(r: Result<Vec<u8>, DecodeError>) -> Result<Seq<u8>, DecodeError> {
    match r {
        Ok(v) => Ok(v@),
        Err(e) => Err(e),
    }
}

/// Relies on hex::decode: an odd length gives `OddLength`; otherwise the
/// pairs are read in order, first digit then second, and the first byte
/// outside `0-9A-Fa-f` gives `InvalidHexCharacter` with that byte as a char
/// and its index; otherwise each pair becomes one byte, high nibble first.
#[verifier::external_body]
pub(crate) fn decode(text: &[u8]) -> (r: Result<Vec<u8>, DecodeError>)
    ensures
        decode_outcome(text@, result_view(r)),
{
    match hex::decode(text) {
        Ok(bytes) => Ok(bytes),
        Err(hex::FromHexError::InvalidHexCharacter { c, index }) => Err(
            DecodeError::InvalidHexCharacter { c, index },
        ),
        Err(hex::FromHexError::OddLength) => Err(DecodeError::OddLength),
        Err(hex::FromHexError::InvalidStringLength) => Err(DecodeError::InvalidStringLength),
    }
}

/// A character that is one of `0-9` or `A-F`.
pub open spec fn is_upper_hex_char(c: char) -> bool {
    ('0' <= c <= '9') || ('A' <= c <= 'F')
}

/// Upper-case hexadecimal text is twice as long as the bytes it encodes, and
/// each of its characters is one of `0-9A-F`; for a 64-byte digest that is
/// 128 characters.
pub proof fn lemma_hex_upper_shape(bytes: Seq<u8>)
    ensures
        hex_upper(bytes).len() == 2 * bytes.len(),
        bytes.len() == 64 ==> hex_upper(bytes).len() == 128,
        forall|k: int| 0 <= k < hex_upper(bytes).len() ==> is_upper_hex_char(#[trigger] hex_upper(bytes)[k]),
{
    assert forall|k: int| 0 <= k < hex_upper(bytes).len() implies is_upper_hex_char(
        #[trigger] hex_upper(bytes)[k],
    ) by {
        let b = bytes[k / 2] as int;
        assert(0 <= b / 16 < 16 && 0 <= b % 16 < 16);
    }
}

/// The UTF-8 bytes of upper-case hexadecimal text decode back to the bytes
/// that were encoded.
pub proof fn lemma_decode_hex_upper(bytes: Seq<u8>)
    ensures
        decode_outcome(encode_utf8(hex_upper(bytes)), Ok(bytes)),
{
    let chars = hex_upper(bytes);
    lemma_hex_upper_shape(bytes);
    assert(is_ascii_chars(chars));
    is_ascii_chars_encode_utf8(chars);
    let text = encode_utf8(chars);
    assert(all_hex_digits(text));
    assert(hex_decoded(text) =~= bytes) by {
        assert forall|i: int| 0 <= i < bytes.len() implies #[trigger] hex_decoded(text)[i] == bytes[i] by {
            let b = bytes[i] as int;
            assert(chars[2 * i] == upper_hex_digit(b / 16));
            assert(chars[2 * i + 1] == upper_hex_digit(b % 16));
            assert(hex_digit_value(text[2 * i]) == b / 16);
            assert(hex_digit_value(text[2 * i + 1]) == b % 16);
        }
    }
}

} // verus!
