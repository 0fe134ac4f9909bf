use b2sum::hex_text::DecodeError;
use b2sum::Blake2bSum;

const ABC_DIGEST: &str = "BA80A53F981C4D0D6A2797B69F12F6E94C212F14685AC4B74B12BB6FDBFFA2D17D87C5392AAB792DC252D5DE4533CC9518D38AA8DBF1925AB92386EDD4009923";
const EMPTY_DIGEST: &str = "786A02F742015903C6C6FD852552D272912F4740E15847618A86E217F71F5419D25E1031AFEE585313896444934EB04B903A685B1448B755D56F701AFE9BE2CE";

#[test]
fn it_works() {
    assert_eq!(2 + 2, 4);
}

#[test]
fn abc_gives_the_published_digest() {
    assert_eq!(Blake2bSum::new(b"abc"), ABC_DIGEST);
}

#[test]
fn empty_contents_give_the_empty_input_digest() {
    assert_eq!(Blake2bSum::new(b""), EMPTY_DIGEST);
}

#[test]
fn hashing_twice_gives_the_same_text() {
    let data = b"the same bytes, hashed twice".to_vec();
    assert_eq!(Blake2bSum::new(&data), Blake2bSum::new(&data.clone()));
    assert_eq!(Blake2bSum::digest(&data), Blake2bSum::digest(&data));
}

#[test]
fn text_is_128_upper_case_hex_digits() {
    for data in [&b""[..], &b"abc"[..], &[0u8, 255, 16, 1][..]] {
        let text = Blake2bSum::new(data);
        assert_eq!(text.len(), 128);
        assert!(text.chars().all(|c| c.is_ascii_digit() || ('A'..='F').contains(&c)));
    }
}

#[test]
fn digest_is_64_bytes_and_matches_the_text() {
    let raw = Blake2bSum::digest(b"abc");
    assert_eq!(raw.len(), 64);
    assert_eq!(raw[0], 0xBA);
    assert_eq!(raw[63], 0x23);
}

#[test]
fn decoding_the_text_gives_back_the_digest() {
    for data in [&b""[..], &b"abc"[..], &b"hello"[..]] {
        let text = Blake2bSum::new(data);
        assert_eq!(Blake2bSum::to_bytes(text), Ok(Blake2bSum::digest(data)));
    }
}

#[test]
fn odd_length_is_refused() {
    assert_eq!(Blake2bSum::to_bytes("ABC".to_string()), Err(DecodeError::OddLength));
}

#[test]
fn odd_length_is_reported_before_a_bad_digit() {
    assert_eq!(Blake2bSum::to_bytes("ZZZ".to_string()), Err(DecodeError::OddLength));
}

#[test]
fn non_hex_character_is_refused() {
    assert_eq!(
        Blake2bSum::to_bytes("ZZ".to_string()),
        Err(DecodeError::InvalidHexCharacter { c: 'Z', index: 0 })
    );
}

#[test]
fn first_bad_digit_is_reported_with_its_index() {
    assert_eq!(
        Blake2bSum::to_bytes("00aG1x".to_string()),
        Err(DecodeError::InvalidHexCharacter { c: 'G', index: 3 })
    );
}

#[test]
fn non_ascii_text_is_reported_by_its_first_byte() {
    assert_eq!(
        Blake2bSum::to_bytes("\u{e9}\u{e9}".to_string()),
        Err(DecodeError::InvalidHexCharacter { c: '\u{c3}', index: 0 })
    );
    assert_eq!(Blake2bSum::to_bytes("\u{e9}1".to_string()), Err(DecodeError::OddLength));
}

#[test]
fn mixed_case_decodes_alike() {
    assert_eq!(Blake2bSum::to_bytes("ab".to_string()), Ok(vec![0xAB]));
    assert_eq!(Blake2bSum::to_bytes("AB".to_string()), Ok(vec![0xAB]));
    assert_eq!(Blake2bSum::to_bytes("aB".to_string()), Ok(vec![0xAB]));
    assert_eq!(Blake2bSum::to_bytes("f9b4CA".to_string()), Ok(vec![0xF9, 0xB4, 0xCA]));
}

#[test]
fn empty_text_decodes_to_no_bytes() {
    assert_eq!(Blake2bSum::to_bytes(String::new()), Ok(vec![]));
}

#[test]
fn one_changed_byte_changes_the_digest() {
    let hello = Blake2bSum::new(b"hello");
    let hellp = Blake2bSum::new(b"hellp");
    assert_eq!(hello.len(), 128);
    assert_eq!(hellp.len(), 128);
    assert_ne!(hello, hellp);
}
