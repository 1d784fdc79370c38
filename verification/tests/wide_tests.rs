use webpage_to_app::wide::{decode_wide, encode_wide};

#[test]
fn ascii_encodes_one_unit_per_char_plus_terminator() {
    assert_eq!(encode_wide("ab"), vec![0x61u16, 0x62, 0]);
}

#[test]
fn empty_string_encodes_to_lone_terminator() {
    assert_eq!(encode_wide(""), vec![0u16]);
}

#[test]
fn basic_plane_char_encodes_to_its_code() {
    // The euro sign sits in the basic plane: one unit.
    assert_eq!(encode_wide("\u{20AC}"), vec![0x20ACu16, 0]);
}

#[test]
fn supplementary_char_encodes_to_surrogate_pair() {
    // U+1D11E (musical G clef) needs a surrogate pair.
    assert_eq!(encode_wide("\u{1D11E}"), vec![0xD834u16, 0xDD1E, 0]);
}

#[test]
fn url_encodes_to_exact_units() {
    let url = "https://example.com";
    let got = encode_wide(url);
    let mut expected: Vec<u16> = url.chars().map(|c| c as u16).collect();
    expected.push(0);
    assert_eq!(got, expected);
}

#[test]
fn decoding_undoes_encoding() {
    let url = "https://example.com/p\u{20AC}th/\u{1D11E}?q=caf\u{E9}";
    let mut units = encode_wide(url);
    let terminator = units.pop();
    assert_eq!(terminator, Some(0));
    let decoded = decode_wide(&units).unwrap();
    let expected: Vec<char> = url.chars().collect();
    assert_eq!(decoded, expected);
}

#[test]
fn lone_high_surrogate_does_not_decode() {
    assert!(decode_wide(&[0xD834u16]).is_none());
}

#[test]
fn lone_low_surrogate_does_not_decode() {
    assert!(decode_wide(&[0xDD1Eu16, 0x61]).is_none());
}

#[test]
fn misordered_surrogates_do_not_decode() {
    assert!(decode_wide(&[0xDD1Eu16, 0xD834]).is_none());
}

#[test]
fn surrogate_pair_decodes_to_supplementary_char() {
    let decoded = decode_wide(&[0xD834u16, 0xDD1E]).unwrap();
    assert_eq!(decoded, vec!['\u{1D11E}']);
}
