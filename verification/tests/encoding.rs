use windows_terminal::encode_utf16;
use windows_terminal::text_of_bytes;
use windows_terminal::ConsoleError;

#[test]
fn empty_string_encodes_to_nothing() {
    let units = encode_utf16("");
    assert_eq!(units, Vec::<u16>::new());
}

#[test]
fn ascii_text_is_one_unit_per_character() {
    let units = encode_utf16("OK");
    assert_eq!(units, vec![0x4F, 0x4B]);
}

#[test]
fn bmp_characters_are_single_units() {
    assert_eq!(encode_utf16("\u{E9}"), vec![0x00E9]);
    assert_eq!(encode_utf16("\u{20AC}"), vec![0x20AC]);
    assert_eq!(encode_utf16("\u{FFFD}"), vec![0xFFFD]);
}

#[test]
fn supplementary_characters_become_surrogate_pairs() {
    assert_eq!(encode_utf16("\u{1F600}"), vec![0xD83D, 0xDE00]);
    assert_eq!(encode_utf16("\u{1D11E}"), vec![0xD834, 0xDD1E]);
    assert_eq!(encode_utf16("\u{10FFFF}"), vec![0xDBFF, 0xDFFF]);
}

#[test]
fn encoding_matches_the_platform_transformation() {
    let samples = ["", "OK", "hello world", "caf\u{E9} \u{20AC}5", "a\u{1F600}b\u{1D11E}"];
    for s in samples {
        let expected: Vec<u16> = s.encode_utf16().collect();
        assert_eq!(encode_utf16(s), expected);
    }
}

#[test]
fn valid_utf8_bytes_decode_to_the_same_text() {
    let bytes = "caf\u{E9} \u{1F600}".as_bytes().to_vec();
    let decoded = text_of_bytes(bytes).unwrap();
    assert_eq!(decoded, "caf\u{E9} \u{1F600}");
}

#[test]
fn empty_byte_buffer_decodes_to_the_empty_string() {
    assert_eq!(text_of_bytes(Vec::new()).unwrap(), "");
}

#[test]
fn invalid_utf8_bytes_are_rejected() {
    assert_eq!(text_of_bytes(vec![0xFF]), Err(ConsoleError::InvalidUtf8));
    // An overlong encoding of NUL.
    assert_eq!(text_of_bytes(vec![0xC0, 0x80]), Err(ConsoleError::InvalidUtf8));
    // The encoding of a lone surrogate.
    assert_eq!(text_of_bytes(vec![0xED, 0xA0, 0x80]), Err(ConsoleError::InvalidUtf8));
    // A truncated multi-byte sequence.
    assert_eq!(text_of_bytes(vec![0xE2, 0x82]), Err(ConsoleError::InvalidUtf8));
}
