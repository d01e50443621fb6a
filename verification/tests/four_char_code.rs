//! Four-character codes on concrete values.
use doom_fish_utils::four_char_code::{NOT_ASCII, WRONG_LENGTH};
use doom_fish_utils::FourCharCode;

#[test]
fn bytes_and_integers_round_trip() {
    let code = FourCharCode::from_bytes(*b"avc1");

    assert_eq!(code.as_u32(), 0x6176_6331);
    assert_eq!(code.as_bytes(), *b"avc1");
    assert_eq!(FourCharCode::from_u32(0x6176_6331), code);
    assert_eq!(FourCharCode::from(0x6176_6331), code);
    assert_eq!(u32::from(code), 0x6176_6331);
    assert!(code.equals(FourCharCode::from_bytes(*b"avc1")));
    assert!(!code.equals(FourCharCode::from_bytes(*b"hvc1")));
}

#[test]
fn from_slice_requires_exactly_four_bytes() {
    assert_eq!(
        FourCharCode::from_slice(b"BGRA"),
        Some(FourCharCode::from_bytes(*b"BGRA"))
    );
    assert_eq!(FourCharCode::from_slice(b"BGR"), None);
    assert_eq!(FourCharCode::from_slice(b"BGRA8"), None);
    assert_eq!(FourCharCode::from_slice(&[]), None);
}

#[test]
fn parsing_rejects_wrong_lengths_and_non_ascii() {
    assert_eq!(
        "420v".parse::<FourCharCode>(),
        Ok(FourCharCode::from_bytes(*b"420v"))
    );
    assert_eq!(
        "BGR".parse::<FourCharCode>(),
        Err("FourCharCode must be exactly 4 characters")
    );
    assert_eq!(
        "BGRA8".parse::<FourCharCode>(),
        Err("FourCharCode must be exactly 4 characters")
    );
    assert_eq!(
        "ab\u{e9}".parse::<FourCharCode>(),
        Err("FourCharCode must contain only ASCII characters")
    );
}

#[test]
fn display_shows_the_code_characters() {
    let code = FourCharCode::from_bytes(*b"lpcm");

    assert_eq!(code.display(), "lpcm");
    assert_eq!(code.display().to_string(), "lpcm");
    assert_eq!(
        FourCharCode::from_bytes([b'a', 0xff, b'b', b'c']).display(),
        "a\u{fffd}bc"
    );
}

#[test]
fn documented_codes_have_their_documented_values() {
    let code: FourCharCode = "BGRA".parse().unwrap();
    assert_eq!(code.display(), "BGRA");
    assert_eq!(FourCharCode::from_bytes(*b"420v").as_u32(), 0x3432_3076);
    assert_eq!(FourCharCode::from_bytes(*b"BGRA").as_u32(), 0x4247_5241);
}

#[test]
fn every_byte_keeps_its_place() {
    assert_eq!(FourCharCode::from_bytes([1, 2, 3, 4]).as_u32(), 0x0102_0304);
    assert_eq!(FourCharCode::from_u32(0xfffe_fdfc).as_bytes(), [255, 254, 253, 252]);
    assert_eq!(FourCharCode::from_u32(0).as_bytes(), [0; 4]);
    assert_eq!(FourCharCode::from_bytes([255; 4]).as_u32(), u32::MAX);
    for value in [0u32, 1, 0x80, 0x0100_0000, 0x00ff_00ff, u32::MAX] {
        let bytes = FourCharCode::from_u32(value).as_bytes();
        assert_eq!(FourCharCode::from_bytes(bytes).as_u32(), value);
        assert_eq!(bytes, value.to_be_bytes());
    }
}

#[test]
fn parsed_texts_are_displayed_again() {
    for text in ["avc1", "    ", "\0\0\0\u{7f}", "raw "] {
        let code = FourCharCode::from_str(text).unwrap();
        assert_eq!(code.display(), text);
        assert_eq!(FourCharCode::from_str(&code.display()), Ok(code));
    }
}

#[test]
fn length_is_looked_at_before_the_characters() {
    assert_eq!(FourCharCode::from_str(""), Err(WRONG_LENGTH));
    assert_eq!(FourCharCode::from_str("\u{e9}\u{e9}\u{e9}"), Err(WRONG_LENGTH));
    assert_eq!(FourCharCode::from_str("\u{e9}\u{e9}"), Err(NOT_ASCII));
    assert_eq!(FourCharCode::from_str("\u{1f41f}"), Err(NOT_ASCII));
}

#[test]
fn valid_text_beyond_ascii_is_displayed_as_it_is() {
    assert_eq!(FourCharCode::from_bytes([0xf0, 0x9f, 0x90, 0x9f]).display(), "\u{1f41f}");
    assert_eq!(FourCharCode::from_bytes([0xc3, 0xa9, b'a', b'b']).display(), "\u{e9}ab");
}
