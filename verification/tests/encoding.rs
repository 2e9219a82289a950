//! Texts as bytes.

use roosycozy::drace::hashing::hex_encode;
use roosycozy::platform::encoding::{
    decode_hex_string, decode_storage_text_bytes, little_endian_bytes, text_of_utf16,
    units_of_bytes, utf16_units, windows_ps_encoded,
};

#[test]
fn utf16_of_a_text_is_that_of_std() {
    for s in ["", "abc", "한글 기록", "\u{10FFFF}a\u{10000}", "😀 끝"] {
        assert_eq!(utf16_units(s), s.encode_utf16().collect::<Vec<u16>>());
        assert_eq!(text_of_utf16(&utf16_units(s)), Some(s.to_string()));
    }
}

#[test]
fn halves_of_pairs_are_no_text() {
    for units in [vec![0xD800u16], vec![0xDC00], vec![0xD83D, 0x0041], vec![0x0041, 0xD83D]] {
        assert_eq!(text_of_utf16(&units), None);
        assert!(String::from_utf16(&units).is_err());
    }
}

#[test]
fn code_units_come_back_from_their_bytes() {
    let units = vec![0x0041u16, 0xAC00, 0xFFFF, 0];
    let bytes = little_endian_bytes(&units);
    assert_eq!(bytes, vec![0x41, 0, 0, 0xAC, 0xFF, 0xFF, 0, 0]);
    assert_eq!(units_of_bytes(&bytes), units);
    assert_eq!(units_of_bytes(&[0x41, 0, 0x42]), vec![0x41]);
}

#[test]
fn scripts_are_encoded_for_powershell() {
    assert_eq!(windows_ps_encoded(""), "");
    assert_eq!(windows_ps_encoded("a"), "YQA=");
    assert_eq!(windows_ps_encoded("dir"), "ZABpAHIA");
    assert_eq!(windows_ps_encoded("한"), "XNU=");
    assert_eq!(windows_ps_encoded("\u{fffb}\u{ffff}"), "+////w==");
}

#[test]
fn stored_utf8_comes_back_without_marks() {
    assert_eq!(
        decode_storage_text_bytes("\u{feff}{\"a\":1}".as_bytes()),
        Some("{\"a\":1}".to_string())
    );
    assert_eq!(decode_storage_text_bytes(b"  "), Some("\u{2020}".to_string()));
    assert_eq!(decode_storage_text_bytes(b"   "), None);
    assert_eq!(decode_storage_text_bytes(&[]), None);
}

#[test]
fn stored_utf16_comes_back_without_marks() {
    let bytes = little_endian_bytes(&utf16_units("\u{feff}기록"));
    assert_eq!(decode_storage_text_bytes(&bytes), Some("기록".to_string()));
    assert_eq!(decode_storage_text_bytes(&[0xFF, 0xFE, 0x41]), None);
    assert_eq!(decode_storage_text_bytes(&[0x00, 0xD8]), None);
}

#[test]
fn hexadecimal_comes_back() {
    let bytes: Vec<u8> = (0..=255).collect();
    assert_eq!(decode_hex_string(&hex_encode(&bytes)), Some(bytes));
    assert_eq!(decode_hex_string(" 7B7d \n"), Some(vec![0x7B, 0x7D]));
    assert_eq!(decode_hex_string("abc"), None);
    assert_eq!(decode_hex_string(""), None);
    assert_eq!(decode_hex_string("0g"), None);
}
