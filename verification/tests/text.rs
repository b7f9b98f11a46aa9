//! Modified-UTF-8 tests: validation, decoding, and encoding.

use classfile::jstr::JStr;
use classfile::jstr::JString;

#[test]
fn validation_accepts_and_rejects() {
    assert!(JStr::from_jutf8(b"").is_ok());
    assert!(JStr::from_jutf8(b"hello").is_ok());
    assert!(JStr::from_jutf8(&[0xC0, 0x80]).is_ok()); // encoded null
    assert!(JStr::from_jutf8(&[0xC3, 0xA9]).is_ok()); // two-byte unit
    assert!(JStr::from_jutf8(&[0xED, 0xA0, 0x80]).is_ok()); // lone surrogate
    assert!(JStr::from_jutf8(&[0x00]).is_err()); // raw null byte
    assert!(JStr::from_jutf8(&[0xC3]).is_err()); // truncated unit
    assert!(JStr::from_jutf8(&[0xE2, 0x82]).is_err()); // truncated unit
    assert!(JStr::from_jutf8(&[0xF0, 0x9F, 0x98, 0x80]).is_err()); // four-byte form
    assert!(JStr::from_jutf8(&[0x80]).is_err()); // stray continuation
    assert!(JStr::from_jutf8(&[0xE0, 0x80, 0x80]).is_err()); // overlong
}

#[test]
fn basic_accessors() {
    let s = JStr::from_jutf8(b"abc").unwrap();
    assert_eq!(s.len(), 3);
    assert!(!s.is_empty());
    assert_eq!(s.as_bytes(), b"abc");
    let empty = JStr::from_jutf8(b"").unwrap();
    assert!(empty.is_empty());
}

#[test]
fn char_boundaries() {
    let s = JStr::from_jutf8(&[b'a', 0xC3, 0xA9, b'b']).unwrap();
    assert!(s.is_char_boundary(0));
    assert!(s.is_char_boundary(1));
    assert!(!s.is_char_boundary(2)); // inside the two-byte unit
    assert!(s.is_char_boundary(3));
    assert!(s.is_char_boundary(4));
    assert!(!s.is_char_boundary(5)); // past the end
}

#[test]
fn chars_decode_ascii_and_two_byte() {
    let s = JStr::from_jutf8(&[b'A', 0xC3, 0xA9, 0xC0, 0x80]).unwrap();
    let mut it = s.chars();
    assert_eq!(it.next(), Some(Ok('A')));
    assert_eq!(it.next(), Some(Ok('\u{E9}')));
    assert_eq!(it.next(), Some(Ok('\0')));
    assert_eq!(it.next(), None);
}

#[test]
fn chars_decode_paired_surrogates() {
    // the six-byte paired encoding of U+1F600
    let s = JStr::from_jutf8(&[0xED, 0xA0, 0xBD, 0xED, 0xB8, 0x80]).unwrap();
    let mut it = s.chars();
    assert_eq!(it.next(), Some(Ok('\u{1F600}')));
    assert_eq!(it.next(), None);
}

#[test]
fn chars_hand_back_lone_surrogates() {
    let s = JStr::from_jutf8(&[0xED, 0xA0, 0x80, b'z']).unwrap();
    let mut it = s.chars();
    assert_eq!(it.next(), Some(Err(0xD800)));
    assert_eq!(it.next(), Some(Ok('z')));
    assert_eq!(it.next(), None);
}

#[test]
fn chars_lossy_replaces_lone_surrogates() {
    let s = JStr::from_jutf8(&[0xED, 0xA0, 0x80, b'z']).unwrap();
    let mut it = s.chars_lossy();
    assert_eq!(it.next(), Some('\u{FFFD}'));
    assert_eq!(it.next(), Some('z'));
    assert_eq!(it.next(), None);
}

#[test]
fn reader_rest_as_string() {
    let s = JStr::from_jutf8(b"ab").unwrap();
    let mut it = s.chars();
    assert_eq!(it.next(), Some(Ok('a')));
    assert_eq!(it.as_jstr().as_bytes(), b"b");
}

#[test]
fn push_encodes_every_width() {
    let mut s = JString::new();
    s.push('A');
    s.push('\0');
    s.push('\u{E9}');
    s.push('\u{20AC}');
    s.push('\u{1F600}');
    let expected: Vec<u8> = vec![
        b'A', // one byte
        0xC0, 0x80, // encoded null
        0xC3, 0xA9, // two bytes
        0xE2, 0x82, 0xAC, // three bytes
        0xED, 0xA0, 0xBD, 0xED, 0xB8, 0x80, // paired surrogates
    ];
    assert_eq!(s.as_bytes(), expected.as_slice());
    // what push wrote is well-formed modified UTF-8 and decodes back
    let round = JString::from_mutf8(expected).expect("well-formed");
    let back = JStr::from_jutf8(round.as_bytes()).unwrap();
    let mut it = back.chars();
    assert_eq!(it.next(), Some(Ok('A')));
    assert_eq!(it.next(), Some(Ok('\0')));
    assert_eq!(it.next(), Some(Ok('\u{E9}')));
    assert_eq!(it.next(), Some(Ok('\u{20AC}')));
    assert_eq!(it.next(), Some(Ok('\u{1F600}')));
    assert_eq!(it.next(), None);
}

#[test]
fn from_mutf8_validates() {
    assert!(JString::from_mutf8(vec![0xC0, 0x80]).is_ok());
    assert!(JString::from_mutf8(vec![0x00]).is_err());
    let empty = JString::new();
    assert_eq!(empty.as_bytes(), b"");
    assert_eq!(JString::with_capacity(8).as_bytes(), b"");
}

#[test]
fn to_str_requires_standard_utf8() {
    let s = JStr::from_jutf8(b"plain").unwrap();
    assert_eq!(s.to_str().unwrap(), "plain");
    let s = JStr::from_jutf8(&[0xC3, 0xA9]).unwrap();
    assert_eq!(s.to_str().unwrap(), "\u{E9}");
    // an encoded null is not standard UTF-8
    let s = JStr::from_jutf8(&[0xC0, 0x80]).unwrap();
    assert!(s.to_str().is_none());
    // neither is a lone surrogate encoding
    let s = JStr::from_jutf8(&[0xED, 0xA0, 0x80]).unwrap();
    assert!(s.to_str().is_none());
}

#[test]
fn display_replaces_lone_surrogates() {
    let s = JStr::from_jutf8(&[b'a', 0xED, 0xA0, 0x80, b'z']).unwrap();
    assert_eq!(s.display().to_string(), "a\u{FFFD}z");
    let s = JStr::from_jutf8(&[0xC3, 0xA9, 0xED, 0xA0, 0xBD, 0xED, 0xB8, 0x80]).unwrap();
    assert_eq!(s.display().to_string(), "\u{E9}\u{1F600}");
}
