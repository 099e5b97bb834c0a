//! UTF-8 conformance: a corpus of valid and malformed byte sequences that
//! must decode or be rejected exactly per the strict UTF-8 grammar.

use charsets::charset::Str as StrTrait;
use charsets::charsets::utf_8;

fn accepts(bytes: &[u8]) -> bool {
    let from_validate = utf_8::validate(bytes).is_ok();
    let from_decode = utf_8::Str::decode(bytes).is_ok();
    assert_eq!(from_validate, from_decode);
    assert_eq!(from_validate, core::str::from_utf8(bytes).is_ok());
    from_validate
}

#[test]
fn utf_8_accepts_valid_sequences() {
    assert!(accepts(b""));
    assert!(accepts(b"plain ascii"));
    assert!(accepts(&[0x7f]));
    // Two-byte encodings, including both ends of the range.
    assert!(accepts(&[0xc2, 0x80]));
    assert!(accepts(&[0xc3, 0xa9]));
    assert!(accepts(&[0xdf, 0xbf]));
    // Three-byte encodings, including the boundaries around the surrogate
    // range.
    assert!(accepts(&[0xe0, 0xa0, 0x80]));
    assert!(accepts(&[0xe2, 0x82, 0xac]));
    assert!(accepts(&[0xed, 0x9f, 0xbf]));
    assert!(accepts(&[0xee, 0x80, 0x80]));
    assert!(accepts(&[0xef, 0xbf, 0xbf]));
    // Four-byte encodings, including the first and last Unicode scalars.
    assert!(accepts(&[0xf0, 0x90, 0x80, 0x80]));
    assert!(accepts(&[0xf0, 0x9f, 0x98, 0x80]));
    assert!(accepts(&[0xf4, 0x8f, 0xbf, 0xbf]));
    // Mixed widths in one sequence.
    assert!(accepts("a\u{e9}\u{20ac}\u{1f600}z".as_bytes()));
}

#[test]
fn utf_8_rejects_lone_continuation_bytes() {
    assert!(!accepts(&[0x80]));
    assert!(!accepts(&[0xbf]));
    assert!(!accepts(&[0xe9]));
    assert!(!accepts(&[0x61, 0x80, 0x62]));
}

#[test]
fn utf_8_rejects_truncated_sequences() {
    assert!(!accepts(&[0xc3]));
    assert!(!accepts(&[0xe2, 0x82]));
    assert!(!accepts(&[0xf0, 0x90, 0x80]));
    assert!(!accepts(&[0x61, 0xc3]));
    assert!(!accepts(&[0xc3, 0x61]));
    assert!(!accepts(&[0xe2, 0x82, 0x20]));
    assert!(!accepts(&[0xf0, 0x90, 0x80, 0x20]));
}

#[test]
fn utf_8_rejects_overlong_encodings() {
    assert!(!accepts(&[0xc0, 0x80]));
    assert!(!accepts(&[0xc0, 0xaf]));
    assert!(!accepts(&[0xc1, 0xbf]));
    assert!(!accepts(&[0xe0, 0x80, 0xaf]));
    assert!(!accepts(&[0xe0, 0x9f, 0xbf]));
    assert!(!accepts(&[0xf0, 0x80, 0x80, 0x80]));
    assert!(!accepts(&[0xf0, 0x8f, 0xbf, 0xbf]));
}

#[test]
fn utf_8_rejects_surrogate_encodings() {
    assert!(!accepts(&[0xed, 0xa0, 0x80]));
    assert!(!accepts(&[0xed, 0xbf, 0xbf]));
    // A surrogate pair encoded as two three-byte sequences.
    assert!(!accepts(&[0xed, 0xa0, 0xbd, 0xed, 0xb8, 0x80]));
}

#[test]
fn utf_8_rejects_out_of_range_codepoints() {
    assert!(!accepts(&[0xf4, 0x90, 0x80, 0x80]));
    assert!(!accepts(&[0xf5, 0x80, 0x80, 0x80]));
    assert!(!accepts(&[0xf7, 0xbf, 0xbf, 0xbf]));
    assert!(!accepts(&[0xf8, 0x88, 0x80, 0x80, 0x80]));
    assert!(!accepts(&[0xfe]));
    assert!(!accepts(&[0xff]));
}

#[test]
fn utf_8_rejects_malformed_tail_after_valid_prefix() {
    assert!(!accepts(b"ok so far \xc0\xaf"));
    assert!(!accepts("caf\u{e9}".as_bytes().iter().copied().chain([0x80]).collect::<Vec<u8>>().as_slice()));
}

#[test]
fn utf_8_exhaustive_two_byte_prefixes() {
    // For every leading byte, decoding the pair (lead, 0x80) and the single
    // byte must agree with the reference validator.
    for b in 0..=255u8 {
        accepts(&[b]);
        accepts(&[b, 0x80]);
        accepts(&[b, 0xbf, 0x80]);
    }
}
