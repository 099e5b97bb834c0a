//! Per-charset codec behaviour: validity rules over all 256 byte values,
//! round trips, and buffer preservation on failure.

use charsets::charset::Character as CharacterTrait;
use charsets::charset::Charset as CharsetTrait;
use charsets::charset::Str as StrTrait;
use charsets::charset::String as StringTrait;
use charsets::charsets::iso8859_1_1987;
use charsets::charsets::iso8859_2_1987;
use charsets::charsets::iso8859_3_1988;
use charsets::charsets::us_ascii;
use charsets::charsets::utf_8;

const ISO_8859_3_RESERVED: [u8; 7] = [0xa5, 0xae, 0xbe, 0xc3, 0xd0, 0xe3, 0xf0];

#[test]
fn us_ascii_validate_all_bytes() {
    for b in 0..=255u8 {
        let ok = us_ascii::validate(&[b]).is_ok();
        assert_eq!(ok, b < 0x80, "byte {b:#04x}");
        assert_eq!(us_ascii::Str::decode(&[b]).is_ok(), b < 0x80);
    }
}

#[test]
fn iso8859_1_accepts_all_bytes() {
    for b in 0..=255u8 {
        assert!(iso8859_1_1987::Str::decode(&[b]).is_ok(), "byte {b:#04x}");
        assert!(iso8859_1_1987::String::decode(vec![b]).is_ok());
    }
}

#[test]
fn iso8859_2_accepts_all_bytes() {
    for b in 0..=255u8 {
        assert!(iso8859_2_1987::Str::decode(&[b]).is_ok(), "byte {b:#04x}");
        assert!(iso8859_2_1987::String::decode(vec![b]).is_ok());
    }
}

#[test]
fn iso8859_3_rejects_exactly_the_reserved_bytes() {
    for b in 0..=255u8 {
        let expected = !ISO_8859_3_RESERVED.contains(&b);
        assert_eq!(iso8859_3_1988::validate(&[b]).is_ok(), expected, "byte {b:#04x}");
        assert_eq!(iso8859_3_1988::Str::decode(&[b]).is_ok(), expected);
    }
}

#[test]
fn iso8859_3_assigned_bytes_decode_to_documented_scalars() {
    assert_eq!(iso8859_3_1988::Character::from(0xa1).scalar(), '\u{0126}');
    assert_eq!(iso8859_3_1988::Character::from(0xa2).scalar(), '\u{02d8}');
    assert_eq!(iso8859_3_1988::Character::from(0xb1).scalar(), '\u{0127}');
    assert_eq!(iso8859_3_1988::Character::from(0xc0).scalar(), '\u{00c0}');
    assert_eq!(iso8859_3_1988::Character::from(0xd8).scalar(), '\u{011c}');
    assert_eq!(iso8859_3_1988::Character::from(0xf5).scalar(), '\u{0121}');
    assert_eq!(iso8859_3_1988::Character::from(0xff).scalar(), '\u{02d9}');
    for b in 0..0xa0u8 {
        assert_eq!(iso8859_3_1988::Character::from(b).scalar() as u32, b as u32);
    }
    for b in ISO_8859_3_RESERVED {
        assert_eq!(iso8859_3_1988::Character::from(b).scalar(), '\u{0}');
    }
}

#[test]
fn iso8859_2_graphics_table_scalars() {
    assert_eq!(iso8859_2_1987::Character::from(0xa0).scalar(), '\u{00a0}');
    assert_eq!(iso8859_2_1987::Character::from(0xa1).scalar(), '\u{0104}');
    assert_eq!(iso8859_2_1987::Character::from(0xb3).scalar(), '\u{0142}');
    assert_eq!(iso8859_2_1987::Character::from(0xc8).scalar(), '\u{010c}');
    assert_eq!(iso8859_2_1987::Character::from(0xe9).scalar(), '\u{00e9}');
    assert_eq!(iso8859_2_1987::Character::from(0xff).scalar(), '\u{02d9}');
    for b in 0..0xa0u8 {
        assert_eq!(iso8859_2_1987::Character::from(b).scalar() as u32, b as u32);
    }
}

#[test]
fn iso8859_1_identity_mapping() {
    for b in 0..=255u8 {
        assert_eq!(iso8859_1_1987::Character::from(b).scalar() as u32, b as u32);
    }
}

#[test]
fn us_ascii_round_trip() {
    let bytes = b"plain ascii text";
    let view = us_ascii::Str::decode(bytes).unwrap();
    assert_eq!(view.as_bytes(), bytes);
    let owned = view.to_owned();
    assert_eq!(StringTrait::as_bytes(&owned), bytes);
    assert_eq!(owned.into_bytes(), bytes.to_vec());
}

#[test]
fn iso8859_1_round_trip() {
    let bytes = [0x63u8, 0x61, 0x66, 0xe9];
    let view = iso8859_1_1987::Str::decode(&bytes).unwrap();
    assert_eq!(view.as_bytes(), &bytes);
    let owned = iso8859_1_1987::String::decode(bytes.to_vec()).unwrap();
    assert_eq!(owned.deref().as_bytes(), &bytes);
    assert_eq!(owned.into_bytes(), bytes.to_vec());
}

#[test]
fn iso8859_3_round_trip() {
    let bytes = [0x61u8, 0xa1, 0xff];
    let view = iso8859_3_1988::Str::decode(&bytes).unwrap();
    assert_eq!(view.as_bytes(), &bytes);
    let owned = view.to_owned();
    assert_eq!(StringTrait::as_bytes(&owned), &bytes);
    assert_eq!(owned.into_bytes(), bytes.to_vec());
}

#[test]
fn utf_8_round_trip() {
    let bytes = "caf\u{e9} \u{20ac} \u{1f600}".as_bytes();
    let view = utf_8::Str::decode(bytes).unwrap();
    assert_eq!(view.as_bytes(), bytes);
    let owned = utf_8::String::decode(bytes.to_vec()).unwrap();
    assert_eq!(owned.deref().as_bytes(), bytes);
    assert_eq!(owned.into_bytes(), bytes.to_vec());
}

#[test]
fn us_ascii_failed_decode_preserves_buffer() {
    let bytes = vec![0x61u8, 0xe9, 0x62];
    let (returned, _error) = us_ascii::String::decode(bytes.clone()).unwrap_err();
    assert_eq!(returned, bytes);
}

#[test]
fn iso8859_3_failed_decode_preserves_buffer() {
    let bytes = vec![0x61u8, 0xa5];
    let (returned, _error) = iso8859_3_1988::String::decode(bytes.clone()).unwrap_err();
    assert_eq!(returned, bytes);
}

#[test]
fn utf_8_failed_decode_preserves_buffer() {
    let bytes = vec![0x61u8, 0xc3];
    let (returned, _error) = utf_8::String::decode(bytes.clone()).unwrap_err();
    assert_eq!(returned, bytes);
}

#[test]
fn decode_unchecked_agrees_with_decode() {
    let bytes = b"checked";
    let checked = us_ascii::Str::decode(bytes).unwrap();
    let unchecked = us_ascii::Str::decode_unchecked(bytes);
    assert_eq!(checked, unchecked);
    let owned = us_ascii::String::decode_unchecked(bytes.to_vec());
    assert_eq!(StringTrait::as_bytes(&owned), bytes);
}

#[test]
fn per_charset_equality_is_byte_equality() {
    let a = us_ascii::Str::decode(b"same").unwrap();
    let b = us_ascii::Str::decode(b"same").unwrap();
    let c = us_ascii::Str::decode(b"other").unwrap();
    assert_eq!(a, b);
    assert_ne!(a, c);
    let oa = a.to_owned();
    let ob = b.to_owned();
    let oc = c.to_owned();
    assert_eq!(oa, ob);
    assert_ne!(oa, oc);
    assert_eq!(oa.clone(), ob);
}

#[test]
fn per_charset_error_messages() {
    let ascii_err = us_ascii::Str::decode(&[0x80]).unwrap_err();
    assert_eq!(charsets::charset::DecodeError::message(&ascii_err), "invalid US-ASCII");
    let latin3_err = iso8859_3_1988::Str::decode(&[0xa5]).unwrap_err();
    assert_eq!(
        charsets::charset::DecodeError::message(&latin3_err),
        "invalid ISO-8859-3:1988 (ISO-8859-3)"
    );
    let utf8_err = utf_8::Str::decode(&[0xff]).unwrap_err();
    assert_eq!(charsets::charset::DecodeError::message(&utf8_err), "invalid UTF-8");
    assert_eq!(
        charsets::charset::DecodeError::message(&iso8859_1_1987::DecodeError),
        "invalid ISO-8859-1:1987 (ISO-8859-1)"
    );
    assert_eq!(
        charsets::charset::DecodeError::message(&iso8859_2_1987::DecodeError),
        "invalid ISO-8859-2:1987 (ISO-8859-2)"
    );
}

#[test]
fn charset_identity_constants() {
    assert_eq!(us_ascii::Charset::mib_enum(), 3);
    assert_eq!(iso8859_1_1987::Charset::mib_enum(), 4);
    assert_eq!(iso8859_2_1987::Charset::mib_enum(), 5);
    assert_eq!(iso8859_3_1988::Charset::mib_enum(), 6);
    assert_eq!(utf_8::Charset::mib_enum(), 106);

    assert_eq!(us_ascii::Charset::primary_name().as_bytes(), b"US-ASCII");
    assert_eq!(iso8859_1_1987::Charset::primary_name().as_bytes(), b"ISO_8859-1:1987");
    assert_eq!(iso8859_2_1987::Charset::primary_name().as_bytes(), b"ISO_8859-2:1987");
    assert_eq!(iso8859_3_1988::Charset::primary_name().as_bytes(), b"ISO_8859-3:1988");
    assert_eq!(utf_8::Charset::primary_name().as_bytes(), b"UTF-8");

    assert_eq!(us_ascii::Charset::preferred_mime_name().unwrap().as_bytes(), b"US-ASCII");
    assert_eq!(
        iso8859_1_1987::Charset::preferred_mime_name().unwrap().as_bytes(),
        b"ISO-8859-1"
    );
    assert_eq!(
        iso8859_2_1987::Charset::preferred_mime_name().unwrap().as_bytes(),
        b"ISO-8859-2"
    );
    assert_eq!(
        iso8859_3_1988::Charset::preferred_mime_name().unwrap().as_bytes(),
        b"ISO-8859-3"
    );
    assert!(utf_8::Charset::preferred_mime_name().is_none());

    assert!(us_ascii::Charset::is_mime_text_suitable());
    assert!(iso8859_1_1987::Charset::is_mime_text_suitable());
    assert!(iso8859_2_1987::Charset::is_mime_text_suitable());
    assert!(iso8859_3_1988::Charset::is_mime_text_suitable());
    assert!(!utf_8::Charset::is_mime_text_suitable());
}

#[test]
fn ordering_follows_byte_order() {
    let a = us_ascii::Str::decode(b"abc").unwrap();
    let b = us_ascii::Str::decode(b"abd").unwrap();
    assert!(a < b);
    assert!(a.to_owned() < b.to_owned());
}

#[test]
fn chars_decode_bytes_in_order() {
    let ascii = us_ascii::Str::decode(b"Hi!").unwrap();
    assert_eq!(ascii.chars(), vec!['H', 'i', '!']);

    let latin1 = iso8859_1_1987::Str::decode(&[0x63, 0x61, 0x66, 0xe9]).unwrap();
    assert_eq!(latin1.chars(), vec!['c', 'a', 'f', '\u{e9}']);

    let latin2 = iso8859_2_1987::Str::decode(&[0xa1, 0x20, 0xe9]).unwrap();
    assert_eq!(latin2.chars(), vec!['\u{0104}', ' ', '\u{e9}']);

    let latin3 = iso8859_3_1988::Str::decode(&[0xa1, 0xff]).unwrap();
    assert_eq!(latin3.chars(), vec!['\u{0126}', '\u{02d9}']);

    let owned = iso8859_2_1987::String::decode(vec![0xb3]).unwrap();
    assert_eq!(owned.chars(), vec!['\u{0142}']);
}
