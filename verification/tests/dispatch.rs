//! The runtime dispatch layer: tagged decode entry points, cross-variant
//! distinctness, buffer preservation, and the copy-on-write wrapper.

use charsets::charset::Character as CharacterTrait;
use charsets::charsets::Charset;
use charsets::charsets::CowStr;
use charsets::charsets::DecodeError;
use charsets::charsets::Str;
use charsets::charsets::String;

const ALL_CHARSETS: [Charset; 5] = [
    Charset::Iso8859_1_1987,
    Charset::Iso8859_2_1987,
    Charset::Iso8859_3_1988,
    Charset::UsAscii,
    Charset::Utf8,
];

#[test]
fn decode_view_round_trips_for_every_charset() {
    let bytes = b"plain ascii is valid everywhere";
    for charset in ALL_CHARSETS {
        let view = charset.decode_from_byte_slice(bytes).unwrap();
        assert_eq!(view.as_bytes(), bytes, "{charset:?}");
        let owned = view.to_owned();
        assert_eq!(owned.as_bytes(), bytes);
        assert_eq!(owned.into_bytes(), bytes.to_vec());
    }
}

#[test]
fn decode_owned_round_trips_for_every_charset() {
    let bytes = b"plain ascii is valid everywhere".to_vec();
    for charset in ALL_CHARSETS {
        let owned = charset.decode_from_byte_vec(bytes.clone()).unwrap();
        assert_eq!(owned.as_bytes(), bytes.as_slice());
        assert_eq!(owned.deref().as_bytes(), bytes.as_slice());
        assert_eq!(owned.into_bytes(), bytes);
    }
}

#[test]
fn decode_owned_failure_returns_buffer_unchanged() {
    let bytes = vec![0x61u8, 0xe9, 0x62];
    let (returned, error) = Charset::UsAscii.decode_from_byte_vec(bytes.clone()).unwrap_err();
    assert_eq!(returned, bytes);
    assert!(matches!(error, DecodeError::UsAscii(_)));

    let (returned, error) = Charset::Utf8.decode_from_byte_vec(bytes.clone()).unwrap_err();
    assert_eq!(returned, bytes);
    assert!(matches!(error, DecodeError::Utf8(_)));

    let reserved = vec![0x61u8, 0xa5];
    let (returned, error) = Charset::Iso8859_3_1988.decode_from_byte_vec(
        reserved.clone(),
    ).unwrap_err();
    assert_eq!(returned, reserved);
    assert!(matches!(error, DecodeError::Iso8859_3_1988(_)));
}

#[test]
fn cross_variant_views_with_identical_bytes_are_unequal() {
    let bytes = b"identical bytes";
    let mut views: Vec<Str> = Vec::new();
    for charset in ALL_CHARSETS {
        views.push(charset.decode_from_byte_slice(bytes).unwrap());
    }
    for (i, a) in views.iter().enumerate() {
        for (j, b) in views.iter().enumerate() {
            if i == j {
                assert_eq!(a, b);
            } else {
                assert_ne!(a, b);
            }
        }
    }
}

#[test]
fn cross_variant_owned_values_with_identical_bytes_are_unequal() {
    let bytes = b"identical bytes".to_vec();
    let a = Charset::Iso8859_1_1987.decode_from_byte_vec(bytes.clone()).unwrap();
    let b = Charset::Iso8859_2_1987.decode_from_byte_vec(bytes.clone()).unwrap();
    let a_again = Charset::Iso8859_1_1987.decode_from_byte_vec(bytes).unwrap();
    assert_ne!(a, b);
    assert_eq!(a, a_again);
    assert_eq!(a.clone(), a_again);
}

#[test]
fn latin_1_decodes_what_us_ascii_and_utf_8_reject() {
    let bytes = [0xe9u8];
    let latin1 = Charset::Iso8859_1_1987.decode_from_byte_slice(&bytes).unwrap();
    assert!(matches!(latin1, Str::Iso8859_1_1987(_)));
    let inner = charsets::charsets::iso8859_1_1987::Character::from(0xe9);
    assert_eq!(inner.scalar(), '\u{e9}');
    let tagged = charsets::charsets::Character::Iso8859_1_1987(inner);
    assert_eq!(tagged.scalar(), '\u{e9}');

    let ascii_error = Charset::UsAscii.decode_from_byte_slice(&bytes).unwrap_err();
    assert!(matches!(ascii_error, DecodeError::UsAscii(_)));
    assert_eq!(ascii_error.message(), "invalid US-ASCII");

    let utf8_error = Charset::Utf8.decode_from_byte_slice(&bytes).unwrap_err();
    assert!(matches!(utf8_error, DecodeError::Utf8(_)));
    assert_eq!(utf8_error.message(), "invalid UTF-8");
}

#[test]
fn dispatch_error_message_forwards_to_the_active_variant() {
    let cases: [(Charset, &str); 5] = [
        (Charset::Iso8859_1_1987, "invalid ISO-8859-1:1987 (ISO-8859-1)"),
        (Charset::Iso8859_2_1987, "invalid ISO-8859-2:1987 (ISO-8859-2)"),
        (Charset::Iso8859_3_1988, "invalid ISO-8859-3:1988 (ISO-8859-3)"),
        (Charset::UsAscii, "invalid US-ASCII"),
        (Charset::Utf8, "invalid UTF-8"),
    ];
    for (charset, message) in cases {
        let error = match charset {
            Charset::Iso8859_1_1987 => {
                DecodeError::from(charsets::charsets::iso8859_1_1987::DecodeError)
            }
            Charset::Iso8859_2_1987 => {
                DecodeError::from(charsets::charsets::iso8859_2_1987::DecodeError)
            }
            Charset::Iso8859_3_1988 => {
                DecodeError::from(charsets::charsets::iso8859_3_1988::DecodeError)
            }
            Charset::UsAscii => DecodeError::from(charsets::charsets::us_ascii::DecodeError),
            Charset::Utf8 => DecodeError::from(charsets::charsets::utf_8::DecodeError),
        };
        assert_eq!(error.message(), message);
    }
}

#[test]
fn string_views_agree() {
    let owned = Charset::UsAscii.decode_from_byte_vec(b"abc".to_vec()).unwrap();
    assert_eq!(owned.as_ref().as_bytes(), b"abc");
    assert_eq!(owned.borrow().as_bytes(), b"abc");
    assert_eq!(owned.deref().as_bytes(), b"abc");
    assert_eq!(owned.as_bytes(), b"abc");
}

#[test]
fn cow_str_into_owned_from_borrowed_copies() {
    let bytes = b"borrowed";
    let view = Charset::Utf8.decode_from_byte_slice(bytes).unwrap();
    let cow = CowStr::from(view);
    assert!(matches!(cow, CowStr::Borrowed(_)));
    let owned = cow.into_owned();
    assert_eq!(owned.as_bytes(), bytes);
    assert!(matches!(owned, String::Utf8(_)));
}

#[test]
fn cow_str_into_owned_from_owned_moves() {
    let owned = Charset::UsAscii.decode_from_byte_vec(b"owned".to_vec()).unwrap();
    let cow = CowStr::from(owned);
    assert!(matches!(cow, CowStr::Owned(_)));
    let owned = cow.into_owned();
    assert_eq!(owned.as_bytes(), b"owned");
    assert!(matches!(owned, String::UsAscii(_)));
}

#[test]
fn cow_str_to_mut_promotes_exactly_once() {
    let bytes = b"deferred";
    let view = Charset::Iso8859_2_1987.decode_from_byte_slice(bytes).unwrap();
    let mut cow = CowStr::Borrowed(view);
    {
        let handle = cow.to_mut();
        assert_eq!(handle.as_bytes(), bytes);
        assert!(matches!(handle, String::Iso8859_2_1987(_)));
    }
    assert!(matches!(cow, CowStr::Owned(_)));
    {
        let handle = cow.to_mut();
        assert_eq!(handle.as_bytes(), bytes);
    }
    assert!(matches!(cow, CowStr::Owned(_)));
    assert_eq!(cow.into_owned().into_bytes(), bytes.to_vec());
}

#[test]
fn cow_str_clone_and_equality() {
    let bytes = b"wrapped";
    let view = Charset::UsAscii.decode_from_byte_slice(bytes).unwrap();
    let borrowed = CowStr::Borrowed(view);
    let also_borrowed = borrowed.clone();
    assert_eq!(borrowed, also_borrowed);
    let owned = CowStr::Owned(view.to_owned());
    assert_eq!(owned, owned.clone());
    // Same bytes, but a different copy-on-write state: not equal.
    assert_ne!(borrowed, owned);
    // Same bytes, same state, different tag: not equal.
    let latin1 = CowStr::Borrowed(Charset::Iso8859_1_1987.decode_from_byte_slice(bytes).unwrap());
    assert_ne!(borrowed, latin1);
}
