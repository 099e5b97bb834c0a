//! The UTF-8 charset: bytes must form a strict UTF-8 encoding, with no
//! overlong encodings, no surrogate codepoints, and no truncated or stray
//! continuation bytes.

use vstd::prelude::*;

use crate::charset::ascii_bytes_of;
use crate::charset::bytes_eq;
use crate::charset::Alias as AliasTrait;
use crate::charset::Character as CharacterTrait;
use crate::charset::Charset as CharsetTrait;
use crate::charset::DecodeError as DecodeErrorTrait;
use crate::charset::Sealed;
use crate::charset::Str as StrTrait;
use crate::charset::String as StringTrait;
use crate::charsets::us_ascii;
use vstd::utf8::codepoint_width_3;
use vstd::utf8::codepoint_width_4;
use vstd::utf8::is_leading_byte_width_1;
use vstd::utf8::length_of_first_scalar;
use vstd::utf8::partial_valid_partial_invalid_utf8;
use vstd::utf8::partial_valid_utf8;
use vstd::utf8::partial_valid_utf8_extend;
use vstd::utf8::valid_first_scalar;
use vstd::utf8::valid_leading_and_continuation_bytes_first_codepoint;
use vstd::utf8::valid_utf8;

verus! {

/// The UTF-8 validity rule: the bytes form a valid UTF-8 encoding.
pub open spec fn valid(s: Seq<u8>) -> bool {
    valid_utf8(s)
}

/// The decode error for UTF-8: the bytes violate the UTF-8 grammar.
#[derive(Clone, Copy, Debug, Hash, PartialEq, Eq, Structural)]
pub struct DecodeError;

impl DecodeErrorTrait for DecodeError {
    open spec fn message_spec() -> Seq<char> {
        "invalid UTF-8"@
    }

    fn message(&self) -> (r: &'static str) {
        "invalid UTF-8"
    }
}

/// Once a prefix of the bytes is valid and the remainder starts with a
/// malformed scalar encoding, the whole sequence is invalid.
proof fn lemma_invalid_at(bytes: Seq<u8>, i: int)
    requires
        partial_valid_utf8(bytes, i),
        i < bytes.len(),
        !valid_first_scalar(bytes.subrange(i, bytes.len() as int)),
    ensures
        !valid_utf8(bytes),
{
    let suffix = bytes.subrange(i, bytes.len() as int);
    assert(suffix.len() > 0);
    assert(!valid_utf8(suffix));
    partial_valid_partial_invalid_utf8(bytes, i);
}

/// Checks the strict UTF-8 grammar over a byte slice.
pub fn validate(value: &[u8]) -> (r: Result<(), DecodeError>)
    ensures
        r is Ok <==> valid(value@),
{
    let n = value.len();
    let mut i: usize = 0;
    while i < n
        invariant
            n == value@.len(),
            0 <= i <= n,
            partial_valid_utf8(value@, i as int),
        decreases n - i,
    {
        let ghost suffix = value@.subrange(i as int, n as int);
        let b0 = value[i];
        proof {
            assert(suffix[0] == b0);
        }
        if b0 < 0x80 {
            // One-byte scalar.
            proof {
                assert(is_leading_byte_width_1(b0));
                assert(valid_first_scalar(suffix));
                assert(length_of_first_scalar(suffix) == 1);
                partial_valid_utf8_extend(value@, i as int);
            }
            i += 1;
        } else if b0 < 0xc2 {
            // A stray continuation byte, or a two-byte leading byte whose
            // codepoint could only be overlong.
            proof {
                if valid_leading_and_continuation_bytes_first_codepoint(suffix) {
                    let b1 = suffix[1];
                    assert(((((b0 & 0x1F) as u32) << 6) | ((b1 & 0x3f) as u32)) < 0x80)
                        by (bit_vector)
                        requires
                            0xc0 <= b0 <= 0xc1,
                            0x80 <= b1 <= 0xbf,
                    ;
                }
                lemma_invalid_at(value@, i as int);
            }
            return Err(DecodeError);
        } else if b0 < 0xe0 {
            // Two-byte scalar.
            if n - i >= 2 {
                let b1 = value[i + 1];
                proof {
                    assert(suffix[1] == b1);
                }
                if b1 >= 0x80 && b1 <= 0xbf {
                    proof {
                        assert(0x80 <= ((((b0 & 0x1F) as u32) << 6) | ((b1 & 0x3f) as u32))
                            <= 0x7ff) by (bit_vector)
                            requires
                                0xc2 <= b0 <= 0xdf,
                                0x80 <= b1 <= 0xbf,
                        ;
                        assert(valid_first_scalar(suffix));
                        assert(length_of_first_scalar(suffix) == 2);
                        partial_valid_utf8_extend(value@, i as int);
                    }
                    i += 2;
                } else {
                    proof {
                        lemma_invalid_at(value@, i as int);
                    }
                    return Err(DecodeError);
                }
            } else {
                proof {
                    lemma_invalid_at(value@, i as int);
                }
                return Err(DecodeError);
            }
        } else if b0 < 0xf0 {
            // Three-byte scalar; 0xe0 must not be overlong and 0xed must not
            // reach the surrogate range.
            if n - i >= 3 {
                let b1 = value[i + 1];
                let b2 = value[i + 2];
                proof {
                    assert(suffix[1] == b1 && suffix[2] == b2);
                }
                let cont_ok = b1 >= 0x80 && b1 <= 0xbf && b2 >= 0x80 && b2 <= 0xbf;
                let range_ok = (b0 != 0xe0 || b1 >= 0xa0) && (b0 != 0xed || b1 <= 0x9f);
                if cont_ok && range_ok {
                    proof {
                        let c = ((((b0 & 0x0F) as u32) << 12) | (((b1 & 0x3f) as u32) << 6) | ((
                        b2 & 0x3f) as u32)) as u32;
                        assert(0x800 <= c && !(0xd800 <= c <= 0xdfff)) by (bit_vector)
                            requires
                                c == ((((b0 & 0x0F) as u32) << 12) | (((b1 & 0x3f) as u32) << 6)
                                    | ((b2 & 0x3f) as u32)),
                                0xe0 <= b0 <= 0xef,
                                0x80 <= b1 <= 0xbf,
                                0x80 <= b2 <= 0xbf,
                                b0 == 0xe0 ==> b1 >= 0xa0,
                                b0 == 0xed ==> b1 <= 0x9f,
                        ;
                        assert(codepoint_width_3(b0, b1, b2) == c);
                        assert(valid_first_scalar(suffix));
                        assert(length_of_first_scalar(suffix) == 3);
                        partial_valid_utf8_extend(value@, i as int);
                    }
                    i += 3;
                } else {
                    proof {
                        if cont_ok {
                            let c = ((((b0 & 0x0F) as u32) << 12) | (((b1 & 0x3f) as u32) << 6)
                                | ((b2 & 0x3f) as u32)) as u32;
                            assert((b0 == 0xe0 && b1 < 0xa0 ==> c < 0x800) && (b0 == 0xed && b1
                                > 0x9f ==> 0xd800 <= c <= 0xdfff)) by (bit_vector)
                                requires
                                    c == ((((b0 & 0x0F) as u32) << 12) | (((b1 & 0x3f) as u32)
                                        << 6) | ((b2 & 0x3f) as u32)),
                                    0xe0 <= b0 <= 0xef,
                                    0x80 <= b1 <= 0xbf,
                                    0x80 <= b2 <= 0xbf,
                            ;
                            assert(codepoint_width_3(b0, b1, b2) == c);
                        }
                        lemma_invalid_at(value@, i as int);
                    }
                    return Err(DecodeError);
                }
            } else {
                proof {
                    lemma_invalid_at(value@, i as int);
                }
                return Err(DecodeError);
            }
        } else if b0 < 0xf5 {
            // Four-byte scalar; 0xf0 must not be overlong and 0xf4 must not
            // pass the last Unicode scalar.
            if n - i >= 4 {
                let b1 = value[i + 1];
                let b2 = value[i + 2];
                let b3 = value[i + 3];
                proof {
                    assert(suffix[1] == b1 && suffix[2] == b2 && suffix[3] == b3);
                }
                let cont_ok = b1 >= 0x80 && b1 <= 0xbf && b2 >= 0x80 && b2 <= 0xbf && b3 >= 0x80
                    && b3 <= 0xbf;
                let range_ok = (b0 != 0xf0 || b1 >= 0x90) && (b0 != 0xf4 || b1 <= 0x8f);
                if cont_ok && range_ok {
                    proof {
                        let c = ((((b0 & 0x07) as u32) << 18) | (((b1 & 0x3f) as u32) << 12) | ((
                        (b2 & 0x3f) as u32) << 6) | ((b3 & 0x3f) as u32)) as u32;
                        assert(0x10000 <= c <= 0x10ffff) by (bit_vector)
                            requires
                                c == ((((b0 & 0x07) as u32) << 18) | (((b1 & 0x3f) as u32) << 12)
                                    | (((b2 & 0x3f) as u32) << 6) | ((b3 & 0x3f) as u32)),
                                0xf0 <= b0 <= 0xf4,
                                0x80 <= b1 <= 0xbf,
                                0x80 <= b2 <= 0xbf,
                                0x80 <= b3 <= 0xbf,
                                b0 == 0xf0 ==> b1 >= 0x90,
                                b0 == 0xf4 ==> b1 <= 0x8f,
                        ;
                        assert(codepoint_width_4(b0, b1, b2, b3) == c);
                        assert(valid_first_scalar(suffix));
                        assert(length_of_first_scalar(suffix) == 4);
                        partial_valid_utf8_extend(value@, i as int);
                    }
                    i += 4;
                } else {
                    proof {
                        if cont_ok {
                            let c = ((((b0 & 0x07) as u32) << 18) | (((b1 & 0x3f) as u32) << 12)
                                | (((b2 & 0x3f) as u32) << 6) | ((b3 & 0x3f) as u32)) as u32;
                            assert((b0 == 0xf0 && b1 < 0x90 ==> c < 0x10000) && (b0 == 0xf4 && b1
                                > 0x8f ==> c > 0x10ffff)) by (bit_vector)
                                requires
                                    c == ((((b0 & 0x07) as u32) << 18) | (((b1 & 0x3f) as u32)
                                        << 12) | (((b2 & 0x3f) as u32) << 6) | ((b3
                                        & 0x3f) as u32)),
                                    0xf0 <= b0 <= 0xf4,
                                    0x80 <= b1 <= 0xbf,
                                    0x80 <= b2 <= 0xbf,
                                    0x80 <= b3 <= 0xbf,
                            ;
                            assert(codepoint_width_4(b0, b1, b2, b3) == c);
                        }
                        lemma_invalid_at(value@, i as int);
                    }
                    return Err(DecodeError);
                }
            } else {
                proof {
                    lemma_invalid_at(value@, i as int);
                }
                return Err(DecodeError);
            }
        } else {
            // Leading bytes 0xf5..=0xf7 would encode codepoints past the last
            // Unicode scalar, and 0xf8..=0xff match no encoding width.
            proof {
                if valid_leading_and_continuation_bytes_first_codepoint(suffix) {
                    let b1 = suffix[1];
                    let b2 = suffix[2];
                    let b3 = suffix[3];
                    let c = ((((b0 & 0x07) as u32) << 18) | (((b1 & 0x3f) as u32) << 12) | (((b2
                        & 0x3f) as u32) << 6) | ((b3 & 0x3f) as u32)) as u32;
                    assert(c > 0x10ffff) by (bit_vector)
                        requires
                            c == ((((b0 & 0x07) as u32) << 18) | (((b1 & 0x3f) as u32) << 12) | ((
                            (b2 & 0x3f) as u32) << 6) | ((b3 & 0x3f) as u32)),
                            0xf5 <= b0 <= 0xf7,
                            0x80 <= b1 <= 0xbf,
                    ;
                    assert(codepoint_width_4(b0, b1, b2, b3) == c);
                }
                lemma_invalid_at(value@, i as int);
            }
            return Err(DecodeError);
        }
    }
    proof {
        assert(value@.subrange(0, n as int) =~= value@);
    }
    Ok(())
}

/// A borrowed view of bytes that are known to form valid UTF-8.
///
/// A value of this type can only be obtained through a constructor whose
/// contract guarantees validity, so validity holds for the whole lifetime
/// of the view.
#[derive(Clone, Copy, Debug, Hash, PartialOrd, Ord)]
pub struct Str<'a> {
    bytes: &'a [u8],
}

impl<'a> View for Str<'a> {
    type V = Seq<u8>;

    closed spec fn view(&self) -> Seq<u8> {
        self.bytes@
    }
}

impl<'a> Sealed for Str<'a> {

}

impl<'a> StrTrait<'a> for Str<'a> {
    type DecodeError = DecodeError;

    open spec fn valid(s: Seq<u8>) -> bool {
        valid(s)
    }

    fn decode(value: &'a [u8]) -> (r: Result<Str<'a>, DecodeError>) {
        match validate(value) {
            Ok(()) => Ok(<Self as StrTrait>::decode_unchecked(value)),
            Err(e) => Err(e),
        }
    }

    fn decode_unchecked(value: &'a [u8]) -> (r: Str<'a>) {
        Str { bytes: value }
    }

    fn as_bytes(&self) -> (r: &'a [u8])
        ensures
            valid(self@),
    {
        proof {
            use_type_invariant(*self);
        }
        self.bytes
    }
}

impl<'a> Str<'a> {
    #[verifier::type_invariant]
    closed spec fn wf(self) -> bool {
        valid(self.bytes@)
    }

    /// Copies the viewed bytes into an owned value.
    pub fn to_owned(&self) -> (r: String)
        ensures
            r@ == self@,
    {
        proof {
            use_type_invariant(*self);
        }
        String { bytes: vstd::slice::slice_to_vec(self.bytes) }
    }
}

impl<'a> PartialEq for Str<'a> {
    /// Views are equal exactly when their bytes are equal.
    fn eq(&self, other: &Str<'a>) -> (r: bool) {
        bytes_eq(self.as_bytes(), other.as_bytes())
    }
}

impl<'a> Eq for Str<'a> {

}

impl<'a> vstd::std_specs::cmp::PartialEqSpecImpl for Str<'a> {
    open spec fn obeys_eq_spec() -> bool {
        true
    }

    open spec fn eq_spec(&self, other: &Str<'a>) -> bool {
        self@ == other@
    }
}

/// An owned byte buffer that is known to form valid UTF-8.
#[derive(Debug, Hash, PartialOrd, Ord)]
pub struct String {
    bytes: Vec<u8>,
}

impl Clone for String {
    /// The copy views the same bytes as the original.
    fn clone(&self) -> (r: String)
        ensures
            r@ == self@,
    {
        proof {
            use_type_invariant(self);
        }
        String { bytes: vstd::slice::slice_to_vec(self.bytes.as_slice()) }
    }
}

impl View for String {
    type V = Seq<u8>;

    closed spec fn view(&self) -> Seq<u8> {
        self.bytes@
    }
}

impl Sealed for String {

}

impl StringTrait for String {
    type DecodeError = DecodeError;

    open spec fn valid(s: Seq<u8>) -> bool {
        valid(s)
    }

    fn decode(value: Vec<u8>) -> (r: Result<String, (Vec<u8>, DecodeError)>) {
        match validate(value.as_slice()) {
            Ok(()) => Ok(<Self as StringTrait>::decode_unchecked(value)),
            Err(e) => Err((value, e)),
        }
    }

    fn decode_unchecked(value: Vec<u8>) -> (r: String) {
        String { bytes: value }
    }

    fn as_bytes(&self) -> (r: &[u8])
        ensures
            valid(self@),
    {
        proof {
            use_type_invariant(self);
        }
        self.bytes.as_slice()
    }

    fn into_bytes(self) -> (r: Vec<u8>)
        ensures
            valid(self@),
    {
        proof {
            use_type_invariant(&self);
        }
        self.bytes
    }
}

impl String {
    #[verifier::type_invariant]
    closed spec fn wf(self) -> bool {
        valid(self.bytes@)
    }

    /// Borrows the owned bytes as a validated view.
    pub fn deref(&self) -> (r: Str<'_>)
        ensures
            r@ == self@,
    {
        proof {
            use_type_invariant(self);
        }
        Str { bytes: self.bytes.as_slice() }
    }
}

impl PartialEq for String {
    /// Owned values are equal exactly when their bytes are equal.
    fn eq(&self, other: &String) -> (r: bool) {
        bytes_eq(StringTrait::as_bytes(self), StringTrait::as_bytes(other))
    }
}

impl Eq for String {

}

impl vstd::std_specs::cmp::PartialEqSpecImpl for String {
    open spec fn obeys_eq_spec() -> bool {
        true
    }

    open spec fn eq_spec(&self, other: &String) -> bool {
        self@ == other@
    }
}

/// A single decoded UTF-8 character.
#[derive(Clone, Copy, Debug, Hash, PartialEq, Eq, Structural, PartialOrd, Ord)]
pub struct Character {
    scalar: char,
}

impl View for Character {
    type V = char;

    closed spec fn view(&self) -> char {
        self.scalar
    }
}

impl CharacterTrait for Character {
    open spec fn scalar_spec(self) -> char {
        self@
    }

    fn scalar(&self) -> (r: char) {
        self.scalar
    }
}

/// The stateless identity of the UTF-8 charset.
#[derive(Clone, Copy, Debug, Hash, PartialEq, Eq, Structural)]
pub struct Charset;

impl Sealed for Charset {

}

impl CharsetTrait for Charset {
    open spec fn valid(s: Seq<u8>) -> bool {
        valid(s)
    }

    open spec fn mib_enum_spec() -> u16 {
        106
    }

    open spec fn primary_name_spec() -> Seq<char> {
        "UTF-8"@
    }

    open spec fn preferred_mime_name_spec() -> Option<Seq<char>> {
        None
    }

    fn mib_enum() -> (r: u16) {
        106
    }

    fn primary_name() -> (r: us_ascii::Str<'static>) {
        proof {
            reveal_strlit("UTF-8");
        }
        us_ascii::Str::from_ascii("UTF-8")
    }

    fn preferred_mime_name() -> (r: Option<us_ascii::Str<'static>>) {
        None
    }

    fn is_mime_text_suitable() -> (r: bool) {
        Self::preferred_mime_name().is_some()
    }
}

/// The registered alternate names of UTF-8, as a closed enumeration.
#[derive(Clone, Copy, Debug, Hash, PartialEq, Eq, Structural)]
pub enum Alias {
    CsUtf8,
}

impl AliasTrait for Alias {
    open spec fn name_spec(self) -> Seq<char> {
        match self {
            Alias::CsUtf8 => "csUTF8"@,
        }
    }

    fn name(&self) -> (r: us_ascii::Str<'static>) {
        match self {
            Alias::CsUtf8 => {
                proof {
                    reveal_strlit("csUTF8");
                }
                us_ascii::Str::from_ascii("csUTF8")
            },
        }
    }
}

} // verus!
