//! The ISO-8859-3 (Latin-3) charset: bytes below 0xa0 are always valid; bytes at
//! and above 0xa0 are valid only where the registered table assigns a scalar,
//! and several table positions are reserved.

use vstd::prelude::*;

use crate::charset::ascii_bytes_of;
use crate::charset::bytes_eq;
use crate::charset::Alias as AliasTrait;
use crate::charset::Character as CharacterTrait;
use crate::charset::Charset as CharsetTrait;
use crate::charset::DecodeError as DecodeErrorTrait;
use crate::charset::Sealed;
use crate::charset::Str as StrTrait;
use crate::charset::String as StringTrait;
use crate::charsets::us_ascii;

verus! {

/// The ISO-8859-3 validity rule: every byte either lies below 0xa0 or lands
/// on a graphics-table position that is not reserved.
pub open spec fn valid(s: Seq<u8>) -> bool {
    forall|i: int| 0 <= i < s.len() ==> byte_valid(s[i])
}

/// The fixed mapping of the graphics range 0xa0..=0xff to Unicode scalars,
/// as registered for ISO-8859-3.
/// Reserved positions map to the sentinel scalar zero, which no assigned
/// position uses.
pub open spec fn graphics_scalar(b: u8) -> char
    recommends
        b >= 0xa0,
{
    match b {
        0xa0u8 => '\u{00a0}',
        0xa1u8 => '\u{0126}',
        0xa2u8 => '\u{02d8}',
        0xa3u8 => '\u{00a3}',
        0xa4u8 => '\u{00a4}',
        0xa5u8 => '\u{0}',
        0xa6u8 => '\u{0124}',
        0xa7u8 => '\u{00a7}',
        0xa8u8 => '\u{00a8}',
        0xa9u8 => '\u{0130}',
        0xaau8 => '\u{015e}',
        0xabu8 => '\u{011e}',
        0xacu8 => '\u{0134}',
        0xadu8 => '\u{00ad}',
        0xaeu8 => '\u{0}',
        0xafu8 => '\u{017b}',
        0xb0u8 => '\u{00b0}',
        0xb1u8 => '\u{0127}',
        0xb2u8 => '\u{00b2}',
        0xb3u8 => '\u{00b3}',
        0xb4u8 => '\u{00b4}',
        0xb5u8 => '\u{00b5}',
        0xb6u8 => '\u{0125}',
        0xb7u8 => '\u{00b7}',
        0xb8u8 => '\u{00b8}',
        0xb9u8 => '\u{0131}',
        0xbau8 => '\u{015f}',
        0xbbu8 => '\u{011f}',
        0xbcu8 => '\u{0135}',
        0xbdu8 => '\u{00bd}',
        0xbeu8 => '\u{0}',
        0xbfu8 => '\u{017c}',
        0xc0u8 => '\u{00c0}',
        0xc1u8 => '\u{00c1}',
        0xc2u8 => '\u{00c2}',
        0xc3u8 => '\u{0}',
        0xc4u8 => '\u{00c4}',
        0xc5u8 => '\u{010a}',
        0xc6u8 => '\u{0108}',
        0xc7u8 => '\u{00c7}',
        0xc8u8 => '\u{00c8}',
        0xc9u8 => '\u{00c9}',
        0xcau8 => '\u{00ca}',
        0xcbu8 => '\u{00cb}',
        0xccu8 => '\u{00cc}',
        0xcdu8 => '\u{00cd}',
        0xceu8 => '\u{00ce}',
        0xcfu8 => '\u{00cf}',
        0xd0u8 => '\u{0}',
        0xd1u8 => '\u{00d1}',
        0xd2u8 => '\u{00d2}',
        0xd3u8 => '\u{00d3}',
        0xd4u8 => '\u{00d4}',
        0xd5u8 => '\u{0120}',
        0xd6u8 => '\u{00d6}',
        0xd7u8 => '\u{00d7}',
        0xd8u8 => '\u{011c}',
        0xd9u8 => '\u{00d9}',
        0xdau8 => '\u{00da}',
        0xdbu8 => '\u{00db}',
        0xdcu8 => '\u{00dc}',
        0xddu8 => '\u{016c}',
        0xdeu8 => '\u{015c}',
        0xdfu8 => '\u{00df}',
        0xe0u8 => '\u{00e0}',
        0xe1u8 => '\u{00e1}',
        0xe2u8 => '\u{00e2}',
        0xe3u8 => '\u{0}',
        0xe4u8 => '\u{00e4}',
        0xe5u8 => '\u{010b}',
        0xe6u8 => '\u{0109}',
        0xe7u8 => '\u{00e7}',
        0xe8u8 => '\u{00e8}',
        0xe9u8 => '\u{00e9}',
        0xeau8 => '\u{00ea}',
        0xebu8 => '\u{00eb}',
        0xecu8 => '\u{00ec}',
        0xedu8 => '\u{00ed}',
        0xeeu8 => '\u{00ee}',
        0xefu8 => '\u{00ef}',
        0xf0u8 => '\u{0}',
        0xf1u8 => '\u{00f1}',
        0xf2u8 => '\u{00f2}',
        0xf3u8 => '\u{00f3}',
        0xf4u8 => '\u{00f4}',
        0xf5u8 => '\u{0121}',
        0xf6u8 => '\u{00f6}',
        0xf7u8 => '\u{00f7}',
        0xf8u8 => '\u{011d}',
        0xf9u8 => '\u{00f9}',
        0xfau8 => '\u{00fa}',
        0xfbu8 => '\u{00fb}',
        0xfcu8 => '\u{00fc}',
        0xfdu8 => '\u{016d}',
        0xfeu8 => '\u{015d}',
        0xffu8 => '\u{02d9}',
        _ => '\u{0}',
    }
}

/// The Unicode scalar a byte maps to under ISO-8859-3: identity below 0xa0,
/// the graphics table at and above it.
pub open spec fn scalar_of(b: u8) -> char {
    if b < 0xa0 {
        b as char
    } else {
        graphics_scalar(b)
    }
}

/// One byte satisfies the ISO-8859-3 rule: below 0xa0, or assigned in the
/// graphics table.
pub open spec fn byte_valid(b: u8) -> bool {
    b < 0xa0 || graphics_scalar(b) != '\u{0}'
}

/// The character sequence a byte sequence decodes to, one scalar per byte.
pub open spec fn decoded_of(s: Seq<u8>) -> Seq<char> {
    s.map_values(|b: u8| scalar_of(b))
}

/// The decode error for ISO-8859-3: some byte lands on a reserved graphics-table
/// position.
#[derive(Clone, Copy, Debug, Hash, PartialEq, Eq, Structural)]
pub struct DecodeError;

impl DecodeErrorTrait for DecodeError {
    open spec fn message_spec() -> Seq<char> {
        "invalid ISO-8859-3:1988 (ISO-8859-3)"@
    }

    fn message(&self) -> (r: &'static str) {
        "invalid ISO-8859-3:1988 (ISO-8859-3)"
    }
}

/// Checks the ISO-8859-3 validity rule over a byte slice.
pub fn validate(value: &[u8]) -> (r: Result<(), DecodeError>)
    ensures
        r is Ok <==> valid(value@),
{
    let mut i: usize = 0;
    while i < value.len()
        invariant
            0 <= i <= value@.len(),
            forall|j: int| 0 <= j < i ==> byte_valid(value@[j]),
        decreases value@.len() - i,
    {
        let b = value[i];
        if b >= 0xa0 && graphics_lookup(b) == '\u{0}' {
            return Err(DecodeError);
        }
        i += 1;
    }
    Ok(())
}

/// A borrowed view of bytes that are known to satisfy the ISO-8859-3 rule.
///
/// A value of this type can only be obtained through a constructor whose
/// contract guarantees validity, so validity holds for the whole lifetime
/// of the view.
#[derive(Clone, Copy, Debug, Hash, PartialOrd, Ord)]
pub struct Str<'a> {
    bytes: &'a [u8],
}

impl<'a> View for Str<'a> {
    type V = Seq<u8>;

    closed spec fn view(&self) -> Seq<u8> {
        self.bytes@
    }
}

impl<'a> Sealed for Str<'a> {

}

impl<'a> StrTrait<'a> for Str<'a> {
    type DecodeError = DecodeError;

    open spec fn valid(s: Seq<u8>) -> bool {
        valid(s)
    }

    fn decode(value: &'a [u8]) -> (r: Result<Str<'a>, DecodeError>) {
        match validate(value) {
            Ok(()) => Ok(<Self as StrTrait>::decode_unchecked(value)),
            Err(e) => Err(e),
        }
    }

    fn decode_unchecked(value: &'a [u8]) -> (r: Str<'a>) {
        Str { bytes: value }
    }

    fn as_bytes(&self) -> (r: &'a [u8])
        ensures
            valid(self@),
    {
        proof {
            use_type_invariant(*self);
        }
        self.bytes
    }
}

impl<'a> Str<'a> {
    #[verifier::type_invariant]
    closed spec fn wf(self) -> bool {
        valid(self.bytes@)
    }

    /// Decodes every byte of the view to its Unicode scalar, in order.
    pub fn chars(&self) -> (r: Vec<char>)
        ensures
            r@ == decoded_of(self@),
    {
        let bytes = self.as_bytes();
        let mut r: Vec<char> = Vec::new();
        let mut i: usize = 0;
        while i < bytes.len()
            invariant
                0 <= i <= bytes@.len(),
                r@.len() == i,
                forall|j: int| 0 <= j < i ==> r@[j] == scalar_of(bytes@[j]),
                bytes@ == self@,
            decreases bytes@.len() - i,
        {
            r.push(Character::from(bytes[i]).scalar());
            i += 1;
        }
        proof {
            assert(r@ =~= decoded_of(self@));
        }
        r
    }

    /// Copies the viewed bytes into an owned value.
    pub fn to_owned(&self) -> (r: String)
        ensures
            r@ == self@,
    {
        proof {
            use_type_invariant(*self);
        }
        String { bytes: vstd::slice::slice_to_vec(self.bytes) }
    }
}

impl<'a> PartialEq for Str<'a> {
    /// Views are equal exactly when their bytes are equal.
    fn eq(&self, other: &Str<'a>) -> (r: bool) {
        bytes_eq(self.as_bytes(), other.as_bytes())
    }
}

impl<'a> Eq for Str<'a> {

}

impl<'a> vstd::std_specs::cmp::PartialEqSpecImpl for Str<'a> {
    open spec fn obeys_eq_spec() -> bool {
        true
    }

    open spec fn eq_spec(&self, other: &Str<'a>) -> bool {
        self@ == other@
    }
}

/// An owned byte buffer that is known to satisfy the ISO-8859-3 rule.
#[derive(Debug, Hash, PartialOrd, Ord)]
pub struct String {
    bytes: Vec<u8>,
}

impl Clone for String {
    /// The copy views the same bytes as the original.
    fn clone(&self) -> (r: String)
        ensures
            r@ == self@,
    {
        proof {
            use_type_invariant(self);
        }
        String { bytes: vstd::slice::slice_to_vec(self.bytes.as_slice()) }
    }
}

impl View for String {
    type V = Seq<u8>;

    closed spec fn view(&self) -> Seq<u8> {
        self.bytes@
    }
}

impl Sealed for String {

}

impl StringTrait for String {
    type DecodeError = DecodeError;

    open spec fn valid(s: Seq<u8>) -> bool {
        valid(s)
    }

    fn decode(value: Vec<u8>) -> (r: Result<String, (Vec<u8>, DecodeError)>) {
        match validate(value.as_slice()) {
            Ok(()) => Ok(<Self as StringTrait>::decode_unchecked(value)),
            Err(e) => Err((value, e)),
        }
    }

    fn decode_unchecked(value: Vec<u8>) -> (r: String) {
        String { bytes: value }
    }

    fn as_bytes(&self) -> (r: &[u8])
        ensures
            valid(self@),
    {
        proof {
            use_type_invariant(self);
        }
        self.bytes.as_slice()
    }

    fn into_bytes(self) -> (r: Vec<u8>)
        ensures
            valid(self@),
    {
        proof {
            use_type_invariant(&self);
        }
        self.bytes
    }
}

impl String {
    #[verifier::type_invariant]
    closed spec fn wf(self) -> bool {
        valid(self.bytes@)
    }

    /// Borrows the owned bytes as a validated view.
    pub fn deref(&self) -> (r: Str<'_>)
        ensures
            r@ == self@,
    {
        proof {
            use_type_invariant(self);
        }
        Str { bytes: self.bytes.as_slice() }
    }

    /// Decodes every byte of the owned value to its Unicode scalar, in order.
    pub fn chars(&self) -> (r: Vec<char>)
        ensures
            r@ == decoded_of(self@),
    {
        self.deref().chars()
    }
}

impl PartialEq for String {
    /// Owned values are equal exactly when their bytes are equal.
    fn eq(&self, other: &String) -> (r: bool) {
        bytes_eq(StringTrait::as_bytes(self), StringTrait::as_bytes(other))
    }
}

impl Eq for String {

}

impl vstd::std_specs::cmp::PartialEqSpecImpl for String {
    open spec fn obeys_eq_spec() -> bool {
        true
    }

    open spec fn eq_spec(&self, other: &String) -> bool {
        self@ == other@
    }
}

/// A single decoded ISO-8859-3 character.
#[derive(Clone, Copy, Debug, Hash, PartialEq, Eq, Structural, PartialOrd, Ord)]
pub struct Character {
    scalar: char,
}

impl View for Character {
    type V = char;

    closed spec fn view(&self) -> char {
        self.scalar
    }
}

impl CharacterTrait for Character {
    open spec fn scalar_spec(self) -> char {
        self@
    }

    fn scalar(&self) -> (r: char) {
        self.scalar
    }
}

impl Character {
    /// Decodes one byte to its character: identity below 0xa0, the graphics
    /// table at and above it.  Reserved positions map to the sentinel scalar
    /// zero.
    pub fn from(value: u8) -> (r: Character)
        ensures
            r@ == scalar_of(value),
    {
        if value < 0xa0 {
            Character { scalar: value as char }
        } else {
            Character { scalar: graphics_lookup(value) }
        }
    }
}

/// Looks up the graphics-range mapping for one byte.
fn graphics_lookup(value: u8) -> (r: char)
    ensures
        r == graphics_scalar(value),
{
    match value {
        0xa0 => '\u{00a0}',
        0xa1 => '\u{0126}',
        0xa2 => '\u{02d8}',
        0xa3 => '\u{00a3}',
        0xa4 => '\u{00a4}',
        0xa5 => '\u{0}',
        0xa6 => '\u{0124}',
        0xa7 => '\u{00a7}',
        0xa8 => '\u{00a8}',
        0xa9 => '\u{0130}',
        0xaa => '\u{015e}',
        0xab => '\u{011e}',
        0xac => '\u{0134}',
        0xad => '\u{00ad}',
        0xae => '\u{0}',
        0xaf => '\u{017b}',
        0xb0 => '\u{00b0}',
        0xb1 => '\u{0127}',
        0xb2 => '\u{00b2}',
        0xb3 => '\u{00b3}',
        0xb4 => '\u{00b4}',
        0xb5 => '\u{00b5}',
        0xb6 => '\u{0125}',
        0xb7 => '\u{00b7}',
        0xb8 => '\u{00b8}',
        0xb9 => '\u{0131}',
        0xba => '\u{015f}',
        0xbb => '\u{011f}',
        0xbc => '\u{0135}',
        0xbd => '\u{00bd}',
        0xbe => '\u{0}',
        0xbf => '\u{017c}',
        0xc0 => '\u{00c0}',
        0xc1 => '\u{00c1}',
        0xc2 => '\u{00c2}',
        0xc3 => '\u{0}',
        0xc4 => '\u{00c4}',
        0xc5 => '\u{010a}',
        0xc6 => '\u{0108}',
        0xc7 => '\u{00c7}',
        0xc8 => '\u{00c8}',
        0xc9 => '\u{00c9}',
        0xca => '\u{00ca}',
        0xcb => '\u{00cb}',
        0xcc => '\u{00cc}',
        0xcd => '\u{00cd}',
        0xce => '\u{00ce}',
        0xcf => '\u{00cf}',
        0xd0 => '\u{0}',
        0xd1 => '\u{00d1}',
        0xd2 => '\u{00d2}',
        0xd3 => '\u{00d3}',
        0xd4 => '\u{00d4}',
        0xd5 => '\u{0120}',
        0xd6 => '\u{00d6}',
        0xd7 => '\u{00d7}',
        0xd8 => '\u{011c}',
        0xd9 => '\u{00d9}',
        0xda => '\u{00da}',
        0xdb => '\u{00db}',
        0xdc => '\u{00dc}',
        0xdd => '\u{016c}',
        0xde => '\u{015c}',
        0xdf => '\u{00df}',
        0xe0 => '\u{00e0}',
        0xe1 => '\u{00e1}',
        0xe2 => '\u{00e2}',
        0xe3 => '\u{0}',
        0xe4 => '\u{00e4}',
        0xe5 => '\u{010b}',
        0xe6 => '\u{0109}',
        0xe7 => '\u{00e7}',
        0xe8 => '\u{00e8}',
        0xe9 => '\u{00e9}',
        0xea => '\u{00ea}',
        0xeb => '\u{00eb}',
        0xec => '\u{00ec}',
        0xed => '\u{00ed}',
        0xee => '\u{00ee}',
        0xef => '\u{00ef}',
        0xf0 => '\u{0}',
        0xf1 => '\u{00f1}',
        0xf2 => '\u{00f2}',
        0xf3 => '\u{00f3}',
        0xf4 => '\u{00f4}',
        0xf5 => '\u{0121}',
        0xf6 => '\u{00f6}',
        0xf7 => '\u{00f7}',
        0xf8 => '\u{011d}',
        0xf9 => '\u{00f9}',
        0xfa => '\u{00fa}',
        0xfb => '\u{00fb}',
        0xfc => '\u{00fc}',
        0xfd => '\u{016d}',
        0xfe => '\u{015d}',
        0xff => '\u{02d9}',
        _ => '\u{0}',
    }
}

/// The stateless identity of the ISO-8859-3 charset.
#[derive(Clone, Copy, Debug, Hash, PartialEq, Eq, Structural)]
pub struct Charset;

impl Sealed for Charset {

}

impl CharsetTrait for Charset {
    open spec fn valid(s: Seq<u8>) -> bool {
        valid(s)
    }

    open spec fn mib_enum_spec() -> u16 {
        6
    }

    open spec fn primary_name_spec() -> Seq<char> {
        "ISO_8859-3:1988"@
    }

    open spec fn preferred_mime_name_spec() -> Option<Seq<char>> {
        Some("ISO-8859-3"@)
    }

    fn mib_enum() -> (r: u16) {
        6
    }

    fn primary_name() -> (r: us_ascii::Str<'static>) {
        proof {
            reveal_strlit("ISO_8859-3:1988");
        }
        us_ascii::Str::from_ascii("ISO_8859-3:1988")
    }

    fn preferred_mime_name() -> (r: Option<us_ascii::Str<'static>>) {
        proof {
            reveal_strlit("ISO-8859-3");
        }
        Some(us_ascii::Str::from_ascii("ISO-8859-3"))
    }

    fn is_mime_text_suitable() -> (r: bool) {
        Self::preferred_mime_name().is_some()
    }
}

/// The registered alternate names of ISO-8859-3, as a closed enumeration.
#[derive(Clone, Copy, Debug, Hash, PartialEq, Eq, Structural)]
pub enum Alias {
    CsIsoLatin3,
    Iso8859_3,
    Iso8859_3Alt,
    IsoIr109,
    L3,
    Latin3,
}

impl AliasTrait for Alias {
    open spec fn name_spec(self) -> Seq<char> {
        match self {
            Alias::CsIsoLatin3 => "csISOLatin3"@,
            Alias::Iso8859_3 => "ISO-8859-3"@,
            Alias::Iso8859_3Alt => "ISO_8859-3"@,
            Alias::IsoIr109 => "iso-ir-109"@,
            Alias::L3 => "l3"@,
            Alias::Latin3 => "latin3"@,
        }
    }

    fn name(&self) -> (r: us_ascii::Str<'static>) {
        match self {
            Alias::CsIsoLatin3 => {
                proof {
                    reveal_strlit("csISOLatin3");
                }
                us_ascii::Str::from_ascii("csISOLatin3")
            },
            Alias::Iso8859_3 => {
                proof {
                    reveal_strlit("ISO-8859-3");
                }
                us_ascii::Str::from_ascii("ISO-8859-3")
            },
            Alias::Iso8859_3Alt => {
                proof {
                    reveal_strlit("ISO_8859-3");
                }
                us_ascii::Str::from_ascii("ISO_8859-3")
            },
            Alias::IsoIr109 => {
                proof {
                    reveal_strlit("iso-ir-109");
                }
                us_ascii::Str::from_ascii("iso-ir-109")
            },
            Alias::L3 => {
                proof {
                    reveal_strlit("l3");
                }
                us_ascii::Str::from_ascii("l3")
            },
            Alias::Latin3 => {
                proof {
                    reveal_strlit("latin3");
                }
                us_ascii::Str::from_ascii("latin3")
            },
        }
    }
}

} // verus!
