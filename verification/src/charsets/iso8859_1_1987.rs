//! The ISO-8859-1 (Latin-1) charset: all 256 byte values are valid, and each
//! byte maps to the Unicode scalar with the same value.

use vstd::prelude::*;

use crate::charset::ascii_bytes_of;
use crate::charset::bytes_eq;
use crate::charset::Alias as AliasTrait;
use crate::charset::Character as CharacterTrait;
use crate::charset::Charset as CharsetTrait;
use crate::charset::DecodeError as DecodeErrorTrait;
use crate::charset::Sealed;
use crate::charset::Str as StrTrait;
use crate::charset::String as StringTrait;
use crate::charsets::us_ascii;

verus! {

/// The ISO-8859-1 validity rule: every byte sequence is valid.
pub open spec fn valid(s: Seq<u8>) -> bool {
    true
}

/// The Unicode scalar a byte maps to under ISO-8859-1: the identity mapping
/// into the Latin-1 supplement.
pub open spec fn scalar_of(b: u8) -> char {
    b as char
}

/// The character sequence a byte sequence decodes to, one scalar per byte.
pub open spec fn decoded_of(s: Seq<u8>) -> Seq<char> {
    s.map_values(|b: u8| scalar_of(b))
}

/// The decode error for ISO-8859-1; validation is total, so this is never
/// produced by decoding.
#[derive(Clone, Copy, Debug, Hash, PartialEq, Eq, Structural)]
pub struct DecodeError;

impl DecodeErrorTrait for DecodeError {
    open spec fn message_spec() -> Seq<char> {
        "invalid ISO-8859-1:1987 (ISO-8859-1)"@
    }

    fn message(&self) -> (r: &'static str) {
        "invalid ISO-8859-1:1987 (ISO-8859-1)"
    }
}

/// A borrowed view of bytes that under ISO-8859-1; every byte sequence is valid.
#[derive(Clone, Copy, Debug, Hash, PartialOrd, Ord)]
pub struct Str<'a> {
    bytes: &'a [u8],
}

impl<'a> View for Str<'a> {
    type V = Seq<u8>;

    closed spec fn view(&self) -> Seq<u8> {
        self.bytes@
    }
}

impl<'a> Sealed for Str<'a> {

}

impl<'a> StrTrait<'a> for Str<'a> {
    type DecodeError = DecodeError;

    open spec fn valid(s: Seq<u8>) -> bool {
        valid(s)
    }

    fn decode(value: &'a [u8]) -> (r: Result<Str<'a>, DecodeError>) {
        Ok(<Self as StrTrait>::decode_unchecked(value))
    }

    fn decode_unchecked(value: &'a [u8]) -> (r: Str<'a>) {
        Str { bytes: value }
    }

    fn as_bytes(&self) -> (r: &'a [u8])
    {
        self.bytes
    }
}

impl<'a> Str<'a> {
    /// Decodes every byte of the view to its Unicode scalar, in order.
    pub fn chars(&self) -> (r: Vec<char>)
        ensures
            r@ == decoded_of(self@),
    {
        let bytes = self.as_bytes();
        let mut r: Vec<char> = Vec::new();
        let mut i: usize = 0;
        while i < bytes.len()
            invariant
                0 <= i <= bytes@.len(),
                r@.len() == i,
                forall|j: int| 0 <= j < i ==> r@[j] == scalar_of(bytes@[j]),
                bytes@ == self@,
            decreases bytes@.len() - i,
        {
            r.push(bytes[i] as char);
            i += 1;
        }
        proof {
            assert(r@ =~= decoded_of(self@));
        }
        r
    }

    /// Copies the viewed bytes into an owned value.
    pub fn to_owned(&self) -> (r: String)
        ensures
            r@ == self@,
    {
        String { bytes: vstd::slice::slice_to_vec(self.bytes) }
    }
}

impl<'a> PartialEq for Str<'a> {
    /// Views are equal exactly when their bytes are equal.
    fn eq(&self, other: &Str<'a>) -> (r: bool) {
        bytes_eq(self.as_bytes(), other.as_bytes())
    }
}

impl<'a> Eq for Str<'a> {

}

impl<'a> vstd::std_specs::cmp::PartialEqSpecImpl for Str<'a> {
    open spec fn obeys_eq_spec() -> bool {
        true
    }

    open spec fn eq_spec(&self, other: &Str<'a>) -> bool {
        self@ == other@
    }
}

/// An owned byte buffer that under ISO-8859-1; every byte sequence is valid.
#[derive(Debug, Hash, PartialOrd, Ord)]
pub struct String {
    bytes: Vec<u8>,
}

impl Clone for String {
    /// The copy views the same bytes as the original.
    fn clone(&self) -> (r: String)
        ensures
            r@ == self@,
    {
        String { bytes: vstd::slice::slice_to_vec(self.bytes.as_slice()) }
    }
}

impl View for String {
    type V = Seq<u8>;

    closed spec fn view(&self) -> Seq<u8> {
        self.bytes@
    }
}

impl Sealed for String {

}

impl StringTrait for String {
    type DecodeError = DecodeError;

    open spec fn valid(s: Seq<u8>) -> bool {
        valid(s)
    }

    fn decode(value: Vec<u8>) -> (r: Result<String, (Vec<u8>, DecodeError)>) {
        Ok(<Self as StringTrait>::decode_unchecked(value))
    }

    fn decode_unchecked(value: Vec<u8>) -> (r: String) {
        String { bytes: value }
    }

    fn as_bytes(&self) -> (r: &[u8])
    {
        self.bytes.as_slice()
    }

    fn into_bytes(self) -> (r: Vec<u8>)
    {
        self.bytes
    }
}

impl String {
    /// Borrows the owned bytes as a validated view.
    pub fn deref(&self) -> (r: Str<'_>)
        ensures
            r@ == self@,
    {
        Str { bytes: self.bytes.as_slice() }
    }

    /// Decodes every byte of the owned value to its Unicode scalar, in order.
    pub fn chars(&self) -> (r: Vec<char>)
        ensures
            r@ == decoded_of(self@),
    {
        self.deref().chars()
    }
}

impl PartialEq for String {
    /// Owned values are equal exactly when their bytes are equal.
    fn eq(&self, other: &String) -> (r: bool) {
        bytes_eq(StringTrait::as_bytes(self), StringTrait::as_bytes(other))
    }
}

impl Eq for String {

}

impl vstd::std_specs::cmp::PartialEqSpecImpl for String {
    open spec fn obeys_eq_spec() -> bool {
        true
    }

    open spec fn eq_spec(&self, other: &String) -> bool {
        self@ == other@
    }
}

/// A single decoded ISO-8859-1 character.
#[derive(Clone, Copy, Debug, Hash, PartialEq, Eq, Structural, PartialOrd, Ord)]
pub struct Character {
    scalar: char,
}

impl View for Character {
    type V = char;

    closed spec fn view(&self) -> char {
        self.scalar
    }
}

impl CharacterTrait for Character {
    open spec fn scalar_spec(self) -> char {
        self@
    }

    fn scalar(&self) -> (r: char) {
        self.scalar
    }
}

impl Character {
    /// Decodes one byte to its character: the identity mapping.
    pub fn from(value: u8) -> (r: Character)
        ensures
            r@ == scalar_of(value),
    {
        Character { scalar: value as char }
    }
}

/// The stateless identity of the ISO-8859-1 charset.
#[derive(Clone, Copy, Debug, Hash, PartialEq, Eq, Structural)]
pub struct Charset;

impl Sealed for Charset {

}

impl CharsetTrait for Charset {
    open spec fn valid(s: Seq<u8>) -> bool {
        valid(s)
    }

    open spec fn mib_enum_spec() -> u16 {
        4
    }

    open spec fn primary_name_spec() -> Seq<char> {
        "ISO_8859-1:1987"@
    }

    open spec fn preferred_mime_name_spec() -> Option<Seq<char>> {
        Some("ISO-8859-1"@)
    }

    fn mib_enum() -> (r: u16) {
        4
    }

    fn primary_name() -> (r: us_ascii::Str<'static>) {
        proof {
            reveal_strlit("ISO_8859-1:1987");
        }
        us_ascii::Str::from_ascii("ISO_8859-1:1987")
    }

    fn preferred_mime_name() -> (r: Option<us_ascii::Str<'static>>) {
        proof {
            reveal_strlit("ISO-8859-1");
        }
        Some(us_ascii::Str::from_ascii("ISO-8859-1"))
    }

    fn is_mime_text_suitable() -> (r: bool) {
        Self::preferred_mime_name().is_some()
    }
}

/// The registered alternate names of ISO-8859-1, as a closed enumeration.
#[derive(Clone, Copy, Debug, Hash, PartialEq, Eq, Structural)]
pub enum Alias {
    Cp819,
    CsIsoLatin1,
    Ibm819,
    Iso8859_1,
    Iso8859_1Alt,
    IsoIr100,
    L1,
    Latin1,
}

impl AliasTrait for Alias {
    open spec fn name_spec(self) -> Seq<char> {
        match self {
            Alias::Cp819 => "CP819"@,
            Alias::CsIsoLatin1 => "csISOLatin1"@,
            Alias::Ibm819 => "IBM819"@,
            Alias::Iso8859_1 => "ISO-8859-1"@,
            Alias::Iso8859_1Alt => "ISO_8859-1"@,
            Alias::IsoIr100 => "iso-ir-100"@,
            Alias::L1 => "l1"@,
            Alias::Latin1 => "latin1"@,
        }
    }

    fn name(&self) -> (r: us_ascii::Str<'static>) {
        match self {
            Alias::Cp819 => {
                proof {
                    reveal_strlit("CP819");
                }
                us_ascii::Str::from_ascii("CP819")
            },
            Alias::CsIsoLatin1 => {
                proof {
                    reveal_strlit("csISOLatin1");
                }
                us_ascii::Str::from_ascii("csISOLatin1")
            },
            Alias::Ibm819 => {
                proof {
                    reveal_strlit("IBM819");
                }
                us_ascii::Str::from_ascii("IBM819")
            },
            Alias::Iso8859_1 => {
                proof {
                    reveal_strlit("ISO-8859-1");
                }
                us_ascii::Str::from_ascii("ISO-8859-1")
            },
            Alias::Iso8859_1Alt => {
                proof {
                    reveal_strlit("ISO_8859-1");
                }
                us_ascii::Str::from_ascii("ISO_8859-1")
            },
            Alias::IsoIr100 => {
                proof {
                    reveal_strlit("iso-ir-100");
                }
                us_ascii::Str::from_ascii("iso-ir-100")
            },
            Alias::L1 => {
                proof {
                    reveal_strlit("l1");
                }
                us_ascii::Str::from_ascii("l1")
            },
            Alias::Latin1 => {
                proof {
                    reveal_strlit("latin1");
                }
                us_ascii::Str::from_ascii("latin1")
            },
        }
    }
}

} // verus!
