//! The US-ASCII charset: every byte must lie below 0x80.

use vstd::prelude::*;

use crate::charset::ascii_bytes_of;
use crate::charset::bytes_eq;
use crate::charset::Alias as AliasTrait;
use crate::charset::Character as CharacterTrait;
use crate::charset::Charset as CharsetTrait;
use crate::charset::DecodeError as DecodeErrorTrait;
use crate::charset::Sealed;
use crate::charset::Str as StrTrait;
use crate::charset::String as StringTrait;
use vstd::utf8::is_ascii_chars;
use vstd::utf8::is_ascii_chars_encode_utf8;

verus! {

/// The US-ASCII validity rule: every byte is in the 7-bit range.
pub open spec fn valid(s: Seq<u8>) -> bool {
    forall|i: int| 0 <= i < s.len() ==> s[i] < 0x80
}

/// The Unicode scalar a byte maps to under US-ASCII: the identity mapping
/// on the 7-bit range.
pub open spec fn scalar_of(b: u8) -> char {
    b as char
}

/// The character sequence a byte sequence decodes to, one scalar per byte.
pub open spec fn decoded_of(s: Seq<u8>) -> Seq<char> {
    s.map_values(|b: u8| scalar_of(b))
}

/// The decode error for US-ASCII: some byte is outside the 7-bit range.
#[derive(Clone, Copy, Debug, Hash, PartialEq, Eq, Structural)]
pub struct DecodeError;

impl DecodeErrorTrait for DecodeError {
    open spec fn message_spec() -> Seq<char> {
        "invalid US-ASCII"@
    }

    fn message(&self) -> (r: &'static str) {
        "invalid US-ASCII"
    }
}

/// Checks the US-ASCII validity rule over a byte slice.
pub fn validate(value: &[u8]) -> (r: Result<(), DecodeError>)
    ensures
        r is Ok <==> valid(value@),
{
    let mut i: usize = 0;
    while i < value.len()
        invariant
            0 <= i <= value@.len(),
            forall|j: int| 0 <= j < i ==> value@[j] < 0x80,
        decreases value@.len() - i,
    {
        if value[i] >= 0x80 {
            return Err(DecodeError);
        }
        i += 1;
    }
    Ok(())
}

/// A borrowed view of bytes that are known to satisfy the US-ASCII rule.
///
/// A value of this type can only be obtained through a constructor whose
/// contract guarantees validity, so validity holds for the whole lifetime
/// of the view.
#[derive(Clone, Copy, Debug, Hash, PartialOrd, Ord)]
pub struct Str<'a> {
    bytes: &'a [u8],
}

impl<'a> View for Str<'a> {
    type V = Seq<u8>;

    closed spec fn view(&self) -> Seq<u8> {
        self.bytes@
    }
}

impl<'a> Sealed for Str<'a> {

}

impl<'a> StrTrait<'a> for Str<'a> {
    type DecodeError = DecodeError;

    open spec fn valid(s: Seq<u8>) -> bool {
        valid(s)
    }

    fn decode(value: &'a [u8]) -> (r: Result<Str<'a>, DecodeError>) {
        match validate(value) {
            Ok(()) => Ok(<Self as StrTrait>::decode_unchecked(value)),
            Err(e) => Err(e),
        }
    }

    fn decode_unchecked(value: &'a [u8]) -> (r: Str<'a>) {
        Str { bytes: value }
    }

    fn as_bytes(&self) -> (r: &'a [u8])
        ensures
            valid(self@),
    {
        proof {
            use_type_invariant(*self);
        }
        self.bytes
    }
}

impl<'a> Str<'a> {
    #[verifier::type_invariant]
    closed spec fn wf(self) -> bool {
        valid(self.bytes@)
    }

    /// Decodes every byte of the view to its Unicode scalar, in order.
    pub fn chars(&self) -> (r: Vec<char>)
        ensures
            r@ == decoded_of(self@),
    {
        let bytes = self.as_bytes();
        let mut r: Vec<char> = Vec::new();
        let mut i: usize = 0;
        while i < bytes.len()
            invariant
                0 <= i <= bytes@.len(),
                r@.len() == i,
                forall|j: int| 0 <= j < i ==> r@[j] == scalar_of(bytes@[j]),
                bytes@ == self@,
            decreases bytes@.len() - i,
        {
            r.push(bytes[i] as char);
            i += 1;
        }
        proof {
            assert(r@ =~= decoded_of(self@));
        }
        r
    }

    /// Copies the viewed bytes into an owned value.
    pub fn to_owned(&self) -> (r: String)
        ensures
            r@ == self@,
    {
        proof {
            use_type_invariant(*self);
        }
        String { bytes: vstd::slice::slice_to_vec(self.bytes) }
    }

    /// Wraps an ASCII string literal as a view of its bytes.
    pub(crate) fn from_ascii(s: &'static str) -> (r: Str<'static>)
        requires
            is_ascii_chars(s@),
        ensures
            r@ == ascii_bytes_of(s@),
    {
        let bytes: &'static [u8] = s.as_bytes();
        proof {
            is_ascii_chars_encode_utf8(s@);
            assert forall|i: int| 0 <= i < s@.len() implies bytes@[i] < 0x80 && bytes@[i]
                == s@[i] as u8 by {
                assert('\0' <= s@[i] <= '\u{7f}');
            }
            assert(bytes@ =~= ascii_bytes_of(s@));
        }
        Str { bytes }
    }
}

impl<'a> PartialEq for Str<'a> {
    /// Views are equal exactly when their bytes are equal.
    fn eq(&self, other: &Str<'a>) -> (r: bool) {
        bytes_eq(self.as_bytes(), other.as_bytes())
    }
}

impl<'a> Eq for Str<'a> {

}

impl<'a> vstd::std_specs::cmp::PartialEqSpecImpl for Str<'a> {
    open spec fn obeys_eq_spec() -> bool {
        true
    }

    open spec fn eq_spec(&self, other: &Str<'a>) -> bool {
        self@ == other@
    }
}

/// An owned byte buffer that is known to satisfy the US-ASCII rule.
#[derive(Debug, Hash, PartialOrd, Ord)]
pub struct String {
    bytes: Vec<u8>,
}

impl Clone for String {
    /// The copy views the same bytes as the original.
    fn clone(&self) -> (r: String)
        ensures
            r@ == self@,
    {
        proof {
            use_type_invariant(self);
        }
        String { bytes: vstd::slice::slice_to_vec(self.bytes.as_slice()) }
    }
}

impl View for String {
    type V = Seq<u8>;

    closed spec fn view(&self) -> Seq<u8> {
        self.bytes@
    }
}

impl Sealed for String {

}

impl StringTrait for String {
    type DecodeError = DecodeError;

    open spec fn valid(s: Seq<u8>) -> bool {
        valid(s)
    }

    fn decode(value: Vec<u8>) -> (r: Result<String, (Vec<u8>, DecodeError)>) {
        match validate(value.as_slice()) {
            Ok(()) => Ok(<Self as StringTrait>::decode_unchecked(value)),
            Err(e) => Err((value, e)),
        }
    }

    fn decode_unchecked(value: Vec<u8>) -> (r: String) {
        String { bytes: value }
    }

    fn as_bytes(&self) -> (r: &[u8])
        ensures
            valid(self@),
    {
        proof {
            use_type_invariant(self);
        }
        self.bytes.as_slice()
    }

    fn into_bytes(self) -> (r: Vec<u8>)
        ensures
            valid(self@),
    {
        proof {
            use_type_invariant(&self);
        }
        self.bytes
    }
}

impl String {
    #[verifier::type_invariant]
    closed spec fn wf(self) -> bool {
        valid(self.bytes@)
    }

    /// Borrows the owned bytes as a validated view.
    pub fn deref(&self) -> (r: Str<'_>)
        ensures
            r@ == self@,
    {
        proof {
            use_type_invariant(self);
        }
        Str { bytes: self.bytes.as_slice() }
    }

    /// Decodes every byte of the owned value to its Unicode scalar, in order.
    pub fn chars(&self) -> (r: Vec<char>)
        ensures
            r@ == decoded_of(self@),
    {
        self.deref().chars()
    }
}

impl PartialEq for String {
    /// Owned values are equal exactly when their bytes are equal.
    fn eq(&self, other: &String) -> (r: bool) {
        bytes_eq(StringTrait::as_bytes(self), StringTrait::as_bytes(other))
    }
}

impl Eq for String {

}

impl vstd::std_specs::cmp::PartialEqSpecImpl for String {
    open spec fn obeys_eq_spec() -> bool {
        true
    }

    open spec fn eq_spec(&self, other: &String) -> bool {
        self@ == other@
    }
}

/// A single decoded US-ASCII character; its scalar value is the byte itself.
#[derive(Clone, Copy, Debug, Hash, PartialEq, Eq, Structural, PartialOrd, Ord)]
pub struct Character {
    byte: u8,
}

impl View for Character {
    type V = char;

    closed spec fn view(&self) -> char {
        self.byte as char
    }
}

impl CharacterTrait for Character {
    open spec fn scalar_spec(self) -> char {
        self@
    }

    fn scalar(&self) -> (r: char) {
        self.byte as char
    }
}

/// The stateless identity of the US-ASCII charset.
#[derive(Clone, Copy, Debug, Hash, PartialEq, Eq, Structural)]
pub struct Charset;

impl Sealed for Charset {

}

impl CharsetTrait for Charset {
    open spec fn valid(s: Seq<u8>) -> bool {
        valid(s)
    }

    open spec fn mib_enum_spec() -> u16 {
        3
    }

    open spec fn primary_name_spec() -> Seq<char> {
        "US-ASCII"@
    }

    open spec fn preferred_mime_name_spec() -> Option<Seq<char>> {
        Some("US-ASCII"@)
    }

    fn mib_enum() -> (r: u16) {
        3
    }

    fn primary_name() -> (r: Str<'static>) {
        proof {
            reveal_strlit("US-ASCII");
        }
        Str::from_ascii("US-ASCII")
    }

    fn preferred_mime_name() -> (r: Option<Str<'static>>) {
        proof {
            reveal_strlit("US-ASCII");
        }
        Some(Str::from_ascii("US-ASCII"))
    }

    fn is_mime_text_suitable() -> (r: bool) {
        Self::preferred_mime_name().is_some()
    }
}

/// The registered alternate names of US-ASCII, as a closed enumeration.
#[derive(Clone, Copy, Debug, Hash, PartialEq, Eq, Structural)]
pub enum Alias {
    AnsiX3_4_1968,
    AnsiX3_4_1986,
    Cp367,
    CsAscii,
    Ibm367,
    Iso646Irv1991,
    Iso646Us,
    IsoIr6,
    Us,
    UsAscii,
}

impl AliasTrait for Alias {
    open spec fn name_spec(self) -> Seq<char> {
        match self {
            Alias::AnsiX3_4_1968 => "ANSI_X3.4-1968"@,
            Alias::AnsiX3_4_1986 => "ANSI_X3.4-1986"@,
            Alias::Cp367 => "cp367"@,
            Alias::CsAscii => "csAscii"@,
            Alias::Ibm367 => "IBM367"@,
            Alias::Iso646Irv1991 => "ISO_646.irv:1991"@,
            Alias::Iso646Us => "ISO646-US"@,
            Alias::IsoIr6 => "iso-ir-6"@,
            Alias::Us => "us"@,
            Alias::UsAscii => "US-ASCII"@,
        }
    }

    fn name(&self) -> (r: Str<'static>) {
        match self {
            Alias::AnsiX3_4_1968 => {
                proof {
                    reveal_strlit("ANSI_X3.4-1968");
                }
                Str::from_ascii("ANSI_X3.4-1968")
            },
            Alias::AnsiX3_4_1986 => {
                proof {
                    reveal_strlit("ANSI_X3.4-1986");
                }
                Str::from_ascii("ANSI_X3.4-1986")
            },
            Alias::Cp367 => {
                proof {
                    reveal_strlit("cp367");
                }
                Str::from_ascii("cp367")
            },
            Alias::CsAscii => {
                proof {
                    reveal_strlit("csAscii");
                }
                Str::from_ascii("csAscii")
            },
            Alias::Ibm367 => {
                proof {
                    reveal_strlit("IBM367");
                }
                Str::from_ascii("IBM367")
            },
            Alias::Iso646Irv1991 => {
                proof {
                    reveal_strlit("ISO_646.irv:1991");
                }
                Str::from_ascii("ISO_646.irv:1991")
            },
            Alias::Iso646Us => {
                proof {
                    reveal_strlit("ISO646-US");
                }
                Str::from_ascii("ISO646-US")
            },
            Alias::IsoIr6 => {
                proof {
                    reveal_strlit("iso-ir-6");
                }
                Str::from_ascii("iso-ir-6")
            },
            Alias::Us => {
                proof {
                    reveal_strlit("us");
                }
                Str::from_ascii("us")
            },
            Alias::UsAscii => {
                proof {
                    reveal_strlit("US-ASCII");
                }
                Str::from_ascii("US-ASCII")
            },
        }
    }
}

} // verus!
