//! The per-charset codecs and the runtime dispatch layer over them.
//!
//! The dispatch layer wraps the closed set of charsets in tagged unions: one
//! selector for "a charset decided at runtime", and matching view, owned
//! value, character, and error unions that forward every operation to the
//! active variant.  Two tagged values can only be equal when their tags
//! agree, so byte-identical content under different charsets never compares
//! equal.

use vstd::prelude::*;
use vstd::std_specs::cmp::PartialEqSpec;

use crate::charset::Character as CharacterTrait;
use crate::charset::DecodeError as DecodeErrorTrait;
use crate::charset::Str as StrTrait;
use crate::charset::String as StringTrait;

pub mod iso8859_1_1987;
pub mod iso8859_2_1987;
pub mod iso8859_3_1988;
pub mod us_ascii;
pub mod utf_8;

pub use iso8859_1_1987::Alias as Iso8859_1_1987Alias;
pub use iso8859_1_1987::Character as Iso8859_1_1987Character;
pub use iso8859_1_1987::Charset as Iso8859_1_1987Charset;
pub use iso8859_1_1987::DecodeError as Iso8859_1_1987DecodeError;
pub use iso8859_1_1987::Str as Iso8859_1_1987Str;
pub use iso8859_1_1987::String as Iso8859_1_1987String;
pub use iso8859_2_1987::Alias as Iso8859_2_1987Alias;
pub use iso8859_2_1987::Character as Iso8859_2_1987Character;
pub use iso8859_2_1987::Charset as Iso8859_2_1987Charset;
pub use iso8859_2_1987::DecodeError as Iso8859_2_1987DecodeError;
pub use iso8859_2_1987::Str as Iso8859_2_1987Str;
pub use iso8859_2_1987::String as Iso8859_2_1987String;
pub use iso8859_3_1988::Alias as Iso8859_3_1988Alias;
pub use iso8859_3_1988::Character as Iso8859_3_1988Character;
pub use iso8859_3_1988::Charset as Iso8859_3_1988Charset;
pub use iso8859_3_1988::DecodeError as Iso8859_3_1988DecodeError;
pub use iso8859_3_1988::Str as Iso8859_3_1988Str;
pub use iso8859_3_1988::String as Iso8859_3_1988String;
pub use us_ascii::Alias as UsAsciiAlias;
pub use us_ascii::Character as UsAsciiCharacter;
pub use us_ascii::Charset as UsAsciiCharset;
pub use us_ascii::DecodeError as UsAsciiDecodeError;
pub use us_ascii::Str as UsAsciiStr;
pub use us_ascii::String as UsAsciiString;
pub use utf_8::Alias as Utf8Alias;
pub use utf_8::Character as Utf8Character;
pub use utf_8::Charset as Utf8Charset;
pub use utf_8::DecodeError as Utf8DecodeError;
pub use utf_8::Str as Utf8Str;
pub use utf_8::String as Utf8String;

verus! {

/// A runtime selector naming one of the supported charsets.
#[derive(Clone, Copy, Debug, Hash, PartialEq, Eq, Structural)]
pub enum Charset {
    Iso8859_1_1987,
    Iso8859_2_1987,
    Iso8859_3_1988,
    UsAscii,
    Utf8,
}

/// The validity rule of the selected charset.
pub open spec fn valid_for(cs: Charset, s: Seq<u8>) -> bool {
    match cs {
        Charset::Iso8859_1_1987 => iso8859_1_1987::valid(s),
        Charset::Iso8859_2_1987 => iso8859_2_1987::valid(s),
        Charset::Iso8859_3_1988 => iso8859_3_1988::valid(s),
        Charset::UsAscii => us_ascii::valid(s),
        Charset::Utf8 => utf_8::valid(s),
    }
}

impl Charset {
    /// Decodes borrowed bytes under the selected charset: zero-copy on
    /// success, and the tag of the result always names the selector.
    pub fn decode_from_byte_slice<'str>(&self, value: &'str [u8]) -> (r: Result<
        Str<'str>,
        DecodeError,
    >)
        ensures
            r is Ok <==> valid_for(*self, value@),
            r matches Ok(s) ==> s@ == value@ && s.tag() == *self,
            r matches Err(e) ==> e.tag() == *self,
    {
        match self {
            Charset::Iso8859_1_1987 => match iso8859_1_1987::Str::decode(value) {
                Ok(s) => Ok(Str::Iso8859_1_1987(s)),
                Err(e) => Err(DecodeError::Iso8859_1_1987(e)),
            },
            Charset::Iso8859_2_1987 => match iso8859_2_1987::Str::decode(value) {
                Ok(s) => Ok(Str::Iso8859_2_1987(s)),
                Err(e) => Err(DecodeError::Iso8859_2_1987(e)),
            },
            Charset::Iso8859_3_1988 => match iso8859_3_1988::Str::decode(value) {
                Ok(s) => Ok(Str::Iso8859_3_1988(s)),
                Err(e) => Err(DecodeError::Iso8859_3_1988(e)),
            },
            Charset::UsAscii => match us_ascii::Str::decode(value) {
                Ok(s) => Ok(Str::UsAscii(s)),
                Err(e) => Err(DecodeError::UsAscii(e)),
            },
            Charset::Utf8 => match utf_8::Str::decode(value) {
                Ok(s) => Ok(Str::Utf8(s)),
                Err(e) => Err(DecodeError::Utf8(e)),
            },
        }
    }

    /// Decodes an owned buffer under the selected charset.  On success the
    /// buffer is consumed into the owned value; on failure it is handed back
    /// byte-identical beside the error, so the caller may retry under
    /// another charset at no extra allocation cost.
    pub fn decode_from_byte_vec(&self, value: Vec<u8>) -> (r: Result<
        String,
        (Vec<u8>, DecodeError),
    >)
        ensures
            r is Ok <==> valid_for(*self, value@),
            r matches Ok(s) ==> s@ == value@ && s.tag() == *self,
            r matches Err(p) ==> p.0@ == value@ && p.1.tag() == *self,
    {
        match self {
            Charset::Iso8859_1_1987 => match iso8859_1_1987::String::decode(value) {
                Ok(s) => Ok(String::Iso8859_1_1987(s)),
                Err((v, e)) => Err((v, DecodeError::Iso8859_1_1987(e))),
            },
            Charset::Iso8859_2_1987 => match iso8859_2_1987::String::decode(value) {
                Ok(s) => Ok(String::Iso8859_2_1987(s)),
                Err((v, e)) => Err((v, DecodeError::Iso8859_2_1987(e))),
            },
            Charset::Iso8859_3_1988 => match iso8859_3_1988::String::decode(value) {
                Ok(s) => Ok(String::Iso8859_3_1988(s)),
                Err((v, e)) => Err((v, DecodeError::Iso8859_3_1988(e))),
            },
            Charset::UsAscii => match us_ascii::String::decode(value) {
                Ok(s) => Ok(String::UsAscii(s)),
                Err((v, e)) => Err((v, DecodeError::UsAscii(e))),
            },
            Charset::Utf8 => match utf_8::String::decode(value) {
                Ok(s) => Ok(String::Utf8(s)),
                Err((v, e)) => Err((v, DecodeError::Utf8(e))),
            },
        }
    }
}

/// A validated borrowed view tagged with the charset that produced it.
#[derive(Clone, Copy, Debug, Hash, PartialOrd, Ord)]
pub enum Str<'str> {
    Iso8859_1_1987(iso8859_1_1987::Str<'str>),
    Iso8859_2_1987(iso8859_2_1987::Str<'str>),
    Iso8859_3_1988(iso8859_3_1988::Str<'str>),
    UsAscii(us_ascii::Str<'str>),
    Utf8(utf_8::Str<'str>),
}

impl<'str> View for Str<'str> {
    type V = Seq<u8>;

    open spec fn view(&self) -> Seq<u8> {
        match self {
            Str::Iso8859_1_1987(s) => s@,
            Str::Iso8859_2_1987(s) => s@,
            Str::Iso8859_3_1988(s) => s@,
            Str::UsAscii(s) => s@,
            Str::Utf8(s) => s@,
        }
    }
}

impl<'str> Str<'str> {
    /// Which charset produced this view.
    pub open spec fn tag(self) -> Charset {
        match self {
            Str::Iso8859_1_1987(_) => Charset::Iso8859_1_1987,
            Str::Iso8859_2_1987(_) => Charset::Iso8859_2_1987,
            Str::Iso8859_3_1988(_) => Charset::Iso8859_3_1988,
            Str::UsAscii(_) => Charset::UsAscii,
            Str::Utf8(_) => Charset::Utf8,
        }
    }

    /// Copies the viewed bytes into an owned value under the same tag.
    pub fn to_owned(&self) -> (r: String)
        ensures
            r@ == self@,
            r.tag() == self.tag(),
    {
        match self {
            Str::Iso8859_1_1987(s) => String::Iso8859_1_1987(s.to_owned()),
            Str::Iso8859_2_1987(s) => String::Iso8859_2_1987(s.to_owned()),
            Str::Iso8859_3_1988(s) => String::Iso8859_3_1988(s.to_owned()),
            Str::UsAscii(s) => String::UsAscii(s.to_owned()),
            Str::Utf8(s) => String::Utf8(s.to_owned()),
        }
    }

    /// The underlying bytes, unchanged from what was decoded.
    pub fn as_bytes(&self) -> (r: &'str [u8])
        ensures
            r@ == self@,
    {
        match self {
            Str::Iso8859_1_1987(s) => s.as_bytes(),
            Str::Iso8859_2_1987(s) => s.as_bytes(),
            Str::Iso8859_3_1988(s) => s.as_bytes(),
            Str::UsAscii(s) => s.as_bytes(),
            Str::Utf8(s) => s.as_bytes(),
        }
    }
}

impl<'str> PartialEq for Str<'str> {
    /// Tagged views are equal exactly when both the tag and the bytes agree.
    fn eq(&self, other: &Str<'str>) -> (r: bool) {
        match (self, other) {
            (Str::Iso8859_1_1987(a), Str::Iso8859_1_1987(b)) => a.eq(b),
            (Str::Iso8859_2_1987(a), Str::Iso8859_2_1987(b)) => a.eq(b),
            (Str::Iso8859_3_1988(a), Str::Iso8859_3_1988(b)) => a.eq(b),
            (Str::UsAscii(a), Str::UsAscii(b)) => a.eq(b),
            (Str::Utf8(a), Str::Utf8(b)) => a.eq(b),
            _ => false,
        }
    }
}

impl<'str> Eq for Str<'str> {

}

impl<'str> vstd::std_specs::cmp::PartialEqSpecImpl for Str<'str> {
    open spec fn obeys_eq_spec() -> bool {
        true
    }

    open spec fn eq_spec(&self, other: &Str<'str>) -> bool {
        self.tag() == other.tag() && self@ == other@
    }
}

/// Tagged views from different charset variants are never equal, whatever
/// their bytes; in particular two views over byte-identical content still
/// compare unequal when their tags differ.
pub proof fn lemma_cross_variant_views_unequal<'a, 'b>(a: Str<'a>, b: Str<'b>)
    requires
        a.tag() != b.tag(),
        a@ == b@,
    ensures
        !a.eq_spec(&b),
{
}

/// An owned, validated value tagged with the charset that produced it.
#[derive(Debug, Hash, PartialOrd, Ord)]
pub enum String {
    Iso8859_1_1987(iso8859_1_1987::String),
    Iso8859_2_1987(iso8859_2_1987::String),
    Iso8859_3_1988(iso8859_3_1988::String),
    UsAscii(us_ascii::String),
    Utf8(utf_8::String),
}

impl View for String {
    type V = Seq<u8>;

    open spec fn view(&self) -> Seq<u8> {
        match self {
            String::Iso8859_1_1987(s) => s@,
            String::Iso8859_2_1987(s) => s@,
            String::Iso8859_3_1988(s) => s@,
            String::UsAscii(s) => s@,
            String::Utf8(s) => s@,
        }
    }
}

impl Clone for String {
    /// The copy views the same bytes under the same tag.
    fn clone(&self) -> (r: String)
        ensures
            r@ == self@,
            r.tag() == self.tag(),
    {
        match self {
            String::Iso8859_1_1987(s) => String::Iso8859_1_1987(s.clone()),
            String::Iso8859_2_1987(s) => String::Iso8859_2_1987(s.clone()),
            String::Iso8859_3_1988(s) => String::Iso8859_3_1988(s.clone()),
            String::UsAscii(s) => String::UsAscii(s.clone()),
            String::Utf8(s) => String::Utf8(s.clone()),
        }
    }
}

impl String {
    /// Which charset produced this value.
    pub open spec fn tag(self) -> Charset {
        match self {
            String::Iso8859_1_1987(_) => Charset::Iso8859_1_1987,
            String::Iso8859_2_1987(_) => Charset::Iso8859_2_1987,
            String::Iso8859_3_1988(_) => Charset::Iso8859_3_1988,
            String::UsAscii(_) => Charset::UsAscii,
            String::Utf8(_) => Charset::Utf8,
        }
    }

    /// Borrows the owned bytes as a tagged view.
    pub fn as_ref(&self) -> (r: Str<'_>)
        ensures
            r@ == self@,
            r.tag() == self.tag(),
    {
        self.deref()
    }

    /// Borrows the owned bytes as a tagged view.
    pub fn borrow(&self) -> (r: Str<'_>)
        ensures
            r@ == self@,
            r.tag() == self.tag(),
    {
        self.deref()
    }

    /// Borrows the owned bytes as a tagged view.
    pub fn deref(&self) -> (r: Str<'_>)
        ensures
            r@ == self@,
            r.tag() == self.tag(),
    {
        match self {
            String::Iso8859_1_1987(s) => Str::Iso8859_1_1987(s.deref()),
            String::Iso8859_2_1987(s) => Str::Iso8859_2_1987(s.deref()),
            String::Iso8859_3_1988(s) => Str::Iso8859_3_1988(s.deref()),
            String::UsAscii(s) => Str::UsAscii(s.deref()),
            String::Utf8(s) => Str::Utf8(s.deref()),
        }
    }

    /// The underlying bytes, unchanged from what was decoded.
    pub fn as_bytes(&self) -> (r: &[u8])
        ensures
            r@ == self@,
    {
        match self {
            String::Iso8859_1_1987(s) => s.as_bytes(),
            String::Iso8859_2_1987(s) => s.as_bytes(),
            String::Iso8859_3_1988(s) => s.as_bytes(),
            String::UsAscii(s) => s.as_bytes(),
            String::Utf8(s) => s.as_bytes(),
        }
    }

    /// Consumes the value and returns the raw buffer.
    pub fn into_bytes(self) -> (r: Vec<u8>)
        ensures
            r@ == self@,
    {
        match self {
            String::Iso8859_1_1987(s) => s.into_bytes(),
            String::Iso8859_2_1987(s) => s.into_bytes(),
            String::Iso8859_3_1988(s) => s.into_bytes(),
            String::UsAscii(s) => s.into_bytes(),
            String::Utf8(s) => s.into_bytes(),
        }
    }
}

impl PartialEq for String {
    /// Tagged values are equal exactly when both the tag and the bytes agree.
    fn eq(&self, other: &String) -> (r: bool) {
        match (self, other) {
            (String::Iso8859_1_1987(a), String::Iso8859_1_1987(b)) => a.eq(b),
            (String::Iso8859_2_1987(a), String::Iso8859_2_1987(b)) => a.eq(b),
            (String::Iso8859_3_1988(a), String::Iso8859_3_1988(b)) => a.eq(b),
            (String::UsAscii(a), String::UsAscii(b)) => a.eq(b),
            (String::Utf8(a), String::Utf8(b)) => a.eq(b),
            _ => false,
        }
    }
}

impl Eq for String {

}

impl vstd::std_specs::cmp::PartialEqSpecImpl for String {
    open spec fn obeys_eq_spec() -> bool {
        true
    }

    open spec fn eq_spec(&self, other: &String) -> bool {
        self.tag() == other.tag() && self@ == other@
    }
}

/// A single decoded character tagged with the charset that produced it.
#[derive(Clone, Copy, Debug, Hash, PartialEq, Eq, Structural, PartialOrd, Ord)]
pub enum Character {
    Iso8859_1_1987(iso8859_1_1987::Character),
    Iso8859_2_1987(iso8859_2_1987::Character),
    Iso8859_3_1988(iso8859_3_1988::Character),
    UsAscii(us_ascii::Character),
    Utf8(utf_8::Character),
}

impl View for Character {
    type V = char;

    open spec fn view(&self) -> char {
        match self {
            Character::Iso8859_1_1987(c) => c@,
            Character::Iso8859_2_1987(c) => c@,
            Character::Iso8859_3_1988(c) => c@,
            Character::UsAscii(c) => c@,
            Character::Utf8(c) => c@,
        }
    }
}

impl Character {
    /// Which charset produced this character.
    pub open spec fn tag(self) -> Charset {
        match self {
            Character::Iso8859_1_1987(_) => Charset::Iso8859_1_1987,
            Character::Iso8859_2_1987(_) => Charset::Iso8859_2_1987,
            Character::Iso8859_3_1988(_) => Charset::Iso8859_3_1988,
            Character::UsAscii(_) => Charset::UsAscii,
            Character::Utf8(_) => Charset::Utf8,
        }
    }

    /// The Unicode scalar the active variant maps to.
    pub fn scalar(&self) -> (r: char)
        ensures
            r == self@,
    {
        match self {
            Character::Iso8859_1_1987(c) => c.scalar(),
            Character::Iso8859_2_1987(c) => c.scalar(),
            Character::Iso8859_3_1988(c) => c.scalar(),
            Character::UsAscii(c) => c.scalar(),
            Character::Utf8(c) => c.scalar(),
        }
    }
}

/// A decode error tagged with the charset whose validation failed.
#[derive(Clone, Copy, Debug, Hash, PartialEq, Eq, Structural)]
pub enum DecodeError {
    Iso8859_1_1987(iso8859_1_1987::DecodeError),
    Iso8859_2_1987(iso8859_2_1987::DecodeError),
    Iso8859_3_1988(iso8859_3_1988::DecodeError),
    UsAscii(us_ascii::DecodeError),
    Utf8(utf_8::DecodeError),
}

impl DecodeError {
    /// Which charset produced this error.
    pub open spec fn tag(self) -> Charset {
        match self {
            DecodeError::Iso8859_1_1987(_) => Charset::Iso8859_1_1987,
            DecodeError::Iso8859_2_1987(_) => Charset::Iso8859_2_1987,
            DecodeError::Iso8859_3_1988(_) => Charset::Iso8859_3_1988,
            DecodeError::UsAscii(_) => Charset::UsAscii,
            DecodeError::Utf8(_) => Charset::Utf8,
        }
    }

    /// The message of the active variant's error.
    pub fn message(&self) -> (r: &'static str)
        ensures
            self.tag() == Charset::Iso8859_1_1987 ==> r@ == "invalid ISO-8859-1:1987 (ISO-8859-1)"@,
            self.tag() == Charset::Iso8859_2_1987 ==> r@ == "invalid ISO-8859-2:1987 (ISO-8859-2)"@,
            self.tag() == Charset::Iso8859_3_1988 ==> r@ == "invalid ISO-8859-3:1988 (ISO-8859-3)"@,
            self.tag() == Charset::UsAscii ==> r@ == "invalid US-ASCII"@,
            self.tag() == Charset::Utf8 ==> r@ == "invalid UTF-8"@,
    {
        match self {
            DecodeError::Iso8859_1_1987(e) => e.message(),
            DecodeError::Iso8859_2_1987(e) => e.message(),
            DecodeError::Iso8859_3_1988(e) => e.message(),
            DecodeError::UsAscii(e) => e.message(),
            DecodeError::Utf8(e) => e.message(),
        }
    }
}

impl From<iso8859_1_1987::DecodeError> for DecodeError {
    /// Tags the ISO-8859-1 error.
    fn from(value: iso8859_1_1987::DecodeError) -> (r: DecodeError) {
        DecodeError::Iso8859_1_1987(value)
    }
}

impl vstd::std_specs::convert::FromSpecImpl<iso8859_1_1987::DecodeError> for DecodeError {
    open spec fn obeys_from_spec() -> bool {
        true
    }

    open spec fn from_spec(value: iso8859_1_1987::DecodeError) -> DecodeError {
        DecodeError::Iso8859_1_1987(value)
    }
}

impl From<iso8859_2_1987::DecodeError> for DecodeError {
    /// Tags the ISO-8859-2 error.
    fn from(value: iso8859_2_1987::DecodeError) -> (r: DecodeError) {
        DecodeError::Iso8859_2_1987(value)
    }
}

impl vstd::std_specs::convert::FromSpecImpl<iso8859_2_1987::DecodeError> for DecodeError {
    open spec fn obeys_from_spec() -> bool {
        true
    }

    open spec fn from_spec(value: iso8859_2_1987::DecodeError) -> DecodeError {
        DecodeError::Iso8859_2_1987(value)
    }
}

impl From<iso8859_3_1988::DecodeError> for DecodeError {
    /// Tags the ISO-8859-3 error.
    fn from(value: iso8859_3_1988::DecodeError) -> (r: DecodeError) {
        DecodeError::Iso8859_3_1988(value)
    }
}

impl vstd::std_specs::convert::FromSpecImpl<iso8859_3_1988::DecodeError> for DecodeError {
    open spec fn obeys_from_spec() -> bool {
        true
    }

    open spec fn from_spec(value: iso8859_3_1988::DecodeError) -> DecodeError {
        DecodeError::Iso8859_3_1988(value)
    }
}

impl From<us_ascii::DecodeError> for DecodeError {
    /// Tags the US-ASCII error.
    fn from(value: us_ascii::DecodeError) -> (r: DecodeError) {
        DecodeError::UsAscii(value)
    }
}

impl vstd::std_specs::convert::FromSpecImpl<us_ascii::DecodeError> for DecodeError {
    open spec fn obeys_from_spec() -> bool {
        true
    }

    open spec fn from_spec(value: us_ascii::DecodeError) -> DecodeError {
        DecodeError::UsAscii(value)
    }
}

impl From<utf_8::DecodeError> for DecodeError {
    /// Tags the UTF-8 error.
    fn from(value: utf_8::DecodeError) -> (r: DecodeError) {
        DecodeError::Utf8(value)
    }
}

impl vstd::std_specs::convert::FromSpecImpl<utf_8::DecodeError> for DecodeError {
    open spec fn obeys_from_spec() -> bool {
        true
    }

    open spec fn from_spec(value: utf_8::DecodeError) -> DecodeError {
        DecodeError::Utf8(value)
    }
}

/// A copy-on-write wrapper over a tagged view or a tagged owned value.  An
/// owned copy is materialized only when one is actually demanded.
#[derive(Debug, Hash, PartialOrd, Ord)]
pub enum CowStr<'str> {
    Borrowed(Str<'str>),
    Owned(String),
}

impl<'str> View for CowStr<'str> {
    type V = Seq<u8>;

    open spec fn view(&self) -> Seq<u8> {
        match self {
            CowStr::Borrowed(s) => s@,
            CowStr::Owned(s) => s@,
        }
    }
}

impl<'str> Clone for CowStr<'str> {
    /// The copy wraps the same state, viewing the same bytes under the same
    /// tag.
    fn clone(&self) -> (r: CowStr<'str>)
        ensures
            r@ == self@,
            r.tag() == self.tag(),
            r is Borrowed <==> self is Borrowed,
    {
        match self {
            CowStr::Borrowed(s) => CowStr::Borrowed(*s),
            CowStr::Owned(s) => CowStr::Owned(s.clone()),
        }
    }
}

impl<'str> PartialEq for CowStr<'str> {
    /// Wrappers are equal exactly when they are in the same state and wrap
    /// equal values.
    fn eq(&self, other: &CowStr<'str>) -> (r: bool) {
        match (self, other) {
            (CowStr::Borrowed(a), CowStr::Borrowed(b)) => a.eq(b),
            (CowStr::Owned(a), CowStr::Owned(b)) => a.eq(b),
            _ => false,
        }
    }
}

impl<'str> Eq for CowStr<'str> {

}

impl<'str> vstd::std_specs::cmp::PartialEqSpecImpl for CowStr<'str> {
    open spec fn obeys_eq_spec() -> bool {
        true
    }

    open spec fn eq_spec(&self, other: &CowStr<'str>) -> bool {
        match (self, other) {
            (CowStr::Borrowed(a), CowStr::Borrowed(b)) => a.tag() == b.tag() && a@ == b@,
            (CowStr::Owned(a), CowStr::Owned(b)) => a.tag() == b.tag() && a@ == b@,
            _ => false,
        }
    }
}

impl<'str> CowStr<'str> {
    /// Which charset produced the wrapped value.
    pub open spec fn tag(self) -> Charset {
        match self {
            CowStr::Borrowed(s) => s.tag(),
            CowStr::Owned(s) => s.tag(),
        }
    }

    /// Converts into an owned value: a borrowed view is copied, an already
    /// owned value is moved without another allocation.
    pub fn into_owned(self) -> (r: String)
        ensures
            r@ == self@,
            r.tag() == self.tag(),
    {
        match self {
            CowStr::Borrowed(s) => s.to_owned(),
            CowStr::Owned(s) => s,
        }
    }

    /// A mutable handle on an owned value, promoting a borrowed view to an
    /// owned copy on the first call only.
    pub fn to_mut(&mut self) -> (r: &mut String)
        ensures
            (*r)@ == old(self)@,
            (*r).tag() == old(self).tag(),
            *final(self) == CowStr::<'str>::Owned(*final(r)),
    {
        match self {
            CowStr::Borrowed(s) => {
                let owned = s.to_owned();
                *self = CowStr::Owned(owned);
            },
            CowStr::Owned(_) => {},
        }
        match self {
            CowStr::Owned(string) => string,
            CowStr::Borrowed(_) => vstd::pervasive::unreached(),
        }
    }
}

impl<'str> From<Str<'str>> for CowStr<'str> {
    /// Wraps a tagged view without copying.
    fn from(value: Str<'str>) -> (r: CowStr<'str>) {
        CowStr::Borrowed(value)
    }
}

impl<'str> vstd::std_specs::convert::FromSpecImpl<Str<'str>> for CowStr<'str> {
    open spec fn obeys_from_spec() -> bool {
        true
    }

    open spec fn from_spec(value: Str<'str>) -> CowStr<'str> {
        CowStr::Borrowed(value)
    }
}

impl From<String> for CowStr<'static> {
    /// Wraps a tagged owned value.
    fn from(value: String) -> (r: CowStr<'static>) {
        CowStr::Owned(value)
    }
}

impl vstd::std_specs::convert::FromSpecImpl<String> for CowStr<'static> {
    open spec fn obeys_from_spec() -> bool {
        true
    }

    open spec fn from_spec(value: String) -> CowStr<'static> {
        CowStr::Owned(value)
    }
}

} // verus!
