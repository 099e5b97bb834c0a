//! Capability contracts that every supported charset satisfies.
//!
//! Each charset supplies a validity rule over raw bytes, a validated
//! borrowed view, an owned value, a decoded character, a closed alias
//! enumeration, and a decode error.  The contracts here pin down the
//! universal decode discipline: decoding succeeds exactly on the bytes the
//! validity rule accepts, a successful decode reinterprets the bytes without
//! changing them, and the unchecked constructors demand validity up front,
//! so no unvalidated view is ever observable.

use vstd::prelude::*;

use crate::charsets::us_ascii;

verus! {

/// The byte encoding of an ASCII character sequence: one byte per character.
pub open spec fn ascii_bytes_of(s: Seq<char>) -> Seq<u8> {
    Seq::new(s.len(), |i: int| s[i] as u8)
}

/// Marker sealing the capability set: only the charset types of this crate
/// satisfy the contracts below, so matches over the charsets stay exhaustive.
pub trait Sealed {

}

/// A registered alternate name of a charset: a closed enumeration whose
/// cases each yield one fixed ASCII spelling.
pub trait Alias: Sized {
    /// The registered spelling of this alias.
    spec fn name_spec(self) -> Seq<char>;

    /// The registered spelling, as an ASCII view of its bytes.
    fn name(&self) -> (r: us_ascii::Str<'static>)
        ensures
            r@ == ascii_bytes_of(self.name_spec()),
    ;
}

/// A single decoded unit with a defined mapping to a Unicode scalar.
pub trait Character: Sized {
    /// The Unicode scalar this character maps to.
    spec fn scalar_spec(self) -> char;

    /// The Unicode scalar this character maps to.
    fn scalar(&self) -> (r: char)
        ensures
            r == self.scalar_spec(),
    ;
}

/// A decode error: the bytes do not satisfy the charset's validity rule.
pub trait DecodeError: Sized {
    /// The fixed message describing this error.
    spec fn message_spec() -> Seq<char>;

    /// The fixed message describing this error.
    fn message(&self) -> (r: &'static str)
        ensures
            r@ == Self::message_spec(),
    ;
}

/// A validated borrowed view: a reference into caller-owned bytes that is
/// guaranteed to satisfy the charset's validity rule for its whole lifetime.
pub trait Str<'a>: Sized + View<V = Seq<u8>> {
    /// The error decoding returns when validation fails.
    type DecodeError;

    /// The validity rule of the owning charset.
    spec fn valid(s: Seq<u8>) -> bool;

    /// Validates the bytes and, on success, reinterprets them as a view
    /// without copying: decoding succeeds exactly on valid bytes and never
    /// changes them.
    fn decode(value: &'a [u8]) -> (r: Result<Self, Self::DecodeError>)
        ensures
            r is Ok <==> Self::valid(value@),
            r matches Ok(s) ==> s@ == value@,
    ;

    /// Reinterprets bytes as a view without checking; the caller must have
    /// established validity beforehand, so no unvalidated view can be
    /// constructed.
    fn decode_unchecked(value: &'a [u8]) -> (r: Self)
        requires
            Self::valid(value@),
        ensures
            r@ == value@,
    ;

    /// The underlying bytes, unchanged from what was decoded.
    fn as_bytes(&self) -> (r: &'a [u8])
        ensures
            r@ == self@,
    ;
}

/// An owned value: an allocated byte buffer guaranteed to satisfy the
/// charset's validity rule.
pub trait String: Sized + View<V = Seq<u8>> {
    /// The error decoding returns when validation fails.
    type DecodeError;

    /// The validity rule of the owning charset.
    spec fn valid(s: Seq<u8>) -> bool;

    /// Validates the buffer and, on success, takes ownership of it.  On
    /// failure the buffer is handed back byte-identical beside the error.
    fn decode(value: Vec<u8>) -> (r: Result<Self, (Vec<u8>, Self::DecodeError)>)
        ensures
            r is Ok <==> Self::valid(value@),
            r matches Ok(s) ==> s@ == value@,
            r matches Err(p) ==> p.0@ == value@,
    ;

    /// Takes ownership of the buffer without checking; the caller must have
    /// established validity beforehand.
    fn decode_unchecked(value: Vec<u8>) -> (r: Self)
        requires
            Self::valid(value@),
        ensures
            r@ == value@,
    ;

    /// The underlying bytes, unchanged from what was decoded.
    fn as_bytes(&self) -> (r: &[u8])
        ensures
            r@ == self@,
    ;

    /// Consumes the value and returns the raw buffer.
    fn into_bytes(self) -> (r: Vec<u8>)
        ensures
            r@ == self@,
    ;
}

/// The stateless identity of a charset: its registry constants and its
/// validity rule.
pub trait Charset: Sized {
    /// The validity rule of this charset.
    spec fn valid(s: Seq<u8>) -> bool;

    /// The registry integer identifier of this charset.
    spec fn mib_enum_spec() -> u16;

    /// The canonical registered name of this charset.
    spec fn primary_name_spec() -> Seq<char>;

    /// The name preferred when labeling MIME text, where one is registered.
    spec fn preferred_mime_name_spec() -> Option<Seq<char>>;

    /// The registry integer identifier of this charset.
    fn mib_enum() -> (r: u16)
        ensures
            r == Self::mib_enum_spec(),
    ;

    /// The canonical registered name of this charset.
    fn primary_name() -> (r: us_ascii::Str<'static>)
        ensures
            r@ == ascii_bytes_of(Self::primary_name_spec()),
    ;

    /// The name preferred when labeling MIME text with this charset.
    fn preferred_mime_name() -> (r: Option<us_ascii::Str<'static>>)
        ensures
            r is Some <==> Self::preferred_mime_name_spec() is Some,
            r matches Some(n) ==> (Self::preferred_mime_name_spec() matches Some(m) && n@
                == ascii_bytes_of(m)),
    ;

    /// Whether this charset is suitable for labeling MIME text, which holds
    /// exactly when a preferred MIME name is registered.
    fn is_mime_text_suitable() -> (r: bool)
        ensures
            r == (Self::preferred_mime_name_spec() is Some),
    ;
}

/// Byte-for-byte equality of two slices.
pub(crate) fn bytes_eq(a: &[u8], b: &[u8]) -> (r: bool)
    ensures
        r == (a@ == b@),
{
    if a.len() != b.len() {
        return false;
    }
    let mut i: usize = 0;
    while i < a.len()
        invariant
            0 <= i <= a@.len(),
            a@.len() == b@.len(),
            forall|j: int| 0 <= j < i ==> a@[j] == b@[j],
        decreases a@.len() - i,
    {
        if a[i] != b[i] {
            return false;
        }
        i += 1;
    }
    proof {
        assert(a@ =~= b@);
    }
    true
}

} // verus!
