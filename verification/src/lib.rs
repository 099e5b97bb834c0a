//! Typed, charset-tagged text values over raw bytes.
//!
//! For a closed set of registered character sets, this crate validates raw
//! byte sequences against each charset's rule, exposes them as validated
//! borrowed views or owned values, and offers a runtime dispatch layer so
//! that the charset can be chosen dynamically while all variants are handled
//! through one tagged type.

pub mod charset;
pub mod charsets;
