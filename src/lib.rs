//! An IA5 string value that can be carried through a generic
//! (de)serialization data model as well as through its DER encoding.
//!
//! Deserialization accepts text (validated), integers (taken by their
//! decimal text), bytes (a complete DER encoding) and an absent value (the
//! empty string); a present optional, unit, newtype, sequence, map or enum
//! input is always a type mismatch. Validation, encoding and decoding are
//! done by the `der` crate.

pub mod asn1;
pub mod content;
pub mod decimal;
pub mod ia5string;
pub mod laws;

pub use crate::asn1::MAX_DER_LEN;
pub use crate::content::Content;
pub use crate::decimal::{i128_to_decimal, u128_to_decimal};
pub use crate::ia5string::{Ia5Error, Ia5String, Shape};
