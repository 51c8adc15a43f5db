//! Properties that relate the operations of the library to each other.

use vstd::prelude::*;

use crate::asn1::{der_decoding, encodes, ia5_der, is_ia5, lemma_ia5_der_injective, MAX_DER_LEN};
use crate::content::{deserialized, shape_of, text_outcome, Content, Outcome};
use crate::decimal::decimal_of;

verus! {

/// Text made of IA5 characters only, within der's length limit, is
/// accepted as it is, so serializing the value built from it gives back the
/// same text, whether it was built directly or deserialized from a text
/// input.
pub proof fn lemma_text_round_trip(t: String)
    requires
        is_ia5(t@),
        t@.len() <= MAX_DER_LEN,
    ensures
        text_outcome(t@) == Outcome::Value(t@),
        deserialized(Content::Str(t)) == Outcome::Value(t@),
{
}

/// Text holding a character at or above 0x80 is rejected as invalid.
pub proof fn lemma_rejection(t: Seq<char>, i: int)
    requires
        0 <= i < t.len(),
        t[i] as u32 >= 0x80,
    ensures
        text_outcome(t) == Outcome::Invalid,
{
}

/// An unsigned integer deserializes to the same value as its decimal text.
pub proof fn lemma_numeric_bridging(n: u64, t: String)
    requires
        t@ == decimal_of(n as int),
    ensures
        deserialized(Content::U64(n)) == deserialized(Content::Str(t)),
        deserialized(Content::U64(n)) == Outcome::Value(t@),
{
    crate::content::lemma_decimal_is_ia5(n as int);
    crate::decimal::lemma_decimal_len(n as int);
}

/// A composite or wrapper input is always a type mismatch that names its
/// shape.
pub proof fn lemma_structural_rejection(c: Content)
    requires
        shape_of(c) is Some,
    ensures
        deserialized(c) == Outcome::Mismatch(shape_of(c)->0),
{
}

/// An absent input gives the empty value, never an error.
pub proof fn lemma_absent()
    ensures
        deserialized(Content::Absent) == Outcome::Value(Seq::empty()),
{
}

/// Decoding the DER encoding of a valid text gives back that text: what
/// `to_der` makes of a value, `from_der` turns back into the same value.
/// (Only an encoding within der's length limit exists at all.)
pub proof fn lemma_binary_round_trip(t: Seq<char>)
    requires
        is_ia5(t),
        ia5_der(t).len() <= MAX_DER_LEN,
    ensures
        der_decoding(ia5_der(t)) == Some(t),
{
    let b = ia5_der(t);
    assert(encodes(b, t));
    let t0 = choose|t0: Seq<char>| #[trigger] encodes(b, t0);
    lemma_ia5_der_injective(t0, t);
}

} // verus!
