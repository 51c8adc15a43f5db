//! What a self-describing deserializer can hand over for a value, and the
//! IA5 string (or the error) that each such input stands for.

use vstd::prelude::*;

use crate::asn1::{der_decoding, is_ia5, MAX_DER_LEN};
use crate::decimal::{
    decimal_of, decimal_of_nat, digit_char, i128_to_decimal, lemma_decimal_len, u128_to_decimal,
};
use crate::ia5string::{Ia5Error, Ia5String, Shape};

verus! {

/// One input of the data model, as far as it matters here: scalars carry
/// their value; composite and wrapper shapes carry nothing, since their
/// contents are never looked at.
#[derive(Debug)]
pub enum Content {
    Str(String),
    I64(i64),
    U64(u64),
    I128(i128),
    U128(u128),
    Bytes(Vec<u8>),
    Absent,
    Present,
    Unit,
    NewtypeStruct,
    Sequence,
    Mapping,
    Enum,
}

/// The result of building a value, in terms of texts and error kinds.
pub enum Outcome {
    Value(Seq<char>),
    Invalid,
    Undecodable,
    Unencodable,
    Mismatch(Shape),
}

/// What a result of this library amounts to.
pub open spec fn outcome_of(r: Result<Ia5String, Ia5Error>) -> Outcome {
    match r {
        Ok(v) => Outcome::Value(v@),
        Err(Ia5Error::Validation(_)) => Outcome::Invalid,
        Err(Ia5Error::Decoding(_)) => Outcome::Undecodable,
        Err(Ia5Error::Encoding(_)) => Outcome::Unencodable,
        Err(Ia5Error::TypeMismatch(s)) => Outcome::Mismatch(s),
    }
}

/// Building from text: the text itself when all its characters are IA5 and
/// it fits der's length limit, a validation failure otherwise.
pub open spec fn text_outcome(t: Seq<char>) -> Outcome {
    if is_ia5(t) && t.len() <= MAX_DER_LEN {
        Outcome::Value(t)
    } else {
        Outcome::Invalid
    }
}

/// The shape of a composite or wrapper input; `None` for the others.
pub open spec fn shape_of(c: Content) -> Option<Shape> {
    match c {
        Content::Present => Some(Shape::Option),
        Content::Unit => Some(Shape::Unit),
        Content::NewtypeStruct => Some(Shape::NewtypeStruct),
        Content::Sequence => Some(Shape::Sequence),
        Content::Mapping => Some(Shape::Mapping),
        Content::Enum => Some(Shape::Enum),
        _ => None,
    }
}

/// What each input stands for: text is validated, integers are taken by
/// their decimal text, bytes are a DER encoding, absence is the empty
/// string, and every other shape is a type mismatch.
pub open spec fn deserialized(c: Content) -> Outcome {
    match c {
        Content::Str(t) => text_outcome(t@),
        Content::I64(n) => text_outcome(decimal_of(n as int)),
        Content::U64(n) => text_outcome(decimal_of(n as int)),
        Content::I128(n) => text_outcome(decimal_of(n as int)),
        Content::U128(n) => text_outcome(decimal_of(n as int)),
        Content::Bytes(b) => match der_decoding(b@) {
            Some(t) => Outcome::Value(t),
            None => Outcome::Undecodable,
        },
        Content::Absent => Outcome::Value(Seq::empty()),
        _ => Outcome::Mismatch(shape_of(c).unwrap()),
    }
}

/// Decimal digits are IA5 characters.
pub proof fn lemma_decimal_nat_is_ia5(n: nat)
    ensures
        is_ia5(decimal_of_nat(n)),
    decreases n,
{
    if n >= 10 {
        lemma_decimal_nat_is_ia5(n / 10);
    }
    assert((digit_char(n % 10) as u32) < 0x80);
    let d = decimal_of_nat(n);
    assert forall|i: int| 0 <= i < d.len() implies (#[trigger] d[i] as u32) < 0x80 by {
        if n >= 10 && i < d.len() - 1 {
            assert(d[i] == decimal_of_nat(n / 10)[i]);
        }
    }
}

/// The decimal text of any integer consists of IA5 characters.
pub proof fn lemma_decimal_is_ia5(n: int)
    ensures
        is_ia5(decimal_of(n)),
{
    if n < 0 {
        lemma_decimal_nat_is_ia5((-n) as nat);
        let d = decimal_of(n);
        assert forall|i: int| 0 <= i < d.len() implies (#[trigger] d[i] as u32) < 0x80 by {
            if i > 0 {
                assert(d[i] == decimal_of_nat((-n) as nat)[i - 1]);
            }
        }
    } else {
        lemma_decimal_nat_is_ia5(n as nat);
    }
}

impl Ia5String {
    /// Builds a value from one input of the data model; integers always
    /// succeed, as their decimal text.
    pub fn deserialize(input: &Content) -> (r: Result<Ia5String, Ia5Error>)
        ensures
            outcome_of(r) == deserialized(*input),
            (input is I64 || input is U64 || input is I128 || input is U128) ==> r is Ok,
    {
        match input {
            Content::Str(t) => Ia5String::new(t.as_str()),
            Content::I64(n) => {
                proof {
                    lemma_decimal_is_ia5(*n as int);
                    lemma_decimal_len(*n as int);
                }
                Ia5String::new(i128_to_decimal(*n as i128).as_str())
            },
            Content::U64(n) => {
                proof {
                    lemma_decimal_is_ia5(*n as int);
                    lemma_decimal_len(*n as int);
                }
                Ia5String::new(u128_to_decimal(*n as u128).as_str())
            },
            Content::I128(n) => {
                proof {
                    lemma_decimal_is_ia5(*n as int);
                    lemma_decimal_len(*n as int);
                }
                Ia5String::new(i128_to_decimal(*n).as_str())
            },
            Content::U128(n) => {
                proof {
                    lemma_decimal_is_ia5(*n as int);
                    lemma_decimal_len(*n as int);
                }
                Ia5String::new(u128_to_decimal(*n).as_str())
            },
            Content::Bytes(b) => Ia5String::from_der(b.as_slice()),
            Content::Absent => Ok(Ia5String::empty()),
            Content::Present => Err(Ia5Error::TypeMismatch(Shape::Option)),
            Content::Unit => Err(Ia5Error::TypeMismatch(Shape::Unit)),
            Content::NewtypeStruct => Err(Ia5Error::TypeMismatch(Shape::NewtypeStruct)),
            Content::Sequence => Err(Ia5Error::TypeMismatch(Shape::Sequence)),
            Content::Mapping => Err(Ia5Error::TypeMismatch(Shape::Mapping)),
            Content::Enum => Err(Ia5Error::TypeMismatch(Shape::Enum)),
        }
    }
}

} // verus!
