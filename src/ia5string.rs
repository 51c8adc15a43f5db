//! The IA5 string value: text whose characters all lie below 0x80.

use vstd::prelude::*;
use vstd::string::StringExecFns;

use crate::asn1::{
    der_decoding, der_ia5_chars, der_ia5_from_der, der_ia5_new, der_ia5_text, der_ia5_to_der,
    encodes, ia5_der, is_ia5, MAX_DER_LEN,
};
use crate::content::{outcome_of, text_outcome};

verus! {

/// The kinds of input that a deserializer can hand over but that never
/// stand for an IA5 string.
#[derive(Clone, Copy, Debug, PartialEq, Eq, Structural)]
pub enum Shape {
    Option,
    Unit,
    NewtypeStruct,
    Sequence,
    Mapping,
    Enum,
}

/// Why a value could not be built.
#[derive(Debug)]
pub enum Ia5Error {
    /// The text holds a character outside the IA5 set, or is longer than
    /// der's limit; carries der's error.
    Validation(der::Error),
    /// The bytes are no DER encoding of an IA5 string; carries der's error.
    Decoding(der::Error),
    /// The text is too long for a DER length; carries der's error.
    Encoding(der::Error),
    /// The input came in a shape that never stands for an IA5 string.
    TypeMismatch(Shape),
}

/// A string of characters from the IA5 set (code points 0 to 0x7F), no
/// longer than der's length limit.
pub struct Ia5String {
    text: String,
}

impl View for Ia5String {
    type V = Seq<char>;

    closed spec fn view(&self) -> Seq<char> {
        self.text@
    }
}

impl Ia5String {
    #[verifier::type_invariant]
    spec fn inv(&self) -> bool {
        is_ia5(self.text@) && self.text@.len() <= MAX_DER_LEN
    }

    /// Builds a value from text; fails with a validation error exactly when a
    /// character lies outside the IA5 set or the text exceeds der's limit.
    pub fn new(t: &str) -> (r: Result<Ia5String, Ia5Error>)
        ensures
            outcome_of(r) == text_outcome(t@),
            (is_ia5(t@) && t@.len() <= MAX_DER_LEN) <==> r is Ok,
            r matches Ok(v) ==> v@ == t@,
            r is Err ==> r matches Err(Ia5Error::Validation(_)),
    {
        match der_ia5_new(t) {
            Ok(_) => Ok(Ia5String { text: String::from_str(t) }),
            Err(e) => Err(Ia5Error::Validation(e)),
        }
    }

    /// The empty value.
    pub fn empty() -> (r: Ia5String)
        ensures
            r@ == Seq::<char>::empty(),
    {
        Ia5String { text: String::new() }
    }

    /// The text of the value.
    pub fn as_str(&self) -> (r: &str)
        ensures
            r@ == self@,
            is_ia5(r@),
            r@.len() <= MAX_DER_LEN,
    {
        proof {
            use_type_invariant(self);
        }
        self.text.as_str()
    }

    /// The serialized form: the value's text as a plain string.
    pub fn serialize(&self) -> (r: String)
        ensures
            r@ == self@,
            is_ia5(r@),
    {
        proof {
            use_type_invariant(self);
        }
        self.text.clone()
    }

    /// Takes over a value of der's `IA5String` type.
    pub fn from_der_string(v: &der::asn1::Ia5String) -> (r: Ia5String)
        ensures
            r@ == der_ia5_chars(*v),
            is_ia5(r@),
    {
        Ia5String { text: der_ia5_text(v) }
    }

    /// The same text as a value of der's `IA5String` type.
    pub fn to_der_string(&self) -> (r: der::asn1::Ia5String)
        ensures
            der_ia5_chars(r) == self@,
    {
        proof {
            use_type_invariant(self);
        }
        match der_ia5_new(self.text.as_str()) {
            Ok(v) => v,
            Err(_) => unreached(),
        }
    }

    /// The DER encoding of the value; it exists exactly when the whole
    /// encoding fits der's length limit.
    pub fn to_der(&self) -> (r: Result<Vec<u8>, Ia5Error>)
        ensures
            r matches Ok(b) ==> b@ == ia5_der(self@),
            r is Ok <==> ia5_der(self@).len() <= MAX_DER_LEN,
            r is Err ==> r matches Err(Ia5Error::Encoding(_)),
    {
        proof {
            use_type_invariant(self);
        }
        match der_ia5_to_der(self.text.as_str()) {
            Ok(b) => Ok(b),
            Err(e) => Err(Ia5Error::Encoding(e)),
        }
    }

    /// Decodes a complete DER encoding of an IA5 string; every other input
    /// is a decoding error.
    pub fn from_der(b: &[u8]) -> (r: Result<Ia5String, Ia5Error>)
        ensures
            r is Ok <==> exists|t: Seq<char>| #[trigger] encodes(b@, t),
            r matches Ok(v) ==> encodes(b@, v@) && der_decoding(b@) == Some(v@),
            r is Err <==> der_decoding(b@) is None,
            r is Err ==> r matches Err(Ia5Error::Decoding(_)),
    {
        let d = der_ia5_from_der(b);
        proof {
            if exists|t: Seq<char>| #[trigger] encodes(b@, t) {
                let t0 = choose|t: Seq<char>| #[trigger] encodes(b@, t);
                assert(ia5_der(t0).len() == 1 + crate::asn1::der_length_octets(t0.len()).len() + t0.len());
            }
        }
        match d {
            Ok(t) => Ok(Ia5String { text: t }),
            Err(e) => Err(Ia5Error::Decoding(e)),
        }
    }
}

} // verus!
