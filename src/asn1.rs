//! The boundary to the `der` crate: its `IA5String` type and error, the
//! DER form of an IA5 string, and the calls that validate, encode and decode.

use der::asn1::Ia5String as DerIa5String;
use vstd::prelude::*;

verus! {

#[verifier::external_type_specification]
#[verifier::external_body]
pub struct ExDerError(der::Error);

#[verifier::external_type_specification]
#[verifier::external_body]
pub struct ExDerIa5String(DerIa5String);

/// der's limit on any length it handles (just under 256 MiB): the bytes of a
/// string value, a whole encoding, and an input to decode.
pub const MAX_DER_LEN: usize = 0xfff_ffff;

/// Whether every character of `t` lies in the IA5 set, i.e. below 0x80.
pub open spec fn is_ia5(t: Seq<char>) -> bool {
    forall|i: int| 0 <= i < t.len() ==> (#[trigger] t[i] as u32) < 0x80
}

/// The bytes of an IA5 text, one per character.
pub open spec fn ia5_bytes(t: Seq<char>) -> Seq<u8> {
    t.map_values(|c: char| (c as u32) as u8)
}

/// The DER length octets of `n`: short form below 0x80, otherwise a count
/// octet `0x80 | k` followed by the `k` big-endian octets of `n`.
pub open spec fn der_length_octets(n: nat) -> Seq<u8> {
    if n < 0x80 {
        seq![n as u8]
    } else if n <= 0xff {
        seq![0x81u8, n as u8]
    } else if n <= 0xffff {
        seq![0x82u8, (n / 0x100) as u8, (n % 0x100) as u8]
    } else if n <= 0xff_ffff {
        seq![0x83u8, (n / 0x1_0000) as u8, (n / 0x100 % 0x100) as u8, (n % 0x100) as u8]
    } else {
        seq![
            0x84u8,
            (n / 0x100_0000) as u8,
            (n / 0x1_0000 % 0x100) as u8,
            (n / 0x100 % 0x100) as u8,
            (n % 0x100) as u8,
        ]
    }
}

/// The DER encoding of an IA5 text: tag 0x16, length, then the characters.
pub open spec fn ia5_der(t: Seq<char>) -> Seq<u8> {
    seq![0x16u8] + der_length_octets(t.len()) + ia5_bytes(t)
}

/// The length octets of two lengths that both fit der's limit, each followed
/// by some bytes, agree only when the lengths and the bytes that follow agree.
#[verifier::rlimit(60)]
proof fn lemma_length_octets_prefix(n1: nat, n2: nat, r1: Seq<u8>, r2: Seq<u8>)
    requires
        n1 <= 0xfff_ffff,
        n2 <= 0xfff_ffff,
        der_length_octets(n1) + r1 == der_length_octets(n2) + r2,
    ensures
        n1 == n2,
        r1 == r2,
{
    let a = der_length_octets(n1);
    let b = der_length_octets(n2);
    let s = a + r1;
    assert(s[0] == a[0] && s[0] == b[0]);
    if a.len() == b.len() {
        let k = a.len() as int;
        assert forall|i: int| 0 <= i < k implies a[i] == b[i] by {
            assert(s[i] == a[i] && s[i] == b[i]);
        }
        if n1 >= 0x80 && n1 <= 0xff {
            assert(a[1] == b[1]);
        } else if n1 > 0xff && n1 <= 0xffff {
            assert(a[1] == b[1] && a[2] == b[2]);
        } else if n1 > 0xffff && n1 <= 0xff_ffff {
            assert(a[1] == b[1] && a[2] == b[2] && a[3] == b[3]);
        } else if n1 > 0xff_ffff {
            assert(a[1] == b[1] && a[2] == b[2] && a[3] == b[3] && a[4] == b[4]);
        }
        assert(r1 =~= s.subrange(k, s.len() as int));
        assert(r2 =~= (b + r2).subrange(k, s.len() as int));
    }
}

/// Distinct IA5 texts within the encodable length have distinct encodings.
pub proof fn lemma_ia5_der_injective(t1: Seq<char>, t2: Seq<char>)
    requires
        is_ia5(t1),
        is_ia5(t2),
        t1.len() <= MAX_DER_LEN,
        t2.len() <= MAX_DER_LEN,
        ia5_der(t1) == ia5_der(t2),
    ensures
        t1 == t2,
{
    let s = ia5_der(t1);
    let tail1 = der_length_octets(t1.len()) + ia5_bytes(t1);
    let tail2 = der_length_octets(t2.len()) + ia5_bytes(t2);
    assert(s.subrange(1, s.len() as int) =~= tail1);
    assert(ia5_der(t2).subrange(1, s.len() as int) =~= tail2);
    lemma_length_octets_prefix(t1.len(), t2.len(), ia5_bytes(t1), ia5_bytes(t2));
    assert forall|i: int| 0 <= i < t1.len() implies t1[i] == t2[i] by {
        assert(ia5_bytes(t1)[i] == ia5_bytes(t2)[i]);
        assert((t1[i] as u32) < 0x80 && (t2[i] as u32) < 0x80);
        assert(t1[i] as u32 == t2[i] as u32);
        vstd::utf8::char_u32_cast(t1[i], t1[i] as u32);
        vstd::utf8::char_u32_cast(t2[i], t2[i] as u32);
    }
    assert(t1 =~= t2);
}

/// The text held by a value of der's `IA5String` type.
pub uninterp spec fn der_ia5_chars(v: DerIa5String) -> Seq<char>;

/// Whether `b` is the DER encoding of the IA5 text `t`, and no longer than
/// der accepts as input.
pub open spec fn encodes(b: Seq<u8>, t: Seq<char>) -> bool {
    ia5_der(t) == b && is_ia5(t) && b.len() <= MAX_DER_LEN
}

/// What decoding `b` yields: the text that it encodes, where it is such an
/// encoding; nothing otherwise.
pub open spec fn der_decoding(b: Seq<u8>) -> Option<Seq<char>> {
    if exists|t: Seq<char>| #[trigger] encodes(b, t) {
        Some(choose|t: Seq<char>| #[trigger] encodes(b, t))
    } else {
        None
    }
}

/// Relies on `der::asn1::Ia5String::new`: it refuses a byte above 0x7F (for
/// UTF-8 text: a character above it), and through `StrOwned::from_bytes` a
/// length above der's limit; it keeps the text as given.
#[verifier::external_body]
pub(crate) fn der_ia5_new(t: &str) -> (r: Result<DerIa5String, der::Error>)
    ensures
        r is Ok <==> (is_ia5(t@) && t@.len() <= MAX_DER_LEN),
        r matches Ok(v) ==> der_ia5_chars(v) == t@,
{
    DerIa5String::new(t)
}

/// Relies on `Deref<Target = StrOwned>::as_str` of `der::asn1::Ia5String`:
/// every such value was checked on construction or decoding to hold only
/// characters below 0x80, and its length fits der's limit.
#[verifier::external_body]
pub(crate) fn der_ia5_text(v: &DerIa5String) -> (r: String)
    ensures
        r@ == der_ia5_chars(*v),
        is_ia5(r@),
        r@.len() <= MAX_DER_LEN,
{
    v.as_str().to_string()
}

/// Relies on `der::Encode::to_der` for `der::asn1::Ia5String` (built from `t`,
/// which `new` accepts): tag, minimal definite length, then the bytes; it
/// fails exactly when that whole length exceeds der's limit (`for_tlv`).
#[verifier::external_body]
pub(crate) fn der_ia5_to_der(t: &str) -> (r: Result<Vec<u8>, der::Error>)
    requires
        is_ia5(t@),
        t@.len() <= MAX_DER_LEN,
    ensures
        r matches Ok(b) ==> b@ == ia5_der(t@),
        r is Ok <==> ia5_der(t@).len() <= MAX_DER_LEN,
{
    DerIa5String::new(t).and_then(|v| der::Encode::to_der(&v))
}

/// Relies on `der::Decode::from_der` for `der::asn1::Ia5String` (and `as_str`
/// on its result): the input must fit der's limit, the header must carry tag
/// 0x16 and a minimal definite length that covers the rest of the input
/// exactly, and the content must pass `new`.
#[verifier::external_body]
pub(crate) fn der_ia5_from_der(b: &[u8]) -> (r: Result<String, der::Error>)
    ensures
        r is Ok <==> exists|t: Seq<char>| #[trigger] encodes(b@, t),
        forall|t: Seq<char>| #[trigger] encodes(b@, t) ==> r is Ok && r->Ok_0@ == t,
{
    <DerIa5String as der::Decode>::from_der(b).map(|v| v.as_str().to_string())
}

} // verus!
