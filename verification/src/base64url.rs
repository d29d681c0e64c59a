//! URL-safe base64 without padding (RFC 4648 §5), as used for stamps and
//! JWT-like payloads. Decoding also accepts padded input: trailing `=` are
//! dropped first.
//!
//! Encoding and decoding are done by the `base64` crate's `URL_SAFE_NO_PAD`
//! engine; the contracts state the encoding as RFC 4648 defines it, and the
//! round-trip laws are proved here.
use vstd::prelude::*;
use vstd::string::StringSliceAdditionalSpecFns;
use vstd::utf8::*;

use crate::text::{chars_of, slice_chars, string_from_chars};

verus! {

#[verifier::external_type_specification]
#[verifier::external_body]
pub struct ExDecodeError(base64::DecodeError);

#[verifier::external_type_specification]
#[verifier::external_body]
pub struct ExFromUtf8Error(std::string::FromUtf8Error);

/// The URL-safe alphabet symbol for a 6-bit value.
pub open spec fn b64_symbol(v: int) -> char {
    if v < 26 {
        (65 + v) as char
    } else if v < 52 {
        (97 + v - 26) as char
    } else if v < 62 {
        (48 + v - 52) as char
    } else if v == 62 {
        '-'
    } else {
        '_'
    }
}

/// A character of the URL-safe base64 alphabet.
pub open spec fn is_b64url_char(c: char) -> bool {
    ('A' <= c <= 'Z') || ('a' <= c <= 'z') || ('0' <= c <= '9') || c == '-' || c == '_'
}

/// RFC 4648 base64url encoding of `b`, without padding.
pub open spec fn spec_base64url(b: Seq<u8>) -> Seq<char>
    decreases b.len(),
{
    if b.len() == 0 {
        seq![]
    } else if b.len() == 1 {
        seq![b64_symbol((b[0] >> 2) as int), b64_symbol(((b[0] & 3) << 4) as int)]
    } else if b.len() == 2 {
        seq![
            b64_symbol((b[0] >> 2) as int),
            b64_symbol((((b[0] & 3) << 4) | (b[1] >> 4)) as int),
            b64_symbol(((b[1] & 15) << 2) as int),
        ]
    } else {
        seq![
            b64_symbol((b[0] >> 2) as int),
            b64_symbol((((b[0] & 3) << 4) | (b[1] >> 4)) as int),
            b64_symbol((((b[1] & 15) << 2) | (b[2] >> 6)) as int),
            b64_symbol((b[2] & 63) as int),
        ] + spec_base64url(b.skip(3))
    }
}

/// The bytes whose encoding is `s`, when there are any.
pub open spec fn spec_base64url_decode(s: Seq<char>) -> Option<Seq<u8>> {
    if exists|b: Seq<u8>| spec_base64url(b) == s {
        Some(choose|b: Seq<u8>| spec_base64url(b) == s)
    } else {
        None
    }
}

/// Errors of the base64url helpers.
#[derive(Debug)]
pub enum Base64UrlError {
    /// The input is not a canonical unpadded base64url string.
    Decode(base64::DecodeError),
    /// The decoded bytes are not valid UTF-8.
    Utf8(std::string::FromUtf8Error),
}

/// Encode bytes as base64url without padding (`base64`'s `URL_SAFE_NO_PAD`
/// engine). The contract states the RFC 4648 encoding. The engine panics
/// only when the output length overflows `usize`, which takes more than
/// `isize::MAX` input bytes; no slice is that long.
#[verifier::external_body]
pub fn base64url_encode(data: &[u8]) -> (r: String)
    ensures
        r@ == spec_base64url(data@),
{
    base64::Engine::encode(&base64::engine::general_purpose::URL_SAFE_NO_PAD, data)
}

/// `s` without its trailing `=` padding characters.
pub open spec fn without_padding(s: Seq<char>) -> Seq<char>
    decreases s.len(),
{
    if s.len() > 0 && s.last() == '=' {
        without_padding(s.drop_last())
    } else {
        s
    }
}

/// Decode an unpadded base64url string (`base64`'s `URL_SAFE_NO_PAD`
/// engine). That engine accepts exactly the canonical unpadded encodings:
/// padding, symbols outside the alphabet, a dangling symbol and non-zero
/// trailing bits are rejected. Which `DecodeError` comes back is not stated.
#[verifier::external_body]
fn decode_unpadded(s: &str) -> (r: Result<Vec<u8>, base64::DecodeError>)
    ensures
        r matches Ok(v) ==> spec_base64url(v@) == s@,
        r is Err ==> forall|b: Seq<u8>| spec_base64url(b) != s@,
{
    base64::Engine::decode(&base64::engine::general_purpose::URL_SAFE_NO_PAD, s)
}

/// Decode a base64url string, padded or unpadded: trailing `=` padding is
/// dropped, and what remains must be a canonical unpadded encoding.
pub fn base64url_decode(s: &str) -> (r: Result<Vec<u8>, base64::DecodeError>)
    ensures
        match spec_base64url_decode(without_padding(s@)) {
            Some(b) => r matches Ok(v) && v@ == b,
            None => r is Err,
        },
{
    let c = chars_of(s);
    let mut k: usize = c.len();
    proof {
        assert(c@.take(k as int) =~= c@);
    }
    while k > 0 && c[k - 1] == '='
        invariant
            0 <= k <= c@.len(),
            c@ == s@,
            without_padding(c@.take(k as int)) == without_padding(s@),
        decreases k,
    {
        proof {
            let t = c@.take(k as int);
            assert(t.last() == '=');
            assert(t.drop_last() =~= c@.take(k - 1));
        }
        k = k - 1;
    }
    let body = slice_chars(c.as_slice(), 0, k);
    let t = string_from_chars(body.as_slice());
    proof {
        assert(body@ =~= c@.take(k as int));
        assert(without_padding(t@) == t@);
    }
    let r = decode_unpadded(t.as_str());
    proof {
        if r is Ok {
            lemma_base64url_roundtrip(r->Ok_0@);
        }
    }
    r
}

/// std's `String::from_utf8`: succeeds exactly on valid UTF-8, whose
/// characters it returns. Which error value comes back is not stated.
#[verifier::external_body]
fn string_from_utf8(bytes: Vec<u8>) -> (r: Result<String, std::string::FromUtf8Error>)
    ensures
        r is Ok <==> valid_utf8(bytes@),
        r matches Ok(s) ==> s@ == decode_utf8(bytes@),
{
    String::from_utf8(bytes)
}

proof fn lemma_symbol_injective(x: int, y: int)
    requires
        0 <= x < 64,
        0 <= y < 64,
        b64_symbol(x) == b64_symbol(y),
    ensures
        x == y,
{
}

proof fn lemma_symbol_in_alphabet(x: int)
    requires
        0 <= x < 64,
    ensures
        is_b64url_char(b64_symbol(x)),
{
}

proof fn lemma_one_byte(a0: u8, b0: u8)
    by (bit_vector)
    requires
        a0 >> 2 == b0 >> 2,
        (a0 & 3) << 4 == (b0 & 3) << 4,
    ensures
        a0 == b0,
{
}

proof fn lemma_two_bytes(a0: u8, a1: u8, b0: u8, b1: u8)
    by (bit_vector)
    requires
        a0 >> 2 == b0 >> 2,
        ((a0 & 3) << 4) | (a1 >> 4) == ((b0 & 3) << 4) | (b1 >> 4),
        (a1 & 15) << 2 == (b1 & 15) << 2,
    ensures
        a0 == b0,
        a1 == b1,
{
}

proof fn lemma_three_bytes(a0: u8, a1: u8, a2: u8, b0: u8, b1: u8, b2: u8)
    by (bit_vector)
    requires
        a0 >> 2 == b0 >> 2,
        ((a0 & 3) << 4) | (a1 >> 4) == ((b0 & 3) << 4) | (b1 >> 4),
        ((a1 & 15) << 2) | (a2 >> 6) == ((b1 & 15) << 2) | (b2 >> 6),
        a2 & 63 == b2 & 63,
    ensures
        a0 == b0,
        a1 == b1,
        a2 == b2,
{
}

proof fn lemma_sextets_in_range(b0: u8, b1: u8, b2: u8)
    by (bit_vector)
    ensures
        b0 >> 2 < 64,
        (b0 & 3) << 4 < 64,
        ((b0 & 3) << 4) | (b1 >> 4) < 64,
        (b1 & 15) << 2 < 64,
        ((b1 & 15) << 2) | (b2 >> 6) < 64,
        b2 & 63 < 64,
{
}

/// Length of the encoding: four symbols per full group of three bytes, and
/// two or three symbols for a trailing group of one or two bytes.
pub proof fn lemma_base64url_len(b: Seq<u8>)
    ensures
        spec_base64url(b).len() == (b.len() / 3) * 4 + (if b.len() % 3 == 0 {
            0int
        } else {
            (b.len() % 3 + 1) as int
        }),
    decreases b.len(),
{
    if b.len() >= 3 {
        lemma_base64url_len(b.skip(3));
    }
}

/// Every symbol of an encoding is a letter, a digit, `-` or `_` (no `+`, `/`
/// or `=` ever appears).
pub proof fn lemma_base64url_alphabet(b: Seq<u8>)
    ensures
        forall|i: int|
            0 <= i < spec_base64url(b).len() ==> is_b64url_char(#[trigger] spec_base64url(b)[i]),
    decreases b.len(),
{
    if b.len() > 0 {
        let b1: u8 = if b.len() > 1 { b[1] } else { 0 };
        let b2: u8 = if b.len() > 2 { b[2] } else { 0 };
        lemma_sextets_in_range(b[0], b1, b2);
        lemma_symbol_in_alphabet((b[0] >> 2) as int);
        lemma_symbol_in_alphabet(((b[0] & 3) << 4) as int);
        lemma_symbol_in_alphabet((((b[0] & 3) << 4) | (b1 >> 4)) as int);
        lemma_symbol_in_alphabet(((b1 & 15) << 2) as int);
        lemma_symbol_in_alphabet((((b1 & 15) << 2) | (b2 >> 6)) as int);
        lemma_symbol_in_alphabet((b2 & 63) as int);
        if b.len() >= 3 {
            lemma_base64url_alphabet(b.skip(3));
            let e = spec_base64url(b);
            let rest = spec_base64url(b.skip(3));
            assert forall|i: int| 0 <= i < e.len() implies is_b64url_char(#[trigger] e[i]) by {
                if i >= 4 {
                    assert(e[i] == rest[i - 4]);
                }
            }
        }
    }
}

/// Distinct byte strings have distinct encodings.
pub proof fn lemma_base64url_injective(a: Seq<u8>, b: Seq<u8>)
    requires
        spec_base64url(a) == spec_base64url(b),
    ensures
        a == b,
    decreases a.len(),
{
    lemma_base64url_len(a);
    lemma_base64url_len(b);
    assert(a.len() == b.len());
    let ea = spec_base64url(a);
    let eb = spec_base64url(b);
    if a.len() == 0 {
        assert(a =~= b);
    } else {
        let a1: u8 = if a.len() > 1 { a[1] } else { 0 };
        let a2: u8 = if a.len() > 2 { a[2] } else { 0 };
        let b1: u8 = if b.len() > 1 { b[1] } else { 0 };
        let b2: u8 = if b.len() > 2 { b[2] } else { 0 };
        lemma_sextets_in_range(a[0], a1, a2);
        lemma_sextets_in_range(b[0], b1, b2);
        assert(ea[0] == eb[0]);
        assert(ea[1] == eb[1]);
        lemma_symbol_injective((a[0] >> 2) as int, (b[0] >> 2) as int);
        if a.len() == 1 {
            lemma_symbol_injective(((a[0] & 3) << 4) as int, ((b[0] & 3) << 4) as int);
            lemma_one_byte(a[0], b[0]);
            assert(a =~= b);
        } else if a.len() == 2 {
            assert(ea[2] == eb[2]);
            lemma_symbol_injective(
                (((a[0] & 3) << 4) | (a[1] >> 4)) as int,
                (((b[0] & 3) << 4) | (b[1] >> 4)) as int,
            );
            lemma_symbol_injective(((a[1] & 15) << 2) as int, ((b[1] & 15) << 2) as int);
            lemma_two_bytes(a[0], a[1], b[0], b[1]);
            assert(a =~= b);
        } else {
            assert(ea[2] == eb[2]);
            assert(ea[3] == eb[3]);
            lemma_symbol_injective(
                (((a[0] & 3) << 4) | (a[1] >> 4)) as int,
                (((b[0] & 3) << 4) | (b[1] >> 4)) as int,
            );
            lemma_symbol_injective(
                (((a[1] & 15) << 2) | (a[2] >> 6)) as int,
                (((b[1] & 15) << 2) | (b[2] >> 6)) as int,
            );
            lemma_symbol_injective((a[2] & 63) as int, (b[2] & 63) as int);
            lemma_three_bytes(a[0], a[1], a[2], b[0], b[1], b[2]);
            assert(ea.skip(4) =~= spec_base64url(a.skip(3)));
            assert(eb.skip(4) =~= spec_base64url(b.skip(3)));
            lemma_base64url_injective(a.skip(3), b.skip(3));
            assert(a =~= a.take(3) + a.skip(3));
            assert(b =~= b.take(3) + b.skip(3));
            assert(a.take(3) =~= b.take(3));
        }
    }
}

/// Decoding an encoding gives back the encoded bytes.
pub proof fn lemma_base64url_roundtrip(b: Seq<u8>)
    ensures
        spec_base64url_decode(spec_base64url(b)) == Some(b),
{
    let s = spec_base64url(b);
    assert(exists|x: Seq<u8>| spec_base64url(x) == s);
    let c = choose|x: Seq<u8>| spec_base64url(x) == s;
    lemma_base64url_injective(c, b);
}

/// Decode a base64url string and interpret the bytes as UTF-8.
pub fn base64url_decode_to_string(s: &str) -> (r: Result<String, Base64UrlError>)
    ensures
        match spec_base64url_decode(without_padding(s@)) {
            None => r matches Err(Base64UrlError::Decode(_)),
            Some(b) => if valid_utf8(b) {
                r matches Ok(t) && t@ == decode_utf8(b)
            } else {
                r matches Err(Base64UrlError::Utf8(_))
            },
        },
{
    let bytes = match base64url_decode(s) {
        Ok(v) => v,
        Err(e) => {
            return Err(Base64UrlError::Decode(e));
        },
    };
    match string_from_utf8(bytes) {
        Ok(t) => Ok(t),
        Err(e) => Err(Base64UrlError::Utf8(e)),
    }
}

/// Encode the UTF-8 bytes of a string as base64url.
pub fn string_to_base64url(s: &str) -> (r: String)
    ensures
        r@ == spec_base64url(encode_utf8(s@)),
{
    base64url_encode(s.as_bytes())
}

/// Decoding the encoding of a string's UTF-8 bytes gives back the string:
/// `base64url_decode_to_string(string_to_base64url(s))` is `Ok(s)`.
pub proof fn law_string_roundtrip(s: Seq<char>)
    ensures
        spec_base64url_decode(spec_base64url(encode_utf8(s))) == Some(encode_utf8(s)),
        valid_utf8(encode_utf8(s)),
        decode_utf8(encode_utf8(s)) == s,
{
    lemma_base64url_roundtrip(encode_utf8(s));
    encode_utf8_valid_utf8(s);
    encode_utf8_decode_utf8(s);
}

} // verus!
