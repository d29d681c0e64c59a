//! Values exchanged with Solana and Ethereum chains, and the conversions of
//! serialized Solana transactions between bytes and their text forms.
//!
//! Standard base64 (RFC 4648 §4, with padding) is done by the `base64`
//! crate's `STANDARD` engine and base58 by `bs58`; the base64 contracts
//! state the encoding itself, and its round trip is proved here.
use vstd::prelude::*;
use crate::crypto::{base58_decode, base58_decoded, base58_encode, base58_encoded};
use crate::text::{chars_of, push_str, string_from_chars};

verus! {

/// Options for connecting to a Solana wallet.
#[derive(Debug, Clone, Default)]
pub struct SolanaConnectOptions {
    /// Only connect if the user has previously approved the connection.
    pub only_if_trusted: Option<bool>,
}

/// Result of a successful Solana connection.
#[derive(Debug, Clone)]
pub struct SolanaConnectResult {
    /// Base58-encoded public key of the connected wallet.
    pub public_key: String,
}

/// Result of signing a message on Solana.
#[derive(Debug, Clone)]
pub struct SolanaSignMessageResult {
    /// The detached Ed25519 signature.
    pub signature: Vec<u8>,
    /// Base58-encoded public key that produced the signature.
    pub public_key: String,
}

/// Result of signing and sending a transaction on Solana.
#[derive(Debug, Clone)]
pub struct SolanaSendTransactionResult {
    /// Base58-encoded transaction signature.
    pub signature: String,
}

/// Result of signing and sending several transactions on Solana.
#[derive(Debug, Clone)]
pub struct SolanaSendAllTransactionsResult {
    /// Base58-encoded transaction signatures.
    pub signatures: Vec<String>,
}

/// A Solana network to switch to.
#[derive(Debug, Clone, Copy, PartialEq, Eq, Structural)]
pub enum SolanaNetwork {
    Mainnet,
    Devnet,
}

/// Sign In With Solana input; every field is optional, the wallet fills in
/// defaults.
#[derive(Debug, Clone, Default)]
pub struct SolanaSignInInput {
    pub domain: Option<String>,
    pub address: Option<String>,
    pub statement: Option<String>,
    pub uri: Option<String>,
    pub version: Option<String>,
    pub chain_id: Option<String>,
    pub nonce: Option<String>,
    pub issued_at: Option<String>,
    pub expiration_time: Option<String>,
    pub not_before: Option<String>,
    pub request_id: Option<String>,
    pub resources: Option<Vec<String>>,
}

/// Result of a Solana sign-in.
#[derive(Debug, Clone)]
pub struct SolanaSignInOutput {
    /// The base58-encoded address that signed in.
    pub address: String,
    /// The Ed25519 signature bytes.
    pub signature: Vec<u8>,
    /// The signed message bytes.
    pub signed_message: Vec<u8>,
}

/// Ethereum transaction request parameters (hex-encoded quantities).
#[derive(Debug, Clone, Default)]
pub struct EthTransactionRequest {
    pub to: Option<String>,
    pub from: Option<String>,
    pub value: Option<String>,
    pub gas: Option<String>,
    pub gas_price: Option<String>,
    pub max_fee_per_gas: Option<String>,
    pub max_priority_fee_per_gas: Option<String>,
    pub data: Option<String>,
    pub nonce: Option<String>,
    pub tx_type: Option<String>,
    pub chain_id: Option<String>,
}

/// The standard base64 alphabet symbol of a 6-bit value.
pub open spec fn std_symbol(v: int) -> char {
    if v < 26 {
        (65 + v) as char
    } else if v < 52 {
        (97 + v - 26) as char
    } else if v < 62 {
        (48 + v - 52) as char
    } else if v == 62 {
        '+'
    } else {
        '/'
    }
}

/// Standard base64 (RFC 4648 §4) of `b`, padded with `=` to a multiple of
/// four symbols.
pub open spec fn spec_base64(b: Seq<u8>) -> Seq<char>
    decreases b.len(),
{
    if b.len() == 0 {
        seq![]
    } else if b.len() == 1 {
        seq![std_symbol((b[0] >> 2) as int), std_symbol(((b[0] & 3) << 4) as int), '=', '=']
    } else if b.len() == 2 {
        seq![
            std_symbol((b[0] >> 2) as int),
            std_symbol((((b[0] & 3) << 4) | (b[1] >> 4)) as int),
            std_symbol(((b[1] & 15) << 2) as int),
            '=',
        ]
    } else {
        seq![
            std_symbol((b[0] >> 2) as int),
            std_symbol((((b[0] & 3) << 4) | (b[1] >> 4)) as int),
            std_symbol((((b[1] & 15) << 2) | (b[2] >> 6)) as int),
            std_symbol((b[2] & 63) as int),
        ] + spec_base64(b.skip(3))
    }
}

/// Standard base64 with padding (`base64`'s `STANDARD` engine). The
/// contract states the RFC 4648 encoding. The engine panics only when the
/// output length overflows `usize`; no slice is that long.
#[verifier::external_body]
fn base64_encode(data: &[u8]) -> (r: String)
    ensures
        r@ == spec_base64(data@),
{
    base64::Engine::encode(&base64::engine::general_purpose::STANDARD, data)
}

/// Decode standard base64 (`base64`'s `STANDARD` engine, which requires
/// canonical padding and zero trailing bits): it succeeds exactly on the
/// encodings of byte strings. On failure the text of the `DecodeError` is
/// returned; what it says is not stated.
#[verifier::external_body]
fn base64_decode(s: &str) -> (r: Result<Vec<u8>, String>)
    ensures
        r matches Ok(v) ==> spec_base64(v@) == s@,
        r is Err ==> forall|b: Seq<u8>| spec_base64(b) != s@,
{
    base64::Engine::decode(&base64::engine::general_purpose::STANDARD, s).map_err(|e| e.to_string())
}

/// The text of a base58 decoding error (its `Display`); what it says is not
/// stated.
#[verifier::external_body]
fn base58_error_text(e: &bs58::decode::Error) -> (r: String) {
    e.to_string()
}

proof fn lemma_std_symbol_injective(x: int, y: int)
    requires
        0 <= x < 64,
        0 <= y < 64,
        std_symbol(x) == std_symbol(y),
    ensures
        x == y,
{
}

proof fn lemma_one_byte(a0: u8, b0: u8)
    by (bit_vector)
    requires
        a0 >> 2 == b0 >> 2,
        (a0 & 3) << 4 == (b0 & 3) << 4,
    ensures
        a0 == b0,
{
}

proof fn lemma_two_bytes(a0: u8, a1: u8, b0: u8, b1: u8)
    by (bit_vector)
    requires
        a0 >> 2 == b0 >> 2,
        ((a0 & 3) << 4) | (a1 >> 4) == ((b0 & 3) << 4) | (b1 >> 4),
        (a1 & 15) << 2 == (b1 & 15) << 2,
    ensures
        a0 == b0,
        a1 == b1,
{
}

proof fn lemma_three_bytes(a0: u8, a1: u8, a2: u8, b0: u8, b1: u8, b2: u8)
    by (bit_vector)
    requires
        a0 >> 2 == b0 >> 2,
        ((a0 & 3) << 4) | (a1 >> 4) == ((b0 & 3) << 4) | (b1 >> 4),
        ((a1 & 15) << 2) | (a2 >> 6) == ((b1 & 15) << 2) | (b2 >> 6),
        a2 & 63 == b2 & 63,
    ensures
        a0 == b0,
        a1 == b1,
        a2 == b2,
{
}

proof fn lemma_sextets_in_range(b0: u8, b1: u8, b2: u8)
    by (bit_vector)
    ensures
        b0 >> 2 < 64,
        (b0 & 3) << 4 < 64,
        ((b0 & 3) << 4) | (b1 >> 4) < 64,
        (b1 & 15) << 2 < 64,
        ((b1 & 15) << 2) | (b2 >> 6) < 64,
        b2 & 63 < 64,
{
}

/// The first four symbols of a non-empty encoding: padding at index 2
/// exactly for one byte, at index 3 exactly for one or two bytes.
proof fn lemma_first_group(b: Seq<u8>)
    requires
        b.len() > 0,
    ensures
        spec_base64(b).len() >= 4,
        (spec_base64(b)[2] == '=') == (b.len() == 1),
        (spec_base64(b)[3] == '=') == (b.len() <= 2),
{
    let b1: u8 = if b.len() > 1 { b[1] } else { 0 };
    let b2: u8 = if b.len() > 2 { b[2] } else { 0 };
    lemma_sextets_in_range(b[0], b1, b2);
    if b.len() >= 3 {
        assert(spec_base64(b)[2] == std_symbol((((b[1] & 15) << 2) | (b[2] >> 6)) as int));
        assert(spec_base64(b)[3] == std_symbol((b[2] & 63) as int));
    }
}

/// Distinct byte strings have distinct standard base64 encodings.
pub proof fn lemma_base64_injective(a: Seq<u8>, b: Seq<u8>)
    requires
        spec_base64(a) == spec_base64(b),
    ensures
        a == b,
    decreases a.len(),
{
    let ea = spec_base64(a);
    let eb = spec_base64(b);
    if a.len() == 0 || b.len() == 0 {
        if a.len() > 0 {
            lemma_first_group(a);
        }
        if b.len() > 0 {
            lemma_first_group(b);
        }
        assert(a =~= b);
    } else {
        lemma_first_group(a);
        lemma_first_group(b);
        let a1: u8 = if a.len() > 1 { a[1] } else { 0 };
        let a2: u8 = if a.len() > 2 { a[2] } else { 0 };
        let b1: u8 = if b.len() > 1 { b[1] } else { 0 };
        let b2: u8 = if b.len() > 2 { b[2] } else { 0 };
        lemma_sextets_in_range(a[0], a1, a2);
        lemma_sextets_in_range(b[0], b1, b2);
        assert(ea[2] == eb[2]);
        assert(ea[3] == eb[3]);
        assert(ea[0] == std_symbol((a[0] >> 2) as int));
        assert(eb[0] == std_symbol((b[0] >> 2) as int));
        assert(ea[0] == eb[0]);
        assert(ea[1] == eb[1]);
        lemma_std_symbol_injective((a[0] >> 2) as int, (b[0] >> 2) as int);
        if a.len() == 1 {
            lemma_std_symbol_injective(((a[0] & 3) << 4) as int, ((b[0] & 3) << 4) as int);
            lemma_one_byte(a[0], b[0]);
            assert(a =~= b);
        } else if a.len() == 2 {
            assert(b.len() == 2);
            assert(ea[1] == std_symbol((((a[0] & 3) << 4) | (a[1] >> 4)) as int));
            assert(eb[1] == std_symbol((((b[0] & 3) << 4) | (b[1] >> 4)) as int));
            lemma_std_symbol_injective(
                (((a[0] & 3) << 4) | (a[1] >> 4)) as int,
                (((b[0] & 3) << 4) | (b[1] >> 4)) as int,
            );
            lemma_std_symbol_injective(((a[1] & 15) << 2) as int, ((b[1] & 15) << 2) as int);
            lemma_two_bytes(a[0], a[1], b[0], b[1]);
            assert(a =~= b);
        } else {
            assert(b.len() >= 3);
            assert(ea[1] == std_symbol((((a[0] & 3) << 4) | (a[1] >> 4)) as int));
            assert(eb[1] == std_symbol((((b[0] & 3) << 4) | (b[1] >> 4)) as int));
            assert(ea[2] == std_symbol((((a[1] & 15) << 2) | (a[2] >> 6)) as int));
            assert(eb[2] == std_symbol((((b[1] & 15) << 2) | (b[2] >> 6)) as int));
            assert(ea[3] == std_symbol((a[2] & 63) as int));
            assert(eb[3] == std_symbol((b[2] & 63) as int));
            lemma_std_symbol_injective(
                (((a[0] & 3) << 4) | (a[1] >> 4)) as int,
                (((b[0] & 3) << 4) | (b[1] >> 4)) as int,
            );
            lemma_std_symbol_injective(
                (((a[1] & 15) << 2) | (a[2] >> 6)) as int,
                (((b[1] & 15) << 2) | (b[2] >> 6)) as int,
            );
            lemma_std_symbol_injective((a[2] & 63) as int, (b[2] & 63) as int);
            lemma_three_bytes(a[0], a[1], a[2], b[0], b[1], b[2]);
            assert(ea.skip(4) =~= spec_base64(a.skip(3)));
            assert(eb.skip(4) =~= spec_base64(b.skip(3)));
            lemma_base64_injective(a.skip(3), b.skip(3));
            assert(a =~= a.take(3) + a.skip(3));
            assert(b =~= b.take(3) + b.skip(3));
            assert(a.take(3) =~= b.take(3));
        }
    }
}

/// The bytes whose standard base64 encoding is `s`, when there are any.
pub open spec fn spec_base64_decode(s: Seq<char>) -> Option<Seq<u8>> {
    if exists|b: Seq<u8>| spec_base64(b) == s {
        Some(choose|b: Seq<u8>| spec_base64(b) == s)
    } else {
        None
    }
}

/// Decoding an encoding gives back the encoded bytes.
proof fn lemma_base64_roundtrip(b: Seq<u8>)
    ensures
        spec_base64_decode(spec_base64(b)) == Some(b),
{
    let s = spec_base64(b);
    assert(exists|x: Seq<u8>| spec_base64(x) == s);
    let c = choose|x: Seq<u8>| spec_base64(x) == s;
    lemma_base64_injective(c, b);
}

/// Conversions of serialized Solana transactions.
pub struct SolanaTransaction;

impl SolanaTransaction {
    /// Decode a standard base64 transaction; the error reads
    /// "Invalid base64 transaction: " and the decoder's message.
    pub fn from_base64(encoded: &str) -> (r: Result<Vec<u8>, String>)
        ensures
            match spec_base64_decode(encoded@) {
                Some(b) => r matches Ok(v) && v@ == b,
                None => r matches Err(m) && m@.len() >= 28 && m@.take(28) == "Invalid base64 transaction: "@,
            },
    {
        match base64_decode(encoded) {
            Ok(v) => {
                proof {
                    lemma_base64_roundtrip(v@);
                }
                Ok(v)
            },
            Err(e) => {
                let mut m = chars_of("Invalid base64 transaction: ");
                proof {
                    reveal_strlit("Invalid base64 transaction: ");
                }
                let ghost prefix = m@;
                push_str(&mut m, e.as_str());
                assert(m@.take(28) =~= prefix);
                Err(string_from_chars(m.as_slice()))
            },
        }
    }

    /// Decode a base58 transaction; the error reads
    /// "Invalid base58 transaction: " and the decoder's message.
    pub fn from_base58(encoded: &str) -> (r: Result<Vec<u8>, String>)
        ensures
            match base58_decoded(encoded@) {
                Some(b) => r matches Ok(v) && v@ == b,
                None => r matches Err(m) && m@.len() >= 28 && m@.take(28) == "Invalid base58 transaction: "@,
            },
    {
        match base58_decode(encoded) {
            Ok(v) => Ok(v),
            Err(e) => {
                let t = base58_error_text(&e);
                let mut m = chars_of("Invalid base58 transaction: ");
                proof {
                    reveal_strlit("Invalid base58 transaction: ");
                }
                let ghost prefix = m@;
                push_str(&mut m, t.as_str());
                assert(m@.take(28) =~= prefix);
                Err(string_from_chars(m.as_slice()))
            },
        }
    }

    /// Encode transaction bytes as standard base64.
    pub fn to_base64(bytes: &[u8]) -> (r: String)
        ensures
            r@ == spec_base64(bytes@),
    {
        base64_encode(bytes)
    }

    /// Encode transaction bytes as base58.
    pub fn to_base58(bytes: &[u8]) -> (r: String)
        ensures
            r@ == base58_encoded(bytes@),
    {
        base58_encode(bytes)
    }
}

/// Decoding the base64 form of a transaction gives back its bytes:
/// `from_base64(&to_base64(b))` is `Ok(b)`.
pub proof fn law_base64_transaction_roundtrip(b: Seq<u8>)
    ensures
        spec_base64_decode(spec_base64(b)) == Some(b),
{
    lemma_base64_roundtrip(b);
}

} // verus!
