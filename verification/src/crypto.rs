//! Ed25519 keypairs in the 64-byte (seed and public key) secret format,
//! exchanged as base58 strings, and detached signatures.
use vstd::prelude::*;

verus! {

/// A base58 decoding failure reported by bs58.
#[verifier::external_type_specification]
#[verifier::external_body]
pub struct ExBase58DecodeError(bs58::decode::Error);

/// A signature failure reported by ed25519-dalek.
#[verifier::external_type_specification]
#[verifier::external_body]
pub struct ExSignatureError(ed25519_dalek::SignatureError);

/// Errors that can occur during cryptographic operations.
#[derive(Debug)]
pub enum CryptoError {
    /// Failed to decode a base58-encoded key.
    Base58Decode(bs58::decode::Error),
    /// The secret key has an invalid length.
    InvalidSecretKeyLength(usize),
    /// Ed25519 signature error.
    Ed25519(ed25519_dalek::SignatureError),
}

/// An Ed25519 keypair with base58-encoded public and secret keys.
#[derive(Debug, Clone)]
pub struct Keypair {
    /// Base58-encoded public key.
    pub public_key: String,
    /// Base58-encoded secret key (64 bytes: 32-byte seed + 32-byte public key).
    pub secret_key: String,
}

/// Input type for secret key — either base58-encoded string or raw bytes.
pub enum SecretKeyInput<'a> {
    /// Base58-encoded secret key.
    Base58(&'a str),
    /// Raw secret key bytes.
    Bytes(&'a [u8]),
}

/// The bytes that a string denotes in base58 with the Bitcoin alphabet, as
/// bs58 decodes it; `None` when bs58 rejects the string.
pub uninterp spec fn base58_decoded(s: Seq<char>) -> Option<Seq<u8>>;

/// The base58 text (Bitcoin alphabet) that bs58 produces for some bytes.
pub uninterp spec fn base58_encoded(b: Seq<u8>) -> Seq<char>;

/// The Ed25519 public key of a 32-byte seed, as ed25519-dalek derives it.
pub uninterp spec fn ed25519_public_of(seed: Seq<u8>) -> Seq<u8>;

/// The Ed25519 signature of `message` under a 32-byte seed, as
/// ed25519-dalek computes it (Ed25519 signing is deterministic).
pub uninterp spec fn ed25519_signature_of(seed: Seq<u8>, message: Seq<u8>) -> Seq<u8>;

/// A character of the Bitcoin base58 alphabet (digits but `0`, letters
/// but `I`, `O` and `l`).
pub open spec fn is_base58_char(c: char) -> bool {
    ('1' <= c <= '9') || ('A' <= c <= 'Z' && c != 'I' && c != 'O') || ('a' <= c <= 'z' && c != 'l')
}

/// Decodes base58 text (bs58's `decode(..).into_vec()`); the contract names
/// the result, states that a character outside the Bitcoin alphabet is
/// refused (bs58's invalid-character or non-ASCII-character error), and
/// claims nothing of which error comes back.
#[verifier::external_body]
pub(crate) fn base58_decode(s: &str) -> (r: Result<Vec<u8>, bs58::decode::Error>)
    ensures
        match base58_decoded(s@) {
            Some(b) => r matches Ok(v) && v@ == b,
            None => r is Err,
        },
        (exists|i: int| 0 <= i < s@.len() && !is_base58_char(#[trigger] s@[i])) ==> r is Err,
{
    bs58::decode(s).into_vec()
}

/// Encodes bytes as base58 text (bs58's `encode(..).into_string()`); the
/// contract names the result, and states that bs58's decoding gives the
/// bytes back (leading zero bytes are kept as leading `1`s).
#[verifier::external_body]
pub(crate) fn base58_encode(b: &[u8]) -> (r: String)
    ensures
        r@ == base58_encoded(b@),
        base58_decoded(r@) == Some(b@),
{
    bs58::encode(b).into_string()
}

/// The public key of a 32-byte seed (ed25519-dalek's
/// `SigningKey::from_bytes(..).verifying_key()`): 32 bytes, named.
#[verifier::external_body]
fn ed25519_public_key(seed: &[u8]) -> (r: Vec<u8>)
    requires
        seed@.len() == 32,
    ensures
        r@ == ed25519_public_of(seed@),
        r@.len() == 32,
{
    let s: [u8; 32] = seed.try_into().unwrap();
    ed25519_dalek::SigningKey::from_bytes(&s).verifying_key().to_bytes().to_vec()
}

/// The detached signature of `message` under a 32-byte seed
/// (ed25519-dalek's `SigningKey::sign`): 64 bytes, named.
#[verifier::external_body]
fn ed25519_sign(seed: &[u8], message: &[u8]) -> (r: Vec<u8>)
    requires
        seed@.len() == 32,
    ensures
        r@ == ed25519_signature_of(seed@, message@),
        r@.len() == 64,
{
    let s: [u8; 32] = seed.try_into().unwrap();
    ed25519_dalek::Signer::sign(&ed25519_dalek::SigningKey::from_bytes(&s), message).to_bytes().to_vec()
}

/// A fresh secret seed from the operating system's random source
/// (ed25519-dalek's `SigningKey::generate(&mut OsRng)`); only its length is
/// claimed.
#[verifier::external_body]
fn random_seed() -> (r: Vec<u8>)
    ensures
        r@.len() == 32,
{
    ed25519_dalek::SigningKey::generate(&mut rand::rngs::OsRng).to_bytes().to_vec()
}

/// The keypair of a seed: the base58 public key, and the base58 secret key
/// made of the seed followed by the public key.
pub open spec fn keypair_of_seed(seed: Seq<u8>) -> (Seq<char>, Seq<char>) {
    (base58_encoded(ed25519_public_of(seed)), base58_encoded(seed + ed25519_public_of(seed)))
}

/// The keypair of a seed reads back: its public key is 32 bytes, and its
/// two base58 keys decode to the public key and to the seed followed by
/// the public key.
pub open spec fn keypair_readable(seed: Seq<u8>) -> bool {
    &&& ed25519_public_of(seed).len() == 32
    &&& base58_decoded(keypair_of_seed(seed).0) == Some(ed25519_public_of(seed))
    &&& base58_decoded(keypair_of_seed(seed).1) == Some(seed + ed25519_public_of(seed))
}

/// A keypair made from a 32-byte seed whose keys read back.
pub open spec fn is_generated_keypair(public: Seq<char>, secret: Seq<char>) -> bool {
    exists|seed: Seq<u8>|
        #![trigger keypair_of_seed(seed)]
        seed.len() == 32 && keypair_readable(seed) && (public, secret) == keypair_of_seed(seed)
}

fn keypair_from_seed(seed: &[u8]) -> (r: Keypair)
    requires
        seed@.len() == 32,
    ensures
        (r.public_key@, r.secret_key@) == keypair_of_seed(seed@),
        keypair_readable(seed@),
{
    let public = ed25519_public_key(seed);
    let mut full: Vec<u8> = Vec::new();
    let mut i: usize = 0;
    while i < 32
        invariant
            0 <= i <= 32,
            seed@.len() == 32,
            full@ == seed@.take(i as int),
        decreases 32 - i,
    {
        full.push(seed[i]);
        i = i + 1;
        proof {
            assert(full@ =~= seed@.take(i as int));
        }
    }
    let mut j: usize = 0;
    while j < 32
        invariant
            0 <= j <= 32,
            seed@.len() == 32,
            public@.len() == 32,
            full@ == seed@ + public@.take(j as int),
        decreases 32 - j,
    {
        full.push(public[j]);
        j = j + 1;
        proof {
            assert(full@ =~= seed@ + public@.take(j as int));
        }
    }
    proof {
        assert(seed@.take(32) =~= seed@);
        assert(public@.take(32) =~= public@);
    }
    Keypair { public_key: base58_encode(public.as_slice()), secret_key: base58_encode(full.as_slice()) }
}

/// Generate a new Ed25519 keypair from a fresh random seed; it is the
/// keypair of some 32-byte seed.
pub fn generate_key_pair() -> (r: Keypair)
    ensures
        is_generated_keypair(r.public_key@, r.secret_key@),
{
    let seed = random_seed();
    let r = keypair_from_seed(seed.as_slice());
    proof {
        assert(keypair_of_seed(seed@) == (r.public_key@, r.secret_key@));
    }
    r
}

/// A generated keypair is accepted where a secret key is read: its secret
/// key decodes to 64 bytes whose first 32, the seed, give the same keypair
/// back (so `create_key_pair_from_secret` and `ApiKeyStamper::new` return
/// it unchanged).
pub proof fn law_generated_keypair_is_accepted(public: Seq<char>, secret: Seq<char>)
    requires
        is_generated_keypair(public, secret),
    ensures
        base58_decoded(secret) matches Some(b) && b.len() == 64 && keypair_of_seed(b.take(32)) == (public, secret),
{
    let seed = choose|seed: Seq<u8>|
        #![trigger keypair_of_seed(seed)]
        seed.len() == 32 && keypair_readable(seed) && (public, secret) == keypair_of_seed(seed);
    assert((seed + ed25519_public_of(seed)).take(32) =~= seed);
}

fn first_bytes(b: &[u8], n: usize) -> (r: Vec<u8>)
    requires
        n <= b@.len(),
    ensures
        r@ == b@.take(n as int),
{
    let mut out: Vec<u8> = Vec::new();
    let mut i: usize = 0;
    while i < n
        invariant
            0 <= i <= n <= b@.len(),
            out@ == b@.take(i as int),
        decreases n - i,
    {
        out.push(b[i]);
        i = i + 1;
        proof {
            assert(out@ =~= b@.take(i as int));
        }
    }
    out
}

/// Create a keypair from a base58-encoded 64-byte secret key (seed and
/// public key): the keypair of the first 32 bytes. A key that does not
/// decode, or does not decode to 64 bytes, is refused.
pub fn create_key_pair_from_secret(b58_private_key: &str) -> (r: Result<Keypair, CryptoError>)
    ensures
        match base58_decoded(b58_private_key@) {
            None => r matches Err(CryptoError::Base58Decode(_)),
            Some(b) => if b.len() == 64 {
                r matches Ok(k) && (k.public_key@, k.secret_key@) == keypair_of_seed(b.take(32)) && keypair_readable(
                    b.take(32),
                )
            } else {
                r matches Err(CryptoError::InvalidSecretKeyLength(n)) && n == b.len()
            },
        },
{
    let secret_bytes = match base58_decode(b58_private_key) {
        Ok(b) => b,
        Err(e) => return Err(CryptoError::Base58Decode(e)),
    };
    if secret_bytes.len() != 64 {
        return Err(CryptoError::InvalidSecretKeyLength(secret_bytes.len()));
    }
    let seed = first_bytes(secret_bytes.as_slice(), 32);
    Ok(keypair_from_seed(seed.as_slice()))
}

/// The secret key bytes of an input, when it can be read: the raw bytes,
/// or the base58 decoding.
pub open spec fn secret_input_bytes(k: SecretKeyInput) -> Option<Seq<u8>> {
    match k {
        SecretKeyInput::Base58(s) => base58_decoded(s@),
        SecretKeyInput::Bytes(b) => Some(b@),
    }
}

/// Sign data using Ed25519 with a 64-byte secret key (detached signature):
/// the signature under its first 32 bytes, the seed.
pub fn sign_with_secret(secret_key: &SecretKeyInput, data: &[u8]) -> (r: Result<Vec<u8>, CryptoError>)
    ensures
        match secret_input_bytes(*secret_key) {
            None => r matches Err(CryptoError::Base58Decode(_)),
            Some(b) => if b.len() == 64 {
                r matches Ok(sig) && sig@ == ed25519_signature_of(b.take(32), data@)
            } else {
                r matches Err(CryptoError::InvalidSecretKeyLength(n)) && n == b.len()
            },
        },
{
    let secret_bytes: Vec<u8> = match secret_key {
        SecretKeyInput::Base58(s) => match base58_decode(s) {
            Ok(b) => b,
            Err(e) => return Err(CryptoError::Base58Decode(e)),
        },
        SecretKeyInput::Bytes(b) => first_bytes(b, b.len()),
    };
    proof {
        if let SecretKeyInput::Bytes(b) = *secret_key {
            assert(b@.take(b@.len() as int) =~= b@);
        }
    }
    if secret_bytes.len() != 64 {
        return Err(CryptoError::InvalidSecretKeyLength(secret_bytes.len()));
    }
    let seed = first_bytes(secret_bytes.as_slice(), 32);
    Ok(ed25519_sign(seed.as_slice(), data))
}

} // verus!
