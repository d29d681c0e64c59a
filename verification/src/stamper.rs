//! The API key stamper: it signs request bodies with a pre-existing Ed25519
//! secret key and produces the `X-Phantom-Stamp` header value, a base64url
//! encoded JSON document holding the public key and the signature.
use vstd::prelude::*;
use vstd::utf8::encode_utf8;
use crate::authenticators::{Algorithm, DEFAULT_AUTHENTICATOR_ALGORITHM};
use crate::base64url::{base64url_encode, spec_base64url};
use crate::crypto::{
    CryptoError, Keypair, SecretKeyInput, base58_decode, base58_decoded, create_key_pair_from_secret,
    ed25519_public_of, ed25519_signature_of, keypair_of_seed, keypair_readable, sign_with_secret,
};
use crate::text::{chars_of, contains_seq, hex_lower, hex_lower_of, lemma_contains_middle, push_str, string_from_chars};

verus! {

/// Configuration for the API key stamper.
#[derive(Debug, Clone)]
pub struct ApiKeyStamperConfig {
    /// Base58-encoded API secret key.
    pub api_secret_key: String,
}

/// The kinds of stamps.
#[derive(Debug, Clone, Copy, PartialEq, Eq, Structural)]
pub enum StamperType {
    /// A signature by the stamper's key.
    Pki,
    /// A signature bound to an OpenID Connect ID token.
    Oidc,
}

/// What a stamp is made over.
#[derive(Debug, Clone)]
pub enum StampParams {
    /// Sign the data.
    Pki { data: Vec<u8> },
    /// Sign the data for an ID token and salt.
    Oidc { data: Vec<u8>, id_token: String, salt: String },
}

/// Why a stamp could not be made.
#[derive(Debug)]
pub enum StampError {
    /// Signing with the secret key failed.
    Crypto(CryptoError),
    /// The public key is not valid base58.
    PublicKey(bs58::decode::Error),
}

/// Simple stamper that signs requests using a pre-existing Ed25519 secret key.
pub struct ApiKeyStamper {
    keypair: Keypair,
}

impl View for ApiKeyStamper {
    type V = (Seq<char>, Seq<char>);

    /// The base58 public and secret keys.
    closed spec fn view(&self) -> (Seq<char>, Seq<char>) {
        (self.keypair.public_key@, self.keypair.secret_key@)
    }
}

/// The JSON escape sequence of a character, as serde_json writes strings:
/// quote, backslash and the ASCII control characters are escaped, every
/// other character is written as it is.
pub open spec fn json_char(c: char) -> Seq<char> {
    let u = c as u32;
    if c == '"' {
        "\\\""@
    } else if c == '\\' {
        "\\\\"@
    } else if u == 8 {
        "\\b"@
    } else if u == 9 {
        "\\t"@
    } else if u == 10 {
        "\\n"@
    } else if u == 12 {
        "\\f"@
    } else if u == 13 {
        "\\r"@
    } else if u < 32 {
        seq!['\\', 'u', '0', '0', hex_lower(u as int / 16), hex_lower(u as int % 16)]
    } else {
        seq![c]
    }
}

/// The escaped characters of a JSON string body.
pub open spec fn json_escaped(s: Seq<char>) -> Seq<char>
    decreases s.len(),
{
    if s.len() == 0 {
        Seq::<char>::empty()
    } else {
        json_escaped(s.drop_last()) + json_char(s.last())
    }
}

/// A JSON string literal.
pub open spec fn json_string(s: Seq<char>) -> Seq<char> {
    seq!['"'] + json_escaped(s) + seq!['"']
}

fn push_json_char(out: &mut Vec<char>, c: char)
    ensures
        final(out)@ == old(out)@ + json_char(c),
{
    let u: u32 = c as u32;
    if c == '"' {
        push_str(out, "\\\"");
    } else if c == '\\' {
        push_str(out, "\\\\");
    } else if u == 8 {
        push_str(out, "\\b");
    } else if u == 9 {
        push_str(out, "\\t");
    } else if u == 10 {
        push_str(out, "\\n");
    } else if u == 12 {
        push_str(out, "\\f");
    } else if u == 13 {
        push_str(out, "\\r");
    } else if u < 32 {
        let b: u8 = u as u8;
        out.push('\\');
        out.push('u');
        out.push('0');
        out.push('0');
        out.push(hex_lower_of(b / 16));
        out.push(hex_lower_of(b % 16));
        proof {
            assert(out@ =~= old(out)@ + json_char(c));
        }
    } else {
        out.push(c);
        proof {
            assert(out@ =~= old(out)@ + json_char(c));
        }
    }
}

/// Appends `s` as a JSON string literal.
fn push_json_string(out: &mut Vec<char>, s: &str)
    ensures
        final(out)@ == old(out)@ + json_string(s@),
{
    let c = chars_of(s);
    out.push('"');
    let ghost start = out@;
    let mut i: usize = 0;
    proof {
        assert(c@.take(0) =~= Seq::<char>::empty());
        assert(start + json_escaped(c@.take(0)) =~= start);
    }
    while i < c.len()
        invariant
            0 <= i <= c@.len(),
            out@ == start + json_escaped(c@.take(i as int)),
        decreases c@.len() - i,
    {
        push_json_char(out, c[i]);
        proof {
            assert(c@.take(i + 1).drop_last() =~= c@.take(i as int));
            assert(c@.take(i + 1).last() == c@[i as int]);
            assert(out@ =~= start + json_escaped(c@.take(i + 1)));
        }
        i = i + 1;
    }
    out.push('"');
    proof {
        assert(c@.take(c@.len() as int) =~= c@);
        assert(out@ =~= old(out)@ + json_string(s@));
    }
}

/// The JSON document of a stamp with the given base64url public key and signature.
pub open spec fn stamp_json(params: StampParams, public_key: Seq<char>, signature: Seq<char>) -> Seq<char> {
    match params {
        StampParams::Pki { .. } => "{\"publicKey\":"@ + json_string(public_key) + ",\"signature\":"@
            + json_string(signature) + ",\"kind\":\"PKI\",\"algorithm\":\"Ed25519\"}"@,
        StampParams::Oidc { id_token, salt, .. } => "{\"kind\":\"OIDC\",\"idToken\":"@ + json_string(
            id_token@,
        ) + ",\"publicKey\":"@ + json_string(public_key) + ",\"salt\":"@ + json_string(salt@)
            + ",\"algorithm\":\"Ed25519\",\"signature\":"@ + json_string(signature) + "}"@,
    }
}

/// The data a stamp signs.
pub open spec fn stamp_data(params: StampParams) -> Seq<u8> {
    match params {
        StampParams::Pki { data } => data@,
        StampParams::Oidc { data, .. } => data@,
    }
}

/// The stamp of `params` made with the base58 keypair `(public, secret)`:
/// the base64url encoding of the stamp JSON, which holds the base64url
/// public key and the base64url signature under the secret key's seed.
pub open spec fn stamp_text(params: StampParams, public: Seq<char>, secret: Seq<char>) -> Option<Seq<char>> {
    match (base58_decoded(secret), base58_decoded(public)) {
        (Some(s), Some(p)) => if s.len() == 64 {
            Some(
                spec_base64url(
                    encode_utf8(
                        stamp_json(
                            params,
                            spec_base64url(p),
                            spec_base64url(ed25519_signature_of(s.take(32), stamp_data(params))),
                        ),
                    ),
                ),
            )
        } else {
            None
        },
        _ => None,
    }
}

/// A stamp carries the signature that signing its data with the stamper's
/// secret key gives: for the keypair of a seed, the stamp holds the
/// base64url public key and the base64url signature of the data under the
/// seed, and the secret key decodes to 64 bytes whose first 32 are that
/// seed (the key `sign_with_secret` signs with).
pub proof fn law_stamp_signs_with_secret_key(seed: Seq<u8>, params: StampParams)
    requires
        seed.len() == 32,
        keypair_readable(seed),
    ensures
        stamp_text(params, keypair_of_seed(seed).0, keypair_of_seed(seed).1) == Some(
            spec_base64url(
                encode_utf8(
                    stamp_json(
                        params,
                        spec_base64url(ed25519_public_of(seed)),
                        spec_base64url(ed25519_signature_of(seed, stamp_data(params))),
                    ),
                ),
            ),
        ),
        base58_decoded(keypair_of_seed(seed).1) matches Some(b) && b.len() == 64 && b.take(32) == seed,
{
    assert((seed + ed25519_public_of(seed)).take(32) =~= seed);
}

/// In a stamp of either kind, the `publicKey` field holds exactly the
/// public key it was given and the `signature` field exactly the signature:
/// the two are never exchanged or dropped, whatever the other fields hold.
pub proof fn law_stamp_fields(params: StampParams, public_key: Seq<char>, signature: Seq<char>)
    ensures
        contains_seq(stamp_json(params, public_key, signature), "\"publicKey\":"@ + json_string(public_key)),
        contains_seq(stamp_json(params, public_key, signature), "\"signature\":"@ + json_string(signature)),
{
    let pk = json_string(public_key);
    let sig = json_string(signature);
    let pkey = "\"publicKey\":"@;
    let skey = "\"signature\":"@;
    reveal_strlit("\"publicKey\":");
    reveal_strlit("\"signature\":");
    reveal_strlit("{\"publicKey\":");
    reveal_strlit(",\"signature\":");
    reveal_strlit(",\"publicKey\":");
    reveal_strlit(",\"algorithm\":\"Ed25519\",\"signature\":");
    reveal_strlit(",\"algorithm\":\"Ed25519\",");
    let j = stamp_json(params, public_key, signature);
    match params {
        StampParams::Pki { .. } => {
            let tail = ",\"kind\":\"PKI\",\"algorithm\":\"Ed25519\"}"@;
            assert("{\"publicKey\":"@ =~= seq!['{'] + pkey);
            assert(",\"signature\":"@ =~= seq![','] + skey);
            assert(j =~= seq!['{'] + (pkey + pk) + (",\"signature\":"@ + sig + tail));
            lemma_contains_middle(seq!['{'], pkey + pk, ",\"signature\":"@ + sig + tail);
            assert(j =~= ("{\"publicKey\":"@ + pk + seq![',']) + (skey + sig) + tail);
            lemma_contains_middle("{\"publicKey\":"@ + pk + seq![','], skey + sig, tail);
        },
        StampParams::Oidc { id_token, salt, .. } => {
            let head = "{\"kind\":\"OIDC\",\"idToken\":"@ + json_string(id_token@);
            let mid = ",\"salt\":"@ + json_string(salt@);
            assert(",\"publicKey\":"@ =~= seq![','] + pkey);
            assert(",\"algorithm\":\"Ed25519\",\"signature\":"@ =~= ",\"algorithm\":\"Ed25519\","@ + skey);
            assert(j =~= (head + seq![',']) + (pkey + pk) + (mid + ",\"algorithm\":\"Ed25519\",\"signature\":"@
                + sig + "}"@));
            lemma_contains_middle(head + seq![','], pkey + pk, mid + ",\"algorithm\":\"Ed25519\",\"signature\":"@
                + sig + "}"@);
            assert(j =~= (head + ",\"publicKey\":"@ + pk + mid + ",\"algorithm\":\"Ed25519\","@) + (skey + sig)
                + "}"@);
            lemma_contains_middle(head + ",\"publicKey\":"@ + pk + mid + ",\"algorithm\":\"Ed25519\","@, skey + sig,
                "}"@);
        },
    }
}

proof fn lemma_pki_stamp_fields(params: StampParams, public_key: Seq<char>, signature: Seq<char>)
    requires
        params is Pki,
    ensures
        contains_seq(stamp_json(params, public_key, signature), "\"kind\":\"PKI\""@),
        contains_seq(stamp_json(params, public_key, signature), "\"algorithm\":\"Ed25519\""@),
{
    let pk = json_string(public_key);
    let sig = json_string(signature);
    let j = stamp_json(params, public_key, signature);
    let tail = ",\"kind\":\"PKI\",\"algorithm\":\"Ed25519\"}"@;
    assert(j == "{\"publicKey\":"@ + pk + ",\"signature\":"@ + sig + tail);
    reveal_strlit(",\"kind\":\"PKI\",\"algorithm\":\"Ed25519\"}");
    reveal_strlit("\"kind\":\"PKI\"");
    reveal_strlit("\"algorithm\":\"Ed25519\"");
    let front = "{\"publicKey\":"@ + pk + ",\"signature\":"@ + sig;
    assert(tail =~= seq![','] + "\"kind\":\"PKI\""@ + seq![','] + "\"algorithm\":\"Ed25519\""@ + seq!['}']);
    assert(j =~= (front + seq![',']) + "\"kind\":\"PKI\""@ + (seq![','] + "\"algorithm\":\"Ed25519\""@
        + seq!['}']));
    lemma_contains_middle(front + seq![','], "\"kind\":\"PKI\""@, seq![','] + "\"algorithm\":\"Ed25519\""@
        + seq!['}']);
    assert(j =~= (front + seq![','] + "\"kind\":\"PKI\""@ + seq![',']) + "\"algorithm\":\"Ed25519\""@
        + seq!['}']);
    lemma_contains_middle(front + seq![','] + "\"kind\":\"PKI\""@ + seq![','], "\"algorithm\":\"Ed25519\""@,
        seq!['}']);
}

#[verifier::rlimit(30)]
proof fn lemma_oidc_stamp_fields(params: StampParams, public_key: Seq<char>, signature: Seq<char>)
    requires
        params is Oidc,
    ensures
        params matches StampParams::Oidc { id_token, salt, .. } && {
            &&& contains_seq(stamp_json(params, public_key, signature), "\"kind\":\"OIDC\""@)
            &&& contains_seq(stamp_json(params, public_key, signature), "\"idToken\":"@ + json_string(id_token@))
            &&& contains_seq(stamp_json(params, public_key, signature), "\"salt\":"@ + json_string(salt@))
            &&& contains_seq(stamp_json(params, public_key, signature), "\"algorithm\":\"Ed25519\""@)
        },
{
    let pk = json_string(public_key);
    let sig = json_string(signature);
    let skey = "\"signature\":"@;
    let j = stamp_json(params, public_key, signature);
    reveal_strlit("\"signature\":");
    reveal_strlit(",\"algorithm\":\"Ed25519\",\"signature\":");
    reveal_strlit(",\"publicKey\":");
    reveal_strlit(",\"algorithm\":\"Ed25519\",");
    let id_token = params->id_token;
    let salt = params->salt;
    let head = "{\"kind\":\"OIDC\",\"idToken\":"@ + json_string(id_token@);
    let mid = ",\"salt\":"@ + json_string(salt@);
    assert(",\"algorithm\":\"Ed25519\",\"signature\":"@ =~= ",\"algorithm\":\"Ed25519\","@ + skey);
    reveal_strlit("{\"kind\":\"OIDC\",\"idToken\":");
    reveal_strlit("\"kind\":\"OIDC\"");
    reveal_strlit("\"idToken\":");
    reveal_strlit(",\"salt\":");
    reveal_strlit("\"salt\":");
    reveal_strlit("\"algorithm\":\"Ed25519\"");
    reveal_strlit("}");
    let it = json_string(id_token@);
    let sl = json_string(salt@);
    let rest = ",\"publicKey\":"@ + pk + mid + ",\"algorithm\":\"Ed25519\",\"signature\":"@ + sig + "}"@;
    assert("{\"kind\":\"OIDC\",\"idToken\":"@ =~= seq!['{'] + "\"kind\":\"OIDC\""@ + seq![','] + "\"idToken\":"@);
    assert(j =~= seq!['{'] + "\"kind\":\"OIDC\""@ + (seq![','] + "\"idToken\":"@ + it + rest));
    lemma_contains_middle(seq!['{'], "\"kind\":\"OIDC\""@, seq![','] + "\"idToken\":"@ + it + rest);
    assert(j =~= (seq!['{'] + "\"kind\":\"OIDC\""@ + seq![',']) + ("\"idToken\":"@ + it) + rest);
    lemma_contains_middle(seq!['{'] + "\"kind\":\"OIDC\""@ + seq![','], "\"idToken\":"@ + it, rest);
    let before_salt = head + ",\"publicKey\":"@ + pk;
    let after_salt = ",\"algorithm\":\"Ed25519\",\"signature\":"@ + sig + "}"@;
    assert(",\"salt\":"@ =~= seq![','] + "\"salt\":"@);
    assert(j =~= (before_salt + seq![',']) + ("\"salt\":"@ + sl) + after_salt);
    lemma_contains_middle(before_salt + seq![','], "\"salt\":"@ + sl, after_salt);
    assert(",\"algorithm\":\"Ed25519\","@ =~= seq![','] + "\"algorithm\":\"Ed25519\""@ + seq![',']);
    assert(j =~= (before_salt + mid + seq![',']) + "\"algorithm\":\"Ed25519\""@ + (seq![','] + skey + sig
        + "}"@));
    lemma_contains_middle(before_salt + mid + seq![','], "\"algorithm\":\"Ed25519\""@, seq![','] + skey + sig
        + "}"@);
}

/// Both kinds of stamp name the `Ed25519` algorithm and their own kind
/// (`PKI` or `OIDC`); an OIDC stamp carries its ID token and salt as given;
/// and the data that is signed is the data of the parameters, for either
/// kind.
pub proof fn law_stamp_kind_fields(params: StampParams, public_key: Seq<char>, signature: Seq<char>)
    ensures
        contains_seq(stamp_json(params, public_key, signature), "\"algorithm\":\"Ed25519\""@),
        params is Pki ==> contains_seq(stamp_json(params, public_key, signature), "\"kind\":\"PKI\""@),
        params matches StampParams::Oidc { id_token, salt, .. } ==> {
            &&& contains_seq(stamp_json(params, public_key, signature), "\"kind\":\"OIDC\""@)
            &&& contains_seq(stamp_json(params, public_key, signature), "\"idToken\":"@ + json_string(id_token@))
            &&& contains_seq(stamp_json(params, public_key, signature), "\"salt\":"@ + json_string(salt@))
        },
        params matches StampParams::Pki { data } ==> stamp_data(params) == data@,
        params matches StampParams::Oidc { data, .. } ==> stamp_data(params) == data@,
{
    if params is Pki {
        lemma_pki_stamp_fields(params, public_key, signature);
    } else {
        lemma_oidc_stamp_fields(params, public_key, signature);
    }
}

/// A stamp made with a keypair is the base64url encoding of a JSON document
/// whose `publicKey` field is the base64url of the decoded public key and
/// whose `signature` field is the base64url Ed25519 signature of the
/// stamped data under the secret key's seed, for either kind of stamp.
pub proof fn law_stamp_carries_key_and_signature(params: StampParams, public: Seq<char>, secret: Seq<char>)
    requires
        stamp_text(params, public, secret) is Some,
    ensures
        ({
            let pk = spec_base64url(base58_decoded(public).unwrap());
            let sig = spec_base64url(ed25519_signature_of(base58_decoded(secret).unwrap().take(32), stamp_data(params)));
            &&& stamp_text(params, public, secret) == Some(spec_base64url(encode_utf8(stamp_json(params, pk, sig))))
            &&& contains_seq(stamp_json(params, pk, sig), "\"publicKey\":"@ + json_string(pk))
            &&& contains_seq(stamp_json(params, pk, sig), "\"signature\":"@ + json_string(sig))
        }),
{
    let pk = spec_base64url(base58_decoded(public).unwrap());
    let sig = spec_base64url(ed25519_signature_of(base58_decoded(secret).unwrap().take(32), stamp_data(params)));
    law_stamp_fields(params, pk, sig);
}

impl ApiKeyStamper {
    /// Create a new ApiKeyStamper from a configuration: the keypair of the
    /// base58 secret key, which must decode to 64 bytes.
    pub fn new(config: ApiKeyStamperConfig) -> (r: Result<Self, CryptoError>)
        ensures
            match crate::crypto::base58_decoded(config.api_secret_key@) {
                None => r matches Err(CryptoError::Base58Decode(_)),
                Some(b) => if b.len() == 64 {
                    r matches Ok(st) && st@ == keypair_of_seed(b.take(32)) && keypair_readable(b.take(32))
                } else {
                    r matches Err(CryptoError::InvalidSecretKeyLength(n)) && n == b.len()
                },
            },
    {
        match create_key_pair_from_secret(config.api_secret_key.as_str()) {
            Ok(keypair) => Ok(ApiKeyStamper { keypair }),
            Err(e) => Err(e),
        }
    }

    /// The base64url-encoded public key.
    pub fn public_key_base64url(&self) -> (r: Result<String, StampError>)
        ensures
            match base58_decoded(self@.0) {
                Some(p) => r matches Ok(s) && s@ == spec_base64url(p),
                None => r matches Err(StampError::PublicKey(_)),
            },
    {
        match base58_decode(self.keypair.public_key.as_str()) {
            Ok(b) => Ok(base64url_encode(b.as_slice())),
            Err(e) => Err(StampError::PublicKey(e)),
        }
    }

    /// Create the X-Phantom-Stamp header value for `params`.
    pub fn stamp(&self, params: &StampParams) -> (r: Result<String, StampError>)
        ensures
            match stamp_text(*params, self@.0, self@.1) {
                Some(t) => r matches Ok(s) && s@ == t,
                None => match base58_decoded(self@.1) {
                    None => r matches Err(StampError::Crypto(CryptoError::Base58Decode(_))),
                    Some(k) => if k.len() != 64 {
                        r matches Err(StampError::Crypto(CryptoError::InvalidSecretKeyLength(n))) && n == k.len()
                    } else {
                        r matches Err(StampError::PublicKey(_))
                    },
                },
            },
    {
        let data: &Vec<u8> = match params {
            StampParams::Pki { data } => data,
            StampParams::Oidc { data, .. } => data,
        };
        let signature = match sign_with_secret(&SecretKeyInput::Base58(self.keypair.secret_key.as_str()), data.as_slice()) {
            Ok(s) => s,
            Err(e) => return Err(StampError::Crypto(e)),
        };
        let signature_b64 = base64url_encode(signature.as_slice());
        let public_key_b64 = match self.public_key_base64url() {
            Ok(p) => p,
            Err(e) => return Err(e),
        };
        let mut out: Vec<char> = Vec::new();
        match params {
            StampParams::Pki { .. } => {
                push_str(&mut out, "{\"publicKey\":");
                push_json_string(&mut out, public_key_b64.as_str());
                push_str(&mut out, ",\"signature\":");
                push_json_string(&mut out, signature_b64.as_str());
                push_str(&mut out, ",\"kind\":\"PKI\",\"algorithm\":\"Ed25519\"}");
            },
            StampParams::Oidc { id_token, salt, .. } => {
                push_str(&mut out, "{\"kind\":\"OIDC\",\"idToken\":");
                push_json_string(&mut out, id_token.as_str());
                push_str(&mut out, ",\"publicKey\":");
                push_json_string(&mut out, public_key_b64.as_str());
                push_str(&mut out, ",\"salt\":");
                push_json_string(&mut out, salt.as_str());
                push_str(&mut out, ",\"algorithm\":\"Ed25519\",\"signature\":");
                push_json_string(&mut out, signature_b64.as_str());
                push_str(&mut out, "}");
            },
        }
        proof {
            assert(out@ =~= stamp_json(*params, public_key_b64@, signature_b64@));
        }
        let json = string_from_chars(out.as_slice());
        Ok(base64url_encode(json.as_str().as_bytes()))
    }

    /// The algorithm of the stamper's key.
    pub fn algorithm(&self) -> (r: Algorithm)
        ensures
            r == Algorithm::Ed25519,
    {
        DEFAULT_AUTHENTICATOR_ALGORITHM
    }

    /// The kind of stamps this stamper makes by default.
    pub fn stamper_type(&self) -> (r: StamperType)
        ensures
            r == StamperType::Pki,
    {
        StamperType::Pki
    }
}

} // verus!
