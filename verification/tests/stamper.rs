use ed25519_dalek::Verifier;
use phantom_connect::authenticators::Algorithm;
use phantom_connect::base64url::{base64url_decode, base64url_decode_to_string};
use phantom_connect::crypto::{
    create_key_pair_from_secret, generate_key_pair, sign_with_secret, CryptoError, Keypair,
    SecretKeyInput,
};
use phantom_connect::stamper::{ApiKeyStamper, ApiKeyStamperConfig, StampParams, StamperType};

fn make_stamper() -> (ApiKeyStamper, Keypair) {
    let kp = generate_key_pair();
    let stamper = ApiKeyStamper::new(ApiKeyStamperConfig { api_secret_key: kp.secret_key.clone() }).unwrap();
    (stamper, kp)
}

#[test]
fn constructor_valid_key() {
    let (stamper, _kp) = make_stamper();
    assert_eq!(stamper.algorithm(), Algorithm::Ed25519);
    assert_eq!(stamper.stamper_type(), StamperType::Pki);
}

#[test]
fn constructor_invalid_key() {
    let result = ApiKeyStamper::new(ApiKeyStamperConfig { api_secret_key: "invalid-key".to_string() });
    assert!(result.is_err());
}

#[test]
fn stamp_returns_base64url_json() {
    let (stamper, _kp) = make_stamper();
    let data = b"test message".to_vec();
    let stamp = stamper.stamp(&StampParams::Pki { data }).unwrap();
    assert!(!stamp.is_empty());
    let json_str = base64url_decode_to_string(&stamp).unwrap();
    let parsed: serde_json::Value = serde_json::from_str(&json_str).unwrap();
    assert!(parsed.get("publicKey").is_some());
    assert!(parsed.get("signature").is_some());
    assert_eq!(parsed.get("kind").unwrap().as_str().unwrap(), "PKI");
}

#[test]
fn stamp_verifiable_signature() {
    let (stamper, kp) = make_stamper();
    let data = b"test message for verification".to_vec();
    let stamp = stamper.stamp(&StampParams::Pki { data: data.clone() }).unwrap();
    let json_str = base64url_decode_to_string(&stamp).unwrap();
    let parsed: serde_json::Value = serde_json::from_str(&json_str).unwrap();
    let sig_b64 = parsed["signature"].as_str().unwrap();
    let sig_bytes = base64url_decode(sig_b64).unwrap();
    let expected_sig = sign_with_secret(&SecretKeyInput::Base58(&kp.secret_key), &data).unwrap();
    assert_eq!(sig_bytes, expected_sig);
}

#[test]
fn different_data_different_stamps() {
    let (stamper, _kp) = make_stamper();
    let s1 = stamper.stamp(&StampParams::Pki { data: b"first message".to_vec() }).unwrap();
    let s2 = stamper.stamp(&StampParams::Pki { data: b"second message".to_vec() }).unwrap();
    assert_ne!(s1, s2);
}

#[test]
fn same_data_same_stamps() {
    let (stamper, _kp) = make_stamper();
    let data = b"consistent message".to_vec();
    let s1 = stamper.stamp(&StampParams::Pki { data: data.clone() }).unwrap();
    let s2 = stamper.stamp(&StampParams::Pki { data }).unwrap();
    assert_eq!(s1, s2);
}

#[test]
fn pki_stamp_has_the_documented_layout() {
    let (stamper, kp) = make_stamper();
    let stamp = stamper.stamp(&StampParams::Pki { data: b"x".to_vec() }).unwrap();
    let json_str = base64url_decode_to_string(&stamp).unwrap();
    let pk = phantom_connect::base64url::base64url_encode(&bs58::decode(&kp.public_key).into_vec().unwrap());
    let sig = phantom_connect::base64url::base64url_encode(
        &sign_with_secret(&SecretKeyInput::Base58(&kp.secret_key), b"x").unwrap(),
    );
    assert_eq!(
        json_str,
        format!("{{\"publicKey\":\"{pk}\",\"signature\":\"{sig}\",\"kind\":\"PKI\",\"algorithm\":\"Ed25519\"}}")
    );
    assert_eq!(stamper.public_key_base64url().unwrap(), pk);
}

#[test]
fn oidc_stamp_escapes_like_serde_json() {
    let (stamper, _kp) = make_stamper();
    let id_token = "tok\"en\\\n\u{1}é".to_string();
    let stamp = stamper
        .stamp(&StampParams::Oidc { data: b"d".to_vec(), id_token: id_token.clone(), salt: "s\talt".to_string() })
        .unwrap();
    let json_str = base64url_decode_to_string(&stamp).unwrap();
    assert!(json_str.starts_with("{\"kind\":\"OIDC\",\"idToken\":\"tok\\\"en\\\\\\n\\u0001é\",\"publicKey\":"));
    let parsed: serde_json::Value = serde_json::from_str(&json_str).unwrap();
    assert_eq!(parsed["idToken"].as_str().unwrap(), id_token);
    assert_eq!(parsed["salt"].as_str().unwrap(), "s\talt");
    assert_eq!(parsed["algorithm"].as_str().unwrap(), "Ed25519");
    let expected = serde_json::to_string(&id_token).unwrap();
    assert!(json_str.contains(&expected));
}

#[test]
fn keypairs_restore_from_their_secret() {
    let kp = generate_key_pair();
    let restored = create_key_pair_from_secret(&kp.secret_key).unwrap();
    assert_eq!(restored.public_key, kp.public_key);
    assert_eq!(restored.secret_key, kp.secret_key);
    let secret = bs58::decode(&kp.secret_key).into_vec().unwrap();
    assert_eq!(secret.len(), 64);
    let public = bs58::decode(&kp.public_key).into_vec().unwrap();
    assert_eq!(&secret[32..], public.as_slice());
}

#[test]
fn secret_keys_of_the_wrong_length() {
    let short = bs58::encode([1u8; 32]).into_string();
    assert!(matches!(create_key_pair_from_secret(&short), Err(CryptoError::InvalidSecretKeyLength(32))));
    assert!(matches!(create_key_pair_from_secret("0OIl"), Err(CryptoError::Base58Decode(_))));
    assert!(matches!(sign_with_secret(&SecretKeyInput::Bytes(&[0u8; 10]), b"m"), Err(CryptoError::InvalidSecretKeyLength(10))));
}

#[test]
fn signatures_verify_with_the_public_key() {
    let kp = generate_key_pair();
    let secret = bs58::decode(&kp.secret_key).into_vec().unwrap();
    let sig = sign_with_secret(&SecretKeyInput::Bytes(&secret), b"hello").unwrap();
    assert_eq!(sig, sign_with_secret(&SecretKeyInput::Base58(&kp.secret_key), b"hello").unwrap());
    let public: [u8; 32] = bs58::decode(&kp.public_key).into_vec().unwrap().try_into().unwrap();
    let vk = ed25519_dalek::VerifyingKey::from_bytes(&public).unwrap();
    let signature = ed25519_dalek::Signature::from_bytes(&sig.try_into().unwrap());
    assert!(Verifier::verify(&vk, b"hello", &signature).is_ok());
}

#[test]
fn secret_keys_outside_the_base58_alphabet_are_refused() {
    for bad in ["0abc", "Iabc", "Oabc", "labc", "ab+c", "é"] {
        assert!(matches!(
            phantom_connect::crypto::create_key_pair_from_secret(bad),
            Err(phantom_connect::crypto::CryptoError::Base58Decode(_))
        ));
    }
}
