use phantom_connect::ethereum_types::EthereumSignInData;
use phantom_connect::siwe::{create_siwe_message, format_siwe_message, is_uri, split_uri};

const ADDRESS: &str = "0xA0Cf798816D4b9b9866b5330EEa46a18382f251e";

fn data() -> EthereumSignInData {
    EthereumSignInData {
        address: ADDRESS.to_string(),
        chain_id: 1,
        domain: "example.com".to_string(),
        nonce: "foobarbaz".to_string(),
        uri: "https://example.com/path".to_string(),
        version: "1".to_string(),
        scheme: None,
        statement: None,
        request_id: None,
        resources: None,
        issued_at: Some("2023-02-01T00:00:00.000Z".to_string()),
        expiration_time: None,
        not_before: None,
    }
}

#[test]
fn minimal_message() {
    let msg = create_siwe_message(&data()).unwrap();
    assert_eq!(
        msg,
        format!(
            "example.com wants you to sign in with your Ethereum account:\n{}\n\n\nURI: https://example.com/path\nVersion: 1\nChain ID: 1\nNonce: foobarbaz\nIssued At: 2023-02-01T00:00:00.000Z",
            ADDRESS
        )
    );
}

#[test]
fn full_message() {
    let mut d = data();
    d.scheme = Some("https".to_string());
    d.statement = Some("I accept the Terms of Service".to_string());
    d.expiration_time = Some("2023-03-01T00:00:00.000Z".to_string());
    d.not_before = Some("2023-01-01T00:00:00.000Z".to_string());
    d.request_id = Some("123".to_string());
    d.resources = Some(vec!["https://example.com/a".to_string(), "ipfs://Qm123".to_string()]);
    d.chain_id = -5;
    let msg = create_siwe_message(&d).unwrap();
    assert_eq!(
        msg,
        format!(
            "https://example.com wants you to sign in with your Ethereum account:\n{}\n\nI accept the Terms of Service\n\nURI: https://example.com/path\nVersion: 1\nChain ID: -5\nNonce: foobarbaz\nIssued At: 2023-02-01T00:00:00.000Z\nExpiration Time: 2023-03-01T00:00:00.000Z\nNot Before: 2023-01-01T00:00:00.000Z\nRequest ID: 123\nResources:\n- https://example.com/a\n- ipfs://Qm123",
            ADDRESS
        )
    );
}

#[test]
fn issued_at_defaults_to_now() {
    let mut d = data();
    d.issued_at = None;
    let msg = create_siwe_message(&d).unwrap();
    let line = msg.lines().find(|l| l.starts_with("Issued At: ")).unwrap();
    assert!(line.len() > "Issued At: ".len());
    // An RFC 3339 UTC time: YYYY-MM-DDTHH:MM:SS, an optional fraction, +00:00.
    let t: Vec<char> = line["Issued At: ".len()..].chars().collect();
    assert!(t.len() >= 25);
    let digit = |i: usize| t[i].is_ascii_digit();
    assert!((0..4).all(digit) && t[4] == '-' && digit(5) && digit(6) && t[7] == '-' && digit(8) && digit(9));
    assert!(t[10] == 'T' && digit(11) && digit(12) && t[13] == ':' && digit(14) && digit(15) && t[16] == ':');
    assert!(digit(17) && digit(18));
    let frac = t.len() - 25;
    assert!([0, 4, 7, 10].contains(&frac));
    if frac > 0 {
        assert!(t[19] == '.' && (20..19 + frac).all(digit));
    }
    assert_eq!(t[t.len() - 6..].iter().collect::<String>(), "+00:00");
    let given = format_siwe_message(&d, "T").unwrap();
    assert!(given.ends_with("Issued At: T"));
}

#[test]
fn validation_errors_in_order() {
    let check = |f: &dyn Fn(&mut EthereumSignInData), expected: &str| {
        let mut d = data();
        f(&mut d);
        assert_eq!(create_siwe_message(&d).unwrap_err(), expected);
    };
    check(
        &|d| d.address = "0x123".to_string(),
        "address must be a hex value of 20 bytes (40 hex characters).",
    );
    check(&|d| d.chain_id = 9_007_199_254_740_993, "chainId must be a EIP-155 chain ID.");
    check(&|d| d.domain = "256.1.1.1".to_string(), "domain must be an RFC 3986 authority.");
    check(&|d| d.domain = "example".to_string(), "domain must be an RFC 3986 authority.");
    check(&|d| d.nonce = "short".to_string(), "nonce must be at least 8 characters.");
    check(
        &|d| d.uri = "not a uri".to_string(),
        "uri must be a RFC 3986 URI referring to the resource that is the subject of the signing.",
    );
    check(&|d| d.version = "2".to_string(), "version must be '1'.");
    check(&|d| d.scheme = Some("1http".to_string()), "scheme must be an RFC 3986 URI scheme.");
    check(&|d| d.statement = Some("a\nb".to_string()), "statement must not include '\\n'.");
    check(
        &|d| d.resources = Some(vec!["https://ok.com".to_string(), "bad uri".to_string()]),
        "resources must be RFC 3986 URIs.",
    );
    // The first failing field decides.
    check(
        &|d| {
            d.nonce = "x".to_string();
            d.version = "9".to_string();
        },
        "nonce must be at least 8 characters.",
    );
}

#[test]
fn accepted_domains() {
    for domain in ["localhost", "localhost:3000", "127.0.0.1:8080", "sub.example.co", "a-b.example.org:443"] {
        let mut d = data();
        d.domain = domain.to_string();
        assert!(create_siwe_message(&d).is_ok(), "{domain} should be accepted");
    }
    for domain in ["-a.com", "example.c", "example.com:123456", "1.2.3", "exa mple.com"] {
        let mut d = data();
        d.domain = domain.to_string();
        assert!(create_siwe_message(&d).is_err(), "{domain} should be refused");
    }
}

#[test]
fn chain_id_check_matches_float_round_trip() {
    let samples: [i64; 10] = [
        0,
        1,
        -1,
        9_007_199_254_740_992,
        9_007_199_254_740_993,
        i64::MAX,
        i64::MAX - 1,
        i64::MIN,
        i64::MIN + 1,
        1 << 60,
    ];
    for x in samples {
        let mut d = data();
        d.chain_id = x;
        let floats_agree = (x as f64).floor() as i64 == x;
        let accepted = create_siwe_message(&d).is_ok();
        assert_eq!(accepted, floats_agree, "chain id {x}");
    }
}

#[test]
fn uri_checks() {
    assert!(is_uri("https://example.com"));
    assert!(is_uri("mailto:user@example.com"));
    assert!(is_uri("urn:isbn:0451450523"));
    assert!(is_uri("http://a%41b"));
    assert!(is_uri("http://a%"));
    assert!(!is_uri("example.com"));
    assert!(!is_uri("http://a%2"));
    assert!(!is_uri("http://a%zz"));
    assert!(!is_uri("1http://x"));
    assert!(!is_uri("http://exa mple.com"));
}

#[test]
fn uri_components() {
    let parts = split_uri("https://user@host:8080/p/a?q=1#frag").unwrap();
    assert_eq!(
        parts,
        (
            "https".to_string(),
            Some("user@host:8080".to_string()),
            "/p/a".to_string(),
            Some("q=1".to_string()),
            Some("frag".to_string())
        )
    );
    let relative = split_uri("/just/a/path").unwrap();
    assert_eq!(relative, (String::new(), None, "/just/a/path".to_string(), None, None));
}
