use phantom_connect::auth_callback::{is_auth_callback_url, is_auth_failure_callback};
use phantom_connect::authenticators::Algorithm;
use phantom_connect::deeplink::{get_deeplink_to_phantom, urlencoding_encode};
use phantom_connect::embedded_auth::{
    percent_encode, AuthResult, AuthStart, BrowserAuthConfig, BrowserAuthProvider,
    EmbeddedProviderAuthType, PhantomConnectOptions,
};
use phantom_connect::url::{url_decode, BrowserURLParamsAccessor, StringHashMap};

fn params(pairs: &[(&str, &str)]) -> StringHashMap<String> {
    let mut m = StringHashMap::new();
    for (k, v) in pairs {
        m.insert(k.to_string(), v.to_string());
    }
    m
}

fn options(session: &str) -> PhantomConnectOptions {
    PhantomConnectOptions {
        provider: None,
        public_key: "pk".to_string(),
        app_id: "app".to_string(),
        session_id: session.to_string(),
        redirect_url: None,
        auth_url: None,
        algorithm: None,
        clear_previous_session: None,
        allow_refresh: None,
    }
}

fn provider(query: &str, auth_url: Option<&str>) -> BrowserAuthProvider {
    BrowserAuthProvider::new(BrowserAuthConfig {
        redirect_url: Some("http://localhost:3000/callback".to_string()),
        auth_url: auth_url.map(|s| s.to_string()),
        redirect_result: None,
        url_params: BrowserURLParamsAccessor::from_url(query),
    })
}

#[test]
fn url_decoding() {
    assert_eq!(url_decode("a%20b+c"), "a b c");
    assert_eq!(url_decode("%41%42"), "AB");
    assert_eq!(url_decode("%zz"), "%zz");
    assert_eq!(url_decode("%4"), "%4");
    assert_eq!(url_decode("%"), "%");
    assert_eq!(url_decode("%+F"), "\u{f}");
    // Bytes are taken one for one as characters.
    assert_eq!(url_decode("%C3%A9"), "\u{c3}\u{a9}");
    assert_eq!(url_decode("é"), "\u{c3}\u{a9}");
}

#[test]
fn query_parameters() {
    let acc = BrowserURLParamsAccessor::from_url("https://x.com/cb?session_id=abc&wallet_id=x%20y#frag");
    assert_eq!(acc.get_param("session_id"), Some("abc".to_string()));
    assert_eq!(acc.get_param("wallet_id"), Some("x y".to_string()));
    assert_eq!(acc.get_param("frag"), None);

    let later_wins = BrowserURLParamsAccessor::from_url("?a=1&a=2");
    assert_eq!(later_wins.get_param("a"), Some("2".to_string()));

    let bare = BrowserURLParamsAccessor::new(Some("flag&&b=&k=v=w"));
    assert_eq!(bare.get_param("flag"), Some(String::new()));
    assert_eq!(bare.get_param("b"), Some(String::new()));
    assert_eq!(bare.get_param("k"), Some("v=w".to_string()));
    assert_eq!(bare.get_param(""), None);

    let no_query = BrowserURLParamsAccessor::from_url("https://example.com/callback");
    assert_eq!(no_query.get_param("https://example.com/callback"), None);
    assert_eq!(BrowserURLParamsAccessor::from_url("a=1").get_param("a"), None);
}

#[test]
fn accessor_from_environment_value() {
    assert_eq!(BrowserURLParamsAccessor::new(None).get_param("x"), None);
    assert_eq!(BrowserURLParamsAccessor::new(Some("")).get_param("x"), None);
    assert_eq!(BrowserURLParamsAccessor::new(Some("x=1")).get_param("x"), Some("1".to_string()));
    let explicit = BrowserURLParamsAccessor::from_params(params(&[("session_id", "abc123")]));
    assert_eq!(explicit.get_param("session_id"), Some("abc123".to_string()));
}

#[test]
fn auth_callback_detection() {
    assert!(is_auth_failure_callback(&params(&[("response_type", "failure"), ("session_id", "s")])));
    assert!(!is_auth_failure_callback(&params(&[("response_type", "success"), ("session_id", "s")])));
    assert!(!is_auth_failure_callback(&params(&[("response_type", "failure")])));
    assert!(is_auth_callback_url(&params(&[("session_id", "s"), ("wallet_id", "w")])));
    assert!(is_auth_callback_url(&params(&[("session_id", "s"), ("response_type", "x")])));
    assert!(!is_auth_callback_url(&params(&[("session_id", "s")])));
    assert!(!is_auth_callback_url(&params(&[("wallet_id", "w")])));
}

#[test]
fn deeplinks() {
    assert_eq!(
        get_deeplink_to_phantom("https://example.com/page?x=1", Some("https://ref.com")).unwrap(),
        "https://phantom.app/ul/browse/https%3A%2F%2Fexample.com%2Fpage%3Fx%3D1?ref=https%3A%2F%2Fref.com"
    );
    assert_eq!(
        get_deeplink_to_phantom("http://a.b/", None).unwrap(),
        "https://phantom.app/ul/browse/http%3A%2F%2Fa.b%2F"
    );
    assert_eq!(
        get_deeplink_to_phantom("ftp://a.b/", None).unwrap_err(),
        "Invalid URL protocol - only HTTP/HTTPS URLs are supported for deeplinks"
    );
    assert_eq!(urlencoding_encode("a b!~*'()é"), "a%20b!~*'()%C3%A9");
    assert_eq!(percent_encode("a b!~*'()é-_."), "a%20b%21~%2A%27%28%29%C3%A9-_.");
}

#[test]
fn auth_url_with_defaults() {
    let p = provider("", None);
    assert_eq!(
        p.build_auth_url(&options("sess")),
        "https://auth.phantom.app?public_key=pk&app_id=app&redirect_uri=http%3A%2F%2Flocalhost%3A3000%2Fcallback&session_id=sess&clear_previous_session=false&allow_refresh=true&sdk_version=0.1.0&sdk_type=rust&platform=rust-native&algorithm=ed25519&provider=google"
    );
    let mut o = options("s 1");
    o.provider = Some(EmbeddedProviderAuthType::Apple);
    o.algorithm = Some(Algorithm::Secp256r1);
    o.clear_previous_session = Some(true);
    o.allow_refresh = Some(false);
    o.auth_url = Some("https://auth.example".to_string());
    o.redirect_url = Some("app://cb".to_string());
    assert_eq!(
        p.build_auth_url(&o),
        "https://auth.example?public_key=pk&app_id=app&redirect_uri=app%3A%2F%2Fcb&session_id=s%201&clear_previous_session=true&allow_refresh=false&sdk_version=0.1.0&sdk_type=rust&platform=rust-native&algorithm=secp256r1&provider=apple"
    );
}

#[test]
fn begin_authentication_outcomes() {
    let mut p = provider("", None);
    match p.begin_authentication(&options("sess")).unwrap() {
        AuthStart::Redirect(url) => assert!(url.starts_with("https://auth.phantom.app?")),
        other => panic!("unexpected {:?}", other),
    }
    let mut device = options("d");
    device.provider = Some(EmbeddedProviderAuthType::Device);
    assert!(matches!(p.begin_authentication(&device).unwrap(), AuthStart::DeviceFlow));

    let mut insecure = provider("", Some("http://evil.example"));
    assert_eq!(
        insecure.begin_authentication(&options("s")).unwrap_err(),
        "Invalid auth URL - only HTTPS URLs or http://localhost are allowed for authentication"
    );
    let mut local = provider("", Some("http://localhost:8080/auth"));
    assert!(matches!(local.begin_authentication(&options("s")).unwrap(), AuthStart::Redirect(_)));
}

#[test]
fn stored_redirect_result_is_handed_back_once() {
    let mut p = provider("", None);
    p.set_redirect_result(AuthResult {
        wallet_id: "w".to_string(),
        organization_id: "o".to_string(),
        provider: EmbeddedProviderAuthType::Google,
        account_derivation_index: 0,
        expires_in_ms: 0,
        auth_user_id: None,
    });
    assert!(p.resume_auth_from_redirect(EmbeddedProviderAuthType::Apple).unwrap().is_none());
    let r = p.resume_auth_from_redirect(EmbeddedProviderAuthType::Google).unwrap().unwrap();
    assert_eq!(r.wallet_id, "w");
    assert!(p.resume_auth_from_redirect(EmbeddedProviderAuthType::Google).unwrap().is_none());
}

#[test]
fn resume_from_callback_parameters() {
    let mut ok = provider(
        "?wallet_id=w1&session_id=s1&organization_id=o1&selected_account_index=3&expires_in_ms=1000&auth_user_id=u1",
        None,
    );
    ok.begin_authentication(&options("s1")).unwrap();
    let r = ok.resume_auth_from_redirect(EmbeddedProviderAuthType::Google).unwrap().unwrap();
    assert_eq!(r.wallet_id, "w1");
    assert_eq!(r.organization_id, "o1");
    assert_eq!(r.provider, EmbeddedProviderAuthType::Google);
    assert_eq!(r.account_derivation_index, 3);
    assert_eq!(r.expires_in_ms, 1000);
    assert_eq!(r.auth_user_id, Some("u1".to_string()));

    let mut bad_numbers = provider("?wallet_id=w&session_id=s&organization_id=o&selected_account_index=-1&expires_in_ms=x", None);
    bad_numbers.begin_authentication(&options("s")).unwrap();
    let r = bad_numbers.resume_auth_from_redirect(EmbeddedProviderAuthType::Apple).unwrap().unwrap();
    assert_eq!((r.account_derivation_index, r.expires_in_ms), (0, 0));

    let mut missing_org = provider("?wallet_id=w&session_id=s", None);
    missing_org.begin_authentication(&options("s")).unwrap();
    assert_eq!(
        missing_org.resume_auth_from_redirect(EmbeddedProviderAuthType::Google).unwrap_err(),
        "Missing organization_id in auth response"
    );
    let mut no_data = provider("?session_id=s", None);
    assert!(no_data.resume_auth_from_redirect(EmbeddedProviderAuthType::Google).unwrap().is_none());
}

#[test]
fn resume_reports_auth_server_errors() {
    let cases = [
        ("access_denied", "Authentication cancelled: User cancelled"),
        ("invalid_request", "Invalid authentication request: User cancelled"),
        ("server_error", "Authentication server error: User cancelled"),
        ("temporarily_unavailable", "Authentication service temporarily unavailable: User cancelled"),
        ("other", "Authentication failed: User cancelled"),
    ];
    for (code, expected) in cases {
        let mut p = provider(&format!("?error={code}&error_description=User+cancelled&session_id=s"), None);
        assert_eq!(p.resume_auth_from_redirect(EmbeddedProviderAuthType::Google).unwrap_err(), expected);
    }
    let mut no_detail = provider("?error=access_denied", None);
    assert_eq!(
        no_detail.resume_auth_from_redirect(EmbeddedProviderAuthType::Google).unwrap_err(),
        "Authentication cancelled: access_denied"
    );
}

#[test]
fn decoding_undoes_encoding() {
    let s = "a b/c~d?e=f&g+h%";
    assert_eq!(url_decode(&percent_encode(s)), s);
    assert_eq!(url_decode(&urlencoding_encode(s)), s);
    assert_eq!(percent_encode("é"), "%C3%A9");
    assert_eq!(url_decode(&percent_encode("é")), "\u{c3}\u{a9}");
}

#[test]
fn resume_refuses_unknown_or_replayed_sessions() {
    let unknown = "No pending auth state found for session_id - possible session corruption or replay";
    let mut p = provider("?wallet_id=w1&session_id=s-unknown&organization_id=org1", None);
    assert_eq!(p.resume_auth_from_redirect(EmbeddedProviderAuthType::Google).unwrap_err(), unknown);

    let mut q = provider("?wallet_id=w1&session_id=s1&organization_id=org1", None);
    q.begin_authentication(&options("other")).unwrap();
    assert_eq!(q.resume_auth_from_redirect(EmbeddedProviderAuthType::Google).unwrap_err(), unknown);
    q.begin_authentication(&options("s1")).unwrap();
    let r = q.resume_auth_from_redirect(EmbeddedProviderAuthType::Google).unwrap().unwrap();
    assert_eq!(r.wallet_id, "w1");
    // The pending state was consumed: the same callback again is a replay.
    assert_eq!(q.resume_auth_from_redirect(EmbeddedProviderAuthType::Google).unwrap_err(), unknown);
}
