//! The redirect-based authentication of the embedded provider: building the
//! Phantom Connect auth URL, starting an authentication, and resuming it
//! from the parameters of the redirect callback URL.
use vstd::prelude::*;
use vstd::hash_map::StringHashMap;
use vstd::utf8::encode_utf8;
use crate::authenticators::{Algorithm, DEFAULT_AUTHENTICATOR_ALGORITHM};
use crate::browser_sdk::{auth_type_name, auth_type_of_embedded};
use crate::text::{
    ascii_lower_seq, contains_seq, lemma_contains_append_right, lemma_contains_last_two,
    lemma_starts_with_append, chars_of, opt_view, parse_u32, parse_u64, parse_unsigned, push_str, starts_with,
    starts_with_exec, str_eq, string_from_chars,
};
use crate::url::{BrowserURLParamsAccessor, KeepSet, percent_encode_with, percent_encoded};

verus! {

/// SDK version reported in auth URL parameters.
pub const SDK_VERSION: &'static str = "0.1.0";

/// SDK type reported in auth URL parameters.
pub const SDK_TYPE: &'static str = "rust";

/// Platform identifier reported in auth URL parameters.
pub const SDK_PLATFORM: &'static str = "rust-native";

/// Authentication providers of the embedded wallet.
#[derive(Debug, Clone, Copy, PartialEq, Eq, Structural)]
pub enum EmbeddedProviderAuthType {
    Google,
    Apple,
    Phantom,
    Device,
}

/// Result of a completed authentication.
#[derive(Debug, Clone)]
pub struct AuthResult {
    pub wallet_id: String,
    pub organization_id: String,
    pub provider: EmbeddedProviderAuthType,
    pub account_derivation_index: u32,
    pub expires_in_ms: u64,
    pub auth_user_id: Option<String>,
}

/// Abstract view of an authentication result.
pub struct AuthResultView {
    pub wallet_id: Seq<char>,
    pub organization_id: Seq<char>,
    pub provider: EmbeddedProviderAuthType,
    pub account_derivation_index: u32,
    pub expires_in_ms: u64,
    pub auth_user_id: Option<Seq<char>>,
}

impl View for AuthResult {
    type V = AuthResultView;

    open spec fn view(&self) -> AuthResultView {
        AuthResultView {
            wallet_id: self.wallet_id@,
            organization_id: self.organization_id@,
            provider: self.provider,
            account_derivation_index: self.account_derivation_index,
            expires_in_ms: self.expires_in_ms,
            auth_user_id: opt_view(self.auth_user_id),
        }
    }
}

/// Options of one connection attempt.
#[derive(Debug, Clone)]
pub struct PhantomConnectOptions {
    pub provider: Option<EmbeddedProviderAuthType>,
    pub public_key: String,
    pub app_id: String,
    pub session_id: String,
    pub redirect_url: Option<String>,
    pub auth_url: Option<String>,
    pub algorithm: Option<Algorithm>,
    pub clear_previous_session: Option<bool>,
    pub allow_refresh: Option<bool>,
}

/// State saved before a redirect, used to complete auth on return.
#[derive(Debug, Clone)]
pub struct PendingAuthState {
    /// The auth provider type (Google, Apple, etc.).
    pub provider: EmbeddedProviderAuthType,
    /// Session ID that ties the request to the response.
    pub session_id: String,
    /// Public key used for the auth request.
    pub public_key: String,
    /// Application ID used for the auth request.
    pub app_id: String,
}

/// Configuration of the browser auth provider.
pub struct BrowserAuthConfig {
    /// Default redirect URL for OAuth callbacks.
    pub redirect_url: Option<String>,
    /// Default auth server base URL.
    pub auth_url: Option<String>,
    /// Pre-populated redirect result for resuming auth from a callback URL.
    pub redirect_result: Option<AuthResult>,
    /// Parameters of the redirect callback URL.
    pub url_params: BrowserURLParamsAccessor,
}

/// Browser authentication provider for OAuth redirect flows.
pub struct BrowserAuthProvider {
    redirect_url: Option<String>,
    auth_url: Option<String>,
    redirect_result: Option<AuthResult>,
    pending_auth: StringHashMap<PendingAuthState>,
    url_params: BrowserURLParamsAccessor,
}

/// Abstract state of the auth provider.
pub struct AuthProviderState {
    pub redirect_url: Option<Seq<char>>,
    pub auth_url: Option<Seq<char>>,
    pub redirect_result: Option<AuthResult>,
    pub pending: Map<Seq<char>, PendingAuthState>,
    pub params: Map<Seq<char>, Seq<char>>,
}

impl View for BrowserAuthProvider {
    type V = AuthProviderState;

    closed spec fn view(&self) -> AuthProviderState {
        AuthProviderState {
            redirect_url: opt_view(self.redirect_url),
            auth_url: opt_view(self.auth_url),
            redirect_result: self.redirect_result,
            pending: self.pending_auth@,
            params: self.url_params@,
        }
    }
}

/// What starting an authentication leads to.
#[derive(Debug)]
pub enum AuthStart {
    /// A stored redirect result completes the authentication at once.
    Resumed(AuthResult),
    /// Device authentication, which the embedded provider completes itself.
    DeviceFlow,
    /// The user must be sent to this auth URL; the result comes back through
    /// the redirect callback.
    Redirect(String),
}

/// Percent encoding of a URL parameter (RFC 3986 unreserved characters kept).
pub open spec fn url_param(s: Seq<char>) -> Seq<char> {
    percent_encoded(encode_utf8(s), KeepSet::Unreserved)
}

/// The parameter name of a provider.
pub open spec fn provider_param(p: EmbeddedProviderAuthType) -> Seq<char> {
    match p {
        EmbeddedProviderAuthType::Google => "google"@,
        EmbeddedProviderAuthType::Apple => "apple"@,
        EmbeddedProviderAuthType::Phantom => "phantom"@,
        EmbeddedProviderAuthType::Device => "device"@,
    }
}

/// The parameter name of an algorithm.
pub open spec fn algorithm_param(a: Algorithm) -> Seq<char> {
    match a {
        Algorithm::Ed25519 => "ed25519"@,
        Algorithm::Secp256r1 => "secp256r1"@,
    }
}

/// `true` or `false`.
pub open spec fn bool_text(b: bool) -> Seq<char> {
    if b { "true"@ } else { "false"@ }
}

/// The first present value of two optional strings, else `default`.
pub open spec fn first_or(a: Option<Seq<char>>, b: Option<Seq<char>>, default: Seq<char>) -> Seq<char> {
    match a {
        Some(x) => x,
        None => match b {
            Some(y) => y,
            None => default,
        },
    }
}

/// The auth URL for `options`, with the provider's defaults for the auth
/// server and the redirect URL.
pub open spec fn auth_url_text(
    options: PhantomConnectOptions,
    default_auth_url: Option<Seq<char>>,
    default_redirect_url: Option<Seq<char>>,
) -> Seq<char> {
    let base = first_or(opt_view(options.auth_url), default_auth_url, "https://auth.phantom.app"@);
    let redirect = first_or(opt_view(options.redirect_url), default_redirect_url, ""@);
    let provider = match options.provider {
        Some(p) => p,
        None => EmbeddedProviderAuthType::Google,
    };
    let algorithm = match options.algorithm {
        Some(a) => a,
        None => Algorithm::Ed25519,
    };
    let clear = match options.clear_previous_session {
        Some(b) => b,
        None => false,
    };
    let refresh = match options.allow_refresh {
        Some(b) => b,
        None => true,
    };
    base + "?public_key="@ + url_param(options.public_key@) + "&app_id="@ + url_param(options.app_id@)
        + "&redirect_uri="@ + url_param(redirect) + "&session_id="@ + url_param(options.session_id@)
        + "&clear_previous_session="@ + bool_text(clear) + "&allow_refresh="@ + bool_text(refresh)
        + "&sdk_version="@ + url_param(SDK_VERSION@) + "&sdk_type="@ + url_param(SDK_TYPE@)
        + "&platform="@ + url_param(SDK_PLATFORM@) + "&algorithm="@ + url_param(algorithm_param(algorithm))
        + "&provider="@ + url_param(provider_param(provider))
}

/// An auth URL that may be used: HTTPS, or plain HTTP to localhost.
pub open spec fn auth_url_allowed(url: Seq<char>) -> bool {
    starts_with(url, "https:"@) || starts_with(url, "http://localhost"@)
}

/// The message of an error code sent back by the auth server.
pub open spec fn auth_error_message(code: Seq<char>, detail: Seq<char>) -> Seq<char> {
    if code == "access_denied"@ {
        "Authentication cancelled: "@ + detail
    } else if code == "invalid_request"@ {
        "Invalid authentication request: "@ + detail
    } else if code == "server_error"@ {
        "Authentication server error: "@ + detail
    } else if code == "temporarily_unavailable"@ {
        "Authentication service temporarily unavailable: "@ + detail
    } else {
        "Authentication failed: "@ + detail
    }
}

/// An optional parameter read as an unsigned number, 0 when it is absent or
/// does not parse.
pub open spec fn number_param(m: Map<Seq<char>, Seq<char>>, key: Seq<char>, max: int) -> int {
    match m.get(key) {
        Some(v) => match parse_unsigned(v, max) {
            Some(x) => x,
            None => 0,
        },
        None => 0,
    }
}

/// The error of a callback whose session has no pending authentication.
pub open spec fn unknown_session_message() -> Seq<char> {
    "No pending auth state found for session_id - possible session corruption or replay"@
}

/// What the parameters of a redirect callback say, given the sessions with
/// a pending authentication: an error sent by the auth server, no auth data
/// (no wallet or session ID), a session that was never started here (or
/// was already consumed), a missing organization ID, or the result of the
/// authentication.
pub open spec fn resume_from_params(
    m: Map<Seq<char>, Seq<char>>,
    provider: EmbeddedProviderAuthType,
    pending: Set<Seq<char>>,
) -> Result<Option<AuthResultView>, Seq<char>> {
    match m.get("error"@) {
        Some(code) => Err(
            auth_error_message(
                code,
                match m.get("error_description"@) {
                    Some(d) => d,
                    None => code,
                },
            ),
        ),
        None => if m.get("wallet_id"@) is None || m.get("session_id"@) is None {
            Ok(None)
        } else if !pending.contains(m["session_id"@]) {
            Err(unknown_session_message())
        } else if m.get("organization_id"@) is None {
            Err("Missing organization_id in auth response"@)
        } else {
            Ok(
                Some(
                    AuthResultView {
                        wallet_id: m["wallet_id"@],
                        organization_id: m["organization_id"@],
                        provider,
                        account_derivation_index: number_param(m, "selected_account_index"@, u32::MAX as int) as u32,
                        expires_in_ms: number_param(m, "expires_in_ms"@, u64::MAX as int) as u64,
                        auth_user_id: m.get("auth_user_id"@),
                    },
                ),
            )
        },
    }
}

/// Whether resuming from `m` consumes the pending state of its session: an
/// error with a session ID, or a wallet and session ID without an error.
pub open spec fn resume_consumes_session(m: Map<Seq<char>, Seq<char>>) -> bool {
    m.get("session_id"@) is Some && (m.get("error"@) is Some || m.get("wallet_id"@) is Some)
}

/// Percent-encoding for URL parameters (RFC 3986 unreserved characters kept).
pub fn percent_encode(input: &str) -> (r: String)
    ensures
        r@ == url_param(input@),
{
    percent_encode_with(input, KeepSet::Unreserved)
}

fn push_param(out: &mut Vec<char>, name: &str, value: &str)
    ensures
        final(out)@ == old(out)@ + name@ + url_param(value@),
{
    push_str(out, name);
    let e = percent_encode(value);
    push_str(out, e.as_str());
}

fn push_bool(out: &mut Vec<char>, name: &str, value: bool)
    ensures
        final(out)@ == old(out)@ + name@ + bool_text(value),
{
    push_str(out, name);
    if value {
        push_str(out, "true");
    } else {
        push_str(out, "false");
    }
}

fn pick<'a>(a: &'a Option<String>, b: &'a Option<String>, default: &'a str) -> (r: &'a str)
    ensures
        r@ == first_or(opt_view(*a), opt_view(*b), default@),
{
    match a {
        Some(x) => x.as_str(),
        None => match b {
            Some(y) => y.as_str(),
            None => default,
        },
    }
}

impl BrowserAuthProvider {
    /// Create a new browser auth provider with the given configuration.
    pub fn new(config: BrowserAuthConfig) -> (r: Self)
        ensures
            r@.redirect_url == opt_view(config.redirect_url),
            r@.auth_url == opt_view(config.auth_url),
            r@.redirect_result == config.redirect_result,
            r@.pending == Map::<Seq<char>, PendingAuthState>::empty(),
            r@.params == config.url_params@,
    {
        BrowserAuthProvider {
            redirect_url: config.redirect_url,
            auth_url: config.auth_url,
            redirect_result: config.redirect_result,
            pending_auth: StringHashMap::new(),
            url_params: config.url_params,
        }
    }

    /// Set a pre-parsed redirect result for auth resumption.
    pub fn set_redirect_result(&mut self, result: AuthResult)
        ensures
            final(self)@.redirect_result == Some(result),
            final(self)@.pending == old(self)@.pending,
            final(self)@.params == old(self)@.params,
            final(self)@.redirect_url == old(self)@.redirect_url,
            final(self)@.auth_url == old(self)@.auth_url,
    {
        self.redirect_result = Some(result);
    }

    /// Build the full auth URL for a given set of connect options.
    pub fn build_auth_url(&self, options: &PhantomConnectOptions) -> (r: String)
        ensures
            r@ == auth_url_text(*options, self@.auth_url, self@.redirect_url),
    {
        let base = pick(&options.auth_url, &self.auth_url, "https://auth.phantom.app");
        let redirect = pick(&options.redirect_url, &self.redirect_url, "");
        let provider = match options.provider {
            Some(p) => p,
            None => EmbeddedProviderAuthType::Google,
        };
        let provider_str = match provider {
            EmbeddedProviderAuthType::Google => "google",
            EmbeddedProviderAuthType::Apple => "apple",
            EmbeddedProviderAuthType::Phantom => "phantom",
            EmbeddedProviderAuthType::Device => "device",
        };
        let algorithm = match options.algorithm {
            Some(a) => a,
            None => DEFAULT_AUTHENTICATOR_ALGORITHM,
        };
        let algorithm_str = match algorithm {
            Algorithm::Ed25519 => "ed25519",
            Algorithm::Secp256r1 => "secp256r1",
        };
        let clear = match options.clear_previous_session {
            Some(b) => b,
            None => false,
        };
        let refresh = match options.allow_refresh {
            Some(b) => b,
            None => true,
        };
        let mut out = chars_of(base);
        push_param(&mut out, "?public_key=", options.public_key.as_str());
        push_param(&mut out, "&app_id=", options.app_id.as_str());
        push_param(&mut out, "&redirect_uri=", redirect);
        push_param(&mut out, "&session_id=", options.session_id.as_str());
        push_bool(&mut out, "&clear_previous_session=", clear);
        push_bool(&mut out, "&allow_refresh=", refresh);
        push_param(&mut out, "&sdk_version=", SDK_VERSION);
        push_param(&mut out, "&sdk_type=", SDK_TYPE);
        push_param(&mut out, "&platform=", SDK_PLATFORM);
        push_param(&mut out, "&algorithm=", algorithm_str);
        push_param(&mut out, "&provider=", provider_str);
        string_from_chars(out.as_slice())
    }

    /// Start an authentication. A stored redirect result is handed back at
    /// once; device authentication needs no redirect; otherwise the pending
    /// state of the session is saved and the auth URL built, which must be
    /// HTTPS or `http://localhost`.
    pub fn begin_authentication(&mut self, options: &PhantomConnectOptions) -> (r: Result<AuthStart, String>)
        ensures
            final(self)@.params == old(self)@.params,
            final(self)@.redirect_url == old(self)@.redirect_url,
            final(self)@.auth_url == old(self)@.auth_url,
            final(self)@.redirect_result is None,
            match old(self)@.redirect_result {
                Some(res) => r matches Ok(AuthStart::Resumed(x)) && x == res && final(self)@.pending
                    == old(self)@.pending,
                None => {
                    let provider = match options.provider {
                        Some(p) => p,
                        None => EmbeddedProviderAuthType::Google,
                    };
                    let url = auth_url_text(*options, old(self)@.auth_url, old(self)@.redirect_url);
                    if provider == EmbeddedProviderAuthType::Device {
                        r matches Ok(AuthStart::DeviceFlow) && final(self)@.pending == old(self)@.pending
                    } else {
                        &&& final(self)@.pending.dom() == old(self)@.pending.dom().insert(options.session_id@)
                        &&& final(self)@.pending[options.session_id@].provider == provider
                        &&& final(self)@.pending[options.session_id@].session_id@ == options.session_id@
                        &&& final(self)@.pending[options.session_id@].public_key@ == options.public_key@
                        &&& final(self)@.pending[options.session_id@].app_id@ == options.app_id@
                        &&& forall|k: Seq<char>| k != options.session_id@ && #[trigger] old(self)@.pending.contains_key(k)
                            ==> final(self)@.pending[k] == old(self)@.pending[k]
                        &&& if auth_url_allowed(url) {
                            r matches Ok(AuthStart::Redirect(u)) && u@ == url
                        } else {
                            r matches Err(e) && e@
                                == "Invalid auth URL - only HTTPS URLs or http://localhost are allowed for authentication"@
                        }
                    }
                },
            },
    {
        if self.redirect_result.is_some() {
            let res = self.redirect_result.take();
            match res {
                Some(x) => return Ok(AuthStart::Resumed(x)),
                None => {},
            }
        }
        let provider = match options.provider {
            Some(p) => p,
            None => EmbeddedProviderAuthType::Google,
        };
        if provider == EmbeddedProviderAuthType::Device {
            return Ok(AuthStart::DeviceFlow);
        }
        let state = PendingAuthState {
            provider,
            session_id: options.session_id.clone(),
            public_key: options.public_key.clone(),
            app_id: options.app_id.clone(),
        };
        self.pending_auth.insert(options.session_id.clone(), state);
        let url = self.build_auth_url(options);
        let uc = chars_of(url.as_str());
        let https = chars_of("https:");
        let local = chars_of("http://localhost");
        if !starts_with_exec(uc.as_slice(), https.as_slice()) && !starts_with_exec(
            uc.as_slice(),
            local.as_slice(),
        ) {
            return Err(
                String::from_str(
                    "Invalid auth URL - only HTTPS URLs or http://localhost are allowed for authentication",
                ),
            );
        }
        Ok(AuthStart::Redirect(url))
    }

    /// Resume authentication from a redirect callback: a stored result for
    /// the same provider is handed back; otherwise the callback parameters
    /// decide (`resume_from_params`): a callback for a session with no
    /// pending authentication is refused, which stops a replayed callback,
    /// and the pending state of the session is dropped once consumed.
    pub fn resume_auth_from_redirect(&mut self, provider: EmbeddedProviderAuthType) -> (r: Result<Option<AuthResult>, String>)
        ensures
            final(self)@.params == old(self)@.params,
            final(self)@.redirect_url == old(self)@.redirect_url,
            final(self)@.auth_url == old(self)@.auth_url,
            match old(self)@.redirect_result {
                Some(res) if res.provider == provider => r == Ok::<Option<AuthResult>, String>(Some(res))
                    && final(self)@.redirect_result is None && final(self)@.pending == old(self)@.pending,
                _ => {
                    let m = old(self)@.params;
                    &&& final(self)@.redirect_result == old(self)@.redirect_result
                    &&& final(self)@.pending == if resume_consumes_session(m) {
                        old(self)@.pending.remove(m["session_id"@])
                    } else {
                        old(self)@.pending
                    }
                    &&& match resume_from_params(m, provider, old(self)@.pending.dom()) {
                        Ok(None) => r matches Ok(None),
                        Ok(Some(v)) => r matches Ok(Some(x)) && x@ == v,
                        Err(e) => r matches Err(msg) && msg@ == e,
                    }
                },
            },
    {
        let matches_provider = match &self.redirect_result {
            Some(res) => res.provider == provider,
            None => false,
        };
        if matches_provider {
            return Ok(self.redirect_result.take());
        }
        let wallet_id = self.url_params.get_param("wallet_id");
        let session_id = self.url_params.get_param("session_id");
        let account_derivation_index = self.url_params.get_param("selected_account_index");
        let error = self.url_params.get_param("error");
        let error_description = self.url_params.get_param("error_description");

        if let Some(error_code) = error {
            let detail = match &error_description {
                Some(d) => d.as_str(),
                None => error_code.as_str(),
            };
            if let Some(sid) = &session_id {
                self.pending_auth.remove(sid.as_str());
            }
            let code = error_code.as_str();
            let prefix = if str_eq(code, "access_denied") {
                "Authentication cancelled: "
            } else if str_eq(code, "invalid_request") {
                "Invalid authentication request: "
            } else if str_eq(code, "server_error") {
                "Authentication server error: "
            } else if str_eq(code, "temporarily_unavailable") {
                "Authentication service temporarily unavailable: "
            } else {
                "Authentication failed: "
            };
            let mut msg = chars_of(prefix);
            push_str(&mut msg, detail);
            return Err(string_from_chars(msg.as_slice()));
        }
        let wallet_id = match wallet_id {
            Some(id) => id,
            None => return Ok(None),
        };
        let session_id = match session_id {
            Some(id) => id,
            None => return Ok(None),
        };
        if !self.pending_auth.contains_key(session_id.as_str()) {
            proof {
                assert(old(self)@.pending.remove(session_id@) =~= old(self)@.pending);
            }
            return Err(
                String::from_str("No pending auth state found for session_id - possible session corruption or replay"),
            );
        }
        let organization_id = self.url_params.get_param("organization_id");
        let expires_in_ms = self.url_params.get_param("expires_in_ms");
        let auth_user_id = self.url_params.get_param("auth_user_id");
        let organization_id = match organization_id {
            Some(id) => id,
            None => {
                self.pending_auth.remove(session_id.as_str());
                return Err(String::from_str("Missing organization_id in auth response"));
            },
        };
        let parsed_index: u32 = match &account_derivation_index {
            Some(s) => match parse_u32(s.as_str()) {
                Some(v) => v,
                None => 0,
            },
            None => 0,
        };
        let parsed_expires: u64 = match &expires_in_ms {
            Some(s) => match parse_u64(s.as_str()) {
                Some(v) => v,
                None => 0,
            },
            None => 0,
        };
        self.pending_auth.remove(session_id.as_str());
        Ok(
            Some(
                AuthResult {
                    wallet_id,
                    organization_id,
                    provider,
                    account_derivation_index: parsed_index,
                    expires_in_ms: parsed_expires,
                    auth_user_id,
                },
            ),
        )
    }
}

/// The auth URL names the requested provider: it ends with `&provider=`
/// and the (percent-encoded) parameter of the provider asked for, Google
/// when none is asked for; that parameter is the provider's name in lower
/// case (`google`, `apple`, `phantom`, `device`), so distinct providers are
/// sent as distinct parameters.
pub proof fn law_auth_url_names_provider(
    options: PhantomConnectOptions,
    default_auth_url: Option<Seq<char>>,
    default_redirect_url: Option<Seq<char>>,
    p1: EmbeddedProviderAuthType,
    p2: EmbeddedProviderAuthType,
)
    ensures
        ({
            let provider = match options.provider {
                Some(p) => p,
                None => EmbeddedProviderAuthType::Google,
            };
            exists|head: Seq<char>|
                auth_url_text(options, default_auth_url, default_redirect_url) == head + "&provider="@ + url_param(
                    provider_param(provider),
                )
        }),
        provider_param(p1) == ascii_lower_seq(auth_type_name(auth_type_of_embedded(p1))),
        p1 != p2 ==> provider_param(p1) != provider_param(p2),
{
    let provider = match options.provider {
        Some(p) => p,
        None => EmbeddedProviderAuthType::Google,
    };
    let url = auth_url_text(options, default_auth_url, default_redirect_url);
    let tail = "&provider="@ + url_param(provider_param(provider));
    assert(url.len() >= tail.len());
    let head = url.subrange(0, url.len() - tail.len());
    assert(url =~= head + "&provider="@ + url_param(provider_param(provider)));
    reveal_strlit("google");
    reveal_strlit("apple");
    reveal_strlit("phantom");
    reveal_strlit("device");
    reveal_strlit("Google");
    reveal_strlit("Apple");
    reveal_strlit("Phantom");
    reveal_strlit("Device");
    assert(provider_param(p1) =~= ascii_lower_seq(auth_type_name(auth_type_of_embedded(p1))));
    if p1 != p2 {
        assert(provider_param(p1) != provider_param(p2)) by {
            if provider_param(p1) == provider_param(p2) {
                assert(provider_param(p1).len() == provider_param(p2).len());
                assert(provider_param(p1)[0] == provider_param(p2)[0]);
            }
        }
    }
}


/// The auth URL carries each option under its own parameter: it starts with
/// the auth server and `?public_key=` and the public key, and holds
/// `&app_id=`, `&redirect_uri=`, `&session_id=`, `&clear_previous_session=`,
/// `&allow_refresh=` and `&algorithm=` each followed by the (encoded) value
/// asked for or its default; distinct algorithms are sent as distinct
/// parameters.
#[verifier::rlimit(50)]
pub proof fn law_auth_url_carries_options(
    options: PhantomConnectOptions,
    default_auth_url: Option<Seq<char>>,
    default_redirect_url: Option<Seq<char>>,
    a1: Algorithm,
    a2: Algorithm,
)
    ensures
        ({
            let url = auth_url_text(options, default_auth_url, default_redirect_url);
            let base = first_or(opt_view(options.auth_url), default_auth_url, "https://auth.phantom.app"@);
            let redirect = first_or(opt_view(options.redirect_url), default_redirect_url, ""@);
            let algorithm = match options.algorithm {
                Some(a) => a,
                None => Algorithm::Ed25519,
            };
            let clear = match options.clear_previous_session {
                Some(b) => b,
                None => false,
            };
            let refresh = match options.allow_refresh {
                Some(b) => b,
                None => true,
            };
            &&& starts_with(url, base + "?public_key="@ + url_param(options.public_key@))
            &&& contains_seq(url, "?public_key="@ + url_param(options.public_key@))
            &&& contains_seq(url, "&app_id="@ + url_param(options.app_id@))
            &&& contains_seq(url, "&redirect_uri="@ + url_param(redirect))
            &&& contains_seq(url, "&session_id="@ + url_param(options.session_id@))
            &&& contains_seq(url, "&clear_previous_session="@ + bool_text(clear))
            &&& contains_seq(url, "&allow_refresh="@ + bool_text(refresh))
            &&& contains_seq(url, "&algorithm="@ + url_param(algorithm_param(algorithm)))
        }),
        a1 != a2 ==> algorithm_param(a1) != algorithm_param(a2),
{
    let url = auth_url_text(options, default_auth_url, default_redirect_url);
    let base = first_or(opt_view(options.auth_url), default_auth_url, "https://auth.phantom.app"@);
    let redirect = first_or(opt_view(options.redirect_url), default_redirect_url, ""@);
    let provider = match options.provider {
        Some(p) => p,
        None => EmbeddedProviderAuthType::Google,
    };
    let algorithm = match options.algorithm {
        Some(a) => a,
        None => Algorithm::Ed25519,
    };
    let clear = match options.clear_previous_session {
        Some(b) => b,
        None => false,
    };
    let refresh = match options.allow_refresh {
        Some(b) => b,
        None => true,
    };
    let t0 = base;
    let t1 = t0 + "?public_key="@;
    let t2 = t1 + url_param(options.public_key@);
    let t3 = t2 + "&app_id="@;
    let t4 = t3 + url_param(options.app_id@);
    let t5 = t4 + "&redirect_uri="@;
    let t6 = t5 + url_param(redirect);
    let t7 = t6 + "&session_id="@;
    let t8 = t7 + url_param(options.session_id@);
    let t9 = t8 + "&clear_previous_session="@;
    let t10 = t9 + bool_text(clear);
    let t11 = t10 + "&allow_refresh="@;
    let t12 = t11 + bool_text(refresh);
    let t13 = t12 + "&sdk_version="@;
    let t14 = t13 + url_param(SDK_VERSION@);
    let t15 = t14 + "&sdk_type="@;
    let t16 = t15 + url_param(SDK_TYPE@);
    let t17 = t16 + "&platform="@;
    let t18 = t17 + url_param(SDK_PLATFORM@);
    let t19 = t18 + "&algorithm="@;
    let t20 = t19 + url_param(algorithm_param(algorithm));
    let t21 = t20 + "&provider="@;
    let t22 = t21 + url_param(provider_param(provider));
    assert(url == t22);
    assert(starts_with(url, t2)) by {
        assert(t2.subrange(0, t2.len() as int) =~= t2);
        lemma_starts_with_append(t2, "&app_id="@, t2);
        lemma_starts_with_append(t3, url_param(options.app_id@), t2);
        lemma_starts_with_append(t4, "&redirect_uri="@, t2);
        lemma_starts_with_append(t5, url_param(redirect), t2);
        lemma_starts_with_append(t6, "&session_id="@, t2);
        lemma_starts_with_append(t7, url_param(options.session_id@), t2);
        lemma_starts_with_append(t8, "&clear_previous_session="@, t2);
        lemma_starts_with_append(t9, bool_text(clear), t2);
        lemma_starts_with_append(t10, "&allow_refresh="@, t2);
        lemma_starts_with_append(t11, bool_text(refresh), t2);
        lemma_starts_with_append(t12, "&sdk_version="@, t2);
        lemma_starts_with_append(t13, url_param(SDK_VERSION@), t2);
        lemma_starts_with_append(t14, "&sdk_type="@, t2);
        lemma_starts_with_append(t15, url_param(SDK_TYPE@), t2);
        lemma_starts_with_append(t16, "&platform="@, t2);
        lemma_starts_with_append(t17, url_param(SDK_PLATFORM@), t2);
        lemma_starts_with_append(t18, "&algorithm="@, t2);
        lemma_starts_with_append(t19, url_param(algorithm_param(algorithm)), t2);
        lemma_starts_with_append(t20, "&provider="@, t2);
        lemma_starts_with_append(t21, url_param(provider_param(provider)), t2);
    }
    assert(contains_seq(url, "?public_key="@ + url_param(options.public_key@))) by {
        lemma_contains_last_two(t0, "?public_key="@, url_param(options.public_key@));
        lemma_contains_append_right(t2, "&app_id="@, "?public_key="@ + url_param(options.public_key@));
        lemma_contains_append_right(t3, url_param(options.app_id@), "?public_key="@ + url_param(options.public_key@));
        lemma_contains_append_right(t4, "&redirect_uri="@, "?public_key="@ + url_param(options.public_key@));
        lemma_contains_append_right(t5, url_param(redirect), "?public_key="@ + url_param(options.public_key@));
        lemma_contains_append_right(t6, "&session_id="@, "?public_key="@ + url_param(options.public_key@));
        lemma_contains_append_right(t7, url_param(options.session_id@), "?public_key="@ + url_param(options.public_key@));
        lemma_contains_append_right(t8, "&clear_previous_session="@, "?public_key="@ + url_param(options.public_key@));
        lemma_contains_append_right(t9, bool_text(clear), "?public_key="@ + url_param(options.public_key@));
        lemma_contains_append_right(t10, "&allow_refresh="@, "?public_key="@ + url_param(options.public_key@));
        lemma_contains_append_right(t11, bool_text(refresh), "?public_key="@ + url_param(options.public_key@));
        lemma_contains_append_right(t12, "&sdk_version="@, "?public_key="@ + url_param(options.public_key@));
        lemma_contains_append_right(t13, url_param(SDK_VERSION@), "?public_key="@ + url_param(options.public_key@));
        lemma_contains_append_right(t14, "&sdk_type="@, "?public_key="@ + url_param(options.public_key@));
        lemma_contains_append_right(t15, url_param(SDK_TYPE@), "?public_key="@ + url_param(options.public_key@));
        lemma_contains_append_right(t16, "&platform="@, "?public_key="@ + url_param(options.public_key@));
        lemma_contains_append_right(t17, url_param(SDK_PLATFORM@), "?public_key="@ + url_param(options.public_key@));
        lemma_contains_append_right(t18, "&algorithm="@, "?public_key="@ + url_param(options.public_key@));
        lemma_contains_append_right(t19, url_param(algorithm_param(algorithm)), "?public_key="@ + url_param(options.public_key@));
        lemma_contains_append_right(t20, "&provider="@, "?public_key="@ + url_param(options.public_key@));
        lemma_contains_append_right(t21, url_param(provider_param(provider)), "?public_key="@ + url_param(options.public_key@));
    }
    assert(contains_seq(url, "&app_id="@ + url_param(options.app_id@))) by {
        lemma_contains_last_two(t2, "&app_id="@, url_param(options.app_id@));
        lemma_contains_append_right(t4, "&redirect_uri="@, "&app_id="@ + url_param(options.app_id@));
        lemma_contains_append_right(t5, url_param(redirect), "&app_id="@ + url_param(options.app_id@));
        lemma_contains_append_right(t6, "&session_id="@, "&app_id="@ + url_param(options.app_id@));
        lemma_contains_append_right(t7, url_param(options.session_id@), "&app_id="@ + url_param(options.app_id@));
        lemma_contains_append_right(t8, "&clear_previous_session="@, "&app_id="@ + url_param(options.app_id@));
        lemma_contains_append_right(t9, bool_text(clear), "&app_id="@ + url_param(options.app_id@));
        lemma_contains_append_right(t10, "&allow_refresh="@, "&app_id="@ + url_param(options.app_id@));
        lemma_contains_append_right(t11, bool_text(refresh), "&app_id="@ + url_param(options.app_id@));
        lemma_contains_append_right(t12, "&sdk_version="@, "&app_id="@ + url_param(options.app_id@));
        lemma_contains_append_right(t13, url_param(SDK_VERSION@), "&app_id="@ + url_param(options.app_id@));
        lemma_contains_append_right(t14, "&sdk_type="@, "&app_id="@ + url_param(options.app_id@));
        lemma_contains_append_right(t15, url_param(SDK_TYPE@), "&app_id="@ + url_param(options.app_id@));
        lemma_contains_append_right(t16, "&platform="@, "&app_id="@ + url_param(options.app_id@));
        lemma_contains_append_right(t17, url_param(SDK_PLATFORM@), "&app_id="@ + url_param(options.app_id@));
        lemma_contains_append_right(t18, "&algorithm="@, "&app_id="@ + url_param(options.app_id@));
        lemma_contains_append_right(t19, url_param(algorithm_param(algorithm)), "&app_id="@ + url_param(options.app_id@));
        lemma_contains_append_right(t20, "&provider="@, "&app_id="@ + url_param(options.app_id@));
        lemma_contains_append_right(t21, url_param(provider_param(provider)), "&app_id="@ + url_param(options.app_id@));
    }
    assert(contains_seq(url, "&redirect_uri="@ + url_param(redirect))) by {
        lemma_contains_last_two(t4, "&redirect_uri="@, url_param(redirect));
        lemma_contains_append_right(t6, "&session_id="@, "&redirect_uri="@ + url_param(redirect));
        lemma_contains_append_right(t7, url_param(options.session_id@), "&redirect_uri="@ + url_param(redirect));
        lemma_contains_append_right(t8, "&clear_previous_session="@, "&redirect_uri="@ + url_param(redirect));
        lemma_contains_append_right(t9, bool_text(clear), "&redirect_uri="@ + url_param(redirect));
        lemma_contains_append_right(t10, "&allow_refresh="@, "&redirect_uri="@ + url_param(redirect));
        lemma_contains_append_right(t11, bool_text(refresh), "&redirect_uri="@ + url_param(redirect));
        lemma_contains_append_right(t12, "&sdk_version="@, "&redirect_uri="@ + url_param(redirect));
        lemma_contains_append_right(t13, url_param(SDK_VERSION@), "&redirect_uri="@ + url_param(redirect));
        lemma_contains_append_right(t14, "&sdk_type="@, "&redirect_uri="@ + url_param(redirect));
        lemma_contains_append_right(t15, url_param(SDK_TYPE@), "&redirect_uri="@ + url_param(redirect));
        lemma_contains_append_right(t16, "&platform="@, "&redirect_uri="@ + url_param(redirect));
        lemma_contains_append_right(t17, url_param(SDK_PLATFORM@), "&redirect_uri="@ + url_param(redirect));
        lemma_contains_append_right(t18, "&algorithm="@, "&redirect_uri="@ + url_param(redirect));
        lemma_contains_append_right(t19, url_param(algorithm_param(algorithm)), "&redirect_uri="@ + url_param(redirect));
        lemma_contains_append_right(t20, "&provider="@, "&redirect_uri="@ + url_param(redirect));
        lemma_contains_append_right(t21, url_param(provider_param(provider)), "&redirect_uri="@ + url_param(redirect));
    }
    assert(contains_seq(url, "&session_id="@ + url_param(options.session_id@))) by {
        lemma_contains_last_two(t6, "&session_id="@, url_param(options.session_id@));
        lemma_contains_append_right(t8, "&clear_previous_session="@, "&session_id="@ + url_param(options.session_id@));
        lemma_contains_append_right(t9, bool_text(clear), "&session_id="@ + url_param(options.session_id@));
        lemma_contains_append_right(t10, "&allow_refresh="@, "&session_id="@ + url_param(options.session_id@));
        lemma_contains_append_right(t11, bool_text(refresh), "&session_id="@ + url_param(options.session_id@));
        lemma_contains_append_right(t12, "&sdk_version="@, "&session_id="@ + url_param(options.session_id@));
        lemma_contains_append_right(t13, url_param(SDK_VERSION@), "&session_id="@ + url_param(options.session_id@));
        lemma_contains_append_right(t14, "&sdk_type="@, "&session_id="@ + url_param(options.session_id@));
        lemma_contains_append_right(t15, url_param(SDK_TYPE@), "&session_id="@ + url_param(options.session_id@));
        lemma_contains_append_right(t16, "&platform="@, "&session_id="@ + url_param(options.session_id@));
        lemma_contains_append_right(t17, url_param(SDK_PLATFORM@), "&session_id="@ + url_param(options.session_id@));
        lemma_contains_append_right(t18, "&algorithm="@, "&session_id="@ + url_param(options.session_id@));
        lemma_contains_append_right(t19, url_param(algorithm_param(algorithm)), "&session_id="@ + url_param(options.session_id@));
        lemma_contains_append_right(t20, "&provider="@, "&session_id="@ + url_param(options.session_id@));
        lemma_contains_append_right(t21, url_param(provider_param(provider)), "&session_id="@ + url_param(options.session_id@));
    }
    assert(contains_seq(url, "&clear_previous_session="@ + bool_text(clear))) by {
        lemma_contains_last_two(t8, "&clear_previous_session="@, bool_text(clear));
        lemma_contains_append_right(t10, "&allow_refresh="@, "&clear_previous_session="@ + bool_text(clear));
        lemma_contains_append_right(t11, bool_text(refresh), "&clear_previous_session="@ + bool_text(clear));
        lemma_contains_append_right(t12, "&sdk_version="@, "&clear_previous_session="@ + bool_text(clear));
        lemma_contains_append_right(t13, url_param(SDK_VERSION@), "&clear_previous_session="@ + bool_text(clear));
        lemma_contains_append_right(t14, "&sdk_type="@, "&clear_previous_session="@ + bool_text(clear));
        lemma_contains_append_right(t15, url_param(SDK_TYPE@), "&clear_previous_session="@ + bool_text(clear));
        lemma_contains_append_right(t16, "&platform="@, "&clear_previous_session="@ + bool_text(clear));
        lemma_contains_append_right(t17, url_param(SDK_PLATFORM@), "&clear_previous_session="@ + bool_text(clear));
        lemma_contains_append_right(t18, "&algorithm="@, "&clear_previous_session="@ + bool_text(clear));
        lemma_contains_append_right(t19, url_param(algorithm_param(algorithm)), "&clear_previous_session="@ + bool_text(clear));
        lemma_contains_append_right(t20, "&provider="@, "&clear_previous_session="@ + bool_text(clear));
        lemma_contains_append_right(t21, url_param(provider_param(provider)), "&clear_previous_session="@ + bool_text(clear));
    }
    assert(contains_seq(url, "&allow_refresh="@ + bool_text(refresh))) by {
        lemma_contains_last_two(t10, "&allow_refresh="@, bool_text(refresh));
        lemma_contains_append_right(t12, "&sdk_version="@, "&allow_refresh="@ + bool_text(refresh));
        lemma_contains_append_right(t13, url_param(SDK_VERSION@), "&allow_refresh="@ + bool_text(refresh));
        lemma_contains_append_right(t14, "&sdk_type="@, "&allow_refresh="@ + bool_text(refresh));
        lemma_contains_append_right(t15, url_param(SDK_TYPE@), "&allow_refresh="@ + bool_text(refresh));
        lemma_contains_append_right(t16, "&platform="@, "&allow_refresh="@ + bool_text(refresh));
        lemma_contains_append_right(t17, url_param(SDK_PLATFORM@), "&allow_refresh="@ + bool_text(refresh));
        lemma_contains_append_right(t18, "&algorithm="@, "&allow_refresh="@ + bool_text(refresh));
        lemma_contains_append_right(t19, url_param(algorithm_param(algorithm)), "&allow_refresh="@ + bool_text(refresh));
        lemma_contains_append_right(t20, "&provider="@, "&allow_refresh="@ + bool_text(refresh));
        lemma_contains_append_right(t21, url_param(provider_param(provider)), "&allow_refresh="@ + bool_text(refresh));
    }
    assert(contains_seq(url, "&algorithm="@ + url_param(algorithm_param(algorithm)))) by {
        lemma_contains_last_two(t18, "&algorithm="@, url_param(algorithm_param(algorithm)));
        lemma_contains_append_right(t20, "&provider="@, "&algorithm="@ + url_param(algorithm_param(algorithm)));
        lemma_contains_append_right(t21, url_param(provider_param(provider)), "&algorithm="@ + url_param(algorithm_param(algorithm)));
    }
    reveal_strlit("ed25519");
    reveal_strlit("secp256r1");
    assert("ed25519"@.len() != "secp256r1"@.len());
}


} // verus!
