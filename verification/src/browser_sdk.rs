//! The browser SDK: its configuration and how it is checked, the provider
//! manager that chooses which provider serves a connection, wallet
//! discovery, and waiting for the Phantom extension.
//!
//! Providers are reached through asynchronous calls made by the caller;
//! the manager holds provider handles of any type `P` under their keys and
//! decides which one is current.
use vstd::prelude::*;
use crate::client_constants::AddressFormat;
use crate::client_types::WalletAddress;
use crate::embedded_auth::EmbeddedProviderAuthType;
use crate::text::{chars_of, push_str, starts_with, str_eq, string_from_chars};
use crate::wallets::{
    CustomWalletConfig, InjectedWalletInfo, InjectedWalletRegistry, custom_wallet_configs,
    discovered, wallet_ids,
};

verus! {

/// Authentication provider type: the embedded wallet's providers, the
/// injected extension, and the mobile deeplink.
#[derive(Debug, Clone, Copy, PartialEq, Eq, Structural)]
pub enum AuthProviderType {
    Google,
    Apple,
    Phantom,
    Device,
    Injected,
    Deeplink,
}

/// The embedded provider type as an SDK provider type.
pub open spec fn auth_type_of_embedded(v: EmbeddedProviderAuthType) -> AuthProviderType {
    match v {
        EmbeddedProviderAuthType::Google => AuthProviderType::Google,
        EmbeddedProviderAuthType::Apple => AuthProviderType::Apple,
        EmbeddedProviderAuthType::Phantom => AuthProviderType::Phantom,
        EmbeddedProviderAuthType::Device => AuthProviderType::Device,
    }
}

impl From<EmbeddedProviderAuthType> for AuthProviderType {
    fn from(val: EmbeddedProviderAuthType) -> (r: Self) {
        match val {
            EmbeddedProviderAuthType::Google => AuthProviderType::Google,
            EmbeddedProviderAuthType::Apple => AuthProviderType::Apple,
            EmbeddedProviderAuthType::Phantom => AuthProviderType::Phantom,
            EmbeddedProviderAuthType::Device => AuthProviderType::Device,
        }
    }
}

impl vstd::std_specs::convert::FromSpecImpl<EmbeddedProviderAuthType> for AuthProviderType {
    open spec fn obeys_from_spec() -> bool {
        true
    }

    open spec fn from_spec(v: EmbeddedProviderAuthType) -> AuthProviderType {
        auth_type_of_embedded(v)
    }
}

/// The name of a provider type as its `Debug` form writes it.
pub open spec fn auth_type_name(t: AuthProviderType) -> Seq<char> {
    match t {
        AuthProviderType::Google => "Google"@,
        AuthProviderType::Apple => "Apple"@,
        AuthProviderType::Phantom => "Phantom"@,
        AuthProviderType::Device => "Device"@,
        AuthProviderType::Injected => "Injected"@,
        AuthProviderType::Deeplink => "Deeplink"@,
    }
}

impl AuthProviderType {
    /// The name of the provider type, as its `Debug` form writes it.
    pub fn debug_name(&self) -> (r: &'static str)
        ensures
            r@ == auth_type_name(*self),
    {
        match self {
            AuthProviderType::Google => "Google",
            AuthProviderType::Apple => "Apple",
            AuthProviderType::Phantom => "Phantom",
            AuthProviderType::Device => "Device",
            AuthProviderType::Injected => "Injected",
            AuthProviderType::Deeplink => "Deeplink",
        }
    }
}

/// Authentication options for connecting to a wallet.
#[derive(Debug)]
pub struct AuthOptions {
    /// Authentication provider to use.
    pub provider: AuthProviderType,
    /// Wallet ID for injected wallet selection.
    pub wallet_id: Option<String>,
    /// Custom authentication data, by key.
    pub custom_auth_data: Option<Vec<(String, serde_json::Value)>>,
}

/// Authentication URL options.
#[derive(Debug, Clone)]
pub struct AuthUrlOptions {
    pub auth_url: Option<String>,
    pub redirect_url: Option<String>,
}

/// Connection status.
#[derive(Debug, Clone, Copy, PartialEq, Eq, Structural)]
pub enum ConnectStatus {
    Pending,
    Completed,
}

/// Wallet info included in connect results of injected providers.
#[derive(Debug, Clone)]
pub struct ConnectResultWalletInfo {
    pub id: String,
    pub name: String,
    pub icon: Option<String>,
    pub address_types: Vec<AddressFormat>,
    pub rdns: Option<String>,
    pub discovery: Option<String>,
}

/// Result of a connection.
#[derive(Debug, Clone)]
pub struct ConnectResult {
    pub addresses: Vec<WalletAddress>,
    pub wallet_id: Option<String>,
    pub auth_user_id: Option<String>,
    pub auth_provider: Option<AuthProviderType>,
    pub status: Option<ConnectStatus>,
    pub wallet: Option<ConnectResultWalletInfo>,
}

/// Browser SDK configuration.
#[derive(Debug, Clone)]
pub struct BrowserSdkConfig {
    /// Allowed authentication providers.
    pub providers: Vec<AuthProviderType>,
    /// Application ID (required when using embedded providers).
    pub app_id: Option<String>,
    pub api_base_url: Option<String>,
    /// Embedded wallet type, "user-wallet" when absent.
    pub embedded_wallet_type: Option<String>,
    pub auth_options: Option<AuthUrlOptions>,
    /// Address types to enable.
    pub address_types: Vec<AddressFormat>,
}

/// The embedded wallet type of a configuration: its own, else "user-wallet".
pub open spec fn embedded_wallet_type_of(c: BrowserSdkConfig) -> Seq<char> {
    match c.embedded_wallet_type {
        Some(t) => t@,
        None => "user-wallet"@,
    }
}

/// Why the SDK refuses a configuration, in the order of the checks: no
/// providers; an embedded provider (anything but the injected one, the
/// deeplink included) without an app ID; a wallet type other than
/// "app-wallet" or "user-wallet".
pub open spec fn sdk_config_error(c: BrowserSdkConfig) -> Option<Seq<char>> {
    let t = embedded_wallet_type_of(c);
    if c.providers@.len() == 0 {
        Some("providers must be a non-empty array of AuthProviderType"@)
    } else if (exists|i: int| 0 <= i < c.providers@.len() && c.providers@[i] != AuthProviderType::Injected)
        && c.app_id is None {
        Some("appId is required when using embedded providers (google, apple, phantom, etc.)"@)
    } else if !(t == "app-wallet"@ || t == "user-wallet"@) {
        Some("Invalid embeddedWalletType: "@ + t + ". Must be \"app-wallet\" or \"user-wallet\"."@)
    } else {
        None
    }
}

/// Check a configuration as the SDK does when it is created.
pub fn validate_sdk_config(config: &BrowserSdkConfig) -> (r: Result<(), String>)
    ensures
        match sdk_config_error(*config) {
            Some(e) => r matches Err(m) && m@ == e,
            None => r is Ok,
        },
{
    if config.providers.len() == 0 {
        return Err(String::from_str("providers must be a non-empty array of AuthProviderType"));
    }
    let mut has_embedded = false;
    let mut i: usize = 0;
    while i < config.providers.len()
        invariant
            0 <= i <= config.providers@.len(),
            has_embedded == exists|j: int| 0 <= j < i && config.providers@[j] != AuthProviderType::Injected,
        decreases config.providers@.len() - i,
    {
        if config.providers[i] != AuthProviderType::Injected {
            has_embedded = true;
        }
        i = i + 1;
    }
    if has_embedded && config.app_id.is_none() {
        return Err(
            String::from_str("appId is required when using embedded providers (google, apple, phantom, etc.)"),
        );
    }
    let wallet_type: &str = match &config.embedded_wallet_type {
        Some(t) => t.as_str(),
        None => "user-wallet",
    };
    if !(str_eq(wallet_type, "app-wallet") || str_eq(wallet_type, "user-wallet")) {
        let mut m = chars_of("Invalid embeddedWalletType: ");
        push_str(&mut m, wallet_type);
        push_str(&mut m, ". Must be \"app-wallet\" or \"user-wallet\".");
        return Err(string_from_chars(m.as_slice()));
    }
    Ok(())
}

/// Provider preference information: the kind of the current provider and,
/// for the embedded one, its wallet type.
#[derive(Debug, Clone)]
pub struct ProviderPreference {
    pub provider_type: String,
    pub embedded_wallet_type: Option<String>,
}

/// The key under which the embedded provider of a configuration is kept.
pub open spec fn embedded_key(c: BrowserSdkConfig) -> Seq<char> {
    "embedded-"@ + embedded_wallet_type_of(c)
}

/// Whether a list of provider keys has `key`, and where it first appears.
pub open spec fn is_first_with_key<P>(ps: Seq<(String, P)>, key: Seq<char>, i: int) -> bool {
    &&& 0 <= i < ps.len()
    &&& ps[i].0@ == key
    &&& forall|j: int| 0 <= j < i ==> ps[j].0@ != key
}

/// How a connection is served after the manager chose its provider.
#[derive(Debug, Clone, Copy, PartialEq, Eq, Structural)]
pub enum ConnectRoute {
    /// The deeplink: an empty result, the redirect happens elsewhere.
    Deeplink,
    /// The current provider connects.
    CurrentProvider,
}

/// Abstract state of a provider manager.
pub struct ManagerState<P> {
    pub config: BrowserSdkConfig,
    pub providers: Seq<(String, P)>,
    pub current_key: Option<Seq<char>>,
}

/// The providers of the SDK under their keys, and the key of the current one.
pub struct ProviderManager<P> {
    config: BrowserSdkConfig,
    providers: Vec<(String, P)>,
    current_provider_key: Option<String>,
}

impl<P> View for ProviderManager<P> {
    type V = ManagerState<P>;

    closed spec fn view(&self) -> ManagerState<P> {
        ManagerState {
            config: self.config,
            providers: self.providers@,
            current_key: match self.current_provider_key {
                Some(k) => Some(k@),
                None => None,
            },
        }
    }
}

/// Whether the configuration allows the injected provider.
pub open spec fn allows_injected(c: BrowserSdkConfig) -> bool {
    c.providers@.contains(AuthProviderType::Injected)
}

/// Whether the configuration allows an embedded provider (neither the
/// injected one nor the deeplink).
pub open spec fn allows_embedded(c: BrowserSdkConfig) -> bool {
    exists|i: int|
        0 <= i < c.providers@.len() && c.providers@[i] != AuthProviderType::Injected && c.providers@[i]
            != AuthProviderType::Deeplink
}

fn embedded_key_of(config: &BrowserSdkConfig) -> (r: String)
    ensures
        r@ == embedded_key(*config),
{
    let mut m = chars_of("embedded-");
    match &config.embedded_wallet_type {
        Some(t) => push_str(&mut m, t.as_str()),
        None => push_str(&mut m, "user-wallet"),
    }
    string_from_chars(m.as_slice())
}

fn contains_type(ps: &Vec<AuthProviderType>, t: AuthProviderType) -> (r: bool)
    ensures
        r == ps@.contains(t),
{
    let mut i: usize = 0;
    while i < ps.len()
        invariant
            0 <= i <= ps@.len(),
            forall|j: int| 0 <= j < i ==> ps@[j] != t,
        decreases ps@.len() - i,
    {
        if ps[i] == t {
            return true;
        }
        i = i + 1;
    }
    false
}

impl<P> ProviderManager<P> {
    /// A manager with no providers and none current.
    pub fn new(config: BrowserSdkConfig) -> (r: Self)
        ensures
            r@.config == config,
            r@.providers.len() == 0,
            r@.current_key is None,
    {
        ProviderManager { config, providers: Vec::new(), current_provider_key: None }
    }

    /// Set up the providers: `injected` is kept under "injected" when the
    /// configuration allows the injected provider; the current key becomes
    /// the embedded key when an embedded provider is allowed, else
    /// "injected" when that one is, else it stays.
    pub fn initialize(&mut self, injected: P)
        ensures
            final(self)@.config == old(self)@.config,
            final(self)@.providers.len() == old(self)@.providers.len() + if allows_injected(old(self)@.config) {
                1int
            } else {
                0int
            },
            forall|i: int| 0 <= i < old(self)@.providers.len() ==> final(self)@.providers[i] == old(self)@.providers[i],
            allows_injected(old(self)@.config) ==> final(self)@.providers.last().0@ == "injected"@
                && final(self)@.providers.last().1 == injected,
            final(self)@.current_key == if allows_embedded(old(self)@.config) {
                Some(embedded_key(old(self)@.config))
            } else if allows_injected(old(self)@.config) {
                Some("injected"@)
            } else {
                old(self)@.current_key
            },
    {
        let has_injected = contains_type(&self.config.providers, AuthProviderType::Injected);
        let mut has_embedded = false;
        let mut i: usize = 0;
        while i < self.config.providers.len()
            invariant
                0 <= i <= self.config.providers@.len(),
                has_embedded == exists|j: int|
                    0 <= j < i && self.config.providers@[j] != AuthProviderType::Injected
                        && self.config.providers@[j] != AuthProviderType::Deeplink,
            decreases self.config.providers@.len() - i,
        {
            let p = self.config.providers[i];
            if p != AuthProviderType::Injected && p != AuthProviderType::Deeplink {
                has_embedded = true;
            }
            i = i + 1;
        }
        if has_injected {
            self.providers.push((String::from_str("injected"), injected));
        }
        if has_embedded {
            self.current_provider_key = Some(embedded_key_of(&self.config));
        } else if has_injected {
            self.current_provider_key = Some(String::from_str("injected"));
        }
    }

    /// Keep a provider under `key`, after the others.
    pub fn register_provider(&mut self, key: &str, provider: P)
        ensures
            final(self)@.config == old(self)@.config,
            final(self)@.current_key == old(self)@.current_key,
            final(self)@.providers.len() == old(self)@.providers.len() + 1,
            forall|i: int| 0 <= i < old(self)@.providers.len() ==> final(self)@.providers[i] == old(self)@.providers[i],
            final(self)@.providers.last().0@ == key@,
            final(self)@.providers.last().1 == provider,
    {
        self.providers.push((String::from_str(key), provider));
    }

    /// The providers under their keys, in the order they were added.
    pub fn providers(&self) -> (r: &Vec<(String, P)>)
        ensures
            r@ == self@.providers,
    {
        &self.providers
    }

    /// The current provider: the first one kept under the current key.
    pub fn get_current_provider(&self) -> (r: Option<&P>)
        ensures
            match r {
                Some(p) => exists|i: int|
                    self@.current_key == Some(self@.providers[i].0@) && is_first_with_key(
                        self@.providers,
                        self@.providers[i].0@,
                        i,
                    ) && *p == self@.providers[i].1,
                None => match self@.current_key {
                    None => true,
                    Some(k) => forall|i: int| 0 <= i < self@.providers.len() ==> self@.providers[i].0@ != k,
                },
            },
    {
        let key = match &self.current_provider_key {
            Some(k) => k,
            None => return None,
        };
        let mut i: usize = 0;
        while i < self.providers.len()
            invariant
                0 <= i <= self.providers@.len(),
                self.current_provider_key == Some(*key),
                forall|j: int| 0 <= j < i ==> self.providers@[j].0@ != key@,
            decreases self.providers@.len() - i,
        {
            if str_eq(self.providers[i].0.as_str(), key.as_str()) {
                proof {
                    let ii = i as int;
                    assert(self@.current_key == Some(self@.providers[ii].0@));
                    assert(is_first_with_key(self@.providers, self@.providers[ii].0@, ii));
                }
                return Some(&self.providers[i].1);
            }
            i = i + 1;
        }
        None
    }

    /// What kind of provider is current: "injected", or "embedded" with the
    /// wallet type that follows "embedded-" in its key; none for no key or
    /// another key.
    pub fn get_current_provider_info(&self) -> (r: Option<ProviderPreference>)
        ensures
            match self@.current_key {
                None => r is None,
                Some(k) => if k == "injected"@ {
                    r matches Some(p) && p.provider_type@ == "injected"@ && p.embedded_wallet_type is None
                } else if starts_with(k, "embedded-"@) {
                    r matches Some(p) && p.provider_type@ == "embedded"@ && (p.embedded_wallet_type matches Some(
                        t,
                    ) && t@ == k.skip(9))
                } else {
                    r is None
                },
            },
    {
        let key = match &self.current_provider_key {
            Some(k) => k,
            None => return None,
        };
        if str_eq(key.as_str(), "injected") {
            return Some(ProviderPreference { provider_type: String::from_str("injected"), embedded_wallet_type: None });
        }
        let c = chars_of(key.as_str());
        let prefix = chars_of("embedded-");
        proof {
            reveal_strlit("embedded-");
        }
        let mut is_prefix = c.len() >= prefix.len();
        let mut i: usize = 0;
        while is_prefix && i < prefix.len()
            invariant
                0 <= i <= prefix@.len(),
                prefix@ == "embedded-"@,
                c@ == key@,
                is_prefix ==> c@.len() >= prefix@.len() && c@.subrange(0, i as int) == prefix@.subrange(0, i as int),
                !is_prefix ==> !starts_with(c@, prefix@),
            decreases prefix@.len() - i,
        {
            if c[i] != prefix[i] {
                is_prefix = false;
            } else {
                proof {
                    assert(c@.subrange(0, i + 1) =~= c@.subrange(0, i as int).push(c@[i as int]));
                    assert(prefix@.subrange(0, i + 1) =~= prefix@.subrange(0, i as int).push(prefix@[i as int]));
                }
            }
            i = i + 1;
        }
        if is_prefix {
            proof {
                assert(c@.subrange(0, 9) =~= prefix@);
            }
            let rest = crate::text::slice_chars(c.as_slice(), 9, c.len());
            proof {
                assert(rest@ =~= key@.skip(9));
            }
            Some(
                ProviderPreference {
                    provider_type: String::from_str("embedded"),
                    embedded_wallet_type: Some(string_from_chars(rest.as_slice())),
                },
            )
        } else {
            None
        }
    }

    /// Choose the provider of a connection. A provider type the
    /// configuration does not allow is refused; the injected type makes
    /// "injected" current, the deeplink leaves the choice as it is and is
    /// answered with an empty result, any other type makes the embedded
    /// provider current.
    pub fn route_connect(&mut self, provider: AuthProviderType) -> (r: Result<ConnectRoute, String>)
        ensures
            final(self)@.config == old(self)@.config,
            final(self)@.providers == old(self)@.providers,
            if !old(self)@.config.providers@.contains(provider) {
                r matches Err(m) && m@ == "Provider "@ + auth_type_name(provider)
                    + " is not in the allowed providers list"@ && final(self)@.current_key == old(self)@.current_key
            } else {
                match provider {
                    AuthProviderType::Injected => r == Ok::<ConnectRoute, String>(ConnectRoute::CurrentProvider)
                        && final(self)@.current_key == Some("injected"@),
                    AuthProviderType::Deeplink => r == Ok::<ConnectRoute, String>(ConnectRoute::Deeplink)
                        && final(self)@.current_key == old(self)@.current_key,
                    _ => r == Ok::<ConnectRoute, String>(ConnectRoute::CurrentProvider) && final(self)@.current_key == Some(embedded_key(old(self)@.config)),
                }
            },
    {
        if !contains_type(&self.config.providers, provider) {
            let mut m = chars_of("Provider ");
            push_str(&mut m, provider.debug_name());
            push_str(&mut m, " is not in the allowed providers list");
            return Err(string_from_chars(m.as_slice()));
        }
        match provider {
            AuthProviderType::Injected => {
                self.current_provider_key = Some(String::from_str("injected"));
                Ok(ConnectRoute::CurrentProvider)
            },
            AuthProviderType::Deeplink => Ok(ConnectRoute::Deeplink),
            _ => {
                self.current_provider_key = Some(embedded_key_of(&self.config));
                Ok(ConnectRoute::CurrentProvider)
            },
        }
    }

    /// The provider that connects after `route_connect`, or the error
    /// "No provider selected".
    pub fn connect_provider(&self) -> (r: Result<&P, String>)
        ensures
            match r {
                Ok(p) => exists|i: int|
                    self@.current_key == Some(self@.providers[i].0@) && is_first_with_key(
                        self@.providers,
                        self@.providers[i].0@,
                        i,
                    ) && *p == self@.providers[i].1,
                Err(m) => m@ == "No provider selected"@ && match self@.current_key {
                    None => true,
                    Some(k) => forall|i: int| 0 <= i < self@.providers.len() ==> self@.providers[i].0@ != k,
                },
            },
    {
        match self.get_current_provider() {
            Some(p) => Ok(p),
            None => Err(String::from_str("No provider selected")),
        }
    }

    /// Make the provider at `index` current (the one that auto-connected).
    pub fn select_provider(&mut self, index: usize)
        requires
            index < old(self)@.providers.len(),
        ensures
            final(self)@.config == old(self)@.config,
            final(self)@.providers == old(self)@.providers,
            final(self)@.current_key == Some(old(self)@.providers[index as int].0@),
    {
        self.current_provider_key = Some(self.providers[index].0.clone());
    }
}

/// The result of a connection through the deeplink: nothing connected yet.
pub fn deeplink_connect_result() -> (r: ConnectResult)
    ensures
        r.addresses@.len() == 0,
        r.wallet_id is None,
        r.auth_user_id is None,
        r.auth_provider == Some(AuthProviderType::Deeplink),
        r.status is None,
        r.wallet is None,
{
    ConnectResult {
        addresses: Vec::new(),
        wallet_id: None,
        auth_user_id: None,
        auth_provider: Some(AuthProviderType::Deeplink),
        status: None,
        wallet: None,
    }
}

/// A custom wallet configuration offers one of `types`.
pub open spec fn config_supports_any(c: CustomWalletConfig, types: Seq<AddressFormat>) -> bool {
    exists|i: int| 0 <= i < c.address_types@.len() && types.contains(c.address_types@[i])
}

/// The configurations offering one of `types` (all of them when `types` is
/// empty), in order.
pub open spec fn configs_for_types(cs: Seq<CustomWalletConfig>, types: Seq<AddressFormat>) -> Seq<CustomWalletConfig>
    decreases cs.len(),
{
    if types.len() == 0 || cs.len() == 0 {
        cs
    } else {
        let rest = configs_for_types(cs.drop_last(), types);
        if config_supports_any(cs.last(), types) {
            rest.push(cs.last())
        } else {
            rest
        }
    }
}

/// The custom wallet configurations relevant to `types`: those offering one
/// of them, or all when `types` is empty.
pub fn relevant_wallet_configs(configs: Vec<CustomWalletConfig>, types: &[AddressFormat]) -> (r: Vec<
    CustomWalletConfig,
>)
    ensures
        r@ == configs_for_types(configs@, types@),
{
    if types.len() == 0 {
        return configs;
    }
    let ghost all = configs@;
    let mut rest = configs;
    let total: usize = rest.len();
    let mut out: Vec<CustomWalletConfig> = Vec::new();
    let mut n: usize = 0;
    while rest.len() > 0
        invariant
            0 <= n <= all.len(),
            n + rest@.len() == all.len(),
            all.len() == total,
            types@.len() > 0,
            rest@ == all.skip(n as int),
            out@ == configs_for_types(all.take(n as int), types@),
        decreases rest@.len(),
    {
        let c = rest.remove(0);
        proof {
            assert(c == all[n as int]);
            assert(all.take(n + 1).drop_last() =~= all.take(n as int));
            assert(all.take(n + 1).last() == c);
            assert(rest@ =~= all.skip(n + 1));
        }
        let mut any = false;
        let mut k: usize = 0;
        while k < c.address_types.len()
            invariant
                0 <= k <= c.address_types@.len(),
                any == exists|m: int| 0 <= m < k && types@.contains(c.address_types@[m]),
            decreases c.address_types@.len() - k,
        {
            let t = c.address_types[k];
            let mut found = false;
            let mut q: usize = 0;
            while q < types.len()
                invariant
                    0 <= q <= types@.len(),
                    found == exists|x: int| 0 <= x < q && types@[x] == t,
                decreases types@.len() - q,
            {
                if types[q] == t {
                    found = true;
                }
                q = q + 1;
            }
            proof {
                if found {
                    assert(types@.contains(c.address_types@[k as int]));
                }
                if types@.contains(t) {
                    assert(found);
                }
            }
            if found {
                any = true;
            }
            k = k + 1;
        }
        if any {
            out.push(c);
        }
        n = n + 1;
    }
    proof {
        assert(all.take(all.len() as int) =~= all);
    }
    out
}

/// How long to keep looking for the Phantom extension, in milliseconds,
/// when the caller gives no limit.
pub const DEFAULT_EXTENSION_TIMEOUT_MS: u64 = 3000;

/// The pause between two looks for the Phantom extension, in milliseconds.
pub const EXTENSION_CHECK_INTERVAL_MS: u64 = 100;

/// What waiting for the Phantom extension does after a look.
#[derive(Debug, Clone, Copy, PartialEq, Eq, Structural)]
pub enum ExtensionWait {
    /// The extension is there.
    Installed,
    /// The time is up.
    TimedOut,
    /// Pause `EXTENSION_CHECK_INTERVAL_MS`, then look again.
    KeepWaiting,
}

/// One look for the extension: found, else timed out once `elapsed_ms`
/// reaches `timeout_ms`, else keep waiting.
pub fn extension_wait_step(installed: bool, elapsed_ms: u64, timeout_ms: u64) -> (r: ExtensionWait)
    ensures
        r == if installed {
            ExtensionWait::Installed
        } else if elapsed_ms >= timeout_ms {
            ExtensionWait::TimedOut
        } else {
            ExtensionWait::KeepWaiting
        },
{
    if installed {
        ExtensionWait::Installed
    } else if elapsed_ms >= timeout_ms {
        ExtensionWait::TimedOut
    } else {
        ExtensionWait::KeepWaiting
    }
}

fn lists_phantom_login(f: &[String]) -> (r: bool)
    ensures
        r == exists|i: int| 0 <= i < f@.len() && f@[i]@ == "phantom_login"@,
{
    let mut i: usize = 0;
    while i < f.len()
        invariant
            0 <= i <= f@.len(),
            forall|j: int| 0 <= j < i ==> f@[j]@ != "phantom_login"@,
        decreases f@.len() - i,
    {
        if str_eq(f[i].as_str(), "phantom_login") {
            return true;
        }
        i = i + 1;
    }
    false
}

/// Whether Phantom Login is available: the extension was found and its
/// features could be read and include "phantom_login".
pub fn phantom_login_available(extension_installed: bool, features: Option<&[String]>) -> (r: bool)
    ensures
        r == (extension_installed && match features {
            Some(f) => exists|i: int| 0 <= i < f@.len() && f@[i]@ == "phantom_login"@,
            None => false,
        }),
{
    if !extension_installed {
        return false;
    }
    match features {
        Some(f) => lists_phantom_login(f),
        None => false,
    }
}

/// The browser SDK: the provider manager (which holds the configuration),
/// the registry of discovered wallets, and whether discovery is still
/// running.
pub struct BrowserSdk<P, W> {
    provider_manager: ProviderManager<P>,
    wallet_registry: InjectedWalletRegistry<W>,
    is_loading: bool,
}

impl<P, W> BrowserSdk<P, W> {
    /// The SDK's invariant: its wallet registry is well formed.
    pub closed spec fn wf(&self) -> bool {
        self.wallet_registry.wf()
    }

    /// The configuration.
    pub closed spec fn config(&self) -> BrowserSdkConfig {
        self.provider_manager@.config
    }

    /// The provider manager's state.
    pub closed spec fn manager(&self) -> ManagerState<P> {
        self.provider_manager@
    }

    /// The discovered wallets, in registration order.
    pub closed spec fn wallets(&self) -> Seq<InjectedWalletInfo<W>> {
        self.wallet_registry.wallets()
    }

    /// Whether discovery is still running.
    pub closed spec fn loading(&self) -> bool {
        self.is_loading
    }

    /// Create the SDK after checking the configuration; it starts loading,
    /// with no providers and no wallets.
    pub fn new(config: BrowserSdkConfig) -> (r: Result<Self, String>)
        ensures
            match sdk_config_error(config) {
                Some(e) => r matches Err(m) && m@ == e,
                None => r matches Ok(sdk) && sdk.wf() && sdk.config() == config && sdk.loading()
                    && sdk.manager().providers.len() == 0 && sdk.manager().current_key is None
                    && sdk.wallets().len() == 0,
            },
    {
        validate_sdk_config(&config)?;
        Ok(
            BrowserSdk {
                provider_manager: ProviderManager::new(config),
                wallet_registry: InjectedWalletRegistry::new(),
                is_loading: true,
            },
        )
    }

    /// Whether wallet discovery is still running.
    pub fn is_loading(&self) -> (r: bool)
        ensures
            r == self.loading(),
    {
        self.is_loading
    }

    /// Set whether wallet discovery is running.
    pub fn set_loading(&mut self, loading: bool)
        ensures
            final(self).loading() == loading,
            final(self).wf() == old(self).wf(),
            final(self).manager() == old(self).manager(),
            final(self).wallets() == old(self).wallets(),
    {
        self.is_loading = loading;
    }

    /// The provider manager.
    pub fn provider_manager(&self) -> (r: &ProviderManager<P>)
        ensures
            r@ == self.manager(),
    {
        &self.provider_manager
    }

    /// The registry of discovered wallets.
    pub fn wallet_registry(&self) -> (r: &InjectedWalletRegistry<W>)
        ensures
            r.wallets() == self.wallets(),
            self.wf() ==> r.wf(),
    {
        &self.wallet_registry
    }

    /// Set up the providers (see `ProviderManager::initialize`).
    pub fn initialize(&mut self, injected: P)
        ensures
            final(self).wf() == old(self).wf(),
            final(self).wallets() == old(self).wallets(),
            final(self).loading() == old(self).loading(),
            final(self).config() == old(self).config(),
            final(self).manager().providers.len() == old(self).manager().providers.len() + if allows_injected(
                old(self).config(),
            ) {
                1int
            } else {
                0int
            },
            forall|i: int|
                0 <= i < old(self).manager().providers.len() ==> final(self).manager().providers[i] == old(self).manager().providers[i],
            allows_injected(old(self).config()) ==> final(self).manager().providers.last().0@ == "injected"@
                && final(self).manager().providers.last().1 == injected,
            final(self).manager().current_key == if allows_embedded(old(self).config()) {
                Some(embedded_key(old(self).config()))
            } else if allows_injected(old(self).config()) {
                Some("injected"@)
            } else {
                old(self).manager().current_key
            },
    {
        self.provider_manager.initialize(injected);
    }

    /// Keep an external provider under `key` (see
    /// `ProviderManager::register_provider`).
    pub fn register_provider(&mut self, key: &str, provider: P)
        ensures
            final(self).wf() == old(self).wf(),
            final(self).wallets() == old(self).wallets(),
            final(self).loading() == old(self).loading(),
            final(self).config() == old(self).config(),
            final(self).manager().current_key == old(self).manager().current_key,
            final(self).manager().providers.len() == old(self).manager().providers.len() + 1,
            final(self).manager().providers.last().0@ == key@,
            final(self).manager().providers.last().1 == provider,
            forall|i: int|
                0 <= i < old(self).manager().providers.len() ==> final(self).manager().providers[i] == old(self).manager().providers[i],
    {
        self.provider_manager.register_provider(key, provider);
    }

    /// Choose the provider of a connection (see `ProviderManager::route_connect`).
    pub fn route_connect(&mut self, provider: AuthProviderType) -> (r: Result<ConnectRoute, String>)
        ensures
            final(self).wf() == old(self).wf(),
            final(self).wallets() == old(self).wallets(),
            final(self).loading() == old(self).loading(),
            final(self).config() == old(self).config(),
            final(self).manager().providers == old(self).manager().providers,
            if !old(self).config().providers@.contains(provider) {
                r matches Err(m) && m@ == "Provider "@ + auth_type_name(provider)
                    + " is not in the allowed providers list"@ && final(self).manager().current_key == old(self).manager().current_key
            } else {
                match provider {
                    AuthProviderType::Injected => r == Ok::<ConnectRoute, String>(ConnectRoute::CurrentProvider)
                        && final(self).manager().current_key == Some("injected"@),
                    AuthProviderType::Deeplink => r == Ok::<ConnectRoute, String>(ConnectRoute::Deeplink)
                        && final(self).manager().current_key == old(self).manager().current_key,
                    _ => r == Ok::<ConnectRoute, String>(ConnectRoute::CurrentProvider) && final(self).manager().current_key == Some(embedded_key(old(self).config())),
                }
            },
    {
        self.provider_manager.route_connect(provider)
    }

    /// Make the provider at `index` current (the one that auto-connected).
    pub fn select_provider(&mut self, index: usize)
        requires
            index < old(self).manager().providers.len(),
        ensures
            final(self).wf() == old(self).wf(),
            final(self).wallets() == old(self).wallets(),
            final(self).loading() == old(self).loading(),
            final(self).config() == old(self).config(),
            final(self).manager().providers == old(self).manager().providers,
            final(self).manager().current_key == Some(old(self).manager().providers[index as int].0@),
    {
        self.provider_manager.select_provider(index);
    }

    /// The current provider of chain access and auto-confirm calls, or the
    /// error "No provider available. Call connect() first.".
    pub fn require_current_provider(&self) -> (r: Result<&P, String>)
        ensures
            match r {
                Ok(p) => exists|i: int|
                    self.manager().current_key == Some(self.manager().providers[i].0@) && is_first_with_key(
                        self.manager().providers,
                        self.manager().providers[i].0@,
                        i,
                    ) && *p == self.manager().providers[i].1,
                Err(m) => m@ == "No provider available. Call connect() first."@ && match self.manager().current_key {
                    None => true,
                    Some(k) => forall|i: int|
                        0 <= i < self.manager().providers.len() ==> self.manager().providers[i].0@ != k,
                },
            },
    {
        match self.provider_manager.get_current_provider() {
            Some(p) => Ok(p),
            None => Err(String::from_str("No provider available. Call connect() first.")),
        }
    }

    /// Discover wallets: the custom wallets relevant to the configured
    /// address types join the registry (unless their IDs are there), and
    /// loading is over.
    pub fn discover_wallets(&mut self)
        requires
            old(self).wf(),
        ensures
            final(self).wf(),
            !final(self).loading(),
            final(self).config() == old(self).config(),
            final(self).manager() == old(self).manager(),
            exists|cs: Seq<CustomWalletConfig>|
                wallet_ids(final(self).wallets()) == discovered(
                    old(self).wallets(),
                    configs_for_types(cs, old(self).config().address_types@),
                ) && cs.len() == 1 && cs[0].id@ == "coinbase-wallet"@ && cs[0].address_types@ == seq![
                    AddressFormat::Solana,
                ],
            forall|i: int| 0 <= i < old(self).wallets().len() ==> final(self).wallets()[i] == old(self).wallets()[i],
    {
        let configs = custom_wallet_configs();
        let ghost cs = configs@;
        let relevant = relevant_wallet_configs(configs, self.provider_manager.config.address_types.as_slice());
        self.wallet_registry.discover(relevant.as_slice());
        self.is_loading = false;
        assert(cs.len() == 1);
    }

    /// The discovered wallets supporting one of the configured address
    /// types (all of them when none is configured), in registration order.
    pub fn get_discovered_wallets(&self) -> (r: Vec<&InjectedWalletInfo<W>>)
        ensures
            self.config().address_types@.len() == 0 ==> r@.len() == self.wallets().len() && forall|i: int|
                0 <= i < r@.len() ==> *r@[i] == self.wallets()[i],
            self.config().address_types@.len() > 0 ==> r@.len() == crate::wallets::wallets_supporting(
                self.wallets(),
                self.config().address_types@,
            ).len() && forall|i: int|
                0 <= i < r@.len() ==> *r@[i] == crate::wallets::wallets_supporting(
                    self.wallets(),
                    self.config().address_types@,
                )[i],
    {
        self.wallet_registry.get_by_address_types(self.provider_manager.config.address_types.as_slice())
    }
}

} // verus!
