use phantom_connect::browser_sdk::{
    deeplink_connect_result, extension_wait_step, phantom_login_available, relevant_wallet_configs,
    validate_sdk_config, AuthOptions, AuthProviderType, BrowserSdk, BrowserSdkConfig, ConnectRoute,
    ConnectStatus, ExtensionWait, ProviderManager,
};
use phantom_connect::client_types::WalletAddress;
use phantom_connect::client_constants::AddressFormat;
use phantom_connect::debug::{BrowserLogger, DebugCategory, DebugLevel};
use phantom_connect::embedded_auth::EmbeddedProviderAuthType;
use phantom_connect::providers::{
    embedded_auth_type, embedded_chains, embedded_connect_result, InjectedProvider, InjectedProviderConfig,
};
use phantom_connect::storage::{is_blank, key_file_name, StorageCache, SESSION_KEY};
use phantom_connect::wallets::{
    custom_wallet_configs, is_phantom_wallet, DiscoverySource, InjectedWalletInfo,
    InjectedWalletRegistry,
};

fn config(providers: Vec<AuthProviderType>) -> BrowserSdkConfig {
    BrowserSdkConfig {
        providers,
        app_id: Some("app".to_string()),
        api_base_url: None,
        embedded_wallet_type: None,
        auth_options: None,
        address_types: vec![AddressFormat::Solana],
    }
}

fn wallet(id: &str, types: Vec<AddressFormat>) -> InjectedWalletInfo<()> {
    InjectedWalletInfo {
        id: id.to_string(),
        name: id.to_uppercase(),
        icon: None,
        address_types: types,
        providers: None,
        rdns: None,
        discovery: Some("eip6963".to_string()),
    }
}

#[test]
fn sdk_config_validation() {
    assert_eq!(
        validate_sdk_config(&config(vec![])).unwrap_err(),
        "providers must be a non-empty array of AuthProviderType"
    );
    let mut c = config(vec![AuthProviderType::Deeplink]);
    c.app_id = None;
    assert_eq!(
        validate_sdk_config(&c).unwrap_err(),
        "appId is required when using embedded providers (google, apple, phantom, etc.)"
    );
    let mut c = config(vec![AuthProviderType::Injected]);
    c.app_id = None;
    assert!(validate_sdk_config(&c).is_ok());
    let mut c = config(vec![AuthProviderType::Google]);
    c.embedded_wallet_type = Some("server".to_string());
    assert_eq!(
        validate_sdk_config(&c).unwrap_err(),
        "Invalid embeddedWalletType: server. Must be \"app-wallet\" or \"user-wallet\"."
    );
    c.embedded_wallet_type = Some("app-wallet".to_string());
    assert!(validate_sdk_config(&c).is_ok());
    assert!(BrowserSdk::<u8, ()>::new(config(vec![])).is_err());
}

#[test]
fn auth_provider_type_from_embedded() {
    assert_eq!(AuthProviderType::from(EmbeddedProviderAuthType::Google), AuthProviderType::Google);
    assert_eq!(AuthProviderType::from(EmbeddedProviderAuthType::Device), AuthProviderType::Device);
    assert_eq!(AuthProviderType::Deeplink.debug_name(), "Deeplink");
    assert_eq!(embedded_auth_type(AuthProviderType::Apple), Ok(EmbeddedProviderAuthType::Apple));
    assert_eq!(
        embedded_auth_type(AuthProviderType::Injected).unwrap_err(),
        "Invalid auth provider for embedded wallet"
    );
}

#[test]
fn provider_manager_initialize_and_route() {
    let mut m: ProviderManager<&str> =
        ProviderManager::new(config(vec![AuthProviderType::Google, AuthProviderType::Injected]));
    m.initialize("injected-provider");
    assert_eq!(m.providers().len(), 1);
    let info = m.get_current_provider_info().unwrap();
    assert_eq!(info.provider_type, "embedded");
    assert_eq!(info.embedded_wallet_type.as_deref(), Some("user-wallet"));
    assert!(m.get_current_provider().is_none());
    assert_eq!(m.connect_provider().unwrap_err(), "No provider selected");
    m.register_provider("embedded-user-wallet", "embedded-provider");
    assert_eq!(m.get_current_provider(), Some(&"embedded-provider"));
    assert_eq!(m.route_connect(AuthProviderType::Injected), Ok(ConnectRoute::CurrentProvider));
    assert_eq!(m.connect_provider(), Ok(&"injected-provider"));
    let info = m.get_current_provider_info().unwrap();
    assert_eq!(info.provider_type, "injected");
    assert!(info.embedded_wallet_type.is_none());
    assert_eq!(
        m.route_connect(AuthProviderType::Apple).unwrap_err(),
        "Provider Apple is not in the allowed providers list"
    );
    assert_eq!(m.route_connect(AuthProviderType::Google), Ok(ConnectRoute::CurrentProvider));
    assert_eq!(m.connect_provider(), Ok(&"embedded-provider"));
    m.select_provider(0);
    assert_eq!(m.get_current_provider(), Some(&"injected-provider"));
}

#[test]
fn provider_manager_deeplink_and_injected_only() {
    let mut m: ProviderManager<u8> =
        ProviderManager::new(config(vec![AuthProviderType::Injected, AuthProviderType::Deeplink]));
    m.initialize(1);
    assert_eq!(m.get_current_provider(), Some(&1));
    assert_eq!(m.route_connect(AuthProviderType::Deeplink), Ok(ConnectRoute::Deeplink));
    let r = deeplink_connect_result();
    assert!(r.addresses.is_empty());
    assert_eq!(r.auth_provider, Some(AuthProviderType::Deeplink));
    assert!(r.status.is_none());
}

#[test]
fn browser_sdk_discovery() {
    let mut sdk: BrowserSdk<u8, ()> = BrowserSdk::new(config(vec![AuthProviderType::Injected])).unwrap();
    assert!(sdk.is_loading());
    assert_eq!(sdk.require_current_provider().unwrap_err(), "No provider available. Call connect() first.");
    sdk.discover_wallets();
    assert!(!sdk.is_loading());
    assert!(sdk.wallet_registry().has("coinbase-wallet"));
    let found = sdk.get_discovered_wallets();
    assert_eq!(found.len(), 1);
    assert_eq!(found[0].name, "Coinbase Wallet");
    sdk.initialize(9);
    assert_eq!(sdk.require_current_provider(), Ok(&9));

    let mut c = config(vec![AuthProviderType::Injected]);
    c.address_types = vec![AddressFormat::Ethereum];
    let mut sdk: BrowserSdk<u8, ()> = BrowserSdk::new(c).unwrap();
    sdk.discover_wallets();
    assert!(!sdk.wallet_registry().has("coinbase-wallet"));
    assert!(sdk.get_discovered_wallets().is_empty());
}

#[test]
fn relevant_configs_by_type() {
    assert_eq!(relevant_wallet_configs(custom_wallet_configs(), &[]).len(), 1);
    assert_eq!(relevant_wallet_configs(custom_wallet_configs(), &[AddressFormat::Solana]).len(), 1);
    assert!(relevant_wallet_configs(custom_wallet_configs(), &[AddressFormat::Sui]).is_empty());
}

#[test]
fn extension_waiting_and_login() {
    assert_eq!(extension_wait_step(true, 5000, 3000), ExtensionWait::Installed);
    assert_eq!(extension_wait_step(false, 3000, 3000), ExtensionWait::TimedOut);
    assert_eq!(extension_wait_step(false, 200, 3000), ExtensionWait::KeepWaiting);
    let f = vec!["x".to_string(), "phantom_login".to_string()];
    assert!(phantom_login_available(true, Some(&f)));
    assert!(!phantom_login_available(false, Some(&f)));
    assert!(!phantom_login_available(true, None));
    assert!(!phantom_login_available(true, Some(&["other".to_string()])));
}

#[test]
fn injected_provider_connect_and_disconnect() {
    let mut registry: InjectedWalletRegistry<()> = InjectedWalletRegistry::new();
    registry.register(wallet("phantom", vec![AddressFormat::Solana]));
    let mut p = InjectedProvider::new(InjectedProviderConfig { address_types: vec![AddressFormat::Solana] });
    let bad = AuthOptions { provider: AuthProviderType::Google, wallet_id: None, custom_auth_data: None };
    assert_eq!(
        p.connect(&bad, &registry).unwrap_err(),
        "Invalid provider for injected connection: Google. Must be Injected"
    );
    let unknown = AuthOptions {
        provider: AuthProviderType::Injected,
        wallet_id: Some("nope".to_string()),
        custom_auth_data: None,
    };
    assert_eq!(p.connect(&unknown, &registry).unwrap_err(), "Unknown injected wallet id: nope");
    let ok = AuthOptions { provider: AuthProviderType::Injected, wallet_id: None, custom_auth_data: None };
    let r = p.connect(&ok, &registry).unwrap();
    assert_eq!(r.wallet_id.as_deref(), Some("phantom"));
    assert_eq!(r.auth_provider, Some(AuthProviderType::Injected));
    p.disconnect();
    p.disconnect();
    assert!(!p.is_connected());
    assert!(p.get_addresses().is_empty());
    assert_eq!(p.get_enabled_address_types(), vec![AddressFormat::Solana]);
}

#[test]
fn embedded_chain_access() {
    let c = embedded_chains(&[AddressFormat::Solana]);
    assert!(c.solana_access().is_ok());
    assert_eq!(c.ethereum_access().unwrap_err(), "Ethereum not enabled for this embedded provider");
    let c = embedded_chains(&[AddressFormat::Ethereum, AddressFormat::Sui]);
    assert_eq!(c.solana_access().unwrap_err(), "Solana not enabled for this embedded provider");
    assert!(c.ethereum_access().is_ok());
}

#[test]
fn debug_levels_filter_messages() {
    let mut d = phantom_connect::debug::Debug::new();
    assert!(d.error("c", "m", None, 1).is_none());
    d.enable();
    let m = d.error(DebugCategory::BROWSER_SDK, "boom", None, 42).unwrap();
    assert_eq!(m.level, DebugLevel::Error);
    assert_eq!(m.category, "BrowserSDK");
    assert_eq!(m.message, "boom");
    assert_eq!(m.timestamp, 42);
    assert!(d.warn("c", "m", None, 1).is_none());
    d.set_level(DebugLevel::Info);
    assert!(d.warn("c", "m", None, 1).is_some());
    assert!(d.info("c", "m", None, 1).is_some());
    assert!(d.debug("c", "m", None, 1).is_none());
    d.configure(Some(false), Some(DebugLevel::Debug));
    assert!(!d.should_log(DebugLevel::Error));
    d.configure(Some(true), None);
    assert!(d.log("c", "m", None, 1).is_some());
    assert_eq!(DebugLevel::Warn.rank(), 1);
    assert!(!BrowserLogger::new(false).emits());
    assert!(BrowserLogger::new(true).emits());
}

#[test]
fn storage_helpers() {
    assert_eq!(key_file_name(SESSION_KEY), "phantom_embedded_session.json");
    assert!(is_blank(""));
    assert!(is_blank(" \n\t"));
    assert!(!is_blank(" {} "));
    let mut c: StorageCache<String> = StorageCache::new();
    assert!(c.cached_session().is_none());
    c.remember_loaded(None);
    assert!(c.cached_session().is_none());
    c.remember_loaded(Some("s1".to_string()));
    assert_eq!(c.cached_session().map(|s| s.as_str()), Some("s1"));
    c.remember_saved("s2".to_string());
    assert_eq!(c.cached_session().map(|s| s.as_str()), Some("s2"));
    c.forget_session();
    assert!(c.cached_session().is_none());
    assert!(!c.should_clear(None));
    assert!(c.should_clear(Some(true)));
    assert!(!c.should_clear(Some(false)));
    c.remember_should_clear(true);
    assert!(c.cached_should_clear());
    assert!(c.should_clear(Some(false)));
}

#[test]
fn wallet_registry_operations() {
    let mut r: InjectedWalletRegistry<()> = InjectedWalletRegistry::new();
    assert!(r.is_empty());
    r.register(wallet("phantom", vec![AddressFormat::Solana, AddressFormat::Ethereum]));
    r.register(wallet("metamask", vec![AddressFormat::Ethereum]));
    r.register(wallet("phantom", vec![AddressFormat::Solana]));
    assert_eq!(r.len(), 2);
    assert_eq!(r.get_all_ids(), vec!["phantom".to_string(), "metamask".to_string()]);
    assert_eq!(r.get_by_id("phantom").unwrap().address_types, vec![AddressFormat::Solana]);
    assert!(is_phantom_wallet(r.get_by_id("phantom").unwrap()));
    assert!(!is_phantom_wallet(r.get_by_id("metamask").unwrap()));
    let eth = r.get_by_address_types(&[AddressFormat::Ethereum]);
    assert_eq!(eth.len(), 1);
    assert_eq!(eth[0].id, "metamask");
    assert_eq!(r.get_by_address_types(&[]).len(), 2);
    assert_eq!(r.get_by_id("phantom").unwrap().discovery_source(), Some(DiscoverySource::Eip6963));
    r.unregister("phantom");
    assert!(!r.has("phantom"));
    assert_eq!(r.get_all().len(), 1);
    r.discover(&custom_wallet_configs());
    r.discover(&custom_wallet_configs());
    assert_eq!(r.len(), 2);
    let cb = r.get_by_id("coinbase-wallet").unwrap();
    assert_eq!(cb.discovery_source(), Some(DiscoverySource::Custom));
    assert!(cb.providers().is_none());
}

#[test]
fn discovery_source_names() {
    for d in [DiscoverySource::Phantom, DiscoverySource::Eip6963, DiscoverySource::Standard, DiscoverySource::Custom] {
        assert_eq!(DiscoverySource::from_str(d.as_str()), Some(d));
    }
    assert_eq!(DiscoverySource::from_str("window"), None);
}

#[test]
fn loading_flag_is_set_and_cleared() {
    let mut sdk: BrowserSdk<u8, ()> = BrowserSdk::new(config(vec![AuthProviderType::Injected])).unwrap();
    assert!(sdk.is_loading());
    sdk.set_loading(false);
    assert!(!sdk.is_loading());
    sdk.set_loading(true);
    assert!(sdk.is_loading());
}

#[test]
fn embedded_connection_result() {
    let addresses = vec![WalletAddress { address_type: "solana".to_string(), address: "abc".to_string() }];
    let r = embedded_connect_result(
        addresses,
        Some("wallet-1".to_string()),
        Some("user-1".to_string()),
        Some(ConnectStatus::Completed),
        AuthProviderType::Google,
    );
    assert_eq!(r.addresses.len(), 1);
    assert_eq!(r.addresses[0].address, "abc");
    assert_eq!(r.wallet_id.as_deref(), Some("wallet-1"));
    assert_eq!(r.auth_user_id.as_deref(), Some("user-1"));
    assert!(matches!(r.status, Some(ConnectStatus::Completed)));
    assert!(matches!(r.auth_provider, Some(AuthProviderType::Google)));
    assert!(r.wallet.is_none());
}
