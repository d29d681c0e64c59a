use phantom_connect::auto_confirm::{
    enable_request, internal_caips_to_network_ids, network_ids_to_internal_caips, state_result,
    supported_result, AutoConfirmEnableParams, AutoConfirmRequest, AutoConfirmStateResponse,
    AutoConfirmSupportResponse,
};
use phantom_connect::ethereum_types::{EthereumEventType, EthereumSignInData};
use phantom_connect::injected_sdk::{
    chain_id_from_hex, normalize_chain_id, ConnectAction, ConnectStage, Ethereum, EthereumEventListeners, EthereumPayload,
    EthereumProviderEvent, PhantomEventType, ProviderStrategy, Solana, SolanaConnectFlow,
    SolanaEventListeners, SolanaTrigger,
};
use phantom_connect::network_ids::NetworkId;
use phantom_connect::networks::InternalNetworkCaip;
use phantom_connect::plugins::create_phantom;
use phantom_connect::strategies::{
    connect_outcome, ethereum_connect_method, get_provider, load_delay_ms, load_delays,
    message_sign_request, EthConnectAction, EthMessageSigning, EthereumConnectFlow,
    InjectedEthereumStrategy, InjectedSolanaStrategy, StrategyConnect, MAX_RETRIES,
};

#[test]
fn solana_listener_registry() {
    let mut l = SolanaEventListeners::new();
    let a = l.add_listener(PhantomEventType::Connect);
    let b = l.add_listener(PhantomEventType::Disconnect);
    let c = l.add_listener(PhantomEventType::Connect);
    assert_eq!((a, b, c), (0, 1, 2));
    assert_eq!(l.listeners(PhantomEventType::Connect), vec![0, 2]);
    l.remove_listener(PhantomEventType::Connect, 0);
    assert_eq!(l.listeners(PhantomEventType::Connect), vec![2]);
    l.remove_listener(PhantomEventType::AccountChanged, 2);
    assert_eq!(l.listeners(PhantomEventType::Connect), vec![2]);
    l.clear_all();
    assert!(l.listeners(PhantomEventType::Disconnect).is_empty());
    assert_eq!(l.add_listener(PhantomEventType::Connect), 3);
}

#[test]
fn ethereum_listener_registry_by_name() {
    let mut l = EthereumEventListeners::new();
    let a = l.add_listener_by_name("accountsChanged");
    let b = l.add_listener(EthereumEventType::ChainChanged);
    assert_eq!(a, 0);
    assert_eq!(b, 1);
    assert_eq!(l.listeners(EthereumEventType::AccountsChanged), vec![0]);
    l.remove_listener_by_name("accountsChanged", 0);
    assert!(l.listeners(EthereumEventType::AccountsChanged).is_empty());
    assert_eq!(l.listeners(EthereumEventType::ChainChanged), vec![1]);
}

#[test]
fn solana_plugin_events() {
    let mut s = Solana::new();
    assert_eq!(s.get_public_key(), None);
    let t = s.handle_provider_event("connect", Some("Key1"));
    assert!(matches!(t.as_slice(), [SolanaTrigger::Connect(k)] if k == "Key1"));
    assert_eq!(s.get_public_key().as_deref(), Some("Key1"));
    let t = s.handle_provider_event("accountChanged", Some("Key2"));
    assert_eq!(t.len(), 2);
    assert!(matches!(&t[0], SolanaTrigger::AccountChanged(Some(k)) if k == "Key2"));
    assert!(matches!(&t[1], SolanaTrigger::Connect(k) if k == "Key2"));
    let t = s.handle_provider_event("accountChanged", None);
    assert!(matches!(t.as_slice(), [SolanaTrigger::AccountChanged(None)]));
    assert_eq!(s.get_public_key(), None);
    assert!(s.handle_provider_event("somethingElse", Some("x")).is_empty());
    let t = s.handle_provider_event("disconnect", None);
    assert!(matches!(t.as_slice(), [SolanaTrigger::Disconnect]));
    s.record_connect("Key3");
    assert_eq!(s.signer_public_key(""), "Key3");
    assert_eq!(s.signer_public_key("Other"), "Other");
    s.record_disconnect();
    assert_eq!(s.signer_public_key(""), "");
}

#[test]
fn solana_connect_flow_paths() {
    let (mut f, a) = SolanaConnectFlow::start(false, true);
    assert!(matches!(a, ConnectAction::GetAccount));
    assert!(matches!(
        f.step(Some("Acc".to_string())),
        ConnectAction::Finish { result: Ok(ref k), notify: false } if k == "Acc"
    ));
    let (mut f, a) = SolanaConnectFlow::start(false, false);
    assert!(matches!(a, ConnectAction::Connect { only_if_trusted: true }));
    assert!(matches!(f.step(None), ConnectAction::Connect { only_if_trusted: false }));
    assert!(matches!(
        f.step(None),
        ConnectAction::Finish { result: Err(ref e), notify: false } if e == "Failed to connect to Phantom."
    ));
    let (mut f, _) = SolanaConnectFlow::start(true, false);
    assert!(matches!(
        f.step(None),
        ConnectAction::Finish { result: Err(ref e), .. } if e == "No trusted connection available."
    ));
    let (mut f, _) = SolanaConnectFlow::start(true, false);
    assert!(matches!(
        f.step(Some("K".to_string())),
        ConnectAction::Finish { result: Ok(_), notify: true }
    ));
    let _ = ConnectStage::Done;
}

#[test]
fn ethereum_plugin_events() {
    let mut e = Ethereum::new();
    assert_eq!(e.get_chain_id_owned(), "0x1");
    let r = e.handle_provider_event(EthereumProviderEvent::AccountsChanged(Some(vec!["0xa".to_string()])));
    assert_eq!(
        r,
        vec![
            (EthereumEventType::AccountsChanged, EthereumPayload::Event),
            (EthereumEventType::Connect, EthereumPayload::Event)
        ]
    );
    assert_eq!(e.get_accounts_owned(), vec!["0xa".to_string()]);
    let r = e.handle_provider_event(EthereumProviderEvent::ChainChanged(Some("0x89".to_string())));
    assert_eq!(r, vec![(EthereumEventType::ChainChanged, EthereumPayload::Event)]);
    assert_eq!(e.get_chain_id_owned(), "0x89");
    let r = e.handle_provider_event(EthereumProviderEvent::Disconnect);
    assert_eq!(r, vec![(EthereumEventType::Disconnect, EthereumPayload::Disconnected)]);
    assert!(e.get_accounts_owned().is_empty());
    assert!(e.handle_provider_event(EthereumProviderEvent::AccountsChanged(None)).is_empty());
    assert!(e.handle_provider_event(EthereumProviderEvent::Other).is_empty());
}

#[test]
fn provider_load_backoff() {
    assert_eq!(MAX_RETRIES, 4);
    assert_eq!(load_delays(), vec![100, 200, 400, 800]);
    assert_eq!(load_delay_ms(5), 3200);
    assert_eq!(load_delay_ms(9), 3200);
}

#[test]
fn strategy_without_provider() {
    let s: InjectedSolanaStrategy<u8> = InjectedSolanaStrategy::new();
    assert_eq!(s.strategy_type(), ProviderStrategy::Injected);
    assert!(s.get_provider().is_none());
    assert_eq!(s.require_provider().unwrap_err(), "Provider not found.");
    assert_eq!(s.require_connected(true).unwrap_err(), "Provider not found.");
    assert!(!s.is_connected(true, true));
    assert_eq!(s.account(true, Some("k".to_string())), None);
    assert_eq!(s.begin_connect(true, true).unwrap_err(), "Provider not found.");
}

#[test]
fn strategy_with_provider() {
    let mut s: InjectedSolanaStrategy<u8> = InjectedSolanaStrategy::new();
    s.set_provider(7);
    assert_eq!(s.require_provider(), Ok(&7));
    assert_eq!(s.require_connected(false).unwrap_err(), "Provider is not connected.");
    assert_eq!(s.require_connected(true), Ok(&7));
    assert!(s.is_connected(true, true));
    assert!(!s.is_connected(true, false));
    assert_eq!(s.account(true, Some("k".to_string())), Some("k".to_string()));
    assert_eq!(s.account(false, Some("k".to_string())), None);
    assert_eq!(s.begin_connect(true, true), Ok(StrategyConnect::ReturnAccount));
    assert_eq!(s.begin_connect(false, true), Ok(StrategyConnect::CallConnect));
    assert_eq!(connect_outcome::<String>(Ok("pk".to_string())), Some("pk".to_string()));
    assert_eq!(connect_outcome(Err("x".to_string())), None);
    assert_eq!(get_provider(5u32), 5);
}

#[test]
fn ethereum_strategy_requests() {
    assert_eq!(ethereum_connect_method(true), "eth_accounts");
    assert_eq!(ethereum_connect_method(false), "eth_requestAccounts");
    let (m, p) = message_sign_request(EthMessageSigning::EthSign, "hello", "0xabc");
    assert_eq!(m, "eth_sign");
    assert_eq!(p, vec!["0xabc".to_string(), "hello".to_string()]);
    let (m, p) = message_sign_request(EthMessageSigning::PersonalSign, "hello", "0xabc");
    assert_eq!(m, "personal_sign");
    assert_eq!(p, vec!["hello".to_string(), "0xabc".to_string()]);
}

fn sign_in_data() -> EthereumSignInData {
    EthereumSignInData {
        address: "0x1234567890abcdef1234567890abcdef12345678".to_string(),
        chain_id: 1,
        domain: "example.com".to_string(),
        nonce: "abcdefgh12".to_string(),
        uri: "https://example.com/login".to_string(),
        version: "1".to_string(),
        scheme: None,
        statement: None,
        request_id: None,
        resources: None,
        issued_at: Some("2024-01-01T00:00:00Z".to_string()),
        expiration_time: None,
        not_before: None,
    }
}

#[test]
fn ethereum_strategy_sign_in() {
    let mut s: InjectedEthereumStrategy<()> = InjectedEthereumStrategy::new();
    let data = sign_in_data();
    assert_eq!(
        s.begin_ethereum_sign_in(&data, Some("0xabc".to_string())).unwrap_err(),
        "Provider not found."
    );
    s.set_provider(());
    assert_eq!(s.begin_ethereum_sign_in(&data, None).unwrap_err(), "No address available.");
    let (message, address) = s.begin_ethereum_sign_in(&data, Some("0xabc".to_string())).unwrap();
    assert_eq!(address, "0xabc");
    assert!(message.starts_with("example.com wants you to sign in with your Ethereum account:\n"));
    assert!(message.contains("Issued At: 2024-01-01T00:00:00Z"));
    let mut bad = sign_in_data();
    bad.version = "2".to_string();
    assert!(s.begin_ethereum_sign_in(&bad, Some("0xabc".to_string())).is_err());
}

#[test]
fn ethereum_connect_flow_paths() {
    let (_, a) = EthereumConnectFlow::start(true);
    assert!(matches!(a, EthConnectAction::ReturnAccounts));
    let (mut f, a) = EthereumConnectFlow::start(false);
    assert!(matches!(a, EthConnectAction::Connect { only_if_trusted: true }));
    assert!(matches!(f.step(Some(vec![])), EthConnectAction::Connect { only_if_trusted: false }));
    match f.step(Some(vec!["0xa".to_string()])) {
        EthConnectAction::Connected(a) => assert_eq!(a, vec!["0xa".to_string()]),
        other => panic!("unexpected {:?}", other),
    }
    let (mut f, _) = EthereumConnectFlow::start(false);
    f.step(None);
    match f.step(None) {
        EthConnectAction::Failed(m) => assert_eq!(m, "Failed to connect to Phantom."),
        other => panic!("unexpected {:?}", other),
    }
}

#[test]
fn phantom_plugins_by_name() {
    let p = create_phantom(vec![
        ("solana".to_string(), 1),
        ("extension".to_string(), 2),
        ("solana".to_string(), 3),
    ]);
    assert_eq!(p.get("solana"), Some(&3));
    assert_eq!(p.get("extension"), Some(&2));
    assert!(p.has("extension"));
    assert!(!p.has("ethereum"));
    assert_eq!(p.get("ethereum"), None);
}

#[test]
fn auto_confirm_conversions() {
    let ids = vec![NetworkId::SolanaMainnet, NetworkId::EthereumMainnet];
    let caips = network_ids_to_internal_caips(&ids).unwrap();
    assert_eq!(caips, vec![InternalNetworkCaip::Solana101, InternalNetworkCaip::Eip155_1]);
    assert_eq!(internal_caips_to_network_ids(&caips).unwrap(), ids);
    let req = enable_request(Some(&AutoConfirmEnableParams { chains: Some(ids.clone()) }));
    assert_eq!(req.method(), "phantom_auto_confirm_enable");
    match req {
        AutoConfirmRequest::Enable(p) => assert_eq!(p.chains, Some(caips.clone())),
        _ => panic!("not an enable request"),
    }
    match enable_request(None) {
        AutoConfirmRequest::Enable(p) => assert!(p.chains.is_none()),
        _ => panic!("not an enable request"),
    }
    assert_eq!(AutoConfirmRequest::Disable.method(), "phantom_auto_confirm_disable");
    assert_eq!(AutoConfirmRequest::Status.method(), "phantom_auto_confirm_status");
    assert_eq!(AutoConfirmRequest::SupportedChains.method(), "phantom_auto_confirm_supported_chains");
    let st = state_result(AutoConfirmStateResponse { enabled: true, chains: caips.clone() }).unwrap();
    assert!(st.enabled);
    assert_eq!(st.chains, ids);
    let sup = supported_result(AutoConfirmSupportResponse { chains: vec![InternalNetworkCaip::Solana103] }).unwrap();
    assert_eq!(sup.chains, vec![NetworkId::SolanaDevnet]);
}

#[test]
fn chain_switch_normalizes_chain_ids() {
    assert_eq!(normalize_chain_id("0X1A"), "0x1a");
    assert_eq!(normalize_chain_id("0x89"), "0x89");
    assert_eq!(normalize_chain_id("137"), "0x89");
    assert_eq!(normalize_chain_id("0"), "0x0");
    assert_eq!(normalize_chain_id("abc"), "abc");
    let mut eth = Ethereum::new();
    assert_eq!(eth.complete_switch_chain("137"), "0x89");
    assert_eq!(eth.get_chain_id_owned(), "0x89");
}

#[test]
fn chain_ids_read_from_hex() {
    assert_eq!(chain_id_from_hex("0x89"), Some(137));
    assert_eq!(chain_id_from_hex("0x0x10"), Some(16));
    assert_eq!(chain_id_from_hex("+ff"), Some(255));
    assert_eq!(chain_id_from_hex("0xFFFFFFFFFFFFFFFF"), Some(u64::MAX));
    assert_eq!(chain_id_from_hex("0x10000000000000000"), None);
    assert_eq!(chain_id_from_hex("0x"), None);
    assert_eq!(chain_id_from_hex("0xzz"), None);
    assert_eq!(chain_id_from_hex("0X1"), None);
    let mut eth = Ethereum::new();
    assert_eq!(eth.complete_get_chain_id("0xzz".to_string()), None);
    assert_eq!(eth.get_chain_id_owned(), "0x1");
    assert_eq!(eth.complete_get_chain_id("0xa".to_string()), Some(10));
    assert_eq!(eth.get_chain_id_owned(), "0xa");
}
