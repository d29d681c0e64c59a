use phantom_connect::injected_chains::{
    extract_error_code, fallback_method, is_unsupported_error, requires_authorization,
    should_reauthorize, EthSigningOperation, EventListenerRegistry, InjectedWalletEthereumChain,
    InjectedWalletSolanaChain,
};

#[test]
fn error_codes_from_json_text() {
    assert_eq!(extract_error_code(r#"{"code":4100,"message":"Unauthorized"}"#), Some(4100));
    assert_eq!(extract_error_code(r#"RPC error {"code": -32603}"#), Some(-32603));
    assert_eq!(extract_error_code("{\"code\"\u{a0}:\u{2003}42,"), Some(42));
    assert_eq!(extract_error_code(r#"{"code":9223372036854775807}"#), Some(i64::MAX));
    assert_eq!(extract_error_code(r#"{"code":9223372036854775808}"#), None);
    assert_eq!(extract_error_code(r#"{"code":"abc"} code 4100"#), Some(4100));
    assert_eq!(extract_error_code(r#"{"code":"#), None);
}

#[test]
fn error_codes_from_patterns() {
    assert_eq!(extract_error_code("Error(4100): Unauthorized"), Some(4100));
    assert_eq!(extract_error_code("request failed with code: 4100"), Some(4100));
    assert_eq!(extract_error_code("error 4100 happened"), Some(4100));
    assert_eq!(extract_error_code("Error 4100 happened"), Some(4100));
    assert_eq!(extract_error_code("Error 4100: Unauthorized"), Some(4100));
    assert_eq!(extract_error_code("ERROR 4100"), None);
    assert_eq!(extract_error_code("User rejected"), None);
    assert!(should_reauthorize(r#"{"code":4100}"#));
    assert!(!should_reauthorize(r#"{"code":4001}"#));
}

#[test]
fn unsupported_method_errors() {
    assert!(is_unsupported_error("Method NOT SUPPORTED by wallet"));
    assert!(is_unsupported_error("Not Implemented"));
    assert!(is_unsupported_error("unsupported method"));
    assert!(!is_unsupported_error("User rejected the request"));
    assert_eq!(fallback_method(EthSigningOperation::SignPersonalMessage), "personal_sign");
    assert_eq!(fallback_method(EthSigningOperation::SignTypedData), "eth_signTypedData_v4");
    assert_eq!(fallback_method(EthSigningOperation::SignTransaction), "eth_signTransaction");
    assert_eq!(fallback_method(EthSigningOperation::SendTransaction), "eth_sendTransaction");
}

#[test]
fn authorization_methods() {
    for m in ["personal_sign", "eth_sign", "eth_signTypedData", "eth_signTypedData_v4", "eth_sendTransaction", "eth_signTransaction"] {
        assert!(requires_authorization(m));
    }
    assert!(!requires_authorization("eth_chainId"));
    assert!(!requires_authorization("eth_requestAccounts"));
}

#[test]
fn listener_registry() {
    let mut r = EventListenerRegistry::new();
    assert_eq!(r.add("connect"), 1);
    assert_eq!(r.add("connect"), 2);
    assert_eq!(r.add("disconnect"), 3);
    assert_eq!(r.listeners("connect"), vec![1, 2]);
    r.remove("connect", 1);
    assert_eq!(r.listeners("connect"), vec![2]);
    r.remove("disconnect", 2);
    assert_eq!(r.listeners("connect"), vec![2]);
    assert_eq!(r.listeners("disconnect"), vec![3]);
    assert_eq!(r.add("connect"), 4);
    assert_eq!(r.listeners("connect"), vec![2, 4]);
    assert!(r.listeners("other").is_empty());
}

#[test]
fn ethereum_wrapper_state() {
    let mut c = InjectedWalletEthereumChain::new("metamask".to_string(), "MetaMask".to_string(), vec![], "0x1".to_string());
    assert!(!c.is_connected());
    assert!(c.needs_connect_before("personal_sign"));
    assert!(!c.needs_connect_before("eth_chainId"));
    c.record_connect(vec!["0xabc".to_string()], "0x89".to_string());
    assert!(c.is_connected());
    assert_eq!(c.chain_id(), "0x89");
    assert!(!c.needs_connect_before("personal_sign"));
    c.handle_chain_changed_event(Some("0xa".to_string()));
    assert_eq!(c.chain_id(), "0xa");
    c.handle_chain_changed_event(None);
    assert_eq!(c.chain_id(), "0xa");
    c.handle_accounts_changed_event(Some(vec![]));
    assert!(!c.is_connected());
    c.handle_accounts_changed_event(None);
    assert!(!c.is_connected());
    c.handle_connect_event(Some("0x1".to_string()));
    assert!(c.is_connected());
    assert!(c.needs_connect_before("eth_sign"));
    c.handle_accounts_changed_event(Some(vec!["0x1".to_string(), "0x2".to_string()]));
    assert_eq!(c.accounts(), vec!["0x1".to_string(), "0x2".to_string()]);
    c.handle_disconnect_event();
    assert!(!c.is_connected());
    assert!(c.accounts().is_empty());
    let id = c.on("accountsChanged");
    assert_eq!(c.listeners("accountsChanged"), vec![id]);
    c.off("accountsChanged", id);
    assert!(c.listeners("accountsChanged").is_empty());
}

#[test]
fn solana_wrapper_state() {
    let mut s = InjectedWalletSolanaChain::new("phantom".to_string(), "Phantom".to_string(), None);
    assert!(!s.is_connected(false));
    assert!(s.is_connected(true));
    assert_eq!(s.record_connect(false, "pk").unwrap_err(), "Provider not connected after connect() call");
    assert_eq!(s.record_connect(true, "").unwrap_err(), "Empty publicKey from provider");
    assert!(s.public_key().is_none());
    s.record_connect(true, "pk").unwrap();
    assert_eq!(s.public_key(), Some("pk".to_string()));
    assert!(s.is_connected(false));
    assert_eq!(s.signer_public_key(""), "pk");
    assert_eq!(s.signer_public_key("other"), "other");
    s.handle_account_changed_event(Some(String::new()));
    assert!(s.public_key().is_none());
    assert_eq!(s.signer_public_key(""), "");
    s.handle_connect_event(Some("k2".to_string()));
    assert_eq!(s.public_key(), Some("k2".to_string()));
    s.handle_connect_event(None);
    assert_eq!(s.public_key(), Some("k2".to_string()));
    s.record_sign_in("");
    assert_eq!(s.public_key(), Some("k2".to_string()));
    s.record_sign_in("addr");
    assert_eq!(s.public_key(), Some("addr".to_string()));
    s.handle_disconnect_event();
    assert!(s.public_key().is_none());
}
