use phantom_connect::caip2_mappings::{
    derive_submission_config, get_network_description, get_network_ids_by_chain,
    get_supported_network_ids, supports_transaction_submission,
};
use phantom_connect::client_constants::{
    get_client_network_config, get_derivation_path_for_network, get_network_config_with_index,
    AddressFormat, ClientAlgorithm, Curve, DerivationPath,
};
use phantom_connect::client_errors::{
    get_error_message, parse_wallet_service_error, ClientError, WalletServiceError,
};
use phantom_connect::client_requests::{
    default_account_paths, get_rpc_method_name, kms_api_error, organization_username,
    plan_transaction_signing, prepare_failure, resolve_client_config, set_organization_id,
    user_policy, validate_authenticator_request, validate_name_length,
    validate_organization_request, wallet_name_or_default, TransactionForSigning, UserPolicy,
};
use phantom_connect::client_types::{
    AuthenticatorConfig, CreateAuthenticatorParams, PhantomClientConfig, PrepareErrorResponse,
    SignTransactionParams, UserConfig, WalletServiceErrorType,
};
use phantom_connect::network_ids::NetworkId;

fn config(org: Option<&str>, wallet_type: &str) -> PhantomClientConfig {
    PhantomClientConfig {
        api_base_url: "https://api.example".to_string(),
        organization_id: org.map(|s| s.to_string()),
        headers: None,
        wallet_type: wallet_type.to_string(),
    }
}

fn sign_params(network_id: &str, account: Option<&str>) -> SignTransactionParams {
    SignTransactionParams {
        wallet_id: "w".to_string(),
        transaction: "tx".to_string(),
        network_id: network_id.to_string(),
        derivation_index: Some(2),
        account: account.map(|s| s.to_string()),
    }
}

fn config_message(e: ClientError) -> String {
    match e {
        ClientError::Config(m) => m,
        other => panic!("expected a configuration error, got {:?}", other),
    }
}

fn keypair_auth(name: &str) -> AuthenticatorConfig {
    AuthenticatorConfig::Keypair {
        authenticator_name: name.to_string(),
        public_key: "pk".to_string(),
        algorithm: ClientAlgorithm::Ed25519,
        expires_in_ms: None,
    }
}

#[test]
fn derivation_paths() {
    assert_eq!(DerivationPath::solana(0), "m/44'/501'/0'/0'");
    assert_eq!(DerivationPath::ethereum(5), "m/44'/60'/0'/0/5");
    assert_eq!(DerivationPath::bitcoin(2), "m/84'/0'/2'/0");
    assert_eq!(DerivationPath::sui(1), "m/44'/784'/1'/0'/0'");
    assert_eq!(DerivationPath::solana(4294967295), "m/44'/501'/4294967295'/0'");
}

#[test]
fn derivation_path_by_network() {
    assert_eq!(get_derivation_path_for_network("SOLANA:abc", 3), DerivationPath::solana(3));
    assert_eq!(get_derivation_path_for_network("btc:x", 0), DerivationPath::bitcoin(0));
    assert_eq!(get_derivation_path_for_network("bip122:x", 1), DerivationPath::bitcoin(1));
    assert_eq!(get_derivation_path_for_network("sui:35834a8a", 0), DerivationPath::sui(0));
    assert_eq!(get_derivation_path_for_network("eip155:1", 7), DerivationPath::ethereum(7));
    assert_eq!(get_derivation_path_for_network("unknown", 0), DerivationPath::ethereum(0));
}

#[test]
fn client_network_configs() {
    let eth = get_client_network_config("eip155:137", 0).unwrap();
    assert_eq!(eth.derivation_path, "m/44'/60'/0'/0/0");
    assert_eq!(eth.curve, Curve::Secp256k1);
    assert_eq!(eth.algorithm, ClientAlgorithm::Secp256k1);
    assert_eq!(eth.address_format, AddressFormat::Ethereum);
    let btc = get_client_network_config("BIP122:000000000019d6689c085ae165831e93", 1).unwrap();
    assert_eq!(btc.address_format, AddressFormat::BitcoinSegwit);
    assert_eq!(btc.derivation_path, "m/84'/0'/1'/0");
    let sol = get_network_config_with_index("solana:x", 4).unwrap();
    assert_eq!((sol.curve, sol.address_format), (Curve::Ed25519, AddressFormat::Solana));
    assert!(get_client_network_config("cosmos:hub", 0).is_none());
    assert!(get_client_network_config("", 0).is_none());
}

#[test]
fn submission_configs() {
    let c = derive_submission_config("eip155:1").unwrap();
    assert_eq!((c.chain.as_str(), c.network.as_str()), ("ethereum", "mainnet"));
    let c = derive_submission_config(NetworkId::ArbitrumSepolia.as_str()).unwrap();
    assert_eq!((c.chain.as_str(), c.network.as_str()), ("arbitrum", "sepolia"));
    assert!(derive_submission_config("sui:devnet").is_none());
    assert!(derive_submission_config("eip155:999").is_none());
    assert!(supports_transaction_submission(NetworkId::SolanaMainnet.as_str()));
    assert!(!supports_transaction_submission("solana:unknown"));
    assert_eq!(get_network_description("eip155:11155111"), Some("Sepolia Testnet"));
    assert_eq!(get_network_description("solana:5eykt4UsFv8P8NJdTREpY1vzqKqZKvdp"), Some("Solana Mainnet-Beta"));
    assert_eq!(get_network_description("x"), None);
}

#[test]
fn supported_ids_and_chains() {
    let ids = get_supported_network_ids();
    assert_eq!(ids.len(), 17);
    assert!(!ids.contains(&"sui:devnet"));
    assert_eq!(get_network_ids_by_chain("ETHEREUM"), vec!["eip155:1", "eip155:11155111"]);
    assert_eq!(get_network_ids_by_chain("solana").len(), 3);
    assert!(get_network_ids_by_chain("cosmos").is_empty());
    for id in ids {
        assert!(supports_transaction_submission(id));
    }
}

#[test]
fn submission_configs_agree_with_network_table() {
    for id in NetworkId::all() {
        if let Some(sub) = derive_submission_config(id.as_str()) {
            let net = phantom_connect::networks::get_network_config(id).unwrap();
            assert_eq!(sub.chain, net.chain);
            assert_eq!(sub.network, net.network);
        }
    }
}

#[test]
fn name_lengths() {
    assert!(validate_name_length(&"a".repeat(64), "Organization").is_ok());
    assert_eq!(
        config_message(validate_name_length(&"a".repeat(65), "Organization").unwrap_err()),
        "Organization name cannot exceed 64 characters. Current length: 65"
    );
    // The length is counted in bytes.
    assert_eq!(
        config_message(validate_name_length(&"é".repeat(33), "Username").unwrap_err()),
        "Username name cannot exceed 64 characters. Current length: 66"
    );
}

#[test]
fn organization_requests() {
    let user = |name: &str, auths: Vec<AuthenticatorConfig>| UserConfig {
        username: name.to_string(),
        role: None,
        authenticators: auths,
    };
    assert_eq!(
        config_message(validate_organization_request("", &[]).unwrap_err()),
        "Organization name is required"
    );
    assert_eq!(
        config_message(validate_organization_request("org", &[]).unwrap_err()),
        "At least one user is required"
    );
    assert!(validate_organization_request("org", &[user("", vec![keypair_auth("")])]).is_ok());
    assert_eq!(
        config_message(validate_organization_request("org", &[user("ok", vec![]), user(&"u".repeat(70), vec![])]).unwrap_err()),
        "Username name cannot exceed 64 characters. Current length: 70"
    );
    assert_eq!(
        config_message(validate_organization_request("org", &[user("ok", vec![keypair_auth("k"), keypair_auth(&"k".repeat(65))])]).unwrap_err()),
        "Authenticator name cannot exceed 64 characters. Current length: 65"
    );
    assert_eq!(user_policy(None), UserPolicy::Root);
    assert_eq!(user_policy(Some("ADMIN")), UserPolicy::Root);
    assert_eq!(user_policy(Some("USER")), UserPolicy::LegacyUserRole);
    assert_eq!(organization_username("", "123"), "user-123");
    assert_eq!(organization_username("alice", "123"), "alice");
}

#[test]
fn authenticator_requests() {
    let mut p = CreateAuthenticatorParams {
        organization_id: "o".to_string(),
        username: "u".to_string(),
        authenticator_name: "a".to_string(),
        authenticator: keypair_auth("inner"),
        replace_expirable: None,
    };
    assert!(validate_authenticator_request(&p).is_ok());
    p.authenticator = keypair_auth(&"x".repeat(80));
    assert_eq!(
        config_message(validate_authenticator_request(&p).unwrap_err()),
        "Authenticator name cannot exceed 64 characters. Current length: 80"
    );
}

#[test]
fn configuration_defaults() {
    assert_eq!(resolve_client_config(config(None, "")).wallet_type, "user-wallet");
    assert_eq!(resolve_client_config(config(None, "server-wallet")).wallet_type, "server-wallet");
    let mut c = config(None, "user-wallet");
    assert_eq!(config_message(set_organization_id(&mut c, String::new()).unwrap_err()), "organizationId is required");
    assert!(c.organization_id.is_none());
    set_organization_id(&mut c, "org".to_string()).unwrap();
    assert_eq!(c.organization_id, Some("org".to_string()));
    assert_eq!(wallet_name_or_default(None, 1700000000000), "Wallet 1700000000000");
    assert_eq!(wallet_name_or_default(Some("Mine"), 1), "Mine");
    assert_eq!(
        default_account_paths(1),
        vec![DerivationPath::solana(1), DerivationPath::ethereum(1), DerivationPath::bitcoin(1), DerivationPath::sui(1)]
    );
}

#[test]
fn rpc_method_names() {
    assert_eq!(get_rpc_method_name(true, true), "eth_sendTransaction");
    assert_eq!(get_rpc_method_name(true, false), "eth_signTransaction");
    assert_eq!(get_rpc_method_name(false, true), "signAndSendTransaction");
    assert_eq!(get_rpc_method_name(false, false), "signTransaction");
}

#[test]
fn signing_plans() {
    let evm = plan_transaction_signing(&config(Some("org"), "user-wallet"), &sign_params("eip155:1", None), true, true, false).unwrap();
    assert_eq!(evm.method_name, "eth_sendTransaction");
    assert!(matches!(evm.transaction, TransactionForSigning::RlpEncoded));
    assert_eq!(evm.network_config.derivation_path, "m/44'/60'/0'/0/2");
    assert_eq!(evm.submission_config.chain, "ethereum");
    assert_eq!(evm.simulation_account, None);

    let sol_id = NetworkId::SolanaMainnet.as_str();
    let sol = plan_transaction_signing(&config(Some("org"), "user-wallet"), &sign_params(sol_id, Some("acct")), true, false, true).unwrap();
    assert!(matches!(sol.transaction, TransactionForSigning::Prepare { ref account } if account == "acct"));
    assert_eq!(sol.simulation_account, Some("acct".to_string()));
    assert_eq!(sol.method_name, "signAndSendTransaction");

    let server = plan_transaction_signing(&config(Some("org"), "server-wallet"), &sign_params(sol_id, None), false, false, true).unwrap();
    assert!(matches!(server.transaction, TransactionForSigning::AsIs));

    assert_eq!(
        config_message(plan_transaction_signing(&config(Some("org"), "user-wallet"), &sign_params(sol_id, None), false, false, true).unwrap_err()),
        "Account is required to simulate Solana transactions with spending limits"
    );
    assert_eq!(
        config_message(plan_transaction_signing(&config(None, "user-wallet"), &sign_params("eip155:1", None), false, true, false).unwrap_err()),
        "organizationId is required to sign a transaction"
    );
    assert_eq!(
        config_message(plan_transaction_signing(&config(Some("o"), "user-wallet"), &sign_params("sui:devnet", None), false, false, false).unwrap_err()),
        "SubmissionConfig could not be derived for network ID: sui:devnet"
    );
}

#[test]
fn error_messages() {
    let spending = ClientError::WalletService(WalletServiceError::SpendingLimitExceeded {
        title: "Title".to_string(),
        detail: String::new(),
        request_id: "r".to_string(),
        previous_spend_cents: None,
        transaction_spend_cents: None,
        total_spend_cents: None,
        limit_cents: None,
    });
    assert_eq!(get_error_message(&spending, "fallback"), "Title");
    let blocked = ClientError::WalletService(WalletServiceError::TransactionBlocked {
        title: String::new(),
        detail: String::new(),
        request_id: "r".to_string(),
        scanner_result: None,
    });
    assert_eq!(get_error_message(&blocked, "fallback"), "fallback");
    assert_eq!(get_error_message(&ClientError::Api("api".to_string()), "f"), "api");
    assert_eq!(get_error_message(&ClientError::UnsupportedNetwork("x:y".to_string()), "f"), "Unsupported network ID: x:y");
    assert_eq!(get_error_message(&kms_api_error(500, "boom"), "f"), "KMS API error (status 500): boom");
    match prepare_failure(None) {
        ClientError::Prepare(m) => assert_eq!(m, "Failed to submit transaction"),
        other => panic!("unexpected {:?}", other),
    }
}

fn error_body(kind: Option<WalletServiceErrorType>) -> PrepareErrorResponse {
    PrepareErrorResponse {
        error_type: kind,
        title: Some("t".to_string()),
        detail: None,
        request_id: None,
        message: Some("m".to_string()),
        previous_spend_cents: Some(1),
        transaction_spend_cents: Some(2),
        total_spend_cents: Some(3),
        limit_cents: Some(4),
        scanner_result: None,
    }
}

#[test]
fn wallet_service_errors() {
    assert!(parse_wallet_service_error(&error_body(None)).is_none());
    match parse_wallet_service_error(&error_body(Some(WalletServiceErrorType::SpendingLimitExceeded))).unwrap() {
        WalletServiceError::SpendingLimitExceeded { title, detail, request_id, limit_cents, total_spend_cents, .. } => {
            assert_eq!((title.as_str(), detail.as_str(), request_id.as_str()), ("t", "", ""));
            assert_eq!((limit_cents, total_spend_cents), (Some(4), Some(3)));
        }
        other => panic!("unexpected {:?}", other),
    }
    assert!(matches!(
        prepare_failure(Some(error_body(Some(WalletServiceErrorType::TransactionBlocked)))),
        ClientError::WalletService(WalletServiceError::TransactionBlocked { .. })
    ));
    match prepare_failure(Some(error_body(None))) {
        ClientError::Prepare(m) => assert_eq!(m, "m"),
        other => panic!("unexpected {:?}", other),
    }
}

#[test]
fn supported_ids_are_the_table_without_duplicates() {
    let ids = get_supported_network_ids();
    assert_eq!(ids.len(), 17);
    let mut sorted = ids.clone();
    sorted.sort();
    sorted.dedup();
    assert_eq!(sorted.len(), 17);
    for id in NetworkId::all() {
        let s = id.as_str();
        assert_eq!(ids.contains(&s), id != NetworkId::SuiDevnet);
        assert_eq!(supports_transaction_submission(s), ids.contains(&s));
        assert_eq!(derive_submission_config(s).is_some(), ids.contains(&s));
    }
}

#[test]
fn ids_by_chain_ignore_case() {
    let solana = get_network_ids_by_chain("SOLANA");
    assert_eq!(
        solana,
        vec![
            NetworkId::SolanaMainnet.as_str(),
            NetworkId::SolanaDevnet.as_str(),
            NetworkId::SolanaTestnet.as_str()
        ]
    );
    assert!(get_network_ids_by_chain("cosmos").is_empty());
}

#[test]
fn client_config_families() {
    for (id, ed) in [("solana:x", true), ("SUI:x", true), ("bitcoin:x", false), ("btc", false), ("bip122:x", false), ("eip155:1", false)] {
        let c = get_client_network_config(id, 2).unwrap();
        assert_eq!(c.derivation_path, get_derivation_path_for_network(id, 2));
        assert_eq!(c.curve == Curve::Ed25519 && c.algorithm == ClientAlgorithm::Ed25519, ed);
        assert_eq!(c.curve == Curve::Secp256k1 && c.algorithm == ClientAlgorithm::Secp256k1, !ed);
    }
    assert!(get_client_network_config("cosmos:hub", 0).is_none());
}
