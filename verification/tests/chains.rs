use phantom_connect::chain_types::{EthTransactionRequest, SolanaNetwork, SolanaTransaction};
use phantom_connect::ethereum_types::EthereumTransaction;
use phantom_connect::injected_chains::{
    fallback_after_failure, request_step, CallOutcome, EthRequestAction, EthRequestStage,
    EthSigningOperation, InjectedWalletEthereumChain,
};
use phantom_connect::wallet_standard::{
    require_feature, StandardEventsChangeProperties, StandardFeature, WalletStandardAccount,
    WalletStandardSolanaAdapter,
};

fn account(address: &str) -> WalletStandardAccount {
    WalletStandardAccount {
        address: address.to_string(),
        public_key: vec![1, 2, 3],
        chains: vec!["solana:mainnet".to_string()],
        features: vec![],
    }
}

#[test]
fn transaction_base64_forms() {
    assert_eq!(SolanaTransaction::to_base64(b""), "");
    assert_eq!(SolanaTransaction::to_base64(b"f"), "Zg==");
    assert_eq!(SolanaTransaction::to_base64(b"fo"), "Zm8=");
    assert_eq!(SolanaTransaction::to_base64(b"foo"), "Zm9v");
    assert_eq!(SolanaTransaction::to_base64(&[0xfb, 0xff]), "+/8=");
    assert_eq!(SolanaTransaction::from_base64("+/8=").unwrap(), vec![0xfb, 0xff]);
    let bytes: Vec<u8> = (0u8..=255).collect();
    let enc = SolanaTransaction::to_base64(&bytes);
    assert_eq!(SolanaTransaction::from_base64(&enc).unwrap(), bytes);
    let err = SolanaTransaction::from_base64("Zg").unwrap_err();
    assert!(err.starts_with("Invalid base64 transaction: "));
    assert!(SolanaTransaction::from_base64("-_8=").is_err());
}

#[test]
fn transaction_base58_forms() {
    assert_eq!(SolanaTransaction::to_base58(&[0, 0, 1]), "112");
    assert_eq!(SolanaTransaction::from_base58("112").unwrap(), vec![0, 0, 1]);
    let bytes = vec![7u8, 200, 13, 0, 99];
    assert_eq!(SolanaTransaction::from_base58(&SolanaTransaction::to_base58(&bytes)).unwrap(), bytes);
    let err = SolanaTransaction::from_base58("0OIl").unwrap_err();
    assert!(err.starts_with("Invalid base58 transaction: "));
}

#[test]
fn chain_value_types() {
    let tx = EthTransactionRequest { to: Some("0xabc".to_string()), ..Default::default() };
    assert!(tx.from.is_none());
    assert_ne!(SolanaNetwork::Mainnet, SolanaNetwork::Devnet);
}

#[test]
fn request_flow_with_reauthorization() {
    let mut chain = InjectedWalletEthereumChain::new("mm".to_string(), "MetaMask".to_string(), vec![], "0x1".to_string());
    assert_eq!(chain.begin_request("personal_sign"), (EthRequestStage::Connecting, EthRequestAction::Connect));
    assert_eq!(chain.begin_request("eth_chainId"), (EthRequestStage::Sending, EthRequestAction::Send));
    chain.record_connect(vec!["0xa".to_string()], "0x1".to_string());
    assert_eq!(chain.begin_request("personal_sign"), (EthRequestStage::Sending, EthRequestAction::Send));
    let unauthorized = CallOutcome::Failed(r#"{"code":4100,"message":"Unauthorized"}"#.to_string());
    let s = request_step(EthRequestStage::Sending, &unauthorized);
    assert_eq!(s, (EthRequestStage::Reauthorizing, EthRequestAction::Reauthorize));
    let s = request_step(s.0, &CallOutcome::Succeeded);
    assert_eq!(s, (EthRequestStage::Retrying, EthRequestAction::Send));
    let s = request_step(s.0, &unauthorized);
    assert_eq!(s, (EthRequestStage::Done, EthRequestAction::ReturnLast));
    let other = CallOutcome::Failed("User rejected the request".to_string());
    assert_eq!(request_step(EthRequestStage::Sending, &other), (EthRequestStage::Done, EthRequestAction::ReturnLast));
    assert_eq!(
        request_step(EthRequestStage::Connecting, &other),
        (EthRequestStage::Done, EthRequestAction::ReturnLast)
    );
    assert_eq!(
        request_step(EthRequestStage::Connecting, &CallOutcome::Succeeded),
        (EthRequestStage::Sending, EthRequestAction::Send)
    );
}

#[test]
fn signing_fallbacks() {
    assert_eq!(
        fallback_after_failure(EthSigningOperation::SignTypedData, "Method NOT SUPPORTED"),
        Some("eth_signTypedData_v4")
    );
    assert_eq!(fallback_after_failure(EthSigningOperation::SendTransaction, "User rejected"), None);
    assert_eq!(
        fallback_after_failure(EthSigningOperation::SignPersonalMessage, "not implemented"),
        Some("personal_sign")
    );
}

#[test]
fn wallet_standard_connect() {
    let mut a = WalletStandardSolanaAdapter::new(vec![account("WalletAcc")], "w".to_string(), "W".to_string());
    assert!(!a.is_connected());
    assert!(require_feature(StandardFeature::Connect, true).is_ok());
    assert_eq!(
        require_feature(StandardFeature::SignMessage, false).unwrap_err(),
        "Wallet Standard signMessage feature not available"
    );
    let r = a.complete_connect(&[account("Fresh")]).unwrap();
    assert_eq!(r.public_key, "Fresh");
    assert_eq!(a.get_account().as_deref(), Some("Fresh"));
    let r = a.complete_connect(&[]).unwrap();
    assert_eq!(r.public_key, "WalletAcc");
    assert_eq!(
        a.complete_connect(&[account("")]).unwrap_err(),
        "Could not extract address from account"
    );
    assert!(a.public_key().is_none());
    a.complete_disconnect();
    assert!(!a.is_connected());
    let mut empty = WalletStandardSolanaAdapter::new(vec![], "w".to_string(), "W".to_string());
    assert_eq!(
        empty.complete_connect(&[]).unwrap_err(),
        "No accounts available after connecting to wallet"
    );
    assert_eq!(empty.signing_account().unwrap_err(), "No accounts available. Please connect first.");
}

#[test]
fn wallet_standard_signing_results() {
    let a = WalletStandardSolanaAdapter::new(vec![account("Signer")], "w".to_string(), "W".to_string());
    let acc = a.signing_account().unwrap();
    assert_eq!(acc.address, "Signer");
    let r = WalletStandardSolanaAdapter::message_signed(vec![9, 9], acc).unwrap();
    assert_eq!(r.public_key, "Signer");
    assert_eq!(r.signature, vec![9, 9]);
    assert_eq!(WalletStandardSolanaAdapter::message_signed(vec![], acc).unwrap_err(), "Signature is empty");
    assert_eq!(
        WalletStandardSolanaAdapter::transaction_signed(vec![]).unwrap_err(),
        "Empty signed transaction returned from Wallet Standard"
    );
    assert_eq!(WalletStandardSolanaAdapter::transaction_signed(vec![1]).unwrap(), vec![1]);
    assert_eq!(WalletStandardSolanaAdapter::transaction_sent(&[0, 0, 1]).signature, "112");
}

#[test]
fn wallet_standard_change_events() {
    let mut a = WalletStandardSolanaAdapter::new(vec![], "w".to_string(), "W".to_string());
    let none = StandardEventsChangeProperties::default();
    assert!(a.handle_change(&none).is_empty());
    let with = StandardEventsChangeProperties { accounts: Some(vec![account("K1")]), ..Default::default() };
    let ev = a.handle_change(&with);
    assert_eq!(
        ev,
        vec![
            ("accountChanged".to_string(), Some("K1".to_string())),
            ("connect".to_string(), Some("K1".to_string()))
        ]
    );
    assert!(a.is_connected());
    let blank = StandardEventsChangeProperties { accounts: Some(vec![account("")]), ..Default::default() };
    assert_eq!(a.handle_change(&blank), vec![("accountChanged".to_string(), None)]);
    assert!(!a.is_connected());
    let gone = StandardEventsChangeProperties { accounts: Some(vec![]), ..Default::default() };
    assert_eq!(
        a.handle_change(&gone),
        vec![("accountChanged".to_string(), None), ("disconnect".to_string(), None)]
    );
    let id1 = a.on("connect");
    let id2 = a.on("connect");
    assert_eq!((id1, id2), (1, 2));
    a.off("connect", id1);
    assert_eq!(a.listeners("connect"), vec![2]);
}

#[test]
fn plugin_transaction_from_request() {
    let req = EthTransactionRequest {
        to: Some("0xabc".to_string()),
        value: Some("0x1".to_string()),
        tx_type: Some("0x2".to_string()),
        chain_id: Some("0x89".to_string()),
        ..Default::default()
    };
    let t = EthereumTransaction::from_request(req);
    assert_eq!(t.to.as_deref(), Some("0xabc"));
    assert_eq!(t.value.as_deref(), Some("0x1"));
    assert_eq!(t.tx_type.as_deref(), Some("0x2"));
    assert_eq!(t.chain_id.as_deref(), Some("0x89"));
    assert!(t.from.is_none() && t.gas.is_none() && t.data.is_none() && t.nonce.is_none());
}
