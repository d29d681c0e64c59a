use phantom_connect::network_ids::NetworkId;
use phantom_connect::networks::{
    chain_id_to_network_id, get_explorer_url, get_network_config, get_networks_by_chain,
    get_supported_networks, internal_caip_to_network_id, network_id_to_chain_id,
    network_id_to_internal_caip, ExplorerUrlType, InternalNetworkCaip,
};

#[test]
fn solana_mainnet_config() {
    let config = get_network_config(NetworkId::SolanaMainnet).unwrap();
    assert_eq!(config.chain, "solana");
    assert_eq!(config.network, "mainnet");
    assert_eq!(config.name, "Solana Mainnet");
}

#[test]
fn ethereum_mainnet_config() {
    let config = get_network_config(NetworkId::EthereumMainnet).unwrap();
    assert_eq!(config.chain, "ethereum");
    assert_eq!(config.network, "mainnet");
}

#[test]
fn all_networks_have_explorers() {
    for id in NetworkId::all() {
        let config = get_network_config(id).unwrap();
        let explorer = config
            .explorer
            .as_ref()
            .expect(&format!("Network {} should have explorer", config.name));
        assert!(
            explorer.transaction_url.contains("{hash}"),
            "transaction_url for {} should contain {{hash}}",
            config.name
        );
        assert!(
            explorer.address_url.contains("{address}"),
            "address_url for {} should contain {{address}}",
            config.name
        );
    }
}

#[test]
fn get_explorer_url_transaction() {
    let url = get_explorer_url(
        NetworkId::SolanaMainnet,
        ExplorerUrlType::Transaction,
        "test-hash",
    );
    assert_eq!(url, Some("https://solscan.io/tx/test-hash".to_string()));
}

#[test]
fn get_explorer_url_address() {
    let url = get_explorer_url(
        NetworkId::EthereumMainnet,
        ExplorerUrlType::Address,
        "0x123456",
    );
    assert_eq!(
        url,
        Some("https://etherscan.io/address/0x123456".to_string())
    );
}

#[test]
fn get_supported_networks_not_empty() {
    let networks = get_supported_networks();
    assert!(!networks.is_empty());
    assert!(networks.contains(&NetworkId::SolanaMainnet));
    assert!(networks.contains(&NetworkId::EthereumMainnet));
}

#[test]
fn get_networks_by_chain_solana() {
    let solana = get_networks_by_chain("solana");
    assert!(solana.contains(&NetworkId::SolanaMainnet));
    assert!(solana.contains(&NetworkId::SolanaDevnet));
    for id in &solana {
        let config = get_network_config(*id).unwrap();
        assert_eq!(config.chain, "solana");
    }
}

#[test]
fn get_networks_by_chain_ethereum() {
    let eth = get_networks_by_chain("ethereum");
    assert!(eth.contains(&NetworkId::EthereumMainnet));
    assert!(eth.contains(&NetworkId::EthereumSepolia));
}

#[test]
fn get_networks_by_chain_unsupported() {
    let networks = get_networks_by_chain("unsupported-chain");
    assert!(networks.is_empty());
}

#[test]
fn chain_id_roundtrip() {
    assert_eq!(chain_id_to_network_id(1), Some(NetworkId::EthereumMainnet));
    assert_eq!(network_id_to_chain_id(NetworkId::EthereumMainnet), Some(1));
}

#[test]
fn solana_has_no_chain_id() {
    assert_eq!(network_id_to_chain_id(NetworkId::SolanaMainnet), None);
}

#[test]
fn every_chain_id_maps_back_to_its_network() {
    for id in NetworkId::all() {
        if let Some(chain_id) = network_id_to_chain_id(id) {
            assert_eq!(chain_id_to_network_id(chain_id), Some(id));
        }
    }
    assert_eq!(chain_id_to_network_id(999_999), None);
    assert_eq!(chain_id_to_network_id(137), Some(NetworkId::PolygonMainnet));
}

#[test]
fn every_internal_caip_maps_back_to_its_network() {
    for id in NetworkId::all() {
        let caip = network_id_to_internal_caip(id).unwrap();
        assert_eq!(internal_caip_to_network_id(caip).unwrap(), id);
    }
    assert_eq!(
        network_id_to_internal_caip(NetworkId::SolanaMainnet).unwrap(),
        InternalNetworkCaip::Solana101
    );
}

#[test]
fn explorer_url_replaces_every_placeholder() {
    let url = get_explorer_url(NetworkId::SuiDevnet, ExplorerUrlType::Address, "0xabc").unwrap();
    assert_eq!(url, "https://explorer.sui.io/address/0xabc?network=devnet");
    let url = get_explorer_url(NetworkId::SolanaDevnet, ExplorerUrlType::Transaction, "sig").unwrap();
    assert_eq!(url, "https://solscan.io/tx/sig?cluster=devnet");
}

#[test]
fn network_id_strings() {
    assert_eq!(NetworkId::EthereumMainnet.as_str(), "eip155:1");
    assert_eq!(NetworkId::SuiDevnet.as_str(), "sui:devnet");
    let all = NetworkId::all();
    assert_eq!(all.len(), 18);
    let mut strs: Vec<&str> = all.iter().map(|id| id.as_str()).collect();
    strs.sort();
    strs.dedup();
    assert_eq!(strs.len(), 18);
}

#[test]
fn networks_by_chain_keep_table_order() {
    let base = get_networks_by_chain("base");
    assert_eq!(base, vec![NetworkId::BaseMainnet, NetworkId::BaseSepolia]);
    assert_eq!(get_supported_networks().len(), 18);
}

#[test]
fn every_explorer_url_has_its_placeholder() {
    for id in NetworkId::all() {
        let e = get_network_config(id).unwrap().explorer.unwrap();
        assert!(e.transaction_url.contains("{hash}"));
        assert!(e.address_url.contains("{address}"));
    }
}
