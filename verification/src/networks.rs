//! Network configurations and the lookups between network identifiers,
//! EIP-155 chain IDs and the extension's internal CAIP identifiers.
use vstd::prelude::*;
use crate::network_ids::{NetworkId, all_network_ids, network_id_str};
use crate::text::{chars_of, chars_eq, contains_seq, decimal, occurs_at, replace_all, replace_chars, string_from_chars};

verus! {

/// Internal CAIP identifier used for extension communication.
#[derive(Debug, Clone, Copy, PartialEq, Eq, Hash, Structural)]
pub enum InternalNetworkCaip {
    BitcoinMainnet,
    BitcoinTestnet,
    Solana101,
    Solana102,
    Solana103,
    SolanaLocalnet,
    Eip155_1,
    Eip155_11155111,
    Eip155_137,
    Eip155_80002,
    Eip155_8453,
    Eip155_84532,
    Eip155_42161,
    Eip155_421614,
    Eip155_143,
    Eip155_10143,
    HypercoreMainnet,
    HypercoreTestnet,
    SuiMainnet,
    SuiTestnet,
    SuiDevnet,
}

/// Block explorer configuration for a network.
#[derive(Debug, Clone)]
pub struct ExplorerConfig {
    /// Name of the explorer service.
    pub name: String,
    /// URL template with a `{hash}` placeholder for transaction lookups.
    pub transaction_url: String,
    /// URL template with an `{address}` placeholder for address lookups.
    pub address_url: String,
}

/// Configuration of a blockchain network.
#[derive(Debug, Clone)]
pub struct NetworkConfig {
    /// Human-readable network name.
    pub name: String,
    /// Chain family (e.g. "solana", "ethereum", "bitcoin").
    pub chain: String,
    /// Network name within the chain (e.g. "mainnet", "testnet").
    pub network: String,
    /// Internal CAIP identifier for extension communication.
    pub internal_caip: Option<InternalNetworkCaip>,
    /// EIP-155 chain ID (EVM networks).
    pub chain_id: Option<u64>,
    /// SLIP-44 coin type.
    pub slip44: Option<String>,
    /// Block explorer configuration.
    pub explorer: Option<ExplorerConfig>,
}

/// Abstract view of an explorer configuration.
pub struct ExplorerView {
    pub name: Seq<char>,
    pub transaction_url: Seq<char>,
    pub address_url: Seq<char>,
}

/// Abstract view of a network configuration.
pub struct NetworkConfigView {
    pub name: Seq<char>,
    pub chain: Seq<char>,
    pub network: Seq<char>,
    pub internal_caip: Option<InternalNetworkCaip>,
    pub chain_id: Option<u64>,
    pub slip44: Option<Seq<char>>,
    pub explorer: Option<ExplorerView>,
}

impl View for ExplorerConfig {
    type V = ExplorerView;

    open spec fn view(&self) -> ExplorerView {
        ExplorerView {
            name: self.name@,
            transaction_url: self.transaction_url@,
            address_url: self.address_url@,
        }
    }
}

impl View for NetworkConfig {
    type V = NetworkConfigView;

    open spec fn view(&self) -> NetworkConfigView {
        NetworkConfigView {
            name: self.name@,
            chain: self.chain@,
            network: self.network@,
            internal_caip: self.internal_caip,
            chain_id: self.chain_id,
            slip44: match self.slip44 {
                Some(s) => Some(s@),
                None => None,
            },
            explorer: match self.explorer {
                Some(e) => Some(e@),
                None => None,
            },
        }
    }
}

/// Errors of the CAIP conversions.
#[derive(Debug)]
pub enum NetworkError {
    /// No internal CAIP mapping found for the given NetworkId.
    NoInternalCaipMapping(NetworkId),
    /// No NetworkId mapping found for the given internal CAIP.
    NoNetworkIdMapping(InternalNetworkCaip),
}

/// Type of explorer URL to generate.
#[derive(Debug, Clone, Copy, PartialEq, Eq, Structural)]
pub enum ExplorerUrlType {
    /// Transaction explorer URL.
    Transaction,
    /// Address explorer URL.
    Address,
}

/// One row of the network table.
pub open spec fn net_row(
    name: Seq<char>,
    chain: Seq<char>,
    network: Seq<char>,
    caip: InternalNetworkCaip,
    chain_id: Option<u64>,
    slip44: Seq<char>,
    explorer: Seq<char>,
    tx_url: Seq<char>,
    addr_url: Seq<char>,
) -> NetworkConfigView {
    NetworkConfigView {
        name,
        chain,
        network,
        internal_caip: Some(caip),
        chain_id,
        slip44: Some(slip44),
        explorer: Some(ExplorerView { name: explorer, transaction_url: tx_url, address_url: addr_url }),
    }
}

/// The configuration table of every supported network.
pub open spec fn network_config_table(id: NetworkId) -> NetworkConfigView {
    match id {
        NetworkId::SolanaMainnet => net_row("Solana Mainnet"@, "solana"@, "mainnet"@,
            InternalNetworkCaip::Solana101, None, "501"@, "Solscan"@,
            "https://solscan.io/tx/{hash}"@, "https://solscan.io/account/{address}"@),
        NetworkId::SolanaDevnet => net_row("Solana Devnet"@, "solana"@, "devnet"@,
            InternalNetworkCaip::Solana103, None, "501"@, "Solscan"@,
            "https://solscan.io/tx/{hash}?cluster=devnet"@,
            "https://solscan.io/account/{address}?cluster=devnet"@),
        NetworkId::SolanaTestnet => net_row("Solana Testnet"@, "solana"@, "testnet"@,
            InternalNetworkCaip::Solana102, None, "501"@, "Solscan"@,
            "https://solscan.io/tx/{hash}?cluster=testnet"@,
            "https://solscan.io/account/{address}?cluster=testnet"@),
        NetworkId::EthereumMainnet => net_row("Ethereum Mainnet"@, "ethereum"@, "mainnet"@,
            InternalNetworkCaip::Eip155_1, Some(1u64), "60"@, "Etherscan"@,
            "https://etherscan.io/tx/{hash}"@, "https://etherscan.io/address/{address}"@),
        NetworkId::EthereumSepolia => net_row("Ethereum Sepolia"@, "ethereum"@, "sepolia"@,
            InternalNetworkCaip::Eip155_11155111, Some(11155111u64), "60"@, "Etherscan"@,
            "https://sepolia.etherscan.io/tx/{hash}"@,
            "https://sepolia.etherscan.io/address/{address}"@),
        NetworkId::PolygonMainnet => net_row("Polygon Mainnet"@, "polygon"@, "mainnet"@,
            InternalNetworkCaip::Eip155_137, Some(137u64), "137"@, "Polygonscan"@,
            "https://polygonscan.com/tx/{hash}"@, "https://polygonscan.com/address/{address}"@),
        NetworkId::PolygonAmoy => net_row("Polygon Amoy"@, "polygon"@, "amoy"@,
            InternalNetworkCaip::Eip155_80002, Some(80002u64), "137"@, "Polygonscan"@,
            "https://amoy.polygonscan.com/tx/{hash}"@,
            "https://amoy.polygonscan.com/address/{address}"@),
        NetworkId::BaseMainnet => net_row("Base Mainnet"@, "base"@, "mainnet"@,
            InternalNetworkCaip::Eip155_8453, Some(8453u64), "8453"@, "Basescan"@,
            "https://basescan.org/tx/{hash}"@, "https://basescan.org/address/{address}"@),
        NetworkId::BaseSepolia => net_row("Base Sepolia"@, "base"@, "sepolia"@,
            InternalNetworkCaip::Eip155_84532, Some(84532u64), "8453"@, "Basescan"@,
            "https://sepolia.basescan.org/tx/{hash}"@,
            "https://sepolia.basescan.org/address/{address}"@),
        NetworkId::ArbitrumOne => net_row("Arbitrum One"@, "arbitrum"@, "mainnet"@,
            InternalNetworkCaip::Eip155_42161, Some(42161u64), "42161"@, "Arbiscan"@,
            "https://arbiscan.io/tx/{hash}"@, "https://arbiscan.io/address/{address}"@),
        NetworkId::ArbitrumSepolia => net_row("Arbitrum Sepolia"@, "arbitrum"@, "sepolia"@,
            InternalNetworkCaip::Eip155_421614, Some(421614u64), "42161"@, "Arbiscan"@,
            "https://sepolia.arbiscan.io/tx/{hash}"@,
            "https://sepolia.arbiscan.io/address/{address}"@),
        NetworkId::MonadMainnet => net_row("Monad Mainnet"@, "monad"@, "mainnet"@,
            InternalNetworkCaip::Eip155_143, Some(143u64), "60"@, "Monad Explorer"@,
            "https://monadexplorer.com/tx/{hash}"@, "https://monadexplorer.com/address/{address}"@),
        NetworkId::MonadTestnet => net_row("Monad Testnet"@, "monad"@, "testnet"@,
            InternalNetworkCaip::Eip155_10143, Some(10143u64), "60"@, "Monad Testnet Explorer"@,
            "https://testnet.monadexplorer.com/tx/{hash}"@,
            "https://testnet.monadexplorer.com/address/{address}"@),
        NetworkId::BitcoinMainnet => net_row("Bitcoin Mainnet"@, "bitcoin"@, "mainnet"@,
            InternalNetworkCaip::BitcoinMainnet, None, "0"@, "Blockstream"@,
            "https://blockstream.info/tx/{hash}"@, "https://blockstream.info/address/{address}"@),
        NetworkId::BitcoinTestnet => net_row("Bitcoin Testnet"@, "bitcoin"@, "testnet"@,
            InternalNetworkCaip::BitcoinTestnet, None, "0"@, "Blockstream"@,
            "https://blockstream.info/testnet/tx/{hash}"@,
            "https://blockstream.info/testnet/address/{address}"@),
        NetworkId::SuiMainnet => net_row("Sui Mainnet"@, "sui"@, "mainnet"@,
            InternalNetworkCaip::SuiMainnet, None, "784"@, "Sui Explorer"@,
            "https://explorer.sui.io/txblock/{hash}?network=mainnet"@,
            "https://explorer.sui.io/address/{address}?network=mainnet"@),
        NetworkId::SuiTestnet => net_row("Sui Testnet"@, "sui"@, "testnet"@,
            InternalNetworkCaip::SuiTestnet, None, "784"@, "Sui Explorer"@,
            "https://explorer.sui.io/txblock/{hash}?network=testnet"@,
            "https://explorer.sui.io/address/{address}?network=testnet"@),
        NetworkId::SuiDevnet => net_row("Sui Devnet"@, "sui"@, "devnet"@,
            InternalNetworkCaip::SuiDevnet, None, "784"@, "Sui Explorer"@,
            "https://explorer.sui.io/txblock/{hash}?network=devnet"@,
            "https://explorer.sui.io/address/{address}?network=devnet"@),
    }
}

/// Builds one row of the network table.
fn make_config(
    name: &str,
    chain: &str,
    network: &str,
    caip: InternalNetworkCaip,
    chain_id: Option<u64>,
    slip44: &str,
    explorer: &str,
    tx_url: &str,
    addr_url: &str,
) -> (r: NetworkConfig)
    ensures
        r@ == net_row(name@, chain@, network@, caip, chain_id, slip44@, explorer@, tx_url@, addr_url@),
{
    NetworkConfig {
        name: String::from_str(name),
        chain: String::from_str(chain),
        network: String::from_str(network),
        internal_caip: Some(caip),
        chain_id,
        slip44: Some(String::from_str(slip44)),
        explorer: Some(ExplorerConfig {
            name: String::from_str(explorer),
            transaction_url: String::from_str(tx_url),
            address_url: String::from_str(addr_url),
        }),
    }
}

/// The network configuration of `network_id` (every supported network has one).
pub fn get_network_config(network_id: NetworkId) -> (r: Option<NetworkConfig>)
    ensures
        r matches Some(c) && c@ == network_config_table(network_id),
{
    let c = match network_id {
        NetworkId::SolanaMainnet => make_config("Solana Mainnet", "solana", "mainnet",
            InternalNetworkCaip::Solana101, None, "501", "Solscan",
            "https://solscan.io/tx/{hash}", "https://solscan.io/account/{address}"),
        NetworkId::SolanaDevnet => make_config("Solana Devnet", "solana", "devnet",
            InternalNetworkCaip::Solana103, None, "501", "Solscan",
            "https://solscan.io/tx/{hash}?cluster=devnet",
            "https://solscan.io/account/{address}?cluster=devnet"),
        NetworkId::SolanaTestnet => make_config("Solana Testnet", "solana", "testnet",
            InternalNetworkCaip::Solana102, None, "501", "Solscan",
            "https://solscan.io/tx/{hash}?cluster=testnet",
            "https://solscan.io/account/{address}?cluster=testnet"),
        NetworkId::EthereumMainnet => make_config("Ethereum Mainnet", "ethereum", "mainnet",
            InternalNetworkCaip::Eip155_1, Some(1u64), "60", "Etherscan",
            "https://etherscan.io/tx/{hash}", "https://etherscan.io/address/{address}"),
        NetworkId::EthereumSepolia => make_config("Ethereum Sepolia", "ethereum", "sepolia",
            InternalNetworkCaip::Eip155_11155111, Some(11155111u64), "60", "Etherscan",
            "https://sepolia.etherscan.io/tx/{hash}",
            "https://sepolia.etherscan.io/address/{address}"),
        NetworkId::PolygonMainnet => make_config("Polygon Mainnet", "polygon", "mainnet",
            InternalNetworkCaip::Eip155_137, Some(137u64), "137", "Polygonscan",
            "https://polygonscan.com/tx/{hash}", "https://polygonscan.com/address/{address}"),
        NetworkId::PolygonAmoy => make_config("Polygon Amoy", "polygon", "amoy",
            InternalNetworkCaip::Eip155_80002, Some(80002u64), "137", "Polygonscan",
            "https://amoy.polygonscan.com/tx/{hash}",
            "https://amoy.polygonscan.com/address/{address}"),
        NetworkId::BaseMainnet => make_config("Base Mainnet", "base", "mainnet",
            InternalNetworkCaip::Eip155_8453, Some(8453u64), "8453", "Basescan",
            "https://basescan.org/tx/{hash}", "https://basescan.org/address/{address}"),
        NetworkId::BaseSepolia => make_config("Base Sepolia", "base", "sepolia",
            InternalNetworkCaip::Eip155_84532, Some(84532u64), "8453", "Basescan",
            "https://sepolia.basescan.org/tx/{hash}",
            "https://sepolia.basescan.org/address/{address}"),
        NetworkId::ArbitrumOne => make_config("Arbitrum One", "arbitrum", "mainnet",
            InternalNetworkCaip::Eip155_42161, Some(42161u64), "42161", "Arbiscan",
            "https://arbiscan.io/tx/{hash}", "https://arbiscan.io/address/{address}"),
        NetworkId::ArbitrumSepolia => make_config("Arbitrum Sepolia", "arbitrum", "sepolia",
            InternalNetworkCaip::Eip155_421614, Some(421614u64), "42161", "Arbiscan",
            "https://sepolia.arbiscan.io/tx/{hash}",
            "https://sepolia.arbiscan.io/address/{address}"),
        NetworkId::MonadMainnet => make_config("Monad Mainnet", "monad", "mainnet",
            InternalNetworkCaip::Eip155_143, Some(143u64), "60", "Monad Explorer",
            "https://monadexplorer.com/tx/{hash}", "https://monadexplorer.com/address/{address}"),
        NetworkId::MonadTestnet => make_config("Monad Testnet", "monad", "testnet",
            InternalNetworkCaip::Eip155_10143, Some(10143u64), "60", "Monad Testnet Explorer",
            "https://testnet.monadexplorer.com/tx/{hash}",
            "https://testnet.monadexplorer.com/address/{address}"),
        NetworkId::BitcoinMainnet => make_config("Bitcoin Mainnet", "bitcoin", "mainnet",
            InternalNetworkCaip::BitcoinMainnet, None, "0", "Blockstream",
            "https://blockstream.info/tx/{hash}", "https://blockstream.info/address/{address}"),
        NetworkId::BitcoinTestnet => make_config("Bitcoin Testnet", "bitcoin", "testnet",
            InternalNetworkCaip::BitcoinTestnet, None, "0", "Blockstream",
            "https://blockstream.info/testnet/tx/{hash}",
            "https://blockstream.info/testnet/address/{address}"),
        NetworkId::SuiMainnet => make_config("Sui Mainnet", "sui", "mainnet",
            InternalNetworkCaip::SuiMainnet, None, "784", "Sui Explorer",
            "https://explorer.sui.io/txblock/{hash}?network=mainnet",
            "https://explorer.sui.io/address/{address}?network=mainnet"),
        NetworkId::SuiTestnet => make_config("Sui Testnet", "sui", "testnet",
            InternalNetworkCaip::SuiTestnet, None, "784", "Sui Explorer",
            "https://explorer.sui.io/txblock/{hash}?network=testnet",
            "https://explorer.sui.io/address/{address}?network=testnet"),
        NetworkId::SuiDevnet => make_config("Sui Devnet", "sui", "devnet",
            InternalNetworkCaip::SuiDevnet, None, "784", "Sui Explorer",
            "https://explorer.sui.io/txblock/{hash}?network=devnet",
            "https://explorer.sui.io/address/{address}?network=devnet"),
    };
    Some(c)
}


/// The block explorer URL for a transaction hash or an address on a network:
/// the placeholder `{hash}` (transactions) or `{address}` (addresses) of the
/// network's URL template replaced by `value`.
pub fn get_explorer_url(network_id: NetworkId, url_type: ExplorerUrlType, value: &str) -> (r:
    Option<String>)
    ensures
        match network_config_table(network_id).explorer {
            None => r is None,
            Some(e) => r matches Some(u) && u@ == (match url_type {
                ExplorerUrlType::Transaction => replace_all(e.transaction_url, "{hash}"@, value@),
                ExplorerUrlType::Address => replace_all(e.address_url, "{address}"@, value@),
            }),
        },
{
    let config = match get_network_config(network_id) {
        Some(c) => c,
        None => return None,
    };
    let explorer = match config.explorer {
        Some(e) => e,
        None => return None,
    };
    let (template, placeholder) = match url_type {
        ExplorerUrlType::Transaction => (chars_of(explorer.transaction_url.as_str()), chars_of("{hash}")),
        ExplorerUrlType::Address => (chars_of(explorer.address_url.as_str()), chars_of("{address}")),
    };
    proof {
        reveal_strlit("{hash}");
        reveal_strlit("{address}");
    }
    let v = chars_of(value);
    let out = replace_chars(template.as_slice(), placeholder.as_slice(), v.as_slice());
    Some(string_from_chars(out.as_slice()))
}

/// All supported network IDs.
pub fn get_supported_networks() -> (r: Vec<NetworkId>)
    ensures
        r@ == all_network_ids(),
{
    NetworkId::all()
}

/// All network IDs of a chain family (e.g. "solana", "ethereum"), in table order.
pub fn get_networks_by_chain(chain: &str) -> (r: Vec<NetworkId>)
    ensures
        r@ == all_network_ids().filter(|id: NetworkId| network_config_table(id).chain == chain@),
{
    let ids = NetworkId::all();
    let want = chars_of(chain);
    let mut out: Vec<NetworkId> = Vec::new();
    let mut i: usize = 0;
    while i < ids.len()
        invariant
            0 <= i <= ids@.len(),
            ids@ == all_network_ids(),
            want@ == chain@,
            out@ == ids@.take(i as int).filter(|id: NetworkId| network_config_table(id).chain == chain@),
        decreases ids@.len() - i,
    {
        let id = ids[i];
        let config = get_network_config(id).unwrap();
        let c = chars_of(config.chain.as_str());
        proof {
            reveal_with_fuel(Seq::<NetworkId>::filter, 1);
            assert(ids@.take(i + 1).drop_last() =~= ids@.take(i as int));
        }
        if chars_eq(c.as_slice(), want.as_slice()) {
            out.push(id);
        }
        i = i + 1;
    }
    proof {
        assert(ids@.take(ids@.len() as int) =~= ids@);
    }
    out
}

/// Position of the first network in the table whose EIP-155 chain ID is `chain_id`.
pub open spec fn first_with_chain_id(chain_id: u64, from: int) -> Option<NetworkId>
    decreases all_network_ids().len() - from,
{
    if from < 0 || from >= all_network_ids().len() {
        None
    } else if network_config_table(all_network_ids()[from]).chain_id == Some(chain_id) {
        Some(all_network_ids()[from])
    } else {
        first_with_chain_id(chain_id, from + 1)
    }
}

/// The network whose EIP-155 chain ID is `chain_id`, if any; at most one
/// network has it (`law_chain_ids_unique`).
pub open spec fn network_of_chain_id(chain_id: u64) -> Option<NetworkId> {
    if exists|id: NetworkId| network_config_table(id).chain_id == Some(chain_id) {
        Some(choose|id: NetworkId| network_config_table(id).chain_id == Some(chain_id))
    } else {
        None
    }
}

/// The network whose internal CAIP identifier is `caip`, if any; at most
/// one network has it (`law_internal_caips_unique`).
pub open spec fn network_of_internal_caip(caip: InternalNetworkCaip) -> Option<NetworkId> {
    if exists|id: NetworkId| network_config_table(id).internal_caip == Some(caip) {
        Some(choose|id: NetworkId| network_config_table(id).internal_caip == Some(caip))
    } else {
        None
    }
}

/// Convert an EIP-155 chain ID to the network that has it.
pub fn chain_id_to_network_id(chain_id: u64) -> (r: Option<NetworkId>)
    ensures
        r == network_of_chain_id(chain_id),
{
    let ids = NetworkId::all();
    let mut i: usize = 0;
    while i < ids.len()
        invariant
            0 <= i <= ids@.len(),
            ids@ == all_network_ids(),
            forall|j: int| 0 <= j < i ==> network_config_table(#[trigger] ids@[j]).chain_id != Some(chain_id),
        decreases ids@.len() - i,
    {
        let id = ids[i];
        let config = get_network_config(id).unwrap();
        match config.chain_id {
            Some(c) => {
                if c == chain_id {
                    proof {
                        let x = choose|x: NetworkId| network_config_table(x).chain_id == Some(chain_id);
                        law_chain_ids_unique(id, x);
                    }
                    return Some(id);
                }
            },
            None => {},
        }
        i = i + 1;
    }
    proof {
        assert forall|id: NetworkId| network_config_table(id).chain_id != Some(chain_id) by {
            crate::network_ids::law_all_network_ids_complete(id);
            let k = choose|k: int| 0 <= k < all_network_ids().len() && all_network_ids()[k] == id;
            assert(network_config_table(ids@[k]).chain_id != Some(chain_id));
        }
    }
    None
}

/// The EIP-155 chain ID of a network (EVM networks only).
pub fn network_id_to_chain_id(network_id: NetworkId) -> (r: Option<u64>)
    ensures
        r == network_config_table(network_id).chain_id,
{
    match get_network_config(network_id) {
        Some(c) => c.chain_id,
        None => None,
    }
}

/// Convert a network ID to the internal CAIP identifier used with the extension.
pub fn network_id_to_internal_caip(network_id: NetworkId) -> (r: Result<InternalNetworkCaip, NetworkError>)
    ensures
        match network_config_table(network_id).internal_caip {
            Some(c) => r matches Ok(x) && x == c,
            None => r matches Err(NetworkError::NoInternalCaipMapping(i)) && i == network_id,
        },
{
    let caip = match get_network_config(network_id) {
        Some(c) => c.internal_caip,
        None => None,
    };
    match caip {
        Some(c) => Ok(c),
        None => Err(NetworkError::NoInternalCaipMapping(network_id)),
    }
}

/// Convert an internal CAIP identifier from an extension response back to a network ID.
pub fn internal_caip_to_network_id(internal_caip: InternalNetworkCaip) -> (r: Result<NetworkId, NetworkError>)
    ensures
        match network_of_internal_caip(internal_caip) {
            Some(id) => r matches Ok(x) && x == id,
            None => r matches Err(NetworkError::NoNetworkIdMapping(c)) && c == internal_caip,
        },
{
    let ids = NetworkId::all();
    let mut i: usize = 0;
    while i < ids.len()
        invariant
            0 <= i <= ids@.len(),
            ids@ == all_network_ids(),
            forall|j: int| 0 <= j < i ==> network_config_table(#[trigger] ids@[j]).internal_caip != Some(internal_caip),
        decreases ids@.len() - i,
    {
        let id = ids[i];
        let config = get_network_config(id).unwrap();
        match config.internal_caip {
            Some(c) => {
                if c == internal_caip {
                    proof {
                        let x = choose|x: NetworkId| network_config_table(x).internal_caip == Some(internal_caip);
                        law_internal_caips_unique(id, x);
                    }
                    return Ok(id);
                }
            },
            None => {},
        }
        i = i + 1;
    }
    proof {
        assert forall|id: NetworkId| network_config_table(id).internal_caip != Some(internal_caip) by {
            crate::network_ids::law_all_network_ids_complete(id);
            let k = choose|k: int| 0 <= k < all_network_ids().len() && all_network_ids()[k] == id;
            assert(network_config_table(ids@[k]).internal_caip != Some(internal_caip));
        }
    }
    Err(NetworkError::NoNetworkIdMapping(internal_caip))
}

/// No two networks share an EIP-155 chain ID.
pub proof fn law_chain_ids_unique(a: NetworkId, b: NetworkId)
    requires
        network_config_table(a).chain_id is Some,
        network_config_table(a).chain_id == network_config_table(b).chain_id,
    ensures
        a == b,
{
}

/// No two networks share an internal CAIP identifier.
pub proof fn law_internal_caips_unique(a: NetworkId, b: NetworkId)
    requires
        network_config_table(a).internal_caip is Some,
        network_config_table(a).internal_caip == network_config_table(b).internal_caip,
    ensures
        a == b,
{
}

/// Chain-ID round trip: a network with an EIP-155 chain ID is found again
/// from that chain ID (`chain_id_to_network_id(network_id_to_chain_id(id)) == Some(id)`).
pub proof fn law_chain_id_roundtrip(id: NetworkId)
    requires
        network_config_table(id).chain_id is Some,
    ensures
        network_of_chain_id(network_config_table(id).chain_id.unwrap()) == Some(id),
{
    let c = network_config_table(id).chain_id.unwrap();
    let x = choose|x: NetworkId| network_config_table(x).chain_id == Some(c);
    law_chain_ids_unique(id, x);
}

/// CAIP round trip: every network has an internal CAIP identifier, and
/// converting it back gives the same network
/// (`internal_caip_to_network_id(network_id_to_internal_caip(id)?) == Ok(id)`).
pub proof fn law_internal_caip_roundtrip(id: NetworkId)
    ensures
        network_config_table(id).internal_caip is Some,
        network_of_internal_caip(network_config_table(id).internal_caip.unwrap()) == Some(id),
{
    let c = network_config_table(id).internal_caip.unwrap();
    let x = choose|x: NetworkId| network_config_table(x).internal_caip == Some(c);
    law_internal_caips_unique(id, x);
}

/// Every network has a block explorer whose transaction URL holds the
/// `{hash}` placeholder and whose address URL holds `{address}`, which
/// `get_explorer_url` fills in.
pub proof fn law_explorer_urls_have_placeholders(id: NetworkId)
    ensures
        network_config_table(id).explorer matches Some(e) && contains_seq(e.transaction_url, "{hash}"@)
            && contains_seq(e.address_url, "{address}"@),
{
    reveal_strlit("{hash}");
    reveal_strlit("{address}");
    let e = network_config_table(id).explorer.unwrap();
    match id {
        NetworkId::SolanaMainnet => {
            reveal_strlit("https://solscan.io/tx/{hash}");
            reveal_strlit("https://solscan.io/account/{address}");
            assert(e.transaction_url.subrange(22, 28) =~= "{hash}"@);
            assert(occurs_at(e.transaction_url, "{hash}"@, 22));
            assert(e.address_url.subrange(27, 36) =~= "{address}"@);
            assert(occurs_at(e.address_url, "{address}"@, 27));
        },
        NetworkId::SolanaDevnet => {
            reveal_strlit("https://solscan.io/tx/{hash}?cluster=devnet");
            reveal_strlit("https://solscan.io/account/{address}?cluster=devnet");
            assert(e.transaction_url.subrange(22, 28) =~= "{hash}"@);
            assert(occurs_at(e.transaction_url, "{hash}"@, 22));
            assert(e.address_url.subrange(27, 36) =~= "{address}"@);
            assert(occurs_at(e.address_url, "{address}"@, 27));
        },
        NetworkId::SolanaTestnet => {
            reveal_strlit("https://solscan.io/tx/{hash}?cluster=testnet");
            reveal_strlit("https://solscan.io/account/{address}?cluster=testnet");
            assert(e.transaction_url.subrange(22, 28) =~= "{hash}"@);
            assert(occurs_at(e.transaction_url, "{hash}"@, 22));
            assert(e.address_url.subrange(27, 36) =~= "{address}"@);
            assert(occurs_at(e.address_url, "{address}"@, 27));
        },
        NetworkId::EthereumMainnet => {
            reveal_strlit("https://etherscan.io/tx/{hash}");
            reveal_strlit("https://etherscan.io/address/{address}");
            assert(e.transaction_url.subrange(24, 30) =~= "{hash}"@);
            assert(occurs_at(e.transaction_url, "{hash}"@, 24));
            assert(e.address_url.subrange(29, 38) =~= "{address}"@);
            assert(occurs_at(e.address_url, "{address}"@, 29));
        },
        NetworkId::EthereumSepolia => {
            reveal_strlit("https://sepolia.etherscan.io/tx/{hash}");
            reveal_strlit("https://sepolia.etherscan.io/address/{address}");
            assert(e.transaction_url.subrange(32, 38) =~= "{hash}"@);
            assert(occurs_at(e.transaction_url, "{hash}"@, 32));
            assert(e.address_url.subrange(37, 46) =~= "{address}"@);
            assert(occurs_at(e.address_url, "{address}"@, 37));
        },
        NetworkId::PolygonMainnet => {
            reveal_strlit("https://polygonscan.com/tx/{hash}");
            reveal_strlit("https://polygonscan.com/address/{address}");
            assert(e.transaction_url.subrange(27, 33) =~= "{hash}"@);
            assert(occurs_at(e.transaction_url, "{hash}"@, 27));
            assert(e.address_url.subrange(32, 41) =~= "{address}"@);
            assert(occurs_at(e.address_url, "{address}"@, 32));
        },
        NetworkId::PolygonAmoy => {
            reveal_strlit("https://amoy.polygonscan.com/tx/{hash}");
            reveal_strlit("https://amoy.polygonscan.com/address/{address}");
            assert(e.transaction_url.subrange(32, 38) =~= "{hash}"@);
            assert(occurs_at(e.transaction_url, "{hash}"@, 32));
            assert(e.address_url.subrange(37, 46) =~= "{address}"@);
            assert(occurs_at(e.address_url, "{address}"@, 37));
        },
        NetworkId::BaseMainnet => {
            reveal_strlit("https://basescan.org/tx/{hash}");
            reveal_strlit("https://basescan.org/address/{address}");
            assert(e.transaction_url.subrange(24, 30) =~= "{hash}"@);
            assert(occurs_at(e.transaction_url, "{hash}"@, 24));
            assert(e.address_url.subrange(29, 38) =~= "{address}"@);
            assert(occurs_at(e.address_url, "{address}"@, 29));
        },
        NetworkId::BaseSepolia => {
            reveal_strlit("https://sepolia.basescan.org/tx/{hash}");
            reveal_strlit("https://sepolia.basescan.org/address/{address}");
            assert(e.transaction_url.subrange(32, 38) =~= "{hash}"@);
            assert(occurs_at(e.transaction_url, "{hash}"@, 32));
            assert(e.address_url.subrange(37, 46) =~= "{address}"@);
            assert(occurs_at(e.address_url, "{address}"@, 37));
        },
        NetworkId::ArbitrumOne => {
            reveal_strlit("https://arbiscan.io/tx/{hash}");
            reveal_strlit("https://arbiscan.io/address/{address}");
            assert(e.transaction_url.subrange(23, 29) =~= "{hash}"@);
            assert(occurs_at(e.transaction_url, "{hash}"@, 23));
            assert(e.address_url.subrange(28, 37) =~= "{address}"@);
            assert(occurs_at(e.address_url, "{address}"@, 28));
        },
        NetworkId::ArbitrumSepolia => {
            reveal_strlit("https://sepolia.arbiscan.io/tx/{hash}");
            reveal_strlit("https://sepolia.arbiscan.io/address/{address}");
            assert(e.transaction_url.subrange(31, 37) =~= "{hash}"@);
            assert(occurs_at(e.transaction_url, "{hash}"@, 31));
            assert(e.address_url.subrange(36, 45) =~= "{address}"@);
            assert(occurs_at(e.address_url, "{address}"@, 36));
        },
        NetworkId::MonadMainnet => {
            reveal_strlit("https://monadexplorer.com/tx/{hash}");
            reveal_strlit("https://monadexplorer.com/address/{address}");
            assert(e.transaction_url.subrange(29, 35) =~= "{hash}"@);
            assert(occurs_at(e.transaction_url, "{hash}"@, 29));
            assert(e.address_url.subrange(34, 43) =~= "{address}"@);
            assert(occurs_at(e.address_url, "{address}"@, 34));
        },
        NetworkId::MonadTestnet => {
            reveal_strlit("https://testnet.monadexplorer.com/tx/{hash}");
            reveal_strlit("https://testnet.monadexplorer.com/address/{address}");
            assert(e.transaction_url.subrange(37, 43) =~= "{hash}"@);
            assert(occurs_at(e.transaction_url, "{hash}"@, 37));
            assert(e.address_url.subrange(42, 51) =~= "{address}"@);
            assert(occurs_at(e.address_url, "{address}"@, 42));
        },
        NetworkId::BitcoinMainnet => {
            reveal_strlit("https://blockstream.info/tx/{hash}");
            reveal_strlit("https://blockstream.info/address/{address}");
            assert(e.transaction_url.subrange(28, 34) =~= "{hash}"@);
            assert(occurs_at(e.transaction_url, "{hash}"@, 28));
            assert(e.address_url.subrange(33, 42) =~= "{address}"@);
            assert(occurs_at(e.address_url, "{address}"@, 33));
        },
        NetworkId::BitcoinTestnet => {
            reveal_strlit("https://blockstream.info/testnet/tx/{hash}");
            reveal_strlit("https://blockstream.info/testnet/address/{address}");
            assert(e.transaction_url.subrange(36, 42) =~= "{hash}"@);
            assert(occurs_at(e.transaction_url, "{hash}"@, 36));
            assert(e.address_url.subrange(41, 50) =~= "{address}"@);
            assert(occurs_at(e.address_url, "{address}"@, 41));
        },
        NetworkId::SuiMainnet => {
            reveal_strlit("https://explorer.sui.io/txblock/{hash}?network=mainnet");
            reveal_strlit("https://explorer.sui.io/address/{address}?network=mainnet");
            assert(e.transaction_url.subrange(32, 38) =~= "{hash}"@);
            assert(occurs_at(e.transaction_url, "{hash}"@, 32));
            assert(e.address_url.subrange(32, 41) =~= "{address}"@);
            assert(occurs_at(e.address_url, "{address}"@, 32));
        },
        NetworkId::SuiTestnet => {
            reveal_strlit("https://explorer.sui.io/txblock/{hash}?network=testnet");
            reveal_strlit("https://explorer.sui.io/address/{address}?network=testnet");
            assert(e.transaction_url.subrange(32, 38) =~= "{hash}"@);
            assert(occurs_at(e.transaction_url, "{hash}"@, 32));
            assert(e.address_url.subrange(32, 41) =~= "{address}"@);
            assert(occurs_at(e.address_url, "{address}"@, 32));
        },
        NetworkId::SuiDevnet => {
            reveal_strlit("https://explorer.sui.io/txblock/{hash}?network=devnet");
            reveal_strlit("https://explorer.sui.io/address/{address}?network=devnet");
            assert(e.transaction_url.subrange(32, 38) =~= "{hash}"@);
            assert(occurs_at(e.transaction_url, "{hash}"@, 32));
            assert(e.address_url.subrange(32, 41) =~= "{address}"@);
            assert(occurs_at(e.address_url, "{address}"@, 32));
        },
    }
}

/// The CAIP-2 name of an internal CAIP identifier (the name it is
/// serialized under).
pub open spec fn internal_caip_name(c: InternalNetworkCaip) -> Seq<char> {
    match c {
        InternalNetworkCaip::BitcoinMainnet => "bip122:000000000019d6689c085ae165831e93"@,
        InternalNetworkCaip::BitcoinTestnet => "bip122:000000000933ea01ad0ee984209779ba"@,
        InternalNetworkCaip::Solana101 => "solana:101"@,
        InternalNetworkCaip::Solana102 => "solana:102"@,
        InternalNetworkCaip::Solana103 => "solana:103"@,
        InternalNetworkCaip::SolanaLocalnet => "solana:localnet"@,
        InternalNetworkCaip::Eip155_1 => "eip155:1"@,
        InternalNetworkCaip::Eip155_11155111 => "eip155:11155111"@,
        InternalNetworkCaip::Eip155_137 => "eip155:137"@,
        InternalNetworkCaip::Eip155_80002 => "eip155:80002"@,
        InternalNetworkCaip::Eip155_8453 => "eip155:8453"@,
        InternalNetworkCaip::Eip155_84532 => "eip155:84532"@,
        InternalNetworkCaip::Eip155_42161 => "eip155:42161"@,
        InternalNetworkCaip::Eip155_421614 => "eip155:421614"@,
        InternalNetworkCaip::Eip155_143 => "eip155:143"@,
        InternalNetworkCaip::Eip155_10143 => "eip155:10143"@,
        InternalNetworkCaip::HypercoreMainnet => "hypercore:mainnet"@,
        InternalNetworkCaip::HypercoreTestnet => "hypercore:testnet"@,
        InternalNetworkCaip::SuiMainnet => "sui:mainnet"@,
        InternalNetworkCaip::SuiTestnet => "sui:testnet"@,
        InternalNetworkCaip::SuiDevnet => "sui:devnet"@,
    }
}

/// The Solana cluster number of a Solana network name in internal CAIP
/// identifiers: 101 for mainnet, 102 for testnet, 103 for devnet.
pub open spec fn solana_cluster(network: Seq<char>) -> Seq<char> {
    if network == "mainnet"@ {
        "101"@
    } else if network == "testnet"@ {
        "102"@
    } else {
        "103"@
    }
}

/// Every network's internal CAIP identifier names that same network: for an
/// EVM network it is `eip155:` and the network's own EIP-155 chain ID, which
/// is also its CAIP-2 ID; for Bitcoin it is the CAIP-2 ID; for Solana it is
/// the cluster of its network (`solana:101` mainnet, `102` testnet, `103`
/// devnet); for Sui it is `sui:` and its network.
pub proof fn law_internal_caip_names_the_network(id: NetworkId)
    ensures
        ({
            let row = network_config_table(id);
            &&& row.internal_caip is Some
            &&& row.chain_id matches Some(n) ==> internal_caip_name(row.internal_caip.unwrap()) == "eip155:"@
                + decimal(n as nat) && network_id_str(id) == "eip155:"@ + decimal(n as nat)
            &&& row.chain == "bitcoin"@ ==> internal_caip_name(row.internal_caip.unwrap()) == network_id_str(id)
            &&& row.chain == "solana"@ ==> internal_caip_name(row.internal_caip.unwrap()) == "solana:"@
                + solana_cluster(row.network)
            &&& row.chain == "sui"@ ==> internal_caip_name(row.internal_caip.unwrap()) == "sui:"@ + row.network
        }),
{
    reveal_strlit("eip155:");
    reveal_strlit("solana:");
    reveal_strlit("sui:");
    reveal_strlit("solana");
    reveal_strlit("sui");
    reveal_strlit("bitcoin");
    reveal_strlit("ethereum");
    reveal_strlit("polygon");
    reveal_strlit("base");
    reveal_strlit("arbitrum");
    reveal_strlit("monad");
    reveal_strlit("mainnet");
    reveal_strlit("testnet");
    reveal_strlit("devnet");
    assert("solana"@.len() == 6);
    assert("sui"@.len() == 3);
    assert("bitcoin"@.len() == 7);
    assert("ethereum"@.len() == 8);
    assert("polygon"@.len() == 7);
    assert("base"@.len() == 4);
    assert("arbitrum"@.len() == 8);
    assert("monad"@.len() == 5);
    assert("mainnet"@.len() == 7);
    assert("testnet"@.len() == 7);
    assert("devnet"@.len() == 6);
    assert("polygon"@ != "bitcoin"@) by {
        if "polygon"@ == "bitcoin"@ {
            assert("polygon"@[0] == "bitcoin"@[0]);
        }
    }
    assert("testnet"@ != "mainnet"@) by {
        if "testnet"@ == "mainnet"@ {
            assert("testnet"@[0] == "mainnet"@[0]);
        }
    }
    match id {
        NetworkId::EthereumMainnet => {
            reveal_strlit("eip155:1");
            reveal_strlit("1");
            assert(decimal(1nat) =~= "1"@) by {
                reveal_with_fuel(decimal, 2);
            }
            assert("eip155:"@ + "1"@ =~= "eip155:1"@);
        },
        NetworkId::EthereumSepolia => {
            reveal_strlit("eip155:11155111");
            reveal_strlit("11155111");
            assert(decimal(11155111nat) =~= "11155111"@) by {
                reveal_with_fuel(decimal, 9);
            }
            assert("eip155:"@ + "11155111"@ =~= "eip155:11155111"@);
        },
        NetworkId::PolygonMainnet => {
            reveal_strlit("eip155:137");
            reveal_strlit("137");
            assert(decimal(137nat) =~= "137"@) by {
                reveal_with_fuel(decimal, 4);
            }
            assert("eip155:"@ + "137"@ =~= "eip155:137"@);
        },
        NetworkId::PolygonAmoy => {
            reveal_strlit("eip155:80002");
            reveal_strlit("80002");
            assert(decimal(80002nat) =~= "80002"@) by {
                reveal_with_fuel(decimal, 6);
            }
            assert("eip155:"@ + "80002"@ =~= "eip155:80002"@);
        },
        NetworkId::BaseMainnet => {
            reveal_strlit("eip155:8453");
            reveal_strlit("8453");
            assert(decimal(8453nat) =~= "8453"@) by {
                reveal_with_fuel(decimal, 5);
            }
            assert("eip155:"@ + "8453"@ =~= "eip155:8453"@);
        },
        NetworkId::BaseSepolia => {
            reveal_strlit("eip155:84532");
            reveal_strlit("84532");
            assert(decimal(84532nat) =~= "84532"@) by {
                reveal_with_fuel(decimal, 6);
            }
            assert("eip155:"@ + "84532"@ =~= "eip155:84532"@);
        },
        NetworkId::ArbitrumOne => {
            reveal_strlit("eip155:42161");
            reveal_strlit("42161");
            assert(decimal(42161nat) =~= "42161"@) by {
                reveal_with_fuel(decimal, 6);
            }
            assert("eip155:"@ + "42161"@ =~= "eip155:42161"@);
        },
        NetworkId::ArbitrumSepolia => {
            reveal_strlit("eip155:421614");
            reveal_strlit("421614");
            assert(decimal(421614nat) =~= "421614"@) by {
                reveal_with_fuel(decimal, 7);
            }
            assert("eip155:"@ + "421614"@ =~= "eip155:421614"@);
        },
        NetworkId::MonadMainnet => {
            reveal_strlit("eip155:143");
            reveal_strlit("143");
            assert(decimal(143nat) =~= "143"@) by {
                reveal_with_fuel(decimal, 4);
            }
            assert("eip155:"@ + "143"@ =~= "eip155:143"@);
        },
        NetworkId::MonadTestnet => {
            reveal_strlit("eip155:10143");
            reveal_strlit("10143");
            assert(decimal(10143nat) =~= "10143"@) by {
                reveal_with_fuel(decimal, 6);
            }
            assert("eip155:"@ + "10143"@ =~= "eip155:10143"@);
        },
        NetworkId::SolanaMainnet => {
            reveal_strlit("solana:101");
            reveal_strlit("solana:102");
            reveal_strlit("solana:103");
            reveal_strlit("101");
            reveal_strlit("102");
            reveal_strlit("103");
            reveal_strlit("mainnet");
            reveal_strlit("testnet");
            reveal_strlit("devnet");
            reveal_strlit("sui:mainnet");
            reveal_strlit("sui:testnet");
            reveal_strlit("sui:devnet");
            assert("solana:"@ + "101"@ =~= "solana:101"@);
            assert("solana:"@ + "102"@ =~= "solana:102"@);
            assert("solana:"@ + "103"@ =~= "solana:103"@);
            assert("sui:"@ + "mainnet"@ =~= "sui:mainnet"@);
            assert("sui:"@ + "testnet"@ =~= "sui:testnet"@);
            assert("sui:"@ + "devnet"@ =~= "sui:devnet"@);
        },
        NetworkId::SolanaDevnet => {
            reveal_strlit("solana:101");
            reveal_strlit("solana:102");
            reveal_strlit("solana:103");
            reveal_strlit("101");
            reveal_strlit("102");
            reveal_strlit("103");
            reveal_strlit("mainnet");
            reveal_strlit("testnet");
            reveal_strlit("devnet");
            reveal_strlit("sui:mainnet");
            reveal_strlit("sui:testnet");
            reveal_strlit("sui:devnet");
            assert("solana:"@ + "101"@ =~= "solana:101"@);
            assert("solana:"@ + "102"@ =~= "solana:102"@);
            assert("solana:"@ + "103"@ =~= "solana:103"@);
            assert("sui:"@ + "mainnet"@ =~= "sui:mainnet"@);
            assert("sui:"@ + "testnet"@ =~= "sui:testnet"@);
            assert("sui:"@ + "devnet"@ =~= "sui:devnet"@);
        },
        NetworkId::SolanaTestnet => {
            reveal_strlit("solana:101");
            reveal_strlit("solana:102");
            reveal_strlit("solana:103");
            reveal_strlit("101");
            reveal_strlit("102");
            reveal_strlit("103");
            reveal_strlit("mainnet");
            reveal_strlit("testnet");
            reveal_strlit("devnet");
            reveal_strlit("sui:mainnet");
            reveal_strlit("sui:testnet");
            reveal_strlit("sui:devnet");
            assert("solana:"@ + "101"@ =~= "solana:101"@);
            assert("solana:"@ + "102"@ =~= "solana:102"@);
            assert("solana:"@ + "103"@ =~= "solana:103"@);
            assert("sui:"@ + "mainnet"@ =~= "sui:mainnet"@);
            assert("sui:"@ + "testnet"@ =~= "sui:testnet"@);
            assert("sui:"@ + "devnet"@ =~= "sui:devnet"@);
        },
        NetworkId::BitcoinMainnet => {
            reveal_strlit("solana:101");
            reveal_strlit("solana:102");
            reveal_strlit("solana:103");
            reveal_strlit("101");
            reveal_strlit("102");
            reveal_strlit("103");
            reveal_strlit("mainnet");
            reveal_strlit("testnet");
            reveal_strlit("devnet");
            reveal_strlit("sui:mainnet");
            reveal_strlit("sui:testnet");
            reveal_strlit("sui:devnet");
            assert("solana:"@ + "101"@ =~= "solana:101"@);
            assert("solana:"@ + "102"@ =~= "solana:102"@);
            assert("solana:"@ + "103"@ =~= "solana:103"@);
            assert("sui:"@ + "mainnet"@ =~= "sui:mainnet"@);
            assert("sui:"@ + "testnet"@ =~= "sui:testnet"@);
            assert("sui:"@ + "devnet"@ =~= "sui:devnet"@);
        },
        NetworkId::BitcoinTestnet => {
            reveal_strlit("solana:101");
            reveal_strlit("solana:102");
            reveal_strlit("solana:103");
            reveal_strlit("101");
            reveal_strlit("102");
            reveal_strlit("103");
            reveal_strlit("mainnet");
            reveal_strlit("testnet");
            reveal_strlit("devnet");
            reveal_strlit("sui:mainnet");
            reveal_strlit("sui:testnet");
            reveal_strlit("sui:devnet");
            assert("solana:"@ + "101"@ =~= "solana:101"@);
            assert("solana:"@ + "102"@ =~= "solana:102"@);
            assert("solana:"@ + "103"@ =~= "solana:103"@);
            assert("sui:"@ + "mainnet"@ =~= "sui:mainnet"@);
            assert("sui:"@ + "testnet"@ =~= "sui:testnet"@);
            assert("sui:"@ + "devnet"@ =~= "sui:devnet"@);
        },
        NetworkId::SuiMainnet => {
            reveal_strlit("solana:101");
            reveal_strlit("solana:102");
            reveal_strlit("solana:103");
            reveal_strlit("101");
            reveal_strlit("102");
            reveal_strlit("103");
            reveal_strlit("mainnet");
            reveal_strlit("testnet");
            reveal_strlit("devnet");
            reveal_strlit("sui:mainnet");
            reveal_strlit("sui:testnet");
            reveal_strlit("sui:devnet");
            assert("solana:"@ + "101"@ =~= "solana:101"@);
            assert("solana:"@ + "102"@ =~= "solana:102"@);
            assert("solana:"@ + "103"@ =~= "solana:103"@);
            assert("sui:"@ + "mainnet"@ =~= "sui:mainnet"@);
            assert("sui:"@ + "testnet"@ =~= "sui:testnet"@);
            assert("sui:"@ + "devnet"@ =~= "sui:devnet"@);
        },
        NetworkId::SuiTestnet => {
            reveal_strlit("solana:101");
            reveal_strlit("solana:102");
            reveal_strlit("solana:103");
            reveal_strlit("101");
            reveal_strlit("102");
            reveal_strlit("103");
            reveal_strlit("mainnet");
            reveal_strlit("testnet");
            reveal_strlit("devnet");
            reveal_strlit("sui:mainnet");
            reveal_strlit("sui:testnet");
            reveal_strlit("sui:devnet");
            assert("solana:"@ + "101"@ =~= "solana:101"@);
            assert("solana:"@ + "102"@ =~= "solana:102"@);
            assert("solana:"@ + "103"@ =~= "solana:103"@);
            assert("sui:"@ + "mainnet"@ =~= "sui:mainnet"@);
            assert("sui:"@ + "testnet"@ =~= "sui:testnet"@);
            assert("sui:"@ + "devnet"@ =~= "sui:devnet"@);
        },
        NetworkId::SuiDevnet => {
            reveal_strlit("solana:101");
            reveal_strlit("solana:102");
            reveal_strlit("solana:103");
            reveal_strlit("101");
            reveal_strlit("102");
            reveal_strlit("103");
            reveal_strlit("mainnet");
            reveal_strlit("testnet");
            reveal_strlit("devnet");
            reveal_strlit("sui:mainnet");
            reveal_strlit("sui:testnet");
            reveal_strlit("sui:devnet");
            assert("solana:"@ + "101"@ =~= "solana:101"@);
            assert("solana:"@ + "102"@ =~= "solana:102"@);
            assert("solana:"@ + "103"@ =~= "solana:103"@);
            assert("sui:"@ + "mainnet"@ =~= "sui:mainnet"@);
            assert("sui:"@ + "testnet"@ =~= "sui:testnet"@);
            assert("sui:"@ + "devnet"@ =~= "sui:devnet"@);
        },
    }
}

} // verus!
