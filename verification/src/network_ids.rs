//! CAIP-2 identifiers of the supported networks.
use vstd::prelude::*;

verus! {

/// CAIP-2 network identifier of every supported blockchain network.
#[derive(Debug, Clone, Copy, PartialEq, Eq, Hash, Structural)]
pub enum NetworkId {
    /// Solana Mainnet Beta
    SolanaMainnet,
    /// Solana Devnet
    SolanaDevnet,
    /// Solana Testnet
    SolanaTestnet,
    /// Ethereum Mainnet
    EthereumMainnet,
    /// Ethereum Sepolia Testnet
    EthereumSepolia,
    /// Polygon Mainnet
    PolygonMainnet,
    /// Polygon Amoy Testnet
    PolygonAmoy,
    /// Base Mainnet
    BaseMainnet,
    /// Base Sepolia Testnet
    BaseSepolia,
    /// Arbitrum One
    ArbitrumOne,
    /// Arbitrum Sepolia Testnet
    ArbitrumSepolia,
    /// Monad Mainnet
    MonadMainnet,
    /// Monad Testnet
    MonadTestnet,
    /// Bitcoin Mainnet
    BitcoinMainnet,
    /// Bitcoin Testnet
    BitcoinTestnet,
    /// Sui Mainnet
    SuiMainnet,
    /// Sui Testnet
    SuiTestnet,
    /// Sui Devnet
    SuiDevnet,
}

/// The CAIP-2 string of a network.
pub open spec fn network_id_str(id: NetworkId) -> Seq<char> {
    match id {
        NetworkId::SolanaMainnet => "solana:5eykt4UsFv8P8NJdTREpY1vzqKqZKvdp"@,
        NetworkId::SolanaDevnet => "solana:EtWTRABZaYq6iMfeYKouRu166VU2xqa1"@,
        NetworkId::SolanaTestnet => "solana:4uhcVJyU9pJkvQyS88uRDiswHXSCkY3z"@,
        NetworkId::EthereumMainnet => "eip155:1"@,
        NetworkId::EthereumSepolia => "eip155:11155111"@,
        NetworkId::PolygonMainnet => "eip155:137"@,
        NetworkId::PolygonAmoy => "eip155:80002"@,
        NetworkId::BaseMainnet => "eip155:8453"@,
        NetworkId::BaseSepolia => "eip155:84532"@,
        NetworkId::ArbitrumOne => "eip155:42161"@,
        NetworkId::ArbitrumSepolia => "eip155:421614"@,
        NetworkId::MonadMainnet => "eip155:143"@,
        NetworkId::MonadTestnet => "eip155:10143"@,
        NetworkId::BitcoinMainnet => "bip122:000000000019d6689c085ae165831e93"@,
        NetworkId::BitcoinTestnet => "bip122:000000000933ea01ad0ee984209779ba"@,
        NetworkId::SuiMainnet => "sui:35834a8a"@,
        NetworkId::SuiTestnet => "sui:4c78adac"@,
        NetworkId::SuiDevnet => "sui:devnet"@,
    }
}

/// Every supported network, in declaration order.
pub open spec fn all_network_ids() -> Seq<NetworkId> {
    seq![
        NetworkId::SolanaMainnet,
        NetworkId::SolanaDevnet,
        NetworkId::SolanaTestnet,
        NetworkId::EthereumMainnet,
        NetworkId::EthereumSepolia,
        NetworkId::PolygonMainnet,
        NetworkId::PolygonAmoy,
        NetworkId::BaseMainnet,
        NetworkId::BaseSepolia,
        NetworkId::ArbitrumOne,
        NetworkId::ArbitrumSepolia,
        NetworkId::MonadMainnet,
        NetworkId::MonadTestnet,
        NetworkId::BitcoinMainnet,
        NetworkId::BitcoinTestnet,
        NetworkId::SuiMainnet,
        NetworkId::SuiTestnet,
        NetworkId::SuiDevnet,
    ]
}

impl NetworkId {
    /// The CAIP-2 string representation of this network ID.
    pub fn as_str(&self) -> (r: &'static str)
        ensures
            r@ == network_id_str(*self),
    {
        match self {
            NetworkId::SolanaMainnet => "solana:5eykt4UsFv8P8NJdTREpY1vzqKqZKvdp",
            NetworkId::SolanaDevnet => "solana:EtWTRABZaYq6iMfeYKouRu166VU2xqa1",
            NetworkId::SolanaTestnet => "solana:4uhcVJyU9pJkvQyS88uRDiswHXSCkY3z",
            NetworkId::EthereumMainnet => "eip155:1",
            NetworkId::EthereumSepolia => "eip155:11155111",
            NetworkId::PolygonMainnet => "eip155:137",
            NetworkId::PolygonAmoy => "eip155:80002",
            NetworkId::BaseMainnet => "eip155:8453",
            NetworkId::BaseSepolia => "eip155:84532",
            NetworkId::ArbitrumOne => "eip155:42161",
            NetworkId::ArbitrumSepolia => "eip155:421614",
            NetworkId::MonadMainnet => "eip155:143",
            NetworkId::MonadTestnet => "eip155:10143",
            NetworkId::BitcoinMainnet => "bip122:000000000019d6689c085ae165831e93",
            NetworkId::BitcoinTestnet => "bip122:000000000933ea01ad0ee984209779ba",
            NetworkId::SuiMainnet => "sui:35834a8a",
            NetworkId::SuiTestnet => "sui:4c78adac",
            NetworkId::SuiDevnet => "sui:devnet",
        }
    }

    /// All supported network IDs, in declaration order.
    pub fn all() -> (r: Vec<NetworkId>)
        ensures
            r@ == all_network_ids(),
    {
        let r = vec![
            NetworkId::SolanaMainnet,
            NetworkId::SolanaDevnet,
            NetworkId::SolanaTestnet,
            NetworkId::EthereumMainnet,
            NetworkId::EthereumSepolia,
            NetworkId::PolygonMainnet,
            NetworkId::PolygonAmoy,
            NetworkId::BaseMainnet,
            NetworkId::BaseSepolia,
            NetworkId::ArbitrumOne,
            NetworkId::ArbitrumSepolia,
            NetworkId::MonadMainnet,
            NetworkId::MonadTestnet,
            NetworkId::BitcoinMainnet,
            NetworkId::BitcoinTestnet,
            NetworkId::SuiMainnet,
            NetworkId::SuiTestnet,
            NetworkId::SuiDevnet,
        ];
        proof {
            assert(r@ =~= all_network_ids());
        }
        r
    }
}

/// Every network appears in `all_network_ids`, exactly once.
pub proof fn law_all_network_ids_complete(id: NetworkId)
    ensures
        all_network_ids().contains(id),
        all_network_ids().no_duplicates(),
{
    let s = all_network_ids();
    match id {
        NetworkId::SolanaMainnet => assert(s[0] == id),
        NetworkId::SolanaDevnet => assert(s[1] == id),
        NetworkId::SolanaTestnet => assert(s[2] == id),
        NetworkId::EthereumMainnet => assert(s[3] == id),
        NetworkId::EthereumSepolia => assert(s[4] == id),
        NetworkId::PolygonMainnet => assert(s[5] == id),
        NetworkId::PolygonAmoy => assert(s[6] == id),
        NetworkId::BaseMainnet => assert(s[7] == id),
        NetworkId::BaseSepolia => assert(s[8] == id),
        NetworkId::ArbitrumOne => assert(s[9] == id),
        NetworkId::ArbitrumSepolia => assert(s[10] == id),
        NetworkId::MonadMainnet => assert(s[11] == id),
        NetworkId::MonadTestnet => assert(s[12] == id),
        NetworkId::BitcoinMainnet => assert(s[13] == id),
        NetworkId::BitcoinTestnet => assert(s[14] == id),
        NetworkId::SuiMainnet => assert(s[15] == id),
        NetworkId::SuiTestnet => assert(s[16] == id),
        NetworkId::SuiDevnet => assert(s[17] == id),
    }
}

/// Distinct networks have distinct CAIP-2 strings.
pub proof fn law_network_id_str_injective(a: NetworkId, b: NetworkId)
    requires
        network_id_str(a) == network_id_str(b),
    ensures
        a == b,
{
    reveal_strlit("solana:5eykt4UsFv8P8NJdTREpY1vzqKqZKvdp");
    reveal_strlit("solana:EtWTRABZaYq6iMfeYKouRu166VU2xqa1");
    reveal_strlit("solana:4uhcVJyU9pJkvQyS88uRDiswHXSCkY3z");
    reveal_strlit("eip155:1");
    reveal_strlit("eip155:11155111");
    reveal_strlit("eip155:137");
    reveal_strlit("eip155:80002");
    reveal_strlit("eip155:8453");
    reveal_strlit("eip155:84532");
    reveal_strlit("eip155:42161");
    reveal_strlit("eip155:421614");
    reveal_strlit("eip155:143");
    reveal_strlit("eip155:10143");
    reveal_strlit("bip122:000000000019d6689c085ae165831e93");
    reveal_strlit("bip122:000000000933ea01ad0ee984209779ba");
    reveal_strlit("sui:35834a8a");
    reveal_strlit("sui:4c78adac");
    reveal_strlit("sui:devnet");
    let x = network_id_str(a);
    let y = network_id_str(b);
    assert(x.len() == y.len());
    assert(x[0] == y[0]);
    assert(x[1] == y[1]);
    assert(x.len() > 8 ==> x[4] == y[4] && x[7] == y[7] && x[8] == y[8]);
    assert(x.len() > 16 ==> x[16] == y[16]);
}

} // verus!
