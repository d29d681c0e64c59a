//! The networks on which the wallet API submits transactions, keyed by
//! their CAIP-2 network ID, with the chain and network names it expects.
use vstd::prelude::*;
use crate::client_types::SubmissionConfig;
use crate::network_ids::{NetworkId, network_id_str, law_network_id_str_injective};
use crate::text::{chars_of, chars_eq, ascii_lower_seq, to_ascii_lower};

verus! {

/// A row of the submission table.
pub struct SubmissionRow {
    pub chain: Seq<char>,
    pub network: Seq<char>,
    pub description: Seq<char>,
}

/// The submission row of a network, if transactions can be submitted on it.
pub open spec fn submission_row(id: NetworkId) -> Option<SubmissionRow> {
    match id {
        NetworkId::SolanaMainnet => Some(SubmissionRow { chain: "solana"@, network: "mainnet"@, description: "Solana Mainnet-Beta"@ }),
        NetworkId::SolanaDevnet => Some(SubmissionRow { chain: "solana"@, network: "devnet"@, description: "Solana Devnet"@ }),
        NetworkId::SolanaTestnet => Some(SubmissionRow { chain: "solana"@, network: "testnet"@, description: "Solana Testnet"@ }),
        NetworkId::EthereumMainnet => Some(SubmissionRow { chain: "ethereum"@, network: "mainnet"@, description: "Ethereum Mainnet"@ }),
        NetworkId::EthereumSepolia => Some(SubmissionRow { chain: "ethereum"@, network: "sepolia"@, description: "Sepolia Testnet"@ }),
        NetworkId::PolygonMainnet => Some(SubmissionRow { chain: "polygon"@, network: "mainnet"@, description: "Polygon Mainnet"@ }),
        NetworkId::PolygonAmoy => Some(SubmissionRow { chain: "polygon"@, network: "amoy"@, description: "Polygon Amoy Testnet"@ }),
        NetworkId::BaseMainnet => Some(SubmissionRow { chain: "base"@, network: "mainnet"@, description: "Base Mainnet"@ }),
        NetworkId::BaseSepolia => Some(SubmissionRow { chain: "base"@, network: "sepolia"@, description: "Base Sepolia Testnet"@ }),
        NetworkId::ArbitrumOne => Some(SubmissionRow { chain: "arbitrum"@, network: "mainnet"@, description: "Arbitrum One"@ }),
        NetworkId::ArbitrumSepolia => Some(SubmissionRow { chain: "arbitrum"@, network: "sepolia"@, description: "Arbitrum Sepolia Testnet"@ }),
        NetworkId::MonadMainnet => Some(SubmissionRow { chain: "monad"@, network: "mainnet"@, description: "Monad Mainnet"@ }),
        NetworkId::MonadTestnet => Some(SubmissionRow { chain: "monad"@, network: "testnet"@, description: "Monad Testnet"@ }),
        NetworkId::BitcoinMainnet => Some(SubmissionRow { chain: "bitcoin"@, network: "mainnet"@, description: "Bitcoin Mainnet"@ }),
        NetworkId::BitcoinTestnet => Some(SubmissionRow { chain: "bitcoin"@, network: "testnet"@, description: "Bitcoin Testnet"@ }),
        NetworkId::SuiMainnet => Some(SubmissionRow { chain: "sui"@, network: "mainnet"@, description: "Sui Mainnet"@ }),
        NetworkId::SuiTestnet => Some(SubmissionRow { chain: "sui"@, network: "testnet"@, description: "Sui Testnet"@ }),
        NetworkId::SuiDevnet => None,
    }
}

/// The networks of the submission table, in table order.
pub open spec fn submission_networks() -> Seq<NetworkId> {
    seq![
        NetworkId::SolanaMainnet,
        NetworkId::SolanaDevnet,
        NetworkId::SolanaTestnet,
        NetworkId::EthereumMainnet,
        NetworkId::EthereumSepolia,
        NetworkId::PolygonMainnet,
        NetworkId::PolygonAmoy,
        NetworkId::BaseMainnet,
        NetworkId::BaseSepolia,
        NetworkId::ArbitrumOne,
        NetworkId::ArbitrumSepolia,
        NetworkId::MonadMainnet,
        NetworkId::MonadTestnet,
        NetworkId::BitcoinMainnet,
        NetworkId::BitcoinTestnet,
        NetworkId::SuiMainnet,
        NetworkId::SuiTestnet
    ]
}

/// The network whose CAIP-2 string is `s`, among those of the table.
pub open spec fn submission_network_of(s: Seq<char>) -> Option<NetworkId> {
    if exists|i: int| 0 <= i < submission_networks().len() && network_id_str(submission_networks()[i]) == s {
        Some(choose|id: NetworkId| submission_networks().contains(id) && network_id_str(id) == s)
    } else {
        None
    }
}

/// The submission row of the network whose CAIP-2 string is `s`.
pub open spec fn submission_row_of(s: Seq<char>) -> Option<SubmissionRow> {
    match submission_network_of(s) {
        Some(id) => submission_row(id),
        None => None,
    }
}

fn row_exec(id: NetworkId) -> (r: Option<(&'static str, &'static str, &'static str)>)
    ensures
        match submission_row(id) {
            Some(row) => r matches Some(x) && x.0@ == row.chain && x.1@ == row.network && x.2@ == row.description,
            None => r is None,
        },
{
    match id {
        NetworkId::SolanaMainnet => Some(("solana", "mainnet", "Solana Mainnet-Beta")),
        NetworkId::SolanaDevnet => Some(("solana", "devnet", "Solana Devnet")),
        NetworkId::SolanaTestnet => Some(("solana", "testnet", "Solana Testnet")),
        NetworkId::EthereumMainnet => Some(("ethereum", "mainnet", "Ethereum Mainnet")),
        NetworkId::EthereumSepolia => Some(("ethereum", "sepolia", "Sepolia Testnet")),
        NetworkId::PolygonMainnet => Some(("polygon", "mainnet", "Polygon Mainnet")),
        NetworkId::PolygonAmoy => Some(("polygon", "amoy", "Polygon Amoy Testnet")),
        NetworkId::BaseMainnet => Some(("base", "mainnet", "Base Mainnet")),
        NetworkId::BaseSepolia => Some(("base", "sepolia", "Base Sepolia Testnet")),
        NetworkId::ArbitrumOne => Some(("arbitrum", "mainnet", "Arbitrum One")),
        NetworkId::ArbitrumSepolia => Some(("arbitrum", "sepolia", "Arbitrum Sepolia Testnet")),
        NetworkId::MonadMainnet => Some(("monad", "mainnet", "Monad Mainnet")),
        NetworkId::MonadTestnet => Some(("monad", "testnet", "Monad Testnet")),
        NetworkId::BitcoinMainnet => Some(("bitcoin", "mainnet", "Bitcoin Mainnet")),
        NetworkId::BitcoinTestnet => Some(("bitcoin", "testnet", "Bitcoin Testnet")),
        NetworkId::SuiMainnet => Some(("sui", "mainnet", "Sui Mainnet")),
        NetworkId::SuiTestnet => Some(("sui", "testnet", "Sui Testnet")),
        NetworkId::SuiDevnet => None,
    }
}

fn submission_ids() -> (r: Vec<NetworkId>)
    ensures
        r@ == submission_networks(),
{
    let r = vec![
        NetworkId::SolanaMainnet,
        NetworkId::SolanaDevnet,
        NetworkId::SolanaTestnet,
        NetworkId::EthereumMainnet,
        NetworkId::EthereumSepolia,
        NetworkId::PolygonMainnet,
        NetworkId::PolygonAmoy,
        NetworkId::BaseMainnet,
        NetworkId::BaseSepolia,
        NetworkId::ArbitrumOne,
        NetworkId::ArbitrumSepolia,
        NetworkId::MonadMainnet,
        NetworkId::MonadTestnet,
        NetworkId::BitcoinMainnet,
        NetworkId::BitcoinTestnet,
        NetworkId::SuiMainnet,
        NetworkId::SuiTestnet
    ];
    proof {
        assert(r@ =~= submission_networks());
    }
    r
}

proof fn lemma_table_rows(i: int)
    requires
        0 <= i < submission_networks().len(),
    ensures
        submission_row(submission_networks()[i]) is Some,
{
}

/// Position in the table of the network whose CAIP-2 string is `network_id`.
fn find_network(network_id: &str) -> (r: Option<NetworkId>)
    ensures
        r == submission_network_of(network_id@),
{
    let ids = submission_ids();
    let want = chars_of(network_id);
    let mut i: usize = 0;
    while i < ids.len()
        invariant
            0 <= i <= ids@.len(),
            ids@ == submission_networks(),
            want@ == network_id@,
            forall|j: int| 0 <= j < i ==> network_id_str(#[trigger] ids@[j]) != network_id@,
        decreases ids@.len() - i,
    {
        let id = ids[i];
        let s = chars_of(id.as_str());
        if chars_eq(s.as_slice(), want.as_slice()) {
            proof {
                let c = choose|x: NetworkId| submission_networks().contains(x) && network_id_str(x) == network_id@;
                assert(submission_networks()[i as int] == id);
                law_network_id_str_injective(c, id);
            }
            return Some(id);
        }
        i = i + 1;
    }
    None
}

/// The submission configuration (chain and network names) of a network ID.
pub fn derive_submission_config(network_id: &str) -> (r: Option<SubmissionConfig>)
    ensures
        match submission_row_of(network_id@) {
            Some(row) => r matches Some(c) && c.chain@ == row.chain && c.network@ == row.network,
            None => r is None,
        },
{
    match find_network(network_id) {
        Some(id) => match row_exec(id) {
            Some((chain, network, _)) => Some(SubmissionConfig {
                chain: String::from_str(chain),
                network: String::from_str(network),
            }),
            None => None,
        },
        None => None,
    }
}

/// Whether transactions can be submitted on a network ID.
pub fn supports_transaction_submission(network_id: &str) -> (r: bool)
    ensures
        r == submission_row_of(network_id@) is Some,
{
    match find_network(network_id) {
        Some(id) => row_exec(id).is_some(),
        None => false,
    }
}

/// The human-readable description of a network ID of the table.
pub fn get_network_description(network_id: &str) -> (r: Option<&'static str>)
    ensures
        match submission_row_of(network_id@) {
            Some(row) => r matches Some(d) && d@ == row.description,
            None => r is None,
        },
{
    match find_network(network_id) {
        Some(id) => match row_exec(id) {
            Some((_, _, d)) => Some(d),
            None => None,
        },
        None => None,
    }
}

/// All network IDs on which transactions can be submitted.
pub fn get_supported_network_ids() -> (r: Vec<&'static str>)
    ensures
        r@.len() == submission_networks().len(),
        forall|i: int| 0 <= i < r@.len() ==> r@[i]@ == network_id_str(submission_networks()[i]),
{
    let ids = submission_ids();
    let mut out: Vec<&'static str> = Vec::new();
    let mut i: usize = 0;
    while i < ids.len()
        invariant
            0 <= i <= ids@.len(),
            ids@ == submission_networks(),
            out@.len() == i,
            forall|j: int| 0 <= j < i ==> out@[j]@ == network_id_str(submission_networks()[j]),
        decreases ids@.len() - i,
    {
        out.push(ids[i].as_str());
        i = i + 1;
    }
    out
}

/// The network IDs of the table whose chain name equals `chain` up to
/// ASCII case, in table order.
pub open spec fn network_ids_of_chain(chain: Seq<char>) -> Seq<NetworkId> {
    submission_networks().filter(|id: NetworkId| ascii_lower_seq(submission_row(id).unwrap().chain) == ascii_lower_seq(chain))
}

/// ASCII case-insensitive equality (std's `str::eq_ignore_ascii_case`).
fn eq_ignore_ascii_case(a: &[char], b: &[char]) -> (r: bool)
    ensures
        r == (ascii_lower_seq(a@) == ascii_lower_seq(b@)),
{
    if a.len() != b.len() {
        proof {
            assert(ascii_lower_seq(a@).len() != ascii_lower_seq(b@).len());
        }
        return false;
    }
    let mut i: usize = 0;
    while i < a.len()
        invariant
            a@.len() == b@.len(),
            0 <= i <= a@.len(),
            forall|j: int| 0 <= j < i ==> ascii_lower_seq(a@)[j] == ascii_lower_seq(b@)[j],
        decreases a@.len() - i,
    {
        if to_ascii_lower(a[i]) != to_ascii_lower(b[i]) {
            proof {
                assert(ascii_lower_seq(a@)[i as int] != ascii_lower_seq(b@)[i as int]);
            }
            return false;
        }
        i = i + 1;
    }
    proof {
        assert(ascii_lower_seq(a@) =~= ascii_lower_seq(b@));
    }
    true
}

/// All network IDs of the table for a chain name (compared ignoring ASCII case).
pub fn get_network_ids_by_chain(chain: &str) -> (r: Vec<&'static str>)
    ensures
        r@.len() == network_ids_of_chain(chain@).len(),
        forall|i: int| 0 <= i < r@.len() ==> r@[i]@ == network_id_str(network_ids_of_chain(chain@)[i]),
{
    let ids = submission_ids();
    let want = chars_of(chain);
    let mut out: Vec<&'static str> = Vec::new();
    let ghost mut picked: Seq<NetworkId> = Seq::empty();
    let mut i: usize = 0;
    while i < ids.len()
        invariant
            0 <= i <= ids@.len(),
            ids@ == submission_networks(),
            want@ == chain@,
            picked == ids@.take(i as int).filter(|id: NetworkId| ascii_lower_seq(submission_row(id).unwrap().chain) == ascii_lower_seq(chain@)),
            out@.len() == picked.len(),
            forall|j: int| 0 <= j < out@.len() ==> out@[j]@ == network_id_str(picked[j]),
        decreases ids@.len() - i,
    {
        let id = ids[i];
        proof {
            lemma_table_rows(i as int);
            reveal_with_fuel(Seq::<NetworkId>::filter, 1);
            assert(ids@.take(i + 1).drop_last() =~= ids@.take(i as int));
        }
        let (c, _, _) = row_exec(id).unwrap();
        let cc = chars_of(c);
        if eq_ignore_ascii_case(cc.as_slice(), want.as_slice()) {
            out.push(id.as_str());
            proof {
                picked = picked.push(id);
            }
        }
        i = i + 1;
    }
    proof {
        assert(ids@.take(ids@.len() as int) =~= ids@);
    }
    out
}

/// Every network with a submission row is one of the table's networks, and
/// its submission configuration names the chain and network of its entry in
/// the network table.
pub proof fn law_submission_matches_network_table(id: NetworkId)
    requires
        submission_row(id) is Some,
    ensures
        submission_row_of(network_id_str(id)) == submission_row(id),
        submission_row(id).unwrap().chain == crate::networks::network_config_table(id).chain,
        submission_row(id).unwrap().network == crate::networks::network_config_table(id).network,
{
    let nets = submission_networks();
    match id {
        NetworkId::SolanaMainnet => assert(nets[0] == id),
        NetworkId::SolanaDevnet => assert(nets[1] == id),
        NetworkId::SolanaTestnet => assert(nets[2] == id),
        NetworkId::EthereumMainnet => assert(nets[3] == id),
        NetworkId::EthereumSepolia => assert(nets[4] == id),
        NetworkId::PolygonMainnet => assert(nets[5] == id),
        NetworkId::PolygonAmoy => assert(nets[6] == id),
        NetworkId::BaseMainnet => assert(nets[7] == id),
        NetworkId::BaseSepolia => assert(nets[8] == id),
        NetworkId::ArbitrumOne => assert(nets[9] == id),
        NetworkId::ArbitrumSepolia => assert(nets[10] == id),
        NetworkId::MonadMainnet => assert(nets[11] == id),
        NetworkId::MonadTestnet => assert(nets[12] == id),
        NetworkId::BitcoinMainnet => assert(nets[13] == id),
        NetworkId::BitcoinTestnet => assert(nets[14] == id),
        NetworkId::SuiMainnet => assert(nets[15] == id),
        NetworkId::SuiTestnet => assert(nets[16] == id),
        NetworkId::SuiDevnet => {},
    }
    assert(nets.contains(id));
    let c = choose|x: NetworkId| nets.contains(x) && network_id_str(x) == network_id_str(id);
    law_network_id_str_injective(c, id);
}

/// The position of a network in the submission table (17 for the network
/// that has no row).
spec fn table_position(id: NetworkId) -> int {
    match id {
        NetworkId::SolanaMainnet => 0,
        NetworkId::SolanaDevnet => 1,
        NetworkId::SolanaTestnet => 2,
        NetworkId::EthereumMainnet => 3,
        NetworkId::EthereumSepolia => 4,
        NetworkId::PolygonMainnet => 5,
        NetworkId::PolygonAmoy => 6,
        NetworkId::BaseMainnet => 7,
        NetworkId::BaseSepolia => 8,
        NetworkId::ArbitrumOne => 9,
        NetworkId::ArbitrumSepolia => 10,
        NetworkId::MonadMainnet => 11,
        NetworkId::MonadTestnet => 12,
        NetworkId::BitcoinMainnet => 13,
        NetworkId::BitcoinTestnet => 14,
        NetworkId::SuiMainnet => 15,
        NetworkId::SuiTestnet => 16,
        NetworkId::SuiDevnet => 17,
    }
}

proof fn lemma_table_positions()
    ensures
        forall|i: int| 0 <= i < submission_networks().len() ==> #[trigger] table_position(submission_networks()[i]) == i,
{
    let nets = submission_networks();
    assert forall|i: int| 0 <= i < nets.len() implies #[trigger] table_position(nets[i]) == i by {
        if i == 0 {
        } else if i == 1 {
        } else if i == 2 {
        } else if i == 3 {
        } else if i == 4 {
        } else if i == 5 {
        } else if i == 6 {
        } else if i == 7 {
        } else if i == 8 {
        } else if i == 9 {
        } else if i == 10 {
        } else if i == 11 {
        } else if i == 12 {
        } else if i == 13 {
        } else if i == 14 {
        } else if i == 15 {
        } else if i == 16 {
        }
    }
}

/// The supported networks are the table's: they have no duplicates, and a
/// network is among them exactly when it has a submission row, which every
/// network but Sui Devnet has. (Their CAIP-2 strings are then distinct too,
/// by `law_network_id_str_injective`.)
pub proof fn law_supported_networks_are_the_table(id: NetworkId)
    ensures
        submission_networks().no_duplicates(),
        submission_networks().contains(id) <==> submission_row(id) is Some,
        submission_networks().contains(id) <==> id != NetworkId::SuiDevnet,
{
    let nets = submission_networks();
    lemma_table_positions();
    assert forall|i: int, j: int| 0 <= i < nets.len() && 0 <= j < nets.len() && i != j implies nets[i] != nets[j] by {
        assert(table_position(nets[i]) == i);
        assert(table_position(nets[j]) == j);
    }
    if nets.contains(id) {
        let k = choose|k: int| 0 <= k < nets.len() && nets[k] == id;
        assert(table_position(nets[k]) == k);
    }
    match id {
        NetworkId::SolanaMainnet => assert(nets[0] == id),
        NetworkId::SolanaDevnet => assert(nets[1] == id),
        NetworkId::SolanaTestnet => assert(nets[2] == id),
        NetworkId::EthereumMainnet => assert(nets[3] == id),
        NetworkId::EthereumSepolia => assert(nets[4] == id),
        NetworkId::PolygonMainnet => assert(nets[5] == id),
        NetworkId::PolygonAmoy => assert(nets[6] == id),
        NetworkId::BaseMainnet => assert(nets[7] == id),
        NetworkId::BaseSepolia => assert(nets[8] == id),
        NetworkId::ArbitrumOne => assert(nets[9] == id),
        NetworkId::ArbitrumSepolia => assert(nets[10] == id),
        NetworkId::MonadMainnet => assert(nets[11] == id),
        NetworkId::MonadTestnet => assert(nets[12] == id),
        NetworkId::BitcoinMainnet => assert(nets[13] == id),
        NetworkId::BitcoinTestnet => assert(nets[14] == id),
        NetworkId::SuiMainnet => assert(nets[15] == id),
        NetworkId::SuiTestnet => assert(nets[16] == id),
        NetworkId::SuiDevnet => {},
    }
}

proof fn lemma_filter_keeps_no_duplicates(s: Seq<NetworkId>, p: spec_fn(NetworkId) -> bool)
    requires
        s.no_duplicates(),
    ensures
        s.filter(p).no_duplicates(),
    decreases s.len(),
{
    reveal_with_fuel(Seq::<NetworkId>::filter, 1);
    if s.len() > 0 {
        let r = s.drop_last();
        assert(r.no_duplicates());
        lemma_filter_keeps_no_duplicates(r, p);
        if p(s.last()) {
            let f = r.filter(p);
            assert(s.filter(p) == f.push(s.last()));
            if f.contains(s.last()) {
                r.lemma_filter_contains_rev(p, s.last());
                let k = choose|k: int| 0 <= k < r.len() && r[k] == s.last();
                assert(s[k] == s[s.len() - 1]);
            }
        } else {
            assert(s.filter(p) == r.filter(p));
        }
    }
}

/// The networks of a chain are the supported networks whose chain name
/// equals it ignoring ASCII case, without duplicates.
pub proof fn law_network_ids_by_chain(chain: Seq<char>, id: NetworkId)
    ensures
        network_ids_of_chain(chain).no_duplicates(),
        network_ids_of_chain(chain).contains(id) <==> (submission_networks().contains(id) && ascii_lower_seq(
            submission_row(id).unwrap().chain,
        ) == ascii_lower_seq(chain)),
{
    let nets = submission_networks();
    let p = |x: NetworkId| ascii_lower_seq(submission_row(x).unwrap().chain) == ascii_lower_seq(chain);
    law_supported_networks_are_the_table(id);
    lemma_filter_keeps_no_duplicates(nets, p);
    assert(network_ids_of_chain(chain) == nets.filter(p));
    if network_ids_of_chain(chain).contains(id) {
        nets.lemma_filter_contains_rev(p, id);
        let k = choose|k: int| 0 <= k < nets.filter(p).len() && nets.filter(p)[k] == id;
        nets.lemma_filter_pred(p, k);
    }
    if nets.contains(id) && p(id) {
        let k = choose|k: int| 0 <= k < nets.len() && nets[k] == id;
        nets.lemma_filter_contains(p, k);
    }
}

/// What `get_supported_network_ids` returns, as strings: the CAIP-2 strings
/// of the supported networks are pairwise distinct, and a string is among
/// them exactly when transactions can be submitted on it
/// (`supports_transaction_submission`, `derive_submission_config`).
pub proof fn law_supported_id_strings(s: Seq<char>)
    ensures
        forall|i: int, j: int|
            0 <= i < submission_networks().len() && 0 <= j < submission_networks().len() && i != j
                ==> network_id_str(#[trigger] submission_networks()[i]) != network_id_str(
                #[trigger] submission_networks()[j],
            ),
        (exists|i: int| 0 <= i < submission_networks().len() && network_id_str(submission_networks()[i]) == s)
            <==> submission_row_of(s) is Some,
{
    let nets = submission_networks();
    law_supported_networks_are_the_table(NetworkId::SuiDevnet);
    assert forall|i: int, j: int| 0 <= i < nets.len() && 0 <= j < nets.len() && i != j implies network_id_str(
        #[trigger] nets[i],
    ) != network_id_str(#[trigger] nets[j]) by {
        if network_id_str(nets[i]) == network_id_str(nets[j]) {
            law_network_id_str_injective(nets[i], nets[j]);
        }
    }
    if exists|i: int| 0 <= i < nets.len() && network_id_str(nets[i]) == s {
        let i = choose|i: int| 0 <= i < nets.len() && network_id_str(nets[i]) == s;
        assert(nets.contains(nets[i]));
        let id = choose|id: NetworkId| nets.contains(id) && network_id_str(id) == s;
        law_supported_networks_are_the_table(id);
    }
}

/// What `get_network_ids_by_chain` returns, as strings: pairwise distinct
/// CAIP-2 strings, and a string is among them exactly when it is a supported
/// network whose chain name equals `chain` ignoring ASCII case.
pub proof fn law_ids_by_chain_strings(chain: Seq<char>, s: Seq<char>)
    ensures
        forall|i: int, j: int|
            0 <= i < network_ids_of_chain(chain).len() && 0 <= j < network_ids_of_chain(chain).len() && i != j
                ==> network_id_str(#[trigger] network_ids_of_chain(chain)[i]) != network_id_str(
                #[trigger] network_ids_of_chain(chain)[j],
            ),
        (exists|i: int|
            0 <= i < network_ids_of_chain(chain).len() && network_id_str(network_ids_of_chain(chain)[i]) == s)
            <==> (submission_row_of(s) matches Some(row) && ascii_lower_seq(row.chain) == ascii_lower_seq(chain)),
{
    let nets = submission_networks();
    let c = network_ids_of_chain(chain);
    law_network_ids_by_chain(chain, NetworkId::SuiDevnet);
    assert forall|i: int, j: int| 0 <= i < c.len() && 0 <= j < c.len() && i != j implies network_id_str(
        #[trigger] c[i],
    ) != network_id_str(#[trigger] c[j]) by {
        if network_id_str(c[i]) == network_id_str(c[j]) {
            law_network_id_str_injective(c[i], c[j]);
        }
    }
    if exists|i: int| 0 <= i < c.len() && network_id_str(c[i]) == s {
        let i = choose|i: int| 0 <= i < c.len() && network_id_str(c[i]) == s;
        let id = c[i];
        assert(c.contains(id));
        law_network_ids_by_chain(chain, id);
        let k = choose|k: int| 0 <= k < nets.len() && nets[k] == id;
        assert(network_id_str(nets[k]) == s);
        let id2 = choose|id2: NetworkId| nets.contains(id2) && network_id_str(id2) == s;
        law_network_id_str_injective(id, id2);
        law_supported_networks_are_the_table(id);
    }
    if submission_row_of(s) matches Some(row) && ascii_lower_seq(row.chain) == ascii_lower_seq(chain) {
        let id = choose|id: NetworkId| nets.contains(id) && network_id_str(id) == s;
        law_network_ids_by_chain(chain, id);
        let k = choose|k: int| 0 <= k < c.len() && c[k] == id;
        assert(network_id_str(c[k]) == s);
    }
}

} // verus!
