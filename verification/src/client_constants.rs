//! Derivation paths, curves and address formats of the wallet API, and the
//! client network configuration of a CAIP-2 network ID.
use vstd::prelude::*;
use crate::text::{
    chars_of, decimal, find_char, find_char_from, push_decimal, push_str, slice_chars, str_eq,
    string_from_chars, to_lowercase, unicode_lowercase,
};

verus! {

/// Cryptographic curve used for key derivation.
#[derive(Debug, Clone, Copy, PartialEq, Eq, Structural)]
pub enum Curve {
    /// Ed25519 elliptic curve.
    Ed25519,
    /// Secp256k1 elliptic curve.
    Secp256k1,
}

/// Cryptographic algorithm for signing.
#[derive(Debug, Clone, Copy, PartialEq, Eq, Structural)]
pub enum ClientAlgorithm {
    /// Ed25519 signing algorithm.
    Ed25519,
    /// Secp256k1 signing algorithm.
    Secp256k1,
}

/// Address format for derived accounts.
#[derive(Debug, Clone, Copy, PartialEq, Eq, Structural)]
pub enum AddressFormat {
    /// Solana address format.
    Solana,
    /// Ethereum address format.
    Ethereum,
    /// Sui address format.
    Sui,
    /// Bitcoin SegWit address format.
    BitcoinSegwit,
}

/// Default derivation paths for different blockchain networks.
pub struct DerivationPath;

/// `m/44'/501'/{i}'/0'`
pub open spec fn solana_path(i: u32) -> Seq<char> {
    "m/44'/501'/"@ + decimal(i as nat) + "'/0'"@
}

/// `m/44'/60'/0'/0/{i}`
pub open spec fn ethereum_path(i: u32) -> Seq<char> {
    "m/44'/60'/0'/0/"@ + decimal(i as nat)
}

/// `m/84'/0'/{i}'/0`
pub open spec fn bitcoin_path(i: u32) -> Seq<char> {
    "m/84'/0'/"@ + decimal(i as nat) + "'/0"@
}

/// `m/44'/784'/{i}'/0'/0'`
pub open spec fn sui_path(i: u32) -> Seq<char> {
    "m/44'/784'/"@ + decimal(i as nat) + "'/0'/0'"@
}

fn path_with_index(prefix: &str, account_index: u32, suffix: &str) -> (r: String)
    ensures
        r@ == prefix@ + decimal(account_index as nat) + suffix@,
{
    let mut v = chars_of(prefix);
    push_decimal(&mut v, account_index as u64);
    push_str(&mut v, suffix);
    string_from_chars(v.as_slice())
}

impl DerivationPath {
    /// Solana - BIP44 standard for Solana (coin type 501).
    pub fn solana(account_index: u32) -> (r: String)
        ensures
            r@ == solana_path(account_index),
    {
        path_with_index("m/44'/501'/", account_index, "'/0'")
    }

    /// Ethereum - BIP44 standard for Ethereum and all EVM-compatible chains (coin type 60).
    pub fn ethereum(account_index: u32) -> (r: String)
        ensures
            r@ == ethereum_path(account_index),
    {
        let r = path_with_index("m/44'/60'/0'/0/", account_index, "");
        proof {
            reveal_strlit("");
            assert(r@ =~= ethereum_path(account_index));
        }
        r
    }

    /// Bitcoin - BIP84 standard for Bitcoin (coin type 0).
    pub fn bitcoin(account_index: u32) -> (r: String)
        ensures
            r@ == bitcoin_path(account_index),
    {
        path_with_index("m/84'/0'/", account_index, "'/0")
    }

    /// Sui - BIP44 standard for Sui (coin type 784).
    pub fn sui(account_index: u32) -> (r: String)
        ensures
            r@ == sui_path(account_index),
    {
        path_with_index("m/44'/784'/", account_index, "'/0'/0'")
    }
}

/// Client-specific network configuration.
#[derive(Debug, Clone)]
pub struct ClientNetworkConfig {
    /// BIP-44/84 derivation path.
    pub derivation_path: String,
    /// Elliptic curve for key derivation.
    pub curve: Curve,
    /// Signing algorithm.
    pub algorithm: ClientAlgorithm,
    /// Address format for derived accounts.
    pub address_format: AddressFormat,
}

/// The chain family of a CAIP-2 network ID: the part before the first `:`.
pub open spec fn network_prefix(network_id: Seq<char>) -> Seq<char> {
    network_id.take(find_char_from(network_id, ':', 0))
}

/// The lower-cased chain family of a network ID.
pub open spec fn network_family(network_id: Seq<char>) -> Seq<char> {
    unicode_lowercase(network_prefix(network_id))
}

/// A family name that denotes Bitcoin.
pub open spec fn is_bitcoin_family(family: Seq<char>) -> bool {
    family == "bitcoin"@ || family == "btc"@ || family == "bip122"@
}

/// Derivation path of a chain family; every family not listed takes the
/// Ethereum path (EVM-compatible chains).
pub open spec fn family_derivation_path(family: Seq<char>, i: u32) -> Seq<char> {
    if family == "solana"@ {
        solana_path(i)
    } else if family == "sui"@ {
        sui_path(i)
    } else if is_bitcoin_family(family) {
        bitcoin_path(i)
    } else {
        ethereum_path(i)
    }
}

/// Abstract view of a client network configuration.
pub struct ClientNetworkConfigView {
    pub derivation_path: Seq<char>,
    pub curve: Curve,
    pub algorithm: ClientAlgorithm,
    pub address_format: AddressFormat,
}

impl View for ClientNetworkConfig {
    type V = ClientNetworkConfigView;

    open spec fn view(&self) -> ClientNetworkConfigView {
        ClientNetworkConfigView {
            derivation_path: self.derivation_path@,
            curve: self.curve,
            algorithm: self.algorithm,
            address_format: self.address_format,
        }
    }
}

/// The configuration of a chain family, if the family is supported.
pub open spec fn family_network_config(family: Seq<char>, i: u32) -> Option<ClientNetworkConfigView> {
    if family == "solana"@ {
        Some(ClientNetworkConfigView {
            derivation_path: solana_path(i),
            curve: Curve::Ed25519,
            algorithm: ClientAlgorithm::Ed25519,
            address_format: AddressFormat::Solana,
        })
    } else if family == "sui"@ {
        Some(ClientNetworkConfigView {
            derivation_path: sui_path(i),
            curve: Curve::Ed25519,
            algorithm: ClientAlgorithm::Ed25519,
            address_format: AddressFormat::Sui,
        })
    } else if is_bitcoin_family(family) {
        Some(ClientNetworkConfigView {
            derivation_path: bitcoin_path(i),
            curve: Curve::Secp256k1,
            algorithm: ClientAlgorithm::Secp256k1,
            address_format: AddressFormat::BitcoinSegwit,
        })
    } else if family == "eip155"@ {
        Some(ClientNetworkConfigView {
            derivation_path: ethereum_path(i),
            curve: Curve::Secp256k1,
            algorithm: ClientAlgorithm::Secp256k1,
            address_format: AddressFormat::Ethereum,
        })
    } else {
        None
    }
}

/// The part of a network ID before its first `:`, lower-cased.
fn family_of(network_id: &str) -> (r: String)
    ensures
        r@ == network_family(network_id@),
{
    let c = chars_of(network_id);
    let k = find_char(c.as_slice(), ':', 0);
    let prefix = slice_chars(c.as_slice(), 0, k);
    proof {
        assert(prefix@ =~= network_prefix(network_id@));
    }
    let p = string_from_chars(prefix.as_slice());
    to_lowercase(p.as_str())
}

fn is_bitcoin_family_exec(family: &str) -> (r: bool)
    ensures
        r == is_bitcoin_family(family@),
{
    str_eq(family, "bitcoin") || str_eq(family, "btc") || str_eq(family, "bip122")
}

/// Derivation path of an already lower-cased chain family.
pub fn derivation_path_for_family(family: &str, account_index: u32) -> (r: String)
    ensures
        r@ == family_derivation_path(family@, account_index),
{
    if str_eq(family, "solana") {
        DerivationPath::solana(account_index)
    } else if str_eq(family, "sui") {
        DerivationPath::sui(account_index)
    } else if is_bitcoin_family_exec(family) {
        DerivationPath::bitcoin(account_index)
    } else {
        DerivationPath::ethereum(account_index)
    }
}

/// Get the derivation path of a network ID: that of its chain family (the
/// lower-cased part before the first `:`).
pub fn get_derivation_path_for_network(network_id: &str, account_index: u32) -> (r: String)
    ensures
        r@ == family_derivation_path(network_family(network_id@), account_index),
{
    let family = family_of(network_id);
    derivation_path_for_family(family.as_str(), account_index)
}

/// Network configuration of an already lower-cased chain family.
pub fn network_config_for_family(family: &str, account_index: u32) -> (r: Option<ClientNetworkConfig>)
    ensures
        match family_network_config(family@, account_index) {
            Some(c) => r matches Some(x) && x@ == c,
            None => r is None,
        },
{
    if str_eq(family, "solana") {
        Some(ClientNetworkConfig {
            derivation_path: DerivationPath::solana(account_index),
            curve: Curve::Ed25519,
            algorithm: ClientAlgorithm::Ed25519,
            address_format: AddressFormat::Solana,
        })
    } else if str_eq(family, "sui") {
        Some(ClientNetworkConfig {
            derivation_path: DerivationPath::sui(account_index),
            curve: Curve::Ed25519,
            algorithm: ClientAlgorithm::Ed25519,
            address_format: AddressFormat::Sui,
        })
    } else if is_bitcoin_family_exec(family) {
        Some(ClientNetworkConfig {
            derivation_path: DerivationPath::bitcoin(account_index),
            curve: Curve::Secp256k1,
            algorithm: ClientAlgorithm::Secp256k1,
            address_format: AddressFormat::BitcoinSegwit,
        })
    } else if str_eq(family, "eip155") {
        Some(ClientNetworkConfig {
            derivation_path: DerivationPath::ethereum(account_index),
            curve: Curve::Secp256k1,
            algorithm: ClientAlgorithm::Secp256k1,
            address_format: AddressFormat::Ethereum,
        })
    } else {
        None
    }
}

/// Get the complete network configuration for a network ID and account
/// index; `None` when its chain family is not supported.
pub fn get_client_network_config(network_id: &str, account_index: u32) -> (r: Option<ClientNetworkConfig>)
    ensures
        match family_network_config(network_family(network_id@), account_index) {
            Some(c) => r matches Some(x) && x@ == c,
            None => r is None,
        },
{
    let family = family_of(network_id);
    network_config_for_family(family.as_str(), account_index)
}

/// Get network configuration with derivation index (same as
/// `get_client_network_config`).
pub fn get_network_config_with_index(network_id: &str, derivation_index: u32) -> (r: Option<ClientNetworkConfig>)
    ensures
        match family_network_config(network_family(network_id@), derivation_index) {
            Some(c) => r matches Some(x) && x@ == c,
            None => r is None,
        },
{
    get_client_network_config(network_id, derivation_index)
}

/// A supported network's configuration derives with the same path that
/// `get_derivation_path_for_network` gives for it.
pub proof fn law_config_path_matches_derivation_path(family: Seq<char>, i: u32)
    requires
        family_network_config(family, i) is Some,
    ensures
        family_network_config(family, i).unwrap().derivation_path == family_derivation_path(family, i),
{
}

/// A network ID has a client configuration exactly when its lower-cased
/// family is `solana`, `sui`, `bitcoin`, `btc`, `bip122` or `eip155`; the
/// configuration derives with the family's derivation path, and uses the
/// Ed25519 curve and algorithm exactly for Solana and Sui (secp256k1 for
/// the others).
pub proof fn law_client_config_families(network_id: Seq<char>, i: u32)
    ensures
        ({
            let family = network_family(network_id);
            &&& family_network_config(family, i) is Some <==> (family == "solana"@ || family == "sui"@
                || family == "bitcoin"@ || family == "btc"@ || family == "bip122"@ || family == "eip155"@)
            &&& family_network_config(family, i) matches Some(c) ==> {
                &&& c.derivation_path == family_derivation_path(family, i)
                &&& (c.curve == Curve::Ed25519 && c.algorithm == ClientAlgorithm::Ed25519) <==> (family
                    == "solana"@ || family == "sui"@)
                &&& (c.curve == Curve::Secp256k1 && c.algorithm == ClientAlgorithm::Secp256k1) <==> !(family
                    == "solana"@ || family == "sui"@)
            }
        }),
{
}

} // verus!
