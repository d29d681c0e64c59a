//! Ethereum-specific types of the injected provider.
use vstd::prelude::*;

use crate::chain_types::EthTransactionRequest;

verus! {

/// Ethereum transaction request.
#[derive(Debug, Clone, Default)]
pub struct EthereumTransaction {
    pub to: Option<String>,
    pub from: Option<String>,
    pub value: Option<String>,
    pub gas: Option<String>,
    pub gas_price: Option<String>,
    pub max_fee_per_gas: Option<String>,
    pub max_priority_fee_per_gas: Option<String>,
    pub data: Option<String>,
    pub nonce: Option<String>,
    pub tx_type: Option<String>,
    pub chain_id: Option<String>,
}

impl EthereumTransaction {
    /// The plugin's transaction for a chain-level transaction request: every
    /// field carried over as it is.
    pub fn from_request(t: EthTransactionRequest) -> (r: EthereumTransaction)
        ensures
            r.to == t.to,
            r.from == t.from,
            r.value == t.value,
            r.gas == t.gas,
            r.gas_price == t.gas_price,
            r.max_fee_per_gas == t.max_fee_per_gas,
            r.max_priority_fee_per_gas == t.max_priority_fee_per_gas,
            r.data == t.data,
            r.nonce == t.nonce,
            r.tx_type == t.tx_type,
            r.chain_id == t.chain_id,
    {
        EthereumTransaction {
            to: t.to,
            from: t.from,
            value: t.value,
            gas: t.gas,
            gas_price: t.gas_price,
            max_fee_per_gas: t.max_fee_per_gas,
            max_priority_fee_per_gas: t.max_priority_fee_per_gas,
            data: t.data,
            nonce: t.nonce,
            tx_type: t.tx_type,
            chain_id: t.chain_id,
        }
    }
}

/// Ethereum Sign-In With data (EIP-4361 / SIWE).
#[derive(Debug, Clone)]
pub struct EthereumSignInData {
    /// Ethereum address (0x-prefixed).
    pub address: String,
    /// EIP-155 chain ID.
    pub chain_id: i64,
    /// RFC 3986 authority domain.
    pub domain: String,
    /// Nonce (at least 8 alphanumeric characters).
    pub nonce: String,
    /// RFC 3986 URI.
    pub uri: String,
    /// SIWE version (must be "1").
    pub version: String,
    /// Optional URL scheme.
    pub scheme: Option<String>,
    /// Optional statement (must not contain newlines).
    pub statement: Option<String>,
    /// Optional request ID.
    pub request_id: Option<String>,
    /// Optional resource URIs.
    pub resources: Option<Vec<String>>,
    /// Issued at time (ISO 8601).
    pub issued_at: Option<String>,
    /// Expiration time (ISO 8601).
    pub expiration_time: Option<String>,
    /// Not before time (ISO 8601).
    pub not_before: Option<String>,
}

/// Ethereum event types.
#[derive(Debug, Clone, Copy, PartialEq, Eq, Hash, Structural)]
pub enum EthereumEventType {
    Connect,
    Disconnect,
    AccountsChanged,
    ChainChanged,
}

/// Result of an Ethereum sign-in.
#[derive(Debug, Clone)]
pub struct EthereumSignInResult {
    pub address: String,
    pub signature: String,
    pub signed_message: String,
}

} // verus!
