//! Request and response types of the wallet API client.
use vstd::prelude::*;
use crate::client_constants::{AddressFormat, ClientAlgorithm, Curve};

verus! {

/// A JSON value of the wallet API, carried through unchanged.
#[verifier::external_type_specification]
#[verifier::external_body]
pub struct ExJsonValue(serde_json::Value);

/// Configuration for creating a PhantomClient instance.
#[derive(Debug, Clone)]
pub struct PhantomClientConfig {
    /// Base URL for the Phantom wallet API.
    pub api_base_url: String,
    /// Organization ID (required for most operations).
    pub organization_id: Option<String>,
    /// Additional HTTP headers for analytics, as name and value pairs.
    pub headers: Option<Vec<(String, String)>>,
    /// Wallet type: "server-wallet" or "user-wallet".
    pub wallet_type: String,
}

/// Result of creating a new wallet.
#[derive(Debug, Clone)]
pub struct CreateWalletResult {
    /// The unique wallet identifier.
    pub wallet_id: String,
    /// List of derived addresses for each chain.
    pub addresses: Vec<WalletAddress>,
}

/// An address entry in a wallet.
#[derive(Debug, Clone)]
pub struct WalletAddress {
    /// The type of address (e.g., "solana", "ethereum").
    pub address_type: String,
    /// The blockchain address.
    pub address: String,
}

/// A keypair with public and secret keys.
#[derive(Debug, Clone)]
pub struct Keypair {
    /// Base64url encoded public key.
    pub public_key: String,
    /// Base64url encoded secret key.
    pub secret_key: String,
}

/// A signed transaction result.
#[derive(Debug, Clone)]
pub struct SignedTransaction {
    /// Base64url encoded signed transaction.
    pub raw_transaction: String,
    /// Optional transaction hash if available.
    pub hash: Option<String>,
}

/// Result of signing a transaction (without sending).
#[derive(Debug, Clone)]
pub struct SignedTransactionResult {
    /// Base64url encoded signed transaction.
    pub raw_transaction: String,
}

/// Result of listing wallets.
#[derive(Debug, Clone)]
pub struct GetWalletsResult {
    /// List of wallets.
    pub wallets: Vec<Wallet>,
    /// Total number of wallets.
    pub total_count: u64,
    /// Page limit.
    pub limit: u64,
    /// Page offset.
    pub offset: u64,
}

/// Basic wallet information.
#[derive(Debug, Clone)]
pub struct Wallet {
    /// The unique wallet identifier.
    pub wallet_id: String,
    /// The wallet display name.
    pub wallet_name: String,
}

/// Parameters for signing a message.
#[derive(Debug, Clone)]
pub struct SignMessageParams {
    /// Wallet ID to use for signing.
    pub wallet_id: String,
    /// Base64url encoded message.
    pub message: String,
    /// Network ID (CAIP-2).
    pub network_id: String,
    /// Optional account derivation index (defaults to 0).
    pub derivation_index: Option<u32>,
}

/// Parameters for signing EIP-712 typed data.
#[derive(Debug)]
pub struct SignTypedDataParams {
    /// Wallet ID to use for signing.
    pub wallet_id: String,
    /// EIP-712 typed data object.
    pub typed_data: serde_json::Value,
    /// Network ID (CAIP-2).
    pub network_id: String,
    /// Optional account derivation index (defaults to 0).
    pub derivation_index: Option<u32>,
}

/// Parameters for signing a transaction.
#[derive(Debug, Clone)]
pub struct SignTransactionParams {
    /// Wallet ID to use for signing.
    pub wallet_id: String,
    /// Base64url encoded transaction.
    pub transaction: String,
    /// Network ID (CAIP-2).
    pub network_id: String,
    /// Optional account derivation index (defaults to 0).
    pub derivation_index: Option<u32>,
    /// Optional specific account address to use.
    pub account: Option<String>,
}

/// Parameters for signing and sending a transaction.
#[derive(Debug, Clone)]
pub struct SignAndSendTransactionParams {
    /// Wallet ID to use for signing.
    pub wallet_id: String,
    /// Base64url encoded transaction.
    pub transaction: String,
    /// Network ID (CAIP-2).
    pub network_id: String,
    /// Optional account derivation index (defaults to 0).
    pub derivation_index: Option<u32>,
    /// Optional specific account address to use.
    pub account: Option<String>,
}

/// Parameters for getting a wallet by tag.
#[derive(Debug, Clone)]
pub struct GetWalletWithTagParams {
    /// Organization ID.
    pub organization_id: String,
    /// Tag to search for.
    pub tag: String,
    /// Derivation paths to include.
    pub derivation_paths: Vec<String>,
}

/// Parameters for creating an authenticator.
#[derive(Debug, Clone)]
pub struct CreateAuthenticatorParams {
    /// Organization ID.
    pub organization_id: String,
    /// Username.
    pub username: String,
    /// Authenticator display name.
    pub authenticator_name: String,
    /// Authenticator configuration.
    pub authenticator: AuthenticatorConfig,
    /// Replace existing expirable authenticator.
    pub replace_expirable: Option<bool>,
}

/// Parameters for deleting an authenticator.
#[derive(Debug, Clone)]
pub struct DeleteAuthenticatorParams {
    /// Organization ID.
    pub organization_id: String,
    /// Username.
    pub username: String,
    /// Authenticator ID.
    pub authenticator_id: String,
}

/// Authenticator configuration supporting multiple kinds.
#[derive(Debug, Clone)]
pub enum AuthenticatorConfig {
    /// Keypair-based authenticator.
    Keypair {
        /// Authenticator display name.
        authenticator_name: String,
        /// Base64url encoded public key.
        public_key: String,
        /// Cryptographic algorithm.
        algorithm: ClientAlgorithm,
        /// Optional expiration in milliseconds.
        expires_in_ms: Option<u64>,
    },
    /// Passkey-based authenticator.
    Passkey {
        /// Authenticator display name.
        authenticator_name: String,
        /// Base64url encoded public key.
        public_key: String,
        /// Cryptographic algorithm.
        algorithm: ClientAlgorithm,
        /// Optional expiration in milliseconds.
        expires_in_ms: Option<u64>,
    },
    /// OIDC-based authenticator.
    Oidc {
        /// Authenticator display name.
        authenticator_name: String,
        /// JWKS URL for token verification.
        jwks_url: String,
        /// ID token claims.
        id_token_claims: IdTokenClaims,
        /// Optional expiration in milliseconds.
        expires_in_ms: Option<u64>,
    },
}

/// The display name of an authenticator configuration, whatever its kind.
pub open spec fn authenticator_name_of(a: AuthenticatorConfig) -> Seq<char> {
    match a {
        AuthenticatorConfig::Keypair { authenticator_name, .. } => authenticator_name@,
        AuthenticatorConfig::Passkey { authenticator_name, .. } => authenticator_name@,
        AuthenticatorConfig::Oidc { authenticator_name, .. } => authenticator_name@,
    }
}

impl AuthenticatorConfig {
    /// The display name of the authenticator.
    pub fn authenticator_name(&self) -> (r: &str)
        ensures
            r@ == authenticator_name_of(*self),
    {
        match self {
            AuthenticatorConfig::Keypair { authenticator_name, .. } => authenticator_name.as_str(),
            AuthenticatorConfig::Passkey { authenticator_name, .. } => authenticator_name.as_str(),
            AuthenticatorConfig::Oidc { authenticator_name, .. } => authenticator_name.as_str(),
        }
    }
}

/// OIDC ID token claims.
#[derive(Debug, Clone)]
pub struct IdTokenClaims {
    /// Subject claim.
    pub sub: String,
    /// Issuer claim.
    pub iss: String,
}

/// User configuration for organization creation.
#[derive(Debug, Clone)]
pub struct UserConfig {
    /// Username.
    pub username: String,
    /// User role: "ADMIN" or "USER" (defaults to "ADMIN").
    pub role: Option<String>,
    /// User's authenticators.
    pub authenticators: Vec<AuthenticatorConfig>,
}

/// Spending limit configuration.
#[derive(Debug, Clone)]
pub struct SpendingLimitConfig {
    /// Daily spending limit in USD cents.
    pub usd_cents_limit_per_day: u64,
}

/// Response from the prepare endpoint.
#[derive(Debug)]
pub struct PrepareResponse {
    /// The prepared transaction.
    pub transaction: String,
    /// Optional simulation result.
    pub simulation_result: Option<serde_json::Value>,
    /// Memory config used for spending limits.
    pub memory_config_used: Option<SpendingLimitConfig>,
}

/// Wallet service error types.
#[derive(Debug, Clone, Copy, PartialEq, Eq, Structural)]
pub enum WalletServiceErrorType {
    /// Spending limit has been exceeded.
    SpendingLimitExceeded,
    /// Transaction was blocked by security policy.
    TransactionBlocked,
}

/// Wallet service error data from the API.
#[derive(Debug, Clone)]
pub struct WalletServiceErrorData {
    /// Error type.
    pub error_type: WalletServiceErrorType,
    /// Error title.
    pub title: String,
    /// Error detail message.
    pub detail: String,
    /// Request ID.
    pub request_id: String,
}

/// Extended error response from the prepare endpoint.
#[derive(Debug)]
pub struct PrepareErrorResponse {
    /// Error type.
    pub error_type: Option<WalletServiceErrorType>,
    /// Error title.
    pub title: Option<String>,
    /// Error detail message.
    pub detail: Option<String>,
    /// Request ID.
    pub request_id: Option<String>,
    /// General error message.
    pub message: Option<String>,
    /// Previous spend in cents.
    pub previous_spend_cents: Option<u64>,
    /// Transaction spend in cents.
    pub transaction_spend_cents: Option<u64>,
    /// Total spend in cents.
    pub total_spend_cents: Option<u64>,
    /// Limit in cents.
    pub limit_cents: Option<u64>,
    /// Full simulation result when transaction is blocked.
    pub scanner_result: Option<serde_json::Value>,
}

/// Derivation information for a wallet account.
#[derive(Debug, Clone)]
pub struct DerivationInfo {
    /// BIP-44/84 derivation path.
    pub derivation_path: String,
    /// Elliptic curve.
    pub curve: Curve,
    /// Address format.
    pub address_format: AddressFormat,
}

/// Submission configuration for transaction submission.
#[derive(Debug, Clone)]
pub struct SubmissionConfig {
    /// Chain name (e.g., "solana", "ethereum", "polygon").
    pub chain: String,
    /// Network name (e.g., "mainnet", "devnet", "sepolia").
    pub network: String,
}

/// Simulation configuration for transaction simulation.
#[derive(Debug, Clone)]
pub struct SimulationConfig {
    /// The address/account that is signing the transaction.
    pub account: String,
}

} // verus!
