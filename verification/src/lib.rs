//! Verified core of the Phantom Connect SDK: encodings, network tables,
//! message construction and the decision logic of the wallet providers.
use vstd::prelude::*;

pub mod analytics;
pub mod auth_callback;
pub mod auto_confirm;
pub mod authenticators;
pub mod base64url;
pub mod browser_sdk;
pub mod caip2_mappings;
pub mod chain_types;
pub mod client_constants;
pub mod client_errors;
pub mod client_requests;
pub mod crypto;
pub mod debug;
pub mod client_types;
pub mod deeplink;
pub mod embedded_auth;
pub mod ethereum_types;
pub mod injected_chains;
pub mod injected_sdk;
pub mod siwe;
pub mod stamper;
pub mod storage;
pub mod strategies;
pub mod browser_detection;
pub mod network_ids;
pub mod networks;
pub mod plugins;
pub mod provider_names;
pub mod providers;
pub mod text;
pub mod url;
pub mod wallet_standard;
pub mod wallets;

verus! {
} // verus!
