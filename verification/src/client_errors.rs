//! Errors of the wallet API client and the messages they carry.
use vstd::prelude::*;
use crate::client_types::{PrepareErrorResponse, WalletServiceErrorType};
use crate::text::{chars_of, opt_view, push_str, string_from_chars};

verus! {

/// An HTTP failure reported by reqwest.
#[verifier::external_type_specification]
#[verifier::external_body]
pub struct ExReqwestError(reqwest::Error);

/// A JSON (de)serialization failure reported by serde_json.
#[verifier::external_type_specification]
#[verifier::external_body]
pub struct ExJsonError(serde_json::Error);

/// Errors that can occur during Phantom client operations.
#[derive(Debug)]
pub enum ClientError {
    /// HTTP request failed.
    Http(reqwest::Error),
    /// Wallet service error (spending limit or transaction blocked).
    WalletService(WalletServiceError),
    /// Configuration error (e.g., missing organization ID).
    Config(String),
    /// Unsupported network.
    UnsupportedNetwork(String),
    /// Prepare endpoint error.
    Prepare(String),
    /// General API error.
    Api(String),
    /// JSON serialization/deserialization error.
    Json(serde_json::Error),
}

/// Wallet service error — returned by the API for spending limits and blocked transactions.
#[derive(Debug)]
pub enum WalletServiceError {
    /// Spending limit has been exceeded.
    SpendingLimitExceeded {
        /// Error title.
        title: String,
        /// Error detail message.
        detail: String,
        /// Request ID.
        request_id: String,
        /// Previous spend in cents.
        previous_spend_cents: Option<u64>,
        /// Transaction spend in cents.
        transaction_spend_cents: Option<u64>,
        /// Total spend in cents.
        total_spend_cents: Option<u64>,
        /// Limit in cents.
        limit_cents: Option<u64>,
    },
    /// Transaction was blocked by security policy.
    TransactionBlocked {
        /// Error title.
        title: String,
        /// Error detail message.
        detail: String,
        /// Request ID.
        request_id: String,
        /// Full simulation result when transaction is blocked.
        scanner_result: Option<serde_json::Value>,
    },
}

/// The text reqwest gives for an HTTP failure (its `Display`); nothing is
/// claimed of it.
#[verifier::external_body]
fn http_error_text(e: &reqwest::Error) -> (r: String) {
    e.to_string()
}

/// The text serde_json gives for a JSON failure (its `Display`); nothing is
/// claimed of it.
#[verifier::external_body]
fn json_error_text(e: &serde_json::Error) -> (r: String) {
    e.to_string()
}

/// A copy of an optional JSON value (serde_json's derived `Clone`), equal to it.
#[verifier::external_body]
fn clone_json(v: &Option<serde_json::Value>) -> (r: Option<serde_json::Value>)
    ensures
        r == *v,
{
    v.clone()
}

/// The message of a wallet service error.
pub open spec fn wallet_service_message(e: WalletServiceError) -> Seq<char> {
    match e {
        WalletServiceError::SpendingLimitExceeded { detail, .. } => "Spending limit exceeded: "@ + detail@,
        WalletServiceError::TransactionBlocked { detail, .. } => "Transaction blocked: "@ + detail@,
    }
}

impl WalletServiceError {
    /// The message of the error: its kind and detail.
    pub fn message(&self) -> (r: String)
        ensures
            r@ == wallet_service_message(*self),
    {
        let (prefix, detail) = match self {
            WalletServiceError::SpendingLimitExceeded { detail, .. } => ("Spending limit exceeded: ", detail),
            WalletServiceError::TransactionBlocked { detail, .. } => ("Transaction blocked: ", detail),
        };
        let mut v = chars_of(prefix);
        push_str(&mut v, detail.as_str());
        string_from_chars(v.as_slice())
    }
}

impl ClientError {
    /// The message of the error; for HTTP and JSON failures it is a fixed
    /// prefix followed by the text of the underlying error.
    pub fn message(&self) -> (r: String)
        ensures
            match *self {
                ClientError::Http(_) => exists|t: Seq<char>| r@ == "HTTP request failed: "@ + t,
                ClientError::WalletService(w) => r@ == wallet_service_message(w),
                ClientError::Config(s) => r@ == s@,
                ClientError::UnsupportedNetwork(s) => r@ == "Unsupported network ID: "@ + s@,
                ClientError::Prepare(s) => r@ == s@,
                ClientError::Api(s) => r@ == s@,
                ClientError::Json(_) => exists|t: Seq<char>| r@ == "JSON error: "@ + t,
            },
    {
        match self {
            ClientError::Http(e) => {
                let t = http_error_text(e);
                let mut v = chars_of("HTTP request failed: ");
                push_str(&mut v, t.as_str());
                string_from_chars(v.as_slice())
            },
            ClientError::WalletService(w) => w.message(),
            ClientError::Config(s) => s.clone(),
            ClientError::UnsupportedNetwork(s) => {
                let mut v = chars_of("Unsupported network ID: ");
                push_str(&mut v, s.as_str());
                string_from_chars(v.as_slice())
            },
            ClientError::Prepare(s) => s.clone(),
            ClientError::Api(s) => s.clone(),
            ClientError::Json(e) => {
                let t = json_error_text(e);
                let mut v = chars_of("JSON error: ");
                push_str(&mut v, t.as_str());
                string_from_chars(v.as_slice())
            },
        }
    }
}

/// The detail of a wallet service error, else its title, else the fallback.
pub open spec fn detail_title_or(detail: Seq<char>, title: Seq<char>, fallback: Seq<char>) -> Seq<char> {
    if detail.len() > 0 {
        detail
    } else if title.len() > 0 {
        title
    } else {
        fallback
    }
}

/// Extract error message from various error types: the detail (else title,
/// else `fallback_message`) of a wallet service error, the text of an HTTP
/// failure, the message of an API error, and the error's message otherwise.
pub fn get_error_message(error: &ClientError, fallback_message: &str) -> (r: String)
    ensures
        match *error {
            ClientError::WalletService(WalletServiceError::SpendingLimitExceeded { detail, title, .. }) =>
                r@ == detail_title_or(detail@, title@, fallback_message@),
            ClientError::WalletService(WalletServiceError::TransactionBlocked { detail, title, .. }) =>
                r@ == detail_title_or(detail@, title@, fallback_message@),
            ClientError::Http(_) => true,
            ClientError::Api(s) => r@ == s@,
            ClientError::Config(s) => r@ == s@,
            ClientError::UnsupportedNetwork(s) => r@ == "Unsupported network ID: "@ + s@,
            ClientError::Prepare(s) => r@ == s@,
            ClientError::Json(_) => exists|t: Seq<char>| r@ == "JSON error: "@ + t,
        },
{
    match error {
        ClientError::WalletService(ws) => {
            let (detail, title) = match ws {
                WalletServiceError::SpendingLimitExceeded { detail, title, .. } => (detail, title),
                WalletServiceError::TransactionBlocked { detail, title, .. } => (detail, title),
            };
            let d = chars_of(detail.as_str());
            let t = chars_of(title.as_str());
            if d.len() > 0 {
                detail.clone()
            } else if t.len() > 0 {
                title.clone()
            } else {
                String::from_str(fallback_message)
            }
        },
        ClientError::Http(e) => http_error_text(e),
        ClientError::Api(msg) => msg.clone(),
        _ => error.message(),
    }
}

/// The value of an optional string, empty when absent.
pub open spec fn or_empty(s: Option<String>) -> Seq<char> {
    match s {
        Some(x) => x@,
        None => Seq::<char>::empty(),
    }
}

fn string_or_empty(s: &Option<String>) -> (r: String)
    ensures
        r@ == or_empty(*s),
{
    match s {
        Some(x) => x.clone(),
        None => String::new(),
    }
}

/// Whether `e` is the wallet service error that the error body `data` names:
/// its variant is the body's error type, its texts the body's (empty when
/// absent) and its other fields the body's.
pub open spec fn is_wallet_service_error_of(data: PrepareErrorResponse, e: WalletServiceError) -> bool {
    match data.error_type {
        None => false,
        Some(WalletServiceErrorType::SpendingLimitExceeded) => e matches WalletServiceError::SpendingLimitExceeded {
            title,
            detail,
            request_id,
            previous_spend_cents,
            transaction_spend_cents,
            total_spend_cents,
            limit_cents,
        } && title@ == or_empty(data.title) && detail@ == or_empty(data.detail) && request_id@ == or_empty(
            data.request_id,
        ) && previous_spend_cents == data.previous_spend_cents && transaction_spend_cents
            == data.transaction_spend_cents && total_spend_cents == data.total_spend_cents && limit_cents
            == data.limit_cents,
        Some(WalletServiceErrorType::TransactionBlocked) => e matches WalletServiceError::TransactionBlocked {
            title,
            detail,
            request_id,
            scanner_result,
        } && title@ == or_empty(data.title) && detail@ == or_empty(data.detail) && request_id@ == or_empty(
            data.request_id,
        ) && scanner_result == data.scanner_result,
    }
}

/// Parse a prepare error response into a typed wallet service error;
/// `None` when the response carries no recognized error type. Missing
/// title, detail and request ID become empty strings.
pub fn parse_wallet_service_error(data: &PrepareErrorResponse) -> (r: Option<WalletServiceError>)
    ensures
        match data.error_type {
            None => r is None,
            Some(_) => r matches Some(e) && is_wallet_service_error_of(*data, e),
        },
{
    let error_type = match data.error_type {
        Some(t) => t,
        None => return None,
    };
    let title = string_or_empty(&data.title);
    let detail = string_or_empty(&data.detail);
    let request_id = string_or_empty(&data.request_id);
    match error_type {
        WalletServiceErrorType::SpendingLimitExceeded => Some(
            WalletServiceError::SpendingLimitExceeded {
                title,
                detail,
                request_id,
                previous_spend_cents: data.previous_spend_cents,
                transaction_spend_cents: data.transaction_spend_cents,
                total_spend_cents: data.total_spend_cents,
                limit_cents: data.limit_cents,
            },
        ),
        WalletServiceErrorType::TransactionBlocked => Some(
            WalletServiceError::TransactionBlocked {
                title,
                detail,
                request_id,
                scanner_result: clone_json(&data.scanner_result),
            },
        ),
    }
}

} // verus!
