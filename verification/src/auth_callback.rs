//! Detection of auth callback URLs from their query parameters.
use vstd::prelude::*;
use vstd::hash_map::StringHashMap;
use crate::text::str_eq;
use crate::url::string_map_view;

verus! {

/// The parameters describe a failed authentication: `response_type` is
/// `failure` and a `session_id` is present.
pub open spec fn auth_failure_params(m: Map<Seq<char>, Seq<char>>) -> bool {
    m.get("response_type"@) == Some("failure"@) && m.contains_key("session_id"@)
}

/// The parameters describe an auth callback: a `session_id`, and a
/// `response_type` or a `wallet_id`.
pub open spec fn auth_callback_params(m: Map<Seq<char>, Seq<char>>) -> bool {
    m.contains_key("session_id"@) && (m.contains_key("response_type"@) || m.contains_key("wallet_id"@))
}

/// Check if URL params indicate an auth failure callback.
pub fn is_auth_failure_callback(params: &StringHashMap<String>) -> (r: bool)
    ensures
        r == auth_failure_params(string_map_view(params@)),
{
    let failure = match params.get("response_type") {
        Some(v) => str_eq(v.as_str(), "failure"),
        None => false,
    };
    failure && params.contains_key("session_id")
}

/// Check if URL params indicate an auth callback (success or failure).
pub fn is_auth_callback_url(params: &StringHashMap<String>) -> (r: bool)
    ensures
        r == auth_callback_params(string_map_view(params@)),
{
    params.contains_key("session_id") && (params.contains_key("response_type")
        || params.contains_key("wallet_id"))
}

} // verus!
