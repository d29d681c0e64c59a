//! Auto-confirm of the Phantom extension: the requests sent to it and how
//! network identifiers are exchanged with it as internal CAIP identifiers.
use vstd::prelude::*;
use crate::network_ids::NetworkId;
use crate::networks::{
    InternalNetworkCaip, NetworkError, internal_caip_to_network_id, law_internal_caip_roundtrip,
    network_config_table, network_id_to_internal_caip, network_of_internal_caip,
};

verus! {

/// JSON-RPC method that enables auto-confirm.
pub const RPC_AUTO_CONFIRM_ENABLE: &'static str = "phantom_auto_confirm_enable";

/// JSON-RPC method that disables auto-confirm.
pub const RPC_AUTO_CONFIRM_DISABLE: &'static str = "phantom_auto_confirm_disable";

/// JSON-RPC method that reads the auto-confirm state.
pub const RPC_AUTO_CONFIRM_STATUS: &'static str = "phantom_auto_confirm_status";

/// JSON-RPC method that lists the chains auto-confirm supports.
pub const RPC_AUTO_CONFIRM_SUPPORTED_CHAINS: &'static str = "phantom_auto_confirm_supported_chains";

/// Parameters of enabling auto-confirm: the chains, or all when absent.
#[derive(Debug, Clone, Default)]
pub struct AutoConfirmEnableParams {
    pub chains: Option<Vec<NetworkId>>,
}

/// The auto-confirm state.
#[derive(Debug, Clone)]
pub struct AutoConfirmResult {
    pub enabled: bool,
    pub chains: Vec<NetworkId>,
}

/// The chains auto-confirm supports.
#[derive(Debug, Clone)]
pub struct AutoConfirmSupportedChainsResult {
    pub chains: Vec<NetworkId>,
}

/// Enable parameters as the extension reads them.
#[derive(Debug, Clone, Default)]
pub struct InternalAutoConfirmEnableParams {
    pub chains: Option<Vec<InternalNetworkCaip>>,
}

/// The extension's answer with the auto-confirm state.
#[derive(Debug, Clone)]
pub struct AutoConfirmStateResponse {
    pub enabled: bool,
    pub chains: Vec<InternalNetworkCaip>,
}

/// The extension's answer with the supported chains.
#[derive(Debug, Clone)]
pub struct AutoConfirmSupportResponse {
    pub chains: Vec<InternalNetworkCaip>,
}

/// A request to the extension.
#[derive(Debug, Clone)]
pub enum AutoConfirmRequest {
    Enable(InternalAutoConfirmEnableParams),
    Disable,
    Status,
    SupportedChains,
}

impl AutoConfirmRequest {
    /// The JSON-RPC method of the request.
    pub fn method(&self) -> (r: &'static str)
        ensures
            r@ == match self {
                AutoConfirmRequest::Enable(_) => RPC_AUTO_CONFIRM_ENABLE@,
                AutoConfirmRequest::Disable => RPC_AUTO_CONFIRM_DISABLE@,
                AutoConfirmRequest::Status => RPC_AUTO_CONFIRM_STATUS@,
                AutoConfirmRequest::SupportedChains => RPC_AUTO_CONFIRM_SUPPORTED_CHAINS@,
            },
    {
        match self {
            AutoConfirmRequest::Enable(_) => RPC_AUTO_CONFIRM_ENABLE,
            AutoConfirmRequest::Disable => RPC_AUTO_CONFIRM_DISABLE,
            AutoConfirmRequest::Status => RPC_AUTO_CONFIRM_STATUS,
            AutoConfirmRequest::SupportedChains => RPC_AUTO_CONFIRM_SUPPORTED_CHAINS,
        }
    }
}

/// The internal CAIP identifier of a network (every network has one).
pub open spec fn caip_of(id: NetworkId) -> InternalNetworkCaip {
    network_config_table(id).internal_caip.unwrap()
}

/// The internal CAIP identifiers of networks, in order.
pub open spec fn caips_of(ids: Seq<NetworkId>) -> Seq<InternalNetworkCaip> {
    Seq::new(ids.len(), |i: int| caip_of(ids[i]))
}

/// The networks of internal CAIP identifiers, in order, when each one
/// names a network.
pub open spec fn networks_of(caips: Seq<InternalNetworkCaip>) -> Option<Seq<NetworkId>> {
    if forall|i: int| 0 <= i < caips.len() ==> network_of_internal_caip(#[trigger] caips[i]) is Some {
        Some(Seq::new(caips.len(), |i: int| network_of_internal_caip(caips[i]).unwrap()))
    } else {
        None
    }
}

/// Convert networks to the internal CAIP identifiers the extension reads;
/// every network has one, so this always succeeds.
pub fn network_ids_to_internal_caips(network_ids: &[NetworkId]) -> (r: Result<Vec<InternalNetworkCaip>, NetworkError>)
    ensures
        r matches Ok(v) && v@ == caips_of(network_ids@),
{
    let mut out: Vec<InternalNetworkCaip> = Vec::new();
    let mut i: usize = 0;
    while i < network_ids.len()
        invariant
            0 <= i <= network_ids@.len(),
            out@ == caips_of(network_ids@.take(i as int)),
        decreases network_ids@.len() - i,
    {
        proof {
            law_internal_caip_roundtrip(network_ids@[i as int]);
        }
        match network_id_to_internal_caip(network_ids[i]) {
            Ok(c) => {
                out.push(c);
            },
            Err(e) => {
                return Err(e);
            },
        }
        proof {
            assert(out@ =~= caips_of(network_ids@.take(i + 1)));
        }
        i = i + 1;
    }
    proof {
        assert(network_ids@.take(network_ids@.len() as int) =~= network_ids@);
    }
    Ok(out)
}

/// Convert internal CAIP identifiers from the extension back to networks;
/// the first identifier that names no network is the error.
pub fn internal_caips_to_network_ids(caips: &[InternalNetworkCaip]) -> (r: Result<Vec<NetworkId>, NetworkError>)
    ensures
        match networks_of(caips@) {
            Some(ids) => r matches Ok(v) && v@ == ids,
            None => r matches Err(NetworkError::NoNetworkIdMapping(c)) && exists|k: int|
                0 <= k < caips@.len() && caips@[k] == c && network_of_internal_caip(c) is None && forall|j: int|
                    0 <= j < k ==> network_of_internal_caip(#[trigger] caips@[j]) is Some,
        },
{
    let mut out: Vec<NetworkId> = Vec::new();
    let mut i: usize = 0;
    while i < caips.len()
        invariant
            0 <= i <= caips@.len(),
            out@.len() == i,
            forall|j: int| 0 <= j < i ==> network_of_internal_caip(#[trigger] caips@[j]) is Some,
            forall|j: int| 0 <= j < i ==> out@[j] == network_of_internal_caip(caips@[j]).unwrap(),
        decreases caips@.len() - i,
    {
        match internal_caip_to_network_id(caips[i]) {
            Ok(id) => {
                out.push(id);
            },
            Err(e) => {
                proof {
                    assert(network_of_internal_caip(caips@[i as int]) is None);
                    assert(networks_of(caips@) is None);
                }
                return Err(e);
            },
        }
        i = i + 1;
    }
    proof {
        assert(out@ =~= Seq::new(caips@.len(), |j: int| network_of_internal_caip(caips@[j]).unwrap()));
    }
    Ok(out)
}

/// Networks survive the exchange with the extension: converting them to
/// internal CAIP identifiers and back gives the same networks, in order.
pub proof fn law_auto_confirm_chains_roundtrip(ids: Seq<NetworkId>)
    ensures
        networks_of(caips_of(ids)) == Some(ids),
{
    let cs = caips_of(ids);
    assert forall|i: int| 0 <= i < cs.len() implies network_of_internal_caip(#[trigger] cs[i]) == Some(ids[i]) by {
        law_internal_caip_roundtrip(ids[i]);
    }
    assert(Seq::new(cs.len(), |i: int| network_of_internal_caip(cs[i]).unwrap()) =~= ids);
}

/// The request that enables auto-confirm for the given chains (all chains
/// when no parameters or no chains are given).
pub fn enable_request(params: Option<&AutoConfirmEnableParams>) -> (r: AutoConfirmRequest)
    ensures
        match r {
            AutoConfirmRequest::Enable(p) => match params {
                Some(AutoConfirmEnableParams { chains: Some(ids) }) => p.chains matches Some(cs) && cs@ == caips_of(
                    ids@,
                ),
                _ => p.chains is None,
            },
            _ => false,
        },
{
    let chains = match params {
        Some(p) => match &p.chains {
            Some(ids) => match network_ids_to_internal_caips(ids.as_slice()) {
                Ok(cs) => Some(cs),
                Err(_) => None,
            },
            None => None,
        },
        None => None,
    };
    AutoConfirmRequest::Enable(InternalAutoConfirmEnableParams { chains })
}

/// The auto-confirm state from the extension's answer.
pub fn state_result(response: AutoConfirmStateResponse) -> (r: Result<AutoConfirmResult, NetworkError>)
    ensures
        match networks_of(response.chains@) {
            Some(ids) => r matches Ok(x) && x.enabled == response.enabled && x.chains@ == ids,
            None => r matches Err(NetworkError::NoNetworkIdMapping(_)),
        },
{
    let chains = internal_caips_to_network_ids(response.chains.as_slice())?;
    Ok(AutoConfirmResult { enabled: response.enabled, chains })
}

/// The supported chains from the extension's answer.
pub fn supported_result(response: AutoConfirmSupportResponse) -> (r: Result<
    AutoConfirmSupportedChainsResult,
    NetworkError,
>)
    ensures
        match networks_of(response.chains@) {
            Some(ids) => r matches Ok(x) && x.chains@ == ids,
            None => r matches Err(NetworkError::NoNetworkIdMapping(_)),
        },
{
    let chains = internal_caips_to_network_ids(response.chains.as_slice())?;
    Ok(AutoConfirmSupportedChainsResult { chains })
}

} // verus!
