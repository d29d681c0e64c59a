//! The SDK's providers as the provider manager sees them: the injected
//! provider's wallet selection and per-wallet state, and what the embedded
//! provider decides around its core's asynchronous calls.
use vstd::prelude::*;
use crate::browser_sdk::{AuthOptions, AuthProviderType, ConnectResult, ConnectStatus, auth_type_name};
use crate::client_constants::AddressFormat;
use crate::client_types::WalletAddress;
use crate::embedded_auth::EmbeddedProviderAuthType;
use crate::text::{chars_of, push_str, str_eq, string_from_chars};
use crate::wallets::{InjectedWalletRegistry, has_wallet};

verus! {

/// Configuration of the injected provider.
#[derive(Debug, Clone)]
pub struct InjectedProviderConfig {
    pub address_types: Vec<AddressFormat>,
}

/// What the injected provider knows of one wallet.
#[derive(Debug, Clone)]
pub struct WalletState {
    pub connected: bool,
    pub addresses: Vec<WalletAddress>,
}

/// Abstract state of the injected provider.
pub struct InjectedProviderState {
    pub address_types: Seq<AddressFormat>,
    pub selected_wallet_id: Option<Seq<char>>,
    /// `(wallet id, connected, number of addresses)`, at most one per id.
    pub wallet_states: Seq<(Seq<char>, bool, nat)>,
}

/// The provider of injected (extension) wallets.
pub struct InjectedProvider {
    address_types: Vec<AddressFormat>,
    selected_wallet_id: Option<String>,
    wallet_states: Vec<(String, WalletState)>,
}

impl View for InjectedProvider {
    type V = InjectedProviderState;

    closed spec fn view(&self) -> InjectedProviderState {
        InjectedProviderState {
            address_types: self.address_types@,
            selected_wallet_id: match self.selected_wallet_id {
                Some(s) => Some(s@),
                None => None,
            },
            wallet_states: Seq::new(
                self.wallet_states@.len(),
                |i: int|
                    (
                        self.wallet_states@[i].0@,
                        self.wallet_states@[i].1.connected,
                        self.wallet_states@[i].1.addresses@.len(),
                    ),
            ),
        }
    }
}

/// The wallet a connection or disconnection is about: the given one, else
/// Phantom.
pub open spec fn wallet_or_phantom(id: Option<Seq<char>>) -> Seq<char> {
    match id {
        Some(w) => w,
        None => "phantom"@,
    }
}

fn state_position(states: &Vec<(String, WalletState)>, id: &str) -> (r: Option<usize>)
    ensures
        match r {
            Some(i) => i < states@.len() && states@[i as int].0@ == id@,
            None => forall|j: int| 0 <= j < states@.len() ==> states@[j].0@ != id@,
        },
{
    let mut i: usize = 0;
    while i < states.len()
        invariant
            0 <= i <= states@.len(),
            forall|j: int| 0 <= j < i ==> states@[j].0@ != id@,
        decreases states@.len() - i,
    {
        if str_eq(states[i].0.as_str(), id) {
            return Some(i);
        }
        i = i + 1;
    }
    None
}

impl InjectedProvider {
    /// A provider for these address types, with no wallet selected.
    pub fn new(config: InjectedProviderConfig) -> (r: Self)
        ensures
            r@.address_types == config.address_types@,
            r@.selected_wallet_id is None,
            r@.wallet_states.len() == 0,
    {
        let r = InjectedProvider { address_types: config.address_types, selected_wallet_id: None, wallet_states: Vec::new() };
        proof {
            assert(r@.wallet_states =~= Seq::<(Seq<char>, bool, nat)>::empty());
        }
        r
    }

    /// Select the wallet of a connection: only the injected provider type
    /// is accepted, and the wallet (Phantom unless one is named) must be
    /// known to the registry. The result carries the wallet, no addresses
    /// yet, and the completed status.
    pub fn connect<W>(&mut self, auth_options: &AuthOptions, registry: &InjectedWalletRegistry<W>) -> (r: Result<
        ConnectResult,
        String,
    >)
        requires
            registry.wf(),
        ensures
            final(self)@.address_types == old(self)@.address_types,
            final(self)@.wallet_states == old(self)@.wallet_states,
            ({
                let id = wallet_or_phantom(
                    match auth_options.wallet_id {
                        Some(w) => Some(w@),
                        None => None,
                    },
                );
                if auth_options.provider != AuthProviderType::Injected {
                    r matches Err(m) && m@ == "Invalid provider for injected connection: "@ + auth_type_name(
                        auth_options.provider,
                    ) + ". Must be Injected"@ && final(self)@.selected_wallet_id == old(self)@.selected_wallet_id
                } else if !has_wallet(registry.wallets(), id) {
                    r matches Err(m) && m@ == "Unknown injected wallet id: "@ + id && final(self)@.selected_wallet_id
                        == old(self)@.selected_wallet_id
                } else {
                    r matches Ok(c) && c.addresses@.len() == 0 && (c.wallet_id matches Some(w) && w@ == id)
                        && c.auth_user_id is None && c.auth_provider == Some(AuthProviderType::Injected)
                        && c.status == Some(ConnectStatus::Completed) && c.wallet is None
                        && final(self)@.selected_wallet_id == Some(id)
                }
            }),
    {
        if auth_options.provider != AuthProviderType::Injected {
            let mut m = chars_of("Invalid provider for injected connection: ");
            push_str(&mut m, auth_options.provider.debug_name());
            push_str(&mut m, ". Must be Injected");
            return Err(string_from_chars(m.as_slice()));
        }
        let requested = match &auth_options.wallet_id {
            Some(w) => w.clone(),
            None => String::from_str("phantom"),
        };
        if !registry.has(requested.as_str()) {
            let mut m = chars_of("Unknown injected wallet id: ");
            push_str(&mut m, requested.as_str());
            return Err(string_from_chars(m.as_slice()));
        }
        self.selected_wallet_id = Some(requested.clone());
        Ok(
            ConnectResult {
                addresses: Vec::new(),
                wallet_id: Some(requested),
                auth_user_id: None,
                auth_provider: Some(AuthProviderType::Injected),
                status: Some(ConnectStatus::Completed),
                wallet: None,
            },
        )
    }

    /// Disconnect: the selected wallet (Phantom when none is selected) is
    /// recorded as disconnected, with no addresses.
    pub fn disconnect(&mut self)
        ensures
            final(self)@.address_types == old(self)@.address_types,
            final(self)@.selected_wallet_id == old(self)@.selected_wallet_id,
            ({
                let id = wallet_or_phantom(old(self)@.selected_wallet_id);
                &&& exists|i: int|
                    0 <= i < final(self)@.wallet_states.len() && final(self)@.wallet_states[i] == (id, false, 0nat)
                &&& forall|i: int|
                    0 <= i < old(self)@.wallet_states.len() && old(self)@.wallet_states[i].0 != id ==> final(self)@.wallet_states.contains(old(self)@.wallet_states[i])
                &&& forall|i: int|
                    0 <= i < final(self)@.wallet_states.len() ==> final(self)@.wallet_states[i].0 == id
                        || old(self)@.wallet_states.contains(final(self)@.wallet_states[i])
            }),
    {
        let id = match &self.selected_wallet_id {
            Some(w) => w.clone(),
            None => String::from_str("phantom"),
        };
        let ghost before = self@.wallet_states;
        let found = state_position(&self.wallet_states, id.as_str());
        let state = WalletState { connected: false, addresses: Vec::new() };
        if let Some(i) = found {
            self.wallet_states.set(i, (id, state));
            proof {
                let after = self@.wallet_states;
                assert(after[i as int] == (wallet_or_phantom(self@.selected_wallet_id), false, 0nat));
                assert forall|k: int| 0 <= k < before.len() && before[k].0 != wallet_or_phantom(
                    self@.selected_wallet_id,
                ) implies after.contains(before[k]) by {
                    assert(after[k] == before[k]);
                }
                assert forall|k: int| 0 <= k < after.len() implies after[k].0 == wallet_or_phantom(
                    self@.selected_wallet_id,
                ) || before.contains(after[k]) by {
                    if k != i {
                        assert(after[k] == before[k]);
                    }
                }
            }
        } else {
            self.wallet_states.push((id, state));
            proof {
                let after = self@.wallet_states;
                let n = before.len() as int;
                assert(after[n] == (wallet_or_phantom(self@.selected_wallet_id), false, 0nat));
                assert forall|k: int| 0 <= k < before.len() && before[k].0 != wallet_or_phantom(
                    self@.selected_wallet_id,
                ) implies after.contains(before[k]) by {
                    assert(after[k] == before[k]);
                }
                assert forall|k: int| 0 <= k < after.len() implies after[k].0 == wallet_or_phantom(
                    self@.selected_wallet_id,
                ) || before.contains(after[k]) by {
                    if k < n {
                        assert(after[k] == before[k]);
                    }
                }
            }
        }
    }

    /// The addresses the provider reports: none (the wallets' chains hold them).
    pub fn get_addresses(&self) -> (r: Vec<WalletAddress>)
        ensures
            r@.len() == 0,
    {
        Vec::new()
    }

    /// Whether the provider reports a connection: never (the wallets' chains do).
    pub fn is_connected(&self) -> (r: bool)
        ensures
            !r,
    {
        false
    }

    /// The address types the provider was configured with.
    pub fn get_enabled_address_types(&self) -> (r: Vec<AddressFormat>)
        ensures
            r@ == self@.address_types,
    {
        let r = self.address_types.clone();
        proof {
            assert(r@ =~= self@.address_types);
        }
        r
    }
}

/// The embedded wallet's authentication type for an SDK provider type; the
/// injected provider and the deeplink have none.
pub fn embedded_auth_type(provider: AuthProviderType) -> (r: Result<EmbeddedProviderAuthType, String>)
    ensures
        match provider {
            AuthProviderType::Google => r == Ok::<EmbeddedProviderAuthType, String>(EmbeddedProviderAuthType::Google),
            AuthProviderType::Apple => r == Ok::<EmbeddedProviderAuthType, String>(EmbeddedProviderAuthType::Apple),
            AuthProviderType::Phantom => r == Ok::<EmbeddedProviderAuthType, String>(EmbeddedProviderAuthType::Phantom),
            AuthProviderType::Device => r == Ok::<EmbeddedProviderAuthType, String>(EmbeddedProviderAuthType::Device),
            _ => r matches Err(m) && m@ == "Invalid auth provider for embedded wallet"@,
        },
{
    match provider {
        AuthProviderType::Google => Ok(EmbeddedProviderAuthType::Google),
        AuthProviderType::Apple => Ok(EmbeddedProviderAuthType::Apple),
        AuthProviderType::Phantom => Ok(EmbeddedProviderAuthType::Phantom),
        AuthProviderType::Device => Ok(EmbeddedProviderAuthType::Device),
        _ => Err(String::from_str("Invalid auth provider for embedded wallet")),
    }
}

/// The chains an embedded provider offers: Solana and Ethereum, each when
/// its address type is enabled.
#[derive(Debug, Clone, Copy, PartialEq, Eq, Structural)]
pub struct EmbeddedChains {
    pub solana: bool,
    pub ethereum: bool,
}

/// The chains of an embedded provider with these address types.
pub fn embedded_chains(address_types: &[AddressFormat]) -> (r: EmbeddedChains)
    ensures
        r.solana == address_types@.contains(AddressFormat::Solana),
        r.ethereum == address_types@.contains(AddressFormat::Ethereum),
{
    let mut solana = false;
    let mut ethereum = false;
    let mut i: usize = 0;
    while i < address_types.len()
        invariant
            0 <= i <= address_types@.len(),
            solana == exists|j: int| 0 <= j < i && address_types@[j] == AddressFormat::Solana,
            ethereum == exists|j: int| 0 <= j < i && address_types@[j] == AddressFormat::Ethereum,
        decreases address_types@.len() - i,
    {
        if address_types[i] == AddressFormat::Solana {
            solana = true;
        }
        if address_types[i] == AddressFormat::Ethereum {
            ethereum = true;
        }
        i = i + 1;
    }
    EmbeddedChains { solana, ethereum }
}

impl EmbeddedChains {
    /// Access to the Solana chain, or the error when it is not enabled.
    pub fn solana_access(&self) -> (r: Result<(), String>)
        ensures
            if self.solana {
                r is Ok
            } else {
                r matches Err(m) && m@ == "Solana not enabled for this embedded provider"@
            },
    {
        if self.solana {
            Ok(())
        } else {
            Err(String::from_str("Solana not enabled for this embedded provider"))
        }
    }

    /// Access to the Ethereum chain, or the error when it is not enabled.
    pub fn ethereum_access(&self) -> (r: Result<(), String>)
        ensures
            if self.ethereum {
                r is Ok
            } else {
                r matches Err(m) && m@ == "Ethereum not enabled for this embedded provider"@
            },
    {
        if self.ethereum {
            Ok(())
        } else {
            Err(String::from_str("Ethereum not enabled for this embedded provider"))
        }
    }
}

/// The SDK's connect result of an embedded connection: the core's
/// addresses, wallet, user and status, and the provider type used.
pub fn embedded_connect_result(
    addresses: Vec<WalletAddress>,
    wallet_id: Option<String>,
    auth_user_id: Option<String>,
    status: Option<ConnectStatus>,
    provider: AuthProviderType,
) -> (r: ConnectResult)
    ensures
        r.addresses@ == addresses@,
        r.wallet_id == wallet_id,
        r.auth_user_id == auth_user_id,
        r.status == status,
        r.auth_provider == Some(provider),
        r.wallet is None,
{
    ConnectResult { addresses, wallet_id, auth_user_id, auth_provider: Some(provider), status, wallet: None }
}

} // verus!
