//! Injected provider strategies: how the wallet's provider is looked for,
//! and what the strategies and the chain operations decide around the
//! calls into it.
//!
//! The provider itself is reached through asynchronous calls made by the
//! caller; a strategy holds the provider handle it found, of any type `P`,
//! and its methods take what the provider answered.
use vstd::prelude::*;
use vstd::arithmetic::power2::{lemma2_to64, pow2};
use crate::ethereum_types::EthereumSignInData;
use crate::injected_sdk::ProviderStrategy;
use crate::siwe::{create_siwe_message, is_rfc3339_utc, siwe_text, siwe_validation_error};

verus! {

/// How many times the provider is looked for.
pub const MAX_RETRIES: u32 = 4;

/// The delay before the first look, in milliseconds.
pub const BASE_DELAY_MS: u64 = 100;

/// The delay in milliseconds before look number `retry` (from 0): it
/// doubles from `BASE_DELAY_MS`, the exponent capped at 5.
pub open spec fn load_delay(retry: nat) -> nat {
    100 * pow2(if retry < 5 {
        retry
    } else {
        5
    })
}

/// The delay in milliseconds before look number `retry` (from 0).
pub fn load_delay_ms(retry: u32) -> (r: u64)
    ensures
        r == load_delay(retry as nat),
{
    proof {
        lemma2_to64();
    }
    if retry == 0 {
        BASE_DELAY_MS
    } else if retry == 1 {
        BASE_DELAY_MS * 2
    } else if retry == 2 {
        BASE_DELAY_MS * 4
    } else if retry == 3 {
        BASE_DELAY_MS * 8
    } else if retry == 4 {
        BASE_DELAY_MS * 16
    } else {
        BASE_DELAY_MS * 32
    }
}

/// The delays before each of the `MAX_RETRIES` looks for the provider, in
/// order; loading fails with "Provider not found." when none finds it.
pub fn load_delays() -> (r: Vec<u64>)
    ensures
        r@.len() == MAX_RETRIES,
        forall|i: int| 0 <= i < r@.len() ==> r@[i] == load_delay(i as nat),
{
    let mut v: Vec<u64> = Vec::new();
    let mut retry: u32 = 0;
    while retry < MAX_RETRIES
        invariant
            retry <= MAX_RETRIES,
            v@.len() == retry,
            forall|i: int| 0 <= i < v@.len() ==> v@[i] == load_delay(i as nat),
        decreases MAX_RETRIES - retry,
    {
        v.push(load_delay_ms(retry));
        retry = retry + 1;
    }
    v
}

/// The message of a strategy that has no provider.
pub open spec fn provider_not_found() -> Seq<char> {
    "Provider not found."@
}

/// The message of a call that needs a connected provider.
pub open spec fn provider_not_connected() -> Seq<char> {
    "Provider is not connected."@
}

/// An injected strategy: the provider handle found by loading, if any.
pub struct InjectedStrategy<P> {
    provider: Option<P>,
}

/// The Solana strategy over an injected provider.
pub type InjectedSolanaStrategy<P> = InjectedStrategy<P>;

/// The Ethereum strategy over an injected provider.
pub type InjectedEthereumStrategy<P> = InjectedStrategy<P>;

impl<P> View for InjectedStrategy<P> {
    type V = Option<P>;

    closed spec fn view(&self) -> Option<P> {
        self.provider
    }
}

/// What a Solana `connect` through the strategy does next.
#[derive(Debug, Clone, Copy, PartialEq, Eq, Structural)]
pub enum StrategyConnect {
    /// The provider is connected with a public key: return its account.
    ReturnAccount,
    /// Ask the provider to connect; an error there gives no account.
    CallConnect,
}

impl<P> InjectedStrategy<P> {
    /// A strategy that has not found its provider yet.
    pub fn new() -> (r: Self)
        ensures
            r@ is None,
    {
        InjectedStrategy { provider: None }
    }

    /// Keep the provider that loading found.
    pub fn set_provider(&mut self, provider: P)
        ensures
            final(self)@ == Some(provider),
    {
        self.provider = Some(provider);
    }

    /// The kind of the strategy.
    pub fn strategy_type(&self) -> (r: ProviderStrategy)
        ensures
            r == ProviderStrategy::Injected,
    {
        ProviderStrategy::Injected
    }

    /// The provider, when one was found.
    pub fn get_provider(&self) -> (r: Option<&P>)
        ensures
            match self@ {
                Some(p) => r == Some(&p),
                None => r is None,
            },
    {
        match &self.provider {
            Some(p) => Some(p),
            None => None,
        }
    }

    /// The provider, or the "Provider not found." error.
    pub fn require_provider(&self) -> (r: Result<&P, String>)
        ensures
            match self@ {
                Some(p) => r == Ok::<&P, String>(&p),
                None => r matches Err(e) && e@ == provider_not_found(),
            },
    {
        match &self.provider {
            Some(p) => Ok(p),
            None => Err(String::from_str("Provider not found.")),
        }
    }

    /// The provider of a call that needs it connected: "Provider not found."
    /// without one, "Provider is not connected." when it says it is not.
    pub fn require_connected(&self, provider_connected: bool) -> (r: Result<&P, String>)
        ensures
            match self@ {
                Some(p) => if provider_connected {
                    r == Ok::<&P, String>(&p)
                } else {
                    r matches Err(e) && e@ == provider_not_connected()
                },
                None => r matches Err(e) && e@ == provider_not_found(),
            },
    {
        let p = self.require_provider()?;
        if !provider_connected {
            return Err(String::from_str("Provider is not connected."));
        }
        Ok(p)
    }

    /// Connected: there is a provider, it says it is connected, and it has
    /// an account (a Solana public key, or an Ethereum selected address).
    pub fn is_connected(&self, provider_connected: bool, provider_has_account: bool) -> (r: bool)
        ensures
            r == (self@ is Some && provider_connected && provider_has_account),
    {
        self.provider.is_some() && provider_connected && provider_has_account
    }

    /// The account of a Solana provider: its public key while it is
    /// connected, none otherwise or without a provider.
    pub fn account(&self, provider_connected: bool, public_key: Option<String>) -> (r: Option<String>)
        ensures
            r == if self@ is Some && provider_connected {
                public_key
            } else {
                None
            },
    {
        if self.provider.is_some() && provider_connected {
            public_key
        } else {
            None
        }
    }

    /// The start of a Solana `connect`: without a provider the error;
    /// with a connected provider that has a public key, its account;
    /// otherwise a call to the provider's `connect`.
    pub fn begin_connect(&self, provider_connected: bool, provider_has_account: bool) -> (r: Result<
        StrategyConnect,
        String,
    >)
        ensures
            match self@ {
                None => r matches Err(e) && e@ == provider_not_found(),
                Some(_) => r == if provider_connected && provider_has_account {
                    Ok::<StrategyConnect, String>(StrategyConnect::ReturnAccount)
                } else {
                    Ok::<StrategyConnect, String>(StrategyConnect::CallConnect)
                },
            },
    {
        let _p = self.require_provider()?;
        if provider_connected && provider_has_account {
            Ok(StrategyConnect::ReturnAccount)
        } else {
            Ok(StrategyConnect::CallConnect)
        }
    }

    /// The first steps of an Ethereum sign-in: the provider must be there,
    /// the Sign In With Ethereum message must be valid, and the provider
    /// must have a selected address. The message and the address are then
    /// signed as a personal message.
    pub fn begin_ethereum_sign_in(&self, data: &EthereumSignInData, selected_address: Option<String>) -> (r:
        Result<(String, String), String>)
        ensures
            if self@ is None {
                r matches Err(e) && e@ == provider_not_found()
            } else {
                match siwe_validation_error(*data) {
                    Some(e) => r matches Err(m) && m@ == e,
                    None => match selected_address {
                        None => r matches Err(m) && m@ == "No address available."@,
                        Some(a) => r matches Ok(p) && p.1 == a && match data.issued_at {
                            Some(t) => p.0@ == siwe_text(*data, t@),
                            None => exists|t: Seq<char>| is_rfc3339_utc(t) && p.0@ == siwe_text(*data, t),
                        },
                    },
                }
            },
    {
        let _p = self.require_provider()?;
        let message = create_siwe_message(data)?;
        match selected_address {
            Some(a) => Ok((message, a)),
            None => Err(String::from_str("No address available.")),
        }
    }
}

/// The strategy that Solana operations go through: the given one, already
/// loaded by the caller.
pub fn get_provider<S>(strategy: S) -> (r: S)
    ensures
        r == strategy,
{
    strategy
}

/// The account a Solana provider's `connect` gave: its public key, or none
/// when it failed.
pub fn connect_outcome<E>(outcome: Result<String, E>) -> (r: Option<String>)
    ensures
        match outcome {
            Ok(k) => r == Some(k),
            Err(_) => r is None,
        },
{
    match outcome {
        Ok(k) => Some(k),
        Err(_) => None,
    }
}

/// The JSON-RPC method of an Ethereum `connect`: `eth_accounts` when only
/// an already trusted connection is wanted, else `eth_requestAccounts`.
pub fn ethereum_connect_method(only_if_trusted: bool) -> (r: &'static str)
    ensures
        r@ == if only_if_trusted {
            "eth_accounts"@
        } else {
            "eth_requestAccounts"@
        },
{
    if only_if_trusted {
        "eth_accounts"
    } else {
        "eth_requestAccounts"
    }
}

/// The ways an Ethereum strategy signs a text message.
#[derive(Debug, Clone, Copy, PartialEq, Eq, Structural)]
pub enum EthMessageSigning {
    /// `eth_sign`, with the address first.
    EthSign,
    /// `personal_sign`, with the message first.
    PersonalSign,
}

/// The JSON-RPC method and parameters of a message signature.
pub fn message_sign_request(kind: EthMessageSigning, message: &str, address: &str) -> (r: (
    &'static str,
    Vec<String>,
))
    ensures
        match kind {
            EthMessageSigning::EthSign => r.0@ == "eth_sign"@ && r.1@.len() == 2 && r.1@[0]@
                == address@ && r.1@[1]@ == message@,
            EthMessageSigning::PersonalSign => r.0@ == "personal_sign"@ && r.1@.len() == 2
                && r.1@[0]@ == message@ && r.1@[1]@ == address@,
        },
{
    match kind {
        EthMessageSigning::EthSign => (
            "eth_sign",
            vec![String::from_str(address), String::from_str(message)],
        ),
        EthMessageSigning::PersonalSign => (
            "personal_sign",
            vec![String::from_str(message), String::from_str(address)],
        ),
    }
}

/// What the Ethereum connect operation asks for next.
#[derive(Debug)]
pub enum EthConnectAction {
    /// The strategy is connected: return its accounts.
    ReturnAccounts,
    /// Ask the strategy to connect, silently when `only_if_trusted`.
    Connect { only_if_trusted: bool },
    /// Connected with these accounts; the `connect` listeners are called
    /// with them.
    Connected(Vec<String>),
    /// The flow failed with this message.
    Failed(String),
}

/// The stage of the Ethereum connect operation.
#[derive(Debug, Clone, Copy, PartialEq, Eq, Structural)]
pub enum EthConnectStage {
    /// Waiting for the silent (trusted-only) connect.
    Trusted,
    /// Waiting for the prompting connect.
    Prompt,
    /// Finished.
    Done,
}

/// The Ethereum connect operation: the accounts of a connected strategy,
/// else a silent connect, else a prompting one; a connect counts only when
/// it gives a non-empty list of accounts.
pub struct EthereumConnectFlow {
    stage: EthConnectStage,
}

impl View for EthereumConnectFlow {
    type V = EthConnectStage;

    closed spec fn view(&self) -> EthConnectStage {
        self.stage
    }
}

impl EthereumConnectFlow {
    /// Start the flow for a strategy that is or is not connected.
    pub fn start(strategy_connected: bool) -> (r: (Self, EthConnectAction))
        ensures
            strategy_connected ==> r.0@ == EthConnectStage::Done && r.1 is ReturnAccounts,
            !strategy_connected ==> r.0@ == EthConnectStage::Trusted && r.1 == (EthConnectAction::Connect {
                only_if_trusted: true,
            }),
    {
        if strategy_connected {
            (EthereumConnectFlow { stage: EthConnectStage::Done }, EthConnectAction::ReturnAccounts)
        } else {
            (
                EthereumConnectFlow { stage: EthConnectStage::Trusted },
                EthConnectAction::Connect { only_if_trusted: true },
            )
        }
    }

    /// The answer to the last connect: the accounts it gave, if any (an
    /// error counts as none).
    pub fn step(&mut self, accounts: Option<Vec<String>>) -> (r: EthConnectAction)
        requires
            old(self)@ != EthConnectStage::Done,
        ensures
            match accounts {
                Some(a) if a@.len() > 0 => final(self)@ == EthConnectStage::Done && r == EthConnectAction::Connected(a),
                _ => if old(self)@ == EthConnectStage::Trusted {
                    final(self)@ == EthConnectStage::Prompt && r == (EthConnectAction::Connect {
                        only_if_trusted: false,
                    })
                } else {
                    final(self)@ == EthConnectStage::Done && (r matches EthConnectAction::Failed(e) && e@
                        == "Failed to connect to Phantom."@)
                },
            },
    {
        if let Some(a) = accounts {
            if a.len() > 0 {
                self.stage = EthConnectStage::Done;
                return EthConnectAction::Connected(a);
            }
        }
        if self.stage == EthConnectStage::Trusted {
            self.stage = EthConnectStage::Prompt;
            EthConnectAction::Connect { only_if_trusted: false }
        } else {
            self.stage = EthConnectStage::Done;
            EthConnectAction::Failed(String::from_str("Failed to connect to Phantom."))
        }
    }
}

} // verus!
