//! A Solana chain over a Wallet Standard wallet: the accounts it signs
//! with, the checks on what the wallet's features return, the connection
//! state that the wallet's change events keep up to date, and the adapter's
//! own listeners.
//!
//! The wallet's features are asynchronous calls made by the caller; the
//! adapter's methods take whether a feature is offered and what it
//! returned.
use vstd::prelude::*;
use crate::chain_types::{SolanaConnectResult, SolanaSendTransactionResult, SolanaSignMessageResult};
use crate::crypto::{base58_encode, base58_encoded};
use crate::injected_chains::{EventListenerRegistry, RegistryView, listeners_for, without_listener};

verus! {

/// An account of a Wallet Standard wallet.
#[derive(Debug, Clone)]
pub struct WalletStandardAccount {
    pub address: String,
    pub public_key: Vec<u8>,
    pub chains: Vec<String>,
    pub features: Vec<String>,
}

/// The properties of a Wallet Standard `change` event.
#[derive(Debug, Clone, Default)]
pub struct StandardEventsChangeProperties {
    pub chains: Option<Vec<String>>,
    pub features: Option<Vec<String>>,
    pub accounts: Option<Vec<WalletStandardAccount>>,
}

/// The features of a Wallet Standard wallet that the adapter calls.
#[derive(Debug, Clone, Copy, PartialEq, Eq, Structural)]
pub enum StandardFeature {
    Connect,
    SignMessage,
    SignTransaction,
    SignAndSendTransaction,
}

/// The error of a call whose feature the wallet does not offer.
pub open spec fn feature_missing_message(f: StandardFeature) -> Seq<char> {
    match f {
        StandardFeature::Connect => "Wallet Standard connect feature not available"@,
        StandardFeature::SignMessage => "Wallet Standard signMessage feature not available"@,
        StandardFeature::SignTransaction => "Wallet Standard signTransaction feature not available"@,
        StandardFeature::SignAndSendTransaction => "Wallet Standard signAndSendTransaction feature not available"@,
    }
}

/// Nothing to do when the wallet offers the feature; else its error.
pub fn require_feature(feature: StandardFeature, offered: bool) -> (r: Result<(), String>)
    ensures
        if offered {
            r is Ok
        } else {
            r matches Err(m) && m@ == feature_missing_message(feature)
        },
{
    if offered {
        return Ok(());
    }
    let m = match feature {
        StandardFeature::Connect => "Wallet Standard connect feature not available",
        StandardFeature::SignMessage => "Wallet Standard signMessage feature not available",
        StandardFeature::SignTransaction => "Wallet Standard signTransaction feature not available",
        StandardFeature::SignAndSendTransaction => "Wallet Standard signAndSendTransaction feature not available",
    };
    Err(String::from_str(m))
}

/// The error of a signing call on a wallet without accounts.
pub open spec fn no_accounts_message() -> Seq<char> {
    "No accounts available. Please connect first."@
}

/// Abstract view of a Wallet Standard account.
pub struct AccountView {
    pub address: Seq<char>,
    pub public_key: Seq<u8>,
    pub chains: Seq<Seq<char>>,
    pub features: Seq<Seq<char>>,
}

/// The view of an account.
pub open spec fn account_view(a: WalletStandardAccount) -> AccountView {
    AccountView {
        address: a.address@,
        public_key: a.public_key@,
        chains: a.chains.deep_view(),
        features: a.features.deep_view(),
    }
}

/// The views of a list of accounts.
pub open spec fn accounts_view(a: Seq<WalletStandardAccount>) -> Seq<AccountView> {
    Seq::new(a.len(), |i: int| account_view(a[i]))
}

/// Abstract state of an adapter.
pub struct AdapterState {
    /// The wallet's accounts, in order.
    pub accounts: Seq<AccountView>,
    pub wallet_id: Seq<char>,
    pub wallet_name: Seq<char>,
    /// The address of the connected account.
    pub public_key: Option<Seq<char>>,
    pub events: RegistryView,
}

/// A Solana chain over a Wallet Standard wallet.
pub struct WalletStandardSolanaAdapter {
    accounts: Vec<WalletStandardAccount>,
    wallet_id: String,
    wallet_name: String,
    public_key: Option<String>,
    events: EventListenerRegistry,
}

impl View for WalletStandardSolanaAdapter {
    type V = AdapterState;

    closed spec fn view(&self) -> AdapterState {
        AdapterState {
            accounts: accounts_view(self.accounts@),
            wallet_id: self.wallet_id@,
            wallet_name: self.wallet_name@,
            public_key: match self.public_key {
                Some(k) => Some(k@),
                None => None,
            },
            events: self.events@,
        }
    }
}

/// The event name and payload (an address, or null) that the adapter's
/// listeners receive.
pub type AdapterEvent = (String, Option<String>);

/// The events a change of the wallet's accounts produces, as name and
/// payload: nothing when the change carries no accounts; for a first
/// account with an address, `accountChanged` then `connect` with it; for a
/// first account without one, `accountChanged` with null; for an empty
/// list, `accountChanged` then `disconnect`, both with null.
pub open spec fn change_events(accounts: Option<Seq<Seq<char>>>) -> Seq<(Seq<char>, Option<Seq<char>>)> {
    match accounts {
        None => seq![],
        Some(a) => if a.len() > 0 {
            if a[0].len() > 0 {
                seq![("accountChanged"@, Some(a[0])), ("connect"@, Some(a[0]))]
            } else {
                seq![("accountChanged"@, None)]
            }
        } else {
            seq![("accountChanged"@, None), ("disconnect"@, None)]
        },
    }
}

/// The public key after a change of the wallet's accounts.
pub open spec fn key_after_change(accounts: Option<Seq<Seq<char>>>, before: Option<Seq<char>>) -> Option<
    Seq<char>,
> {
    match accounts {
        None => before,
        Some(a) => if a.len() > 0 && a[0].len() > 0 {
            Some(a[0])
        } else {
            None
        },
    }
}

/// The addresses of a list of accounts.
pub open spec fn addresses_of(a: Seq<WalletStandardAccount>) -> Seq<Seq<char>> {
    Seq::new(a.len(), |i: int| a[i].address@)
}

/// The events with their names and payloads seen through their views.
pub open spec fn events_view(e: Seq<AdapterEvent>) -> Seq<(Seq<char>, Option<Seq<char>>)> {
    Seq::new(
        e.len(),
        |i: int|
            (e[i].0@, match e[i].1 {
                Some(x) => Some(x@),
                None => None,
            }),
    )
}

impl WalletStandardSolanaAdapter {
    /// An adapter over a wallet with these accounts; not connected.
    pub fn new(accounts: Vec<WalletStandardAccount>, wallet_id: String, wallet_name: String) -> (r: Self)
        ensures
            r@.accounts == accounts_view(accounts@),
            r@.wallet_id == wallet_id@,
            r@.wallet_name == wallet_name@,
            r@.public_key is None,
            r@.events.entries.len() == 0,
            r@.events.next_id == 1,
    {
        let r = WalletStandardSolanaAdapter {
            accounts,
            wallet_id,
            wallet_name,
            public_key: None,
            events: EventListenerRegistry::new(),
        };
        proof {
            assert(r@.accounts =~= accounts_view(accounts@));
        }
        r
    }

    /// Connected when an account address is known.
    pub fn is_connected(&self) -> (r: bool)
        ensures
            r == self@.public_key is Some,
    {
        self.public_key.is_some()
    }

    /// The connected account's address.
    pub fn get_account(&self) -> (r: Option<String>)
        ensures
            match r {
                Some(k) => self@.public_key == Some(k@),
                None => self@.public_key is None,
            },
    {
        match &self.public_key {
            Some(k) => Some(k.clone()),
            None => None,
        }
    }

    /// The synchronous public key accessor, which this adapter leaves
    /// unanswered: always none (use `get_account`).
    pub fn public_key(&self) -> (r: Option<&str>)
        ensures
            r is None,
    {
        None
    }

    /// After the wallet's `connect` returned `accounts`: the first of them,
    /// else the wallet's first account, must have an address, which
    /// becomes the public key.
    pub fn complete_connect(&mut self, accounts: &[WalletStandardAccount]) -> (r: Result<SolanaConnectResult, String>)
        ensures
            final(self)@.accounts == old(self)@.accounts,
            final(self)@.events == old(self)@.events,
            final(self)@.wallet_id == old(self)@.wallet_id,
            final(self)@.wallet_name == old(self)@.wallet_name,
            ({
                let first: Option<Seq<char>> = if accounts@.len() > 0 {
                    Some(accounts@[0].address@)
                } else if old(self)@.accounts.len() > 0 {
                    Some(old(self)@.accounts[0].address)
                } else {
                    None
                };
                match first {
                    None => r matches Err(m) && m@ == "No accounts available after connecting to wallet"@
                        && final(self)@.public_key == old(self)@.public_key,
                    Some(a) => if a.len() == 0 {
                        r matches Err(m) && m@ == "Could not extract address from account"@ && final(self)@.public_key
                            == old(self)@.public_key
                    } else {
                        r matches Ok(c) && c.public_key@ == a && final(self)@.public_key == Some(a)
                    },
                }
            }),
    {
        let address = if accounts.len() > 0 {
            accounts[0].address.clone()
        } else if self.accounts.len() > 0 {
            self.accounts[0].address.clone()
        } else {
            return Err(String::from_str("No accounts available after connecting to wallet"));
        };
        if address.as_str().unicode_len() == 0 {
            return Err(String::from_str("Could not extract address from account"));
        }
        self.public_key = Some(address.clone());
        Ok(SolanaConnectResult { public_key: address })
    }

    /// After a disconnect: no account.
    pub fn complete_disconnect(&mut self)
        ensures
            final(self)@.public_key is None,
            final(self)@.accounts == old(self)@.accounts,
            final(self)@.events == old(self)@.events,
            final(self)@.wallet_id == old(self)@.wallet_id,
            final(self)@.wallet_name == old(self)@.wallet_name,
    {
        self.public_key = None;
    }

    /// The account that signs: the wallet's first account.
    pub fn signing_account(&self) -> (r: Result<&WalletStandardAccount, String>)
        ensures
            match r {
                Ok(a) => self@.accounts.len() > 0 && account_view(*a) == self@.accounts[0],
                Err(m) => self@.accounts.len() == 0 && m@ == no_accounts_message(),
            },
    {
        if self.accounts.len() == 0 {
            return Err(String::from_str("No accounts available. Please connect first."));
        }
        Ok(&self.accounts[0])
    }

    /// The result of a message signature by `account`: refused when empty.
    pub fn message_signed(signature: Vec<u8>, account: &WalletStandardAccount) -> (r: Result<
        SolanaSignMessageResult,
        String,
    >)
        ensures
            if signature@.len() == 0 {
                r matches Err(m) && m@ == "Signature is empty"@
            } else {
                r matches Ok(x) && x.signature@ == signature@ && x.public_key@ == account.address@
            },
    {
        if signature.len() == 0 {
            return Err(String::from_str("Signature is empty"));
        }
        Ok(SolanaSignMessageResult { signature, public_key: account.address.clone() })
    }

    /// A signed transaction: refused when empty.
    pub fn transaction_signed(signed: Vec<u8>) -> (r: Result<Vec<u8>, String>)
        ensures
            if signed@.len() == 0 {
                r matches Err(m) && m@ == "Empty signed transaction returned from Wallet Standard"@
            } else {
                r matches Ok(x) && x@ == signed@
            },
    {
        if signed.len() == 0 {
            return Err(String::from_str("Empty signed transaction returned from Wallet Standard"));
        }
        Ok(signed)
    }

    /// The result of a sent transaction: its signature bytes in base58.
    pub fn transaction_sent(signature: &[u8]) -> (r: SolanaSendTransactionResult)
        ensures
            r.signature@ == base58_encoded(signature@),
    {
        SolanaSendTransactionResult { signature: base58_encode(signature) }
    }

    /// A `change` event of the wallet: the public key follows the first
    /// account, and the events for the adapter's listeners are returned in
    /// the order they are emitted.
    pub fn handle_change(&mut self, properties: &StandardEventsChangeProperties) -> (r: Vec<AdapterEvent>)
        ensures
            ({
                let accounts = match properties.accounts {
                    Some(a) => Some(addresses_of(a@)),
                    None => None,
                };
                &&& final(self)@.public_key == key_after_change(accounts, old(self)@.public_key)
                &&& events_view(r@) == change_events(accounts)
            }),
            final(self)@.accounts == old(self)@.accounts,
            final(self)@.events == old(self)@.events,
            final(self)@.wallet_id == old(self)@.wallet_id,
            final(self)@.wallet_name == old(self)@.wallet_name,
    {
        let mut out: Vec<AdapterEvent> = Vec::new();
        match &properties.accounts {
            None => {
                proof {
                    assert(events_view(out@) =~= seq![]);
                }
            },
            Some(accounts) => {
                if accounts.len() > 0 {
                    let address = accounts[0].address.clone();
                    if address.as_str().unicode_len() > 0 {
                        self.public_key = Some(address.clone());
                        out.push((String::from_str("accountChanged"), Some(address.clone())));
                        out.push((String::from_str("connect"), Some(address)));
                    } else {
                        self.public_key = None;
                        out.push((String::from_str("accountChanged"), None));
                    }
                } else {
                    self.public_key = None;
                    out.push((String::from_str("accountChanged"), None));
                    out.push((String::from_str("disconnect"), None));
                }
                proof {
                    let a = addresses_of(accounts@);
                    assert(events_view(out@) =~= change_events(Some(a)));
                }
            },
        }
        out
    }

    /// Register a listener for `event`; ids count up from one.
    pub fn on(&mut self, event: &str) -> (id: u64)
        ensures
            id == old(self)@.events.next_id,
            final(self)@.events.entries == old(self)@.events.entries.push((event@, id)),
            final(self)@.events.next_id == old(self)@.events.next_id.wrapping_add(1),
            final(self)@.public_key == old(self)@.public_key,
            final(self)@.accounts == old(self)@.accounts,
    {
        self.events.add(event)
    }

    /// Remove the listener `listener_id` of `event`.
    pub fn off(&mut self, event: &str, listener_id: u64)
        ensures
            final(self)@.events.entries == without_listener(old(self)@.events.entries, event@, listener_id),
            final(self)@.events.next_id == old(self)@.events.next_id,
            final(self)@.public_key == old(self)@.public_key,
            final(self)@.accounts == old(self)@.accounts,
    {
        self.events.remove(event, listener_id)
    }

    /// The listeners of `event`, in the order they are called.
    pub fn listeners(&self, event: &str) -> (r: Vec<u64>)
        ensures
            r@ == listeners_for(self@.events.entries, event@),
    {
        self.events.listeners(event)
    }
}

} // verus!
