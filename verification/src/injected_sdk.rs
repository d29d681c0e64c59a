//! The browser-injected SDK's Solana and Ethereum plugins: their listener
//! registries, the state that provider events update, the events each one
//! triggers, and the steps of the Solana connect flow. The extension calls
//! themselves are asynchronous and stay with the caller.
use vstd::prelude::*;
use crate::ethereum_types::EthereumEventType;
use crate::text::{
    chars_of, hex_lower, hex_lower_of, hex_value, is_hex, is_hex_char, opt_view, parse_u64,
    parse_unsigned, push_str, slice_chars, starts_with, starts_with_exec, str_eq, string_from_chars,
    to_lowercase, unicode_lowercase,
};

verus! {

/// Solana provider event types.
#[derive(Debug, Clone, Copy, PartialEq, Eq, Hash, Structural)]
pub enum PhantomEventType {
    Connect,
    Disconnect,
    AccountChanged,
}

/// How a message to sign is displayed.
#[derive(Debug, Clone, Copy, PartialEq, Eq, Structural)]
pub enum DisplayEncoding {
    Utf8,
    Hex,
}

/// Strategy for how to obtain the provider.
#[derive(Debug, Clone, Copy, PartialEq, Eq, Structural)]
pub enum ProviderStrategy {
    /// Use the browser-injected provider (window.phantom).
    Injected,
}

impl ProviderStrategy {
    /// The name of the strategy.
    pub fn as_str(&self) -> (r: &'static str)
        ensures
            r@ == "injected"@,
    {
        "injected"
    }
}

/// Options of sending a transaction.
#[derive(Debug, Clone, Default)]
pub struct SendOptions {
    pub skip_preflight: Option<bool>,
    pub preflight_commitment: Option<String>,
    pub max_retries: Option<u32>,
    pub min_context_slot: Option<u64>,
}

/// Sign-In With Solana data.
#[derive(Debug, Clone, Default)]
pub struct SolanaSignInData {
    pub domain: Option<String>,
    pub address: Option<String>,
    pub statement: Option<String>,
    pub uri: Option<String>,
    pub version: Option<String>,
    pub chain_id: Option<String>,
    pub nonce: Option<String>,
    pub issued_at: Option<String>,
    pub expiration_time: Option<String>,
    pub not_before: Option<String>,
    pub request_id: Option<String>,
    pub resources: Option<Vec<String>>,
}

/// Result of signing a message.
#[derive(Debug, Clone)]
pub struct SignMessageResult {
    pub signature: Vec<u8>,
    pub address: String,
}

/// Result of signing and sending a transaction.
#[derive(Debug, Clone)]
pub struct SignAndSendResult {
    pub signature: String,
    pub address: Option<String>,
}

/// Result of signing and sending several transactions.
#[derive(Debug, Clone)]
pub struct SignAndSendAllResult {
    pub signatures: Vec<String>,
    pub address: Option<String>,
}

/// Result of a sign-in.
#[derive(Debug, Clone)]
pub struct SignInResult {
    pub address: String,
    pub signature: Vec<u8>,
    pub signed_message: Vec<u8>,
}

/// Options of a connection.
#[derive(Debug, Clone, Default)]
pub struct ConnectOptions {
    pub only_if_trusted: bool,
}

/// Listener identifiers per Solana event type, in registration order. The
/// callbacks themselves are kept by the caller under these identifiers.
pub struct SolanaEventListeners {
    entries: Vec<(PhantomEventType, usize)>,
    next_id: usize,
}

/// Abstract state of a typed listener registry.
pub struct TypedRegistryView<E> {
    /// `(event, id)` pairs in registration order.
    pub entries: Seq<(E, usize)>,
    /// The identifier the next registration receives.
    pub next_id: usize,
}

impl View for SolanaEventListeners {
    type V = TypedRegistryView<PhantomEventType>;

    closed spec fn view(&self) -> TypedRegistryView<PhantomEventType> {
        TypedRegistryView { entries: self.entries@, next_id: self.next_id }
    }
}

/// The ids registered for `event`, in registration order.
pub open spec fn ids_for<E>(entries: Seq<(E, usize)>, event: E) -> Seq<usize>
    decreases entries.len(),
{
    if entries.len() == 0 {
        Seq::<usize>::empty()
    } else {
        let rest = ids_for(entries.drop_last(), event);
        if entries.last().0 == event {
            rest.push(entries.last().1)
        } else {
            rest
        }
    }
}

/// The entries without the registration `id` of `event`.
pub open spec fn without_id<E>(entries: Seq<(E, usize)>, event: E, id: usize) -> Seq<(E, usize)> {
    entries.filter(|e: (E, usize)| !(e.0 == event && e.1 == id))
}

impl SolanaEventListeners {
    /// Create a new empty listener registry; ids start at 0.
    pub fn new() -> (r: Self)
        ensures
            r@.entries == Seq::<(PhantomEventType, usize)>::empty(),
            r@.next_id == 0,
    {
        SolanaEventListeners { entries: Vec::new(), next_id: 0 }
    }

    /// Add an event listener. Returns an ID that can be used to remove it.
    pub fn add_listener(&mut self, event: PhantomEventType) -> (id: usize)
        requires
            old(self)@.next_id < usize::MAX,
        ensures
            id == old(self)@.next_id,
            final(self)@.next_id == old(self)@.next_id + 1,
            final(self)@.entries == old(self)@.entries.push((event, id)),
    {
        let id = self.next_id;
        self.next_id = self.next_id + 1;
        self.entries.push((event, id));
        id
    }

    /// Remove an event listener by ID.
    pub fn remove_listener(&mut self, event: PhantomEventType, id: usize)
        ensures
            final(self)@.entries == without_id(old(self)@.entries, event, id),
            final(self)@.next_id == old(self)@.next_id,
    {
        let ghost old_entries = self.entries@;
        let mut kept: Vec<(PhantomEventType, usize)> = Vec::new();
        let mut i: usize = 0;
        proof {
            assert(old_entries.take(0) =~= Seq::<(PhantomEventType, usize)>::empty());
        }
        while i < self.entries.len()
            invariant
                0 <= i <= self.entries@.len(),
                old_entries == self.entries@,
                kept@ == without_id(old_entries.take(i as int), event, id),
            decreases self.entries@.len() - i,
        {
            let e = self.entries[i];
            proof {
                assert(old_entries.take(i + 1).drop_last() =~= old_entries.take(i as int));
                reveal_with_fuel(Seq::<(PhantomEventType, usize)>::filter, 1);
            }
            if !(e.0 == event && e.1 == id) {
                kept.push(e);
            }
            i = i + 1;
        }
        proof {
            assert(old_entries.take(self.entries@.len() as int) =~= old_entries);
        }
        self.entries = kept;
    }

    /// The ids of the listeners of `event`, in the order they are invoked.
    pub fn listeners(&self, event: PhantomEventType) -> (r: Vec<usize>)
        ensures
            r@ == ids_for(self@.entries, event),
    {
        let mut out: Vec<usize> = Vec::new();
        let mut i: usize = 0;
        proof {
            assert(self.entries@.take(0) =~= Seq::<(PhantomEventType, usize)>::empty());
        }
        while i < self.entries.len()
            invariant
                0 <= i <= self.entries@.len(),
                out@ == ids_for(self.entries@.take(i as int), event),
            decreases self.entries@.len() - i,
        {
            proof {
                assert(self.entries@.take(i + 1).drop_last() =~= self.entries@.take(i as int));
            }
            if self.entries[i].0 == event {
                out.push(self.entries[i].1);
            }
            i = i + 1;
        }
        proof {
            assert(self.entries@.take(self.entries@.len() as int) =~= self.entries@);
        }
        out
    }

    /// Clear all event listeners (ids keep counting).
    pub fn clear_all(&mut self)
        ensures
            final(self)@.entries == Seq::<(PhantomEventType, usize)>::empty(),
            final(self)@.next_id == old(self)@.next_id,
    {
        self.entries = Vec::new();
    }
}

/// Listener identifiers per Ethereum event type, in registration order.
pub struct EthereumEventListeners {
    entries: Vec<(EthereumEventType, usize)>,
    next_id: usize,
}

impl View for EthereumEventListeners {
    type V = TypedRegistryView<EthereumEventType>;

    closed spec fn view(&self) -> TypedRegistryView<EthereumEventType> {
        TypedRegistryView { entries: self.entries@, next_id: self.next_id }
    }
}

/// The Ethereum event type of an event name.
pub open spec fn ethereum_event_of(name: Seq<char>) -> Option<EthereumEventType> {
    if name == "connect"@ {
        Some(EthereumEventType::Connect)
    } else if name == "disconnect"@ {
        Some(EthereumEventType::Disconnect)
    } else if name == "accountsChanged"@ {
        Some(EthereumEventType::AccountsChanged)
    } else if name == "chainChanged"@ {
        Some(EthereumEventType::ChainChanged)
    } else {
        None
    }
}

/// The Ethereum event type of an event name, if it names one.
pub fn ethereum_event_from_name(name: &str) -> (r: Option<EthereumEventType>)
    ensures
        r == ethereum_event_of(name@),
{
    if str_eq(name, "connect") {
        Some(EthereumEventType::Connect)
    } else if str_eq(name, "disconnect") {
        Some(EthereumEventType::Disconnect)
    } else if str_eq(name, "accountsChanged") {
        Some(EthereumEventType::AccountsChanged)
    } else if str_eq(name, "chainChanged") {
        Some(EthereumEventType::ChainChanged)
    } else {
        None
    }
}

impl EthereumEventListeners {
    /// Create a new empty listener registry; ids start at 0.
    pub fn new() -> (r: Self)
        ensures
            r@.entries == Seq::<(EthereumEventType, usize)>::empty(),
            r@.next_id == 0,
    {
        EthereumEventListeners { entries: Vec::new(), next_id: 0 }
    }

    /// Add an event listener. Returns an ID that can be used to remove it.
    pub fn add_listener(&mut self, event: EthereumEventType) -> (id: usize)
        requires
            old(self)@.next_id < usize::MAX,
        ensures
            id == old(self)@.next_id,
            final(self)@.next_id == old(self)@.next_id + 1,
            final(self)@.entries == old(self)@.entries.push((event, id)),
    {
        let id = self.next_id;
        self.next_id = self.next_id + 1;
        self.entries.push((event, id));
        id
    }

    /// Add a listener for the event named `event`; an unknown name registers
    /// nothing and gives 0.
    pub fn add_listener_by_name(&mut self, event: &str) -> (id: u64)
        requires
            old(self)@.next_id < usize::MAX,
        ensures
            match ethereum_event_of(event@) {
                Some(t) => id == old(self)@.next_id && final(self)@.next_id == old(self)@.next_id + 1
                    && final(self)@.entries == old(self)@.entries.push((t, old(self)@.next_id)),
                None => id == 0 && final(self)@ == old(self)@,
            },
    {
        match ethereum_event_from_name(event) {
            Some(t) => self.add_listener(t) as u64,
            None => 0,
        }
    }

    /// Remove an event listener by ID.
    pub fn remove_listener(&mut self, event: EthereumEventType, id: usize)
        ensures
            final(self)@.entries == without_id(old(self)@.entries, event, id),
            final(self)@.next_id == old(self)@.next_id,
    {
        let ghost old_entries = self.entries@;
        let mut kept: Vec<(EthereumEventType, usize)> = Vec::new();
        let mut i: usize = 0;
        proof {
            assert(old_entries.take(0) =~= Seq::<(EthereumEventType, usize)>::empty());
        }
        while i < self.entries.len()
            invariant
                0 <= i <= self.entries@.len(),
                old_entries == self.entries@,
                kept@ == without_id(old_entries.take(i as int), event, id),
            decreases self.entries@.len() - i,
        {
            let e = self.entries[i];
            proof {
                assert(old_entries.take(i + 1).drop_last() =~= old_entries.take(i as int));
                reveal_with_fuel(Seq::<(EthereumEventType, usize)>::filter, 1);
            }
            if !(e.0 == event && e.1 == id) {
                kept.push(e);
            }
            i = i + 1;
        }
        proof {
            assert(old_entries.take(self.entries@.len() as int) =~= old_entries);
        }
        self.entries = kept;
    }

    /// Remove the listener `id` of the event named `event`; an unknown name
    /// changes nothing.
    pub fn remove_listener_by_name(&mut self, event: &str, id: u64)
        ensures
            match ethereum_event_of(event@) {
                Some(t) => final(self)@.entries == without_id(old(self)@.entries, t, id as usize)
                    && final(self)@.next_id == old(self)@.next_id,
                None => final(self)@ == old(self)@,
            },
    {
        match ethereum_event_from_name(event) {
            Some(t) => self.remove_listener(t, id as usize),
            None => {},
        }
    }

    /// The ids of the listeners of `event`, in the order they are invoked.
    pub fn listeners(&self, event: EthereumEventType) -> (r: Vec<usize>)
        ensures
            r@ == ids_for(self@.entries, event),
    {
        let mut out: Vec<usize> = Vec::new();
        let mut i: usize = 0;
        proof {
            assert(self.entries@.take(0) =~= Seq::<(EthereumEventType, usize)>::empty());
        }
        while i < self.entries.len()
            invariant
                0 <= i <= self.entries@.len(),
                out@ == ids_for(self.entries@.take(i as int), event),
            decreases self.entries@.len() - i,
        {
            proof {
                assert(self.entries@.take(i + 1).drop_last() =~= self.entries@.take(i as int));
            }
            if self.entries[i].0 == event {
                out.push(self.entries[i].1);
            }
            i = i + 1;
        }
        proof {
            assert(self.entries@.take(self.entries@.len() as int) =~= self.entries@);
        }
        out
    }

    /// Clear all event listeners (ids keep counting).
    pub fn clear_all(&mut self)
        ensures
            final(self)@.entries == Seq::<(EthereumEventType, usize)>::empty(),
            final(self)@.next_id == old(self)@.next_id,
    {
        self.entries = Vec::new();
    }
}

/// A removed Solana listener is not called again, and the listeners of
/// other events stay: after `remove_listener(event, id)`, `listeners(event)`
/// no longer lists `id`, and `listeners(other)` is unchanged.
pub proof fn law_removed_solana_listener_not_listed(entries: Seq<(PhantomEventType, usize)>, event: PhantomEventType, id: usize)
    ensures
        !ids_for(without_id(entries, event, id), event).contains(id),
        forall|other: PhantomEventType|
            other != event ==> ids_for(without_id(entries, event, id), other) == ids_for(entries, other),
    decreases entries.len(),
{
    reveal_with_fuel(Seq::<(PhantomEventType, usize)>::filter, 1);
    if entries.len() > 0 {
        let rest = entries.drop_last();
        law_removed_solana_listener_not_listed(rest, event, id);
        let x = entries.last();
        let fr = without_id(rest, event, id);
        let f = without_id(entries, event, id);
        if !(x.0 == event && x.1 == id) {
            assert(f == fr.push(x));
            assert(f.drop_last() =~= fr);
            let lf = ids_for(f, event);
            let lr = ids_for(fr, event);
            assert(!lf.contains(id)) by {
                if x.0 == event {
                    assert(lf == lr.push(x.1));
                    if lf.contains(id) {
                        let k = choose|k: int| 0 <= k < lf.len() && lf[k] == id;
                        if k < lr.len() {
                            assert(lr[k] == id);
                        }
                    }
                } else {
                    assert(lf == lr);
                }
            }
            assert forall|other: PhantomEventType| other != event implies ids_for(f, other) == ids_for(entries, other) by {
                assert(ids_for(fr, other) == ids_for(rest, other));
                assert(f.last() == x);
                assert(ids_for(f, other) == (if x.0 == other {
                    ids_for(fr, other).push(x.1)
                } else {
                    ids_for(fr, other)
                }));
                assert(ids_for(entries, other) == (if x.0 == other {
                    ids_for(rest, other).push(x.1)
                } else {
                    ids_for(rest, other)
                }));
            }
        } else {
            assert(f == fr);
            assert forall|other: PhantomEventType| other != event implies ids_for(f, other) == ids_for(entries, other) by {
                assert(ids_for(fr, other) == ids_for(rest, other));
                assert(ids_for(entries, other) == ids_for(rest, other));
            }
        }
    }
}

/// A removed Ethereum listener is not called again, and the listeners of
/// other events stay: after `remove_listener(event, id)`, `listeners(event)`
/// no longer lists `id`, and `listeners(other)` is unchanged.
pub proof fn law_removed_ethereum_listener_not_listed(entries: Seq<(EthereumEventType, usize)>, event: EthereumEventType, id: usize)
    ensures
        !ids_for(without_id(entries, event, id), event).contains(id),
        forall|other: EthereumEventType|
            other != event ==> ids_for(without_id(entries, event, id), other) == ids_for(entries, other),
    decreases entries.len(),
{
    reveal_with_fuel(Seq::<(EthereumEventType, usize)>::filter, 1);
    if entries.len() > 0 {
        let rest = entries.drop_last();
        law_removed_ethereum_listener_not_listed(rest, event, id);
        let x = entries.last();
        let fr = without_id(rest, event, id);
        let f = without_id(entries, event, id);
        if !(x.0 == event && x.1 == id) {
            assert(f == fr.push(x));
            assert(f.drop_last() =~= fr);
            let lf = ids_for(f, event);
            let lr = ids_for(fr, event);
            assert(!lf.contains(id)) by {
                if x.0 == event {
                    assert(lf == lr.push(x.1));
                    if lf.contains(id) {
                        let k = choose|k: int| 0 <= k < lf.len() && lf[k] == id;
                        if k < lr.len() {
                            assert(lr[k] == id);
                        }
                    }
                } else {
                    assert(lf == lr);
                }
            }
            assert forall|other: EthereumEventType| other != event implies ids_for(f, other) == ids_for(entries, other) by {
                assert(ids_for(fr, other) == ids_for(rest, other));
                assert(f.last() == x);
                assert(ids_for(f, other) == (if x.0 == other {
                    ids_for(fr, other).push(x.1)
                } else {
                    ids_for(fr, other)
                }));
                assert(ids_for(entries, other) == (if x.0 == other {
                    ids_for(rest, other).push(x.1)
                } else {
                    ids_for(rest, other)
                }));
            }
        } else {
            assert(f == fr);
            assert forall|other: EthereumEventType| other != event implies ids_for(f, other) == ids_for(entries, other) by {
                assert(ids_for(fr, other) == ids_for(rest, other));
                assert(ids_for(entries, other) == ids_for(rest, other));
            }
        }
    }
}

/// A listener call that a Solana provider event leads to.
#[derive(Debug)]
pub enum SolanaTrigger {
    /// Call the `connect` listeners with this public key.
    Connect(String),
    /// Call the `disconnect` listeners.
    Disconnect,
    /// Call the `accountChanged` listeners with this public key, if any.
    AccountChanged(Option<String>),
}

/// Abstract view of a Solana listener call.
pub enum SolanaTriggerView {
    Connect(Seq<char>),
    Disconnect,
    AccountChanged(Option<Seq<char>>),
}

impl View for SolanaTrigger {
    type V = SolanaTriggerView;

    open spec fn view(&self) -> SolanaTriggerView {
        match self {
            SolanaTrigger::Connect(k) => SolanaTriggerView::Connect(k@),
            SolanaTrigger::Disconnect => SolanaTriggerView::Disconnect,
            SolanaTrigger::AccountChanged(k) => SolanaTriggerView::AccountChanged(opt_view(*k)),
        }
    }
}

/// The Solana plugin's state: its listeners and the connected public key.
pub struct Solana {
    events: SolanaEventListeners,
    public_key: Option<String>,
}

/// Abstract state of the Solana plugin.
pub struct SolanaPluginState {
    pub events: TypedRegistryView<PhantomEventType>,
    pub public_key: Option<Seq<char>>,
}

impl View for Solana {
    type V = SolanaPluginState;

    closed spec fn view(&self) -> SolanaPluginState {
        SolanaPluginState { events: self.events@, public_key: opt_view(self.public_key) }
    }
}

/// The public key after a provider event, and the listener calls it leads
/// to, in order: `connect` with a key stores it; `disconnect` clears it;
/// `accountChanged` stores the key it carries (or none) and calls the
/// `accountChanged` listeners, then the `connect` listeners when it carries
/// a key; any other event changes nothing.
pub open spec fn solana_event_outcome(
    key: Option<Seq<char>>,
    event: Seq<char>,
    data: Option<Seq<char>>,
) -> (Option<Seq<char>>, Seq<SolanaTriggerView>) {
    if event == "connect"@ {
        match data {
            Some(pk) => (Some(pk), seq![SolanaTriggerView::Connect(pk)]),
            None => (key, Seq::empty()),
        }
    } else if event == "disconnect"@ {
        (None, seq![SolanaTriggerView::Disconnect])
    } else if event == "accountChanged"@ {
        (data, match data {
            Some(pk) => seq![SolanaTriggerView::AccountChanged(data), SolanaTriggerView::Connect(pk)],
            None => seq![SolanaTriggerView::AccountChanged(None)],
        })
    } else {
        (key, Seq::empty())
    }
}

/// The views of a list of listener calls.
pub open spec fn triggers_view(v: Seq<SolanaTrigger>) -> Seq<SolanaTriggerView> {
    Seq::new(v.len(), |i: int| v[i]@)
}

impl Solana {
    /// A plugin with no listeners and no public key.
    pub fn new() -> (r: Self)
        ensures
            r@.public_key is None,
            r@.events.entries == Seq::<(PhantomEventType, usize)>::empty(),
            r@.events.next_id == 0,
    {
        Solana { events: SolanaEventListeners::new(), public_key: None }
    }

    /// The plugin's listener registry.
    pub fn events(&self) -> (r: &SolanaEventListeners)
        ensures
            r@ == self@.events,
    {
        &self.events
    }

    /// The plugin's listener registry, for registering and removing listeners.
    pub fn events_mut(&mut self) -> (r: &mut SolanaEventListeners)
        ensures
            r@ == old(self)@.events,
            final(self)@.events == final(r)@,
            final(self)@.public_key == old(self)@.public_key,
    {
        &mut self.events
    }

    /// Return an owned copy of the current public key.
    pub fn get_public_key(&self) -> (r: Option<String>)
        ensures
            opt_view(r) == self@.public_key,
    {
        match &self.public_key {
            Some(k) => Some(k.clone()),
            None => None,
        }
    }

    /// Handle a native provider event: update the public key and return the
    /// listener calls to make, in order.
    pub fn handle_provider_event(&mut self, event: &str, data: Option<&str>) -> (r: Vec<SolanaTrigger>)
        ensures
            (final(self)@.public_key, triggers_view(r@)) == solana_event_outcome(
                old(self)@.public_key,
                event@,
                match data {
                    Some(d) => Some(d@),
                    None => None,
                },
            ),
            final(self)@.events == old(self)@.events,
    {
        let mut out: Vec<SolanaTrigger> = Vec::new();
        if str_eq(event, "connect") {
            if let Some(pk) = data {
                self.public_key = Some(String::from_str(pk));
                out.push(SolanaTrigger::Connect(String::from_str(pk)));
            }
        } else if str_eq(event, "disconnect") {
            self.public_key = None;
            out.push(SolanaTrigger::Disconnect);
        } else if str_eq(event, "accountChanged") {
            self.public_key = match data {
                Some(d) => Some(String::from_str(d)),
                None => None,
            };
            let changed = match data {
                Some(d) => Some(String::from_str(d)),
                None => None,
            };
            out.push(SolanaTrigger::AccountChanged(changed));
            if let Some(pk) = data {
                out.push(SolanaTrigger::Connect(String::from_str(pk)));
            }
        }
        proof {
            assert(triggers_view(out@) =~= solana_event_outcome(
                old(self)@.public_key,
                event@,
                match data {
                    Some(d) => Some(d@),
                    None => None,
                },
            ).1);
        }
        out
    }

    /// A successful connect stores the connected address.
    pub fn record_connect(&mut self, address: &str)
        ensures
            final(self)@.public_key == Some(address@),
            final(self)@.events == old(self)@.events,
    {
        self.public_key = Some(String::from_str(address));
    }

    /// A successful disconnect clears the public key.
    pub fn record_disconnect(&mut self)
        ensures
            final(self)@.public_key is None,
            final(self)@.events == old(self)@.events,
    {
        self.public_key = None;
    }

    /// The public key reported with a signed message: the signing address,
    /// or the stored key when the address is empty and a key is stored.
    pub fn signer_public_key(&self, address: &str) -> (r: String)
        ensures
            r@ == if address@.len() == 0 && self@.public_key is Some {
                self@.public_key.unwrap()
            } else {
                address@
            },
    {
        let a = chars_of(address);
        if a.len() == 0 {
            if let Some(k) = &self.public_key {
                return k.clone();
            }
        }
        String::from_str(address)
    }
}

/// What the Solana connect flow asks for next.
#[derive(Debug)]
pub enum ConnectAction {
    /// Ask the provider for its current account.
    GetAccount,
    /// Ask the provider to connect, silently when `only_if_trusted`.
    Connect { only_if_trusted: bool },
    /// The flow is over: the connected address, after which the `connect`
    /// listeners are called when `notify` is set, or the error message.
    Finish { result: Result<String, String>, notify: bool },
}

/// The stage of the Solana connect flow.
#[derive(Debug, Clone, Copy, PartialEq, Eq, Structural)]
pub enum ConnectStage {
    /// Waiting for the current account of a connected provider.
    Account,
    /// Waiting for the silent (trusted-only) connect.
    Trusted,
    /// Waiting for the prompting connect.
    Prompt,
    /// Finished.
    Done,
}

/// The Solana connect flow: reuse the account of a connected provider, else
/// try a silent connect, else (unless only trusted connections are wanted)
/// prompt the user.
pub struct SolanaConnectFlow {
    only_if_trusted: bool,
    stage: ConnectStage,
}

impl View for SolanaConnectFlow {
    type V = (bool, ConnectStage);

    closed spec fn view(&self) -> (bool, ConnectStage) {
        (self.only_if_trusted, self.stage)
    }
}

impl SolanaConnectFlow {
    /// Start the flow for a provider that is or is not connected.
    pub fn start(only_if_trusted: bool, provider_connected: bool) -> (r: (Self, ConnectAction))
        ensures
            r.0@.0 == only_if_trusted,
            provider_connected ==> r.0@.1 == ConnectStage::Account && r.1 == ConnectAction::GetAccount,
            !provider_connected ==> r.0@.1 == ConnectStage::Trusted && r.1 == (ConnectAction::Connect {
                only_if_trusted: true,
            }),
    {
        if provider_connected {
            (SolanaConnectFlow { only_if_trusted, stage: ConnectStage::Account }, ConnectAction::GetAccount)
        } else {
            (
                SolanaConnectFlow { only_if_trusted, stage: ConnectStage::Trusted },
                ConnectAction::Connect { only_if_trusted: true },
            )
        }
    }

    /// The answer to the last request: the address it produced, if any (an
    /// error counts as none).
    pub fn step(&mut self, address: Option<String>) -> (r: ConnectAction)
        requires
            old(self)@.1 != ConnectStage::Done,
        ensures
            final(self)@.0 == old(self)@.0,
            match address {
                Some(a) => final(self)@.1 == ConnectStage::Done && r == (ConnectAction::Finish {
                    result: Ok(a),
                    notify: old(self)@.1 != ConnectStage::Account,
                }),
                None => match old(self)@.1 {
                    ConnectStage::Account => final(self)@.1 == ConnectStage::Trusted && r
                        == (ConnectAction::Connect { only_if_trusted: true }),
                    ConnectStage::Trusted => if old(self)@.0 {
                        final(self)@.1 == ConnectStage::Done && (r matches ConnectAction::Finish {
                            result: Err(e),
                            notify: false,
                        } && e@ == "No trusted connection available."@)
                    } else {
                        final(self)@.1 == ConnectStage::Prompt && r == (ConnectAction::Connect {
                            only_if_trusted: false,
                        })
                    },
                    _ => final(self)@.1 == ConnectStage::Done && (r matches ConnectAction::Finish {
                        result: Err(e),
                        notify: false,
                    } && e@ == "Failed to connect to Phantom."@),
                },
            },
    {
        match address {
            Some(a) => {
                let notify = self.stage != ConnectStage::Account;
                self.stage = ConnectStage::Done;
                ConnectAction::Finish { result: Ok(a), notify }
            },
            None => match self.stage {
                ConnectStage::Account => {
                    self.stage = ConnectStage::Trusted;
                    ConnectAction::Connect { only_if_trusted: true }
                },
                ConnectStage::Trusted => {
                    if self.only_if_trusted {
                        self.stage = ConnectStage::Done;
                        ConnectAction::Finish {
                            result: Err(String::from_str("No trusted connection available.")),
                            notify: false,
                        }
                    } else {
                        self.stage = ConnectStage::Prompt;
                        ConnectAction::Connect { only_if_trusted: false }
                    }
                },
                _ => {
                    self.stage = ConnectStage::Done;
                    ConnectAction::Finish {
                        result: Err(String::from_str("Failed to connect to Phantom.")),
                        notify: false,
                    }
                },
            },
        }
    }
}

/// Lower-case hexadecimal of `n` without leading zeros (`{:x}`).
pub open spec fn lower_hex(n: nat) -> Seq<char>
    decreases n,
{
    if n < 16 {
        seq![hex_lower(n as int)]
    } else {
        lower_hex(n / 16).push(hex_lower((n % 16) as int))
    }
}

fn push_lower_hex(v: &mut Vec<char>, n: u64)
    ensures
        final(v)@ == old(v)@ + lower_hex(n as nat),
    decreases n,
{
    if n < 16 {
        v.push(hex_lower_of(n as u8));
        proof {
            assert(lower_hex(n as nat) =~= seq![hex_lower(n as int)]);
        }
    } else {
        push_lower_hex(v, n / 16);
        v.push(hex_lower_of((n % 16) as u8));
        proof {
            assert(final(v)@ =~= old(v)@ + lower_hex(n as nat));
        }
    }
}

/// The chain ID a chain switch sends: an ID written with a `0x` or `0X`
/// prefix in Unicode lower case; a decimal `u64` as `0x` and its lower-case
/// hexadecimal; anything else unchanged.
pub open spec fn normalized_chain_id(c: Seq<char>) -> Seq<char> {
    if starts_with(c, "0x"@) || starts_with(c, "0X"@) {
        unicode_lowercase(c)
    } else {
        match parse_unsigned(c, u64::MAX as int) {
            Some(n) => "0x"@ + lower_hex(n as nat),
            None => c,
        }
    }
}

/// The chain ID a chain switch sends for `chain_id`.
pub fn normalize_chain_id(chain_id: &str) -> (r: String)
    ensures
        r@ == normalized_chain_id(chain_id@),
{
    let c = chars_of(chain_id);
    let lower_x = chars_of("0x");
    let upper_x = chars_of("0X");
    if starts_with_exec(c.as_slice(), lower_x.as_slice()) || starts_with_exec(c.as_slice(), upper_x.as_slice()) {
        return to_lowercase(chain_id);
    }
    match parse_u64(chain_id) {
        Some(n) => {
            let mut out = chars_of("0x");
            push_lower_hex(&mut out, n);
            string_from_chars(out.as_slice())
        },
        None => String::from_str(chain_id),
    }
}

/// The value of hexadecimal digits (leading zeros allowed).
pub open spec fn hex_digits_value(s: Seq<char>) -> int
    decreases s.len(),
{
    if s.len() == 0 {
        0
    } else {
        hex_digits_value(s.drop_last()) * 16 + hex_value(s.last())
    }
}

/// Every character is a hexadecimal digit.
pub open spec fn all_hex(s: Seq<char>) -> bool {
    forall|i: int| 0 <= i < s.len() ==> is_hex(#[trigger] s[i])
}

/// The value of a hexadecimal number as std's `u64::from_str_radix(_, 16)`
/// reads it: an optional `+` and at least one hexadecimal digit, at most
/// `max`.
pub open spec fn parse_hex_unsigned(s: Seq<char>, max: int) -> Option<int> {
    let d = if s.len() > 0 && s[0] == '+' {
        s.skip(1)
    } else {
        s
    };
    if d.len() > 0 && all_hex(d) && hex_digits_value(d) <= max {
        Some(hex_digits_value(d))
    } else {
        None
    }
}

/// `s` without its leading `0x`s (`trim_start_matches("0x")`).
pub open spec fn strip_hex_prefixes(s: Seq<char>) -> Seq<char>
    decreases s.len(),
{
    if s.len() >= 2 && s[0] == '0' && s[1] == 'x' {
        strip_hex_prefixes(s.skip(2))
    } else {
        s
    }
}

proof fn lemma_hex_digits_value_nonneg(s: Seq<char>)
    requires
        all_hex(s),
    ensures
        hex_digits_value(s) >= 0,
    decreases s.len(),
{
    if s.len() > 0 {
        lemma_hex_digits_value_nonneg(s.drop_last());
    }
}

proof fn lemma_hex_digits_value_prefix(s: Seq<char>, k: int)
    requires
        all_hex(s),
        0 <= k <= s.len(),
    ensures
        hex_digits_value(s.take(k)) <= hex_digits_value(s),
    decreases s.len(),
{
    if k < s.len() {
        let t = s.drop_last();
        assert(t.take(k) =~= s.take(k));
        lemma_hex_digits_value_prefix(t, k);
        lemma_hex_digits_value_nonneg(t);
    } else {
        assert(s.take(k) =~= s);
    }
}

fn hex_digit_of(c: char) -> (r: u64)
    requires
        is_hex(c),
    ensures
        r == hex_value(c),
{
    if '0' <= c && c <= '9' {
        ((c as u32) - 48) as u64
    } else if 'a' <= c && c <= 'f' {
        ((c as u32) - 87) as u64
    } else {
        ((c as u32) - 55) as u64
    }
}

fn hex_digits_from(s: &[char], start: usize) -> (r: Option<u64>)
    requires
        start <= s@.len(),
    ensures
        ({
            let d = s@.skip(start as int);
            if d.len() > 0 && all_hex(d) && hex_digits_value(d) <= u64::MAX {
                r matches Some(v) && v as int == hex_digits_value(d)
            } else {
                r is None
            }
        }),
{
    let ghost d = s@.skip(start as int);
    if start >= s.len() {
        return None;
    }
    let mut v: u64 = 0;
    let mut i: usize = start;
    proof {
        assert(d.take(0) =~= Seq::<char>::empty());
    }
    while i < s.len()
        invariant
            start <= i <= s@.len(),
            d == s@.skip(start as int),
            all_hex(d.take(i - start)),
            v == hex_digits_value(d.take(i - start)),
        decreases s@.len() - i,
    {
        let c = s[i];
        if !is_hex_char(c) {
            proof {
                assert(d[i - start] == c);
            }
            return None;
        }
        let dg = hex_digit_of(c);
        let nv: u128 = (v as u128) * 16 + (dg as u128);
        proof {
            assert(d.take(i - start + 1).drop_last() =~= d.take(i - start));
            assert(d.take(i - start + 1).last() == c);
        }
        if nv > 18446744073709551615u128 {
            proof {
                if all_hex(d) {
                    lemma_hex_digits_value_prefix(d, i - start + 1);
                }
            }
            return None;
        }
        v = nv as u64;
        i = i + 1;
    }
    proof {
        assert(d.take(i - start) =~= d);
    }
    Some(v)
}

/// The numeric chain ID of a hexadecimal chain ID: its leading `0x`s
/// removed, read as std's `u64::from_str_radix(_, 16)` reads it; none when
/// that fails.
pub fn chain_id_from_hex(chain_id_hex: &str) -> (r: Option<u64>)
    ensures
        match parse_hex_unsigned(strip_hex_prefixes(chain_id_hex@), u64::MAX as int) {
            Some(v) => r matches Some(x) && x as int == v,
            None => r is None,
        },
{
    let c = chars_of(chain_id_hex);
    let mut k: usize = 0;
    proof {
        assert(c@.skip(0) =~= c@);
    }
    while c.len() - k >= 2 && c[k] == '0' && c[k + 1] == 'x'
        invariant
            0 <= k <= c@.len(),
            c@ == chain_id_hex@,
            strip_hex_prefixes(c@.skip(k as int)) == strip_hex_prefixes(c@),
        decreases c@.len() - k,
    {
        proof {
            let r = c@.skip(k as int);
            assert(r[0] == '0' && r[1] == 'x');
            assert(r.skip(2) =~= c@.skip(k + 2));
        }
        k = k + 2;
    }
    let t = slice_chars(c.as_slice(), k, c.len());
    proof {
        assert(t@ =~= c@.skip(k as int));
        assert(strip_hex_prefixes(t@) == t@);
    }
    if t.len() > 0 && t[0] == '+' {
        hex_digits_from(t.as_slice(), 1)
    } else {
        proof {
            assert(t@.skip(0) =~= t@);
        }
        hex_digits_from(t.as_slice(), 0)
    }
}

/// What an Ethereum provider event carries, as far as the plugin reads it.
#[derive(Debug)]
pub enum EthereumProviderEvent {
    /// `connect`.
    Connect,
    /// `disconnect`.
    Disconnect,
    /// `accountsChanged`; the accounts when the payload is a list of strings.
    AccountsChanged(Option<Vec<String>>),
    /// `chainChanged`; the chain ID when the payload is a string.
    ChainChanged(Option<String>),
    /// Any other event.
    Other,
}

/// The payload a triggered Ethereum listener receives.
#[derive(Debug, Clone, Copy, PartialEq, Eq, Structural)]
pub enum EthereumPayload {
    /// The provider event's own payload.
    Event,
    /// The provider-disconnected error `{ "code": 4900, "message": "Provider disconnected" }`.
    Disconnected,
}

/// The Ethereum plugin's state: its listeners, chain ID and accounts.
pub struct Ethereum {
    events: EthereumEventListeners,
    chain_id: String,
    accounts: Vec<String>,
}

/// Abstract state of the Ethereum plugin.
pub struct EthereumPluginState {
    pub events: TypedRegistryView<EthereumEventType>,
    pub chain_id: Seq<char>,
    pub accounts: Seq<Seq<char>>,
}

impl View for Ethereum {
    type V = EthereumPluginState;

    closed spec fn view(&self) -> EthereumPluginState {
        EthereumPluginState {
            events: self.events@,
            chain_id: self.chain_id@,
            accounts: self.accounts.deep_view(),
        }
    }
}

impl Ethereum {
    /// A plugin on chain `0x1` with no accounts and no listeners.
    pub fn new() -> (r: Self)
        ensures
            r@.chain_id == "0x1"@,
            r@.accounts == Seq::<Seq<char>>::empty(),
            r@.events.entries == Seq::<(EthereumEventType, usize)>::empty(),
            r@.events.next_id == 0,
    {
        let r = Ethereum { events: EthereumEventListeners::new(), chain_id: String::from_str("0x1"), accounts: Vec::new() };
        proof {
            assert(r.accounts.deep_view() =~= Seq::<Seq<char>>::empty());
        }
        r
    }

    /// The plugin's listener registry.
    pub fn events(&self) -> (r: &EthereumEventListeners)
        ensures
            r@ == self@.events,
    {
        &self.events
    }

    /// The plugin's listener registry, for registering and removing listeners.
    pub fn events_mut(&mut self) -> (r: &mut EthereumEventListeners)
        ensures
            r@ == old(self)@.events,
            final(self)@.events == final(r)@,
            final(self)@.chain_id == old(self)@.chain_id,
            final(self)@.accounts == old(self)@.accounts,
    {
        &mut self.events
    }

    /// The current chain ID.
    pub fn get_chain_id_owned(&self) -> (r: String)
        ensures
            r@ == self@.chain_id,
    {
        self.chain_id.clone()
    }

    /// The current accounts.
    pub fn get_accounts_owned(&self) -> (r: Vec<String>)
        ensures
            r.deep_view() == self@.accounts,
    {
        let mut out: Vec<String> = Vec::new();
        let mut i: usize = 0;
        while i < self.accounts.len()
            invariant
                0 <= i <= self.accounts@.len(),
                out.deep_view() == self.accounts.deep_view().take(i as int),
            decreases self.accounts@.len() - i,
        {
            let c = self.accounts[i].clone();
            let ghost before = out@;
            assert(Seq::new(before.len(), |j: int| before[j]@) == self.accounts.deep_view().take(i as int));
            out.push(c);
            proof {
                let a = self.accounts.deep_view().take(i + 1);
                assert forall|j: int| 0 <= j < i + 1 implies out.deep_view()[j] == a[j] by {
                    if j < i {
                        assert(before[j]@ == self.accounts.deep_view().take(i as int)[j]);
                    }
                }
                assert(out.deep_view() =~= a);
            }
            i = i + 1;
        }
        proof {
            assert(self.accounts.deep_view().take(self.accounts@.len() as int) =~= self.accounts.deep_view());
        }
        out
    }

    /// Handle a native provider event: update the chain ID and accounts and
    /// return the listener calls to make, in order. `disconnect` clears the
    /// accounts and passes the provider-disconnected error; `accountsChanged`
    /// with a list stores it and also calls the `connect` listeners when it
    /// is non-empty (without a list nothing happens); `chainChanged` stores a
    /// string chain ID and always calls its listeners.
    pub fn handle_provider_event(&mut self, event: EthereumProviderEvent) -> (r: Vec<(EthereumEventType, EthereumPayload)>)
        ensures
            final(self)@.events == old(self)@.events,
            match event {
                EthereumProviderEvent::Connect => r@ == seq![(EthereumEventType::Connect, EthereumPayload::Event)]
                    && final(self)@.accounts == old(self)@.accounts && final(self)@.chain_id == old(
                    self,
                )@.chain_id,
                EthereumProviderEvent::Disconnect => r@ == seq![
                    (EthereumEventType::Disconnect, EthereumPayload::Disconnected),
                ] && final(self)@.accounts == Seq::<Seq<char>>::empty() && final(self)@.chain_id == old(
                    self,
                )@.chain_id,
                EthereumProviderEvent::AccountsChanged(None) => r@.len() == 0 && final(self)@.accounts
                    == old(self)@.accounts && final(self)@.chain_id == old(self)@.chain_id,
                EthereumProviderEvent::AccountsChanged(Some(a)) => final(self)@.accounts == a.deep_view()
                    && final(self)@.chain_id == old(self)@.chain_id && r@ == if a@.len() > 0 {
                    seq![
                        (EthereumEventType::AccountsChanged, EthereumPayload::Event),
                        (EthereumEventType::Connect, EthereumPayload::Event),
                    ]
                } else {
                    seq![(EthereumEventType::AccountsChanged, EthereumPayload::Event)]
                },
                EthereumProviderEvent::ChainChanged(c) => r@ == seq![
                    (EthereumEventType::ChainChanged, EthereumPayload::Event),
                ] && final(self)@.accounts == old(self)@.accounts && final(self)@.chain_id == match c {
                    Some(x) => x@,
                    None => old(self)@.chain_id,
                },
                EthereumProviderEvent::Other => r@.len() == 0 && final(self)@.accounts == old(
                    self,
                )@.accounts && final(self)@.chain_id == old(self)@.chain_id,
            },
    {
        let mut out: Vec<(EthereumEventType, EthereumPayload)> = Vec::new();
        match event {
            EthereumProviderEvent::Connect => {
                out.push((EthereumEventType::Connect, EthereumPayload::Event));
            },
            EthereumProviderEvent::Disconnect => {
                self.accounts = Vec::new();
                out.push((EthereumEventType::Disconnect, EthereumPayload::Disconnected));
                proof {
                    assert(self.accounts.deep_view() =~= Seq::<Seq<char>>::empty());
                }
            },
            EthereumProviderEvent::AccountsChanged(accounts) => {
                if let Some(a) = accounts {
                    let has_accounts = a.len() > 0;
                    self.accounts = a;
                    out.push((EthereumEventType::AccountsChanged, EthereumPayload::Event));
                    if has_accounts {
                        out.push((EthereumEventType::Connect, EthereumPayload::Event));
                    }
                }
            },
            EthereumProviderEvent::ChainChanged(chain) => {
                if let Some(c) = chain {
                    self.chain_id = c;
                }
                out.push((EthereumEventType::ChainChanged, EthereumPayload::Event));
            },
            EthereumProviderEvent::Other => {},
        }
        out
    }

    /// Connecting or reading accounts replaces the stored accounts.
    pub fn record_accounts(&mut self, accounts: Vec<String>)
        ensures
            final(self)@.accounts == accounts.deep_view(),
            final(self)@.chain_id == old(self)@.chain_id,
            final(self)@.events == old(self)@.events,
    {
        self.accounts = accounts;
    }

    /// Disconnecting clears the stored accounts.
    pub fn record_disconnect(&mut self)
        ensures
            final(self)@.accounts == Seq::<Seq<char>>::empty(),
            final(self)@.chain_id == old(self)@.chain_id,
            final(self)@.events == old(self)@.events,
    {
        self.accounts = Vec::new();
        proof {
            assert(self.accounts.deep_view() =~= Seq::<Seq<char>>::empty());
        }
    }

    /// A chain read from or switched on the wallet replaces the stored chain ID.
    pub fn record_chain_id(&mut self, chain_id: String)
        ensures
            final(self)@.chain_id == chain_id@,
            final(self)@.accounts == old(self)@.accounts,
            final(self)@.events == old(self)@.events,
    {
        self.chain_id = chain_id;
    }

    /// After the wallet accepted a chain switch to `chain_id`: the chain ID
    /// that was sent (normalized) becomes the stored one, and is returned.
    pub fn complete_switch_chain(&mut self, chain_id: &str) -> (r: String)
        ensures
            r@ == normalized_chain_id(chain_id@),
            final(self)@.chain_id == r@,
            final(self)@.accounts == old(self)@.accounts,
            final(self)@.events == old(self)@.events,
    {
        let hex = normalize_chain_id(chain_id);
        self.chain_id = hex.clone();
        hex
    }

    /// The wallet reported `chain_id_hex`: its numeric value, which, when it
    /// parses, also makes `chain_id_hex` the stored chain ID; a value that
    /// does not parse leaves the state unchanged.
    pub fn complete_get_chain_id(&mut self, chain_id_hex: String) -> (r: Option<u64>)
        ensures
            match parse_hex_unsigned(strip_hex_prefixes(chain_id_hex@), u64::MAX as int) {
                Some(v) => r matches Some(x) && x as int == v,
                None => r is None,
            },
            final(self)@.chain_id == (if r is Some { chain_id_hex@ } else { old(self)@.chain_id }),
            final(self)@.accounts == old(self)@.accounts,
            final(self)@.events == old(self)@.events,
    {
        let parsed = chain_id_from_hex(chain_id_hex.as_str());
        if parsed.is_some() {
            self.chain_id = chain_id_hex;
        }
        parsed
    }
}

/// Checks whether the Phantom extension is installed (the platform provides it).
pub trait ExtensionDetector: Send + Sync {
    /// Check if the Phantom extension is installed.
    fn is_installed(&self) -> bool;
}

/// Extension plugin result type.
pub struct Extension {
    detector: Box<dyn ExtensionDetector>,
}

impl Extension {
    /// Create a new Extension with the given detector.
    pub fn new(detector: Box<dyn ExtensionDetector>) -> (r: Self) {
        Extension { detector }
    }

    /// Check if the Phantom extension is installed; the detector decides.
    pub fn is_installed(&self) -> (r: bool) {
        self.detector.is_installed()
    }
}

} // verus!
