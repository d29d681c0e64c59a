//! State and decisions of the wrappers around injected (extension) wallet
//! chains: the listener registry, the cached connection state that the
//! provider's events keep up to date, when a request must first connect or
//! be re-authorized, and when a signing call falls back to a raw request.
//!
//! The calls into the wallet itself are asynchronous and stay with the
//! caller; these types hold what the wrappers decide between the calls.
use vstd::prelude::*;
use crate::text::{
    chars_of, contains_seq, find_seq, has_char, is_digit, is_unicode_whitespace,
    is_whitespace_char, occurs_at, parse_i64_chars, parse_signed, slice_chars, str_eq,
    string_from_chars, to_lowercase, unicode_lowercase,
};

verus! {

/// Listener identifiers registered per event name, in registration order.
pub struct EventListenerRegistry {
    entries: Vec<(String, u64)>,
    next_id: u64,
}

/// Abstract state of a listener registry.
pub struct RegistryView {
    /// `(event, listener id)` pairs in registration order.
    pub entries: Seq<(Seq<char>, u64)>,
    /// The identifier the next registration receives.
    pub next_id: u64,
}

/// The entries of a registry seen through the names' views.
pub open spec fn entries_view(v: Seq<(String, u64)>) -> Seq<(Seq<char>, u64)> {
    Seq::new(v.len(), |i: int| (v[i].0@, v[i].1))
}

impl View for EventListenerRegistry {
    type V = RegistryView;

    closed spec fn view(&self) -> RegistryView {
        RegistryView { entries: entries_view(self.entries@), next_id: self.next_id }
    }
}

/// The listener ids registered for `event`, in registration order.
pub open spec fn listeners_for(entries: Seq<(Seq<char>, u64)>, event: Seq<char>) -> Seq<u64>
    decreases entries.len(),
{
    if entries.len() == 0 {
        Seq::<u64>::empty()
    } else {
        let rest = listeners_for(entries.drop_last(), event);
        if entries.last().0 == event {
            rest.push(entries.last().1)
        } else {
            rest
        }
    }
}

/// The entries without the registrations of `id` for `event`.
pub open spec fn without_listener(entries: Seq<(Seq<char>, u64)>, event: Seq<char>, id: u64) -> Seq<(Seq<char>, u64)> {
    entries.filter(|e: (Seq<char>, u64)| !(e.0 == event && e.1 == id))
}

impl EventListenerRegistry {
    /// An empty registry whose first listener gets id 1.
    pub fn new() -> (r: Self)
        ensures
            r@.entries == Seq::<(Seq<char>, u64)>::empty(),
            r@.next_id == 1,
    {
        let r = EventListenerRegistry { entries: Vec::new(), next_id: 1 };
        proof {
            assert(entries_view(r.entries@) =~= Seq::<(Seq<char>, u64)>::empty());
        }
        r
    }

    /// Register a listener for `event` and return its id; ids count up from
    /// one, wrapping around after `u64::MAX`.
    pub fn add(&mut self, event: &str) -> (id: u64)
        ensures
            id == old(self)@.next_id,
            final(self)@.entries == old(self)@.entries.push((event@, id)),
            final(self)@.next_id == old(self)@.next_id.wrapping_add(1),
    {
        let id = self.next_id;
        self.next_id = self.next_id.wrapping_add(1);
        let ghost before = self.entries@;
        self.entries.push((String::from_str(event), id));
        proof {
            assert(entries_view(self.entries@) =~= entries_view(before).push((event@, id)));
        }
        id
    }

    /// Remove the listener `listener_id` of `event`.
    pub fn remove(&mut self, event: &str, listener_id: u64)
        ensures
            final(self)@.entries == without_listener(old(self)@.entries, event@, listener_id),
            final(self)@.next_id == old(self)@.next_id,
    {
        let ghost old_entries = entries_view(self.entries@);
        let mut kept: Vec<(String, u64)> = Vec::new();
        let mut i: usize = 0;
        proof {
            assert(old_entries.take(0) =~= Seq::<(Seq<char>, u64)>::empty());
            assert(entries_view(kept@) =~= Seq::<(Seq<char>, u64)>::empty());
        }
        while i < self.entries.len()
            invariant
                0 <= i <= self.entries@.len(),
                old_entries == entries_view(self.entries@),
                entries_view(kept@) == without_listener(old_entries.take(i as int), event@, listener_id),
            decreases self.entries@.len() - i,
        {
            let same = str_eq(self.entries[i].0.as_str(), event) && self.entries[i].1 == listener_id;
            let ghost before = kept@;
            proof {
                assert(old_entries.take(i + 1).drop_last() =~= old_entries.take(i as int));
                reveal_with_fuel(Seq::<(Seq<char>, u64)>::filter, 1);
            }
            if !same {
                let name = self.entries[i].0.clone();
                kept.push((name, self.entries[i].1));
                proof {
                    assert(entries_view(kept@) =~= entries_view(before).push(old_entries[i as int]));
                }
            }
            i = i + 1;
        }
        proof {
            assert(old_entries.take(self.entries@.len() as int) =~= old_entries);
        }
        self.entries = kept;
    }

    /// The ids of the listeners of `event`, in the order they are invoked.
    pub fn listeners(&self, event: &str) -> (r: Vec<u64>)
        ensures
            r@ == listeners_for(self@.entries, event@),
    {
        let ghost all = entries_view(self.entries@);
        let mut out: Vec<u64> = Vec::new();
        let mut i: usize = 0;
        proof {
            assert(all.take(0) =~= Seq::<(Seq<char>, u64)>::empty());
        }
        while i < self.entries.len()
            invariant
                0 <= i <= self.entries@.len(),
                all == entries_view(self.entries@),
                out@ == listeners_for(all.take(i as int), event@),
            decreases self.entries@.len() - i,
        {
            proof {
                assert(all.take(i + 1).drop_last() =~= all.take(i as int));
            }
            if str_eq(self.entries[i].0.as_str(), event) {
                out.push(self.entries[i].1);
            }
            i = i + 1;
        }
        proof {
            assert(all.take(self.entries@.len() as int) =~= all);
        }
        out
    }
}

/// Methods that require the wallet to be connected.
pub open spec fn is_auth_method(method: Seq<char>) -> bool {
    method == "personal_sign"@ || method == "eth_sign"@ || method == "eth_signTypedData"@ || method
        == "eth_signTypedData_v4"@ || method == "eth_sendTransaction"@ || method == "eth_signTransaction"@
}

/// Whether `method` requires the wallet to be connected.
pub fn requires_authorization(method: &str) -> (r: bool)
    ensures
        r == is_auth_method(method@),
{
    str_eq(method, "personal_sign") || str_eq(method, "eth_sign") || str_eq(method, "eth_signTypedData")
        || str_eq(method, "eth_signTypedData_v4") || str_eq(method, "eth_sendTransaction") || str_eq(
        method,
        "eth_signTransaction",
    )
}

/// Index of the first occurrence of `p` in `s` at or after `from`.
pub open spec fn first_occurrence_from(s: Seq<char>, p: Seq<char>, from: int) -> Option<int>
    decreases s.len() + 1 - from,
{
    if from < 0 || from > s.len() {
        None
    } else if occurs_at(s, p, from) {
        Some(from)
    } else {
        first_occurrence_from(s, p, from + 1)
    }
}

proof fn lemma_first_occurrence(s: Seq<char>, p: Seq<char>, from: int, i: int)
    requires
        0 <= from <= i,
        occurs_at(s, p, i),
        forall|j: int| from <= j < i ==> !occurs_at(s, p, j),
    ensures
        first_occurrence_from(s, p, from) == Some(i),
    decreases i - from,
{
    if from < i {
        lemma_first_occurrence(s, p, from + 1, i);
    }
}

proof fn lemma_no_occurrence(s: Seq<char>, p: Seq<char>, from: int)
    requires
        0 <= from,
        !contains_seq(s, p),
    ensures
        first_occurrence_from(s, p, from) is None,
    decreases s.len() + 1 - from,
{
    if from <= s.len() {
        assert(!occurs_at(s, p, from));
        lemma_no_occurrence(s, p, from + 1);
    }
}

/// Length of the leading run of `:` and white space of `s`.
pub open spec fn separator_run(s: Seq<char>, k: int) -> int
    decreases s.len() - k,
{
    if 0 <= k < s.len() && (s[k] == ':' || is_unicode_whitespace(s[k])) {
        separator_run(s, k + 1)
    } else {
        k
    }
}

/// End of the leading run of digits and `-` of `s` from `k`.
pub open spec fn code_run(s: Seq<char>, k: int) -> int
    decreases s.len() - k,
{
    if 0 <= k < s.len() && (is_digit(s[k]) || s[k] == '-') {
        code_run(s, k + 1)
    } else {
        k
    }
}

/// The number written after the first `"code"` of an error message: past
/// any `:` and white space, the run of digits and `-` read as an `i64`.
pub open spec fn json_code(msg: Seq<char>) -> Option<int> {
    match first_occurrence_from(msg, "\"code\""@, 0) {
        Some(pos) => {
            let after = msg.skip(pos + 6);
            let t = after.skip(separator_run(after, 0));
            parse_signed(t.take(code_run(t, 0)), i64::MIN as int, i64::MAX as int)
        },
        None => None,
    }
}

/// The error code found in a provider error message: the JSON `code` field
/// when it reads as a number, else 4100 when the message spells one of the
/// usual unauthorized patterns (`code 4100`, `code: 4100`, `error 4100`,
/// `Error 4100` as in "Error 4100: Unauthorized", `Error(4100`).
pub open spec fn error_code_of(msg: Seq<char>) -> Option<int> {
    match json_code(msg) {
        Some(c) => Some(c),
        None => if contains_seq(msg, "code 4100"@) || contains_seq(msg, "code: 4100"@) || contains_seq(
            msg,
            "error 4100"@,
        ) || contains_seq(msg, "Error 4100"@) || contains_seq(msg, "Error(4100"@) {
            Some(4100)
        } else {
            None
        },
    }
}

/// A removed listener is not called again, and the listeners of other
/// events stay: after `remove(event, id)`, `listeners(event)` no longer
/// lists `id`, and `listeners(other)` is unchanged for every other event.
pub proof fn law_removed_listener_not_listed(entries: Seq<(Seq<char>, u64)>, event: Seq<char>, id: u64)
    ensures
        !listeners_for(without_listener(entries, event, id), event).contains(id),
        forall|other: Seq<char>|
            other != event ==> listeners_for(without_listener(entries, event, id), other) == listeners_for(
                entries,
                other,
            ),
    decreases entries.len(),
{
    reveal_with_fuel(Seq::<(Seq<char>, u64)>::filter, 1);
    if entries.len() > 0 {
        let rest = entries.drop_last();
        law_removed_listener_not_listed(rest, event, id);
        let x = entries.last();
        let fr = without_listener(rest, event, id);
        let f = without_listener(entries, event, id);
        if !(x.0 == event && x.1 == id) {
            assert(f == fr.push(x));
            assert(f.drop_last() =~= fr);
            let lf = listeners_for(f, event);
            let lr = listeners_for(fr, event);
            assert(!lf.contains(id)) by {
                if x.0 == event {
                    assert(lf == lr.push(x.1));
                    if lf.contains(id) {
                        let k = choose|k: int| 0 <= k < lf.len() && lf[k] == id;
                        if k < lr.len() {
                            assert(lr[k] == id);
                        }
                    }
                } else {
                    assert(lf == lr);
                }
            }
            assert forall|other: Seq<char>| other != event implies listeners_for(f, other) == listeners_for(
                entries,
                other,
            ) by {
                assert(listeners_for(fr, other) == listeners_for(rest, other));
                assert(f.last() == x);
                assert(listeners_for(f, other) == (if x.0 == other {
                    listeners_for(fr, other).push(x.1)
                } else {
                    listeners_for(fr, other)
                }));
                assert(listeners_for(entries, other) == (if x.0 == other {
                    listeners_for(rest, other).push(x.1)
                } else {
                    listeners_for(rest, other)
                }));
            }
        } else {
            assert(f == fr);
            assert forall|other: Seq<char>| other != event implies listeners_for(f, other) == listeners_for(
                entries,
                other,
            ) by {
                assert(listeners_for(fr, other) == listeners_for(rest, other));
                assert(listeners_for(entries, other) == listeners_for(rest, other));
            }
        }
    }
}

/// Whether `s` contains `p`.
fn contains_lit(s: &[char], p: &str) -> (r: bool)
    ensures
        r == contains_seq(s@, p@),
{
    let pc = chars_of(p);
    match find_seq(s, pc.as_slice()) {
        Some(_) => true,
        None => false,
    }
}

/// Extract an error code from the text of a provider error (best effort).
pub fn extract_error_code(msg: &str) -> (r: Option<i64>)
    ensures
        match error_code_of(msg@) {
            Some(c) => r matches Some(x) && x as int == c,
            None => r is None,
        },
{
    let m = chars_of(msg);
    let key = chars_of("\"code\"");
    proof {
        reveal_strlit("\"code\"");
    }
    match find_seq(m.as_slice(), key.as_slice()) {
        Some(pos) => {
            proof {
                lemma_first_occurrence(m@, key@, 0, pos as int);
                assert(key@.len() == 6);
            }
            let n = m.len();
            assert(pos + 6 <= n);
            let after = slice_chars(m.as_slice(), pos + 6, m.len());
            proof {
                assert(after@ =~= m@.skip(pos + 6));
            }
            let mut k: usize = 0;
            while k < after.len() && (after[k] == ':' || is_whitespace_char(after[k]))
                invariant
                    0 <= k <= after@.len(),
                    separator_run(after@, k as int) == separator_run(after@, 0),
                decreases after@.len() - k,
            {
                k = k + 1;
            }
            let t = slice_chars(after.as_slice(), k, after.len());
            proof {
                assert(t@ =~= after@.skip(k as int));
            }
            let mut e: usize = 0;
            while e < t.len() && (('0' <= t[e] && t[e] <= '9') || t[e] == '-')
                invariant
                    0 <= e <= t@.len(),
                    code_run(t@, e as int) == code_run(t@, 0),
                decreases t@.len() - e,
            {
                e = e + 1;
            }
            let cand = slice_chars(t.as_slice(), 0, e);
            proof {
                assert(cand@ =~= t@.take(e as int));
            }
            if let Some(code) = parse_i64_chars(cand.as_slice()) {
                return Some(code);
            }
        },
        None => {
            proof {
                lemma_no_occurrence(m@, key@, 0);
            }
        },
    }
    if contains_lit(m.as_slice(), "code 4100") || contains_lit(m.as_slice(), "code: 4100")
        || contains_lit(m.as_slice(), "error 4100") || contains_lit(m.as_slice(), "Error 4100")
        || contains_lit(m.as_slice(), "Error(4100") {
        return Some(4100);
    }
    None
}

/// Whether a provider error message, in its Unicode lower-case form, says
/// that the method is unsupported.
pub open spec fn says_unsupported(lowered: Seq<char>) -> bool {
    contains_seq(lowered, "unsupported"@) || contains_seq(lowered, "not implemented"@) || contains_seq(
        lowered,
        "not supported"@,
    )
}

/// Whether an already lower-cased error message says that the method is unsupported.
pub fn lowered_says_unsupported(lowered: &str) -> (r: bool)
    ensures
        r == says_unsupported(lowered@),
{
    let l = chars_of(lowered);
    contains_lit(l.as_slice(), "unsupported") || contains_lit(l.as_slice(), "not implemented")
        || contains_lit(l.as_slice(), "not supported")
}

/// Whether a signing call that failed with `message` falls back to the raw
/// JSON-RPC request: the error says the direct method is unsupported.
pub fn is_unsupported_error(message: &str) -> (r: bool)
    ensures
        r == says_unsupported(unicode_lowercase(message@)),
{
    let lowered = to_lowercase(message);
    lowered_says_unsupported(lowered.as_str())
}

/// The signing operations of an Ethereum chain that fall back to a raw request.
#[derive(Debug, Clone, Copy, PartialEq, Eq, Structural)]
pub enum EthSigningOperation {
    SignPersonalMessage,
    SignTypedData,
    SignTransaction,
    SendTransaction,
}

/// The JSON-RPC method a signing operation falls back to.
pub open spec fn fallback_method_of(op: EthSigningOperation) -> Seq<char> {
    match op {
        EthSigningOperation::SignPersonalMessage => "personal_sign"@,
        EthSigningOperation::SignTypedData => "eth_signTypedData_v4"@,
        EthSigningOperation::SignTransaction => "eth_signTransaction"@,
        EthSigningOperation::SendTransaction => "eth_sendTransaction"@,
    }
}

/// The JSON-RPC method a signing operation falls back to.
pub fn fallback_method(op: EthSigningOperation) -> (r: &'static str)
    ensures
        r@ == fallback_method_of(op),
{
    match op {
        EthSigningOperation::SignPersonalMessage => "personal_sign",
        EthSigningOperation::SignTypedData => "eth_signTypedData_v4",
        EthSigningOperation::SignTransaction => "eth_signTransaction",
        EthSigningOperation::SendTransaction => "eth_sendTransaction",
    }
}

/// The JSON-RPC error code of an unauthorized request.
pub const UNAUTHORIZED_CODE: i64 = 4100;

/// Whether a failed request should be retried after re-authorization: its
/// error carries the code 4100 (Unauthorized).
pub fn should_reauthorize(error_message: &str) -> (r: bool)
    ensures
        r == (error_code_of(error_message@) == Some(4100int)),
{
    match extract_error_code(error_message) {
        Some(c) => c == UNAUTHORIZED_CODE,
        None => false,
    }
}

/// What a signing call does after the wallet's direct method failed with
/// `message`: when the error says the method is unsupported, the raw
/// JSON-RPC request it falls back to; otherwise none, and the error is
/// returned as it is.
pub fn fallback_after_failure(op: EthSigningOperation, message: &str) -> (r: Option<&'static str>)
    ensures
        match r {
            Some(m) => says_unsupported(unicode_lowercase(message@)) && m@ == fallback_method_of(op),
            None => !says_unsupported(unicode_lowercase(message@)),
        },
{
    if is_unsupported_error(message) {
        Some(fallback_method(op))
    } else {
        None
    }
}

/// Where a request through the Ethereum wrapper stands.
#[derive(Debug, Clone, Copy, PartialEq, Eq, Structural)]
pub enum EthRequestStage {
    /// Connecting the wallet before a method that needs authorization.
    Connecting,
    /// The request has been sent once.
    Sending,
    /// Asking the wallet for its accounts again after an Unauthorized error.
    Reauthorizing,
    /// The request has been sent a second time, after re-authorization.
    Retrying,
    /// Nothing more is sent.
    Done,
}

/// What the caller of a request does next.
#[derive(Debug, Clone, Copy, PartialEq, Eq, Structural)]
pub enum EthRequestAction {
    /// Connect the wallet.
    Connect,
    /// Send the request (method and parameters as given) to the wallet.
    Send,
    /// Send `eth_requestAccounts` with no parameters.
    Reauthorize,
    /// Return the outcome of the last call made, success or error.
    ReturnLast,
}

/// The outcome of the call that an action asked for.
#[derive(Debug)]
pub enum CallOutcome {
    Succeeded,
    /// The call failed with this error text.
    Failed(String),
}

/// The next stage and action of a request after the outcome of its last call.
pub open spec fn request_transition(stage: EthRequestStage, outcome: CallOutcome) -> (EthRequestStage, EthRequestAction) {
    match stage {
        EthRequestStage::Connecting => match outcome {
            CallOutcome::Succeeded => (EthRequestStage::Sending, EthRequestAction::Send),
            CallOutcome::Failed(_) => (EthRequestStage::Done, EthRequestAction::ReturnLast),
        },
        EthRequestStage::Sending => match outcome {
            CallOutcome::Succeeded => (EthRequestStage::Done, EthRequestAction::ReturnLast),
            CallOutcome::Failed(m) => if error_code_of(m@) == Some(4100int) {
                (EthRequestStage::Reauthorizing, EthRequestAction::Reauthorize)
            } else {
                (EthRequestStage::Done, EthRequestAction::ReturnLast)
            },
        },
        EthRequestStage::Reauthorizing => match outcome {
            CallOutcome::Succeeded => (EthRequestStage::Retrying, EthRequestAction::Send),
            CallOutcome::Failed(_) => (EthRequestStage::Done, EthRequestAction::ReturnLast),
        },
        EthRequestStage::Retrying => (EthRequestStage::Done, EthRequestAction::ReturnLast),
        EthRequestStage::Done => (EthRequestStage::Done, EthRequestAction::ReturnLast),
    }
}

/// One step of a request: the next stage and action after `outcome`.
pub fn request_step(stage: EthRequestStage, outcome: &CallOutcome) -> (r: (EthRequestStage, EthRequestAction))
    ensures
        r == request_transition(stage, *outcome),
{
    match stage {
        EthRequestStage::Connecting => match outcome {
            CallOutcome::Succeeded => (EthRequestStage::Sending, EthRequestAction::Send),
            CallOutcome::Failed(_) => (EthRequestStage::Done, EthRequestAction::ReturnLast),
        },
        EthRequestStage::Sending => match outcome {
            CallOutcome::Succeeded => (EthRequestStage::Done, EthRequestAction::ReturnLast),
            CallOutcome::Failed(m) => if should_reauthorize(m.as_str()) {
                (EthRequestStage::Reauthorizing, EthRequestAction::Reauthorize)
            } else {
                (EthRequestStage::Done, EthRequestAction::ReturnLast)
            },
        },
        EthRequestStage::Reauthorizing => match outcome {
            CallOutcome::Succeeded => (EthRequestStage::Retrying, EthRequestAction::Send),
            CallOutcome::Failed(_) => (EthRequestStage::Done, EthRequestAction::ReturnLast),
        },
        EthRequestStage::Retrying => (EthRequestStage::Done, EthRequestAction::ReturnLast),
        EthRequestStage::Done => (EthRequestStage::Done, EthRequestAction::ReturnLast),
    }
}

/// A request ends: whatever the outcomes of its calls, four steps from any
/// stage reach `Done`, so the wallet is sent the request at most twice and
/// re-authorization is tried at most once.
pub proof fn law_request_ends(s: EthRequestStage, o1: CallOutcome, o2: CallOutcome, o3: CallOutcome, o4: CallOutcome)
    ensures
        ({
            let t1 = request_transition(s, o1);
            let t2 = request_transition(t1.0, o2);
            let t3 = request_transition(t2.0, o3);
            let t4 = request_transition(t3.0, o4);
            t4.0 == EthRequestStage::Done && t4.1 == EthRequestAction::ReturnLast
        }),
{
}

/// Re-authorization comes only after an Unauthorized (4100) error of the
/// first send, and is followed by exactly one more send when it succeeds.
pub proof fn law_reauthorize_only_on_unauthorized(s: EthRequestStage, o: CallOutcome)
    ensures
        request_transition(s, o).1 == EthRequestAction::Reauthorize ==> s == EthRequestStage::Sending
            && (o matches CallOutcome::Failed(m) && error_code_of(m@) == Some(4100int)),
        request_transition(EthRequestStage::Reauthorizing, CallOutcome::Succeeded) == (
        EthRequestStage::Retrying,
        EthRequestAction::Send,
        ),
        request_transition(EthRequestStage::Retrying, o).0 == EthRequestStage::Done,
{
}

/// Wrapper state of an injected Ethereum wallet: the cached connection,
/// chain and accounts that the provider's events keep up to date, and the
/// wrapper's own listeners.
pub struct InjectedWalletEthereumChain {
    wallet_id: String,
    wallet_name: String,
    connected: bool,
    chain_id: String,
    accounts: Vec<String>,
    events: EventListenerRegistry,
}

/// Abstract state of an injected Ethereum wallet wrapper.
pub struct EthereumChainState {
    pub wallet_id: Seq<char>,
    pub wallet_name: Seq<char>,
    pub connected: bool,
    pub chain_id: Seq<char>,
    pub accounts: Seq<Seq<char>>,
    pub events: RegistryView,
}

impl View for InjectedWalletEthereumChain {
    type V = EthereumChainState;

    closed spec fn view(&self) -> EthereumChainState {
        EthereumChainState {
            wallet_id: self.wallet_id@,
            wallet_name: self.wallet_name@,
            connected: self.connected,
            chain_id: self.chain_id@,
            accounts: self.accounts.deep_view(),
            events: self.events@,
        }
    }
}

impl InjectedWalletEthereumChain {
    /// A wrapper seeded with the wallet's current accounts and chain; it is
    /// connected when there are accounts.
    pub fn new(wallet_id: String, wallet_name: String, accounts: Vec<String>, chain_id: String) -> (r: Self)
        ensures
            r@.wallet_id == wallet_id@,
            r@.wallet_name == wallet_name@,
            r@.connected == (accounts@.len() > 0),
            r@.chain_id == chain_id@,
            r@.accounts == accounts.deep_view(),
            r@.events.entries == Seq::<(Seq<char>, u64)>::empty(),
            r@.events.next_id == 1,
    {
        let connected = accounts.len() > 0;
        InjectedWalletEthereumChain {
            wallet_id,
            wallet_name,
            connected,
            chain_id,
            accounts,
            events: EventListenerRegistry::new(),
        }
    }

    /// Whether the wallet is believed to be connected.
    pub fn is_connected(&self) -> (r: bool)
        ensures
            r == self@.connected,
    {
        self.connected
    }

    /// The cached chain ID.
    pub fn chain_id(&self) -> (r: String)
        ensures
            r@ == self@.chain_id,
    {
        self.chain_id.clone()
    }

    /// The cached accounts.
    pub fn accounts(&self) -> (r: Vec<String>)
        ensures
            r.deep_view() == self@.accounts,
    {
        let mut out: Vec<String> = Vec::new();
        let mut i: usize = 0;
        while i < self.accounts.len()
            invariant
                0 <= i <= self.accounts@.len(),
                out.deep_view() == self.accounts.deep_view().take(i as int),
            decreases self.accounts@.len() - i,
        {
            let c = self.accounts[i].clone();
            let ghost before = out@;
            assert(Seq::new(before.len(), |j: int| before[j]@) == self.accounts.deep_view().take(i as int));
            out.push(c);
            proof {
                assert(out@ == before.push(c));
                let a = self.accounts.deep_view().take(i + 1);
                assert forall|j: int| 0 <= j < i + 1 implies out.deep_view()[j] == a[j] by {
                    if j < i {
                        assert(before[j]@ == self.accounts.deep_view().take(i as int)[j]);
                    }
                }
                assert(out.deep_view() =~= a);
            }
            i = i + 1;
        }
        proof {
            assert(self.accounts.deep_view().take(self.accounts@.len() as int) =~= self.accounts.deep_view());
        }
        out
    }

    /// Whether a request for `method` must first connect the wallet: the
    /// method needs authorization and the wallet is not connected or has no
    /// accounts.
    pub fn needs_connect_before(&self, method: &str) -> (r: bool)
        ensures
            r == (is_auth_method(method@) && (!self@.connected || self@.accounts.len() == 0)),
    {
        requires_authorization(method) && (!self.connected || self.accounts.len() == 0)
    }

    /// The first stage and action of a request for `method`: connect first
    /// when the method needs authorization and the wallet is not connected
    /// or has no accounts, else send it.
    pub fn begin_request(&self, method: &str) -> (r: (EthRequestStage, EthRequestAction))
        ensures
            r == if is_auth_method(method@) && (!self@.connected || self@.accounts.len() == 0) {
                (EthRequestStage::Connecting, EthRequestAction::Connect)
            } else {
                (EthRequestStage::Sending, EthRequestAction::Send)
            },
    {
        if self.needs_connect_before(method) {
            (EthRequestStage::Connecting, EthRequestAction::Connect)
        } else {
            (EthRequestStage::Sending, EthRequestAction::Send)
        }
    }

    /// The provider's `connect` event: connected, and on the chain it names.
    pub fn handle_connect_event(&mut self, chain_id: Option<String>)
        ensures
            final(self)@.connected,
            final(self)@.chain_id == match chain_id {
                Some(c) => c@,
                None => old(self)@.chain_id,
            },
            final(self)@.accounts == old(self)@.accounts,
            final(self)@.events == old(self)@.events,
            final(self)@.wallet_id == old(self)@.wallet_id,
            final(self)@.wallet_name == old(self)@.wallet_name,
    {
        self.connected = true;
        if let Some(c) = chain_id {
            self.chain_id = c;
        }
    }

    /// The provider's `disconnect` event: disconnected, with no accounts.
    pub fn handle_disconnect_event(&mut self)
        ensures
            !final(self)@.connected,
            final(self)@.accounts == Seq::<Seq<char>>::empty(),
            final(self)@.chain_id == old(self)@.chain_id,
            final(self)@.events == old(self)@.events,
            final(self)@.wallet_id == old(self)@.wallet_id,
            final(self)@.wallet_name == old(self)@.wallet_name,
    {
        self.connected = false;
        self.accounts = Vec::new();
        proof {
            assert(self.accounts.deep_view() =~= Seq::<Seq<char>>::empty());
        }
    }

    /// The provider's `accountsChanged` event; `accounts` holds the string
    /// entries of the event's array, and is absent when the payload is not
    /// an array (the cache is then kept).
    pub fn handle_accounts_changed_event(&mut self, accounts: Option<Vec<String>>)
        ensures
            match accounts {
                Some(a) => final(self)@.accounts == a.deep_view() && final(self)@.connected == (a@.len()
                    > 0),
                None => final(self)@.accounts == old(self)@.accounts && final(self)@.connected
                    == old(self)@.connected,
            },
            final(self)@.chain_id == old(self)@.chain_id,
            final(self)@.events == old(self)@.events,
            final(self)@.wallet_id == old(self)@.wallet_id,
            final(self)@.wallet_name == old(self)@.wallet_name,
    {
        if let Some(a) = accounts {
            self.connected = a.len() > 0;
            self.accounts = a;
        }
    }

    /// The provider's `chainChanged` event; `chain_id` is absent when the
    /// payload is not a string (the cache is then kept).
    pub fn handle_chain_changed_event(&mut self, chain_id: Option<String>)
        ensures
            final(self)@.chain_id == match chain_id {
                Some(c) => c@,
                None => old(self)@.chain_id,
            },
            final(self)@.connected == old(self)@.connected,
            final(self)@.accounts == old(self)@.accounts,
            final(self)@.events == old(self)@.events,
            final(self)@.wallet_id == old(self)@.wallet_id,
            final(self)@.wallet_name == old(self)@.wallet_name,
    {
        if let Some(c) = chain_id {
            self.chain_id = c;
        }
    }

    /// A successful `connect`: connected when accounts came back, which are
    /// cached with the wallet's current chain.
    pub fn record_connect(&mut self, accounts: Vec<String>, chain_id: String)
        ensures
            final(self)@.connected == (accounts@.len() > 0),
            final(self)@.accounts == accounts.deep_view(),
            final(self)@.chain_id == chain_id@,
            final(self)@.events == old(self)@.events,
            final(self)@.wallet_id == old(self)@.wallet_id,
            final(self)@.wallet_name == old(self)@.wallet_name,
    {
        self.connected = accounts.len() > 0;
        self.accounts = accounts;
        self.chain_id = chain_id;
    }

    /// A successful `disconnect`: disconnected, with no accounts.
    pub fn record_disconnect(&mut self)
        ensures
            !final(self)@.connected,
            final(self)@.accounts == Seq::<Seq<char>>::empty(),
            final(self)@.chain_id == old(self)@.chain_id,
            final(self)@.events == old(self)@.events,
            final(self)@.wallet_id == old(self)@.wallet_id,
            final(self)@.wallet_name == old(self)@.wallet_name,
    {
        self.handle_disconnect_event();
    }

    /// Accounts read from the wallet replace the cached ones.
    pub fn record_accounts(&mut self, accounts: Vec<String>)
        ensures
            final(self)@.accounts == accounts.deep_view(),
            final(self)@.connected == old(self)@.connected,
            final(self)@.chain_id == old(self)@.chain_id,
            final(self)@.events == old(self)@.events,
            final(self)@.wallet_id == old(self)@.wallet_id,
            final(self)@.wallet_name == old(self)@.wallet_name,
    {
        self.accounts = accounts;
    }

    /// The wallet's current chain replaces the cached one (after a switch or
    /// a chain ID query).
    pub fn record_chain_id(&mut self, chain_id: String)
        ensures
            final(self)@.chain_id == chain_id@,
            final(self)@.connected == old(self)@.connected,
            final(self)@.accounts == old(self)@.accounts,
            final(self)@.events == old(self)@.events,
            final(self)@.wallet_id == old(self)@.wallet_id,
            final(self)@.wallet_name == old(self)@.wallet_name,
    {
        self.chain_id = chain_id;
    }

    /// Register a listener on the wrapper for `event`.
    pub fn on(&mut self, event: &str) -> (id: u64)
        ensures
            id == old(self)@.events.next_id,
            final(self)@.events.entries == old(self)@.events.entries.push((event@, id)),
            final(self)@.events.next_id == old(self)@.events.next_id.wrapping_add(1),
            final(self)@.connected == old(self)@.connected,
            final(self)@.accounts == old(self)@.accounts,
            final(self)@.chain_id == old(self)@.chain_id,
            final(self)@.wallet_id == old(self)@.wallet_id,
            final(self)@.wallet_name == old(self)@.wallet_name,
    {
        self.events.add(event)
    }

    /// Remove the wrapper's listener `listener_id` of `event`.
    pub fn off(&mut self, event: &str, listener_id: u64)
        ensures
            final(self)@.events.entries == without_listener(old(self)@.events.entries, event@, listener_id),
            final(self)@.events.next_id == old(self)@.events.next_id,
            final(self)@.connected == old(self)@.connected,
            final(self)@.accounts == old(self)@.accounts,
            final(self)@.chain_id == old(self)@.chain_id,
            final(self)@.wallet_id == old(self)@.wallet_id,
            final(self)@.wallet_name == old(self)@.wallet_name,
    {
        self.events.remove(event, listener_id)
    }

    /// The ids of the wrapper's listeners of `event`, in invocation order.
    pub fn listeners(&self, event: &str) -> (r: Vec<u64>)
        ensures
            r@ == listeners_for(self@.events.entries, event@),
    {
        self.events.listeners(event)
    }
}

/// Wrapper state of an injected Solana wallet: the cached public key that
/// the provider's events keep up to date, and the wrapper's own listeners.
pub struct InjectedWalletSolanaChain {
    wallet_id: String,
    wallet_name: String,
    public_key: Option<String>,
    events: EventListenerRegistry,
}

/// Abstract state of an injected Solana wallet wrapper.
pub struct SolanaChainState {
    pub wallet_id: Seq<char>,
    pub wallet_name: Seq<char>,
    pub public_key: Option<Seq<char>>,
    pub events: RegistryView,
}

impl View for InjectedWalletSolanaChain {
    type V = SolanaChainState;

    closed spec fn view(&self) -> SolanaChainState {
        SolanaChainState {
            wallet_id: self.wallet_id@,
            wallet_name: self.wallet_name@,
            public_key: crate::text::opt_view(self.public_key),
            events: self.events@,
        }
    }
}

impl InjectedWalletSolanaChain {
    /// A wrapper seeded with the wallet's current public key.
    pub fn new(wallet_id: String, wallet_name: String, public_key: Option<String>) -> (r: Self)
        ensures
            r@.wallet_id == wallet_id@,
            r@.wallet_name == wallet_name@,
            r@.public_key == crate::text::opt_view(public_key),
            r@.events.entries == Seq::<(Seq<char>, u64)>::empty(),
            r@.events.next_id == 1,
    {
        InjectedWalletSolanaChain { wallet_id, wallet_name, public_key, events: EventListenerRegistry::new() }
    }

    /// The cached public key.
    pub fn public_key(&self) -> (r: Option<String>)
        ensures
            crate::text::opt_view(r) == self@.public_key,
    {
        match &self.public_key {
            Some(k) => Some(k.clone()),
            None => None,
        }
    }

    /// Connected when the wallet says so or a public key is cached.
    pub fn is_connected(&self, wallet_connected: bool) -> (r: bool)
        ensures
            r == (wallet_connected || self@.public_key is Some),
    {
        wallet_connected || self.public_key.is_some()
    }

    /// The provider's `connect` event with the public key it carries, if any.
    pub fn handle_connect_event(&mut self, public_key: Option<String>)
        ensures
            final(self)@.public_key == match public_key {
                Some(k) => Some(k@),
                None => old(self)@.public_key,
            },
            final(self)@.events == old(self)@.events,
            final(self)@.wallet_id == old(self)@.wallet_id,
            final(self)@.wallet_name == old(self)@.wallet_name,
    {
        if let Some(k) = public_key {
            self.public_key = Some(k);
        }
    }

    /// The provider's `disconnect` event: no public key.
    pub fn handle_disconnect_event(&mut self)
        ensures
            final(self)@.public_key is None,
            final(self)@.events == old(self)@.events,
            final(self)@.wallet_id == old(self)@.wallet_id,
            final(self)@.wallet_name == old(self)@.wallet_name,
    {
        self.public_key = None;
    }

    /// The provider's `accountChanged` event: the key it carries, with an
    /// absent or empty key clearing the cache.
    pub fn handle_account_changed_event(&mut self, public_key: Option<String>)
        ensures
            final(self)@.public_key == match public_key {
                Some(k) => if k@.len() > 0 { Some(k@) } else { None },
                None => None,
            },
            final(self)@.events == old(self)@.events,
            final(self)@.wallet_id == old(self)@.wallet_id,
            final(self)@.wallet_name == old(self)@.wallet_name,
    {
        self.public_key = match public_key {
            Some(k) => {
                let c = chars_of(k.as_str());
                if c.len() > 0 {
                    Some(k)
                } else {
                    None
                }
            },
            None => None,
        };
    }

    /// Validates a successful `connect`: the wallet must report itself
    /// connected and return a non-empty public key, which is then cached.
    pub fn record_connect(&mut self, wallet_connected: bool, public_key: &str) -> (r: Result<(), String>)
        ensures
            if !wallet_connected {
                r matches Err(e) && e@ == "Provider not connected after connect() call"@
                    && final(self)@.public_key == old(self)@.public_key
            } else if public_key@.len() == 0 {
                r matches Err(e) && e@ == "Empty publicKey from provider"@ && final(self)@.public_key
                    == old(self)@.public_key
            } else {
                r is Ok && final(self)@.public_key == Some(public_key@)
            },
            final(self)@.events == old(self)@.events,
            final(self)@.wallet_id == old(self)@.wallet_id,
            final(self)@.wallet_name == old(self)@.wallet_name,
    {
        if !wallet_connected {
            return Err(String::from_str("Provider not connected after connect() call"));
        }
        let k = chars_of(public_key);
        if k.len() == 0 {
            return Err(String::from_str("Empty publicKey from provider"));
        }
        self.public_key = Some(String::from_str(public_key));
        Ok(())
    }

    /// A successful `disconnect`: no public key.
    pub fn record_disconnect(&mut self)
        ensures
            final(self)@.public_key is None,
            final(self)@.events == old(self)@.events,
            final(self)@.wallet_id == old(self)@.wallet_id,
            final(self)@.wallet_name == old(self)@.wallet_name,
    {
        self.public_key = None;
    }

    /// A successful sign-in caches the signed-in address when it is non-empty.
    pub fn record_sign_in(&mut self, address: &str)
        ensures
            final(self)@.public_key == if address@.len() > 0 {
                Some(address@)
            } else {
                old(self)@.public_key
            },
            final(self)@.events == old(self)@.events,
            final(self)@.wallet_id == old(self)@.wallet_id,
            final(self)@.wallet_name == old(self)@.wallet_name,
    {
        let a = chars_of(address);
        if a.len() > 0 {
            self.public_key = Some(String::from_str(address));
        }
    }

    /// The public key reported with a signed message: the wallet's own, or
    /// the cached key (empty when none) when the wallet sent an empty one.
    pub fn signer_public_key(&self, reported: &str) -> (r: String)
        ensures
            r@ == if reported@.len() > 0 {
                reported@
            } else {
                match self@.public_key {
                    Some(k) => k,
                    None => Seq::<char>::empty(),
                }
            },
    {
        let rep = chars_of(reported);
        if rep.len() > 0 {
            String::from_str(reported)
        } else {
            match &self.public_key {
                Some(k) => k.clone(),
                None => String::new(),
            }
        }
    }

    /// Register a listener on the wrapper for `event`.
    pub fn on(&mut self, event: &str) -> (id: u64)
        ensures
            id == old(self)@.events.next_id,
            final(self)@.events.entries == old(self)@.events.entries.push((event@, id)),
            final(self)@.events.next_id == old(self)@.events.next_id.wrapping_add(1),
            final(self)@.public_key == old(self)@.public_key,
            final(self)@.wallet_id == old(self)@.wallet_id,
            final(self)@.wallet_name == old(self)@.wallet_name,
    {
        self.events.add(event)
    }

    /// Remove the wrapper's listener `listener_id` of `event`.
    pub fn off(&mut self, event: &str, listener_id: u64)
        ensures
            final(self)@.events.entries == without_listener(old(self)@.events.entries, event@, listener_id),
            final(self)@.events.next_id == old(self)@.events.next_id,
            final(self)@.public_key == old(self)@.public_key,
            final(self)@.wallet_id == old(self)@.wallet_id,
            final(self)@.wallet_name == old(self)@.wallet_name,
    {
        self.events.remove(event, listener_id)
    }

    /// The ids of the wrapper's listeners of `event`, in invocation order.
    pub fn listeners(&self, event: &str) -> (r: Vec<u64>)
        ensures
            r@ == listeners_for(self@.events.entries, event@),
    {
        self.events.listeners(event)
    }
}

} // verus!
