//! The registry of discovered injected wallets: Phantom, wallets announced
//! through EIP-6963 or the Wallet Standard, and the custom wallets.
use vstd::prelude::*;
use crate::client_constants::AddressFormat;
use crate::text::{chars_of, opt_view, str_eq};

verus! {

/// How a wallet was discovered.
#[derive(Debug, Clone, Copy, PartialEq, Eq, Hash, Structural)]
pub enum DiscoverySource {
    Phantom,
    Eip6963,
    Standard,
    Custom,
}

/// The name of a discovery source.
pub open spec fn discovery_name(d: DiscoverySource) -> Seq<char> {
    match d {
        DiscoverySource::Phantom => "phantom"@,
        DiscoverySource::Eip6963 => "eip6963"@,
        DiscoverySource::Standard => "standard"@,
        DiscoverySource::Custom => "custom"@,
    }
}

/// The discovery source with a given name.
pub open spec fn discovery_of_name(s: Seq<char>) -> Option<DiscoverySource> {
    if s == "phantom"@ {
        Some(DiscoverySource::Phantom)
    } else if s == "eip6963"@ {
        Some(DiscoverySource::Eip6963)
    } else if s == "standard"@ {
        Some(DiscoverySource::Standard)
    } else if s == "custom"@ {
        Some(DiscoverySource::Custom)
    } else {
        None
    }
}

impl DiscoverySource {
    /// The name of the source.
    pub fn as_str(&self) -> (r: &'static str)
        ensures
            r@ == discovery_name(*self),
    {
        match self {
            DiscoverySource::Phantom => "phantom",
            DiscoverySource::Eip6963 => "eip6963",
            DiscoverySource::Standard => "standard",
            DiscoverySource::Custom => "custom",
        }
    }

    /// The source with the given name, if any.
    pub fn from_str(s: &str) -> (r: Option<Self>)
        ensures
            r == discovery_of_name(s@),
    {
        if str_eq(s, "phantom") {
            Some(DiscoverySource::Phantom)
        } else if str_eq(s, "eip6963") {
            Some(DiscoverySource::Eip6963)
        } else if str_eq(s, "standard") {
            Some(DiscoverySource::Standard)
        } else if str_eq(s, "custom") {
            Some(DiscoverySource::Custom)
        } else {
            None
        }
    }
}

/// Reading back the name of a discovery source gives the source.
pub proof fn law_discovery_name_roundtrip(d: DiscoverySource)
    ensures
        discovery_of_name(discovery_name(d)) == Some(d),
{
    reveal_strlit("phantom");
    reveal_strlit("eip6963");
    reveal_strlit("standard");
    reveal_strlit("custom");
    let p = "phantom"@;
    let e = "eip6963"@;
    let s = "standard"@;
    let c = "custom"@;
    assert(e[0] != p[0] && s[0] != p[0] && s[0] != e[0] && c[0] != p[0] && c[0] != e[0] && c[0] != s[0]);
}

/// A discovered injected wallet; `P` holds the chain providers it offers.
#[derive(Debug, Clone)]
pub struct InjectedWalletInfo<P> {
    pub id: String,
    pub name: String,
    pub icon: Option<String>,
    pub address_types: Vec<AddressFormat>,
    pub providers: Option<P>,
    pub rdns: Option<String>,
    pub discovery: Option<String>,
}

impl<P> InjectedWalletInfo<P> {
    /// The chain providers of the wallet, if known.
    pub fn providers(&self) -> (r: Option<&P>)
        ensures
            r == match self.providers {
                Some(p) => Some(&p),
                None => None::<&P>,
            },
    {
        match &self.providers {
            Some(p) => Some(p),
            None => None,
        }
    }

    /// The discovery source named by the wallet's `discovery` field.
    pub fn discovery_source(&self) -> (r: Option<DiscoverySource>)
        ensures
            r == match self.discovery {
                Some(d) => discovery_of_name(d@),
                None => None,
            },
    {
        match &self.discovery {
            Some(d) => DiscoverySource::from_str(d.as_str()),
            None => None,
        }
    }
}

/// Whether a wallet is Phantom itself.
pub fn is_phantom_wallet<P>(wallet: &InjectedWalletInfo<P>) -> (r: bool)
    ensures
        r == (wallet.id@ == "phantom"@),
{
    str_eq(wallet.id.as_str(), "phantom")
}

/// Configuration of a custom (non-standard) wallet.
#[derive(Debug, Clone)]
pub struct CustomWalletConfig {
    pub id: String,
    pub name: String,
    pub icon: String,
    pub window_property: String,
    pub address_types: Vec<AddressFormat>,
}

/// The icon of the custom Coinbase wallet.
pub const COINBASE_WALLET_ICON: &'static str = "data:image/svg+xml;base64,PHN2ZyB3aWR0aD0iNTYiIGhlaWdodD0iNTYiIGZpbGw9Im5vbmUiIHhtbG5zPSJodHRwOi8vd3d3LnczLm9yZy8yMDAwL3N2ZyI+PHBhdGggZD0iTTI4IDU2YzE1LjQ2NCAwIDI4LTEyLjUzNiAyOC0yOFM0My40NjQgMCAyOCAwIDAgMTIuNTM2IDAgMjhzMTIuNTM2IDI4IDI4IDI4WiIgZmlsbD0iIzFCNTNFNCIvPjxwYXRoIGZpbGwtcnVsZT0iZXZlbm9kZCIgY2xpcC1ydWxlPSJldmVub2RkIiBkPSJNNyAyOGMwIDExLjU5OCA5LjQwMiAyMSAyMSAyMXMyMS05LjQwMiAyMS0yMVMzOS41OTggNyAyOCA3IDcgMTYuNDAyIDcgMjhabTE3LjIzNC02Ljc2NmEzIDMgMCAwIDAtMyAzdjcuNTMzYTMgMyAwIDAgMCAzIDNoNy41MzNhMyAzIDAgMCAwIDMtM3YtNy41MzNhMyAzIDAgMCAwLTMtM2gtNy41MzNaIiBmaWxsPSIjZmZmIi8+PC9zdmc+";

/// The custom wallets: Coinbase Wallet on Solana.
pub fn custom_wallet_configs() -> (r: Vec<CustomWalletConfig>)
    ensures
        r@.len() == 1,
        r@[0].id@ == "coinbase-wallet"@,
        r@[0].name@ == "Coinbase Wallet"@,
        r@[0].icon@ == COINBASE_WALLET_ICON@,
        r@[0].window_property@ == "coinbaseSolana"@,
        r@[0].address_types@ == seq![AddressFormat::Solana],
{
    let types = vec![AddressFormat::Solana];
    proof {
        assert(types@ =~= seq![AddressFormat::Solana]);
    }
    vec![
        CustomWalletConfig {
            id: String::from_str("coinbase-wallet"),
            name: String::from_str("Coinbase Wallet"),
            icon: String::from_str(COINBASE_WALLET_ICON),
            window_property: String::from_str("coinbaseSolana"),
            address_types: types,
        },
    ]
}

/// The registry of discovered wallets, at most one per wallet ID, in the
/// order they were first registered.
pub struct InjectedWalletRegistry<P> {
    wallets: Vec<InjectedWalletInfo<P>>,
}

/// The IDs of a list of wallets.
pub open spec fn wallet_ids<P>(ws: Seq<InjectedWalletInfo<P>>) -> Seq<Seq<char>> {
    Seq::new(ws.len(), |i: int| ws[i].id@)
}

/// No two wallets share an ID.
pub open spec fn ids_unique<P>(ws: Seq<InjectedWalletInfo<P>>) -> bool {
    forall|i: int, j: int| 0 <= i < ws.len() && 0 <= j < ws.len() && i != j ==> ws[i].id@ != ws[j].id@
}

/// Whether the wallet list has a wallet with this ID.
pub open spec fn has_wallet<P>(ws: Seq<InjectedWalletInfo<P>>, id: Seq<char>) -> bool {
    exists|i: int| 0 <= i < ws.len() && ws[i].id@ == id
}

/// A wallet supports one of the requested address types.
pub open spec fn supports_any<P>(w: InjectedWalletInfo<P>, types: Seq<AddressFormat>) -> bool {
    exists|i: int| 0 <= i < w.address_types@.len() && types.contains(w.address_types@[i])
}

/// The wallets without the one with this ID, in order.
pub open spec fn without_wallet<P>(ws: Seq<InjectedWalletInfo<P>>, id: Seq<char>) -> Seq<InjectedWalletInfo<P>>
    decreases ws.len(),
{
    if ws.len() == 0 {
        ws
    } else {
        let rest = without_wallet(ws.drop_last(), id);
        if ws.last().id@ != id {
            rest.push(ws.last())
        } else {
            rest
        }
    }
}

/// The wallets supporting one of `types`, in order.
pub open spec fn wallets_supporting<P>(ws: Seq<InjectedWalletInfo<P>>, types: Seq<AddressFormat>) -> Seq<InjectedWalletInfo<P>>
    decreases ws.len(),
{
    if ws.len() == 0 {
        ws
    } else {
        let rest = wallets_supporting(ws.drop_last(), types);
        if supports_any(ws.last(), types) {
            rest.push(ws.last())
        } else {
            rest
        }
    }
}

/// The wallet list after discovering the custom wallets `configs` in `ws`:
/// each configuration whose ID is not yet present adds a wallet.
pub open spec fn discovered<P>(ws: Seq<InjectedWalletInfo<P>>, configs: Seq<CustomWalletConfig>) -> Seq<Seq<char>>
    decreases configs.len(),
{
    if configs.len() == 0 {
        wallet_ids(ws)
    } else {
        let before = discovered(ws, configs.drop_last());
        if before.contains(configs.last().id@) {
            before
        } else {
            before.push(configs.last().id@)
        }
    }
}

/// The wallet list after registering `w`: it replaces the wallet with its
/// ID in place, or joins at the end.
pub open spec fn registered<P>(ws: Seq<InjectedWalletInfo<P>>, w: InjectedWalletInfo<P>) -> Seq<InjectedWalletInfo<P>> {
    if has_wallet(ws, w.id@) {
        Seq::new(ws.len(), |i: int| if ws[i].id@ == w.id@ { w } else { ws[i] })
    } else {
        ws.push(w)
    }
}

impl<P> InjectedWalletRegistry<P> {
    /// The registry's invariant: wallet IDs are unique.
    pub closed spec fn wf(&self) -> bool {
        ids_unique(self.wallets@)
    }

    /// The wallets, in registration order.
    pub closed spec fn wallets(&self) -> Seq<InjectedWalletInfo<P>> {
        self.wallets@
    }

    /// An empty registry.
    pub fn new() -> (r: Self)
        ensures
            r.wf(),
            r.wallets() == Seq::<InjectedWalletInfo<P>>::empty(),
    {
        InjectedWalletRegistry { wallets: Vec::new() }
    }

    fn position(&self, id: &str) -> (r: Option<usize>)
        requires
            self.wf(),
        ensures
            match r {
                Some(i) => i < self.wallets@.len() && self.wallets@[i as int].id@ == id@,
                None => !has_wallet(self.wallets@, id@),
            },
    {
        let mut i: usize = 0;
        while i < self.wallets.len()
            invariant
                0 <= i <= self.wallets@.len(),
                forall|j: int| 0 <= j < i ==> self.wallets@[j].id@ != id@,
            decreases self.wallets@.len() - i,
        {
            if str_eq(self.wallets[i].id.as_str(), id) {
                return Some(i);
            }
            i = i + 1;
        }
        None
    }

    /// Register a wallet, replacing the wallet with the same ID if there is one.
    pub fn register(&mut self, info: InjectedWalletInfo<P>)
        requires
            old(self).wf(),
        ensures
            final(self).wf(),
            final(self).wallets() == registered(old(self).wallets(), info),
    {
        let ghost id = info.id@;
        match self.position(info.id.as_str()) {
            Some(i) => {
                self.wallets.set(i, info);
                proof {
                    assert forall|k: int| 0 <= k < old(self).wallets@.len() implies (if old(self).wallets@[k].id@ == id {
                        self.wallets@[k].id@ == id
                    } else {
                        self.wallets@[k] == old(self).wallets@[k]
                    }) by {
                        if old(self).wallets@[k].id@ == id && k != i {
                            assert(old(self).wallets@[i as int].id@ == id);
                        }
                    }
                }
            },
            None => {
                self.wallets.push(info);
            },
        }
        proof {
            assert(self.wallets@ =~= registered(old(self).wallets@, info));
        }
    }

    /// Remove the wallet with this ID, if any.
    pub fn unregister(&mut self, id: &str)
        requires
            old(self).wf(),
        ensures
            final(self).wf(),
            final(self).wallets() == without_wallet(old(self).wallets(), id@),
    {
        let ghost old_ws = self.wallets@;
        match self.position(id) {
            Some(i) => {
                let _removed = self.wallets.remove(i);
                proof {
                    lemma_without_unique(old_ws, id@, i as int);
                }
            },
            None => {
                proof {
                    lemma_without_absent(old_ws, id@);
                }
            },
        }
    }

    /// Whether a wallet with this ID is registered.
    pub fn has(&self, id: &str) -> (r: bool)
        requires
            self.wf(),
        ensures
            r == has_wallet(self.wallets(), id@),
    {
        self.position(id).is_some()
    }

    /// The IDs of the registered wallets.
    pub fn get_all_ids(&self) -> (r: Vec<String>)
        ensures
            r.deep_view() == wallet_ids(self.wallets()),
    {
        let mut out: Vec<String> = Vec::new();
        let mut i: usize = 0;
        while i < self.wallets.len()
            invariant
                0 <= i <= self.wallets@.len(),
                out.deep_view() == wallet_ids(self.wallets@).take(i as int),
            decreases self.wallets@.len() - i,
        {
            let c = self.wallets[i].id.clone();
            let ghost before = out@;
            assert(Seq::new(before.len(), |j: int| before[j]@) == wallet_ids(self.wallets@).take(i as int));
            out.push(c);
            proof {
                let a = wallet_ids(self.wallets@).take(i + 1);
                assert forall|j: int| 0 <= j < i + 1 implies out.deep_view()[j] == a[j] by {
                    if j < i {
                        assert(before[j]@ == wallet_ids(self.wallets@).take(i as int)[j]);
                    }
                }
                assert(out.deep_view() =~= a);
            }
            i = i + 1;
        }
        proof {
            assert(wallet_ids(self.wallets@).take(self.wallets@.len() as int) =~= wallet_ids(self.wallets@));
        }
        out
    }

    /// The number of registered wallets.
    pub fn len(&self) -> (r: usize)
        ensures
            r == self.wallets().len(),
    {
        self.wallets.len()
    }

    /// Whether no wallet is registered.
    pub fn is_empty(&self) -> (r: bool)
        ensures
            r == (self.wallets().len() == 0),
    {
        self.wallets.len() == 0
    }

    /// The wallet with this ID, if registered.
    pub fn get_by_id(&self, id: &str) -> (r: Option<&InjectedWalletInfo<P>>)
        requires
            self.wf(),
        ensures
            match r {
                Some(w) => self.wallets().contains(*w) && w.id@ == id@,
                None => !has_wallet(self.wallets(), id@),
            },
    {
        match self.position(id) {
            Some(i) => Some(&self.wallets[i]),
            None => None,
        }
    }

    /// All registered wallets, in registration order.
    pub fn get_all(&self) -> (r: Vec<&InjectedWalletInfo<P>>)
        ensures
            r@.len() == self.wallets().len(),
            forall|i: int| 0 <= i < r@.len() ==> *r@[i] == self.wallets()[i],
    {
        let mut out: Vec<&InjectedWalletInfo<P>> = Vec::new();
        let mut i: usize = 0;
        while i < self.wallets.len()
            invariant
                0 <= i <= self.wallets@.len(),
                out@.len() == i,
                forall|j: int| 0 <= j < i ==> *out@[j] == self.wallets@[j],
            decreases self.wallets@.len() - i,
        {
            out.push(&self.wallets[i]);
            i = i + 1;
        }
        out
    }

    /// The wallets supporting one of `address_types` (all wallets when the
    /// list is empty), in registration order.
    pub fn get_by_address_types(&self, address_types: &[AddressFormat]) -> (r: Vec<&InjectedWalletInfo<P>>)
        ensures
            address_types@.len() == 0 ==> r@.len() == self.wallets().len() && forall|i: int|
                0 <= i < r@.len() ==> *r@[i] == self.wallets()[i],
            address_types@.len() > 0 ==> r@.len() == wallets_supporting(self.wallets(), address_types@).len()
                && forall|i: int| 0 <= i < r@.len() ==> *r@[i] == wallets_supporting(self.wallets(), address_types@)[i],
    {
        if address_types.len() == 0 {
            return self.get_all();
        }
        let mut out: Vec<&InjectedWalletInfo<P>> = Vec::new();
        let ghost mut picked: Seq<InjectedWalletInfo<P>> = Seq::empty();
        let mut i: usize = 0;
        while i < self.wallets.len()
            invariant
                0 <= i <= self.wallets@.len(),
                picked == wallets_supporting(self.wallets@.take(i as int), address_types@),
                out@.len() == picked.len(),
                forall|j: int| 0 <= j < out@.len() ==> *out@[j] == picked[j],
            decreases self.wallets@.len() - i,
        {
            let w = &self.wallets[i];
            proof {
                assert(self.wallets@.take(i + 1).drop_last() =~= self.wallets@.take(i as int));
            }
            let mut any = false;
            let mut k: usize = 0;
            while k < w.address_types.len()
                invariant
                    0 <= k <= w.address_types@.len(),
                    any == exists|m: int| 0 <= m < k && address_types@.contains(w.address_types@[m]),
                decreases w.address_types@.len() - k,
            {
                let t = w.address_types[k];
                let mut found = false;
                let mut q: usize = 0;
                while q < address_types.len()
                    invariant
                        0 <= q <= address_types@.len(),
                        found == exists|n: int| 0 <= n < q && address_types@[n] == t,
                    decreases address_types@.len() - q,
                {
                    if address_types[q] == t {
                        found = true;
                    }
                    q = q + 1;
                }
                if found {
                    any = true;
                }
                proof {
                    if found {
                        assert(address_types@.contains(w.address_types@[k as int]));
                    }
                    if address_types@.contains(t) {
                        assert(found);
                    }
                }
                k = k + 1;
            }
            if any {
                out.push(w);
                proof {
                    picked = picked.push(*w);
                }
            }
            i = i + 1;
        }
        proof {
            assert(self.wallets@.take(self.wallets@.len() as int) =~= self.wallets@);
        }
        out
    }

    /// Add the custom wallets whose IDs are not registered yet, as wallets
    /// with the configuration's name, icon and address types, no providers
    /// and discovery "custom".
    pub fn discover(&mut self, configs: &[CustomWalletConfig])
        requires
            old(self).wf(),
        ensures
            final(self).wf(),
            wallet_ids(final(self).wallets()) == discovered(old(self).wallets(), configs@),
            forall|i: int| 0 <= i < old(self).wallets().len() ==> final(self).wallets()[i] == old(self).wallets()[i],
            forall|i: int| old(self).wallets().len() <= i < final(self).wallets().len() ==> {
                let w = #[trigger] final(self).wallets()[i];
                &&& w.providers is None
                &&& w.rdns is None
                &&& opt_view(w.discovery) == Some("custom"@)
                &&& exists|k: int| 0 <= k < configs@.len() && configs@[k].id@ == w.id@ && configs@[k].name@ == w.name@
                    && opt_view(w.icon) == Some(configs@[k].icon@) && configs@[k].address_types@ == w.address_types@
            },
    {
        let ghost old_ws = self.wallets@;
        let mut c: usize = 0;
        proof {
            assert(configs@.take(0) =~= Seq::<CustomWalletConfig>::empty());
        }
        while c < configs.len()
            invariant
                0 <= c <= configs@.len(),
                self.wf(),
                wallet_ids(self.wallets@) == discovered(old_ws, configs@.take(c as int)),
                self.wallets@.len() >= old_ws.len(),
                forall|i: int| 0 <= i < old_ws.len() ==> self.wallets@[i] == old_ws[i],
                forall|i: int| old_ws.len() <= i < self.wallets@.len() ==> {
                    let w = #[trigger] self.wallets@[i];
                    &&& w.providers is None
                    &&& w.rdns is None
                    &&& opt_view(w.discovery) == Some("custom"@)
                    &&& exists|k: int| 0 <= k < configs@.len() && configs@[k].id@ == w.id@ && configs@[k].name@
                        == w.name@ && opt_view(w.icon) == Some(configs@[k].icon@) && configs@[k].address_types@
                        == w.address_types@
                },
            decreases configs@.len() - c,
        {
            let cfg = &configs[c];
            proof {
                assert(configs@.take(c + 1).drop_last() =~= configs@.take(c as int));
                assert(configs@.take(c + 1).last() == *cfg);
                assert(wallet_ids(self.wallets@).contains(cfg.id@) <==> has_wallet(self.wallets@, cfg.id@)) by {
                    if has_wallet(self.wallets@, cfg.id@) {
                        let j = choose|j: int| 0 <= j < self.wallets@.len() && self.wallets@[j].id@ == cfg.id@;
                        assert(wallet_ids(self.wallets@)[j] == cfg.id@);
                    }
                }
            }
            match self.position(cfg.id.as_str()) {
                Some(_) => {},
                None => {
                    let mut types: Vec<AddressFormat> = Vec::new();
                    let mut k: usize = 0;
                    while k < cfg.address_types.len()
                        invariant
                            0 <= k <= cfg.address_types@.len(),
                            types@ == cfg.address_types@.take(k as int),
                        decreases cfg.address_types@.len() - k,
                    {
                        types.push(cfg.address_types[k]);
                        k = k + 1;
                        proof {
                            assert(types@ =~= cfg.address_types@.take(k as int));
                        }
                    }
                    proof {
                        assert(cfg.address_types@.take(cfg.address_types@.len() as int) =~= cfg.address_types@);
                    }
                    let info = InjectedWalletInfo {
                        id: cfg.id.clone(),
                        name: cfg.name.clone(),
                        icon: Some(cfg.icon.clone()),
                        address_types: types,
                        providers: None,
                        rdns: None,
                        discovery: Some(String::from_str(DiscoverySource::Custom.as_str())),
                    };
                    let ghost before = self.wallets@;
                    self.wallets.push(info);
                    proof {
                        assert(wallet_ids(self.wallets@) =~= wallet_ids(before).push(cfg.id@));
                        assert(self.wallets@[before.len() as int] == info);
                        assert(configs@[c as int].id@ == info.id@);
                    }
                },
            }
            c = c + 1;
        }
        proof {
            assert(configs@.take(configs@.len() as int) =~= configs@);
        }
    }
}

proof fn lemma_without_unique<P>(ws: Seq<InjectedWalletInfo<P>>, id: Seq<char>, i: int)
    requires
        ids_unique(ws),
        0 <= i < ws.len(),
        ws[i].id@ == id,
    ensures
        without_wallet(ws, id) =~= ws.remove(i),
    decreases ws.len(),
{
    let last = ws.len() - 1;
    if i == last {
        assert(!has_wallet(ws.drop_last(), id)) by {
            if has_wallet(ws.drop_last(), id) {
                let j = choose|j: int| 0 <= j < ws.drop_last().len() && ws.drop_last()[j].id@ == id;
                assert(ws[j].id@ == id);
            }
        }
        lemma_without_absent(ws.drop_last(), id);
        assert(ws.remove(i) =~= ws.drop_last());
    } else {
        assert(ids_unique(ws.drop_last()));
        lemma_without_unique(ws.drop_last(), id, i);
        assert(ws.last().id@ != id);
        assert(ws.remove(i) =~= ws.drop_last().remove(i).push(ws.last()));
    }
}

proof fn lemma_without_absent<P>(ws: Seq<InjectedWalletInfo<P>>, id: Seq<char>)
    requires
        !has_wallet(ws, id),
    ensures
        without_wallet(ws, id) =~= ws,
    decreases ws.len(),
{
    if ws.len() > 0 {
        assert(!has_wallet(ws.drop_last(), id)) by {
            if has_wallet(ws.drop_last(), id) {
                let j = choose|j: int| 0 <= j < ws.drop_last().len() && ws.drop_last()[j].id@ == id;
                assert(ws[j].id@ == id);
            }
        }
        lemma_without_absent(ws.drop_last(), id);
        assert(ws.last().id@ != id) by {
            if ws.last().id@ == id {
                assert(ws[ws.len() - 1].id@ == id);
            }
        }
        assert(ws.drop_last().push(ws.last()) =~= ws);
    }
}

/// A registered wallet is what its ID gives back: after `register(w)` the
/// registry has exactly one wallet with `w`'s ID, which is `w`, and which
/// other IDs it has is unchanged.
pub proof fn law_registered_wallet_is_found<P>(ws: Seq<InjectedWalletInfo<P>>, w: InjectedWalletInfo<P>)
    requires
        ids_unique(ws),
    ensures
        ids_unique(registered(ws, w)),
        has_wallet(registered(ws, w), w.id@),
        forall|i: int|
            0 <= i < registered(ws, w).len() && #[trigger] registered(ws, w)[i].id@ == w.id@ ==> registered(
                ws,
                w,
            )[i] == w,
        forall|id: Seq<char>| id != w.id@ ==> (has_wallet(registered(ws, w), id) == has_wallet(ws, id)),
{
    let r = registered(ws, w);
    if has_wallet(ws, w.id@) {
        let k = choose|k: int| 0 <= k < ws.len() && ws[k].id@ == w.id@;
        assert(r[k] == w);
        assert forall|id: Seq<char>| id != w.id@ implies (has_wallet(r, id) == has_wallet(ws, id)) by {
            if has_wallet(r, id) {
                let j = choose|j: int| 0 <= j < r.len() && r[j].id@ == id;
                assert(ws[j].id@ == id);
            }
            if has_wallet(ws, id) {
                let j = choose|j: int| 0 <= j < ws.len() && ws[j].id@ == id;
                assert(r[j].id@ == id);
            }
        }
    } else {
        assert(r[ws.len() as int] == w);
        assert forall|id: Seq<char>| id != w.id@ implies (has_wallet(r, id) == has_wallet(ws, id)) by {
            if has_wallet(r, id) {
                let j = choose|j: int| 0 <= j < r.len() && r[j].id@ == id;
                assert(j < ws.len());
                assert(ws[j].id@ == id);
            }
            if has_wallet(ws, id) {
                let j = choose|j: int| 0 <= j < ws.len() && ws[j].id@ == id;
                assert(r[j].id@ == id);
            }
        }
    }
}

/// An unregistered wallet is gone: after `unregister(id)` no wallet has
/// that ID, and which other IDs the registry has is unchanged.
pub proof fn law_unregistered_wallet_is_gone<P>(ws: Seq<InjectedWalletInfo<P>>, id: Seq<char>)
    ensures
        !has_wallet(without_wallet(ws, id), id),
        forall|other: Seq<char>| other != id ==> (has_wallet(without_wallet(ws, id), other) == has_wallet(ws, other)),
    decreases ws.len(),
{
    if ws.len() > 0 {
        let rest = ws.drop_last();
        law_unregistered_wallet_is_gone(rest, id);
        let r = without_wallet(ws, id);
        let rr = without_wallet(rest, id);
        assert forall|x: Seq<char>| #[trigger] has_wallet(ws, x) == (has_wallet(rest, x) || ws.last().id@ == x) by {
            if has_wallet(ws, x) {
                let j = choose|j: int| 0 <= j < ws.len() && ws[j].id@ == x;
                if j < rest.len() {
                    assert(rest[j].id@ == x);
                }
            }
            if has_wallet(rest, x) {
                let j = choose|j: int| 0 <= j < rest.len() && rest[j].id@ == x;
                assert(ws[j].id@ == x);
            }
            if ws.last().id@ == x {
                assert(ws[ws.len() - 1].id@ == x);
            }
        }
        if ws.last().id@ != id {
            assert(r == rr.push(ws.last()));
            assert forall|x: Seq<char>| #[trigger] has_wallet(r, x) == (has_wallet(rr, x) || ws.last().id@ == x) by {
                if has_wallet(r, x) {
                    let j = choose|j: int| 0 <= j < r.len() && r[j].id@ == x;
                    if j < rr.len() {
                        assert(rr[j].id@ == x);
                    }
                }
                if has_wallet(rr, x) {
                    let j = choose|j: int| 0 <= j < rr.len() && rr[j].id@ == x;
                    assert(r[j].id@ == x);
                }
                if ws.last().id@ == x {
                    assert(r[r.len() - 1].id@ == x);
                }
            }
        } else {
            assert(r == rr);
        }
    }
}

} // verus!
