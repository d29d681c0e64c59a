//! Provider name keys and their display names.
use vstd::prelude::*;
use crate::text::str_eq;

verus! {

/// Key identifying a provider type.
#[derive(Debug, Clone, Copy, PartialEq, Eq, Hash, Structural)]
pub enum ProviderNameKey {
    /// Google OAuth provider.
    Google,
    /// Apple OAuth provider.
    Apple,
    /// Phantom native provider.
    Phantom,
    /// Device-based provider.
    Device,
    /// Injected wallet provider.
    Injected,
    /// Deeplink provider.
    Deeplink,
}

/// The lower-case key string of a provider (its serialized form).
pub open spec fn provider_key_str(k: ProviderNameKey) -> Seq<char> {
    match k {
        ProviderNameKey::Google => "google"@,
        ProviderNameKey::Apple => "apple"@,
        ProviderNameKey::Phantom => "phantom"@,
        ProviderNameKey::Device => "device"@,
        ProviderNameKey::Injected => "injected"@,
        ProviderNameKey::Deeplink => "deeplink"@,
    }
}

/// The human-readable display name of a provider.
pub open spec fn provider_display(k: ProviderNameKey) -> Seq<char> {
    match k {
        ProviderNameKey::Google => "Google"@,
        ProviderNameKey::Apple => "Apple"@,
        ProviderNameKey::Phantom => "Phantom"@,
        ProviderNameKey::Device => "Device"@,
        ProviderNameKey::Injected => "Wallet"@,
        ProviderNameKey::Deeplink => "Deeplink"@,
    }
}

/// The display name of the provider whose key string is `provider`, or
/// "Wallet" for any other string.
pub open spec fn provider_name_of(provider: Seq<char>) -> Seq<char> {
    if provider == "google"@ {
        "Google"@
    } else if provider == "apple"@ {
        "Apple"@
    } else if provider == "phantom"@ {
        "Phantom"@
    } else if provider == "device"@ {
        "Device"@
    } else if provider == "injected"@ {
        "Wallet"@
    } else if provider == "deeplink"@ {
        "Deeplink"@
    } else {
        "Wallet"@
    }
}

impl ProviderNameKey {
    /// Returns the human-readable display name for this provider.
    pub fn display_name(&self) -> (r: &'static str)
        ensures
            r@ == provider_display(*self),
    {
        match self {
            ProviderNameKey::Google => "Google",
            ProviderNameKey::Apple => "Apple",
            ProviderNameKey::Phantom => "Phantom",
            ProviderNameKey::Device => "Device",
            ProviderNameKey::Injected => "Wallet",
            ProviderNameKey::Deeplink => "Deeplink",
        }
    }
}

/// Get the human-readable display name for a provider: the display name of
/// the matching key, "Wallet" for an unknown provider.
pub fn get_provider_name(provider: &str) -> (r: &'static str)
    ensures
        r@ == provider_name_of(provider@),
{
    if str_eq(provider, "google") {
        "Google"
    } else if str_eq(provider, "apple") {
        "Apple"
    } else if str_eq(provider, "phantom") {
        "Phantom"
    } else if str_eq(provider, "device") {
        "Device"
    } else if str_eq(provider, "injected") {
        "Wallet"
    } else if str_eq(provider, "deeplink") {
        "Deeplink"
    } else {
        "Wallet"
    }
}

/// The name looked up for a key's own string is that key's display name.
pub proof fn law_provider_name_matches_key(k: ProviderNameKey)
    ensures
        provider_name_of(provider_key_str(k)) == provider_display(k),
{
    reveal_strlit("google");
    reveal_strlit("apple");
    reveal_strlit("phantom");
    reveal_strlit("device");
    reveal_strlit("injected");
    reveal_strlit("deeplink");
    let g = "google"@;
    let a = "apple"@;
    let p = "phantom"@;
    let d = "device"@;
    let i = "injected"@;
    let l = "deeplink"@;
    assert(a[0] != g[0]);
    assert(p[0] != g[0] && p[0] != a[0]);
    assert(d[0] != g[0] && d[0] != a[0] && d[0] != p[0]);
    assert(i[0] != g[0] && i[0] != a[0] && i[0] != p[0] && i[0] != d[0]);
    assert(l[0] != g[0] && l[0] != a[0] && l[0] != p[0] && l[0] != i[0] && l[2] != d[2]);
}

} // verus!
