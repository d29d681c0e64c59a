//! Analytics header names and the header sets that the SDKs send.
use vstd::prelude::*;

verus! {

/// SDK type header (server, browser-sdk, react-native-sdk).
pub const HEADER_SDK_TYPE: &'static str = "x-phantom-sdk-type";
/// SDK version header (e.g., "1.0.0").
pub const HEADER_SDK_VERSION: &'static str = "x-phantom-sdk-version";
/// Platform header (firefox, chrome, safari, ios, android, etc.).
pub const HEADER_PLATFORM: &'static str = "x-phantom-platform";
/// Wallet type header (app-wallet, user-wallet).
pub const HEADER_WALLET_TYPE: &'static str = "x-phantom-wallet-type";
/// Application ID header for identifying your app in analytics.
pub const HEADER_APP_ID: &'static str = "x-app-id";
/// Platform version header (OS version, device model, etc.).
pub const HEADER_PLATFORM_VERSION: &'static str = "x-phantom-platform-version";

/// SDK type identifier for analytics headers.
#[derive(Debug, Clone, Copy, PartialEq, Eq, Structural)]
pub enum SdkType {
    /// Server-side SDK.
    Server,
    /// Browser SDK.
    Browser,
    /// React Native SDK.
    ReactNative,
}

/// Wallet type for analytics headers.
#[derive(Debug, Clone, Copy, PartialEq, Eq, Structural)]
pub enum WalletType {
    /// Application-managed wallet.
    AppWallet,
    /// User-managed wallet.
    UserWallet,
}

/// Base analytics headers required for all SDKs.
#[derive(Debug, Clone)]
pub struct BaseAnalyticsHeaders {
    /// Type of SDK sending the request.
    pub sdk_type: SdkType,
    /// Version of the SDK.
    pub sdk_version: String,
    /// Application ID (optional).
    pub app_id: Option<String>,
}

/// Server SDK specific analytics headers.
#[derive(Debug, Clone)]
pub struct ServerSdkHeaders {
    /// Base analytics headers.
    pub base: BaseAnalyticsHeaders,
    /// Platform identifier (optional).
    pub platform: Option<String>,
    /// Platform version (optional).
    pub platform_version: Option<String>,
}

/// Browser SDK specific analytics headers.
#[derive(Debug, Clone)]
pub struct BrowserSdkHeaders {
    /// Base analytics headers.
    pub base: BaseAnalyticsHeaders,
    /// Wallet type (optional).
    pub wallet_type: Option<WalletType>,
    /// Platform identifier (chrome, firefox, safari, edge, etc.).
    pub platform: Option<String>,
    /// Platform version (full user agent for detailed info).
    pub platform_version: Option<String>,
}

/// React Native SDK specific analytics headers.
#[derive(Debug, Clone)]
pub struct ReactNativeSdkHeaders {
    /// Base analytics headers.
    pub base: BaseAnalyticsHeaders,
    /// Wallet type (optional).
    pub wallet_type: Option<WalletType>,
    /// Platform identifier (ios, android, etc.).
    pub platform: Option<String>,
    /// Platform version (OS version, device model, etc.).
    pub platform_version: Option<String>,
}

/// Client-side SDK headers (browser or React Native).
#[derive(Debug, Clone)]
pub enum ClientSideSdkHeaders {
    /// Browser SDK headers.
    Browser(BrowserSdkHeaders),
    /// React Native SDK headers.
    ReactNative(ReactNativeSdkHeaders),
}

/// Union type of all possible SDK analytics headers.
#[derive(Debug, Clone)]
pub enum SdkAnalyticsHeaders {
    /// Server SDK headers.
    Server(ServerSdkHeaders),
    /// Browser SDK headers.
    Browser(BrowserSdkHeaders),
    /// React Native SDK headers.
    ReactNative(ReactNativeSdkHeaders),
}

} // verus!
