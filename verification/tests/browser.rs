use phantom_connect::browser_detection::{
    detect_browser, get_browser_display_name, get_platform_name, is_mobile_device,
    is_mobile_user_agent, lowered_names_mobile, parse_browser_from_user_agent, BrowserInfo,
};

const CHROME_DESKTOP: &str = "Mozilla/5.0 (Windows NT 10.0; Win64; x64) AppleWebKit/537.36 (KHTML, like Gecko) Chrome/120.0.6099.109 Safari/537.36";
const IPHONE_SAFARI: &str = "Mozilla/5.0 (iPhone; CPU iPhone OS 17_1 like Mac OS X) AppleWebKit/605.1.15 (KHTML, like Gecko) Version/17.1 Mobile/15E148 Safari/604.1";

fn info(name: &str, version: &str) -> BrowserInfo {
    BrowserInfo { name: name.to_string(), version: version.to_string(), user_agent: String::new() }
}

#[test]
fn detects_desktop_browsers() {
    let chrome = parse_browser_from_user_agent(CHROME_DESKTOP, false);
    assert_eq!((chrome.name.as_str(), chrome.version.as_str()), ("chrome", "120"));
    assert_eq!(chrome.user_agent, CHROME_DESKTOP);

    let edge = parse_browser_from_user_agent(
        "Mozilla/5.0 (Windows NT 10.0; Win64; x64) AppleWebKit/537.36 (KHTML, like Gecko) Chrome/120.0.0.0 Safari/537.36 Edg/120.0.2210.91",
        false,
    );
    assert_eq!((edge.name.as_str(), edge.version.as_str()), ("edge", "120"));

    let firefox = parse_browser_from_user_agent(
        "Mozilla/5.0 (Windows NT 10.0; Win64; x64; rv:121.0) Gecko/20100101 Firefox/121.0",
        false,
    );
    assert_eq!((firefox.name.as_str(), firefox.version.as_str()), ("firefox", "121"));

    let safari = parse_browser_from_user_agent(
        "Mozilla/5.0 (Macintosh; Intel Mac OS X 10_15_7) AppleWebKit/605.1.15 (KHTML, like Gecko) Version/17.1 Safari/605.1.15",
        false,
    );
    assert_eq!((safari.name.as_str(), safari.version.as_str()), ("safari", "17"));

    let opera = parse_browser_from_user_agent(
        "Mozilla/5.0 (Windows NT 10.0) AppleWebKit/537.36 (KHTML, like Gecko) Chrome/120.0.0.0 Safari/537.36 OPR/106.0.0.0",
        false,
    );
    assert_eq!((opera.name.as_str(), opera.version.as_str()), ("opera", "106"));
}

#[test]
fn brave_needs_the_brave_api() {
    let brave = parse_browser_from_user_agent(CHROME_DESKTOP, true);
    assert_eq!((brave.name.as_str(), brave.version.as_str()), ("brave", "120"));
    let same = detect_browser(CHROME_DESKTOP, true);
    assert_eq!((same.name, same.version), (brave.name, brave.version));
}

#[test]
fn detects_mobile_browsers() {
    let safari = parse_browser_from_user_agent(IPHONE_SAFARI, false);
    assert_eq!((safari.name.as_str(), safari.version.as_str()), ("safari-mobile", "17"));

    let chrome = parse_browser_from_user_agent(
        "Mozilla/5.0 (Linux; Android 10; K) AppleWebKit/537.36 (KHTML, like Gecko) Chrome/120.0.0.0 Mobile Safari/537.36",
        false,
    );
    assert_eq!((chrome.name.as_str(), chrome.version.as_str()), ("chrome-mobile", "120"));

    let other = parse_browser_from_user_agent("SomeApp (Android 13)", false);
    assert_eq!((other.name.as_str(), other.version.as_str()), ("mobile", "unknown"));
}

#[test]
fn empty_and_unknown_user_agents() {
    let empty = parse_browser_from_user_agent("", false);
    assert_eq!(
        (empty.name.as_str(), empty.version.as_str(), empty.user_agent.as_str()),
        ("unknown", "unknown", "unknown")
    );
    let curl = parse_browser_from_user_agent("curl/8.0", false);
    assert_eq!((curl.name.as_str(), curl.version.as_str()), ("unknown", "unknown"));
    assert_eq!(curl.user_agent, "curl/8.0");
}

#[test]
fn version_comes_from_the_first_tag_followed_by_a_digit() {
    let ua = parse_browser_from_user_agent("Edg/x then Edg/99.1.2", false);
    assert_eq!((ua.name.as_str(), ua.version.as_str()), ("edge", "99"));
    let no_digits = parse_browser_from_user_agent("Edg/abc", false);
    assert_eq!((no_digits.name.as_str(), no_digits.version.as_str()), ("edge", "unknown"));
}

#[test]
fn legacy_edge_uses_the_fallback_patterns() {
    let legacy = parse_browser_from_user_agent("Mozilla/5.0 (Windows NT 10.0) Edge/18.19582", false);
    assert_eq!((legacy.name.as_str(), legacy.version.as_str()), ("edge", "18"));
}

#[test]
fn platform_and_display_names() {
    assert_eq!(get_platform_name(&info("chrome", "120")), "chrome-v120");
    assert_eq!(get_platform_name(&info("chrome", "unknown")), "chrome");
    assert_eq!(get_browser_display_name(&info("chrome", "120")), "Chrome 120");
    assert_eq!(get_browser_display_name(&info("safari-mobile", "17")), "Safari-mobile 17");
    assert_eq!(get_browser_display_name(&info("", "unknown")), "Unknown");
    assert_eq!(get_browser_display_name(&info("ßrowser", "unknown")), "SSrowser");
}

#[test]
fn mobile_user_agents() {
    assert!(is_mobile_user_agent(IPHONE_SAFARI));
    assert!(!is_mobile_user_agent(CHROME_DESKTOP));
    assert!(is_mobile_user_agent("Mozilla ANDROID build"));
    // The Kelvin sign lower-cases to an ASCII `k`.
    assert!(is_mobile_user_agent("Blac\u{212A}Berry 9900"));
    assert!(lowered_names_mobile("opera mini/7"));
    assert!(!lowered_names_mobile("Opera Mini/7"));
}

#[test]
fn mobile_devices() {
    assert!(is_mobile_device(IPHONE_SAFARI, None, None, false));
    assert!(is_mobile_device(CHROME_DESKTOP, Some(700), Some(1000), true));
    assert!(!is_mobile_device(CHROME_DESKTOP, Some(700), Some(1000), false));
    assert!(!is_mobile_device(CHROME_DESKTOP, Some(700), None, true));
    assert!(!is_mobile_device(CHROME_DESKTOP, Some(1920), Some(1080), true));
    assert!(is_mobile_device(CHROME_DESKTOP, Some(1920), Some(768), true));
}
