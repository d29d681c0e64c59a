use phantom_connect::provider_names::{get_provider_name, ProviderNameKey};
use phantom_connect::text::{is_whitespace_char, parse_i64_chars, parse_u32, parse_u64, split_chars};

#[test]
fn provider_display_names() {
    assert_eq!(get_provider_name("google"), "Google");
    assert_eq!(get_provider_name("apple"), "Apple");
    assert_eq!(get_provider_name("phantom"), "Phantom");
    assert_eq!(get_provider_name("device"), "Device");
    assert_eq!(get_provider_name("injected"), "Wallet");
    assert_eq!(get_provider_name("deeplink"), "Deeplink");
    assert_eq!(get_provider_name("Google"), "Wallet");
    assert_eq!(get_provider_name(""), "Wallet");
    assert_eq!(ProviderNameKey::Injected.display_name(), "Wallet");
    assert_eq!(ProviderNameKey::Google.display_name(), "Google");
}

#[test]
fn integer_parsing_matches_std() {
    for s in ["0", "42", "+7", "-0", "-", "+", "", "4294967295", "4294967296", "1a", " 1", "007"] {
        assert_eq!(parse_u32(s), s.parse::<u32>().ok(), "u32 {s:?}");
        assert_eq!(parse_u64(s), s.parse::<u64>().ok(), "u64 {s:?}");
        let c: Vec<char> = s.chars().collect();
        assert_eq!(parse_i64_chars(&c), s.parse::<i64>().ok(), "i64 {s:?}");
    }
    for s in ["9223372036854775807", "9223372036854775808", "-9223372036854775808", "-9223372036854775809", "18446744073709551615", "18446744073709551616"] {
        assert_eq!(parse_u64(s), s.parse::<u64>().ok(), "u64 {s:?}");
        let c: Vec<char> = s.chars().collect();
        assert_eq!(parse_i64_chars(&c), s.parse::<i64>().ok(), "i64 {s:?}");
    }
}

#[test]
fn whitespace_matches_std() {
    let mut c: u32 = 0;
    while c <= 0x10FFFF {
        if let Some(ch) = char::from_u32(c) {
            assert_eq!(is_whitespace_char(ch), ch.is_whitespace(), "U+{c:04X}");
        }
        c += 1;
    }
}

#[test]
fn splitting_matches_std() {
    for s in ["a.b.c", "", ".", "a..b", "..", "abc", ".a."] {
        let c: Vec<char> = s.chars().collect();
        let pieces: Vec<String> = split_chars(&c, '.').into_iter().map(|p| p.into_iter().collect()).collect();
        let expected: Vec<String> = s.split('.').map(|p| p.to_string()).collect();
        assert_eq!(pieces, expected, "{s:?}");
    }
}
