use ddns_rs::service::effective_user_agent;
use ddns_rs::text::{is_blank, is_whitespace, lower_equals, str_equals, trim, upper_equals};

#[test]
fn trim_removes_unicode_whitespace_at_both_ends() {
    assert_eq!(trim("  1.2.3.4\n"), "1.2.3.4");
    assert_eq!(trim("\u{3000}\u{a0}x y\u{2009}"), "x y");
    assert_eq!(trim(" \t\r\n "), "");
    assert_eq!(trim(""), "");
    assert_eq!(trim("abc"), "abc");
    assert_eq!(trim("\u{200b}a"), "\u{200b}a");
}

#[test]
fn trim_agrees_with_std() {
    for s in ["", " a ", "\u{85}b\u{1680}", "ä ö", "\u{feff}c", "\n\n"] {
        assert_eq!(trim(s), s.trim());
    }
}

#[test]
fn whitespace_is_unicode_white_space() {
    for c in ['\t', '\n', '\u{b}', '\u{c}', '\r', ' ', '\u{85}', '\u{a0}', '\u{2000}', '\u{200a}', '\u{3000}'] {
        assert!(is_whitespace(c));
        assert!(c.is_whitespace());
    }
    for c in ['a', '\u{200b}', '\u{feff}', '\u{1f}'] {
        assert!(!is_whitespace(c));
        assert!(!c.is_whitespace());
    }
}

#[test]
fn ascii_case_comparisons() {
    assert!(upper_equals("aAaA", "AAAA"));
    assert!(!upper_equals("aä", "AÄ"));
    assert!(lower_equals("CloudFlare", "cloudflare"));
    assert!(!lower_equals("cloudflare ", "cloudflare"));
    assert!(str_equals("1.2.3.4", "1.2.3.4"));
    assert!(!str_equals("1.2.3.4", "1.2.3.5"));
    assert!(is_blank(" \u{2028} "));
    assert!(!is_blank(" x "));
}

#[test]
fn user_agent_falls_back_when_a_header_cannot_carry_it() {
    assert_eq!(effective_user_agent("my-agent/2"), "my-agent/2");
    assert_eq!(effective_user_agent("tab\tok"), "tab\tok");
    assert_eq!(effective_user_agent("agent ü"), "agent ü");
    assert_eq!(effective_user_agent("bad\nagent"), "ddns-rs/0.1");
    assert_eq!(effective_user_agent("del\u{7f}"), "ddns-rs/0.1");
}
