use clash_cli::paths::{join_path, paths_below};
use clash_cli::text::{
    bool_str, chars_le, decimal_text, find_char, has_part, parse_hex_chars,
    parse_signed_chars, parse_unsigned_chars, same, split_at_char, split_lines, split_words,
    str_contains, str_ends_with, str_starts_with, trim_chars, trimmed, trimmed_end_char,
    unquote_chars,
};

fn chars(s: &str) -> Vec<char> {
    s.chars().collect()
}

fn text(v: &[char]) -> String {
    v.iter().collect()
}

#[test]
fn numbers_should_be_read_exactly() {
    assert_eq!(parse_unsigned_chars(&chars("0"), 65535), Some(0));
    assert_eq!(parse_unsigned_chars(&chars("65535"), 65535), Some(65535));
    assert_eq!(parse_unsigned_chars(&chars("65536"), 65535), None);
    assert_eq!(parse_unsigned_chars(&chars("+7"), 65535), Some(7));
    assert_eq!(parse_unsigned_chars(&chars("007"), 65535), Some(7));
    assert_eq!(parse_unsigned_chars(&chars(""), 65535), None);
    assert_eq!(parse_unsigned_chars(&chars("+"), 65535), None);
    assert_eq!(parse_unsigned_chars(&chars("-1"), 65535), None);
    assert_eq!(parse_unsigned_chars(&chars("1 "), 65535), None);
    assert_eq!(parse_unsigned_chars(&chars("18446744073709551615"), u64::MAX), Some(u64::MAX));
    assert_eq!(parse_unsigned_chars(&chars("18446744073709551616"), u64::MAX), None);
    assert_eq!(parse_unsigned_chars(&chars("99999999999999999999999"), u64::MAX), None);

    assert_eq!(parse_signed_chars(&chars("-9223372036854775808")), Some(i64::MIN));
    assert_eq!(parse_signed_chars(&chars("9223372036854775807")), Some(i64::MAX));
    assert_eq!(parse_signed_chars(&chars("9223372036854775808")), None);
    assert_eq!(parse_signed_chars(&chars("-9223372036854775809")), None);
    assert_eq!(parse_signed_chars(&chars("-")), None);
    assert_eq!(parse_signed_chars(&chars("-0")), Some(0));

    assert_eq!(parse_hex_chars(&chars("ff")), Some(255));
    assert_eq!(parse_hex_chars(&chars("00000000A80425fb")), Some(0xa80425fb));
    assert_eq!(parse_hex_chars(&chars("ffffffffffffffff")), Some(u64::MAX));
    assert_eq!(parse_hex_chars(&chars("10000000000000000")), None);
    assert_eq!(parse_hex_chars(&chars("")), None);
    assert_eq!(parse_hex_chars(&chars("0x10")), None);

    assert_eq!(decimal_text(0), "0");
    assert_eq!(decimal_text(7892), "7892");
    assert_eq!(decimal_text(u64::MAX), "18446744073709551615");
}

#[test]
fn texts_should_be_trimmed_and_split() {
    assert_eq!(trimmed("  a b \t\r\n"), "a b");
    assert_eq!(trimmed(" \n "), "");
    assert_eq!(trimmed("\u{3000}x\u{a0}"), "x");
    assert_eq!(text(&trim_chars(&chars("\tx "))), "x");
    assert_eq!(trimmed_end_char("a///", '/'), "a");
    assert_eq!(trimmed_end_char("///", '/'), "");
    assert_eq!(trimmed_end_char("a/b", '/'), "a/b");

    let lines: Vec<String> = split_lines(&chars("a\r\nb\n\nc")).iter().map(|l| text(l)).collect();
    assert_eq!(lines, vec!["a", "b", "", "c"]);
    let lines: Vec<String> = split_lines(&chars("a\n")).iter().map(|l| text(l)).collect();
    assert_eq!(lines, vec!["a"]);
    assert!(split_lines(&chars("")).is_empty());
    let lines: Vec<String> = split_lines(&chars("a\rb\r")).iter().map(|l| text(l)).collect();
    assert_eq!(lines, vec!["a\rb\r"]);

    let words: Vec<String> = split_words(&chars("  a  b\tc\n")).iter().map(|l| text(l)).collect();
    assert_eq!(words, vec!["a", "b", "c"]);
    assert!(split_words(&chars(" \t ")).is_empty());

    let (key, value) = split_at_char(&chars("a=b=c"), '=');
    assert_eq!((text(&key), text(&value)), ("a".to_string(), "b=c".to_string()));
    let (key, value) = split_at_char(&chars("abc"), '=');
    assert_eq!((text(&key), text(&value)), ("abc".to_string(), String::new()));
    assert_eq!(find_char(&chars("a=b"), 0, '='), 1);
    assert_eq!(find_char(&chars("a=b"), 2, '='), 3);

    assert_eq!(text(&unquote_chars(&chars("\"'a'\"b"))), "a'\"b");
    assert_eq!(text(&unquote_chars(&chars("'\"'"))), "");
}

#[test]
fn texts_should_be_compared_and_joined() {
    assert!(same("", ""));
    assert!(same("abc", "abc"));
    assert!(!same("abc", "abd"));
    assert!(!same("abc", "ab"));
    assert!(str_starts_with("http://x", "http://"));
    assert!(!str_starts_with("http", "http://"));
    assert!(str_starts_with("x", ""));
    assert!(str_ends_with("a.service", ".service"));
    assert!(!str_ends_with("service", ".service"));
    assert!(str_contains("abcabd", "abd"));
    assert!(str_contains("abc", ""));
    assert!(!str_contains("abc", "abcd"));
    assert!(!str_contains("aab", "aba"));
    assert!(has_part(&chars("aaab"), &chars("aab")));
    assert!(chars_le(&chars("B"), &chars("a")));
    assert!(chars_le(&chars("a"), &chars("a")));
    assert!(chars_le(&chars("a"), &chars("ab")));
    assert!(!chars_le(&chars("ab"), &chars("a")));
    assert!(!chars_le(&chars("b"), &chars("ab")));
    assert_eq!(clash_cli::text::concat("a", "b"), "ab");
    assert_eq!(clash_cli::text::concat3("a", "", "c"), "ac");
    assert_eq!(bool_str(true), "true");
    assert_eq!(bool_str(false), "false");
}

#[test]
fn paths_should_be_joined_with_one_separator() {
    assert_eq!(join_path("/a", "b"), "/a/b");
    assert_eq!(join_path("/a/", "b"), "/a/b");
    assert_eq!(join_path("", "b"), "b");
    assert_eq!(join_path("/a", "/b"), "/b");
    let paths = paths_below("/etc/clash-cli".to_string());
    assert_eq!(paths.config_dir, "/etc/clash-cli");
    assert_eq!(paths.state_file, "/etc/clash-cli/proxy.state");
    assert_eq!(paths.env_file, "/etc/clash-cli/proxy.env");
    assert_eq!(paths.profile_dir, "/etc/clash-cli/profiles");
    assert_eq!(paths.profile_index_file, "/etc/clash-cli/profiles/index.json");
    assert_eq!(paths.profile_mixin_file, "/etc/clash-cli/profiles/mixin.yaml");
    assert_eq!(paths.core_dir, "/etc/clash-cli/core");
    assert_eq!(paths.core_versions_dir, "/etc/clash-cli/core/versions");
    assert_eq!(paths.core_current_link, "/etc/clash-cli/core/mihomo");
    assert_eq!(paths.core_meta_file, "/etc/clash-cli/core/current.meta");
    assert_eq!(paths.runtime_dir, "/etc/clash-cli/runtime");
    assert_eq!(paths.runtime_config_file, "/etc/clash-cli/runtime/config.yaml");
    assert_eq!(paths.runtime_tun_state_file, "/etc/clash-cli/runtime/tun.state");
}
