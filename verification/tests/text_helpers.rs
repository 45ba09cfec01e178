use orion_bot::text::{
    char_count, contains_chars, from_chars, i64_to_decimal, is_whitespace, push_char, str_contains,
    str_eq, str_starts_with, take_chars, to_chars, to_lowercase, trim, trim_start_matches,
    u64_to_decimal,
};

#[test]
fn push_char_appends_one_character() {
    let mut s = String::from("ab");
    push_char(&mut s, 'é');
    assert_eq!(s, "abé");
}

#[test]
fn str_eq_compares_contents() {
    assert!(str_eq("home", "home"));
    assert!(!str_eq("home", "Home"));
    assert!(!str_eq("", "a"));
}

#[test]
fn chars_round_trip() {
    let cs = to_chars("héllo");
    assert_eq!(cs, vec!['h', 'é', 'l', 'l', 'o']);
    assert_eq!(from_chars(&cs), "héllo");
}

#[test]
fn decimal_of_unsigned_numbers() {
    assert_eq!(u64_to_decimal(0), "0");
    assert_eq!(u64_to_decimal(7), "7");
    assert_eq!(u64_to_decimal(1500), "1500");
    assert_eq!(u64_to_decimal(u64::MAX), "18446744073709551615");
}

#[test]
fn decimal_of_signed_numbers() {
    assert_eq!(i64_to_decimal(0), "0");
    assert_eq!(i64_to_decimal(-42), "-42");
    assert_eq!(i64_to_decimal(i64::MAX), "9223372036854775807");
    assert_eq!(i64_to_decimal(i64::MIN), "-9223372036854775808");
}

#[test]
fn contains_and_starts_with() {
    assert!(str_contains("error 503 service", "503"));
    assert!(!str_contains("error 50 3", "503"));
    assert!(str_contains("abc", ""));
    assert!(str_starts_with("home.options.crash.next", "home.options.crash"));
    assert!(!str_starts_with("home", "home.options"));
    assert!(contains_chars(&to_chars("abcabd"), &to_chars("abd")));
}

#[test]
fn trim_start_matches_removes_every_leading_repetition() {
    assert_eq!(trim_start_matches("ababc", "ab"), "c");
    assert_eq!(trim_start_matches("https://docs.orionhost.xyz/fr/a", "https://docs.orionhost.xyz"), "/fr/a");
    assert_eq!(trim_start_matches("abc", ""), "abc");
    assert_eq!(trim_start_matches("xabc", "ab"), "xabc");
}

#[test]
fn take_chars_counts_characters_not_bytes() {
    assert_eq!(take_chars("héllo", 2), "hé");
    assert_eq!(take_chars("abc", 10), "abc");
    assert_eq!(take_chars("abc", 0), "");
    assert_eq!(char_count("héllo"), 5);
}

#[test]
fn lowercase_follows_unicode() {
    assert_eq!(to_lowercase("OFFLINE"), "offline");
    assert_eq!(to_lowercase("Hors Ligne"), "hors ligne");
    assert_eq!(to_lowercase("ÉTÉ"), "été");
}

#[test]
fn whitespace_is_unicode_whitespace() {
    assert!(is_whitespace(' '));
    assert!(is_whitespace('\n'));
    assert!(is_whitespace('\u{00A0}'));
    assert!(!is_whitespace('a'));
}

#[test]
fn trim_removes_both_ends() {
    assert_eq!(trim("  hello world \n"), "hello world");
    assert_eq!(trim("   "), "");
    assert_eq!(trim("x"), "x");
}

#[test]
fn whitespace_agrees_with_std() {
    for n in 0..=0x10FFFFu32 {
        if let Some(c) = char::from_u32(n) {
            assert_eq!(is_whitespace(c), c.is_whitespace(), "at {n:#x}");
        }
    }
}
