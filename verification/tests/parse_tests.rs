use headwind::parse::{
    bool_to_string, i64_to_string, parse_bool, parse_comma_list, parse_u32, parse_u64,
    parse_unsigned, split_char, u64_to_string,
};
use headwind::text::{lowercase_equals, remove_all, string_less, trim};
use headwind::test_should_update;
use headwind::UpdatePolicy;

#[test]
fn numbers_read_and_write_in_decimal() {
    assert_eq!(parse_u64("0"), Some(0));
    assert_eq!(parse_u64("+42"), Some(42));
    assert_eq!(parse_u64("18446744073709551615"), Some(u64::MAX));
    assert_eq!(parse_u64("18446744073709551616"), None);
    assert_eq!(parse_u64(""), None);
    assert_eq!(parse_u64(" 1"), None);
    assert_eq!(parse_u64("-1"), None);
    assert_eq!(parse_u32("4294967296"), None);
    assert_eq!(parse_u32("4294967295"), Some(u32::MAX));
    assert_eq!(parse_unsigned("256", 255), None);
    assert_eq!(u64_to_string(0), "0");
    assert_eq!(u64_to_string(1234567890), "1234567890");
    assert_eq!(i64_to_string(-9223372036854775808), "-9223372036854775808");
    assert_eq!(i64_to_string(17), "17");
    for n in [0u64, 7, 10, 99, 100, 4096, u64::MAX] {
        assert_eq!(parse_u64(&u64_to_string(n)), Some(n));
    }
}

#[test]
fn booleans_are_true_or_false() {
    assert_eq!(parse_bool("true"), Some(true));
    assert_eq!(parse_bool("false"), Some(false));
    assert_eq!(parse_bool("True"), None);
    assert_eq!(parse_bool("1"), None);
    assert_eq!(bool_to_string(true), "true");
    assert_eq!(bool_to_string(false), "false");
}

#[test]
fn lists_split_and_trim() {
    assert_eq!(split_char("a,,b", ','), vec!["a", "", "b"]);
    assert_eq!(split_char("", ','), vec![""]);
    assert_eq!(parse_comma_list(" nginx , ,redis,"), vec!["nginx", "redis"]);
    assert!(parse_comma_list("").is_empty());
}

#[test]
fn text_helpers() {
    assert_eq!(trim("  a b \t\n"), "a b");
    assert!(lowercase_equals("ProXy", "proxy"));
    assert!(!lowercase_equals("proxy ", "proxy"));
    assert!(lowercase_equals("To\u{212A}EN", "token"));
    assert!(!lowercase_equals("T\u{d6}KEN", "token"));
    assert_eq!(remove_all("a/approve/b/approve", "/approve"), "a/b");
    assert!(string_less("abc", "abd"));
    assert!(string_less("ab", "abc"));
    assert!(!string_less("b", "abc"));
    assert!(!string_less("x", "x"));
}

#[test]
fn semantic_versions() {
    // A pre-release comes before its release; numbers compare as numbers.
    assert!(test_should_update("1.2.3-alpha.1", "1.2.3", UpdatePolicy::Major, None));
    assert!(!test_should_update("1.2.3", "1.2.3-alpha.1", UpdatePolicy::Major, None));
    assert!(test_should_update("1.2.3", "1.10.0", UpdatePolicy::Minor, None));
    assert!(!test_should_update("1.10.0", "1.2.3", UpdatePolicy::Major, None));
    assert!(!test_should_update("1.2.3", "1.2.3", UpdatePolicy::Major, None));
    // Texts that are no semantic version are refused after cleaning.
    assert!(!test_should_update("1.2", "1.3", UpdatePolicy::Major, None));
    assert!(test_should_update("v1.2.3", "v1.2.4", UpdatePolicy::Patch, None));
}
