use dcc_api_core::text::{
    contains_chars, i64_to_string, join_strings, parse_i64, parse_u32, str_eq, trim_str,
    u64_to_string,
};

fn chars(s: &str) -> Vec<char> {
    s.chars().collect()
}

#[test]
fn decimal_rendering() {
    assert_eq!(u64_to_string(0), "0");
    assert_eq!(u64_to_string(u64::MAX), "18446744073709551615");
    assert_eq!(i64_to_string(-42), "-42");
    assert_eq!(i64_to_string(i64::MIN), "-9223372036854775808");
}

#[test]
fn integer_parsing_follows_std() {
    for s in ["0", "+7", "-7", "9223372036854775807", "-9223372036854775808", "", "-", "+", "1a", " 1", "9223372036854775808"] {
        assert_eq!(parse_i64(&chars(s)), s.parse::<i64>().ok(), "{s}");
    }
    for s in ["0", "+7", "-7", "4294967295", "4294967296", "", "x"] {
        assert_eq!(parse_u32(&chars(s)), s.parse::<u32>().ok(), "{s}");
    }
}

#[test]
fn trimming_and_search() {
    assert_eq!(trim_str("  a b \t\n"), chars("a b"));
    assert_eq!(trim_str("   "), Vec::<char>::new());
    assert!(contains_chars(&chars("amd epyc"), &chars("epyc")));
    assert!(!contains_chars(&chars("intel"), &chars("amd")));
    assert!(contains_chars(&chars("x"), &[]));
    assert!(str_eq("abc", "abc"));
    assert!(!str_eq("abc", "abd"));
}

#[test]
fn joining() {
    let items = vec!["a".to_string(), "b".to_string(), "c".to_string()];
    assert_eq!(join_strings(&items, ", "), chars("a, b, c"));
    assert_eq!(join_strings(&[], ","), Vec::<char>::new());
}
