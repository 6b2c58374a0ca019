use yetalauncher::text::{
    chars_of, concat2, concat3, decimal_string, join, signed_decimal_string, split_whitespace,
    str_contains, str_eq, str_replace, string_of,
};

#[test]
fn chars_round_trip() {
    let chars = chars_of("héllo");
    assert_eq!(chars, vec!['h', 'é', 'l', 'l', 'o']);
    assert_eq!(string_of(&chars), "héllo");
}

#[test]
fn string_equality_is_by_content() {
    assert!(str_eq("abc", "abc"));
    assert!(!str_eq("abc", "abd"));
    assert!(!str_eq("abc", "ab"));
    assert!(str_eq("", ""));
}

#[test]
fn contains_finds_substrings() {
    assert!(str_contains("--quickPlayPath", "quickPlay"));
    assert!(str_contains("abc", ""));
    assert!(str_contains("", ""));
    assert!(!str_contains("abc", "abcd"));
    assert!(!str_contains("ab-cp", "-cq"));
}

#[test]
fn replace_is_leftmost_and_non_overlapping() {
    assert_eq!(str_replace("a-b-c", "-", "+"), "a+b+c");
    assert_eq!(str_replace("aaa", "aa", "b"), "ba");
    assert_eq!(str_replace("${x}${x}", "${x}", "1"), "11");
    assert_eq!(str_replace("abc", "x", "y"), "abc");
    assert_eq!(str_replace("abc", "abc", ""), "");
}

#[test]
fn replace_with_empty_pattern_changes_nothing() {
    assert_eq!(str_replace("abc", "", "x"), "abc");
}

#[test]
fn words_are_runs_without_white_space() {
    assert_eq!(split_whitespace("  a  bc\td\n"), vec!["a", "bc", "d"]);
    assert_eq!(split_whitespace("--username ${auth_player_name}"), vec!["--username", "${auth_player_name}"]);
    assert!(split_whitespace("   ").is_empty());
    assert!(split_whitespace("").is_empty());
    assert_eq!(split_whitespace("a\u{a0}b\u{3000}c"), vec!["a", "b", "c"]);
}

#[test]
fn join_puts_separator_between_neighbours() {
    let parts = vec!["a".to_string(), "b".to_string(), "c".to_string()];
    assert_eq!(join(&parts, ":"), "a:b:c");
    assert_eq!(join(&vec!["a".to_string()], ":"), "a");
    assert_eq!(join(&Vec::new(), ":"), "");
    assert_eq!(join(&vec!["".to_string(), "".to_string()], ";"), ";");
}

#[test]
fn decimal_numerals() {
    assert_eq!(decimal_string(0), "0");
    assert_eq!(decimal_string(7), "7");
    assert_eq!(decimal_string(10), "10");
    assert_eq!(decimal_string(32303), "32303");
    assert_eq!(decimal_string(u64::MAX), "18446744073709551615");
}

#[test]
fn signed_decimal_numerals() {
    assert_eq!(signed_decimal_string(0), "0");
    assert_eq!(signed_decimal_string(-1), "-1");
    assert_eq!(signed_decimal_string(137), "137");
    assert_eq!(signed_decimal_string(i64::MIN), "-9223372036854775808");
    assert_eq!(signed_decimal_string(i64::MAX), "9223372036854775807");
}

#[test]
fn concatenation() {
    assert_eq!(concat2("ab", "cd"), "abcd");
    assert_eq!(concat3("a", "", "c"), "ac");
}
