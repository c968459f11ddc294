use crypto_sniper::text::{
    any_contains, append_digits, i64_to_text, join, push_owned, push_text, same_text,
};

fn contains(text: &str, pattern: &str) -> bool {
    any_contains(&vec![text.to_string()], pattern)
}

#[test]
fn contains_finds_a_run_of_characters() {
    assert!(contains("🍯 HONEYPOT_DETECTED: Cannot sell tokens!", "HONEYPOT"));
    assert!(contains("abc", ""));
    assert!(contains("abc", "abc"));
    assert!(!contains("abc", "abcd"));
    assert!(!contains("HONEY POT", "HONEYPOT"));
    assert!(!contains("honeypot", "HONEYPOT"));
}

#[test]
fn any_contains_looks_at_every_entry() {
    let texts = vec!["one".to_string(), "two".to_string(), "three".to_string()];
    assert!(any_contains(&texts, "hre"));
    assert!(any_contains(&texts, "one"));
    assert!(!any_contains(&texts, "four"));
    assert!(!any_contains(&Vec::new(), ""));
}

#[test]
fn join_puts_the_separator_between_neighbours() {
    let texts = vec!["a".to_string(), "b".to_string(), "c".to_string()];
    assert_eq!(join(&texts, ", "), "a, b, c");
    assert_eq!(join(&vec!["only".to_string()], ", "), "only");
    assert_eq!(join(&Vec::new(), ", "), "");
    assert_eq!(join(&vec!["".to_string(), "".to_string()], "-"), "-");
}

#[test]
fn push_text_and_push_owned_append() {
    let mut list = vec!["a".to_string()];
    push_text(&mut list, "b");
    push_owned(&mut list, "c".to_string());
    assert_eq!(list, vec!["a".to_string(), "b".to_string(), "c".to_string()]);
}

#[test]
fn digits_of_unsigned_numbers() {
    for (n, expected) in [(0_u64, "0"), (7, "7"), (10, "10"), (12000, "12000"), (4294967295, "4294967295")] {
        let mut out = String::new();
        append_digits(&mut out, n);
        assert_eq!(out, expected);
    }
    let mut out = "n=".to_string();
    append_digits(&mut out, u64::MAX);
    assert_eq!(out, "n=18446744073709551615");
}

#[test]
fn text_of_signed_numbers() {
    assert_eq!(i64_to_text(0), "0");
    assert_eq!(i64_to_text(25), "25");
    assert_eq!(i64_to_text(-5), "-5");
    assert_eq!(i64_to_text(i64::MAX), "9223372036854775807");
    assert_eq!(i64_to_text(i64::MIN), "-9223372036854775808");
}

#[test]
fn same_text_compares_contents() {
    assert!(same_text("bsc", "bsc"));
    assert!(!same_text("bsc", "BSC"));
    assert!(!same_text("bsc", "bs"));
    assert!(same_text("", ""));
}
