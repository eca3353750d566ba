use fluxa::text::{chars_of, contains_text, push_decimal};

#[test]
fn decimal_notation() {
    for (n, s) in [(0u64, "0"), (7, "7"), (10, "10"), (500, "500"), (u64::MAX, "18446744073709551615")] {
        let mut out = "x=".to_string();
        push_decimal(&mut out, n);
        assert_eq!(out, format!("x={}", s));
    }
}

#[test]
fn substring_search() {
    assert!(contains_text("service is unhealthy!", "unhealthy"));
    assert!(contains_text("abc", ""));
    assert!(contains_text("abc", "abc"));
    assert!(!contains_text("ab", "abc"));
    assert!(!contains_text("is now healthy!", "unhealthy"));
    assert!(contains_text("é down", "down"));
}

#[test]
fn chars_are_kept() {
    assert_eq!(chars_of("aé🔔"), vec!['a', 'é', '🔔']);
}
