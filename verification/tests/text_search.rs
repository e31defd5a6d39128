use skiboot::text::{str_contains, str_equals};

#[test]
fn contains_edges() {
    assert!(str_contains("abc", &[]));
    assert!(str_contains("", &[]));
    assert!(str_contains("abc", &['c']));
    assert!(!str_contains("ab", &['a', 'b', 'c']));
    assert!(str_contains("héllo", &['é', 'l']));
}

#[test]
fn equals_edges() {
    assert!(str_equals("", &[]));
    assert!(str_equals("ab", &['a', 'b']));
    assert!(!str_equals("ab", &['a']));
    assert!(!str_equals("ab", &['a', 'c']));
}
