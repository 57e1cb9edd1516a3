use rdetoolkit_core::scheme::{join, numeral, resolve, zero_padded};

#[test]
fn test_resolve_deterministic() {
    // The derivation has no hidden state: repeated calls agree.
    for (base, name, digits, idx) in [
        ("/tmp/x", "docs", 4, 0),
        ("/tmp/x", "docs", 4, 7),
        ("", "docs", 2, 3),
        ("/a/", "b", 0, 12),
    ] {
        let first = resolve(base, name, digits, idx);
        let second = resolve(base, name, digits, idx);
        assert_eq!(first, second);
    }
}

#[test]
fn test_resolve_index_zero_ignores_digits() {
    for digits in [0, 1, 4, 10, 100] {
        assert_eq!(resolve("/tmp/x", "docs", digits, 0), "/tmp/x/docs");
    }
}

#[test]
fn test_resolve_positive_index_zero_pads() {
    assert_eq!(resolve("/tmp/x", "docs", 4, 7), "/tmp/x/divided/0007/docs");
    assert_eq!(resolve("/tmp/x", "docs", 4, 9999), "/tmp/x/divided/9999/docs");
    // A numeral wider than the requested width grows; it is never truncated.
    assert_eq!(resolve("/tmp/x", "docs", 2, 12345), "/tmp/x/divided/12345/docs");
    assert_eq!(resolve("/tmp/x", "docs", 0, 5), "/tmp/x/divided/5/docs");
}

#[test]
fn test_zero_padded_exact_values() {
    assert_eq!(zero_padded(7, 4), "0007");
    assert_eq!(zero_padded(0, 3), "000");
    assert_eq!(zero_padded(12345, 2), "12345");
    assert_eq!(zero_padded(10, 2), "10");
    assert_eq!(zero_padded(4294967295, 4), "4294967295");
}

#[test]
fn test_numeral_exact_values() {
    assert_eq!(numeral(0), "0");
    assert_eq!(numeral(9), "9");
    assert_eq!(numeral(10), "10");
    assert_eq!(numeral(40004), "40004");
}

#[test]
fn test_join_separator_rules() {
    assert_eq!(join("/a", "b"), "/a/b");
    assert_eq!(join("/a/", "b"), "/a/b");
    assert_eq!(join("", "b"), "b");
}
