use api_key_crypto::compute_key_suffix;

#[test]
fn suffix_of_long_key_is_last_four_chars() {
    assert_eq!(compute_key_suffix("sk-abcd1234"), Some("1234".to_string()));
}

#[test]
fn suffix_of_short_key_is_whole_key() {
    assert_eq!(compute_key_suffix("ab"), Some("ab".to_string()));
    assert_eq!(compute_key_suffix("a"), Some("a".to_string()));
    assert_eq!(compute_key_suffix("abc"), Some("abc".to_string()));
}

#[test]
fn suffix_of_empty_key_is_absent() {
    assert_eq!(compute_key_suffix(""), None);
}

#[test]
fn suffix_of_four_char_key_is_whole_key() {
    assert_eq!(compute_key_suffix("wxyz"), Some("wxyz".to_string()));
}

#[test]
fn suffix_of_five_char_key_drops_first() {
    assert_eq!(compute_key_suffix("vwxyz"), Some("wxyz".to_string()));
}

#[test]
fn suffix_counts_characters_not_bytes() {
    // Each of these characters takes more than one byte in UTF-8.
    assert_eq!(compute_key_suffix("key-αβγδε"), Some("βγδε".to_string()));
    assert_eq!(compute_key_suffix("日本語"), Some("日本語".to_string()));
    assert_eq!(compute_key_suffix("a😀b😀c😀"), Some("b😀c😀".to_string()));
}

#[test]
fn suffix_keeps_the_order_of_the_key() {
    assert_eq!(compute_key_suffix("0123456789"), Some("6789".to_string()));
}

#[test]
fn suffix_is_never_empty_and_never_longer_than_four() {
    let keys = ["x", "xy", "xyz", "wxyz", "vwxyz", "SECRET-REDACTED", "é", "ééééé"];
    for key in keys {
        let suffix = compute_key_suffix(key).unwrap();
        let count = suffix.chars().count();
        assert!(count >= 1 && count <= 4);
        assert!(key.ends_with(&suffix));
        assert_eq!(count, key.chars().count().min(4));
    }
}
