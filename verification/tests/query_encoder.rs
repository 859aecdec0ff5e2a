use wikiquery::{capitalize_first, check_normalized, get_query, normalize, normalize_safe};

#[test]
fn normalize_encodes_reserved_characters() {
    assert_eq!(normalize("hello world"), "hello%20world");
    assert_eq!(normalize("Rust (programming language)"), "Rust%20%28programming%20language%29");
}

#[test]
fn normalize_keeps_unreserved_characters() {
    assert_eq!(normalize("Barack_Obama"), "Barack_Obama");
    assert_eq!(normalize("a-b.c~d"), "a-b.c~d");
}

#[test]
fn normalize_empty_is_empty() {
    assert_eq!(normalize(""), "");
}

#[test]
fn normalize_encodes_multibyte_characters() {
    assert_eq!(normalize("é"), "%C3%A9");
}

#[test]
fn normalize_never_double_encodes() {
    for t in ["Rust (programming language)", "hello world", "%20", "abc", "", "100%"] {
        assert_eq!(normalize(&normalize_safe(t)), normalize(t));
        assert_eq!(normalize(&normalize(t)), normalize(t));
    }
}

#[test]
fn normalize_leaves_encoded_form_alone() {
    assert_eq!(normalize("hello%20world"), "hello%20world");
    // lowercase hex is not the encoder's output, so it is re-encoded
    assert_eq!(normalize("hello%2fworld"), "hello%252fworld");
}

#[test]
fn check_normalized_examples() {
    assert!(check_normalized("abc"));
    assert!(check_normalized("a%2Fb"));
    assert!(!check_normalized("a b"));
    assert!(!check_normalized("a%2"));
    assert!(!check_normalized("a%2fb"));
}

#[test]
fn capitalize_first_examples() {
    assert_eq!(capitalize_first("rust"), "Rust");
    assert_eq!(capitalize_first("Rust"), "Rust");
    assert_eq!(capitalize_first(""), "");
    assert_eq!(capitalize_first("école"), "École");
}

#[test]
fn get_query_capitalization_is_a_choice() {
    assert_eq!(get_query("rust lang", true), "Rust%20lang");
    assert_eq!(get_query("rust lang", false), "rust%20lang");
}
