use wikiquery::{eq_fold_ascii, lowercase, strip_prefix, strip_tags, truncate_chars};

#[test]
fn strip_tags_removes_markup() {
    assert_eq!(strip_tags("a <span class=\"hit\">railroad</span> trestle"), "a railroad trestle");
    assert_eq!(strip_tags("plain"), "plain");
    assert_eq!(strip_tags("<b>all</b>"), "all");
    assert_eq!(strip_tags("unclosed <tag"), "unclosed ");
    assert_eq!(strip_tags(""), "");
}

#[test]
fn truncate_chars_counts_characters() {
    assert_eq!(truncate_chars("hello", 3), "hel");
    assert_eq!(truncate_chars("hello", 10), "hello");
    assert_eq!(truncate_chars("ééé", 2), "éé");
}

#[test]
fn strip_prefix_strips_once_when_present() {
    assert_eq!(strip_prefix("Category:Rust", "Category:"), "Rust");
    assert_eq!(strip_prefix("Rust", "Category:"), "Rust");
    assert_eq!(strip_prefix("File:File:a", "File:"), "File:a");
    assert_eq!(strip_prefix("x", ""), "x");
    assert_eq!(strip_prefix("Cat", "Category:"), "Cat");
}

#[test]
fn lowercase_uses_the_unicode_mapping() {
    assert_eq!(lowercase("FR"), "fr");
    assert_eq!(lowercase("Rust (Programming Language)"), "rust (programming language)");
    assert_eq!(lowercase("ÉCOLE"), "école");
}

#[test]
fn ascii_folding_comparison() {
    assert!(eq_fold_ascii("PageId", "pageid"));
    assert!(eq_fold_ascii("TITLE", "title"));
    assert!(!eq_fold_ascii("titles", "title"));
    assert!(!eq_fold_ascii("pageid ", "pageid"));
}
