use wikiquery::{content_url, i64_to_decimal, join_results, list_url, u64_to_decimal, ListKind, WikiError};

fn s(x: &str) -> String {
    x.to_string()
}

#[test]
fn join_preserves_input_order() {
    // the aggregate answers position by position, regardless of which task
    // finished first when the results were collected
    let results = vec![Ok(s("content of 39270413")), Ok(s("content of 39270414"))];
    let out = join_results(&results).unwrap();
    assert_eq!(out.len(), 2);
    assert_eq!(out, vec![s("content of 39270413"), s("content of 39270414")]);
}

#[test]
fn join_of_nothing_is_empty() {
    let results: Vec<Result<String, WikiError>> = vec![];
    assert_eq!(join_results(&results).unwrap(), Vec::<String>::new());
}

#[test]
fn join_surfaces_the_first_failure() {
    let results = vec![
        Ok(s("a")),
        Err(WikiError::EmptyResult),
        Err(WikiError::Http(s("https://example.invalid"))),
    ];
    let err = join_results(&results).unwrap_err();
    match err {
        WikiError::AggregateFetch(cause) => assert!(matches!(*cause, WikiError::EmptyResult)),
        other => panic!("expected AggregateFetch, got {:?}", other),
    }
}

#[test]
fn decimal_renderings() {
    assert_eq!(u64_to_decimal(0), "0");
    assert_eq!(u64_to_decimal(39270413), "39270413");
    assert_eq!(i64_to_decimal(39270414), "39270414");
    assert_eq!(i64_to_decimal(-5), "-5");
    assert_eq!(i64_to_decimal(i64::MIN), "-9223372036854775808");
    assert_eq!(i64_to_decimal(i64::MAX), "9223372036854775807");
}

#[test]
fn request_urls_match_the_api_layout() {
    assert_eq!(
        list_url(ListKind::Categories, "Rust", true),
        "https://en.wikipedia.org/w/api.php?action=query&prop=categories&titles=Rust&format=json"
    );
    assert_eq!(
        list_url(ListKind::Languages, "rust", false),
        "https://en.wikipedia.org/w/api.php?action=query&prop=langlinks&titles=rust&format=json"
    );
    assert_eq!(
        content_url("39270413"),
        "https://en.wikipedia.org/w/api.php?action=query&prop=revisions&rvslots=main&rvprop=content&format=json&pageids=39270413"
    );
}
