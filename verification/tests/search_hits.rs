use wikiquery::{extract_search, project_hit, search_url, Json, WikiError, SNIPPET_WIDTH};

fn s(x: &str) -> String {
    x.to_string()
}

fn hit(title: &str, snippet: &str, pageid: i64) -> Json {
    Json::Obj(vec![
        (s("title"), Json::Str(s(title))),
        (s("snippet"), Json::Str(s(snippet))),
        (s("pageid"), Json::Int(pageid)),
    ])
}

#[test]
fn search_extracts_records_in_order() {
    let q = Json::Obj(vec![(
        s("search"),
        Json::Arr(vec![
            hit("Kinzua Bridge", "a <span>railroad</span> trestle", 39270413),
            hit("Rust", "a <b>systems</b> language", 39270414),
        ]),
    )]);
    let hits = extract_search(&q).unwrap();
    assert_eq!(hits.len(), 2);
    assert_eq!(hits[0].title, "Kinzua Bridge");
    assert_eq!(hits[0].snippet, "a railroad trestle");
    assert_eq!(hits[0].page_id, "39270413");
    assert_eq!(hits[0].timestamp, None);
    assert_eq!(hits[1].page_id, "39270414");
}

#[test]
fn search_keeps_the_optional_timestamp() {
    let mut e = hit("T", "s", 7);
    if let Json::Obj(entries) = &mut e {
        entries.push((s("timestamp"), Json::Str(s("2024-08-01T00:00:00Z"))));
    }
    let q = Json::Obj(vec![(s("search"), Json::Arr(vec![e]))]);
    let hits = extract_search(&q).unwrap();
    assert_eq!(hits[0].timestamp.as_deref(), Some("2024-08-01T00:00:00Z"));
}

#[test]
fn search_snippet_is_truncated() {
    let long = "x".repeat(SNIPPET_WIDTH + 50);
    let h = project_hit(&hit("T", &long, 1)).unwrap();
    assert_eq!(h.snippet.chars().count(), SNIPPET_WIDTH);
}

#[test]
fn search_mandatory_fields_fail_fast() {
    let no_title = Json::Obj(vec![(s("snippet"), Json::Str(s("x"))), (s("pageid"), Json::Int(1))]);
    assert!(
        matches!(project_hit(&no_title).unwrap_err(), WikiError::MissingField(f) if f == "title")
    );

    let bad_pageid = Json::Obj(vec![
        (s("title"), Json::Str(s("T"))),
        (s("snippet"), Json::Str(s("x"))),
        (s("pageid"), Json::Str(s("39270413"))),
    ]);
    assert!(
        matches!(project_hit(&bad_pageid).unwrap_err(), WikiError::TypeMismatch(f, t) if f == "pageid" && t == "integer")
    );

    let bad_snippet = Json::Obj(vec![
        (s("title"), Json::Str(s("T"))),
        (s("snippet"), Json::Null),
        (s("pageid"), Json::Int(1)),
    ]);
    assert!(
        matches!(project_hit(&bad_snippet).unwrap_err(), WikiError::TypeMismatch(f, t) if f == "snippet" && t == "string")
    );
}

#[test]
fn search_one_bad_hit_fails_the_extraction() {
    let q = Json::Obj(vec![(
        s("search"),
        Json::Arr(vec![hit("Good", "fine", 1), Json::Obj(vec![])]),
    )]);
    assert!(
        matches!(extract_search(&q).unwrap_err(), WikiError::MissingField(f) if f == "title")
    );
}

#[test]
fn search_wants_an_array() {
    let none = Json::Obj(vec![]);
    assert!(
        matches!(extract_search(&none).unwrap_err(), WikiError::MissingField(f) if f == "search")
    );
    let bad = Json::Obj(vec![(s("search"), Json::Int(1))]);
    assert!(
        matches!(extract_search(&bad).unwrap_err(), WikiError::TypeMismatch(f, t) if f == "search" && t == "array")
    );
}

#[test]
fn search_url_embeds_the_encoded_query() {
    assert_eq!(
        search_url("kinzua bridge", false),
        "https://en.wikipedia.org/w/api.php?action=query&list=search&srsearch=kinzua%20bridge&format=json"
    );
}
