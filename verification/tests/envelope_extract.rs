use wikiquery::{
    extract_list,
    get_categories,
    get_images,
    get_languages,
    get_links,
    single_page,
    unwrap_items,
    unwrap_query,
    Json,
    ListKind,
    WikiError,
};

fn s(x: &str) -> String {
    x.to_string()
}

fn page_with(field: &str, elems: Vec<Json>) -> Json {
    Json::Obj(vec![(
        s("pages"),
        Json::Obj(vec![(s("123"), Json::Obj(vec![(s(field), Json::Arr(elems))]))]),
    )])
}

fn title_elem(t: &str) -> Json {
    Json::Obj(vec![(s("title"), Json::Str(s(t)))])
}

#[test]
fn unwrap_query_returns_the_query_object() {
    let env = Json::Obj(vec![(s("batchcomplete"), Json::Str(s(""))), (
        s("query"),
        Json::Obj(vec![]),
    )]);
    assert!(unwrap_query(&env).is_ok());
}

#[test]
fn unwrap_query_fails_without_query_key() {
    for env in [
        Json::Obj(vec![(s("other"), Json::Int(1))]),
        Json::Obj(vec![]),
        Json::Null,
        Json::Arr(vec![]),
        Json::Str(s("query")),
    ] {
        let err = unwrap_query(&env).unwrap_err();
        assert!(matches!(err, WikiError::MissingField(f) if f == "query"));
    }
}

#[test]
fn unwrap_items_wants_an_array() {
    let env = Json::Obj(vec![(s("items"), Json::Arr(vec![Json::Null]))]);
    assert_eq!(unwrap_items(&env).unwrap().len(), 1);
    let none = Json::Obj(vec![]);
    assert!(matches!(unwrap_items(&none).unwrap_err(), WikiError::MissingField(f) if f == "items"));
    let bad = Json::Obj(vec![(s("items"), Json::Int(1))]);
    assert!(
        matches!(unwrap_items(&bad).unwrap_err(), WikiError::TypeMismatch(f, t) if f == "items" && t == "array")
    );
}

#[test]
fn single_page_wants_exactly_one_page() {
    let none = Json::Obj(vec![(s("pages"), Json::Obj(vec![]))]);
    assert!(matches!(single_page(&none).unwrap_err(), WikiError::EmptyResult));
    let two = Json::Obj(vec![(
        s("pages"),
        Json::Obj(vec![(s("1"), Json::Null), (s("2"), Json::Null)]),
    )]);
    assert!(matches!(single_page(&two).unwrap_err(), WikiError::EmptyResult));
    let missing = Json::Obj(vec![]);
    assert!(matches!(single_page(&missing).unwrap_err(), WikiError::MissingField(f) if f == "pages"));
    let not_object = Json::Obj(vec![(s("pages"), Json::Arr(vec![]))]);
    assert!(
        matches!(single_page(&not_object).unwrap_err(), WikiError::MissingField(f) if f == "pages")
    );
}

#[test]
fn empty_pages_is_empty_result_for_every_flat_extractor() {
    let q = Json::Obj(vec![(s("pages"), Json::Obj(vec![]))]);
    assert!(matches!(get_images(&q).unwrap_err(), WikiError::EmptyResult));
    assert!(matches!(get_categories(&q).unwrap_err(), WikiError::EmptyResult));
    assert!(matches!(get_links(&q).unwrap_err(), WikiError::EmptyResult));
    assert!(matches!(get_languages(&q).unwrap_err(), WikiError::EmptyResult));
}

#[test]
fn categories_are_stripped_and_lowercased() {
    let q = page_with(
        "categories",
        vec![title_elem("Category:Rust (programming language)"), title_elem("Category:Systems")],
    );
    let out = get_categories(&q).unwrap();
    assert_eq!(out, vec![s("rust (programming language)"), s("systems")]);
}

#[test]
fn images_are_stripped_and_lowercased() {
    let q = page_with("images", vec![title_elem("File:Collapsed Kinzua Bridge.jpg")]);
    assert_eq!(get_images(&q).unwrap(), vec![s("collapsed kinzua bridge.jpg")]);
}

#[test]
fn links_are_lowercased_only() {
    let q = page_with("links", vec![title_elem("File:Kept"), title_elem("Air moisture")]);
    assert_eq!(get_links(&q).unwrap(), vec![s("file:kept"), s("air moisture")]);
}

#[test]
fn languages_read_the_lang_field() {
    let q = page_with(
        "langlinks",
        vec![
            Json::Obj(vec![(s("lang"), Json::Str(s("FR")))]),
            Json::Obj(vec![(s("lang"), Json::Str(s("de")))]),
        ],
    );
    assert_eq!(get_languages(&q).unwrap(), vec![s("fr"), s("de")]);
}

#[test]
fn malformed_elements_are_skipped_not_fatal() {
    let q = page_with(
        "categories",
        vec![Json::Int(1), title_elem("Category:Kept"), Json::Obj(vec![])],
    );
    assert_eq!(get_categories(&q).unwrap(), vec![s("kept")]);
}

#[test]
fn missing_capability_array_is_named() {
    let q = page_with("images", vec![]);
    let err = extract_list(ListKind::Categories, &q).unwrap_err();
    assert!(matches!(err, WikiError::MissingField(f) if f == "categories"));
}

#[test]
fn non_array_capability_is_a_type_mismatch() {
    let q = Json::Obj(vec![(
        s("pages"),
        Json::Obj(vec![(s("9"), Json::Obj(vec![(s("links"), Json::Int(4))]))]),
    )]);
    let err = extract_list(ListKind::Links, &q).unwrap_err();
    assert!(matches!(err, WikiError::TypeMismatch(f, t) if f == "links" && t == "array"));
}
