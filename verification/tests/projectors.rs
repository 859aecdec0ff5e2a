use wikiquery::{project, Json, ListKind};

fn obj(key: &str, val: &str) -> Json {
    Json::Obj(vec![(key.to_string(), Json::Str(val.to_string()))])
}

#[test]
fn categories_test_get_title() {
    let inputs = obj("title", "Category:Rust (programming language)");
    let output = project(ListKind::Categories, &inputs);
    let expected = Some("rust (programming language)".to_string());
    assert_eq!(output, expected);
}

#[test]
fn images_test_get_title() {
    let inputs = obj("title", "File:Collapsed Kinzua Bridge.jpg");
    let output = project(ListKind::Images, &inputs);
    let expected = Some("collapsed kinzua bridge.jpg".to_string());
    assert_eq!(output, expected);
}

#[test]
fn links_test_get_title() {
    let inputs = obj("title", "Air moisture");
    let output = project(ListKind::Links, &inputs);
    let expected = Some("air moisture".to_string());
    assert_eq!(output, expected);
}

#[test]
fn test_get_lang() {
    let inputs = obj("lang", "FR");
    let output = project(ListKind::Languages, &inputs);
    let expected = Some("fr".to_string());
    assert_eq!(output, expected);
}

#[test]
fn projector_skips_missing_key() {
    let inputs = obj("other", "x");
    assert_eq!(project(ListKind::Categories, &inputs), None);
}

#[test]
fn projector_skips_non_string_title() {
    let inputs = Json::Obj(vec![("title".to_string(), Json::Int(3))]);
    assert_eq!(project(ListKind::Images, &inputs), None);
}

#[test]
fn projector_keeps_unprefixed_title() {
    let inputs = obj("title", "Kinzua Bridge");
    assert_eq!(project(ListKind::Images, &inputs), Some("kinzua bridge".to_string()));
}
