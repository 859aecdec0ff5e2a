use wikiquery::{extract_content, page_param, page_url, Json, PageSelector, WikiError};

fn s(x: &str) -> String {
    x.to_string()
}

fn content_envelope(text: &str) -> Json {
    Json::Obj(vec![(
        s("pages"),
        Json::Obj(vec![(
            s("39270413"),
            Json::Obj(vec![(
                s("revisions"),
                Json::Arr(vec![Json::Obj(vec![(
                    s("slots"),
                    Json::Obj(vec![(
                        s("main"),
                        Json::Obj(vec![(s("*"), Json::Str(s(text)))]),
                    )]),
                )])]),
            )]),
        )]),
    )])
}

#[test]
fn content_walks_to_the_main_slot() {
    let q = content_envelope("'''Kinzua Bridge''' was a railroad trestle.");
    assert_eq!(extract_content(&q).unwrap(), "'''Kinzua Bridge''' was a railroad trestle.");
}

#[test]
fn content_names_the_missing_hop() {
    let no_revisions = Json::Obj(vec![(
        s("pages"),
        Json::Obj(vec![(s("1"), Json::Obj(vec![]))]),
    )]);
    assert!(
        matches!(extract_content(&no_revisions).unwrap_err(), WikiError::MissingField(f) if f == "revisions")
    );

    let empty_revisions = Json::Obj(vec![(
        s("pages"),
        Json::Obj(vec![(s("1"), Json::Obj(vec![(s("revisions"), Json::Arr(vec![]))]))]),
    )]);
    assert!(
        matches!(extract_content(&empty_revisions).unwrap_err(), WikiError::MissingField(f) if f == "revisions")
    );

    let no_slots = Json::Obj(vec![(
        s("pages"),
        Json::Obj(vec![(
            s("1"),
            Json::Obj(vec![(s("revisions"), Json::Arr(vec![Json::Obj(vec![])]))]),
        )]),
    )]);
    assert!(
        matches!(extract_content(&no_slots).unwrap_err(), WikiError::MissingField(f) if f == "slots")
    );

    let no_main = Json::Obj(vec![(
        s("pages"),
        Json::Obj(vec![(
            s("1"),
            Json::Obj(vec![(
                s("revisions"),
                Json::Arr(vec![Json::Obj(vec![(s("slots"), Json::Obj(vec![]))])]),
            )]),
        )]),
    )]);
    assert!(
        matches!(extract_content(&no_main).unwrap_err(), WikiError::MissingField(f) if f == "main")
    );

    let no_star = Json::Obj(vec![(
        s("pages"),
        Json::Obj(vec![(
            s("1"),
            Json::Obj(vec![(
                s("revisions"),
                Json::Arr(vec![Json::Obj(vec![(
                    s("slots"),
                    Json::Obj(vec![(s("main"), Json::Obj(vec![]))]),
                )])]),
            )]),
        )]),
    )]);
    assert!(
        matches!(extract_content(&no_star).unwrap_err(), WikiError::MissingField(f) if f == "*")
    );
}

#[test]
fn content_wants_a_string_body() {
    let q = Json::Obj(vec![(
        s("pages"),
        Json::Obj(vec![(
            s("1"),
            Json::Obj(vec![(
                s("revisions"),
                Json::Arr(vec![Json::Obj(vec![(
                    s("slots"),
                    Json::Obj(vec![(s("main"), Json::Obj(vec![(s("*"), Json::Int(0))]))]),
                )])]),
            )]),
        )]),
    )]);
    assert!(
        matches!(extract_content(&q).unwrap_err(), WikiError::TypeMismatch(f, t) if f == "*" && t == "string")
    );
}

#[test]
fn page_param_is_case_insensitive() {
    assert_eq!(page_param("pageId").unwrap(), PageSelector::PageId);
    assert_eq!(page_param("PAGEID").unwrap(), PageSelector::PageId);
    assert_eq!(page_param("title").unwrap(), PageSelector::Title);
    assert_eq!(page_param("Title").unwrap(), PageSelector::Title);
}

#[test]
fn page_param_rejects_other_selectors() {
    let err = page_param("slug").unwrap_err();
    assert!(matches!(err, WikiError::InvalidInput(w) if w == "slug"));
}

#[test]
fn page_urls_address_by_title_or_id() {
    assert_eq!(
        page_url("39270413", PageSelector::PageId, true),
        "https://en.wikipedia.org/w/api.php?action=query&prop=revisions&rvslots=main&rvprop=content&format=json&pageids=39270413"
    );
    assert_eq!(
        page_url("kinzua bridge", PageSelector::Title, true),
        "https://en.wikipedia.org/w/api.php?action=query&prop=revisions&rvslots=main&rvprop=content&format=json&titles=Kinzua%20bridge"
    );
}
