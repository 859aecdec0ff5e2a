use vstd::prelude::*;
use crate::error::WikiError;
use crate::json::Json;

verus! {

/// The `query` sub-object of an `action=query` response envelope.
///
/// Absence is a reported failure, never a default: any JSON value without a
/// `query` member is rejected with `MissingField("query")`.
pub fn unwrap_query<'a>(envelope: &'a Json) -> (r: Result<&'a Json, WikiError>)
    ensures
        match r {
            Ok(v) => envelope.spec_get("query"@) == Some(*v),
            Err(e) => {
                &&& envelope.spec_get("query"@) is None
                &&& e matches WikiError::MissingField(f) && f@ == "query"@
            },
        },
{
    match envelope.get("query") {
        Some(v) => Ok(v),
        None => Err(WikiError::MissingField(String::from_str("query"))),
    }
}

/// The `items` array of a metrics response envelope.
///
/// The pageviews endpoint nests nothing: the item list sits directly at the
/// top level.  A value without an `items` member is rejected with
/// `MissingField("items")`; one whose `items` is not an array with
/// `TypeMismatch("items", "array")`.
pub fn unwrap_items<'a>(envelope: &'a Json) -> (r: Result<&'a Vec<Json>, WikiError>)
    ensures
        match r {
            Ok(v) => envelope.spec_get("items"@) == Some(Json::Arr(*v)),
            Err(e) => match envelope.spec_get("items"@) {
                None => e matches WikiError::MissingField(f) && f@ == "items"@,
                Some(items) => {
                    &&& !(items is Arr)
                    &&& e matches WikiError::TypeMismatch(f, t) && f@ == "items"@ && t@
                        == "array"@
                },
            },
        },
{
    match envelope.get("items") {
        Some(items) => match items.as_array() {
            Some(v) => Ok(v),
            None => Err(
                WikiError::TypeMismatch(String::from_str("items"), String::from_str("array")),
            ),
        },
        None => Err(WikiError::MissingField(String::from_str("items"))),
    }
}

/// Whether `q` holds a `pages` object with exactly one page in it.
pub open spec fn has_single_page(q: Json) -> bool {
    match q.spec_get("pages"@) {
        Some(pages) => match pages {
            Json::Obj(entries) => entries@.len() == 1,
            _ => false,
        },
        None => false,
    }
}

/// The single page of `q`, meaningful only when `has_single_page(q)`.
pub open spec fn spec_single_page(q: Json) -> Json
    recommends
        has_single_page(q),
{
    match q.spec_get("pages"@) {
        Some(pages) => match pages {
            Json::Obj(entries) => entries@[0].1,
            _ => Json::Null,
        },
        None => Json::Null,
    }
}

/// The one page object of an unwrapped `query` envelope.
///
/// The API is invoked for a single page per call, so exactly one page is
/// expected: a `pages` member that is absent or not an object is
/// `MissingField("pages")`, and a page set with zero entries — or with more
/// than the one expected — is `EmptyResult`, never a silently chosen page.
pub fn single_page<'a>(q: &'a Json) -> (r: Result<&'a Json, WikiError>)
    ensures
        match r {
            Ok(v) => has_single_page(*q) && *v == spec_single_page(*q),
            Err(e) => !has_single_page(*q) && match q.spec_get("pages"@) {
                None => e matches WikiError::MissingField(f) && f@ == "pages"@,
                Some(pages) => if !(pages is Obj) {
                    e matches WikiError::MissingField(f) && f@ == "pages"@
                } else {
                    e matches WikiError::EmptyResult
                },
            },
        },
{
    let pages = match q.get("pages") {
        Some(p) => p,
        None => {
            return Err(WikiError::MissingField(String::from_str("pages")));
        },
    };
    let entries = match pages.as_object() {
        Some(entries) => entries,
        None => {
            return Err(WikiError::MissingField(String::from_str("pages")));
        },
    };
    if entries.len() == 1 {
        Ok(&entries[0].1)
    } else {
        Err(WikiError::EmptyResult)
    }
}

} // verus!

