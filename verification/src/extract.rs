use vstd::prelude::*;
use crate::envelope::single_page;
use crate::error::WikiError;
use crate::json::Json;
use crate::text::{lower_of, lowercase, spec_strip_prefix, strip_prefix};

verus! {

/// The flat-list capabilities: each names the array inside the page object
/// and the projection applied to its elements.
#[derive(Clone, Copy, Debug)]
pub enum ListKind {
    Images,
    Categories,
    Links,
    Languages,
}

/// The page-object member holding the capability's array.
pub open spec fn list_field_spec(k: ListKind) -> Seq<char> {
    match k {
        ListKind::Images => "images"@,
        ListKind::Categories => "categories"@,
        ListKind::Links => "links"@,
        ListKind::Languages => "langlinks"@,
    }
}

pub(crate) fn list_field(k: ListKind) -> (r: &'static str)
    ensures
        r@ == list_field_spec(k),
{
    match k {
        ListKind::Images => "images",
        ListKind::Categories => "categories",
        ListKind::Links => "links",
        ListKind::Languages => "langlinks",
    }
}

/// The array-element member the projector reads.
pub open spec fn proj_key_spec(k: ListKind) -> Seq<char> {
    match k {
        ListKind::Languages => "lang"@,
        _ => "title"@,
    }
}

fn proj_key(k: ListKind) -> (r: &'static str)
    ensures
        r@ == proj_key_spec(k),
{
    match k {
        ListKind::Languages => "lang",
        _ => "title",
    }
}

/// The namespace prefix the projector strips before lower-casing.
pub open spec fn proj_prefix_spec(k: ListKind) -> Seq<char> {
    match k {
        ListKind::Images => "File:"@,
        ListKind::Categories => "Category:"@,
        _ => ""@,
    }
}

fn proj_prefix(k: ListKind) -> (r: &'static str)
    ensures
        r@ == proj_prefix_spec(k),
{
    match k {
        ListKind::Images => "File:",
        ListKind::Categories => "Category:",
        _ => "",
    }
}

/// What the projector yields for one array element: the element's key field
/// when it is a string, with the capability's namespace prefix stripped and
/// the remainder lower-cased; nothing for any other shape.
pub open spec fn spec_project(k: ListKind, elem: Json) -> Option<Seq<char>> {
    match elem.spec_get(proj_key_spec(k)) {
        Some(v) => match v {
            Json::Str(s) => Some(lower_of(spec_strip_prefix(s@, proj_prefix_spec(k)))),
            _ => None,
        },
        None => None,
    }
}

/// Projects one raw array element to its normalized string, if well-formed.
///
/// A malformed element — no key field, or one that is not a string — yields
/// `None` and is skipped by the flat-list extractors, never reported fatal.
pub fn project(k: ListKind, elem: &Json) -> (r: Option<String>)
    ensures
        match r {
            Some(s) => spec_project(k, *elem) == Some(s@),
            None => spec_project(k, *elem) is None,
        },
{
    match elem.get(proj_key(k)) {
        Some(v) => match v.as_str() {
            Some(s) => {
                let stripped = strip_prefix(s.as_str(), proj_prefix(k));
                Some(lowercase(stripped))
            },
            None => None,
        },
        None => None,
    }
}

/// Where a flat-list extraction fails, in the model.
pub enum FlatFail {
    /// `pages` is absent or not an object.
    MissingPages,
    /// The page set does not hold exactly one page.
    NoSinglePage,
    /// The capability's array is absent from the page object.
    MissingList,
    /// The capability's member exists but is not an array.
    ListNotArray,
}

/// The capability's raw element array inside `q`, or where finding it fails.
pub open spec fn spec_flat(k: ListKind, q: Json) -> Result<Seq<Json>, FlatFail> {
    match q.spec_get("pages"@) {
        None => Err(FlatFail::MissingPages),
        Some(pages) => match pages {
            Json::Obj(entries) => if entries@.len() != 1 {
                Err(FlatFail::NoSinglePage)
            } else {
                match entries@[0].1.spec_get(list_field_spec(k)) {
                    None => Err(FlatFail::MissingList),
                    Some(l) => match l {
                        Json::Arr(elems) => Ok(elems@),
                        _ => Err(FlatFail::ListNotArray),
                    },
                }
            },
            _ => Err(FlatFail::MissingPages),
        },
    }
}

/// The projections of the well-formed elements, in order.
pub open spec fn spec_projected(k: ListKind, elems: Seq<Json>) -> Seq<Seq<char>>
    decreases elems.len(),
{
    if elems.len() == 0 {
        Seq::empty()
    } else {
        let rest = spec_projected(k, elems.drop_first());
        match spec_project(k, elems[0]) {
            Some(s) => seq![s] + rest,
            None => rest,
        }
    }
}

/// What a flat-list extraction returns: on the one expected page, the
/// capability's array with every well-formed element projected, in order;
/// otherwise exactly the error named by where the walk failed.
pub open spec fn list_post(k: ListKind, q: Json, r: Result<Vec<String>, WikiError>) -> bool {
    match r {
        Ok(v) => spec_flat(k, q) matches Ok(elems) && v.deep_view() == spec_projected(k, elems),
        Err(e) => match spec_flat(k, q) {
            Ok(_) => false,
            Err(fail) => match fail {
                FlatFail::MissingPages => e matches WikiError::MissingField(f) && f@ == "pages"@,
                FlatFail::NoSinglePage => e matches WikiError::EmptyResult,
                FlatFail::MissingList => e matches WikiError::MissingField(f) && f@
                    == list_field_spec(k),
                FlatFail::ListNotArray => e matches WikiError::TypeMismatch(f, t) && f@
                    == list_field_spec(k) && t@ == "array"@,
            },
        },
    }
}

/// Extracts the capability's flat string list from an unwrapped `query`
/// envelope: the one expected page's array, each well-formed element
/// projected and normalized, malformed elements skipped.
///
/// An empty page set — or more pages than the one expected — is
/// `EmptyResult`, never an empty list.
pub fn extract_list(k: ListKind, q: &Json) -> (r: Result<Vec<String>, WikiError>)
    ensures
        list_post(k, *q, r),
{
    let page = match single_page(q) {
        Ok(p) => p,
        Err(e) => {
            return Err(e);
        },
    };
    let list = match page.get(list_field(k)) {
        Some(l) => l,
        None => {
            return Err(WikiError::MissingField(String::from_str(list_field(k))));
        },
    };
    let elems = match list.as_array() {
        Some(v) => v,
        None => {
            return Err(
                WikiError::TypeMismatch(String::from_str(list_field(k)), String::from_str("array")),
            );
        },
    };
    let ghost all = elems@;
    let n = elems.len();
    let mut out: Vec<String> = Vec::new();
    let mut i: usize = 0;
    proof {
        assert(all.skip(0) =~= all);
    }
    while i < n
        invariant
            i <= n,
            n == all.len(),
            elems@ == all,
            out.deep_view() + spec_projected(k, all.skip(i as int)) == spec_projected(k, all),
        decreases n - i,
    {
        proof {
            assert(all.skip(i as int).drop_first() =~= all.skip(i as int + 1));
            assert(all.skip(i as int)[0] == all[i as int]);
        }
        let ghost prev = out.deep_view();
        match project(k, &elems[i]) {
            Some(s) => {
                let ghost sv = s@;
                out.push(s);
                proof {
                    assert(out.deep_view() =~= prev + seq![sv]);
                    assert((prev + seq![sv]) + spec_projected(k, all.skip(i as int + 1)) =~= prev
                        + (seq![sv] + spec_projected(k, all.skip(i as int + 1))));
                }
            },
            None => {
            },
        }
        i = i + 1;
    }
    proof {
        assert(all.skip(n as int) =~= Seq::<Json>::empty());
    }
    Ok(out)
}

/// The media file names of the page in `q`: each `images` element's title,
/// `File:` prefix stripped, lower-cased.
pub fn get_images(q: &Json) -> (r: Result<Vec<String>, WikiError>)
    ensures
        list_post(ListKind::Images, *q, r),
{
    extract_list(ListKind::Images, q)
}

/// The categories of the page in `q`: each `categories` element's title,
/// `Category:` prefix stripped, lower-cased.
pub fn get_categories(q: &Json) -> (r: Result<Vec<String>, WikiError>)
    ensures
        list_post(ListKind::Categories, *q, r),
{
    extract_list(ListKind::Categories, q)
}

/// The outgoing links of the page in `q`: each `links` element's title,
/// lower-cased, no prefix stripping.
pub fn get_links(q: &Json) -> (r: Result<Vec<String>, WikiError>)
    ensures
        list_post(ListKind::Links, *q, r),
{
    extract_list(ListKind::Links, q)
}

/// The interlanguage codes of the page in `q`: each `langlinks` element's
/// `lang` field, lower-cased.
pub fn get_languages(q: &Json) -> (r: Result<Vec<String>, WikiError>)
    ensures
        list_post(ListKind::Languages, *q, r),
{
    extract_list(ListKind::Languages, q)
}

} // verus!
