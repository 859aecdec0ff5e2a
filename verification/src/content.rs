use vstd::prelude::*;
use crate::envelope::single_page;
use crate::error::WikiError;
use crate::json::Json;
use crate::text::{ascii_fold, eq_fold_ascii};

verus! {

/// Where the current-revision content walk fails, in the model.
pub enum ContentFail {
    /// `pages` is absent or not an object.
    MissingPages,
    /// The page set does not hold exactly one page.
    NoSinglePage,
    /// `revisions` is absent, or the revision array is empty.
    MissingRevisions,
    /// `revisions` exists but is not an array.
    RevisionsNotArray,
    /// The first revision has no `slots` member with a `main` slot path.
    MissingSlots,
    /// The `slots` object has no `main` member.
    MissingMain,
    /// The `main` slot has no `*` content member.
    MissingContent,
    /// The `*` content member is not a string.
    ContentNotString,
}

/// The wikitext body at `pages.<the one page>.revisions[0].slots.main.*`,
/// or where the walk fails.
pub open spec fn spec_content(q: Json) -> Result<Seq<char>, ContentFail> {
    match q.spec_get("pages"@) {
        None => Err(ContentFail::MissingPages),
        Some(pages) => match pages {
            Json::Obj(entries) => if entries@.len() != 1 {
                Err(ContentFail::NoSinglePage)
            } else {
                match entries@[0].1.spec_get("revisions"@) {
                    None => Err(ContentFail::MissingRevisions),
                    Some(revs) => match revs {
                        Json::Arr(elems) => if elems@.len() == 0 {
                            Err(ContentFail::MissingRevisions)
                        } else {
                            match elems@[0].spec_get("slots"@) {
                                None => Err(ContentFail::MissingSlots),
                                Some(slots) => match slots.spec_get("main"@) {
                                    None => Err(ContentFail::MissingMain),
                                    Some(main) => match main.spec_get("*"@) {
                                        None => Err(ContentFail::MissingContent),
                                        Some(c) => match c {
                                            Json::Str(s) => Ok(s@),
                                            _ => Err(ContentFail::ContentNotString),
                                        },
                                    },
                                },
                            }
                        },
                        _ => Err(ContentFail::RevisionsNotArray),
                    },
                }
            },
            _ => Err(ContentFail::MissingPages),
        },
    }
}

/// What content extraction returns: the revision body on success, and a
/// `MissingField` naming the exact hop that failed otherwise — specific
/// enough to tell "no such page" from "page exists but has no revisions".
pub open spec fn content_post(q: Json, r: Result<String, WikiError>) -> bool {
    match r {
        Ok(text) => spec_content(q) == Ok::<Seq<char>, ContentFail>(text@),
        Err(e) => match spec_content(q) {
            Ok(_) => false,
            Err(fail) => match fail {
                ContentFail::MissingPages => e matches WikiError::MissingField(f) && f@
                    == "pages"@,
                ContentFail::NoSinglePage => e matches WikiError::EmptyResult,
                ContentFail::MissingRevisions => e matches WikiError::MissingField(f) && f@
                    == "revisions"@,
                ContentFail::RevisionsNotArray => e matches WikiError::TypeMismatch(f, t) && f@
                    == "revisions"@ && t@ == "array"@,
                ContentFail::MissingSlots => e matches WikiError::MissingField(f) && f@
                    == "slots"@,
                ContentFail::MissingMain => e matches WikiError::MissingField(f) && f@ == "main"@,
                ContentFail::MissingContent => e matches WikiError::MissingField(f) && f@ == "*"@,
                ContentFail::ContentNotString => e matches WikiError::TypeMismatch(f, t) && f@
                    == "*"@ && t@ == "string"@,
            },
        },
    }
}

/// Extracts the current-revision wikitext body of the one expected page
/// from an unwrapped `query` envelope.
pub fn extract_content(q: &Json) -> (r: Result<String, WikiError>)
    ensures
        content_post(*q, r),
{
    let page = match single_page(q) {
        Ok(p) => p,
        Err(e) => {
            return Err(e);
        },
    };
    let revs = match page.get("revisions") {
        Some(l) => l,
        None => {
            return Err(WikiError::MissingField(String::from_str("revisions")));
        },
    };
    let elems = match revs.as_array() {
        Some(v) => v,
        None => {
            return Err(
                WikiError::TypeMismatch(String::from_str("revisions"), String::from_str("array")),
            );
        },
    };
    if elems.len() == 0 {
        return Err(WikiError::MissingField(String::from_str("revisions")));
    }
    let slots = match elems[0].get("slots") {
        Some(s) => s,
        None => {
            return Err(WikiError::MissingField(String::from_str("slots")));
        },
    };
    let main = match slots.get("main") {
        Some(m) => m,
        None => {
            return Err(WikiError::MissingField(String::from_str("main")));
        },
    };
    let content = match main.get("*") {
        Some(c) => c,
        None => {
            return Err(WikiError::MissingField(String::from_str("*")));
        },
    };
    match content.as_str() {
        Some(s) => Ok(s.clone()),
        None => Err(WikiError::TypeMismatch(String::from_str("*"), String::from_str("string"))),
    }
}

/// How a single page is addressed: by its title or by its numeric page id.
#[derive(Clone, Copy, Debug, PartialEq, Eq, Structural)]
pub enum PageSelector {
    Title,
    PageId,
}

/// Parses the caller's selector word, case-insensitively: `title` addresses
/// a page by title, `pageid` by page id; anything else is `InvalidInput`
/// carrying the offending word.
pub fn page_param(input_type: &str) -> (r: Result<PageSelector, WikiError>)
    ensures
        match r {
            Ok(sel) => match sel {
                PageSelector::PageId => ascii_fold(input_type@) == "pageid"@,
                PageSelector::Title => ascii_fold(input_type@) == "title"@,
            },
            Err(e) => {
                &&& ascii_fold(input_type@) != "pageid"@
                &&& ascii_fold(input_type@) != "title"@
                &&& e matches WikiError::InvalidInput(s) && s@ == input_type@
            },
        },
{
    proof {
        reveal_strlit("pageid");
        reveal_strlit("title");
        assert(ascii_fold("pageid"@) =~= "pageid"@);
        assert(ascii_fold("title"@) =~= "title"@);
    }
    if eq_fold_ascii(input_type, "pageid") {
        Ok(PageSelector::PageId)
    } else if eq_fold_ascii(input_type, "title") {
        Ok(PageSelector::Title)
    } else {
        Err(WikiError::InvalidInput(String::from_str(input_type)))
    }
}

} // verus!
