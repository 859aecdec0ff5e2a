use vstd::prelude::*;
use crate::error::WikiError;
use crate::json::Json;
use crate::text::{
    i64_to_decimal,
    spec_decimal,
    spec_strip_tags,
    spec_truncate,
    strip_tags,
    truncate_chars,
};

verus! {

/// How many characters of a hit's snippet are kept once tags are stripped.
pub const SNIPPET_WIDTH: usize = 200;

/// One search hit: the page title as returned, the snippet reduced to plain
/// text and truncated, the page id as a decimal string, and the optional,
/// version-dependent timestamp.
#[derive(Debug)]
pub struct SearchHit {
    pub title: String,
    pub snippet: String,
    pub page_id: String,
    pub timestamp: Option<String>,
}

/// Where projecting one search hit fails, in the model.
pub enum HitFail {
    MissingTitle,
    TitleNotString,
    MissingSnippet,
    SnippetNotString,
    MissingPageId,
    PageIdNotInt,
}

/// The optional timestamp of a raw hit: present only as a string.
pub open spec fn spec_timestamp(elem: Json) -> Option<Seq<char>> {
    match elem.spec_get("timestamp"@) {
        Some(v) => match v {
            Json::Str(s) => Some(s@),
            _ => None,
        },
        None => None,
    }
}

/// The normalized fields of one raw hit — title, processed snippet, decimal
/// page id, optional timestamp — or which mandatory field is bad.
///
/// `title`, `snippet` and `pageid` are mandatory and checked fail-fast; a
/// hit record is all-or-nothing.
pub open spec fn spec_hit(elem: Json) -> Result<
    (Seq<char>, Seq<char>, Seq<char>, Option<Seq<char>>),
    HitFail,
> {
    match elem.spec_get("title"@) {
        None => Err(HitFail::MissingTitle),
        Some(tv) => match tv {
            Json::Str(title) => match elem.spec_get("snippet"@) {
                None => Err(HitFail::MissingSnippet),
                Some(sv) => match sv {
                    Json::Str(snippet) => match elem.spec_get("pageid"@) {
                        None => Err(HitFail::MissingPageId),
                        Some(pv) => match pv {
                            Json::Int(pid) => Ok(
                                (
                                    title@,
                                    spec_truncate(spec_strip_tags(snippet@), SNIPPET_WIDTH as int),
                                    spec_decimal(pid as int),
                                    spec_timestamp(elem),
                                ),
                            ),
                            _ => Err(HitFail::PageIdNotInt),
                        },
                    },
                    _ => Err(HitFail::SnippetNotString),
                },
            },
            _ => Err(HitFail::TitleNotString),
        },
    }
}

/// Whether the record `h` carries exactly the model fields `t`.
pub open spec fn hit_tuple_matches(
    h: SearchHit,
    t: (Seq<char>, Seq<char>, Seq<char>, Option<Seq<char>>),
) -> bool {
    &&& h.title@ == t.0
    &&& h.snippet@ == t.1
    &&& h.page_id@ == t.2
    &&& match (h.timestamp, t.3) {
        (Some(a), Some(b)) => a@ == b,
        (None, None) => true,
        _ => false,
    }
}

/// The error a bad mandatory hit field is reported as.
pub open spec fn hit_fail_error(fail: HitFail, e: WikiError) -> bool {
    match fail {
        HitFail::MissingTitle => e matches WikiError::MissingField(f) && f@ == "title"@,
        HitFail::TitleNotString => e matches WikiError::TypeMismatch(f, t) && f@ == "title"@ && t@
            == "string"@,
        HitFail::MissingSnippet => e matches WikiError::MissingField(f) && f@ == "snippet"@,
        HitFail::SnippetNotString => e matches WikiError::TypeMismatch(f, t) && f@ == "snippet"@
            && t@ == "string"@,
        HitFail::MissingPageId => e matches WikiError::MissingField(f) && f@ == "pageid"@,
        HitFail::PageIdNotInt => e matches WikiError::TypeMismatch(f, t) && f@ == "pageid"@ && t@
            == "integer"@,
    }
}

/// Projects one raw hit into a [`SearchHit`].
pub fn project_hit(elem: &Json) -> (r: Result<SearchHit, WikiError>)
    ensures
        match r {
            Ok(h) => spec_hit(*elem) matches Ok(t) && hit_tuple_matches(h, t),
            Err(e) => spec_hit(*elem) matches Err(fail) && hit_fail_error(fail, e),
        },
{
    let title = match elem.get("title") {
        None => {
            return Err(WikiError::MissingField(String::from_str("title")));
        },
        Some(tv) => match tv.as_str() {
            Some(s) => s.clone(),
            None => {
                return Err(
                    WikiError::TypeMismatch(String::from_str("title"), String::from_str("string")),
                );
            },
        },
    };
    let snippet = match elem.get("snippet") {
        None => {
            return Err(WikiError::MissingField(String::from_str("snippet")));
        },
        Some(sv) => match sv.as_str() {
            Some(s) => {
                let plain = strip_tags(s.as_str());
                truncate_chars(plain.as_str(), SNIPPET_WIDTH).to_owned()
            },
            None => {
                return Err(
                    WikiError::TypeMismatch(
                        String::from_str("snippet"),
                        String::from_str("string"),
                    ),
                );
            },
        },
    };
    let page_id = match elem.get("pageid") {
        None => {
            return Err(WikiError::MissingField(String::from_str("pageid")));
        },
        Some(pv) => match pv.as_i64() {
            Some(n) => i64_to_decimal(n),
            None => {
                return Err(
                    WikiError::TypeMismatch(
                        String::from_str("pageid"),
                        String::from_str("integer"),
                    ),
                );
            },
        },
    };
    let timestamp = match elem.get("timestamp") {
        Some(tv) => match tv.as_str() {
            Some(s) => Some(s.clone()),
            None => None,
        },
        None => None,
    };
    Ok(SearchHit { title, snippet, page_id, timestamp })
}

/// The projections of all raw hits, fail-fast: the first bad mandatory
/// field anywhere in the list fails the whole extraction.
pub open spec fn spec_hits(elems: Seq<Json>) -> Result<
    Seq<(Seq<char>, Seq<char>, Seq<char>, Option<Seq<char>>)>,
    HitFail,
>
    decreases elems.len(),
{
    if elems.len() == 0 {
        Ok(Seq::empty())
    } else {
        match spec_hit(elems[0]) {
            Err(f) => Err(f),
            Ok(h) => match spec_hits(elems.drop_first()) {
                Err(f) => Err(f),
                Ok(rest) => Ok(seq![h] + rest),
            },
        }
    }
}

/// `pre` prepended to a fail-fast tail result.
pub open spec fn prepend_hits(
    pre: Seq<(Seq<char>, Seq<char>, Seq<char>, Option<Seq<char>>)>,
    r: Result<Seq<(Seq<char>, Seq<char>, Seq<char>, Option<Seq<char>>)>, HitFail>,
) -> Result<Seq<(Seq<char>, Seq<char>, Seq<char>, Option<Seq<char>>)>, HitFail> {
    match r {
        Ok(rest) => Ok(pre + rest),
        Err(f) => Err(f),
    }
}

/// What search extraction returns for an unwrapped `query` envelope `q`.
pub open spec fn search_post(q: Json, r: Result<Vec<SearchHit>, WikiError>) -> bool {
    match q.spec_get("search"@) {
        None => r matches Err(e) && e matches WikiError::MissingField(f) && f@ == "search"@,
        Some(sv) => match sv {
            Json::Arr(elems) => match spec_hits(elems@) {
                Ok(tuples) => r matches Ok(hits) && hits@.len() == tuples.len() && (forall|i: int|
                    0 <= i < tuples.len() ==> hit_tuple_matches(#[trigger] hits@[i], tuples[i])),
                Err(fail) => r matches Err(e) && hit_fail_error(fail, e),
            },
            _ => r matches Err(e) && e matches WikiError::TypeMismatch(f, t) && f@ == "search"@
                && t@ == "array"@,
        },
    }
}

/// Extracts the search hit records from an unwrapped `query` envelope.
pub fn extract_search(q: &Json) -> (r: Result<Vec<SearchHit>, WikiError>)
    ensures
        search_post(*q, r),
{
    let list = match q.get("search") {
        Some(l) => l,
        None => {
            return Err(WikiError::MissingField(String::from_str("search")));
        },
    };
    let elems = match list.as_array() {
        Some(v) => v,
        None => {
            return Err(
                WikiError::TypeMismatch(String::from_str("search"), String::from_str("array")),
            );
        },
    };
    let ghost all = elems@;
    let n = elems.len();
    let mut out: Vec<SearchHit> = Vec::new();
    let mut i: usize = 0;
    let ghost mut done: Seq<(Seq<char>, Seq<char>, Seq<char>, Option<Seq<char>>)> = Seq::empty();
    proof {
        assert(all.skip(0) =~= all);
        match spec_hits(all) {
            Ok(rest) => {
                assert(Seq::<(Seq<char>, Seq<char>, Seq<char>, Option<Seq<char>>)>::empty() + rest
                    =~= rest);
            },
            Err(_) => {},
        }
    }
    while i < n
        invariant
            i <= n,
            n == all.len(),
            elems@ == all,
            q.spec_get("search"@) == Some(Json::Arr(*elems)),
            done.len() == i,
            out@.len() == i,
            forall|j: int| 0 <= j < i ==> hit_tuple_matches(#[trigger] out@[j], done[j]),
            spec_hits(all) == prepend_hits(done, spec_hits(all.skip(i as int))),
        decreases n - i,
    {
        proof {
            assert(all.skip(i as int).drop_first() =~= all.skip(i as int + 1));
            assert(all.skip(i as int)[0] == all[i as int]);
        }
        match project_hit(&elems[i]) {
            Ok(h) => {
                let ghost t = spec_hit(all[i as int])->Ok_0;
                proof {
                    match spec_hits(all.skip(i as int + 1)) {
                        Ok(rest) => {
                            assert(done + (seq![t] + rest) =~= (done + seq![t]) + rest);
                        },
                        Err(_) => {},
                    }
                }
                out.push(h);
                proof {
                    done = done + seq![t];
                }
            },
            Err(e) => {
                return Err(e);
            },
        }
        i = i + 1;
    }
    proof {
        assert(all.skip(n as int) =~= Seq::<Json>::empty());
        assert(done + Seq::<(Seq<char>, Seq<char>, Seq<char>, Option<Seq<char>>)>::empty()
            =~= done);
    }
    Ok(out)
}

} // verus!
