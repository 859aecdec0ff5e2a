use vstd::prelude::*;
use crate::content::PageSelector;
use crate::extract::{list_field, list_field_spec, ListKind};
use crate::query::{get_query, spec_get_query};

verus! {

/// The `action=query` URL asking for a flat-list capability of one title.
pub open spec fn spec_list_url(k: ListKind, query: Seq<char>, capitalize: bool) -> Seq<char> {
    "https://en.wikipedia.org/w/api.php?action=query&prop="@ + list_field_spec(k) + "&titles="@
        + spec_get_query(query, capitalize) + "&format=json"@
}

/// Builds the request URL for one flat-list capability.
pub fn list_url(k: ListKind, query: &str, capitalize: bool) -> (r: String)
    ensures
        r@ == spec_list_url(k, query@, capitalize),
{
    let mut url = String::from_str("https://en.wikipedia.org/w/api.php?action=query&prop=");
    url.append(list_field(k));
    url.append("&titles=");
    let q = get_query(query, capitalize);
    url.append(q.as_str());
    url.append("&format=json");
    url
}

/// The `action=query` URL fetching the current-revision content of one
/// page id.  The id is embedded as handed in, not re-encoded.
pub open spec fn spec_content_url(page_id: Seq<char>) -> Seq<char> {
    "https://en.wikipedia.org/w/api.php?action=query&prop=revisions&rvslots=main&rvprop=content&format=json&pageids="@
        + page_id
}

/// Builds the content request URL for one page id.
pub fn content_url(page_id: &str) -> (r: String)
    ensures
        r@ == spec_content_url(page_id@),
{
    let mut url = String::from_str(
        "https://en.wikipedia.org/w/api.php?action=query&prop=revisions&rvslots=main&rvprop=content&format=json&pageids=",
    );
    url.append(page_id);
    url
}

/// The request parameter a selector addresses the page by.
pub open spec fn spec_selector_param(sel: PageSelector) -> Seq<char> {
    match sel {
        PageSelector::Title => "titles="@,
        PageSelector::PageId => "pageids="@,
    }
}

/// The `action=query` URL fetching the current-revision content of one
/// page, addressed by title or by page id.
pub open spec fn spec_page_url(text: Seq<char>, sel: PageSelector, capitalize: bool) -> Seq<char> {
    "https://en.wikipedia.org/w/api.php?action=query&prop=revisions&rvslots=main&rvprop=content&format=json&"@
        + spec_selector_param(sel) + spec_get_query(text, capitalize)
}

/// Builds the page request URL for one title or page id.
pub fn page_url(text: &str, sel: PageSelector, capitalize: bool) -> (r: String)
    ensures
        r@ == spec_page_url(text@, sel, capitalize),
{
    let mut url = String::from_str(
        "https://en.wikipedia.org/w/api.php?action=query&prop=revisions&rvslots=main&rvprop=content&format=json&",
    );
    match sel {
        PageSelector::Title => url.append("titles="),
        PageSelector::PageId => url.append("pageids="),
    }
    let q = get_query(text, capitalize);
    url.append(q.as_str());
    url
}

/// The `list=search` URL for a free-text query.
pub open spec fn spec_search_url(query: Seq<char>, capitalize: bool) -> Seq<char> {
    "https://en.wikipedia.org/w/api.php?action=query&list=search&srsearch="@ + spec_get_query(
        query,
        capitalize,
    ) + "&format=json"@
}

/// Builds the search request URL.
pub fn search_url(query: &str, capitalize: bool) -> (r: String)
    ensures
        r@ == spec_search_url(query@, capitalize),
{
    let mut url = String::from_str(
        "https://en.wikipedia.org/w/api.php?action=query&list=search&srsearch=",
    );
    let q = get_query(query, capitalize);
    url.append(q.as_str());
    url.append("&format=json");
    url
}

} // verus!
