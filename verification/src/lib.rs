//! A verified core for a wiki JSON-API client.
//!
//! The library covers the computation around the network calls: query
//! normalization (percent-encoding done exactly once), request URL
//! construction, validation and unwrapping of the JSON response envelope,
//! field extraction and projection from page-keyed result objects, the
//! pageviews date range, and the aggregation of concurrent per-page fetches.
//! The HTTP transport itself is left to the caller, which hands the parsed
//! response back as a [`json::Json`] tree.

mod content;
mod envelope;
mod error;
mod extract;
mod fetch;
mod json;
mod query;
mod search;
mod text;
mod urls;
mod views;

pub use content::content_post;
pub use content::extract_content;
pub use content::page_param;
pub use content::spec_content;
pub use content::ContentFail;
pub use content::PageSelector;
pub use envelope::has_single_page;
pub use envelope::single_page;
pub use envelope::spec_single_page;
pub use envelope::unwrap_items;
pub use envelope::unwrap_query;
pub use error::WikiError;
pub use extract::extract_list;
pub use extract::get_categories;
pub use extract::get_images;
pub use extract::get_languages;
pub use extract::get_links;
pub use extract::list_post;
pub use extract::list_field_spec;
pub use extract::project;
pub use extract::spec_flat;
pub use extract::spec_project;
pub use extract::spec_projected;
pub use extract::FlatFail;
pub use extract::ListKind;
pub use json::Json;
pub use fetch::join_results;
pub use fetch::lemma_join_no_partial_success;
pub use fetch::lemma_join_preserves_order;
pub use fetch::prepend_join;
pub use fetch::spec_join;
pub use urls::content_url;
pub use urls::list_url;
pub use urls::page_url;
pub use urls::search_url;
pub use urls::spec_content_url;
pub use urls::spec_list_url;
pub use urls::spec_page_url;
pub use urls::spec_search_url;
pub use urls::spec_selector_param;
pub use query::capitalize_first;
pub use query::check_normalized;
pub use query::get_query;
pub use query::is_normalized;
pub use query::lemma_normalize_idempotent;
pub use query::lemma_pct_of_normalized;
pub use query::normalize;
pub use query::normalize_safe;
pub use query::pct_of;
pub use query::spec_capitalize;
pub use query::spec_get_query;
pub use query::spec_normalize;
pub use query::upper_of;
pub use search::extract_search;
pub use search::hit_fail_error;
pub use search::hit_tuple_matches;
pub use search::project_hit;
pub use search::search_post;
pub use search::spec_hit;
pub use search::spec_hits;
pub use search::spec_timestamp;
pub use search::HitFail;
pub use search::SearchHit;
pub use search::SNIPPET_WIDTH;
pub use text::ascii_fold;
pub use text::dec_digits;
pub use text::eq_fold_ascii;
pub use text::i64_to_decimal;
pub use text::lower_of;
pub use text::lowercase;
pub use text::spec_decimal;
pub use text::spec_strip_prefix;
pub use text::spec_strip_tags;
pub use text::spec_truncate;
pub use text::strip_prefix;
pub use text::strip_tags;
pub use text::truncate_chars;
pub use text::u64_to_decimal;
pub use views::days_in_month;
pub use views::extract_views;
pub use views::format_ymd8;
pub use views::get_views_request;
pub use views::is_leap_year;
pub use views::next_date;
pub use views::num2;
pub use views::num4;
pub use views::parse_ymd8;
pub use views::plus_days;
pub use views::spec_view_item;
pub use views::spec_view_items;
pub use views::spec_views_url;
pub use views::valid_date;
pub use views::valid_ymd8;
pub use views::view_pair_matches;
pub use views::views_fail_error;
pub use views::views_post;
pub use views::views_range_ok;
pub use views::ymd8_of;
pub use views::Date;
pub use views::ViewsFail;
