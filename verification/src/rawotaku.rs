//! A site of the image list template that reads in Japanese.

use vstd::prelude::*;
use crate::mangareader::Params;

verus! {

/// Where the site is.
pub const BASE_URL: &'static str = "https://rawotaku.com";

/// What the site supplies to the template: its search goes by `q` and
/// `p`, its chapters are Japanese, its image lists come as JSON, every
/// filtered search starts from all types, statuses and languages in the
/// default order, and it has sort orders of its own.
pub fn params() -> (p: Params)
    ensures
        p.base_url@ == BASE_URL@,
        p.search_path@ == ""@,
        p.search_param@ == "q"@,
        p.page_param@ == "p"@,
        p.page_selector@ == ".container-reader-chapter > div > img"@,
        p.chapter_selector@ == "#ja-chaps > li"@,
        p.chapter_language@ == "ja"@,
        p.page_url_prefix@ == "/json/chapter?id="@,
        p.page_url_suffix@ == "&mode=vertical"@,
        p.default_filters.deep_view() == seq![
            ("type"@, "all"@),
            ("status"@, "all"@),
            ("language"@, "all"@),
            ("sort"@, "default"@),
        ],
        p.sort_ids.deep_view() == seq![
            "default"@,
            "latest-update"@,
            "most-viewed"@,
            "title-az"@,
            "title-za"@,
        ],
{
    let mut default_filters: Vec<(String, String)> = Vec::new();
    default_filters.push((String::from_str("type"), String::from_str("all")));
    default_filters.push((String::from_str("status"), String::from_str("all")));
    default_filters.push((String::from_str("language"), String::from_str("all")));
    default_filters.push((String::from_str("sort"), String::from_str("default")));
    assert(default_filters.deep_view() =~= seq![
        ("type"@, "all"@),
        ("status"@, "all"@),
        ("language"@, "all"@),
        ("sort"@, "default"@),
    ]);
    let mut sort_ids: Vec<String> = Vec::new();
    sort_ids.push(String::from_str("default"));
    sort_ids.push(String::from_str("latest-update"));
    sort_ids.push(String::from_str("most-viewed"));
    sort_ids.push(String::from_str("title-az"));
    sort_ids.push(String::from_str("title-za"));
    assert(sort_ids.deep_view() =~= seq![
        "default"@,
        "latest-update"@,
        "most-viewed"@,
        "title-az"@,
        "title-za"@,
    ]);
    Params {
        base_url: String::from_str(BASE_URL),
        search_path: String::from_str(""),
        search_param: String::from_str("q"),
        page_param: String::from_str("p"),
        page_selector: String::from_str(".container-reader-chapter > div > img"),
        chapter_selector: String::from_str("#ja-chaps > li"),
        chapter_language: String::from_str("ja"),
        page_url_prefix: String::from_str("/json/chapter?id="),
        page_url_suffix: String::from_str("&mode=vertical"),
        default_filters,
        sort_ids,
    }
}

/// The name of the site's sort order with the given index; see
/// `mangareader::imp::get_sort_id`.
pub fn get_sort_id(index: i32) -> (id: String)
    ensures
        id@ == crate::mangareader::imp::sort_id(
            seq!["default"@, "latest-update"@, "most-viewed"@, "title-az"@, "title-za"@],
            index,
        ),
{
    crate::mangareader::imp::get_sort_id(&params(), index)
}

} // verus!
