//! The template shared by the sites that read chapters through an image
//! list request.

use vstd::prelude::*;

pub mod helper;
pub mod imp;
pub mod parser;

verus! {

/// What a site supplies to the template: where it is, the path and the
/// names of the parameters of its search, how its pages and chapter lists
/// are marked up, the language of its chapters, what stands before and
/// after the chapter id in the path of the image list request, the
/// filters that every search starts from, and the names of its sort
/// orders by index.
#[derive(Clone, Debug, PartialEq, Eq)]
pub struct Params {
    pub base_url: String,
    pub search_path: String,
    pub search_param: String,
    pub page_param: String,
    pub page_selector: String,
    pub chapter_selector: String,
    pub chapter_language: String,
    pub page_url_prefix: String,
    pub page_url_suffix: String,
    pub default_filters: Vec<(String, String)>,
    pub sort_ids: Vec<String>,
}

impl Default for Params {
    fn default() -> (p: Params)
        ensures
            p.base_url@ == ""@,
            p.search_path@ == "/search"@,
            p.search_param@ == "keyword"@,
            p.page_param@ == "page"@,
            p.page_selector@ == ".container-reader-chapter > div > img"@,
            p.chapter_selector@ == "#en-chapters > li"@,
            p.chapter_language@ == "en"@,
            p.page_url_prefix@ == "//ajax/image/list/"@,
            p.page_url_suffix@ == "?mode=vertical"@,
            p.default_filters.deep_view() == Seq::<(Seq<char>, Seq<char>)>::empty(),
            p.sort_ids.deep_view() == seq![
                "default"@,
                "latest-updated"@,
                "score"@,
                "name-az"@,
                "release-date"@,
                "most-viewed"@,
            ],
    {
        let default_filters: Vec<(String, String)> = Vec::new();
        assert(default_filters.deep_view() == Seq::<(Seq<char>, Seq<char>)>::empty());
        let mut sort_ids: Vec<String> = Vec::new();
        sort_ids.push(String::from_str("default"));
        sort_ids.push(String::from_str("latest-updated"));
        sort_ids.push(String::from_str("score"));
        sort_ids.push(String::from_str("name-az"));
        sort_ids.push(String::from_str("release-date"));
        sort_ids.push(String::from_str("most-viewed"));
        assert(sort_ids.deep_view() == seq![
            "default"@,
            "latest-updated"@,
            "score"@,
            "name-az"@,
            "release-date"@,
            "most-viewed"@,
        ]);
        Params {
            base_url: String::from_str(""),
            search_path: String::from_str("/search"),
            search_param: String::from_str("keyword"),
            page_param: String::from_str("page"),
            page_selector: String::from_str(".container-reader-chapter > div > img"),
            chapter_selector: String::from_str("#en-chapters > li"),
            chapter_language: String::from_str("en"),
            page_url_prefix: String::from_str("//ajax/image/list/"),
            page_url_suffix: String::from_str("?mode=vertical"),
            default_filters,
            sort_ids,
        }
    }
}

} // verus!
