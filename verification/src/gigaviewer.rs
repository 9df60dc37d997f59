//! The viewer template shared by the sites that serve tiled page images.

use vstd::prelude::*;

pub mod auth;
pub mod imp;
pub mod models;
pub mod parser;

verus! {

/// What a site supplies to the template: where it is, and how its
/// listings and episode lists are marked up.
#[derive(Clone, Debug, PartialEq, Eq)]
pub struct Params {
    pub base_url: String,
    pub popular_item_selector: String,
    pub chapter_list_selector: String,
}

impl Default for Params {
    fn default() -> (p: Params)
        ensures
            p.base_url@ == ""@,
            p.popular_item_selector@ == "ul.series-list li a"@,
            p.chapter_list_selector@ == "li.episode"@,
    {
        Params {
            base_url: String::from_str(""),
            popular_item_selector: String::from_str("ul.series-list li a"),
            chapter_list_selector: String::from_str("li.episode"),
        }
    }
}

} // verus!
