//! The template shared by the sites that list stories by genre.

use vstd::prelude::*;

pub mod helper;
pub mod imp;

verus! {

/// What a site supplies to the template: where it is, how the items of its
/// listings are marked up, the path of its search, and its genres.
#[derive(Clone, Debug, PartialEq, Eq)]
pub struct Params {
    pub base_url: String,
    pub item_selector: String,
    pub search_path: String,
    pub genres: Vec<String>,
}

impl Default for Params {
    fn default() -> (p: Params)
        ensures
            p.base_url@ == ""@,
            p.item_selector@ == ".panel_story_list .story_item, .list-truyen-item-wrap"@,
            p.search_path@ == "/search/story"@,
            p.genres@ == Seq::<String>::empty(),
    {
        Params {
            base_url: String::from_str(""),
            item_selector: String::from_str(
                ".panel_story_list .story_item, .list-truyen-item-wrap",
            ),
            search_path: String::from_str("/search/story"),
            genres: Vec::new(),
        }
    }
}

} // verus!
