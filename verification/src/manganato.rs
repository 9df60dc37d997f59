//! A site of the genre template.

use vstd::prelude::*;
use crate::mangabox::Params;

verus! {

/// Where the site is.
pub const BASE_URL: &'static str = "https://www.manganato.gg";

/// What the site supplies to the template: its address, and the
/// template's own markup and search path.
pub fn params() -> (p: Params)
    ensures
        p.base_url@ == BASE_URL@,
        p.item_selector@ == ".panel_story_list .story_item, .list-truyen-item-wrap"@,
        p.search_path@ == "/search/story"@,
        p.genres@ == Seq::<String>::empty(),
{
    let mut p = Params::default();
    p.base_url = String::from_str(BASE_URL);
    p
}

} // verus!
