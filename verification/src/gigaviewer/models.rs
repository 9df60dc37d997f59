//! The payloads that the viewer serves beside its pages.

use vstd::prelude::*;

verus! {

/// The data of an episode.
#[derive(Clone, Debug, PartialEq, Eq)]
pub struct GigaEpisode {
    pub readable_product: GigaReadableProduct,
}

/// What of an episode can be read.
#[derive(Clone, Debug, PartialEq, Eq)]
pub struct GigaReadableProduct {
    pub page_structure: GigaPageStructure,
}

/// The pages of an episode, in order.
#[derive(Clone, Debug, PartialEq, Eq)]
pub struct GigaPageStructure {
    pub pages: Vec<GigaPage>,
}

/// One page of an episode, as the episode's data lists it: where its
/// image is, what kind of page it is, and the size of the image.
#[derive(Clone, Debug, PartialEq, Eq)]
pub struct GigaPage {
    pub src: Option<String>,
    pub kind: Option<String>,
    pub width: Option<i32>,
    pub height: Option<i32>,
}

/// One answer to a request for more episodes: the markup of their list,
/// and the address of the next request.
#[derive(Clone, Debug, PartialEq, Eq)]
pub struct GigaReadMoreResponse {
    pub html: String,
    pub next_url: String,
}

} // verus!
