//! The source of an image, from the attributes that may carry it.

use vstd::prelude::*;
use crate::text::clone_opt;

verus! {

/// The attributes of an element that may carry the source of its image,
/// in the order in which they are tried: the absolute forms of the lazy
/// source, the data source, the data address and the source, and last the
/// data address as it is written.
#[derive(Clone, Debug, PartialEq, Eq)]
pub struct ImageAttrs {
    pub lazy_src: Option<String>,
    pub data_src: Option<String>,
    pub data_url: Option<String>,
    pub src: Option<String>,
    pub raw_data_url: Option<String>,
}

/// The first of the attributes that is there.
pub open spec fn image_source(a: ImageAttrs) -> Option<Seq<char>> {
    if a.lazy_src is Some {
        a.lazy_src.deep_view()
    } else if a.data_src is Some {
        a.data_src.deep_view()
    } else if a.data_url is Some {
        a.data_url.deep_view()
    } else if a.src is Some {
        a.src.deep_view()
    } else {
        a.raw_data_url.deep_view()
    }
}

/// The source of the image of an element: the first of its attributes
/// that is there.
pub fn img_attr(attrs: &ImageAttrs) -> (r: Option<String>)
    ensures
        r.deep_view() == image_source(*attrs),
{
    if attrs.lazy_src.is_some() {
        clone_opt(&attrs.lazy_src)
    } else if attrs.data_src.is_some() {
        clone_opt(&attrs.data_src)
    } else if attrs.data_url.is_some() {
        clone_opt(&attrs.data_url)
    } else if attrs.src.is_some() {
        clone_opt(&attrs.src)
    } else {
        clone_opt(&attrs.raw_data_url)
    }
}

} // verus!
