//! A site of the viewer template with listings of its own.

use vstd::prelude::*;
use crate::comicdays::{HomeSection, HomeSectionView, ListingSelectors, ListingSelectorsView};
use crate::gigaviewer::Params;
use crate::model::{SourceError, SourceErrorView};
use crate::text::{join3, str_eq};

verus! {

/// Where the site is.
pub const BASE_URL: &'static str = "https://shonenjumpplus.com";

/// Where the site serves its page images from.
pub const CDN_URL: &'static str = "https://cdn-ak-img.shonenjumpplus.com";

/// What the site supplies to the template.
pub fn params() -> (p: Params)
    ensures
        p.base_url@ == BASE_URL@,
        p.popular_item_selector@ == "ul.series-list li a"@,
        p.chapter_list_selector@ == "li.episode"@,
{
    let mut p = Params::default();
    p.base_url = String::from_str(BASE_URL);
    p
}

/// How the listing with the given id is marked up: the series, the
/// oneshots and the finished series all in one way. No other listing is
/// known.
pub open spec fn listing_selectors(id: Seq<char>) -> Option<ListingSelectorsView> {
    if id == "series"@ || id == "series/oneshot"@ || id == "series/finished"@ {
        Some(
            ListingSelectorsView {
                item: ".series-list-item"@,
                title: ".series-list-title"@,
                cover: ".series-list-thumb img"@,
                cover_attr: "data-src"@,
                authors: Some(".series-list-author"@),
            },
        )
    } else {
        None
    }
}

/// How the listing with the given id is marked up, or the error for a
/// listing that is not known.
pub fn get_manga_list(listing_id: &str) -> (r: Result<ListingSelectors, SourceError>)
    ensures
        match listing_selectors(listing_id@) {
            Some(s) => r is Ok && r->Ok_0@ == s,
            None => r is Err && r->Err_0@ == SourceErrorView::Message("Invalid listing"@),
        },
{
    if str_eq(listing_id, "series") || str_eq(listing_id, "series/oneshot") || str_eq(
        listing_id,
        "series/finished",
    ) {
        Ok(
            ListingSelectors {
                item: String::from_str(".series-list-item"),
                title: String::from_str(".series-list-title"),
                cover: String::from_str(".series-list-thumb img"),
                cover_attr: String::from_str("data-src"),
                authors: Some(String::from_str(".series-list-author")),
            },
        )
    } else {
        Err(SourceError::Message(String::from_str("Invalid listing")))
    }
}

/// The address of a listing.
pub fn get_listing_url(listing_id: &str) -> (url: String)
    ensures
        url@ == BASE_URL@ + "/"@ + listing_id@,
{
    join3(BASE_URL, "/", listing_id)
}

/// The parts of the home page, in order.
pub open spec fn home_sections() -> Seq<HomeSectionView> {
    seq![
        HomeSectionView {
            title: "今日のランキング"@,
            item_selector: ".daily:first-child .daily-series-item"@,
            title_selector: "h2"@,
            authors_selector: Some(".daily-series-author"@),
            description_selector: Some("p"@),
            subtitle: None,
            subtitle_selector: Some(".date-wrapper"@),
            ranking: true,
            listing: None,
        },
        HomeSectionView {
            title: "総合ランキング"@,
            item_selector: ".total-ranking-list-sp a"@,
            title_selector: "h3"@,
            authors_selector: None,
            description_selector: None,
            subtitle: Some("今話題の作品をチェック！"@),
            subtitle_selector: None,
            ranking: false,
            listing: None,
        },
        HomeSectionView {
            title: "無料キャンペーン・復刻連載"@,
            item_selector: ".free-campaign a"@,
            title_selector: "h3"@,
            authors_selector: None,
            description_selector: None,
            subtitle: Some("話題作や名作が今だけ無料の大公開！"@),
            subtitle_selector: None,
            ranking: false,
            listing: None,
        },
    ]
}

/// The parts of the home page, in order: the ranking of the day, whose
/// items show authors and description and whose subtitle the page gives,
/// the ranking over all, and what is free for a time, both with a
/// subtitle of their own.
pub fn get_home() -> (out: Vec<HomeSection>)
    ensures
        out.deep_view() == home_sections(),
{
    let mut out: Vec<HomeSection> = Vec::new();
    out.push(
        HomeSection {
            title: String::from_str("今日のランキング"),
            item_selector: String::from_str(".daily:first-child .daily-series-item"),
            title_selector: String::from_str("h2"),
            authors_selector: Some(String::from_str(".daily-series-author")),
            description_selector: Some(String::from_str("p")),
            subtitle: None,
            subtitle_selector: Some(String::from_str(".date-wrapper")),
            ranking: true,
            listing: None,
        },
    );
    out.push(
        HomeSection {
            title: String::from_str("総合ランキング"),
            item_selector: String::from_str(".total-ranking-list-sp a"),
            title_selector: String::from_str("h3"),
            authors_selector: None,
            description_selector: None,
            subtitle: Some(String::from_str("今話題の作品をチェック！")),
            subtitle_selector: None,
            ranking: false,
            listing: None,
        },
    );
    out.push(
        HomeSection {
            title: String::from_str("無料キャンペーン・復刻連載"),
            item_selector: String::from_str(".free-campaign a"),
            title_selector: String::from_str("h3"),
            authors_selector: None,
            description_selector: None,
            subtitle: Some(String::from_str("話題作や名作が今だけ無料の大公開！")),
            subtitle_selector: None,
            ranking: false,
            listing: None,
        },
    );
    assert(out.deep_view() =~= home_sections());
    out
}

} // verus!
