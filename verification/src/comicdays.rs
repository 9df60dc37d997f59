//! A site of the viewer template with listings and a banner of its own.

use vstd::prelude::*;
use crate::gigaviewer::Params;
use crate::model::{SourceError, SourceErrorView};
use crate::text::{join2, join3, str_eq, str_starts_with, str_strip_prefix, strip_prefix};

verus! {

/// Where the site is.
pub const BASE_URL: &'static str = "https://comic-days.com";

/// Where the site serves its page images from.
pub const CDN_URL: &'static str = "https://cdn-img.comic-days.com/public/page";

/// What the site supplies to the template.
pub fn params() -> (p: Params)
    ensures
        p.base_url@ == BASE_URL@,
        p.popular_item_selector@ == "ul.series-list li a"@,
        p.chapter_list_selector@ == "li.episode"@,
{
    let mut p = Params::default();
    p.base_url = String::from_str(BASE_URL);
    p
}

/// How the items of a listing are marked up: where an item, its title,
/// its cover and its authors are found, and which attribute of the cover
/// holds its address.
#[derive(Clone, Debug, PartialEq, Eq)]
pub struct ListingSelectors {
    pub item: String,
    pub title: String,
    pub cover: String,
    pub cover_attr: String,
    pub authors: Option<String>,
}

/// What `ListingSelectors` hold, as mathematical values.
pub struct ListingSelectorsView {
    pub item: Seq<char>,
    pub title: Seq<char>,
    pub cover: Seq<char>,
    pub cover_attr: Seq<char>,
    pub authors: Option<Seq<char>>,
}

impl View for ListingSelectors {
    type V = ListingSelectorsView;

    open spec fn view(&self) -> ListingSelectorsView {
        ListingSelectorsView {
            item: self.item@,
            title: self.title@,
            cover: self.cover@,
            cover_attr: self.cover_attr@,
            authors: self.authors.deep_view(),
        }
    }
}

/// How the listing with the given id is marked up: the series in one
/// way, the newcomers, oneshots and the neo works in another. No other
/// listing is known.
pub open spec fn listing_selectors(id: Seq<char>) -> Option<ListingSelectorsView> {
    if id == "series"@ {
        Some(
            ListingSelectorsView {
                item: "ul.daily-series li.daily-series-item"@,
                title: ".daily-series-title"@,
                cover: "div.daily-series-thumb img"@,
                cover_attr: "data-src"@,
                authors: Some(".daily-series-author"@),
            },
        )
    } else if id == "newcomer"@ || id == "oneshot"@ || id == "daysneo"@ {
        Some(
            ListingSelectorsView {
                item: "li.yomikiri-item-box"@,
                title: ".yomikiri-link-title h4"@,
                cover: "img.yomikiri-image"@,
                cover_attr: "src"@,
                authors: Some(".yomikiri-link-title h5"@),
            },
        )
    } else {
        None
    }
}

/// How the listing with the given id is marked up, or the error for a
/// listing that is not known.
pub fn get_manga_list(listing_id: &str) -> (r: Result<ListingSelectors, SourceError>)
    ensures
        match listing_selectors(listing_id@) {
            Some(s) => r is Ok && r->Ok_0@ == s,
            None => r is Err && r->Err_0@ == SourceErrorView::Message("Invalid listing"@),
        },
{
    if str_eq(listing_id, "series") {
        Ok(
            ListingSelectors {
                item: String::from_str("ul.daily-series li.daily-series-item"),
                title: String::from_str(".daily-series-title"),
                cover: String::from_str("div.daily-series-thumb img"),
                cover_attr: String::from_str("data-src"),
                authors: Some(String::from_str(".daily-series-author")),
            },
        )
    } else if str_eq(listing_id, "newcomer") || str_eq(listing_id, "oneshot") || str_eq(
        listing_id,
        "daysneo",
    ) {
        Ok(
            ListingSelectors {
                item: String::from_str("li.yomikiri-item-box"),
                title: String::from_str(".yomikiri-link-title h4"),
                cover: String::from_str("img.yomikiri-image"),
                cover_attr: String::from_str("src"),
                authors: Some(String::from_str(".yomikiri-link-title h5")),
            },
        )
    } else {
        Err(SourceError::Message(String::from_str("Invalid listing")))
    }
}

/// The address of a listing.
pub fn get_listing_url(listing_id: &str) -> (url: String)
    ensures
        url@ == BASE_URL@ + "/"@ + listing_id@,
{
    join3(BASE_URL, "/", listing_id)
}

/// Where a link of the banner leads.
#[derive(Clone, Debug, PartialEq, Eq)]
pub enum LinkValue {
    /// To the manga with the given key.
    Manga(String),
    /// To the given address.
    Url(String),
}

/// What a `LinkValue` holds, as mathematical values.
pub enum LinkValueView {
    Manga(Seq<char>),
    Url(Seq<char>),
}

/// A link of the banner: its image and where it leads.
#[derive(Clone, Debug, PartialEq, Eq)]
pub struct BannerLink {
    pub image_url: String,
    pub value: LinkValue,
}

impl View for BannerLink {
    type V = (Seq<char>, LinkValueView);

    open spec fn view(&self) -> (Seq<char>, LinkValueView) {
        (
            self.image_url@,
            match self.value {
                LinkValue::Manga(k) => LinkValueView::Manga(k@),
                LinkValue::Url(u) => LinkValueView::Url(u@),
            },
        )
    }
}

impl DeepView for BannerLink {
    type V = (Seq<char>, LinkValueView);

    open spec fn deep_view(&self) -> (Seq<char>, LinkValueView) {
        self@
    }
}

/// The link that a slide of the banner stands for, from the source of its
/// image and its target: it needs both. A target among the site's
/// episodes leads to a manga, whose key is the target without the site's
/// address; any other is an address to open.
pub open spec fn banner_entry(slide: (Option<String>, Option<String>)) -> Option<
    (Seq<char>, LinkValueView),
> {
    match (slide.0, slide.1) {
        (Some(image), Some(url)) => if (BASE_URL@ + "/episode"@).is_prefix_of(url@) {
            match strip_prefix(url@, BASE_URL@) {
                Some(key) => Some((image@, LinkValueView::Manga(key))),
                None => None,
            }
        } else {
            Some((image@, LinkValueView::Url(url@)))
        },
        _ => None,
    }
}

/// The links of the banner, in the order of its slides.
pub open spec fn banner_entries(slides: Seq<(Option<String>, Option<String>)>) -> Seq<
    (Seq<char>, LinkValueView),
>
    decreases slides.len(),
{
    if slides.len() == 0 {
        Seq::empty()
    } else {
        let head = banner_entries(slides.drop_last());
        match banner_entry(slides.last()) {
            Some(l) => head.push(l),
            None => head,
        }
    }
}

/// The links of the banner of the home page, from the source of the
/// image and the target of each of its slides.
pub fn get_banner(slides: &Vec<(Option<String>, Option<String>)>) -> (out: Vec<BannerLink>)
    ensures
        out.deep_view() == banner_entries(slides@),
{
    let prefix = join2(BASE_URL, "/episode");
    let mut out: Vec<BannerLink> = Vec::new();
    let mut i: usize = 0;
    assert(slides@.take(0) == Seq::<(Option<String>, Option<String>)>::empty());
    assert(out.deep_view() == Seq::<(Seq<char>, LinkValueView)>::empty());
    while i < slides.len()
        invariant
            i <= slides.len(),
            prefix@ == BASE_URL@ + "/episode"@,
            out.deep_view() == banner_entries(slides@.take(i as int)),
        decreases slides.len() - i,
    {
        assert(slides@.take(i + 1).drop_last() == slides@.take(i as int));
        let ghost before = out.deep_view();
        match (&slides[i].0, &slides[i].1) {
            (Some(image), Some(url)) => {
                if str_starts_with(url.as_str(), prefix.as_str()) {
                    match str_strip_prefix(url.as_str(), BASE_URL) {
                        Some(key) => {
                            let link = BannerLink {
                                image_url: image.clone(),
                                value: LinkValue::Manga(key),
                            };
                            out.push(link);
                            assert(out.deep_view() == before.push(link@));
                        },
                        None => {},
                    }
                } else {
                    let link = BannerLink {
                        image_url: image.clone(),
                        value: LinkValue::Url(url.clone()),
                    };
                    out.push(link);
                    assert(out.deep_view() == before.push(link@));
                }
            },
            _ => {},
        }
        i += 1;
    }
    assert(slides@.take(slides.len() as int) == slides@);
    out
}

/// A part of the home page below the banner: its title; how its items,
/// and in an item its title, authors and description, are marked up; its
/// subtitle, either fixed or read from the page where `subtitle_selector`
/// says; whether it is a ranking; and the listing behind it, where it has
/// one.
#[derive(Clone, Debug, PartialEq, Eq)]
pub struct HomeSection {
    pub title: String,
    pub item_selector: String,
    pub title_selector: String,
    pub authors_selector: Option<String>,
    pub description_selector: Option<String>,
    pub subtitle: Option<String>,
    pub subtitle_selector: Option<String>,
    pub ranking: bool,
    pub listing: Option<String>,
}

/// What a `HomeSection` holds, as mathematical values.
pub struct HomeSectionView {
    pub title: Seq<char>,
    pub item_selector: Seq<char>,
    pub title_selector: Seq<char>,
    pub authors_selector: Option<Seq<char>>,
    pub description_selector: Option<Seq<char>>,
    pub subtitle: Option<Seq<char>>,
    pub subtitle_selector: Option<Seq<char>>,
    pub ranking: bool,
    pub listing: Option<Seq<char>>,
}

impl View for HomeSection {
    type V = HomeSectionView;

    open spec fn view(&self) -> HomeSectionView {
        HomeSectionView {
            title: self.title@,
            item_selector: self.item_selector@,
            title_selector: self.title_selector@,
            authors_selector: self.authors_selector.deep_view(),
            description_selector: self.description_selector.deep_view(),
            subtitle: self.subtitle.deep_view(),
            subtitle_selector: self.subtitle_selector.deep_view(),
            ranking: self.ranking,
            listing: self.listing.deep_view(),
        }
    }
}

impl DeepView for HomeSection {
    type V = HomeSectionView;

    open spec fn deep_view(&self) -> HomeSectionView {
        self@
    }
}

/// The subtitle of a part of the home page: the fixed one, else the text
/// that the page has where the part says to look.
pub fn get_subtitle(section: &HomeSection, page_text: Option<String>) -> (r: Option<String>)
    ensures
        r.deep_view() == match section.subtitle.deep_view() {
            Some(fixed) => Some(fixed),
            None => if section.subtitle_selector is Some {
                page_text.deep_view()
            } else {
                None
            },
        },
{
    match &section.subtitle {
        Some(fixed) => Some(fixed.clone()),
        None => if section.subtitle_selector.is_some() {
            page_text
        } else {
            None
        },
    }
}

/// The parts of the home page below the banner, in order.
pub open spec fn home_sections() -> Seq<HomeSectionView> {
    seq![
        HomeSectionView {
            title: "新作＆話題作"@,
            item_selector: ".gtm-top-newtopic-item"@,
            title_selector: "h3"@,
            authors_selector: None,
            description_selector: Some("p"@),
            subtitle: None,
            subtitle_selector: None,
            ranking: false,
            listing: None,
        },
        HomeSectionView {
            title: "今日のランキング"@,
            item_selector: ".gtm-top-ranking-オリジナル-item"@,
            title_selector: "h3"@,
            authors_selector: None,
            description_selector: Some("p"@),
            subtitle: None,
            subtitle_selector: Some("#ranking p"@),
            ranking: true,
            listing: None,
        },
        HomeSectionView {
            title: "DAYSオリジナル"@,
            item_selector: ".gtm-top-days-original-item"@,
            title_selector: "h3"@,
            authors_selector: None,
            description_selector: Some("p"@),
            subtitle: None,
            subtitle_selector: None,
            ranking: false,
            listing: None,
        },
        HomeSectionView {
            title: "新人作家・読み切り"@,
            item_selector: ".gtm-top-newcomer-item"@,
            title_selector: "h3"@,
            authors_selector: None,
            description_selector: Some("p"@),
            subtitle: None,
            subtitle_selector: None,
            ranking: false,
            listing: Some("oneshot"@),
        },
    ]
}

/// The parts of the home page below the banner, in order: the new and
/// talked of, the ranking of the day with the subtitle that the page gives
/// it, the site's own series, and the newcomers with the listing of
/// oneshots behind them. Every item shows its title and description.
pub fn get_home() -> (out: Vec<HomeSection>)
    ensures
        out.deep_view() == home_sections(),
{
    let mut out: Vec<HomeSection> = Vec::new();
    out.push(
        HomeSection {
            title: String::from_str("新作＆話題作"),
            item_selector: String::from_str(".gtm-top-newtopic-item"),
            title_selector: String::from_str("h3"),
            authors_selector: None,
            description_selector: Some(String::from_str("p")),
            subtitle: None,
            subtitle_selector: None,
            ranking: false,
            listing: None,
        },
    );
    out.push(
        HomeSection {
            title: String::from_str("今日のランキング"),
            item_selector: String::from_str(".gtm-top-ranking-オリジナル-item"),
            title_selector: String::from_str("h3"),
            authors_selector: None,
            description_selector: Some(String::from_str("p")),
            subtitle: None,
            subtitle_selector: Some(String::from_str("#ranking p")),
            ranking: true,
            listing: None,
        },
    );
    out.push(
        HomeSection {
            title: String::from_str("DAYSオリジナル"),
            item_selector: String::from_str(".gtm-top-days-original-item"),
            title_selector: String::from_str("h3"),
            authors_selector: None,
            description_selector: Some(String::from_str("p")),
            subtitle: None,
            subtitle_selector: None,
            ranking: false,
            listing: None,
        },
    );
    out.push(
        HomeSection {
            title: String::from_str("新人作家・読み切り"),
            item_selector: String::from_str(".gtm-top-newcomer-item"),
            title_selector: String::from_str("h3"),
            authors_selector: None,
            description_selector: Some(String::from_str("p")),
            subtitle: None,
            subtitle_selector: None,
            ranking: false,
            listing: Some(String::from_str("oneshot")),
        },
    );
    assert(out.deep_view() =~= home_sections());
    out
}

} // verus!
