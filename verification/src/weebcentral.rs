//! The source that reads a site through the fragments of its pages.

use vstd::prelude::*;
use crate::dates::{rfc3339_seconds, rfc3339_timestamp};
use crate::decimal::{decimal_value, i64_chars, int_text, parse_decimal, Decimal};
use crate::model::{
    Chapter, ChapterView, ContentRating, DeepLinkResult, DeepLinkView, Manga, MangaPageResult,
    MangaStatus, MangaView, MangaWithChapter, Page, SourceError, SourceErrorView, Viewer,
};
use crate::text::{
    append, append_str, chars_of, clone_opt, clone_strings, contains, has_string, join2, last_word,
    last_word_of, rfind, rfind_in, slice, str_contains, str_eq, str_starts_with, str_strip_prefix,
    string_of, strip_prefix, trim, trimmed,
};

pub mod filter;

verus! {

/// Where the site is.
pub const BASE_URL: &'static str = "https://weebcentral.com";

/// The referer that the site wants on its image requests.
pub const REFERER: &'static str = "https://weebcentral.com/";

/// How many manga a page of a search holds.
pub const FETCH_LIMIT: i32 = 24;

/// What one card of a manga shows: the target of its link, whether it has
/// an image and the source of it, and the text of its title.
#[derive(Clone, Debug, PartialEq, Eq)]
pub struct Card {
    pub href: Option<String>,
    pub image: bool,
    pub cover: Option<String>,
    pub title: Option<String>,
}

/// The manga that a card stands for: it needs a link under the site's
/// address, an image and a title.
pub open spec fn card_entry(card: Card) -> Option<MangaView> {
    match (card.href.deep_view(), card.title.deep_view()) {
        (Some(href), Some(title)) => match strip_prefix(href, BASE_URL@) {
            Some(key) => if card.image {
                Some(MangaView { cover: card.cover.deep_view(), ..MangaView::bare(key, title) })
            } else {
                None
            },
            None => None,
        },
        _ => None,
    }
}

/// The manga of the cards, in order.
pub open spec fn card_entries(cards: Seq<Card>) -> Seq<MangaView>
    decreases cards.len(),
{
    if cards.len() == 0 {
        Seq::empty()
    } else {
        let head = card_entries(cards.drop_last());
        match card_entry(cards.last()) {
            Some(m) => head.push(m),
            None => head,
        }
    }
}

/// The manga that a card stands for, if any.
pub fn parse_manga(card: &Card) -> (r: Option<Manga>)
    ensures
        r.deep_view() == card_entry(*card),
{
    let href = match &card.href {
        Some(h) => h,
        None => {
            return None;
        },
    };
    let key = match str_strip_prefix(href.as_str(), BASE_URL) {
        Some(k) => k,
        None => {
            return None;
        },
    };
    if !card.image {
        return None;
    }
    let title = match &card.title {
        Some(t) => t.clone(),
        None => {
            return None;
        },
    };
    let mut manga = Manga::bare(key, title);
    manga.cover = clone_opt(&card.cover);
    Some(manga)
}

/// The manga of the cards, in order.
pub fn parse_cards(cards: &Vec<Card>) -> (out: Vec<Manga>)
    ensures
        out.deep_view() == card_entries(cards@),
{
    let mut out: Vec<Manga> = Vec::new();
    let mut i: usize = 0;
    assert(cards@.take(0) == Seq::<Card>::empty());
    assert(out.deep_view() == Seq::<MangaView>::empty());
    while i < cards.len()
        invariant
            i <= cards.len(),
            out.deep_view() == card_entries(cards@.take(i as int)),
        decreases cards.len() - i,
    {
        assert(cards@.take(i + 1).drop_last() == cards@.take(i as int));
        let ghost before = out.deep_view();
        match parse_manga(&cards[i]) {
            Some(m) => {
                out.push(m);
                assert(out.deep_view() == before.push(m@));
            },
            None => {},
        }
        i += 1;
    }
    assert(cards@.take(cards.len() as int) == cards@);
    out
}

/// The address of the one listing that the site offers, the hot updates;
/// any other listing is an error.
pub fn get_listing_url(listing_id: &str) -> (r: Result<String, SourceError>)
    ensures
        if listing_id@ == "hot"@ {
            r is Ok && r->Ok_0@ == BASE_URL@ + "/hot-updates"@
        } else {
            r is Err && r->Err_0@ == SourceErrorView::Message("Invalid listing"@)
        },
{
    if str_eq(listing_id, "hot") {
        Ok(join2(BASE_URL, "/hot-updates"))
    } else {
        Err(SourceError::Message(String::from_str("Invalid listing")))
    }
}

/// The hot updates: the manga of the cards, and no next page.
pub fn get_manga_list(cards: &Vec<Card>) -> (r: MangaPageResult)
    ensures
        r@ == (card_entries(cards@), false),
{
    MangaPageResult { entries: parse_cards(cards), has_next_page: false }
}

/// The address of a page of a search, from its parameters as they are
/// after encoding.
pub fn get_search_url(page: i32, filters: &str) -> (url: String)
    ensures
        url@ == BASE_URL@ + "/search/data?limit=24&offset="@ + int_text((page - 1) * 24)
            + "&display_mode=Full+Display&"@ + filters@,
{
    let mut out = chars_of(BASE_URL);
    append_str(&mut out, "/search/data?limit=24&offset=");
    append(&mut out, &i64_chars((page as i64 - 1) * 24));
    append_str(&mut out, "&display_mode=Full+Display&");
    append_str(&mut out, filters);
    string_of(&out)
}

/// What one result of a search shows: whether it has an image and the
/// source of it, whether it has a link, and the text and the target of
/// the link.
#[derive(Clone, Debug, PartialEq, Eq)]
pub struct SearchResult {
    pub image: bool,
    pub cover: Option<String>,
    pub link: bool,
    pub text: Option<String>,
    pub href: Option<String>,
}

/// The title that the text of a link gives: the text without a leading
/// `Official ` and the white space that is then at its ends.
pub open spec fn result_title(text: Seq<char>) -> Seq<char> {
    match strip_prefix(text, "Official "@) {
        Some(rest) => trim(rest),
        None => text,
    }
}

/// The manga that a result stands for: it needs an image, and a link with
/// a text that leads below the site's address.
pub open spec fn result_entry(item: SearchResult) -> Option<MangaView> {
    if item.image && item.link {
        match (item.href.deep_view(), item.text.deep_view()) {
            (Some(href), Some(text)) => match strip_prefix(href, BASE_URL@) {
                Some(key) => Some(
                    MangaView {
                        cover: item.cover.deep_view(),
                        ..MangaView::bare(key, result_title(text))
                    },
                ),
                None => None,
            },
            _ => None,
        }
    } else {
        None
    }
}

/// The manga of the results, in order.
pub open spec fn result_entries(items: Seq<SearchResult>) -> Seq<MangaView>
    decreases items.len(),
{
    if items.len() == 0 {
        Seq::empty()
    } else {
        let head = result_entries(items.drop_last());
        match result_entry(items.last()) {
            Some(m) => head.push(m),
            None => head,
        }
    }
}

/// The manga that a result stands for, if any.
pub fn parse_result(item: &SearchResult) -> (r: Option<Manga>)
    ensures
        r.deep_view() == result_entry(*item),
{
    if !item.image || !item.link {
        return None;
    }
    let href = match &item.href {
        Some(h) => h,
        None => {
            return None;
        },
    };
    let key = match str_strip_prefix(href.as_str(), BASE_URL) {
        Some(k) => k,
        None => {
            return None;
        },
    };
    let title = match &item.text {
        Some(t) => match str_strip_prefix(t.as_str(), "Official ") {
            Some(rest) => string_of(&trimmed(&chars_of(rest.as_str()))),
            None => t.clone(),
        },
        None => {
            return None;
        },
    };
    let mut manga = Manga::bare(key, title);
    manga.cover = clone_opt(&item.cover);
    Some(manga)
}

/// One page of a search: the manga of the results, and more pages as long
/// as the page holds any.
pub fn get_search_manga_list(items: &Vec<SearchResult>) -> (r: MangaPageResult)
    ensures
        r@ == (result_entries(items@), result_entries(items@).len() > 0),
{
    let mut out: Vec<Manga> = Vec::new();
    let mut i: usize = 0;
    assert(items@.take(0) == Seq::<SearchResult>::empty());
    assert(out.deep_view() == Seq::<MangaView>::empty());
    while i < items.len()
        invariant
            i <= items.len(),
            out.deep_view() == result_entries(items@.take(i as int)),
        decreases items.len() - i,
    {
        assert(items@.take(i + 1).drop_last() == items@.take(i as int));
        let ghost before = out.deep_view();
        match parse_result(&items[i]) {
            Some(m) => {
                out.push(m);
                assert(out.deep_view() == before.push(m@));
            },
            None => {},
        }
        i += 1;
    }
    assert(items@.take(items.len() as int) == items@);
    let more = out.len() > 0;
    MangaPageResult { entries: out, has_next_page: more }
}

/// What the page of a manga shows of its details. `found` tells whether
/// the page has its two sections at all.
#[derive(Clone, Debug, PartialEq, Eq)]
pub struct DetailsPage {
    pub found: bool,
    pub title: Option<String>,
    pub cover: Option<String>,
    pub authors: Option<Vec<String>>,
    pub description: Option<String>,
    pub tags: Option<Vec<String>>,
    pub status: Option<String>,
    pub kind: Option<String>,
}

/// The status that the site's word names.
pub open spec fn status_word(word: Seq<char>) -> MangaStatus {
    if word == "Complete"@ {
        MangaStatus::Completed
    } else if word == "Ongoing"@ {
        MangaStatus::Ongoing
    } else if word == "Hiatus"@ {
        MangaStatus::Hiatus
    } else if word == "Canceled"@ {
        MangaStatus::Cancelled
    } else {
        MangaStatus::Unknown
    }
}

/// The rating that tags imply.
pub open spec fn rating_of(tags: Seq<Seq<char>>) -> ContentRating {
    if tags.contains("Adult"@) || tags.contains("Hentai"@) || tags.contains("Mature"@) {
        ContentRating::NSFW
    } else if tags.contains("Ecchi"@) {
        ContentRating::Suggestive
    } else {
        ContentRating::Safe
    }
}

/// The layout that the site's type word names.
pub open spec fn viewer_word(word: Seq<char>) -> Viewer {
    if word == "Manhua"@ || word == "Manhwa"@ {
        Viewer::Webtoon
    } else {
        Viewer::RightToLeft
    }
}

/// What is given, or nothing.
pub open spec fn or_empty<T>(s: Option<Seq<T>>) -> Seq<T> {
    match s {
        Some(t) => t,
        None => Seq::empty(),
    }
}

/// A manga with the details of its page filled in.
pub open spec fn with_details(manga: MangaView, page: DetailsPage, url: Seq<char>) -> MangaView {
    MangaView {
        title: match page.title.deep_view() {
            Some(t) => t,
            None => manga.title,
        },
        cover: page.cover.deep_view(),
        authors: page.authors.deep_view(),
        description: page.description.deep_view(),
        url: Some(url),
        tags: page.tags.deep_view(),
        status: status_word(or_empty(page.status.deep_view())),
        content_rating: rating_of(or_empty(page.tags.deep_view())),
        viewer: viewer_word(or_empty(page.kind.deep_view())),
        ..manga
    }
}

/// The address of the page of a manga.
pub fn get_manga_url(key: &str) -> (url: String)
    ensures
        url@ == BASE_URL@ + key@,
{
    join2(BASE_URL, key)
}

/// Fills in the details of a manga from its page. A page without its
/// sections is an error.
pub fn parse_details(manga: Manga, page: &DetailsPage, url: &str) -> (r: Result<Manga, SourceError>)
    ensures
        page.found ==> r is Ok && r->Ok_0@ == with_details(manga@, *page, url@),
        !page.found ==> r == Err::<Manga, SourceError>(SourceError::Unimplemented),
{
    if !page.found {
        return Err(SourceError::Unimplemented);
    }
    let mut manga = manga;
    match &page.title {
        Some(t) => {
            manga.title = t.clone();
        },
        None => {},
    }
    manga.cover = clone_opt(&page.cover);
    manga.authors = match &page.authors {
        Some(a) => Some(clone_strings(a)),
        None => None,
    };
    manga.description = clone_opt(&page.description);
    manga.url = Some(String::from_str(url));
    manga.tags = match &page.tags {
        Some(t) => Some(clone_strings(t)),
        None => None,
    };
    let empty = String::new();
    let status = match &page.status {
        Some(s) => s,
        None => &empty,
    };
    manga.status = if str_eq(status.as_str(), "Complete") {
        MangaStatus::Completed
    } else if str_eq(status.as_str(), "Ongoing") {
        MangaStatus::Ongoing
    } else if str_eq(status.as_str(), "Hiatus") {
        MangaStatus::Hiatus
    } else if str_eq(status.as_str(), "Canceled") {
        MangaStatus::Cancelled
    } else {
        MangaStatus::Unknown
    };
    let none: Vec<String> = Vec::new();
    assert(none.deep_view() == Seq::<Seq<char>>::empty());
    let tags = match &manga.tags {
        Some(t) => t,
        None => &none,
    };
    manga.content_rating = if has_string(tags, "Adult") || has_string(tags, "Hentai")
        || has_string(tags, "Mature") {
        ContentRating::NSFW
    } else if has_string(tags, "Ecchi") {
        ContentRating::Suggestive
    } else {
        ContentRating::Safe
    };
    let kind = match &page.kind {
        Some(k) => k,
        None => &empty,
    };
    manga.viewer = if str_eq(kind.as_str(), "Manhua") || str_eq(kind.as_str(), "Manhwa") {
        Viewer::Webtoon
    } else {
        Viewer::RightToLeft
    };
    Ok(manga)
}

/// The address of the full chapter list of a manga: that of its page with
/// `full-chapter-list` for what follows the last `/`.
pub fn get_chapter_list_url(manga_url: &str) -> (url: String)
    ensures
        url@ == match rfind(manga_url@, "/"@) {
            Some(pos) => manga_url@.take(pos) + "/full-chapter-list"@,
            None => manga_url@,
        },
{
    let chars = chars_of(manga_url);
    match rfind_in(&chars, &chars_of("/")) {
        Some(pos) => {
            let mut out = slice(&chars, 0, pos);
            assert(out@ == chars@.take(pos as int));
            append_str(&mut out, "/full-chapter-list");
            string_of(&out)
        },
        None => String::from_str(manga_url),
    }
}

/// What one row of the chapter list shows: the target of its link, the
/// text of its title, and the time that it gives.
#[derive(Clone, Debug, PartialEq, Eq)]
pub struct ChapterRow {
    pub href: Option<String>,
    pub title: Option<String>,
    pub datetime: Option<String>,
}

/// The number that ends a title: its last word, read as a decimal.
pub open spec fn title_number(title: Option<Seq<char>>) -> Option<Decimal> {
    match title {
        Some(t) => decimal_value(last_word(t)),
        None => None,
    }
}

/// Whether a title holds the word.
pub open spec fn title_has(title: Option<Seq<char>>, word: Seq<char>) -> bool {
    match title {
        Some(t) => contains(t, word),
        None => false,
    }
}

/// The chapter that a row stands for: it needs a link under the site's
/// address. The number that ends the title counts the volume where the
/// title speaks of one, else the chapter. A title that speaks of a volume
/// or a chapter says no more than the number and is left out.
pub open spec fn chapter_entry(row: ChapterRow) -> Option<ChapterView> {
    match row.href.deep_view() {
        Some(url) => match strip_prefix(url, BASE_URL@) {
            Some(key) => {
                let title = row.title.deep_view();
                let number = title_number(title);
                let volume = title_has(title, "Volume"@);
                let chapter = title_has(title, "Chapter"@);
                Some(
                    ChapterView {
                        title: if volume || chapter {
                            None
                        } else {
                            title
                        },
                        chapter_number: if volume {
                            None
                        } else {
                            number
                        },
                        volume_number: if volume {
                            number
                        } else {
                            None
                        },
                        date_uploaded: match row.datetime.deep_view() {
                            Some(d) => rfc3339_seconds(d),
                            None => None,
                        },
                        url: Some(url),
                        ..ChapterView::bare(key)
                    },
                )
            },
            None => None,
        },
        None => None,
    }
}

/// The chapters of the rows, in order.
pub open spec fn chapter_entries(rows: Seq<ChapterRow>) -> Seq<ChapterView>
    decreases rows.len(),
{
    if rows.len() == 0 {
        Seq::empty()
    } else {
        let head = chapter_entries(rows.drop_last());
        match chapter_entry(rows.last()) {
            Some(c) => head.push(c),
            None => head,
        }
    }
}

/// The number that ends a title.
pub fn parse_title_number(title: &Option<String>) -> (r: Option<Decimal>)
    ensures
        r == title_number(title.deep_view()),
        r matches Some(d) ==> d.wf(),
{
    match title {
        Some(t) => parse_decimal(&last_word_of(&chars_of(t.as_str()))),
        None => None,
    }
}

/// The time of an optional text in the RFC 3339 format.
pub fn parse_time(text: &Option<String>) -> (r: Option<i64>)
    ensures
        r == match text.deep_view() {
            Some(d) => rfc3339_seconds(d),
            None => None,
        },
{
    match text {
        Some(d) => rfc3339_timestamp(d.as_str()),
        None => None,
    }
}

/// The chapter that a row stands for, if any.
pub fn parse_chapter(row: &ChapterRow) -> (r: Option<Chapter>)
    ensures
        r.deep_view() == chapter_entry(*row),
        r matches Some(c) ==> c@.wf(),
{
    let url = match &row.href {
        Some(h) => h.clone(),
        None => {
            return None;
        },
    };
    let key = match str_strip_prefix(url.as_str(), BASE_URL) {
        Some(k) => k,
        None => {
            return None;
        },
    };
    let number = parse_title_number(&row.title);
    let (volume, chapter) = match &row.title {
        Some(t) => (str_contains(t.as_str(), "Volume"), str_contains(t.as_str(), "Chapter")),
        None => (false, false),
    };
    let mut out = Chapter::bare(key);
    out.title = if volume || chapter {
        None
    } else {
        clone_opt(&row.title)
    };
    out.chapter_number = if volume {
        None
    } else {
        number
    };
    out.volume_number = if volume {
        number
    } else {
        None
    };
    out.date_uploaded = parse_time(&row.datetime);
    out.url = Some(url);
    Some(out)
}

/// The chapters of a manga, from the rows of its full chapter list.
pub fn parse_chapters(rows: &Vec<ChapterRow>) -> (out: Vec<Chapter>)
    ensures
        out.deep_view() == chapter_entries(rows@),
{
    let mut out: Vec<Chapter> = Vec::new();
    let mut i: usize = 0;
    assert(rows@.take(0) == Seq::<ChapterRow>::empty());
    assert(out.deep_view() == Seq::<ChapterView>::empty());
    while i < rows.len()
        invariant
            i <= rows.len(),
            out.deep_view() == chapter_entries(rows@.take(i as int)),
        decreases rows.len() - i,
    {
        assert(rows@.take(i + 1).drop_last() == rows@.take(i as int));
        let ghost before = out.deep_view();
        match parse_chapter(&rows[i]) {
            Some(c) => {
                out.push(c);
                assert(out.deep_view() == before.push(c@));
            },
            None => {},
        }
        i += 1;
    }
    assert(rows@.take(rows.len() as int) == rows@);
    out
}

/// The address of the images of a chapter.
pub fn get_images_url(chapter_key: &str) -> (url: String)
    ensures
        url@ == BASE_URL@ + chapter_key@ + "/images?is_prev=False&reading_style=long_strip"@,
{
    crate::text::join3(BASE_URL, chapter_key, "/images?is_prev=False&reading_style=long_strip")
}

/// The pages of a chapter, from the sources of its images; see
/// `mangabox::imp::get_page_list`.
pub fn get_page_list(sources: &Vec<Option<String>>) -> (out: Vec<Page>)
    ensures
        out.deep_view() == crate::mangabox::imp::image_pages(sources@),
{
    crate::mangabox::imp::get_page_list(sources)
}

/// What one card of an update shows: the targets of its first and its
/// last link, whether it has any link, the card of the manga, and of the
/// last link whether it holds the line with the chapter, the text of that
/// line, and the time that the card gives.
#[derive(Clone, Debug, PartialEq, Eq)]
pub struct UpdateCard {
    pub links: bool,
    pub first_href: Option<String>,
    pub last_href: Option<String>,
    pub image: bool,
    pub cover: Option<String>,
    pub title: Option<String>,
    pub chapter_line: bool,
    pub chapter_text: Option<String>,
    pub datetime: Option<String>,
}

/// The update that a card stands for: it needs links, of which the first
/// and the last lead below the site's address, an image, a title, and the
/// line with the chapter.
pub open spec fn update_entry(card: UpdateCard) -> Option<(MangaView, ChapterView)> {
    if card.links && card.image && card.chapter_line {
        match (card.first_href.deep_view(), card.last_href.deep_view(), card.title.deep_view()) {
            (Some(first), Some(last), Some(title)) => match (
                strip_prefix(first, BASE_URL@),
                strip_prefix(last, BASE_URL@),
            ) {
                (Some(manga_key), Some(chapter_key)) => Some(
                    (
                        MangaView {
                            cover: card.cover.deep_view(),
                            ..MangaView::bare(manga_key, title)
                        },
                        ChapterView {
                            chapter_number: title_number(card.chapter_text.deep_view()),
                            date_uploaded: match card.datetime.deep_view() {
                                Some(d) => rfc3339_seconds(d),
                                None => None,
                            },
                            ..ChapterView::bare(chapter_key)
                        },
                    ),
                ),
                _ => None,
            },
            _ => None,
        }
    } else {
        None
    }
}

/// The updates of the cards, in order.
pub open spec fn update_entries(cards: Seq<UpdateCard>) -> Seq<(MangaView, ChapterView)>
    decreases cards.len(),
{
    if cards.len() == 0 {
        Seq::empty()
    } else {
        let head = update_entries(cards.drop_last());
        match update_entry(cards.last()) {
            Some(u) => head.push(u),
            None => head,
        }
    }
}

/// The update that a card stands for, if any.
pub fn parse_manga_with_chapter(card: &UpdateCard) -> (r: Option<MangaWithChapter>)
    ensures
        r.deep_view() == update_entry(*card),
{
    if !card.links || !card.image || !card.chapter_line {
        return None;
    }
    match (&card.first_href, &card.last_href, &card.title) {
        (Some(first), Some(last), Some(title)) => {
            let manga_key = match str_strip_prefix(first.as_str(), BASE_URL) {
                Some(k) => k,
                None => {
                    return None;
                },
            };
            let chapter_key = match str_strip_prefix(last.as_str(), BASE_URL) {
                Some(k) => k,
                None => {
                    return None;
                },
            };
            let mut manga = Manga::bare(manga_key, title.clone());
            manga.cover = clone_opt(&card.cover);
            let mut chapter = Chapter::bare(chapter_key);
            chapter.chapter_number = parse_title_number(&card.chapter_text);
            chapter.date_uploaded = parse_time(&card.datetime);
            Some(MangaWithChapter { manga, chapter })
        },
        _ => None,
    }
}

/// The updates of a part of the home page, from its cards.
pub fn parse_updates(cards: &Vec<UpdateCard>) -> (out: Vec<MangaWithChapter>)
    ensures
        out.deep_view() == update_entries(cards@),
{
    let mut out: Vec<MangaWithChapter> = Vec::new();
    let mut i: usize = 0;
    assert(cards@.take(0) == Seq::<UpdateCard>::empty());
    assert(out.deep_view() == Seq::<(MangaView, ChapterView)>::empty());
    while i < cards.len()
        invariant
            i <= cards.len(),
            out.deep_view() == update_entries(cards@.take(i as int)),
        decreases cards.len() - i,
    {
        assert(cards@.take(i + 1).drop_last() == cards@.take(i as int));
        let ghost before = out.deep_view();
        match parse_manga_with_chapter(&cards[i]) {
            Some(u) => {
                out.push(u);
                assert(out.deep_view() == before.push(u@));
            },
            None => {},
        }
        i += 1;
    }
    assert(cards@.take(cards.len() as int) == cards@);
    out
}

/// The parts of the home page.
#[derive(Clone, Debug, PartialEq, Eq)]
pub struct HomeParts {
    pub hot_updates: Vec<MangaWithChapter>,
    pub latest_updates: Vec<MangaWithChapter>,
    pub recommendations: Vec<Manga>,
}

/// The home page: the hot updates, six to a page and with their listing
/// behind them, the latest updates, sixteen to a page, and the
/// recommendations.
pub fn get_home(hot: &Vec<UpdateCard>, latest: &Vec<UpdateCard>, recommended: &Vec<Card>) -> (r:
    HomeParts)
    ensures
        r.hot_updates.deep_view() == update_entries(hot@),
        r.latest_updates.deep_view() == update_entries(latest@),
        r.recommendations.deep_view() == card_entries(recommended@),
{
    HomeParts {
        hot_updates: parse_updates(hot),
        latest_updates: parse_updates(latest),
        recommendations: parse_cards(recommended),
    }
}

/// What a link into the site asks for.
#[derive(Debug, PartialEq, Eq)]
pub enum DeepLinkStep {
    /// The link names a manga.
    Manga(String),
    /// The link names a chapter, whose manga its page has to tell.
    Chapter(String),
}

/// What a `DeepLinkStep` holds, as mathematical values.
pub enum DeepLinkStepView {
    Manga(Seq<char>),
    Chapter(Seq<char>),
}

impl View for DeepLinkStep {
    type V = DeepLinkStepView;

    open spec fn view(&self) -> DeepLinkStepView {
        match self {
            DeepLinkStep::Manga(k) => DeepLinkStepView::Manga(k@),
            DeepLinkStep::Chapter(k) => DeepLinkStepView::Chapter(k@),
        }
    }
}

impl DeepView for DeepLinkStep {
    type V = DeepLinkStepView;

    open spec fn deep_view(&self) -> DeepLinkStepView {
        self@
    }
}

/// What a link into the site asks for: below the site's address, a path
/// that begins with `/series` is the key of a manga, and one that begins
/// with `/chapters` the key of a chapter.
pub open spec fn deep_link(url: Seq<char>) -> Option<DeepLinkStepView> {
    match strip_prefix(url, BASE_URL@) {
        Some(key) => if "/series"@.is_prefix_of(key) {
            Some(DeepLinkStepView::Manga(key))
        } else if "/chapters"@.is_prefix_of(key) {
            Some(DeepLinkStepView::Chapter(key))
        } else {
            None
        },
        None => None,
    }
}

/// Resolves a link into the site as far as the link alone tells.
pub fn handle_deep_link(url: &str) -> (r: Option<DeepLinkStep>)
    ensures
        r.deep_view() == deep_link(url@),
{
    let key = match str_strip_prefix(url, BASE_URL) {
        Some(k) => k,
        None => {
            return None;
        },
    };
    if str_starts_with(key.as_str(), "/series") {
        Some(DeepLinkStep::Manga(key))
    } else if str_starts_with(key.as_str(), "/chapters") {
        Some(DeepLinkStep::Chapter(key))
    } else {
        None
    }
}

/// What a link to a chapter points at, once the chapter's page has given
/// the target of the link to its manga. Without such a link below the
/// site's address the manga is not known, which is an error.
pub fn chapter_deep_link(chapter_key: &str, manga_href: &Option<String>) -> (r: Result<
    DeepLinkResult,
    SourceError,
>)
    ensures
        match manga_href.deep_view() {
            Some(href) => match strip_prefix(href, BASE_URL@) {
                Some(manga_key) => r is Ok && r->Ok_0@ == (DeepLinkView::Chapter {
                    manga_key,
                    key: chapter_key@,
                }),
                None => r is Err && r->Err_0@ == SourceErrorView::Message("Missing manga key"@),
            },
            None => r is Err && r->Err_0@ == SourceErrorView::Message("Missing manga key"@),
        },
{
    let manga_key = match manga_href {
        Some(href) => str_strip_prefix(href.as_str(), BASE_URL),
        None => None,
    };
    match manga_key {
        Some(k) => Ok(DeepLinkResult::Chapter { manga_key: k, key: String::from_str(chapter_key) }),
        None => Err(SourceError::Message(String::from_str("Missing manga key"))),
    }
}

} // verus!
