//! The requests of the template and what it reads from their answers.

use vstd::prelude::*;
use crate::decimal::{parse_i32, signed_value};
use crate::mangabox::helper::{
    chapter_number_in, get_chapter_number, status_from_string,
    status_of, strip_default_chapter_title, stripped_title,
};
use crate::mangabox::Params;
use crate::model::{
    Chapter, ChapterView, ContentRating, DeepLinkResult, DeepLinkView, FilterValue, FilterView,
    Manga, MangaPageResult, MangaView, MangaWithChapter, Page, PageView, SourceError,
    SourceErrorView, Viewer,
};
use crate::text::{
    chars_of, clone_opt, clone_strings, contains, has_string, join2, remove_all, removed_all,
    rfind, rfind_in, slice, str_contains, str_starts_with, str_strip_prefix,
    str_strip_prefix_or_all, string_of, strip_prefix, trim, trimmed,
};

verus! {

/// The filters that stand for a listing: `new`, `latest` and `hot` sort by
/// newest, latest and most read; `completed` sorts by latest among the
/// completed. No other listing is known.
pub open spec fn listing_filters(id: Seq<char>) -> Option<Seq<FilterView>> {
    if id == "new"@ {
        Some(seq![FilterView::Sort { id: "sort"@, index: 0, ascending: false }])
    } else if id == "latest"@ {
        Some(seq![FilterView::Sort { id: "sort"@, index: 1, ascending: false }])
    } else if id == "hot"@ {
        Some(seq![FilterView::Sort { id: "sort"@, index: 2, ascending: false }])
    } else if id == "completed"@ {
        Some(
            seq![
                FilterView::Sort { id: "sort"@, index: 1, ascending: false },
                FilterView::Select { id: "status"@, value: "Completed"@ },
            ],
        )
    } else {
        None
    }
}

/// The filters that stand for a listing, or the error for a listing that
/// is not known.
pub fn get_manga_list(listing_id: &str) -> (r: Result<Vec<FilterValue>, SourceError>)
    ensures
        match listing_filters(listing_id@) {
            Some(filters) => r is Ok && r->Ok_0.deep_view() == filters,
            None => r is Err && r->Err_0@ == SourceErrorView::Message("Invalid listing"@),
        },
{
    let id = chars_of(listing_id);
    let (sort_index, completed): (i32, bool) = if crate::text::seq_eq(&id, &chars_of("new")) {
        (0, false)
    } else if crate::text::seq_eq(&id, &chars_of("latest")) {
        (1, false)
    } else if crate::text::seq_eq(&id, &chars_of("hot")) {
        (2, false)
    } else if crate::text::seq_eq(&id, &chars_of("completed")) {
        (1, true)
    } else {
        return Err(SourceError::Message(String::from_str("Invalid listing")));
    };
    let mut filters: Vec<FilterValue> = Vec::new();
    filters.push(
        FilterValue::Sort { id: String::from_str("sort"), index: sort_index, ascending: false },
    );
    if completed {
        filters.push(
            FilterValue::Select {
                id: String::from_str("status"),
                value: String::from_str("Completed"),
            },
        );
    }
    assert(filters.deep_view() =~= listing_filters(listing_id@)->Some_0);
    Ok(filters)
}

/// What one item of a search result shows. `story_name` is the text of the
/// story name element, `link_title` the title attribute of the link,
/// `href` its target, `cover` the source of the image.
#[derive(Clone, Debug, PartialEq, Eq)]
pub struct SearchItem {
    pub story_name: Option<String>,
    pub link_title: Option<String>,
    pub href: Option<String>,
    pub cover: Option<String>,
}

/// The title of a search item: the story name, else the title of the
/// link.
pub open spec fn search_title(item: SearchItem) -> Option<Seq<char>> {
    match item.story_name.deep_view() {
        Some(t) => Some(t),
        None => item.link_title.deep_view(),
    }
}

/// The manga that a search item stands for; one without a link or without
/// a title stands for none. The key is the link without `base`, or the
/// whole link where it does not begin with `base`.
pub open spec fn search_entry(item: SearchItem, base: Seq<char>) -> Option<MangaView> {
    match (item.href.deep_view(), search_title(item)) {
        (Some(url), Some(title)) => Some(
            MangaView {
                cover: item.cover.deep_view(),
                url: Some(url),
                ..MangaView::bare(
                    match strip_prefix(url, base) {
                        Some(k) => k,
                        None => url,
                    },
                    title,
                )
            },
        ),
        _ => None,
    }
}

/// The manga of a search result, in the order of the items.
pub open spec fn search_entries(items: Seq<SearchItem>, base: Seq<char>) -> Seq<MangaView>
    decreases items.len(),
{
    if items.len() == 0 {
        Seq::empty()
    } else {
        let head = search_entries(items.drop_last(), base);
        match search_entry(items.last(), base) {
            Some(m) => head.push(m),
            None => head,
        }
    }
}

/// The manga that a search item stands for, if any.
pub fn parse_search_item(item: &SearchItem, base_url: &str) -> (r: Option<Manga>)
    ensures
        r.deep_view() == search_entry(*item, base_url@),
{
    let url = match &item.href {
        Some(h) => h.clone(),
        None => {
            return None;
        },
    };
    let title = match &item.story_name {
        Some(t) => t.clone(),
        None => match &item.link_title {
            Some(t) => t.clone(),
            None => {
                return None;
            },
        },
    };
    let key = str_strip_prefix_or_all(url.as_str(), base_url);
    let mut manga = Manga::bare(key, title);
    manga.cover = clone_opt(&item.cover);
    manga.url = Some(url);
    Some(manga)
}

/// The manga of a search result, in the order of the items.
pub fn parse_search_items(items: &Vec<SearchItem>, base_url: &str) -> (out: Vec<Manga>)
    ensures
        out.deep_view() == search_entries(items@, base_url@),
{
    let mut out: Vec<Manga> = Vec::new();
    let mut i: usize = 0;
    assert(items@.take(0) == Seq::<SearchItem>::empty());
    assert(out.deep_view() == Seq::<MangaView>::empty());
    while i < items.len()
        invariant
            i <= items.len(),
            out.deep_view() == search_entries(items@.take(i as int), base_url@),
        decreases items.len() - i,
    {
        assert(items@.take(i + 1).drop_last() == items@.take(i as int));
        let ghost before = out.deep_view();
        match parse_search_item(&items[i], base_url) {
            Some(m) => {
                out.push(m);
                assert(out.deep_view() == before.push(m@));
            },
            None => {},
        }
        i += 1;
    }
    assert(items@.take(items.len() as int) == items@);
    out
}

/// The number of the last page, from the text of the link to it, which
/// reads `Last(` and the number and `)`. A shorter text, or one that holds
/// no number there, names none.
pub open spec fn last_page(text: Seq<char>) -> Option<i32> {
    if text.len() < 6 {
        None
    } else {
        match signed_value(text.subrange(5, text.len() - 1)) {
            Some(v) => if i32::MIN <= v <= i32::MAX {
                Some(v as i32)
            } else {
                None
            },
            None => None,
        }
    }
}

/// Whether more pages follow: where the link to the last page names a
/// number, whether `page` is below it; else whether the page had entries.
pub open spec fn more_pages(last_text: Option<Seq<char>>, page: i32, any_entries: bool) -> bool {
    let last = match last_text {
        Some(t) => last_page(t),
        None => None,
    };
    match last {
        Some(n) => page < n,
        None => any_entries,
    }
}

/// Whether more pages follow the page of a search result.
pub fn has_next_page(last_text: &Option<String>, page: i32, any_entries: bool) -> (r: bool)
    ensures
        r == more_pages(last_text.deep_view(), page, any_entries),
{
    let last: Option<i32> = match last_text {
        Some(t) => {
            let chars = chars_of(t.as_str());
            if chars.len() < 6 {
                None
            } else {
                let inner = string_of(&slice(&chars, 5, chars.len() - 1));
                parse_i32(inner.as_str())
            }
        },
        None => None,
    };
    match last {
        Some(n) => page < n,
        None => any_entries,
    }
}

/// One page of a search or listing: the manga of its items, and whether
/// more pages follow.
pub fn get_search_manga_list(
    items: &Vec<SearchItem>,
    last_text: &Option<String>,
    page: i32,
    base_url: &str,
) -> (r: MangaPageResult)
    ensures
        r@.0 == search_entries(items@, base_url@),
        r@.1 == more_pages(last_text.deep_view(), page, r@.0.len() > 0),
{
    let entries = parse_search_items(items, base_url);
    let more = has_next_page(last_text, page, entries.len() > 0);
    MangaPageResult { entries, has_next_page: more }
}

/// What the page of a manga shows of its details. `found` tells whether
/// the page has the details block at all.
#[derive(Clone, Debug, PartialEq, Eq)]
pub struct DetailsPage {
    pub found: bool,
    pub title: Option<String>,
    pub cover: Option<String>,
    pub authors: Option<Vec<String>>,
    pub description: Option<String>,
    pub tags: Option<Vec<String>>,
    pub status: Option<String>,
}

/// The rating that tags imply: adult tags rate a manga as not safe, the
/// ecchi tag as suggestive, and none of them as safe.
pub open spec fn rating_of(tags: Seq<Seq<char>>) -> ContentRating {
    if tags.contains("Adult"@) || tags.contains("Mature"@) || tags.contains("Smut"@)
        || tags.contains("Yaoi"@) {
        ContentRating::NSFW
    } else if tags.contains("Ecchi"@) {
        ContentRating::Suggestive
    } else {
        ContentRating::Safe
    }
}

/// The layout that tags imply: long strip kinds read as a webtoon, any
/// other right to left.
pub open spec fn viewer_of(tags: Seq<Seq<char>>) -> Viewer {
    if tags.contains("Manhwa"@) || tags.contains("Manhua"@) || tags.contains("Webtoons"@)
        || tags.contains("Long Strip"@) {
        Viewer::Webtoon
    } else {
        Viewer::RightToLeft
    }
}

/// The tags to judge by: those given, or none.
pub open spec fn tags_or_none(tags: Option<Seq<Seq<char>>>) -> Seq<Seq<char>> {
    match tags {
        Some(t) => t,
        None => Seq::empty(),
    }
}

/// A manga with the details of its page filled in. The description loses
/// the heading that repeats the title, and white space at both ends.
/// Rating and layout follow from the tags alone.
pub open spec fn with_details(manga: MangaView, page: DetailsPage, url: Seq<char>) -> MangaView {
    let title = match page.title.deep_view() {
        Some(t) => t,
        None => manga.title,
    };
    MangaView {
        title,
        cover: page.cover.deep_view(),
        authors: page.authors.deep_view(),
        description: match page.description.deep_view() {
            Some(text) => Some(trim(remove_all(text, title + " summary:"@))),
            None => None,
        },
        url: Some(url),
        tags: page.tags.deep_view(),
        status: status_of(
            match page.status.deep_view() {
                Some(s) => s,
                None => Seq::empty(),
            },
        ),
        content_rating: rating_of(tags_or_none(page.tags.deep_view())),
        viewer: viewer_of(tags_or_none(page.tags.deep_view())),
        ..manga
    }
}

/// The rating that the tags imply.
pub fn content_rating(tags: &Vec<String>) -> (r: ContentRating)
    ensures
        r == rating_of(tags.deep_view()),
{
    if has_string(tags, "Adult") || has_string(tags, "Mature") || has_string(tags, "Smut")
        || has_string(tags, "Yaoi") {
        ContentRating::NSFW
    } else if has_string(tags, "Ecchi") {
        ContentRating::Suggestive
    } else {
        ContentRating::Safe
    }
}

/// The layout that the tags imply.
pub fn viewer(tags: &Vec<String>) -> (r: Viewer)
    ensures
        r == viewer_of(tags.deep_view()),
{
    if has_string(tags, "Manhwa") || has_string(tags, "Manhua") || has_string(tags, "Webtoons")
        || has_string(tags, "Long Strip") {
        Viewer::Webtoon
    } else {
        Viewer::RightToLeft
    }
}

/// Fills in the details of a manga from its page. A page without the
/// details block is an error; what else is missing leaves its field empty,
/// and a missing title leaves the known one.
pub fn parse_details(manga: Manga, page: &DetailsPage, url: &str) -> (r: Result<Manga, SourceError>)
    ensures
        page.found ==> r is Ok && r->Ok_0@ == with_details(manga@, *page, url@),
        !page.found ==> r is Err && r->Err_0@ == SourceErrorView::Message(
            "Missing manga details"@,
        ),
{
    if !page.found {
        return Err(SourceError::Message(String::from_str("Missing manga details")));
    }
    let ghost before = manga@;
    let mut manga = manga;
    match &page.title {
        Some(t) => {
            manga.title = t.clone();
        },
        None => {},
    }
    manga.cover = clone_opt(&page.cover);
    manga.authors = match &page.authors {
        Some(a) => Some(clone_strings(a)),
        None => None,
    };
    manga.description = match &page.description {
        Some(text) => {
            let heading = chars_of(join2(manga.title.as_str(), " summary:").as_str());
            let cut = removed_all(&chars_of(text.as_str()), &heading);
            Some(string_of(&trimmed(&cut)))
        },
        None => None,
    };
    manga.url = Some(String::from_str(url));
    manga.tags = match &page.tags {
        Some(t) => Some(clone_strings(t)),
        None => None,
    };
    proof {
        reveal_strlit("");
        assert(""@ == Seq::<char>::empty());
    }
    manga.status = match &page.status {
        Some(s) => status_from_string(s.as_str()),
        None => status_from_string(""),
    };
    let none: Vec<String> = Vec::new();
    assert(none.deep_view() == Seq::<Seq<char>>::empty());
    let (rating, layout) = match &manga.tags {
        Some(t) => (content_rating(t), viewer(t)),
        None => (content_rating(&none), viewer(&none)),
    };
    manga.content_rating = rating;
    manga.viewer = layout;
    Ok(manga)
}

/// What one row of a chapter list shows: the target and text of its link,
/// and the time of its upload where the row gives one that reads as a date.
#[derive(Clone, Debug, PartialEq, Eq)]
pub struct ChapterRow {
    pub href: Option<String>,
    pub text: Option<String>,
    pub date_uploaded: Option<i64>,
}

/// The chapter that a row stands for; one without a link stands for none.
/// The ordinal is read from the address, the title from the text of the
/// link without its default beginning.
pub open spec fn chapter_entry(row: ChapterRow, base: Seq<char>) -> Option<ChapterView> {
    match row.href.deep_view() {
        Some(url) => Some(
            ChapterView {
                title: match row.text.deep_view() {
                    Some(t) => Some(stripped_title(t)),
                    None => None,
                },
                chapter_number: chapter_number_in(url),
                date_uploaded: row.date_uploaded,
                url: Some(url),
                ..ChapterView::bare(
                    match strip_prefix(url, base) {
                        Some(k) => k,
                        None => url,
                    },
                )
            },
        ),
        None => None,
    }
}

/// The chapters of a chapter list, in the order of its rows.
pub open spec fn chapter_entries(rows: Seq<ChapterRow>, base: Seq<char>) -> Seq<ChapterView>
    decreases rows.len(),
{
    if rows.len() == 0 {
        Seq::empty()
    } else {
        let head = chapter_entries(rows.drop_last(), base);
        match chapter_entry(rows.last(), base) {
            Some(c) => head.push(c),
            None => head,
        }
    }
}

/// The chapter that a row stands for, if any.
pub fn parse_chapter_row(row: &ChapterRow, base_url: &str) -> (r: Option<Chapter>)
    ensures
        r.deep_view() == chapter_entry(*row, base_url@),
        r matches Some(c) ==> c@.wf(),
{
    let url = match &row.href {
        Some(h) => h.clone(),
        None => {
            return None;
        },
    };
    let mut chapter = Chapter::bare(str_strip_prefix_or_all(url.as_str(), base_url));
    chapter.title = match &row.text {
        Some(t) => Some(strip_default_chapter_title(t.clone())),
        None => None,
    };
    chapter.chapter_number = get_chapter_number(url.as_str());
    chapter.date_uploaded = row.date_uploaded;
    chapter.url = Some(url);
    Some(chapter)
}

/// The chapters of a manga, from the rows of its chapter list, in order.
pub fn parse_chapters(rows: &Vec<ChapterRow>, base_url: &str) -> (out: Vec<Chapter>)
    ensures
        out.deep_view() == chapter_entries(rows@, base_url@),
        forall|i: int| 0 <= i < out.len() ==> (#[trigger] out[i])@.wf(),
{
    let mut out: Vec<Chapter> = Vec::new();
    let mut i: usize = 0;
    assert(rows@.take(0) == Seq::<ChapterRow>::empty());
    assert(out.deep_view() == Seq::<ChapterView>::empty());
    while i < rows.len()
        invariant
            i <= rows.len(),
            out.deep_view() == chapter_entries(rows@.take(i as int), base_url@),
            forall|j: int| 0 <= j < out.len() ==> (#[trigger] out[j])@.wf(),
        decreases rows.len() - i,
    {
        assert(rows@.take(i + 1).drop_last() == rows@.take(i as int));
        let ghost before = out.deep_view();
        match parse_chapter_row(&rows[i], base_url) {
            Some(c) => {
                out.push(c);
                assert(out.deep_view() == before.push(c@));
            },
            None => {},
        }
        i += 1;
    }
    assert(rows@.take(rows.len() as int) == rows@);
    out
}

/// The pages of the images that have a source, in order.
pub open spec fn image_pages(sources: Seq<Option<String>>) -> Seq<PageView>
    decreases sources.len(),
{
    if sources.len() == 0 {
        Seq::empty()
    } else {
        let head = image_pages(sources.drop_last());
        match sources.last() {
            Some(src) => head.push(PageView { url: src@, context: None }),
            None => head,
        }
    }
}

/// The pages of a chapter, from the sources of the images of its reader;
/// images without a source are left out.
pub fn get_page_list(sources: &Vec<Option<String>>) -> (out: Vec<Page>)
    ensures
        out.deep_view() == image_pages(sources@),
{
    let mut out: Vec<Page> = Vec::new();
    let mut i: usize = 0;
    assert(sources@.take(0) == Seq::<Option<String>>::empty());
    assert(out.deep_view() == Seq::<PageView>::empty());
    while i < sources.len()
        invariant
            i <= sources.len(),
            out.deep_view() == image_pages(sources@.take(i as int)),
        decreases sources.len() - i,
    {
        assert(sources@.take(i + 1).drop_last() == sources@.take(i as int));
        let ghost before = out.deep_view();
        match &sources[i] {
            Some(src) => {
                let page = Page { url: src.clone(), context: None };
                out.push(page);
                assert(out.deep_view() == before.push(page@));
            },
            None => {},
        }
        i += 1;
    }
    assert(sources@.take(sources.len() as int) == sources@);
    out
}

/// The referer that the site wants on its requests: its address and `/`.
pub fn referer(params: &Params) -> (r: String)
    ensures
        r@ == params.base_url@ + "/"@,
{
    join2(params.base_url.as_str(), "/")
}

/// What a link into the site points at: below `base`, a path that begins
/// with `manga/` names a manga, or a chapter where it holds `/chapter-`,
/// whose manga is named by what stands before the last `/chapter-`.
pub open spec fn deep_link(base: Seq<char>, url: Seq<char>) -> Option<DeepLinkView> {
    match strip_prefix(url, base) {
        Some(path) => if "manga/"@.is_prefix_of(path) {
            match rfind(path, "/chapter-"@) {
                Some(idx) => Some(DeepLinkView::Chapter { manga_key: path.take(idx), key: path }),
                None => Some(DeepLinkView::Manga { key: path }),
            }
        } else {
            None
        },
        None => None,
    }
}

/// Resolves a link into the site.
pub fn handle_deep_link(params: &Params, url: &str) -> (r: Option<DeepLinkResult>)
    ensures
        r.deep_view() == deep_link(params.base_url@, url@),
{
    let path = match str_strip_prefix(url, params.base_url.as_str()) {
        Some(p) => p,
        None => {
            return None;
        },
    };
    if !str_starts_with(path.as_str(), "manga/") {
        return None;
    }
    let chars = chars_of(path.as_str());
    match rfind_in(&chars, &chars_of("/chapter-")) {
        Some(idx) => {
            let manga_key = slice(&chars, 0, idx);
            assert(manga_key@ == chars@.take(idx as int));
            Some(DeepLinkResult::Chapter { manga_key: string_of(&manga_key), key: path })
        },
        None => Some(DeepLinkResult::Manga { key: path }),
    }
}

/// What one slide of the popular row shows; `image` tells whether it has
/// an image at all.
#[derive(Clone, Debug, PartialEq, Eq)]
pub struct PopularItem {
    pub href: Option<String>,
    pub title: Option<String>,
    pub image: bool,
    pub cover: Option<String>,
}

/// The manga that a slide stands for: it needs a link under `base`, a
/// title and an image.
pub open spec fn popular_entry(item: PopularItem, base: Seq<char>) -> Option<MangaView> {
    match (item.href.deep_view(), item.title.deep_view()) {
        (Some(href), Some(title)) => match strip_prefix(href, base) {
            Some(key) => if item.image {
                Some(MangaView { cover: item.cover.deep_view(), ..MangaView::bare(key, title) })
            } else {
                None
            },
            None => None,
        },
        _ => None,
    }
}

/// The manga of the popular row, in the order of its slides.
pub open spec fn popular_entries(items: Seq<PopularItem>, base: Seq<char>) -> Seq<MangaView>
    decreases items.len(),
{
    if items.len() == 0 {
        Seq::empty()
    } else {
        let head = popular_entries(items.drop_last(), base);
        match popular_entry(items.last(), base) {
            Some(m) => head.push(m),
            None => head,
        }
    }
}

/// The manga that a slide stands for, if any.
pub fn parse_popular_item(item: &PopularItem, base_url: &str) -> (r: Option<Manga>)
    ensures
        r.deep_view() == popular_entry(*item, base_url@),
{
    let href = match &item.href {
        Some(h) => h,
        None => {
            return None;
        },
    };
    let title = match &item.title {
        Some(t) => t.clone(),
        None => {
            return None;
        },
    };
    let key = match str_strip_prefix(href.as_str(), base_url) {
        Some(k) => k,
        None => {
            return None;
        },
    };
    if !item.image {
        return None;
    }
    let mut manga = Manga::bare(key, title);
    manga.cover = clone_opt(&item.cover);
    Some(manga)
}

/// The manga of the popular row of the home page.
pub fn parse_popular(items: &Vec<PopularItem>, base_url: &str) -> (out: Vec<Manga>)
    ensures
        out.deep_view() == popular_entries(items@, base_url@),
{
    let mut out: Vec<Manga> = Vec::new();
    let mut i: usize = 0;
    assert(items@.take(0) == Seq::<PopularItem>::empty());
    assert(out.deep_view() == Seq::<MangaView>::empty());
    while i < items.len()
        invariant
            i <= items.len(),
            out.deep_view() == popular_entries(items@.take(i as int), base_url@),
        decreases items.len() - i,
    {
        assert(items@.take(i + 1).drop_last() == items@.take(i as int));
        let ghost before = out.deep_view();
        match parse_popular_item(&items[i], base_url) {
            Some(m) => {
                out.push(m);
                assert(out.deep_view() == before.push(m@));
            },
            None => {},
        }
        i += 1;
    }
    assert(items@.take(items.len() as int) == items@);
    out
}

/// What one item of the latest updates shows: the manga as in the popular
/// row, read from its own link, and the title of its newest chapter, for
/// which `chapter_link` tells whether the item links to one.
#[derive(Clone, Debug, PartialEq, Eq)]
pub struct UpdateItem {
    pub manga: PopularItem,
    pub chapter_link: bool,
    pub chapter_title: Option<String>,
}

/// The update that an item stands for: its manga, if it stands for one and
/// links to a chapter, with the chapter's title.
pub open spec fn update_entry(item: UpdateItem, base: Seq<char>) -> Option<
    (MangaView, ChapterView),
> {
    match popular_entry(item.manga, base) {
        Some(m) => if item.chapter_link {
            Some(
                (
                    m,
                    ChapterView {
                        title: item.chapter_title.deep_view(),
                        ..ChapterView::bare(Seq::empty())
                    },
                ),
            )
        } else {
            None
        },
        None => None,
    }
}

/// The latest updates, in the order of the items.
pub open spec fn update_entries(items: Seq<UpdateItem>, base: Seq<char>) -> Seq<
    (MangaView, ChapterView),
>
    decreases items.len(),
{
    if items.len() == 0 {
        Seq::empty()
    } else {
        let head = update_entries(items.drop_last(), base);
        match update_entry(items.last(), base) {
            Some(u) => head.push(u),
            None => head,
        }
    }
}

/// The latest updates of the home page.
pub fn parse_updates(items: &Vec<UpdateItem>, base_url: &str) -> (out: Vec<MangaWithChapter>)
    ensures
        out.deep_view() == update_entries(items@, base_url@),
{
    let mut out: Vec<MangaWithChapter> = Vec::new();
    let mut i: usize = 0;
    assert(items@.take(0) == Seq::<UpdateItem>::empty());
    assert(out.deep_view() == Seq::<(MangaView, ChapterView)>::empty());
    while i < items.len()
        invariant
            i <= items.len(),
            out.deep_view() == update_entries(items@.take(i as int), base_url@),
        decreases items.len() - i,
    {
        assert(items@.take(i + 1).drop_last() == items@.take(i as int));
        let ghost before = out.deep_view();
        match parse_popular_item(&items[i].manga, base_url) {
            Some(manga) => {
                if items[i].chapter_link {
                    let mut chapter = Chapter::bare(String::new());
                    chapter.title = clone_opt(&items[i].chapter_title);
                    let entry = MangaWithChapter { manga, chapter };
                    out.push(entry);
                    assert(out.deep_view() == before.push(entry@));
                }
            },
            None => {},
        }
        i += 1;
    }
    assert(items@.take(items.len() as int) == items@);
    out
}

/// The genres among the links of the home page's table: the first six
/// links choose sort order and status and are passed over; of the rest,
/// those with a title whose target holds `genre/` name a genre.
pub open spec fn genre_names(links: Seq<(Option<String>, Option<String>)>) -> Seq<Seq<char>>
    decreases links.len(),
{
    if links.len() <= 6 {
        Seq::empty()
    } else {
        let head = genre_names(links.drop_last());
        match (links.last().0, links.last().1) {
            (Some(title), Some(href)) => if contains(href@, "genre/"@) {
                head.push(title@)
            } else {
                head
            },
            _ => head,
        }
    }
}

/// The genres that the home page offers, from the links of its table,
/// each given as its title and its target.
pub fn parse_genres(links: &Vec<(Option<String>, Option<String>)>) -> (out: Vec<String>)
    ensures
        out.deep_view() == genre_names(links@),
{
    let mut out: Vec<String> = Vec::new();
    assert(out.deep_view() == Seq::<Seq<char>>::empty());
    if links.len() <= 6 {
        return out;
    }
    let mut i: usize = 6;
    assert(genre_names(links@.take(6)) == Seq::<Seq<char>>::empty());
    while i < links.len()
        invariant
            6 <= i <= links.len(),
            out.deep_view() == genre_names(links@.take(i as int)),
        decreases links.len() - i,
    {
        assert(links@.take(i + 1).drop_last() == links@.take(i as int));
        let ghost before = out.deep_view();
        match (&links[i].0, &links[i].1) {
            (Some(title), Some(href)) => {
                if str_contains(href.as_str(), "genre/") {
                    let name = title.clone();
                    out.push(name);
                    assert(out.deep_view() == before.push(name@));
                }
            },
            _ => {},
        }
        i += 1;
    }
    assert(links@.take(links.len() as int) == links@);
    out
}

/// The address of the page of a manga or of a chapter: the site's address
/// and the key.
pub fn get_page_url(params: &Params, key: &str) -> (url: String)
    ensures
        url@ == params.base_url@ + key@,
{
    join2(params.base_url.as_str(), key)
}

} // verus!
