//! The requests of the template and what it reads from their answers.

use vstd::prelude::*;
use crate::decimal::{i64_chars, int_text};
use crate::json::{json_value_string, json_value_strings};
use crate::mangareader::helper::{image_source, img_attr, ImageAttrs};
use crate::mangareader::parser::{
    list_entries, list_entry, number_in, parse_list_item, parse_manga_list, parse_number_in,
    parse_response, poster_entries, ListItem, Poster,
};
use crate::mangareader::Params;
use crate::query::{clone_pairs, join, joined, set_param, with_param};
use crate::model::{
    Chapter, ChapterView, DeepLinkResult, DeepLinkView, FilterValue, Manga, MangaPageResult,
    MangaView, MangaWithChapter, Page, PageView, SourceError, SourceErrorView,
};
use crate::text::{
    append, append_str, chars_of, clone_opt, clone_strings, find_char_from, index_of, join2,
    lemma_index_of_is, lemma_index_of_none, rfind, rfind_in, slice, str_starts_with,
    str_strip_prefix, str_strip_prefix_or_all, string_of, strip_prefix, trim, trimmed,
};

verus! {

/// The name of the sort order with the given index; an index that the
/// site does not list sorts by `default`.
pub open spec fn sort_id(ids: Seq<Seq<char>>, index: i32) -> Seq<char> {
    if 0 <= index < ids.len() {
        ids[index as int]
    } else {
        "default"@
    }
}

/// The name of the sort order with the given index.
pub fn get_sort_id(params: &Params, index: i32) -> (id: String)
    ensures
        id@ == sort_id(params.sort_ids.deep_view(), index),
{
    if index >= 0 && (index as usize) < params.sort_ids.len() {
        params.sort_ids[index as usize].clone()
    } else {
        String::from_str("default")
    }
}

/// The parameters after one more filter: a sort order sets `sort` to its
/// name, a choice sets the parameter of its own id, and a choice of
/// several sets `genres` to those that are included, with commas between.
/// Other filters leave the parameters as they were.
pub open spec fn params_after(
    pairs: Seq<(Seq<char>, Seq<char>)>,
    f: FilterValue,
    sort_ids: Seq<Seq<char>>,
) -> Seq<(Seq<char>, Seq<char>)> {
    match f {
        FilterValue::Sort { index, .. } => with_param(pairs, "sort"@, sort_id(sort_ids, index)),
        FilterValue::Select { id, value } => with_param(pairs, id@, value@),
        FilterValue::MultiSelect { included, .. } => with_param(
            pairs,
            "genres"@,
            joined(included.deep_view(), ","@),
        ),
        _ => pairs,
    }
}

/// The parameters of a filtered search: the site's defaults, changed by
/// each filter in order.
pub open spec fn filter_params(
    defaults: Seq<(Seq<char>, Seq<char>)>,
    filters: Seq<FilterValue>,
    sort_ids: Seq<Seq<char>>,
) -> Seq<(Seq<char>, Seq<char>)>
    decreases filters.len(),
{
    if filters.len() == 0 {
        defaults
    } else {
        params_after(filter_params(defaults, filters.drop_last(), sort_ids), filters.last(), sort_ids)
    }
}

/// The parameters of a filtered search, in order, before they are
/// encoded: the site's defaults, changed by each filter in turn.
pub fn get_filter_params(params: &Params, filters: &Vec<FilterValue>) -> (out: Vec<
    (String, String),
>)
    ensures
        out.deep_view() == filter_params(
            params.default_filters.deep_view(),
            filters@,
            params.sort_ids.deep_view(),
        ),
{
    let mut out = clone_pairs(&params.default_filters);
    let mut i: usize = 0;
    assert(filters@.take(0) == Seq::<FilterValue>::empty());
    while i < filters.len()
        invariant
            i <= filters.len(),
            out.deep_view() == filter_params(
                params.default_filters.deep_view(),
                filters@.take(i as int),
                params.sort_ids.deep_view(),
            ),
        decreases filters.len() - i,
    {
        assert(filters@.take(i + 1).drop_last() == filters@.take(i as int));
        assert(filters@.take(i + 1).last() == filters@[i as int]);
        match &filters[i] {
            FilterValue::Sort { index, .. } => {
                set_param(&mut out, "sort", get_sort_id(params, *index));
            },
            FilterValue::Select { id, value } => {
                set_param(&mut out, id.as_str(), value.clone());
            },
            FilterValue::MultiSelect { included, .. } => {
                set_param(&mut out, "genres", join(included, ","));
            },
            _ => {},
        }
        i += 1;
    }
    assert(filters@.take(filters.len() as int) == filters@);
    out
}

/// The address of a text search, from the query as it is after encoding
/// for a URI component.
pub fn search_url(params: &Params, encoded_query: &str, page: i32) -> (url: String)
    ensures
        url@ == params.base_url@ + params.search_path@ + "?"@ + params.search_param@ + "="@
            + encoded_query@ + "&"@ + params.page_param@ + "="@ + int_text(page as int),
{
    let mut out = chars_of(params.base_url.as_str());
    append_str(&mut out, params.search_path.as_str());
    append_str(&mut out, "?");
    append_str(&mut out, params.search_param.as_str());
    append_str(&mut out, "=");
    append_str(&mut out, encoded_query);
    append_str(&mut out, "&");
    append_str(&mut out, params.page_param.as_str());
    append_str(&mut out, "=");
    append(&mut out, &i64_chars(page as i64));
    string_of(&out)
}

/// The address of a filtered search, from its parameters and the query
/// string that they make when encoded: the page comes first, and the
/// other parameters follow after `&` where there are any.
pub fn filter_url(
    params: &Params,
    page: i32,
    filter_params: &Vec<(String, String)>,
    encoded: &str,
) -> (url: String)
    ensures
        url@ == params.base_url@ + "/filter?"@ + params.page_param@ + "="@ + int_text(page as int)
            + (if filter_params.len() > 0 {
            "&"@
        } else {
            Seq::<char>::empty()
        }) + encoded@,
{
    let mut out = chars_of(params.base_url.as_str());
    append_str(&mut out, "/filter?");
    append_str(&mut out, params.page_param.as_str());
    append_str(&mut out, "=");
    append(&mut out, &i64_chars(page as i64));
    if filter_params.len() > 0 {
        append_str(&mut out, "&");
    } else {
        assert(out@ + Seq::<char>::empty() == out@);
    }
    append_str(&mut out, encoded);
    string_of(&out)
}

/// The address of a page of a listing.
pub fn listing_url(params: &Params, listing_id: &str, page: i32) -> (url: String)
    ensures
        url@ == params.base_url@ + "/"@ + listing_id@ + "?"@ + params.page_param@ + "="@
            + int_text(page as int),
{
    let mut out = chars_of(params.base_url.as_str());
    append_str(&mut out, "/");
    append_str(&mut out, listing_id);
    append_str(&mut out, "?");
    append_str(&mut out, params.page_param.as_str());
    append_str(&mut out, "=");
    append(&mut out, &i64_chars(page as i64));
    string_of(&out)
}

/// One page of a search: the manga of its posters, and whether the
/// pagination shows a page behind the current one.
pub fn get_search_manga_list(items: &Vec<Poster>, params: &Params, next_link: bool) -> (r:
    MangaPageResult)
    ensures
        r@ == (poster_entries(items@, params.base_url@), next_link),
{
    MangaPageResult {
        entries: parse_response(items, params.base_url.as_str()),
        has_next_page: next_link,
    }
}

/// One page of a listing: the manga of its items, and whether the page
/// links to a next one.
pub fn get_manga_list(items: &Vec<ListItem>, params: &Params, next_link: bool) -> (r:
    MangaPageResult)
    ensures
        r@ == (list_entries(items@, params.base_url@), next_link),
{
    MangaPageResult {
        entries: parse_manga_list(items, params.base_url.as_str()),
        has_next_page: next_link,
    }
}

/// The id of a chapter where its key carries one: what follows the last
/// `#` of the key.
pub open spec fn id_in_key(key: Seq<char>) -> Option<Seq<char>> {
    match rfind(key, seq!['#']) {
        Some(pos) => Some(key.skip(pos + 1)),
        None => None,
    }
}

/// The key of a chapter without the id: what stands before the last `#`,
/// or the whole key where it holds none.
pub open spec fn key_without_id(key: Seq<char>) -> Seq<char> {
    match rfind(key, seq!['#']) {
        Some(pos) => key.take(pos),
        None => key,
    }
}

/// Splits the key of a chapter into the path of its page and its id, where
/// the key carries one.
pub fn split_chapter_key(key: &str) -> (r: (String, Option<String>))
    ensures
        r.0@ == key_without_id(key@),
        r.1.deep_view() == id_in_key(key@),
{
    let chars = chars_of(key);
    let mut hash: Vec<char> = Vec::new();
    hash.push('#');
    assert(hash@ == seq!['#']);
    match rfind_in(&chars, &hash) {
        Some(pos) => {
            let path = slice(&chars, 0, pos);
            let id = slice(&chars, pos + 1, chars.len());
            assert(path@ == chars@.take(pos as int));
            assert(id@ == chars@.skip(pos + 1));
            (string_of(&path), Some(string_of(&id)))
        },
        None => (String::from_str(key), None),
    }
}

/// The id of a chapter: the one in its key, else the one that its page
/// gives. Without either the pages cannot be asked for.
pub fn chapter_id(key_id: Option<String>, page_id: Option<String>) -> (r: Result<
    String,
    SourceError,
>)
    ensures
        match key_id {
            Some(id) => r is Ok && r->Ok_0@ == id@,
            None => match page_id {
                Some(id) => r is Ok && r->Ok_0@ == id@,
                None => r is Err && r->Err_0@ == SourceErrorView::Message(
                    "Unable to retrieve chapter id"@,
                ),
            },
        },
{
    match key_id {
        Some(id) => Ok(id),
        None => match page_id {
            Some(id) => Ok(id),
            None => Err(SourceError::Message(String::from_str("Unable to retrieve chapter id"))),
        },
    }
}

/// The address of the request for the images of a chapter.
pub fn page_list_url(params: &Params, id: &str) -> (url: String)
    ensures
        url@ == params.base_url@ + params.page_url_prefix@ + id@ + params.page_url_suffix@,
{
    let mut out = chars_of(params.base_url.as_str());
    append_str(&mut out, params.page_url_prefix.as_str());
    append_str(&mut out, id);
    append_str(&mut out, params.page_url_suffix.as_str());
    string_of(&out)
}

/// The referer of the request for the images of a chapter: the address of
/// the chapter's page.
pub fn page_list_referer(params: &Params, key: &str) -> (url: String)
    ensures
        url@ == params.base_url@ + key_without_id(key@),
{
    let (path, _) = split_chapter_key(key);
    join2(params.base_url.as_str(), path.as_str())
}

/// What one element of the image list shows: the attributes that may
/// carry its image, those of the image under it, where it has one, and
/// whether it is marked as shuffled.
#[derive(Clone, Debug, PartialEq, Eq)]
pub struct PageItem {
    pub own: ImageAttrs,
    pub child: Option<ImageAttrs>,
    pub shuffled: bool,
}

/// The page that an element of the image list stands for: it needs an
/// image source, its own or that of the image under it. The address is the
/// source without white space at both ends; a shuffled page says so in
/// its context.
pub open spec fn page_entry(item: PageItem) -> Option<PageView> {
    let source = match image_source(item.own) {
        Some(s) => Some(s),
        None => match item.child {
            Some(c) => image_source(c),
            None => None,
        },
    };
    match source {
        Some(s) => Some(
            PageView {
                url: trim(s),
                context: if item.shuffled {
                    Some(seq![("shuffled"@, "1"@)])
                } else {
                    None
                },
            },
        ),
        None => None,
    }
}

/// The pages of an image list, in the order of its elements.
pub open spec fn page_entries(items: Seq<PageItem>) -> Seq<PageView>
    decreases items.len(),
{
    if items.len() == 0 {
        Seq::empty()
    } else {
        let head = page_entries(items.drop_last());
        match page_entry(items.last()) {
            Some(p) => head.push(p),
            None => head,
        }
    }
}

/// The page that an element of the image list stands for, if any.
pub fn parse_page(item: &PageItem) -> (r: Option<Page>)
    ensures
        r.deep_view() == page_entry(*item),
{
    let source = match img_attr(&item.own) {
        Some(s) => Some(s),
        None => match &item.child {
            Some(c) => img_attr(c),
            None => None,
        },
    };
    match source {
        Some(s) => {
            let url = string_of(&trimmed(&chars_of(s.as_str())));
            let context = if item.shuffled {
                let mut pairs: Vec<(String, String)> = Vec::new();
                pairs.push((String::from_str("shuffled"), String::from_str("1")));
                assert(pairs.deep_view() =~= seq![("shuffled"@, "1"@)]);
                Some(pairs)
            } else {
                None
            };
            Some(Page { url, context })
        },
        None => None,
    }
}

/// The pages of a chapter, from the elements of its image list; elements
/// without an image source are left out.
pub fn get_page_list(items: &Vec<PageItem>) -> (out: Vec<Page>)
    ensures
        out.deep_view() == page_entries(items@),
{
    let mut out: Vec<Page> = Vec::new();
    let mut i: usize = 0;
    assert(items@.take(0) == Seq::<PageItem>::empty());
    assert(out.deep_view() == Seq::<PageView>::empty());
    while i < items.len()
        invariant
            i <= items.len(),
            out.deep_view() == page_entries(items@.take(i as int)),
        decreases items.len() - i,
    {
        assert(items@.take(i + 1).drop_last() == items@.take(i as int));
        let ghost before = out.deep_view();
        match parse_page(&items[i]) {
            Some(p) => {
                out.push(p);
                assert(out.deep_view() == before.push(p@));
            },
            None => {},
        }
        i += 1;
    }
    assert(items@.take(items.len() as int) == items@);
    out
}

/// The referer that the site wants on its image requests: its address
/// and `/`.
pub fn get_image_request(params: &Params) -> (r: String)
    ensures
        r@ == params.base_url@ + "/"@,
{
    join2(params.base_url.as_str(), "/")
}

/// The template does not process page images.
pub fn process_page_image() -> (r: Result<(), SourceError>)
    ensures
        r == Err::<(), SourceError>(SourceError::Unimplemented),
{
    Err(SourceError::Unimplemented)
}

/// What a link into the site points at: below `base`, a path that begins
/// with `read/` names a chapter, whose manga is named by what stands
/// before the first `/` of the path; any other path names a manga.
pub open spec fn deep_link(base: Seq<char>, url: Seq<char>) -> Option<DeepLinkView> {
    match strip_prefix(url, base) {
        Some(path) => if "read/"@.is_prefix_of(path) {
            Some(
                DeepLinkView::Chapter {
                    manga_key: match index_of(path, '/') {
                        Some(end) => path.take(end),
                        None => path,
                    },
                    key: path,
                },
            )
        } else {
            Some(DeepLinkView::Manga { key: path })
        },
        None => None,
    }
}

/// Resolves a link into the site.
pub fn handle_deep_link(params: &Params, url: &str) -> (r: Option<DeepLinkResult>)
    ensures
        r.deep_view() == deep_link(params.base_url@, url@),
{
    let path = match str_strip_prefix(url, params.base_url.as_str()) {
        Some(p) => p,
        None => {
            return None;
        },
    };
    if str_starts_with(path.as_str(), "read/") {
        let chars = chars_of(path.as_str());
        let manga_key = match find_char_from(&chars, '/', 0) {
            Some(end) => {
                proof {
                    lemma_index_of_is(chars@, '/', end as int);
                }
                let head = slice(&chars, 0, end);
                assert(head@ == chars@.take(end as int));
                string_of(&head)
            },
            None => {
                proof {
                    lemma_index_of_none(chars@, '/');
                }
                path.clone()
            },
        };
        Some(DeepLinkResult::Chapter { manga_key, key: path })
    } else {
        Some(DeepLinkResult::Manga { key: path })
    }
}

/// What one slide of the home page's header shows.
#[derive(Clone, Debug, PartialEq, Eq)]
pub struct Slide {
    pub href: Option<String>,
    pub title: Option<String>,
    pub cover: Option<String>,
    pub description: Option<String>,
    pub tags: Option<Vec<String>>,
}

/// The manga that a slide stands for: it needs a link and a title.
pub open spec fn slide_entry(item: Slide, base: Seq<char>) -> Option<MangaView> {
    match (item.href.deep_view(), item.title.deep_view()) {
        (Some(href), Some(title)) => Some(
            MangaView {
                cover: item.cover.deep_view(),
                description: item.description.deep_view(),
                tags: item.tags.deep_view(),
                ..MangaView::bare(
                    match strip_prefix(href, base) {
                        Some(k) => k,
                        None => href,
                    },
                    title,
                )
            },
        ),
        _ => None,
    }
}

/// The manga of the header, in the order of its slides.
pub open spec fn slide_entries(items: Seq<Slide>, base: Seq<char>) -> Seq<MangaView>
    decreases items.len(),
{
    if items.len() == 0 {
        Seq::empty()
    } else {
        let head = slide_entries(items.drop_last(), base);
        match slide_entry(items.last(), base) {
            Some(m) => head.push(m),
            None => head,
        }
    }
}

/// The manga of the home page's header.
pub fn parse_slides(items: &Vec<Slide>, base_url: &str) -> (out: Vec<Manga>)
    ensures
        out.deep_view() == slide_entries(items@, base_url@),
{
    let mut out: Vec<Manga> = Vec::new();
    let mut i: usize = 0;
    assert(items@.take(0) == Seq::<Slide>::empty());
    assert(out.deep_view() == Seq::<MangaView>::empty());
    while i < items.len()
        invariant
            i <= items.len(),
            out.deep_view() == slide_entries(items@.take(i as int), base_url@),
        decreases items.len() - i,
    {
        assert(items@.take(i + 1).drop_last() == items@.take(i as int));
        let ghost before = out.deep_view();
        match (&items[i].href, &items[i].title) {
            (Some(href), Some(title)) => {
                let mut m = Manga::bare(
                    str_strip_prefix_or_all(href.as_str(), base_url),
                    title.clone(),
                );
                m.cover = clone_opt(&items[i].cover);
                m.description = clone_opt(&items[i].description);
                m.tags = match &items[i].tags {
                    Some(t) => Some(clone_strings(t)),
                    None => None,
                };
                out.push(m);
                assert(out.deep_view() == before.push(m@));
            },
            _ => {},
        }
        i += 1;
    }
    assert(items@.take(items.len() as int) == items@);
    out
}

/// What one item of the latest updates shows: the manga as in a listing,
/// and the target and text of the link to its newest chapter.
#[derive(Clone, Debug, PartialEq, Eq)]
pub struct UpdateItem {
    pub manga: ListItem,
    pub chapter_href: Option<String>,
    pub chapter_text: Option<String>,
}

/// The update that an item stands for: it needs the link of the manga and
/// the link and text of the chapter, then the name and the poster image.
/// The chapter's ordinal is read from the digits and points of the text.
pub open spec fn update_entry(item: UpdateItem, base: Seq<char>) -> Option<
    (MangaView, ChapterView),
> {
    match (list_entry(item.manga, base), item.chapter_href.deep_view(), item.chapter_text.deep_view()) {
        (Some(m), Some(href), Some(text)) => Some(
            (
                m,
                ChapterView {
                    chapter_number: number_in(text),
                    ..ChapterView::bare(
                        match strip_prefix(href, base) {
                            Some(k) => k,
                            None => href,
                        },
                    )
                },
            ),
        ),
        _ => None,
    }
}

/// The updates of the items, in their order.
pub open spec fn update_entries(items: Seq<UpdateItem>, base: Seq<char>) -> Seq<
    (MangaView, ChapterView),
>
    decreases items.len(),
{
    if items.len() == 0 {
        Seq::empty()
    } else {
        let head = update_entries(items.drop_last(), base);
        match update_entry(items.last(), base) {
            Some(u) => head.push(u),
            None => head,
        }
    }
}

/// The latest updates of the home page: those of its first ten items, as
/// many as the page shows at first.
pub fn parse_updates(items: &Vec<UpdateItem>, base_url: &str) -> (out: Vec<MangaWithChapter>)
    ensures
        out.deep_view() == update_entries(
            items@.take(
                if items.len() < 10 {
                    items.len() as int
                } else {
                    10
                },
            ),
            base_url@,
        ),
{
    let mut out: Vec<MangaWithChapter> = Vec::new();
    let mut i: usize = 0;
    assert(items@.take(0) == Seq::<UpdateItem>::empty());
    assert(out.deep_view() == Seq::<(MangaView, ChapterView)>::empty());
    while i < items.len() && i < 10
        invariant
            i <= items.len(),
            i <= 10,
            out.deep_view() == update_entries(items@.take(i as int), base_url@),
        decreases items.len() - i,
    {
        assert(items@.take(i + 1).drop_last() == items@.take(i as int));
        let ghost before = out.deep_view();
        match (parse_list_item(&items[i].manga, base_url), &items[i].chapter_href, &items[i].chapter_text) {
            (Some(manga), Some(href), Some(text)) => {
                let mut chapter = Chapter::bare(str_strip_prefix_or_all(href.as_str(), base_url));
                chapter.chapter_number = parse_number_in(&chars_of(text.as_str()));
                let entry = MangaWithChapter { manga, chapter };
                out.push(entry);
                assert(out.deep_view() == before.push(entry@));
            },
            _ => {},
        }
        i += 1;
    }
    out
}

/// The address of the page of a manga or of a chapter: the site's address
/// and the key.
pub fn get_page_url(params: &Params, key: &str) -> (url: String)
    ensures
        url@ == params.base_url@ + key@,
{
    join2(params.base_url.as_str(), key)
}

/// The manga that an item of the sidebar stands for: it needs a link
/// under `base`, a name and a poster image.
pub open spec fn sidebar_entry(item: ListItem, base: Seq<char>) -> Option<MangaView> {
    match (item.href.deep_view(), item.name.deep_view()) {
        (Some(href), Some(title)) => match strip_prefix(href, base) {
            Some(key) => if item.image {
                Some(MangaView { cover: item.cover.deep_view(), ..MangaView::bare(key, title) })
            } else {
                None
            },
            None => None,
        },
        _ => None,
    }
}

/// The manga of a part of the sidebar, in the order of its items.
pub open spec fn sidebar_entries(items: Seq<ListItem>, base: Seq<char>) -> Seq<MangaView>
    decreases items.len(),
{
    if items.len() == 0 {
        Seq::empty()
    } else {
        let head = sidebar_entries(items.drop_last(), base);
        match sidebar_entry(items.last(), base) {
            Some(m) => head.push(m),
            None => head,
        }
    }
}

/// How the items of a part of the sidebar are marked up: those of the
/// chart of the day, where the part is one, in their own way.
pub fn get_sidebar_selector(ranked: bool) -> (r: &'static str)
    ensures
        r@ == if ranked {
            "#chart-today .featured-block-ul > ul > li"@
        } else {
            ".featured-block-ul > ul > li"@
        },
{
    if ranked {
        "#chart-today .featured-block-ul > ul > li"
    } else {
        ".featured-block-ul > ul > li"
    }
}

/// The manga of a part of the sidebar of the home page, or `None` for a
/// part without items, which the home page does not show.
pub fn parse_sidebar(items: &Vec<ListItem>, base_url: &str) -> (r: Option<Vec<Manga>>)
    ensures
        r.deep_view() == if items.len() == 0 {
            None
        } else {
            Some(sidebar_entries(items@, base_url@))
        },
{
    if items.len() == 0 {
        return None;
    }
    let mut out: Vec<Manga> = Vec::new();
    let mut i: usize = 0;
    assert(items@.take(0) == Seq::<ListItem>::empty());
    assert(out.deep_view() == Seq::<MangaView>::empty());
    while i < items.len()
        invariant
            i <= items.len(),
            out.deep_view() == sidebar_entries(items@.take(i as int), base_url@),
        decreases items.len() - i,
    {
        assert(items@.take(i + 1).drop_last() == items@.take(i as int));
        let ghost before = out.deep_view();
        match (&items[i].href, &items[i].name) {
            (Some(href), Some(name)) => match str_strip_prefix(href.as_str(), base_url) {
                Some(key) => {
                    if items[i].image {
                        let mut m = Manga::bare(key, name.clone());
                        m.cover = clone_opt(&items[i].cover);
                        out.push(m);
                        assert(out.deep_view() == before.push(m@));
                    }
                },
                None => {},
            },
            _ => {},
        }
        i += 1;
    }
    assert(items@.take(items.len() as int) == items@);
    Some(out)
}

/// The markup of the image list in the answer to the request for it: the
/// string under `html`, or nothing where the answer has none.
pub fn get_page_markup(answer: &serde_json::Value) -> (markup: String)
    ensures
        markup@ == if json_value_strings(*answer).dom().contains("html"@) {
            json_value_strings(*answer)["html"@]
        } else {
            Seq::<char>::empty()
        },
{
    match json_value_string(answer, "html") {
        Some(markup) => markup,
        None => String::new(),
    }
}

} // verus!
