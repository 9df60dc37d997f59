//! The source that reads a site through its JSON interface.

use vstd::prelude::*;
use crate::decimal::{i64_chars, int_text};
use crate::json::{json_key_list, json_keys};
use crate::mangadex::models::{
    DexAtHomeResponse, DexChapter, DexCoverArt, DexCustomList, DexData, DexManga,
    DexStatusResponse,
};
use crate::mangadex::settings::{keyed, keyed_params};
use crate::query::{join, joined, pairs_of, push_all, push_all_split, split_pairs_of};
use crate::model::{
    Chapter, ChapterView, DeepLinkResult, DeepLinkView, FilterValue, FilterView, Listing, Manga,
    MangaPageResult, MangaView, Page, PageView, SourceError, SourceErrorView,
};
use crate::sets::{first_occurrences, unique};
use crate::text::{
    append, append_str, chars_of, contains, find_char_from, index_of, join2, join3,
    lemma_index_of_is, lemma_index_of_none, slice, str_contains, str_eq, str_strip_prefix,
    string_of, strip_prefix,
};

pub mod auth;
pub mod home;
pub mod models;
pub mod settings;

verus! {

/// Where the interface of the site is.
pub const API_URL: &'static str = "https://api.mangadex.org";

/// How many manga a page of a listing holds.
pub const PAGE_SIZE: i32 = 20;

/// What the id of a listing begins with that stands for a custom list.
pub const CUSTOM_LIST_PREFIX: &'static str = "list-";

/// What a listing leads to.
#[derive(Debug, PartialEq, Eq)]
pub enum ListingRoute {
    /// A search with the given filters.
    Search(Vec<FilterValue>),
    /// The manga of the latest chapters.
    Latest,
    /// The library of the user.
    Library,
    /// The custom list with the given id.
    CustomList(String),
}

/// What a `ListingRoute` holds, as mathematical values.
pub enum ListingRouteView {
    Search(Seq<FilterView>),
    Latest,
    Library,
    CustomList(Seq<char>),
}

impl View for ListingRoute {
    type V = ListingRouteView;

    open spec fn view(&self) -> ListingRouteView {
        match self {
            ListingRoute::Search(f) => ListingRouteView::Search(f.deep_view()),
            ListingRoute::Latest => ListingRouteView::Latest,
            ListingRoute::Library => ListingRouteView::Library,
            ListingRoute::CustomList(id) => ListingRouteView::CustomList(id@),
        }
    }
}

/// Where the id of a listing leads: `recent` and `popular` to searches
/// ordered by creation and by followers, highest first; `latest` and
/// `library` to their own requests; an id that begins with `list-` to the
/// custom list named behind it. No other listing is known.
pub open spec fn listing_route(id: Seq<char>) -> Option<ListingRouteView> {
    if id == "recent"@ {
        Some(
            ListingRouteView::Search(
                seq![FilterView::Sort { id: Seq::empty(), index: 3, ascending: false }],
            ),
        )
    } else if id == "popular"@ {
        Some(
            ListingRouteView::Search(
                seq![FilterView::Sort { id: Seq::empty(), index: 2, ascending: false }],
            ),
        )
    } else if id == "latest"@ {
        Some(ListingRouteView::Latest)
    } else if id == "library"@ {
        Some(ListingRouteView::Library)
    } else {
        match strip_prefix(id, CUSTOM_LIST_PREFIX@) {
            Some(list) => Some(ListingRouteView::CustomList(list)),
            None => None,
        }
    }
}

/// Where the id of a listing leads, or the error for a listing that the
/// source does not offer.
pub fn get_manga_list(listing_id: &str) -> (r: Result<ListingRoute, SourceError>)
    ensures
        match listing_route(listing_id@) {
            Some(route) => r is Ok && r->Ok_0@ == route,
            None => r == Err::<ListingRoute, SourceError>(SourceError::Unimplemented),
        },
{
    if str_eq(listing_id, "recent") || str_eq(listing_id, "popular") {
        let index: i32 = if str_eq(listing_id, "recent") {
            3
        } else {
            2
        };
        let mut filters: Vec<FilterValue> = Vec::new();
        filters.push(FilterValue::Sort { id: String::new(), index, ascending: false });
        assert(filters.deep_view() =~= seq![
            FilterView::Sort { id: Seq::empty(), index, ascending: false },
        ]);
        Ok(ListingRoute::Search(filters))
    } else if str_eq(listing_id, "latest") {
        Ok(ListingRoute::Latest)
    } else if str_eq(listing_id, "library") {
        Ok(ListingRoute::Library)
    } else {
        match str_strip_prefix(listing_id, CUSTOM_LIST_PREFIX) {
            Some(list) => Ok(ListingRoute::CustomList(list)),
            None => Err(SourceError::Unimplemented),
        }
    }
}

/// The field by which a sort order with the given index sorts.
pub open spec fn sort_field(index: i32) -> Option<Seq<char>> {
    if index == 0 {
        Some("latestUploadedChapter"@)
    } else if index == 1 {
        Some("relevance"@)
    } else if index == 2 {
        Some("followedCount"@)
    } else if index == 3 {
        Some("createdAt"@)
    } else if index == 4 {
        Some("updatedAt"@)
    } else if index == 5 {
        Some("title"@)
    } else {
        None
    }
}

/// What the filters of a search have made of its query so far: the
/// parameters, whether the content ratings of the settings still apply,
/// whether only manga with chapters to read are asked for, and how many
/// author lookups were used.
pub struct Query {
    pub params: Seq<(Seq<char>, Seq<char>)>,
    pub default_rating: bool,
    pub available: bool,
    pub lookups: nat,
}

/// Whether a filter searches by author or artist: a text filter with one
/// of these for its id.
pub open spec fn is_author_filter(f: FilterValue) -> bool {
    f matches FilterValue::Text { id, .. } && (id@ == "author"@ || id@ == "artist"@)
}

/// The query after one more filter. `lookups` holds, for each filter by
/// author or artist in order, the ids that the interface knows authors of
/// that name by; such a filter adds the first of them, if there is one.
/// Text filters with any other id, and sort orders that the interface
/// does not know, change nothing.
pub open spec fn query_after(q: Query, f: FilterValue, lookups: Seq<Vec<String>>) -> Query {
    match f {
        FilterValue::Text { .. } => if is_author_filter(f) {
            Query {
                params: if q.lookups < lookups.len() && lookups[q.lookups as int].len() > 0 {
                    q.params.push(("authorOrArtist"@, lookups[q.lookups as int][0]@))
                } else {
                    q.params
                },
                lookups: q.lookups + 1,
                ..q
            }
        } else {
            q
        },
        FilterValue::Sort { index, ascending, .. } => match sort_field(index) {
            Some(field) => Query {
                params: q.params.push(
                    (
                        "order["@ + field + "]"@,
                        if ascending {
                            "asc"@
                        } else {
                            "desc"@
                        },
                    ),
                ),
                ..q
            },
            None => q,
        },
        FilterValue::MultiSelect { id, included, excluded } => if id@ == "lang"@ {
            Query {
                params: q.params + split_pairs_of("originalLanguage[]"@, included.deep_view())
                    + split_pairs_of("excludedOriginalLanguage[]"@, excluded.deep_view()),
                ..q
            }
        } else if id@ == "rating"@ {
            Query {
                params: q.params + pairs_of("contentRating[]"@, included.deep_view()),
                default_rating: false,
                ..q
            }
        } else if id@ == "status"@ {
            Query { params: q.params + pairs_of("status[]"@, included.deep_view()), ..q }
        } else if id@ == "demographic"@ {
            Query {
                params: q.params + pairs_of("publicationDemographic[]"@, included.deep_view()),
                ..q
            }
        } else {
            Query {
                params: q.params + pairs_of("includedTags[]"@, included.deep_view()) + pairs_of(
                    "excludedTags[]"@,
                    excluded.deep_view(),
                ),
                ..q
            }
        },
        FilterValue::Check { value, .. } => if value == 0 {
            Query { available: false, ..q }
        } else {
            q
        },
        FilterValue::Select { id, value } => Query { params: q.params.push((id@, value@)), ..q },
    }
}

/// The query before any filter.
pub open spec fn empty_query() -> Query {
    Query { params: Seq::empty(), default_rating: true, available: true, lookups: 0 }
}

/// The query after all the filters, in order.
pub open spec fn query_of(filters: Seq<FilterValue>, lookups: Seq<Vec<String>>) -> Query
    decreases filters.len(),
{
    if filters.len() == 0 {
        empty_query()
    } else {
        query_after(query_of(filters.drop_last(), lookups), filters.last(), lookups)
    }
}

/// The parameters of a search, in order, before they are encoded: those
/// of the filters, the title for a query, the content ratings of the
/// settings unless a filter chose ratings, and, unless a filter asked
/// otherwise, the demand for chapters to read in the languages of the
/// settings. A setting that is needed and not there is an error.
pub open spec fn search_params(
    filters: Seq<FilterValue>,
    lookups: Seq<Vec<String>>,
    query: Option<Seq<char>>,
    ratings: Option<Seq<Seq<char>>>,
    languages: Option<Seq<Seq<char>>>,
) -> Result<Seq<(Seq<char>, Seq<char>)>, SourceErrorView> {
    let q = query_of(filters, lookups);
    let titled = match query {
        Some(t) => q.params.push(("title"@, t)),
        None => q.params,
    };
    if q.default_rating && ratings is None {
        Err(SourceErrorView::Message("Unable to fetch default content ratings"@))
    } else {
        let rated = if q.default_rating {
            titled + pairs_of("contentRating[]"@, ratings->Some_0)
        } else {
            titled
        };
        if q.available && languages is None {
            Err(SourceErrorView::Message("Unable to fetch languages"@))
        } else if q.available {
            Ok(
                rated.push(("hasAvailableChapters"@, "true"@)) + pairs_of(
                    "availableTranslatedLanguage[]"@,
                    languages->Some_0,
                ),
            )
        } else {
            Ok(rated)
        }
    }
}

/// The field by which a sort order with the given index sorts.
pub fn get_sort_field(index: i32) -> (r: Option<&'static str>)
    ensures
        match r {
            Some(f) => sort_field(index) == Some(f@),
            None => sort_field(index) is None,
        },
{
    if index == 0 {
        Some("latestUploadedChapter")
    } else if index == 1 {
        Some("relevance")
    } else if index == 2 {
        Some("followedCount")
    } else if index == 3 {
        Some("createdAt")
    } else if index == 4 {
        Some("updatedAt")
    } else if index == 5 {
        Some("title")
    } else {
        None
    }
}

/// The names to look authors up by: the values of the filters by author
/// or artist, in order.
pub open spec fn author_names(filters: Seq<FilterValue>) -> Seq<Seq<char>>
    decreases filters.len(),
{
    if filters.len() == 0 {
        Seq::empty()
    } else {
        let head = author_names(filters.drop_last());
        match filters.last() {
            FilterValue::Text { value, .. } => if is_author_filter(filters.last()) {
                head.push(value@)
            } else {
                head
            },
            _ => head,
        }
    }
}

/// The names that the interface has to be asked for the ids of, before
/// the parameters of a search can be made: one for each filter by author
/// or artist, in order.
pub fn get_author_names(filters: &Vec<FilterValue>) -> (out: Vec<String>)
    ensures
        out.deep_view() == author_names(filters@),
{
    let mut out: Vec<String> = Vec::new();
    let mut i: usize = 0;
    assert(filters@.take(0) == Seq::<FilterValue>::empty());
    assert(out.deep_view() == Seq::<Seq<char>>::empty());
    while i < filters.len()
        invariant
            i <= filters.len(),
            out.deep_view() == author_names(filters@.take(i as int)),
        decreases filters.len() - i,
    {
        assert(filters@.take(i + 1).drop_last() == filters@.take(i as int));
        assert(filters@.take(i + 1).last() == filters@[i as int]);
        let ghost before = out.deep_view();
        match &filters[i] {
            FilterValue::Text { id, value } => {
                if str_eq(id.as_str(), "author") || str_eq(id.as_str(), "artist") {
                    let name = value.clone();
                    out.push(name);
                    assert(out.deep_view() == before.push(name@));
                }
            },
            _ => {},
        }
        i += 1;
    }
    assert(filters@.take(filters.len() as int) == filters@);
    out
}

/// Builds the parameters of a search, in order, before they are encoded.
/// `lookups` holds what the interface answered for each of the names of
/// `get_author_names`, in order. Filters that the search does not know
/// are passed over; only a setting that is needed and not there makes an
/// error.
pub fn get_search_params(
    filters: &Vec<FilterValue>,
    lookups: &Vec<Vec<String>>,
    query: &Option<String>,
    ratings: &Option<Vec<String>>,
    languages: &Option<Vec<String>>,
) -> (r: Result<Vec<(String, String)>, SourceError>)
    ensures
        match search_params(
            filters@,
            lookups@,
            query.deep_view(),
            ratings.deep_view(),
            languages.deep_view(),
        ) {
            Ok(p) => r is Ok && r->Ok_0.deep_view() == p,
            Err(e) => r is Err && r->Err_0@ == e,
        },
{
    let mut params: Vec<(String, String)> = Vec::new();
    let mut default_rating = true;
    let mut available = true;
    let mut used: usize = 0;
    let mut i: usize = 0;
    assert(filters@.take(0) == Seq::<FilterValue>::empty());
    assert(params.deep_view() == Seq::<(Seq<char>, Seq<char>)>::empty());
    while i < filters.len()
        invariant
            i <= filters.len(),
            used <= i,
            query_of(filters@.take(i as int), lookups@) == (Query {
                params: params.deep_view(),
                default_rating,
                available,
                lookups: used as nat,
            }),
        decreases filters.len() - i,
    {
        assert(filters@.take(i + 1).drop_last() == filters@.take(i as int));
        assert(filters@.take(i + 1).last() == filters@[i as int]);
        let ghost before = params.deep_view();
        match &filters[i] {
            FilterValue::Text { id, value } => {
                if str_eq(id.as_str(), "author") || str_eq(id.as_str(), "artist") {
                    if used < lookups.len() && lookups[used].len() > 0 {
                        let pair = (String::from_str("authorOrArtist"), lookups[used][0].clone());
                        params.push(pair);
                        assert(params.deep_view() == before.push(
                            ("authorOrArtist"@, lookups[used as int][0]@),
                        ));
                    }
                    used += 1;
                }
            },
            FilterValue::Sort { index, ascending, .. } => {
                match get_sort_field(*index) {
                    Some(field) => {
                        let key = join3("order[", field, "]");
                        let value = if *ascending {
                            "asc"
                        } else {
                            "desc"
                        };
                        let pair = (key, String::from_str(value));
                        params.push(pair);
                        assert(params.deep_view() == before.push((pair.0@, pair.1@)));
                    },
                    None => {},
                }
            },
            FilterValue::MultiSelect { id, included, excluded } => {
                if str_eq(id.as_str(), "lang") {
                    push_all_split(&mut params, "originalLanguage[]", included);
                    push_all_split(&mut params, "excludedOriginalLanguage[]", excluded);
                } else if str_eq(id.as_str(), "rating") {
                    default_rating = false;
                    push_all(&mut params, "contentRating[]", included);
                } else if str_eq(id.as_str(), "status") {
                    push_all(&mut params, "status[]", included);
                } else if str_eq(id.as_str(), "demographic") {
                    push_all(&mut params, "publicationDemographic[]", included);
                } else {
                    push_all(&mut params, "includedTags[]", included);
                    push_all(&mut params, "excludedTags[]", excluded);
                }
            },
            FilterValue::Check { value, .. } => {
                if *value == 0 {
                    available = false;
                }
            },
            FilterValue::Select { id, value } => {
                let pair = (id.clone(), value.clone());
                params.push(pair);
                assert(params.deep_view() == before.push((id@, value@)));
            },
        }
        i += 1;
    }
    assert(filters@.take(filters.len() as int) == filters@);
    let ghost filtered = params.deep_view();
    match query {
        Some(t) => {
            let pair = (String::from_str("title"), t.clone());
            params.push(pair);
            assert(params.deep_view() == filtered.push(("title"@, t@)));
        },
        None => {},
    }
    if default_rating {
        match ratings {
            Some(list) => {
                push_all(&mut params, "contentRating[]", list);
            },
            None => {
                return Err(
                    SourceError::Message(
                        String::from_str("Unable to fetch default content ratings"),
                    ),
                );
            },
        }
    }
    if available {
        match languages {
            Some(list) => {
                let ghost rated = params.deep_view();
                let pair = (String::from_str("hasAvailableChapters"), String::from_str("true"));
                params.push(pair);
                assert(params.deep_view() == rated.push(("hasAvailableChapters"@, "true"@)));
                push_all(&mut params, "availableTranslatedLanguage[]", list);
            },
            None => {
                return Err(SourceError::Message(String::from_str("Unable to fetch languages")));
            },
        }
    }
    Ok(params)
}

/// The offset of a page of a listing: twenty manga for each page before
/// it.
pub open spec fn page_offset(page: i32) -> int {
    (page - 1) * 20
}

/// The offset of a page of a listing.
pub fn get_page_offset(page: i32) -> (offset: i64)
    ensures
        offset == page_offset(page),
{
    (page as i64 - 1) * 20
}

/// The address of a search, from its parameters as they are after
/// encoding.
pub fn get_search_url(page: i32, encoded_params: &str) -> (url: String)
    ensures
        url@ == API_URL@ + "/manga?includes%5B%5D=cover_art&limit=20&offset="@ + int_text(
            page_offset(page),
        ) + "&"@ + encoded_params@,
{
    let mut out = chars_of(API_URL);
    append_str(&mut out, "/manga?includes%5B%5D=cover_art&limit=20&offset=");
    append(&mut out, &i64_chars(get_page_offset(page)));
    append_str(&mut out, "&");
    append_str(&mut out, encoded_params);
    string_of(&out)
}

/// Whether more manga follow a page of a listing: where the answer tells
/// the total, whether the total is above what this page reaches.
pub open spec fn more_follow(total: Option<i32>, page: i32) -> bool {
    match total {
        Some(t) => page_offset(page) + 20 < t,
        None => false,
    }
}

/// The manga as listings show them, in order; a manga without a title to
/// show is not listed.
pub open spec fn basic_entries(list: Seq<DexManga>, quality: Seq<char>) -> Seq<MangaView>
    decreases list.len(),
{
    if list.len() == 0 {
        Seq::empty()
    } else {
        let head = basic_entries(list.drop_last(), quality);
        if list.last().attributes.title.text() is Some {
            head.push(list.last().basic(quality))
        } else {
            head
        }
    }
}

/// The manga of an answer as listings show them.
pub fn into_basic_list(list: Vec<DexManga>, cover_quality: &str) -> (out: Vec<Manga>)
    ensures
        out.deep_view() == basic_entries(list@, cover_quality@),
{
    let ghost all = list@;
    let n: usize = list.len();
    let mut rest = list;
    let mut out: Vec<Manga> = Vec::new();
    let mut done: usize = 0;
    assert(all.take(0) == Seq::<DexManga>::empty());
    assert(out.deep_view() == Seq::<MangaView>::empty());
    while rest.len() > 0
        invariant
            done + rest.len() == all.len(),
            all.len() == n,
            rest@ == all.skip(done as int),
            out.deep_view() == basic_entries(all.take(done as int), cover_quality@),
        decreases rest.len(),
    {
        assert(all.take(done + 1).drop_last() == all.take(done as int));
        assert(all.take(done + 1).last() == rest@[0]);
        let ghost before = out.deep_view();
        let item = rest.remove(0);
        assert(rest@ == all.skip(done + 1));
        if item.attributes.title.get().is_some() {
            let manga = item.into_basic_manga(cover_quality);
            out.push(manga);
            assert(out.deep_view() == before.push(manga@));
        }
        done += 1;
    }
    assert(all.take(all.len() as int) == all);
    out
}

/// One page of a listing: the manga of the answer as listings show them,
/// and whether more follow.
pub fn get_search_manga_list(
    list: Vec<DexManga>,
    total: Option<i32>,
    page: i32,
    cover_quality: &str,
) -> (r: MangaPageResult)
    ensures
        r@ == (basic_entries(list@, cover_quality@), more_follow(total, page)),
{
    let more = match total {
        Some(t) => get_page_offset(page) + 20 < t as i64,
        None => false,
    };
    MangaPageResult { entries: into_basic_list(list, cover_quality), has_next_page: more }
}

/// The address of the details of a manga.
pub fn get_manga_url(key: &str) -> (url: String)
    ensures
        url@ == API_URL@ + "/manga/"@ + key@
            + "?includes[]=cover_art&includes[]=author&includes[]=artist"@,
{
    let mut out = chars_of(API_URL);
    append_str(&mut out, "/manga/");
    append_str(&mut out, key);
    append_str(&mut out, "?includes[]=cover_art&includes[]=author&includes[]=artist");
    string_of(&out)
}

/// The address of the first page of the chapters of a manga, from the
/// parameters that the settings make for languages and for what is left
/// out.
pub fn get_feed_url(key: &str, languages: &str, blocked_groups: &str) -> (url: String)
    ensures
        url@ == API_URL@ + "/manga/"@ + key@
            + "/feed?order[volume]=desc&order[chapter]=desc&limit=500&contentRating[]=pornographic&contentRating[]=erotica&contentRating[]=suggestive&contentRating[]=safe&includes[]=user&includes[]=scanlation_group"@
            + languages@ + blocked_groups@,
{
    let mut out = chars_of(API_URL);
    append_str(&mut out, "/manga/");
    append_str(&mut out, key);
    append_str(
        &mut out,
        "/feed?order[volume]=desc&order[chapter]=desc&limit=500&contentRating[]=pornographic&contentRating[]=erotica&contentRating[]=suggestive&contentRating[]=safe&includes[]=user&includes[]=scanlation_group",
    );
    append_str(&mut out, languages);
    append_str(&mut out, blocked_groups);
    string_of(&out)
}

/// The address of a later page of a listing: that of the first page with
/// the offset behind it.
pub fn get_offset_url(url: &str, offset: i32) -> (out: String)
    ensures
        out@ == url@ + "&offset="@ + int_text(offset as int),
{
    let mut out = chars_of(url);
    append_str(&mut out, "&offset=");
    append(&mut out, &i64_chars(offset as i64));
    string_of(&out)
}

/// The chapters of one page of an answer: all but those that are read on
/// another site, in order.
pub open spec fn readable_chapters(list: Seq<DexChapter>) -> Seq<ChapterView>
    decreases list.len(),
{
    if list.len() == 0 {
        Seq::empty()
    } else {
        let head = readable_chapters(list.drop_last());
        if list.last().attributes.external_url is Some {
            head
        } else {
            head.push(list.last().chapter())
        }
    }
}

/// Takes in the outcome of the request for one page of chapters: an
/// answer adds its chapters, but for those read on another site, and a
/// failed request adds nothing.
pub fn add_chapter_page(chapters: &mut Vec<Chapter>, answer: Option<Vec<DexChapter>>)
    ensures
        final(chapters).deep_view() == old(chapters).deep_view() + match answer {
            Some(list) => readable_chapters(list@),
            None => Seq::empty(),
        },
{
    let ghost start = chapters.deep_view();
    match answer {
        Some(list) => {
            let ghost all = list@;
            let n: usize = list.len();
            let mut rest = list;
            let mut done: usize = 0;
            assert(all.take(0) == Seq::<DexChapter>::empty());
            assert(start + Seq::<ChapterView>::empty() == start);
            while rest.len() > 0
                invariant
                    done + rest.len() == all.len(),
                    all.len() == n,
                    start == old(chapters).deep_view(),
                    rest@ == all.skip(done as int),
                    chapters.deep_view() == start + readable_chapters(all.take(done as int)),
                decreases rest.len(),
            {
                assert(all.take(done + 1).drop_last() == all.take(done as int));
                assert(all.take(done + 1).last() == rest@[0]);
                let ghost before = chapters.deep_view();
                let item = rest.remove(0);
                assert(rest@ == all.skip(done + 1));
                if !item.has_external_url() {
                    let c = item.into_chapter();
                    chapters.push(c);
                    assert(chapters.deep_view() == before.push(c@));
                    assert(before.push(c@) == start + readable_chapters(
                        all.take(done as int),
                    ).push(c@));
                }
                done += 1;
            }
            assert(all.take(all.len() as int) == all);
        },
        None => {
            assert(start + Seq::<ChapterView>::empty() == start);
        },
    }
}

/// The address of the request for where the pages of a chapter are
/// served from.
pub fn get_at_home_url(chapter_key: &str, force_port: bool) -> (url: String)
    ensures
        url@ == API_URL@ + "/at-home/server/"@ + chapter_key@ + (if force_port {
            "?forcePort443=true"@
        } else {
            Seq::<char>::empty()
        }),
{
    let mut out = chars_of(API_URL);
    append_str(&mut out, "/at-home/server/");
    append_str(&mut out, chapter_key);
    if force_port {
        append_str(&mut out, "?forcePort443=true");
    } else {
        assert(out@ + Seq::<char>::empty() == out@);
    }
    string_of(&out)
}

/// The pages of the files, each under the base address, in order.
pub open spec fn file_pages(base: Seq<char>, files: Seq<Seq<char>>) -> Seq<PageView> {
    Seq::new(files.len(), |i: int| PageView { url: base + "/"@ + files[i], context: None })
}

/// The pages of a chapter: the files of the chosen quality, each under
/// the server's address, the quality and the chapter's hash. An answer
/// without files of the chosen quality is an error.
pub fn get_page_list(response: &DexAtHomeResponse, data_saver: bool) -> (r: Result<
    Vec<Page>,
    SourceError,
>)
    ensures
        ({
            let base = response.base_url@ + "/"@ + (if data_saver {
                "dataSaver"@
            } else {
                "data"@
            }) + "/"@ + response.chapter.hash@;
            let files = if data_saver {
                response.chapter.data_saver
            } else {
                response.chapter.data
            };
            match files {
                Some(f) => r is Ok && r->Ok_0.deep_view() == file_pages(base, f.deep_view()),
                None => r is Err && r->Err_0@ == SourceErrorView::Message(
                    "Missing chapter data"@,
                ),
            }
        }),
{
    let mut base = chars_of(response.base_url.as_str());
    append_str(&mut base, "/");
    append_str(&mut base, if data_saver {
        "dataSaver"
    } else {
        "data"
    });
    append_str(&mut base, "/");
    append_str(&mut base, response.chapter.hash.as_str());
    let files = if data_saver {
        &response.chapter.data_saver
    } else {
        &response.chapter.data
    };
    match files {
        Some(list) => {
            let mut out: Vec<Page> = Vec::new();
            let mut i: usize = 0;
            while i < list.len()
                invariant
                    i <= list.len(),
                    out.len() == i,
                    forall|j: int|
                        0 <= j < i ==> out[j]@ == (PageView {
                            url: base@ + "/"@ + list[j]@,
                            context: None,
                        }),
                decreases list.len() - i,
            {
                let mut url = slice(&base, 0, base.len());
                assert(url@ == base@);
                append_str(&mut url, "/");
                append_str(&mut url, list[i].as_str());
                out.push(Page { url: string_of(&url), context: None });
                i += 1;
            }
            assert(out.deep_view() =~= file_pages(base@, list.deep_view()));
            Ok(out)
        },
        None => Err(SourceError::Message(String::from_str("Missing chapter data"))),
    }
}

/// The address of the search for authors of a name.
pub fn get_author_url(name: &str) -> (url: String)
    ensures
        url@ == API_URL@ + "/author?name="@ + name@,
{
    join3(API_URL, "/author?name=", name)
}

/// The ids of the items of an answer, in order.
pub fn get_author_ids(list: &Vec<DexData>) -> (out: Vec<String>)
    ensures
        out.len() == list.len(),
        forall|i: int| 0 <= i < out.len() ==> out[i]@ == list[i].id@,
{
    let mut out: Vec<String> = Vec::new();
    let mut i: usize = 0;
    while i < list.len()
        invariant
            i <= list.len(),
            out.len() == i,
            forall|j: int| 0 <= j < i ==> out[j]@ == list[j].id@,
        decreases list.len() - i,
    {
        out.push(list[i].id.clone());
        i += 1;
    }
    out
}

/// The address of a custom list.
pub fn get_list_url(id: &str) -> (url: String)
    ensures
        url@ == API_URL@ + "/list/"@ + id@,
{
    join3(API_URL, "/list/", id)
}

/// The ids of the manga that a custom list holds: those of its related
/// items of kind `manga`, in order.
pub open spec fn list_manga_ids(list: DexCustomList) -> Seq<Seq<char>> {
    related_ids(list.relationships@)
}

/// The ids of the related items of kind `manga`, in order.
pub open spec fn related_ids(rels: Seq<crate::mangadex::models::DexRelationship>) -> Seq<
    Seq<char>,
>
    decreases rels.len(),
{
    if rels.len() == 0 {
        Seq::empty()
    } else {
        let head = related_ids(rels.drop_last());
        if rels.last().kind@ == "manga"@ {
            head.push(rels.last().id@)
        } else {
            head
        }
    }
}

/// The ids of the manga that a custom list holds.
pub fn get_list_manga_ids(list: &DexCustomList) -> (out: Vec<String>)
    ensures
        out.deep_view() == list_manga_ids(*list),
{
    let rels = &list.relationships;
    let mut out: Vec<String> = Vec::new();
    let mut i: usize = 0;
    assert(rels@.take(0) == Seq::<crate::mangadex::models::DexRelationship>::empty());
    assert(out.deep_view() == Seq::<Seq<char>>::empty());
    while i < rels.len()
        invariant
            i <= rels.len(),
            out.deep_view() == related_ids(rels@.take(i as int)),
        decreases rels.len() - i,
    {
        assert(rels@.take(i + 1).drop_last() == rels@.take(i as int));
        let ghost before = out.deep_view();
        if str_eq(rels[i].kind.as_str(), "manga") {
            let id = rels[i].id.clone();
            out.push(id);
            assert(out.deep_view() == before.push(id@));
        }
        i += 1;
    }
    assert(rels@.take(rels.len() as int) == rels@);
    out
}

/// The address of the manga of a custom list, of which there are 32 at
/// most.
pub fn get_list_manga_url(content_ratings: &str, manga_ids: &Vec<String>) -> (url: String)
    ensures
        url@ == API_URL@ + "/manga?limit=32&includes[]=cover_art"@ + content_ratings@
            + "&ids[]="@ + joined(manga_ids.deep_view(), "&ids[]="@),
{
    let mut out = chars_of(API_URL);
    append_str(&mut out, "/manga?limit=32&includes[]=cover_art");
    append_str(&mut out, content_ratings);
    append_str(&mut out, "&ids[]=");
    append_str(&mut out, join(manga_ids, "&ids[]=").as_str());
    string_of(&out)
}

/// The manga of a custom list: those of the answer as listings show them,
/// and no next page.
pub fn get_mangadex_list(list: Vec<DexManga>, cover_quality: &str) -> (r: MangaPageResult)
    ensures
        r@ == (basic_entries(list@, cover_quality@), false),
{
    MangaPageResult { entries: into_basic_list(list, cover_quality), has_next_page: false }
}

/// The address of the latest chapters.
pub fn get_latest_chapters_url(page: i32, content_ratings: &str, languages: &str) -> (url: String)
    ensures
        url@ == API_URL@ + "/chapter?includes[]=scanlation_group&limit=20&offset="@ + int_text(
            page_offset(page),
        ) + "&order[readableAt]=desc"@ + content_ratings@ + languages@,
{
    let mut out = chars_of(API_URL);
    append_str(&mut out, "/chapter?includes[]=scanlation_group&limit=20&offset=");
    append(&mut out, &i64_chars(get_page_offset(page)));
    append_str(&mut out, "&order[readableAt]=desc");
    append_str(&mut out, content_ratings);
    append_str(&mut out, languages);
    string_of(&out)
}

/// The ids of the manga of the chapters that name one, in order.
pub open spec fn chapter_manga_ids(chapters: Seq<DexChapter>) -> Seq<Seq<char>>
    decreases chapters.len(),
{
    if chapters.len() == 0 {
        Seq::empty()
    } else {
        let head = chapter_manga_ids(chapters.drop_last());
        match chapters.last().manga() {
            Some(id) => head.push(id),
            None => head,
        }
    }
}

/// The ids of the manga of the chapters that name one, in order.
pub fn get_chapter_manga_ids(chapters: &Vec<DexChapter>) -> (out: Vec<String>)
    ensures
        out.deep_view() == chapter_manga_ids(chapters@),
{
    let mut out: Vec<String> = Vec::new();
    let mut i: usize = 0;
    assert(chapters@.take(0) == Seq::<DexChapter>::empty());
    assert(out.deep_view() == Seq::<Seq<char>>::empty());
    while i < chapters.len()
        invariant
            i <= chapters.len(),
            out.deep_view() == chapter_manga_ids(chapters@.take(i as int)),
        decreases chapters.len() - i,
    {
        assert(chapters@.take(i + 1).drop_last() == chapters@.take(i as int));
        let ghost before = out.deep_view();
        match chapters[i].manga_id() {
            Some(id) => {
                out.push(id);
                assert(out.deep_view() == before.push(id@));
            },
            None => {},
        }
        i += 1;
    }
    assert(chapters@.take(chapters.len() as int) == chapters@);
    out
}

/// The manga to ask for after the latest chapters: the manga of the
/// chapters, each once, in the order of their first chapter. There are
/// more pages as long as there is any.
pub fn get_latest_manga_ids(chapters: &Vec<DexChapter>) -> (r: (Vec<String>, bool))
    ensures
        r.0.deep_view() == first_occurrences(chapter_manga_ids(chapters@)),
        r.1 == (r.0.len() > 0),
{
    let ids = unique(&get_chapter_manga_ids(chapters));
    let more = ids.len() > 0;
    (ids, more)
}

/// The address of the manga with the given ids.
pub fn get_manga_by_ids_url(content_ratings: &str, manga_ids: &Vec<String>) -> (url: String)
    ensures
        url@ == API_URL@ + "/manga?includes[]=cover_art"@ + content_ratings@ + keyed(
            manga_ids.deep_view(),
            "ids"@,
        ),
{
    let mut out = chars_of(API_URL);
    append_str(&mut out, "/manga?includes[]=cover_art");
    append_str(&mut out, content_ratings);
    append_str(&mut out, keyed_params(manga_ids, "ids").as_str());
    string_of(&out)
}

/// The manga of the latest chapters: those of the answer as listings show
/// them.
pub fn get_latest_manga(list: Vec<DexManga>, more: bool, cover_quality: &str) -> (r:
    MangaPageResult)
    ensures
        r@ == (basic_entries(list@, cover_quality@), more),
{
    MangaPageResult { entries: into_basic_list(list, cover_quality), has_next_page: more }
}

/// The address of the reading status of the user's manga.
pub fn get_status_url() -> (url: String)
    ensures
        url@ == API_URL@ + "/manga/status"@,
{
    join2(API_URL, "/manga/status")
}

/// The address of a page of the user's library, from the answer with the
/// reading status of the user's manga.
pub fn get_library_url(statuses: &DexStatusResponse, page: i32) -> (url: String)
    ensures
        url@ == API_URL@ + "/manga?&limit=20&offset="@ + int_text(page_offset(page))
            + "&includes[]=cover_art&contentRating[]=safe&contentRating[]=suggestive&contentRating[]=erotica&contentRating[]=pornographic"@
            + keyed(json_keys(statuses.statuses), "ids"@),
{
    let ids = json_key_list(&statuses.statuses);
    let mut out = chars_of(API_URL);
    append_str(&mut out, "/manga?&limit=20&offset=");
    append(&mut out, &i64_chars(get_page_offset(page)));
    append_str(
        &mut out,
        "&includes[]=cover_art&contentRating[]=safe&contentRating[]=suggestive&contentRating[]=erotica&contentRating[]=pornographic",
    );
    append_str(&mut out, keyed_params(&ids, "ids").as_str());
    string_of(&out)
}

/// A page of the user's library; see `get_search_manga_list`.
pub fn get_library(list: Vec<DexManga>, total: Option<i32>, page: i32, cover_quality: &str) -> (r:
    MangaPageResult)
    ensures
        r@ == (basic_entries(list@, cover_quality@), more_follow(total, page)),
{
    get_search_manga_list(list, total, page, cover_quality)
}

/// The listings that depend on the user: the library, for a user who is
/// logged in.
pub fn get_dynamic_listings(logged_in: bool) -> (out: Vec<Listing>)
    ensures
        out.len() == if logged_in {
            1nat
        } else {
            0nat
        },
        logged_in ==> out[0].id@ == "library"@ && out[0].name@ == "Library"@,
{
    let mut out: Vec<Listing> = Vec::new();
    if logged_in {
        out.push(Listing { id: String::from_str("library"), name: String::from_str("Library") });
    }
    out
}

/// The address of the covers of a manga, in the languages of the settings
/// and always in Japanese.
pub fn get_covers_url(manga_key: &str, locales: &str) -> (url: String)
    ensures
        url@ == API_URL@ + "/cover?manga[]="@ + manga_key@ + locales@ + (if contains(
            locales@,
            "locales[]=ja"@,
        ) {
            Seq::<char>::empty()
        } else {
            "&locales[]=ja"@
        }) + "&limit=100"@,
{
    let mut out = chars_of(API_URL);
    append_str(&mut out, "/cover?manga[]=");
    append_str(&mut out, manga_key);
    append_str(&mut out, locales);
    if !str_contains(locales, "locales[]=ja") {
        append_str(&mut out, "&locales[]=ja");
    } else {
        assert(out@ + Seq::<char>::empty() == out@);
    }
    append_str(&mut out, "&limit=100");
    string_of(&out)
}

/// The addresses of the covers, in order, in the chosen quality.
pub open spec fn cover_urls(manga_key: Seq<char>, covers: Seq<DexCoverArt>, quality: Seq<char>) -> Seq<
    Seq<char>,
> {
    Seq::new(
        covers.len(),
        |i: int|
            crate::mangadex::models::COVER_URL@ + "/covers/"@ + manga_key + "/"@
                + covers[i].attributes.file_name@ + quality,
    )
}

/// The addresses of the other covers of a manga.
pub fn get_alternate_covers(manga_key: &str, covers: &Vec<DexCoverArt>, cover_quality: &str) -> (out:
    Vec<String>)
    ensures
        out.deep_view() == cover_urls(manga_key@, covers@, cover_quality@),
{
    let mut out: Vec<String> = Vec::new();
    let mut i: usize = 0;
    while i < covers.len()
        invariant
            i <= covers.len(),
            out.len() == i,
            forall|j: int|
                0 <= j < i ==> out[j]@ == crate::mangadex::models::COVER_URL@ + "/covers/"@
                    + manga_key@ + "/"@ + covers[j].attributes.file_name@ + cover_quality@,
        decreases covers.len() - i,
    {
        let mut url = chars_of(crate::mangadex::models::COVER_URL);
        append_str(&mut url, "/covers/");
        append_str(&mut url, manga_key);
        append_str(&mut url, "/");
        append_str(&mut url, covers[i].attributes.file_name.as_str());
        append_str(&mut url, cover_quality);
        out.push(string_of(&url));
        i += 1;
    }
    assert(out.deep_view() =~= cover_urls(manga_key@, covers@, cover_quality@));
    out
}

/// What a link into the site asks for.
#[derive(Debug, PartialEq, Eq)]
pub enum DeepLinkStep {
    /// The link names a manga.
    Manga(String),
    /// The link names a chapter, whose manga the interface has to tell.
    Chapter(String),
}

/// What a `DeepLinkStep` holds, as mathematical values.
pub enum DeepLinkStepView {
    Manga(Seq<char>),
    Chapter(Seq<char>),
}

impl View for DeepLinkStep {
    type V = DeepLinkStepView;

    open spec fn view(&self) -> DeepLinkStepView {
        match self {
            DeepLinkStep::Manga(k) => DeepLinkStepView::Manga(k@),
            DeepLinkStep::Chapter(k) => DeepLinkStepView::Chapter(k@),
        }
    }
}

impl DeepView for DeepLinkStep {
    type V = DeepLinkStepView;

    open spec fn deep_view(&self) -> DeepLinkStepView {
        self@
    }
}

/// What stands before the first `/` of a path, or the whole path.
pub open spec fn first_segment(path: Seq<char>) -> Seq<char> {
    match index_of(path, '/') {
        Some(end) => path.take(end),
        None => path,
    }
}

/// What a link into the site asks for: below the site's address, `title/`
/// and `chapter/` are followed by the key of a manga or chapter, which
/// ends before the next `/`.
pub open spec fn deep_link(url: Seq<char>) -> Option<DeepLinkStepView> {
    match strip_prefix(url, "https://mangadex.org/"@) {
        Some(path) => match strip_prefix(path, "title/"@) {
            Some(key) => Some(DeepLinkStepView::Manga(first_segment(key))),
            None => match strip_prefix(path, "chapter/"@) {
                Some(key) => Some(DeepLinkStepView::Chapter(first_segment(key))),
                None => None,
            },
        },
        None => None,
    }
}

/// What stands before the first `/` of a path, or the whole path.
pub fn get_first_segment(path: &str) -> (out: String)
    ensures
        out@ == first_segment(path@),
{
    let chars = chars_of(path);
    match find_char_from(&chars, '/', 0) {
        Some(end) => {
            proof {
                lemma_index_of_is(chars@, '/', end as int);
            }
            let head = slice(&chars, 0, end);
            assert(head@ == chars@.take(end as int));
            string_of(&head)
        },
        None => {
            proof {
                lemma_index_of_none(chars@, '/');
            }
            String::from_str(path)
        },
    }
}

/// Resolves a link into the site as far as the link alone tells.
pub fn handle_deep_link(url: &str) -> (r: Option<DeepLinkStep>)
    ensures
        r.deep_view() == deep_link(url@),
{
    let path = match str_strip_prefix(url, "https://mangadex.org/") {
        Some(p) => p,
        None => {
            return None;
        },
    };
    match str_strip_prefix(path.as_str(), "title/") {
        Some(key) => Some(DeepLinkStep::Manga(get_first_segment(key.as_str()))),
        None => match str_strip_prefix(path.as_str(), "chapter/") {
            Some(key) => Some(DeepLinkStep::Chapter(get_first_segment(key.as_str()))),
            None => None,
        },
    }
}

/// The address of a chapter in the interface.
pub fn get_chapter_url(chapter_key: &str) -> (url: String)
    ensures
        url@ == API_URL@ + "/chapter/"@ + chapter_key@,
{
    join3(API_URL, "/chapter/", chapter_key)
}

/// What a link to a chapter points at, once the interface has told of
/// the chapter. A chapter that names no manga is an error.
pub fn chapter_deep_link(chapter_key: &str, chapter: &DexChapter) -> (r: Result<
    DeepLinkResult,
    SourceError,
>)
    ensures
        match chapter.manga() {
            Some(id) => r is Ok && r->Ok_0@ == (DeepLinkView::Chapter {
                manga_key: id,
                key: chapter_key@,
            }),
            None => r is Err && r->Err_0@ == SourceErrorView::Message("Missing manga key"@),
        },
{
    match chapter.manga_id() {
        Some(id) => Ok(
            DeepLinkResult::Chapter { manga_key: id, key: String::from_str(chapter_key) },
        ),
        None => Err(SourceError::Message(String::from_str("Missing manga key"))),
    }
}

} // verus!
