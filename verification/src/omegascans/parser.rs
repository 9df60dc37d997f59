//! The addresses of the interface and what its answers hold.

use vstd::prelude::*;
use crate::decimal::{decimal_value, i64_chars, int_text, parse_decimal, Decimal};
use crate::model::{
    Chapter, ChapterView, ContentRating, FilterValue, Manga, MangaPageResult, MangaStatus,
    MangaView, Page, PageView, SourceError, SourceErrorView, Viewer,
};
use crate::text::{
    append, append_str, chars_of, clone_opt, contains, contains_sub, split, split_on, str_eq,
    string_of,
};

verus! {

/// Where the site is.
pub const BASE_URL: &'static str = "https://omegascans.org";

/// Where the interface of the site is.
pub const BASE_API_URL: &'static str = "https://api.omegascans.org";

/// The number under which the interface knows a genre.
pub open spec fn genre_number(name: Seq<char>) -> Option<Seq<char>> {
    if name == "Romance"@ {
        Some("1"@)
    } else if name == "Drama"@ {
        Some("2"@)
    } else if name == "Fantasy"@ {
        Some("3"@)
    } else if name == "Hardcore"@ {
        Some("4"@)
    } else if name == "SM"@ {
        Some("5"@)
    } else if name == "Harem"@ {
        Some("8"@)
    } else if name == "Hypnosis"@ {
        Some("9"@)
    } else if name == "Novel Adaptation"@ {
        Some("10"@)
    } else if name == "Netori"@ {
        Some("11"@)
    } else if name == "Netorare"@ {
        Some("12"@)
    } else if name == "Isekai"@ {
        Some("13"@)
    } else if name == "Yuri"@ {
        Some("14"@)
    } else if name == "MILF"@ {
        Some("16"@)
    } else if name == "Office"@ {
        Some("17"@)
    } else if name == "Short Story"@ {
        Some("18"@)
    } else if name == "Comedy"@ {
        Some("19"@)
    } else if name == "Campus"@ {
        Some("20"@)
    } else if name == "Crime"@ {
        Some("21"@)
    } else if name == "Revenge"@ {
        Some("22"@)
    } else if name == "Supernatural"@ {
        Some("23"@)
    } else if name == "Action"@ {
        Some("24"@)
    } else if name == "Military"@ {
        Some("25"@)
    } else if name == "Cohabitation"@ {
        Some("27"@)
    } else if name == "Training"@ {
        Some("28"@)
    } else if name == "Ability"@ {
        Some("29"@)
    } else {
        None
    }
}

/// The number under which the interface knows a genre.
pub fn genre_id(name: &str) -> (r: Option<&'static str>)
    ensures
        match r {
            Some(id) => genre_number(name@) == Some(id@),
            None => genre_number(name@) is None,
        },
{
    if str_eq(name, "Romance") {
        Some("1")
    } else if str_eq(name, "Drama") {
        Some("2")
    } else if str_eq(name, "Fantasy") {
        Some("3")
    } else if str_eq(name, "Hardcore") {
        Some("4")
    } else if str_eq(name, "SM") {
        Some("5")
    } else if str_eq(name, "Harem") {
        Some("8")
    } else if str_eq(name, "Hypnosis") {
        Some("9")
    } else if str_eq(name, "Novel Adaptation") {
        Some("10")
    } else if str_eq(name, "Netori") {
        Some("11")
    } else if str_eq(name, "Netorare") {
        Some("12")
    } else if str_eq(name, "Isekai") {
        Some("13")
    } else if str_eq(name, "Yuri") {
        Some("14")
    } else if str_eq(name, "MILF") {
        Some("16")
    } else if str_eq(name, "Office") {
        Some("17")
    } else if str_eq(name, "Short Story") {
        Some("18")
    } else if str_eq(name, "Comedy") {
        Some("19")
    } else if str_eq(name, "Campus") {
        Some("20")
    } else if str_eq(name, "Crime") {
        Some("21")
    } else if str_eq(name, "Revenge") {
        Some("22")
    } else if str_eq(name, "Supernatural") {
        Some("23")
    } else if str_eq(name, "Action") {
        Some("24")
    } else if str_eq(name, "Military") {
        Some("25")
    } else if str_eq(name, "Cohabitation") {
        Some("27")
    } else if str_eq(name, "Training") {
        Some("28")
    } else if str_eq(name, "Ability") {
        Some("29")
    } else {
        None
    }
}

/// The genre number that a filter chooses: a choice of a genre other than
/// `All` that the interface knows.
pub open spec fn chosen_genre(f: FilterValue) -> Option<Seq<char>> {
    match f {
        FilterValue::Select { id, value } => if id@ == "genre"@ && value@ != "All"@ {
            genre_number(value@)
        } else {
            None
        },
        _ => None,
    }
}

/// The genre numbers that the filters choose, each followed by a comma.
pub open spec fn genre_list(filters: Seq<FilterValue>) -> Seq<char>
    decreases filters.len(),
{
    if filters.len() == 0 {
        Seq::empty()
    } else {
        let head = genre_list(filters.drop_last());
        match chosen_genre(filters.last()) {
            Some(n) => head + n + ","@,
            None => head,
        }
    }
}

/// The genre numbers that the filters choose, with commas between them.
pub open spec fn genre_ids(filters: Seq<FilterValue>) -> Seq<char> {
    let list = genre_list(filters);
    if list.len() > 0 {
        list.drop_last()
    } else {
        list
    }
}

/// The address of a search: the query as it is given, empty without one,
/// most viewed first, ten to a page, with the chosen genres.
pub open spec fn search_url(query: Option<Seq<char>>, filters: Seq<FilterValue>, page: i32) -> Seq<
    char,
> {
    BASE_API_URL@ + "/query?query_string="@ + (match query {
        Some(q) => q,
        None => Seq::empty(),
    }) + "&order=desc&orderBy=total_views&series_type=Comic&page="@ + int_text(page as int)
        + "&perPage=10&tags_ids=["@ + genre_ids(filters) + "]&adult=true"@
}

/// The address of a search for the query and the filters.
pub fn get_search_url(query: &Option<String>, filters: &Vec<FilterValue>, page: i32) -> (url:
    String)
    ensures
        url@ == search_url(query.deep_view(), filters@, page),
{
    let mut genres: Vec<char> = Vec::new();
    let mut i: usize = 0;
    assert(filters@.take(0) == Seq::<FilterValue>::empty());
    while i < filters.len()
        invariant
            i <= filters.len(),
            genres@ == genre_list(filters@.take(i as int)),
        decreases filters.len() - i,
    {
        assert(filters@.take(i + 1).drop_last() == filters@.take(i as int));
        assert(filters@.take(i + 1).last() == filters@[i as int]);
        match &filters[i] {
            FilterValue::Select { id, value } => {
                if str_eq(id.as_str(), "genre") && !str_eq(value.as_str(), "All") {
                    match genre_id(value.as_str()) {
                        Some(n) => {
                            append_str(&mut genres, n);
                            append_str(&mut genres, ",");
                        },
                        None => {},
                    }
                }
            },
            _ => {},
        }
        i += 1;
    }
    assert(filters@.take(filters.len() as int) == filters@);
    if genres.len() > 0 {
        genres.pop();
    }
    let mut out = chars_of(BASE_API_URL);
    append_str(&mut out, "/query?query_string=");
    match query {
        Some(q) => {
            append_str(&mut out, q.as_str());
        },
        None => {
            assert(out@ + Seq::<char>::empty() == out@);
        },
    }
    append_str(&mut out, "&order=desc&orderBy=total_views&series_type=Comic&page=");
    append(&mut out, &i64_chars(page as i64));
    append_str(&mut out, "&perPage=10&tags_ids=[");
    append(&mut out, &genres);
    append_str(&mut out, "]&adult=true");
    string_of(&out)
}

/// The field by which a listing is ordered; no listing but the latest,
/// the popular, the newest and the alphabetical is known.
pub open spec fn listing_order(id: Seq<char>) -> Option<Seq<char>> {
    if id == "latest"@ {
        Some("latest"@)
    } else if id == "popular"@ {
        Some("total_views"@)
    } else if id == "newest"@ {
        Some("created_at"@)
    } else if id == "alphabetical"@ {
        Some("title"@)
    } else {
        None
    }
}

/// The address of a page of a listing, or the error for a listing that is
/// not known.
pub fn get_listing_url(listing_id: &str, page: i32) -> (r: Result<String, SourceError>)
    ensures
        match listing_order(listing_id@) {
            Some(order) => r is Ok && r->Ok_0@ == BASE_API_URL@
                + "/query?query_string=&order=desc&orderBy="@ + order
                + "&series_type=Comic&page="@ + int_text(page as int)
                + "&perPage=10&tags_ids=[]&adult=true"@,
            None => r is Err && r->Err_0@ == SourceErrorView::Message("Invalid listing"@),
        },
{
    let order = if str_eq(listing_id, "latest") {
        "latest"
    } else if str_eq(listing_id, "popular") {
        "total_views"
    } else if str_eq(listing_id, "newest") {
        "created_at"
    } else if str_eq(listing_id, "alphabetical") {
        "title"
    } else {
        return Err(SourceError::Message(String::from_str("Invalid listing")));
    };
    let mut out = chars_of(BASE_API_URL);
    append_str(&mut out, "/query?query_string=&order=desc&orderBy=");
    append_str(&mut out, order);
    append_str(&mut out, "&series_type=Comic&page=");
    append(&mut out, &i64_chars(page as i64));
    append_str(&mut out, "&perPage=10&tags_ids=[]&adult=true");
    Ok(string_of(&out))
}

/// The address of a series in the interface.
pub fn get_series_url(manga_id: &str) -> (url: String)
    ensures
        url@ == BASE_API_URL@ + "/series/"@ + manga_id@,
{
    let mut out = chars_of(BASE_API_URL);
    append_str(&mut out, "/series/");
    append_str(&mut out, manga_id);
    string_of(&out)
}

/// The address of a page of the chapters of a series.
pub fn get_chapters_url(page: i32, series_id: i64) -> (url: String)
    ensures
        url@ == BASE_API_URL@ + "/chapter/query?page="@ + int_text(page as int)
            + "&perPage=30&series_id="@ + int_text(series_id as int),
{
    let mut out = chars_of(BASE_API_URL);
    append_str(&mut out, "/chapter/query?page=");
    append(&mut out, &i64_chars(page as i64));
    append_str(&mut out, "&perPage=30&series_id=");
    append(&mut out, &i64_chars(series_id));
    string_of(&out)
}

/// What the interface tells of a series in a listing; a field is `None`
/// where the answer has no string for it.
#[derive(Clone, Debug, PartialEq, Eq)]
pub struct SeriesRecord {
    pub title: Option<String>,
    pub thumbnail: Option<String>,
    pub series_slug: Option<String>,
}

/// The manga of a record: it needs a slug, which is the key, and a title.
pub open spec fn series_entry(r: SeriesRecord, base: Seq<char>) -> Option<MangaView> {
    match (r.title.deep_view(), r.series_slug.deep_view()) {
        (Some(title), Some(key)) => Some(
            MangaView {
                cover: r.thumbnail.deep_view(),
                url: Some(base + "/series/"@ + key),
                ..MangaView::bare(key, title)
            },
        ),
        _ => None,
    }
}

/// The manga of the records that stand for one, in order.
pub open spec fn series_entries(records: Seq<SeriesRecord>, base: Seq<char>) -> Seq<MangaView>
    decreases records.len(),
{
    if records.len() == 0 {
        Seq::empty()
    } else {
        let head = series_entries(records.drop_last(), base);
        match series_entry(records.last(), base) {
            Some(m) => head.push(m),
            None => head,
        }
    }
}

/// The manga of a record, if it has slug and title.
pub fn parse_series(record: &SeriesRecord, base_url: &str) -> (r: Option<Manga>)
    ensures
        r.deep_view() == series_entry(*record, base_url@),
{
    match (&record.title, &record.series_slug) {
        (Some(title), Some(key)) => {
            let mut url = chars_of(base_url);
            append_str(&mut url, "/series/");
            append_str(&mut url, key.as_str());
            let mut manga = Manga::bare(key.clone(), title.clone());
            manga.cover = clone_opt(&record.thumbnail);
            manga.url = Some(string_of(&url));
            Some(manga)
        },
        _ => None,
    }
}

/// The manga of a listing answer, in order. A record without slug or
/// title is left out; the others are not affected by it.
pub fn parse_manga(base_url: &str, records: &Vec<SeriesRecord>) -> (out: Vec<Manga>)
    ensures
        out.deep_view() == series_entries(records@, base_url@),
{
    let mut out: Vec<Manga> = Vec::new();
    let mut i: usize = 0;
    assert(records@.take(0) == Seq::<SeriesRecord>::empty());
    assert(out.deep_view() == Seq::<MangaView>::empty());
    while i < records.len()
        invariant
            i <= records.len(),
            out.deep_view() == series_entries(records@.take(i as int), base_url@),
        decreases records.len() - i,
    {
        assert(records@.take(i + 1).drop_last() == records@.take(i as int));
        let ghost before = out.deep_view();
        match parse_series(&records[i], base_url) {
            Some(m) => {
                out.push(m);
                assert(out.deep_view() == before.push(m@));
            },
            None => {},
        }
        i += 1;
    }
    assert(records@.take(records.len() as int) == records@);
    out
}

/// One page of a search: the manga of the answer, and more pages as long
/// as the answer holds any.
pub fn parse_manga_list(base_url: &str, records: &Vec<SeriesRecord>) -> (r: MangaPageResult)
    ensures
        r@ == (
            series_entries(records@, base_url@),
            series_entries(records@, base_url@).len() > 0,
        ),
{
    let entries = parse_manga(base_url, records);
    let more = entries.len() > 0;
    MangaPageResult { entries, has_next_page: more }
}

/// One page of a listing; see `parse_manga_list`.
pub fn parse_manga_listing(base_url: &str, records: &Vec<SeriesRecord>) -> (r: MangaPageResult)
    ensures
        r@ == (
            series_entries(records@, base_url@),
            series_entries(records@, base_url@).len() > 0,
        ),
{
    parse_manga_list(base_url, records)
}

/// The status that the interface's word names.
pub open spec fn status_word(word: Seq<char>) -> MangaStatus {
    if word == "Ongoing"@ {
        MangaStatus::Ongoing
    } else if word == "Completed"@ {
        MangaStatus::Completed
    } else if word == "Cancelled"@ || word == "Dropped"@ {
        MangaStatus::Cancelled
    } else if word == "Hiatus"@ {
        MangaStatus::Hiatus
    } else {
        MangaStatus::Unknown
    }
}

/// The status that the interface's word names.
pub fn status_from_word(word: &str) -> (r: MangaStatus)
    ensures
        r == status_word(word@),
{
    if str_eq(word, "Ongoing") {
        MangaStatus::Ongoing
    } else if str_eq(word, "Completed") {
        MangaStatus::Completed
    } else if str_eq(word, "Cancelled") || str_eq(word, "Dropped") {
        MangaStatus::Cancelled
    } else if str_eq(word, "Hiatus") {
        MangaStatus::Hiatus
    } else {
        MangaStatus::Unknown
    }
}

/// What the interface tells of one series; a field is `None` where the
/// answer has no such value. `tags` holds the name of each tag, `None`
/// for a tag without one.
#[derive(Clone, Debug, PartialEq, Eq)]
pub struct DetailsRecord {
    pub thumbnail: Option<String>,
    pub title: Option<String>,
    pub description: Option<String>,
    pub author: Option<String>,
    pub studio: Option<String>,
    pub series_slug: Option<String>,
    pub status: Option<String>,
    pub tags: Option<Vec<Option<String>>>,
}

/// The names of the tags that have one, in order.
pub open spec fn tag_names(tags: Seq<Option<String>>) -> Seq<Seq<char>>
    decreases tags.len(),
{
    if tags.len() == 0 {
        Seq::empty()
    } else {
        let head = tag_names(tags.drop_last());
        match tags.last() {
            Some(name) => head.push(name@),
            None => head,
        }
    }
}

/// Whether the record tells what a manga cannot be without: its slug,
/// which is the key, and its title.
pub open spec fn details_found(r: DetailsRecord) -> bool {
    r.series_slug is Some && r.title is Some
}

/// The one name as a list, or nothing.
pub open spec fn one_name(name: Option<Seq<char>>) -> Option<Seq<Seq<char>>> {
    match name {
        Some(n) => Some(seq![n]),
        None => None,
    }
}

/// The manga of a record with slug and title, with the chapters given:
/// the studio is the artist, the site's comics are not safe and read as
/// webtoons. What else the record does not tell is left empty.
pub open spec fn details(r: DetailsRecord, base: Seq<char>, chapters: Seq<ChapterView>) -> MangaView {
    MangaView {
        key: r.series_slug->Some_0@,
        title: r.title->Some_0@,
        cover: r.thumbnail.deep_view(),
        artists: one_name(r.studio.deep_view()),
        authors: one_name(r.author.deep_view()),
        description: r.description.deep_view(),
        url: Some(base + "/series/"@ + r.series_slug->Some_0@),
        tags: match r.tags {
            Some(t) => Some(tag_names(t@)),
            None => None,
        },
        status: match r.status.deep_view() {
            Some(w) => status_word(w),
            None => MangaStatus::Unknown,
        },
        content_rating: ContentRating::NSFW,
        viewer: Viewer::Webtoon,
        chapters: Some(chapters),
    }
}

/// The names of the tags that have one.
pub fn parse_tags(tags: &Vec<Option<String>>) -> (out: Vec<String>)
    ensures
        out.deep_view() == tag_names(tags@),
{
    let mut out: Vec<String> = Vec::new();
    let mut i: usize = 0;
    assert(tags@.take(0) == Seq::<Option<String>>::empty());
    assert(out.deep_view() == Seq::<Seq<char>>::empty());
    while i < tags.len()
        invariant
            i <= tags.len(),
            out.deep_view() == tag_names(tags@.take(i as int)),
        decreases tags.len() - i,
    {
        assert(tags@.take(i + 1).drop_last() == tags@.take(i as int));
        let ghost before = out.deep_view();
        match &tags[i] {
            Some(name) => {
                let n = name.clone();
                out.push(n);
                assert(out.deep_view() == before.push(n@));
            },
            None => {},
        }
        i += 1;
    }
    assert(tags@.take(tags.len() as int) == tags@);
    out
}

/// The one name as a list, or nothing.
pub fn parse_one_name(name: &Option<String>) -> (r: Option<Vec<String>>)
    ensures
        r.deep_view() == one_name(name.deep_view()),
{
    match name {
        Some(n) => {
            let mut list: Vec<String> = Vec::new();
            list.push(n.clone());
            assert(list.deep_view() =~= seq![n@]);
            Some(list)
        },
        None => None,
    }
}

/// The details of a series, with its chapters. A record without slug or
/// title cannot be decoded; any other value may be missing.
pub fn parse_manga_details(base_url: &str, record: &DetailsRecord, chapters: Vec<Chapter>) -> (r:
    Result<Manga, SourceError>)
    ensures
        details_found(*record) ==> r is Ok && r->Ok_0@ == details(
            *record,
            base_url@,
            chapters.deep_view(),
        ),
        !details_found(*record) ==> r == Err::<Manga, SourceError>(SourceError::JsonParseError),
{
    match (&record.series_slug, &record.title) {
        (Some(key), Some(title)) => {
            let mut url = chars_of(base_url);
            append_str(&mut url, "/series/");
            append_str(&mut url, key.as_str());
            Ok(
                Manga {
                    key: key.clone(),
                    title: title.clone(),
                    cover: clone_opt(&record.thumbnail),
                    artists: parse_one_name(&record.studio),
                    authors: parse_one_name(&record.author),
                    description: clone_opt(&record.description),
                    url: Some(string_of(&url)),
                    tags: match &record.tags {
                        Some(t) => Some(parse_tags(t)),
                        None => None,
                    },
                    status: match &record.status {
                        Some(w) => status_from_word(w.as_str()),
                        None => MangaStatus::Unknown,
                    },
                    content_rating: ContentRating::NSFW,
                    viewer: Viewer::Webtoon,
                    chapters: Some(chapters),
                },
            )
        },
        _ => Err(SourceError::JsonParseError),
    }
}

/// What the interface tells of one chapter; a field is `None` where the
/// answer has no such value, and `created_at` also where the value does
/// not read as a date.
#[derive(Clone, Debug, PartialEq, Eq)]
pub struct ChapterRecord {
    pub price: Option<i64>,
    pub chapter_slug: Option<String>,
    pub created_at: Option<i64>,
}

/// The ordinal in the slug of a chapter: what stands between its first
/// and second hyphen, read as a decimal, and -1 where that reads as none.
/// A slug without a hyphen has no ordinal.
pub open spec fn slug_number(slug: Seq<char>) -> Option<Decimal> {
    let parts = split(slug, '-');
    if parts.len() > 1 {
        match decimal_value(parts[1]) {
            Some(d) => Some(d),
            None => Some(Decimal { mantissa: -1i64, scale: 0 }),
        }
    } else {
        None
    }
}

/// Whether a record stands for a chapter that is free: its price is 0.
pub open spec fn is_free(r: ChapterRecord) -> bool {
    r.price == Some(0i64)
}

/// The chapter that a record stands for: the record of a free chapter
/// with a slug, which is the key. A chapter with a price is left out, and
/// so is a record that tells no price or no slug.
pub open spec fn chapter_entry(r: ChapterRecord, base: Seq<char>, manga_id: Seq<char>) -> Option<
    ChapterView,
> {
    if is_free(r) {
        match r.chapter_slug.deep_view() {
            Some(slug) => Some(
                ChapterView {
                    chapter_number: slug_number(slug),
                    date_uploaded: r.created_at,
                    url: Some(base + "/series/"@ + manga_id + "/"@ + slug),
                    ..ChapterView::bare(slug)
                },
            ),
            None => None,
        }
    } else {
        None
    }
}

/// The chapters of the records that stand for one, in order.
pub open spec fn chapter_entries(records: Seq<ChapterRecord>, base: Seq<char>, manga_id: Seq<char>) -> Seq<
    ChapterView,
>
    decreases records.len(),
{
    if records.len() == 0 {
        Seq::empty()
    } else {
        let head = chapter_entries(records.drop_last(), base, manga_id);
        match chapter_entry(records.last(), base, manga_id) {
            Some(c) => head.push(c),
            None => head,
        }
    }
}

/// The chapters of all the pages, page after page.
pub open spec fn chapters_of_pages(
    pages: Seq<Vec<ChapterRecord>>,
    base: Seq<char>,
    manga_id: Seq<char>,
) -> Seq<ChapterView>
    decreases pages.len(),
{
    if pages.len() == 0 {
        Seq::empty()
    } else {
        chapters_of_pages(pages.drop_last(), base, manga_id) + chapter_entries(
            pages.last()@,
            base,
            manga_id,
        )
    }
}

/// The ordinal in the slug of a chapter.
pub fn parse_slug_number(slug: &str) -> (r: Option<Decimal>)
    ensures
        r == slug_number(slug@),
        r matches Some(d) ==> d.wf(),
{
    let parts = split_on(&chars_of(slug), '-');
    if parts.len() > 1 {
        assert(parts.deep_view()[1] == parts[1].deep_view());
        assert(parts[1].deep_view() =~= parts[1]@);
        match parse_decimal(&parts[1]) {
            Some(d) => Some(d),
            None => Some(Decimal { mantissa: -1, scale: 0 }),
        }
    } else {
        None
    }
}

/// The chapter that a record stands for, if any.
pub fn parse_chapter(record: &ChapterRecord, base_url: &str, manga_id: &str) -> (r: Option<Chapter>)
    ensures
        r.deep_view() == chapter_entry(*record, base_url@, manga_id@),
        r matches Some(c) ==> c@.wf(),
{
    let free = match record.price {
        Some(price) => price == 0,
        None => false,
    };
    if !free {
        return None;
    }
    let slug = match &record.chapter_slug {
        Some(s) => s,
        None => {
            return None;
        },
    };
    let mut url = chars_of(base_url);
    append_str(&mut url, "/series/");
    append_str(&mut url, manga_id);
    append_str(&mut url, "/");
    append_str(&mut url, slug.as_str());
    let mut chapter = Chapter::bare(slug.clone());
    chapter.chapter_number = parse_slug_number(slug.as_str());
    chapter.date_uploaded = record.created_at;
    chapter.url = Some(string_of(&url));
    Some(chapter)
}

/// Adds the free chapters of one page of the interface's answer to
/// `chapters`, in order. Chapters with a price are left out, and so are
/// records that tell no price or no slug; the others are not affected by
/// them.
pub fn parse_chapter_page(
    chapters: &mut Vec<Chapter>,
    records: &Vec<ChapterRecord>,
    base_url: &str,
    manga_id: &str,
)
    ensures
        final(chapters).deep_view() == old(chapters).deep_view() + chapter_entries(
            records@,
            base_url@,
            manga_id@,
        ),
        (forall|i: int| 0 <= i < old(chapters).len() ==> (#[trigger] old(chapters)[i])@.wf())
            ==> (forall|i: int|
            0 <= i < final(chapters).len() ==> (#[trigger] final(chapters)[i])@.wf()),
{
    let ghost start = chapters.deep_view();
    let ghost start_wf = forall|i: int|
        0 <= i < chapters.len() ==> (#[trigger] chapters[i])@.wf();
    let mut i: usize = 0;
    assert(records@.take(0) == Seq::<ChapterRecord>::empty());
    assert(start + Seq::<ChapterView>::empty() == start);
    while i < records.len()
        invariant
            i <= records.len(),
            start == old(chapters).deep_view(),
            chapters.deep_view() == start + chapter_entries(
                records@.take(i as int),
                base_url@,
                manga_id@,
            ),
            start_wf ==> (forall|j: int|
                0 <= j < chapters.len() ==> (#[trigger] chapters[j])@.wf()),
            start_wf == (forall|j: int|
                0 <= j < old(chapters).len() ==> (#[trigger] old(chapters)[j])@.wf()),
        decreases records.len() - i,
    {
        assert(records@.take(i + 1).drop_last() == records@.take(i as int));
        let ghost before = chapters.deep_view();
        match parse_chapter(&records[i], base_url, manga_id) {
            Some(c) => {
                chapters.push(c);
                assert(chapters.deep_view() == before.push(c@));
                assert(before.push(c@) == start + chapter_entries(
                    records@.take(i as int),
                    base_url@,
                    manga_id@,
                ).push(c@));
            },
            None => {},
        }
        i += 1;
    }
    assert(records@.take(records.len() as int) == records@);
}

/// Takes in the outcome of the request for one page of chapters: an
/// answer adds its free chapters, in order, and a request that failed, or
/// whose answer could not be decoded, adds nothing. The walk through the
/// pages goes on behind it either way.
pub fn add_chapter_page(
    chapters: &mut Vec<Chapter>,
    answer: Option<&Vec<ChapterRecord>>,
    base_url: &str,
    manga_id: &str,
)
    ensures
        final(chapters).deep_view() == old(chapters).deep_view() + match answer {
            Some(records) => chapter_entries(records@, base_url@, manga_id@),
            None => Seq::empty(),
        },
        (forall|i: int| 0 <= i < old(chapters).len() ==> (#[trigger] old(chapters)[i])@.wf())
            ==> (forall|i: int|
            0 <= i < final(chapters).len() ==> (#[trigger] final(chapters)[i])@.wf()),
{
    match answer {
        Some(records) => {
            parse_chapter_page(chapters, records, base_url, manga_id);
        },
        None => {
            assert(chapters.deep_view() + Seq::<ChapterView>::empty() == chapters.deep_view());
        },
    }
}

/// The chapters that the outcomes of the page requests give, page after
/// page; a page that failed gives none.
pub open spec fn chapters_of_answers(
    answers: Seq<Option<Vec<ChapterRecord>>>,
    base: Seq<char>,
    manga_id: Seq<char>,
) -> Seq<ChapterView>
    decreases answers.len(),
{
    if answers.len() == 0 {
        Seq::empty()
    } else {
        chapters_of_answers(answers.drop_last(), base, manga_id) + match answers.last() {
            Some(records) => chapter_entries(records@, base, manga_id),
            None => Seq::empty(),
        }
    }
}

/// The chapters of a series from the outcomes of the requests for its
/// pages, first page to last: the free chapters of every page that was
/// answered, in the order of the pages; a failed page is passed over and
/// the pages behind it still count.
pub fn parse_chapter_answers(
    answers: &Vec<Option<Vec<ChapterRecord>>>,
    base_url: &str,
    manga_id: &str,
) -> (out: Vec<Chapter>)
    ensures
        out.deep_view() == chapters_of_answers(answers@, base_url@, manga_id@),
        forall|i: int| 0 <= i < out.len() ==> (#[trigger] out[i])@.wf(),
{
    let mut out: Vec<Chapter> = Vec::new();
    let mut i: usize = 0;
    assert(answers@.take(0) == Seq::<Option<Vec<ChapterRecord>>>::empty());
    assert(out.deep_view() == Seq::<ChapterView>::empty());
    while i < answers.len()
        invariant
            i <= answers.len(),
            out.deep_view() == chapters_of_answers(answers@.take(i as int), base_url@, manga_id@),
            forall|j: int| 0 <= j < out.len() ==> (#[trigger] out[j])@.wf(),
        decreases answers.len() - i,
    {
        assert(answers@.take(i + 1).drop_last() == answers@.take(i as int));
        assert(answers@.take(i + 1).last() == answers@[i as int]);
        match &answers[i] {
            Some(records) => {
                add_chapter_page(&mut out, Some(records), base_url, manga_id);
            },
            None => {
                add_chapter_page(&mut out, None, base_url, manga_id);
            },
        }
        i += 1;
    }
    assert(answers@.take(answers.len() as int) == answers@);
    out
}

/// The chapters of a series from the pages of the interface's answer,
/// first page to last: all that are free, in the order of the pages and
/// within each page; none that has a price.
pub fn parse_chapter_list(pages: &Vec<Vec<ChapterRecord>>, base_url: &str, manga_id: &str) -> (out:
    Vec<Chapter>)
    ensures
        out.deep_view() == chapters_of_pages(pages@, base_url@, manga_id@),
        forall|i: int| 0 <= i < out.len() ==> (#[trigger] out[i])@.wf(),
{
    let mut out: Vec<Chapter> = Vec::new();
    let mut i: usize = 0;
    assert(pages@.take(0) == Seq::<Vec<ChapterRecord>>::empty());
    assert(out.deep_view() == Seq::<ChapterView>::empty());
    while i < pages.len()
        invariant
            i <= pages.len(),
            out.deep_view() == chapters_of_pages(pages@.take(i as int), base_url@, manga_id@),
            forall|j: int| 0 <= j < out.len() ==> (#[trigger] out[j])@.wf(),
        decreases pages.len() - i,
    {
        assert(pages@.take(i + 1).drop_last() == pages@.take(i as int));
        parse_chapter_page(&mut out, &pages[i], base_url, manga_id);
        i += 1;
    }
    assert(pages@.take(pages.len() as int) == pages@);
    out
}

/// Every chapter that a page gives comes from a record of the page that
/// is free: the lemma names the record.
pub proof fn lemma_page_chapters_are_free(
    records: Seq<ChapterRecord>,
    base: Seq<char>,
    manga_id: Seq<char>,
    k: int,
) -> (j: int)
    requires
        0 <= k < chapter_entries(records, base, manga_id).len(),
    ensures
        0 <= j < records.len(),
        is_free(records[j]),
        chapter_entry(records[j], base, manga_id) == Some(
            chapter_entries(records, base, manga_id)[k],
        ),
    decreases records.len(),
{
    let head = chapter_entries(records.drop_last(), base, manga_id);
    if k < head.len() {
        let j = lemma_page_chapters_are_free(records.drop_last(), base, manga_id, k);
        assert(records.drop_last()[j] == records[j]);
        j
    } else {
        records.len() - 1
    }
}

/// No chapter with a price is among the chapters of the pages, whatever
/// page it is on: every chapter of the result comes from a record of one
/// of the pages that is free. The lemma names the page and the record.
pub proof fn lemma_chapters_are_free(
    pages: Seq<Vec<ChapterRecord>>,
    base: Seq<char>,
    manga_id: Seq<char>,
    k: int,
) -> (at: (int, int))
    requires
        0 <= k < chapters_of_pages(pages, base, manga_id).len(),
    ensures
        0 <= at.0 < pages.len(),
        0 <= at.1 < pages[at.0].len(),
        is_free(pages[at.0][at.1]),
        chapter_entry(pages[at.0][at.1], base, manga_id) == Some(
            chapters_of_pages(pages, base, manga_id)[k],
        ),
    decreases pages.len(),
{
    let head = chapters_of_pages(pages.drop_last(), base, manga_id);
    if k < head.len() {
        let at = lemma_chapters_are_free(pages.drop_last(), base, manga_id, k);
        assert(pages.drop_last()[at.0] == pages[at.0]);
        at
    } else {
        let j = lemma_page_chapters_are_free(pages.last()@, base, manga_id, k - head.len());
        (pages.len() - 1, j)
    }
}

/// Every free chapter of every page is among the chapters of the pages:
/// the lemma names its place in the result.
pub proof fn lemma_free_chapters_are_kept(
    pages: Seq<Vec<ChapterRecord>>,
    base: Seq<char>,
    manga_id: Seq<char>,
    p: int,
    j: int,
) -> (k: int)
    requires
        0 <= p < pages.len(),
        0 <= j < pages[p].len(),
        chapter_entry(pages[p][j], base, manga_id) is Some,
    ensures
        0 <= k < chapters_of_pages(pages, base, manga_id).len(),
        chapters_of_pages(pages, base, manga_id)[k] == chapter_entry(
            pages[p][j],
            base,
            manga_id,
        )->Some_0,
    decreases pages.len(),
{
    let head = chapters_of_pages(pages.drop_last(), base, manga_id);
    if p < pages.len() - 1 {
        assert(pages.drop_last()[p] == pages[p]);
        lemma_free_chapters_are_kept(pages.drop_last(), base, manga_id, p, j)
    } else {
        let k = lemma_page_keeps_free_chapter(pages.last()@, base, manga_id, j);
        head.len() + k
    }
}

/// Every free chapter of a page is among the chapters that the page
/// gives: the lemma names its place.
pub proof fn lemma_page_keeps_free_chapter(
    records: Seq<ChapterRecord>,
    base: Seq<char>,
    manga_id: Seq<char>,
    j: int,
) -> (k: int)
    requires
        0 <= j < records.len(),
        chapter_entry(records[j], base, manga_id) is Some,
    ensures
        0 <= k < chapter_entries(records, base, manga_id).len(),
        chapter_entries(records, base, manga_id)[k] == chapter_entry(
            records[j],
            base,
            manga_id,
        )->Some_0,
    decreases records.len(),
{
    let head = chapter_entries(records.drop_last(), base, manga_id);
    if j < records.len() - 1 {
        assert(records.drop_last()[j] == records[j]);
        lemma_page_keeps_free_chapter(records.drop_last(), base, manga_id, j)
    } else {
        head.len() as int
    }
}

/// The chapters of the pages come page after page: those of the pages
/// before a page stand, in their order, before those of the page.
pub proof fn lemma_chapters_in_page_order(
    pages: Seq<Vec<ChapterRecord>>,
    base: Seq<char>,
    manga_id: Seq<char>,
    n: int,
)
    requires
        0 <= n <= pages.len(),
    ensures
        chapters_of_pages(pages.take(n), base, manga_id).is_prefix_of(
            chapters_of_pages(pages, base, manga_id),
        ),
    decreases pages.len() - n,
{
    if n == pages.len() {
        assert(pages.take(n) == pages);
    } else {
        lemma_chapters_in_page_order(pages, base, manga_id, n + 1);
        assert(pages.take(n + 1).drop_last() == pages.take(n));
    }
}

/// The key of the manga in the key of a chapter: what stands before its
/// first hyphen. A key without a hyphen names none.
pub open spec fn manga_in_key(chapter_key: Seq<char>) -> Option<Seq<char>> {
    let parts = split(chapter_key, '-');
    if parts.len() > 1 {
        Some(parts[0])
    } else {
        None
    }
}

/// The address of the page of a chapter on the site, or `None` for a
/// chapter whose key names no manga, which has no pages.
pub fn get_chapter_url(base_url: &str, chapter_key: &str) -> (r: Option<String>)
    ensures
        r.deep_view() == match manga_in_key(chapter_key@) {
            Some(id) => Some(base_url@ + "/series/"@ + id + "/"@ + chapter_key@),
            None => None,
        },
{
    let parts = split_on(&chars_of(chapter_key), '-');
    if parts.len() > 1 {
        assert(parts.deep_view()[0] == parts[0].deep_view());
        assert(parts[0].deep_view() =~= parts[0]@);
        let mut url = chars_of(base_url);
        append_str(&mut url, "/series/");
        append(&mut url, &parts[0]);
        append_str(&mut url, "/");
        append_str(&mut url, chapter_key);
        Some(string_of(&url))
    } else {
        None
    }
}

/// The page that an image stands for: its address is the data source,
/// or the source where it has no data source; images without either,
/// icons and banners stand for none.
pub open spec fn page_entry(image: (String, String)) -> Option<PageView> {
    let url = if image.0@.len() == 0 {
        image.1@
    } else {
        image.0@
    };
    if url.len() > 0 && !contains(url, "icon.png"@) && !contains(url, "banner"@) {
        Some(PageView { url, context: None })
    } else {
        None
    }
}

/// The pages of the images, in order.
pub open spec fn page_entries(images: Seq<(String, String)>) -> Seq<PageView>
    decreases images.len(),
{
    if images.len() == 0 {
        Seq::empty()
    } else {
        let head = page_entries(images.drop_last());
        match page_entry(images.last()) {
            Some(p) => head.push(p),
            None => head,
        }
    }
}

/// The pages of a chapter, from the data source and the source of each
/// image of its page, either empty where the image has none.
pub fn parse_page_list(images: &Vec<(String, String)>) -> (out: Vec<Page>)
    ensures
        out.deep_view() == page_entries(images@),
{
    let icon = chars_of("icon.png");
    let banner = chars_of("banner");
    let mut out: Vec<Page> = Vec::new();
    let mut i: usize = 0;
    assert(images@.take(0) == Seq::<(String, String)>::empty());
    assert(out.deep_view() == Seq::<PageView>::empty());
    while i < images.len()
        invariant
            i <= images.len(),
            icon@ == "icon.png"@,
            banner@ == "banner"@,
            out.deep_view() == page_entries(images@.take(i as int)),
        decreases images.len() - i,
    {
        assert(images@.take(i + 1).drop_last() == images@.take(i as int));
        let ghost before = out.deep_view();
        let data_src = chars_of(images[i].0.as_str());
        let url = if data_src.len() == 0 {
            chars_of(images[i].1.as_str())
        } else {
            data_src
        };
        if url.len() > 0 && !contains_sub(&url, &icon) && !contains_sub(&url, &banner) {
            let page = Page { url: string_of(&url), context: None };
            out.push(page);
            assert(out.deep_view() == before.push(page@));
        }
        i += 1;
    }
    assert(images@.take(images.len() as int) == images@);
    out
}

} // verus!
