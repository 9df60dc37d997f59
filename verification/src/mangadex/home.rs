//! The parts of the home page, and the requests that fill them.

use vstd::prelude::*;
use crate::dates::{utc_date_time, utc_text};
use crate::mangadex::models::{tag_names, rating_of, DexChapter, DexCustomList, DexManga};
use crate::mangadex::{
    basic_entries, chapter_manga_ids, get_list_manga_ids, into_basic_list, list_manga_ids, API_URL,
};
use crate::model::{
    ChapterView, Manga, MangaView, MangaWithChapter, SourceError, SourceErrorView,
};
use crate::sets::{new_set, set_insert, set_strings};
use crate::text::{append_str, chars_of, join2, join3, str_eq, string_of};

verus! {

/// How many seconds back a manga counts as new: about one month.
pub const NEW_TITLE_SECONDS: i64 = 2630000;

/// How many of the latest chapters the home page shows.
pub const LATEST_COUNT: usize = 6;

/// The ids of the custom lists that the home page shows, in order: the
/// self-published, the picks of the staff, what supporters feature, and
/// the seasonal.
pub fn get_custom_lists() -> (out: Vec<String>)
    ensures
        out.deep_view() == seq![
            "f66ebc10-ef89-46d1-be96-bb704559e04a"@,
            "805ba886-dd99-4aa4-b460-4bd7c7b71352"@,
            "5c5e6e39-0b4b-413e-be59-27b1ba03d1b9"@,
            "a5ba5473-07b2-4d0a-aefd-90d9d4a04521"@,
        ],
{
    let mut out: Vec<String> = Vec::new();
    out.push(String::from_str("f66ebc10-ef89-46d1-be96-bb704559e04a"));
    out.push(String::from_str("805ba886-dd99-4aa4-b460-4bd7c7b71352"));
    out.push(String::from_str("5c5e6e39-0b4b-413e-be59-27b1ba03d1b9"));
    out.push(String::from_str("a5ba5473-07b2-4d0a-aefd-90d9d4a04521"));
    assert(out.deep_view() =~= seq![
        "f66ebc10-ef89-46d1-be96-bb704559e04a"@,
        "805ba886-dd99-4aa4-b460-4bd7c7b71352"@,
        "5c5e6e39-0b4b-413e-be59-27b1ba03d1b9"@,
        "a5ba5473-07b2-4d0a-aefd-90d9d4a04521"@,
    ]);
    out
}

/// A custom list as the home page shows it: its id, its name, and the ids
/// of its manga.
#[derive(Clone, Debug, PartialEq, Eq)]
pub struct CustomList {
    pub id: String,
    pub name: String,
    pub entries: Vec<String>,
}

/// A custom list as the home page shows it.
pub fn get_custom_list(list: &DexCustomList) -> (out: CustomList)
    ensures
        out.id@ == list.id@,
        out.name@ == list.attributes.name@,
        out.entries.deep_view() == list_manga_ids(*list),
{
    CustomList {
        id: list.id.clone(),
        name: list.attributes.name.clone(),
        entries: get_list_manga_ids(list),
    }
}

/// The names of the lists, in order.
pub open spec fn list_names(lists: Seq<CustomList>) -> Seq<Seq<char>> {
    Seq::new(lists.len(), |i: int| lists[i].name@)
}

/// The titles of the parts of the home page, in the order in which they
/// are laid out before any of them is filled: the popular new titles, the
/// latest updates, the custom lists that were answered, and what was added
/// recently.
pub fn get_layout_titles(lists: &Vec<CustomList>) -> (out: Vec<String>)
    ensures
        out.deep_view() == seq!["Popular New Titles"@, "Latest Updates"@] + list_names(lists@)
            + seq!["Recently Added"@],
{
    let mut out: Vec<String> = Vec::new();
    out.push(String::from_str("Popular New Titles"));
    out.push(String::from_str("Latest Updates"));
    let mut i: usize = 0;
    while i < lists.len()
        invariant
            i <= lists.len(),
            out.len() == i + 2,
            out[0]@ == "Popular New Titles"@,
            out[1]@ == "Latest Updates"@,
            forall|j: int| 0 <= j < i ==> out[j + 2]@ == lists[j].name@,
        decreases lists.len() - i,
    {
        out.push(lists[i].name.clone());
        i += 1;
    }
    out.push(String::from_str("Recently Added"));
    assert(out.deep_view() =~= seq!["Popular New Titles"@, "Latest Updates"@] + list_names(lists@)
        + seq!["Recently Added"@]);
    out
}

/// How the date in the address of the popular new titles is written:
/// year, month and day with `-` between, `T`, and hours, minutes and
/// seconds with `:` between.
pub const DATE_PATTERN: &'static str = "%Y-%m-%dT%H:%M:%S";

/// The address of the popular new titles: the most followed among the
/// manga with chapters that were created since the given date.
pub fn get_popular_url_since(since: &str, content_ratings: &str) -> (url: String)
    ensures
        url@ == API_URL@
            + "/manga?includes[]=cover_art&includes[]=artist&includes[]=author&order[followedCount]=desc&hasAvailableChapters=true&createdAtSince="@
            + since@ + content_ratings@,
{
    let mut out = chars_of(API_URL);
    append_str(
        &mut out,
        "/manga?includes[]=cover_art&includes[]=artist&includes[]=author&order[followedCount]=desc&hasAvailableChapters=true&createdAtSince=",
    );
    append_str(&mut out, since);
    append_str(&mut out, content_ratings);
    string_of(&out)
}

/// The address of the popular new titles at the time `now`, in seconds
/// since the start of 1970: that of `get_popular_url_since` for the date
/// one month before `now`, written by `DATE_PATTERN`. A time that no date
/// can be told for gives none.
pub fn get_popular_url(now: i64, content_ratings: &str) -> (r: Option<String>)
    ensures
        r.deep_view() == if now - NEW_TITLE_SECONDS < i64::MIN {
            None
        } else {
            match utc_text((now - NEW_TITLE_SECONDS) as i64, DATE_PATTERN@) {
                Some(since) => Some(
                    API_URL@
                        + "/manga?includes[]=cover_art&includes[]=artist&includes[]=author&order[followedCount]=desc&hasAvailableChapters=true&createdAtSince="@
                        + since + content_ratings@,
                ),
                None => None,
            }
        },
{
    if now < i64::MIN + NEW_TITLE_SECONDS {
        return None;
    }
    match utc_date_time(now - NEW_TITLE_SECONDS, DATE_PATTERN) {
        Some(since) => Some(get_popular_url_since(since.as_str(), content_ratings)),
        None => None,
    }
}

/// The address of what was added recently.
pub fn get_recent_url(content_ratings: &str) -> (url: String)
    ensures
        url@ == API_URL@ + "/manga?limit=15&order[createdAt]=desc&includes[]=cover_art"@
            + content_ratings@,
{
    join3(API_URL, "/manga?limit=15&order[createdAt]=desc&includes[]=cover_art", content_ratings)
}

/// The address of the latest chapters for the home page.
pub fn get_latest_url(languages: &str, content_ratings: &str) -> (url: String)
    ensures
        url@ == API_URL@ + "/chapter?includes[]=scanlation_group&limit=15&order[readableAt]=desc"@
            + languages@ + content_ratings@,
{
    let mut out = chars_of(API_URL);
    append_str(&mut out, "/chapter?includes[]=scanlation_group&limit=15&order[readableAt]=desc");
    append_str(&mut out, languages);
    append_str(&mut out, content_ratings);
    string_of(&out)
}

/// A manga as the row of popular new titles shows it: with description,
/// tags and rating, beside key, title and cover.
pub open spec fn popular_entry(m: DexManga, quality: Seq<char>) -> MangaView {
    MangaView {
        cover: m.cover_url(quality),
        description: m.attributes.description.text(),
        tags: Some(tag_names(m.attributes.tags@)),
        content_rating: rating_of(m.attributes.content_rating),
        ..MangaView::bare(m.id@, m.title_text())
    }
}

/// The manga of the row of popular new titles, in order; a manga without
/// a title to show is not listed.
pub open spec fn popular_entries(list: Seq<DexManga>, quality: Seq<char>) -> Seq<MangaView>
    decreases list.len(),
{
    if list.len() == 0 {
        Seq::empty()
    } else {
        let head = popular_entries(list.drop_last(), quality);
        if list.last().attributes.title.text() is Some {
            head.push(popular_entry(list.last(), quality))
        } else {
            head
        }
    }
}

/// The manga of the row of popular new titles.
pub fn get_popular(list: &Vec<DexManga>, cover_quality: &str) -> (out: Vec<Manga>)
    ensures
        out.deep_view() == popular_entries(list@, cover_quality@),
{
    let mut out: Vec<Manga> = Vec::new();
    let mut i: usize = 0;
    assert(list@.take(0) == Seq::<DexManga>::empty());
    assert(out.deep_view() == Seq::<MangaView>::empty());
    while i < list.len()
        invariant
            i <= list.len(),
            out.deep_view() == popular_entries(list@.take(i as int), cover_quality@),
        decreases list.len() - i,
    {
        assert(list@.take(i + 1).drop_last() == list@.take(i as int));
        let ghost before = out.deep_view();
        match list[i].title() {
            Some(title) => {
                let mut manga = Manga::bare(list[i].id.clone(), title);
                manga.cover = list[i].cover(cover_quality);
                manga.description = list[i].description();
                manga.tags = Some(list[i].tags());
                manga.content_rating = list[i].content_rating();
                out.push(manga);
                assert(out.deep_view() == before.push(manga@));
            },
            None => {},
        }
        i += 1;
    }
    assert(list@.take(list.len() as int) == list@);
    out
}

/// The row of popular new titles from the outcome of its request: the
/// manga of the answer, or the error for an answer that could not be
/// decoded.
pub fn get_popular_row(answer: Option<&Vec<DexManga>>, cover_quality: &str) -> (r: Result<
    Vec<Manga>,
    SourceError,
>)
    ensures
        match answer {
            Some(list) => r is Ok && r->Ok_0.deep_view() == popular_entries(
                list@,
                cover_quality@,
            ),
            None => r is Err && r->Err_0@ == SourceErrorView::Message(
                "Failed to parse popular manga"@,
            ),
        },
{
    match answer {
        Some(list) => Ok(get_popular(list, cover_quality)),
        None => Err(SourceError::Message(String::from_str("Failed to parse popular manga"))),
    }
}

/// The row of what was added recently from the outcome of its request:
/// the manga of the answer, or the error for an answer that could not be
/// decoded.
pub fn get_recent_row(answer: Option<Vec<DexManga>>, cover_quality: &str) -> (r: Result<
    Vec<Manga>,
    SourceError,
>)
    ensures
        match answer {
            Some(list) => r is Ok && r->Ok_0.deep_view() == basic_entries(list@, cover_quality@),
            None => r is Err && r->Err_0@ == SourceErrorView::Message(
                "Failed to parse recent manga"@,
            ),
        },
{
    match answer {
        Some(list) => Ok(get_recent(list, cover_quality)),
        None => Err(SourceError::Message(String::from_str("Failed to parse recent manga"))),
    }
}

/// The manga of the row of what was added recently.
pub fn get_recent(list: Vec<DexManga>, cover_quality: &str) -> (out: Vec<Manga>)
    ensures
        out.deep_view() == basic_entries(list@, cover_quality@),
{
    into_basic_list(list, cover_quality)
}

/// The chapters that are the first of their manga among the chapters:
/// those that name a manga that no earlier chapter names.
pub open spec fn first_of_manga(chapters: Seq<DexChapter>) -> Seq<DexChapter>
    decreases chapters.len(),
{
    if chapters.len() == 0 {
        Seq::empty()
    } else {
        let head = first_of_manga(chapters.drop_last());
        match chapters.last().manga() {
            Some(id) => if chapter_manga_ids(chapters.drop_last()).contains(id) {
                head
            } else {
                head.push(chapters.last())
            },
            None => head,
        }
    }
}

/// The first `n` items of a list, or all of it where it has fewer.
pub open spec fn at_most<T>(s: Seq<T>, n: int) -> Seq<T> {
    if s.len() <= n {
        s
    } else {
        s.take(n)
    }
}

/// What is first of its manga among the first chapters stays so among
/// all of them, and comes first.
pub proof fn lemma_first_of_manga_prefix(chapters: Seq<DexChapter>, n: int)
    requires
        0 <= n <= chapters.len(),
    ensures
        first_of_manga(chapters.take(n)).is_prefix_of(first_of_manga(chapters)),
    decreases chapters.len() - n,
{
    if n == chapters.len() {
        assert(chapters.take(n) == chapters);
    } else {
        lemma_first_of_manga_prefix(chapters, n + 1);
        assert(chapters.take(n + 1).drop_last() == chapters.take(n));
    }
}

/// Among the chapters that are the first of their manga, every chapter
/// names a manga, and no two name the same.
pub proof fn lemma_first_of_manga_distinct(chapters: Seq<DexChapter>)
    ensures
        forall|i: int|
            0 <= i < first_of_manga(chapters).len() ==> (#[trigger] first_of_manga(
                chapters,
            )[i]).manga() is Some && chapter_manga_ids(chapters).contains(
                first_of_manga(chapters)[i].manga()->Some_0,
            ),
        forall|i: int, j: int|
            0 <= i < j < first_of_manga(chapters).len() ==> first_of_manga(chapters)[i].manga()
                != first_of_manga(chapters)[j].manga(),
    decreases chapters.len(),
{
    if chapters.len() > 0 {
        let rest = chapters.drop_last();
        let head = first_of_manga(rest);
        let out = first_of_manga(chapters);
        let head_ids = chapter_manga_ids(rest);
        let ids = chapter_manga_ids(chapters);
        lemma_first_of_manga_distinct(rest);
        assert forall|x: Seq<char>| head_ids.contains(x) implies ids.contains(x) by {
            let k = choose|k: int| 0 <= k < head_ids.len() && head_ids[k] == x;
            assert(ids[k] == x);
        }
        assert forall|i: int| 0 <= i < out.len() implies (#[trigger] out[i]).manga() is Some
            && ids.contains(out[i].manga()->Some_0) by {
            if i < head.len() {
                assert(out[i] == head[i]);
            } else {
                assert(ids[ids.len() - 1] == out[i].manga()->Some_0);
            }
        }
        assert forall|i: int, j: int| 0 <= i < j < out.len() implies out[i].manga()
            != out[j].manga() by {
            if j < head.len() {
                assert(out[i] == head[i] && out[j] == head[j]);
            } else {
                assert(out[i] == head[i]);
                assert(head_ids.contains(head[i].manga()->Some_0));
            }
        }
    }
}

/// The latest updates show one chapter for a manga: there are six at most,
/// each names a manga, and no two name the same.
pub proof fn lemma_latest_one_per_manga(chapters: Seq<DexChapter>)
    ensures
        at_most(first_of_manga(chapters), 6).len() <= 6,
        forall|i: int|
            0 <= i < at_most(first_of_manga(chapters), 6).len() ==> (#[trigger] at_most(
                first_of_manga(chapters),
                6,
            )[i]).manga() is Some,
        forall|i: int, j: int|
            0 <= i < j < at_most(first_of_manga(chapters), 6).len() ==> at_most(
                first_of_manga(chapters),
                6,
            )[i].manga() != at_most(first_of_manga(chapters), 6)[j].manga(),
{
    lemma_first_of_manga_distinct(chapters);
    let all = first_of_manga(chapters);
    let out = at_most(all, 6);
    assert forall|i: int| 0 <= i < out.len() implies (#[trigger] out[i]).manga() is Some by {
        assert(out[i] == all[i]);
    }
    assert forall|i: int, j: int| 0 <= i < j < out.len() implies out[i].manga()
        != out[j].manga() by {
        assert(out[i] == all[i] && out[j] == all[j]);
    }
}

/// The chapters that the home page shows as the latest updates: one for
/// each manga, its first among the chapters, and six at most. Chapters
/// that name no manga are left out.
pub fn get_latest_chapters(chapters: Vec<DexChapter>) -> (out: Vec<DexChapter>)
    ensures
        out@ == at_most(first_of_manga(chapters@), 6),
{
    let ghost all = chapters@;
    let n: usize = chapters.len();
    let mut rest = chapters;
    let mut seen = new_set();
    let mut out: Vec<DexChapter> = Vec::new();
    let mut done: usize = 0;
    assert(all.take(0) == Seq::<DexChapter>::empty());
    while rest.len() > 0 && out.len() < LATEST_COUNT
        invariant
            done + rest.len() == all.len(),
            all.len() == n,
            rest@ == all.skip(done as int),
            out@ == first_of_manga(all.take(done as int)),
            out.len() <= 6,
            forall|x: Seq<char>|
                set_strings(seen).contains(x) <==> chapter_manga_ids(all.take(done as int)).contains(
                    x,
                ),
        decreases rest.len(),
    {
        let ghost head = all.take(done as int);
        let ghost next = all.take(done + 1);
        assert(next.drop_last() == head);
        assert(next.last() == rest@[0]);
        let item = rest.remove(0);
        assert(rest@ == all.skip(done + 1));
        match item.manga_id() {
            Some(id) => {
                let fresh = set_insert(&mut seen, id);
                if fresh {
                    out.push(item);
                }
                assert forall|x: Seq<char>|
                    set_strings(seen).contains(x) <==> chapter_manga_ids(next).contains(x) by {
                    let ids = chapter_manga_ids(next);
                    let head_ids = chapter_manga_ids(head);
                    assert(ids == head_ids.push(item.manga()->Some_0));
                    if ids.contains(x) {
                        let k = choose|k: int| 0 <= k < ids.len() && ids[k] == x;
                        if k < head_ids.len() {
                            assert(head_ids[k] == x);
                        }
                    }
                    if head_ids.contains(x) {
                        let k = choose|k: int| 0 <= k < head_ids.len() && head_ids[k] == x;
                        assert(ids[k] == x);
                    }
                    assert(ids[ids.len() - 1] == item.manga()->Some_0);
                }
            },
            None => {},
        }
        done += 1;
    }
    proof {
        lemma_first_of_manga_prefix(all, done as int);
        if rest.len() == 0 {
            assert(all.take(done as int) == all);
        } else {
            assert(out@ =~= first_of_manga(all).take(6));
        }
    }
    out
}

/// The update that a chapter makes with its manga among those given: the
/// first with the chapter's manga id for its key. A chapter whose manga
/// is not among them makes none.
pub open spec fn update_entry(chapter: DexChapter, manga: Seq<MangaView>) -> Option<
    (MangaView, ChapterView),
> {
    match chapter.manga() {
        Some(id) => match first_with_key(manga, id, 0) {
            Some(i) => Some((manga[i], chapter.chapter())),
            None => None,
        },
        None => None,
    }
}

/// Position of the first manga with the given key at or after `i`.
pub open spec fn first_with_key(manga: Seq<MangaView>, key: Seq<char>, i: int) -> Option<int>
    decreases manga.len() - i,
{
    if i < 0 || i >= manga.len() {
        None
    } else if manga[i].key == key {
        Some(i)
    } else {
        first_with_key(manga, key, i + 1)
    }
}

/// The updates of the chapters, in order.
pub open spec fn update_entries(chapters: Seq<DexChapter>, manga: Seq<MangaView>) -> Seq<
    (MangaView, ChapterView),
>
    decreases chapters.len(),
{
    if chapters.len() == 0 {
        Seq::empty()
    } else {
        let head = update_entries(chapters.drop_last(), manga);
        match update_entry(chapters.last(), manga) {
            Some(u) => head.push(u),
            None => head,
        }
    }
}

/// Position of the first manga with the given key.
pub fn find_manga(manga: &Vec<Manga>, key: &str) -> (r: Option<usize>)
    ensures
        match r {
            Some(i) => first_with_key(manga.deep_view(), key@, 0) == Some(i as int) && i
                < manga.len(),
            None => first_with_key(manga.deep_view(), key@, 0) is None,
        },
{
    let mut i: usize = 0;
    while i < manga.len()
        invariant
            i <= manga.len(),
            first_with_key(manga.deep_view(), key@, 0) == first_with_key(
                manga.deep_view(),
                key@,
                i as int,
            ),
        decreases manga.len() - i,
    {
        assert(manga.deep_view()[i as int] == manga[i as int]@);
        if str_eq(manga[i].key.as_str(), key) {
            return Some(i);
        }
        i += 1;
    }
    None
}

/// The latest updates of the home page: each chapter with its manga, in
/// the order of the chapters. Chapters whose manga the interface did not
/// answer are left out.
pub fn get_latest_updates(chapters: Vec<DexChapter>, manga: &Vec<Manga>) -> (out: Vec<
    MangaWithChapter,
>)
    ensures
        out.deep_view() == update_entries(chapters@, manga.deep_view()),
{
    let ghost all = chapters@;
    let n: usize = chapters.len();
    let mut rest = chapters;
    let mut out: Vec<MangaWithChapter> = Vec::new();
    let mut done: usize = 0;
    assert(all.take(0) == Seq::<DexChapter>::empty());
    assert(out.deep_view() == Seq::<(MangaView, ChapterView)>::empty());
    while rest.len() > 0
        invariant
            done + rest.len() == all.len(),
            all.len() == n,
            rest@ == all.skip(done as int),
            out.deep_view() == update_entries(all.take(done as int), manga.deep_view()),
        decreases rest.len(),
    {
        assert(all.take(done + 1).drop_last() == all.take(done as int));
        assert(all.take(done + 1).last() == rest@[0]);
        let ghost before = out.deep_view();
        let item = rest.remove(0);
        assert(rest@ == all.skip(done + 1));
        match item.manga_id() {
            Some(id) => match find_manga(manga, id.as_str()) {
                Some(i) => {
                    assert(manga.deep_view()[i as int] == manga[i as int]@);
                    let entry = MangaWithChapter {
                        manga: manga[i].copy(),
                        chapter: item.into_chapter(),
                    };
                    out.push(entry);
                    assert(out.deep_view() == before.push(entry@));
                },
                None => {},
            },
            None => {},
        }
        done += 1;
    }
    assert(all.take(all.len() as int) == all);
    out
}

/// The id of the listing that shows a custom list in full.
pub fn get_list_listing_id(list_id: &str) -> (id: String)
    ensures
        id@ == "list-"@ + list_id@,
{
    join2("list-", list_id)
}

} // verus!
