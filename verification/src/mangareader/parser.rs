//! What the template reads from listings, detail pages and chapter lists.

use vstd::prelude::*;
use crate::decimal::{decimal_text, decimal_value, parse_decimal, pow10, Decimal};
use crate::model::{
    Chapter, ChapterView, ContentRating, Manga, MangaStatus, MangaView, SourceError,
    SourceErrorView, Viewer,
};
use crate::text::{
    append, append_str, chars_of, clone_opt, clone_strings, contains, contains_sub,
    digits_and_points, find_char_from, has_string, index_of, keep_digits_and_points,
    lemma_index_of_is, lemma_index_of_none, lowercase, remove_all, removed_all, seq_eq, slice,
    str_eq, str_strip_prefix, str_strip_prefix_or_all, string_of, strip_prefix, to_lowercase, trim,
    trimmed,
};

verus! {

/// What one poster of a search result shows: the target of its link, and
/// of its image, where it has one, the alternative text and the source.
#[derive(Clone, Debug, PartialEq, Eq)]
pub struct Poster {
    pub href: Option<String>,
    pub image: bool,
    pub alt: Option<String>,
    pub cover: Option<String>,
}

/// The manga that a poster stands for: it needs a link, an image and the
/// image's alternative text, which is the title. The key is the link
/// without `base`, or the whole link where it does not begin with `base`.
pub open spec fn poster_entry(item: Poster, base: Seq<char>) -> Option<MangaView> {
    match (item.href.deep_view(), item.alt.deep_view()) {
        (Some(href), Some(title)) => if item.image {
            Some(
                MangaView {
                    cover: item.cover.deep_view(),
                    ..MangaView::bare(
                        match strip_prefix(href, base) {
                            Some(k) => k,
                            None => href,
                        },
                        title,
                    )
                },
            )
        } else {
            None
        },
        _ => None,
    }
}

/// The manga of a search result, in the order of the posters.
pub open spec fn poster_entries(items: Seq<Poster>, base: Seq<char>) -> Seq<MangaView>
    decreases items.len(),
{
    if items.len() == 0 {
        Seq::empty()
    } else {
        let head = poster_entries(items.drop_last(), base);
        match poster_entry(items.last(), base) {
            Some(m) => head.push(m),
            None => head,
        }
    }
}

/// The manga that a poster stands for, if any.
pub fn parse_poster(item: &Poster, base_url: &str) -> (r: Option<Manga>)
    ensures
        r.deep_view() == poster_entry(*item, base_url@),
{
    let href = match &item.href {
        Some(h) => h,
        None => {
            return None;
        },
    };
    if !item.image {
        return None;
    }
    let title = match &item.alt {
        Some(t) => t.clone(),
        None => {
            return None;
        },
    };
    let mut manga = Manga::bare(str_strip_prefix_or_all(href.as_str(), base_url), title);
    manga.cover = clone_opt(&item.cover);
    Some(manga)
}

/// Turns the posters of a search result into manga. Posters without a
/// link, an image or a title are dropped; the rest keep their order.
pub fn parse_response(items: &Vec<Poster>, base_url: &str) -> (out: Vec<Manga>)
    ensures
        out.deep_view() == poster_entries(items@, base_url@),
{
    let mut out: Vec<Manga> = Vec::new();
    let mut i: usize = 0;
    assert(items@.take(0) == Seq::<Poster>::empty());
    assert(out.deep_view() == Seq::<MangaView>::empty());
    while i < items.len()
        invariant
            i <= items.len(),
            out.deep_view() == poster_entries(items@.take(i as int), base_url@),
        decreases items.len() - i,
    {
        assert(items@.take(i + 1).drop_last() == items@.take(i as int));
        let ghost before = out.deep_view();
        match parse_poster(&items[i], base_url) {
            Some(m) => {
                out.push(m);
                assert(out.deep_view() == before.push(m@));
            },
            None => {},
        }
        i += 1;
    }
    assert(items@.take(items.len() as int) == items@);
    out
}

/// What one item of a listing shows: the target of its poster link, the
/// text of its name, and of its poster image, where it has one, the source.
#[derive(Clone, Debug, PartialEq, Eq)]
pub struct ListItem {
    pub href: Option<String>,
    pub name: Option<String>,
    pub image: bool,
    pub cover: Option<String>,
}

/// The manga that a listing item stands for: it needs a link, a name and
/// a poster image.
pub open spec fn list_entry(item: ListItem, base: Seq<char>) -> Option<MangaView> {
    match (item.href.deep_view(), item.name.deep_view()) {
        (Some(href), Some(title)) => if item.image {
            Some(
                MangaView {
                    cover: item.cover.deep_view(),
                    ..MangaView::bare(
                        match strip_prefix(href, base) {
                            Some(k) => k,
                            None => href,
                        },
                        title,
                    )
                },
            )
        } else {
            None
        },
        _ => None,
    }
}

/// The manga of a listing, in the order of its items.
pub open spec fn list_entries(items: Seq<ListItem>, base: Seq<char>) -> Seq<MangaView>
    decreases items.len(),
{
    if items.len() == 0 {
        Seq::empty()
    } else {
        let head = list_entries(items.drop_last(), base);
        match list_entry(items.last(), base) {
            Some(m) => head.push(m),
            None => head,
        }
    }
}

/// The manga that a listing item stands for, if any.
pub fn parse_list_item(item: &ListItem, base_url: &str) -> (r: Option<Manga>)
    ensures
        r.deep_view() == list_entry(*item, base_url@),
{
    let href = match &item.href {
        Some(h) => h,
        None => {
            return None;
        },
    };
    let title = match &item.name {
        Some(t) => t.clone(),
        None => {
            return None;
        },
    };
    if !item.image {
        return None;
    }
    let mut manga = Manga::bare(str_strip_prefix_or_all(href.as_str(), base_url), title);
    manga.cover = clone_opt(&item.cover);
    Some(manga)
}

/// Turns the items of a listing into manga. Items without a link, a name
/// or a poster image are dropped; the rest keep their order.
pub fn parse_manga_list(items: &Vec<ListItem>, base_url: &str) -> (out: Vec<Manga>)
    ensures
        out.deep_view() == list_entries(items@, base_url@),
{
    let mut out: Vec<Manga> = Vec::new();
    let mut i: usize = 0;
    assert(items@.take(0) == Seq::<ListItem>::empty());
    assert(out.deep_view() == Seq::<MangaView>::empty());
    while i < items.len()
        invariant
            i <= items.len(),
            out.deep_view() == list_entries(items@.take(i as int), base_url@),
        decreases items.len() - i,
    {
        assert(items@.take(i + 1).drop_last() == items@.take(i as int));
        let ghost before = out.deep_view();
        match parse_list_item(&items[i], base_url) {
            Some(m) => {
                out.push(m);
                assert(out.deep_view() == before.push(m@));
            },
            None => {},
        }
        i += 1;
    }
    assert(items@.take(items.len() as int) == items@);
    out
}

/// What the page of a manga shows of its details. `found` tells whether
/// the page has the details block at all. `author_text` is the text of
/// the author entry and `author_names` the names that it links, both
/// `None` where the page has no such entry or it links no name. `kind` is
/// the text of the type entry.
#[derive(Clone, Debug, PartialEq, Eq)]
pub struct DetailsPage {
    pub found: bool,
    pub name: Option<String>,
    pub cover: Option<String>,
    pub author_text: Option<String>,
    pub author_names: Option<Vec<String>>,
    pub description: Option<String>,
    pub tags: Option<Vec<String>>,
    pub status: Option<String>,
    pub kind: Option<String>,
}

/// Whether a name is marked as that of the artist in the author text.
pub open spec fn is_artist(text: Seq<char>, name: Seq<char>) -> bool {
    contains(text, name + " (Art)"@)
}

/// A credited name as it is listed: without commas.
pub open spec fn credit_name(name: Seq<char>) -> Seq<char> {
    remove_all(name, ","@)
}

/// The names that are, or are not, marked as artists, in order.
pub open spec fn credits(text: Seq<char>, names: Seq<Seq<char>>, artists: bool) -> Seq<Seq<char>>
    decreases names.len(),
{
    if names.len() == 0 {
        Seq::empty()
    } else {
        let head = credits(text, names.drop_last(), artists);
        if is_artist(text, names.last()) == artists {
            head.push(credit_name(names.last()))
        } else {
            head
        }
    }
}

/// The status that a lower case word names.
pub open spec fn status_word(word: Seq<char>) -> MangaStatus {
    if word == "ongoing"@ || word == "publishing"@ || word == "releasing"@ {
        MangaStatus::Ongoing
    } else if word == "completed"@ || word == "finished"@ {
        MangaStatus::Completed
    } else if word == "on-hiatus"@ || word == "on hiatus"@ {
        MangaStatus::Hiatus
    } else if word == "canceled"@ || word == "discontinued"@ {
        MangaStatus::Cancelled
    } else {
        MangaStatus::Unknown
    }
}

/// The layout that a lower case type word names.
pub open spec fn viewer_word(word: Seq<char>) -> Viewer {
    if word == "manhwa"@ || word == "manhua"@ {
        Viewer::Webtoon
    } else if word == "comic"@ {
        Viewer::LeftToRight
    } else {
        Viewer::RightToLeft
    }
}

/// The rating that tags imply: an explicit tag rates as not safe, else
/// the ecchi tag as suggestive, else the manga is safe.
pub open spec fn rating_of(tags: Seq<Seq<char>>) -> ContentRating {
    if tags.contains("Hentai"@) || tags.contains("エロい"@) {
        ContentRating::NSFW
    } else if tags.contains("Ecchi"@) {
        ContentRating::Suggestive
    } else {
        ContentRating::Safe
    }
}

/// Whether the page credits anyone: whether it has both the author text
/// and the names.
pub open spec fn has_credits(page: DetailsPage) -> bool {
    page.author_text is Some && page.author_names is Some
}

/// A manga with the details of its page filled in. The words for status
/// and type are judged in lower case; the rating follows from the tags
/// alone.
pub open spec fn with_details(manga: MangaView, page: DetailsPage) -> MangaView {
    MangaView {
        title: match page.name.deep_view() {
            Some(t) => t,
            None => manga.title,
        },
        cover: page.cover.deep_view(),
        authors: if has_credits(page) {
            Some(credits(page.author_text->Some_0@, page.author_names->Some_0.deep_view(), false))
        } else {
            None
        },
        artists: if has_credits(page) {
            Some(credits(page.author_text->Some_0@, page.author_names->Some_0.deep_view(), true))
        } else {
            None
        },
        description: page.description.deep_view(),
        tags: page.tags.deep_view(),
        status: match page.status.deep_view() {
            Some(s) => status_word(lowercase(s)),
            None => MangaStatus::Unknown,
        },
        content_rating: rating_of(
            match page.tags.deep_view() {
                Some(t) => t,
                None => Seq::empty(),
            },
        ),
        viewer: match page.kind.deep_view() {
            Some(k) => viewer_word(lowercase(k)),
            None => Viewer::RightToLeft,
        },
        ..manga
    }
}

/// The status that a lower case word names.
pub fn status_from_word(word: &str) -> (r: MangaStatus)
    ensures
        r == status_word(word@),
{
    if str_eq(word, "ongoing") || str_eq(word, "publishing") || str_eq(word, "releasing") {
        MangaStatus::Ongoing
    } else if str_eq(word, "completed") || str_eq(word, "finished") {
        MangaStatus::Completed
    } else if str_eq(word, "on-hiatus") || str_eq(word, "on hiatus") {
        MangaStatus::Hiatus
    } else if str_eq(word, "canceled") || str_eq(word, "discontinued") {
        MangaStatus::Cancelled
    } else {
        MangaStatus::Unknown
    }
}

/// The layout that a lower case type word names.
pub fn viewer_from_word(word: &str) -> (r: Viewer)
    ensures
        r == viewer_word(word@),
{
    if str_eq(word, "manhwa") || str_eq(word, "manhua") {
        Viewer::Webtoon
    } else if str_eq(word, "comic") {
        Viewer::LeftToRight
    } else {
        Viewer::RightToLeft
    }
}

/// The rating that the tags imply.
pub fn content_rating(tags: &Vec<String>) -> (r: ContentRating)
    ensures
        r == rating_of(tags.deep_view()),
{
    if has_string(tags, "Hentai") || has_string(tags, "エロい") {
        ContentRating::NSFW
    } else if has_string(tags, "Ecchi") {
        ContentRating::Suggestive
    } else {
        ContentRating::Safe
    }
}

/// The names that are, or are not, marked as artists in the author text.
pub fn split_credits(text: &str, names: &Vec<String>, artists: bool) -> (out: Vec<String>)
    ensures
        out.deep_view() == credits(text@, names.deep_view(), artists),
{
    let text_chars = chars_of(text);
    let comma = chars_of(",");
    let mut out: Vec<String> = Vec::new();
    let mut i: usize = 0;
    assert(names.deep_view().take(0) == Seq::<Seq<char>>::empty());
    assert(out.deep_view() == Seq::<Seq<char>>::empty());
    while i < names.len()
        invariant
            i <= names.len(),
            text_chars@ == text@,
            comma@ == ","@,
            out.deep_view() == credits(text@, names.deep_view().take(i as int), artists),
        decreases names.len() - i,
    {
        assert(names.deep_view().take(i + 1).drop_last() == names.deep_view().take(i as int));
        assert(names.deep_view().take(i + 1).last() == names[i as int]@);
        let ghost before = out.deep_view();
        let mut marked = chars_of(names[i].as_str());
        append_str(&mut marked, " (Art)");
        if contains_sub(&text_chars, &marked) == artists {
            let name = string_of(&removed_all(&chars_of(names[i].as_str()), &comma));
            out.push(name);
            assert(out.deep_view() == before.push(name@));
        }
        i += 1;
    }
    assert(names.deep_view().take(names.len() as int) == names.deep_view());
    out
}

/// Fills in the details of a manga from its page. A page without the
/// details block is an error; what else is missing leaves its field empty
/// or at its default, and a missing name leaves the known title.
pub fn parse_manga_details(manga: &mut Manga, page: &DetailsPage) -> (r: Result<(), SourceError>)
    ensures
        page.found ==> r is Ok && final(manga)@ == with_details(old(manga)@, *page),
        !page.found ==> r is Err && r->Err_0@ == SourceErrorView::Message(
            "Unable to find manga details"@,
        ) && final(manga)@ == old(manga)@,
{
    if !page.found {
        return Err(SourceError::Message(String::from_str("Unable to find manga details")));
    }
    match &page.name {
        Some(t) => {
            manga.title = t.clone();
        },
        None => {},
    }
    manga.cover = clone_opt(&page.cover);
    match (&page.author_text, &page.author_names) {
        (Some(text), Some(names)) => {
            manga.authors = Some(split_credits(text.as_str(), names, false));
            manga.artists = Some(split_credits(text.as_str(), names, true));
        },
        _ => {
            manga.authors = None;
            manga.artists = None;
        },
    }
    manga.description = clone_opt(&page.description);
    manga.tags = match &page.tags {
        Some(t) => Some(clone_strings(t)),
        None => None,
    };
    manga.status = match &page.status {
        Some(s) => status_from_word(to_lowercase(s.as_str()).as_str()),
        None => MangaStatus::Unknown,
    };
    let none: Vec<String> = Vec::new();
    assert(none.deep_view() == Seq::<Seq<char>>::empty());
    manga.content_rating = match &manga.tags {
        Some(t) => content_rating(t),
        None => content_rating(&none),
    };
    manga.viewer = match &page.kind {
        Some(k) => viewer_from_word(to_lowercase(k.as_str()).as_str()),
        None => Viewer::RightToLeft,
    };
    Ok(())
}

/// What one entry of a chapter list shows: the absolute target of its
/// link, its data id, the text of its name, and the language it is in.
#[derive(Clone, Debug, PartialEq, Eq)]
pub struct ChapterItem {
    pub href: Option<String>,
    pub data_id: Option<String>,
    pub name: Option<String>,
    pub language: String,
}

/// The ordinal that a text holds: its digits and points, read as a decimal.
pub open spec fn number_in(text: Seq<char>) -> Option<Decimal> {
    decimal_value(digits_and_points(text))
}

/// The ordinal and the title that the name of a chapter gives. Where the
/// name holds a colon, the ordinal is read from what stands before the
/// first one, and the title is what follows it, without white space at
/// both ends; a name without a colon is all title.
pub open spec fn name_parts(name: Option<Seq<char>>) -> (Option<Decimal>, Option<Seq<char>>) {
    match name {
        Some(t) => match index_of(t, ':') {
            Some(colon) => (number_in(t.take(colon)), Some(trim(t.skip(colon + 1)))),
            None => (None, name),
        },
        None => (None, None),
    }
}

/// The ordinal as a default title words it; 0 without an ordinal.
pub open spec fn ordinal_text(number: Option<Decimal>) -> Seq<char> {
    match number {
        Some(d) => decimal_text(d),
        None => seq!['0'],
    }
}

/// Whether a title says no more than the ordinal does.
pub open spec fn is_default_title(title: Seq<char>, number: Option<Decimal>) -> bool {
    let n = ordinal_text(number);
    title == "Chapter "@ + n || title == "第"@ + n + "話"@ || title == "第 "@ + n + " 話"@ || title
        == "【第 "@ + n + " 話】"@
}

/// The chapter that an entry stands for: it needs a link under `base`. The
/// key is the link without `base`, with `#` and the data id where there is
/// one. A title that says no more than the ordinal is left out.
pub open spec fn chapter_entry(item: ChapterItem, base: Seq<char>) -> Option<ChapterView> {
    match item.href.deep_view() {
        Some(url) => match strip_prefix(url, base) {
            Some(path) => {
                let (number, title) = name_parts(item.name.deep_view());
                Some(
                    ChapterView {
                        title: match title {
                            Some(t) => if is_default_title(t, number) {
                                None
                            } else {
                                title
                            },
                            None => None,
                        },
                        chapter_number: number,
                        url: Some(url),
                        language: Some(item.language@),
                        ..ChapterView::bare(
                            match item.data_id.deep_view() {
                                Some(id) => path + "#"@ + id,
                                None => path,
                            },
                        )
                    },
                )
            },
            None => None,
        },
        None => None,
    }
}

/// The chapters of a chapter list, in the order of its entries.
pub open spec fn chapter_entries(items: Seq<ChapterItem>, base: Seq<char>) -> Seq<ChapterView>
    decreases items.len(),
{
    if items.len() == 0 {
        Seq::empty()
    } else {
        let head = chapter_entries(items.drop_last(), base);
        match chapter_entry(items.last(), base) {
            Some(c) => head.push(c),
            None => head,
        }
    }
}

/// The number by which a chapter is ordered, in units of `10^-18`: its
/// ordinal, or -1 without one.
pub open spec fn order_key(c: ChapterView) -> int {
    match c.chapter_number {
        Some(d) => d.key(),
        None => -(pow10(18) as int),
    }
}

/// A list ordered from high to low, with one more chapter put in: behind
/// every chapter that comes at least as high.
pub open spec fn insert_desc(sorted: Seq<ChapterView>, c: ChapterView) -> Seq<ChapterView>
    decreases sorted.len(),
{
    if sorted.len() > 0 && order_key(sorted.last()) < order_key(c) {
        insert_desc(sorted.drop_last(), c).push(sorted.last())
    } else {
        sorted.push(c)
    }
}

/// The chapters ordered from the highest ordinal to the lowest; chapters
/// that come equally high keep the order they had.
pub open spec fn sort_desc(chapters: Seq<ChapterView>) -> Seq<ChapterView>
    decreases chapters.len(),
{
    if chapters.len() == 0 {
        Seq::empty()
    } else {
        insert_desc(sort_desc(chapters.drop_last()), chapters.last())
    }
}

/// No chapter of the list comes before one that is ordered higher.
pub open spec fn is_descending(s: Seq<ChapterView>) -> bool {
    forall|i: int, j: int| 0 <= i < j < s.len() ==> order_key(s[i]) >= order_key(s[j])
}

/// Putting a chapter into a list places it at one position and leaves the
/// others in their order; the position is behind all that come at least as
/// high and before all that come lower.
pub proof fn lemma_insert_desc(sorted: Seq<ChapterView>, c: ChapterView) -> (pos: int)
    ensures
        0 <= pos <= sorted.len(),
        insert_desc(sorted, c) == sorted.insert(pos, c),
        forall|k: int| pos <= k < sorted.len() ==> order_key(sorted[k]) < order_key(c),
        pos > 0 ==> order_key(sorted[pos - 1]) >= order_key(c),
    decreases sorted.len(),
{
    if sorted.len() > 0 && order_key(sorted.last()) < order_key(c) {
        let pos = lemma_insert_desc(sorted.drop_last(), c);
        assert(sorted.drop_last().insert(pos, c).push(sorted.last()) =~= sorted.insert(pos, c));
        assert forall|k: int| pos <= k < sorted.len() implies order_key(sorted[k]) < order_key(
            c,
        ) by {
            if k < sorted.len() - 1 {
                assert(sorted.drop_last()[k] == sorted[k]);
            }
        }
        if pos > 0 {
            assert(sorted.drop_last()[pos - 1] == sorted[pos - 1]);
        }
        pos
    } else {
        assert(sorted.push(c) =~= sorted.insert(sorted.len() as int, c));
        sorted.len() as int
    }
}

/// Putting a chapter into a descending list leaves it descending.
pub proof fn lemma_insert_desc_descending(sorted: Seq<ChapterView>, c: ChapterView)
    requires
        is_descending(sorted),
    ensures
        is_descending(insert_desc(sorted, c)),
        insert_desc(sorted, c).to_multiset() == sorted.to_multiset().insert(c),
{
    let pos = lemma_insert_desc(sorted, c);
    let out = sorted.insert(pos, c);
    assert forall|i: int, j: int| 0 <= i < j < out.len() implies order_key(out[i]) >= order_key(
        out[j],
    ) by {
        if pos > 0 {
            assert(order_key(sorted[pos - 1]) >= order_key(c));
        }
        if i < pos && j > pos {
            assert(out[i] == sorted[i]);
            assert(out[j] == sorted[j - 1]);
        } else if i < pos && j == pos {
            assert(out[i] == sorted[i]);
            if i < pos - 1 {
                assert(order_key(sorted[i]) >= order_key(sorted[pos - 1]));
            }
        } else if i == pos {
            assert(out[j] == sorted[j - 1]);
        } else if j < pos {
            assert(out[i] == sorted[i]);
            assert(out[j] == sorted[j]);
        } else {
            assert(out[i] == sorted[i - 1]);
            assert(out[j] == sorted[j - 1]);
        }
    }
    vstd::seq_lib::to_multiset_insert(sorted, pos, c);
}

/// The ordered list is descending and holds the chapters that went in,
/// each as often as it went in.
pub proof fn lemma_sort_desc(chapters: Seq<ChapterView>)
    ensures
        is_descending(sort_desc(chapters)),
        sort_desc(chapters).to_multiset() == chapters.to_multiset(),
        sort_desc(chapters).len() == chapters.len(),
    decreases chapters.len(),
{
    if chapters.len() == 0 {
        assert(chapters == Seq::<ChapterView>::empty());
    } else {
        let head = chapters.drop_last();
        lemma_sort_desc(head);
        lemma_insert_desc_descending(sort_desc(head), chapters.last());
        lemma_insert_desc(sort_desc(head), chapters.last());
        assert(head.push(chapters.last()) == chapters);
        vstd::seq_lib::to_multiset_build(head, chapters.last());
    }
}

/// The number by which a chapter is ordered.
pub fn chapter_order_key(c: &Chapter) -> (k: i128)
    requires
        c@.wf(),
    ensures
        k == order_key(c@),
{
    match &c.chapter_number {
        Some(d) => d.sort_key(),
        None => {
            proof {
                reveal_with_fuel(pow10, 20);
            }
            -1_000_000_000_000_000_000
        },
    }
}

/// Orders chapters from the highest ordinal to the lowest. Chapters
/// without an ordinal come as if numbered -1, and chapters that come
/// equally high keep the order they had.
pub fn sort_chapters(chapters: Vec<Chapter>) -> (out: Vec<Chapter>)
    requires
        forall|i: int| 0 <= i < chapters.len() ==> (#[trigger] chapters[i])@.wf(),
    ensures
        out.deep_view() == sort_desc(chapters.deep_view()),
        is_descending(out.deep_view()),
        out.deep_view().to_multiset() == chapters.deep_view().to_multiset(),
        forall|i: int| 0 <= i < out.len() ==> (#[trigger] out[i])@.wf(),
{
    let ghost all = chapters.deep_view();
    let n: usize = chapters.len();
    let mut rest = chapters;
    let mut out: Vec<Chapter> = Vec::new();
    let mut done: usize = 0;
    assert(all.take(0) == Seq::<ChapterView>::empty());
    assert(out.deep_view() == Seq::<ChapterView>::empty());
    assert(rest.deep_view() =~= all.skip(0));
    while rest.len() > 0
        invariant
            done + rest.len() == n,
            n == all.len(),
            rest.deep_view() == all.skip(done as int),
            out.deep_view() == sort_desc(all.take(done as int)),
            forall|i: int| 0 <= i < out.len() ==> (#[trigger] out[i])@.wf(),
            forall|i: int| 0 <= i < rest.len() ==> (#[trigger] rest[i])@.wf(),
        decreases rest.len(),
    {
        let ghost rest_before = rest.deep_view();
        let c = rest.remove(0);
        assert(c@ == rest_before[0]);
        assert(c@ == all[done as int]);
        assert(rest.deep_view() =~= rest_before.remove(0));
        assert(rest_before.remove(0) =~= all.skip(done + 1));
        let k = chapter_order_key(&c);
        let ghost sorted = out.deep_view();
        let mut pos: usize = out.len();
        while pos > 0 && chapter_order_key(&out[pos - 1]) < k
            invariant
                pos <= out.len(),
                sorted == out.deep_view(),
                k == order_key(c@),
                forall|i: int| 0 <= i < out.len() ==> (#[trigger] out[i])@.wf(),
                forall|j: int| pos <= j < sorted.len() ==> order_key(sorted[j]) < order_key(c@),
            decreases pos,
        {
            assert(sorted[pos - 1] == out[pos - 1]@);
            pos -= 1;
        }
        proof {
            let p = lemma_insert_desc(sorted, c@);
            if pos > 0 {
                assert(sorted[pos - 1] == out[pos - 1]@);
            }
            assert(p == pos) by {
                if p < pos {
                    assert(order_key(sorted[pos - 1]) < order_key(c@));
                }
                if p > pos {
                    assert(order_key(sorted[p - 1]) >= order_key(c@));
                }
            }
            assert(all.take(done + 1).drop_last() == all.take(done as int));
            assert(all.take(done + 1).last() == c@);
        }
        out.insert(pos, c);
        assert(out.deep_view() =~= sorted.insert(pos as int, c@));
        done += 1;
    }
    proof {
        assert(all.take(n as int) == all);
        lemma_sort_desc(all);
    }
    out
}

/// The ordinal that a text holds: its digits and points, read as a decimal.
pub fn parse_number_in(text: &Vec<char>) -> (r: Option<Decimal>)
    ensures
        r == number_in(text@),
        r matches Some(d) ==> d.wf(),
{
    parse_decimal(&keep_digits_and_points(text))
}

/// Whether a title says no more than the ordinal does.
pub fn default_title(title: &Vec<char>, number: &Option<Decimal>) -> (r: bool)
    requires
        number matches Some(d) ==> d.wf(),
    ensures
        r == is_default_title(title@, *number),
{
    let n: Vec<char> = match number {
        Some(d) => d.to_chars(),
        None => {
            let mut zero: Vec<char> = Vec::new();
            zero.push('0');
            zero
        },
    };
    assert(n@ == ordinal_text(*number));
    let mut a = chars_of("Chapter ");
    append(&mut a, &n);
    let mut b = chars_of("第");
    append(&mut b, &n);
    append_str(&mut b, "話");
    let mut c = chars_of("第 ");
    append(&mut c, &n);
    append_str(&mut c, " 話");
    let mut d = chars_of("【第 ");
    append(&mut d, &n);
    append_str(&mut d, " 話】");
    seq_eq(title, &a) || seq_eq(title, &b) || seq_eq(title, &c) || seq_eq(title, &d)
}

/// The chapter that an entry stands for, if any.
pub fn parse_chapter_item(item: &ChapterItem, base_url: &str) -> (r: Option<Chapter>)
    ensures
        r.deep_view() == chapter_entry(*item, base_url@),
        r matches Some(c) ==> c@.wf(),
{
    let url = match &item.href {
        Some(h) => h.clone(),
        None => {
            return None;
        },
    };
    let path = match str_strip_prefix(url.as_str(), base_url) {
        Some(p) => p,
        None => {
            return None;
        },
    };
    let mut key = chars_of(path.as_str());
    match &item.data_id {
        Some(id) => {
            append_str(&mut key, "#");
            append_str(&mut key, id.as_str());
        },
        None => {},
    }
    let (number, title): (Option<Decimal>, Option<Vec<char>>) = match &item.name {
        Some(t) => {
            let chars = chars_of(t.as_str());
            match find_char_from(&chars, ':', 0) {
                Some(colon) => {
                    proof {
                        lemma_index_of_is(chars@, ':', colon as int);
                    }
                    let before = slice(&chars, 0, colon);
                    let after = slice(&chars, colon + 1, chars.len());
                    assert(before@ == chars@.take(colon as int));
                    assert(after@ == chars@.skip(colon + 1));
                    (parse_number_in(&before), Some(trimmed(&after)))
                },
                None => {
                    proof {
                        lemma_index_of_none(chars@, ':');
                    }
                    (None, Some(chars))
                },
            }
        },
        None => (None, None),
    };
    let mut chapter = Chapter::bare(string_of(&key));
    chapter.title = match &title {
        Some(t) => if default_title(t, &number) {
            None
        } else {
            Some(string_of(t))
        },
        None => None,
    };
    chapter.chapter_number = number;
    chapter.url = Some(url);
    chapter.language = Some(item.language.clone());
    Some(chapter)
}

/// Turns the entries of a chapter list into chapters, ordered from the
/// highest ordinal to the lowest, since a list may hold several languages
/// one after the other. Entries without a link under `base_url` are
/// dropped.
pub fn parse_manga_chapters(items: &Vec<ChapterItem>, base_url: &str) -> (out: Vec<Chapter>)
    ensures
        out.deep_view() == sort_desc(chapter_entries(items@, base_url@)),
        is_descending(out.deep_view()),
        out.deep_view().to_multiset() == chapter_entries(items@, base_url@).to_multiset(),
{
    let mut list: Vec<Chapter> = Vec::new();
    let mut i: usize = 0;
    assert(items@.take(0) == Seq::<ChapterItem>::empty());
    assert(list.deep_view() == Seq::<ChapterView>::empty());
    while i < items.len()
        invariant
            i <= items.len(),
            list.deep_view() == chapter_entries(items@.take(i as int), base_url@),
            forall|j: int| 0 <= j < list.len() ==> (#[trigger] list[j])@.wf(),
        decreases items.len() - i,
    {
        assert(items@.take(i + 1).drop_last() == items@.take(i as int));
        let ghost before = list.deep_view();
        match parse_chapter_item(&items[i], base_url) {
            Some(c) => {
                list.push(c);
                assert(list.deep_view() == before.push(c@));
            },
            None => {},
        }
        i += 1;
    }
    assert(items@.take(items.len() as int) == items@);
    sort_chapters(list)
}

} // verus!
