//! The payloads of the interface and what they hold of manga and chapters.

use vstd::prelude::*;
use crate::dates::{rfc3339_seconds, rfc3339_timestamp};
use crate::decimal::{decimal_value, parse_decimal, Decimal};
use crate::json::{json_string, string_at};
use crate::model::{Chapter, ChapterView, ContentRating, Manga, MangaStatus, MangaView, Viewer};
use crate::text::{append_str, chars_of, clone_opt, has_string, join2, str_eq, string_of};

verus! {

/// Where cover images are served from.
pub const COVER_URL: &'static str = "https://uploads.mangadex.org";

/// The tokens of a login.
#[derive(Clone, Debug, PartialEq, Eq)]
pub struct TokenResponse {
    pub access_token: Option<String>,
    pub refresh_token: Option<String>,
}

/// An answer of the interface: its data, and how many items there are in
/// all where the answer is one page of many.
#[derive(Clone, Debug, PartialEq, Eq)]
pub struct DexResponse<T> {
    pub data: T,
    pub total: Option<i32>,
}

/// The reading status of the manga in a library, by manga id.
#[derive(Debug, PartialEq, Eq)]
pub struct DexStatusResponse {
    pub statuses: serde_json::Map<String, serde_json::Value>,
}

/// What an item is related to: the id and kind of the other item, and its
/// attributes where the answer includes them.
#[derive(Debug, PartialEq, Eq)]
pub struct DexRelationship {
    pub id: String,
    pub kind: String,
    pub attributes: Option<serde_json::Map<String, serde_json::Value>>,
}

/// A text in the languages that the source reads.
#[derive(Clone, Debug, PartialEq, Eq)]
pub struct DexLocalizedString {
    pub en: Option<String>,
    pub ja: Option<String>,
    pub ja_ro: Option<String>,
}

/// A tag of a manga.
#[derive(Clone, Debug, PartialEq, Eq)]
pub struct DexTag {
    pub attributes: DexTagAttributes,
}

/// What a tag holds.
#[derive(Clone, Debug, PartialEq, Eq)]
pub struct DexTagAttributes {
    pub name: DexLocalizedString,
}

/// An item of which only the id is read.
#[derive(Clone, Debug, PartialEq, Eq)]
pub struct DexData {
    pub id: String,
}

/// A list of manga that the site's users keep.
#[derive(Debug, PartialEq, Eq)]
pub struct DexCustomList {
    pub id: String,
    pub attributes: DexCustomListAttributes,
    pub relationships: Vec<DexRelationship>,
}

/// A cover of a manga.
#[derive(Clone, Debug, PartialEq, Eq)]
pub struct DexCoverArt {
    pub attributes: DexCoverArtAttributes,
}

/// A manga as the interface describes it.
#[derive(Debug, PartialEq, Eq)]
pub struct DexManga {
    pub id: String,
    pub attributes: DexMangaAttributes,
    pub relationships: Vec<DexRelationship>,
}

/// How explicit the interface rates a manga.
#[derive(Clone, Copy, Debug, PartialEq, Eq, Structural)]
pub enum DexContentRating {
    Safe,
    Suggestive,
    Erotica,
    Pornographic,
}

/// The publication status that the interface gives a manga.
#[derive(Clone, Copy, Debug, PartialEq, Eq, Structural)]
pub enum DexStatus {
    Completed,
    Ongoing,
    Cancelled,
    Hiatus,
}

/// What a custom list holds.
#[derive(Clone, Debug, PartialEq, Eq)]
pub struct DexCustomListAttributes {
    pub name: String,
}

/// What a cover holds.
#[derive(Clone, Debug, PartialEq, Eq)]
pub struct DexCoverArtAttributes {
    pub file_name: String,
}

/// What a manga holds.
#[derive(Clone, Debug, PartialEq, Eq)]
pub struct DexMangaAttributes {
    pub title: DexLocalizedString,
    pub description: DexLocalizedString,
    pub original_language: String,
    pub content_rating: DexContentRating,
    pub tags: Vec<DexTag>,
    pub status: DexStatus,
}

/// A chapter as the interface describes it.
#[derive(Debug, PartialEq, Eq)]
pub struct DexChapter {
    pub id: String,
    pub attributes: DexChapterAttributes,
    pub relationships: Vec<DexRelationship>,
}

/// What a chapter holds.
#[derive(Debug, PartialEq, Eq)]
pub struct DexChapterAttributes {
    pub title: Option<String>,
    pub volume: Option<String>,
    pub chapter: Option<String>,
    pub external_url: Option<serde_json::Value>,
    pub translated_language: String,
    pub publish_at: String,
}

/// Where the pages of a chapter are served from.
#[derive(Clone, Debug, PartialEq, Eq)]
pub struct DexAtHomeResponse {
    pub base_url: String,
    pub chapter: DexAtHomeChapter,
}

/// The files of the pages of a chapter, in full and in reduced quality.
#[derive(Clone, Debug, PartialEq, Eq)]
pub struct DexAtHomeChapter {
    pub hash: String,
    pub data: Option<Vec<String>>,
    pub data_saver: Option<Vec<String>>,
}

impl DexLocalizedString {
    /// The text to show: the English one, else the romanised Japanese
    /// one, else the Japanese one.
    pub open spec fn text(self) -> Option<Seq<char>> {
        if self.en is Some {
            self.en.deep_view()
        } else if self.ja_ro is Some {
            self.ja_ro.deep_view()
        } else {
            self.ja.deep_view()
        }
    }

    /// The text to show: the English one, else the romanised Japanese
    /// one, else the Japanese one.
    pub fn get(&self) -> (r: Option<String>)
        ensures
            r.deep_view() == self.text(),
    {
        if self.en.is_some() {
            clone_opt(&self.en)
        } else if self.ja_ro.is_some() {
            clone_opt(&self.ja_ro)
        } else {
            clone_opt(&self.ja)
        }
    }
}

/// The string that a related item of the given kind holds under `field`.
pub open spec fn related_name(r: DexRelationship, kind: Seq<char>, field: Seq<char>) -> Option<
    Seq<char>,
> {
    if r.kind@ == kind {
        match r.attributes {
            Some(a) => string_at(a, field),
            None => None,
        }
    } else {
        None
    }
}

/// The strings that the related items of the given kind hold under
/// `field`, in order.
pub open spec fn related_names(rels: Seq<DexRelationship>, kind: Seq<char>, field: Seq<char>) -> Seq<
    Seq<char>,
>
    decreases rels.len(),
{
    if rels.len() == 0 {
        Seq::empty()
    } else {
        let head = related_names(rels.drop_last(), kind, field);
        match related_name(rels.last(), kind, field) {
            Some(n) => head.push(n),
            None => head,
        }
    }
}

/// Position of the first related item of the given kind at or after `i`.
pub open spec fn first_related_from(rels: Seq<DexRelationship>, kind: Seq<char>, i: int) -> Option<
    int,
>
    decreases rels.len() - i,
{
    if i < 0 || i >= rels.len() {
        None
    } else if rels[i].kind@ == kind {
        Some(i)
    } else {
        first_related_from(rels, kind, i + 1)
    }
}

/// The strings that the related items of the given kind hold under
/// `field`, in order.
pub fn names_of(rels: &Vec<DexRelationship>, kind: &str, field: &str) -> (out: Vec<String>)
    ensures
        out.deep_view() == related_names(rels@, kind@, field@),
{
    let mut out: Vec<String> = Vec::new();
    let mut i: usize = 0;
    assert(rels@.take(0) == Seq::<DexRelationship>::empty());
    assert(out.deep_view() == Seq::<Seq<char>>::empty());
    while i < rels.len()
        invariant
            i <= rels.len(),
            out.deep_view() == related_names(rels@.take(i as int), kind@, field@),
        decreases rels.len() - i,
    {
        assert(rels@.take(i + 1).drop_last() == rels@.take(i as int));
        let ghost before = out.deep_view();
        if str_eq(rels[i].kind.as_str(), kind) {
            match &rels[i].attributes {
                Some(a) => match json_string(a, field) {
                    Some(name) => {
                        out.push(name);
                        assert(out.deep_view() == before.push(name@));
                    },
                    None => {},
                },
                None => {},
            }
        }
        i += 1;
    }
    assert(rels@.take(rels.len() as int) == rels@);
    out
}

/// Position of the first related item of the given kind.
pub fn first_of_kind(rels: &Vec<DexRelationship>, kind: &str) -> (r: Option<usize>)
    ensures
        match r {
            Some(i) => first_related_from(rels@, kind@, 0) == Some(i as int) && i < rels.len()
                && rels[i as int].kind@ == kind@,
            None => first_related_from(rels@, kind@, 0) is None,
        },
{
    let mut i: usize = 0;
    while i < rels.len()
        invariant
            i <= rels.len(),
            first_related_from(rels@, kind@, 0) == first_related_from(rels@, kind@, i as int),
        decreases rels.len() - i,
    {
        if str_eq(rels[i].kind.as_str(), kind) {
            return Some(i);
        }
        i += 1;
    }
    None
}

/// The names of the tags that have one, in order.
pub open spec fn tag_names(tags: Seq<DexTag>) -> Seq<Seq<char>>
    decreases tags.len(),
{
    if tags.len() == 0 {
        Seq::empty()
    } else {
        let head = tag_names(tags.drop_last());
        match tags.last().attributes.name.text() {
            Some(n) => head.push(n),
            None => head,
        }
    }
}

/// The status of a manga in the source's own terms.
pub open spec fn status_of(s: DexStatus) -> MangaStatus {
    match s {
        DexStatus::Ongoing => MangaStatus::Ongoing,
        DexStatus::Completed => MangaStatus::Completed,
        DexStatus::Hiatus => MangaStatus::Hiatus,
        DexStatus::Cancelled => MangaStatus::Cancelled,
    }
}

/// The rating of a manga in the source's own terms: erotica and
/// pornographic both rate as not safe.
pub open spec fn rating_of(r: DexContentRating) -> ContentRating {
    match r {
        DexContentRating::Safe => ContentRating::Safe,
        DexContentRating::Suggestive => ContentRating::Suggestive,
        DexContentRating::Erotica | DexContentRating::Pornographic => ContentRating::NSFW,
    }
}

/// The layout of a manga: a long strip, and a work first written in
/// Chinese or Korean, reads as a webtoon; any other right to left.
pub open spec fn viewer_of(tags: Seq<Seq<char>>, language: Seq<char>) -> Viewer {
    if tags.contains("Long Strip"@) {
        Viewer::Webtoon
    } else if language == "zh"@ || language == "ko"@ {
        Viewer::Webtoon
    } else {
        Viewer::RightToLeft
    }
}

impl DexManga {
    /// The address of the cover: that of the first related cover, with
    /// its file name, empty where the answer does not give one, and the
    /// suffix of the chosen quality. A manga without a related cover has
    /// none.
    pub open spec fn cover_url(self, quality: Seq<char>) -> Option<Seq<char>> {
        match first_related_from(self.relationships@, "cover_art"@, 0) {
            Some(i) => Some(
                COVER_URL@ + "/covers/"@ + self.id@ + "/"@ + (match related_name(
                    self.relationships[i],
                    "cover_art"@,
                    "fileName"@,
                ) {
                    Some(f) => f,
                    None => Seq::empty(),
                }) + quality,
            ),
            None => None,
        }
    }

    /// The title to show, or none.
    pub open spec fn title_text(self) -> Seq<char> {
        match self.attributes.title.text() {
            Some(t) => t,
            None => Seq::empty(),
        }
    }

    /// The manga as a listing shows it: key, title and cover.
    pub open spec fn basic(self, quality: Seq<char>) -> MangaView {
        MangaView { cover: self.cover_url(quality), ..MangaView::bare(self.id@, self.title_text()) }
    }

    /// The manga with all that the answer tells of it.
    pub open spec fn full(self, quality: Seq<char>) -> MangaView {
        let tags = tag_names(self.attributes.tags@);
        MangaView {
            cover: self.cover_url(quality),
            artists: Some(related_names(self.relationships@, "artist"@, "name"@)),
            authors: Some(related_names(self.relationships@, "author"@, "name"@)),
            description: self.attributes.description.text(),
            url: Some("https://mangadex.org/title/"@ + self.id@),
            tags: Some(tags),
            status: status_of(self.attributes.status),
            content_rating: rating_of(self.attributes.content_rating),
            viewer: viewer_of(tags, self.attributes.original_language@),
            ..MangaView::bare(self.id@, self.title_text())
        }
    }

    /// The manga as a listing shows it: key, title and cover.
    pub fn into_basic_manga(self, cover_quality: &str) -> (m: Manga)
        ensures
            m@ == self.basic(cover_quality@),
    {
        let title = match self.title() {
            Some(t) => t,
            None => String::new(),
        };
        let cover = self.cover(cover_quality);
        let mut manga = Manga::bare(self.id, title);
        manga.cover = cover;
        manga
    }

    /// The title to show.
    pub fn title(&self) -> (r: Option<String>)
        ensures
            r.deep_view() == self.attributes.title.text(),
    {
        self.attributes.title.get()
    }

    /// The description to show.
    pub fn description(&self) -> (r: Option<String>)
        ensures
            r.deep_view() == self.attributes.description.text(),
    {
        self.attributes.description.get()
    }

    /// The address of the cover in the chosen quality.
    pub fn cover(&self, cover_quality: &str) -> (r: Option<String>)
        ensures
            r.deep_view() == self.cover_url(cover_quality@),
    {
        match first_of_kind(&self.relationships, "cover_art") {
            Some(i) => {
                let file = match &self.relationships[i].attributes {
                    Some(a) => json_string(a, "fileName"),
                    None => None,
                };
                let mut out = chars_of(COVER_URL);
                append_str(&mut out, "/covers/");
                append_str(&mut out, self.id.as_str());
                append_str(&mut out, "/");
                match &file {
                    Some(f) => {
                        append_str(&mut out, f.as_str());
                    },
                    None => {
                        assert(out@ + Seq::<char>::empty() == out@);
                    },
                }
                append_str(&mut out, cover_quality);
                Some(string_of(&out))
            },
            None => None,
        }
    }

    /// The names of the authors that the answer includes.
    pub fn authors(&self) -> (r: Vec<String>)
        ensures
            r.deep_view() == related_names(self.relationships@, "author"@, "name"@),
    {
        names_of(&self.relationships, "author", "name")
    }

    /// The names of the artists that the answer includes.
    pub fn artists(&self) -> (r: Vec<String>)
        ensures
            r.deep_view() == related_names(self.relationships@, "artist"@, "name"@),
    {
        names_of(&self.relationships, "artist", "name")
    }

    /// The address of the manga on the site.
    pub fn url(&self) -> (r: String)
        ensures
            r@ == "https://mangadex.org/title/"@ + self.id@,
    {
        join2("https://mangadex.org/title/", self.id.as_str())
    }

    /// The names of the tags that have one.
    pub fn tags(&self) -> (out: Vec<String>)
        ensures
            out.deep_view() == tag_names(self.attributes.tags@),
    {
        let tags = &self.attributes.tags;
        let mut out: Vec<String> = Vec::new();
        let mut i: usize = 0;
        assert(tags@.take(0) == Seq::<DexTag>::empty());
        assert(out.deep_view() == Seq::<Seq<char>>::empty());
        while i < tags.len()
            invariant
                i <= tags.len(),
                out.deep_view() == tag_names(tags@.take(i as int)),
            decreases tags.len() - i,
        {
            assert(tags@.take(i + 1).drop_last() == tags@.take(i as int));
            let ghost before = out.deep_view();
            match tags[i].attributes.name.get() {
                Some(name) => {
                    out.push(name);
                    assert(out.deep_view() == before.push(name@));
                },
                None => {},
            }
            i += 1;
        }
        assert(tags@.take(tags.len() as int) == tags@);
        out
    }

    /// The status of the manga.
    pub fn status(&self) -> (r: MangaStatus)
        ensures
            r == status_of(self.attributes.status),
    {
        match self.attributes.status {
            DexStatus::Ongoing => MangaStatus::Ongoing,
            DexStatus::Completed => MangaStatus::Completed,
            DexStatus::Hiatus => MangaStatus::Hiatus,
            DexStatus::Cancelled => MangaStatus::Cancelled,
        }
    }

    /// The rating of the manga.
    pub fn content_rating(&self) -> (r: ContentRating)
        ensures
            r == rating_of(self.attributes.content_rating),
    {
        match self.attributes.content_rating {
            DexContentRating::Safe => ContentRating::Safe,
            DexContentRating::Suggestive => ContentRating::Suggestive,
            DexContentRating::Erotica | DexContentRating::Pornographic => ContentRating::NSFW,
        }
    }

    /// The manga with all that the answer tells of it.
    pub fn into_manga(self, cover_quality: &str) -> (m: Manga)
        ensures
            m@ == self.full(cover_quality@),
    {
        let tags = self.tags();
        let language = self.attributes.original_language.as_str();
        let viewer = if has_string(&tags, "Long Strip") {
            Viewer::Webtoon
        } else if str_eq(language, "zh") || str_eq(language, "ko") {
            Viewer::Webtoon
        } else {
            Viewer::RightToLeft
        };
        let title = match self.title() {
            Some(t) => t,
            None => String::new(),
        };
        let cover = self.cover(cover_quality);
        let artists = self.artists();
        let authors = self.authors();
        let description = self.description();
        let url = self.url();
        let status = self.status();
        let content_rating = self.content_rating();
        let mut manga = Manga::bare(self.id, title);
        manga.cover = cover;
        manga.artists = Some(artists);
        manga.authors = Some(authors);
        manga.description = description;
        manga.url = Some(url);
        manga.tags = Some(tags);
        manga.status = status;
        manga.content_rating = content_rating;
        manga.viewer = viewer;
        manga
    }
}

/// The ordinal that a text of the interface spells.
pub open spec fn ordinal(text: Option<Seq<char>>) -> Option<Decimal> {
    match text {
        Some(t) => decimal_value(t),
        None => None,
    }
}

/// The ordinal that a text of the interface spells.
pub fn parse_ordinal(text: &Option<String>) -> (r: Option<Decimal>)
    ensures
        r == ordinal(text.deep_view()),
        r matches Some(d) ==> d.wf(),
{
    match text {
        Some(t) => parse_decimal(&chars_of(t.as_str())),
        None => None,
    }
}

impl DexChapter {
    /// The id of the manga that the chapter belongs to: that of the first
    /// related manga.
    pub open spec fn manga(self) -> Option<Seq<char>> {
        match first_related_from(self.relationships@, "manga"@, 0) {
            Some(i) => Some(self.relationships[i].id@),
            None => None,
        }
    }

    /// Who released the chapter: the groups that the answer names, or,
    /// where it names none, the users.
    pub open spec fn credited(self) -> Seq<Seq<char>> {
        let groups = related_names(self.relationships@, "scanlation_group"@, "name"@);
        if groups.len() == 0 {
            related_names(self.relationships@, "user"@, "username"@)
        } else {
            groups
        }
    }

    /// Whether the chapter is a oneshot that does not say so: it has no
    /// chapter ordinal, a volume ordinal of 0 or none, and no title.
    pub open spec fn unnamed_oneshot(self) -> bool {
        let volume = ordinal(self.attributes.volume.deep_view());
        &&& volume is None || volume->Some_0.mantissa == 0
        &&& ordinal(self.attributes.chapter.deep_view()) is None
        &&& self.attributes.title matches Some(t) ==> t@.len() == 0
    }

    /// The chapter with all that the answer tells of it.
    pub open spec fn chapter(self) -> ChapterView {
        ChapterView {
            title: if self.unnamed_oneshot() {
                Some("Oneshot"@)
            } else {
                self.attributes.title.deep_view()
            },
            chapter_number: ordinal(self.attributes.chapter.deep_view()),
            volume_number: ordinal(self.attributes.volume.deep_view()),
            date_uploaded: rfc3339_seconds(self.attributes.publish_at@),
            scanlators: Some(self.credited()),
            url: Some("https://mangadex.org/chapter/"@ + self.id@),
            language: Some(self.attributes.translated_language@),
            ..ChapterView::bare(self.id@)
        }
    }

    /// Whether the chapter is read on another site.
    pub fn has_external_url(&self) -> (r: bool)
        ensures
            r == self.attributes.external_url is Some,
    {
        self.attributes.external_url.is_some()
    }

    /// The address of the chapter on the site.
    pub fn url(&self) -> (r: String)
        ensures
            r@ == "https://mangadex.org/chapter/"@ + self.id@,
    {
        join2("https://mangadex.org/chapter/", self.id.as_str())
    }

    /// The id of the manga that the chapter belongs to.
    pub fn manga_id(&self) -> (r: Option<String>)
        ensures
            r.deep_view() == self.manga(),
    {
        match first_of_kind(&self.relationships, "manga") {
            Some(i) => Some(self.relationships[i].id.clone()),
            None => None,
        }
    }

    /// Who released the chapter.
    pub fn scanlators(&self) -> (r: Vec<String>)
        ensures
            r.deep_view() == self.credited(),
    {
        let groups = names_of(&self.relationships, "scanlation_group", "name");
        if groups.len() == 0 {
            names_of(&self.relationships, "user", "username")
        } else {
            groups
        }
    }

    /// The chapter with all that the answer tells of it. A oneshot that
    /// does not say so is titled `Oneshot`.
    pub fn into_chapter(self) -> (c: Chapter)
        ensures
            c@ == self.chapter(),
            c@.wf(),
    {
        let chapter_number = parse_ordinal(&self.attributes.chapter);
        let volume_number = parse_ordinal(&self.attributes.volume);
        let no_volume = match &volume_number {
            Some(v) => v.is_zero(),
            None => true,
        };
        let no_title = match &self.attributes.title {
            Some(t) => t.as_str().unicode_len() == 0,
            None => true,
        };
        let title = if no_volume && chapter_number.is_none() && no_title {
            Some(String::from_str("Oneshot"))
        } else {
            clone_opt(&self.attributes.title)
        };
        let date_uploaded = rfc3339_timestamp(self.attributes.publish_at.as_str());
        let scanlators = self.scanlators();
        let url = self.url();
        let language = self.attributes.translated_language.clone();
        let mut chapter = Chapter::bare(self.id);
        chapter.title = title;
        chapter.chapter_number = chapter_number;
        chapter.volume_number = volume_number;
        chapter.date_uploaded = date_uploaded;
        chapter.scanlators = Some(scanlators);
        chapter.url = Some(url);
        chapter.language = Some(language);
        chapter
    }
}

} // verus!
