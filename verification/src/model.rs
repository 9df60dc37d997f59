//! The entities that every source produces: manga, chapters, pages,
//! listings and the filter values of a search.

use vstd::prelude::*;
use crate::decimal::Decimal;

verus! {

/// Publication status of a manga.
#[derive(Clone, Copy, Debug, PartialEq, Eq, Structural)]
pub enum MangaStatus {
    Unknown,
    Ongoing,
    Completed,
    Cancelled,
    Hiatus,
}

/// How explicit a manga is.
#[derive(Clone, Copy, Debug, PartialEq, Eq, Structural)]
pub enum ContentRating {
    Safe,
    Suggestive,
    NSFW,
}

/// How the pages of a manga are laid out for reading.
#[derive(Clone, Copy, Debug, PartialEq, Eq, Structural)]
pub enum Viewer {
    RightToLeft,
    LeftToRight,
    Webtoon,
}

/// One released installment of a manga.
#[derive(Clone, Debug, PartialEq, Eq)]
pub struct Chapter {
    pub key: String,
    pub title: Option<String>,
    pub chapter_number: Option<Decimal>,
    pub volume_number: Option<Decimal>,
    pub date_uploaded: Option<i64>,
    pub scanlators: Option<Vec<String>>,
    pub url: Option<String>,
    pub language: Option<String>,
    pub thumbnail: Option<String>,
    pub locked: bool,
}

/// What a `Chapter` holds, as mathematical values.
pub struct ChapterView {
    pub key: Seq<char>,
    pub title: Option<Seq<char>>,
    pub chapter_number: Option<Decimal>,
    pub volume_number: Option<Decimal>,
    pub date_uploaded: Option<i64>,
    pub scanlators: Option<Seq<Seq<char>>>,
    pub url: Option<Seq<char>>,
    pub language: Option<Seq<char>>,
    pub thumbnail: Option<Seq<char>>,
    pub locked: bool,
}

impl ChapterView {
    /// A chapter that holds its key and nothing else.
    pub open spec fn bare(key: Seq<char>) -> ChapterView {
        ChapterView {
            key,
            title: None,
            chapter_number: None,
            volume_number: None,
            date_uploaded: None,
            scanlators: None,
            url: None,
            language: None,
            thumbnail: None,
            locked: false,
        }
    }

    /// Both ordinals, where present, are well-formed decimals.
    pub open spec fn wf(self) -> bool {
        &&& self.chapter_number matches Some(d) ==> d.wf()
        &&& self.volume_number matches Some(d) ==> d.wf()
    }
}

impl View for Chapter {
    type V = ChapterView;

    open spec fn view(&self) -> ChapterView {
        ChapterView {
            key: self.key@,
            title: self.title.deep_view(),
            chapter_number: self.chapter_number,
            volume_number: self.volume_number,
            date_uploaded: self.date_uploaded,
            scanlators: self.scanlators.deep_view(),
            url: self.url.deep_view(),
            language: self.language.deep_view(),
            thumbnail: self.thumbnail.deep_view(),
            locked: self.locked,
        }
    }
}

impl DeepView for Chapter {
    type V = ChapterView;

    open spec fn deep_view(&self) -> ChapterView {
        self@
    }
}

impl Chapter {
    /// A copy of the chapter.
    pub fn copy(&self) -> (c: Chapter)
        ensures
            c@ == self@,
    {
        Chapter {
            key: self.key.clone(),
            title: crate::text::clone_opt(&self.title),
            chapter_number: self.chapter_number,
            volume_number: self.volume_number,
            date_uploaded: self.date_uploaded,
            scanlators: match &self.scanlators {
                Some(s) => Some(crate::text::clone_strings(s)),
                None => None,
            },
            url: crate::text::clone_opt(&self.url),
            language: crate::text::clone_opt(&self.language),
            thumbnail: crate::text::clone_opt(&self.thumbnail),
            locked: self.locked,
        }
    }

    /// A chapter that holds its key and nothing else.
    pub fn bare(key: String) -> (c: Chapter)
        ensures
            c@ == ChapterView::bare(key@),
    {
        Chapter {
            key,
            title: None,
            chapter_number: None,
            volume_number: None,
            date_uploaded: None,
            scanlators: None,
            url: None,
            language: None,
            thumbnail: None,
            locked: false,
        }
    }
}

/// A manga, as a listing summary or with its details filled in.
#[derive(Clone, Debug, PartialEq, Eq)]
pub struct Manga {
    pub key: String,
    pub title: String,
    pub cover: Option<String>,
    pub artists: Option<Vec<String>>,
    pub authors: Option<Vec<String>>,
    pub description: Option<String>,
    pub url: Option<String>,
    pub tags: Option<Vec<String>>,
    pub status: MangaStatus,
    pub content_rating: ContentRating,
    pub viewer: Viewer,
    pub chapters: Option<Vec<Chapter>>,
}

/// What a `Manga` holds, as mathematical values.
pub struct MangaView {
    pub key: Seq<char>,
    pub title: Seq<char>,
    pub cover: Option<Seq<char>>,
    pub artists: Option<Seq<Seq<char>>>,
    pub authors: Option<Seq<Seq<char>>>,
    pub description: Option<Seq<char>>,
    pub url: Option<Seq<char>>,
    pub tags: Option<Seq<Seq<char>>>,
    pub status: MangaStatus,
    pub content_rating: ContentRating,
    pub viewer: Viewer,
    pub chapters: Option<Seq<ChapterView>>,
}

impl MangaView {
    /// A summary with key and title: no details, status unknown, rated
    /// safe, read right to left.
    pub open spec fn bare(key: Seq<char>, title: Seq<char>) -> MangaView {
        MangaView {
            key,
            title,
            cover: None,
            artists: None,
            authors: None,
            description: None,
            url: None,
            tags: None,
            status: MangaStatus::Unknown,
            content_rating: ContentRating::Safe,
            viewer: Viewer::RightToLeft,
            chapters: None,
        }
    }
}

impl View for Manga {
    type V = MangaView;

    open spec fn view(&self) -> MangaView {
        MangaView {
            key: self.key@,
            title: self.title@,
            cover: self.cover.deep_view(),
            artists: self.artists.deep_view(),
            authors: self.authors.deep_view(),
            description: self.description.deep_view(),
            url: self.url.deep_view(),
            tags: self.tags.deep_view(),
            status: self.status,
            content_rating: self.content_rating,
            viewer: self.viewer,
            chapters: self.chapters.deep_view(),
        }
    }
}

impl DeepView for Manga {
    type V = MangaView;

    open spec fn deep_view(&self) -> MangaView {
        self@
    }
}

/// A copy of a list of chapters.
pub fn copy_chapters(list: &Vec<Chapter>) -> (out: Vec<Chapter>)
    ensures
        out.deep_view() == list.deep_view(),
{
    let mut out: Vec<Chapter> = Vec::new();
    let mut i: usize = 0;
    while i < list.len()
        invariant
            i <= list.len(),
            out.len() == i,
            forall|j: int| 0 <= j < i ==> out[j]@ == list[j]@,
        decreases list.len() - i,
    {
        out.push(list[i].copy());
        i += 1;
    }
    assert(out.deep_view() =~= list.deep_view());
    out
}

impl MangaView {
    /// A manga with its details replaced by those of `details`: title,
    /// cover, authors, artists, description, address, tags, status, rating
    /// and layout. Key and chapters stay as they are.
    pub open spec fn with_details_of(self, details: MangaView) -> MangaView {
        MangaView { key: self.key, chapters: self.chapters, ..details }
    }
}

impl Manga {
    /// Takes over the details of `details`: title, cover, authors,
    /// artists, description, address, tags, status, rating and layout.
    /// Key and chapters stay as they are.
    pub fn merge_details(&mut self, details: Manga)
        ensures
            final(self)@ == old(self)@.with_details_of(details@),
    {
        self.title = details.title;
        self.cover = details.cover;
        self.authors = details.authors;
        self.artists = details.artists;
        self.description = details.description;
        self.url = details.url;
        self.tags = details.tags;
        self.status = details.status;
        self.content_rating = details.content_rating;
        self.viewer = details.viewer;
    }

    /// A copy of the manga.
    pub fn copy(&self) -> (m: Manga)
        ensures
            m@ == self@,
    {
        Manga {
            key: self.key.clone(),
            title: self.title.clone(),
            cover: crate::text::clone_opt(&self.cover),
            artists: match &self.artists {
                Some(s) => Some(crate::text::clone_strings(s)),
                None => None,
            },
            authors: match &self.authors {
                Some(s) => Some(crate::text::clone_strings(s)),
                None => None,
            },
            description: crate::text::clone_opt(&self.description),
            url: crate::text::clone_opt(&self.url),
            tags: match &self.tags {
                Some(s) => Some(crate::text::clone_strings(s)),
                None => None,
            },
            status: self.status,
            content_rating: self.content_rating,
            viewer: self.viewer,
            chapters: match &self.chapters {
                Some(c) => Some(copy_chapters(c)),
                None => None,
            },
        }
    }

    /// A summary with key and title: no details, status unknown, rated
    /// safe, read right to left.
    pub fn bare(key: String, title: String) -> (m: Manga)
        ensures
            m@ == MangaView::bare(key@, title@),
    {
        Manga {
            key,
            title,
            cover: None,
            artists: None,
            authors: None,
            description: None,
            url: None,
            tags: None,
            status: MangaStatus::Unknown,
            content_rating: ContentRating::Safe,
            viewer: Viewer::RightToLeft,
            chapters: None,
        }
    }
}

/// A manga together with one of its chapters, for update feeds.
#[derive(Clone, Debug, PartialEq, Eq)]
pub struct MangaWithChapter {
    pub manga: Manga,
    pub chapter: Chapter,
}

impl View for MangaWithChapter {
    type V = (MangaView, ChapterView);

    open spec fn view(&self) -> (MangaView, ChapterView) {
        (self.manga@, self.chapter@)
    }
}

impl DeepView for MangaWithChapter {
    type V = (MangaView, ChapterView);

    open spec fn deep_view(&self) -> (MangaView, ChapterView) {
        self@
    }
}

/// One page of a listing or search.
#[derive(Clone, Debug, PartialEq, Eq)]
pub struct MangaPageResult {
    pub entries: Vec<Manga>,
    pub has_next_page: bool,
}

impl View for MangaPageResult {
    type V = (Seq<MangaView>, bool);

    open spec fn view(&self) -> (Seq<MangaView>, bool) {
        (self.entries.deep_view(), self.has_next_page)
    }
}

/// One page of a chapter: where its image is, and what the image
/// processor has to know of it, as keys and values in the order given.
#[derive(Clone, Debug, PartialEq, Eq)]
pub struct Page {
    pub url: String,
    pub context: Option<Vec<(String, String)>>,
}

/// What a `Page` holds, as mathematical values.
pub struct PageView {
    pub url: Seq<char>,
    pub context: Option<Seq<(Seq<char>, Seq<char>)>>,
}

impl View for Page {
    type V = PageView;

    open spec fn view(&self) -> PageView {
        PageView { url: self.url@, context: self.context.deep_view() }
    }
}

impl DeepView for Page {
    type V = PageView;

    open spec fn deep_view(&self) -> PageView {
        self@
    }
}

/// A constraint that the user chose for a search.
#[derive(Clone, Debug, PartialEq, Eq)]
pub enum FilterValue {
    Text { id: String, value: String },
    Sort { id: String, index: i32, ascending: bool },
    Check { id: String, value: i32 },
    Select { id: String, value: String },
    MultiSelect { id: String, included: Vec<String>, excluded: Vec<String> },
}

/// What a `FilterValue` holds, as mathematical values.
pub enum FilterView {
    Text { id: Seq<char>, value: Seq<char> },
    Sort { id: Seq<char>, index: i32, ascending: bool },
    Check { id: Seq<char>, value: i32 },
    Select { id: Seq<char>, value: Seq<char> },
    MultiSelect { id: Seq<char>, included: Seq<Seq<char>>, excluded: Seq<Seq<char>> },
}

impl View for FilterValue {
    type V = FilterView;

    open spec fn view(&self) -> FilterView {
        match self {
            FilterValue::Text { id, value } => FilterView::Text { id: id@, value: value@ },
            FilterValue::Sort { id, index, ascending } => FilterView::Sort {
                id: id@,
                index: *index,
                ascending: *ascending,
            },
            FilterValue::Check { id, value } => FilterView::Check { id: id@, value: *value },
            FilterValue::Select { id, value } => FilterView::Select { id: id@, value: value@ },
            FilterValue::MultiSelect { id, included, excluded } => FilterView::MultiSelect {
                id: id@,
                included: included.deep_view(),
                excluded: excluded.deep_view(),
            },
        }
    }
}

impl DeepView for FilterValue {
    type V = FilterView;

    open spec fn deep_view(&self) -> FilterView {
        self@
    }
}

/// A named collection of manga that a site offers.
#[derive(Clone, Debug, PartialEq, Eq)]
pub struct Listing {
    pub id: String,
    pub name: String,
}

/// What a link into a site points at.
#[derive(Clone, Debug, PartialEq, Eq)]
pub enum DeepLinkResult {
    Manga { key: String },
    Chapter { manga_key: String, key: String },
}

/// What a `DeepLinkResult` holds, as mathematical values.
pub enum DeepLinkView {
    Manga { key: Seq<char> },
    Chapter { manga_key: Seq<char>, key: Seq<char> },
}

impl View for DeepLinkResult {
    type V = DeepLinkView;

    open spec fn view(&self) -> DeepLinkView {
        match self {
            DeepLinkResult::Manga { key } => DeepLinkView::Manga { key: key@ },
            DeepLinkResult::Chapter { manga_key, key } => DeepLinkView::Chapter {
                manga_key: manga_key@,
                key: key@,
            },
        }
    }
}

impl DeepView for DeepLinkResult {
    type V = DeepLinkView;

    open spec fn deep_view(&self) -> DeepLinkView {
        self@
    }
}

/// Why a source call failed.
#[derive(Clone, Debug, PartialEq, Eq)]
pub enum SourceError {
    /// The call is not offered by the source.
    Unimplemented,
    /// A payload could not be decoded.
    JsonParseError,
    /// Anything else, with the words for it.
    Message(String),
}

/// What a `SourceError` holds, as mathematical values.
pub enum SourceErrorView {
    Unimplemented,
    JsonParseError,
    Message(Seq<char>),
}

impl View for SourceError {
    type V = SourceErrorView;

    open spec fn view(&self) -> SourceErrorView {
        match self {
            SourceError::Unimplemented => SourceErrorView::Unimplemented,
            SourceError::JsonParseError => SourceErrorView::JsonParseError,
            SourceError::Message(m) => SourceErrorView::Message(m@),
        }
    }
}

} // verus!
