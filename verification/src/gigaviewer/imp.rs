//! The tile permutation of scrambled page images, and the decisions of the
//! viewer template around its requests.

use vstd::prelude::*;
use vstd::arithmetic::div_mod::lemma_fundamental_div_mod_converse;
use crate::decimal::{i64_chars, int_text, parse_u64, unsigned_value};
use crate::gigaviewer::parser::{
    listing_entries, parse_chapter_elements, parse_response, episode_entries, with_oneshot,
    EpisodeItem, ListingItem,
};
use crate::gigaviewer::models::{GigaEpisode, GigaPage};
use crate::gigaviewer::Params;
use crate::model::{
    Chapter, ChapterView, DeepLinkResult, DeepLinkView, Manga, MangaPageResult, MangaView, Page,
    PageView, SourceError, SourceErrorView, Viewer,
};
use crate::text::{
    clone_opt, join2, lookup, lookup_in, split, split_strings, str_eq, str_strip_prefix, string_of,
    strip_prefix,
};

verus! {

/// Tiles per row and per column of a scrambled image.
pub const DIVIDE_NUM: u64 = 4;

/// Tile sides are multiples of this many pixels.
pub const MULTIPLE: u64 = 8;

/// A rectangle of pixels: its top left corner and its size.
#[derive(Clone, Copy, Debug, PartialEq, Eq, Structural)]
pub struct Rect {
    pub x: u64,
    pub y: u64,
    pub width: u64,
    pub height: u64,
}

/// One tile copy: the pixels of `src` in the fetched image go to `dst` on
/// the canvas.
#[derive(Clone, Copy, Debug, PartialEq, Eq, Structural)]
pub struct TileMove {
    pub src: Rect,
    pub dst: Rect,
}

/// The side of a tile along a dimension of `dim` pixels: a quarter of the
/// dimension, rounded down to a multiple of 8.
pub open spec fn tile_extent(dim: int) -> int {
    dim / 32 * 8
}

/// The grid index at which tile `e` of the scrambled image belongs: the
/// tile of column `c` and row `r` goes to column `r` and row `c`.
pub open spec fn dst_index(e: int) -> int {
    (e % 4) * 4 + e / 4
}

/// The copy that puts tile `e` of a scrambled image of the given size in
/// its place.
pub open spec fn tile_move(e: int, width: int, height: int) -> TileMove {
    let tw = tile_extent(width);
    let th = tile_extent(height);
    TileMove {
        src: Rect {
            x: ((e % 4) * tw) as u64,
            y: ((e / 4) * th) as u64,
            width: tw as u64,
            height: th as u64,
        },
        dst: Rect {
            x: ((dst_index(e) % 4) * tw) as u64,
            y: ((dst_index(e) / 4) * th) as u64,
            width: tw as u64,
            height: th as u64,
        },
    }
}

/// The side of a tile along a dimension of `dim` pixels.
pub fn tile_side(dim: u64) -> (t: u64)
    ensures
        t == tile_extent(dim as int),
        4 * t <= dim,
{
    dim / (DIVIDE_NUM * MULTIPLE) * MULTIPLE
}

/// The sixteen tile copies that unscramble an image of the given size, by
/// tile index. They are meant to be drawn over a plain copy of the image,
/// whose edges outside the grid stay as they are.
pub fn tile_moves(width: u64, height: u64) -> (out: Vec<TileMove>)
    ensures
        out.len() == 16,
        forall|e: int| 0 <= e < 16 ==> out[e] == tile_move(e, width as int, height as int),
{
    let tw = tile_side(width);
    let th = tile_side(height);
    let mut out: Vec<TileMove> = Vec::new();
    let mut e: u64 = 0;
    while e < DIVIDE_NUM * DIVIDE_NUM
        invariant
            e <= 16,
            out.len() == e,
            tw == tile_extent(width as int),
            th == tile_extent(height as int),
            4 * tw <= width,
            4 * th <= height,
            forall|k: int| 0 <= k < e ==> out[k] == tile_move(k, width as int, height as int),
        decreases 16 - e,
    {
        let col = e % DIVIDE_NUM;
        let row = e / DIVIDE_NUM;
        let dst_e = col * DIVIDE_NUM + row;
        let dst_col = dst_e % DIVIDE_NUM;
        let dst_row = dst_e / DIVIDE_NUM;
        proof {
            assert(col * tw <= 3 * tw) by (nonlinear_arith)
                requires
                    col <= 3,
            ;
            assert(row * th <= 3 * th) by (nonlinear_arith)
                requires
                    row <= 3,
            ;
            assert(dst_col * tw <= 3 * tw) by (nonlinear_arith)
                requires
                    dst_col <= 3,
            ;
            assert(dst_row * th <= 3 * th) by (nonlinear_arith)
                requires
                    dst_row <= 3,
            ;
        }
        out.push(
            TileMove {
                src: Rect { x: col * tw, y: row * th, width: tw, height: th },
                dst: Rect { x: dst_col * tw, y: dst_row * th, width: tw, height: th },
            },
        );
        e += 1;
    }
    out
}

/// An image as rows of pixels, for working on page images in memory.
#[derive(Clone, Debug, PartialEq, Eq)]
pub struct Image {
    pub width: usize,
    pub height: usize,
    pub rows: Vec<Vec<u32>>,
}

impl Image {
    /// There are `height` rows of `width` pixels each.
    pub open spec fn wf(self) -> bool {
        &&& self.rows.len() == self.height
        &&& forall|y: int| 0 <= y < self.height ==> (#[trigger] self.rows[y]).len() == self.width
    }

    /// The pixel in column `x` of row `y`.
    pub open spec fn pixel(self, x: int, y: int) -> u32 {
        self.rows[y][x]
    }

    /// The pixel in column `i` of row `j` of the rectangle `r`.
    pub open spec fn pixel_in(self, r: Rect, i: int, j: int) -> u32 {
        self.pixel(r.x + i, r.y + j)
    }
}

/// Where the pixel at `(x, y)` of the unscrambled image lies in the
/// scrambled one: within the grid, at the same offset in the tile whose
/// column and row are the row and column of the tile that `(x, y)` is in;
/// outside the grid, at `(x, y)`.
pub open spec fn source_of(x: int, y: int, width: int, height: int) -> (int, int) {
    let tw = tile_extent(width);
    let th = tile_extent(height);
    if tw > 0 && th > 0 && x < 4 * tw && y < 4 * th {
        ((y / th) * tw + x % tw, (x / tw) * th + y % th)
    } else {
        (x, y)
    }
}

/// The pixels of the destination of tile `e` come from its source, offset
/// by offset.
pub proof fn lemma_source_of_tile(e: int, i: int, j: int, width: int, height: int)
    requires
        0 <= e < 16,
        0 <= width <= u64::MAX,
        0 <= height <= u64::MAX,
        0 <= i < tile_extent(width),
        0 <= j < tile_extent(height),
    ensures
        ({
            let m = tile_move(e, width, height);
            source_of(m.dst.x + i, m.dst.y + j, width, height) == (m.src.x + i, m.src.y + j)
        }),
        ({
            let m = tile_move(e, width, height);
            m.dst.x + i < 4 * tile_extent(width) <= width && m.dst.y + j < 4 * tile_extent(height)
                <= height
        }),
{
    let tw = tile_extent(width);
    let th = tile_extent(height);
    let d = dst_index(e);
    let col = e % 4;
    let row = e / 4;
    assert(d % 4 == row && d / 4 == col);
    assert(0 <= row * tw <= 3 * tw) by (nonlinear_arith)
        requires
            0 <= row <= 3,
            0 <= tw,
    ;
    assert(0 <= col * th <= 3 * th) by (nonlinear_arith)
        requires
            0 <= col <= 3,
            0 <= th,
    ;
    assert(0 <= col * tw <= 3 * tw) by (nonlinear_arith)
        requires
            0 <= col <= 3,
            0 <= tw,
    ;
    assert(0 <= row * th <= 3 * th) by (nonlinear_arith)
        requires
            0 <= row <= 3,
            0 <= th,
    ;
    let x = row * tw + i;
    let y = col * th + j;
    lemma_fundamental_div_mod_converse(x, tw, row, i);
    lemma_fundamental_div_mod_converse(y, th, col, j);
    let m = tile_move(e, width, height);
    assert(m.dst.x == row * tw);
    assert(m.dst.y == col * th);
    assert(m.src.x == col * tw);
    assert(m.src.y == row * th);
    assert(x / tw == row && x % tw == i);
    assert(y / th == col && y % th == j);
}

/// The pixel at `(x, y)` of the unscrambled image lies within the
/// scrambled one.
pub proof fn lemma_source_in_bounds(x: int, y: int, width: int, height: int)
    requires
        0 <= x < width,
        0 <= y < height,
    ensures
        0 <= source_of(x, y, width, height).0 < width,
        0 <= source_of(x, y, width, height).1 < height,
{
    let tw = tile_extent(width);
    let th = tile_extent(height);
    if tw > 0 && th > 0 && x < 4 * tw && y < 4 * th {
        let cx = x / tw;
        let cy = y / th;
        assert(0 <= cx <= 3 && 0 <= x % tw < tw) by (nonlinear_arith)
            requires
                0 <= x < 4 * tw,
                tw > 0,
                cx == x / tw,
        ;
        assert(0 <= cy <= 3 && 0 <= y % th < th) by (nonlinear_arith)
            requires
                0 <= y < 4 * th,
                th > 0,
                cy == y / th,
        ;
        assert(0 <= cy * tw <= 3 * tw) by (nonlinear_arith)
            requires
                0 <= cy <= 3,
                0 <= tw,
        ;
        assert(0 <= cx * th <= 3 * th) by (nonlinear_arith)
            requires
                0 <= cx <= 3,
                0 <= th,
        ;
    }
}

/// Unscrambles a page image whose sixteen tiles were shuffled: every tile
/// of the four by four grid goes where `tile_move` puts it, and the pixels
/// outside the grid stay where they are.
pub fn descramble(image: &Image) -> (out: Image)
    requires
        image.wf(),
    ensures
        out.wf(),
        out.width == image.width,
        out.height == image.height,
        forall|x: int, y: int|
            0 <= x < image.width && 0 <= y < image.height ==> #[trigger] out.pixel(x, y) == ({
                let s = source_of(x, y, image.width as int, image.height as int);
                image.pixel(s.0, s.1)
            }),
        forall|e: int, i: int, j: int|
            0 <= e < 16 && 0 <= i < tile_extent(image.width as int) && 0 <= j < tile_extent(
                image.height as int,
            ) ==> #[trigger] out.pixel_in(
                tile_move(e, image.width as int, image.height as int).dst,
                i,
                j,
            ) == image.pixel_in(tile_move(e, image.width as int, image.height as int).src, i, j),
        forall|x: int, y: int|
            0 <= x < image.width && 0 <= y < image.height && (x >= 4 * tile_extent(
                image.width as int,
            ) || y >= 4 * tile_extent(image.height as int)) ==> #[trigger] out.pixel(x, y)
                == image.pixel(x, y),
{
    let w = image.width;
    let h = image.height;
    let tw = tile_side(w as u64) as usize;
    let th = tile_side(h as u64) as usize;
    let mut rows: Vec<Vec<u32>> = Vec::new();
    let mut y: usize = 0;
    while y < h
        invariant
            y <= h,
            image.wf(),
            w == image.width,
            h == image.height,
            tw == tile_extent(w as int),
            th == tile_extent(h as int),
            rows.len() == y,
            forall|b: int| 0 <= b < y ==> (#[trigger] rows[b]).len() == w,
            forall|a: int, b: int|
                0 <= a < w && 0 <= b < y ==> #[trigger] rows[b][a] == ({
                    let s = source_of(a, b, w as int, h as int);
                    image.pixel(s.0, s.1)
                }),
        decreases h - y,
    {
        let mut row: Vec<u32> = Vec::new();
        let mut x: usize = 0;
        while x < w
            invariant
                x <= w,
                y < h,
                image.wf(),
                w == image.width,
                h == image.height,
                tw == tile_extent(w as int),
                th == tile_extent(h as int),
                row.len() == x,
                forall|a: int|
                    0 <= a < x ==> #[trigger] row[a] == ({
                        let s = source_of(a, y as int, w as int, h as int);
                        image.pixel(s.0, s.1)
                    }),
            decreases w - x,
        {
            proof {
                lemma_source_in_bounds(x as int, y as int, w as int, h as int);
            }
            let in_grid = tw > 0 && th > 0 && x / tw < 4 && y / th < 4;
            proof {
                if tw > 0 && th > 0 {
                    assert((x / tw < 4) == (x < 4 * tw)) by (nonlinear_arith)
                        requires
                            tw > 0,
                            x >= 0,
                    ;
                    assert((y / th < 4) == (y < 4 * th)) by (nonlinear_arith)
                        requires
                            th > 0,
                            y >= 0,
                    ;
                }
            }
            let (sx, sy): (usize, usize) = if in_grid {
                proof {
                    assert(0 <= (y / th) * tw <= 3 * tw) by (nonlinear_arith)
                        requires
                            0 <= y / th <= 3,
                            0 <= tw,
                    ;
                    assert(0 <= (x / tw) * th <= 3 * th) by (nonlinear_arith)
                        requires
                            0 <= x / tw <= 3,
                            0 <= th,
                    ;
                }
                ((y / th) * tw + x % tw, (x / tw) * th + y % th)
            } else {
                (x, y)
            };
            assert(image.rows[sy as int].len() == w);
            row.push(image.rows[sy][sx]);
            x += 1;
        }
        rows.push(row);
        y += 1;
    }
    let out = Image { width: w, height: h, rows };
    proof {
        assert forall|e: int, i: int, j: int|
            0 <= e < 16 && 0 <= i < tile_extent(image.width as int) && 0 <= j < tile_extent(
                image.height as int,
            ) implies #[trigger] out.pixel_in(
            tile_move(e, image.width as int, image.height as int).dst,
            i,
            j,
        ) == image.pixel_in(tile_move(e, image.width as int, image.height as int).src, i, j) by {
            lemma_source_of_tile(e, i, j, w as int, h as int);
            let m = tile_move(e, image.width as int, image.height as int);
            assert(out.pixel(m.dst.x + i, m.dst.y + j) == out.rows[m.dst.y + j][m.dst.x + i]);
        }
    }
    out
}

/// A dimension as the page context words it: the number it spells, or 0
/// where the key is missing or its value is no unsigned integer.
pub open spec fn dimension(context: Seq<(Seq<char>, Seq<char>)>, key: Seq<char>) -> u64 {
    match lookup(context, key) {
        Some(text) => match unsigned_value(text) {
            Some(v) => if v <= u64::MAX {
                v as u64
            } else {
                0
            },
            None => 0,
        },
        None => 0,
    }
}

/// The width and height that a page context records for its image. A page
/// without a context is an error.
pub fn page_geometry(context: &Option<Vec<(String, String)>>) -> (r: Result<
    (u64, u64),
    SourceError,
>)
    ensures
        match context {
            Some(pairs) => r == Ok::<(u64, u64), SourceError>(
                (dimension(pairs.deep_view(), "width"@), dimension(pairs.deep_view(), "height"@)),
            ),
            None => r is Err && r->Err_0@ == SourceErrorView::Message(
                "Missing page context"@,
            ),
        },
{
    let pairs = match context {
        Some(pairs) => pairs,
        None => {
            return Err(SourceError::Message(String::from_str("Missing page context")));
        },
    };
    let width = match lookup_in(pairs, "width") {
        Some(text) => match parse_u64(text.as_str()) {
            Some(v) => v,
            None => 0,
        },
        None => 0,
    };
    let height = match lookup_in(pairs, "height") {
        Some(text) => match parse_u64(text.as_str()) {
            Some(v) => v,
            None => 0,
        },
        None => 0,
    };
    Ok((width, height))
}

/// The tile copies that unscramble the image of a page, from the page's
/// context. A page without a context is an error.
pub fn process_page_image(context: &Option<Vec<(String, String)>>) -> (r: Result<
    Vec<TileMove>,
    SourceError,
>)
    ensures
        match context {
            Some(pairs) => r matches Ok(moves) && moves.len() == 16 && forall|e: int|
                0 <= e < 16 ==> moves[e] == tile_move(
                    e,
                    dimension(pairs.deep_view(), "width"@) as int,
                    dimension(pairs.deep_view(), "height"@) as int,
                ),
            None => r is Err && r->Err_0@ == SourceErrorView::Message(
                "Missing page context"@,
            ),
        },
{
    match page_geometry(context) {
        Ok((width, height)) => Ok(tile_moves(width, height)),
        Err(e) => Err(e),
    }
}

/// The page that an entry of the episode's data stands for: only entries
/// of kind `main` with a source count. The context records width and
/// height, 0 where the entry gives none.
pub open spec fn page_entry(page: GigaPage) -> Option<PageView> {
    if page.kind.deep_view() == Some("main"@) {
        match page.src.deep_view() {
            Some(src) => Some(
                PageView {
                    url: src,
                    context: Some(
                        seq![
                            (
                                "width"@,
                                int_text(
                                    match page.width {
                                        Some(w) => w as int,
                                        None => 0,
                                    },
                                ),
                            ),
                            (
                                "height"@,
                                int_text(
                                    match page.height {
                                        Some(h) => h as int,
                                        None => 0,
                                    },
                                ),
                            ),
                        ],
                    ),
                },
            ),
            None => None,
        }
    } else {
        None
    }
}

/// The pages of an episode, in the order of its data.
pub open spec fn page_entries(pages: Seq<GigaPage>) -> Seq<PageView>
    decreases pages.len(),
{
    if pages.len() == 0 {
        Seq::empty()
    } else {
        let head = page_entries(pages.drop_last());
        match page_entry(pages.last()) {
            Some(p) => head.push(p),
            None => head,
        }
    }
}

/// The page that an entry of the episode's data stands for, if any.
pub fn parse_page(page: &GigaPage) -> (r: Option<Page>)
    ensures
        r.deep_view() == page_entry(*page),
{
    let is_main = match &page.kind {
        Some(k) => str_eq(k.as_str(), "main"),
        None => false,
    };
    if !is_main {
        return None;
    }
    let src = match &page.src {
        Some(s) => s.clone(),
        None => {
            return None;
        },
    };
    let width: i64 = match page.width {
        Some(w) => w as i64,
        None => 0,
    };
    let height: i64 = match page.height {
        Some(h) => h as i64,
        None => 0,
    };
    let mut context: Vec<(String, String)> = Vec::new();
    context.push((String::from_str("width"), string_of(&i64_chars(width))));
    context.push((String::from_str("height"), string_of(&i64_chars(height))));
    let out = Page { url: src, context: Some(context) };
    assert(out@.context->Some_0 =~= page_entry(*page)->Some_0.context->Some_0);
    Some(out)
}

/// The pages of an episode: the entries of kind `main` that have a source,
/// in order, each with its width and height in its context.
pub fn get_page_list(pages: &Vec<GigaPage>) -> (out: Vec<Page>)
    ensures
        out.deep_view() == page_entries(pages@),
{
    let mut out: Vec<Page> = Vec::new();
    let mut i: usize = 0;
    assert(pages@.take(0) == Seq::<GigaPage>::empty());
    assert(out.deep_view() == Seq::<PageView>::empty());
    while i < pages.len()
        invariant
            i <= pages.len(),
            out.deep_view() == page_entries(pages@.take(i as int)),
        decreases pages.len() - i,
    {
        assert(pages@.take(i + 1).drop_last() == pages@.take(i as int));
        let ghost before = out.deep_view();
        match parse_page(&pages[i]) {
            Some(p) => {
                out.push(p);
                assert(out.deep_view() == before.push(p@));
            },
            None => {},
        }
        i += 1;
    }
    assert(pages@.take(pages.len() as int) == pages@);
    out
}

/// The result of a search: the manga of the result items, and never a
/// next page. `items` is `None` where the search had no query and nothing
/// was fetched; the result is then empty.
pub fn get_search_manga_list(items: Option<&Vec<ListingItem>>, base_url: &str) -> (r:
    MangaPageResult)
    ensures
        r@ == (
            match items {
                Some(list) => listing_entries(list@, base_url@),
                None => Seq::<MangaView>::empty(),
            },
            false,
        ),
{
    match items {
        Some(list) => MangaPageResult {
            entries: parse_response(list, base_url),
            has_next_page: false,
        },
        None => {
            let entries: Vec<Manga> = Vec::new();
            assert(entries.deep_view() == Seq::<MangaView>::empty());
            MangaPageResult { entries, has_next_page: false }
        },
    }
}

/// What the page of a series shows of its details. `header` tells whether
/// the page has the series header at all; the other fields are `None`
/// where the page has no such element.
#[derive(Clone, Debug, PartialEq, Eq)]
pub struct SeriesHeader {
    pub header: bool,
    pub title: Option<String>,
    pub cover: Option<String>,
    pub authors: Option<String>,
    pub description: Option<String>,
    pub vertical: Option<bool>,
}

/// The details that the page of a series gives: the title of the page, or
/// the known one where the page has none; authors as the pieces of the
/// author text between `/`; a vertical layout reads as a webtoon, any other
/// right to left.
pub open spec fn series_details(
    page: SeriesHeader,
    key: Seq<char>,
    known_title: Seq<char>,
    url: Seq<char>,
) -> MangaView {
    MangaView {
        cover: page.cover.deep_view(),
        authors: match page.authors.deep_view() {
            Some(text) => Some(split(text, '/')),
            None => None,
        },
        description: page.description.deep_view(),
        url: Some(url),
        viewer: if page.vertical == Some(true) {
            Viewer::Webtoon
        } else {
            Viewer::RightToLeft
        },
        ..MangaView::bare(
            key,
            match page.title.deep_view() {
                Some(t) => t,
                None => known_title,
            },
        )
    }
}

/// The details of a series from its page. A page without the series header
/// is an error; every other missing element leaves its field empty.
pub fn parse_details(page: &SeriesHeader, key: &str, known_title: &str, url: &str) -> (r: Result<
    Manga,
    SourceError,
>)
    ensures
        page.header ==> r is Ok && r->Ok_0@ == series_details(*page, key@, known_title@, url@),
        !page.header ==> r is Err && r->Err_0@ == SourceErrorView::Message(
            "漫画の情報がありません"@,
        ),
{
    if !page.header {
        return Err(SourceError::Message(String::from_str("漫画の情報がありません")));
    }
    let title = match &page.title {
        Some(t) => t.clone(),
        None => String::from_str(known_title),
    };
    let mut manga = Manga::bare(String::from_str(key), title);
    manga.cover = clone_opt(&page.cover);
    manga.authors = match &page.authors {
        Some(text) => Some(split_strings(text.as_str(), '/')),
        None => None,
    };
    manga.description = clone_opt(&page.description);
    manga.url = Some(String::from_str(url));
    manga.viewer = match page.vertical {
        Some(true) => Viewer::Webtoon,
        _ => Viewer::RightToLeft,
    };
    Ok(manga)
}

/// The identifier under which a series lists its episodes: the one of the
/// page's script element, else the one of its pagination element, else
/// the empty string.
pub fn aggregate_id(script_id: &Option<String>, pagination_id: &Option<String>) -> (id: String)
    ensures
        id@ == match script_id.deep_view() {
            Some(s) => s,
            None => match pagination_id.deep_view() {
                Some(p) => p,
                None => Seq::<char>::empty(),
            },
        },
{
    match script_id {
        Some(s) => s.clone(),
        None => match pagination_id {
            Some(p) => p.clone(),
            None => String::new(),
        },
    }
}

/// The query parameters of the first request for a series' episodes, in
/// order, before they are encoded.
pub fn episode_query(id: &str) -> (out: Vec<(String, String)>)
    ensures
        out.deep_view() == seq![
            ("aggregate_id"@, id@),
            ("number_since"@, "2147483647"@),
            ("number_until"@, "0"@),
            ("read_more_num"@, "150"@),
            ("type"@, "episode"@),
        ],
{
    let mut out: Vec<(String, String)> = Vec::new();
    out.push((String::from_str("aggregate_id"), String::from_str(id)));
    out.push((String::from_str("number_since"), String::from_str("2147483647")));
    out.push((String::from_str("number_until"), String::from_str("0")));
    out.push((String::from_str("read_more_num"), String::from_str("150")));
    out.push((String::from_str("type"), String::from_str("episode")));
    assert(out.deep_view() =~= seq![
        ("aggregate_id"@, id@),
        ("number_since"@, "2147483647"@),
        ("number_until"@, "0"@),
        ("read_more_num"@, "150"@),
        ("type"@, "episode"@),
    ]);
    out
}

/// One answer to a request for more episodes: the entries of its episode
/// list, or `None` where its markup holds no such list, and the address of
/// the next request.
#[derive(Clone, Debug, PartialEq, Eq)]
pub struct ReadMorePage {
    pub episodes: Option<Vec<EpisodeItem>>,
    pub next_url: String,
}

/// The chapters that one answer adds.
pub open spec fn read_more_chapters(
    page: ReadMorePage,
    base: Seq<char>,
    manga_title: Seq<char>,
    skip_locked: bool,
) -> Seq<ChapterView> {
    match page.episodes {
        Some(items) => with_oneshot(episode_entries(items@, base, skip_locked), manga_title),
        None => Seq::empty(),
    }
}

/// Takes in the outcome of one request for more episodes. An answer adds
/// its chapters to `chapters` and names the next address to ask; a failed
/// request adds nothing and ends the collection.
pub fn read_more_step(
    chapters: &mut Vec<Chapter>,
    answer: Option<&ReadMorePage>,
    base_url: &str,
    manga_title: &str,
    skip_locked: bool,
) -> (next: Option<String>)
    ensures
        match answer {
            Some(page) => next.deep_view() == Some(page.next_url@) && final(chapters).deep_view()
                == old(chapters).deep_view() + read_more_chapters(
                *page,
                base_url@,
                manga_title@,
                skip_locked,
            ),
            None => next is None && final(chapters).deep_view() == old(chapters).deep_view(),
        },
{
    let page = match answer {
        Some(page) => page,
        None => {
            return None;
        },
    };
    match &page.episodes {
        Some(items) => {
            let mut more = parse_chapter_elements(items, base_url, manga_title, skip_locked);
            let ghost add = more.deep_view();
            let ghost before = chapters.deep_view();
            chapters.append(&mut more);
            assert(chapters.deep_view() =~= before + add);
        },
        None => {
            assert(chapters.deep_view() =~= chapters.deep_view() + Seq::<ChapterView>::empty());
        },
    }
    Some(page.next_url.clone())
}

/// Whether the stored session is to be dropped on a notification: on
/// `login`, when no user name is stored any more.
pub fn handle_notification(notification: &str, logged_in: bool) -> (logout: bool)
    ensures
        logout == (notification@ == "login"@ && !logged_in),
{
    str_eq(notification, "login") && !logged_in
}

/// What a link into the site points at: below `base_url`, a path that
/// begins with `episode/` names a chapter, whose manga goes by the same
/// key as the chapter. Any other link points at nothing known.
pub open spec fn deep_link(base: Seq<char>, url: Seq<char>) -> Option<DeepLinkView> {
    match strip_prefix(url, base) {
        Some(path) => match strip_prefix(path, "episode/"@) {
            Some(key) => Some(DeepLinkView::Chapter { manga_key: key, key }),
            None => None,
        },
        None => None,
    }
}

/// Resolves a link into the site.
pub fn handle_deep_link(params: &Params, url: &str) -> (r: Option<DeepLinkResult>)
    ensures
        r.deep_view() == deep_link(params.base_url@, url@),
{
    let path = match str_strip_prefix(url, params.base_url.as_str()) {
        Some(p) => p,
        None => {
            return None;
        },
    };
    match str_strip_prefix(path.as_str(), "episode/") {
        Some(key) => Some(DeepLinkResult::Chapter { manga_key: key.clone(), key }),
        None => None,
    }
}

/// A listing that the template does not know: the error for it.
pub fn get_manga_list() -> (r: Result<MangaPageResult, SourceError>)
    ensures
        r is Err,
        r->Err_0@ == SourceErrorView::Message("Invalid listing"@),
{
    Err(SourceError::Message(String::from_str("Invalid listing")))
}

/// The template offers no home layout of its own.
pub fn get_home() -> (r: Result<(), SourceError>)
    ensures
        r == Err::<(), SourceError>(SourceError::Unimplemented),
{
    Err(SourceError::Unimplemented)
}

/// The address of the page of a series.
pub fn get_manga_url(params: &Params, key: &str) -> (url: String)
    ensures
        url@ == params.base_url@ + key@,
{
    join2(params.base_url.as_str(), key)
}

/// The address of a search, from its parameters as they are after
/// encoding.
pub fn get_search_url(params: &Params, encoded_params: &str) -> (url: String)
    ensures
        url@ == params.base_url@ + "/search?"@ + encoded_params@,
{
    crate::text::join3(params.base_url.as_str(), "/search?", encoded_params)
}

/// The address of the first request for the episodes of a series, from
/// the parameters of `episode_query` as they are after encoding.
pub fn get_episodes_url(params: &Params, encoded_params: &str) -> (url: String)
    ensures
        url@ == params.base_url@ + "/api/viewer/readable_products?"@ + encoded_params@,
{
    crate::text::join3(
        params.base_url.as_str(),
        "/api/viewer/readable_products?",
        encoded_params,
    )
}

/// The pages of an episode, from its data; see `get_page_list`.
pub fn get_episode_pages(episode: &GigaEpisode) -> (out: Vec<Page>)
    ensures
        out.deep_view() == page_entries(episode.readable_product.page_structure.pages@),
{
    get_page_list(&episode.readable_product.page_structure.pages)
}

/// Whether locked episodes are left out of a chapter list: only where the
/// setting to show them is there and switched off.
pub fn skip_locked(show_locked: Option<bool>) -> (r: bool)
    ensures
        r == (show_locked == Some(false)),
{
    match show_locked {
        Some(show) => !show,
        None => false,
    }
}

/// The address of the page of a chapter; a chapter without one is an
/// error.
pub fn get_chapter_url(url: Option<String>) -> (r: Result<String, SourceError>)
    ensures
        match url {
            Some(u) => r is Ok && r->Ok_0@ == u@,
            None => r is Err && r->Err_0@ == SourceErrorView::Message("URLがありません"@),
        },
{
    match url {
        Some(u) => Ok(u),
        None => Err(SourceError::Message(String::from_str("URLがありません"))),
    }
}

/// The data of an episode as the page of a chapter carries it; a page
/// without it shows a chapter that is not public, which is an error.
pub fn get_episode_json(value: Option<String>) -> (r: Result<String, SourceError>)
    ensures
        match value {
            Some(v) => r is Ok && r->Ok_0@ == v@,
            None => r is Err && r->Err_0@ == SourceErrorView::Message(
                "このチャプターは非公開です"@,
            ),
        },
{
    match value {
        Some(v) => Ok(v),
        None => Err(SourceError::Message(String::from_str("このチャプターは非公開です"))),
    }
}

} // verus!
