use manga_sources::decimal::Decimal;
use manga_sources::mangabox::helper::{
    encode, encode_char, get_chapter_number, get_search_url, status_from_string,
    strip_default_chapter_title,
};
use manga_sources::mangabox::imp::{
    content_rating, get_manga_list, get_page_list, get_page_url, get_search_manga_list,
    handle_deep_link, has_next_page, parse_chapters, parse_details, parse_genres, parse_popular,
    parse_updates, referer, viewer, ChapterRow, DetailsPage, PopularItem, SearchItem, UpdateItem,
};
use manga_sources::mangabox::Params;
use manga_sources::model::{
    Chapter, ContentRating, DeepLinkResult, FilterValue, Manga, MangaStatus, Page, SourceError,
    Viewer,
};

const BASE: &str = "https://www.manganato.gg";

fn s(text: &str) -> Option<String> {
    Some(text.to_string())
}

fn site() -> Params {
    let mut p = Params::default();
    p.base_url = BASE.to_string();
    p
}

fn select(id: &str, value: &str) -> FilterValue {
    FilterValue::Select { id: id.to_string(), value: value.to_string() }
}

fn sort(index: i32) -> FilterValue {
    FilterValue::Sort { id: "sort".to_string(), index, ascending: false }
}

fn tags(names: &[&str]) -> Vec<String> {
    names.iter().map(|n| n.to_string()).collect()
}

#[test]
fn default_params_of_the_genre_template() {
    let p = Params::default();
    assert_eq!(p.base_url, "");
    assert_eq!(p.item_selector, ".panel_story_list .story_item, .list-truyen-item-wrap");
    assert_eq!(p.search_path, "/search/story");
    assert!(p.genres.is_empty());
}

#[test]
fn status_is_the_last_word_of_the_line() {
    assert_eq!(status_from_string("Status : Ongoing"), MangaStatus::Ongoing);
    assert_eq!(status_from_string("  Completed  "), MangaStatus::Completed);
    assert_eq!(status_from_string("Status: Hiatus"), MangaStatus::Hiatus);
    assert_eq!(status_from_string("Cancelled"), MangaStatus::Cancelled);
    assert_eq!(status_from_string("Status : ongoing"), MangaStatus::Unknown);
    assert_eq!(status_from_string(""), MangaStatus::Unknown);
}

#[test]
fn chapter_number_comes_from_the_address() {
    assert_eq!(
        get_chapter_number("https://www.manganato.gg/manga/x/chapter-3"),
        Some(Decimal { mantissa: 3, scale: 0 })
    );
    assert_eq!(
        get_chapter_number("/manga/x/chapter-0-2"),
        Some(Decimal { mantissa: 2, scale: 1 })
    );
    assert_eq!(
        get_chapter_number("/manga/x/chapter-10-5"),
        Some(Decimal { mantissa: 105, scale: 1 })
    );
    assert_eq!(get_chapter_number("/manga/x/chapter-1-2-3"), None);
    assert_eq!(get_chapter_number("/manga/x/chapter-"), None);
    assert_eq!(get_chapter_number("/manga/x/ch-3"), None);
    assert_eq!(get_chapter_number("/manga/x/chapter-3/extra"), None);
}

#[test]
fn default_chapter_titles_are_stripped() {
    assert_eq!(strip_default_chapter_title("Chapter 12 The End".to_string()), " The End");
    assert_eq!(strip_default_chapter_title("Chapter 12".to_string()), "Chapter 12");
    assert_eq!(strip_default_chapter_title("Chapter 1.5: Extra".to_string()), " Extra");
    assert_eq!(strip_default_chapter_title("Short".to_string()), "Short");
    assert_eq!(strip_default_chapter_title("".to_string()), "");
}

#[test]
fn encode_makes_path_segments() {
    assert_eq!(encode("Solo Leveling".to_string(), '_'), "solo_leveling");
    assert_eq!(encode("It's-a_Test!".to_string(), '-'), "it-s-a-test-");
    assert_eq!(encode("Don’t Stop (2024)".to_string(), '_'), "don_t_stop_2024_");
    assert_eq!(encode("日本語 タイトル".to_string(), '-'), "日本語-タイトル");
    assert_eq!(encode("a  -  b".to_string(), '_'), "a_b");
    assert_eq!(encode("  lead".to_string(), '_'), "_lead");
    assert_eq!(encode("!!!".to_string(), '-'), "-");
    assert_eq!(encode("".to_string(), '-'), "");
    assert_eq!(encode("ABC123".to_string(), '-'), "abc123");
    assert_eq!(encode_char('A', true, false, '_'), Some('a'));
    assert_eq!(encode_char('A', true, true, '_'), Some('a'));
    assert_eq!(encode_char('É', true, false, '_'), Some('É'));
    assert_eq!(encode_char(' ', false, false, '_'), Some('_'));
    assert_eq!(encode_char(' ', false, true, '_'), None);
    assert_eq!(encode_char('!', false, false, '-'), Some('-'));
}

#[test]
fn search_with_a_query_ignores_filters() {
    let url = get_search_url(
        &site(),
        s("One Piece"),
        2,
        vec![sort(2), select("status", "Completed")],
    );
    assert_eq!(url, "https://www.manganato.gg/search/story/one_piece?page=2");
}

#[test]
fn filter_code_adds_sort_and_status() {
    let url = get_search_url(&site(), None, 1, vec![select("status", "Completed"), sort(1)]);
    assert_eq!(url, "https://www.manganato.gg/genre/all?filter=5&page=1");
    let url = get_search_url(&site(), None, 3, vec![sort(2), select("status", "Ongoing")]);
    assert_eq!(url, "https://www.manganato.gg/genre/all?filter=9&page=3");
    let url = get_search_url(&site(), None, 1, vec![sort(0)]);
    assert_eq!(url, "https://www.manganato.gg/genre/all?filter=1&page=1");
    let url = get_search_url(&site(), None, 1, vec![sort(7), select("status", "Dropped")]);
    assert_eq!(url, "https://www.manganato.gg/genre/all?filter=1&page=1");
}

#[test]
fn no_query_and_no_filters_give_the_default_code() {
    let url = get_search_url(&site(), None, 1, Vec::new());
    assert_eq!(url, "https://www.manganato.gg/genre/all?filter=1&page=1");
    let url = get_search_url(&site(), s(""), 1, Vec::new());
    assert_eq!(url, "https://www.manganato.gg/genre/all?filter=1&page=1");
    let url = get_search_url(&site(), s(""), 2, vec![sort(2)]);
    assert_eq!(url, "https://www.manganato.gg/genre/all?filter=7&page=2");
}

#[test]
fn genre_filter_chooses_the_path() {
    let url = get_search_url(
        &site(),
        None,
        4,
        vec![select("genre", "Slice of Life"), select("unknown", "x"), sort(1)],
    );
    assert_eq!(url, "https://www.manganato.gg/genre/slice-of-life?filter=4&page=4");
}

#[test]
fn later_filters_of_a_kind_win() {
    let url = get_search_url(
        &site(),
        None,
        1,
        vec![sort(2), select("status", "Ongoing"), select("status", "Completed"), sort(1)],
    );
    assert_eq!(url, "https://www.manganato.gg/genre/all?filter=5&page=1");
}

#[test]
fn text_filter_leads_to_the_author() {
    let url = get_search_url(
        &site(),
        None,
        5,
        vec![
            sort(1),
            FilterValue::Text { id: "author".to_string(), value: "Oda Eiichiro".to_string() },
            select("genre", "Action"),
            FilterValue::Text { id: "author".to_string(), value: "Other".to_string() },
        ],
    );
    assert_eq!(url, "https://www.manganato.gg/author/oda-eiichiro");
    let url = get_search_url(
        &site(),
        None,
        5,
        vec![
            FilterValue::Text { id: "note".to_string(), value: "Ignored".to_string() },
            sort(1),
        ],
    );
    assert_eq!(url, "https://www.manganato.gg/genre/all?filter=4&page=5");
}

#[test]
fn negative_pages_are_written_as_they_are() {
    let url = get_search_url(&site(), None, -1, Vec::new());
    assert_eq!(url, "https://www.manganato.gg/genre/all?filter=1&page=-1");
}

#[test]
fn listings_stand_for_filters() {
    assert_eq!(get_manga_list("new"), Ok(vec![sort(0)]));
    assert_eq!(get_manga_list("latest"), Ok(vec![sort(1)]));
    assert_eq!(get_manga_list("hot"), Ok(vec![sort(2)]));
    assert_eq!(get_manga_list("completed"), Ok(vec![sort(1), select("status", "Completed")]));
    assert_eq!(
        get_manga_list("other"),
        Err(SourceError::Message("Invalid listing".to_string()))
    );
    let url = get_search_url(&site(), None, 2, get_manga_list("completed").unwrap());
    assert_eq!(url, "https://www.manganato.gg/genre/all?filter=5&page=2");
}

#[test]
fn search_items_become_manga() {
    let items = vec![
        SearchItem {
            story_name: s("Story"),
            link_title: s("Link"),
            href: s("https://www.manganato.gg/manga/story"),
            cover: s("https://img/1.jpg"),
        },
        SearchItem { story_name: None, link_title: s("Link"), href: s("/manga/rel"), cover: None },
        SearchItem { story_name: None, link_title: None, href: s("/manga/none"), cover: None },
        SearchItem { story_name: s("No link"), link_title: None, href: None, cover: None },
    ];
    let page = get_search_manga_list(&items, &None, 1, BASE);
    assert_eq!(page.entries.len(), 2);
    let mut first = Manga::bare("/manga/story".to_string(), "Story".to_string());
    first.cover = s("https://img/1.jpg");
    first.url = s("https://www.manganato.gg/manga/story");
    assert_eq!(page.entries[0], first);
    assert_eq!(page.entries[1].title, "Link");
    assert_eq!(page.entries[1].key, "/manga/rel");
    assert!(page.has_next_page);
}

#[test]
fn next_page_follows_the_last_page_link() {
    assert!(has_next_page(&s("Last(35)"), 34, false));
    assert!(!has_next_page(&s("Last(35)"), 35, true));
    assert!(!has_next_page(&s("Last(35)"), 36, true));
    assert!(has_next_page(&None, 1, true));
    assert!(!has_next_page(&None, 1, false));
    assert!(has_next_page(&s("Last(x)"), 1, true));
    assert!(!has_next_page(&s("Last(x)"), 1, false));
    assert!(has_next_page(&s("Last"), 1, true));
    assert!(!has_next_page(&s("Last()"), 1, false));
    let empty = get_search_manga_list(&Vec::new(), &None, 1, BASE);
    assert!(!empty.has_next_page);
    let last = get_search_manga_list(&Vec::new(), &s("Last(9)"), 3, BASE);
    assert!(last.has_next_page);
}

#[test]
fn rating_and_viewer_follow_the_tags() {
    assert_eq!(content_rating(&tags(&["Action", "Smut"])), ContentRating::NSFW);
    assert_eq!(content_rating(&tags(&["Ecchi", "Mature"])), ContentRating::NSFW);
    assert_eq!(content_rating(&tags(&["Ecchi"])), ContentRating::Suggestive);
    assert_eq!(content_rating(&tags(&["Action"])), ContentRating::Safe);
    assert_eq!(content_rating(&tags(&[])), ContentRating::Safe);
    assert_eq!(viewer(&tags(&["Long Strip"])), Viewer::Webtoon);
    assert_eq!(viewer(&tags(&["Manhwa"])), Viewer::Webtoon);
    assert_eq!(viewer(&tags(&["Webtoons"])), Viewer::Webtoon);
    assert_eq!(viewer(&tags(&["Manga"])), Viewer::RightToLeft);
}

#[test]
fn details_fill_the_manga() {
    let mut known = Manga::bare("/manga/x".to_string(), "Known".to_string());
    known.artists = Some(tags(&["Kept"]));
    let page = DetailsPage {
        found: true,
        title: s("Title"),
        cover: s("https://img/c.jpg"),
        authors: Some(tags(&["Author"])),
        description: s("Title summary: \n A story. "),
        tags: Some(tags(&["Action", "Ecchi", "Manhua"])),
        status: s("Status : Completed"),
    };
    let out = parse_details(known, &page, "https://www.manganato.gg/manga/x").unwrap();
    assert_eq!(out.key, "/manga/x");
    assert_eq!(out.title, "Title");
    assert_eq!(out.cover, s("https://img/c.jpg"));
    assert_eq!(out.authors, Some(tags(&["Author"])));
    assert_eq!(out.artists, Some(tags(&["Kept"])));
    assert_eq!(out.description, s("A story."));
    assert_eq!(out.url, s("https://www.manganato.gg/manga/x"));
    assert_eq!(out.status, MangaStatus::Completed);
    assert_eq!(out.content_rating, ContentRating::Suggestive);
    assert_eq!(out.viewer, Viewer::Webtoon);
}

#[test]
fn details_tolerate_missing_fields_but_not_a_missing_block() {
    let known = Manga::bare("/manga/x".to_string(), "Known".to_string());
    let bare = DetailsPage {
        found: true,
        title: None,
        cover: None,
        authors: None,
        description: None,
        tags: None,
        status: None,
    };
    let out = parse_details(known.copy(), &bare, "u").unwrap();
    assert_eq!(out.title, "Known");
    assert_eq!(out.status, MangaStatus::Unknown);
    assert_eq!(out.content_rating, ContentRating::Safe);
    assert_eq!(out.viewer, Viewer::RightToLeft);
    assert_eq!(out.tags, None);
    let missing = DetailsPage { found: false, ..bare };
    assert_eq!(
        parse_details(known, &missing, "u"),
        Err(SourceError::Message("Missing manga details".to_string()))
    );
}

#[test]
fn chapter_rows_become_chapters() {
    let rows = vec![
        ChapterRow {
            href: s("https://www.manganato.gg/manga/x/chapter-10-5"),
            text: s("Chapter 10.5: Side story"),
            date_uploaded: Some(1700000000),
        },
        ChapterRow { href: None, text: s("Chapter 9"), date_uploaded: None },
        ChapterRow { href: s("/manga/x/chapter-9"), text: None, date_uploaded: None },
    ];
    let out = parse_chapters(&rows, BASE);
    assert_eq!(out.len(), 2);
    let mut first = Chapter::bare("/manga/x/chapter-10-5".to_string());
    first.title = s(" Side story");
    first.chapter_number = Some(Decimal { mantissa: 105, scale: 1 });
    first.date_uploaded = Some(1700000000);
    first.url = s("https://www.manganato.gg/manga/x/chapter-10-5");
    assert_eq!(out[0], first);
    assert_eq!(out[1].key, "/manga/x/chapter-9");
    assert_eq!(out[1].title, None);
    assert_eq!(out[1].chapter_number, Some(Decimal { mantissa: 9, scale: 0 }));
}

#[test]
fn pages_are_the_images_with_a_source() {
    let out = get_page_list(&vec![s("https://img/1.jpg"), None, s("https://img/2.jpg")]);
    assert_eq!(
        out,
        vec![
            Page { url: "https://img/1.jpg".to_string(), context: None },
            Page { url: "https://img/2.jpg".to_string(), context: None },
        ]
    );
}

#[test]
fn deep_links_of_the_genre_template() {
    let p = site();
    assert_eq!(handle_deep_link(&p, "https://www.manganato.gg/manga/im-a-villain/chapter-1"), None);
    assert_eq!(handle_deep_link(&p, "https://www.manganato.gg/genre/all"), None);
    assert_eq!(handle_deep_link(&p, "https://elsewhere.example/manga/x"), None);
    let q = Params { base_url: "https://www.manganato.gg/".to_string(), ..site() };
    assert_eq!(
        handle_deep_link(&q, "https://www.manganato.gg/manga/im-a-villain"),
        Some(DeepLinkResult::Manga { key: "manga/im-a-villain".to_string() })
    );
    assert_eq!(
        handle_deep_link(&q, "https://www.manganato.gg/manga/a/chapter-1/chapter-2"),
        Some(DeepLinkResult::Chapter {
            manga_key: "manga/a/chapter-1".to_string(),
            key: "manga/a/chapter-1/chapter-2".to_string(),
        })
    );
}

#[test]
fn home_rows_of_the_genre_template() {
    let popular = vec![
        PopularItem {
            href: s("https://www.manganato.gg/manga/a"),
            title: s("A"),
            image: true,
            cover: s("https://img/a.jpg"),
        },
        PopularItem { href: s("https://www.manganato.gg/manga/b"), title: s("B"), image: false, cover: None },
        PopularItem { href: s("https://other.example/manga/c"), title: s("C"), image: true, cover: None },
        PopularItem { href: s("https://www.manganato.gg/manga/d"), title: None, image: true, cover: None },
    ];
    let out = parse_popular(&popular, BASE);
    assert_eq!(out.len(), 1);
    assert_eq!(out[0].key, "/manga/a");
    assert_eq!(out[0].cover, s("https://img/a.jpg"));
    let updates = vec![
        UpdateItem { manga: popular[0].clone(), chapter_link: true, chapter_title: s("Chapter 3") },
        UpdateItem { manga: popular[0].clone(), chapter_link: false, chapter_title: None },
        UpdateItem { manga: popular[1].clone(), chapter_link: true, chapter_title: s("Chapter 1") },
    ];
    let out = parse_updates(&updates, BASE);
    assert_eq!(out.len(), 1);
    assert_eq!(out[0].manga.title, "A");
    assert_eq!(out[0].chapter.title, s("Chapter 3"));
    assert_eq!(out[0].chapter.key, "");
}

#[test]
fn genres_come_after_the_first_six_links() {
    let mut links: Vec<(Option<String>, Option<String>)> = Vec::new();
    for i in 0..6 {
        links.push((Some(format!("Sort {i}")), s("https://www.manganato.gg/genre/all")));
    }
    links.push((s("Action"), s("https://www.manganato.gg/genre/action")));
    links.push((s("Tag"), s("https://www.manganato.gg/tag/x")));
    links.push((None, s("https://www.manganato.gg/genre/none")));
    links.push((s("No target"), None));
    links.push((s("Drama"), s("https://www.manganato.gg/genre/drama")));
    assert_eq!(parse_genres(&links), vec!["Action".to_string(), "Drama".to_string()]);
    links.truncate(6);
    assert!(parse_genres(&links).is_empty());
    assert!(parse_genres(&Vec::new()).is_empty());
}

#[test]
fn addresses_of_the_genre_template() {
    assert_eq!(referer(&site()), "https://www.manganato.gg/");
    assert_eq!(get_page_url(&site(), "/manga/x"), "https://www.manganato.gg/manga/x");
}

#[test]
fn encode_keeps_ascii_letters_and_digits_only() {
    let mut n: u8 = 0;
    while n < 128 {
        let c = n as char;
        let out = encode(c.to_string(), '~');
        if c.is_ascii_alphanumeric() {
            assert_eq!(out, c.to_ascii_lowercase().to_string());
        } else {
            assert_eq!(out, "~");
        }
        n += 1;
    }
}
