use manga_sources::decimal::Decimal;
use manga_sources::model::{
    ContentRating, DeepLinkResult, FilterValue, Manga, MangaStatus, Page, SourceError, Viewer,
};
use manga_sources::weebcentral::filter::{get_filters, SortOptions};
use manga_sources::weebcentral::{
    chapter_deep_link, get_chapter_list_url, get_home, get_images_url, get_listing_url,
    get_manga_list, get_manga_url, get_page_list, get_search_manga_list, get_search_url,
    handle_deep_link, parse_chapters, parse_details, parse_manga, parse_manga_with_chapter, Card,
    ChapterRow, DeepLinkStep, DetailsPage, SearchResult, UpdateCard,
};

fn s(text: &str) -> Option<String> {
    Some(text.to_string())
}

fn strings(names: &[&str]) -> Vec<String> {
    names.iter().map(|n| n.to_string()).collect()
}

fn sort_options() -> SortOptions {
    SortOptions {
        names: strings(&["Best Match", "Alphabet", "Popularity"]),
        fallback: "Best Match".to_string(),
    }
}

fn card(href: &str, title: &str) -> Card {
    Card { href: s(href), image: true, cover: s("https://img/c.jpg"), title: s(title) }
}

fn row(href: &str, title: &str) -> ChapterRow {
    ChapterRow { href: s(href), title: s(title), datetime: s("2024-01-02T03:04:05.000Z") }
}

fn update() -> UpdateCard {
    UpdateCard {
        links: true,
        first_href: s("https://weebcentral.com/series/01J/Name"),
        last_href: s("https://weebcentral.com/chapters/01K"),
        image: true,
        cover: s("https://img/c.jpg"),
        title: s("Name"),
        chapter_line: true,
        chapter_text: s("Chapter 12.5"),
        datetime: s("2024-01-02T03:04:05Z"),
    }
}

fn pairs(list: &Vec<(String, String)>) -> Vec<(&str, &str)> {
    list.iter().map(|(k, v)| (k.as_str(), v.as_str())).collect()
}

#[test]
fn filters_make_parameters_in_order() {
    let filters = vec![
        FilterValue::Text { id: "author".to_string(), value: "Oda".to_string() },
        FilterValue::Text { id: "author".to_string(), value: "".to_string() },
        FilterValue::Sort { id: "sort".to_string(), index: 2, ascending: true },
        FilterValue::Sort { id: "sort".to_string(), index: 9, ascending: false },
        FilterValue::MultiSelect {
            id: "genre".to_string(),
            included: strings(&["Action"]),
            excluded: strings(&["Horror", "Gore"]),
        },
        FilterValue::MultiSelect {
            id: "status".to_string(),
            included: strings(&["&included_status=Ongoing", "&included_status=Hiatus"]),
            excluded: strings(&["ignored"]),
        },
        FilterValue::Check { id: "official".to_string(), value: 1 },
        FilterValue::Check { id: "official".to_string(), value: 0 },
        FilterValue::Check { id: "official".to_string(), value: 2 },
        FilterValue::Select { id: "x".to_string(), value: "y".to_string() },
    ];
    let (params, extra) = get_filters(&s("  one piece  "), &filters, &sort_options());
    assert_eq!(
        pairs(&params),
        vec![
            ("text", "one piece"),
            ("author", "Oda"),
            ("sort", "Popularity"),
            ("order", "Ascending"),
            ("sort", "Best Match"),
            ("order", "Descending"),
            ("included_tag", "Action"),
            ("excluded_tag", "Horror"),
            ("excluded_tag", "Gore"),
            ("official", "True"),
            ("official", "False"),
            ("official", "Any"),
        ]
    );
    assert_eq!(extra, "&included_status=Ongoing&included_status=Hiatus");
}

#[test]
fn empty_queries_add_no_text_parameter() {
    let (params, extra) = get_filters(&s("   "), &Vec::new(), &sort_options());
    assert!(params.is_empty());
    assert_eq!(extra, "");
    let (params, _) = get_filters(&None, &Vec::new(), &sort_options());
    assert!(params.is_empty());
    assert_eq!(sort_options().get(1), "Alphabet");
    assert_eq!(sort_options().get(-1), "Best Match");
    assert_eq!(sort_options().get(3), "Best Match");
}

#[test]
fn hot_updates_are_the_only_listing() {
    assert_eq!(get_listing_url("hot"), Ok("https://weebcentral.com/hot-updates".to_string()));
    assert_eq!(
        get_listing_url("latest"),
        Err(SourceError::Message("Invalid listing".to_string()))
    );
    let cards = vec![
        card("https://weebcentral.com/series/1/A", "A"),
        Card { image: false, ..card("https://weebcentral.com/series/2/B", "B") },
        Card { title: None, ..card("https://weebcentral.com/series/3/C", "C") },
        card("https://elsewhere.example/series/4/D", "D"),
        Card { href: None, ..card("", "E") },
    ];
    let page = get_manga_list(&cards);
    assert_eq!(page.entries.len(), 1);
    let mut expected = Manga::bare("/series/1/A".to_string(), "A".to_string());
    expected.cover = s("https://img/c.jpg");
    assert_eq!(page.entries[0], expected);
    assert!(!page.has_next_page);
    assert_eq!(parse_manga(&cards[1]), None);
}

#[test]
fn search_results_lose_the_official_prefix() {
    let result = |text: Option<&str>, href: &str| SearchResult {
        image: true,
        cover: None,
        link: true,
        text: text.map(String::from),
        href: s(href),
    };
    let items = vec![
        result(Some("Official  One Piece "), "https://weebcentral.com/series/1"),
        result(Some("Unofficial"), "https://weebcentral.com/series/2"),
        result(None, "https://weebcentral.com/series/3"),
        result(Some("Elsewhere"), "https://elsewhere.example/series/4"),
        SearchResult { image: false, ..result(Some("No image"), "https://weebcentral.com/series/5") },
        SearchResult { link: false, ..result(Some("No link"), "https://weebcentral.com/series/6") },
    ];
    let page = get_search_manga_list(&items);
    let titles: Vec<&str> = page.entries.iter().map(|m| m.title.as_str()).collect();
    assert_eq!(titles, vec!["One Piece", "Unofficial"]);
    assert!(page.has_next_page);
    let none = get_search_manga_list(&Vec::new());
    assert!(!none.has_next_page);
    assert_eq!(
        get_search_url(3, "text=a"),
        "https://weebcentral.com/search/data?limit=24&offset=48&display_mode=Full+Display&text=a"
    );
}

#[test]
fn details_of_a_manga_page() {
    let known = Manga::bare("/series/1/A".to_string(), "Known".to_string());
    let page = DetailsPage {
        found: true,
        title: s("Title"),
        cover: s("https://img/c.jpg"),
        authors: Some(strings(&["Author"])),
        description: s("About"),
        tags: Some(strings(&["Action", "Mature", "Manhwa"])),
        status: s("Complete"),
        kind: s("Manhwa"),
    };
    let out = parse_details(known.copy(), &page, "https://weebcentral.com/series/1/A").unwrap();
    assert_eq!(out.title, "Title");
    assert_eq!(out.status, MangaStatus::Completed);
    assert_eq!(out.content_rating, ContentRating::NSFW);
    assert_eq!(out.viewer, Viewer::Webtoon);
    assert_eq!(out.url, s("https://weebcentral.com/series/1/A"));
    assert_eq!(out.authors, Some(strings(&["Author"])));
    let plain = DetailsPage {
        title: None,
        tags: Some(strings(&["Ecchi"])),
        status: s("Canceled"),
        kind: s("Manga"),
        ..page.clone()
    };
    let out = parse_details(known.copy(), &plain, "u").unwrap();
    assert_eq!(out.title, "Known");
    assert_eq!(out.status, MangaStatus::Cancelled);
    assert_eq!(out.content_rating, ContentRating::Suggestive);
    assert_eq!(out.viewer, Viewer::RightToLeft);
    let bare = DetailsPage { tags: None, status: None, kind: None, ..page.clone() };
    let out = parse_details(known.copy(), &bare, "u").unwrap();
    assert_eq!(out.status, MangaStatus::Unknown);
    assert_eq!(out.content_rating, ContentRating::Safe);
    let missing = DetailsPage { found: false, ..page };
    assert_eq!(parse_details(known, &missing, "u"), Err(SourceError::Unimplemented));
}

#[test]
fn chapter_titles_tell_volume_from_chapter() {
    let rows = vec![
        row("https://weebcentral.com/chapters/1", "Chapter 12.5"),
        row("https://weebcentral.com/chapters/2", "Volume 3"),
        row("https://weebcentral.com/chapters/3", "Epilogue"),
        row("https://weebcentral.com/chapters/4", "Volume 2 Chapter 7"),
        row("https://elsewhere.example/chapters/5", "Chapter 1"),
        ChapterRow { href: None, ..row("", "Chapter 2") },
        ChapterRow { title: None, datetime: None, ..row("https://weebcentral.com/chapters/6", "") },
    ];
    let out = parse_chapters(&rows);
    assert_eq!(out.len(), 5);
    assert_eq!(out[0].key, "/chapters/1");
    assert_eq!(out[0].title, None);
    assert_eq!(out[0].chapter_number, Some(Decimal { mantissa: 125, scale: 1 }));
    assert_eq!(out[0].volume_number, None);
    assert_eq!(out[0].date_uploaded, Some(1704164645));
    assert_eq!(out[0].url, s("https://weebcentral.com/chapters/1"));
    assert_eq!(out[1].title, None);
    assert_eq!(out[1].chapter_number, None);
    assert_eq!(out[1].volume_number, Some(Decimal { mantissa: 3, scale: 0 }));
    assert_eq!(out[2].title, s("Epilogue"));
    assert_eq!(out[2].chapter_number, None);
    assert_eq!(out[2].volume_number, None);
    assert_eq!(out[3].title, None);
    assert_eq!(out[3].chapter_number, None);
    assert_eq!(out[3].volume_number, Some(Decimal { mantissa: 7, scale: 0 }));
    assert_eq!(out[4].title, None);
    assert_eq!(out[4].date_uploaded, None);
}

#[test]
fn addresses_of_the_site() {
    assert_eq!(get_manga_url("/series/1/A"), "https://weebcentral.com/series/1/A");
    assert_eq!(
        get_chapter_list_url("https://weebcentral.com/series/1/A"),
        "https://weebcentral.com/series/1/full-chapter-list"
    );
    assert_eq!(get_chapter_list_url("no-slash"), "no-slash");
    assert_eq!(
        get_images_url("/chapters/1"),
        "https://weebcentral.com/chapters/1/images?is_prev=False&reading_style=long_strip"
    );
    assert_eq!(
        get_page_list(&vec![s("https://img/1.png"), None]),
        vec![Page { url: "https://img/1.png".to_string(), context: None }]
    );
}

#[test]
fn updates_of_the_home_page() {
    let out = parse_manga_with_chapter(&update()).unwrap();
    assert_eq!(out.manga.key, "/series/01J/Name");
    assert_eq!(out.manga.title, "Name");
    assert_eq!(out.manga.cover, s("https://img/c.jpg"));
    assert_eq!(out.chapter.key, "/chapters/01K");
    assert_eq!(out.chapter.chapter_number, Some(Decimal { mantissa: 125, scale: 1 }));
    assert_eq!(out.chapter.date_uploaded, Some(1704164645));
    assert_eq!(parse_manga_with_chapter(&UpdateCard { links: false, ..update() }), None);
    assert_eq!(parse_manga_with_chapter(&UpdateCard { image: false, ..update() }), None);
    assert_eq!(parse_manga_with_chapter(&UpdateCard { chapter_line: false, ..update() }), None);
    assert_eq!(parse_manga_with_chapter(&UpdateCard { title: None, ..update() }), None);
    assert_eq!(
        parse_manga_with_chapter(&UpdateCard { last_href: s("https://x.example/c"), ..update() }),
        None
    );
    let textless = parse_manga_with_chapter(&UpdateCard { chapter_text: None, ..update() }).unwrap();
    assert_eq!(textless.chapter.chapter_number, None);
    let home = get_home(
        &vec![update(), UpdateCard { links: false, ..update() }],
        &vec![update()],
        &vec![card("https://weebcentral.com/series/1/A", "A")],
    );
    assert_eq!(home.hot_updates.len(), 1);
    assert_eq!(home.latest_updates.len(), 1);
    assert_eq!(home.recommendations.len(), 1);
}

#[test]
fn deep_links_of_the_site() {
    assert_eq!(
        handle_deep_link("https://weebcentral.com/series/01J76/Solo-Max-Level-Newbie"),
        Some(DeepLinkStep::Manga("/series/01J76/Solo-Max-Level-Newbie".to_string()))
    );
    assert_eq!(
        handle_deep_link("https://weebcentral.com/chapters/01JXN"),
        Some(DeepLinkStep::Chapter("/chapters/01JXN".to_string()))
    );
    assert_eq!(handle_deep_link("https://weebcentral.com/search"), None);
    assert_eq!(handle_deep_link("https://elsewhere.example/series/1"), None);
    assert_eq!(
        chapter_deep_link("/chapters/01JXN", &s("https://weebcentral.com/series/01J76/Solo")),
        Ok(DeepLinkResult::Chapter {
            manga_key: "/series/01J76/Solo".to_string(),
            key: "/chapters/01JXN".to_string(),
        })
    );
    assert_eq!(
        chapter_deep_link("/chapters/01JXN", &s("https://elsewhere.example/series/1")),
        Err(SourceError::Message("Missing manga key".to_string()))
    );
    assert_eq!(
        chapter_deep_link("/chapters/01JXN", &None),
        Err(SourceError::Message("Missing manga key".to_string()))
    );
}
