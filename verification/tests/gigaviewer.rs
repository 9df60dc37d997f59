use manga_sources::decimal::Decimal;
use manga_sources::gigaviewer::auth::{authed, is_logged_in, login, login_body, login_url};
use manga_sources::gigaviewer::imp::{
    aggregate_id, episode_query, get_episodes_url, get_home, get_manga_list, get_manga_url,
    get_page_list, get_search_manga_list, get_search_url, handle_deep_link, handle_notification,
    get_chapter_url, get_episode_json, get_episode_pages, parse_details, read_more_step,
    skip_locked, ReadMorePage, SeriesHeader,
};
use manga_sources::gigaviewer::models::{
    GigaEpisode, GigaPage, GigaPageStructure, GigaReadMoreResponse, GigaReadableProduct,
};
use manga_sources::gigaviewer::parser::{
    parse_chapter_elements, parse_response, EpisodeItem, ListingItem,
};
use manga_sources::gigaviewer::Params;
use manga_sources::model::{Chapter, DeepLinkResult, Manga, Page, SourceError, Viewer};

const BASE: &str = "https://shonenjumpplus.com";

fn s(text: &str) -> Option<String> {
    Some(text.to_string())
}

fn listing_item(href: Option<&str>, title: Option<&str>) -> ListingItem {
    ListingItem {
        href: href.map(String::from),
        title: title.map(String::from),
        cover: None,
        authors: None,
        description: None,
    }
}

fn episode(href: Option<&str>, title: Option<&str>, locked: bool) -> EpisodeItem {
    EpisodeItem {
        date_uploaded: None,
        locked,
        href: href.map(String::from),
        title: title.map(String::from),
        thumbnail: None,
    }
}

fn site() -> Params {
    let mut p = Params::default();
    p.base_url = BASE.to_string();
    p
}

#[test]
fn default_params_of_the_viewer_template() {
    let p = Params::default();
    assert_eq!(p.base_url, "");
    assert_eq!(p.popular_item_selector, "ul.series-list li a");
    assert_eq!(p.chapter_list_selector, "li.episode");
}

#[test]
fn listing_items_need_link_and_title() {
    let items = vec![
        listing_item(Some("https://shonenjumpplus.com/episode/1"), None),
        ListingItem {
            href: s("https://shonenjumpplus.com/episode/2"),
            title: s("Second"),
            cover: s("https://cdn/2.jpg"),
            authors: s("A/B"),
            description: s("About"),
        },
        listing_item(Some("https://elsewhere.example/episode/3"), Some("Third")),
        listing_item(None, Some("Fourth")),
    ];
    let out = parse_response(&items, BASE);
    assert_eq!(out.len(), 1);
    let mut expected = Manga::bare("/episode/2".to_string(), "Second".to_string());
    expected.cover = s("https://cdn/2.jpg");
    expected.authors = Some(vec!["A".to_string(), "B".to_string()]);
    expected.description = s("About");
    assert_eq!(out[0], expected);
}

#[test]
fn listing_keeps_the_order_of_its_items() {
    let items = vec![
        listing_item(Some("https://shonenjumpplus.com/a"), Some("A")),
        listing_item(Some("https://shonenjumpplus.com/b"), Some("B")),
        listing_item(Some("https://shonenjumpplus.com/c"), Some("C")),
    ];
    let keys: Vec<String> = parse_response(&items, BASE).into_iter().map(|m| m.key).collect();
    assert_eq!(keys, vec!["/a", "/b", "/c"]);
    assert_eq!(parse_response(&Vec::new(), BASE), Vec::new());
}

#[test]
fn episodes_become_chapters() {
    let items = vec![
        EpisodeItem {
            date_uploaded: Some(1700000000),
            locked: false,
            href: s("https://shonenjumpplus.com/episode/10"),
            title: s("第12話 後編"),
            thumbnail: s("https://cdn/t.jpg"),
        },
        episode(Some("https://other.example/episode/11"), Some("番外編"), true),
        episode(None, Some("第1話"), false),
    ];
    let out = parse_chapter_elements(&items, BASE, "Series", false);
    assert_eq!(out.len(), 2);
    let mut first = Chapter::bare("/episode/10".to_string());
    first.title = s("第12話 後編");
    first.chapter_number = Some(Decimal { mantissa: 122, scale: 1 });
    first.date_uploaded = Some(1700000000);
    first.url = s("https://shonenjumpplus.com/episode/10");
    first.thumbnail = s("https://cdn/t.jpg");
    assert_eq!(out[0], first);
    let mut second = Chapter::bare("https://other.example/episode/11".to_string());
    second.title = s("番外編");
    second.url = s("https://other.example/episode/11");
    second.locked = true;
    assert_eq!(out[1], second);
}

#[test]
fn locked_episodes_are_skipped_on_request() {
    let items = vec![
        episode(Some("https://shonenjumpplus.com/episode/1"), Some("第1話"), true),
        episode(Some("https://shonenjumpplus.com/episode/2"), Some("第2話"), false),
    ];
    let shown = parse_chapter_elements(&items, BASE, "Series", false);
    assert_eq!(shown.len(), 2);
    let skipped = parse_chapter_elements(&items, BASE, "Series", true);
    assert_eq!(skipped.len(), 1);
    assert_eq!(skipped[0].key, "/episode/2");
}

#[test]
fn a_single_chapter_with_the_manga_title_is_a_oneshot() {
    let items = vec![episode(Some("https://shonenjumpplus.com/episode/1"), Some("読切"), false)];
    let out = parse_chapter_elements(&items, BASE, "読切", false);
    assert_eq!(out.len(), 1);
    assert_eq!(out[0].chapter_number, Some(Decimal { mantissa: 1, scale: 0 }));
    let other = parse_chapter_elements(&items, BASE, "別の題", false);
    assert_eq!(other[0].chapter_number, None);
    let two = vec![
        episode(Some("https://shonenjumpplus.com/episode/1"), Some("読切"), false),
        episode(Some("https://shonenjumpplus.com/episode/2"), Some("読切"), false),
    ];
    let both = parse_chapter_elements(&two, BASE, "読切", false);
    assert_eq!(both[0].chapter_number, None);
    assert_eq!(both[1].chapter_number, None);
}

#[test]
fn pages_of_kind_main_carry_their_geometry() {
    let pages = vec![
        GigaPage { src: s("https://cdn/1.jpg"), kind: s("main"), width: Some(844), height: Some(1200) },
        GigaPage { src: s("https://cdn/ad.jpg"), kind: s("link"), width: Some(1), height: Some(1) },
        GigaPage { src: None, kind: s("main"), width: Some(1), height: Some(1) },
        GigaPage { src: s("https://cdn/2.jpg"), kind: s("main"), width: None, height: None },
        GigaPage { src: s("https://cdn/3.jpg"), kind: None, width: None, height: None },
    ];
    let out = get_page_list(&pages);
    assert_eq!(
        out,
        vec![
            Page {
                url: "https://cdn/1.jpg".to_string(),
                context: Some(vec![
                    ("width".to_string(), "844".to_string()),
                    ("height".to_string(), "1200".to_string()),
                ]),
            },
            Page {
                url: "https://cdn/2.jpg".to_string(),
                context: Some(vec![
                    ("width".to_string(), "0".to_string()),
                    ("height".to_string(), "0".to_string()),
                ]),
            },
        ]
    );
}

#[test]
fn episode_data_gives_its_pages() {
    let episode = GigaEpisode {
        readable_product: GigaReadableProduct {
            page_structure: GigaPageStructure {
                pages: vec![
                    GigaPage { src: s("https://cdn/1.jpg"), kind: s("main"), width: Some(8), height: Some(9) },
                    GigaPage { src: s("https://cdn/x.jpg"), kind: s("other"), width: None, height: None },
                ],
            },
        },
    };
    let pages = get_episode_pages(&episode);
    assert_eq!(pages.len(), 1);
    assert_eq!(pages[0].url, "https://cdn/1.jpg");
    let more = GigaReadMoreResponse { html: "<ul></ul>".to_string(), next_url: "n".to_string() };
    assert_eq!(more.clone(), more);
}

#[test]
fn search_without_a_query_is_empty() {
    let none = get_search_manga_list(None, BASE);
    assert!(none.entries.is_empty());
    assert!(!none.has_next_page);
    let items = vec![listing_item(Some("https://shonenjumpplus.com/episode/1"), Some("One"))];
    let found = get_search_manga_list(Some(&items), BASE);
    assert_eq!(found.entries.len(), 1);
    assert!(!found.has_next_page);
}

#[test]
fn series_details_need_the_header() {
    let missing = SeriesHeader {
        header: false,
        title: s("T"),
        cover: None,
        authors: None,
        description: None,
        vertical: None,
    };
    assert_eq!(
        parse_details(&missing, "/episode/1", "Known", "https://shonenjumpplus.com/episode/1"),
        Err(SourceError::Message("漫画の情報がありません".to_string()))
    );
    let page = SeriesHeader {
        header: true,
        title: None,
        cover: s("https://cdn/c.jpg"),
        authors: s("原作/作画"),
        description: s("あらすじ"),
        vertical: Some(true),
    };
    let manga =
        parse_details(&page, "/episode/1", "Known", "https://shonenjumpplus.com/episode/1").unwrap();
    let mut expected = Manga::bare("/episode/1".to_string(), "Known".to_string());
    expected.cover = s("https://cdn/c.jpg");
    expected.authors = Some(vec!["原作".to_string(), "作画".to_string()]);
    expected.description = s("あらすじ");
    expected.url = s("https://shonenjumpplus.com/episode/1");
    expected.viewer = Viewer::Webtoon;
    assert_eq!(manga, expected);
    let horizontal = SeriesHeader { vertical: Some(false), title: s("New"), ..page };
    let manga = parse_details(&horizontal, "/k", "Known", "u").unwrap();
    assert_eq!(manga.viewer, Viewer::RightToLeft);
    assert_eq!(manga.title, "New");
}

#[test]
fn aggregate_id_falls_back() {
    assert_eq!(aggregate_id(&s("a"), &s("b")), "a");
    assert_eq!(aggregate_id(&None, &s("b")), "b");
    assert_eq!(aggregate_id(&None, &None), "");
}

#[test]
fn episode_query_lists_its_parameters() {
    let q = episode_query("123");
    let pairs: Vec<(&str, &str)> = q.iter().map(|(k, v)| (k.as_str(), v.as_str())).collect();
    assert_eq!(
        pairs,
        vec![
            ("aggregate_id", "123"),
            ("number_since", "2147483647"),
            ("number_until", "0"),
            ("read_more_num", "150"),
            ("type", "episode"),
        ]
    );
}

#[test]
fn read_more_collects_until_a_request_fails() {
    let mut chapters = Vec::new();
    let first = ReadMorePage {
        episodes: Some(vec![
            episode(Some("https://shonenjumpplus.com/episode/3"), Some("第3話"), false),
            episode(Some("https://shonenjumpplus.com/episode/2"), Some("第2話"), false),
        ]),
        next_url: "https://shonenjumpplus.com/more?2".to_string(),
    };
    let next = read_more_step(&mut chapters, Some(&first), BASE, "Series", false);
    assert_eq!(next, s("https://shonenjumpplus.com/more?2"));
    assert_eq!(chapters.len(), 2);
    let unreadable = ReadMorePage { episodes: None, next_url: "https://x/3".to_string() };
    let next = read_more_step(&mut chapters, Some(&unreadable), BASE, "Series", false);
    assert_eq!(next, s("https://x/3"));
    assert_eq!(chapters.len(), 2);
    let second = ReadMorePage {
        episodes: Some(vec![episode(Some("https://shonenjumpplus.com/episode/1"), Some("第1話"), false)]),
        next_url: "https://x/4".to_string(),
    };
    read_more_step(&mut chapters, Some(&second), BASE, "Series", false);
    let keys: Vec<&str> = chapters.iter().map(|c| c.key.as_str()).collect();
    assert_eq!(keys, vec!["/episode/3", "/episode/2", "/episode/1"]);
    let done = read_more_step(&mut chapters, None, BASE, "Series", false);
    assert_eq!(done, None);
    assert_eq!(chapters.len(), 3);
}

#[test]
fn notification_of_login_clears_a_stale_session() {
    assert!(handle_notification("login", false));
    assert!(!handle_notification("login", true));
    assert!(!handle_notification("logout", false));
}

#[test]
fn deep_links_of_the_viewer_template() {
    let p = Params { base_url: "https://shonenjumpplus.com/".to_string(), ..site() };
    assert_eq!(
        handle_deep_link(&p, "https://shonenjumpplus.com/episode/10834108156648240735"),
        Some(DeepLinkResult::Chapter {
            manga_key: "10834108156648240735".to_string(),
            key: "10834108156648240735".to_string(),
        })
    );
    assert_eq!(handle_deep_link(&p, "https://shonenjumpplus.com/series"), None);
    assert_eq!(
        handle_deep_link(&site(), "https://shonenjumpplus.com/episode/10834108156648240735"),
        None
    );
    assert_eq!(handle_deep_link(&p, "https://example.com/episode/1"), None);
}

#[test]
fn unknown_listings_and_home_of_the_viewer_template() {
    assert_eq!(get_manga_list(), Err(SourceError::Message("Invalid listing".to_string())));
    assert_eq!(get_home(), Err(SourceError::Unimplemented));
}

#[test]
fn addresses_of_the_viewer_template() {
    let p = site();
    assert_eq!(get_manga_url(&p, "/episode/1"), "https://shonenjumpplus.com/episode/1");
    assert_eq!(get_search_url(&p, "q=a%20b"), "https://shonenjumpplus.com/search?q=a%20b");
    assert_eq!(
        get_episodes_url(&p, "aggregate_id=1"),
        "https://shonenjumpplus.com/api/viewer/readable_products?aggregate_id=1"
    );
}

#[test]
fn login_flow_of_the_viewer_template() {
    assert_eq!(login_url(BASE), "https://shonenjumpplus.com/user_account/login");
    assert_eq!(
        login_body("a%40b.c", "p%26w"),
        "email_address=a%40b.c&password=p%26w&return_location_path=/"
    );
    assert_eq!(login(200, s("sid=1")), s("sid=1"));
    assert_eq!(login(200, None), None);
    assert_eq!(login(401, s("sid=1")), None);
    assert!(is_logged_in(&s("user")));
    assert!(!is_logged_in(&None));
    assert_eq!(authed(&s("sid=1")), Some(("Cookie".to_string(), "sid=1".to_string())));
    assert_eq!(authed(&None), None);
}

#[test]
fn locked_episodes_are_shown_unless_the_setting_says_no() {
    assert!(!skip_locked(None));
    assert!(!skip_locked(Some(true)));
    assert!(skip_locked(Some(false)));
}

#[test]
fn chapters_need_an_address_and_pages_their_episode_data() {
    assert_eq!(get_chapter_url(s("https://x/episode/1")), Ok("https://x/episode/1".to_string()));
    assert_eq!(
        get_chapter_url(None),
        Err(SourceError::Message("URLがありません".to_string()))
    );
    assert_eq!(get_episode_json(s("{}")), Ok("{}".to_string()));
    assert_eq!(
        get_episode_json(None),
        Err(SourceError::Message("このチャプターは非公開です".to_string()))
    );
}

#[test]
fn details_are_merged_into_a_known_manga() {
    let mut known = Manga::bare("/episode/1".to_string(), "Known".to_string());
    known.chapters = Some(vec![Chapter::bare("c".to_string())]);
    known.cover = s("old");
    known.tags = Some(vec!["old".to_string()]);
    let mut details = Manga::bare("other-key".to_string(), "New".to_string());
    details.authors = Some(vec!["A".to_string()]);
    details.url = s("https://x/episode/1");
    details.viewer = Viewer::Webtoon;
    details.chapters = Some(Vec::new());
    known.merge_details(details);
    let mut expected = Manga::bare("/episode/1".to_string(), "New".to_string());
    expected.authors = Some(vec!["A".to_string()]);
    expected.url = s("https://x/episode/1");
    expected.viewer = Viewer::Webtoon;
    expected.chapters = Some(vec![Chapter::bare("c".to_string())]);
    assert_eq!(known, expected);
}
