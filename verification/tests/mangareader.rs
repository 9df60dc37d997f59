use manga_sources::decimal::Decimal;
use manga_sources::mangareader::helper::{img_attr, ImageAttrs};
use manga_sources::mangareader::imp::{
    chapter_id, filter_url, get_filter_params, get_image_request, get_manga_list, get_page_list,
    get_page_markup, get_page_url, get_search_manga_list, get_sidebar_selector, get_sort_id, handle_deep_link,
    listing_url, page_list_referer, page_list_url, parse_sidebar, parse_slides, parse_updates,
    process_page_image, search_url, split_chapter_key, PageItem, Slide, UpdateItem,
};
use manga_sources::mangareader::parser::{
    content_rating, default_title, parse_manga_chapters, parse_manga_details, parse_manga_list,
    parse_response, sort_chapters, split_credits, status_from_word, viewer_from_word, ChapterItem,
    DetailsPage, ListItem, Poster,
};
use manga_sources::mangareader::Params;
use manga_sources::model::{
    Chapter, ContentRating, DeepLinkResult, FilterValue, Manga, MangaStatus, Page, SourceError,
    Viewer,
};
use manga_sources::query::{join, set_param};

const BASE: &str = "https://mangareader.to";

fn s(text: &str) -> Option<String> {
    Some(text.to_string())
}

fn strings(names: &[&str]) -> Vec<String> {
    names.iter().map(|n| n.to_string()).collect()
}

fn site() -> Params {
    let mut p = Params::default();
    p.base_url = BASE.to_string();
    p
}

fn item(href: Option<&str>, name: Option<&str>) -> ListItem {
    ListItem { href: href.map(String::from), name: name.map(String::from), image: true, cover: None }
}

fn chapter_item(href: &str, name: &str, language: &str) -> ChapterItem {
    ChapterItem { href: s(href), data_id: None, name: s(name), language: language.to_string() }
}

fn numbered(key: &str, number: Option<(i64, u8)>) -> Chapter {
    let mut c = Chapter::bare(key.to_string());
    c.chapter_number = number.map(|(mantissa, scale)| Decimal { mantissa, scale });
    c
}

fn no_attrs() -> ImageAttrs {
    ImageAttrs { lazy_src: None, data_src: None, data_url: None, src: None, raw_data_url: None }
}

fn empty_page() -> DetailsPage {
    DetailsPage {
        found: true,
        name: None,
        cover: None,
        author_text: None,
        author_names: None,
        description: None,
        tags: None,
        status: None,
        kind: None,
    }
}

#[test]
fn default_params_of_the_image_list_template() {
    let p = Params::default();
    assert_eq!(p.search_path, "/search");
    assert_eq!(p.search_param, "keyword");
    assert_eq!(p.page_param, "page");
    assert_eq!(p.page_selector, ".container-reader-chapter > div > img");
    assert_eq!(p.chapter_selector, "#en-chapters > li");
    assert_eq!(p.chapter_language, "en");
    assert!(p.default_filters.is_empty());
    assert_eq!(p.sort_ids.len(), 6);
}

#[test]
fn listing_with_an_incomplete_item_and_no_next_link() {
    let items = vec![
        item(Some("https://mangareader.to/one-1"), None),
        ListItem {
            href: s("https://mangareader.to/two-2"),
            name: s("Two"),
            image: true,
            cover: s("https://img/2.jpg"),
        },
    ];
    let page = get_manga_list(&items, &site(), false);
    assert_eq!(page.entries.len(), 1);
    let mut expected = Manga::bare("/two-2".to_string(), "Two".to_string());
    expected.cover = s("https://img/2.jpg");
    assert_eq!(page.entries[0], expected);
    assert!(!page.has_next_page);
    assert!(get_manga_list(&items, &site(), true).has_next_page);
}

#[test]
fn listing_items_need_link_name_and_image() {
    let items = vec![
        item(None, Some("No link")),
        ListItem { image: false, ..item(Some("https://mangareader.to/a"), Some("No image")) },
        item(Some("/relative"), Some("Relative")),
    ];
    let out = parse_manga_list(&items, BASE);
    assert_eq!(out.len(), 1);
    assert_eq!(out[0].key, "/relative");
}

#[test]
fn posters_become_manga() {
    let items = vec![
        Poster { href: s("https://mangareader.to/a-1"), image: true, alt: s("A"), cover: s("c") },
        Poster { href: s("https://mangareader.to/b-2"), image: false, alt: s("B"), cover: None },
        Poster { href: s("https://mangareader.to/c-3"), image: true, alt: None, cover: None },
        Poster { href: None, image: true, alt: s("D"), cover: None },
    ];
    let out = parse_response(&items, BASE);
    assert_eq!(out.len(), 1);
    assert_eq!(out[0].key, "/a-1");
    assert_eq!(out[0].title, "A");
    assert_eq!(out[0].cover, s("c"));
    let page = get_search_manga_list(&items, &site(), true);
    assert_eq!(page.entries.len(), 1);
    assert!(page.has_next_page);
}

#[test]
fn status_words_are_read_in_lower_case() {
    assert_eq!(status_from_word("ongoing"), MangaStatus::Ongoing);
    assert_eq!(status_from_word("publishing"), MangaStatus::Ongoing);
    assert_eq!(status_from_word("releasing"), MangaStatus::Ongoing);
    assert_eq!(status_from_word("completed"), MangaStatus::Completed);
    assert_eq!(status_from_word("finished"), MangaStatus::Completed);
    assert_eq!(status_from_word("on-hiatus"), MangaStatus::Hiatus);
    assert_eq!(status_from_word("on hiatus"), MangaStatus::Hiatus);
    assert_eq!(status_from_word("canceled"), MangaStatus::Cancelled);
    assert_eq!(status_from_word("discontinued"), MangaStatus::Cancelled);
    assert_eq!(status_from_word("Ongoing"), MangaStatus::Unknown);
    assert_eq!(viewer_from_word("manhwa"), Viewer::Webtoon);
    assert_eq!(viewer_from_word("manhua"), Viewer::Webtoon);
    assert_eq!(viewer_from_word("comic"), Viewer::LeftToRight);
    assert_eq!(viewer_from_word("manga"), Viewer::RightToLeft);
}

#[test]
fn details_lower_the_case_of_status_and_type() {
    let mut manga = Manga::bare("/x-1".to_string(), "Known".to_string());
    let page = DetailsPage {
        name: s("Name"),
        status: s("On-Hiatus"),
        kind: s("Manhwa"),
        tags: Some(strings(&["Action"])),
        description: s("About"),
        cover: s("https://img/c.jpg"),
        ..empty_page()
    };
    assert_eq!(parse_manga_details(&mut manga, &page), Ok(()));
    assert_eq!(manga.title, "Name");
    assert_eq!(manga.status, MangaStatus::Hiatus);
    assert_eq!(manga.viewer, Viewer::Webtoon);
    assert_eq!(manga.content_rating, ContentRating::Safe);
    assert_eq!(manga.description, s("About"));
    assert_eq!(manga.cover, s("https://img/c.jpg"));
    assert_eq!(manga.authors, None);
    assert_eq!(manga.artists, None);
    let mut upper = Manga::bare("/x-1".to_string(), "Known".to_string());
    let page = DetailsPage { status: s("FINISHED"), kind: s("COMIC"), ..empty_page() };
    assert_eq!(parse_manga_details(&mut upper, &page), Ok(()));
    assert_eq!(upper.title, "Known");
    assert_eq!(upper.status, MangaStatus::Completed);
    assert_eq!(upper.viewer, Viewer::LeftToRight);
}

#[test]
fn details_need_their_block() {
    let mut manga = Manga::bare("/x-1".to_string(), "Known".to_string());
    let page = DetailsPage { found: false, name: s("Name"), ..empty_page() };
    assert_eq!(
        parse_manga_details(&mut manga, &page),
        Err(SourceError::Message("Unable to find manga details".to_string()))
    );
    assert_eq!(manga, Manga::bare("/x-1".to_string(), "Known".to_string()));
}

#[test]
fn art_marker_routes_names_to_artists() {
    let text = "Authors: Story Teller, Pen Drawer (Art)";
    let names = strings(&["Story Teller,", "Pen Drawer"]);
    assert_eq!(split_credits(text, &names, false), strings(&["Story Teller"]));
    assert_eq!(split_credits(text, &names, true), strings(&["Pen Drawer"]));
    let mut manga = Manga::bare("/x".to_string(), "T".to_string());
    let page = DetailsPage {
        author_text: s(text),
        author_names: Some(names),
        ..empty_page()
    };
    assert_eq!(parse_manga_details(&mut manga, &page), Ok(()));
    assert_eq!(manga.authors, Some(strings(&["Story Teller"])));
    assert_eq!(manga.artists, Some(strings(&["Pen Drawer"])));
    let mut only_text = Manga::bare("/x".to_string(), "T".to_string());
    let page = DetailsPage { author_text: s(text), ..empty_page() };
    assert_eq!(parse_manga_details(&mut only_text, &page), Ok(()));
    assert_eq!(only_text.authors, None);
    assert_eq!(only_text.artists, None);
}

#[test]
fn rating_follows_the_tags() {
    assert_eq!(content_rating(&strings(&["Hentai", "Ecchi"])), ContentRating::NSFW);
    assert_eq!(content_rating(&strings(&["エロい"])), ContentRating::NSFW);
    assert_eq!(content_rating(&strings(&["Action", "Ecchi"])), ContentRating::Suggestive);
    assert_eq!(content_rating(&strings(&["Action"])), ContentRating::Safe);
    assert_eq!(content_rating(&Vec::new()), ContentRating::Safe);
    let mut manga = Manga::bare("/x".to_string(), "T".to_string());
    let page = DetailsPage { tags: Some(strings(&["Drama", "Hentai"])), ..empty_page() };
    assert_eq!(parse_manga_details(&mut manga, &page), Ok(()));
    assert_eq!(manga.content_rating, ContentRating::NSFW);
}

#[test]
fn chapters_are_sorted_from_high_to_low() {
    let items = vec![
        chapter_item("https://mangareader.to/read/x/en/chapter-1", "Chapter 1: Start", "en"),
        chapter_item("https://mangareader.to/read/x/en/chapter-2", "Chapter 2: Middle", "en"),
        chapter_item("https://mangareader.to/read/x/ja/chapter-1", "第 1 話: はじまり", "ja"),
        chapter_item("https://mangareader.to/read/x/ja/chapter-3", "第 3 話: おわり", "ja"),
        chapter_item("https://mangareader.to/read/x/en/extra", "Extra", "en"),
        chapter_item("https://elsewhere.example/read/x/en/chapter-9", "Chapter 9: Lost", "en"),
    ];
    let out = parse_manga_chapters(&items, BASE);
    let keys: Vec<&str> = out.iter().map(|c| c.key.as_str()).collect();
    assert_eq!(
        keys,
        vec![
            "/read/x/ja/chapter-3",
            "/read/x/en/chapter-2",
            "/read/x/en/chapter-1",
            "/read/x/ja/chapter-1",
            "/read/x/en/extra",
        ]
    );
    assert_eq!(out[0].chapter_number, Some(Decimal { mantissa: 3, scale: 0 }));
    assert_eq!(out[0].title, s("おわり"));
    assert_eq!(out[0].language, s("ja"));
    assert_eq!(out[4].chapter_number, None);
    assert_eq!(out[4].title, s("Extra"));
    assert_eq!(out[1].url, s("https://mangareader.to/read/x/en/chapter-2"));
}

#[test]
fn chapter_keys_carry_the_data_id() {
    let items = vec![ChapterItem {
        href: s("https://mangareader.to/read/x/en/chapter-5"),
        data_id: s("991"),
        name: s("Chapter 5: Chapter 5"),
        language: "en".to_string(),
    }];
    let out = parse_manga_chapters(&items, BASE);
    assert_eq!(out[0].key, "/read/x/en/chapter-5#991");
    assert_eq!(out[0].chapter_number, Some(Decimal { mantissa: 5, scale: 0 }));
    assert_eq!(out[0].title, None);
}

#[test]
fn default_titles_are_recognised() {
    let five = Some(Decimal { mantissa: 5, scale: 0 });
    let half = Some(Decimal { mantissa: 125, scale: 1 });
    let cs = |t: &str| t.chars().collect::<Vec<char>>();
    assert!(default_title(&cs("Chapter 5"), &five));
    assert!(default_title(&cs("第5話"), &five));
    assert!(default_title(&cs("第 5 話"), &five));
    assert!(default_title(&cs("【第 5 話】"), &five));
    assert!(default_title(&cs("Chapter 12.5"), &half));
    assert!(default_title(&cs("Chapter 0"), &None));
    assert!(!default_title(&cs("Chapter 5"), &half));
    assert!(!default_title(&cs("Chapter 5 "), &five));
    assert!(!default_title(&cs("chapter 5"), &five));
}

#[test]
fn names_without_a_colon_are_all_title() {
    let items = vec![
        chapter_item("https://mangareader.to/a", "Prologue", "en"),
        chapter_item("https://mangareader.to/b", "Vol 2 Chapter 10.5:  The cliff  ", "en"),
        chapter_item("https://mangareader.to/e", "Vol.2 Chapter 10.5: Dots", "en"),
        chapter_item("https://mangareader.to/c", "No number: Title", "en"),
        chapter_item("https://mangareader.to/d", "1.2.3: Odd", "en"),
    ];
    let out = parse_manga_chapters(&items, BASE);
    let by_key = |k: &str| out.iter().find(|c| c.key == k).unwrap();
    assert_eq!(by_key("/a").title, s("Prologue"));
    assert_eq!(by_key("/a").chapter_number, None);
    assert_eq!(by_key("/b").title, s("The cliff"));
    assert_eq!(by_key("/b").chapter_number, Some(Decimal { mantissa: 2105, scale: 1 }));
    assert_eq!(by_key("/c").chapter_number, None);
    assert_eq!(by_key("/c").title, s("Title"));
    assert_eq!(by_key("/d").chapter_number, None);
    assert_eq!(by_key("/e").chapter_number, None);
}

#[test]
fn sorting_is_stable_and_puts_missing_numbers_last() {
    let list = vec![
        numbered("a", None),
        numbered("b", Some((1, 0))),
        numbered("c", Some((10, 1))),
        numbered("d", Some((25, 1))),
        numbered("e", None),
        numbered("f", Some((0, 0))),
        numbered("g", Some((25, 1))),
        numbered("h", Some((-1, 0))),
        numbered("i", Some((-2, 0))),
    ];
    let out = sort_chapters(list);
    let keys: Vec<&str> = out.iter().map(|c| c.key.as_str()).collect();
    assert_eq!(keys, vec!["d", "g", "b", "c", "f", "a", "e", "h", "i"]);
    assert!(sort_chapters(Vec::new()).is_empty());
}

#[test]
fn sort_ids_of_the_image_list_template() {
    let p = site();
    assert_eq!(get_sort_id(&p, 0), "default");
    assert_eq!(get_sort_id(&p, 1), "latest-updated");
    assert_eq!(get_sort_id(&p, 2), "score");
    assert_eq!(get_sort_id(&p, 3), "name-az");
    assert_eq!(get_sort_id(&p, 4), "release-date");
    assert_eq!(get_sort_id(&p, 5), "most-viewed");
    assert_eq!(get_sort_id(&p, 6), "default");
    assert_eq!(get_sort_id(&p, -1), "default");
}

#[test]
fn setting_a_parameter_replaces_or_appends() {
    let mut pairs = vec![
        ("type".to_string(), "all".to_string()),
        ("sort".to_string(), "default".to_string()),
        ("sort".to_string(), "second".to_string()),
    ];
    set_param(&mut pairs, "sort", "score".to_string());
    set_param(&mut pairs, "genres", "1,2".to_string());
    assert_eq!(
        pairs,
        vec![
            ("type".to_string(), "all".to_string()),
            ("sort".to_string(), "score".to_string()),
            ("sort".to_string(), "second".to_string()),
            ("genres".to_string(), "1,2".to_string()),
        ]
    );
    assert_eq!(join(&strings(&["a", "b", "c"]), ","), "a,b,c");
    assert_eq!(join(&strings(&["a"]), ","), "a");
    assert_eq!(join(&Vec::new(), ","), "");
}

#[test]
fn filters_change_the_default_parameters() {
    let mut p = site();
    p.default_filters = vec![
        ("type".to_string(), "all".to_string()),
        ("sort".to_string(), "default".to_string()),
    ];
    let filters = vec![
        FilterValue::Sort { id: "sort".to_string(), index: 2, ascending: false },
        FilterValue::Select { id: "status".to_string(), value: "completed".to_string() },
        FilterValue::MultiSelect {
            id: "genres".to_string(),
            included: strings(&["1", "7"]),
            excluded: strings(&["9"]),
        },
        FilterValue::Text { id: "author".to_string(), value: "x".to_string() },
        FilterValue::Check { id: "c".to_string(), value: 1 },
        FilterValue::Select { id: "type".to_string(), value: "manga".to_string() },
    ];
    let out = get_filter_params(&p, &filters);
    let pairs: Vec<(&str, &str)> = out.iter().map(|(k, v)| (k.as_str(), v.as_str())).collect();
    assert_eq!(
        pairs,
        vec![("type", "manga"), ("sort", "score"), ("status", "completed"), ("genres", "1,7")]
    );
    assert!(get_filter_params(&site(), &Vec::new()).is_empty());
}

#[test]
fn addresses_of_the_image_list_template() {
    let p = site();
    assert_eq!(search_url(&p, "one%20piece", 2), "https://mangareader.to/search?keyword=one%20piece&page=2");
    let params = vec![("sort".to_string(), "score".to_string())];
    assert_eq!(filter_url(&p, 3, &params, "sort=score"), "https://mangareader.to/filter?page=3&sort=score");
    assert_eq!(filter_url(&p, 1, &Vec::new(), ""), "https://mangareader.to/filter?page=1");
    assert_eq!(listing_url(&p, "latest-updated", 4), "https://mangareader.to/latest-updated?page=4");
    assert_eq!(page_list_url(&p, "991"), "https://mangareader.to//ajax/image/list/991?mode=vertical");
    assert_eq!(page_list_referer(&p, "/read/x/en/chapter-5#991"), "https://mangareader.to/read/x/en/chapter-5");
    assert_eq!(get_page_url(&p, "/x-1"), "https://mangareader.to/x-1");
    assert_eq!(get_image_request(&p), "https://mangareader.to/");
}

#[test]
fn chapter_keys_split_at_the_last_hash() {
    assert_eq!(split_chapter_key("/read/x#991"), ("/read/x".to_string(), s("991")));
    assert_eq!(split_chapter_key("/read/x"), ("/read/x".to_string(), None));
    assert_eq!(split_chapter_key("/a#b#c"), ("/a#b".to_string(), s("c")));
    assert_eq!(split_chapter_key("/a#"), ("/a".to_string(), s("")));
    assert_eq!(chapter_id(s("1"), s("2")), Ok("1".to_string()));
    assert_eq!(chapter_id(None, s("2")), Ok("2".to_string()));
    assert_eq!(
        chapter_id(None, None),
        Err(SourceError::Message("Unable to retrieve chapter id".to_string()))
    );
}

#[test]
fn page_markup_is_the_html_member_of_the_answer() {
    let mut object = serde_json::Map::new();
    object.insert("status".to_string(), serde_json::Value::Bool(true));
    object.insert("html".to_string(), serde_json::Value::String("<div></div>".to_string()));
    assert_eq!(get_page_markup(&serde_json::Value::Object(object)), "<div></div>");
    let mut other = serde_json::Map::new();
    other.insert("html".to_string(), serde_json::Value::Null);
    assert_eq!(get_page_markup(&serde_json::Value::Object(other)), "");
    assert_eq!(get_page_markup(&serde_json::Value::Object(serde_json::Map::new())), "");
    assert_eq!(get_page_markup(&serde_json::Value::String("html".to_string())), "");
    assert_eq!(get_page_markup(&serde_json::Value::Null), "");
}

#[test]
fn image_source_is_the_first_attribute_present() {
    assert_eq!(img_attr(&no_attrs()), None);
    let all = ImageAttrs {
        lazy_src: s("1"),
        data_src: s("2"),
        data_url: s("3"),
        src: s("4"),
        raw_data_url: s("5"),
    };
    assert_eq!(img_attr(&all), s("1"));
    assert_eq!(img_attr(&ImageAttrs { lazy_src: None, ..all.clone() }), s("2"));
    assert_eq!(img_attr(&ImageAttrs { lazy_src: None, data_src: None, ..all.clone() }), s("3"));
    assert_eq!(img_attr(&ImageAttrs { src: s("4"), raw_data_url: s("5"), ..no_attrs() }), s("4"));
    assert_eq!(img_attr(&ImageAttrs { raw_data_url: s("5"), ..no_attrs() }), s("5"));
}

#[test]
fn pages_note_when_they_are_shuffled() {
    let items = vec![
        PageItem { own: ImageAttrs { data_url: s(" https://img/1.jpg \n"), ..no_attrs() }, child: None, shuffled: true },
        PageItem { own: no_attrs(), child: Some(ImageAttrs { src: s("https://img/2.jpg"), ..no_attrs() }), shuffled: false },
        PageItem { own: no_attrs(), child: Some(no_attrs()), shuffled: false },
        PageItem { own: no_attrs(), child: None, shuffled: true },
    ];
    assert_eq!(
        get_page_list(&items),
        vec![
            Page {
                url: "https://img/1.jpg".to_string(),
                context: Some(vec![("shuffled".to_string(), "1".to_string())]),
            },
            Page { url: "https://img/2.jpg".to_string(), context: None },
        ]
    );
    assert_eq!(process_page_image(), Err(SourceError::Unimplemented));
}

#[test]
fn deep_links_of_the_image_list_template() {
    let p = Params { base_url: "https://mangareader.to/".to_string(), ..site() };
    assert_eq!(
        handle_deep_link(&p, "https://mangareader.to/read/the-weakest-job-67999/en/chapter-2"),
        Some(DeepLinkResult::Chapter {
            manga_key: "read".to_string(),
            key: "read/the-weakest-job-67999/en/chapter-2".to_string(),
        })
    );
    assert_eq!(
        handle_deep_link(&p, "https://mangareader.to/the-weakest-job-67999"),
        Some(DeepLinkResult::Manga { key: "the-weakest-job-67999".to_string() })
    );
    assert_eq!(handle_deep_link(&p, "https://elsewhere.example/read/x"), None);
}

#[test]
fn home_parts_of_the_image_list_template() {
    let slides = vec![
        Slide {
            href: s("https://mangareader.to/a-1"),
            title: s("A"),
            cover: s("c"),
            description: s("d"),
            tags: Some(strings(&["Action"])),
        },
        Slide { href: s("/b-2"), title: None, cover: None, description: None, tags: None },
        Slide { href: s("/c-3"), title: s("C"), cover: None, description: None, tags: None },
    ];
    let out = parse_slides(&slides, BASE);
    assert_eq!(out.len(), 2);
    assert_eq!(out[0].key, "/a-1");
    assert_eq!(out[0].tags, Some(strings(&["Action"])));
    assert_eq!(out[1].key, "/c-3");

    let mut updates = Vec::new();
    for i in 0..12 {
        updates.push(UpdateItem {
            manga: item(Some(&format!("https://mangareader.to/m-{i}")), Some("M")),
            chapter_href: Some(format!("https://mangareader.to/read/m-{i}/en/chapter-{i}")),
            chapter_text: Some(format!("Chap {i}.5 [EN]")),
        });
    }
    updates[3].chapter_text = None;
    let out = parse_updates(&updates, BASE);
    assert_eq!(out.len(), 9);
    assert_eq!(out[0].manga.key, "/m-0");
    assert_eq!(out[0].chapter.key, "/read/m-0/en/chapter-0");
    assert_eq!(out[0].chapter.chapter_number, Some(Decimal { mantissa: 5, scale: 1 }));
    assert_eq!(out[8].manga.key, "/m-9");

    assert_eq!(parse_sidebar(&Vec::new(), BASE), None);
    let side = vec![
        item(Some("https://mangareader.to/s-1"), Some("S")),
        item(Some("/relative"), Some("R")),
    ];
    let out = parse_sidebar(&side, BASE).unwrap();
    assert_eq!(out.len(), 1);
    assert_eq!(out[0].key, "/s-1");
    assert_eq!(get_sidebar_selector(true), "#chart-today .featured-block-ul > ul > li");
    assert_eq!(get_sidebar_selector(false), ".featured-block-ul > ul > li");
}
