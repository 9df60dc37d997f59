use manga_sources::comicdays;
use manga_sources::comicdays::{BannerLink, LinkValue, ListingSelectors};
use manga_sources::mangakakalot;
use manga_sources::manganato;
use manga_sources::model::SourceError;
use manga_sources::rawotaku;
use manga_sources::shonenjumpplus;

fn s(text: &str) -> Option<String> {
    Some(text.to_string())
}

#[test]
fn comic_days_listings() {
    let series = comicdays::get_manga_list("series").unwrap();
    assert_eq!(
        series,
        ListingSelectors {
            item: "ul.daily-series li.daily-series-item".to_string(),
            title: ".daily-series-title".to_string(),
            cover: "div.daily-series-thumb img".to_string(),
            cover_attr: "data-src".to_string(),
            authors: s(".daily-series-author"),
        }
    );
    for id in ["newcomer", "oneshot", "daysneo"] {
        let other = comicdays::get_manga_list(id).unwrap();
        assert_eq!(other.item, "li.yomikiri-item-box");
        assert_eq!(other.title, ".yomikiri-link-title h4");
        assert_eq!(other.cover, "img.yomikiri-image");
        assert_eq!(other.cover_attr, "src");
        assert_eq!(other.authors, s(".yomikiri-link-title h5"));
    }
    assert_eq!(
        comicdays::get_manga_list("ranking"),
        Err(SourceError::Message("Invalid listing".to_string()))
    );
    assert_eq!(comicdays::get_listing_url("oneshot"), "https://comic-days.com/oneshot");
    assert_eq!(comicdays::params().base_url, "https://comic-days.com");
}

#[test]
fn comic_days_banner_tells_manga_from_addresses() {
    let slides = vec![
        (s("https://img/1.jpg"), s("https://comic-days.com/episode/123")),
        (s("https://img/2.jpg"), s("https://comic-days.com/info/456")),
        (None, s("https://comic-days.com/episode/789")),
        (s("https://img/4.jpg"), None),
        (s("https://img/5.jpg"), s("https://elsewhere.example/episode/1")),
    ];
    assert_eq!(
        comicdays::get_banner(&slides),
        vec![
            BannerLink {
                image_url: "https://img/1.jpg".to_string(),
                value: LinkValue::Manga("/episode/123".to_string()),
            },
            BannerLink {
                image_url: "https://img/2.jpg".to_string(),
                value: LinkValue::Url("https://comic-days.com/info/456".to_string()),
            },
            BannerLink {
                image_url: "https://img/5.jpg".to_string(),
                value: LinkValue::Url("https://elsewhere.example/episode/1".to_string()),
            },
        ]
    );
}

#[test]
fn comic_days_home_sections() {
    let home = comicdays::get_home();
    let titles: Vec<&str> = home.iter().map(|h| h.title.as_str()).collect();
    assert_eq!(titles, vec!["新作＆話題作", "今日のランキング", "DAYSオリジナル", "新人作家・読み切り"]);
    assert!(home[1].ranking);
    assert_eq!(home[3].listing, s("oneshot"));
    assert_eq!(home[1].item_selector, ".gtm-top-ranking-オリジナル-item");
    for section in &home {
        assert_eq!(section.title_selector, "h3");
        assert_eq!(section.authors_selector, None);
        assert_eq!(section.description_selector, s("p"));
        assert_eq!(section.subtitle, None);
    }
    assert_eq!(home[1].subtitle_selector, s("#ranking p"));
    assert_eq!(home[0].subtitle_selector, None);
    assert_eq!(comicdays::get_subtitle(&home[1], s("10/28 更新")), s("10/28 更新"));
    assert_eq!(comicdays::get_subtitle(&home[1], None), None);
    assert_eq!(comicdays::get_subtitle(&home[0], s("ignored")), None);
}

#[test]
fn shonen_jump_plus_listings_and_home() {
    for id in ["series", "series/oneshot", "series/finished"] {
        let selectors = shonenjumpplus::get_manga_list(id).unwrap();
        assert_eq!(selectors.item, ".series-list-item");
        assert_eq!(selectors.title, ".series-list-title");
        assert_eq!(selectors.cover, ".series-list-thumb img");
        assert_eq!(selectors.cover_attr, "data-src");
        assert_eq!(selectors.authors, s(".series-list-author"));
    }
    assert_eq!(
        shonenjumpplus::get_manga_list("oneshot"),
        Err(SourceError::Message("Invalid listing".to_string()))
    );
    assert_eq!(
        shonenjumpplus::get_listing_url("series/finished"),
        "https://shonenjumpplus.com/series/finished"
    );
    assert_eq!(shonenjumpplus::params().base_url, "https://shonenjumpplus.com");
    let home = shonenjumpplus::get_home();
    let titles: Vec<&str> = home.iter().map(|h| h.title.as_str()).collect();
    assert_eq!(titles, vec!["今日のランキング", "総合ランキング", "無料キャンペーン・復刻連載"]);
    assert!(home[0].ranking);
    assert_eq!(home[2].item_selector, ".free-campaign a");
    assert_eq!(home[0].title_selector, "h2");
    assert_eq!(home[0].authors_selector, s(".daily-series-author"));
    assert_eq!(home[0].description_selector, s("p"));
    assert_eq!(home[0].subtitle_selector, s(".date-wrapper"));
    assert_eq!(home[1].title_selector, "h3");
    assert_eq!(home[1].description_selector, None);
    assert_eq!(home[1].subtitle, s("今話題の作品をチェック！"));
    assert_eq!(home[2].subtitle, s("話題作や名作が今だけ無料の大公開！"));
    assert_eq!(comicdays::get_subtitle(&home[0], s("10月28日")), s("10月28日"));
    assert_eq!(comicdays::get_subtitle(&home[1], s("ignored")), s("今話題の作品をチェック！"));
}

#[test]
fn raw_otaku_params_and_sort_orders() {
    let p = rawotaku::params();
    assert_eq!(p.base_url, "https://rawotaku.com");
    assert_eq!(p.search_path, "");
    assert_eq!(p.search_param, "q");
    assert_eq!(p.page_param, "p");
    assert_eq!(p.chapter_selector, "#ja-chaps > li");
    assert_eq!(p.chapter_language, "ja");
    assert_eq!(
        manga_sources::mangareader::imp::page_list_url(&p, "42"),
        "https://rawotaku.com/json/chapter?id=42&mode=vertical"
    );
    let defaults: Vec<(&str, &str)> =
        p.default_filters.iter().map(|(k, v)| (k.as_str(), v.as_str())).collect();
    assert_eq!(
        defaults,
        vec![("type", "all"), ("status", "all"), ("language", "all"), ("sort", "default")]
    );
    assert_eq!(rawotaku::get_sort_id(0), "default");
    assert_eq!(rawotaku::get_sort_id(1), "latest-update");
    assert_eq!(rawotaku::get_sort_id(2), "most-viewed");
    assert_eq!(rawotaku::get_sort_id(3), "title-az");
    assert_eq!(rawotaku::get_sort_id(4), "title-za");
    assert_eq!(rawotaku::get_sort_id(5), "default");
    assert_eq!(
        manga_sources::mangareader::imp::search_url(&p, "a%20b", 2),
        "https://rawotaku.com?q=a%20b&p=2"
    );
}

#[test]
fn genre_sites_differ_in_their_address() {
    assert_eq!(manganato::params().base_url, "https://www.manganato.gg");
    assert_eq!(mangakakalot::params().base_url, "https://www.mangakakalot.gg");
    assert_eq!(manganato::params().search_path, mangakakalot::params().search_path);
}
