use manga_sources::decimal::Decimal;
use manga_sources::gigaviewer::parser::parse_chapter_number;

fn whole(n: i64) -> Option<Decimal> {
    Some(Decimal { mantissa: n, scale: 0 })
}

fn tenths(n: i64) -> Option<Decimal> {
    Some(Decimal { mantissa: n, scale: 1 })
}

#[test]
fn ascii_and_full_width_digits_agree() {
    assert_eq!(parse_chapter_number("12"), whole(12));
    assert_eq!(parse_chapter_number("１２"), whole(12));
    assert_eq!(parse_chapter_number("1２"), whole(12));
    assert_eq!(parse_chapter_number("007"), whole(7));
}

#[test]
fn single_numeral_characters() {
    let table = [
        ("一", 1),
        ("二", 2),
        ("三", 3),
        ("四", 4),
        ("五", 5),
        ("六", 6),
        ("七", 7),
        ("八", 8),
        ("九", 9),
    ];
    for (title, value) in table {
        assert_eq!(parse_chapter_number(title), whole(value));
    }
}

#[test]
fn multiplier_numerals() {
    assert_eq!(parse_chapter_number("十"), whole(10));
    assert_eq!(parse_chapter_number("二十"), whole(20));
    assert_eq!(parse_chapter_number("百"), whole(100));
    assert_eq!(parse_chapter_number("千"), whole(1000));
    assert_eq!(parse_chapter_number("二十三"), whole(23));
}

#[test]
fn half_chapter_marks() {
    assert_eq!(parse_chapter_number("Chapter 5 前編"), tenths(51));
    assert_eq!(parse_chapter_number("Chapter 5 後編"), tenths(52));
    assert_eq!(parse_chapter_number("第3話①"), tenths(31));
    assert_eq!(parse_chapter_number("第3話②"), tenths(32));
    assert_eq!(parse_chapter_number("第3話 前編 後編"), tenths(31));
}

#[test]
fn no_numeral_gives_none() {
    assert_eq!(parse_chapter_number("Special"), None);
    assert_eq!(parse_chapter_number(""), None);
    assert_eq!(parse_chapter_number("前編"), None);
}

#[test]
fn first_digit_run_only() {
    assert_eq!(parse_chapter_number("第12話 part 3"), whole(12));
    assert_eq!(parse_chapter_number("12三"), whole(12));
}

#[test]
fn numerals_skip_digits_and_read_whole_title() {
    assert_eq!(parse_chapter_number("第一話 5"), whole(1));
    assert_eq!(parse_chapter_number("第一話 二"), whole(3));
}

#[test]
fn every_title_with_a_numeral_has_an_ordinal() {
    assert_eq!(parse_chapter_number("99999999999999999"), whole(99_999_999_999_999_999));
    assert_eq!(parse_chapter_number("999999999999999999"), whole(999_999_999_999_999_999));
    assert_eq!(parse_chapter_number("9223372036854775807"), whole(i64::MAX));
    assert_eq!(parse_chapter_number("9223372036854775808"), whole(i64::MAX));
    assert_eq!(parse_chapter_number("99999999999999999999999999"), whole(i64::MAX));
    assert_eq!(parse_chapter_number("千千千千千千"), whole(1_000_000_000_000_000_000));
    assert_eq!(parse_chapter_number("千千千千千千千"), whole(i64::MAX));
    assert_eq!(parse_chapter_number("千千千千千千千一"), whole(i64::MAX));
    assert_eq!(parse_chapter_number("922337203685477580 前編"), tenths(9_223_372_036_854_775_801));
    assert_eq!(parse_chapter_number("922337203685477581 前編"), tenths(i64::MAX));
    assert_eq!(parse_chapter_number("999999999999999999 後編"), tenths(i64::MAX));
    assert_eq!(parse_chapter_number("0"), whole(0));
    assert_eq!(parse_chapter_number("第０話①"), tenths(1));
}

#[test]
fn half_chapter_marks_alone_give_none() {
    assert_eq!(parse_chapter_number("前編"), None);
    assert_eq!(parse_chapter_number("後編"), None);
    assert_eq!(parse_chapter_number("①"), None);
    assert_eq!(parse_chapter_number("②"), None);
}
