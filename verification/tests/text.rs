use manga_sources::text::{
    chars_of, contains_sub, find_in, has_string, is_match_at, last_word_of, lookup_in,
    removed_all, replaced_char, rfind_in, split_on, split_strings, starts_with, str_contains,
    str_eq, str_starts_with, str_strip_prefix, str_strip_prefix_or_all, string_of,
    to_ascii_lower, trimmed, char_is_whitespace, join2, join3, keep_digits_and_points,
};

fn cs(s: &str) -> Vec<char> {
    s.chars().collect()
}

fn st(v: &Vec<char>) -> String {
    v.iter().collect()
}

#[test]
fn chars_and_strings_round_trip() {
    assert_eq!(chars_of("a後編b"), vec!['a', '後', '編', 'b']);
    assert_eq!(string_of(&vec!['x', '①', 'y']), "x①y");
    assert_eq!(string_of(&chars_of("")), "");
}

#[test]
fn string_equality() {
    assert!(str_eq("status", "status"));
    assert!(!str_eq("status", "statu"));
    assert!(!str_eq("status", "Status"));
    assert!(str_eq("", ""));
}

#[test]
fn finds_first_and_last_occurrence() {
    let s = cs("abcabcabc");
    assert_eq!(find_in(&s, &cs("bc")), Some(1));
    assert_eq!(rfind_in(&s, &cs("bc")), Some(7));
    assert_eq!(find_in(&s, &cs("cab")), Some(2));
    assert_eq!(find_in(&s, &cs("x")), None);
    assert_eq!(rfind_in(&s, &cs("x")), None);
    assert_eq!(find_in(&s, &cs("abcabcabcd")), None);
    assert_eq!(find_in(&s, &cs("")), Some(0));
    assert_eq!(rfind_in(&s, &cs("")), Some(9));
    assert_eq!(find_in(&cs(""), &cs("")), Some(0));
}

#[test]
fn matches_only_within_bounds() {
    let s = cs("hello");
    assert!(is_match_at(&s, &cs("llo"), 2));
    assert!(!is_match_at(&s, &cs("llo"), 3));
    assert!(!is_match_at(&s, &cs("hello!"), 0));
    assert!(is_match_at(&s, &cs(""), 5));
    assert!(!is_match_at(&s, &cs(""), 6));
}

#[test]
fn prefix_tests_and_stripping() {
    assert!(starts_with(&cs("https://a.b/c"), &cs("https://a.b")));
    assert!(!starts_with(&cs("http"), &cs("https")));
    assert!(str_starts_with("read/x", "read/"));
    assert_eq!(str_strip_prefix("https://a.b/c", "https://a.b"), Some("/c".to_string()));
    assert_eq!(str_strip_prefix("https://a.b/c", "https://x"), None);
    assert_eq!(str_strip_prefix("abc", ""), Some("abc".to_string()));
    assert_eq!(str_strip_prefix("abc", "abc"), Some("".to_string()));
    assert_eq!(str_strip_prefix_or_all("/manga/x", "https://a.b"), "/manga/x");
    assert_eq!(str_strip_prefix_or_all("https://a.b/manga/x", "https://a.b"), "/manga/x");
}

#[test]
fn contains_substrings() {
    assert!(contains_sub(&cs("Chapter 5 前編"), &cs("前編")));
    assert!(!contains_sub(&cs("Chapter 5 前"), &cs("前編")));
    assert!(str_contains("a/genre/b", "genre/"));
    assert!(!str_contains("a/genr/e", "genre/"));
}

#[test]
fn splits_on_a_character() {
    let pieces: Vec<String> = split_on(&cs("a/b//c"), '/').iter().map(st).collect();
    assert_eq!(pieces, vec!["a", "b", "", "c"]);
    let one: Vec<String> = split_on(&cs("abc"), '/').iter().map(st).collect();
    assert_eq!(one, vec!["abc"]);
    let empty: Vec<String> = split_on(&cs(""), '/').iter().map(st).collect();
    assert_eq!(empty, vec![""]);
    let ends: Vec<String> = split_on(&cs("/a/"), '/').iter().map(st).collect();
    assert_eq!(ends, vec!["", "a", ""]);
    assert_eq!(split_strings("x,y", ','), vec!["x".to_string(), "y".to_string()]);
}

#[test]
fn trims_unicode_white_space() {
    assert_eq!(st(&trimmed(&cs("  a b \t\n"))), "a b");
    assert_eq!(st(&trimmed(&cs("\u{3000}全角\u{a0}"))), "全角");
    assert_eq!(st(&trimmed(&cs("   "))), "");
    assert_eq!(st(&trimmed(&cs(""))), "");
    assert_eq!(st(&trimmed(&cs("x"))), "x");
}

#[test]
fn white_space_agrees_with_the_standard_library() {
    let mut n: u32 = 0;
    while n < 0x3100 {
        if let Some(c) = char::from_u32(n) {
            assert_eq!(char_is_whitespace(c), c.is_whitespace(), "U+{:04X}", n);
        }
        n += 1;
    }
}

#[test]
fn ascii_lower_case_agrees_with_the_standard_library() {
    let mut n: u32 = 0;
    while n < 0x300 {
        if let Some(c) = char::from_u32(n) {
            assert_eq!(to_ascii_lower(c), c.to_ascii_lowercase());
        }
        n += 1;
    }
}

#[test]
fn replaces_and_removes() {
    assert_eq!(st(&replaced_char(&cs("0-2-"), '-', '.')), "0.2.");
    assert_eq!(st(&removed_all(&cs("a,b,,c"), &cs(","))), "abc");
    assert_eq!(st(&removed_all(&cs("aaa"), &cs("aa"))), "a");
    assert_eq!(st(&removed_all(&cs("T summary: text T summary:"), &cs("T summary:"))), " text ");
    assert_eq!(st(&removed_all(&cs("abc"), &cs(""))), "abc");
}

#[test]
fn last_word_follows_the_last_space() {
    assert_eq!(st(&last_word_of(&cs("Status : Ongoing"))), "Ongoing");
    assert_eq!(st(&last_word_of(&cs("Ongoing"))), "Ongoing");
    assert_eq!(st(&last_word_of(&cs("trailing "))), "");
}

#[test]
fn looks_up_the_first_pair() {
    let pairs = vec![
        ("width".to_string(), "10".to_string()),
        ("height".to_string(), "20".to_string()),
        ("width".to_string(), "30".to_string()),
    ];
    assert_eq!(lookup_in(&pairs, "width"), Some("10".to_string()));
    assert_eq!(lookup_in(&pairs, "height"), Some("20".to_string()));
    assert_eq!(lookup_in(&pairs, "depth"), None);
}

#[test]
fn membership_in_a_list_of_strings() {
    let tags = vec!["Action".to_string(), "Ecchi".to_string()];
    assert!(has_string(&tags, "Ecchi"));
    assert!(!has_string(&tags, "ecchi"));
    assert!(!has_string(&Vec::new(), "Ecchi"));
}

#[test]
fn joins_strings() {
    assert_eq!(join2("a", "b"), "ab");
    assert_eq!(join3("a", "", "c"), "ac");
}

#[test]
fn keeps_digits_and_points() {
    assert_eq!(st(&keep_digits_and_points(&cs("Chapter 12.5 (v2)"))), "12.52");
    assert_eq!(st(&keep_digits_and_points(&cs("none"))), "");
}
