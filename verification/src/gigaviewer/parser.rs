//! Chapter ordinals from titles, and the listing and episode parsers.

use vstd::prelude::*;
use crate::decimal::{Decimal, MAX_ORDINAL};
use crate::model::{Chapter, ChapterView, Manga, MangaView};
use crate::text::{
    chars_of, clone_opt, contains, contains_sub, find, lemma_find_from, split, split_strings,
    str_eq, str_strip_prefix, strip_prefix,
};

verus! {

/// The value of a digit, ASCII or full-width.
pub open spec fn digit_of(c: char) -> Option<nat> {
    if '0' <= c <= '9' {
        Some((c as u32 - 0x30) as nat)
    } else if '０' <= c <= '９' {
        Some((c as u32 - 0xff10) as nat)
    } else {
        None
    }
}

/// The accumulator after the numeral character `c`, or `None` when `c` is
/// no numeral character: one to nine add their value, ten, hundred and
/// thousand multiply, and stand for themselves on an empty accumulator.
pub open spec fn numeral_step(acc: nat, c: char) -> Option<nat> {
    if c == '一' {
        Some(acc + 1)
    } else if c == '二' {
        Some(acc + 2)
    } else if c == '三' {
        Some(acc + 3)
    } else if c == '四' {
        Some(acc + 4)
    } else if c == '五' {
        Some(acc + 5)
    } else if c == '六' {
        Some(acc + 6)
    } else if c == '七' {
        Some(acc + 7)
    } else if c == '八' {
        Some(acc + 8)
    } else if c == '九' {
        Some(acc + 9)
    } else if c == '十' {
        Some(if acc == 0 { 10 } else { acc * 10 })
    } else if c == '百' {
        Some(if acc == 0 { 100 } else { acc * 100 })
    } else if c == '千' {
        Some(if acc == 0 { 1000 } else { acc * 1000 })
    } else {
        None
    }
}

/// `c` is one of the twelve numeral characters.
pub open spec fn is_numeral(c: char) -> bool {
    numeral_step(0, c) is Some
}

/// Position of the first digit or numeral character of `s` at or after `i`.
pub open spec fn first_numeral_from(s: Seq<char>, i: int) -> Option<int>
    decreases s.len() - i,
{
    if i < 0 || i >= s.len() {
        None
    } else if digit_of(s[i]) is Some || is_numeral(s[i]) {
        Some(i)
    } else {
        first_numeral_from(s, i + 1)
    }
}

/// The value of the digits of `s`, read as one base-10 number; characters
/// that are no digits count as 0.
pub open spec fn digits_number(s: Seq<char>) -> nat
    decreases s.len(),
{
    if s.len() == 0 {
        0
    } else {
        digits_number(s.drop_last()) * 10 + match digit_of(s.last()) {
            Some(d) => d,
            None => 0,
        }
    }
}

/// Length of the run of digits at the start of `s`.
pub open spec fn digit_run_len(s: Seq<char>) -> nat
    decreases s.len(),
{
    if s.len() > 0 && digit_of(s[0]) is Some {
        1 + digit_run_len(s.drop_first())
    } else {
        0
    }
}

/// The accumulator after every numeral character of `s`, in order; other
/// characters are passed over.
pub open spec fn numerals_number(s: Seq<char>) -> nat
    decreases s.len(),
{
    if s.len() == 0 {
        0
    } else {
        let acc = numerals_number(s.drop_last());
        match numeral_step(acc, s.last()) {
            Some(v) => v,
            None => acc,
        }
    }
}

/// The whole ordinal in a title: the first run of digits when a digit comes
/// before any numeral character, the numeral characters of the whole title
/// when one of them comes first, and `None` when the title has neither.
pub open spec fn whole_ordinal(s: Seq<char>) -> Option<nat> {
    match first_numeral_from(s, 0) {
        None => None,
        Some(i) => if digit_of(s[i]) is Some {
            let rest = s.skip(i);
            Some(digits_number(rest.take(digit_run_len(rest) as int)))
        } else {
            Some(numerals_number(s.skip(i)))
        },
    }
}

/// The tenths that a half-chapter mark adds: 1 for a first part, 2 for a
/// second part, 0 without a mark. The first-part marks take precedence.
pub open spec fn half_mark(s: Seq<char>) -> nat {
    if contains(s, "前編"@) || contains(s, "①"@) {
        1
    } else if contains(s, "後編"@) || contains(s, "②"@) {
        2
    } else {
        0
    }
}

/// A number as a resolved ordinal carries it: the number itself, or
/// `MAX_ORDINAL` where it is above that.
pub open spec fn capped(n: nat) -> nat {
    if n > MAX_ORDINAL {
        MAX_ORDINAL as nat
    } else {
        n
    }
}

/// The chapter ordinal of a title: the whole ordinal, plus the tenths of a
/// half-chapter mark. Every title with a digit or a numeral character has
/// one; an ordinal beyond the largest that a decimal holds is handed out
/// as that largest.
pub open spec fn chapter_number(s: Seq<char>) -> Option<Decimal> {
    match whole_ordinal(s) {
        None => None,
        Some(n) => if half_mark(s) == 0 {
            Some(Decimal { mantissa: capped(n) as i64, scale: 0 })
        } else {
            Some(Decimal { mantissa: capped(n * 10 + half_mark(s)) as i64, scale: 1 })
        },
    }
}

/// The value of the digit `c`, ASCII or full-width.
pub fn digit_value(c: char) -> (r: Option<u64>)
    ensures
        match r {
            Some(d) => digit_of(c) == Some(d as nat) && d <= 9,
            None => digit_of(c) is None,
        },
{
    if c >= '0' && c <= '9' {
        Some((c as u32 - 0x30) as u64)
    } else if c >= '０' && c <= '９' {
        Some((c as u32 - 0xff10) as u64)
    } else {
        None
    }
}

/// The accumulator after the numeral character `c`, capped.
fn numeral_value(acc: u64, c: char) -> (r: Option<u64>)
    requires
        acc <= MAX_ORDINAL,
    ensures
        match r {
            Some(v) => numeral_step(acc as nat, c) matches Some(n) && v == capped(n),
            None => numeral_step(acc as nat, c) is None,
        },
{
    let (add, times): (u64, u64) = if c == '一' {
        (1, 1)
    } else if c == '二' {
        (2, 1)
    } else if c == '三' {
        (3, 1)
    } else if c == '四' {
        (4, 1)
    } else if c == '五' {
        (5, 1)
    } else if c == '六' {
        (6, 1)
    } else if c == '七' {
        (7, 1)
    } else if c == '八' {
        (8, 1)
    } else if c == '九' {
        (9, 1)
    } else if c == '十' {
        (0, 10)
    } else if c == '百' {
        (0, 100)
    } else if c == '千' {
        (0, 1000)
    } else {
        return None;
    };
    assert(times <= 1000 && add <= 9);
    assert(acc * times <= 9_223_372_036_854_775_807 * 1000) by (nonlinear_arith)
        requires
            acc <= 9_223_372_036_854_775_807,
            times <= 1000,
    ;
    let v: u128 = if times == 1 {
        acc as u128 + add as u128
    } else if acc == 0 {
        times as u128
    } else {
        acc as u128 * times as u128
    };
    if v > MAX_ORDINAL as u128 {
        Some(MAX_ORDINAL)
    } else {
        Some(v as u64)
    }
}

/// A numeral character never lowers a non-zero accumulator.
pub proof fn lemma_numeral_step_grows(acc: nat, c: char)
    ensures
        match numeral_step(acc, c) {
            Some(v) => v >= acc && v >= 1,
            None => true,
        },
{
    assert(acc * 10 >= acc) by (nonlinear_arith);
    assert(acc * 100 >= acc) by (nonlinear_arith);
    assert(acc * 1000 >= acc) by (nonlinear_arith);
}

/// Position of the first digit or numeral character of `s`.
pub fn first_numeral(s: &Vec<char>) -> (r: Option<usize>)
    ensures
        match r {
            Some(i) => first_numeral_from(s@, 0) == Some(i as int) && i < s.len(),
            None => first_numeral_from(s@, 0) is None,
        },
{
    let mut i: usize = 0;
    while i < s.len()
        invariant
            i <= s.len(),
            first_numeral_from(s@, 0) == first_numeral_from(s@, i as int),
        decreases s.len() - i,
    {
        if digit_value(s[i]).is_some() || numeral_value(0, s[i]).is_some() {
            return Some(i);
        }
        i += 1;
    }
    None
}

/// Capping a number before a numeral character is taken in changes
/// nothing of the capped outcome.
proof fn lemma_step_capped(acc: nat, c: char)
    ensures
        match (numeral_step(acc, c), numeral_step(capped(acc), c)) {
            (Some(a), Some(b)) => capped(a) == capped(b),
            (None, None) => true,
            _ => false,
        },
{
    lemma_numeral_step_grows(acc, c);
    lemma_numeral_step_grows(capped(acc), c);
}

/// The value of the run of digits that starts at `from`, capped.
fn digit_run(s: &Vec<char>, from: usize) -> (r: u64)
    requires
        from <= s.len(),
    ensures
        ({
            let rest = s@.skip(from as int);
            r == capped(digits_number(rest.take(digit_run_len(rest) as int)))
        }),
{
    let ghost rest = s@.skip(from as int);
    let mut acc: u64 = 0;
    let mut i: usize = from;
    assert(rest.skip(0) == rest);
    assert(rest.take(0) == Seq::<char>::empty());
    while i < s.len() && digit_value(s[i]).is_some()
        invariant
            from <= i <= s.len(),
            rest == s@.skip(from as int),
            digit_run_len(rest) == (i - from) + digit_run_len(rest.skip(i - from)),
            acc == capped(digits_number(rest.take(i - from))),
        decreases s.len() - i,
    {
        let d = digit_value(s[i]).unwrap();
        proof {
            assert(rest.skip(i - from)[0] == s@[i as int]);
            assert(rest.skip(i - from).drop_first() == rest.skip(i - from + 1));
            assert(rest.take(i - from + 1).drop_last() == rest.take(i - from));
            assert(rest.take(i - from + 1).last() == s@[i as int]);
        }
        let v: u128 = acc as u128 * 10 + d as u128;
        acc = if v > MAX_ORDINAL as u128 {
            MAX_ORDINAL
        } else {
            v as u64
        };
        i += 1;
    }
    proof {
        let tail = rest.skip(i - from);
        assert(digit_run_len(tail) == 0) by {
            if i < s.len() {
                assert(tail[0] == s@[i as int]);
            }
        }
    }
    acc
}

/// The accumulator after every numeral character from `from` on, capped.
fn numerals_total(s: &Vec<char>, from: usize) -> (r: u64)
    requires
        from <= s.len(),
    ensures
        r == capped(numerals_number(s@.skip(from as int))),
{
    let ghost rest = s@.skip(from as int);
    let mut acc: u64 = 0;
    let mut i: usize = from;
    assert(rest.take(0) == Seq::<char>::empty());
    while i < s.len()
        invariant
            from <= i <= s.len(),
            rest == s@.skip(from as int),
            acc == capped(numerals_number(rest.take(i - from))),
        decreases s.len() - i,
    {
        proof {
            assert(rest.take(i - from + 1).drop_last() == rest.take(i - from));
            assert(rest.take(i - from + 1).last() == s@[i as int]);
            lemma_step_capped(numerals_number(rest.take(i - from)), s@[i as int]);
        }
        match numeral_value(acc, s[i]) {
            Some(v) => {
                acc = v;
            },
            None => {},
        }
        i += 1;
    }
    assert(rest.take(i - from) == rest);
    acc
}

/// The tenths that a half-chapter mark in `s` adds.
pub fn half_mark_of(s: &Vec<char>) -> (r: u64)
    ensures
        r == half_mark(s@),
{
    let first_a = chars_of("前編");
    let first_b = chars_of("①");
    let second_a = chars_of("後編");
    let second_b = chars_of("②");
    if contains_sub(s, &first_a) || contains_sub(s, &first_b) {
        1
    } else if contains_sub(s, &second_a) || contains_sub(s, &second_b) {
        2
    } else {
        0
    }
}

/// Resolves the chapter ordinal of a title. Digits, ASCII or full-width, win
/// when one comes before any numeral character, and only their first run
/// counts; otherwise the numeral characters of the whole title are read.
/// A first-part mark adds 0.1, a second-part mark 0.2. Only a title with
/// neither a digit nor a numeral character has no ordinal.
pub fn parse_chapter_number(title: &str) -> (r: Option<Decimal>)
    ensures
        r == chapter_number(title@),
        r is None <==> first_numeral_from(title@, 0) is None,
        r matches Some(d) ==> d.wf(),
{
    let s = chars_of(title);
    let whole: u64 = match first_numeral(&s) {
        None => {
            return None;
        },
        Some(i) => {
            if digit_value(s[i]).is_some() {
                digit_run(&s, i)
            } else {
                numerals_total(&s, i)
            }
        },
    };
    let half = half_mark_of(&s);
    if half == 0 {
        Some(Decimal { mantissa: whole as i64, scale: 0 })
    } else {
        let v: u128 = whole as u128 * 10 + half as u128;
        let mantissa: u64 = if v > MAX_ORDINAL as u128 {
            MAX_ORDINAL
        } else {
            v as u64
        };
        Some(Decimal { mantissa: mantissa as i64, scale: 1 })
    }
}

/// A title has no ordinal exactly when it holds neither a digit nor a
/// numeral character; a half-chapter mark alone makes none.
pub proof fn lemma_resolved_iff_numeral(s: Seq<char>)
    ensures
        chapter_number(s) is None <==> first_numeral_from(s, 0) is None,
{
}

/// A title without the first character of a mark does not hold the mark.
proof fn lemma_no_mark(s: Seq<char>, p: Seq<char>)
    requires
        p.len() > 0,
        forall|i: int| 0 <= i < s.len() ==> s[i] != p[0],
    ensures
        !contains(s, p),
{
    lemma_find_from(s, p, 0);
    if contains(s, p) {
        let k = find(s, p)->Some_0;
        assert(s.subrange(k, k + p.len())[0] == p[0]);
    }
}

/// A title whose characters are all digits or numeral characters carries
/// no half-chapter mark.
proof fn lemma_no_half_mark(s: Seq<char>)
    requires
        forall|i: int| 0 <= i < s.len() ==> digit_of(s[i]) is Some || is_numeral(s[i]),
    ensures
        half_mark(s) == 0,
{
    reveal_strlit("前編");
    reveal_strlit("①");
    reveal_strlit("後編");
    reveal_strlit("②");
    lemma_no_mark(s, "前編"@);
    lemma_no_mark(s, "①"@);
    lemma_no_mark(s, "後編"@);
    lemma_no_mark(s, "②"@);
}

/// A sequence of digits is its own leading run.
proof fn lemma_all_digits_run(s: Seq<char>)
    requires
        forall|i: int| 0 <= i < s.len() ==> digit_of(s[i]) is Some,
    ensures
        digit_run_len(s) == s.len(),
    decreases s.len(),
{
    if s.len() > 0 {
        lemma_all_digits_run(s.drop_first());
    }
}

/// A title made of digits alone, ASCII or full-width in any mixture,
/// resolves to the number that the digits spell in base 10, as far as a
/// decimal holds it.
pub proof fn lemma_digits_only(s: Seq<char>)
    requires
        s.len() > 0,
        forall|i: int| 0 <= i < s.len() ==> digit_of(s[i]) is Some,
    ensures
        chapter_number(s) == Some(Decimal { mantissa: capped(digits_number(s)) as i64, scale: 0 }),
        digits_number(s) <= MAX_ORDINAL ==> chapter_number(s) == Some(
            Decimal { mantissa: digits_number(s) as i64, scale: 0 },
        ),
{
    lemma_all_digits_run(s);
    lemma_no_half_mark(s);
    assert(s.skip(0) == s);
    assert(s.take(s.len() as int) == s);
}

/// Digits spell the same number whatever their width.
proof fn lemma_digits_number_by_value(s: Seq<char>, t: Seq<char>)
    requires
        s.len() == t.len(),
        forall|i: int| 0 <= i < s.len() ==> digit_of(s[i]) == digit_of(t[i]),
    ensures
        digits_number(s) == digits_number(t),
    decreases s.len(),
{
    if s.len() > 0 {
        lemma_digits_number_by_value(s.drop_last(), t.drop_last());
    }
}

/// Two titles made of digits alone that agree digit by digit in value
/// resolve to the same ordinal, whichever width each digit is written in.
pub proof fn lemma_width_independent(s: Seq<char>, t: Seq<char>)
    requires
        s.len() == t.len(),
        s.len() > 0,
        forall|i: int| 0 <= i < s.len() ==> digit_of(s[i]) is Some && digit_of(s[i]) == digit_of(t[i]),
    ensures
        chapter_number(s) == chapter_number(t),
{
    lemma_digits_number_by_value(s, t);
    lemma_digits_only(s);
    lemma_digits_only(t);
}

/// A title that is one numeral character resolves to the value of that
/// character: one to nine, ten, a hundred or a thousand.
pub proof fn lemma_single_numeral(c: char)
    requires
        is_numeral(c),
    ensures
        chapter_number(seq![c]) == Some(
            Decimal { mantissa: numeral_step(0, c)->Some_0 as i64, scale: 0 },
        ),
        numeral_step(0, '一') == Some(1nat),
        numeral_step(0, '二') == Some(2nat),
        numeral_step(0, '三') == Some(3nat),
        numeral_step(0, '四') == Some(4nat),
        numeral_step(0, '五') == Some(5nat),
        numeral_step(0, '六') == Some(6nat),
        numeral_step(0, '七') == Some(7nat),
        numeral_step(0, '八') == Some(8nat),
        numeral_step(0, '九') == Some(9nat),
        numeral_step(0, '十') == Some(10nat),
        numeral_step(0, '百') == Some(100nat),
        numeral_step(0, '千') == Some(1000nat),
{
    let s = seq![c];
    lemma_no_half_mark(s);
    assert(s.skip(0) == s);
    assert(s.drop_last() == Seq::<char>::empty());
    assert(numerals_number(s.drop_last()) == 0);
}

/// A title without a digit and without a numeral character has no ordinal.
pub proof fn lemma_no_numeral(s: Seq<char>)
    requires
        forall|i: int| 0 <= i < s.len() ==> digit_of(s[i]) is None && !is_numeral(s[i]),
    ensures
        chapter_number(s) is None,
{
    lemma_first_numeral_none(s, 0);
}

/// Without digits and numeral characters from `i` on, none is found.
proof fn lemma_first_numeral_none(s: Seq<char>, i: int)
    requires
        0 <= i,
        forall|j: int| i <= j < s.len() ==> digit_of(s[j]) is None && !is_numeral(s[j]),
    ensures
        first_numeral_from(s, i) is None,
    decreases s.len() - i,
{
    if i < s.len() {
        lemma_first_numeral_none(s, i + 1);
    }
}

/// What one item of a listing shows: the target of its link, and the texts
/// and attributes found under the item. A field is `None` where the item
/// has no such element, or the listing asks for none.
#[derive(Clone, Debug, PartialEq, Eq)]
pub struct ListingItem {
    pub href: Option<String>,
    pub title: Option<String>,
    pub cover: Option<String>,
    pub authors: Option<String>,
    pub description: Option<String>,
}

/// The manga that a listing item stands for. An item without a link under
/// `base`, or without a title, stands for none. The key is the link
/// without `base`; authors are the pieces of the author text between `/`.
pub open spec fn listing_entry(item: ListingItem, base: Seq<char>) -> Option<MangaView> {
    match (item.href.deep_view(), item.title.deep_view()) {
        (Some(href), Some(title)) => match strip_prefix(href, base) {
            Some(key) => Some(
                MangaView {
                    cover: item.cover.deep_view(),
                    authors: match item.authors.deep_view() {
                        Some(text) => Some(split(text, '/')),
                        None => None,
                    },
                    description: item.description.deep_view(),
                    ..MangaView::bare(key, title)
                },
            ),
            None => None,
        },
        _ => None,
    }
}

/// The manga of a listing, in the order of the items that stand for one.
pub open spec fn listing_entries(items: Seq<ListingItem>, base: Seq<char>) -> Seq<MangaView>
    decreases items.len(),
{
    if items.len() == 0 {
        Seq::empty()
    } else {
        let head = listing_entries(items.drop_last(), base);
        match listing_entry(items.last(), base) {
            Some(m) => head.push(m),
            None => head,
        }
    }
}

/// The manga that a listing item stands for, if any.
pub fn parse_listing_item(item: &ListingItem, base_url: &str) -> (r: Option<Manga>)
    ensures
        r.deep_view() == listing_entry(*item, base_url@),
{
    let href = match &item.href {
        Some(h) => h,
        None => {
            return None;
        },
    };
    let key = match str_strip_prefix(href.as_str(), base_url) {
        Some(k) => k,
        None => {
            return None;
        },
    };
    let title = match &item.title {
        Some(t) => t.clone(),
        None => {
            return None;
        },
    };
    let authors = match &item.authors {
        Some(text) => Some(split_strings(text.as_str(), '/')),
        None => None,
    };
    let mut manga = Manga::bare(key, title);
    manga.cover = clone_opt(&item.cover);
    manga.authors = authors;
    manga.description = clone_opt(&item.description);
    Some(manga)
}

/// Turns the items of a listing into manga. Items without a link under
/// `base_url` or without a title are dropped; the rest keep their order.
pub fn parse_response(items: &Vec<ListingItem>, base_url: &str) -> (out: Vec<Manga>)
    ensures
        out.deep_view() == listing_entries(items@, base_url@),
{
    let mut out: Vec<Manga> = Vec::new();
    let mut i: usize = 0;
    assert(items@.take(0) == Seq::<ListingItem>::empty());
    assert(out.deep_view() == Seq::<MangaView>::empty());
    while i < items.len()
        invariant
            i <= items.len(),
            out.deep_view() == listing_entries(items@.take(i as int), base_url@),
        decreases items.len() - i,
    {
        assert(items@.take(i + 1).drop_last() == items@.take(i as int));
        let ghost before = out.deep_view();
        match parse_listing_item(&items[i], base_url) {
            Some(m) => {
                out.push(m);
                assert(out.deep_view() == before.push(m@));
            },
            None => {},
        }
        i += 1;
    }
    assert(items@.take(items.len() as int) == items@);
    out
}

/// What one entry of an episode list shows. `href`, `title` and
/// `thumbnail` are read from the entry's container link, or from the entry
/// itself where it has no such link; `locked` tells that it shows a price.
#[derive(Clone, Debug, PartialEq, Eq)]
pub struct EpisodeItem {
    pub date_uploaded: Option<i64>,
    pub locked: bool,
    pub href: Option<String>,
    pub title: Option<String>,
    pub thumbnail: Option<String>,
}

/// The chapter that an episode entry stands for. A locked entry stands for
/// none when locked entries are skipped, and an entry without a link stands
/// for none. The key is the link without `base`, or the whole link where it
/// does not begin with `base`; the ordinal is resolved from the title.
pub open spec fn episode_entry(item: EpisodeItem, base: Seq<char>, skip_locked: bool) -> Option<
    ChapterView,
> {
    if skip_locked && item.locked {
        None
    } else {
        match item.href.deep_view() {
            None => None,
            Some(url) => Some(
                ChapterView {
                    title: item.title.deep_view(),
                    chapter_number: match item.title.deep_view() {
                        Some(t) => chapter_number(t),
                        None => None,
                    },
                    date_uploaded: item.date_uploaded,
                    url: Some(url),
                    thumbnail: item.thumbnail.deep_view(),
                    locked: item.locked,
                    ..ChapterView::bare(
                        match strip_prefix(url, base) {
                            Some(k) => k,
                            None => url,
                        },
                    )
                },
            ),
        }
    }
}

/// The chapters of an episode list, in the order of the entries.
pub open spec fn episode_entries(items: Seq<EpisodeItem>, base: Seq<char>, skip_locked: bool) -> Seq<
    ChapterView,
>
    decreases items.len(),
{
    if items.len() == 0 {
        Seq::empty()
    } else {
        let head = episode_entries(items.drop_last(), base, skip_locked);
        match episode_entry(items.last(), base, skip_locked) {
            Some(c) => head.push(c),
            None => head,
        }
    }
}

/// A list of exactly one chapter whose title is the manga's own is a
/// oneshot: that chapter is numbered 1. Any other list is left as it is.
pub open spec fn with_oneshot(chapters: Seq<ChapterView>, manga_title: Seq<char>) -> Seq<
    ChapterView,
> {
    if chapters.len() == 1 && chapters[0].title == Some(manga_title) {
        seq![
            ChapterView {
                chapter_number: Some(Decimal { mantissa: 1, scale: 0 }),
                ..chapters[0]
            },
        ]
    } else {
        chapters
    }
}

/// The chapter that an episode entry stands for, if any.
pub fn parse_episode_item(item: &EpisodeItem, base_url: &str, skip_locked: bool) -> (r: Option<
    Chapter,
>)
    ensures
        r.deep_view() == episode_entry(*item, base_url@, skip_locked),
        r matches Some(c) ==> c@.wf(),
{
    if skip_locked && item.locked {
        return None;
    }
    let url = match &item.href {
        Some(h) => h.clone(),
        None => {
            return None;
        },
    };
    let key = match str_strip_prefix(url.as_str(), base_url) {
        Some(k) => k,
        None => url.clone(),
    };
    let chapter_number = match &item.title {
        Some(t) => parse_chapter_number(t.as_str()),
        None => None,
    };
    let mut chapter = Chapter::bare(key);
    chapter.title = clone_opt(&item.title);
    chapter.chapter_number = chapter_number;
    chapter.date_uploaded = item.date_uploaded;
    chapter.url = Some(url);
    chapter.thumbnail = clone_opt(&item.thumbnail);
    chapter.locked = item.locked;
    Some(chapter)
}

/// Turns the entries of an episode list into chapters, in order. Locked
/// entries are dropped when `skip_locked` is set, entries without a link
/// always. A single chapter that carries the manga's own title is numbered 1.
pub fn parse_chapter_elements(
    items: &Vec<EpisodeItem>,
    base_url: &str,
    manga_title: &str,
    skip_locked: bool,
) -> (out: Vec<Chapter>)
    ensures
        out.deep_view() == with_oneshot(
            episode_entries(items@, base_url@, skip_locked),
            manga_title@,
        ),
        forall|i: int| 0 <= i < out.len() ==> (#[trigger] out[i])@.wf(),
{
    let mut out: Vec<Chapter> = Vec::new();
    let mut i: usize = 0;
    assert(items@.take(0) == Seq::<EpisodeItem>::empty());
    assert(out.deep_view() == Seq::<ChapterView>::empty());
    while i < items.len()
        invariant
            i <= items.len(),
            out.deep_view() == episode_entries(items@.take(i as int), base_url@, skip_locked),
            forall|j: int| 0 <= j < out.len() ==> (#[trigger] out[j])@.wf(),
        decreases items.len() - i,
    {
        assert(items@.take(i + 1).drop_last() == items@.take(i as int));
        let ghost before = out.deep_view();
        match parse_episode_item(&items[i], base_url, skip_locked) {
            Some(c) => {
                out.push(c);
                assert(out.deep_view() == before.push(c@));
            },
            None => {},
        }
        i += 1;
    }
    assert(items@.take(items.len() as int) == items@);
    if out.len() == 1 {
        let same = match &out[0].title {
            Some(t) => str_eq(t.as_str(), manga_title),
            None => false,
        };
        if same {
            let ghost before = out.deep_view();
            let mut only = out.pop().unwrap();
            only.chapter_number = Some(Decimal { mantissa: 1, scale: 0 });
            out.push(only);
            assert(out.deep_view() == with_oneshot(before, manga_title@));
        }
    }
    out
}

} // verus!
