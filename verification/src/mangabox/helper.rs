//! Status words, chapter ordinals in addresses, and the address of a search.

use vstd::prelude::*;
use crate::decimal::{decimal_value, i64_chars, int_text, parse_decimal, Decimal};
use crate::mangabox::Params;
use crate::model::{FilterValue, MangaStatus};
use crate::text::{
    append, append_str, ascii_lower, chars_of, find, find_char_from, find_in, index_of, last_word,
    last_word_of, lemma_index_of_is, lemma_index_of_none, replace_char, replaced_char, seq_eq,
    slice, string_of, to_ascii_lower, trim, trimmed,
};

verus! {

/// The status that a word names; unknown words name none.
pub open spec fn status_word(word: Seq<char>) -> MangaStatus {
    if word == "Ongoing"@ {
        MangaStatus::Ongoing
    } else if word == "Completed"@ {
        MangaStatus::Completed
    } else if word == "Hiatus"@ {
        MangaStatus::Hiatus
    } else if word == "Cancelled"@ {
        MangaStatus::Cancelled
    } else {
        MangaStatus::Unknown
    }
}

/// The status that a status line names: the one of its last word, white
/// space at both ends of the line aside.
pub open spec fn status_of(line: Seq<char>) -> MangaStatus {
    status_word(last_word(trim(line)))
}

/// Reads the status of a manga from its status line, such as
/// `Status : Ongoing`.
pub fn status_from_string(string: &str) -> (status: MangaStatus)
    ensures
        status == status_of(string@),
{
    let line = trimmed(&chars_of(string));
    let word = last_word_of(&line);
    if seq_eq(&word, &chars_of("Ongoing")) {
        MangaStatus::Ongoing
    } else if seq_eq(&word, &chars_of("Completed")) {
        MangaStatus::Completed
    } else if seq_eq(&word, &chars_of("Hiatus")) {
        MangaStatus::Hiatus
    } else if seq_eq(&word, &chars_of("Cancelled")) {
        MangaStatus::Cancelled
    } else {
        MangaStatus::Unknown
    }
}

/// The ordinal in a chapter address: what follows the first `chapter-`,
/// read as a decimal with `-` for the point.
pub open spec fn chapter_number_in(s: Seq<char>) -> Option<Decimal> {
    match find(s, "chapter-"@) {
        Some(pos) => decimal_value(replace_char(s.skip(pos + "chapter-"@.len()), '-', '.')),
        None => None,
    }
}

/// Reads the chapter ordinal from an address that ends in `chapter-x`,
/// where `x` is a number such as `3`, or `0-2` for 0.2.
pub fn get_chapter_number(s: &str) -> (r: Option<Decimal>)
    ensures
        r == chapter_number_in(s@),
        r matches Some(d) ==> d.wf(),
{
    let chars = chars_of(s);
    let prefix = chars_of("chapter-");
    match find_in(&chars, &prefix) {
        Some(pos) => {
            let rest = slice(&chars, pos + prefix.len(), chars.len());
            assert(rest@ == chars@.skip(pos + prefix@.len()));
            let text = replaced_char(&rest, '-', '.');
            parse_decimal(&text)
        },
        None => None,
    }
}

/// A chapter title without its default beginning: where a space follows
/// the eighth character, the title from that space on; else the title as
/// it is.
pub open spec fn stripped_title(s: Seq<char>) -> Seq<char> {
    if s.len() < 8 {
        s
    } else {
        match index_of(s.skip(8), ' ') {
            Some(i) => s.skip(8 + i),
            None => s,
        }
    }
}

/// Strips the default beginning, `Chapter` and a number, from a chapter
/// title that goes on after it. The space before the rest is kept.
pub fn strip_default_chapter_title(s: String) -> (out: String)
    ensures
        out@ == stripped_title(s@),
{
    let chars = chars_of(s.as_str());
    if chars.len() < 8 {
        return s;
    }
    let ghost rest = chars@.skip(8);
    match find_char_from(&chars, ' ', 8) {
        Some(k) => {
            proof {
                lemma_index_of_is(rest, ' ', k - 8);
            }
            let out = slice(&chars, k, chars.len());
            assert(out@ == chars@.skip(k as int));
            string_of(&out)
        },
        None => {
            proof {
                lemma_index_of_none(rest, ' ');
            }
            s
        },
    }
}

/// Whether a character is alphanumeric, as `char::is_alphanumeric` tells.
pub uninterp spec fn is_alphanumeric(c: char) -> bool;

/// Whether an ASCII character is a letter or a digit.
pub open spec fn ascii_alphanumeric(c: char) -> bool {
    ('0' <= c <= '9') || ('a' <= c <= 'z') || ('A' <= c <= 'Z')
}

/// `char::is_alphanumeric`: whether the character is alphabetic or numeric
/// by its Unicode properties. Among the ASCII characters these are the
/// letters and the digits.
#[verifier::external_body]
fn char_is_alphanumeric(c: char) -> (r: bool)
    ensures
        r == is_alphanumeric(c),
        c <= '\x7f' ==> r == ascii_alphanumeric(c),
{
    c.is_alphanumeric()
}

/// What a character adds to a path segment: an alphanumeric one its ASCII
/// lower case form; any other the separator, unless the character before
/// it was no alphanumeric one either, so that a run of such characters
/// makes one separator.
pub open spec fn encoded_char(c: char, alphanumeric: bool, in_run: bool, separator: char) -> Option<
    char,
> {
    if alphanumeric {
        Some(ascii_lower(c))
    } else if in_run {
        None
    } else {
        Some(separator)
    }
}

/// A text as a path segment: lower-cased, with every run of characters
/// that are not alphanumeric collapsed to one separator.
pub open spec fn encoded(s: Seq<char>, separator: char) -> Seq<char>
    decreases s.len(),
{
    if s.len() == 0 {
        Seq::empty()
    } else {
        let head = encoded(s.drop_last(), separator);
        let in_run = s.len() >= 2 && !is_alphanumeric(s[s.len() - 2]);
        match encoded_char(s.last(), is_alphanumeric(s.last()), in_run, separator) {
            Some(c) => head.push(c),
            None => head,
        }
    }
}

/// What the character `c` adds to a path segment, given whether it is
/// alphanumeric and whether the character before it was not.
pub fn encode_char(c: char, alphanumeric: bool, in_run: bool, separator: char) -> (r: Option<char>)
    ensures
        r == encoded_char(c, alphanumeric, in_run, separator),
{
    if alphanumeric {
        Some(to_ascii_lower(c))
    } else if in_run {
        None
    } else {
        Some(separator)
    }
}

/// The characters of a text as a path segment.
pub fn encode_chars(s: &Vec<char>, separator: char) -> (out: Vec<char>)
    ensures
        out@ == encoded(s@, separator),
        forall|k: int|
            0 <= k < s.len() && s[k] <= '\x7f' ==> #[trigger] is_alphanumeric(s[k])
                == ascii_alphanumeric(s[k]),
{
    let mut out: Vec<char> = Vec::new();
    let mut in_run = false;
    let mut i: usize = 0;
    assert(s@.take(0) == Seq::<char>::empty());
    while i < s.len()
        invariant
            i <= s.len(),
            out@ == encoded(s@.take(i as int), separator),
            in_run == (i > 0 && !is_alphanumeric(s@[i - 1])),
            forall|k: int|
                0 <= k < i && s[k] <= '\x7f' ==> #[trigger] is_alphanumeric(s[k])
                    == ascii_alphanumeric(s[k]),
        decreases s.len() - i,
    {
        assert(s@.take(i + 1).drop_last() == s@.take(i as int));
        assert(s@.take(i + 1).last() == s@[i as int]);
        assert(i > 0 ==> s@.take(i + 1)[i - 1] == s@[i - 1]);
        let alphanumeric = char_is_alphanumeric(s[i]);
        match encode_char(s[i], alphanumeric, in_run, separator) {
            Some(c) => {
                out.push(c);
            },
            None => {},
        }
        in_run = !alphanumeric;
        i += 1;
    }
    assert(s@.take(s.len() as int) == s@);
    out
}

/// Turns a text into a path segment: alphanumeric characters in lower
/// case, and one separator for every run of other characters. Of the
/// ASCII characters of the text, the letters and digits are the
/// alphanumeric ones.
pub fn encode(string: String, separator: char) -> (out: String)
    ensures
        out@ == encoded(string@, separator),
        forall|k: int|
            0 <= k < string@.len() && string@[k] <= '\x7f' ==> #[trigger] is_alphanumeric(
                string@[k],
            ) == ascii_alphanumeric(string@[k]),
{
    string_of(&encode_chars(&chars_of(string.as_str()), separator))
}

/// The code of a sort order: 1 for newest, 4 for latest, 7 for most read.
/// Any index but 1 and 2 sorts by newest.
pub open spec fn sort_code(index: i32) -> int {
    if index == 1 {
        4
    } else if index == 2 {
        7
    } else {
        1
    }
}

/// The code of a status choice: 1 for completed, 2 for ongoing; any other
/// word leaves the choice as it was.
pub open spec fn status_code(value: Seq<char>, before: int) -> int {
    if value == "Completed"@ {
        1
    } else if value == "Ongoing"@ {
        2
    } else {
        before
    }
}

/// What the filters of a search have chosen so far.
pub struct Choice {
    pub sort: int,
    pub status: int,
    pub genre: Seq<char>,
}

/// The choice without any filter: newest first, any status, all genres.
pub open spec fn no_choice() -> Choice {
    Choice { sort: 1, status: 0, genre: "all"@ }
}

/// The choice after one more filter. Filters that the search does not
/// know leave it as it was.
pub open spec fn choice_after(c: Choice, f: FilterValue) -> Choice {
    match f {
        FilterValue::Sort { index, .. } => Choice { sort: sort_code(index), ..c },
        FilterValue::Select { id, value } => if id@ == "status"@ {
            Choice { status: status_code(value@, c.status), ..c }
        } else if id@ == "genre"@ {
            Choice { genre: encoded(value@, '-'), ..c }
        } else {
            c
        },
        _ => c,
    }
}

/// The choice after all the filters, in order.
pub open spec fn choice_of(filters: Seq<FilterValue>) -> Choice
    decreases filters.len(),
{
    if filters.len() == 0 {
        no_choice()
    } else {
        choice_after(choice_of(filters.drop_last()), filters.last())
    }
}

/// The number that a listing address carries for the chosen sort order
/// and status: the sum of their codes.
pub open spec fn filter_code(filters: Seq<FilterValue>) -> int {
    choice_of(filters).sort + choice_of(filters).status
}

/// The name that a filter searches authors by: the value of a text filter
/// with the id `author`.
pub open spec fn author_of(f: FilterValue) -> Option<Seq<char>> {
    match f {
        FilterValue::Text { id, value } => if id@ == "author"@ {
            Some(value@)
        } else {
            None
        },
        _ => None,
    }
}

/// The name of the first filter at or after `i` that searches by author.
pub open spec fn first_author_from(filters: Seq<FilterValue>, i: int) -> Option<Seq<char>>
    decreases filters.len() - i,
{
    if i < 0 || i >= filters.len() {
        None
    } else {
        match author_of(filters[i]) {
            Some(name) => Some(name),
            None => first_author_from(filters, i + 1),
        }
    }
}

/// Whether there is a query to search for: one that is not empty.
pub open spec fn has_query(query: Option<Seq<char>>) -> bool {
    query matches Some(q) && q.len() > 0
}

/// The address of a search. With a query that is not empty the filters do
/// not count: the address is that of the text search for the query as a
/// path segment. Else the first filter that searches by author, if there
/// is one, leads to the author of that name, whatever the other filters
/// say. Else the address is that of the chosen genre, with the filter code
/// and the page. Filters that the search does not know change nothing.
pub open spec fn search_url(
    params: Params,
    query: Option<Seq<char>>,
    page: i32,
    filters: Seq<FilterValue>,
) -> Seq<char> {
    if has_query(query) {
        params.base_url@ + params.search_path@ + "/"@ + encoded(query->Some_0, '_') + "?page="@
            + int_text(page as int)
    } else {
        match first_author_from(filters, 0) {
            Some(author) => params.base_url@ + "/author/"@ + encoded(author, '-'),
            None => params.base_url@ + "/genre/"@ + choice_of(filters).genre + "?filter="@
                + int_text(filter_code(filters)) + "&page="@ + int_text(page as int),
        }
    }
}

/// Builds the address of a search from the query, the page and the
/// filters that the user chose.
pub fn get_search_url(
    params: &Params,
    query: Option<String>,
    page: i32,
    filters: Vec<FilterValue>,
) -> (url: String)
    ensures
        url@ == search_url(*params, query.deep_view(), page, filters@),
{
    let page_text = i64_chars(page as i64);
    let mut out = chars_of(params.base_url.as_str());
    let query_chars: Vec<char> = match &query {
        Some(q) => chars_of(q.as_str()),
        None => Vec::new(),
    };
    if query_chars.len() > 0 {
        append_str(&mut out, params.search_path.as_str());
        append_str(&mut out, "/");
        let segment = encode_chars(&query_chars, '_');
        append(&mut out, &segment);
        append_str(&mut out, "?page=");
        append(&mut out, &page_text);
        return string_of(&out);
    }
    let mut sort: i64 = 1;
    let mut status: i64 = 0;
    let mut genre = chars_of("all");
    let mut i: usize = 0;
    assert(filters@.take(0) == Seq::<FilterValue>::empty());
    while i < filters.len()
        invariant
            i <= filters.len(),
            !has_query(query.deep_view()),
            first_author_from(filters@, 0) == first_author_from(filters@, i as int),
            sort == choice_of(filters@.take(i as int)).sort,
            status == choice_of(filters@.take(i as int)).status,
            genre@ == choice_of(filters@.take(i as int)).genre,
            1 <= sort <= 7,
            0 <= status <= 2,
            out@ == params.base_url@,
        decreases filters.len() - i,
    {
        assert(filters@.take(i + 1).drop_last() == filters@.take(i as int));
        assert(filters@.take(i + 1).last() == filters@[i as int]);
        match &filters[i] {
            FilterValue::Sort { index, .. } => {
                sort = if *index == 1 {
                    4
                } else if *index == 2 {
                    7
                } else {
                    1
                };
            },
            FilterValue::Select { id, value } => {
                let id_chars = chars_of(id.as_str());
                if seq_eq(&id_chars, &chars_of("status")) {
                    let v = chars_of(value.as_str());
                    if seq_eq(&v, &chars_of("Completed")) {
                        status = 1;
                    } else if seq_eq(&v, &chars_of("Ongoing")) {
                        status = 2;
                    }
                } else if seq_eq(&id_chars, &chars_of("genre")) {
                    genre = encode_chars(&chars_of(value.as_str()), '-');
                }
            },
            FilterValue::Text { id, value } => {
                if seq_eq(&chars_of(id.as_str()), &chars_of("author")) {
                    assert(first_author_from(filters@, i as int) == Some(value@));
                    append_str(&mut out, "/author/");
                    let segment = encode_chars(&chars_of(value.as_str()), '-');
                    append(&mut out, &segment);
                    return string_of(&out);
                }
            },
            _ => {},
        }
        i += 1;
    }
    assert(filters@.take(filters.len() as int) == filters@);
    append_str(&mut out, "/genre/");
    append(&mut out, &genre);
    append_str(&mut out, "?filter=");
    let code = i64_chars(sort + status);
    append(&mut out, &code);
    append_str(&mut out, "&page=");
    append(&mut out, &page_text);
    string_of(&out)
}

} // verus!
