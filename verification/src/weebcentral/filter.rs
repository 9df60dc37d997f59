//! The parameters that the filters of a search make.

use vstd::prelude::*;
use crate::query::{pairs_of, push_all};
use crate::model::FilterValue;
use crate::text::{append_str, chars_of, string_of, trim, trimmed};

verus! {

/// The names of the site's sort orders by index, and the one that stands
/// for any other index.
#[derive(Clone, Debug, PartialEq, Eq)]
pub struct SortOptions {
    pub names: Vec<String>,
    pub fallback: String,
}

impl SortOptions {
    /// The name of the sort order with the given index.
    pub open spec fn name(self, index: i32) -> Seq<char> {
        if 0 <= index < self.names.len() {
            self.names[index as int]@
        } else {
            self.fallback@
        }
    }

    /// The name of the sort order with the given index.
    pub fn get(&self, index: i32) -> (r: String)
        ensures
            r@ == self.name(index),
    {
        if index >= 0 && (index as usize) < self.names.len() {
            self.names[index as usize].clone()
        } else {
            self.fallback.clone()
        }
    }
}

/// What the filters of a search have made so far: the parameters, in
/// order, and what is added behind them as it is.
pub struct Filters {
    pub params: Seq<(Seq<char>, Seq<char>)>,
    pub extra: Seq<char>,
}

/// The strings one after the other.
pub open spec fn concat_all(values: Seq<Seq<char>>) -> Seq<char>
    decreases values.len(),
{
    if values.len() == 0 {
        Seq::empty()
    } else {
        concat_all(values.drop_last()) + values.last()
    }
}

/// The word for a choice of official translations.
pub open spec fn official_word(value: i32) -> Seq<char> {
    if value == 0 {
        "False"@
    } else if value == 1 {
        "True"@
    } else {
        "Any"@
    }
}

/// What the filters have made after one more filter: a text that is not
/// empty searches by author; a sort order gives its name and direction;
/// a choice among genres includes and excludes tags, and any other
/// choice of several adds what it includes as it is; a check asks for
/// official translations or not.
pub open spec fn filters_after(acc: Filters, f: FilterValue, sort: SortOptions) -> Filters {
    match f {
        FilterValue::Text { value, .. } => if value@.len() > 0 {
            Filters { params: acc.params.push(("author"@, value@)), ..acc }
        } else {
            acc
        },
        FilterValue::Sort { index, ascending, .. } => Filters {
            params: acc.params.push(("sort"@, sort.name(index))).push(
                (
                    "order"@,
                    if ascending {
                        "Ascending"@
                    } else {
                        "Descending"@
                    },
                ),
            ),
            ..acc
        },
        FilterValue::MultiSelect { id, included, excluded } => if id@ == "genre"@ {
            Filters {
                params: acc.params + pairs_of("included_tag"@, included.deep_view()) + pairs_of(
                    "excluded_tag"@,
                    excluded.deep_view(),
                ),
                ..acc
            }
        } else {
            Filters { extra: acc.extra + concat_all(included.deep_view()), ..acc }
        },
        FilterValue::Check { value, .. } => Filters {
            params: acc.params.push(("official"@, official_word(value))),
            ..acc
        },
        _ => acc,
    }
}

/// What the query makes before any filter: the text to search for, where
/// the query is not empty once white space at both ends is gone.
pub open spec fn query_filters(query: Option<Seq<char>>) -> Filters {
    Filters {
        params: match query {
            Some(q) => if trim(q).len() > 0 {
                seq![("text"@, trim(q))]
            } else {
                Seq::empty()
            },
            None => Seq::empty(),
        },
        extra: Seq::empty(),
    }
}

/// What the query and all the filters make, in order.
pub open spec fn filters_of(query: Option<Seq<char>>, filters: Seq<FilterValue>, sort: SortOptions) -> Filters
    decreases filters.len(),
{
    if filters.len() == 0 {
        query_filters(query)
    } else {
        filters_after(filters_of(query, filters.drop_last(), sort), filters.last(), sort)
    }
}

/// Builds the parameters of a search, in order and before they are
/// encoded, and what is added behind them as it is. `query` is the query
/// without its special characters.
pub fn get_filters(query: &Option<String>, filters: &Vec<FilterValue>, sort: &SortOptions) -> (r: (
    Vec<(String, String)>,
    String,
))
    ensures
        r.0.deep_view() == filters_of(query.deep_view(), filters@, *sort).params,
        r.1@ == filters_of(query.deep_view(), filters@, *sort).extra,
{
    let mut params: Vec<(String, String)> = Vec::new();
    let mut extra: Vec<char> = Vec::new();
    assert(params.deep_view() == Seq::<(Seq<char>, Seq<char>)>::empty());
    match query {
        Some(q) => {
            let cleaned = trimmed(&chars_of(q.as_str()));
            if cleaned.len() > 0 {
                let pair = (String::from_str("text"), string_of(&cleaned));
                params.push(pair);
                assert(params.deep_view() =~= seq![("text"@, trim(q@))]);
            }
        },
        None => {},
    }
    let mut i: usize = 0;
    assert(filters@.take(0) == Seq::<FilterValue>::empty());
    while i < filters.len()
        invariant
            i <= filters.len(),
            params.deep_view() == filters_of(
                query.deep_view(),
                filters@.take(i as int),
                *sort,
            ).params,
            extra@ == filters_of(query.deep_view(), filters@.take(i as int), *sort).extra,
        decreases filters.len() - i,
    {
        assert(filters@.take(i + 1).drop_last() == filters@.take(i as int));
        assert(filters@.take(i + 1).last() == filters@[i as int]);
        let ghost before = params.deep_view();
        match &filters[i] {
            FilterValue::Text { value, .. } => {
                if value.as_str().unicode_len() > 0 {
                    let pair = (String::from_str("author"), value.clone());
                    params.push(pair);
                    assert(params.deep_view() == before.push(("author"@, value@)));
                }
            },
            FilterValue::Sort { index, ascending, .. } => {
                let first = (String::from_str("sort"), sort.get(*index));
                params.push(first);
                assert(params.deep_view() == before.push(("sort"@, sort.name(*index))));
                let ghost mid = params.deep_view();
                let second = (String::from_str("order"), String::from_str(if *ascending {
                    "Ascending"
                } else {
                    "Descending"
                }));
                params.push(second);
                assert(params.deep_view() == mid.push((second.0@, second.1@)));
            },
            FilterValue::MultiSelect { id, included, excluded } => {
                if crate::text::str_eq(id.as_str(), "genre") {
                    push_all(&mut params, "included_tag", included);
                    push_all(&mut params, "excluded_tag", excluded);
                } else {
                    let ghost start = extra@;
                    let mut k: usize = 0;
                    assert(included.deep_view().take(0) == Seq::<Seq<char>>::empty());
                    assert(start + Seq::<char>::empty() == start);
                    while k < included.len()
                        invariant
                            k <= included.len(),
                            extra@ == start + concat_all(included.deep_view().take(k as int)),
                        decreases included.len() - k,
                    {
                        assert(included.deep_view().take(k + 1).drop_last()
                            == included.deep_view().take(k as int));
                        assert(included.deep_view().take(k + 1).last() == included[k as int]@);
                        append_str(&mut extra, included[k].as_str());
                        assert(extra@ == start + (concat_all(included.deep_view().take(k as int))
                            + included[k as int]@));
                        k += 1;
                    }
                    assert(included.deep_view().take(included.len() as int)
                        == included.deep_view());
                }
            },
            FilterValue::Check { value, .. } => {
                let word = if *value == 0 {
                    "False"
                } else if *value == 1 {
                    "True"
                } else {
                    "Any"
                };
                let pair = (String::from_str("official"), String::from_str(word));
                params.push(pair);
                assert(params.deep_view() == before.push(("official"@, official_word(*value))));
            },
            _ => {},
        }
        i += 1;
    }
    assert(filters@.take(filters.len() as int) == filters@);
    (params, string_of(&extra))
}

} // verus!
