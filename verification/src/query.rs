//! Query parameters as ordered pairs of key and value, before they are
//! encoded into an address.

use vstd::prelude::*;
use crate::text::{append_str, split, split_strings, str_eq, string_of};

verus! {

/// One pair of `key` and value for each of the values, in order.
pub open spec fn pairs_of(key: Seq<char>, values: Seq<Seq<char>>) -> Seq<(Seq<char>, Seq<char>)>
    decreases values.len(),
{
    if values.len() == 0 {
        Seq::empty()
    } else {
        pairs_of(key, values.drop_last()).push((key, values.last()))
    }
}

/// One pair of `key` and piece for each piece between commas of each of
/// the values, in order.
pub open spec fn split_pairs_of(key: Seq<char>, values: Seq<Seq<char>>) -> Seq<
    (Seq<char>, Seq<char>),
>
    decreases values.len(),
{
    if values.len() == 0 {
        Seq::empty()
    } else {
        split_pairs_of(key, values.drop_last()) + pairs_of(key, split(values.last(), ','))
    }
}

/// The pairs with the value of `key` set: the first pair with that key
/// takes the value, and where there is none the pair is added at the end.
pub open spec fn with_param(
    pairs: Seq<(Seq<char>, Seq<char>)>,
    key: Seq<char>,
    value: Seq<char>,
) -> Seq<(Seq<char>, Seq<char>)>
    decreases pairs.len(),
{
    if pairs.len() == 0 {
        seq![(key, value)]
    } else if pairs[0].0 == key {
        seq![(key, value)] + pairs.drop_first()
    } else {
        seq![pairs[0]] + with_param(pairs.drop_first(), key, value)
    }
}

/// The strings joined with `sep` between them.
pub open spec fn joined(parts: Seq<Seq<char>>, sep: Seq<char>) -> Seq<char>
    decreases parts.len(),
{
    if parts.len() == 0 {
        Seq::empty()
    } else if parts.len() == 1 {
        parts[0]
    } else {
        joined(parts.drop_last(), sep) + sep + parts.last()
    }
}

/// Adds one pair of `key` and value for each of the values.
pub fn push_all(params: &mut Vec<(String, String)>, key: &str, values: &Vec<String>)
    ensures
        final(params).deep_view() == old(params).deep_view() + pairs_of(key@, values.deep_view()),
{
    let ghost start = params.deep_view();
    let mut i: usize = 0;
    assert(values.deep_view().take(0) == Seq::<Seq<char>>::empty());
    assert(start + Seq::<(Seq<char>, Seq<char>)>::empty() == start);
    while i < values.len()
        invariant
            i <= values.len(),
            start == old(params).deep_view(),
            params.deep_view() == start + pairs_of(key@, values.deep_view().take(i as int)),
        decreases values.len() - i,
    {
        assert(values.deep_view().take(i + 1).drop_last() == values.deep_view().take(i as int));
        assert(values.deep_view().take(i + 1).last() == values[i as int]@);
        let ghost before = params.deep_view();
        let pair = (String::from_str(key), values[i].clone());
        params.push(pair);
        assert(params.deep_view() == before.push((key@, values[i as int]@)));
        assert(before.push((key@, values[i as int]@)) == start + pairs_of(
            key@,
            values.deep_view().take(i as int),
        ).push((key@, values[i as int]@)));
        i += 1;
    }
    assert(values.deep_view().take(values.len() as int) == values.deep_view());
}

/// Adds one pair of `key` and piece for each piece between commas of each
/// of the values.
pub fn push_all_split(params: &mut Vec<(String, String)>, key: &str, values: &Vec<String>)
    ensures
        final(params).deep_view() == old(params).deep_view() + split_pairs_of(
            key@,
            values.deep_view(),
        ),
{
    let ghost start = params.deep_view();
    let mut i: usize = 0;
    assert(values.deep_view().take(0) == Seq::<Seq<char>>::empty());
    assert(start + Seq::<(Seq<char>, Seq<char>)>::empty() == start);
    while i < values.len()
        invariant
            i <= values.len(),
            start == old(params).deep_view(),
            params.deep_view() == start + split_pairs_of(key@, values.deep_view().take(i as int)),
        decreases values.len() - i,
    {
        assert(values.deep_view().take(i + 1).drop_last() == values.deep_view().take(i as int));
        assert(values.deep_view().take(i + 1).last() == values[i as int]@);
        let pieces = split_strings(values[i].as_str(), ',');
        let ghost before = params.deep_view();
        push_all(params, key, &pieces);
        assert(before + pairs_of(key@, pieces.deep_view()) == start + (split_pairs_of(
            key@,
            values.deep_view().take(i as int),
        ) + pairs_of(key@, pieces.deep_view())));
        i += 1;
    }
    assert(values.deep_view().take(values.len() as int) == values.deep_view());
}

/// Sets the value of `key` among the pairs.
pub fn set_param(pairs: &mut Vec<(String, String)>, key: &str, value: String)
    ensures
        final(pairs).deep_view() == with_param(old(pairs).deep_view(), key@, value@),
{
    let ghost before = pairs.deep_view();
    let mut i: usize = 0;
    assert(before.skip(0) == before);
    assert(before.take(0) + with_param(before, key@, value@) == with_param(before, key@, value@));
    while i < pairs.len()
        invariant
            i <= pairs.len(),
            pairs.deep_view() == before,
            before == old(pairs).deep_view(),
            with_param(before, key@, value@) == before.take(i as int) + with_param(
                before.skip(i as int),
                key@,
                value@,
            ),
        decreases pairs.len() - i,
    {
        let ghost rest = before.skip(i as int);
        assert(rest[0] == (pairs[i as int].0@, pairs[i as int].1@));
        assert(rest.drop_first() == before.skip(i + 1));
        if str_eq(pairs[i].0.as_str(), key) {
            assert(with_param(rest, key@, value@) == seq![(key@, value@)] + rest.drop_first());
            let entry = (String::from_str(key), value);
            pairs.set(i, entry);
            assert(pairs.deep_view() =~= before.take(i as int) + (seq![(key@, value@)]
                + rest.drop_first()));
            return ;
        }
        assert(before.take(i + 1) + with_param(before.skip(i + 1), key@, value@) =~= before.take(
            i as int,
        ) + (seq![rest[0]] + with_param(rest.drop_first(), key@, value@)));
        i += 1;
    }
    assert(before.skip(before.len() as int) == Seq::<(Seq<char>, Seq<char>)>::empty());
    pairs.push((String::from_str(key), value));
    assert(pairs.deep_view() =~= before.take(before.len() as int) + seq![(key@, value@)]);
}

/// The strings joined with `sep` between them.
pub fn join(parts: &Vec<String>, sep: &str) -> (out: String)
    ensures
        out@ == joined(parts.deep_view(), sep@),
{
    let mut out: Vec<char> = Vec::new();
    let mut i: usize = 0;
    assert(parts.deep_view().take(0) == Seq::<Seq<char>>::empty());
    while i < parts.len()
        invariant
            i <= parts.len(),
            out@ == joined(parts.deep_view().take(i as int), sep@),
        decreases parts.len() - i,
    {
        assert(parts.deep_view().take(i + 1).drop_last() == parts.deep_view().take(i as int));
        assert(parts.deep_view().take(i + 1).last() == parts[i as int]@);
        if i > 0 {
            append_str(&mut out, sep);
        } else {
            assert(out@ + parts[i as int]@ == parts[i as int]@);
        }
        append_str(&mut out, parts[i].as_str());
        i += 1;
    }
    assert(parts.deep_view().take(parts.len() as int) == parts.deep_view());
    string_of(&out)
}

/// A copy of a list of pairs of strings.
pub fn clone_pairs(pairs: &Vec<(String, String)>) -> (out: Vec<(String, String)>)
    ensures
        out.deep_view() == pairs.deep_view(),
{
    let mut out: Vec<(String, String)> = Vec::new();
    let mut i: usize = 0;
    while i < pairs.len()
        invariant
            i <= pairs.len(),
            out.len() == i,
            forall|j: int| 0 <= j < i ==> out[j].0@ == pairs[j].0@ && out[j].1@ == pairs[j].1@,
        decreases pairs.len() - i,
    {
        out.push((pairs[i].0.clone(), pairs[i].1.clone()));
        i += 1;
    }
    assert(out.deep_view() =~= pairs.deep_view());
    out
}

} // verus!
