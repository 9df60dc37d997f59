//! Sets of strings, for telling what was seen before.

use vstd::prelude::*;

verus! {

/// A set of strings, kept in a `hashbrown::HashSet`.
#[verifier::external_body]
pub struct StringSet {
    set: hashbrown::HashSet<String>,
}

/// The strings that a set holds.
pub uninterp spec fn set_strings(s: StringSet) -> Set<Seq<char>>;

/// `hashbrown::HashSet::new`: a set that holds nothing.
#[verifier::external_body]
pub(crate) fn new_set() -> (s: StringSet)
    ensures
        set_strings(s) == Set::<Seq<char>>::empty(),
{
    StringSet { set: hashbrown::HashSet::new() }
}

/// `hashbrown::HashSet::insert`: adds the value to the set, and tells
/// whether the set did not hold it before.
#[verifier::external_body]
pub(crate) fn set_insert(s: &mut StringSet, value: String) -> (fresh: bool)
    ensures
        fresh == !set_strings(*old(s)).contains(value@),
        set_strings(*final(s)) == set_strings(*old(s)).insert(value@),
{
    s.set.insert(value)
}

/// The strings of `ids` without those that occurred before in it.
pub open spec fn first_occurrences(ids: Seq<Seq<char>>) -> Seq<Seq<char>>
    decreases ids.len(),
{
    if ids.len() == 0 {
        Seq::empty()
    } else {
        let head = first_occurrences(ids.drop_last());
        if ids.drop_last().contains(ids.last()) {
            head
        } else {
            head.push(ids.last())
        }
    }
}

/// What is left of `ids` holds every string of `ids`, and none twice.
pub proof fn lemma_first_occurrences(ids: Seq<Seq<char>>)
    ensures
        first_occurrences(ids).no_duplicates(),
        forall|x: Seq<char>| first_occurrences(ids).contains(x) <==> ids.contains(x),
    decreases ids.len(),
{
    if ids.len() > 0 {
        let rest = ids.drop_last();
        let last = ids.last();
        let head = first_occurrences(rest);
        let out = first_occurrences(ids);
        lemma_first_occurrences(rest);
        assert forall|x: Seq<char>| out.contains(x) <==> ids.contains(x) by {
            if ids.contains(x) {
                let k = choose|k: int| 0 <= k < ids.len() && ids[k] == x;
                if k < rest.len() {
                    assert(rest[k] == x);
                    assert(rest.contains(x));
                    assert(head.contains(x));
                    let j = choose|j: int| 0 <= j < head.len() && head[j] == x;
                    assert(out[j] == x);
                } else {
                    if rest.contains(last) {
                        assert(head.contains(last));
                    } else {
                        assert(out[out.len() - 1] == x);
                    }
                }
            }
            if out.contains(x) {
                let j = choose|j: int| 0 <= j < out.len() && out[j] == x;
                if j < head.len() {
                    assert(head[j] == x);
                    assert(head.contains(x));
                    assert(rest.contains(x));
                    let k = choose|k: int| 0 <= k < rest.len() && rest[k] == x;
                    assert(ids[k] == x);
                } else {
                    assert(ids[ids.len() - 1] == x);
                }
            }
        }
        if !rest.contains(last) {
            assert forall|i: int, j: int| 0 <= i < out.len() && 0 <= j < out.len() && i != j
                implies out[i] != out[j] by {
                if i < head.len() && j < head.len() {
                    assert(head[i] != head[j]);
                } else if i < head.len() {
                    assert(head.contains(head[i]));
                } else if j < head.len() {
                    assert(head.contains(head[j]));
                }
            }
        }
    }
}

/// The strings of `ids`, each at its first occurrence only, in order.
pub fn unique(ids: &Vec<String>) -> (out: Vec<String>)
    ensures
        out.deep_view() == first_occurrences(ids.deep_view()),
{
    let mut seen = new_set();
    let mut out: Vec<String> = Vec::new();
    let mut i: usize = 0;
    let ghost all = ids.deep_view();
    assert(all.take(0) == Seq::<Seq<char>>::empty());
    assert(out.deep_view() == Seq::<Seq<char>>::empty());
    while i < ids.len()
        invariant
            i <= ids.len(),
            all == ids.deep_view(),
            out.deep_view() == first_occurrences(all.take(i as int)),
            forall|x: Seq<char>| set_strings(seen).contains(x) <==> all.take(i as int).contains(x),
        decreases ids.len() - i,
    {
        let ghost head = all.take(i as int);
        assert(all.take(i + 1).drop_last() == head);
        assert(all.take(i + 1).last() == ids[i as int]@);
        let ghost before = out.deep_view();
        let fresh = set_insert(&mut seen, ids[i].clone());
        if fresh {
            let id = ids[i].clone();
            out.push(id);
            assert(out.deep_view() == before.push(id@));
        }
        proof {
            let next = all.take(i + 1);
            assert forall|x: Seq<char>| set_strings(seen).contains(x) <==> next.contains(x) by {
                if next.contains(x) {
                    let k = choose|k: int| 0 <= k < next.len() && next[k] == x;
                    if k < i {
                        assert(head[k] == x);
                    }
                }
                if head.contains(x) {
                    let k = choose|k: int| 0 <= k < head.len() && head[k] == x;
                    assert(next[k] == x);
                }
                assert(next[i as int] == ids[i as int]@);
            }
        }
        i += 1;
    }
    assert(all.take(ids.len() as int) == all);
    out
}

} // verus!
