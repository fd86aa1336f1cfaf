use vstd::prelude::*;

use crate::order::{
    compare_text, lemma_text_lt_asymmetric, lemma_text_lt_irreflexive, lemma_text_lt_total,
    lemma_text_lt_transitive, text_lt, Order3,
};
use crate::text::{owned, texts};

verus! {

// A set of names kept as a vector of strings in increasing order without
// repetition, so that walking it gives the names in order.

/// Texts in strictly increasing order.
pub open spec fn strictly_sorted(s: Seq<Seq<char>>) -> bool {
    forall|i: int, j: int| 0 <= i < j < s.len() ==> text_lt(#[trigger] s[i], #[trigger] s[j])
}

/// The set that a sorted vector of names stands for.
pub open spec fn name_set(v: Seq<String>) -> Set<Seq<char>> {
    texts(v).to_set()
}

/// A well-formed name set: strictly sorted.
pub open spec fn names_wf(v: Seq<String>) -> bool {
    strictly_sorted(texts(v))
}

proof fn lemma_texts_insert(v: Seq<String>, i: int, x: String)
    requires
        0 <= i <= v.len(),
    ensures
        texts(v.insert(i, x)) == texts(v).insert(i, x@),
{
    assert(texts(v.insert(i, x)) =~= texts(v).insert(i, x@));
}

proof fn lemma_texts_remove(v: Seq<String>, i: int)
    requires
        0 <= i < v.len(),
    ensures
        texts(v.remove(i)) == texts(v).remove(i),
{
    assert(texts(v.remove(i)) =~= texts(v).remove(i));
}

/// Finds where `x` is or belongs in a sorted set: the first position whose
/// name is not below `x`, and whether `x` is there.
fn locate(v: &Vec<String>, x: &str) -> (r: (usize, bool))
    requires
        names_wf(v@),
    ensures
        r.0 <= v@.len(),
        forall|k: int| 0 <= k < r.0 ==> text_lt(#[trigger] texts(v@)[k], x@),
        forall|k: int| r.0 <= k < v@.len() ==> !text_lt(#[trigger] texts(v@)[k], x@),
        r.1 == (r.0 < v@.len() && texts(v@)[r.0 as int] == x@),
        r.1 == texts(v@).contains(x@),
{
    let ghost t = texts(v@);
    let mut i: usize = 0;
    while i < v.len()
        invariant
            i <= v@.len(),
            t == texts(v@),
            names_wf(v@),
            forall|k: int| 0 <= k < i ==> text_lt(#[trigger] t[k], x@),
        decreases v.len() - i,
    {
        match compare_text(v[i].as_str(), x) {
            Order3::Less => {
                i = i + 1;
            },
            Order3::Equal => {
                proof {
                    assert(t[i as int] == x@);
                    assert forall|k: int| i <= k < v@.len() implies !text_lt(#[trigger] t[k], x@) by {
                        if k > i {
                            assert(text_lt(t[i as int], t[k]));
                            lemma_text_lt_asymmetric(t[i as int], t[k]);
                        } else {
                            lemma_text_lt_irreflexive(x@);
                        }
                    }
                }
                return (i, true);
            },
            Order3::Greater => {
                proof {
                    assert(text_lt(x@, t[i as int]));
                    assert forall|k: int| i <= k < v@.len() implies !text_lt(#[trigger] t[k], x@) by {
                        if k > i {
                            assert(text_lt(t[i as int], t[k]));
                            lemma_text_lt_transitive(x@, t[i as int], t[k]);
                            lemma_text_lt_asymmetric(x@, t[k]);
                        } else {
                            lemma_text_lt_asymmetric(x@, t[i as int]);
                        }
                    }
                    assert(!t.contains(x@)) by {
                        if t.contains(x@) {
                            let k = choose|k: int| 0 <= k < t.len() && t[k] == x@;
                            if k < i {
                                lemma_text_lt_irreflexive(x@);
                            } else {
                                lemma_text_lt_irreflexive(x@);
                            }
                        }
                    }
                }
                return (i, false);
            },
        }
    }
    proof {
        assert(!t.contains(x@)) by {
            if t.contains(x@) {
                let k = choose|k: int| 0 <= k < t.len() && t[k] == x@;
                lemma_text_lt_irreflexive(x@);
            }
        }
    }
    (i, false)
}

/// Whether the set holds `x`.
pub fn names_contain(v: &Vec<String>, x: &str) -> (r: bool)
    requires
        names_wf(v@),
    ensures
        r == name_set(v@).contains(x@),
{
    let (_, found) = locate(v, x);
    found
}

/// Adds `x` to the set; true when it was not there before.
pub fn names_insert(v: &mut Vec<String>, x: &str) -> (r: bool)
    requires
        names_wf(old(v)@),
    ensures
        names_wf(final(v)@),
        name_set(final(v)@) == name_set(old(v)@).insert(x@),
        r == !name_set(old(v)@).contains(x@),
{
    let (i, found) = locate(v, x);
    if found {
        assert(name_set(v@).insert(x@) =~= name_set(v@));
        return false;
    }
    let ghost t = texts(v@);
    let item = owned(x);
    v.insert(i, item);
    proof {
        lemma_texts_insert(old(v)@, i as int, item);
        let u = texts(v@);
        assert(u == t.insert(i as int, x@));
        assert forall|a: int, b: int| 0 <= a < b < u.len() implies text_lt(
            #[trigger] u[a],
            #[trigger] u[b],
        ) by {
            if b < i {
            } else if a < i && b == i {
            } else if a < i {
                assert(t[b - 1] != x@) by {
                    if t[b - 1] == x@ {
                        assert(t.contains(x@));
                    }
                }
                lemma_text_lt_total(t[b - 1], x@);
                lemma_text_lt_transitive(u[a], x@, u[b]);
            } else if a == i {
                assert(t[b - 1] != x@) by {
                    if t[b - 1] == x@ {
                        assert(t.contains(x@));
                    }
                }
                lemma_text_lt_total(t[b - 1], x@);
            } else {
            }
        }
        assert(name_set(v@) =~= name_set(old(v)@).insert(x@)) by {
            assert forall|s: Seq<char>| name_set(v@).contains(s) <==> name_set(old(v)@).insert(
                x@,
            ).contains(s) by {
                if u.contains(s) {
                    let k = choose|k: int| 0 <= k < u.len() && u[k] == s;
                    if k < i {
                        assert(t[k] == s);
                    } else if k > i {
                        assert(t[k - 1] == s);
                    }
                }
                if t.contains(s) {
                    let k = choose|k: int| 0 <= k < t.len() && t[k] == s;
                    if k < i {
                        assert(u[k] == s);
                    } else {
                        assert(u[k + 1] == s);
                    }
                }
                if s == x@ {
                    assert(u[i as int] == s);
                }
            }
        }
    }
    true
}

/// Removes `x` from the set; true when it was there.
pub fn names_remove(v: &mut Vec<String>, x: &str) -> (r: bool)
    requires
        names_wf(old(v)@),
    ensures
        names_wf(final(v)@),
        name_set(final(v)@) == name_set(old(v)@).remove(x@),
        r == name_set(old(v)@).contains(x@),
{
    let (i, found) = locate(v, x);
    if !found {
        assert(name_set(v@).remove(x@) =~= name_set(v@));
        return false;
    }
    let ghost t = texts(v@);
    v.remove(i);
    proof {
        lemma_texts_remove(old(v)@, i as int);
        let u = texts(v@);
        assert(u == t.remove(i as int));
        assert forall|a: int, b: int| 0 <= a < b < u.len() implies text_lt(
            #[trigger] u[a],
            #[trigger] u[b],
        ) by {
            if a < i && b >= i {
                assert(u[b] == t[b + 1]);
            }
        }
        assert(name_set(v@) =~= name_set(old(v)@).remove(x@)) by {
            assert forall|s: Seq<char>| name_set(v@).contains(s) <==> name_set(old(v)@).remove(
                x@,
            ).contains(s) by {
                if u.contains(s) {
                    let k = choose|k: int| 0 <= k < u.len() && u[k] == s;
                    if k < i {
                        assert(t[k] == s);
                        assert(text_lt(t[k], t[i as int]));
                        lemma_text_lt_asymmetric(t[k], t[i as int]);
                    } else {
                        assert(t[k + 1] == s);
                        assert(text_lt(t[i as int], t[k + 1]));
                        lemma_text_lt_asymmetric(t[i as int], t[k + 1]);
                    }
                }
                if t.contains(s) && s != x@ {
                    let k = choose|k: int| 0 <= k < t.len() && t[k] == s;
                    if k < i {
                        assert(u[k] == s);
                    } else {
                        assert(k != i);
                        assert(u[k - 1] == s);
                    }
                }
            }
        }
    }
    true
}

/// Empties the set.
pub fn names_clear(v: &mut Vec<String>)
    ensures
        final(v)@ == Seq::<String>::empty(),
        names_wf(final(v)@),
        name_set(final(v)@) == Set::<Seq<char>>::empty(),
{
    v.clear();
    assert(texts(v@) =~= Seq::<Seq<char>>::empty());
    assert(name_set(v@) =~= Set::<Seq<char>>::empty());
}

/// The empty set.
pub fn names_new() -> (v: Vec<String>)
    ensures
        v@ == Seq::<String>::empty(),
        names_wf(v@),
        name_set(v@) == Set::<Seq<char>>::empty(),
{
    let v: Vec<String> = Vec::new();
    assert(texts(v@) =~= Seq::<Seq<char>>::empty());
    assert(name_set(v@) =~= Set::<Seq<char>>::empty());
    v
}

} // verus!
