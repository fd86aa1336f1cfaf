use vstd::prelude::*;

verus! {

// Stable insertion sort by a strict "comes before" relation, as a
// mathematical function, with its laws.

/// The first position from `i` on whose item `x` comes before, or the end.
pub open spec fn first_after<T>(out: Seq<T>, x: T, before: spec_fn(T, T) -> bool, i: int) -> int
    decreases out.len() - i,
{
    if i >= out.len() {
        out.len() as int
    } else if before(x, out[i]) {
        i
    } else {
        first_after(out, x, before, i + 1)
    }
}

/// `out` with `x` inserted after every item that `x` does not come before.
pub open spec fn insert_sorted<T>(out: Seq<T>, x: T, before: spec_fn(T, T) -> bool) -> Seq<T> {
    out.insert(first_after(out, x, before, 0), x)
}

/// The items of `s` sorted stably by `before`.
pub open spec fn isort<T>(s: Seq<T>, before: spec_fn(T, T) -> bool) -> Seq<T>
    decreases s.len(),
{
    if s.len() == 0 {
        Seq::empty()
    } else {
        insert_sorted(isort(s.drop_last(), before), s.last(), before)
    }
}

/// No item comes before an earlier one.
pub open spec fn in_order<T>(s: Seq<T>, before: spec_fn(T, T) -> bool) -> bool {
    forall|i: int, j: int| 0 <= i < j < s.len() ==> !before(#[trigger] s[j], #[trigger] s[i])
}

/// `before` is a strict order: irreflexive and transitive.
pub open spec fn strict_order<T>(before: spec_fn(T, T) -> bool) -> bool {
    &&& forall|a: T| !#[trigger] before(a, a)
    &&& forall|a: T, b: T, c: T| #[trigger] before(a, b) && #[trigger] before(b, c) ==> before(a, c)
}

pub proof fn lemma_first_after<T>(out: Seq<T>, x: T, before: spec_fn(T, T) -> bool, i: int)
    requires
        0 <= i <= out.len(),
    ensures
        i <= first_after(out, x, before, i) <= out.len(),
        forall|k: int| i <= k < first_after(out, x, before, i) ==> !before(x, #[trigger] out[k]),
        first_after(out, x, before, i) < out.len() ==> before(
            x,
            out[first_after(out, x, before, i)],
        ),
    decreases out.len() - i,
{
    if i < out.len() && !before(x, out[i]) {
        lemma_first_after(out, x, before, i + 1);
    }
}

pub proof fn lemma_isort_len<T>(s: Seq<T>, before: spec_fn(T, T) -> bool)
    ensures
        isort(s, before).len() == s.len(),
    decreases s.len(),
{
    if s.len() > 0 {
        lemma_isort_len(s.drop_last(), before);
        lemma_first_after(isort(s.drop_last(), before), s.last(), before, 0);
    }
}

/// Sorting keeps the items: the result is a permutation of the input.
pub proof fn law_isort_permutes<T>(s: Seq<T>, before: spec_fn(T, T) -> bool)
    ensures
        isort(s, before).to_multiset() == s.to_multiset(),
    decreases s.len(),
{
    broadcast use vstd::seq_lib::group_to_multiset_ensures;

    if s.len() > 0 {
        let rest = isort(s.drop_last(), before);
        law_isort_permutes(s.drop_last(), before);
        lemma_first_after(rest, s.last(), before, 0);
        vstd::seq_lib::to_multiset_insert(rest, first_after(rest, s.last(), before, 0), s.last());
        assert(s =~= s.drop_last().push(s.last()));
        assert(s.drop_last().push(s.last()).to_multiset() =~= s.drop_last().to_multiset().insert(
            s.last(),
        ));
    } else {
        assert(isort(s, before) =~= s);
    }
}

/// Under a strict order, sorting leaves no item before an earlier one.
pub proof fn law_isort_in_order<T>(s: Seq<T>, before: spec_fn(T, T) -> bool)
    requires
        strict_order(before),
    ensures
        in_order(isort(s, before), before),
    decreases s.len(),
{
    if s.len() > 0 {
        let rest = isort(s.drop_last(), before);
        let x = s.last();
        law_isort_in_order(s.drop_last(), before);
        lemma_first_after(rest, x, before, 0);
        let p = first_after(rest, x, before, 0);
        let r = rest.insert(p, x);
        assert forall|i: int, j: int| 0 <= i < j < r.len() implies !before(
            #[trigger] r[j],
            #[trigger] r[i],
        ) by {
            if j < p {
                assert(r[i] == rest[i] && r[j] == rest[j]);
            } else if j == p {
                assert(r[i] == rest[i]);
            } else if i < p {
                assert(r[i] == rest[i] && r[j] == rest[j - 1]);
            } else if i == p {
                assert(r[j] == rest[j - 1]);
                if before(rest[j - 1], x) {
                    assert(before(x, rest[p]));
                    assert(before(rest[j - 1], rest[p]));
                    if j - 1 > p {
                        assert(!before(rest[j - 1], rest[p]));
                    }
                }
            } else {
                assert(r[i] == rest[i - 1] && r[j] == rest[j - 1]);
            }
        }
    }
}

} // verus!
