use vstd::prelude::*;

use crate::text::chars_of;

verus! {

/// Strict lexicographic order on texts, character by character, by code
/// point; a proper prefix comes first. This is the order of `str`.
pub open spec fn text_lt(a: Seq<char>, b: Seq<char>) -> bool
    decreases a.len(),
{
    if a.len() == 0 {
        b.len() > 0
    } else if b.len() == 0 {
        false
    } else if a[0] != b[0] {
        (a[0] as int) < (b[0] as int)
    } else {
        text_lt(a.drop_first(), b.drop_first())
    }
}

pub proof fn lemma_text_lt_irreflexive(a: Seq<char>)
    ensures
        !text_lt(a, a),
    decreases a.len(),
{
    if a.len() > 0 {
        lemma_text_lt_irreflexive(a.drop_first());
    }
}

pub proof fn lemma_text_lt_transitive(a: Seq<char>, b: Seq<char>, c: Seq<char>)
    requires
        text_lt(a, b),
        text_lt(b, c),
    ensures
        text_lt(a, c),
    decreases a.len(),
{
    if a.len() > 0 && b.len() > 0 && c.len() > 0 {
        if a[0] == b[0] && b[0] == c[0] {
            lemma_text_lt_transitive(a.drop_first(), b.drop_first(), c.drop_first());
        }
    }
}

pub proof fn lemma_text_lt_total(a: Seq<char>, b: Seq<char>)
    ensures
        text_lt(a, b) || text_lt(b, a) || a == b,
    decreases a.len(),
{
    if a.len() > 0 && b.len() > 0 && a[0] == b[0] {
        lemma_text_lt_total(a.drop_first(), b.drop_first());
        if a.drop_first() == b.drop_first() {
            assert(a =~= seq![a[0]] + a.drop_first());
            assert(b =~= seq![b[0]] + b.drop_first());
        }
    } else if a.len() == 0 && b.len() == 0 {
        assert(a =~= b);
    }
}

pub proof fn lemma_text_lt_asymmetric(a: Seq<char>, b: Seq<char>)
    requires
        text_lt(a, b),
    ensures
        !text_lt(b, a),
        a != b,
{
    if text_lt(b, a) {
        lemma_text_lt_transitive(a, b, a);
        lemma_text_lt_irreflexive(a);
    }
    if a == b {
        lemma_text_lt_irreflexive(a);
    }
}

proof fn lemma_text_lt_skip(a: Seq<char>, b: Seq<char>, i: int)
    requires
        0 <= i <= a.len(),
        i <= b.len(),
        a.subrange(0, i) == b.subrange(0, i),
    ensures
        text_lt(a, b) == text_lt(a.skip(i), b.skip(i)),
    decreases i,
{
    if i > 0 {
        assert(a[0] == a.subrange(0, i)[0]);
        assert(b[0] == b.subrange(0, i)[0]);
        assert(a.drop_first().subrange(0, i - 1) =~= a.subrange(0, i).drop_first());
        assert(b.drop_first().subrange(0, i - 1) =~= b.subrange(0, i).drop_first());
        lemma_text_lt_skip(a.drop_first(), b.drop_first(), i - 1);
        assert(a.drop_first().skip(i - 1) =~= a.skip(i));
        assert(b.drop_first().skip(i - 1) =~= b.skip(i));
    } else {
        assert(a.skip(0) =~= a);
        assert(b.skip(0) =~= b);
    }
}

/// The result of comparing two values.
#[derive(Debug, Clone, Copy, PartialEq, Eq, Structural)]
pub enum Order3 {
    Less,
    Equal,
    Greater,
}

/// The order of two texts as an [`Order3`].
pub open spec fn text_order(a: Seq<char>, b: Seq<char>) -> Order3 {
    if text_lt(a, b) {
        Order3::Less
    } else if a == b {
        Order3::Equal
    } else {
        Order3::Greater
    }
}

/// Compares two texts in the order of `str`.
pub fn compare_text(a: &str, b: &str) -> (r: Order3)
    ensures
        r == text_order(a@, b@),
        r == Order3::Greater ==> text_lt(b@, a@),
{
    let va = chars_of(a);
    let vb = chars_of(b);
    let mut i: usize = 0;
    while i < va.len() && i < vb.len()
        invariant
            i <= va.len(),
            i <= vb.len(),
            va@ == a@,
            vb@ == b@,
            va@.subrange(0, i as int) == vb@.subrange(0, i as int),
        decreases va.len() - i,
    {
        if va[i] != vb[i] {
            proof {
                lemma_text_lt_skip(a@, b@, i as int);
                lemma_text_lt_skip(b@, a@, i as int);
                assert(a@.skip(i as int)[0] == va@[i as int]);
                assert(b@.skip(i as int)[0] == vb@[i as int]);
                assert(a@ != b@) by {
                    if a@ == b@ {
                        assert(va@[i as int] == vb@[i as int]);
                    }
                }
            }
            if va[i] < vb[i] {
                return Order3::Less;
            } else {
                return Order3::Greater;
            }
        }
        let ghost j = i as int;
        i = i + 1;
        assert(va@.subrange(0, i as int) =~= vb@.subrange(0, i as int)) by {
            assert forall|k: int| 0 <= k < i implies va@.subrange(0, i as int)[k] == vb@.subrange(
                0,
                i as int,
            )[k] by {
                if k < j {
                    assert(va@.subrange(0, j)[k] == vb@.subrange(0, j)[k]);
                }
            }
        }
    }
    proof {
        lemma_text_lt_skip(a@, b@, i as int);
        lemma_text_lt_skip(b@, a@, i as int);
    }
    if va.len() == vb.len() {
        assert(a@ =~= b@) by {
            assert(va@ =~= va@.subrange(0, i as int));
            assert(vb@ =~= vb@.subrange(0, i as int));
        }
        proof {
            lemma_text_lt_irreflexive(a@);
        }
        Order3::Equal
    } else if i == va.len() {
        Order3::Less
    } else {
        proof {
            assert(a@.len() != b@.len());
        }
        Order3::Greater
    }
}

} // verus!
