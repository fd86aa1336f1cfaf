use vstd::prelude::*;

use crate::text::{clone_string, str_eq, texts};

verus! {

/// `s` with every occurrence of `w` removed.
pub open spec fn without(s: Seq<Seq<char>>, w: Seq<char>) -> Seq<Seq<char>>
    decreases s.len(),
{
    if s.len() == 0 {
        Seq::empty()
    } else if s.last() == w {
        without(s.drop_last(), w)
    } else {
        without(s.drop_last(), w).push(s.last())
    }
}

/// The first position at or after `i` that holds `w`, or the length.
pub open spec fn find_from(s: Seq<Seq<char>>, w: Seq<char>, i: int) -> int
    decreases s.len() - i,
{
    if i >= s.len() {
        s.len() as int
    } else if s[i] == w {
        i
    } else {
        find_from(s, w, i + 1)
    }
}

/// The texts of a vector of strings gain the text of a pushed string.
pub proof fn lemma_texts_push(v: Seq<String>, x: String)
    ensures
        texts(v.push(x)) == texts(v).push(x@),
{
    assert(texts(v.push(x)) =~= texts(v).push(x@));
}

/// Where `find_from` lands.
pub proof fn lemma_find_from(s: Seq<Seq<char>>, w: Seq<char>, i: int)
    requires
        0 <= i <= s.len(),
    ensures
        i <= find_from(s, w, i) <= s.len(),
        find_from(s, w, i) < s.len() ==> s[find_from(s, w, i)] == w,
        forall|k: int| i <= k < find_from(s, w, i) ==> s[k] != w,
    decreases s.len() - i,
{
    if i < s.len() && s[i] != w {
        lemma_find_from(s, w, i + 1);
    }
}

/// A copy of the strings `v[from..to]`.
pub fn sub_strings(v: &Vec<String>, from: usize, to: usize) -> (r: Vec<String>)
    requires
        from <= to <= v.len(),
    ensures
        texts(r@) == texts(v@).subrange(from as int, to as int),
{
    let mut r: Vec<String> = Vec::new();
    let mut i = from;
    while i < to
        invariant
            from <= i <= to <= v.len(),
            texts(r@) == texts(v@).subrange(from as int, i as int),
        decreases to - i,
    {
        let s = clone_string(&v[i]);
        proof {
            lemma_texts_push(r@, s);
            assert(texts(v@).subrange(from as int, i + 1) =~= texts(v@).subrange(
                from as int,
                i as int,
            ).push(v@[i as int]@));
        }
        r.push(s);
        i = i + 1;
    }
    r
}

/// A copy of `v` without the strings equal to `w`.
pub fn strings_without(v: &Vec<String>, w: &str) -> (r: Vec<String>)
    ensures
        texts(r@) == without(texts(v@), w@),
{
    let mut r: Vec<String> = Vec::new();
    let mut i: usize = 0;
    while i < v.len()
        invariant
            i <= v.len(),
            texts(r@) == without(texts(v@).take(i as int), w@),
        decreases v.len() - i,
    {
        proof {
            let t = texts(v@).take(i + 1);
            assert(t.drop_last() =~= texts(v@).take(i as int));
            assert(t.last() == v@[i as int]@);
        }
        if !str_eq(v[i].as_str(), w) {
            let s = clone_string(&v[i]);
            proof {
                lemma_texts_push(r@, s);
            }
            r.push(s);
        }
        i = i + 1;
    }
    assert(texts(v@).take(v@.len() as int) =~= texts(v@));
    r
}

/// A copy of `v` up to (not including) its first string equal to `w`.
pub fn strings_before(v: &Vec<String>, w: &str) -> (r: Vec<String>)
    ensures
        texts(r@) == texts(v@).take(find_from(texts(v@), w@, 0)),
{
    let ghost a = texts(v@);
    let mut i: usize = 0;
    while i < v.len() && !str_eq(v[i].as_str(), w)
        invariant
            a == texts(v@),
            i <= v.len(),
            find_from(a, w@, 0) == find_from(a, w@, i as int),
        decreases v.len() - i,
    {
        i = i + 1;
    }
    let r = sub_strings(v, 0, i);
    assert(texts(v@).subrange(0, i as int) =~= texts(v@).take(i as int));
    r
}

/// `v` holds a string equal to `w`.
pub fn strings_contain(v: &Vec<String>, w: &str) -> (r: bool)
    ensures
        r == texts(v@).contains(w@),
{
    let mut i: usize = 0;
    while i < v.len()
        invariant
            i <= v.len(),
            forall|k: int| 0 <= k < i ==> texts(v@)[k] != w@,
        decreases v.len() - i,
    {
        if str_eq(v[i].as_str(), w) {
            assert(texts(v@)[i as int] == w@);
            return true;
        }
        i = i + 1;
    }
    false
}

} // verus!
