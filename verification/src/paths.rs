use vstd::prelude::*;

use crate::text::{chars_of, string_from_chars, texts, trim, trim_exec};

verus! {

/// The pieces of `s` between occurrences of `sep`, as `str::split` gives
/// them: one more piece than separators.
pub open spec fn split_on(s: Seq<char>, sep: char) -> Seq<Seq<char>>
    decreases s.len(),
{
    if s.len() == 0 {
        seq![Seq::<char>::empty()]
    } else {
        let parts = split_on(s.drop_last(), sep);
        if s.last() == sep {
            parts.push(Seq::<char>::empty())
        } else {
            parts.update(parts.len() - 1, parts.last().push(s.last()))
        }
    }
}

pub proof fn lemma_split_on_nonempty(s: Seq<char>, sep: char)
    ensures
        split_on(s, sep).len() >= 1,
    decreases s.len(),
{
    if s.len() > 0 {
        lemma_split_on_nonempty(s.drop_last(), sep);
    }
}

/// The trimmed pieces that are not empty.
pub open spec fn trimmed_nonempty(parts: Seq<Seq<char>>) -> Seq<Seq<char>>
    decreases parts.len(),
{
    if parts.len() == 0 {
        Seq::empty()
    } else if trim(parts.last()).len() > 0 {
        trimmed_nonempty(parts.drop_last()).push(trim(parts.last()))
    } else {
        trimmed_nonempty(parts.drop_last())
    }
}

/// The paths typed as a comma-separated list: each trimmed, empty ones
/// dropped.
pub open spec fn path_list(input: Seq<char>) -> Seq<Seq<char>> {
    trimmed_nonempty(split_on(input, ','))
}

/// Splits text at a separator.
fn split_text(s: &str, sep: char) -> (r: Vec<String>)
    ensures
        texts(r@) == split_on(s@, sep),
{
    let v = chars_of(s);
    let mut done: Vec<String> = Vec::new();
    let mut cur: Vec<char> = Vec::new();
    let mut i: usize = 0;
    assert(v@.take(0) =~= Seq::<char>::empty());
    while i < v.len()
        invariant
            i <= v.len(),
            v@ == s@,
            split_on(v@.take(i as int), sep) == texts(done@).push(cur@),
        decreases v.len() - i,
    {
        proof {
            assert(v@.take(i + 1).drop_last() =~= v@.take(i as int));
            assert(v@.take(i + 1).last() == v@[i as int]);
        }
        if v[i] == sep {
            let piece = string_from_chars(&cur);
            let ghost d = done@;
            done.push(piece);
            cur = Vec::new();
            proof {
                assert(texts(done@) =~= texts(d).push(piece@));
            }
            assert(split_on(v@.take(i + 1), sep) =~= texts(done@).push(cur@));
        } else {
            let ghost before = cur@;
            cur.push(v[i]);
            assert(split_on(v@.take(i + 1), sep) =~= texts(done@).push(cur@));
        }
        i = i + 1;
    }
    assert(v@.take(v@.len() as int) =~= v@);
    let last = string_from_chars(&cur);
    let ghost d = done@;
    done.push(last);
    assert(texts(done@) =~= texts(d).push(last@));
    done
}

/// Parses a comma-separated list of paths.
pub fn parse_paths(input: &str) -> (r: Vec<String>)
    ensures
        texts(r@) == path_list(input@),
{
    let parts = split_text(input, ',');
    let ghost ps = texts(parts@);
    let mut out: Vec<String> = Vec::new();
    let mut i: usize = 0;
    assert(ps.take(0) =~= Seq::<Seq<char>>::empty());
    while i < parts.len()
        invariant
            i <= parts.len(),
            ps == texts(parts@),
            texts(out@) == trimmed_nonempty(ps.take(i as int)),
        decreases parts.len() - i,
    {
        proof {
            assert(ps.take(i + 1).drop_last() =~= ps.take(i as int));
            assert(ps.take(i + 1).last() == parts@[i as int]@);
        }
        let t = trim_exec(parts[i].as_str());
        if chars_of(t.as_str()).len() > 0 {
            let ghost o = out@;
            out.push(t);
            assert(texts(out@) =~= texts(o).push(t@));
        }
        i = i + 1;
    }
    assert(ps.take(ps.len() as int) =~= ps);
    out
}

/// What std's `Path::starts_with` answers for a path and a base: whether
/// the base is a prefix of the path by whole components.
pub uninterp spec fn path_starts_with(path: Seq<char>, base: Seq<char>) -> bool;

/// What std's `Path::strip_prefix` leaves of a path below a base, as text,
/// if anything.
pub uninterp spec fn path_strip_prefix(path: Seq<char>, base: Seq<char>) -> Option<Seq<char>>;

/// What std's `Path::file_name` gives of a path, as text, if anything.
pub uninterp spec fn path_file_name(path: Seq<char>) -> Option<Seq<char>>;

/// Whether `base` is a prefix of `path` by whole components, by std's
/// `Path::starts_with`. Of its answer nothing is stated here but its name.
#[verifier::external_body]
pub(crate) fn path_has_prefix(path: &str, base: &str) -> (r: bool)
    ensures
        r == path_starts_with(path@, base@),
{
    std::path::Path::new(path).starts_with(base)
}

/// The part of `path` below `base`, by std's `Path::strip_prefix`. Its
/// documentation says that it gives a part exactly when `base` is a prefix
/// of `path` by `Path::starts_with`; what the part is, is named, not stated.
#[verifier::external_body]
pub(crate) fn path_below(path: &str, base: &str) -> (r: Option<String>)
    ensures
        match r {
            Some(rel) => path_strip_prefix(path@, base@) == Some(rel@),
            None => path_strip_prefix(path@, base@) is None,
        },
        r is Some == path_starts_with(path@, base@),
{
    match std::path::Path::new(path).strip_prefix(base) {
        Ok(rel) => Some(rel.to_string_lossy().into_owned()),
        Err(_) => None,
    }
}

/// The last component of `path`, by std's `Path::file_name`: what it is,
/// and when there is none, is named, not stated.
#[verifier::external_body]
pub(crate) fn path_last_name(path: &str) -> (r: Option<String>)
    ensures
        match r {
            Some(name) => path_file_name(path@) == Some(name@),
            None => path_file_name(path@) is None,
        },
{
    match std::path::Path::new(path).file_name() {
        Some(name) => Some(name.to_string_lossy().into_owned()),
        None => None,
    }
}

/// What std's `Path::parent` gives of a path, as text, if anything.
pub uninterp spec fn path_parent(path: Seq<char>) -> Option<Seq<char>>;

/// The folder that holds `path`, by std's `Path::parent`: what it is, and
/// when there is none, is named, not stated.
#[verifier::external_body]
pub(crate) fn parent_path(path: &str) -> (r: Option<String>)
    ensures
        match r {
            Some(p) => path_parent(path@) == Some(p@),
            None => path_parent(path@) is None,
        },
{
    match std::path::Path::new(path).parent() {
        Some(p) => Some(p.to_string_lossy().into_owned()),
        None => None,
    }
}

/// The view of an optional string.
pub open spec fn opt_text_of(o: Option<String>) -> Option<Seq<char>> {
    match o {
        Some(s) => Some(s@),
        None => None,
    }
}

} // verus!
