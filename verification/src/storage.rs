use vstd::prelude::*;

use crate::domain::{keep, lemma_keep_step, work_views, CreatedWork, OpenedWork, WorkList, WorkSummary, WorkView};
use crate::order::{compare_text, text_lt, Order3};
use crate::sorting::{first_after, isort, lemma_first_after};
use crate::error::WorkonError;
use crate::seqs::strings_contain;
use crate::text::{chars_of, clone_string, concat2, concat3, contains, decimal, decimal_string, contains_text, lower, owned, push_char, push_str, str_eq, string_from_range, texts, to_lower, trim, trim_exec};

verus! {

// ---------------------------------------------------------------------------
// The `workon.meta` file: one `key=value` line per field, values escaped.
// ---------------------------------------------------------------------------

/// The escape of one character: backslash, newline and tab are written as
/// two-character escapes.
pub open spec fn enc_char(c: char) -> Seq<char> {
    if c == '\\' {
        seq!['\\', '\\']
    } else if c == '\n' {
        seq!['\\', 'n']
    } else if c == '\t' {
        seq!['\\', 't']
    } else {
        seq![c]
    }
}

/// The escaped form of a value.
pub open spec fn enc(s: Seq<char>) -> Seq<char>
    decreases s.len(),
{
    if s.len() == 0 {
        Seq::empty()
    } else {
        enc_char(s[0]) + enc(s.drop_first())
    }
}

/// The value written by an escaped form; an unknown escape stays as written,
/// a lone trailing backslash stays a backslash.
pub open spec fn dec(s: Seq<char>) -> Seq<char>
    decreases s.len(),
{
    if s.len() == 0 {
        Seq::empty()
    } else if s[0] != '\\' {
        seq![s[0]] + dec(s.drop_first())
    } else if s.len() == 1 {
        seq!['\\']
    } else {
        dec_escape(s[1]) + dec(s.subrange(2, s.len() as int))
    }
}

/// The value of the escape `\c`.
pub open spec fn dec_escape(c: char) -> Seq<char> {
    if c == 'n' {
        seq!['\n']
    } else if c == 't' {
        seq!['\t']
    } else if c == '\\' {
        seq!['\\']
    } else {
        seq!['\\', c]
    }
}

/// The first position at or after `i` that holds `c`, or the length.
pub open spec fn index_of(s: Seq<char>, c: char, i: int) -> int
    decreases s.len() - i,
{
    if i >= s.len() {
        s.len() as int
    } else if s[i] == c {
        i
    } else {
        index_of(s, c, i + 1)
    }
}

/// Where `index_of` lands.
pub proof fn lemma_index_of(s: Seq<char>, c: char, i: int)
    requires
        0 <= i <= s.len(),
    ensures
        i <= index_of(s, c, i) <= s.len(),
        index_of(s, c, i) < s.len() ==> s[index_of(s, c, i)] == c,
        forall|k: int| i <= k < index_of(s, c, i) ==> s[k] != c,
    decreases s.len() - i,
{
    if i < s.len() && s[i] != c {
        lemma_index_of(s, c, i + 1);
    }
}

/// `index_of` is the first match.
pub proof fn lemma_index_of_is(s: Seq<char>, c: char, i: int, m: int)
    requires
        0 <= i <= m <= s.len(),
        m == s.len() || s[m] == c,
        forall|k: int| i <= k < m ==> s[k] != c,
    ensures
        index_of(s, c, i) == m,
    decreases m - i,
{
    if i < m {
        lemma_index_of_is(s, c, i + 1, m);
    }
}

/// A line without one trailing carriage return.
pub open spec fn strip_cr(l: Seq<char>) -> Seq<char> {
    if l.len() > 0 && l.last() == '\r' {
        l.drop_last()
    } else {
        l
    }
}

/// The lines of a text as `str::lines` gives them: split at newlines, no
/// empty last line after a final newline, and the carriage return of a
/// `\r\n` ending removed; a last line without a newline keeps a trailing
/// carriage return.
pub open spec fn lines(s: Seq<char>) -> Seq<Seq<char>>
    decreases s.len(),
{
    if s.len() == 0 {
        Seq::empty()
    } else {
        let k = index_of(s, '\n', 0);
        proof {
            lemma_index_of(s, '\n', 0);
        }
        if k >= s.len() {
            seq![s]
        } else {
            seq![strip_cr(s.take(k))] + lines(s.subrange(k + 1, s.len() as int))
        }
    }
}

/// A line `key=value` split at its first `=`.
pub open spec fn split_eq(l: Seq<char>) -> Option<(Seq<char>, Seq<char>)> {
    let k = index_of(l, '=', 0);
    if k >= l.len() {
        None
    } else {
        Some((l.take(k), l.subrange(k + 1, l.len() as int)))
    }
}

/// The decoded value of the last line with the given key.
pub open spec fn lookup(ls: Seq<Seq<char>>, key: Seq<char>) -> Option<Seq<char>>
    decreases ls.len(),
{
    if ls.len() == 0 {
        None
    } else {
        match split_eq(ls.last()) {
            Some((k, v)) => if k == key {
                Some(dec(v))
            } else {
                lookup(ls.drop_last(), key)
            },
            None => lookup(ls.drop_last(), key),
        }
    }
}

/// The value stored under a key in a metadata text (empty when absent).
pub open spec fn meta_field(content: Seq<char>, key: Seq<char>) -> Seq<char> {
    match lookup(lines(content), key) {
        Some(v) => v,
        None => Seq::empty(),
    }
}

/// One `key=value` line with its newline.
pub open spec fn meta_line(key: Seq<char>, value: Seq<char>) -> Seq<char> {
    key + "="@ + enc(value) + "\n"@
}

/// The metadata text of a Work.
pub open spec fn meta_text(title: Seq<char>, slug: Seq<char>, goal: Seq<char>, intent_id: Seq<char>) -> Seq<char> {
    meta_line("title"@, title) + meta_line("slug"@, slug) + meta_line("goal"@, goal) + meta_line(
        "intent_id"@,
        intent_id,
    )
}

// ---------------------------------------------------------------------------
// Lemmas behind the read-back of written metadata.
// ---------------------------------------------------------------------------

/// Escaping one character and then reading it back.
proof fn lemma_dec_enc_step(c: char, rest: Seq<char>)
    ensures
        dec(enc_char(c) + rest) == seq![c] + dec(rest),
{
    let e = enc_char(c) + rest;
    if c == '\\' || c == '\n' || c == '\t' {
        assert(e[0] == '\\');
        assert(e.subrange(2, e.len() as int) =~= rest);
        assert(dec_escape(e[1]) =~= seq![c]);
    } else {
        assert(e[0] == c);
        assert(e.drop_first() =~= rest);
    }
}

/// Reading back an escaped value gives the value.
pub proof fn lemma_dec_enc(s: Seq<char>)
    ensures
        dec(enc(s)) == s,
    decreases s.len(),
{
    if s.len() > 0 {
        lemma_dec_enc(s.drop_first());
        lemma_dec_enc_step(s[0], enc(s.drop_first()));
        assert(seq![s[0]] + s.drop_first() =~= s);
    }
}

/// An escaped value holds no newline, and ends like the value ends when that
/// is a carriage return.
proof fn lemma_enc_shape(s: Seq<char>)
    ensures
        forall|k: int| 0 <= k < enc(s).len() ==> enc(s)[k] != '\n',
        enc(s).len() > 0 && enc(s).last() == '\r' ==> s.len() > 0 && s.last() == '\r',
        enc(s).len() >= s.len(),
    decreases s.len(),
{
    if s.len() > 0 {
        lemma_enc_shape(s.drop_first());
        let a = enc_char(s[0]);
        let b = enc(s.drop_first());
        assert(enc(s) == a + b);
        assert forall|k: int| 0 <= k < enc(s).len() implies enc(s)[k] != '\n' by {
            if k < a.len() {
                assert(enc(s)[k] == a[k]);
            } else {
                assert(enc(s)[k] == b[k - a.len()]);
            }
        }
        if enc(s).len() > 0 && enc(s).last() == '\r' {
            if b.len() > 0 {
                assert(enc(s).last() == b.last());
                assert(s.drop_first().last() == s.last());
            } else {
                assert(enc(s).last() == a.last());
                assert(s.drop_first().len() == 0);
            }
        }
    }
}

/// A line of text followed by a newline and more text.
proof fn lemma_lines_cons(l: Seq<char>, rest: Seq<char>)
    requires
        forall|k: int| 0 <= k < l.len() ==> l[k] != '\n',
        l.len() == 0 || l.last() != '\r',
    ensures
        lines(l + "\n"@ + rest) == seq![l] + lines(rest),
{
    reveal_strlit("\n");
    let s = l + "\n"@ + rest;
    assert(s[l.len() as int] == '\n');
    assert forall|k: int| 0 <= k < l.len() implies s[k] != '\n' by {
        assert(s[k] == l[k]);
    }
    lemma_index_of_is(s, '\n', 0, l.len() as int);
    assert(s.take(l.len() as int) =~= l);
    assert(s.subrange(l.len() as int + 1, s.len() as int) =~= rest);
}

/// The key of a written line is found before its first `=`.
proof fn lemma_split_meta_line(key: Seq<char>, v: Seq<char>)
    requires
        forall|k: int| 0 <= k < key.len() ==> key[k] != '=',
    ensures
        split_eq(key + "="@ + v) == Some((key, v)),
{
    reveal_strlit("=");
    let l = key + "="@ + v;
    assert(l[key.len() as int] == '=');
    assert forall|k: int| 0 <= k < key.len() implies l[k] != '=' by {
        assert(l[k] == key[k]);
    }
    lemma_index_of_is(l, '=', 0, key.len() as int);
    assert(l.take(key.len() as int) =~= key);
    assert(l.subrange(key.len() as int + 1, l.len() as int) =~= v);
}

/// The written lines of a value with a key.
proof fn lemma_line_shape(key: Seq<char>, v: Seq<char>)
    requires
        forall|k: int| 0 <= k < key.len() ==> key[k] != '=' && key[k] != '\n',
        v.len() == 0 || v.last() != '\r',
        key.len() > 0,
    ensures
        forall|k: int|
            0 <= k < (key + "="@ + enc(v)).len() ==> (key + "="@ + enc(v))[k] != '\n',
        (key + "="@ + enc(v)).last() != '\r',
        split_eq(key + "="@ + enc(v)) == Some((key, enc(v))),
{
    reveal_strlit("=");
    lemma_enc_shape(v);
    lemma_split_meta_line(key, enc(v));
    let l = key + "="@ + enc(v);
    assert forall|k: int| 0 <= k < l.len() implies l[k] != '\n' by {
        if k < key.len() {
            assert(l[k] == key[k]);
        } else if k == key.len() {
            assert(l[k] == '=');
        } else {
            assert(l[k] == enc(v)[k - key.len() - 1]);
        }
    }
    if enc(v).len() > 0 {
        assert(l.last() == enc(v).last());
    } else {
        assert(l.last() == '=');
    }
}

/// Reading a written metadata text gives back each field that was written.
///
/// Holds for values that do not end in a carriage return: line splitting
/// drops one trailing carriage return, and escaping keeps it as it is.
pub proof fn law_meta_read_back(
    title: Seq<char>,
    slug: Seq<char>,
    goal: Seq<char>,
    intent_id: Seq<char>,
)
    requires
        title.len() == 0 || title.last() != '\r',
        slug.len() == 0 || slug.last() != '\r',
        goal.len() == 0 || goal.last() != '\r',
        intent_id.len() == 0 || intent_id.last() != '\r',
    ensures
        meta_field(meta_text(title, slug, goal, intent_id), "title"@) == title,
        meta_field(meta_text(title, slug, goal, intent_id), "slug"@) == slug,
        meta_field(meta_text(title, slug, goal, intent_id), "goal"@) == goal,
        meta_field(meta_text(title, slug, goal, intent_id), "intent_id"@) == intent_id,
{
    reveal_strlit("title");
    reveal_strlit("slug");
    reveal_strlit("goal");
    reveal_strlit("intent_id");
    let l1 = "title"@ + "="@ + enc(title);
    let l2 = "slug"@ + "="@ + enc(slug);
    let l3 = "goal"@ + "="@ + enc(goal);
    let l4 = "intent_id"@ + "="@ + enc(intent_id);
    lemma_line_shape("title"@, title);
    lemma_line_shape("slug"@, slug);
    lemma_line_shape("goal"@, goal);
    lemma_line_shape("intent_id"@, intent_id);
    let t = meta_text(title, slug, goal, intent_id);
    assert(t =~= l1 + "\n"@ + (l2 + "\n"@ + (l3 + "\n"@ + (l4 + "\n"@ + Seq::<char>::empty()))));
    lemma_lines_cons(l4, Seq::<char>::empty());
    lemma_lines_cons(l3, l4 + "\n"@ + Seq::<char>::empty());
    lemma_lines_cons(l2, l3 + "\n"@ + (l4 + "\n"@ + Seq::<char>::empty()));
    lemma_lines_cons(l1, l2 + "\n"@ + (l3 + "\n"@ + (l4 + "\n"@ + Seq::<char>::empty())));
    let ls = lines(t);
    assert(ls =~= seq![l1, l2, l3, l4]);
    lemma_dec_enc(title);
    lemma_dec_enc(slug);
    lemma_dec_enc(goal);
    lemma_dec_enc(intent_id);
    let s1 = seq![l1];
    let s2 = seq![l1, l2];
    let s3 = seq![l1, l2, l3];
    assert(ls.drop_last() =~= s3);
    assert(s3.drop_last() =~= s2);
    assert(s2.drop_last() =~= s1);
    assert(s1.drop_last() =~= Seq::<Seq<char>>::empty());
    assert("title"@ != "intent_id"@);
    assert("slug"@ != "intent_id"@);
    assert("goal"@ != "intent_id"@);
    assert("title"@ != "goal"@);
    assert("slug"@ != "goal"@);
    assert("title"@ != "slug"@);
    assert(lookup(s1, "title"@) == Some(title));
    assert(lookup(s2, "title"@) == Some(title));
    assert(lookup(s3, "title"@) == Some(title));
    assert(lookup(s2, "slug"@) == Some(slug));
    assert(lookup(s3, "slug"@) == Some(slug));
    assert(lookup(s3, "goal"@) == Some(goal));
}

// ---------------------------------------------------------------------------
// Executable metadata handling.
// ---------------------------------------------------------------------------

/// Escapes a value for a metadata line.
pub fn encode(value: &str) -> (r: String)
    ensures
        r@ == enc(value@),
{
    let v = chars_of(value);
    let mut out = String::new();
    let mut i: usize = 0;
    assert(v@.subrange(0, v@.len() as int) =~= v@);
    assert(out@ + enc(v@) =~= enc(v@));
    while i < v.len()
        invariant
            i <= v.len(),
            out@ + enc(v@.subrange(i as int, v@.len() as int)) == enc(v@),
        decreases v.len() - i,
    {
        proof {
            let rest = v@.subrange(i as int, v@.len() as int);
            assert(rest.drop_first() =~= v@.subrange(i + 1, v@.len() as int));
            assert(rest[0] == v@[i as int]);
        }
        let c = v[i];
        if c == '\\' {
            push_char(&mut out, '\\');
            push_char(&mut out, '\\');
        } else if c == '\n' {
            push_char(&mut out, '\\');
            push_char(&mut out, 'n');
        } else if c == '\t' {
            push_char(&mut out, '\\');
            push_char(&mut out, 't');
        } else {
            push_char(&mut out, c);
        }
        proof {
            let rest = v@.subrange(i as int, v@.len() as int);
            assert(enc(rest) == enc_char(c) + enc(v@.subrange(i + 1, v@.len() as int)));
        }
        i = i + 1;
        assert(out@ + enc(v@.subrange(i as int, v@.len() as int)) =~= enc(v@));
    }
    assert(v@.subrange(i as int, v@.len() as int) =~= Seq::<char>::empty());
    out
}

/// Reads back an escaped value.
pub fn decode(value: &str) -> (r: String)
    ensures
        r@ == dec(value@),
{
    let v = chars_of(value);
    let mut out = String::new();
    let mut i: usize = 0;
    assert(v@.subrange(0, v@.len() as int) =~= v@);
    assert(out@ + dec(v@) =~= dec(v@));
    while i < v.len()
        invariant
            i <= v.len(),
            out@ + dec(v@.subrange(i as int, v@.len() as int)) == dec(v@),
        decreases v.len() - i,
    {
        let ghost rest = v@.subrange(i as int, v@.len() as int);
        let ghost before = out@;
        assert(rest[0] == v@[i as int]);
        if v[i] != '\\' {
            push_char(&mut out, v[i]);
            assert(rest.drop_first() =~= v@.subrange(i + 1, v@.len() as int));
            i = i + 1;
            assert(out@ + dec(v@.subrange(i as int, v@.len() as int)) =~= dec(v@));
        } else if i + 1 == v.len() {
            push_char(&mut out, '\\');
            i = i + 1;
            assert(v@.subrange(i as int, v@.len() as int) =~= Seq::<char>::empty());
            assert(out@ + dec(v@.subrange(i as int, v@.len() as int)) =~= dec(v@));
        } else {
            let c = v[i + 1];
            assert(rest[1] == c);
            if c == 'n' {
                push_char(&mut out, '\n');
            } else if c == 't' {
                push_char(&mut out, '\t');
            } else if c == '\\' {
                push_char(&mut out, '\\');
            } else {
                push_char(&mut out, '\\');
                push_char(&mut out, c);
            }
            assert(out@ =~= before + dec_escape(c));
            assert(rest.subrange(2, rest.len() as int) =~= v@.subrange(i + 2, v@.len() as int));
            i = i + 2;
            assert(out@ + dec(v@.subrange(i as int, v@.len() as int)) =~= dec(v@));
        }
    }
    assert(v@.subrange(i as int, v@.len() as int) =~= Seq::<char>::empty());
    out
}

/// The metadata text written for a created Work.
pub fn serialize_work(work: &CreatedWork) -> (r: String)
    ensures
        r@ == meta_text(work.title@, work.slug@, work.goal@, work.intent_id@),
{
    let mut r = owned("title=");
    push_str(&mut r, encode(work.title.as_str()).as_str());
    push_str(&mut r, "\nslug=");
    push_str(&mut r, encode(work.slug.as_str()).as_str());
    push_str(&mut r, "\ngoal=");
    push_str(&mut r, encode(work.goal.as_str()).as_str());
    push_str(&mut r, "\nintent_id=");
    push_str(&mut r, encode(work.intent_id.as_str()).as_str());
    push_str(&mut r, "\n");
    proof {
        reveal_strlit("title=");
        reveal_strlit("\nslug=");
        reveal_strlit("\ngoal=");
        reveal_strlit("\nintent_id=");
        reveal_strlit("\n");
        reveal_strlit("title");
        reveal_strlit("slug");
        reveal_strlit("goal");
        reveal_strlit("intent_id");
        reveal_strlit("=");
        assert(r@ =~= meta_text(work.title@, work.slug@, work.goal@, work.intent_id@));
    }
    r
}

/// The views of a vector of character vectors.
pub open spec fn char_rows(v: Seq<Vec<char>>) -> Seq<Seq<char>> {
    v.map_values(|l: Vec<char>| l@)
}

/// `v[from..to]`, without one trailing carriage return when `strip`.
fn line_without_cr(v: &Vec<char>, from: usize, to: usize, strip: bool) -> (r: Vec<char>)
    requires
        from <= to <= v.len(),
    ensures
        strip ==> r@ == strip_cr(v@.subrange(from as int, to as int)),
        !strip ==> r@ == v@.subrange(from as int, to as int),
{
    let mut end = to;
    if strip && to > from && v[to - 1] == '\r' {
        end = to - 1;
    }
    let mut r: Vec<char> = Vec::new();
    let mut i = from;
    while i < end
        invariant
            from <= i <= end <= to <= v.len(),
            r@ == v@.subrange(from as int, i as int),
        decreases end - i,
    {
        r.push(v[i]);
        assert(r@ =~= v@.subrange(from as int, i + 1));
        i = i + 1;
    }
    assert(strip ==> strip_cr(v@.subrange(from as int, to as int)) =~= v@.subrange(from as int, end as int));
    assert(!strip ==> v@.subrange(from as int, to as int) =~= v@.subrange(from as int, end as int));
    r
}

/// The lines of a text (`str::lines`).
pub fn split_lines(content: &str) -> (r: Vec<Vec<char>>)
    ensures
        char_rows(r@) == lines(content@),
{
    let v = chars_of(content);
    let mut out: Vec<Vec<char>> = Vec::new();
    let mut start: usize = 0;
    assert(v@.subrange(0, v@.len() as int) =~= v@);
    while start < v.len()
        invariant
            start <= v.len(),
            char_rows(out@) + lines(v@.subrange(start as int, v@.len() as int)) == lines(v@),
        decreases v.len() - start,
    {
        let ghost rest = v@.subrange(start as int, v@.len() as int);
        let mut k = start;
        while k < v.len() && v[k] != '\n'
            invariant
                start <= k <= v.len(),
                forall|j: int| start <= j < k ==> v@[j] != '\n',
            decreases v.len() - k,
        {
            k = k + 1;
        }
        proof {
            assert forall|j: int| 0 <= j < k - start implies rest[j] != '\n' by {
                assert(rest[j] == v@[start + j]);
            }
            if k < v.len() {
                assert(rest[k - start] == '\n');
            }
            lemma_index_of_is(rest, '\n', 0, k - start);
        }
        let line = line_without_cr(&v, start, k, k < v.len());
        proof {
            assert(char_rows(out@.push(line)) =~= char_rows(out@).push(line@));
        }
        out.push(line);
        if k < v.len() {
            proof {
                assert(rest.take(k - start) =~= v@.subrange(start as int, k as int));
                assert(rest.subrange(k - start + 1, rest.len() as int) =~= v@.subrange(
                    k + 1,
                    v@.len() as int,
                ));
            }
            start = k + 1;
        } else {
            proof {
                assert(rest =~= v@.subrange(start as int, k as int));
            }
            start = v.len();
            assert(v@.subrange(start as int, v@.len() as int) =~= Seq::<char>::empty());
            assert(char_rows(out@) =~= char_rows(out@).drop_last().push(line@));
        }
    }
    assert(v@.subrange(start as int, v@.len() as int) =~= Seq::<char>::empty());
    assert(char_rows(out@) + Seq::<Seq<char>>::empty() =~= char_rows(out@));
    out
}

/// Splits a line at its first `=`.
fn split_once_eq(l: &Vec<char>) -> (r: Option<(String, String)>)
    ensures
        match r {
            None => split_eq(l@) is None,
            Some((k, v)) => split_eq(l@) == Some((k@, v@)),
        },
{
    let mut k: usize = 0;
    while k < l.len() && l[k] != '='
        invariant
            k <= l.len(),
            forall|j: int| 0 <= j < k ==> l@[j] != '=',
        decreases l.len() - k,
    {
        k = k + 1;
    }
    proof {
        lemma_index_of_is(l@, '=', 0, k as int);
    }
    if k >= l.len() {
        return None;
    }
    let key = string_from_range(l, 0, k);
    let value = string_from_range(l, k + 1, l.len());
    assert(l@.subrange(0, k as int) =~= l@.take(k as int));
    Some((key, value))
}

/// The value for `key` in the given lines; `current` is the value found so far.
fn pick(key: &str, k: &String, v: &String, current: String) -> (r: String)
    ensures
        r@ == if k@ == key@ {
            dec(v@)
        } else {
            current@
        },
{
    if str_eq(k.as_str(), key) {
        decode(v.as_str())
    } else {
        current
    }
}

/// The Work described by a metadata text, found at `path`.
pub fn parse_work(content: &str, path: String) -> (w: WorkSummary)
    ensures
        w.title@ == meta_field(content@, "title"@),
        w.slug@ == meta_field(content@, "slug"@),
        w.goal@ == meta_field(content@, "goal"@),
        w.intent_id@ == meta_field(content@, "intent_id"@),
        w.path@ == path@,
{
    let ls = split_lines(content);
    let mut title = String::new();
    let mut slug = String::new();
    let mut goal = String::new();
    let mut intent_id = String::new();
    let mut i: usize = 0;
    while i < ls.len()
        invariant
            i <= ls.len(),
            char_rows(ls@) == lines(content@),
            title@ == field_or_empty(lookup(char_rows(ls@).take(i as int), "title"@)),
            slug@ == field_or_empty(lookup(char_rows(ls@).take(i as int), "slug"@)),
            goal@ == field_or_empty(lookup(char_rows(ls@).take(i as int), "goal"@)),
            intent_id@ == field_or_empty(lookup(char_rows(ls@).take(i as int), "intent_id"@)),
        decreases ls.len() - i,
    {
        proof {
            let t = char_rows(ls@).take(i + 1);
            assert(t.drop_last() =~= char_rows(ls@).take(i as int));
            assert(t.last() == ls@[i as int]@);
        }
        match split_once_eq(&ls[i]) {
            Some((k, v)) => {
                title = pick("title", &k, &v, title);
                slug = pick("slug", &k, &v, slug);
                goal = pick("goal", &k, &v, goal);
                intent_id = pick("intent_id", &k, &v, intent_id);
            },
            None => {},
        }
        i = i + 1;
    }
    assert(char_rows(ls@).take(ls@.len() as int) =~= char_rows(ls@));
    WorkSummary { title, slug, goal, intent_id, path }
}

/// A found value, or the empty text.
pub open spec fn field_or_empty(o: Option<Seq<char>>) -> Seq<char> {
    match o {
        Some(v) => v,
        None => Seq::empty(),
    }
}

// ---------------------------------------------------------------------------
// Slugs and paths.
// ---------------------------------------------------------------------------

/// A character that a slug keeps (after lowercasing).
pub open spec fn slug_keeps(c: char) -> bool {
    ('a' <= c && c <= 'z') || ('0' <= c && c <= '9')
}

/// The slug of `s` from position `i`, given what was built so far and whether
/// a separator is due before the next kept character.
pub open spec fn slug_from(s: Seq<char>, i: int, out: Seq<char>, pending: bool) -> Seq<char>
    decreases s.len() - i,
{
    if i >= s.len() || i < 0 {
        out
    } else {
        let c = crate::text::lower_char(s[i]);
        if slug_keeps(c) {
            let sep = if pending && out.len() > 0 {
                out.push('-')
            } else {
                out
            };
            slug_from(s, i + 1, sep.push(c), false)
        } else {
            slug_from(s, i + 1, out, true)
        }
    }
}

/// The slug of a text: ASCII letters lowercased and digits kept, every run of
/// other characters one `-` between kept ones.
pub open spec fn slug_of(s: Seq<char>) -> Seq<char> {
    slug_from(s, 0, Seq::empty(), false)
}

/// The slug of a text.
pub fn slugify(value: &str) -> (r: String)
    ensures
        r@ == slug_of(value@),
{
    let v = chars_of(value);
    let mut out = String::new();
    let mut pending = false;
    let mut has_out = false;
    let mut i: usize = 0;
    while i < v.len()
        invariant
            v@ == value@,
            i <= v.len(),
            has_out == (out@.len() > 0),
            slug_of(v@) == slug_from(v@, i as int, out@, pending),
        decreases v.len() - i,
    {
        let c = crate::text::lower_char_exec(v[i]);
        if ('a' <= c && c <= 'z') || ('0' <= c && c <= '9') {
            if pending && has_out {
                push_char(&mut out, '-');
            }
            push_char(&mut out, c);
            pending = false;
            has_out = true;
        } else {
            pending = true;
        }
        i = i + 1;
    }
    out
}

/// `name` inside the folder `base`.
pub open spec fn path_join(base: Seq<char>, name: Seq<char>) -> Seq<char> {
    if base.len() == 0 {
        name
    } else if base.last() == '/' {
        base + name
    } else {
        base + "/"@ + name
    }
}

/// `name` inside the folder `base`.
pub fn join_path(base: &str, name: &str) -> (r: String)
    ensures
        r@ == path_join(base@, name@),
{
    let b = chars_of(base);
    if b.len() == 0 {
        return owned(name);
    }
    if b[b.len() - 1] == '/' {
        return concat2(base, name);
    }
    crate::text::concat3(base, "/", name)
}

// ---------------------------------------------------------------------------
// The Work store.
// ---------------------------------------------------------------------------

/// The `n`th slug tried for a new Work: the base itself, then the base
/// numbered from two on.
pub open spec fn numbered(base: Seq<char>, n: nat) -> Seq<char> {
    if n < 2 {
        base
    } else {
        base + "-"@ + decimal(n)
    }
}

/// The base slug of a new Work: `work` when the title gives none.
pub open spec fn slug_base(base: Seq<char>) -> Seq<char> {
    if base.len() == 0 {
        "work"@
    } else {
        base
    }
}

proof fn lemma_numbered_injective(base: Seq<char>, i: nat, j: nat)
    requires
        i >= 2,
        j >= 2,
        numbered(base, i) == numbered(base, j),
    ensures
        i == j,
{
    reveal_strlit("-");
    let k = base.len() + 1;
    assert(numbered(base, i).skip(k as int) =~= decimal(i));
    assert(numbered(base, j).skip(k as int) =~= decimal(j));
    crate::text::lemma_decimal_injective(i, j);
}

/// When the base and the numbered slugs from two to `n` are all taken,
/// there are at least `n` taken names.
proof fn lemma_taken_numbered(base: Seq<char>, taken: Seq<Seq<char>>, n: nat)
    requires
        n >= 2,
        taken.contains(base),
        forall|k: nat| 2 <= k <= n ==> taken.contains(#[trigger] numbered(base, k)),
    ensures
        n <= taken.len(),
{
    let tried = Seq::new((n - 1) as nat, |i: int| numbered(base, (i + 2) as nat)).push(base);
    assert(tried.no_duplicates()) by {
        assert forall|a: int, b: int| 0 <= a < tried.len() && 0 <= b < tried.len() && a != b implies tried[a] != tried[b] by {
            if a < n - 1 && b < n - 1 {
                if tried[a] == tried[b] {
                    lemma_numbered_injective(base, (a + 2) as nat, (b + 2) as nat);
                }
            } else {
                let k: nat = if a < n - 1 { (a + 2) as nat } else { (b + 2) as nat };
                assert(numbered(base, k).len() > base.len());
            }
        }
    }
    tried.unique_seq_to_set();
    assert(tried.to_set().subset_of(taken.to_set())) by {
        assert forall|x: Seq<char>| tried.to_set().contains(x) implies taken.to_set().contains(x) by {
            let i = choose|i: int| 0 <= i < tried.len() && tried[i] == x;
            if i < n - 1 {
                assert(taken.contains(numbered(base, (i + 2) as nat)));
            }
        }
    }
    taken.lemma_cardinality_of_set();
    vstd::set_lib::lemma_len_subset(tried.to_set(), taken.to_set());
}

/// The Work a metadata text describes, found at `path`.
pub open spec fn described_work(content: Seq<char>, path: Seq<char>) -> WorkView {
    WorkView {
        title: meta_field(content, "title"@),
        slug: meta_field(content, "slug"@),
        goal: meta_field(content, "goal"@),
        intent_id: meta_field(content, "intent_id"@),
        path,
    }
}

/// Works in title order.
pub open spec fn title_before() -> spec_fn(WorkView, WorkView) -> bool {
    |a: WorkView, b: WorkView| text_lt(a.title, b.title)
}

/// The Works listed from the folders of the Work folder, each given as its
/// path and the text of its metadata file: sorted stably by title.
pub open spec fn listed_works(entries: Seq<(String, String)>) -> Seq<WorkView> {
    isort(entries.map_values(|e: (String, String)| described_work(e.1@, e.0@)), title_before())
}

/// Where Workon keeps its Works: `<root>/.workon/work/<slug>/`.
#[derive(Debug, Clone)]
pub struct WorkStore {
    root: String,
}

/// A Work matches a query exactly: by slug, or by title ignoring ASCII case.
pub open spec fn exact_match(query: Seq<char>) -> spec_fn(WorkSummary) -> bool {
    |w: WorkSummary| w.slug@ == slug_of(query) || lower(w.title@) == lower(query)
}

/// A Work matches a query loosely: its slug holds the query's slug, or its
/// lowercased title holds the lowercased query.
pub open spec fn loose_match(query: Seq<char>) -> spec_fn(WorkSummary) -> bool {
    |w: WorkSummary|
        contains_text(w.slug@, slug_of(query)) || contains_text(lower(w.title@), lower(query))
}

/// The Work opened for a Work.
pub open spec fn opened_from(o: OpenedWork, w: WorkSummary) -> bool {
    o.title@ == w.title@ && o.slug@ == w.slug@ && o.goal@ == w.goal@ && o.intent_id@
        == w.intent_id@ && o.path@ == w.path@
}

/// The titles of Works.
pub open spec fn titles(ws: Seq<WorkSummary>) -> Seq<Seq<char>> {
    ws.map_values(|w: WorkSummary| w.title@)
}

/// The title of a Work for its goal: the goal without surrounding white
/// space.
pub open spec fn title_of(goal: Seq<char>) -> Seq<char> {
    trim(goal)
}

/// The title of a Work for its goal.
pub fn title_from_goal(goal: &str) -> (r: String)
    ensures
        r@ == title_of(goal@),
{
    trim_exec(goal)
}

impl WorkStore {
    /// A store rooted at `root`.
    pub fn new(root: String) -> (s: Self)
        ensures
            s.root_path() == root@,
    {
        WorkStore { root }
    }

    /// The root folder of the store.
    pub closed spec fn root_path(&self) -> Seq<char> {
        self.root@
    }

    /// The root folder of the store.
    pub fn root(&self) -> (r: String)
        ensures
            r@ == self.root_path(),
    {
        clone_string(&self.root)
    }

    /// The folder that holds the active Works.
    pub fn work_root(&self) -> (r: String)
        ensures
            r@ == path_join(path_join(self.root_path(), ".workon"@), "work"@),
    {
        let base = join_path(self.root.as_str(), ".workon");
        join_path(base.as_str(), "work")
    }

    /// The slug for a new Work, given the names already in the Work folder:
    /// the base slug (`work` when empty) when it is free, else the base
    /// numbered with the first free number from two on.
    pub fn unique_slug(&self, base_slug: &str, existing: &Vec<String>) -> (r: String)
        requires
            existing@.len() < usize::MAX,
        ensures
            !texts(existing@).contains(r@),
            !texts(existing@).contains(slug_base(base_slug@)) ==> r@ == slug_base(base_slug@),
            texts(existing@).contains(slug_base(base_slug@)) ==> exists|n: nat|
                n >= 2 && r@ == numbered(slug_base(base_slug@), n) && forall|k: nat|
                    2 <= k < n ==> texts(existing@).contains(#[trigger] numbered(slug_base(base_slug@), k)),
    {
        let base = if chars_of(base_slug).len() == 0 {
            owned("work")
        } else {
            owned(base_slug)
        };
        proof {
            reveal_strlit("work");
        }
        if !strings_contain(existing, base.as_str()) {
            return base;
        }
        let ghost b = base@;
        let ghost taken = texts(existing@);
        let mut n: usize = 2;
        loop
            invariant
                2 <= n <= existing@.len() + 1,
                existing@.len() < usize::MAX,
                taken.contains(b),
                b == slug_base(base_slug@),
                base@ == b,
                taken == texts(existing@),
                taken.len() == existing@.len(),
                forall|k: nat| 2 <= k < n ==> taken.contains(#[trigger] numbered(b, k)),
            decreases existing@.len() + 1 - n,
        {
            let number = decimal_string(n);
            let candidate = concat3(base.as_str(), "-", number.as_str());
            assert(candidate@ == numbered(b, n as nat));
            if !strings_contain(existing, candidate.as_str()) {
                return candidate;
            }
            proof {
                assert forall|k: nat| 2 <= k <= n implies taken.contains(#[trigger] numbered(b, k)) by {
                    if k == n {
                    } else {
                        assert(2 <= k < n);
                    }
                }
                lemma_taken_numbered(b, taken, n as nat);
            }
            n = n + 1;
        }
    }

    /// The Works of the Work folder, from its folders that hold a metadata
    /// file, each given as its path and the file's text: sorted stably by
    /// title.
    pub fn list(&self, entries: &Vec<(String, String)>) -> (r: WorkList)
        ensures
            work_views(r.works@) == listed_works(entries@),
    {
        let ghost described = entries@.map_values(|e: (String, String)| described_work(e.1@, e.0@));
        let ghost before = title_before();
        let mut out: Vec<WorkSummary> = Vec::new();
        let mut i: usize = 0;
        assert(described.take(0) =~= Seq::<WorkView>::empty());
        while i < entries.len()
            invariant
                i <= entries@.len(),
                described == entries@.map_values(|e: (String, String)| described_work(e.1@, e.0@)),
                before == title_before(),
                work_views(out@) == isort(described.take(i as int), before),
            decreases entries@.len() - i,
        {
            let x = parse_work(entries[i].1.as_str(), clone_string(&entries[i].0));
            assert(x@ == described[i as int]);
            let ghost xs = work_views(out@);
            proof {
                lemma_first_after(xs, x@, before, 0);
            }
            let mut p: usize = 0;
            loop
                invariant
                    p <= out@.len(),
                    xs == work_views(out@),
                    before == title_before(),
                    first_after(xs, x@, before, 0) == first_after(xs, x@, before, p as int),
                ensures
                    p <= out@.len(),
                    first_after(xs, x@, before, 0) == first_after(xs, x@, before, p as int),
                    p == out@.len() || before(x@, xs[p as int]),
                decreases out@.len() - p,
            {
                if p >= out.len() {
                    break;
                }
                let order = compare_text(x.title.as_str(), out[p].title.as_str());
                if order == Order3::Less {
                    assert(before(x@, xs[p as int]));
                    break;
                }
                assert(!before(x@, xs[p as int]));
                p = p + 1;
            }
            proof {
                assert(first_after(xs, x@, before, p as int) == p);
                assert(described.take(i + 1).drop_last() =~= described.take(i as int));
                assert(described.take(i + 1).last() == x@);
            }
            out.insert(p, x);
            proof {
                assert(work_views(out@) =~= xs.insert(p as int, x@));
            }
            i = i + 1;
        }
        assert(described.take(entries@.len() as int) =~= described);
        WorkList { works: out }
    }

    /// A new Work for a goal and an intent, given the names already in the
    /// Work folder: its title is derived from the goal, its slug is the
    /// first free one for the title, its folder is that slug in the Work
    /// folder, and the text to write into its metadata file comes with it.
    pub fn create(&self, goal: &str, intent_id: &str, existing: &Vec<String>) -> (r: (CreatedWork, String))
        requires
            existing@.len() < usize::MAX,
        ensures
            r.0.title@ == title_of(goal@),
            r.0.goal@ == goal@,
            r.0.intent_id@ == intent_id@,
            !texts(existing@).contains(r.0.slug@),
            !texts(existing@).contains(slug_base(slug_of(title_of(goal@)))) ==> r.0.slug@ == slug_base(slug_of(title_of(goal@))),
            texts(existing@).contains(slug_base(slug_of(title_of(goal@)))) ==> exists|n: nat|
                n >= 2 && r.0.slug@ == numbered(slug_base(slug_of(title_of(goal@))), n) && forall|k: nat|
                    2 <= k < n ==> texts(existing@).contains(#[trigger] numbered(slug_base(slug_of(title_of(goal@))), k)),
            r.0.path@ == path_join(path_join(path_join(self.root_path(), ".workon"@), "work"@), r.0.slug@),
            r.0.instruction_files@.len() == 0,
            r.1@ == meta_text(title_of(goal@), r.0.slug@, goal@, intent_id@),
    {
        let title_text = title_from_goal(goal);
        let title = title_text.as_str();
        let base = slugify(title);
        let slug = self.unique_slug(base.as_str(), existing);
        let root = self.work_root();
        let path = join_path(root.as_str(), slug.as_str());
        let work = CreatedWork {
            title: owned(title),
            slug,
            goal: owned(goal),
            intent_id: owned(intent_id),
            path,
            instruction_files: Vec::new(),
        };
        let meta = serialize_work(&work);
        (work, meta)
    }

    /// Opens the best matching Work of `list` for `query`: the one exact match,
    /// else the one loose match; no loose match or several are errors.
    pub fn open(&self, query: &str, list: &WorkList) -> (r: Result<OpenedWork, WorkonError>)
        ensures
            ({
                let q = trim(query@);
                let ws = list.works@;
                let exact = keep(ws, exact_match(q));
                let loose = keep(ws, loose_match(q));
                if exact.len() == 1 {
                    r matches Ok(o) && opened_from(o, exact[0])
                } else if loose.len() == 0 {
                    r matches Err(WorkonError::WorkNotFound { query }) && query@ == q
                } else if loose.len() == 1 {
                    r matches Ok(o) && opened_from(o, loose[0])
                } else {
                    r matches Err(WorkonError::AmbiguousWork { query, matches }) && query@ == q
                        && texts(matches@) == titles(loose)
                }
            }),
    {
        let q = trim_exec(query);
        let query_slug = slugify(q.as_str());
        let query_lower = to_lower(q.as_str());
        let ghost ws = list.works@;
        let mut exact: Vec<usize> = Vec::new();
        let mut loose: Vec<usize> = Vec::new();
        let mut i: usize = 0;
        while i < list.works.len()
            invariant
                i <= list.works.len(),
                ws == list.works@,
                query_slug@ == slug_of(q@),
                query_lower@ == lower(q@),
                exact@.len() == keep(ws.take(i as int), exact_match(q@)).len(),
                forall|k: int|
                    #![trigger exact@[k]]
                    0 <= k < exact@.len() ==> exact@[k] < i && ws[exact@[k] as int] == keep(
                        ws.take(i as int),
                        exact_match(q@),
                    )[k],
                loose@.len() == keep(ws.take(i as int), loose_match(q@)).len(),
                forall|k: int|
                    #![trigger loose@[k]]
                    0 <= k < loose@.len() ==> loose@[k] < i && ws[loose@[k] as int] == keep(
                        ws.take(i as int),
                        loose_match(q@),
                    )[k],
            decreases list.works.len() - i,
        {
            let w = &list.works[i];
            let title_lower = to_lower(w.title.as_str());
            let is_exact = str_eq(w.slug.as_str(), query_slug.as_str()) || str_eq(
                title_lower.as_str(),
                query_lower.as_str(),
            );
            let is_loose = contains(w.slug.as_str(), query_slug.as_str()) || contains(
                title_lower.as_str(),
                query_lower.as_str(),
            );
            proof {
                lemma_keep_step(ws, i as int, exact_match(q@));
                lemma_keep_step(ws, i as int, loose_match(q@));
                assert(is_exact == exact_match(q@)(ws[i as int]));
                assert(is_loose == loose_match(q@)(ws[i as int]));
            }
            let ghost old_exact = exact@;
            let ghost old_loose = loose@;
            if is_exact {
                exact.push(i);
            }
            if is_loose {
                loose.push(i);
            }
            proof {
                let ke = keep(ws.take(i + 1), exact_match(q@));
                let kl = keep(ws.take(i + 1), loose_match(q@));
                assert forall|k: int| #![trigger exact@[k]] 0 <= k < exact@.len() implies exact@[k] < i + 1 && ws[exact@[
                    k
                ] as int] == ke[k] by {
                    let prev = keep(ws.take(i as int), exact_match(q@));
                    if k < old_exact.len() {
                        assert(exact@[k] == old_exact[k]);
                        assert(ws[old_exact[k] as int] == prev[k]);
                    } else {
                        assert(exact@[k] == i);
                    }
                }
                assert forall|k: int| #![trigger loose@[k]] 0 <= k < loose@.len() implies loose@[k] < i + 1 && ws[loose@[
                    k
                ] as int] == kl[k] by {
                    let prev = keep(ws.take(i as int), loose_match(q@));
                    if k < old_loose.len() {
                        assert(loose@[k] == old_loose[k]);
                        assert(ws[old_loose[k] as int] == prev[k]);
                    } else {
                        assert(loose@[k] == i);
                    }
                }
            }
            i = i + 1;
        }
        assert(ws.take(ws.len() as int) =~= ws);
        if exact.len() == 1 {
            return Ok(opened(&list.works[exact[0]]));
        }
        if loose.len() == 0 {
            return Err(WorkonError::WorkNotFound { query: q });
        }
        if loose.len() == 1 {
            return Ok(opened(&list.works[loose[0]]));
        }
        let mut matches: Vec<String> = Vec::new();
        let mut k: usize = 0;
        while k < loose.len()
            invariant
                k <= loose.len(),
                ws == list.works@,
                loose@.len() == keep(ws, loose_match(q@)).len(),
                forall|j: int|
                    #![trigger loose@[j]]
                    0 <= j < loose@.len() ==> loose@[j] < ws.len() && ws[loose@[j] as int] == keep(
                        ws,
                        loose_match(q@),
                    )[j],
                texts(matches@) == titles(keep(ws, loose_match(q@))).take(k as int),
            decreases loose.len() - k,
        {
            let t = clone_string(&list.works[loose[k]].title);
            proof {
                crate::seqs::lemma_texts_push(matches@, t);
                assert(titles(keep(ws, loose_match(q@))).take(k + 1) =~= titles(
                    keep(ws, loose_match(q@)),
                ).take(k as int).push(t@));
            }
            matches.push(t);
            k = k + 1;
        }
        assert(titles(keep(ws, loose_match(q@))).take(k as int) =~= titles(
            keep(ws, loose_match(q@)),
        ));
        Err(WorkonError::AmbiguousWork { query: q, matches })
    }
}

/// The opened form of a Work.
fn opened(w: &WorkSummary) -> (o: OpenedWork)
    ensures
        opened_from(o, *w),
{
    OpenedWork {
        title: clone_string(&w.title),
        slug: clone_string(&w.slug),
        goal: clone_string(&w.goal),
        intent_id: clone_string(&w.intent_id),
        path: clone_string(&w.path),
    }
}

/// Listing keeps every Work found (a permutation of them) and orders them
/// by title: no Work comes after one whose title is greater.
pub proof fn law_listed_works_are_ordered_by_title(entries: Seq<(String, String)>)
    ensures
        listed_works(entries).to_multiset() == entries.map_values(
            |e: (String, String)| described_work(e.1@, e.0@),
        ).to_multiset(),
        forall|i: int, j: int|
            0 <= i < j < listed_works(entries).len() ==> !text_lt(
                #[trigger] listed_works(entries)[j].title,
                #[trigger] listed_works(entries)[i].title,
            ),
{
    let described = entries.map_values(|e: (String, String)| described_work(e.1@, e.0@));
    let before = title_before();
    crate::sorting::law_isort_permutes(described, before);
    assert(crate::sorting::strict_order(before)) by {
        assert forall|a: WorkView| !#[trigger] before(a, a) by {
            crate::order::lemma_text_lt_irreflexive(a.title);
        }
        assert forall|a: WorkView, b: WorkView, c: WorkView|
            #[trigger] before(a, b) && #[trigger] before(b, c) implies before(a, c) by {
            crate::order::lemma_text_lt_transitive(a.title, b.title, c.title);
        }
    }
    crate::sorting::law_isort_in_order(described, before);
    assert forall|i: int, j: int|
        0 <= i < j < listed_works(entries).len() implies !text_lt(
            #[trigger] listed_works(entries)[j].title,
            #[trigger] listed_works(entries)[i].title,
        ) by {
        assert(!before(listed_works(entries)[j], listed_works(entries)[i]));
    }
}

/// What `keep` keeps is taken from the sequence, and satisfies `p`.
proof fn lemma_kept_is_listed<T>(s: Seq<T>, p: spec_fn(T) -> bool, k: int)
    requires
        0 <= k < keep(s, p).len(),
    ensures
        s.contains(keep(s, p)[k]),
        p(keep(s, p)[k]),
    decreases s.len(),
{
    if s.len() > 0 {
        if p(s.last()) && k == keep(s, p).len() - 1 {
            assert(s[s.len() - 1] == s.last());
        } else {
            lemma_kept_is_listed(s.drop_last(), p, k);
            let x = keep(s.drop_last(), p)[k];
            let m = choose|m: int| 0 <= m < s.drop_last().len() && s.drop_last()[m] == x;
            assert(s[m] == x);
        }
    }
}

/// Keeping the elements that satisfy `p`, where only the one at `i` does,
/// keeps just that one.
proof fn lemma_keep_single<T>(s: Seq<T>, p: spec_fn(T) -> bool, i: int)
    requires
        0 <= i < s.len(),
        p(s[i]),
        forall|j: int| 0 <= j < s.len() && j != i ==> !p(#[trigger] s[j]),
    ensures
        keep(s, p) == seq![s[i]],
    decreases s.len(),
{
    if i == s.len() - 1 {
        lemma_keep_none(s.drop_last(), p);
        assert(s.last() == s[i]);
        assert(Seq::<T>::empty().push(s[i]) =~= seq![s[i]]);
    } else {
        assert forall|j: int| 0 <= j < s.drop_last().len() && j != i implies !p(#[trigger] s.drop_last()[j]) by {
            assert(s.drop_last()[j] == s[j]);
        }
        assert(s.drop_last()[i] == s[i]);
        lemma_keep_single(s.drop_last(), p, i);
        assert(!p(s[s.len() - 1]));
    }
}

/// Keeping the elements that satisfy `p`, where none does, keeps nothing.
proof fn lemma_keep_none<T>(s: Seq<T>, p: spec_fn(T) -> bool)
    requires
        forall|j: int| 0 <= j < s.len() ==> !p(#[trigger] s[j]),
    ensures
        keep(s, p) == Seq::<T>::empty(),
    decreases s.len(),
{
    if s.len() > 0 {
        assert forall|j: int| 0 <= j < s.drop_last().len() implies !p(#[trigger] s.drop_last()[j]) by {
            assert(s.drop_last()[j] == s[j]);
        }
        lemma_keep_none(s.drop_last(), p);
        assert(!p(s[s.len() - 1]));
    }
}

/// A Work matches a query loosely as soon as the lower-cased query appears
/// anywhere in its lower-cased title, at any position, or the query's slug
/// appears anywhere in its slug.
pub proof fn law_any_part_of_a_title_or_slug_matches(w: WorkSummary, query: Seq<char>, at: int)
    requires
        ({
            let t = lower(w.title@);
            let q = lower(query);
            0 <= at && at + q.len() <= t.len() && t.subrange(at, at + q.len()) == q
        }) || ({
            let q = slug_of(query);
            0 <= at && at + q.len() <= w.slug@.len() && w.slug@.subrange(at, at + q.len()) == q
        }),
    ensures
        loose_match(query)(w),
{
    let t = lower(w.title@);
    let q = lower(query);
    if 0 <= at && at + q.len() <= t.len() && t.subrange(at, at + q.len()) == q {
        assert(crate::text::occurs_at(t, q, at));
    } else {
        assert(crate::text::occurs_at(w.slug@, slug_of(query), at));
    }
}

/// Opening by a part of a title: when no listed Work matches the query
/// exactly, and the listed Work at `i` is the only one whose lower-cased
/// title holds the lower-cased (trimmed) query somewhere, or whose slug
/// holds the query's slug somewhere, that Work is the one loose match, so
/// it is the one opened.
pub proof fn law_open_finds_the_one_work_holding_the_query(ws: Seq<WorkSummary>, query: Seq<char>, i: int, at: int)
    requires
        0 <= i < ws.len(),
        ({
            let t = lower(ws[i].title@);
            let q = lower(trim(query));
            0 <= at && at + q.len() <= t.len() && t.subrange(at, at + q.len()) == q
        }),
        forall|j: int, p: int|
            #![trigger crate::text::occurs_at(lower(ws[j].title@), lower(trim(query)), p)]
            #![trigger crate::text::occurs_at(ws[j].slug@, slug_of(trim(query)), p)]
            0 <= j < ws.len() && j != i ==> !crate::text::occurs_at(
                lower(ws[j].title@),
                lower(trim(query)),
                p,
            ) && !crate::text::occurs_at(ws[j].slug@, slug_of(trim(query)), p),
    ensures
        keep(ws, loose_match(trim(query))) == seq![ws[i]],
{
    let q = trim(query);
    law_any_part_of_a_title_or_slug_matches(ws[i], q, at);
    assert forall|j: int| 0 <= j < ws.len() && j != i implies !loose_match(q)(#[trigger] ws[j]) by {
        if loose_match(q)(ws[j]) {
            if crate::text::contains_text(ws[j].slug@, slug_of(q)) {
                let p = choose|p: int| crate::text::occurs_at(ws[j].slug@, slug_of(q), p);
                assert(!crate::text::occurs_at(ws[j].slug@, slug_of(q), p));
            } else {
                let t = lower(ws[j].title@);
                let p = choose|p: int| crate::text::occurs_at(t, lower(q), p);
                assert(!crate::text::occurs_at(t, lower(q), p));
            }
        }
    }
    lemma_keep_single(ws, loose_match(q), i);
}

/// The Work that `open` opens for a query is one of the listed Works, and
/// it matches the query: the one exact match, else the one loose match.
pub proof fn law_opened_work_is_listed(query: Seq<char>, ws: Seq<WorkSummary>)
    ensures
        ({
            let exact = keep(ws, exact_match(trim(query)));
            exact.len() == 1 ==> ws.contains(exact[0]) && exact_match(trim(query))(exact[0])
        }),
        ({
            let loose = keep(ws, loose_match(trim(query)));
            loose.len() == 1 ==> ws.contains(loose[0]) && loose_match(trim(query))(loose[0])
        }),
{
    let q = trim(query);
    if keep(ws, exact_match(q)).len() == 1 {
        lemma_kept_is_listed(ws, exact_match(q), 0);
    }
    if keep(ws, loose_match(q)).len() == 1 {
        lemma_kept_is_listed(ws, loose_match(q), 0);
    }
}

/// A slug chosen for a new Work is never one already taken, so a new Work
/// never lands in the folder of another.
pub proof fn law_new_slug_is_free(base: Seq<char>, taken: Seq<Seq<char>>, n: nat)
    requires
        n >= 2,
        !taken.contains(numbered(base, n)),
    ensures
        numbered(base, n) != base,
        forall|k: nat| k >= 2 && k != n ==> numbered(base, k) != numbered(base, n),
{
    reveal_strlit("-");
    assert(numbered(base, n).len() > base.len());
    assert forall|k: nat| k >= 2 && k != n implies numbered(base, k) != numbered(base, n) by {
        if numbered(base, k) == numbered(base, n) {
            lemma_numbered_injective(base, k, n);
        }
    }
}

} // verus!
