//! Splitting and joining of separator-delimited text.
//!
//! The settings resources are line- and comma-delimited; this module
//! gives the split and join operations and the algebra that makes the
//! write-then-read round trip provable: joining the split of a text
//! restores the text, and splitting the join of separator-free fields
//! restores the fields.

use vstd::prelude::*;

verus! {

/// The fields of `s` delimited by `sep`, in order. A text with no
/// separator is one field; every separator opens a new field.
pub open spec fn spec_split(s: Seq<char>, sep: char) -> Seq<Seq<char>>
    decreases s.len(),
{
    if s.len() == 0 {
        seq![Seq::<char>::empty()]
    } else {
        let rest = spec_split(s.drop_last(), sep);
        if s.last() == sep {
            rest.push(Seq::<char>::empty())
        } else {
            rest.update(rest.len() - 1, rest.last().push(s.last()))
        }
    }
}

/// The parts joined with `sep` between consecutive parts.
pub open spec fn spec_join(parts: Seq<Seq<char>>, sep: char) -> Seq<char>
    decreases parts.len(),
{
    if parts.len() == 0 {
        Seq::<char>::empty()
    } else if parts.len() == 1 {
        parts[0]
    } else {
        parts[0] + seq![sep] + spec_join(parts.drop_first(), sep)
    }
}

/// Whether no part contains the separator.
pub open spec fn no_sep(parts: Seq<Seq<char>>, sep: char) -> bool {
    forall|i: int| 0 <= i < parts.len() ==> !(#[trigger] parts[i]).contains(sep)
}

/// The views of a vector of owned strings.
pub open spec fn str_views(parts: Seq<String>) -> Seq<Seq<char>> {
    parts.map_values(|p: String| p@)
}

/// Joining after appending one part appends a separator and the part.
pub proof fn lemma_join_push(ps: Seq<Seq<char>>, q: Seq<char>, sep: char)
    requires
        ps.len() >= 1,
    ensures
        spec_join(ps.push(q), sep) == spec_join(ps, sep) + seq![sep] + q,
    decreases ps.len(),
{
    let whole = ps.push(q);
    assert(whole.len() >= 2);
    assert(whole[0] == ps[0]);
    if ps.len() == 1 {
        assert(whole.drop_first() =~= seq![q]);
        assert(spec_join(seq![q], sep) == q);
        assert(spec_join(whole, sep) =~= ps[0] + seq![sep] + q);
    } else {
        assert(whole.drop_first() =~= ps.drop_first().push(q));
        lemma_join_push(ps.drop_first(), q, sep);
        assert(spec_join(whole, sep) =~= spec_join(ps, sep) + seq![sep] + q);
    }
}

/// Joining after extending the last part extends the join by that character.
pub proof fn lemma_join_update_last(ps: Seq<Seq<char>>, c: char, sep: char)
    requires
        ps.len() >= 1,
    ensures
        spec_join(ps.update(ps.len() - 1, ps.last().push(c)), sep) == spec_join(ps, sep).push(c),
    decreases ps.len(),
{
    let upd = ps.update(ps.len() - 1, ps.last().push(c));
    if ps.len() == 1 {
        assert(spec_join(upd, sep) =~= spec_join(ps, sep).push(c));
    } else {
        assert(upd[0] == ps[0]);
        assert(upd.drop_first() =~= ps.drop_first().update(
            ps.drop_first().len() - 1,
            ps.drop_first().last().push(c),
        ));
        lemma_join_update_last(ps.drop_first(), c, sep);
        assert(spec_join(upd, sep) =~= spec_join(ps, sep).push(c));
    }
}

/// The split of any text has at least one field, none of its fields
/// contains the separator, and joining them restores the text.
pub proof fn lemma_split_parts(s: Seq<char>, sep: char)
    ensures
        spec_split(s, sep).len() >= 1,
        no_sep(spec_split(s, sep), sep),
        spec_join(spec_split(s, sep), sep) == s,
    decreases s.len(),
{
    let parts = spec_split(s, sep);
    if s.len() == 0 {
        assert(parts =~~= seq![Seq::<char>::empty()]);
        assert(spec_join(parts, sep) =~= s);
        assert forall|i: int| 0 <= i < parts.len() implies !(#[trigger] parts[i]).contains(
            sep,
        ) by {
            assert(parts[i].len() == 0);
        }
    } else {
        let t = s.drop_last();
        let c = s.last();
        let rest = spec_split(t, sep);
        lemma_split_parts(t, sep);
        if c == sep {
            lemma_join_push(rest, Seq::<char>::empty(), sep);
            assert(spec_join(parts, sep) =~= s);
            assert forall|i: int| 0 <= i < parts.len() implies !(#[trigger] parts[i]).contains(
                sep,
            ) by {
                if i < rest.len() {
                    assert(parts[i] == rest[i]);
                } else {
                    assert(parts[i] =~= Seq::<char>::empty());
                }
            }
        } else {
            lemma_join_update_last(rest, c, sep);
            assert(spec_join(parts, sep) =~= s);
            assert forall|i: int| 0 <= i < parts.len() implies !(#[trigger] parts[i]).contains(
                sep,
            ) by {
                if i < rest.len() - 1 {
                    assert(parts[i] == rest[i]);
                } else {
                    let last = rest.last().push(c);
                    assert(parts[i] == last);
                    assert forall|j: int| 0 <= j < last.len() implies last[j] != sep by {
                        if j < rest.last().len() {
                            assert(!rest.last().contains(sep));
                        }
                    }
                }
            }
        }
    }
}

/// Two separator-free part lists with the same join are the same list.
pub proof fn lemma_join_injective(a: Seq<Seq<char>>, b: Seq<Seq<char>>, sep: char)
    requires
        spec_join(a, sep) == spec_join(b, sep),
        no_sep(a, sep),
        no_sep(b, sep),
        a.len() >= 1,
        b.len() >= 1,
    ensures
        a == b,
    decreases a.len(),
{
    let ja = spec_join(a, sep);
    let jb = spec_join(b, sep);
    if a.len() == 1 && b.len() == 1 {
        assert(a =~~= b);
    } else if a.len() == 1 {
        assert(jb == b[0] + seq![sep] + spec_join(b.drop_first(), sep));
        assert(jb[b[0].len() as int] == sep);
        assert(a[0][b[0].len() as int] == sep);
        assert(a[0].contains(sep));
        assert(false);
    } else if b.len() == 1 {
        assert(ja == a[0] + seq![sep] + spec_join(a.drop_first(), sep));
        assert(ja[a[0].len() as int] == sep);
        assert(b[0][a[0].len() as int] == sep);
        assert(b[0].contains(sep));
        assert(false);
    } else {
        assert(ja == a[0] + seq![sep] + spec_join(a.drop_first(), sep));
        assert(jb == b[0] + seq![sep] + spec_join(b.drop_first(), sep));
        let la = a[0].len() as int;
        let lb = b[0].len() as int;
        if la < lb {
            assert(ja[la] == sep);
            assert(jb[la] == b[0][la]);
            assert(b[0].contains(sep));
            assert(false);
        }
        if lb < la {
            assert(jb[lb] == sep);
            assert(ja[lb] == a[0][lb]);
            assert(a[0].contains(sep));
            assert(false);
        }
        assert(a[0] =~= b[0]) by {
            assert forall|i: int| 0 <= i < la implies a[0][i] == b[0][i] by {
                assert(ja[i] == a[0][i]);
                assert(jb[i] == b[0][i]);
            }
        }
        assert(spec_join(a.drop_first(), sep) =~= spec_join(b.drop_first(), sep)) by {
            let ta = spec_join(a.drop_first(), sep);
            let tb = spec_join(b.drop_first(), sep);
            assert(ta.len() == ja.len() - la - 1);
            assert(tb.len() == jb.len() - lb - 1);
            assert forall|i: int| 0 <= i < ta.len() implies ta[i] == tb[i] by {
                assert(ja[la + 1 + i] == ta[i]);
                assert(jb[lb + 1 + i] == tb[i]);
            }
        }
        lemma_join_injective(a.drop_first(), b.drop_first(), sep);
        assert(a =~~= b) by {
            assert forall|i: int| 0 <= i < a.len() implies a[i] == b[i] by {
                if i > 0 {
                    assert(a.drop_first()[i - 1] == b.drop_first()[i - 1]);
                }
            }
        }
    }
}

/// Splitting the join of separator-free fields restores the fields.
pub proof fn lemma_split_of_join(parts: Seq<Seq<char>>, sep: char)
    requires
        parts.len() >= 1,
        no_sep(parts, sep),
    ensures
        spec_split(spec_join(parts, sep), sep) == parts,
{
    let s = spec_join(parts, sep);
    lemma_split_parts(s, sep);
    lemma_join_injective(spec_split(s, sep), parts, sep);
}

/// A join contains no character that the separator and the parts lack.
pub proof fn lemma_join_free_of(parts: Seq<Seq<char>>, sep: char, c: char)
    requires
        c != sep,
        forall|i: int| 0 <= i < parts.len() ==> !(#[trigger] parts[i]).contains(c),
    ensures
        !spec_join(parts, sep).contains(c),
    decreases parts.len(),
{
    let j = spec_join(parts, sep);
    if parts.len() == 0 {
        assert forall|i: int| 0 <= i < j.len() implies j[i] != c by {}
    } else if parts.len() == 1 {
        assert(!parts[0].contains(c));
        assert forall|i: int| 0 <= i < j.len() implies j[i] != c by {
            assert(parts[0].contains(c) <== exists|k: int| 0 <= k < parts[0].len() && parts[0][k]
                == c);
        }
    } else {
        lemma_join_free_of(parts.drop_first(), sep, c);
        let tail = spec_join(parts.drop_first(), sep);
        assert forall|i: int| 0 <= i < j.len() implies j[i] != c by {
            if i < parts[0].len() {
                assert(j[i] == parts[0][i]);
                assert(!parts[0].contains(c));
            } else if i == parts[0].len() {
                assert(j[i] == sep);
            } else {
                assert(j[i] == tail[i - parts[0].len() - 1]);
                assert(!tail.contains(c));
            }
        }
    }
}

/// A split has at most one field more than the text has characters.
pub proof fn lemma_split_count(s: Seq<char>, sep: char)
    ensures
        spec_split(s, sep).len() <= s.len() + 1,
    decreases s.len(),
{
    if s.len() > 0 {
        lemma_split_count(s.drop_last(), sep);
        lemma_split_parts(s.drop_last(), sep);
    }
}

/// Splits `s` at every occurrence of `sep`.
pub fn split_on(s: &str, sep: char) -> (parts: Vec<String>)
    ensures
        str_views(parts@) == spec_split(s@, sep),
{
    let n = s.unicode_len();
    let mut parts: Vec<String> = Vec::new();
    let mut start: usize = 0;
    let mut i: usize = 0;
    proof {
        assert(str_views(parts@).push(s@.subrange(0, 0)) =~~= spec_split(s@.subrange(0, 0), sep));
    }
    while i < n
        invariant
            0 <= start <= i <= n,
            n == s@.len(),
            str_views(parts@).push(s@.subrange(start as int, i as int)) =~~= spec_split(
                s@.subrange(0, i as int),
                sep,
            ),
        decreases n - i,
    {
        let ghost pre = s@.subrange(0, i as int);
        let ghost cur = s@.subrange(start as int, i as int);
        let c = s.get_char(i);
        proof {
            assert(s@.subrange(0, i + 1).drop_last() =~= pre);
            assert(s@.subrange(0, i + 1).last() == c);
        }
        if c == sep {
            let ghost before = parts@;
            let piece = s.substring_char(start, i).to_owned();
            parts.push(piece);
            proof {
                assert(str_views(parts@) =~~= str_views(before).push(cur));
            }
            start = i + 1;
        }
        i = i + 1;
        proof {
            if c == sep {
                assert(str_views(parts@).push(s@.subrange(start as int, i as int)) =~~= spec_split(
                    s@.subrange(0, i as int),
                    sep,
                ));
            } else {
                assert(s@.subrange(start as int, i as int) =~= cur.push(c));
                let old_split = spec_split(pre, sep);
                assert(spec_split(s@.subrange(0, i as int), sep) == old_split.update(
                    old_split.len() - 1,
                    old_split.last().push(c),
                ));
                assert(str_views(parts@).push(s@.subrange(start as int, i as int)) =~~= spec_split(
                    s@.subrange(0, i as int),
                    sep,
                ));
            }
        }
    }
    let last_piece = s.substring_char(start, n).to_owned();
    parts.push(last_piece);
    proof {
        assert(s@.subrange(0, n as int) =~= s@);
        assert(str_views(parts@) =~~= spec_split(s@, sep));
    }
    parts
}

} // verus!
