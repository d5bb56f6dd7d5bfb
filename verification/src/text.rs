//! Substitution of placeholders in template text.

use vstd::prelude::*;

verus! {

/// `s` with every occurrence of `from` replaced by `to`, occurrences taken from left
/// to right without overlap. An empty `from` matches before every character and at
/// the end.
pub open spec fn replaced(s: Seq<char>, from: Seq<char>, to: Seq<char>) -> Seq<char>
    decreases s.len(),
{
    if from.len() == 0 {
        if s.len() == 0 {
            to
        } else {
            to + seq![s[0]] + replaced(s.skip(1), from, to)
        }
    } else if s.len() < from.len() {
        s
    } else if s.take(from.len() as int) == from {
        to + replaced(s.skip(from.len() as int), from, to)
    } else {
        seq![s[0]] + replaced(s.skip(1), from, to)
    }
}

/// The pieces put together, in order.
pub open spec fn join(pieces: Seq<Seq<char>>) -> Seq<char>
    decreases pieces.len(),
{
    if pieces.len() == 0 {
        Seq::empty()
    } else {
        pieces[0] + join(pieces.drop_first())
    }
}

/// `pattern` stands in `s` starting at index `i`.
pub open spec fn occurs_at(s: Seq<char>, pattern: Seq<char>, i: int) -> bool {
    0 <= i && i + pattern.len() <= s.len() && s.subrange(i, i + pattern.len()) == pattern
}

/// `pattern` stands somewhere in `s`.
pub open spec fn occurs_in(s: Seq<char>, pattern: Seq<char>) -> bool {
    exists|i: int| occurs_at(s, pattern, i)
}

/// No character of `a` is a character of `b`.
pub open spec fn share_no_char(a: Seq<char>, b: Seq<char>) -> bool {
    forall|i: int| 0 <= i < a.len() ==> !b.contains(#[trigger] a[i])
}

/// Whether `from` stands in `s` at index `i`.
fn matches_at(s: &str, from: &str, i: usize, m: usize) -> (b: bool)
    requires
        m == from@.len(),
        i + m <= s@.len(),
        s@.len() <= usize::MAX,
    ensures
        b == (s@.subrange(i as int, i + m) == from@),
{
    let mut j: usize = 0;
    while j < m
        invariant
            m == from@.len(),
            i + m <= s@.len(),
            s@.len() <= usize::MAX,
            j <= m,
            forall|k: int| 0 <= k < j ==> s@[i + k] == from@[k],
        decreases m - j,
    {
        if s.get_char(i + j) != from.get_char(j) {
            assert(s@.subrange(i as int, i + m)[j as int] != from@[j as int]);
            return false;
        }
        j = j + 1;
    }
    assert(s@.subrange(i as int, i + m) =~= from@);
    true
}

/// Replaces every occurrence of `from` in `s` by `to`, as `str::replace` does.
pub fn replace_all(s: &str, from: &str, to: &str) -> (r: String)
    ensures
        r@ == replaced(s@, from@, to@),
{
    let n = s.unicode_len();
    let m = from.unicode_len();
    let mut out = String::new();
    let mut i: usize = 0;
    assert(s@.skip(0) =~= s@);
    if m == 0 {
        while i < n
            invariant
                n == s@.len(),
                m == from@.len(),
                m == 0,
                i <= n,
                out@ + replaced(s@.skip(i as int), from@, to@) == replaced(s@, from@, to@),
            decreases n - i,
        {
            let ghost rest = s@.skip(i as int);
            assert(rest.skip(1) =~= s@.skip(i + 1));
            assert(rest[0] == s@[i as int]);
            let c = s.substring_char(i, i + 1);
            assert(c@ =~= seq![rest[0]]);
            let ghost before = out@;
            out.append(to);
            out.append(c);
            assert(out@ =~= before + (to@ + seq![rest[0]]));
            assert(out@ + replaced(s@.skip(i + 1), from@, to@) =~= before + replaced(rest, from@, to@));
            i = i + 1;
        }
        assert(s@.skip(n as int).len() == 0);
        out.append(to);
    } else {
        while i < n
            invariant
                n == s@.len(),
                m == from@.len(),
                m > 0,
                i <= n,
                out@ + replaced(s@.skip(i as int), from@, to@) == replaced(s@, from@, to@),
            decreases n - i,
        {
            let ghost rest = s@.skip(i as int);
            let ghost before = out@;
            if n - i < m {
                let tail = s.substring_char(i, n);
                assert(tail@ =~= rest);
                out.append(tail);
                assert(s@.skip(n as int).len() == 0);
                assert(replaced(s@.skip(n as int), from@, to@) =~= Seq::<char>::empty());
                assert(out@ + replaced(s@.skip(n as int), from@, to@) =~= before + replaced(rest, from@, to@));
                i = n;
            } else if matches_at(s, from, i, m) {
                assert(rest.take(m as int) =~= s@.subrange(i as int, i + m));
                assert(rest.skip(m as int) =~= s@.skip(i + m));
                out.append(to);
                assert(out@ + replaced(s@.skip(i + m), from@, to@) =~= before + replaced(rest, from@, to@));
                i = i + m;
            } else {
                assert(rest.take(m as int) =~= s@.subrange(i as int, i + m));
                assert(rest.skip(1) =~= s@.skip(i + 1));
                let c = s.substring_char(i, i + 1);
                assert(c@ =~= seq![rest[0]]);
                out.append(c);
                assert(out@ + replaced(s@.skip(i + 1), from@, to@) =~= before + replaced(rest, from@, to@));
                i = i + 1;
            }
        }
        assert(s@.skip(n as int).len() == 0);
        assert(replaced(s@.skip(n as int), from@, to@) =~= Seq::<char>::empty());
        assert(out@ =~= out@ + replaced(s@.skip(n as int), from@, to@));
    }
    out
}


/// When `to` is not empty, the first `j` characters of the result, if none of them is
/// a character of `to`, are the first `j` characters of `s`: they come from a stretch of
/// `s` in which nothing was replaced.
proof fn lemma_replaced_prefix_from_source(s: Seq<char>, from: Seq<char>, to: Seq<char>, j: int)
    requires
        from.len() > 0,
        to.len() > 0,
        0 <= j <= replaced(s, from, to).len(),
        forall|k: int| 0 <= k < j ==> !to.contains(#[trigger] replaced(s, from, to)[k]),
    ensures
        j <= s.len(),
        replaced(s, from, to).take(j) == s.take(j),
    decreases s.len(),
{
    let r = replaced(s, from, to);
    if j == 0 {
        assert(r.take(0) =~= s.take(0));
    } else if s.len() < from.len() {
    } else if s.take(from.len() as int) == from {
        assert(r[0] == to[0]);
        assert(to.contains(to[0]));
        assert(!to.contains(r[0]));
    } else {
        let rest = replaced(s.skip(1), from, to);
        assert(r =~= seq![s[0]] + rest);
        assert forall|k: int| 0 <= k < j - 1 implies !to.contains(#[trigger] rest[k]) by {
            assert(rest[k] == r[k + 1]);
        }
        lemma_replaced_prefix_from_source(s.skip(1), from, to, j - 1);
        assert(r.take(j) =~= seq![s[0]] + rest.take(j - 1));
        assert(s.take(j) =~= seq![s[0]] + s.skip(1).take(j - 1));
    }
}

/// Replacing `from` by a non-empty `to` that shares no character with it leaves no
/// occurrence of `from`: after substitution no placeholder remains.
pub proof fn lemma_replaced_leaves_no_occurrence(s: Seq<char>, from: Seq<char>, to: Seq<char>)
    requires
        from.len() > 0,
        to.len() > 0,
        share_no_char(from, to),
    ensures
        !occurs_in(replaced(s, from, to), from),
    decreases s.len(),
{
    let r = replaced(s, from, to);
    let f = from.len() as int;
    if s.len() < from.len() {
    } else if s.take(f) == from {
        let rest = replaced(s.skip(f), from, to);
        lemma_replaced_leaves_no_occurrence(s.skip(f), from, to);
        assert(r =~= to + rest);
        assert forall|i: int| !occurs_at(r, from, i) by {
            if occurs_at(r, from, i) {
                if i >= to.len() {
                    assert(rest.subrange(i - to.len(), i - to.len() + f) =~= r.subrange(i, i + f));
                    assert(occurs_at(rest, from, i - to.len()));
                } else {
                    assert(r.subrange(i, i + f)[0] == from[0]);
                    assert(r[i] == to[i]);
                    assert(to.contains(to[i]));
                    assert(!to.contains(from[0]));
                }
            }
        }
    } else {
        let rest = replaced(s.skip(1), from, to);
        lemma_replaced_leaves_no_occurrence(s.skip(1), from, to);
        assert(r =~= seq![s[0]] + rest);
        assert forall|i: int| !occurs_at(r, from, i) by {
            if occurs_at(r, from, i) {
                if i >= 1 {
                    assert(rest.subrange(i - 1, i - 1 + f) =~= r.subrange(i, i + f));
                    assert(occurs_at(rest, from, i - 1));
                } else {
                    assert(r.subrange(0, f) == from);
                    assert forall|k: int| 0 <= k < f - 1 implies !to.contains(#[trigger] rest[k]) by {
                        assert(rest[k] == r[k + 1]);
                        assert(r.subrange(0, f)[k + 1] == from[k + 1]);
                        assert(!to.contains(from[k + 1]));
                    }
                    lemma_replaced_prefix_from_source(s.skip(1), from, to, f - 1);
                    assert(rest.take(f - 1) =~= s.skip(1).take(f - 1));
                    assert(r.subrange(0, f) =~= seq![s[0]] + rest.take(f - 1));
                    assert(s.take(f) =~= seq![s[0]] + s.skip(1).take(f - 1));
                    assert(s.take(f) =~= r.subrange(0, f));
                }
            }
        }
    }
}


/// Where no occurrence of `from` starts inside `a`, replacing in `a + r` keeps `a` and
/// replaces in `r`.
pub proof fn lemma_replaced_skips_prefix(a: Seq<char>, r: Seq<char>, from: Seq<char>, to: Seq<char>)
    requires
        from.len() > 0,
        forall|i: int| 0 <= i < a.len() ==> !occurs_at(a + r, from, i),
    ensures
        replaced(a + r, from, to) == a + replaced(r, from, to),
    decreases a.len(),
{
    let s = a + r;
    let f = from.len() as int;
    if a.len() == 0 {
        assert(s =~= r);
        assert(a + replaced(r, from, to) =~= replaced(r, from, to));
    } else if s.len() < f {
        assert(replaced(r, from, to) == r);
    } else {
        assert(!occurs_at(s, from, 0));
        assert(s.subrange(0, f) =~= s.take(f));
        let a1 = a.drop_first();
        assert(s.skip(1) =~= a1 + r);
        assert forall|i: int| 0 <= i < a1.len() implies !occurs_at(a1 + r, from, i) by {
            if occurs_at(a1 + r, from, i) {
                assert((a1 + r).subrange(i, i + f) =~= s.subrange(i + 1, i + 1 + f));
                assert(occurs_at(s, from, i + 1));
            }
        }
        lemma_replaced_skips_prefix(a1, r, from, to);
        assert(a =~= seq![a[0]] + a1);
        assert(seq![s[0]] + (a1 + replaced(r, from, to)) =~= a + replaced(r, from, to));
    }
}

/// Replacing in a text that starts with `from` puts `to` first.
pub proof fn lemma_replaced_at_match(r: Seq<char>, from: Seq<char>, to: Seq<char>)
    requires
        from.len() > 0,
    ensures
        replaced(from + r, from, to) == to + replaced(r, from, to),
{
    let s = from + r;
    assert(s.take(from.len() as int) =~= from);
    assert(s.skip(from.len() as int) =~= r);
}

/// The piece with index `i` is handled piece by piece when replacing `from`, a pattern
/// that starts with a marker character: it is `from` itself, or it holds no marker, or it
/// is another pattern of the same shape (marker first and last, none between) that
/// differs from `from` early and is followed by a piece that cannot continue `from`.
pub open spec fn piece_fits(pieces: Seq<Seq<char>>, i: int, from: Seq<char>) -> bool {
    let p = pieces[i];
    ||| p == from
    ||| !p.contains(from[0])
    ||| {
        &&& p.len() >= 2
        &&& p[0] == from[0]
        &&& p[p.len() - 1] == from[0]
        &&& (forall|j: int| 0 < j < p.len() - 1 ==> #[trigger] p[j] != from[0])
        &&& (exists|d: int| 0 <= d < p.len() && d < from.len() && #[trigger] p[d] != from[d])
        &&& i + 1 < pieces.len()
        &&& pieces[i + 1].len() > 0
        &&& pieces[i + 1][0] != from[1]
    }
}

/// The piece, with `from` replaced by `to` where it is `from`.
pub open spec fn replace_piece(p: Seq<char>, from: Seq<char>, to: Seq<char>) -> Seq<char> {
    if p == from {
        to
    } else {
        p
    }
}

/// Replacing `from` in pieces put together, when every piece fits, replaces exactly the
/// pieces that are `from`.
pub proof fn lemma_replaced_pieces(pieces: Seq<Seq<char>>, from: Seq<char>, to: Seq<char>)
    requires
        from.len() >= 2,
        forall|i: int| 0 <= i < pieces.len() ==> piece_fits(pieces, i, from),
    ensures
        replaced(join(pieces), from, to) == join(pieces.map_values(|p: Seq<char>| replace_piece(p, from, to))),
    decreases pieces.len(),
{
    let mapped = pieces.map_values(|p: Seq<char>| replace_piece(p, from, to));
    if pieces.len() == 0 {
        assert(join(pieces) =~= Seq::<char>::empty());
        assert(replaced(Seq::<char>::empty(), from, to) =~= Seq::<char>::empty());
        assert(join(mapped) =~= Seq::<char>::empty());
    } else {
        let p = pieces[0];
        let rest = pieces.drop_first();
        assert forall|i: int| 0 <= i < rest.len() implies piece_fits(rest, i, from) by {
            assert(piece_fits(pieces, i + 1, from));
            assert(rest[i] == pieces[i + 1]);
            if i + 1 < rest.len() {
                assert(rest[i + 1] == pieces[i + 2]);
            }
        }
        lemma_replaced_pieces(rest, from, to);
        assert(mapped.drop_first() =~= rest.map_values(|p: Seq<char>| replace_piece(p, from, to)));
        let j = join(rest);
        assert(join(pieces) == p + j);
        assert(join(mapped) == mapped[0] + join(mapped.drop_first()));
        assert(piece_fits(pieces, 0, from));
        if p == from {
            lemma_replaced_at_match(j, from, to);
        } else if !p.contains(from[0]) {
            assert forall|i: int| 0 <= i < p.len() implies !occurs_at(p + j, from, i) by {
                if occurs_at(p + j, from, i) {
                    assert((p + j).subrange(i, i + from.len())[0] == from[0]);
                    assert((p + j)[i] == p[i]);
                }
            }
            lemma_replaced_skips_prefix(p, j, from, to);
        } else {
            let d = choose|d: int| 0 <= d < p.len() && d < from.len() && #[trigger] p[d] != from[d];
            assert(rest[0] == pieces[1]);
            assert(join(rest) == rest[0] + join(rest.drop_first()));
            assert(j[0] == pieces[1][0]);
            assert forall|i: int| 0 <= i < p.len() implies !occurs_at(p + j, from, i) by {
                if occurs_at(p + j, from, i) {
                    let w = (p + j).subrange(i, i + from.len());
                    assert(w[0] == from[0]);
                    assert(w[1] == from[1]);
                    if i == 0 {
                        assert(w[d] == from[d]);
                        assert((p + j)[d] == p[d]);
                    } else if i < p.len() - 1 {
                        assert((p + j)[i] == p[i]);
                    } else {
                        assert((p + j)[i + 1] == j[0]);
                    }
                }
            }
            lemma_replaced_skips_prefix(p, j, from, to);
        }
    }
}

/// Pieces none of which holds `c` put together hold no `c`.
pub proof fn lemma_join_lacks_char(pieces: Seq<Seq<char>>, c: char)
    requires
        forall|i: int| 0 <= i < pieces.len() ==> !(#[trigger] pieces[i]).contains(c),
    ensures
        !join(pieces).contains(c),
    decreases pieces.len(),
{
    if pieces.len() > 0 {
        let rest = pieces.drop_first();
        assert forall|i: int| 0 <= i < rest.len() implies !(#[trigger] rest[i]).contains(c) by {
            assert(rest[i] == pieces[i + 1]);
        }
        lemma_join_lacks_char(rest, c);
        let s = join(pieces);
        assert(s == pieces[0] + join(rest));
        if s.contains(c) {
            let k = choose|k: int| 0 <= k < s.len() && s[k] == c;
            if k < pieces[0].len() {
                assert(pieces[0][k] == c);
                assert(pieces[0].contains(c));
            } else {
                assert(join(rest)[k - pieces[0].len()] == c);
                assert(join(rest).contains(c));
            }
        }
    }
}


/// Putting two runs of pieces together one after the other gives the two texts one
/// after the other.
pub proof fn lemma_join_append(a: Seq<Seq<char>>, b: Seq<Seq<char>>)
    ensures
        join(a + b) == join(a) + join(b),
    decreases a.len(),
{
    if a.len() == 0 {
        assert(a + b =~= b);
        assert(join(a) =~= Seq::<char>::empty());
        assert(join(a) + join(b) =~= join(b));
    } else {
        lemma_join_append(a.drop_first(), b);
        assert((a + b).drop_first() =~= a.drop_first() + b);
        assert((a + b)[0] == a[0]);
        assert(join(a + b) == a[0] + join(a.drop_first() + b));
        assert(join(a) == a[0] + join(a.drop_first()));
        assert(join(a + b) =~= join(a) + join(b));
    }
}

/// The text of the pieces is the text of those before piece `i`, piece `i`, and the
/// text of those after it.
pub proof fn lemma_join_split(pieces: Seq<Seq<char>>, i: int)
    requires
        0 <= i < pieces.len(),
    ensures
        join(pieces) == join(pieces.take(i)) + pieces[i] + join(pieces.skip(i + 1)),
        join(pieces.take(i + 1)) == join(pieces.take(i)) + pieces[i],
{
    let before = pieces.take(i);
    let after = pieces.skip(i + 1);
    assert(pieces =~= before + (seq![pieces[i]] + after));
    lemma_join_append(before, seq![pieces[i]] + after);
    assert((seq![pieces[i]] + after).drop_first() =~= after);
    assert(join(seq![pieces[i]] + after) == pieces[i] + join(after));
    assert(pieces.take(i + 1) =~= before + seq![pieces[i]]);
    lemma_join_append(before, seq![pieces[i]]);
    assert(seq![pieces[i]].drop_first() =~= Seq::<Seq<char>>::empty());
    assert(join(seq![pieces[i]]) == pieces[i] + join(Seq::<Seq<char>>::empty()));
    assert(join(seq![pieces[i]]) =~= pieces[i]);
    assert(join(pieces) =~= join(before) + pieces[i] + join(after));
}

} // verus!
