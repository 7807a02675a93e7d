//! Replacing and splitting text.
use vstd::prelude::*;

verus! {

/// Whether `s` begins with `pat`.
pub open spec fn begins_with(s: Seq<char>, pat: Seq<char>) -> bool {
    pat.len() <= s.len() && s.take(pat.len() as int) == pat
}

/// `s` with every occurrence of `pat` replaced by `rep`, scanning from the
/// left: an occurrence is replaced as a whole, and the scan goes on after it.
pub open spec fn replaced(s: Seq<char>, pat: Seq<char>, rep: Seq<char>) -> Seq<char>
    decreases s.len(),
{
    if s.len() == 0 {
        Seq::empty()
    } else if pat.len() > 0 && begins_with(s, pat) {
        rep + replaced(s.skip(pat.len() as int), pat, rep)
    } else {
        seq![s[0]] + replaced(s.drop_first(), pat, rep)
    }
}

/// The pieces of `s` between the occurrences of the separator `sep`, in
/// order; empty pieces included, so there is one piece more than there are
/// separators.
pub open spec fn pieces(s: Seq<char>, sep: char) -> Seq<Seq<char>>
    decreases s.len(),
{
    if s.len() == 0 {
        seq![Seq::empty()]
    } else {
        let rest = pieces(s.drop_last(), sep);
        if s.last() == sep {
            rest.push(Seq::empty())
        } else {
            rest.update(rest.len() - 1, rest.last().push(s.last()))
        }
    }
}

/// Whether `w` is one of the words of `s`, the pieces between its spaces.
pub open spec fn has_word(s: Seq<char>, w: Seq<char>) -> bool {
    pieces(s, ' ').contains(w)
}

/// Something is in two sequences one after the other exactly when it is in
/// one of them.
pub proof fn lemma_contains_concat<A>(a: Seq<A>, b: Seq<A>, x: A)
    ensures
        (a + b).contains(x) <==> a.contains(x) || b.contains(x),
{
    if a.contains(x) {
        let i = choose|i: int| 0 <= i < a.len() && a[i] == x;
        assert((a + b)[i] == x);
    }
    if b.contains(x) {
        let i = choose|i: int| 0 <= i < b.len() && b[i] == x;
        assert((a + b)[a.len() + i] == x);
    }
    if (a + b).contains(x) {
        let i = choose|i: int| 0 <= i < (a + b).len() && (a + b)[i] == x;
        if i < a.len() {
            assert(a[i] == x);
        } else {
            assert(b[i - a.len()] == x);
        }
    }
}

/// There is always at least one piece.
pub proof fn lemma_pieces_nonempty(s: Seq<char>, sep: char)
    ensures
        pieces(s, sep).len() > 0,
    decreases s.len(),
{
    if s.len() > 0 {
        lemma_pieces_nonempty(s.drop_last(), sep);
    }
}

/// Whether `pat` occurs in `s` at position `i`.
fn occurs_at(s: &str, len: usize, pat: &str, plen: usize, i: usize) -> (res: bool)
    requires
        len == s@.len(),
        plen == pat@.len(),
        i <= len,
    ensures
        res == begins_with(s@.skip(i as int), pat@),
{
    if plen > len - i {
        return false;
    }
    let mut j: usize = 0;
    while j < plen
        invariant
            j <= plen,
            plen <= len - i,
            len == s@.len(),
            plen == pat@.len(),
            forall|k: int| 0 <= k < j ==> s@[i + k] == pat@[k],
        decreases plen - j,
    {
        if s.get_char(i + j) != pat.get_char(j) {
            assert(s@.skip(i as int).take(plen as int)[j as int] != pat@[j as int]);
            return false;
        }
        j = j + 1;
    }
    assert(s@.skip(i as int).take(plen as int) =~= pat@);
    true
}

/// `s` with every occurrence of `pat` replaced by `rep`, as `str::replace`
/// does it.
pub fn replace(s: &str, pat: &str, rep: &str) -> (res: String)
    requires
        pat@.len() > 0,
    ensures
        res@ == replaced(s@, pat@, rep@),
{
    let len = s.unicode_len();
    let plen = pat.unicode_len();
    let mut res = String::new();
    let mut i: usize = 0;
    assert(s@.skip(0) =~= s@);
    while i < len
        invariant
            i <= len,
            len == s@.len(),
            plen == pat@.len(),
            plen > 0,
            res@ + replaced(s@.skip(i as int), pat@, rep@) == replaced(s@, pat@, rep@),
        decreases len - i,
    {
        let ghost rest = s@.skip(i as int);
        if occurs_at(s, len, pat, plen, i) {
            res.append(rep);
            assert(rest.skip(plen as int) =~= s@.skip(i + plen));
            assert(res@ + replaced(s@.skip(i + plen), pat@, rep@) =~= replaced(s@, pat@, rep@));
            i = i + plen;
        } else {
            res.append(s.substring_char(i, i + 1));
            assert(rest.drop_first() =~= s@.skip(i + 1));
            assert(s@.subrange(i as int, i + 1) =~= seq![rest[0]]);
            assert(res@ + replaced(s@.skip(i + 1), pat@, rep@) =~= replaced(s@, pat@, rep@));
            i = i + 1;
        }
    }
    assert(s@.skip(len as int) =~= Seq::<char>::empty());
    assert(res@ =~= replaced(s@, pat@, rep@));
    res
}

/// The pieces of `s` between the occurrences of `sep`, as `str::split` with
/// a character gives them.
pub fn split(s: &str, sep: char) -> (res: Vec<String>)
    ensures
        res@.map_values(|p: String| p@) == pieces(s@, sep),
{
    let len = s.unicode_len();
    let mut res: Vec<String> = Vec::new();
    let mut start: usize = 0;
    let mut i: usize = 0;
    assert(s@.take(0) =~= Seq::<char>::empty());
    assert(pieces(s@.take(0), sep) =~= seq![Seq::<char>::empty()]);
    while i < len
        invariant
            start <= i <= len,
            len == s@.len(),
            res@.map_values(|p: String| p@).push(s@.subrange(start as int, i as int)) == pieces(
                s@.take(i as int),
                sep,
            ),
        decreases len - i,
    {
        let ghost before = pieces(s@.take(i as int), sep);
        let c = s.get_char(i);
        assert(s@.take(i + 1).drop_last() =~= s@.take(i as int));
        assert(s@.take(i + 1).last() == c);
        if c == sep {
            let ghost old_map = res@.map_values(|p: String| p@);
            let piece = String::from_str(s.substring_char(start, i));
            res.push(piece);
            assert(res@.map_values(|p: String| p@) =~= old_map.push(s@.subrange(start as int, i as int)));
            start = i + 1;
            assert(s@.subrange(start as int, i + 1) =~= Seq::<char>::empty());
            assert(res@.map_values(|p: String| p@).push(s@.subrange(start as int, i + 1)) =~= before.push(Seq::empty()));
        } else {
            assert(s@.subrange(start as int, i + 1) =~= s@.subrange(start as int, i as int).push(c));
            assert(res@.map_values(|p: String| p@).push(s@.subrange(start as int, i + 1)) =~= before.update(before.len() - 1, before.last().push(c)));
        }
        i = i + 1;
    }
    let last = String::from_str(s.substring_char(start, len));
    res.push(last);
    assert(s@.take(len as int) =~= s@);
    assert(res@.map_values(|p: String| p@) =~= pieces(s@, sep));
    res
}

/// Where `pat` begins at no position of `x`, replacing in `x + y` keeps `x`
/// and replaces in `y`.
pub proof fn lemma_replaced_keeps_prefix(x: Seq<char>, y: Seq<char>, pat: Seq<char>, rep: Seq<char>)
    requires
        pat.len() > 0,
        forall|i: int| 0 <= i < x.len() ==> !begins_with(#[trigger] (x + y).skip(i), pat),
    ensures
        replaced(x + y, pat, rep) == x + replaced(y, pat, rep),
    decreases x.len(),
{
    if x.len() == 0 {
        assert(x + y =~= y);
        assert(x + replaced(y, pat, rep) =~= replaced(y, pat, rep));
    } else {
        let xy = x + y;
        assert(xy.skip(0) =~= xy);
        assert(!begins_with(xy, pat));
        let xd = x.drop_first();
        assert(xy.drop_first() =~= xd + y);
        assert forall|i: int| 0 <= i < xd.len() implies !begins_with(#[trigger] (xd + y).skip(i), pat) by {
            assert((xd + y).skip(i) =~= xy.skip(i + 1));
        }
        lemma_replaced_keeps_prefix(xd, y, pat, rep);
        assert(x =~= seq![x[0]] + xd);
        assert(x + replaced(y, pat, rep) =~= seq![x[0]] + (xd + replaced(y, pat, rep)));
    }
}

/// An occurrence of `pat` at the start is replaced by `rep`.
pub proof fn lemma_replaced_occurrence(y: Seq<char>, pat: Seq<char>, rep: Seq<char>)
    requires
        pat.len() > 0,
    ensures
        replaced(pat + y, pat, rep) == rep + replaced(y, pat, rep),
{
    assert((pat + y).take(pat.len() as int) =~= pat);
    assert((pat + y).skip(pat.len() as int) =~= y);
}

/// Text in which `pat` begins nowhere is left as it is.
pub proof fn lemma_replaced_nothing(x: Seq<char>, pat: Seq<char>, rep: Seq<char>)
    requires
        pat.len() > 0,
        forall|i: int| 0 <= i < x.len() ==> !begins_with(#[trigger] x.skip(i), pat),
    ensures
        replaced(x, pat, rep) == x,
{
    let e = Seq::<char>::empty();
    assert(x + e =~= x);
    lemma_replaced_keeps_prefix(x, e, pat, rep);
    assert(replaced(e, pat, rep) =~= e);
}

/// Text without the separator is a single piece.
pub proof fn lemma_pieces_single(b: Seq<char>, sep: char)
    requires
        !b.contains(sep),
    ensures
        pieces(b, sep) == seq![b],
    decreases b.len(),
{
    if b.len() == 0 {
        assert(b =~= Seq::<char>::empty());
        assert(pieces(b, sep) =~= seq![b]);
    } else {
        assert(!b.drop_last().contains(sep)) by {
            if b.drop_last().contains(sep) {
                let k = choose|k: int| 0 <= k < b.drop_last().len() && b.drop_last()[k] == sep;
                assert(b[k] == sep);
            }
        }
        lemma_pieces_single(b.drop_last(), sep);
        assert(b.last() != sep) by {
            assert(b[b.len() - 1] == b.last());
        }
        assert(b.drop_last().push(b.last()) =~= b);
        let rest = pieces(b.drop_last(), sep);
        assert(rest.last() == b.drop_last());
        assert(pieces(b, sep) == rest.update(rest.len() - 1, rest.last().push(b.last())));
        assert(pieces(b, sep) =~= seq![b]);
    }
}

/// The pieces after a separator follow the pieces before it.
pub proof fn lemma_pieces_append(a: Seq<char>, b: Seq<char>, sep: char)
    ensures
        pieces(a.push(sep) + b, sep) == pieces(a, sep) + pieces(b, sep),
    decreases b.len(),
{
    lemma_pieces_nonempty(b, sep);
    if b.len() == 0 {
        assert(a.push(sep) + b =~= a.push(sep));
        assert(a.push(sep).drop_last() =~= a);
        assert(pieces(a.push(sep) + b, sep) =~= pieces(a, sep) + pieces(b, sep));
    } else {
        let s = a.push(sep) + b;
        assert(s.drop_last() =~= a.push(sep) + b.drop_last());
        assert(s.last() == b.last());
        lemma_pieces_append(a, b.drop_last(), sep);
        lemma_pieces_nonempty(b.drop_last(), sep);
        let pa = pieces(a, sep);
        let pb = pieces(b.drop_last(), sep);
        if b.last() == sep {
            assert((pa + pb).push(Seq::empty()) =~= pa + pb.push(Seq::empty()));
        } else {
            assert((pa + pb).update((pa + pb).len() - 1, (pa + pb).last().push(b.last())) =~= pa
                + pb.update(pb.len() - 1, pb.last().push(b.last())));
        }
    }
}

} // verus!
