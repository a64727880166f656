//! Splitting text at a separator character.
use vstd::prelude::*;

verus! {

/// The pieces of `s` between occurrences of `sep`, in order; a text without
/// `sep` is one piece, and every occurrence adds one more.
pub open spec fn split(s: Seq<char>, sep: char) -> Seq<Seq<char>>
    decreases s.len(),
{
    if s.len() == 0 {
        seq![Seq::empty()]
    } else {
        let prev = split(s.drop_last(), sep);
        if s.last() == sep {
            prev.push(Seq::empty())
        } else {
            prev.update(prev.len() - 1, prev.last().push(s.last()))
        }
    }
}

/// There is always at least one piece.
pub proof fn lemma_split_nonempty(s: Seq<char>, sep: char)
    ensures
        split(s, sep).len() >= 1,
    decreases s.len(),
{
    if s.len() > 0 {
        lemma_split_nonempty(s.drop_last(), sep);
    }
}

/// `x` holds no `c`.
pub open spec fn free_of(x: Seq<char>, c: char) -> bool {
    forall|i: int| 0 <= i < x.len() ==> x[i] != c
}

/// A text without the separator is a single piece.
pub proof fn lemma_split_single(x: Seq<char>, sep: char)
    requires
        free_of(x, sep),
    ensures
        split(x, sep) == seq![x],
    decreases x.len(),
{
    if x.len() == 0 {
        assert(x =~= Seq::<char>::empty());
    } else {
        lemma_split_single(x.drop_last(), sep);
        assert(x.drop_last().push(x.last()) =~= x);
        assert(split(x, sep) =~= seq![x]);
    }
}

/// Splitting texts joined by the separator gives the pieces of each in turn.
pub proof fn lemma_split_join(x: Seq<char>, y: Seq<char>, sep: char)
    ensures
        split(x + seq![sep] + y, sep) == split(x, sep) + split(y, sep),
    decreases y.len(),
{
    let j = x + seq![sep] + y;
    lemma_split_nonempty(x, sep);
    if y.len() == 0 {
        assert(j.drop_last() =~= x);
        assert(split(y, sep) =~= seq![Seq::<char>::empty()]);
        assert(split(j, sep) =~= split(x, sep) + split(y, sep));
    } else {
        let y0 = y.drop_last();
        lemma_split_join(x, y0, sep);
        lemma_split_nonempty(y0, sep);
        assert(j.drop_last() =~= x + seq![sep] + y0);
        assert(j.last() == y.last());
        assert(split(j, sep) =~= split(x, sep) + split(y, sep));
    }
}

/// The views of a list of strings.
pub open spec fn views(v: Seq<String>) -> Seq<Seq<char>> {
    v.map_values(|x: String| x@)
}

/// Splits `s` at every occurrence of `sep`.
pub fn split_at_char(s: &str, sep: char) -> (r: Vec<String>)
    ensures
        views(r@) == split(s@, sep),
{
    let n = s.unicode_len();
    let mut pieces: Vec<String> = Vec::new();
    let mut start: usize = 0;
    let mut i: usize = 0;
    proof {
        assert(s@.subrange(0, 0) =~= Seq::<char>::empty());
        assert(views(pieces@).push(s@.subrange(0, 0)) =~= seq![Seq::<char>::empty()]);
    }
    while i < n
        invariant
            n == s@.len(),
            start <= i <= n,
            views(pieces@).push(s@.subrange(start as int, i as int)) == split(
                s@.subrange(0, i as int),
                sep,
            ),
        decreases n - i,
    {
        let c = s.get_char(i);
        proof {
            let t = s@.subrange(0, i + 1);
            assert(t.drop_last() =~= s@.subrange(0, i as int));
            assert(t.last() == c);
            lemma_split_nonempty(s@.subrange(0, i as int), sep);
            if c != sep {
                assert(s@.subrange(start as int, i + 1) =~= s@.subrange(start as int, i as int).push(
                    c,
                ));
                assert(views(pieces@).push(s@.subrange(start as int, i + 1)) =~= split(
                    s@.subrange(0, i as int),
                    sep,
                ).update(
                    views(pieces@).len() as int,
                    s@.subrange(start as int, i as int).push(c),
                ));
            }
        }
        if c == sep {
            let ghost before = views(pieces@);
            let piece = String::from_str(s.substring_char(start, i));
            pieces.push(piece);
            proof {
                assert(views(pieces@) =~= before.push(piece@));
                assert(s@.subrange(i + 1, i + 1) =~= Seq::<char>::empty());
            }
            start = i + 1;
        }
        i = i + 1;
    }
    let ghost before = views(pieces@);
    let last = String::from_str(s.substring_char(start, n));
    pieces.push(last);
    proof {
        assert(views(pieces@) =~= before.push(last@));
        assert(s@.subrange(0, n as int) =~= s@);
    }
    pieces
}

} // verus!
