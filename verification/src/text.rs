//! Splitting strings on a separator character, and putting them back together.
use vstd::prelude::*;
use vstd::string::*;

verus! {

/// The pieces of `s` between occurrences of `sep`, in order, as `str::split` with a
/// one-character pattern yields them: `n` separators give `n + 1` pieces, and the empty
/// string gives one empty piece.
pub open spec fn split_by(s: Seq<char>, sep: char) -> Seq<Seq<char>>
    decreases s.len(),
{
    if s.len() == 0 {
        seq![Seq::<char>::empty()]
    } else {
        let prev = split_by(s.drop_last(), sep);
        if s.last() == sep {
            prev.push(Seq::<char>::empty())
        } else {
            prev.update(prev.len() - 1, prev.last().push(s.last()))
        }
    }
}

/// The pieces written one after another with `sep` between neighbours.
pub open spec fn join_with(pieces: Seq<Seq<char>>, sep: char) -> Seq<char>
    decreases pieces.len(),
{
    if pieces.len() == 0 {
        Seq::<char>::empty()
    } else if pieces.len() == 1 {
        pieces[0]
    } else {
        join_with(pieces.drop_last(), sep).push(sep) + pieces.last()
    }
}

/// The number of times `c` occurs in `s`.
pub open spec fn count_char(s: Seq<char>, c: char) -> nat
    decreases s.len(),
{
    if s.len() == 0 {
        0
    } else {
        count_char(s.drop_last(), c) + if s.last() == c { 1nat } else { 0nat }
    }
}

/// Splitting always yields at least one piece.
pub proof fn lemma_split_nonempty(s: Seq<char>, sep: char)
    ensures
        split_by(s, sep).len() >= 1,
    decreases s.len(),
{
    if s.len() > 0 {
        lemma_split_nonempty(s.drop_last(), sep);
    }
}

/// Law: splitting on `sep` yields one piece more than there are separators.
pub proof fn lemma_split_count(s: Seq<char>, sep: char)
    ensures
        split_by(s, sep).len() == count_char(s, sep) + 1,
    decreases s.len(),
{
    if s.len() > 0 {
        lemma_split_count(s.drop_last(), sep);
        lemma_split_nonempty(s.drop_last(), sep);
    }
}

/// Law: no piece holds the separator.
pub proof fn lemma_split_pieces_free_of_sep(s: Seq<char>, sep: char)
    ensures
        forall|i: int|
            0 <= i < split_by(s, sep).len() ==> !(#[trigger] split_by(s, sep)[i]).contains(sep),
    decreases s.len(),
{
    if s.len() > 0 {
        let prev = split_by(s.drop_last(), sep);
        lemma_split_pieces_free_of_sep(s.drop_last(), sep);
        lemma_split_nonempty(s.drop_last(), sep);
        let cur = split_by(s, sep);
        assert forall|i: int| 0 <= i < cur.len() implies !(#[trigger] cur[i]).contains(sep) by {
            if s.last() != sep && i == prev.len() - 1 {
                let p = prev.last().push(s.last());
                assert(cur[i] == p);
                if p.contains(sep) {
                    let k = choose|k: int| 0 <= k < p.len() && p[k] == sep;
                    if k < prev.last().len() {
                        assert(prev[prev.len() - 1][k] == sep);
                    }
                }
            } else if i < prev.len() {
                assert(cur[i] == prev[i]);
            } else {
                assert(cur[i] == Seq::<char>::empty());
            }
        }
    }
}

/// Appending a character to the last piece appends it to the joined text.
proof fn lemma_join_extend_last(pieces: Seq<Seq<char>>, sep: char, c: char)
    requires
        pieces.len() >= 1,
    ensures
        join_with(pieces.update(pieces.len() - 1, pieces.last().push(c)), sep)
            == join_with(pieces, sep).push(c),
{
    let up = pieces.update(pieces.len() - 1, pieces.last().push(c));
    if pieces.len() == 1 {
    } else {
        assert(up.drop_last() =~= pieces.drop_last());
        assert(join_with(up, sep) == join_with(up.drop_last(), sep).push(sep) + up.last());
        assert(join_with(up, sep) =~= join_with(pieces, sep).push(c));
    }
}

/// Law: joining the pieces with the separator gives back the text that was split.
pub proof fn lemma_join_split(s: Seq<char>, sep: char)
    ensures
        join_with(split_by(s, sep), sep) == s,
    decreases s.len(),
{
    if s.len() > 0 {
        let prev = split_by(s.drop_last(), sep);
        lemma_join_split(s.drop_last(), sep);
        lemma_split_nonempty(s.drop_last(), sep);
        if s.last() == sep {
            let cur = prev.push(Seq::<char>::empty());
            assert(cur.drop_last() =~= prev);
            assert(join_with(cur, sep) =~= s);
        } else {
            lemma_join_extend_last(prev, sep, s.last());
            assert(s.drop_last().push(s.last()) =~= s);
        }
    }
}

/// Law: a text without the separator is one piece, itself.
pub proof fn lemma_split_without_sep(s: Seq<char>, sep: char)
    requires
        !s.contains(sep),
    ensures
        split_by(s, sep) == seq![s],
    decreases s.len(),
{
    if s.len() > 0 {
        assert(!s.drop_last().contains(sep)) by {
            if s.drop_last().contains(sep) {
                let k = choose|k: int| 0 <= k < s.drop_last().len() && s.drop_last()[k] == sep;
                assert(s[k] == sep);
            }
        }
        lemma_split_without_sep(s.drop_last(), sep);
        assert(s.last() != sep) by {
            assert(s[s.len() - 1] == s.last());
        }
        assert(s.drop_last().push(s.last()) =~= s);
        assert(split_by(s, sep) =~= seq![s]);
    } else {
        assert(s =~= Seq::<char>::empty());
        assert(split_by(s, sep) =~= seq![s]);
    }
}

/// Splits `s` at every occurrence of `sep`, as `s.split(sep)` collected into strings.
pub fn split(s: &str, sep: char) -> (pieces: Vec<String>)
    ensures
        pieces.deep_view() =~= split_by(s@, sep),
{
    let n = s.unicode_len();
    let mut pieces: Vec<String> = Vec::new();
    let mut start: usize = 0;
    let mut i: usize = 0;
    proof {
        assert(s@.take(0) =~= Seq::<char>::empty());
        assert(pieces.deep_view() =~= Seq::<Seq<char>>::empty());
        assert(split_by(s@.take(0), sep) =~= pieces.deep_view().push(s@.subrange(0, 0)));
    }
    while i < n
        invariant
            n == s@.len(),
            start <= i <= n,
            split_by(s@.take(i as int), sep) =~= pieces.deep_view().push(
                s@.subrange(start as int, i as int),
            ),
        decreases n - i,
    {
        let c = s.get_char(i);
        proof {
            assert(s@.take(i + 1).drop_last() =~= s@.take(i as int));
            assert(s@.take(i + 1).last() == c);
        }
        let ghost before = pieces.deep_view();
        if c == sep {
            let piece = s.substring_char(start, i);
            pieces.push(String::from_str(piece));
            proof {
                assert(pieces.deep_view() =~= before.push(s@.subrange(start as int, i as int)));
                assert(s@.subrange(i + 1, i + 1) =~= Seq::<char>::empty());
            }
            start = i + 1;
        } else {
            proof {
                assert(s@.subrange(start as int, i as int).push(c) =~= s@.subrange(
                    start as int,
                    i + 1,
                ));
            }
        }
        i = i + 1;
    }
    let last = s.substring_char(start, n);
    let ghost before = pieces.deep_view();
    pieces.push(String::from_str(last));
    proof {
        assert(pieces.deep_view() =~= before.push(s@.subrange(start as int, n as int)));
        assert(s@.take(n as int) =~= s@);
    }
    pieces
}

/// The pieces written one after another, as collecting string pieces into a `String` does.
pub fn concat_pieces(pieces: &Vec<String>) -> (joined: String)
    ensures
        joined@ == pieces.deep_view().flatten(),
{
    let mut joined = String::new();
    let mut i: usize = 0;
    while i < pieces.len()
        invariant
            i <= pieces.len(),
            joined@ == pieces.deep_view().take(i as int).flatten_alt(),
        decreases pieces.len() - i,
    {
        joined.append(pieces[i].as_str());
        proof {
            assert(pieces.deep_view().take(i + 1).drop_last() =~= pieces.deep_view().take(
                i as int,
            ));
        }
        i = i + 1;
    }
    proof {
        assert(pieces.deep_view().take(pieces.len() as int) =~= pieces.deep_view());
        pieces.deep_view().lemma_flatten_and_flatten_alt_are_equivalent();
    }
    joined
}

} // verus!
