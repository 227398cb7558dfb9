//! Character-level text operations used by the naming and logging modules:
//! splitting on the `::` path separator, joining with a separator, and
//! prefix tests, each with a specification over `Seq<char>`.
use vstd::prelude::*;

verus! {

/// Whether a `::` separator starts at position `i` of `s`.
pub open spec fn separator_at(s: Seq<char>, i: int) -> bool {
    0 <= i && i + 1 < s.len() && s[i] == ':' && s[i + 1] == ':'
}

/// The pieces of `s` from the piece that began at `start`, scanning from
/// position `i`: each `::` found left to right ends the current piece,
/// and what is left after the last one is the final piece.
pub open spec fn split_from(s: Seq<char>, start: int, i: int) -> Seq<Seq<char>>
    decreases s.len() - i,
{
    if i < 0 || i >= s.len() {
        seq![s.subrange(start, s.len() as int)]
    } else if separator_at(s, i) {
        seq![s.subrange(start, i)] + split_from(s, i + 2, i + 2)
    } else {
        split_from(s, start, i + 1)
    }
}

/// `s` split on every `::`, leftmost first, matches not overlapping
/// (what `str::split("::")` yields).
pub open spec fn split_path(s: Seq<char>) -> Seq<Seq<char>> {
    split_from(s, 0, 0)
}

/// Like `split_path`, but a final empty piece is left out
/// (what `str::split_terminator("::")` yields).
pub open spec fn split_path_terminator(s: Seq<char>) -> Seq<Seq<char>> {
    let pieces = split_path(s);
    if pieces.len() > 0 && pieces.last().len() == 0 {
        pieces.drop_last()
    } else {
        pieces
    }
}

/// The pieces of `list` with `sep` between each two neighbours.
pub open spec fn join(list: Seq<Seq<char>>, sep: Seq<char>) -> Seq<char>
    decreases list.len(),
{
    if list.len() == 0 {
        seq![]
    } else if list.len() == 1 {
        list[0]
    } else {
        join(list.drop_last(), sep) + sep + list.last()
    }
}

/// Whether `prefix` is a prefix of `s`.
pub open spec fn has_prefix(s: Seq<char>, prefix: Seq<char>) -> bool {
    prefix.len() <= s.len() && s.subrange(0, prefix.len() as int) == prefix
}

/// The views of a sequence of strings.
pub open spec fn string_views(v: Seq<String>) -> Seq<Seq<char>> {
    Seq::new(v.len(), |i: int| v[i]@)
}

/// Every split has at least one piece.
pub proof fn lemma_split_from_nonempty(s: Seq<char>, start: int, i: int)
    ensures
        split_from(s, start, i).len() >= 1,
    decreases s.len() - i,
{
    if i < 0 || i >= s.len() {
    } else if separator_at(s, i) {
        lemma_split_from_nonempty(s, i + 2, i + 2);
    } else {
        lemma_split_from_nonempty(s, start, i + 1);
    }
}

/// The first piece of a split: either the whole rest of the text (one piece
/// only), or the text up to the first separator at or after `i`.
pub proof fn lemma_split_from_first(s: Seq<char>, start: int, i: int)
    requires
        0 <= start <= i,
        start <= s.len(),
    ensures
        split_from(s, start, i).len() == 1 ==> split_from(s, start, i)[0] == s.subrange(
            start,
            s.len() as int,
        ),
        split_from(s, start, i).len() > 1 ==> {
            let k = start + split_from(s, start, i)[0].len();
            &&& i <= k
            &&& separator_at(s, k)
            &&& split_from(s, start, i)[0] == s.subrange(start, k)
        },
    decreases s.len() - i,
{
    if i >= s.len() {
    } else if separator_at(s, i) {
        lemma_split_from_nonempty(s, i + 2, i + 2);
    } else {
        lemma_split_from_first(s, start, i + 1);
    }
}

/// Joining a first piece onto a non-empty rest puts the separator between them.
pub proof fn lemma_join_prepend(x: Seq<char>, rest: Seq<Seq<char>>, sep: Seq<char>)
    requires
        rest.len() >= 1,
    ensures
        join(seq![x] + rest, sep) == x + sep + join(rest, sep),
    decreases rest.len(),
{
    let all = seq![x] + rest;
    if rest.len() == 1 {
        assert(all.drop_last() =~= seq![x]);
        assert(all.last() == rest[0]);
        assert(join(seq![x], sep) == x);
        assert(join(rest, sep) == rest[0]);
        assert(join(all, sep) == join(all.drop_last(), sep) + sep + all.last());
    } else {
        assert(all.drop_last() =~= seq![x] + rest.drop_last());
        assert(all.last() == rest.last());
        lemma_join_prepend(x, rest.drop_last(), sep);
        assert(join(all, sep) == join(all.drop_last(), sep) + sep + all.last());
        assert(join(rest, sep) == join(rest.drop_last(), sep) + sep + rest.last());
        assert(x + sep + join(rest.drop_last(), sep) + sep + rest.last() =~= x + sep + (join(
            rest.drop_last(),
            sep,
        ) + sep + rest.last()));
    }
}

/// Joining the pieces of a split with `::` gives back the text split.
pub proof fn lemma_join_split_from(s: Seq<char>, start: int, i: int)
    requires
        0 <= start <= i,
        start <= s.len(),
    ensures
        join(split_from(s, start, i), "::"@) == s.subrange(start, s.len() as int),
    decreases s.len() - i,
{
    reveal_strlit("::");
    if i >= s.len() {
    } else if separator_at(s, i) {
        lemma_split_from_nonempty(s, i + 2, i + 2);
        lemma_join_split_from(s, i + 2, i + 2);
        lemma_join_prepend(s.subrange(start, i), split_from(s, i + 2, i + 2), "::"@);
        assert(s.subrange(start, i) + "::"@ + s.subrange(i + 2, s.len() as int) =~= s.subrange(
            start,
            s.len() as int,
        ));
    } else {
        lemma_join_split_from(s, start, i + 1);
    }
}

/// Splitting on `::` and joining again with `::` gives back the text.
pub proof fn lemma_join_split_path(s: Seq<char>)
    ensures
        join(split_path(s), "::"@) == s,
{
    lemma_join_split_from(s, 0, 0);
    assert(s.subrange(0, s.len() as int) =~= s);
}

/// Whether `s` ends with `::`.
pub open spec fn ends_with_separator(s: Seq<char>) -> bool {
    separator_at(s, s.len() - 2)
}

/// The last piece of a split is the text after the last separator: it
/// starts where the piece began or just after a separator.
pub proof fn lemma_split_from_last(s: Seq<char>, start: int, i: int)
    requires
        0 <= start <= i,
        start <= s.len(),
    ensures
        exists|j: int|
            start <= j <= s.len() && split_from(s, start, i).last() == s.subrange(j, s.len() as int)
                && (j == start || separator_at(s, j - 2)),
    decreases s.len() - i,
{
    if i >= s.len() {
        assert(split_from(s, start, i).last() == s.subrange(start, s.len() as int));
    } else if separator_at(s, i) {
        lemma_split_from_nonempty(s, i + 2, i + 2);
        lemma_split_from_last(s, i + 2, i + 2);
        let j = choose|j: int|
            i + 2 <= j <= s.len() && split_from(s, i + 2, i + 2).last() == s.subrange(
                j,
                s.len() as int,
            ) && (j == i + 2 || separator_at(s, j - 2));
        assert(split_from(s, start, i).last() == split_from(s, i + 2, i + 2).last());
        assert(separator_at(s, j - 2));
    } else {
        lemma_split_from_last(s, start, i + 1);
    }
}

/// A non-empty text that does not end with `::` keeps all its pieces when
/// split with `split_terminator`, so joining them gives back the text.
pub proof fn lemma_join_split_path_terminator(s: Seq<char>)
    requires
        s.len() > 0,
        !ends_with_separator(s),
    ensures
        split_path_terminator(s) == split_path(s),
        split_path(s).len() >= 1,
        join(split_path_terminator(s), "::"@) == s,
{
    lemma_split_from_nonempty(s, 0, 0);
    lemma_split_from_last(s, 0, 0);
    let j = choose|j: int|
        0 <= j <= s.len() && split_from(s, 0, 0).last() == s.subrange(j, s.len() as int) && (j == 0
            || separator_at(s, j - 2));
    if j == s.len() {
        assert(j != 0);
        assert(separator_at(s, s.len() - 2));
    }
    assert(split_path(s).last().len() > 0);
    lemma_join_split_path(s);
}

/// Splits `s` on every `::`, as `str::split("::")` does.
pub fn split_on_path_separator(s: &str) -> (pieces: Vec<String>)
    ensures
        string_views(pieces@) == split_path(s@),
{
    let n = s.unicode_len();
    let mut pieces: Vec<String> = Vec::new();
    let mut start: usize = 0;
    let mut i: usize = 0;
    while i < n
        invariant
            n == s@.len(),
            start <= i <= n,
            string_views(pieces@) + split_from(s@, start as int, i as int) == split_path(s@),
        decreases n - i,
    {
        if i + 1 < n && s.get_char(i) == ':' && s.get_char(i + 1) == ':' {
            let piece = String::from_str(s.substring_char(start, i));
            proof {
                assert(separator_at(s@, i as int));
                assert(string_views(pieces@.push(piece)) =~= string_views(pieces@).push(piece@));
                assert(split_from(s@, start as int, i as int) == seq![s@.subrange(start as int, i as int)]
                    + split_from(s@, i + 2, i + 2));
                assert(string_views(pieces@.push(piece)) + split_from(s@, i + 2, i + 2)
                    =~= string_views(pieces@) + split_from(s@, start as int, i as int));
            }
            pieces.push(piece);
            start = i + 2;
            i = i + 2;
        } else {
            proof {
                assert(!separator_at(s@, i as int));
            }
            i = i + 1;
        }
    }
    let last = String::from_str(s.substring_char(start, n));
    proof {
        assert(split_from(s@, start as int, i as int) == seq![s@.subrange(start as int, n as int)]);
        assert(string_views(pieces@.push(last)) =~= string_views(pieces@).push(last@));
    }
    pieces.push(last);
    proof {
        assert(string_views(pieces@) =~= split_path(s@));
    }
    pieces
}

/// Splits `s` on every `::`, leaving out a final empty piece, as
/// `str::split_terminator("::")` does.
pub fn split_terminator_on_path_separator(s: &str) -> (pieces: Vec<String>)
    ensures
        string_views(pieces@) == split_path_terminator(s@),
{
    let mut pieces = split_on_path_separator(s);
    let len = pieces.len();
    if len > 0 && pieces[len - 1].unicode_len() == 0 {
        let _ = pieces.pop();
        proof {
            assert(string_views(pieces@) =~= split_path(s@).drop_last());
        }
    }
    pieces
}

/// The pieces of `list` joined with `sep` between neighbours.
pub fn join_strings(list: &[String], sep: &str) -> (joined: String)
    ensures
        joined@ == join(string_views(list@), sep@),
{
    let mut joined = String::new();
    let n = list.len();
    let mut i: usize = 0;
    while i < n
        invariant
            n == list@.len(),
            i <= n,
            joined@ == join(string_views(list@).take(i as int), sep@),
        decreases n - i,
    {
        proof {
            let views = string_views(list@);
            assert(views.take(i + 1).drop_last() =~= views.take(i as int));
            assert(views.take(i + 1).last() == list@[i as int]@);
        }
        if i > 0 {
            joined.append(sep);
        }
        joined.append(list[i].as_str());
        proof {
            let views = string_views(list@);
            if i == 0 {
                assert(views.take(1) =~= seq![list@[0]@]);
            }
        }
        i = i + 1;
    }
    proof {
        assert(string_views(list@).take(n as int) =~= string_views(list@));
    }
    joined
}

/// Whether `prefix` is a prefix of `s`.
pub fn starts_with(s: &str, prefix: &str) -> (r: bool)
    ensures
        r == has_prefix(s@, prefix@),
{
    let n = s.unicode_len();
    let m = prefix.unicode_len();
    if m > n {
        return false;
    }
    let mut i: usize = 0;
    while i < m
        invariant
            n == s@.len(),
            m == prefix@.len(),
            m <= n,
            i <= m,
            forall|j: int| 0 <= j < i ==> s@[j] == prefix@[j],
        decreases m - i,
    {
        if s.get_char(i) != prefix.get_char(i) {
            proof {
                assert(s@.subrange(0, m as int)[i as int] != prefix@[i as int]);
            }
            return false;
        }
        i = i + 1;
    }
    proof {
        assert(s@.subrange(0, m as int) =~= prefix@);
    }
    true
}

} // verus!
