//! The record format: the three fields of a feed item joined by a separator
//! character, and the split that reads them back.

use vstd::prelude::*;
use crate::text::push_char;

verus! {

/// The character that separates the fields of a stored record (U+1F914).
pub const SEPARATOR: char = '\u{1F914}';

/// The record of three fields: `a`, the separator, `b`, the separator, `c`.
pub open spec fn join_fields(a: Seq<char>, b: Seq<char>, c: Seq<char>) -> Seq<char> {
    a + seq![SEPARATOR] + b + seq![SEPARATOR] + c
}

/// The pieces of `s` between occurrences of `sep`, in order: what
/// `str::split` yields for a character pattern. There is always one piece
/// more than there are separators.
pub open spec fn split_chars(s: Seq<char>, sep: char) -> Seq<Seq<char>>
    decreases s.len(),
{
    if s.len() == 0 {
        seq![Seq::<char>::empty()]
    } else {
        let pieces = split_chars(s.drop_last(), sep);
        if s.last() == sep {
            pieces.push(Seq::<char>::empty())
        } else {
            pieces.update(pieces.len() - 1, pieces.last().push(s.last()))
        }
    }
}

pub proof fn lemma_split_nonempty(s: Seq<char>, sep: char)
    ensures
        split_chars(s, sep).len() >= 1,
    decreases s.len(),
{
    if s.len() > 0 {
        lemma_split_nonempty(s.drop_last(), sep);
    }
}

/// The pieces joined back, with the separator between consecutive pieces.
pub open spec fn join_pieces(pieces: Seq<Seq<char>>, sep: char) -> Seq<char>
    decreases pieces.len(),
{
    if pieces.len() <= 1 {
        if pieces.len() == 0 { Seq::<char>::empty() } else { pieces[0] }
    } else {
        join_pieces(pieces.drop_last(), sep) + seq![sep] + pieces.last()
    }
}

/// The three fields of a record: present exactly when the text splits into
/// three pieces.
pub open spec fn record_fields(s: Seq<char>) -> Option<(Seq<char>, Seq<char>, Seq<char>)> {
    let pieces = split_chars(s, SEPARATOR);
    if pieces.len() == 3 {
        Some((pieces[0], pieces[1], pieces[2]))
    } else {
        None
    }
}

/// Text without a separator is a single piece; text with one splits into
/// two pieces or more.
pub proof fn lemma_split_single(s: Seq<char>, sep: char)
    ensures
        (split_chars(s, sep).len() == 1) <==> !s.contains(sep),
        !s.contains(sep) ==> split_chars(s, sep) == seq![s],
    decreases s.len(),
{
    if s.len() > 0 {
        let p = s.drop_last();
        lemma_split_single(p, sep);
        lemma_split_nonempty(p, sep);
        if s.contains(sep) && !p.contains(sep) {
            let k = choose|k: int| 0 <= k < s.len() && s[k] == sep;
            if k < s.len() - 1 {
                assert(p[k] == sep);
            }
        }
        if p.contains(sep) {
            let k = choose|k: int| 0 <= k < p.len() && p[k] == sep;
            assert(s[k] == sep);
        }
        if s.last() == sep {
            assert(s[s.len() - 1] == sep);
        }
        if !s.contains(sep) {
            assert(s == p.push(s.last()));
            assert(seq![p].update(0, p.push(s.last())) == seq![s]);
        }
    } else {
        assert(!s.contains(sep));
        assert(s == Seq::<char>::empty());
    }
}

/// Splitting at a separator: the pieces of `x`, then those of `y`.
pub proof fn lemma_split_concat(x: Seq<char>, y: Seq<char>, sep: char)
    ensures
        split_chars(x + seq![sep] + y, sep) == split_chars(x, sep) + split_chars(y, sep),
    decreases y.len(),
{
    let xs = x + seq![sep];
    if y.len() == 0 {
        assert(xs + y == xs);
        assert(xs.drop_last() == x);
    } else {
        let y0 = y.drop_last();
        lemma_split_concat(x, y0, sep);
        lemma_split_nonempty(y0, sep);
        lemma_split_nonempty(x, sep);
        assert((xs + y).drop_last() == xs + y0);
        assert((xs + y).last() == y.last());
        let a = split_chars(x, sep);
        let b = split_chars(y0, sep);
        if y.last() == sep {
            assert((a + b).push(Seq::<char>::empty()) == a + b.push(Seq::<char>::empty()));
        } else {
            let nb = b.update(b.len() - 1, b.last().push(y.last()));
            assert((a + b).update((a + b).len() - 1, (a + b).last().push(y.last())) == a + nb);
        }
    }
}

/// Joining the pieces of `s` gives back `s`.
pub proof fn lemma_join_split(s: Seq<char>, sep: char)
    ensures
        join_pieces(split_chars(s, sep), sep) == s,
    decreases s.len(),
{
    if s.len() > 0 {
        let p = s.drop_last();
        lemma_join_split(p, sep);
        lemma_split_nonempty(p, sep);
        let ps = split_chars(p, sep);
        if s.last() == sep {
            let qs = ps.push(Seq::<char>::empty());
            assert(qs.drop_last() == ps);
            assert(join_pieces(qs, sep) == join_pieces(ps, sep) + seq![sep] + Seq::<char>::empty());
            assert(s == p + seq![sep]);
        } else {
            let qs = ps.update(ps.len() - 1, ps.last().push(s.last()));
            if ps.len() == 1 {
                assert(s == p.push(s.last()));
            } else {
                assert(qs.drop_last() == ps.drop_last());
                assert(join_pieces(ps, sep) == join_pieces(ps.drop_last(), sep) + seq![sep] + ps.last());
                assert(join_pieces(qs, sep) == join_pieces(ps.drop_last(), sep) + seq![sep] + ps.last().push(s.last()));
                assert(s == p.push(s.last()));
            }
        }
    }
}

/// Reading back a record written from three fields gives those fields, and
/// gives any fields at all only when none of the three holds the separator.
pub proof fn law_record_roundtrip(a: Seq<char>, b: Seq<char>, c: Seq<char>)
    ensures
        record_fields(join_fields(a, b, c)) is Some
            <==> (!a.contains(SEPARATOR) && !b.contains(SEPARATOR) && !c.contains(SEPARATOR)),
        (!a.contains(SEPARATOR) && !b.contains(SEPARATOR) && !c.contains(SEPARATOR))
            ==> record_fields(join_fields(a, b, c)) == Some((a, b, c)),
{
    let ab = a + seq![SEPARATOR] + b;
    lemma_split_concat(a, b, SEPARATOR);
    lemma_split_concat(ab, c, SEPARATOR);
    lemma_split_single(a, SEPARATOR);
    lemma_split_single(b, SEPARATOR);
    lemma_split_single(c, SEPARATOR);
    lemma_split_nonempty(a, SEPARATOR);
    lemma_split_nonempty(b, SEPARATOR);
    lemma_split_nonempty(c, SEPARATOR);
    let pieces = split_chars(a, SEPARATOR) + split_chars(b, SEPARATOR) + split_chars(c, SEPARATOR);
    assert(split_chars(join_fields(a, b, c), SEPARATOR) == pieces);
    if !a.contains(SEPARATOR) && !b.contains(SEPARATOR) && !c.contains(SEPARATOR) {
        assert(pieces == seq![a, b, c]);
    }
}

/// A record read as three fields is exactly those fields joined again.
pub proof fn law_record_fields_rejoin(s: Seq<char>)
    ensures
        record_fields(s) matches Some((a, b, c)) ==> join_fields(a, b, c) == s,
{
    lemma_join_split(s, SEPARATOR);
    let ps = split_chars(s, SEPARATOR);
    if ps.len() == 3 {
        assert(ps.drop_last().drop_last() == seq![ps[0]]);
        assert(ps.drop_last().last() == ps[1]);
        reveal_with_fuel(join_pieces, 3);
        assert(join_pieces(ps.drop_last(), SEPARATOR) == ps[0] + seq![SEPARATOR] + ps[1]);
    }
}

/// Reads the three fields of a record, or `None` when the text does not split
/// into exactly three pieces.
pub fn parse_record(s: &str) -> (res: Option<(String, String, String)>)
    ensures
        match (res, record_fields(s@)) {
            (Some((a, b, c)), Some((x, y, z))) => a@ == x && b@ == y && c@ == z,
            (None, None) => true,
            _ => false,
        },
{
    let mut pieces = split_fields(s);
    if pieces.len() == 3 {
        let ghost views = pieces@.map_values(|p: String| p@);
        let c = pieces.pop().unwrap();
        let b = pieces.pop().unwrap();
        let a = pieces.pop().unwrap();
        assert(views[0] == a@ && views[1] == b@ && views[2] == c@);
        Some((a, b, c))
    } else {
        None
    }
}

/// Splits `s` at every separator character.
pub fn split_fields(s: &str) -> (pieces: Vec<String>)
    ensures
        pieces@.map_values(|p: String| p@) == split_chars(s@, SEPARATOR),
{
    let mut pieces: Vec<String> = Vec::new();
    let mut cur = String::new();
    broadcast use vstd::string::group_string_axioms;
    for c in it: s.chars()
        invariant
            it.seq() == s@,
            pieces@.map_values(|p: String| p@).push(cur@)
                == split_chars(it.seq().take(it.index() as int), SEPARATOR),
    {
        proof { lemma_split_nonempty(it.seq().take(it.index() as int), SEPARATOR); }
        if c == SEPARATOR {
            pieces.push(cur);
            cur = String::new();
        } else {
            push_char(&mut cur, c);
        }
        assert(it.seq().take(it.index() + 1).drop_last() == it.seq().take(it.index() as int));
    }
    assert(s@.take(s@.len() as int) == s@);
    pieces.push(cur);
    pieces
}

} // verus!
