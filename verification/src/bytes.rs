//! Helpers on byte strings.

use vstd::prelude::*;
use vstd::slice::slice_subrange;

verus! {

/// Whether two byte strings hold the same bytes.
pub fn bytes_eq(a: &[u8], b: &[u8]) -> (r: bool)
    ensures
        r == (a@ == b@),
{
    if a.len() != b.len() {
        return false;
    }
    let mut i: usize = 0;
    while i < a.len()
        invariant
            i <= a.len(),
            a.len() == b.len(),
            forall|j: int| 0 <= j < i ==> a@[j] == b@[j],
        decreases a.len() - i,
    {
        if a[i] != b[i] {
            return false;
        }
        i += 1;
    }
    assert(a@ =~= b@);
    true
}

/// The pieces of `s` that lie between occurrences of `separator`.
///
/// A string without the separator is one piece, the empty string included; a
/// separator at either end yields an empty piece there.
pub open spec fn spec_split(s: Seq<u8>, separator: u8) -> Seq<Seq<u8>>
    decreases s.len(),
{
    if s.len() == 0 {
        seq![Seq::<u8>::empty()]
    } else {
        let before = spec_split(s.drop_last(), separator);
        if s.last() == separator {
            before.push(Seq::<u8>::empty())
        } else {
            before.update(before.len() - 1, before.last().push(s.last()))
        }
    }
}

/// The pieces joined again, with `separator` between neighbours.
pub open spec fn spec_join(pieces: Seq<Seq<u8>>, separator: u8) -> Seq<u8>
    decreases pieces.len(),
{
    if pieces.len() == 0 {
        Seq::<u8>::empty()
    } else if pieces.len() == 1 {
        pieces[0]
    } else {
        spec_join(pieces.drop_last(), separator).push(separator) + pieces.last()
    }
}

/// Splitting never yields nothing, no piece holds the separator, and joining the
/// pieces gives the string back.
pub proof fn lemma_split_join(s: Seq<u8>, separator: u8)
    ensures
        spec_split(s, separator).len() >= 1,
        forall|i: int, j: int|
            0 <= i < spec_split(s, separator).len() && 0 <= j < spec_split(s, separator)[i].len()
                ==> spec_split(s, separator)[i][j] != separator,
        spec_join(spec_split(s, separator), separator) == s,
    decreases s.len(),
{
    if s.len() == 0 {
        assert(spec_join(seq![Seq::<u8>::empty()], separator) =~= s);
    } else {
        let before = spec_split(s.drop_last(), separator);
        lemma_split_join(s.drop_last(), separator);
        let now = spec_split(s, separator);
        if s.last() == separator {
            assert(now.drop_last() =~= before);
            assert(spec_join(now, separator) =~= s.drop_last().push(separator)
                + Seq::<u8>::empty());
            assert(s.drop_last().push(separator) =~= s);
            assert(spec_join(now, separator) =~= s);
        } else {
            let last = before.last().push(s.last());
            if before.len() == 1 {
                assert(spec_join(before, separator) == before[0]);
                assert(now[0] == last);
                assert(spec_join(now, separator) =~= s);
            } else {
                assert(now.drop_last() =~= before.drop_last());
                assert(spec_join(now, separator) =~= spec_join(before.drop_last(), separator).push(
                    separator,
                ) + last);
                assert(spec_join(before, separator) =~= spec_join(
                    before.drop_last(),
                    separator,
                ).push(separator) + before.last());
                assert(spec_join(now, separator) =~= spec_join(before, separator).push(s.last()));
                assert(s.drop_last().push(s.last()) =~= s);
            }
        }
    }
}

/// The views of a list of byte slices.
pub open spec fn views(pieces: Seq<&[u8]>) -> Seq<Seq<u8>> {
    pieces.map_values(|p: &[u8]| p@)
}

/// Splits `value` at every occurrence of `separator`.
pub fn split<'a>(value: &'a [u8], separator: u8) -> (pieces: Vec<&'a [u8]>)
    ensures
        views(pieces@) == spec_split(value@, separator),
{
    let mut pieces: Vec<&'a [u8]> = Vec::new();
    let mut start: usize = 0;
    let mut i: usize = 0;
    assert(value@.take(0) =~= Seq::<u8>::empty());
    assert(views(pieces@).push(value@.subrange(0, 0)) =~= spec_split(value@.take(0), separator));
    while i < value.len()
        invariant
            start <= i <= value.len(),
            views(pieces@).push(value@.subrange(start as int, i as int)) == spec_split(
                value@.take(i as int),
                separator,
            ),
        decreases value.len() - i,
    {
        let ghost before = spec_split(value@.take(i as int), separator);
        assert(value@.take(i + 1).drop_last() =~= value@.take(i as int));
        assert(value@.take(i + 1).last() == value@[i as int]);
        if value[i] == separator {
            let piece = slice_subrange(value, start, i);
            let ghost old_pieces = pieces@;
            pieces.push(piece);
            assert(views(pieces@) =~= views(old_pieces).push(piece@));
            start = i + 1;
            assert(value@.subrange(start as int, i + 1) =~= Seq::<u8>::empty());
        } else {
            assert(value@.subrange(start as int, i + 1) =~= value@.subrange(
                start as int,
                i as int,
            ).push(value@[i as int]));
            assert(views(pieces@).push(value@.subrange(start as int, i + 1)) =~= before.update(
                before.len() - 1,
                before.last().push(value@[i as int]),
            ));
        }
        i += 1;
    }
    assert(value@.take(i as int) =~= value@);
    let piece = slice_subrange(value, start, i);
    let ghost old_pieces = pieces@;
    pieces.push(piece);
    assert(views(pieces@) =~= views(old_pieces).push(piece@));
    pieces
}

} // verus!
