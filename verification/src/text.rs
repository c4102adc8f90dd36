//! Pieces of text: comparing them, joining them, and finding a piece again in what was joined.

use vstd::prelude::*;
use vstd::string::StringSliceAdditionalSpecFns;

verus! {

/// The views of the strings of a sequence.
pub open spec fn texts(parts: Seq<String>) -> Seq<Seq<char>> {
    parts.map_values(|s: String| s@)
}

/// Of each string there is its text, in the same place.
pub proof fn each_string_has_its_text(parts: Seq<String>)
    ensures
        texts(parts).len() == parts.len(),
        forall|i: int| 0 <= i < parts.len() ==> #[trigger] texts(parts)[i] == parts[i]@,
{
}

/// The pieces one after the other, with `sep` between each two of them.
pub open spec fn joined(parts: Seq<Seq<char>>, sep: Seq<char>) -> Seq<char>
    decreases parts.len(),
{
    if parts.len() == 0 {
        Seq::empty()
    } else if parts.len() == 1 {
        parts[0]
    } else {
        joined(parts.drop_last(), sep) + sep + parts.last()
    }
}

/// `piece` occurs in `whole` as a run of consecutive characters.
pub open spec fn occurs(piece: Seq<char>, whole: Seq<char>) -> bool {
    exists|at: int|
        0 <= at && at + piece.len() <= whole.len() && #[trigger] whole.subrange(
            at,
            at + piece.len(),
        ) == piece
}

/// What occurs in a text occurs in every longer text around it.
pub proof fn occurs_within(piece: Seq<char>, before: Seq<char>, whole: Seq<char>, after: Seq<char>)
    requires
        occurs(piece, whole),
    ensures
        occurs(piece, before + whole + after),
{
    let at = choose|at: int|
        0 <= at && at + piece.len() <= whole.len() && #[trigger] whole.subrange(
            at,
            at + piece.len(),
        ) == piece;
    let all = before + whole + after;
    let moved = before.len() + at;
    assert(all.subrange(moved, moved + piece.len()) =~= whole.subrange(at, at + piece.len()));
}

/// Every text occurs in itself.
pub proof fn occurs_in_itself(whole: Seq<char>)
    ensures
        occurs(whole, whole),
{
    assert(whole.subrange(0int, 0int + whole.len()) =~= whole);
}

/// Each of the joined pieces occurs in the joined text.
pub proof fn piece_occurs_in_joined(parts: Seq<Seq<char>>, sep: Seq<char>, i: int)
    requires
        0 <= i < parts.len(),
    ensures
        occurs(parts[i], joined(parts, sep)),
    decreases parts.len(),
{
    let none = Seq::<char>::empty();
    occurs_in_itself(parts[i]);
    if parts.len() > 1 {
        let front = joined(parts.drop_last(), sep);
        if i == parts.len() - 1 {
            occurs_within(parts[i], front + sep, parts[i], none);
            assert(front + sep + parts[i] + none =~= front + sep + parts[i]);
        } else {
            piece_occurs_in_joined(parts.drop_last(), sep, i);
            assert(parts.drop_last()[i] == parts[i]);
            occurs_within(parts[i], none, front, sep + parts.last());
            assert(none + front + (sep + parts.last()) =~= front + sep + parts.last());
        }
    }
}

/// Nothing joined is nothing, and one piece joined is that piece. Pieces that are joined in two runs
/// are the same text as those that are joined at once: first those of the first run, then `sep`, then
/// those of the second.
pub proof fn runs_are_joined_in_order(
    first: Seq<Seq<char>>,
    second: Seq<Seq<char>>,
    piece: Seq<char>,
    sep: Seq<char>,
)
    ensures
        joined(Seq::empty(), sep) == Seq::<char>::empty(),
        joined(seq![piece], sep) == piece,
        first.len() > 0 && second.len() > 0 ==> joined(first + second, sep) == joined(first, sep)
            + sep + joined(second, sep),
        first.len() == 0 ==> joined(first + second, sep) == joined(second, sep),
        second.len() == 0 ==> joined(first + second, sep) == joined(first, sep),
    decreases second.len(),
{
    if second.len() == 0 {
        assert(first + second =~= first);
    } else if first.len() == 0 {
        assert(first + second =~= second);
    } else {
        let front = second.drop_last();
        assert((first + second).drop_last() =~= first + front);
        assert((first + second).last() == second.last());
        runs_are_joined_in_order(first, front, piece, sep);
        if front.len() == 0 {
            assert(first + front =~= first);
        } else {
            assert(joined(first, sep) + sep + joined(front, sep) + sep + second.last() =~= joined(
                first,
                sep,
            ) + sep + (joined(front, sep) + sep + second.last()));
        }
    }
}

/// A piece stands between the pieces before it and the pieces after it.
pub proof fn piece_stands_in_its_place(parts: Seq<Seq<char>>, i: int)
    requires
        0 <= i < parts.len(),
    ensures
        joined(parts, ""@) == joined(parts.take(i), ""@) + parts[i] + joined(parts.skip(i + 1), ""@),
{
    reveal_strlit("");
    let none = Seq::<char>::empty();
    assert(""@ =~= none);
    let before = parts.take(i);
    let after = parts.skip(i + 1);
    runs_are_joined_in_order(before, seq![parts[i]], parts[i], none);
    runs_are_joined_in_order(before + seq![parts[i]], after, parts[i], none);
    assert(before + seq![parts[i]] + after =~= parts);
    assert(joined(before + seq![parts[i]], none) =~= joined(before, none) + parts[i]);
    assert(joined(parts, none) =~= joined(before, none) + parts[i] + joined(after, none));
}

/// Joins the pieces, with `sep` between each two of them.
pub fn join(parts: &Vec<String>, sep: &str) -> (out: String)
    ensures
        out@ == joined(texts(parts@), sep@),
{
    let ghost all = texts(parts@);
    let mut out = String::new();
    let mut i: usize = 0;
    assert(all.take(0) =~= Seq::empty());
    while i < parts.len()
        invariant
            all == texts(parts@),
            i <= parts@.len(),
            out@ == joined(all.take(i as int), sep@),
        decreases parts@.len() - i,
    {
        if i > 0 {
            out.append(sep);
        }
        out.append(parts[i].as_str());
        proof {
            let next = all.take(i + 1);
            assert(next.drop_last() =~= all.take(i as int));
            assert(next.last() == parts@[i as int]@);
            if i == 0 {
                assert(out@ =~= next[0]);
            }
        }
        i += 1;
    }
    assert(all.take(i as int) =~= all);
    out
}

/// Whether two texts hold the same characters.
pub fn same_text(a: &str, b: &str) -> (same: bool)
    ensures
        same == (a@ == b@),
{
    let x = a.as_bytes();
    let y = b.as_bytes();
    proof {
        vstd::utf8::encode_utf8_decode_utf8(a@);
        vstd::utf8::encode_utf8_decode_utf8(b@);
    }
    if x.len() != y.len() {
        return false;
    }
    let mut i: usize = 0;
    while i < x.len()
        invariant
            x@.len() == y@.len(),
            i <= x@.len(),
            forall|j: int| 0 <= j < i ==> x@[j] == y@[j],
            x@ == a.spec_bytes(),
            y@ == b.spec_bytes(),
        decreases x@.len() - i,
    {
        if x[i] != y[i] {
            return false;
        }
        i += 1;
    }
    assert(x@ =~= y@);
    true
}

} // verus!
