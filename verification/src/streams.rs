//! The merging of the two outputs of a process into one stream of framed
//! chunks.

use vstd::prelude::*;

verus! {

/// The byte that ends a line.
pub const NEWLINE: u8 = 10;

/// The bytes of each chunk of a list.
pub open spec fn byte_chunks(v: Seq<Vec<u8>>) -> Seq<Seq<u8>> {
    Seq::new(v.len(), |i: int| v[i]@)
}

/// A chunk as it is fed onward: with a newline after it.
pub open spec fn framed(chunk: Seq<u8>) -> Seq<u8> {
    chunk.push(NEWLINE)
}

/// Each chunk of the sequence, framed.
pub open spec fn all_framed(chunks: Seq<Seq<u8>>) -> Seq<Seq<u8>> {
    Seq::new(chunks.len(), |i: int| framed(chunks[i]))
}

/// The schedule without its first pick; an empty schedule stays empty.
pub open spec fn later_picks(picks: Seq<bool>) -> Seq<bool> {
    if picks.len() == 0 {
        picks
    } else {
        picks.drop_first()
    }
}

/// The stream that results from merging two streams of chunks, for one order
/// of arrival. Each pick says which stream had its next chunk ready first:
/// `true` for the left one. While both streams have chunks the pick decides;
/// once the picks are used up the left stream goes first; a stream that is
/// at its end leaves the other to go on alone. Every chunk is framed.
pub open spec fn merged(left: Seq<Seq<u8>>, right: Seq<Seq<u8>>, picks: Seq<bool>) -> Seq<Seq<u8>>
    decreases left.len() + right.len(),
{
    if left.len() == 0 {
        all_framed(right)
    } else if right.len() == 0 {
        all_framed(left)
    } else if picks.len() == 0 || picks[0] {
        seq![framed(left[0])] + merged(left.drop_first(), right, later_picks(picks))
    } else {
        seq![framed(right[0])] + merged(left, right.drop_first(), later_picks(picks))
    }
}

/// Appends the newline to a chunk.
pub fn frame_chunk(chunk: Vec<u8>) -> (r: Vec<u8>)
    ensures
        r@ == framed(chunk@),
{
    let mut out = chunk;
    out.push(NEWLINE);
    out
}

/// A framed copy of a chunk.
fn framed_copy(chunk: &Vec<u8>) -> (r: Vec<u8>)
    ensures
        r@ == framed(chunk@),
{
    let mut out: Vec<u8> = Vec::new();
    let mut i: usize = 0;
    while i < chunk.len()
        invariant
            i <= chunk@.len(),
            out@ == chunk@.take(i as int),
        decreases chunk@.len() - i,
    {
        out.push(chunk[i]);
        assert(chunk@.take(i as int).push(chunk@[i as int]) =~= chunk@.take(i + 1));
        i += 1;
    }
    assert(chunk@.take(chunk@.len() as int) =~= chunk@);
    out.push(NEWLINE);
    out
}

/// Merges two streams of chunks for the given order of arrival.
pub fn merge_chunks(left: &Vec<Vec<u8>>, right: &Vec<Vec<u8>>, picks: &Vec<bool>) -> (r: Vec<
    Vec<u8>,
>)
    ensures
        byte_chunks(r@) == merged(byte_chunks(left@), byte_chunks(right@), picks@),
{
    let ghost l = byte_chunks(left@);
    let ghost r = byte_chunks(right@);
    let mut out: Vec<Vec<u8>> = Vec::new();
    let mut i: usize = 0;
    let mut j: usize = 0;
    let mut k: usize = 0;
    assert(l.skip(0) =~= l && r.skip(0) =~= r && picks@.skip(0) =~= picks@);
    assert(byte_chunks(out@) + merged(l, r, picks@) =~= merged(l, r, picks@));
    while i < left.len() && j < right.len()
        invariant
            l == byte_chunks(left@),
            r == byte_chunks(right@),
            i <= left@.len(),
            j <= right@.len(),
            k <= picks@.len(),
            byte_chunks(out@) + merged(l.skip(i as int), r.skip(j as int), picks@.skip(k as int))
                == merged(l, r, picks@),
        decreases left@.len() - i + right@.len() - j,
    {
        let ghost before = byte_chunks(out@);
        let ghost ls = l.skip(i as int);
        let ghost rs = r.skip(j as int);
        let ghost ps = picks@.skip(k as int);
        let from_left = k >= picks.len() || picks[k];
        if k < picks.len() {
            k += 1;
        }
        proof {
            assert(later_picks(ps) =~= picks@.skip(k as int));
            assert(ls.drop_first() =~= l.skip(i + 1));
            assert(rs.drop_first() =~= r.skip(j + 1));
            assert(ls[0] == left@[i as int]@);
            assert(rs[0] == right@[j as int]@);
            assert(from_left == (ps.len() == 0 || ps[0]));
        }
        if from_left {
            out.push(framed_copy(&left[i]));
            i += 1;
        } else {
            out.push(framed_copy(&right[j]));
            j += 1;
        }
        proof {
            let chunk = if from_left {
                framed(ls[0])
            } else {
                framed(rs[0])
            };
            assert(byte_chunks(out@) =~= before.push(chunk));
            assert(before.push(chunk) + merged(
                l.skip(i as int),
                r.skip(j as int),
                picks@.skip(k as int),
            ) =~= before + (seq![chunk] + merged(
                l.skip(i as int),
                r.skip(j as int),
                picks@.skip(k as int),
            )));
        }
    }
    proof {
        let ls = l.skip(i as int);
        let rs = r.skip(j as int);
        if ls.len() == 0 {
            assert(all_framed(ls) + all_framed(rs) =~= all_framed(rs));
        } else {
            assert(all_framed(ls) + all_framed(rs) =~= all_framed(ls));
        }
    }
    while i < left.len()
        invariant
            l == byte_chunks(left@),
            i <= left@.len(),
            byte_chunks(out@) + (all_framed(l.skip(i as int)) + all_framed(r.skip(j as int)))
                == merged(l, r, picks@),
        decreases left@.len() - i,
    {
        let ghost before = byte_chunks(out@);
        out.push(framed_copy(&left[i]));
        proof {
            assert(byte_chunks(out@) =~= before.push(framed(l[i as int])));
            assert(before.push(framed(l[i as int])) + (all_framed(l.skip(i + 1)) + all_framed(
                r.skip(j as int),
            )) =~= before + (all_framed(l.skip(i as int)) + all_framed(r.skip(j as int))));
        }
        i += 1;
    }
    proof {
        assert(all_framed(l.skip(i as int)) + all_framed(r.skip(j as int)) =~= all_framed(
            r.skip(j as int),
        ));
    }
    while j < right.len()
        invariant
            r == byte_chunks(right@),
            i == left@.len(),
            l.len() == left@.len(),
            j <= right@.len(),
            byte_chunks(out@) + all_framed(r.skip(j as int)) == merged(l, r, picks@),
        decreases right@.len() - j,
    {
        let ghost before = byte_chunks(out@);
        out.push(framed_copy(&right[j]));
        proof {
            assert(byte_chunks(out@) =~= before.push(framed(r[j as int])));
            assert(before.push(framed(r[j as int])) + all_framed(r.skip(j + 1)) =~= before
                + all_framed(r.skip(j as int)));
        }
        j += 1;
    }
    proof {
        assert(all_framed(r.skip(j as int)) =~= Seq::<Seq<u8>>::empty());
        assert(byte_chunks(out@) + Seq::<Seq<u8>>::empty() =~= byte_chunks(out@));
    }
    out
}

/// `m` holds the chunks of `a` and of `b`, each once, those of `a` in their
/// order and those of `b` in theirs.
pub open spec fn is_interleaving(m: Seq<Seq<u8>>, a: Seq<Seq<u8>>, b: Seq<Seq<u8>>) -> bool
    decreases m.len(),
{
    if m.len() == 0 {
        a.len() == 0 && b.len() == 0
    } else {
        ||| a.len() > 0 && m[0] == a[0] && is_interleaving(m.drop_first(), a.drop_first(), b)
        ||| b.len() > 0 && m[0] == b[0] && is_interleaving(m.drop_first(), a, b.drop_first())
    }
}

/// The number of bytes in all chunks together.
pub open spec fn byte_count(chunks: Seq<Seq<u8>>) -> nat
    decreases chunks.len(),
{
    if chunks.len() == 0 {
        0
    } else {
        chunks[0].len() + byte_count(chunks.drop_first())
    }
}

/// The chunk holds no newline.
pub open spec fn is_line(chunk: Seq<u8>) -> bool {
    forall|i: int| 0 <= i < chunk.len() ==> chunk[i] != NEWLINE
}

/// A sequence of chunks alone is an interleaving of itself with nothing.
pub proof fn lemma_interleaving_of_one(a: Seq<Seq<u8>>)
    ensures
        is_interleaving(a, a, Seq::empty()),
        is_interleaving(a, Seq::empty(), a),
    decreases a.len(),
{
    if a.len() > 0 {
        lemma_interleaving_of_one(a.drop_first());
    }
}

/// Framing adds one byte to each chunk.
pub proof fn lemma_framed_bytes(chunks: Seq<Seq<u8>>)
    ensures
        byte_count(all_framed(chunks)) == byte_count(chunks) + chunks.len(),
    decreases chunks.len(),
{
    if chunks.len() > 0 {
        lemma_framed_bytes(chunks.drop_first());
        assert(all_framed(chunks).drop_first() =~= all_framed(chunks.drop_first()));
    }
}

/// Merging neither drops nor duplicates nor reorders: whatever the order of
/// arrival, the merged stream holds the framed chunks of both streams, each
/// once, and those of either stream in their own order.
pub proof fn lemma_merge_interleaves(left: Seq<Seq<u8>>, right: Seq<Seq<u8>>, picks: Seq<bool>)
    ensures
        is_interleaving(merged(left, right, picks), all_framed(left), all_framed(right)),
        merged(left, right, picks).len() == left.len() + right.len(),
    decreases left.len() + right.len(),
{
    let m = merged(left, right, picks);
    if left.len() == 0 {
        lemma_interleaving_of_one(all_framed(right));
        assert(all_framed(left) =~= Seq::<Seq<u8>>::empty());
    } else if right.len() == 0 {
        lemma_interleaving_of_one(all_framed(left));
        assert(all_framed(right) =~= Seq::<Seq<u8>>::empty());
    } else if picks.len() == 0 || picks[0] {
        lemma_merge_interleaves(left.drop_first(), right, later_picks(picks));
        assert(m.drop_first() =~= merged(left.drop_first(), right, later_picks(picks)));
        assert(all_framed(left).drop_first() =~= all_framed(left.drop_first()));
    } else {
        lemma_merge_interleaves(left, right.drop_first(), later_picks(picks));
        assert(m.drop_first() =~= merged(left, right.drop_first(), later_picks(picks)));
        assert(all_framed(right).drop_first() =~= all_framed(right.drop_first()));
    }
}

/// No byte is lost or made up: the merged stream has the bytes of both
/// streams and one newline for each chunk.
pub proof fn lemma_merge_bytes(left: Seq<Seq<u8>>, right: Seq<Seq<u8>>, picks: Seq<bool>)
    ensures
        byte_count(merged(left, right, picks)) == byte_count(left) + byte_count(right) + left.len()
            + right.len(),
    decreases left.len() + right.len(),
{
    let m = merged(left, right, picks);
    if left.len() == 0 {
        lemma_framed_bytes(right);
    } else if right.len() == 0 {
        lemma_framed_bytes(left);
    } else if picks.len() == 0 || picks[0] {
        lemma_merge_bytes(left.drop_first(), right, later_picks(picks));
        assert(m.drop_first() =~= merged(left.drop_first(), right, later_picks(picks)));
    } else {
        lemma_merge_bytes(left, right.drop_first(), later_picks(picks));
        assert(m.drop_first() =~= merged(left, right.drop_first(), later_picks(picks)));
    }
}

/// Every chunk of the merged stream is a chunk of one of the two streams
/// with the newline after it.
pub proof fn lemma_merge_framing(
    left: Seq<Seq<u8>>,
    right: Seq<Seq<u8>>,
    picks: Seq<bool>,
    i: int,
)
    requires
        0 <= i < merged(left, right, picks).len(),
    ensures
        merged(left, right, picks)[i].len() >= 1,
        merged(left, right, picks)[i].last() == NEWLINE,
        left.contains(merged(left, right, picks)[i].drop_last()) || right.contains(
            merged(left, right, picks)[i].drop_last(),
        ),
    decreases left.len() + right.len(),
{
    let m = merged(left, right, picks);
    if left.len() == 0 {
        assert(framed(right[i]).drop_last() =~= right[i]);
    } else if right.len() == 0 {
        assert(framed(left[i]).drop_last() =~= left[i]);
    } else if picks.len() == 0 || picks[0] {
        if i == 0 {
            assert(framed(left[0]).drop_last() =~= left[0]);
        } else {
            let rest = merged(left.drop_first(), right, later_picks(picks));
            lemma_merge_framing(left.drop_first(), right, later_picks(picks), i - 1);
            assert(m[i] == rest[i - 1]);
            let c = m[i].drop_last();
            if left.drop_first().contains(c) {
                let j = choose|j: int| 0 <= j < left.drop_first().len() && left.drop_first()[j] == c;
                assert(left[j + 1] == c);
            }
        }
    } else {
        if i == 0 {
            assert(framed(right[0]).drop_last() =~= right[0]);
        } else {
            let rest = merged(left, right.drop_first(), later_picks(picks));
            lemma_merge_framing(left, right.drop_first(), later_picks(picks), i - 1);
            assert(m[i] == rest[i - 1]);
            let c = m[i].drop_last();
            if right.drop_first().contains(c) {
                let j = choose|j: int|
                    0 <= j < right.drop_first().len() && right.drop_first()[j] == c;
                assert(right[j + 1] == c);
            }
        }
    }
}

/// Where the chunks of both streams are lines, every chunk of the merged
/// stream ends with exactly one newline: its last byte, and no other.
pub proof fn lemma_merge_one_newline(
    left: Seq<Seq<u8>>,
    right: Seq<Seq<u8>>,
    picks: Seq<bool>,
    i: int,
)
    requires
        forall|j: int| 0 <= j < left.len() ==> is_line(#[trigger] left[j]),
        forall|j: int| 0 <= j < right.len() ==> is_line(#[trigger] right[j]),
        0 <= i < merged(left, right, picks).len(),
    ensures
        merged(left, right, picks)[i].len() >= 1,
        merged(left, right, picks)[i].last() == NEWLINE,
        is_line(merged(left, right, picks)[i].drop_last()),
{
    lemma_merge_framing(left, right, picks, i);
    let c = merged(left, right, picks)[i].drop_last();
    if left.contains(c) {
        let j = choose|j: int| 0 <= j < left.len() && left[j] == c;
        assert(is_line(left[j]));
    } else {
        let j = choose|j: int| 0 <= j < right.len() && right[j] == c;
        assert(is_line(right[j]));
    }
}

} // verus!
