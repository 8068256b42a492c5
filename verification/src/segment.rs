//! Cutting a received payload into the segments that the kernel coalesced.
//!
//! A payload of `len` bytes with segment size `s` consists of consecutive
//! segments of `s` bytes, the last one possibly shorter. A segment size of
//! zero stands for "the whole payload is one segment".

use vstd::prelude::*;

verus! {

/// The size that segments are cut to: `segment_size`, or the whole payload
/// when `segment_size` is zero.
pub open spec fn effective_size(len: nat, segment_size: nat) -> nat {
    if segment_size == 0 {
        len
    } else {
        segment_size
    }
}

/// Number of segments in a payload: `len` divided by the effective size,
/// rounded up. An empty payload has none.
pub open spec fn segment_count(len: nat, segment_size: nat) -> nat {
    let size = effective_size(len, segment_size);
    if len == 0 {
        0
    } else {
        ((len + size - 1) / (size as int)) as nat
    }
}

/// Start (inclusive) and end (exclusive) of the segment with the given index.
pub open spec fn segment_at(len: nat, segment_size: nat, index: nat) -> (nat, nat) {
    let size = effective_size(len, segment_size);
    (index * size, if (index + 1) * size < len { (index + 1) * size } else { len })
}

/// The segment that starts at `offset`, if the payload reaches that far.
pub open spec fn segment_after(len: nat, segment_size: nat, offset: nat) -> Option<(nat, nat)> {
    let size = effective_size(len, segment_size);
    if offset < len {
        Some((offset, if offset + size < len { offset + size } else { len }))
    } else {
        None
    }
}

/// The size that segments of a payload are cut to.
pub fn effective_segment_size(len: usize, segment_size: usize) -> (size: usize)
    ensures
        size == effective_size(len as nat, segment_size as nat),
{
    if segment_size == 0 {
        len
    } else {
        segment_size
    }
}

/// The segment of a payload that starts at `offset`, or `None` when `offset`
/// is at or past the end of the payload.
pub fn next_segment(len: usize, segment_size: usize, offset: usize) -> (r: Option<(usize, usize)>)
    ensures
        match r {
            Some((start, end)) => segment_after(len as nat, segment_size as nat, offset as nat)
                == Some((start as nat, end as nat)),
            None => segment_after(len as nat, segment_size as nat, offset as nat).is_none(),
        },
{
    if offset < len {
        let size = effective_segment_size(len, segment_size);
        let end = if len - offset > size {
            offset + size
        } else {
            len
        };
        Some((offset, end))
    } else {
        None
    }
}

/// The first `count - 1` segments fit below `len`, and `count` segments reach
/// it.
pub proof fn lemma_count_bounds(len: nat, segment_size: nat)
    requires
        len > 0,
    ensures
        effective_size(len, segment_size) > 0,
        segment_count(len, segment_size) > 0,
        (segment_count(len, segment_size) - 1) * effective_size(len, segment_size) < len,
        len <= segment_count(len, segment_size) * effective_size(len, segment_size),
{
    let size = effective_size(len, segment_size) as int;
    let n = (len + size - 1) / size;
    vstd::arithmetic::div_mod::lemma_fundamental_div_mod(len + size - 1, size);
    vstd::arithmetic::div_mod::lemma_mod_bound(len + size - 1, size);
    assert(size * n == n * size) by (nonlinear_arith);
    assert((n - 1) * size == n * size - size) by (nonlinear_arith);
    assert(n > 0) by (nonlinear_arith)
        requires
            size * n + (len + size - 1) % size == len + size - 1,
            (len + size - 1) % size < size,
            len > 0,
            size > 0,
    ;
}

/// An index is below the segment count exactly when the segment there starts
/// inside the payload.
pub proof fn lemma_index_in_range(len: nat, segment_size: nat, index: nat)
    requires
        len > 0,
    ensures
        index < segment_count(len, segment_size) <==> index * effective_size(len, segment_size)
            < len,
{
    lemma_count_bounds(len, segment_size);
    let size = effective_size(len, segment_size) as int;
    let n = segment_count(len, segment_size) as int;
    let i = index as int;
    if i < n {
        assert(i * size <= (n - 1) * size) by (nonlinear_arith)
            requires
                i <= n - 1,
                size > 0,
        ;
    } else {
        assert(i * size >= n * size) by (nonlinear_arith)
            requires
                i >= n,
                size > 0,
        ;
    }
}

/// Walking the payload from one segment's end to the next visits the
/// segments in index order: the segment after offset `index * size` is the
/// one with that index.
pub proof fn lemma_segment_after_is_indexed(len: nat, segment_size: nat, index: nat)
    requires
        index < segment_count(len, segment_size),
    ensures
        segment_after(len, segment_size, index * effective_size(len, segment_size)) == Some(
            segment_at(len, segment_size, index),
        ),
{
    let size = effective_size(len, segment_size);
    lemma_index_in_range(len, segment_size, index);
    assert((index + 1) * size == index * size + size) by (nonlinear_arith);
}

/// The segments tile the payload: the first starts at zero, each is
/// non-empty and no longer than the effective size, each starts where the one
/// before ended, all but the last have exactly the effective size, and the
/// last ends at `len`.
pub proof fn lemma_segments_tile(len: nat, segment_size: nat, index: nat)
    requires
        index < segment_count(len, segment_size),
    ensures
        segment_at(len, segment_size, 0).0 == 0,
        segment_at(len, segment_size, index).0 < segment_at(len, segment_size, index).1,
        segment_at(len, segment_size, index).1 <= len,
        segment_at(len, segment_size, index).1 - segment_at(len, segment_size, index).0
            <= effective_size(len, segment_size),
        index + 1 < segment_count(len, segment_size) ==> {
            &&& segment_at(len, segment_size, index).1 == segment_at(
                len,
                segment_size,
                index + 1,
            ).0
            &&& segment_at(len, segment_size, index).1 - segment_at(len, segment_size, index).0
                == effective_size(len, segment_size)
        },
        index + 1 == segment_count(len, segment_size) ==> segment_at(len, segment_size, index).1
            == len,
{
    let size = effective_size(len, segment_size);
    lemma_count_bounds(len, segment_size);
    lemma_index_in_range(len, segment_size, index);
    lemma_index_in_range(len, segment_size, index + 1);
    assert((index + 1) * size == index * size + size) by (nonlinear_arith);
    assert(0 * size == 0) by (nonlinear_arith);
}

/// All segments of a payload, in order.
pub fn segments(len: usize, segment_size: usize) -> (list: Vec<(usize, usize)>)
    ensures
        list.len() == segment_count(len as nat, segment_size as nat),
        forall|i: int|
            0 <= i < list.len() ==> (list[i].0 as nat, list[i].1 as nat) == #[trigger] segment_at(
                len as nat,
                segment_size as nat,
                i as nat,
            ),
{
    let mut list: Vec<(usize, usize)> = Vec::new();
    let mut offset: usize = 0;
    let ghost size = effective_size(len as nat, segment_size as nat);
    while offset < len
        invariant
            size == effective_size(len as nat, segment_size as nat),
            offset <= len,
            len > 0 ==> list.len() <= segment_count(len as nat, segment_size as nat),
            offset < len ==> offset == list.len() * size,
            offset == len ==> list.len() == segment_count(len as nat, segment_size as nat),
            forall|i: int|
                0 <= i < list.len() ==> (list[i].0 as nat, list[i].1 as nat)
                    == #[trigger] segment_at(len as nat, segment_size as nat, i as nat),
        decreases len - offset,
    {
        let ghost index = list.len() as nat;
        proof {
            lemma_index_in_range(len as nat, segment_size as nat, index);
            lemma_segment_after_is_indexed(len as nat, segment_size as nat, index);
            lemma_segments_tile(len as nat, segment_size as nat, index);
            lemma_index_in_range(len as nat, segment_size as nat, index + 1);
            assert((index + 1) * size == index * size + size) by (nonlinear_arith);
        }
        match next_segment(len, segment_size, offset) {
            Some((start, end)) => {
                list.push((start, end));
                offset = end;
            },
            None => {
                offset = len;
            },
        }
    }
    list
}

} // verus!
