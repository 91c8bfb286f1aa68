//! Half-open intervals of page indices.

use std::ops::Range;
use vstd::prelude::*;

verus! {

/// Number of indices in `r`; a range whose start lies past its end is empty.
pub open spec fn range_len(r: Range<usize>) -> nat {
    if r.start < r.end {
        (r.end - r.start) as nat
    } else {
        0
    }
}

/// `true` if `i` lies in `r`.
pub open spec fn range_has(r: Range<usize>, i: int) -> bool {
    r.start <= i < r.end
}

pub open spec fn min_usize(a: usize, b: usize) -> usize {
    if a <= b { a } else { b }
}

pub open spec fn max_usize(a: usize, b: usize) -> usize {
    if a >= b { a } else { b }
}

/// The smallest range that holds both ranges; empty ranges add nothing to it.
pub open spec fn spec_range_union(a: Range<usize>, b: Range<usize>) -> Range<usize> {
    if range_len(a) == 0 && range_len(b) == 0 {
        0..0
    } else if range_len(b) == 0 {
        a
    } else if range_len(a) == 0 {
        b
    } else {
        min_usize(a.start, b.start)..max_usize(a.end, b.end)
    }
}

/// The largest range covered by both ranges; its start never lies past its end.
pub open spec fn spec_range_intersection(a: Range<usize>, b: Range<usize>) -> Range<usize> {
    let start = max_usize(a.start, b.start);
    start..max_usize(min_usize(a.end, b.end), start)
}

/// The two ranges overlap or touch, with no gap between them.
pub open spec fn spec_range_is_contiguous(a: Range<usize>, b: Range<usize>) -> bool {
    range_len(spec_range_union(a, b)) <= range_len(a) + range_len(b)
}

/// Length of a range as an executable value.
pub fn range_length(r: &Range<usize>) -> (n: usize)
    ensures
        n == range_len(*r),
{
    if r.start < r.end {
        r.end - r.start
    } else {
        0
    }
}

/// `true` if both ranges overlap or share an edge.
pub fn range_is_contiguous(a: Range<usize>, b: Range<usize>) -> (r: bool)
    ensures
        r == spec_range_is_contiguous(a, b),
{
    let a_len = range_length(&a);
    let b_len = range_length(&b);
    let u = range_union(a, b);
    let u_len = range_length(&u);
    u_len <= a_len || u_len - a_len <= b_len
}

/// Get the smallest range that contains both `a` and `b`.
pub fn range_union(a: Range<usize>, b: Range<usize>) -> (r: Range<usize>)
    ensures
        r == spec_range_union(a, b),
{
    let a_len = range_length(&a);
    let b_len = range_length(&b);
    if a_len == 0 && b_len == 0 {
        0..0
    } else if b_len == 0 {
        a
    } else if a_len == 0 {
        b
    } else {
        let start = if a.start <= b.start { a.start } else { b.start };
        let end = if a.end >= b.end { a.end } else { b.end };
        start..end
    }
}

/// Get the largest range that is covered by both `a` and `b`.
pub fn range_intersection(a: Range<usize>, b: Range<usize>) -> (r: Range<usize>)
    ensures
        r == spec_range_intersection(a, b),
        r.start <= r.end,
{
    let start = if a.start >= b.start { a.start } else { b.start };
    let min_end = if a.end <= b.end { a.end } else { b.end };
    let end = if min_end >= start { min_end } else { start };
    start..end
}

/// The union of two ranges is at least as long as each of them, and it does
/// not depend on the order of its operands.
pub proof fn lemma_union_covers_and_commutes(a: Range<usize>, b: Range<usize>)
    requires
        range_len(a) > 0,
        range_len(b) > 0,
    ensures
        range_len(spec_range_union(a, b)) >= range_len(a),
        range_len(spec_range_union(a, b)) >= range_len(b),
        spec_range_union(a, b) == spec_range_union(b, a),
{
}

/// Two non-empty ranges are contiguous exactly when they overlap, or when one
/// ends where the other starts.
pub proof fn lemma_contiguous_iff_overlap_or_touch(a: Range<usize>, b: Range<usize>)
    requires
        range_len(a) > 0,
        range_len(b) > 0,
    ensures
        spec_range_is_contiguous(a, b) <==> (range_len(spec_range_intersection(a, b)) > 0
            || a.end == b.start || b.end == a.start),
{
}

} // verus!
