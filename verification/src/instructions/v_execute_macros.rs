//! Checks on the register groups that vector operands occupy: alignment of a
//! group's first register and overlap of two groups.
use vstd::prelude::*;

verus! {

/// A group size of zero counts as a group of one register.
pub open spec fn group_size(size: u64) -> int {
    if size == 0 {
        1
    } else {
        size as int
    }
}

/// The half-open ranges `[astart, astart + asize)` and `[bstart, bstart + bsize)`
/// share a point.
pub open spec fn ranges_overlap(astart: int, asize: int, bstart: int, bsize: int) -> bool {
    astart < bstart + bsize && bstart < astart + asize
}

/// `val` is a multiple of `pos` when `pos` is a power of two: the bits of
/// `val` under `pos` are clear. A `pos` of zero accepts every value.
pub fn is_aligned(val: u64, pos: u64) -> (r: bool)
    ensures
        r == (pos == 0 || val & ((pos - 1) as u64) == 0),
        pos == 1 || pos == 2 || pos == 4 || pos == 8 ==> (r <==> val % pos == 0),
{
    proof {
        assert(val & 0 == 0 && (val & 1 == 0 <==> val % 2 == 0) && (val & 3 == 0 <==> val % 4
            == 0) && (val & 7 == 0 <==> val % 8 == 0)) by (bit_vector);
    }
    if pos != 0 {
        (val & (pos - 1)) == 0
    } else {
        true
    }
}

/// Whether the register groups `[astart, astart + asize)` and
/// `[bstart, bstart + bsize)` overlap, a size of zero counting as one.
pub fn is_overlapped(astart: u64, asize: u64, bstart: u64, bsize: u64) -> (r: bool)
    requires
        astart + group_size(asize) <= u64::MAX,
        bstart + group_size(bsize) <= u64::MAX,
        group_size(asize) + group_size(bsize) <= u64::MAX,
    ensures
        r == ranges_overlap(astart as int, group_size(asize), bstart as int, group_size(bsize)),
{
    let asize: u64 = if asize == 0 {
        1
    } else {
        asize
    };
    let bsize: u64 = if bsize == 0 {
        1
    } else {
        bsize
    };
    let aend: u64 = astart + asize;
    let bend: u64 = bstart + bsize;
    let hi: u64 = if aend >= bend {
        aend
    } else {
        bend
    };
    let lo: u64 = if astart <= bstart {
        astart
    } else {
        bstart
    };
    hi - lo < asize + bsize
}

/// Overlap of a widened destination group `a` with a source group `b`, where
/// a source that starts above `a` and overlaps only the lower half of `a`'s
/// doubled span is allowed: `false` is returned for it.
pub fn is_overlapped_widen(astart: u64, asize: u64, bstart: u64, bsize: u64) -> (r: bool)
    requires
        astart + group_size(asize) <= u64::MAX,
        bstart + group_size(bsize) <= u64::MAX,
        group_size(asize) + group_size(bsize) <= u64::MAX,
        astart < bstart && ranges_overlap(
            astart as int,
            group_size(asize),
            bstart as int,
            group_size(bsize),
        ) ==> bstart + 2 * group_size(bsize) <= u64::MAX,
    ensures
        r == if astart < bstart && ranges_overlap(
            astart as int,
            group_size(asize),
            bstart as int,
            group_size(bsize),
        ) && !ranges_overlap(
            astart as int,
            group_size(asize),
            bstart + group_size(bsize),
            group_size(bsize),
        ) {
            false
        } else {
            ranges_overlap(astart as int, group_size(asize), bstart as int, group_size(bsize))
        },
{
    let asize: u64 = if asize == 0 {
        1
    } else {
        asize
    };
    let bsize: u64 = if bsize == 0 {
        1
    } else {
        bsize
    };
    let aend: u64 = astart + asize;
    let bend: u64 = bstart + bsize;
    if astart < bstart && is_overlapped(astart, asize, bstart, bsize) && !is_overlapped(
        astart,
        asize,
        bstart + bsize,
        bsize,
    ) {
        false
    } else {
        let hi: u64 = if aend >= bend {
            aend
        } else {
            bend
        };
        let lo: u64 = if astart <= bstart {
            astart
        } else {
            bstart
        };
        hi - lo < asize + bsize
    }
}

} // verus!
