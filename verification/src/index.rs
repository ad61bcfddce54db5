use crate::token::{spec_valid_index, MAX_INDEX, MIN_INDEX};
use vstd::prelude::*;

verus! {

/// The index after `index`; the one after `MAX_INDEX` is `MIN_INDEX`.
pub open spec fn spec_succ(index: usize) -> usize {
    if index >= MAX_INDEX {
        MIN_INDEX
    } else {
        (index + 1) as usize
    }
}

/// How many steps lead from `from` to `index` when counting upwards and, at
/// `MAX_INDEX`, on from `MIN_INDEX`.
pub open spec fn spec_distance(from: usize, index: usize) -> int {
    if index >= from {
        index - from
    } else {
        (MAX_INDEX - from) + 1 + (index - MIN_INDEX)
    }
}

/// Whether `index` is the first free index at or after `from`: it is free,
/// and every index that comes before it on the way from `from` is live.
pub open spec fn spec_next_free(from: usize, live: Set<usize>, index: usize) -> bool {
    &&& spec_valid_index(index)
    &&& !live.contains(index)
    &&& forall|j: usize|
        spec_valid_index(j) && spec_distance(from, j) < spec_distance(from, index)
            ==> #[trigger] live.contains(j)
}

/// The index after `index`; the one after `MAX_INDEX` is `MIN_INDEX`.
pub fn succ(index: usize) -> (next: usize)
    ensures
        next == spec_succ(index),
{
    if index >= MAX_INDEX {
        MIN_INDEX
    } else {
        index + 1
    }
}

/// The index after `MAX_INDEX` is `MIN_INDEX`, and the index after any other
/// valid index is the next number; both are valid again.
pub proof fn law_index_wraps(index: usize)
    requires
        spec_valid_index(index),
    ensures
        spec_valid_index(spec_succ(index)),
        spec_succ(MAX_INDEX) == MIN_INDEX,
        index < MAX_INDEX ==> spec_succ(index) == index + 1,
{
}

/// The first free index at or after a counter is determined: there are no
/// two of them.
pub proof fn law_next_free_unique(from: usize, live: Set<usize>, a: usize, b: usize)
    requires
        spec_valid_index(from),
        spec_next_free(from, live, a),
        spec_next_free(from, live, b),
    ensures
        a == b,
{
    if spec_distance(from, a) < spec_distance(from, b) {
        assert(live.contains(a));
    } else if spec_distance(from, b) < spec_distance(from, a) {
        assert(live.contains(b));
    }
}

} // verus!
