//! Which slots a node's teardown frees.
use vstd::prelude::*;

verus! {

/// The first `n` slots of a node are all occupied.
pub open spec fn occupied_prefix(occupied: Seq<bool>, n: int) -> bool {
    0 <= n <= occupied.len() && forall|i: int| 0 <= i < n ==> occupied[i]
}

/// Number of slots, from index 0 on, that teardown frees: it scans in index
/// order and stops at the first empty slot, since identifiers are used
/// densely. Slots after that gap are not visited.
pub fn dense_prefix_len(occupied: &Vec<bool>) -> (r: usize)
    ensures
        occupied_prefix(occupied@, r as int),
        r < occupied@.len() ==> !occupied@[r as int],
{
    let mut i: usize = 0;
    while i < occupied.len()
        invariant
            occupied_prefix(occupied@, i as int),
        decreases occupied.len() - i,
    {
        if !occupied[i] {
            return i;
        }
        i = i + 1;
    }
    i
}

/// In a node filled densely, teardown frees every page: when the first `n`
/// slots are occupied and the rest empty, exactly those `n` are freed.
pub proof fn lemma_dense_teardown_frees_all(occupied: Seq<bool>, n: int, r: int)
    requires
        0 <= n <= occupied.len(),
        forall|i: int| 0 <= i < occupied.len() ==> (occupied[i] <==> i < n),
        occupied_prefix(occupied, r),
        r < occupied.len() ==> !occupied[r],
    ensures
        r == n,
{
    if r < n {
        assert(!occupied[r]);
    }
    if r > n {
        assert(occupied[n]);
    }
}

} // verus!
