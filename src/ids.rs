//! Page identifiers and how they split into first- and second-level indices.
use vstd::prelude::*;

verus! {

/// A page's logical address.
pub type PageId = u64;

/// Number of index bits consumed by each of the two levels.
pub const FAN_FACTOR: u64 = 18;

/// Number of slots in one node: `2 ^ FAN_FACTOR`.
pub const FAN_OUT: u64 = 262144;

/// Mask selecting the second-level index: `FAN_OUT - 1`.
pub const FAN_MASK: u64 = 262143;

/// Largest identifier the table can hold: `2 ^ (2 * FAN_FACTOR) - 1`.
pub const MAX_PAGE_ID: u64 = 68719476735;

/// Failures that the table reports to its callers.
#[derive(PartialEq, Eq, Structural, Debug, Clone, Copy)]
pub enum PageTableError {
    /// The identifier's slot already held a page.
    DuplicateInsert,
    /// The identifier does not fit in two levels of `FAN_FACTOR` bits.
    IdentifierOutOfRange,
}

/// An identifier the table can address.
pub open spec fn valid_page_id(id: u64) -> bool {
    id <= MAX_PAGE_ID
}

/// Index of the first-level slot that leads to `id`'s second-level node.
pub open spec fn first_level(id: u64) -> int {
    id as int / FAN_OUT as int
}

/// Index of `id`'s slot inside its second-level node.
pub open spec fn second_level(id: u64) -> int {
    id as int % FAN_OUT as int
}

/// Converts an identifier-sized value to a native index.
pub fn safe_usize(value: PageId) -> (r: usize)
    requires
        value <= usize::MAX,
    ensures
        r == value,
{
    value as usize
}

/// Splits a valid identifier into its first- and second-level indices.
pub fn split_fanout(id: PageId) -> (r: (usize, usize))
    requires
        valid_page_id(id),
    ensures
        r.0 == first_level(id),
        r.1 == second_level(id),
        r.0 < FAN_OUT,
        r.1 < FAN_OUT,
{
    let left: u64 = id >> FAN_FACTOR;
    let right: u64 = id & FAN_MASK;
    assert(id >> 18u64 == id / 262144u64 && id & 262143u64 == id % 262144u64) by (bit_vector);
    assert(left < 262144) by {
        assert(id <= 68719476735u64 ==> id / 262144u64 < 262144u64) by (bit_vector);
    }
    (safe_usize(left), safe_usize(right))
}

/// Checks the identifier's range before splitting it: out-of-range
/// identifiers are refused before any slot is touched.
pub fn checked_split_fanout(id: PageId) -> (r: Result<(usize, usize), PageTableError>)
    ensures
        valid_page_id(id) ==> r == Ok::<(usize, usize), PageTableError>(
            (first_level(id) as usize, second_level(id) as usize),
        ),
        !valid_page_id(id) ==> r == Err::<(usize, usize), PageTableError>(
            PageTableError::IdentifierOutOfRange,
        ),
{
    if id > MAX_PAGE_ID {
        Err(PageTableError::IdentifierOutOfRange)
    } else {
        Ok(split_fanout(id))
    }
}

/// Every valid identifier owns a slot of its own: two identifiers that
/// agree on both indices are the same identifier, so pages stored under
/// different identifiers never share a slot.
pub proof fn lemma_split_injective(a: PageId, b: PageId)
    requires
        valid_page_id(a),
        valid_page_id(b),
        first_level(a) == first_level(b),
        second_level(a) == second_level(b),
    ensures
        a == b,
{
    assert(a as int == first_level(a) * FAN_OUT + second_level(a)) by (nonlinear_arith)
        requires FAN_OUT == 262144;
    assert(b as int == first_level(b) * FAN_OUT + second_level(b)) by (nonlinear_arith)
        requires FAN_OUT == 262144;
}

/// Identifiers whose first-level indices differ live under different
/// first-level slots, hence under different second-level nodes; identifiers
/// with the same first-level index and different identities use different
/// slots of one node.
pub proof fn lemma_branch_isolation(a: PageId, b: PageId)
    requires
        valid_page_id(a),
        valid_page_id(b),
        a != b,
    ensures
        0 <= first_level(a) < FAN_OUT,
        0 <= first_level(b) < FAN_OUT,
        first_level(a) == first_level(b) ==> second_level(a) != second_level(b),
{
    assert(a as int / 262144 < 262144);
    assert(b as int / 262144 < 262144);
    if first_level(a) == first_level(b) && second_level(a) == second_level(b) {
        lemma_split_injective(a, b);
    }
}

} // verus!
