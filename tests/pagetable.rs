use pagetable::ids::{
    checked_split_fanout, safe_usize, split_fanout, PageTableError, FAN_MASK, FAN_OUT,
    MAX_PAGE_ID,
};
use pagetable::teardown::dense_prefix_len;
use pagetable::update::{rcu_step, settle_insert, RcuStep};

#[test]
fn test_split_fanout() {
    assert_eq!(
        split_fanout(0b11_1111_1111_1111_1111),
        (0, 0b11_1111_1111_1111_1111)
    );
    assert_eq!(
        split_fanout(0b111_1111_1111_1111_1111),
        (0b1, 0b11_1111_1111_1111_1111)
    );
}

#[test]
fn constants_agree() {
    assert_eq!(FAN_OUT, 1u64 << 18);
    assert_eq!(FAN_MASK, FAN_OUT - 1);
    assert_eq!(MAX_PAGE_ID, (1u64 << 36) - 1);
}

#[test]
fn safe_usize_keeps_value() {
    assert_eq!(safe_usize(0), 0usize);
    assert_eq!(safe_usize(262_145), 262_145usize);
}

#[test]
fn split_zero() {
    assert_eq!(split_fanout(0), (0, 0));
}

#[test]
fn range_boundary_largest_id_succeeds() {
    assert_eq!(
        checked_split_fanout(MAX_PAGE_ID),
        Ok((262_143, 262_143))
    );
}

#[test]
fn range_boundary_one_beyond_fails() {
    assert_eq!(
        checked_split_fanout(1u64 << 36),
        Err(PageTableError::IdentifierOutOfRange)
    );
    assert_eq!(
        checked_split_fanout(u64::MAX),
        Err(PageTableError::IdentifierOutOfRange)
    );
}

#[test]
fn different_branches_for_far_ids() {
    let far = checked_split_fanout((1u64 << 18) + 3).unwrap();
    let near = checked_split_fanout(3).unwrap();
    assert_eq!(far, (1, 3));
    assert_eq!(near, (0, 3));
    assert_ne!(far.0, near.0);
}

#[test]
fn neighbouring_ids_share_a_branch() {
    let a = split_fanout(5);
    let b = split_fanout(6);
    assert_eq!(a.0, b.0);
    assert_ne!(a.1, b.1);
}

#[test]
fn insert_into_empty_slot_succeeds() {
    assert_eq!(settle_insert(true), Ok(()));
}

#[test]
fn insert_into_occupied_slot_is_refused() {
    assert_eq!(settle_insert(false), Err(PageTableError::DuplicateInsert));
}

#[test]
fn rcu_commits_after_swap() {
    assert_eq!(rcu_step(true, 4, 9), RcuStep::Commit);
    assert_eq!(rcu_step(true, 4, 4), RcuStep::Commit);
}

#[test]
fn rcu_retries_same_version_relocation() {
    assert_eq!(rcu_step(false, 7, 7), RcuStep::Retry);
}

#[test]
fn rcu_reports_conflicting_version() {
    assert_eq!(rcu_step(false, 7, 8), RcuStep::Conflict);
}

#[test]
fn teardown_of_empty_node_frees_nothing() {
    assert_eq!(dense_prefix_len(&vec![]), 0);
    assert_eq!(dense_prefix_len(&vec![false, true]), 0);
}

#[test]
fn teardown_of_dense_node_frees_all() {
    assert_eq!(dense_prefix_len(&vec![true, true, true]), 3);
    assert_eq!(dense_prefix_len(&vec![true, true, false, false]), 2);
}

#[test]
fn teardown_stops_at_first_gap() {
    assert_eq!(dense_prefix_len(&vec![true, false, true, true]), 1);
}
