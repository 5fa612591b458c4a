//! The rules that decide what a write to a slot amounts to.
use vstd::prelude::*;
use crate::ids::PageTableError;

verus! {

/// What the read-copy-update protocol does after one compare-and-swap.
#[derive(PartialEq, Eq, Structural, Debug, Clone, Copy)]
pub enum RcuStep {
    /// The new copy was installed; the old page is retired.
    Commit,
    /// The slot holds the same generation at a new location: observe it
    /// again and repeat the copy, transform and swap against it.
    Retry,
    /// Another writer installed a different generation: report it.
    Conflict,
}

/// Decides the next step of an update from the outcome of its
/// compare-and-swap and the version markers of the page the update started
/// from and of the page the slot held when the swap failed.
pub fn rcu_step(swapped: bool, observed_version: u64, current_version: u64) -> (r: RcuStep)
    ensures
        swapped ==> r == RcuStep::Commit,
        !swapped && observed_version == current_version ==> r == RcuStep::Retry,
        !swapped && observed_version != current_version ==> r == RcuStep::Conflict,
{
    if swapped {
        RcuStep::Commit
    } else if observed_version == current_version {
        RcuStep::Retry
    } else {
        RcuStep::Conflict
    }
}

/// Decides an insert from what the slot held before the new page was
/// offered: only an empty slot takes it, an occupied one keeps its page.
pub fn settle_insert(slot_was_empty: bool) -> (r: Result<(), PageTableError>)
    ensures
        slot_was_empty <==> r is Ok,
        !slot_was_empty ==> r == Err::<(), PageTableError>(PageTableError::DuplicateInsert),
{
    if slot_was_empty {
        Ok(())
    } else {
        Err(PageTableError::DuplicateInsert)
    }
}

} // verus!
