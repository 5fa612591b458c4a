//! Index arithmetic and update rules of a two-level, grow-only page table
//! that maps dense page identifiers to pages.
use vstd::prelude::*;

pub mod ids;
pub mod teardown;
pub mod update;

verus! {

} // verus!
