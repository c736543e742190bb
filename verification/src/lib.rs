//! Small, fully specified components built around a rotating audit-log
//! writer: a pure decision core, a narrow storage interface with an
//! in-memory implementation, and a set of companion domains (inventory,
//! ordering, user management) designed so that every observable behaviour
//! is stated in a contract.

use vstd::prelude::*;

pub mod audit;
pub mod delivery;
pub mod inventory;
pub mod orders;
pub mod persist;
pub mod purchasing;
pub mod storage;
pub mod strutil;
pub mod timestamp;
pub mod users;

verus! {

/// Sum of two machine integers; the caller guarantees the sum fits.
pub fn add(left: usize, right: usize) -> (r: usize)
    requires
        left + right <= usize::MAX,
    ensures
        r == left + right,
{
    left + right
}

} // verus!
