//! Account addressing and authorization-gated state transitions for a family of
//! small vault programs on an account-model ledger.
//!
//! Every program here is a pure planner: it reads the accounts it was handed and an
//! instruction buffer, runs its checks in a fixed order, and returns the ordered list
//! of effects that the host must carry out (or the first failure).
use vstd::prelude::*;

pub mod account;
pub mod account_confusion;
pub mod address;
pub mod effect;
pub mod error;
pub mod hello;
pub mod overflow;
pub mod state;
pub mod unchecked_owner;
pub mod validate;
pub mod welcome;

verus! {

/// Sum of two sizes; the caller keeps the sum within `usize`.
pub fn add(left: usize, right: usize) -> (r: usize)
    requires
        left + right <= usize::MAX,
    ensures
        r == left + right,
{
    left + right
}

} // verus!
