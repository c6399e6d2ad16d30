//! Account references handed to a program, and the positional resolver.
use vstd::prelude::*;

use crate::address::Address;
use crate::error::ProgramError;

verus! {

/// A handle to one ledger record as the host hands it to an invocation.
#[derive(Clone, Debug, PartialEq, Eq)]
pub struct AccountRef {
    pub address: Address,
    /// The program that may write this record.
    pub owner: Address,
    /// Whether the transaction carries this account's signature.
    pub is_signer: bool,
    pub is_writable: bool,
    /// Native value held by the account.
    pub balance: u64,
    /// The record's bytes; their length is fixed when the account is created.
    pub data: Vec<u8>,
}

/// What the resolver reports for a schema of `n` positions.
pub open spec fn arity_check(accounts: Seq<AccountRef>, n: nat) -> Result<(), ProgramError> {
    if accounts.len() >= n {
        Ok(())
    } else {
        Err(ProgramError::ArityError)
    }
}

/// Binds the first `n` accounts to the schema's positions; fails `ArityError` when
/// fewer are supplied. Extra accounts are ignored.
pub fn require_accounts(accounts: &Vec<AccountRef>, n: usize) -> (r: Result<(), ProgramError>)
    ensures
        r == arity_check(accounts@, n as nat),
{
    if accounts.len() >= n {
        Ok(())
    } else {
        Err(ProgramError::ArityError)
    }
}

} // verus!
