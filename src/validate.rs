//! The predicates that handlers compose, each in its own fixed order, before any
//! effect is planned.
use vstd::prelude::*;

use crate::account::AccountRef;
use crate::address::Address;
use crate::error::ProgramError;
use crate::state::State;

verus! {

pub open spec fn signer_check(a: AccountRef) -> Result<(), ProgramError> {
    if a.is_signer {
        Ok(())
    } else {
        Err(ProgramError::MissingSignature)
    }
}

pub open spec fn owner_check(a: AccountRef, program: Seq<u8>) -> Result<(), ProgramError> {
    if a.owner@ == program {
        Ok(())
    } else {
        Err(ProgramError::WrongOwner)
    }
}

pub open spec fn address_check(a: AccountRef, expected: Seq<u8>) -> Result<(), ProgramError> {
    if a.address@ == expected {
        Ok(())
    } else {
        Err(ProgramError::WrongAddress)
    }
}

pub open spec fn authority_check(signer: AccountRef, authority: Seq<u8>) -> Result<(), ProgramError> {
    if signer.address@ == authority {
        Ok(())
    } else {
        Err(ProgramError::MissingSignature)
    }
}

pub open spec fn unfrozen_check(state: AccountRef) -> Result<(), ProgramError> {
    match State::spec_decode(state.data@) {
        Ok(s) => if s.frozen {
            Err(ProgramError::Frozen)
        } else {
            Ok(())
        },
        Err(e) => Err(e),
    }
}

/// Fails `MissingSignature` unless the account signed the transaction.
pub fn require_signer(a: &AccountRef) -> (r: Result<(), ProgramError>)
    ensures
        r == signer_check(*a),
{
    if a.is_signer {
        Ok(())
    } else {
        Err(ProgramError::MissingSignature)
    }
}

/// Fails `WrongOwner` unless the account is owned by `program`.
pub fn require_owner(a: &AccountRef, program: &Address) -> (r: Result<(), ProgramError>)
    ensures
        r == owner_check(*a, program@),
{
    if a.owner.equals(program) {
        Ok(())
    } else {
        Err(ProgramError::WrongOwner)
    }
}

/// Fails `WrongAddress` unless the account sits at `expected`.
pub fn require_address(a: &AccountRef, expected: &Address) -> (r: Result<(), ProgramError>)
    ensures
        r == address_check(*a, expected@),
{
    if a.address.equals(expected) {
        Ok(())
    } else {
        Err(ProgramError::WrongAddress)
    }
}

/// Fails `MissingSignature` unless the account is the identity `authority` named by
/// an already authenticated record.
pub fn require_authority(signer: &AccountRef, authority: &Address) -> (r: Result<(), ProgramError>)
    ensures
        r == authority_check(*signer, authority@),
{
    if signer.address.equals(authority) {
        Ok(())
    } else {
        Err(ProgramError::MissingSignature)
    }
}

/// Decodes the state record; fails `SchemaError` on a corrupt record and `Frozen`
/// when the state reads frozen.
pub fn require_unfrozen(state: &AccountRef) -> (r: Result<(), ProgramError>)
    ensures
        r == unfrozen_check(*state),
{
    match State::decode(state.data.as_slice()) {
        Ok(s) => if s.frozen {
            Err(ProgramError::Frozen)
        } else {
            Ok(())
        },
        Err(e) => Err(e),
    }
}

} // verus!
