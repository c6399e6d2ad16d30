//! A deposit game: every player has a vault holding a counter, anyone may deposit
//! into any vault, and the lowest counter wins.
use vstd::prelude::*;

use crate::account::{arity_check, require_accounts, AccountRef};
use crate::address::{derivation, Address, SeedScheme, SignerSeeds};
use crate::effect::{plan_view, Effect, Record};
use crate::error::ProgramError;
use crate::state::{le_bytes, le_value, lemma_le_round_trip, spec_le_bytes, spec_le_value};
use crate::validate::{address_check, owner_check, require_address, require_owner, require_signer, signer_check};

verus! {

/// A player's vault: a counter of deposited units.
#[derive(Clone, Copy, Debug, PartialEq, Eq, Structural)]
pub struct Vault {
    pub amount: u32,
}

/// Size in bytes of an encoded counter vault.
pub const VAULT_LEN: usize = 4;

impl Vault {
    pub open spec fn spec_encode(self) -> Seq<u8> {
        spec_le_bytes(self.amount)
    }

    pub open spec fn spec_decode(b: Seq<u8>) -> Result<Vault, ProgramError> {
        if b.len() == 4 {
            Ok(Vault { amount: spec_le_value(b[0], b[1], b[2], b[3]) })
        } else {
            Err(ProgramError::SchemaError)
        }
    }

    pub fn encode(&self) -> (r: Vec<u8>)
        ensures
            r@ == self.spec_encode(),
    {
        le_bytes(self.amount)
    }

    /// Reads a counter vault: exactly four little-endian bytes, else `SchemaError`.
    pub fn decode(b: &[u8]) -> (r: Result<Vault, ProgramError>)
        ensures
            r == Vault::spec_decode(b@),
    {
        if b.len() == VAULT_LEN {
            Ok(Vault { amount: le_value(b[0], b[1], b[2], b[3]) })
        } else {
            Err(ProgramError::SchemaError)
        }
    }
}

/// Decoding an encoded counter vault gives it back.
pub proof fn lemma_vault_round_trip(v: Vault)
    ensures
        Vault::spec_decode(v.spec_encode()) == Ok::<Vault, ProgramError>(v),
{
    lemma_le_round_trip(v.amount);
}

/// The instructions of the deposit game.
#[derive(Clone, Copy, Debug, PartialEq, Eq, Structural)]
pub enum BlabladurInstruction {
    /// Adds `amount` to the counter of any player's vault.
    ///
    /// Accounts: 0. `[w]` the chosen vault.
    Deposit { amount: u32 },
    /// Creates the calling player's vault with a zero counter.
    ///
    /// Accounts: 0. `[s]` player; 1. `[w]` vault (seeds `[player, "vault"]`).
    InitialiseVault,
}

impl BlabladurInstruction {
    /// One tag byte; `Deposit` adds the amount as four little-endian bytes.
    pub open spec fn spec_encode(self) -> Seq<u8> {
        match self {
            BlabladurInstruction::Deposit { amount } => seq![0u8] + spec_le_bytes(amount),
            BlabladurInstruction::InitialiseVault => seq![1u8],
        }
    }

    pub open spec fn spec_decode(b: Seq<u8>) -> Result<BlabladurInstruction, ProgramError> {
        if b.len() == 5 && b[0] == 0 {
            Ok(BlabladurInstruction::Deposit { amount: spec_le_value(b[1], b[2], b[3], b[4]) })
        } else if b.len() == 1 && b[0] == 1 {
            Ok(BlabladurInstruction::InitialiseVault)
        } else {
            Err(ProgramError::DecodeError)
        }
    }

    pub fn encode(&self) -> (r: Vec<u8>)
        ensures
            r@ == self.spec_encode(),
    {
        match self {
            BlabladurInstruction::Deposit { amount } => {
                let mut r = vec![0u8];
                let mut tail = le_bytes(*amount);
                r.append(&mut tail);
                assert(r@ =~= self.spec_encode());
                r
            },
            BlabladurInstruction::InitialiseVault => {
                let r = vec![1u8];
                assert(r@ =~= self.spec_encode());
                r
            },
        }
    }

    /// Reads an instruction; fails `DecodeError` on an unknown tag, a short amount,
    /// or trailing bytes.
    pub fn decode(b: &[u8]) -> (r: Result<BlabladurInstruction, ProgramError>)
        ensures
            r == BlabladurInstruction::spec_decode(b@),
    {
        if b.len() == 5 && b[0] == 0 {
            Ok(BlabladurInstruction::Deposit { amount: le_value(b[1], b[2], b[3], b[4]) })
        } else if b.len() == 1 && b[0] == 1 {
            Ok(BlabladurInstruction::InitialiseVault)
        } else {
            Err(ProgramError::DecodeError)
        }
    }
}

/// Decoding an encoded instruction gives it back.
pub proof fn lemma_instruction_round_trip(ix: BlabladurInstruction)
    ensures
        BlabladurInstruction::spec_decode(ix.spec_encode()) == Ok::<BlabladurInstruction, ProgramError>(ix),
{
    if let BlabladurInstruction::Deposit { amount } = ix {
        lemma_le_round_trip(amount);
        let b = ix.spec_encode();
        assert(b[1] == spec_le_bytes(amount)[0]);
        assert(b[2] == spec_le_bytes(amount)[1]);
        assert(b[3] == spec_le_bytes(amount)[2]);
        assert(b[4] == spec_le_bytes(amount)[3]);
    }
}

/// `InitialiseVault`: the vault sits at the player's derived address and the player
/// signed; then the vault is created, its zeroed bytes reading as a zero counter.
pub open spec fn initialise_vault_outcome(program: Seq<u8>, accounts: Seq<AccountRef>) -> Result<Seq<Effect>, ProgramError> {
    if arity_check(accounts, 2) is Err {
        Err(ProgramError::ArityError)
    } else {
        let scheme = SeedScheme::UserVault(accounts[0].address);
        match derivation(program, scheme.spec_seeds()) {
            Err(e) => Err(e),
            Ok((vault_address, bump)) => {
                if address_check(accounts[1], vault_address) is Err {
                    Err(ProgramError::WrongAddress)
                } else if signer_check(accounts[0]) is Err {
                    Err(ProgramError::MissingSignature)
                } else {
                    Ok(seq![Effect::CreateAccount { payer: 0, target: 1, space: 4, signer: Some(SignerSeeds { scheme, bump }) }])
                }
            },
        }
    }
}

/// `Deposit`: the vault is owned by the program and holds a counter; the amount is
/// added, and a sum past the counter's range is refused with `ArithmeticOverflow`.
pub open spec fn deposit_outcome(program: Seq<u8>, accounts: Seq<AccountRef>, amount: u32) -> Result<Seq<Effect>, ProgramError> {
    if arity_check(accounts, 1) is Err {
        Err(ProgramError::ArityError)
    } else if owner_check(accounts[0], program) is Err {
        Err(ProgramError::WrongOwner)
    } else {
        match Vault::spec_decode(accounts[0].data@) {
            Err(e) => Err(e),
            Ok(vault) => {
                if vault.amount + amount > u32::MAX {
                    Err(ProgramError::ArithmeticOverflow)
                } else {
                    Ok(seq![Effect::WriteRecord { target: 0, record: Record::Counter(Vault { amount: (vault.amount + amount) as u32 }) }])
                }
            },
        }
    }
}

/// The plan for an invocation with `instruction_data` under `program`.
pub open spec fn process_outcome(program: Seq<u8>, accounts: Seq<AccountRef>, instruction_data: Seq<u8>) -> Result<Seq<Effect>, ProgramError> {
    match BlabladurInstruction::spec_decode(instruction_data) {
        Err(e) => Err(e),
        Ok(BlabladurInstruction::Deposit { amount }) => deposit_outcome(program, accounts, amount),
        Ok(BlabladurInstruction::InitialiseVault) => initialise_vault_outcome(program, accounts),
    }
}

pub struct Processor {}

impl Processor {
    /// Decodes the instruction, binds and checks its accounts, and returns the
    /// effects of its one transition, or the first failure.
    pub fn process_instruction(
        program_id: &Address,
        accounts: &Vec<AccountRef>,
        instruction_data: &[u8],
    ) -> (r: Result<Vec<Effect>, ProgramError>)
        ensures
            plan_view(r) == process_outcome(program_id@, accounts@, instruction_data@),
    {
        match BlabladurInstruction::decode(instruction_data) {
            Err(e) => Err(e),
            Ok(BlabladurInstruction::Deposit { amount }) => Self::deposit(program_id, accounts, amount),
            Ok(BlabladurInstruction::InitialiseVault) => Self::initialise_vault(program_id, accounts),
        }
    }

    fn initialise_vault(program_id: &Address, accounts: &Vec<AccountRef>) -> (r: Result<Vec<Effect>, ProgramError>)
        ensures
            plan_view(r) == initialise_vault_outcome(program_id@, accounts@),
    {
        if let Err(e) = require_accounts(accounts, 2) {
            return Err(e);
        }
        let player = &accounts[0];
        let scheme = SeedScheme::UserVault(player.address);
        let vault = match scheme.derive(program_id) {
            Err(e) => return Err(e),
            Ok(d) => d,
        };
        if let Err(e) = require_address(&accounts[1], &vault.address) {
            return Err(e);
        }
        if let Err(e) = require_signer(player) {
            return Err(e);
        }
        let effects = vec![
            Effect::CreateAccount { payer: 0, target: 1, space: VAULT_LEN, signer: Some(SignerSeeds { scheme, bump: vault.bump }) },
        ];
        assert(effects@ =~= initialise_vault_outcome(program_id@, accounts@)->Ok_0);
        Ok(effects)
    }

    fn deposit(program_id: &Address, accounts: &Vec<AccountRef>, amount: u32) -> (r: Result<Vec<Effect>, ProgramError>)
        ensures
            plan_view(r) == deposit_outcome(program_id@, accounts@, amount),
    {
        if let Err(e) = require_accounts(accounts, 1) {
            return Err(e);
        }
        let vault = &accounts[0];
        if let Err(e) = require_owner(vault, program_id) {
            return Err(e);
        }
        let record = match Vault::decode(vault.data.as_slice()) {
            Err(e) => return Err(e),
            Ok(v) => v,
        };
        let total = match record.amount.checked_add(amount) {
            None => return Err(ProgramError::ArithmeticOverflow),
            Some(t) => t,
        };
        let effects = vec![Effect::WriteRecord { target: 0, record: Record::Counter(Vault { amount: total }) }];
        assert(effects@ =~= deposit_outcome(program_id@, accounts@, amount)->Ok_0);
        Ok(effects)
    }
}

} // verus!
