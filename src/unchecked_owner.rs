//! A program-wide vault that anyone may fund and that only the administrator may
//! close, sweeping its whole balance to the administrator.
//!
//! The administrator is read from a configuration record, so that record's owner is
//! checked before its `admin` field is trusted: a lookalike record written by
//! another program would otherwise name any administrator it likes.
use vstd::prelude::*;

use crate::account::{arity_check, require_accounts, AccountRef};
use crate::address::{derivation, Address, SeedScheme, SignerSeeds};
use crate::effect::{plan_view, Effect, Record};
use crate::error::ProgramError;
use crate::state::{Config, IDENTITY_RECORD_LEN};
use crate::validate::{
    address_check, authority_check, owner_check, require_address, require_authority,
    require_owner, require_signer, signer_check,
};

verus! {

/// The instructions of the administrator-closed vault program.
#[derive(Clone, Copy, Debug, PartialEq, Eq, Structural)]
pub enum BlabladurInstruction {
    /// Creates the configuration record and the vault.
    ///
    /// Accounts: 0. `[s]` payer, recorded as administrator; 1. `[s]` config (a fresh
    /// keypair); 2. `[w]` vault (seeds `["vault"]`).
    Initialise,
    /// Sends the vault's whole balance to the administrator.
    ///
    /// Accounts: 0. `[s]` administrator; 1. `[]` config; 2. `[w]` vault.
    CloseContract,
}

/// The vault holds native value only: its record has no bytes.
pub const VAULT_SPACE: usize = 0;

impl BlabladurInstruction {
    /// One tag byte.
    pub open spec fn spec_encode(self) -> Seq<u8> {
        match self {
            BlabladurInstruction::Initialise => seq![0u8],
            BlabladurInstruction::CloseContract => seq![1u8],
        }
    }

    pub open spec fn spec_decode(b: Seq<u8>) -> Result<BlabladurInstruction, ProgramError> {
        if b.len() == 1 && b[0] == 0 {
            Ok(BlabladurInstruction::Initialise)
        } else if b.len() == 1 && b[0] == 1 {
            Ok(BlabladurInstruction::CloseContract)
        } else {
            Err(ProgramError::DecodeError)
        }
    }

    pub fn encode(&self) -> (r: Vec<u8>)
        ensures
            r@ == self.spec_encode(),
    {
        let r = match self {
            BlabladurInstruction::Initialise => vec![0u8],
            BlabladurInstruction::CloseContract => vec![1u8],
        };
        assert(r@ =~= self.spec_encode());
        r
    }

    /// Reads an instruction; fails `DecodeError` on an unknown tag or trailing bytes.
    pub fn decode(b: &[u8]) -> (r: Result<BlabladurInstruction, ProgramError>)
        ensures
            r == BlabladurInstruction::spec_decode(b@),
    {
        if b.len() == 1 && b[0] == 0 {
            Ok(BlabladurInstruction::Initialise)
        } else if b.len() == 1 && b[0] == 1 {
            Ok(BlabladurInstruction::CloseContract)
        } else {
            Err(ProgramError::DecodeError)
        }
    }
}

/// Decoding an encoded instruction gives it back.
pub proof fn lemma_instruction_round_trip(ix: BlabladurInstruction)
    ensures
        BlabladurInstruction::spec_decode(ix.spec_encode()) == Ok::<BlabladurInstruction, ProgramError>(ix),
{
}

/// `Initialise`: payer and config signed, and the vault sits at its derived address;
/// then config and vault are created and the payer is recorded as administrator.
pub open spec fn initialise_outcome(program: Seq<u8>, accounts: Seq<AccountRef>) -> Result<Seq<Effect>, ProgramError> {
    if arity_check(accounts, 3) is Err {
        Err(ProgramError::ArityError)
    } else if signer_check(accounts[0]) is Err {
        Err(ProgramError::MissingSignature)
    } else if signer_check(accounts[1]) is Err {
        Err(ProgramError::MissingSignature)
    } else {
        match derivation(program, SeedScheme::Vault.spec_seeds()) {
            Err(e) => Err(e),
            Ok((vault_address, bump)) => {
                if address_check(accounts[2], vault_address) is Err {
                    Err(ProgramError::WrongAddress)
                } else {
                    Ok(seq![
                        Effect::CreateAccount { payer: 0, target: 1, space: 32, signer: None },
                        Effect::CreateAccount { payer: 0, target: 2, space: 0, signer: Some(SignerSeeds { scheme: SeedScheme::Vault, bump }) },
                        Effect::WriteRecord { target: 1, record: Record::Config(Config { admin: accounts[0].address }) },
                    ])
                }
            },
        }
    }
}

/// `CloseContract`: config and vault owned by the program, the admin signed, the
/// config (trusted only now) names the admin, and the vault sits at its derived
/// address; then the vault's whole balance moves to the admin.
pub open spec fn close_contract_outcome(program: Seq<u8>, accounts: Seq<AccountRef>) -> Result<Seq<Effect>, ProgramError> {
    if arity_check(accounts, 3) is Err {
        Err(ProgramError::ArityError)
    } else if owner_check(accounts[1], program) is Err {
        Err(ProgramError::WrongOwner)
    } else if owner_check(accounts[2], program) is Err {
        Err(ProgramError::WrongOwner)
    } else if signer_check(accounts[0]) is Err {
        Err(ProgramError::MissingSignature)
    } else {
        match Config::spec_decode(accounts[1].data@) {
            Err(e) => Err(e),
            Ok(config) => {
                if authority_check(accounts[0], config.admin@) is Err {
                    Err(ProgramError::MissingSignature)
                } else {
                    match derivation(program, SeedScheme::Vault.spec_seeds()) {
                        Err(e) => Err(e),
                        Ok((vault_address, _)) => {
                            if address_check(accounts[2], vault_address) is Err {
                                Err(ProgramError::WrongAddress)
                            } else {
                                Ok(seq![Effect::Transfer { from: 2, to: 0, amount: accounts[2].balance }])
                            }
                        },
                    }
                }
            },
        }
    }
}

/// The plan for an invocation with `instruction_data` under `program`.
pub open spec fn process_outcome(program: Seq<u8>, accounts: Seq<AccountRef>, instruction_data: Seq<u8>) -> Result<Seq<Effect>, ProgramError> {
    match BlabladurInstruction::spec_decode(instruction_data) {
        Err(e) => Err(e),
        Ok(BlabladurInstruction::Initialise) => initialise_outcome(program, accounts),
        Ok(BlabladurInstruction::CloseContract) => close_contract_outcome(program, accounts),
    }
}

pub struct Processor {}

impl Processor {
    /// Decodes the instruction, binds and checks its accounts, and returns the
    /// effects of its one transition, or the first failure.
    pub fn process_instruction(
        program_id: &Address,
        accounts: &Vec<AccountRef>,
        instruction_data: &[u8],
    ) -> (r: Result<Vec<Effect>, ProgramError>)
        ensures
            plan_view(r) == process_outcome(program_id@, accounts@, instruction_data@),
    {
        match BlabladurInstruction::decode(instruction_data) {
            Err(e) => Err(e),
            Ok(BlabladurInstruction::Initialise) => Self::initialise(program_id, accounts),
            Ok(BlabladurInstruction::CloseContract) => Self::close_contract(program_id, accounts),
        }
    }

    fn initialise(program_id: &Address, accounts: &Vec<AccountRef>) -> (r: Result<Vec<Effect>, ProgramError>)
        ensures
            plan_view(r) == initialise_outcome(program_id@, accounts@),
    {
        if let Err(e) = require_accounts(accounts, 3) {
            return Err(e);
        }
        let payer = &accounts[0];
        if let Err(e) = require_signer(payer) {
            return Err(e);
        }
        if let Err(e) = require_signer(&accounts[1]) {
            return Err(e);
        }
        let vault = match SeedScheme::Vault.derive(program_id) {
            Err(e) => return Err(e),
            Ok(d) => d,
        };
        if let Err(e) = require_address(&accounts[2], &vault.address) {
            return Err(e);
        }
        let effects = vec![
            Effect::CreateAccount { payer: 0, target: 1, space: IDENTITY_RECORD_LEN, signer: None },
            Effect::CreateAccount { payer: 0, target: 2, space: VAULT_SPACE, signer: Some(SignerSeeds { scheme: SeedScheme::Vault, bump: vault.bump }) },
            Effect::WriteRecord { target: 1, record: Record::Config(Config { admin: payer.address }) },
        ];
        assert(effects@ =~= initialise_outcome(program_id@, accounts@)->Ok_0);
        Ok(effects)
    }

    fn close_contract(program_id: &Address, accounts: &Vec<AccountRef>) -> (r: Result<Vec<Effect>, ProgramError>)
        ensures
            plan_view(r) == close_contract_outcome(program_id@, accounts@),
    {
        if let Err(e) = require_accounts(accounts, 3) {
            return Err(e);
        }
        let admin = &accounts[0];
        let config = &accounts[1];
        let vault = &accounts[2];
        if let Err(e) = require_owner(config, program_id) {
            return Err(e);
        }
        if let Err(e) = require_owner(vault, program_id) {
            return Err(e);
        }
        if let Err(e) = require_signer(admin) {
            return Err(e);
        }
        let record = match Config::decode(config.data.as_slice()) {
            Err(e) => return Err(e),
            Ok(c) => c,
        };
        if let Err(e) = require_authority(admin, &record.admin) {
            return Err(e);
        }
        let derived = match SeedScheme::Vault.derive(program_id) {
            Err(e) => return Err(e),
            Ok(d) => d,
        };
        if let Err(e) = require_address(vault, &derived.address) {
            return Err(e);
        }
        let effects = vec![Effect::Transfer { from: 2, to: 0, amount: vault.balance }];
        assert(effects@ =~= close_contract_outcome(program_id@, accounts@)->Ok_0);
        Ok(effects)
    }
}

/// A `CloseContract` invocation succeeds only if its signer is the administrator
/// named by a configuration record that this program owns.
pub proof fn lemma_close_requires_admin(program: Seq<u8>, accounts: Seq<AccountRef>, instruction_data: Seq<u8>)
    requires
        BlabladurInstruction::spec_decode(instruction_data) == Ok::<BlabladurInstruction, ProgramError>(BlabladurInstruction::CloseContract),
        process_outcome(program, accounts, instruction_data) is Ok,
    ensures
        accounts.len() >= 3,
        accounts[0].is_signer,
        accounts[1].owner@ == program,
        Config::spec_decode(accounts[1].data@) matches Ok(config) && config.admin@ == accounts[0].address@,
{
}

/// A `CloseContract` invocation that names a configuration record owned by another
/// program is refused with `WrongOwner`, whatever administrator the record claims.
pub proof fn lemma_close_refuses_foreign_config(program: Seq<u8>, accounts: Seq<AccountRef>, instruction_data: Seq<u8>)
    requires
        BlabladurInstruction::spec_decode(instruction_data) == Ok::<BlabladurInstruction, ProgramError>(BlabladurInstruction::CloseContract),
        accounts.len() >= 3,
        accounts[1].owner@ != program,
    ensures
        process_outcome(program, accounts, instruction_data) == Err::<Seq<Effect>, ProgramError>(ProgramError::WrongOwner),
{
}

} // verus!
