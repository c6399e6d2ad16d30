//! Vaults that hold native value, a configuration naming the administrator, and a
//! freeze state that the administrator toggles to gate withdrawals.
//!
//! No handler succeeds unless every record it reads is owned by this program and sits
//! at its derived address. A field read before that (a vault's authority, the freeze
//! flag) can only refuse the request; the administrator is read from the config only
//! after both checks.
use vstd::prelude::*;

use crate::account::{arity_check, require_accounts, AccountRef};
use crate::address::{derivation, Address, SeedScheme, SignerSeeds};
use crate::effect::{plan_view, written, Effect, Record};
use crate::error::ProgramError;
use crate::state::{
    lemma_config_round_trip, Config, FreezeState, State, Vault, IDENTITY_RECORD_LEN, STATE_RECORD_LEN,
};
use crate::validate::{
    address_check, authority_check, owner_check, require_address, require_authority,
    require_owner, require_signer, require_unfrozen, signer_check, unfrozen_check,
};

verus! {

/// The instructions of the freeze-gated vault program.
#[derive(Clone, Copy, Debug, PartialEq, Eq, Structural)]
pub enum BlabladurInstruction {
    /// Creates the configuration and state records.
    ///
    /// Accounts: 0. `[s]` admin and payer; 1. `[w]` config (seeds `["config"]`);
    /// 2. `[w]` state (seeds `["state"]`).
    InitialiseProgram,
    /// Creates a user's vault.
    ///
    /// Accounts: 0. `[s]` user; 1. `[w]` vault (seeds `[user, "vault"]`).
    InitialiseVault,
    /// Moves the vault's whole balance to its authority.
    ///
    /// Accounts: 0. `[s]` user; 1. `[w]` vault; 2. `[]` state.
    Withdraw,
    /// Sets the freeze state; administrator only.
    ///
    /// Accounts: 0. `[s]` admin; 1. `[]` config; 2. `[w]` state.
    SetState { desired_state: FreezeState },
}

impl BlabladurInstruction {
    /// One tag byte; `SetState` adds one byte for the setting (0 frozen, 1 unfrozen).
    pub open spec fn spec_encode(self) -> Seq<u8> {
        match self {
            BlabladurInstruction::InitialiseProgram => seq![0u8],
            BlabladurInstruction::InitialiseVault => seq![1u8],
            BlabladurInstruction::Withdraw => seq![2u8],
            BlabladurInstruction::SetState { desired_state } => seq![
                3u8,
                if desired_state == FreezeState::Frozen { 0u8 } else { 1u8 },
            ],
        }
    }

    pub open spec fn spec_decode(b: Seq<u8>) -> Result<BlabladurInstruction, ProgramError> {
        if b.len() == 1 && b[0] == 0 {
            Ok(BlabladurInstruction::InitialiseProgram)
        } else if b.len() == 1 && b[0] == 1 {
            Ok(BlabladurInstruction::InitialiseVault)
        } else if b.len() == 1 && b[0] == 2 {
            Ok(BlabladurInstruction::Withdraw)
        } else if b.len() == 2 && b[0] == 3 && b[1] == 0 {
            Ok(BlabladurInstruction::SetState { desired_state: FreezeState::Frozen })
        } else if b.len() == 2 && b[0] == 3 && b[1] == 1 {
            Ok(BlabladurInstruction::SetState { desired_state: FreezeState::Unfrozen })
        } else {
            Err(ProgramError::DecodeError)
        }
    }

    pub fn encode(&self) -> (r: Vec<u8>)
        ensures
            r@ == self.spec_encode(),
    {
        let r = match self {
            BlabladurInstruction::InitialiseProgram => vec![0u8],
            BlabladurInstruction::InitialiseVault => vec![1u8],
            BlabladurInstruction::Withdraw => vec![2u8],
            BlabladurInstruction::SetState { desired_state } => match desired_state {
                FreezeState::Frozen => vec![3u8, 0u8],
                FreezeState::Unfrozen => vec![3u8, 1u8],
            },
        };
        assert(r@ =~= self.spec_encode());
        r
    }

    /// Reads an instruction; fails `DecodeError` on an unknown tag, an unknown
    /// setting, or trailing bytes.
    pub fn decode(b: &[u8]) -> (r: Result<BlabladurInstruction, ProgramError>)
        ensures
            r == BlabladurInstruction::spec_decode(b@),
    {
        if b.len() == 1 && b[0] == 0 {
            Ok(BlabladurInstruction::InitialiseProgram)
        } else if b.len() == 1 && b[0] == 1 {
            Ok(BlabladurInstruction::InitialiseVault)
        } else if b.len() == 1 && b[0] == 2 {
            Ok(BlabladurInstruction::Withdraw)
        } else if b.len() == 2 && b[0] == 3 && b[1] == 0 {
            Ok(BlabladurInstruction::SetState { desired_state: FreezeState::Frozen })
        } else if b.len() == 2 && b[0] == 3 && b[1] == 1 {
            Ok(BlabladurInstruction::SetState { desired_state: FreezeState::Unfrozen })
        } else {
            Err(ProgramError::DecodeError)
        }
    }
}

/// Decoding an encoded instruction gives it back.
pub proof fn lemma_instruction_round_trip(ix: BlabladurInstruction)
    ensures
        BlabladurInstruction::spec_decode(ix.spec_encode()) == Ok::<BlabladurInstruction, ProgramError>(ix),
{
}

/// `InitialiseProgram`: the admin signed, and config and state sit at their derived
/// addresses; then both records are created and written, the admin recorded.
pub open spec fn initialise_program_outcome(program: Seq<u8>, accounts: Seq<AccountRef>) -> Result<Seq<Effect>, ProgramError> {
    if arity_check(accounts, 3) is Err {
        Err(ProgramError::ArityError)
    } else if signer_check(accounts[0]) is Err {
        Err(ProgramError::MissingSignature)
    } else {
        match (derivation(program, SeedScheme::Config.spec_seeds()), derivation(program, SeedScheme::State.spec_seeds())) {
            (Err(e), _) => Err(e),
            (_, Err(e)) => Err(e),
            (Ok((config_address, config_bump)), Ok((state_address, state_bump))) => {
                if address_check(accounts[1], config_address) is Err {
                    Err(ProgramError::WrongAddress)
                } else if address_check(accounts[2], state_address) is Err {
                    Err(ProgramError::WrongAddress)
                } else {
                    Ok(seq![
                        Effect::CreateAccount { payer: 0, target: 1, space: 32, signer: Some(SignerSeeds { scheme: SeedScheme::Config, bump: config_bump }) },
                        Effect::CreateAccount { payer: 0, target: 2, space: 1, signer: Some(SignerSeeds { scheme: SeedScheme::State, bump: state_bump }) },
                        Effect::WriteRecord { target: 1, record: Record::Config(Config { admin: accounts[0].address }) },
                        Effect::WriteRecord { target: 2, record: Record::State(State { frozen: false }) },
                    ])
                }
            },
        }
    }
}

/// `InitialiseVault`: the vault sits at the user's derived address and the user
/// signed; then the vault is created and written with the user as its authority.
pub open spec fn initialise_vault_outcome(program: Seq<u8>, accounts: Seq<AccountRef>) -> Result<Seq<Effect>, ProgramError> {
    if arity_check(accounts, 2) is Err {
        Err(ProgramError::ArityError)
    } else {
        let scheme = SeedScheme::UserVault(accounts[0].address);
        match derivation(program, scheme.spec_seeds()) {
            Err(e) => Err(e),
            Ok((vault_address, bump)) => {
                if address_check(accounts[1], vault_address) is Err {
                    Err(ProgramError::WrongAddress)
                } else if signer_check(accounts[0]) is Err {
                    Err(ProgramError::MissingSignature)
                } else {
                    Ok(seq![
                        Effect::CreateAccount { payer: 0, target: 1, space: 32, signer: Some(SignerSeeds { scheme, bump }) },
                        Effect::WriteRecord { target: 1, record: Record::Vault(Vault { authority: accounts[0].address }) },
                    ])
                }
            },
        }
    }
}

/// `Withdraw`: vault and state owned by the program, the user signed, the vault's
/// authority is the user, and the state is open; then the state and the vault must
/// sit at their derived addresses, and the vault's whole balance moves to the user.
///
/// The freeze flag is read before the addresses are checked: it can only refuse,
/// and no request passes without both address checks.
pub open spec fn withdraw_outcome(program: Seq<u8>, accounts: Seq<AccountRef>) -> Result<Seq<Effect>, ProgramError> {
    if arity_check(accounts, 3) is Err {
        Err(ProgramError::ArityError)
    } else if owner_check(accounts[1], program) is Err {
        Err(ProgramError::WrongOwner)
    } else if owner_check(accounts[2], program) is Err {
        Err(ProgramError::WrongOwner)
    } else if signer_check(accounts[0]) is Err {
        Err(ProgramError::MissingSignature)
    } else {
        match Vault::spec_decode(accounts[1].data@) {
            Err(e) => Err(e),
            Ok(vault) => {
                if authority_check(accounts[0], vault.authority@) is Err {
                    Err(ProgramError::MissingSignature)
                } else {
                    match unfrozen_check(accounts[2]) {
                        Err(e) => Err(e),
                        Ok(_) => withdraw_addresses_outcome(program, accounts),
                    }
                }
            },
        }
    }
}

/// The last steps of `Withdraw`: the state and the vault at their derived addresses.
pub open spec fn withdraw_addresses_outcome(program: Seq<u8>, accounts: Seq<AccountRef>) -> Result<Seq<Effect>, ProgramError> {
    match derivation(program, SeedScheme::State.spec_seeds()) {
        Err(e) => Err(e),
        Ok((state_address, _)) => {
            if address_check(accounts[2], state_address) is Err {
                Err(ProgramError::WrongAddress)
            } else {
                match derivation(program, SeedScheme::UserVault(accounts[0].address).spec_seeds()) {
                    Err(e) => Err(e),
                    Ok((vault_address, _)) => {
                        if address_check(accounts[1], vault_address) is Err {
                            Err(ProgramError::WrongAddress)
                        } else {
                            Ok(seq![Effect::Transfer { from: 1, to: 0, amount: accounts[1].balance }])
                        }
                    },
                }
            }
        },
    }
}

/// `SetState`: config and state owned by the program, the admin signed, config and
/// state at their derived addresses, and the config (trusted only now) names the
/// admin; then the state record is rewritten.
pub open spec fn set_state_outcome(program: Seq<u8>, accounts: Seq<AccountRef>, desired: FreezeState) -> Result<Seq<Effect>, ProgramError> {
    if arity_check(accounts, 3) is Err {
        Err(ProgramError::ArityError)
    } else if owner_check(accounts[1], program) is Err {
        Err(ProgramError::WrongOwner)
    } else if owner_check(accounts[2], program) is Err {
        Err(ProgramError::WrongOwner)
    } else if signer_check(accounts[0]) is Err {
        Err(ProgramError::MissingSignature)
    } else {
        match (derivation(program, SeedScheme::Config.spec_seeds()), derivation(program, SeedScheme::State.spec_seeds())) {
            (Err(e), _) => Err(e),
            (_, Err(e)) => Err(e),
            (Ok((config_address, _)), Ok((state_address, _))) => {
                if address_check(accounts[1], config_address) is Err {
                    Err(ProgramError::WrongAddress)
                } else if address_check(accounts[2], state_address) is Err {
                    Err(ProgramError::WrongAddress)
                } else {
                    match Config::spec_decode(accounts[1].data@) {
                        Err(e) => Err(e),
                        Ok(config) => {
                            if authority_check(accounts[0], config.admin@) is Err {
                                Err(ProgramError::MissingSignature)
                            } else {
                                Ok(seq![Effect::WriteRecord { target: 2, record: Record::State(desired.spec_state()) }])
                            }
                        },
                    }
                }
            },
        }
    }
}

/// The plan for an invocation with `instruction_data` under `program`.
pub open spec fn process_outcome(program: Seq<u8>, accounts: Seq<AccountRef>, instruction_data: Seq<u8>) -> Result<Seq<Effect>, ProgramError> {
    match BlabladurInstruction::spec_decode(instruction_data) {
        Err(e) => Err(e),
        Ok(BlabladurInstruction::InitialiseProgram) => initialise_program_outcome(program, accounts),
        Ok(BlabladurInstruction::InitialiseVault) => initialise_vault_outcome(program, accounts),
        Ok(BlabladurInstruction::Withdraw) => withdraw_outcome(program, accounts),
        Ok(BlabladurInstruction::SetState { desired_state }) => set_state_outcome(program, accounts, desired_state),
    }
}

pub struct Processor {}

impl Processor {
    /// Decodes the instruction, binds and checks its accounts, and returns the
    /// effects of its one transition, or the first failure.
    pub fn process_instruction(
        program_id: &Address,
        accounts: &Vec<AccountRef>,
        instruction_data: &[u8],
    ) -> (r: Result<Vec<Effect>, ProgramError>)
        ensures
            plan_view(r) == process_outcome(program_id@, accounts@, instruction_data@),
    {
        match BlabladurInstruction::decode(instruction_data) {
            Err(e) => Err(e),
            Ok(BlabladurInstruction::InitialiseProgram) => Self::initialise_program(program_id, accounts),
            Ok(BlabladurInstruction::InitialiseVault) => Self::initialise_vault(program_id, accounts),
            Ok(BlabladurInstruction::Withdraw) => Self::withdraw(program_id, accounts),
            Ok(BlabladurInstruction::SetState { desired_state }) => Self::set_state(program_id, accounts, desired_state),
        }
    }

    fn initialise_program(program_id: &Address, accounts: &Vec<AccountRef>) -> (r: Result<Vec<Effect>, ProgramError>)
        ensures
            plan_view(r) == initialise_program_outcome(program_id@, accounts@),
    {
        if let Err(e) = require_accounts(accounts, 3) {
            return Err(e);
        }
        let admin = &accounts[0];
        if let Err(e) = require_signer(admin) {
            return Err(e);
        }
        let config = SeedScheme::Config.derive(program_id);
        let state = SeedScheme::State.derive(program_id);
        let config = match config {
            Err(e) => return Err(e),
            Ok(d) => d,
        };
        let state = match state {
            Err(e) => return Err(e),
            Ok(d) => d,
        };
        if let Err(e) = require_address(&accounts[1], &config.address) {
            return Err(e);
        }
        if let Err(e) = require_address(&accounts[2], &state.address) {
            return Err(e);
        }
        let effects = vec![
            Effect::CreateAccount { payer: 0, target: 1, space: IDENTITY_RECORD_LEN, signer: Some(SignerSeeds { scheme: SeedScheme::Config, bump: config.bump }) },
            Effect::CreateAccount { payer: 0, target: 2, space: STATE_RECORD_LEN, signer: Some(SignerSeeds { scheme: SeedScheme::State, bump: state.bump }) },
            Effect::WriteRecord { target: 1, record: Record::Config(Config { admin: admin.address }) },
            Effect::WriteRecord { target: 2, record: Record::State(State { frozen: false }) },
        ];
        assert(effects@ =~= initialise_program_outcome(program_id@, accounts@)->Ok_0);
        Ok(effects)
    }

    fn initialise_vault(program_id: &Address, accounts: &Vec<AccountRef>) -> (r: Result<Vec<Effect>, ProgramError>)
        ensures
            plan_view(r) == initialise_vault_outcome(program_id@, accounts@),
    {
        if let Err(e) = require_accounts(accounts, 2) {
            return Err(e);
        }
        let user = &accounts[0];
        let scheme = SeedScheme::UserVault(user.address);
        let vault = match scheme.derive(program_id) {
            Err(e) => return Err(e),
            Ok(d) => d,
        };
        if let Err(e) = require_address(&accounts[1], &vault.address) {
            return Err(e);
        }
        if let Err(e) = require_signer(user) {
            return Err(e);
        }
        let effects = vec![
            Effect::CreateAccount { payer: 0, target: 1, space: IDENTITY_RECORD_LEN, signer: Some(SignerSeeds { scheme, bump: vault.bump }) },
            Effect::WriteRecord { target: 1, record: Record::Vault(Vault { authority: user.address }) },
        ];
        assert(effects@ =~= initialise_vault_outcome(program_id@, accounts@)->Ok_0);
        Ok(effects)
    }

    fn withdraw(program_id: &Address, accounts: &Vec<AccountRef>) -> (r: Result<Vec<Effect>, ProgramError>)
        ensures
            plan_view(r) == withdraw_outcome(program_id@, accounts@),
    {
        if let Err(e) = require_accounts(accounts, 3) {
            return Err(e);
        }
        let user = &accounts[0];
        let vault = &accounts[1];
        let state = &accounts[2];
        if let Err(e) = require_owner(vault, program_id) {
            return Err(e);
        }
        if let Err(e) = require_owner(state, program_id) {
            return Err(e);
        }
        if let Err(e) = require_signer(user) {
            return Err(e);
        }
        let record = match Vault::decode(vault.data.as_slice()) {
            Err(e) => return Err(e),
            Ok(v) => v,
        };
        if let Err(e) = require_authority(user, &record.authority) {
            return Err(e);
        }
        if let Err(e) = require_unfrozen(state) {
            return Err(e);
        }
        let state_derived = match SeedScheme::State.derive(program_id) {
            Err(e) => return Err(e),
            Ok(d) => d,
        };
        if let Err(e) = require_address(state, &state_derived.address) {
            return Err(e);
        }
        let vault_derived = match SeedScheme::UserVault(user.address).derive(program_id) {
            Err(e) => return Err(e),
            Ok(d) => d,
        };
        if let Err(e) = require_address(vault, &vault_derived.address) {
            return Err(e);
        }
        let effects = vec![Effect::Transfer { from: 1, to: 0, amount: vault.balance }];
        assert(effects@ =~= withdraw_outcome(program_id@, accounts@)->Ok_0);
        Ok(effects)
    }

    fn set_state(program_id: &Address, accounts: &Vec<AccountRef>, desired_state: FreezeState) -> (r: Result<Vec<Effect>, ProgramError>)
        ensures
            plan_view(r) == set_state_outcome(program_id@, accounts@, desired_state),
    {
        if let Err(e) = require_accounts(accounts, 3) {
            return Err(e);
        }
        let admin = &accounts[0];
        let config = &accounts[1];
        let state = &accounts[2];
        if let Err(e) = require_owner(config, program_id) {
            return Err(e);
        }
        if let Err(e) = require_owner(state, program_id) {
            return Err(e);
        }
        if let Err(e) = require_signer(admin) {
            return Err(e);
        }
        let config_derived = SeedScheme::Config.derive(program_id);
        let state_derived = SeedScheme::State.derive(program_id);
        let config_derived = match config_derived {
            Err(e) => return Err(e),
            Ok(d) => d,
        };
        let state_derived = match state_derived {
            Err(e) => return Err(e),
            Ok(d) => d,
        };
        if let Err(e) = require_address(config, &config_derived.address) {
            return Err(e);
        }
        if let Err(e) = require_address(state, &state_derived.address) {
            return Err(e);
        }
        let record = match Config::decode(config.data.as_slice()) {
            Err(e) => return Err(e),
            Ok(c) => c,
        };
        if let Err(e) = require_authority(admin, &record.admin) {
            return Err(e);
        }
        let effects = vec![Effect::WriteRecord { target: 2, record: Record::State(desired_state.to_state()) }];
        assert(effects@ =~= set_state_outcome(program_id@, accounts@, desired_state)->Ok_0);
        Ok(effects)
    }
}

/// Once the host has created the two accounts of a successful `InitialiseProgram`
/// and its two writes are applied in order, the config reads back as naming the
/// signer as administrator and the state reads back open.
pub proof fn lemma_initialise_program_records(
    program: Seq<u8>,
    accounts: Seq<AccountRef>,
    instruction_data: Seq<u8>,
    created: Seq<AccountRef>,
    half_written: Seq<AccountRef>,
    after: Seq<AccountRef>,
)
    requires
        BlabladurInstruction::spec_decode(instruction_data) == Ok::<BlabladurInstruction, ProgramError>(
            BlabladurInstruction::InitialiseProgram,
        ),
        process_outcome(program, accounts, instruction_data) is Ok,
        ({
            let plan = process_outcome(program, accounts, instruction_data)->Ok_0;
            &&& plan[2] matches Effect::WriteRecord { target, record } && written(created, half_written, target as int, record.spec_encode())
            &&& plan[3] matches Effect::WriteRecord { target, record } && written(half_written, after, target as int, record.spec_encode())
        }),
    ensures
        Config::spec_decode(after[1].data@) == Ok::<Config, ProgramError>(Config { admin: accounts[0].address }),
        State::spec_decode(after[2].data@) == Ok::<State, ProgramError>(State { frozen: false }),
{
    lemma_config_round_trip(Config { admin: accounts[0].address });
    assert(after[1] == half_written[1]);
}

/// A `SetState` invocation succeeds only if its signer is the administrator named by
/// a configuration record that this program owns and that sits at the address
/// derived from `["config"]`; a look-alike record (a user's vault, say) is refused.
pub proof fn lemma_set_state_requires_admin(program: Seq<u8>, accounts: Seq<AccountRef>, instruction_data: Seq<u8>)
    requires
        BlabladurInstruction::spec_decode(instruction_data) matches Ok(BlabladurInstruction::SetState { .. }),
        process_outcome(program, accounts, instruction_data) is Ok,
    ensures
        accounts.len() >= 3,
        accounts[0].is_signer,
        accounts[1].owner@ == program,
        derivation(program, SeedScheme::Config.spec_seeds()) matches Ok((config_address, _))
            && accounts[1].address@ == config_address,
        Config::spec_decode(accounts[1].data@) matches Ok(config) && config.admin@ == accounts[0].address@,
{
}

/// A `SetState` invocation that names a configuration record owned by another
/// program is refused with `WrongOwner`, whatever administrator the record claims.
pub proof fn lemma_set_state_refuses_foreign_config(program: Seq<u8>, accounts: Seq<AccountRef>, instruction_data: Seq<u8>)
    requires
        BlabladurInstruction::spec_decode(instruction_data) matches Ok(BlabladurInstruction::SetState { .. }),
        accounts.len() >= 3,
        accounts[1].owner@ != program,
    ensures
        process_outcome(program, accounts, instruction_data) == Err::<Seq<Effect>, ProgramError>(ProgramError::WrongOwner),
{
}

/// While the state record reads frozen, no `Withdraw` invocation succeeds, and once
/// the owner, signer and authority checks pass it fails with `Frozen`. A failed
/// invocation plans no effect, so every balance stays as it was.
pub proof fn lemma_frozen_blocks_withdraw(program: Seq<u8>, accounts: Seq<AccountRef>, instruction_data: Seq<u8>)
    requires
        BlabladurInstruction::spec_decode(instruction_data) == Ok::<BlabladurInstruction, ProgramError>(BlabladurInstruction::Withdraw),
        accounts.len() >= 3,
        State::spec_decode(accounts[2].data@) == Ok::<State, ProgramError>(State { frozen: true }),
    ensures
        process_outcome(program, accounts, instruction_data) is Err,
        ({
            &&& accounts[1].owner@ == program
            &&& accounts[2].owner@ == program
            &&& accounts[0].is_signer
            &&& Vault::spec_decode(accounts[1].data@) matches Ok(vault) && vault.authority@ == accounts[0].address@
        }) ==> process_outcome(program, accounts, instruction_data) == Err::<Seq<Effect>, ProgramError>(ProgramError::Frozen),
{
}

/// A `Withdraw` that fails with `Frozen`, on a vault at the user's derived address,
/// succeeds, unchanged, once the administrator's `SetState { Unfrozen }` has been
/// applied to that same state account.
pub proof fn lemma_unfreeze_reopens_withdraw(
    program: Seq<u8>,
    withdraw_accounts: Seq<AccountRef>,
    withdraw_data: Seq<u8>,
    admin_accounts: Seq<AccountRef>,
    set_state_data: Seq<u8>,
    after: Seq<AccountRef>,
)
    requires
        BlabladurInstruction::spec_decode(withdraw_data) == Ok::<BlabladurInstruction, ProgramError>(BlabladurInstruction::Withdraw),
        process_outcome(program, withdraw_accounts, withdraw_data) == Err::<Seq<Effect>, ProgramError>(ProgramError::Frozen),
        derivation(program, SeedScheme::UserVault(withdraw_accounts[0].address).spec_seeds()) matches Ok((vault_address, _))
            && withdraw_accounts[1].address@ == vault_address,
        BlabladurInstruction::spec_decode(set_state_data) == Ok::<BlabladurInstruction, ProgramError>(
            BlabladurInstruction::SetState { desired_state: FreezeState::Unfrozen },
        ),
        process_outcome(program, admin_accounts, set_state_data) is Ok,
        admin_accounts[2] == withdraw_accounts[2],
        ({
            let effect = process_outcome(program, admin_accounts, set_state_data)->Ok_0[0];
            effect matches Effect::WriteRecord { target, record } && written(
                withdraw_accounts,
                after,
                target as int,
                record.spec_encode(),
            )
        }),
    ensures
        process_outcome(program, after, withdraw_data) is Ok,
{
    assert(after[0] == withdraw_accounts[0]);
    assert(after[1] == withdraw_accounts[1]);
    assert(after[2].data@ == State { frozen: false }.spec_encode());
}

/// A `Withdraw` whose signer is not the vault's recorded authority fails with
/// `WrongOwner` or `MissingSignature`, and so moves no value.
pub proof fn lemma_withdraw_requires_authority(program: Seq<u8>, accounts: Seq<AccountRef>, instruction_data: Seq<u8>)
    requires
        BlabladurInstruction::spec_decode(instruction_data) == Ok::<BlabladurInstruction, ProgramError>(BlabladurInstruction::Withdraw),
        accounts.len() >= 3,
        Vault::spec_decode(accounts[1].data@) matches Ok(vault) && vault.authority@ != accounts[0].address@,
    ensures
        process_outcome(program, accounts, instruction_data) == Err::<Seq<Effect>, ProgramError>(ProgramError::WrongOwner)
            || process_outcome(program, accounts, instruction_data) == Err::<Seq<Effect>, ProgramError>(ProgramError::MissingSignature),
{
}

} // verus!
