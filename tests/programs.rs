use blabladur::account::AccountRef;
use blabladur::account_confusion;
use blabladur::address::{Address, SeedScheme};
use blabladur::effect::{apply_effect, Effect};
use blabladur::error::ProgramError;
use blabladur::hello;
use blabladur::overflow;
use blabladur::state::{Config, FreezeState, State, Vault};
use blabladur::unchecked_owner;
use blabladur::welcome;

type Process = fn(&Address, &Vec<AccountRef>, &[u8]) -> Result<Vec<Effect>, ProgramError>;

const SOL: u64 = 1_000_000_000;
const SYSTEM: Address = Address { bytes: [0; 32] };

/// A stand-in for the host: it holds every account, hands an invocation the
/// accounts it names, carries out the plan, and keeps the writes only on success.
struct Ledger {
    accounts: Vec<AccountRef>,
}

impl Ledger {
    fn new() -> Ledger {
        Ledger { accounts: Vec::new() }
    }

    fn fund(&mut self, address: Address, amount: u64) {
        match self.accounts.iter_mut().find(|a| a.address == address) {
            Some(a) => a.balance += amount,
            None => self.accounts.push(AccountRef {
                address,
                owner: SYSTEM,
                is_signer: false,
                is_writable: true,
                balance: amount,
                data: Vec::new(),
            }),
        }
    }

    fn put(&mut self, account: AccountRef) {
        self.accounts.retain(|a| a.address != account.address);
        self.accounts.push(account);
    }

    fn get(&self, address: Address) -> AccountRef {
        match self.accounts.iter().find(|a| a.address == address) {
            Some(a) => a.clone(),
            None => AccountRef {
                address,
                owner: SYSTEM,
                is_signer: false,
                is_writable: true,
                balance: 0,
                data: Vec::new(),
            },
        }
    }

    fn balance(&self, address: Address) -> u64 {
        self.get(address).balance
    }

    fn invoke(&mut self, process: Process, program: Address, metas: &[(Address, bool)], data: &[u8]) -> Result<(), ProgramError> {
        let mut accounts: Vec<AccountRef> = metas
            .iter()
            .map(|(address, signer)| {
                let mut a = self.get(*address);
                a.is_signer = *signer;
                a
            })
            .collect();
        let plan = process(&program, &accounts, data)?;
        for effect in &plan {
            match effect {
                Effect::CreateAccount { payer, target, space, .. } => {
                    let minimum = 890_880 + 6_960 * (*space as u64);
                    if accounts[*target].owner != SYSTEM || accounts[*payer].balance < minimum {
                        return Err(ProgramError::HostError);
                    }
                    accounts[*payer].balance -= minimum;
                    accounts[*target].balance += minimum;
                    accounts[*target].owner = program;
                    accounts[*target].data = vec![0; *space];
                }
                _ => apply_effect(&mut accounts, effect)?,
            }
        }
        for mut a in accounts {
            a.is_signer = false;
            self.put(a);
        }
        Ok(())
    }
}

fn confusion(ix: account_confusion::BlabladurInstruction) -> Vec<u8> {
    ix.encode()
}

/// Program, admin, user, and the three derived addresses of the freeze-gated vault.
fn freeze_setup() -> (Ledger, Address, Address, Address, Address, Address, Address) {
    let program = Address::new([7; 32]);
    let admin = Address::new([1; 32]);
    let user = Address::new([2; 32]);
    let config = SeedScheme::Config.derive(&program).unwrap().address;
    let state = SeedScheme::State.derive(&program).unwrap().address;
    let vault = SeedScheme::UserVault(user).derive(&program).unwrap().address;
    let mut ledger = Ledger::new();
    ledger.fund(admin, 10 * SOL);
    ledger.fund(user, SOL);
    let init = confusion(account_confusion::BlabladurInstruction::InitialiseProgram);
    let p: Process = account_confusion::Processor::process_instruction;
    assert_eq!(ledger.invoke(p, program, &[(admin, true), (config, false), (state, false)], &init), Ok(()));
    let init_vault = confusion(account_confusion::BlabladurInstruction::InitialiseVault);
    assert_eq!(ledger.invoke(p, program, &[(user, true), (vault, false)], &init_vault), Ok(()));
    (ledger, program, admin, user, config, state, vault)
}

#[test]
fn freeze_flow_initialises_records() {
    let (ledger, program, admin, user, config, state, vault) = freeze_setup();
    assert_eq!(Config::decode(&ledger.get(config).data), Ok(Config { admin }));
    assert_eq!(State::decode(&ledger.get(state).data), Ok(State { frozen: false }));
    assert_eq!(Vault::decode(&ledger.get(vault).data), Ok(Vault { authority: user }));
    assert_eq!(ledger.get(vault).owner, program);
    assert_eq!(ledger.get(config).owner, program);
}

#[test]
fn frozen_withdrawal_fails_then_succeeds_after_unfreeze() {
    let (mut ledger, program, admin, user, config, state, vault) = freeze_setup();
    let p: Process = account_confusion::Processor::process_instruction;
    let admin_accounts = [(admin, true), (config, false), (state, false)];
    let freeze = confusion(account_confusion::BlabladurInstruction::SetState { desired_state: FreezeState::Frozen });
    assert_eq!(ledger.invoke(p, program, &admin_accounts, &freeze), Ok(()));
    assert_eq!(State::decode(&ledger.get(state).data), Ok(State { frozen: true }));

    let withdraw = confusion(account_confusion::BlabladurInstruction::Withdraw);
    let user_accounts = [(user, true), (vault, false), (state, false)];
    let before = (ledger.balance(user), ledger.balance(vault));
    assert!(before.1 > 0);
    assert_eq!(ledger.invoke(p, program, &user_accounts, &withdraw), Err(ProgramError::Frozen));
    assert_eq!((ledger.balance(user), ledger.balance(vault)), before);

    let unfreeze = confusion(account_confusion::BlabladurInstruction::SetState { desired_state: FreezeState::Unfrozen });
    assert_eq!(ledger.invoke(p, program, &admin_accounts, &unfreeze), Ok(()));
    assert_eq!(State::decode(&ledger.get(state).data), Ok(State { frozen: false }));
    assert_eq!(ledger.invoke(p, program, &user_accounts, &withdraw), Ok(()));
    assert_eq!(ledger.balance(vault), 0);
    assert_eq!(ledger.balance(user), before.0 + before.1);
}

#[test]
fn withdrawal_by_another_signer_is_refused() {
    let (mut ledger, program, _admin, _user, _config, state, vault) = freeze_setup();
    let thief = Address::new([66; 32]);
    ledger.fund(thief, SOL);
    let p: Process = account_confusion::Processor::process_instruction;
    let withdraw = confusion(account_confusion::BlabladurInstruction::Withdraw);
    let before = (ledger.balance(thief), ledger.balance(vault));
    let r = ledger.invoke(p, program, &[(thief, true), (vault, false), (state, false)], &withdraw);
    assert_eq!(r, Err(ProgramError::MissingSignature));
    assert_eq!((ledger.balance(thief), ledger.balance(vault)), before);
}

#[test]
fn withdrawal_without_signature_is_refused() {
    let (mut ledger, program, _admin, user, _config, state, vault) = freeze_setup();
    let p: Process = account_confusion::Processor::process_instruction;
    let withdraw = confusion(account_confusion::BlabladurInstruction::Withdraw);
    let r = ledger.invoke(p, program, &[(user, false), (vault, false), (state, false)], &withdraw);
    assert_eq!(r, Err(ProgramError::MissingSignature));
    let r = ledger.invoke(p, program, &[(user, true), (vault, false)], &withdraw);
    assert_eq!(r, Err(ProgramError::ArityError));
}

#[test]
fn set_state_refuses_a_forged_config() {
    let (mut ledger, program, _admin, _user, _config, state, _vault) = freeze_setup();
    let hacker = Address::new([66; 32]);
    let hacker_program = Address::new([99; 32]);
    let forged = Address::new([77; 32]);
    ledger.put(AccountRef {
        address: forged,
        owner: hacker_program,
        is_signer: false,
        is_writable: true,
        balance: SOL,
        data: Config { admin: hacker }.encode(),
    });
    let p: Process = account_confusion::Processor::process_instruction;
    let freeze = confusion(account_confusion::BlabladurInstruction::SetState { desired_state: FreezeState::Frozen });
    let r = ledger.invoke(p, program, &[(hacker, true), (forged, false), (state, false)], &freeze);
    assert_eq!(r, Err(ProgramError::WrongOwner));
    assert_eq!(State::decode(&ledger.get(state).data), Ok(State { frozen: false }));
}

#[test]
fn set_state_refuses_a_vault_posing_as_config() {
    let (mut ledger, program, _admin, user, _config, state, vault) = freeze_setup();
    let p: Process = account_confusion::Processor::process_instruction;
    // The user's own vault is program-owned and holds 32 bytes naming the user.
    assert_eq!(ledger.get(vault).owner, program);
    assert_eq!(Config::decode(&ledger.get(vault).data), Ok(Config { admin: user }));
    let freeze = confusion(account_confusion::BlabladurInstruction::SetState { desired_state: FreezeState::Frozen });
    let r = ledger.invoke(p, program, &[(user, true), (vault, false), (state, false)], &freeze);
    assert_eq!(r, Err(ProgramError::WrongAddress));
    assert_eq!(State::decode(&ledger.get(state).data), Ok(State { frozen: false }));
}

#[test]
fn set_state_refuses_a_state_off_its_derived_address() {
    let (mut ledger, program, admin, _user, config, _state, vault) = freeze_setup();
    let p: Process = account_confusion::Processor::process_instruction;
    let freeze = confusion(account_confusion::BlabladurInstruction::SetState { desired_state: FreezeState::Frozen });
    let r = ledger.invoke(p, program, &[(admin, true), (config, false), (vault, false)], &freeze);
    assert_eq!(r, Err(ProgramError::WrongAddress));
}

#[test]
fn frozen_withdrawal_reports_frozen_before_addresses() {
    let (mut ledger, program, admin, user, config, state, _vault) = freeze_setup();
    let p: Process = account_confusion::Processor::process_instruction;
    let freeze = confusion(account_confusion::BlabladurInstruction::SetState { desired_state: FreezeState::Frozen });
    assert_eq!(ledger.invoke(p, program, &[(admin, true), (config, false), (state, false)], &freeze), Ok(()));
    // A program-owned record naming the user, away from the user's derived vault address.
    let stray = Address::new([88; 32]);
    ledger.put(AccountRef { address: stray, owner: program, is_signer: false, is_writable: true, balance: SOL, data: Vault { authority: user }.encode() });
    let withdraw = confusion(account_confusion::BlabladurInstruction::Withdraw);
    let r = ledger.invoke(p, program, &[(user, true), (stray, false), (state, false)], &withdraw);
    assert_eq!(r, Err(ProgramError::Frozen));
    let unfreeze = confusion(account_confusion::BlabladurInstruction::SetState { desired_state: FreezeState::Unfrozen });
    assert_eq!(ledger.invoke(p, program, &[(admin, true), (config, false), (state, false)], &unfreeze), Ok(()));
    let r = ledger.invoke(p, program, &[(user, true), (stray, false), (state, false)], &withdraw);
    assert_eq!(r, Err(ProgramError::WrongAddress));
    assert_eq!(ledger.balance(stray), SOL);
}

#[test]
fn unsigned_vault_at_a_wrong_address_reports_the_address() {
    let program = Address::new([7; 32]);
    let user = Address::new([2; 32]);
    let wrong = Address::new([3; 32]);
    let mut ledger = Ledger::new();
    ledger.fund(user, SOL);
    let p: Process = account_confusion::Processor::process_instruction;
    let init = confusion(account_confusion::BlabladurInstruction::InitialiseVault);
    assert_eq!(ledger.invoke(p, program, &[(user, false), (wrong, false)], &init), Err(ProgramError::WrongAddress));
    let vault = SeedScheme::UserVault(user).derive(&program).unwrap().address;
    assert_eq!(ledger.invoke(p, program, &[(user, false), (vault, false)], &init), Err(ProgramError::MissingSignature));
    let g: Process = overflow::Processor::process_instruction;
    let game_init = overflow::BlabladurInstruction::InitialiseVault.encode();
    assert_eq!(ledger.invoke(g, program, &[(user, false), (wrong, false)], &game_init), Err(ProgramError::WrongAddress));
}

#[test]
fn set_state_by_a_non_admin_is_refused() {
    let (mut ledger, program, admin, user, config, state, _vault) = freeze_setup();
    let p: Process = account_confusion::Processor::process_instruction;
    let freeze = confusion(account_confusion::BlabladurInstruction::SetState { desired_state: FreezeState::Frozen });
    let r = ledger.invoke(p, program, &[(user, true), (config, false), (state, false)], &freeze);
    assert_eq!(r, Err(ProgramError::MissingSignature));
    let r = ledger.invoke(p, program, &[(admin, false), (config, false), (state, false)], &freeze);
    assert_eq!(r, Err(ProgramError::MissingSignature));
}

#[test]
fn initialise_program_checks_signer_and_addresses() {
    let program = Address::new([7; 32]);
    let admin = Address::new([1; 32]);
    let config = SeedScheme::Config.derive(&program).unwrap().address;
    let state = SeedScheme::State.derive(&program).unwrap().address;
    let mut ledger = Ledger::new();
    ledger.fund(admin, SOL);
    let p: Process = account_confusion::Processor::process_instruction;
    let init = confusion(account_confusion::BlabladurInstruction::InitialiseProgram);
    let r = ledger.invoke(p, program, &[(admin, false), (config, false), (state, false)], &init);
    assert_eq!(r, Err(ProgramError::MissingSignature));
    let r = ledger.invoke(p, program, &[(admin, true), (state, false), (config, false)], &init);
    assert_eq!(r, Err(ProgramError::WrongAddress));
    let r = ledger.invoke(p, program, &[(admin, true), (config, false)], &init);
    assert_eq!(r, Err(ProgramError::ArityError));
    assert_eq!(ledger.invoke(p, program, &[(admin, true), (config, false), (state, false)], &[9]), Err(ProgramError::DecodeError));
}

#[test]
fn initialise_program_plans_creations_then_writes() {
    let program = Address::new([7; 32]);
    let admin = Address::new([1; 32]);
    let config = SeedScheme::Config.derive(&program).unwrap();
    let state = SeedScheme::State.derive(&program).unwrap();
    let accounts: Vec<AccountRef> = [(admin, true), (config.address, false), (state.address, false)]
        .iter()
        .map(|(address, is_signer)| AccountRef {
            address: *address,
            owner: SYSTEM,
            is_signer: *is_signer,
            is_writable: true,
            balance: 0,
            data: Vec::new(),
        })
        .collect();
    let plan = account_confusion::Processor::process_instruction(&program, &accounts, &[0]).unwrap();
    assert_eq!(plan.len(), 4);
    match plan[0] {
        Effect::CreateAccount { payer: 0, target: 1, space: 32, signer: Some(s) } => {
            assert_eq!(s.scheme, SeedScheme::Config);
            assert_eq!(s.bump, config.bump);
        }
        _ => panic!("config creation expected first"),
    }
    match plan[1] {
        Effect::CreateAccount { payer: 0, target: 2, space: 1, signer: Some(s) } => assert_eq!(s.bump, state.bump),
        _ => panic!("state creation expected second"),
    }
}

#[test]
fn freeze_instructions_encode_and_decode() {
    type Ix = account_confusion::BlabladurInstruction;
    assert_eq!(Ix::InitialiseProgram.encode(), vec![0u8]);
    assert_eq!(Ix::Withdraw.encode(), vec![2u8]);
    assert_eq!(Ix::SetState { desired_state: FreezeState::Frozen }.encode(), vec![3u8, 0]);
    assert_eq!(Ix::SetState { desired_state: FreezeState::Unfrozen }.encode(), vec![3u8, 1]);
    for ix in [Ix::InitialiseProgram, Ix::InitialiseVault, Ix::Withdraw, Ix::SetState { desired_state: FreezeState::Unfrozen }] {
        assert_eq!(Ix::decode(&ix.encode()), Ok(ix));
    }
    assert_eq!(Ix::decode(&[3, 2]), Err(ProgramError::DecodeError));
    assert_eq!(Ix::decode(&[2, 0]), Err(ProgramError::DecodeError));
    assert_eq!(Ix::decode(&[]), Err(ProgramError::DecodeError));
}

fn game_setup() -> (Ledger, Address, Address, Address, Address, Address) {
    let program = Address::new([11; 32]);
    let player = Address::new([1; 32]);
    let opponent = Address::new([2; 32]);
    let vault = SeedScheme::UserVault(player).derive(&program).unwrap().address;
    let opponent_vault = SeedScheme::UserVault(opponent).derive(&program).unwrap().address;
    let mut ledger = Ledger::new();
    ledger.fund(player, 10 * SOL);
    ledger.fund(opponent, SOL);
    let p: Process = overflow::Processor::process_instruction;
    let init = overflow::BlabladurInstruction::InitialiseVault.encode();
    assert_eq!(ledger.invoke(p, program, &[(player, true), (vault, false)], &init), Ok(()));
    assert_eq!(ledger.invoke(p, program, &[(opponent, true), (opponent_vault, false)], &init), Ok(()));
    (ledger, program, player, opponent, vault, opponent_vault)
}

fn counter(ledger: &Ledger, vault: Address) -> u32 {
    overflow::Vault::decode(&ledger.get(vault).data).unwrap().amount
}

#[test]
fn deposit_sets_counter_and_checks_owner() {
    let (mut ledger, program, _player, _opponent, vault, _opponent_vault) = game_setup();
    assert_eq!(counter(&ledger, vault), 0);
    let p: Process = overflow::Processor::process_instruction;
    let deposit = overflow::BlabladurInstruction::Deposit { amount: 500 }.encode();
    assert_eq!(ledger.invoke(p, program, &[(vault, false)], &deposit), Ok(()));
    assert_eq!(counter(&ledger, vault), 500);

    let lookalike = Address::new([55; 32]);
    ledger.put(AccountRef {
        address: lookalike,
        owner: Address::new([99; 32]),
        is_signer: false,
        is_writable: true,
        balance: 0,
        data: overflow::Vault { amount: 0 }.encode(),
    });
    assert_eq!(ledger.invoke(p, program, &[(lookalike, false)], &deposit), Err(ProgramError::WrongOwner));
    assert_eq!(counter(&ledger, lookalike), 0);
}

#[test]
fn doubled_counter_deposit_credits_the_caller_twice() {
    let (mut ledger, program, player, opponent, vault, opponent_vault) = game_setup();
    let p: Process = overflow::Processor::process_instruction;
    let amount: u32 = 500;
    let to_opponent = overflow::BlabladurInstruction::Deposit { amount }.encode();
    let to_player = overflow::BlabladurInstruction::Deposit { amount: amount * 2 }.encode();
    assert_eq!(ledger.invoke(p, program, &[(opponent_vault, false)], &to_opponent), Ok(()));
    assert_eq!(ledger.invoke(p, program, &[(vault, false)], &to_player), Ok(()));
    assert_eq!(counter(&ledger, opponent_vault), 500);
    assert_eq!(counter(&ledger, vault), 1000);
    let winner = if counter(&ledger, vault) < counter(&ledger, opponent_vault) { player } else { opponent };
    assert_eq!(winner, opponent);
}

#[test]
fn deposit_past_the_counter_range_is_refused() {
    let (mut ledger, program, _player, _opponent, vault, _opponent_vault) = game_setup();
    let p: Process = overflow::Processor::process_instruction;
    let big = overflow::BlabladurInstruction::Deposit { amount: u32::MAX }.encode();
    assert_eq!(ledger.invoke(p, program, &[(vault, false)], &big), Ok(()));
    let one = overflow::BlabladurInstruction::Deposit { amount: 1 }.encode();
    assert_eq!(ledger.invoke(p, program, &[(vault, false)], &one), Err(ProgramError::ArithmeticOverflow));
    assert_eq!(counter(&ledger, vault), u32::MAX);
}

#[test]
fn game_vault_needs_signer_and_derived_address() {
    let program = Address::new([11; 32]);
    let player = Address::new([1; 32]);
    let mut ledger = Ledger::new();
    ledger.fund(player, SOL);
    let p: Process = overflow::Processor::process_instruction;
    let init = overflow::BlabladurInstruction::InitialiseVault.encode();
    let vault = SeedScheme::UserVault(player).derive(&program).unwrap().address;
    assert_eq!(ledger.invoke(p, program, &[(player, false), (vault, false)], &init), Err(ProgramError::MissingSignature));
    let wrong = Address::new([3; 32]);
    assert_eq!(ledger.invoke(p, program, &[(player, true), (wrong, false)], &init), Err(ProgramError::WrongAddress));
    assert_eq!(ledger.invoke(p, program, &[(player, true)], &init), Err(ProgramError::ArityError));
    let corrupt = Address::new([4; 32]);
    ledger.put(AccountRef { address: corrupt, owner: program, is_signer: false, is_writable: true, balance: 0, data: vec![1, 2] });
    let deposit = overflow::BlabladurInstruction::Deposit { amount: 1 }.encode();
    assert_eq!(ledger.invoke(p, program, &[(corrupt, false)], &deposit), Err(ProgramError::SchemaError));
}

#[test]
fn game_instructions_encode_and_decode() {
    type Ix = overflow::BlabladurInstruction;
    assert_eq!(Ix::Deposit { amount: 500 }.encode(), vec![0u8, 244, 1, 0, 0]);
    assert_eq!(Ix::InitialiseVault.encode(), vec![1u8]);
    assert_eq!(Ix::decode(&[0, 232, 3, 0, 0]), Ok(Ix::Deposit { amount: 1000 }));
    assert_eq!(Ix::decode(&[0, 232, 3, 0]), Err(ProgramError::DecodeError));
    assert_eq!(Ix::decode(&[1, 0]), Err(ProgramError::DecodeError));
}

fn closable_setup() -> (Ledger, Address, Address, Address, Address) {
    let program = Address::new([21; 32]);
    let admin = Address::new([1; 32]);
    let config = Address::new([30; 32]);
    let vault = SeedScheme::Vault.derive(&program).unwrap().address;
    let mut ledger = Ledger::new();
    ledger.fund(admin, 100 * SOL);
    let p: Process = unchecked_owner::Processor::process_instruction;
    let init = unchecked_owner::BlabladurInstruction::Initialise.encode();
    assert_eq!(ledger.invoke(p, program, &[(admin, true), (config, true), (vault, false)], &init), Ok(()));
    ledger.fund(vault, 10 * SOL);
    (ledger, program, admin, config, vault)
}

#[test]
fn admin_closes_the_vault() {
    let (mut ledger, program, admin, config, vault) = closable_setup();
    assert_eq!(Config::decode(&ledger.get(config).data), Ok(Config { admin }));
    assert!(ledger.balance(vault) > 10 * SOL);
    let before = ledger.balance(admin);
    let swept = ledger.balance(vault);
    let p: Process = unchecked_owner::Processor::process_instruction;
    let close = unchecked_owner::BlabladurInstruction::CloseContract.encode();
    assert_eq!(ledger.invoke(p, program, &[(admin, true), (config, false), (vault, false)], &close), Ok(()));
    assert_eq!(ledger.balance(vault), 0);
    assert_eq!(ledger.balance(admin), before + swept);
}

#[test]
fn close_refuses_a_forged_config() {
    let (mut ledger, program, _admin, _config, vault) = closable_setup();
    let hacker = Address::new([66; 32]);
    let hacker_program = Address::new([99; 32]);
    let forged = Address::new([77; 32]);
    ledger.fund(hacker, SOL);
    ledger.put(AccountRef {
        address: forged,
        owner: hacker_program,
        is_signer: false,
        is_writable: true,
        balance: SOL,
        data: Config { admin: hacker }.encode(),
    });
    let p: Process = unchecked_owner::Processor::process_instruction;
    let close = unchecked_owner::BlabladurInstruction::CloseContract.encode();
    let before = (ledger.balance(hacker), ledger.balance(vault));
    let r = ledger.invoke(p, program, &[(hacker, true), (forged, false), (vault, false)], &close);
    assert_eq!(r, Err(ProgramError::WrongOwner));
    assert_eq!((ledger.balance(hacker), ledger.balance(vault)), before);
}

#[test]
fn close_by_a_non_admin_is_refused() {
    let (mut ledger, program, _admin, config, vault) = closable_setup();
    let stranger = Address::new([67; 32]);
    let p: Process = unchecked_owner::Processor::process_instruction;
    let close = unchecked_owner::BlabladurInstruction::CloseContract.encode();
    let r = ledger.invoke(p, program, &[(stranger, true), (config, false), (vault, false)], &close);
    assert_eq!(r, Err(ProgramError::MissingSignature));
    let wrong_vault = Address::new([68; 32]);
    ledger.put(AccountRef { address: wrong_vault, owner: program, is_signer: false, is_writable: true, balance: SOL, data: Vec::new() });
    let admin = Address::new([1; 32]);
    let r = ledger.invoke(p, program, &[(admin, true), (config, false), (wrong_vault, false)], &close);
    assert_eq!(r, Err(ProgramError::WrongAddress));
}

#[test]
fn initialise_needs_both_signatures() {
    let program = Address::new([21; 32]);
    let admin = Address::new([1; 32]);
    let config = Address::new([30; 32]);
    let vault = SeedScheme::Vault.derive(&program).unwrap().address;
    let mut ledger = Ledger::new();
    ledger.fund(admin, SOL);
    let p: Process = unchecked_owner::Processor::process_instruction;
    let init = unchecked_owner::BlabladurInstruction::Initialise.encode();
    assert_eq!(ledger.invoke(p, program, &[(admin, true), (config, false), (vault, false)], &init), Err(ProgramError::MissingSignature));
    assert_eq!(ledger.invoke(p, program, &[(admin, true), (config, true), (config, false)], &init), Err(ProgramError::WrongAddress));
    assert_eq!(unchecked_owner::BlabladurInstruction::decode(&[1]), Ok(unchecked_owner::BlabladurInstruction::CloseContract));
    assert_eq!(unchecked_owner::BlabladurInstruction::decode(&[2]), Err(ProgramError::DecodeError));
}

fn framed(tag: u8, text: &[u8]) -> Vec<u8> {
    let mut b = vec![tag];
    b.extend_from_slice(&(text.len() as u32).to_le_bytes());
    b.extend_from_slice(text);
    b
}

#[test]
fn welcome_greets_a_named_visitor() {
    let program = Address::new([1; 32]);
    let ix = welcome::BlabladurInstruction::WelcomeInstruction(String::from("Blablador"));
    let bytes = ix.encode();
    assert_eq!(bytes, framed(0, b"Blablador"));
    assert_eq!(welcome::BlabladurInstruction::decode(&bytes), Ok(ix));
    assert_eq!(welcome::Processor::process_instruction(&program, &Vec::new(), &bytes), Ok(Vec::new()));
    let accented = welcome::BlabladurInstruction::WelcomeInstruction(String::from("Blåbladür"));
    assert_eq!(welcome::BlabladurInstruction::decode(&accented.encode()), Ok(accented));
}

#[test]
fn welcome_no_op_and_malformed_names_fail() {
    let program = Address::new([1; 32]);
    let no_op = welcome::BlabladurInstruction::NoOp.encode();
    assert_eq!(no_op, vec![1u8]);
    assert_eq!(welcome::Processor::process_instruction(&program, &Vec::new(), &no_op), Err(ProgramError::InvalidInstruction));
    let not_utf8 = framed(0, &[0xff, 0xfe]);
    assert_eq!(welcome::Processor::process_instruction(&program, &Vec::new(), &not_utf8), Err(ProgramError::DecodeError));
    let mut trailing = framed(0, b"hacker");
    trailing.push(0);
    assert_eq!(welcome::Processor::process_instruction(&program, &Vec::new(), &trailing), Err(ProgramError::DecodeError));
    let mut short = framed(0, b"hacker");
    short.pop();
    assert_eq!(welcome::BlabladurInstruction::decode(&short), Err(ProgramError::DecodeError));
    assert_eq!(welcome::BlabladurInstruction::decode(&[1, 0]), Err(ProgramError::DecodeError));
}

#[test]
fn hello_accepts_everything() {
    let program = Address::new([1; 32]);
    assert_eq!(hello::Processor::process_instruction(&program, &Vec::new(), &[1, 2, 3]), Ok(Vec::new()));
}
