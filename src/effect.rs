//! What a handler asks for once its checks have passed, and how the program's own
//! effects change the accounts.
use vstd::prelude::*;

use crate::account::AccountRef;
use crate::address::SignerSeeds;
use crate::error::ProgramError;
use crate::overflow;
use crate::state::{Config, State, Vault};

verus! {

/// A record that a handler stores in an account.
#[derive(Clone, Copy, Debug, PartialEq, Eq)]
pub enum Record {
    Config(Config),
    State(State),
    Vault(Vault),
    Counter(overflow::Vault),
}

impl Record {
    pub open spec fn spec_encode(self) -> Seq<u8> {
        match self {
            Record::Config(c) => c.spec_encode(),
            Record::State(s) => s.spec_encode(),
            Record::Vault(v) => v.spec_encode(),
            Record::Counter(v) => v.spec_encode(),
        }
    }

    pub fn encode(&self) -> (r: Vec<u8>)
        ensures
            r@ == self.spec_encode(),
    {
        match self {
            Record::Config(c) => c.encode(),
            Record::State(s) => s.encode(),
            Record::Vault(v) => v.encode(),
            Record::Counter(v) => v.encode(),
        }
    }
}

/// One step of a planned transition. Account positions index the list that the
/// invocation was handed.
#[derive(Clone, Copy, Debug, PartialEq, Eq)]
pub enum Effect {
    /// Host service: create `target` with `space` zeroed bytes, owned by the executing
    /// program and funded by `payer` with the host's minimum balance for that size.
    /// `signer` holds the seeds that sign for a derived `target`; `None` when
    /// `target` signs for itself.
    CreateAccount { payer: usize, target: usize, space: usize, signer: Option<SignerSeeds> },
    /// Store `record`, encoded, as the whole data of `target`.
    WriteRecord { target: usize, record: Record },
    /// Move `amount` of native value from `from` to `to`.
    Transfer { from: usize, to: usize, amount: u64 },
}

/// `a` and `b` agree on everything but their data.
pub open spec fn same_but_data(a: AccountRef, b: AccountRef) -> bool {
    &&& a.address == b.address
    &&& a.owner == b.owner
    &&& a.is_signer == b.is_signer
    &&& a.is_writable == b.is_writable
    &&& a.balance == b.balance
}

/// `a` and `b` agree on everything but their balance.
pub open spec fn same_but_balance(a: AccountRef, b: AccountRef) -> bool {
    &&& a.address == b.address
    &&& a.owner == b.owner
    &&& a.is_signer == b.is_signer
    &&& a.is_writable == b.is_writable
    &&& a.data == b.data
}

/// `new` is `old` with account `target` holding `bytes` as its data.
pub open spec fn written(old: Seq<AccountRef>, new: Seq<AccountRef>, target: int, bytes: Seq<u8>) -> bool {
    &&& new.len() == old.len()
    &&& 0 <= target < old.len()
    &&& forall|i: int| 0 <= i < old.len() && i != target ==> new[i] == old[i]
    &&& same_but_data(new[target], old[target])
    &&& new[target].data@ == bytes
}

/// `new` is `old` after `amount` moved from `from` to `to`.
pub open spec fn transferred(old: Seq<AccountRef>, new: Seq<AccountRef>, from: int, to: int, amount: u64) -> bool {
    &&& new.len() == old.len()
    &&& 0 <= from < old.len()
    &&& 0 <= to < old.len()
    &&& forall|i: int| 0 <= i < old.len() && i != from && i != to ==> new[i] == old[i]
    &&& same_but_balance(new[from], old[from])
    &&& same_but_balance(new[to], old[to])
    &&& from == to ==> new[from].balance == old[from].balance
    &&& from != to ==> new[from].balance == old[from].balance - amount && new[to].balance
        == old[to].balance + amount
}

/// The outcome of a transfer on `accounts`.
pub open spec fn transfer_check(accounts: Seq<AccountRef>, from: int, to: int, amount: u64) -> Result<(), ProgramError> {
    if !(0 <= from < accounts.len() && 0 <= to < accounts.len()) {
        Err(ProgramError::ArityError)
    } else if accounts[from].balance < amount {
        Err(ProgramError::InsufficientBalance)
    } else if from != to && accounts[to].balance + amount > u64::MAX {
        Err(ProgramError::ArithmeticOverflow)
    } else {
        Ok(())
    }
}

/// Moves `amount` of native value between two accounts: fails `InsufficientBalance`
/// when the source holds less, `ArithmeticOverflow` when the destination would pass
/// the largest balance, and changes nothing on failure.
pub fn transfer(accounts: &mut Vec<AccountRef>, from: usize, to: usize, amount: u64) -> (r: Result<(), ProgramError>)
    ensures
        r == transfer_check(old(accounts)@, from as int, to as int, amount),
        r is Ok ==> transferred(old(accounts)@, final(accounts)@, from as int, to as int, amount),
        r is Err ==> final(accounts)@ == old(accounts)@,
{
    if from >= accounts.len() || to >= accounts.len() {
        return Err(ProgramError::ArityError);
    }
    let from_balance = accounts[from].balance;
    if from_balance < amount {
        return Err(ProgramError::InsufficientBalance);
    }
    if from == to {
        return Ok(());
    }
    let to_balance = accounts[to].balance;
    if to_balance > u64::MAX - amount {
        return Err(ProgramError::ArithmeticOverflow);
    }
    accounts[from].balance = from_balance - amount;
    accounts[to].balance = to_balance + amount;
    Ok(())
}

/// The outcome of storing `bytes` in account `target`: the buffer's length is fixed,
/// so the encoding must fill it exactly.
pub open spec fn write_check(accounts: Seq<AccountRef>, target: int, bytes: Seq<u8>) -> Result<(), ProgramError> {
    if !(0 <= target < accounts.len()) {
        Err(ProgramError::ArityError)
    } else if accounts[target].data@.len() != bytes.len() {
        Err(ProgramError::SchemaError)
    } else {
        Ok(())
    }
}

/// Stores `record` in account `target`; fails `SchemaError` when the account's
/// buffer does not have the record's size, and changes nothing on failure.
pub fn write_record(accounts: &mut Vec<AccountRef>, target: usize, record: &Record) -> (r: Result<(), ProgramError>)
    ensures
        r == write_check(old(accounts)@, target as int, record.spec_encode()),
        r is Ok ==> written(old(accounts)@, final(accounts)@, target as int, record.spec_encode()),
        r is Err ==> final(accounts)@ == old(accounts)@,
{
    if target >= accounts.len() {
        return Err(ProgramError::ArityError);
    }
    let bytes = record.encode();
    if accounts[target].data.len() != bytes.len() {
        return Err(ProgramError::SchemaError);
    }
    accounts[target].data = bytes;
    Ok(())
}

/// Carries out one of the program's own effects on in-memory accounts. Account
/// creation is the host's and is refused here with `HostError`.
pub fn apply_effect(accounts: &mut Vec<AccountRef>, effect: &Effect) -> (r: Result<(), ProgramError>)
    ensures
        match *effect {
            Effect::CreateAccount { .. } => r == Err::<(), ProgramError>(ProgramError::HostError),
            Effect::WriteRecord { target, record } => {
                &&& r == write_check(old(accounts)@, target as int, record.spec_encode())
                &&& r is Ok ==> written(old(accounts)@, final(accounts)@, target as int, record.spec_encode())
            },
            Effect::Transfer { from, to, amount } => {
                &&& r == transfer_check(old(accounts)@, from as int, to as int, amount)
                &&& r is Ok ==> transferred(old(accounts)@, final(accounts)@, from as int, to as int, amount)
            },
        },
        r is Err ==> final(accounts)@ == old(accounts)@,
{
    match effect {
        Effect::CreateAccount { .. } => Err(ProgramError::HostError),
        Effect::WriteRecord { target, record } => write_record(accounts, *target, record),
        Effect::Transfer { from, to, amount } => transfer(accounts, *from, *to, *amount),
    }
}

} // verus!

verus! {

/// The plan that a processor returned, as a sequence.
pub open spec fn plan_view(r: Result<Vec<Effect>, ProgramError>) -> Result<Seq<Effect>, ProgramError> {
    match r {
        Ok(v) => Ok(v@),
        Err(e) => Err(e),
    }
}

} // verus!
