//! The stored records and their fixed-layout byte encodings.
use vstd::prelude::*;

use crate::address::{address_of, lemma_address_of, Address};
use crate::error::ProgramError;

verus! {

/// The program's configuration: who administers it.
#[derive(Clone, Copy, Debug, PartialEq, Eq)]
pub struct Config {
    pub admin: Address,
}

/// A vault whose value is the native balance of its account.
#[derive(Clone, Copy, Debug, PartialEq, Eq)]
pub struct Vault {
    pub authority: Address,
}

/// The global gate on value-moving handlers.
#[derive(Clone, Copy, Debug, PartialEq, Eq, Structural)]
pub struct State {
    pub frozen: bool,
}

/// The freeze setting that an administrator asks for.
#[derive(Clone, Copy, Debug, PartialEq, Eq, Structural)]
pub enum FreezeState {
    Frozen,
    Unfrozen,
}

/// Size in bytes of an encoded identity record (`Config`, `Vault`).
pub const IDENTITY_RECORD_LEN: usize = 32;

/// Size in bytes of an encoded `State`.
pub const STATE_RECORD_LEN: usize = 1;

/// The bytes of an identity, as a fresh buffer.
fn identity_bytes(a: &Address) -> (r: Vec<u8>)
    ensures
        r@ == a@,
{
    a.to_seed()
}

/// Decoding of a record that holds one identity: exactly 32 bytes.
pub open spec fn spec_decode_identity(b: Seq<u8>) -> Result<Address, ProgramError> {
    if b.len() == 32 {
        Ok(address_of(b))
    } else {
        Err(ProgramError::SchemaError)
    }
}

fn decode_identity(b: &[u8]) -> (r: Result<Address, ProgramError>)
    ensures
        r == spec_decode_identity(b@),
{
    if b.len() == IDENTITY_RECORD_LEN {
        let a = Address::from_slice(b);
        proof {
            lemma_address_of(a);
        }
        Ok(a)
    } else {
        Err(ProgramError::SchemaError)
    }
}

impl Config {
    pub open spec fn spec_encode(self) -> Seq<u8> {
        self.admin@
    }

    pub open spec fn spec_decode(b: Seq<u8>) -> Result<Config, ProgramError> {
        match spec_decode_identity(b) {
            Ok(admin) => Ok(Config { admin }),
            Err(e) => Err(e),
        }
    }

    pub fn encode(&self) -> (r: Vec<u8>)
        ensures
            r@ == self.spec_encode(),
    {
        identity_bytes(&self.admin)
    }

    /// Reads a `Config`; fails `SchemaError` unless `b` holds exactly 32 bytes.
    pub fn decode(b: &[u8]) -> (r: Result<Config, ProgramError>)
        ensures
            r == Config::spec_decode(b@),
    {
        match decode_identity(b) {
            Ok(admin) => Ok(Config { admin }),
            Err(e) => Err(e),
        }
    }
}

impl Vault {
    pub open spec fn spec_encode(self) -> Seq<u8> {
        self.authority@
    }

    pub open spec fn spec_decode(b: Seq<u8>) -> Result<Vault, ProgramError> {
        match spec_decode_identity(b) {
            Ok(authority) => Ok(Vault { authority }),
            Err(e) => Err(e),
        }
    }

    pub fn encode(&self) -> (r: Vec<u8>)
        ensures
            r@ == self.spec_encode(),
    {
        identity_bytes(&self.authority)
    }

    /// Reads a `Vault`; fails `SchemaError` unless `b` holds exactly 32 bytes.
    pub fn decode(b: &[u8]) -> (r: Result<Vault, ProgramError>)
        ensures
            r == Vault::spec_decode(b@),
    {
        match decode_identity(b) {
            Ok(authority) => Ok(Vault { authority }),
            Err(e) => Err(e),
        }
    }
}

impl State {
    pub open spec fn spec_encode(self) -> Seq<u8> {
        seq![if self.frozen { 1u8 } else { 0u8 }]
    }

    pub open spec fn spec_decode(b: Seq<u8>) -> Result<State, ProgramError> {
        if b.len() == 1 && b[0] == 0 {
            Ok(State { frozen: false })
        } else if b.len() == 1 && b[0] == 1 {
            Ok(State { frozen: true })
        } else {
            Err(ProgramError::SchemaError)
        }
    }

    pub fn encode(&self) -> (r: Vec<u8>)
        ensures
            r@ == self.spec_encode(),
    {
        let byte: u8 = if self.frozen { 1 } else { 0 };
        let r = vec![byte];
        assert(r@ =~= self.spec_encode());
        r
    }

    /// Reads a `State`: one byte, 0 for open and 1 for frozen; anything else fails
    /// `SchemaError`.
    pub fn decode(b: &[u8]) -> (r: Result<State, ProgramError>)
        ensures
            r == State::spec_decode(b@),
    {
        if b.len() != STATE_RECORD_LEN {
            Err(ProgramError::SchemaError)
        } else if b[0] == 0 {
            Ok(State { frozen: false })
        } else if b[0] == 1 {
            Ok(State { frozen: true })
        } else {
            Err(ProgramError::SchemaError)
        }
    }
}

impl FreezeState {
    /// The state record that this setting asks for.
    pub open spec fn spec_state(self) -> State {
        State { frozen: self == FreezeState::Frozen }
    }

    pub fn to_state(&self) -> (r: State)
        ensures
            r == self.spec_state(),
    {
        match self {
            FreezeState::Frozen => State { frozen: true },
            FreezeState::Unfrozen => State { frozen: false },
        }
    }
}

/// The four little-endian bytes of `v`.
pub open spec fn spec_le_bytes(v: u32) -> Seq<u8> {
    seq![(v & 0xff) as u8, ((v >> 8u32) & 0xff) as u8, ((v >> 16u32) & 0xff) as u8, (v >> 24u32) as u8]
}

/// The value of four little-endian bytes.
pub open spec fn spec_le_value(b0: u8, b1: u8, b2: u8, b3: u8) -> u32 {
    (b0 as u32) | ((b1 as u32) << 8u32) | ((b2 as u32) << 16u32) | ((b3 as u32) << 24u32)
}

pub fn le_bytes(v: u32) -> (r: Vec<u8>)
    ensures
        r@ == spec_le_bytes(v),
{
    let r = vec![(v & 0xff) as u8, ((v >> 8u32) & 0xff) as u8, ((v >> 16u32) & 0xff) as u8, (v >> 24u32) as u8];
    assert(r@ =~= spec_le_bytes(v));
    r
}

pub fn le_value(b0: u8, b1: u8, b2: u8, b3: u8) -> (r: u32)
    ensures
        r == spec_le_value(b0, b1, b2, b3),
{
    (b0 as u32) | ((b1 as u32) << 8u32) | ((b2 as u32) << 16u32) | ((b3 as u32) << 24u32)
}

/// Reading back the little-endian bytes of `v` gives `v`.
pub proof fn lemma_le_round_trip(v: u32)
    ensures
        spec_le_value(
            spec_le_bytes(v)[0],
            spec_le_bytes(v)[1],
            spec_le_bytes(v)[2],
            spec_le_bytes(v)[3],
        ) == v,
{
    let b = spec_le_bytes(v);
    assert(b[0] == (v & 0xff) as u8);
    assert(b[1] == ((v >> 8u32) & 0xff) as u8);
    assert(b[2] == ((v >> 16u32) & 0xff) as u8);
    assert(b[3] == (v >> 24u32) as u8);
    assert(((((v & 0xff) as u8) as u32) | (((((v >> 8u32) & 0xff) as u8) as u32) << 8u32) | (((((v
        >> 16u32) & 0xff) as u8) as u32) << 16u32) | ((((v >> 24u32) as u8) as u32) << 24u32)) == v)
        by (bit_vector);
}

/// Decoding an encoded `Config` gives it back.
pub proof fn lemma_config_round_trip(c: Config)
    ensures
        Config::spec_decode(c.spec_encode()) == Ok::<Config, ProgramError>(c),
{
    lemma_address_of(c.admin);
}

/// Decoding an encoded `Vault` gives it back.
pub proof fn lemma_vault_round_trip(v: Vault)
    ensures
        Vault::spec_decode(v.spec_encode()) == Ok::<Vault, ProgramError>(v),
{
    lemma_address_of(v.authority);
}

/// Decoding an encoded `State` gives it back.
pub proof fn lemma_state_round_trip(s: State)
    ensures
        State::spec_decode(s.spec_encode()) == Ok::<State, ProgramError>(s),
{
}

} // verus!
