//! The introductory program: it greets a named visitor and refuses its no-op
//! instruction.
use vstd::prelude::*;
use vstd::utf8::{decode_utf8, encode_utf8, encode_utf8_decode_utf8, encode_utf8_valid_utf8, valid_utf8};

use crate::account::AccountRef;
use crate::address::Address;
use crate::effect::{plan_view, Effect};
use crate::error::ProgramError;
use crate::state::{le_bytes, lemma_le_round_trip, spec_le_bytes, spec_le_value};

verus! {

/// The instructions of the welcome program.
#[derive(Clone, Debug, PartialEq, Eq)]
pub enum BlabladurInstruction {
    /// Welcomes the named visitor. Takes no accounts.
    WelcomeInstruction(String),
    /// Always fails. Takes no accounts.
    NoOp,
}

/// The abstract value of an instruction.
pub enum Greeting {
    Welcome(Seq<char>),
    NoOp,
}

impl View for BlabladurInstruction {
    type V = Greeting;

    open spec fn view(&self) -> Greeting {
        match self {
            BlabladurInstruction::WelcomeInstruction(name) => Greeting::Welcome(name@),
            BlabladurInstruction::NoOp => Greeting::NoOp,
        }
    }
}

/// `b` frames a string: a little-endian u32 byte count, then exactly that many
/// bytes of UTF-8.
pub open spec fn is_framed_text(b: Seq<u8>) -> bool {
    &&& b.len() >= 4
    &&& spec_le_value(b[0], b[1], b[2], b[3]) as int == b.len() - 4
    &&& valid_utf8(b.skip(4))
}

/// Relies on borsh's `BorshDeserialize` for `String` through `try_from_slice`: it reads
/// a little-endian u32 length, then that many bytes, which `String::from_utf8` must
/// accept, and fails when any byte is left over.
#[verifier::external_body]
fn decode_text(b: &[u8]) -> (r: Option<String>)
    ensures
        r is Some <==> is_framed_text(b@),
        r matches Some(s) ==> s@ == decode_utf8(b@.skip(4)),
{
    <String as borsh::BorshDeserialize>::try_from_slice(b).ok()
}

impl Greeting {
    /// Tag 0 then the framed name, or the single tag 1.
    pub open spec fn spec_encode(self) -> Seq<u8> {
        match self {
            Greeting::Welcome(name) => seq![0u8] + spec_le_bytes(encode_utf8(name).len() as u32) + encode_utf8(name),
            Greeting::NoOp => seq![1u8],
        }
    }

    pub open spec fn spec_decode(b: Seq<u8>) -> Result<Greeting, ProgramError> {
        if b.len() >= 1 && b[0] == 0 && is_framed_text(b.skip(1)) {
            Ok(Greeting::Welcome(decode_utf8(b.skip(5))))
        } else if b == seq![1u8] {
            Ok(Greeting::NoOp)
        } else {
            Err(ProgramError::DecodeError)
        }
    }

    /// The encoding's length prefix can hold the name's byte count.
    pub open spec fn encodable(self) -> bool {
        self matches Greeting::Welcome(name) ==> encode_utf8(name).len() <= u32::MAX
    }
}

impl BlabladurInstruction {
    pub fn encode(&self) -> (r: Vec<u8>)
        requires
            self@.encodable(),
        ensures
            r@ == self@.spec_encode(),
    {
        match self {
            BlabladurInstruction::WelcomeInstruction(name) => {
                let bytes = name.as_str().as_bytes();
                let mut r = vec![0u8];
                let mut prefix = le_bytes(bytes.len() as u32);
                r.append(&mut prefix);
                r.extend_from_slice(bytes);
                assert(r@ =~= self@.spec_encode());
                r
            },
            BlabladurInstruction::NoOp => {
                let r = vec![1u8];
                assert(r@ =~= self@.spec_encode());
                r
            },
        }
    }

    /// Reads an instruction; fails `DecodeError` on an unknown tag, a badly framed or
    /// non-UTF-8 name, or trailing bytes.
    pub fn decode(b: &[u8]) -> (r: Result<BlabladurInstruction, ProgramError>)
        ensures
            match r {
                Ok(ix) => Greeting::spec_decode(b@) == Ok::<Greeting, ProgramError>(ix@),
                Err(e) => Greeting::spec_decode(b@) == Err::<Greeting, ProgramError>(e),
            },
    {
        if b.len() == 1 && b[0] == 1 {
            assert(b@ =~= seq![1u8]);
            return Ok(BlabladurInstruction::NoOp);
        }
        if b.len() == 0 || b[0] != 0 {
            return Err(ProgramError::DecodeError);
        }
        let (_, rest) = b.split_at(1);
        assert(rest@ =~= b@.skip(1));
        match decode_text(rest) {
            Some(name) => {
                assert(rest@.skip(4) =~= b@.skip(5));
                Ok(BlabladurInstruction::WelcomeInstruction(name))
            },
            None => Err(ProgramError::DecodeError),
        }
    }
}

/// Decoding an encoded instruction gives it back.
pub proof fn lemma_instruction_round_trip(ix: Greeting)
    requires
        ix.encodable(),
    ensures
        Greeting::spec_decode(ix.spec_encode()) == Ok::<Greeting, ProgramError>(ix),
{
    if let Greeting::Welcome(name) = ix {
        let text = encode_utf8(name);
        let n = text.len() as u32;
        let b = ix.spec_encode();
        lemma_le_round_trip(n);
        encode_utf8_valid_utf8(name);
        encode_utf8_decode_utf8(name);
        assert(b.skip(1).skip(4) =~= text);
        assert(b.skip(5) =~= text);
        assert(b.skip(1)[0] == spec_le_bytes(n)[0]);
        assert(b.skip(1)[1] == spec_le_bytes(n)[1]);
        assert(b.skip(1)[2] == spec_le_bytes(n)[2]);
        assert(b.skip(1)[3] == spec_le_bytes(n)[3]);
    } else {
        assert(ix.spec_encode() =~= seq![1u8]);
    }
}

/// Greeting plans nothing; the no-op always fails.
pub open spec fn process_outcome(instruction_data: Seq<u8>) -> Result<Seq<Effect>, ProgramError> {
    match Greeting::spec_decode(instruction_data) {
        Err(e) => Err(e),
        Ok(Greeting::Welcome(_)) => Ok(Seq::empty()),
        Ok(Greeting::NoOp) => Err(ProgramError::InvalidInstruction),
    }
}

pub struct Processor {}

impl Processor {
    /// Welcomes the named visitor, or fails: `DecodeError` on a malformed
    /// instruction, `InvalidInstruction` on the no-op.
    pub fn process_instruction(
        _program_id: &Address,
        _accounts: &Vec<AccountRef>,
        instruction_data: &[u8],
    ) -> (r: Result<Vec<Effect>, ProgramError>)
        ensures
            plan_view(r) == process_outcome(instruction_data@),
    {
        match BlabladurInstruction::decode(instruction_data) {
            Err(e) => Err(e),
            Ok(BlabladurInstruction::WelcomeInstruction(_)) => {
                let effects: Vec<Effect> = Vec::new();
                assert(effects@ =~= Seq::<Effect>::empty());
                Ok(effects)
            },
            Ok(BlabladurInstruction::NoOp) => Err(ProgramError::InvalidInstruction),
        }
    }
}

} // verus!
