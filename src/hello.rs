//! The smallest program: it accepts every invocation and changes nothing.
use vstd::prelude::*;

use crate::account::AccountRef;
use crate::address::Address;
use crate::effect::Effect;
use crate::error::ProgramError;

verus! {

pub struct Processor {}

impl Processor {
    /// Succeeds with an empty plan, whatever it is handed.
    pub fn process_instruction(
        _program_id: &Address,
        _accounts: &Vec<AccountRef>,
        _instruction_data: &[u8],
    ) -> (r: Result<Vec<Effect>, ProgramError>)
        ensures
            r matches Ok(effects) && effects@.len() == 0,
    {
        Ok(Vec::new())
    }
}

} // verus!
