use vstd::prelude::*;

verus! {

/// The single failure that an invocation reports to the host.
#[derive(Clone, Copy, Debug, PartialEq, Eq, Structural)]
pub enum ProgramError {
    /// The instruction buffer is not a well-formed instruction.
    DecodeError,
    /// Fewer accounts were supplied than the instruction's schema requires.
    ArityError,
    /// An account that must have signed did not, or the signer is not the required authority.
    MissingSignature,
    /// An account is not owned by the executing program.
    WrongOwner,
    /// An account is not at the address that the program derives for it.
    WrongAddress,
    /// Value-moving handlers are gated by a frozen state record.
    Frozen,
    /// A transfer asked for more than the source balance holds.
    InsufficientBalance,
    /// A stored record does not have the layout of its kind.
    SchemaError,
    /// A host service call failed.
    HostError,
    /// A stored counter or a balance would leave its integer range.
    ArithmeticOverflow,
    /// No bump seed yields an address off the signer-controlled space.
    NoDerivedAddress,
    /// A well-formed instruction that the program refuses to run.
    InvalidInstruction,
}

} // verus!
