use vstd::prelude::*;

verus! {

/// A typed, caller-visible failure of one invocation.
///
/// Every failure aborts the invocation before any byte of account storage
/// has been written, so a caller that receives one of these knows the
/// stored record is exactly what it was before the call.
#[derive(Clone, Copy, Debug, PartialEq, Eq, Structural)]
pub enum ProgramError {
    /// The supplied account list was empty.
    NotEnoughAccountKeys,
    /// The first account's recorded owner differs from the invoking program.
    IncorrectProgramId,
    /// The account's stored bytes are not a well-formed stored record.
    InvalidAccountData,
    /// The instruction buffer is not a well-formed instruction record.
    InvalidInstructionData,
}

} // verus!
