//! The failures that the operation reports.

use crate::keys::Pubkey;
use solana_program::program_error::ProgramError;
use vstd::prelude::*;

verus! {

/// The ledger's own error type. The token program's encoder and decoder
/// report their failures in it; its variants are not looked into here.
#[verifier::external_type_specification]
#[verifier::external_body]
pub struct ExProgramError(ProgramError);

/// A failure of this operation before anything was handed to the engine.
#[derive(Debug, PartialEq, Eq)]
pub enum Error {
    /// The mint account's precision had to be looked up, and the ledger
    /// either holds no account at that address or could not be asked.
    AccountNotFound(Pubkey),
    /// The account's data is no initialised mint record. Carries the
    /// decoder's error as it came.
    Decode(ProgramError),
    /// The amount is no whole number of base units at the mint's precision,
    /// or that number does not fit in 64 bits.
    Conversion,
    /// The token program's encoder turned the instruction down. Carries its
    /// error as it came.
    InstructionBuild(ProgramError),
}

/// How the whole operation failed: on its own account, or in the engine.
#[derive(Debug, PartialEq, Eq)]
pub enum CommandError<E> {
    /// A failure before submission.
    Command(Error),
    /// The engine's failure, handed on unchanged.
    Execution(E),
}

} // verus!
