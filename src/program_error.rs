//! The program's error type is the one of the on-chain runtime.
use vstd::prelude::*;


verus! {

/// Declares `solana_program::program_error::ProgramError` to the verifier.
/// Its variants are public and carry plain values only, so the verifier
/// reads them and contracts may name a variant.
#[verifier::external_type_specification]
pub struct ExProgramError(solana_program::program_error::ProgramError);

} // verus!
