//! Decoding of instruction data: the first byte is the opcode.
use vstd::prelude::*;

use solana_program::program_error::ProgramError;

verus! {

/// The opcode that selects [`PocInstruction::LogAccounts`].
pub const LOG_ACCOUNTS_OPCODE: u8 = 0;

/// The instructions this program understands.
#[derive(Clone, Copy, Debug, PartialEq, Eq, Structural)]
pub enum PocInstruction {
    /// Log the first two accounts of the invocation.
    LogAccounts,
}

impl PocInstruction {
    /// The instruction data that encodes `self`: its opcode as a single byte.
    pub open spec fn pack_spec(self) -> Seq<u8> {
        match self {
            PocInstruction::LogAccounts => seq![LOG_ACCOUNTS_OPCODE],
        }
    }

    /// Encodes `self` as instruction data.
    pub fn pack(&self) -> (r: Vec<u8>)
        ensures
            r@ == self.pack_spec(),
    {
        match self {
            PocInstruction::LogAccounts => vec![LOG_ACCOUNTS_OPCODE],
        }
    }
}

/// What decoding `data` yields: the instruction for a known leading opcode,
/// `InvalidArgument` for any other leading byte or for empty data.
pub open spec fn decode_spec(data: Seq<u8>) -> Result<PocInstruction, ProgramError> {
    if data.len() > 0 && data[0] == LOG_ACCOUNTS_OPCODE {
        Ok(PocInstruction::LogAccounts)
    } else {
        Err(ProgramError::InvalidArgument)
    }
}

/// Reads the opcode from the first byte of `data`. Bytes after the first
/// are ignored.
pub fn decode_instruction(data: &[u8]) -> (r: Result<PocInstruction, ProgramError>)
    ensures
        r == decode_spec(data@),
{
    if data.len() == 0 {
        return Err(ProgramError::InvalidArgument);
    }
    match data[0] {
        0 => Ok(PocInstruction::LogAccounts),
        _ => Err(ProgramError::InvalidArgument),
    }
}

/// Decoding the data that encodes an instruction gives that instruction
/// back.
pub proof fn lemma_decode_pack(ix: PocInstruction)
    ensures
        decode_spec(ix.pack_spec()) == Ok::<PocInstruction, ProgramError>(ix),
{
}

} // verus!
