//! An on-chain program with a single instruction: opcode `0` selects the
//! first two accounts of the invocation for logging, any other opcode is
//! rejected. The decisions are verified here; the logging itself and the
//! entrypoint glue live outside the library.
use vstd::prelude::*;

pub mod program_error;
pub mod instruction;
pub mod processor;
pub mod fee;

verus! {

} // verus!
