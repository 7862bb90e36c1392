//! The instruction router and its only handler, the account logger.
//!
//! Both are generic over the account handle so that they only decide which
//! accounts are read; the entrypoint that logs them lives outside the library.
use vstd::prelude::*;

use solana_program::program_error::ProgramError;

use crate::instruction::{decode_instruction, decode_spec, PocInstruction, LOG_ACCOUNTS_OPCODE};

verus! {

/// The number of accounts the logger reads: the owner account, then the
/// account id.
pub const LOGGED_ACCOUNTS: usize = 2;

/// Takes the account at `*pos` and moves `pos` past it, or reports
/// `NotEnoughAccountKeys` when `*pos` is at or past the end of the list and leaves `pos` alone.
/// This is the cursor form of `solana_program::account_info::next_account_info`.
pub fn next_account<'a, A>(accounts: &'a [A], pos: &mut usize) -> (r: Result<&'a A, ProgramError>)
    ensures
        *old(pos) < accounts@.len() ==> r == Ok::<&A, ProgramError>(&accounts@[*old(pos) as int])
            && *final(pos) == *old(pos) + 1,
        *old(pos) >= accounts@.len() ==> r == Err::<&A, ProgramError>(ProgramError::NotEnoughAccountKeys)
            && *final(pos) == *old(pos),
{
    if *pos < accounts.len() {
        let a = &accounts[*pos];
        *pos = *pos + 1;
        Ok(a)
    } else {
        Err(ProgramError::NotEnoughAccountKeys)
    }
}

/// What the logger yields for `accounts`: the owner account (the first
/// entry) and the account id (the second entry), or `NotEnoughAccountKeys`
/// when fewer than two entries are present.
pub open spec fn logged_accounts_spec<'a, A>(accounts: &'a [A]) -> Result<(&'a A, &'a A), ProgramError> {
    if accounts@.len() >= LOGGED_ACCOUNTS {
        Ok((&accounts@[0], &accounts@[1]))
    } else {
        Err(ProgramError::NotEnoughAccountKeys)
    }
}

/// What the router yields for an invocation with `accounts` and `data`:
/// the logger's result for opcode `0`, `InvalidArgument` for any other
/// leading byte and for empty data, whatever the accounts are.
pub open spec fn process_instruction_spec<'a, A>(accounts: &'a [A], data: Seq<u8>) -> Result<(&'a A, &'a A), ProgramError> {
    match decode_spec(data) {
        Ok(PocInstruction::LogAccounts) => logged_accounts_spec(accounts),
        Err(e) => Err(e),
    }
}

/// The account logger: takes the owner account and the account id, in that
/// order, from the front of `accounts`. Entries after the second are not
/// looked at. The accounts are only borrowed, so nothing about them changes.
pub fn program_function<'a, A>(accounts: &'a [A]) -> (r: Result<(&'a A, &'a A), ProgramError>)
    ensures
        r == logged_accounts_spec(accounts),
{
    let mut pos: usize = 0;
    let owner_account = match next_account(accounts, &mut pos) {
        Ok(a) => a,
        Err(e) => return Err(e),
    };
    let account_id = match next_account(accounts, &mut pos) {
        Ok(a) => a,
        Err(e) => return Err(e),
    };
    Ok((owner_account, account_id))
}

/// The instruction router: dispatches on the opcode in the first byte of
/// `data`. Opcode `0` hands `accounts` to the logger and returns its result
/// unchanged; any other opcode, and empty data, is `InvalidArgument`.
pub fn process_instruction<'a, A>(accounts: &'a [A], data: &[u8]) -> (r: Result<(&'a A, &'a A), ProgramError>)
    ensures
        r == process_instruction_spec(accounts, data@),
        data@.len() == 0 || data@[0] != LOG_ACCOUNTS_OPCODE
            ==> r == Err::<(&A, &A), ProgramError>(ProgramError::InvalidArgument),
        data@.len() > 0 && data@[0] == LOG_ACCOUNTS_OPCODE && accounts@.len() >= LOGGED_ACCOUNTS
            ==> r == Ok::<(&A, &A), ProgramError>((&accounts@[0], &accounts@[1])),
        data@.len() > 0 && data@[0] == LOG_ACCOUNTS_OPCODE && accounts@.len() < LOGGED_ACCOUNTS
            ==> r == Err::<(&A, &A), ProgramError>(ProgramError::NotEnoughAccountKeys),
{
    match decode_instruction(data) {
        Ok(PocInstruction::LogAccounts) => program_function(accounts),
        Err(e) => Err(e),
    }
}

} // verus!
