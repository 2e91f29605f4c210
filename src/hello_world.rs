use crate::account::{Account, ProgramError};
use vstd::prelude::*;

verus! {

/// Entry point of the greeting program: it accepts every instruction and
/// changes nothing.
pub fn process_instruction(accounts: &Vec<Account>, instruction_data: &[u8]) -> (r: Result<
    (),
    ProgramError,
>)
    ensures
        r is Ok,
{
    Ok(())
}

} // verus!
