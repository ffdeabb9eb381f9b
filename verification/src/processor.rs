use vstd::prelude::*;

use crate::error::ProgramError;
use crate::instruction::CalculatorInstructions;
use crate::instruction::spec_evaluate;
use crate::instruction::spec_instruction_of;
use crate::pubkey::Pubkey;
use crate::state::CalculatorAccount;
use crate::state::lemma_le_round_trip;
use crate::state::spec_le_bytes;
use crate::state::spec_le_value;

verus! {

/// One account as the runtime presents it to this program: its recorded
/// owner and its persistent byte storage.
#[derive(Debug)]
pub struct Account {
    pub owner: Pubkey,
    pub data: Vec<u8>,
}

/// True exactly when the account's recorded owner is the given program
/// identity.
pub open spec fn spec_owner_matches(account: Account, program_id: Pubkey) -> bool {
    account.owner.bytes@ == program_id.bytes@
}

/// The four bytes that a successful invocation with the given
/// instruction buffer leaves in the account's storage.
pub open spec fn spec_result_bytes(instruction: Seq<u8>) -> Seq<u8>
    recommends
        instruction.len() == 3,
{
    spec_le_bytes(spec_evaluate(spec_instruction_of(instruction)))
}

/// The typed failure one invocation reports, if any: the checks in the
/// order the handler makes them. An invocation succeeds exactly when
/// there is an account, its owner is the invoking program, its storage
/// is the four bytes of a stored record, and the instruction buffer is
/// the three bytes of an instruction record.
pub open spec fn spec_failure_of(
    accounts: Seq<Account>,
    program_id: Pubkey,
    instruction: Seq<u8>,
) -> Option<ProgramError> {
    if accounts.len() == 0 {
        Some(ProgramError::NotEnoughAccountKeys)
    } else if !spec_owner_matches(accounts[0], program_id) {
        Some(ProgramError::IncorrectProgramId)
    } else if accounts[0].data@.len() != 4 {
        Some(ProgramError::InvalidAccountData)
    } else if instruction.len() != 3 {
        Some(ProgramError::InvalidInstructionData)
    } else {
        None
    }
}

/// Law: the four bytes a successful invocation stores decode to exactly
/// the value the instruction evaluates to.
pub proof fn lemma_stored_bytes_decode(instruction: Seq<u8>)
    requires
        instruction.len() == 3,
    ensures
        spec_result_bytes(instruction).len() == 4,
        spec_le_value(spec_result_bytes(instruction)) == spec_evaluate(
            spec_instruction_of(instruction),
        ),
{
    lemma_le_round_trip(spec_evaluate(spec_instruction_of(instruction)));
}

/// Handle one invocation: check ownership of the first account, decode
/// its stored record and the instruction buffer, evaluate the
/// instruction, and write the widened result back over the account's
/// four bytes of storage.
///
/// Exactly one account is ever mutated, and only after every check has
/// passed: on any failure the account list is returned untouched. A
/// malformed instruction buffer is a typed error like the others, not an
/// abort.
pub fn process_instruction(
    program_id: &Pubkey,
    accounts: &mut Vec<Account>,
    instruction_data: &Vec<u8>,
) -> (r: Result<(), ProgramError>)
    ensures
        spec_failure_of(old(accounts)@, *program_id, instruction_data@) matches Some(e) ==> r
            == Err::<(), ProgramError>(e) && final(accounts)@ == old(accounts)@,
        spec_failure_of(old(accounts)@, *program_id, instruction_data@) is None ==> r == Ok::<
            (),
            ProgramError,
        >(()) && final(accounts)@.len() == old(accounts)@.len() && final(accounts)@[0].owner == old(
            accounts,
        )@[0].owner && final(accounts)@[0].data@ == spec_result_bytes(instruction_data@) && (forall|
            i: int,
        |
            1 <= i < old(accounts)@.len() ==> final(accounts)@[i] == old(accounts)@[i]),
{
    if accounts.len() == 0 {
        return Err(ProgramError::NotEnoughAccountKeys);
    }
    let account = &accounts[0];
    if !account.owner.eq_bytes(program_id) {
        return Err(ProgramError::IncorrectProgramId);
    }
    let mut calculator_account = match CalculatorAccount::try_from_slice(&account.data) {
        Ok(decoded) => decoded,
        Err(e) => {
            return Err(e);
        },
    };
    let calculator_instructions = match CalculatorInstructions::try_from_slice(instruction_data) {
        Ok(decoded) => decoded,
        Err(e) => {
            return Err(e);
        },
    };
    calculator_account.result = calculator_instructions.evaluate();
    let new_data = calculator_account.serialize();
    accounts[0].data = new_data;
    Ok(())
}

} // verus!
