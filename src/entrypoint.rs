use vstd::prelude::*;

use crate::error::LedgerError;
use crate::instruction::{decode, DepositInstruction};
use crate::processor::{deposit_spec, initialize_spec, settles, withdraw_spec, Processor};
use crate::slot::{slots_view, Identity, Slot, SlotView};

verus! {

/// What one invocation does: decode the instruction, then apply its operation.
pub open spec fn execute_spec(program: Seq<u8>, s: Seq<SlotView>, input: Seq<u8>) -> Result<
    Seq<SlotView>,
    LedgerError,
> {
    match decode(input) {
        Err(e) => Err(e),
        Ok(DepositInstruction::Initialize) => initialize_spec(program, s),
        Ok(DepositInstruction::Deposit) => deposit_spec(program, s),
        Ok(DepositInstruction::Withdraw { amount }) => withdraw_spec(program, s, amount),
    }
}

/// The single entry point of the ledger: decodes `instruction_data` and runs the
/// operation it names on `accounts`. On failure no slot is changed.
pub fn process_instruction(
    program_id: &Identity,
    accounts: &mut Vec<Slot>,
    instruction_data: &[u8],
) -> (r: Result<(), LedgerError>)
    ensures
        settles(
            r,
            slots_view(old(accounts)@),
            slots_view(final(accounts)@),
            execute_spec(program_id@, slots_view(old(accounts)@), instruction_data@),
        ),
{
    let instruction = match DepositInstruction::unpack(instruction_data) {
        Ok(ix) => ix,
        Err(e) => return Err(e),
    };
    match instruction {
        DepositInstruction::Initialize => Processor::initialize_account(program_id, accounts),
        DepositInstruction::Deposit => Processor::deposit(program_id, accounts),
        DepositInstruction::Withdraw { amount } => Processor::withdraw(program_id, accounts, amount),
    }
}

} // verus!
