use vstd::prelude::*;
use vstd::bytes::{spec_u64_to_le_bytes, u64_to_le_bytes};

use crate::error::LedgerError;
use crate::slot::{
    is_initialized, BALANCE_LEN, read_balance, slots_view,
    stored_balance, with_balance, write_balance, Identity, Slot, SlotView,
};

verus! {

/// Position of the requester (depositor or withdrawal recipient) in the slot list.
pub const REQUESTER: usize = 0;

/// Position of the program-owned target slot in the slot list.
pub const TARGET: usize = 1;

/// The slot with its native amount replaced.
pub open spec fn with_lamports(s: SlotView, lamports: u64) -> SlotView {
    SlotView { key: s.key, is_signer: s.is_signer, lamports, data: s.data, owner: s.owner }
}

/// The slot with its data buffer replaced.
pub open spec fn with_data(s: SlotView, data: Seq<u8>) -> SlotView {
    SlotView { key: s.key, is_signer: s.is_signer, lamports: s.lamports, data, owner: s.owner }
}

/// An invocation ended as `expected` says: on success the slots became the
/// expected ones, and on failure the same error came back with every slot untouched.
pub open spec fn settles(
    r: Result<(), LedgerError>,
    before: Seq<SlotView>,
    after: Seq<SlotView>,
    expected: Result<Seq<SlotView>, LedgerError>,
) -> bool {
    match expected {
        Ok(s) => r is Ok && after == s,
        Err(e) => r == Err::<(), LedgerError>(e) && after == before,
    }
}

/// Initialize: the target must be empty and owned by the program; it then holds a
/// zero balance.
pub open spec fn initialize_spec(program: Seq<u8>, s: Seq<SlotView>) -> Result<
    Seq<SlotView>,
    LedgerError,
> {
    if s.len() < 3 {
        Err(LedgerError::NotEnoughAccountKeys)
    } else if s[TARGET as int].data.len() > 0 {
        Err(LedgerError::AccountAlreadyInitialized)
    } else if s[TARGET as int].owner != program {
        Err(LedgerError::IncorrectProgramId)
    } else {
        Ok(s.update(TARGET as int, with_data(s[TARGET as int], spec_u64_to_le_bytes(0))))
    }
}

/// Deposit: the depositor's whole native amount moves to the program-owned,
/// initialized target, whose stored balance grows by the same amount.
pub open spec fn deposit_spec(program: Seq<u8>, s: Seq<SlotView>) -> Result<
    Seq<SlotView>,
    LedgerError,
> {
    if s.len() < 3 {
        Err(LedgerError::NotEnoughAccountKeys)
    } else if s[TARGET as int].owner != program {
        Err(LedgerError::IncorrectProgramId)
    } else if !is_initialized(s[TARGET as int].data) {
        Err(LedgerError::UninitializedAccount)
    } else {
        let user = s[REQUESTER as int];
        let target = s[TARGET as int];
        let amount = user.lamports;
        let balance = stored_balance(target.data);
        if target.lamports + amount > u64::MAX || balance + amount > u64::MAX {
            Err(LedgerError::ArithmeticOverflow)
        } else {
            Ok(
                s.update(REQUESTER as int, with_lamports(user, 0)).update(
                    TARGET as int,
                    with_data(
                        with_lamports(target, (target.lamports + amount) as u64),
                        with_balance(target.data, (balance + amount) as u64),
                    ),
                ),
            )
        }
    }
}

/// Withdraw: a signing requester takes `amount` out of the program-owned,
/// initialized target, whose stored balance must cover it.
pub open spec fn withdraw_spec(program: Seq<u8>, s: Seq<SlotView>, amount: u64) -> Result<
    Seq<SlotView>,
    LedgerError,
> {
    if s.len() < 2 {
        Err(LedgerError::NotEnoughAccountKeys)
    } else if s[TARGET as int].owner != program {
        Err(LedgerError::IncorrectProgramId)
    } else if !s[REQUESTER as int].is_signer {
        Err(LedgerError::MissingRequiredSignature)
    } else if !is_initialized(s[TARGET as int].data) {
        Err(LedgerError::UninitializedAccount)
    } else {
        let user = s[REQUESTER as int];
        let target = s[TARGET as int];
        let balance = stored_balance(target.data);
        if amount > balance {
            Err(LedgerError::InsufficientFunds)
        } else if target.lamports < amount || user.lamports + amount > u64::MAX {
            Err(LedgerError::ArithmeticOverflow)
        } else {
            Ok(
                s.update(
                    TARGET as int,
                    with_data(
                        with_lamports(target, (target.lamports - amount) as u64),
                        with_balance(target.data, (balance - amount) as u64),
                    ),
                ).update(REQUESTER as int, with_lamports(user, (user.lamports + amount) as u64)),
            )
        }
    }
}

/// The operations of the ledger over a list of slots ordered as
/// `[requester, target, transfer capability]`.
pub struct Processor;

impl Processor {
    /// Writes a zero stored balance into an empty, program-owned target slot.
    pub fn initialize_account(program_id: &Identity, accounts: &mut Vec<Slot>) -> (r: Result<
        (),
        LedgerError,
    >)
        ensures
            settles(
                r,
                slots_view(old(accounts)@),
                slots_view(final(accounts)@),
                initialize_spec(program_id@, slots_view(old(accounts)@)),
            ),
    {
        if accounts.len() < 3 {
            return Err(LedgerError::NotEnoughAccountKeys);
        }
        if accounts[TARGET].data.len() > 0 {
            return Err(LedgerError::AccountAlreadyInitialized);
        }
        if !(accounts[TARGET].owner == *program_id) {
            return Err(LedgerError::IncorrectProgramId);
        }
        let ghost before = slots_view(accounts@);
        accounts[TARGET].data = u64_to_le_bytes(0);
        assert(slots_view(accounts@) =~= before.update(
            TARGET as int,
            with_data(before[TARGET as int], spec_u64_to_le_bytes(0)),
        ));
        Ok(())
    }

    /// Sweeps the depositor's whole native amount into the program-owned,
    /// initialized target and credits its stored balance by that amount.
    pub fn deposit(program_id: &Identity, accounts: &mut Vec<Slot>) -> (r: Result<
        (),
        LedgerError,
    >)
        ensures
            settles(
                r,
                slots_view(old(accounts)@),
                slots_view(final(accounts)@),
                deposit_spec(program_id@, slots_view(old(accounts)@)),
            ),
    {
        if accounts.len() < 3 {
            return Err(LedgerError::NotEnoughAccountKeys);
        }
        if !(accounts[TARGET].owner == *program_id) {
            return Err(LedgerError::IncorrectProgramId);
        }
        if accounts[TARGET].data.len() < BALANCE_LEN {
            return Err(LedgerError::UninitializedAccount);
        }
        let amount = accounts[REQUESTER].lamports;
        let target_lamports = match accounts[TARGET].lamports.checked_add(amount) {
            Some(v) => v,
            None => return Err(LedgerError::ArithmeticOverflow),
        };
        let balance = read_balance(&accounts[TARGET].data);
        let new_balance = match balance.checked_add(amount) {
            Some(v) => v,
            None => return Err(LedgerError::ArithmeticOverflow),
        };
        let ghost before = slots_view(accounts@);
        accounts[REQUESTER].lamports = 0;
        accounts[TARGET].lamports = target_lamports;
        write_balance(&mut accounts[TARGET].data, new_balance);
        assert(slots_view(accounts@) =~= before.update(
            REQUESTER as int,
            with_lamports(before[REQUESTER as int], 0),
        ).update(
            TARGET as int,
            with_data(
                with_lamports(before[TARGET as int], target_lamports),
                with_balance(before[TARGET as int].data, new_balance),
            ),
        ));
        Ok(())
    }

    /// Pays `amount` out of the program-owned, initialized target to the signing
    /// requester and debits the target's stored balance by that amount.
    pub fn withdraw(program_id: &Identity, accounts: &mut Vec<Slot>, amount: u64) -> (r: Result<
        (),
        LedgerError,
    >)
        ensures
            settles(
                r,
                slots_view(old(accounts)@),
                slots_view(final(accounts)@),
                withdraw_spec(program_id@, slots_view(old(accounts)@), amount),
            ),
    {
        if accounts.len() < 2 {
            return Err(LedgerError::NotEnoughAccountKeys);
        }
        if !(accounts[TARGET].owner == *program_id) {
            return Err(LedgerError::IncorrectProgramId);
        }
        if !accounts[REQUESTER].is_signer {
            return Err(LedgerError::MissingRequiredSignature);
        }
        if accounts[TARGET].data.len() < BALANCE_LEN {
            return Err(LedgerError::UninitializedAccount);
        }
        let balance = read_balance(&accounts[TARGET].data);
        if amount > balance {
            return Err(LedgerError::InsufficientFunds);
        }
        let target_lamports = match accounts[TARGET].lamports.checked_sub(amount) {
            Some(v) => v,
            None => return Err(LedgerError::ArithmeticOverflow),
        };
        let user_lamports = match accounts[REQUESTER].lamports.checked_add(amount) {
            Some(v) => v,
            None => return Err(LedgerError::ArithmeticOverflow),
        };
        let new_balance = match balance.checked_sub(amount) {
            Some(v) => v,
            None => return Err(LedgerError::ArithmeticOverflow),
        };
        let ghost before = slots_view(accounts@);
        accounts[TARGET].lamports = target_lamports;
        write_balance(&mut accounts[TARGET].data, new_balance);
        accounts[REQUESTER].lamports = user_lamports;
        assert(slots_view(accounts@) =~= before.update(
            TARGET as int,
            with_data(
                with_lamports(before[TARGET as int], target_lamports),
                with_balance(before[TARGET as int].data, new_balance),
            ),
        ).update(REQUESTER as int, with_lamports(before[REQUESTER as int], user_lamports)));
        Ok(())
    }
}

} // verus!
