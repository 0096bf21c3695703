use vstd::prelude::*;
use vstd::bytes::{lemma_auto_spec_u64_to_from_le_bytes, spec_u64_to_le_bytes};

use crate::entrypoint::execute_spec;
use crate::error::LedgerError;
use crate::processor::{deposit_spec, initialize_spec, withdraw_spec, REQUESTER, TARGET};
use crate::slot::{
    is_initialized, lemma_stored_balance_with_balance, stored_balance, with_balance, SlotView,
};

verus! {

/// Initializing an empty, program-owned slot succeeds and leaves a zero stored
/// balance; initializing the result again fails with `AccountAlreadyInitialized`.
pub proof fn lemma_first_initialize(program: Seq<u8>, s: Seq<SlotView>)
    requires
        s.len() >= 3,
        s[TARGET as int].data.len() == 0,
        s[TARGET as int].owner == program,
    ensures
        initialize_spec(program, s) is Ok,
        is_initialized(initialize_spec(program, s)->Ok_0[TARGET as int].data),
        stored_balance(initialize_spec(program, s)->Ok_0[TARGET as int].data) == 0,
        initialize_spec(program, initialize_spec(program, s)->Ok_0) == Err::<
            Seq<SlotView>,
            LedgerError,
        >(LedgerError::AccountAlreadyInitialized),
{
    lemma_auto_spec_u64_to_from_le_bytes();
    let d = spec_u64_to_le_bytes(0);
    assert(d.subrange(0, 8) =~= d);
}

/// No instruction takes an initialized target back to the uninitialized state, so
/// every later Initialize of that slot fails with `AccountAlreadyInitialized`.
pub proof fn lemma_initialized_stays_initialized(
    program: Seq<u8>,
    s: Seq<SlotView>,
    input: Seq<u8>,
)
    requires
        s.len() >= 2,
        is_initialized(s[TARGET as int].data),
    ensures
        execute_spec(program, s, input) is Ok ==> {
            let t = execute_spec(program, s, input)->Ok_0;
            &&& t.len() == s.len()
            &&& is_initialized(t[TARGET as int].data)
        },
        s.len() >= 3 ==> initialize_spec(program, s) == Err::<Seq<SlotView>, LedgerError>(
            LedgerError::AccountAlreadyInitialized,
        ),
{
    let d = s[TARGET as int].data;
    lemma_auto_spec_u64_to_from_le_bytes();
    lemma_stored_balance_with_balance(d, 0);
}

/// A withdrawal of more than the stored balance fails with `InsufficientFunds`;
/// a successful one never takes more than the balance, which drops by exactly the
/// amount. A stored balance is a `u64`, so it is never negative.
pub proof fn lemma_withdraw_within_balance(program: Seq<u8>, s: Seq<SlotView>, amount: u64)
    requires
        s.len() >= 2,
        s[TARGET as int].owner == program,
        s[REQUESTER as int].is_signer,
        is_initialized(s[TARGET as int].data),
    ensures
        amount > stored_balance(s[TARGET as int].data) ==> withdraw_spec(program, s, amount)
            == Err::<Seq<SlotView>, LedgerError>(LedgerError::InsufficientFunds),
        withdraw_spec(program, s, amount) is Ok ==> {
            let t = withdraw_spec(program, s, amount)->Ok_0;
            &&& amount <= stored_balance(s[TARGET as int].data)
            &&& stored_balance(t[TARGET as int].data) == stored_balance(s[TARGET as int].data)
                - amount
        },
{
    let d = s[TARGET as int].data;
    let b = stored_balance(d);
    if amount <= b {
        lemma_stored_balance_with_balance(d, (b - amount) as u64);
    }
}

/// A deposit whose credit would take the stored balance past `u64::MAX` fails with
/// `ArithmeticOverflow`.
pub proof fn lemma_deposit_overflow(program: Seq<u8>, s: Seq<SlotView>)
    requires
        s.len() >= 3,
        s[TARGET as int].owner == program,
        is_initialized(s[TARGET as int].data),
        stored_balance(s[TARGET as int].data) + s[REQUESTER as int].lamports > u64::MAX,
    ensures
        deposit_spec(program, s) == Err::<Seq<SlotView>, LedgerError>(
            LedgerError::ArithmeticOverflow,
        ),
{
}

/// A successful deposit followed by a signed withdrawal of the deposited amount
/// restores every slot, and with it the stored balance.
pub proof fn lemma_deposit_withdraw_round_trip(program: Seq<u8>, s: Seq<SlotView>)
    requires
        deposit_spec(program, s) is Ok,
        s[REQUESTER as int].is_signer,
    ensures
        withdraw_spec(program, deposit_spec(program, s)->Ok_0, s[REQUESTER as int].lamports)
            == Ok::<Seq<SlotView>, LedgerError>(s),
{
    let d = s[TARGET as int].data;
    let b = stored_balance(d);
    let amount = s[REQUESTER as int].lamports;
    let d1 = with_balance(d, (b + amount) as u64);
    lemma_stored_balance_with_balance(d, (b + amount) as u64);
    lemma_stored_balance_with_balance(d1, b);
    lemma_auto_spec_u64_to_from_le_bytes();
    assert(d.subrange(0, 8).len() == 8);
    assert(with_balance(d1, b) =~= d);
    let t = withdraw_spec(program, deposit_spec(program, s)->Ok_0, amount)->Ok_0;
    assert(t =~= s);
}

/// A withdrawal from a program-owned slot whose requester did not sign fails with
/// `MissingRequiredSignature`, whatever the amount and the balance.
pub proof fn lemma_withdraw_needs_signer(program: Seq<u8>, s: Seq<SlotView>, amount: u64)
    requires
        s.len() >= 2,
        s[TARGET as int].owner == program,
        !s[REQUESTER as int].is_signer,
    ensures
        withdraw_spec(program, s, amount) == Err::<Seq<SlotView>, LedgerError>(
            LedgerError::MissingRequiredSignature,
        ),
{
}

} // verus!
