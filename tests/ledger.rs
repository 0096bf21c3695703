use deposit_vault::entrypoint::process_instruction;
use deposit_vault::error::LedgerError;
use deposit_vault::instruction::DepositInstruction;
use deposit_vault::processor::Processor;
use deposit_vault::slot::{balance_of, Identity, Slot};

fn program() -> Identity {
    Identity::new([7; 32])
}

fn slot(key: u8, is_signer: bool, lamports: u64, data: Vec<u8>, owner: Identity) -> Slot {
    Slot { key: Identity::new([key; 32]), is_signer, lamports, data, owner }
}

/// Requester, target and transfer-capability slots, the target owned by the program.
fn accounts(user_lamports: u64, signer: bool, target_lamports: u64, data: Vec<u8>) -> Vec<Slot> {
    vec![
        slot(1, signer, user_lamports, vec![], Identity::new([0; 32])),
        slot(2, false, target_lamports, data, program()),
        slot(0, false, 1, vec![], Identity::new([0; 32])),
    ]
}

fn balance(s: &Slot) -> u64 {
    balance_of(&s.data).unwrap()
}

#[test]
fn concrete_initialize_deposit_withdraw() {
    let mut a = accounts(1_000_000_000, true, 0, vec![]);
    assert_eq!(Processor::initialize_account(&program(), &mut a), Ok(()));
    assert_eq!(balance(&a[1]), 0);

    assert_eq!(Processor::deposit(&program(), &mut a), Ok(()));
    assert_eq!(balance(&a[1]), 1_000_000_000);
    assert_eq!(a[0].lamports, 0);
    assert_eq!(a[1].lamports, 1_000_000_000);

    assert_eq!(Processor::withdraw(&program(), &mut a, 400_000_000), Ok(()));
    assert_eq!(balance(&a[1]), 600_000_000);
    assert_eq!(a[0].lamports, 400_000_000);
    assert_eq!(a[1].lamports, 600_000_000);
}

#[test]
fn concrete_scenario_through_entry_point() {
    let mut a = accounts(1_000_000_000, true, 0, vec![]);
    assert_eq!(process_instruction(&program(), &mut a, &[0]), Ok(()));
    assert_eq!(a[1].data, vec![0u8; 8]);
    assert_eq!(process_instruction(&program(), &mut a, &[1]), Ok(()));
    let withdraw = DepositInstruction::Withdraw { amount: 400_000_000 }.pack();
    assert_eq!(process_instruction(&program(), &mut a, &withdraw), Ok(()));
    assert_eq!(balance(&a[1]), 600_000_000);
    assert_eq!(a[0].lamports, 400_000_000);
}

#[test]
fn initialize_twice_fails() {
    let mut a = accounts(5, true, 0, vec![]);
    assert_eq!(Processor::initialize_account(&program(), &mut a), Ok(()));
    assert_eq!(Processor::deposit(&program(), &mut a), Ok(()));
    assert_eq!(
        Processor::initialize_account(&program(), &mut a),
        Err(LedgerError::AccountAlreadyInitialized)
    );
    assert_eq!(balance(&a[1]), 5);
}

#[test]
fn initialize_foreign_slot_fails() {
    let mut a = accounts(5, true, 0, vec![]);
    a[1].owner = Identity::new([9; 32]);
    assert_eq!(Processor::initialize_account(&program(), &mut a), Err(LedgerError::IncorrectProgramId));
    assert!(a[1].data.is_empty());
}

#[test]
fn too_few_slots_fail() {
    let mut a = accounts(5, true, 0, vec![]);
    a.pop();
    assert_eq!(Processor::initialize_account(&program(), &mut a), Err(LedgerError::NotEnoughAccountKeys));
    assert_eq!(Processor::deposit(&program(), &mut a), Err(LedgerError::NotEnoughAccountKeys));
    a.pop();
    assert_eq!(Processor::withdraw(&program(), &mut a, 0), Err(LedgerError::NotEnoughAccountKeys));
}

#[test]
fn withdraw_needs_only_two_slots() {
    let mut a = accounts(0, true, 10, 10u64.to_le_bytes().to_vec());
    a.pop();
    assert_eq!(Processor::withdraw(&program(), &mut a, 3), Ok(()));
    assert_eq!(balance(&a[1]), 7);
    assert_eq!(a[0].lamports, 3);
    assert_eq!(a[1].lamports, 7);
}

#[test]
fn deposit_overflow_leaves_balance() {
    let mut a = accounts(2, true, 0, (u64::MAX - 1).to_le_bytes().to_vec());
    assert_eq!(Processor::deposit(&program(), &mut a), Err(LedgerError::ArithmeticOverflow));
    assert_eq!(balance(&a[1]), u64::MAX - 1);
    assert_eq!(a[0].lamports, 2);
    assert_eq!(a[1].lamports, 0);
}

#[test]
fn deposit_up_to_max_succeeds() {
    let mut a = accounts(1, false, 0, (u64::MAX - 1).to_le_bytes().to_vec());
    assert_eq!(Processor::deposit(&program(), &mut a), Ok(()));
    assert_eq!(balance(&a[1]), u64::MAX);
}

#[test]
fn deposit_native_overflow_fails() {
    let mut a = accounts(2, true, u64::MAX, 0u64.to_le_bytes().to_vec());
    assert_eq!(Processor::deposit(&program(), &mut a), Err(LedgerError::ArithmeticOverflow));
    assert_eq!(balance(&a[1]), 0);
}

#[test]
fn deposit_into_uninitialized_slot_fails() {
    let mut a = accounts(2, true, 0, vec![]);
    assert_eq!(Processor::deposit(&program(), &mut a), Err(LedgerError::UninitializedAccount));
    assert_eq!(a[0].lamports, 2);
}

#[test]
fn deposit_keeps_trailing_data() {
    let mut data = 3u64.to_le_bytes().to_vec();
    data.extend_from_slice(&[0xaa, 0xbb]);
    let mut a = accounts(4, false, 3, data);
    assert_eq!(Processor::deposit(&program(), &mut a), Ok(()));
    assert_eq!(a[1].data, vec![7, 0, 0, 0, 0, 0, 0, 0, 0xaa, 0xbb]);
}

#[test]
fn withdraw_beyond_balance_fails() {
    let mut a = accounts(0, true, 100, 50u64.to_le_bytes().to_vec());
    assert_eq!(Processor::withdraw(&program(), &mut a, 51), Err(LedgerError::InsufficientFunds));
    assert_eq!(balance(&a[1]), 50);
    assert_eq!(a[0].lamports, 0);
    assert_eq!(a[1].lamports, 100);
}

#[test]
fn withdraw_whole_balance() {
    let mut a = accounts(0, true, 50, 50u64.to_le_bytes().to_vec());
    assert_eq!(Processor::withdraw(&program(), &mut a, 50), Ok(()));
    assert_eq!(balance(&a[1]), 0);
    assert_eq!(a[0].lamports, 50);
}

#[test]
fn withdraw_without_signer_fails() {
    for (amount, stored) in [(0u64, 0u64), (1, 100), (1000, 1)] {
        let mut a = accounts(0, false, 100, stored.to_le_bytes().to_vec());
        assert_eq!(
            Processor::withdraw(&program(), &mut a, amount),
            Err(LedgerError::MissingRequiredSignature)
        );
        assert_eq!(balance(&a[1]), stored);
    }
}

#[test]
fn withdraw_from_foreign_slot_fails() {
    let mut a = accounts(0, true, 100, 50u64.to_le_bytes().to_vec());
    a[1].owner = Identity::new([9; 32]);
    assert_eq!(Processor::withdraw(&program(), &mut a, 1), Err(LedgerError::IncorrectProgramId));
}

#[test]
fn withdraw_beyond_native_amount_fails() {
    let mut a = accounts(0, true, 10, 50u64.to_le_bytes().to_vec());
    assert_eq!(Processor::withdraw(&program(), &mut a, 20), Err(LedgerError::ArithmeticOverflow));
    assert_eq!(balance(&a[1]), 50);
}

#[test]
fn withdraw_crediting_past_max_fails() {
    let mut a = accounts(u64::MAX, true, 10, 50u64.to_le_bytes().to_vec());
    assert_eq!(Processor::withdraw(&program(), &mut a, 1), Err(LedgerError::ArithmeticOverflow));
    assert_eq!(a[0].lamports, u64::MAX);
}

#[test]
fn deposit_then_withdraw_restores_balance() {
    let mut a = accounts(250, true, 900, 900u64.to_le_bytes().to_vec());
    assert_eq!(Processor::deposit(&program(), &mut a), Ok(()));
    assert_eq!(balance(&a[1]), 1150);
    assert_eq!(Processor::withdraw(&program(), &mut a, 250), Ok(()));
    assert_eq!(balance(&a[1]), 900);
    assert_eq!(a[0].lamports, 250);
    assert_eq!(a[1].lamports, 900);
}

#[test]
fn entry_point_rejects_bad_instruction_without_effect() {
    let mut a = accounts(5, true, 0, vec![]);
    assert_eq!(process_instruction(&program(), &mut a, &[]), Err(LedgerError::InvalidInstructionData));
    assert_eq!(process_instruction(&program(), &mut a, &[2]), Err(LedgerError::InvalidInstructionData));
    assert!(a[1].data.is_empty());
    assert_eq!(a[0].lamports, 5);
}

#[test]
fn balance_of_short_data_is_absent() {
    assert_eq!(balance_of(&[1, 2, 3]), None);
    assert_eq!(balance_of(&[]), None);
    assert_eq!(balance_of(&[1, 1, 0, 0, 0, 0, 0, 0, 9]), Some(257));
}

#[test]
fn identities_compare_by_bytes() {
    let mut b = [3u8; 32];
    assert_eq!(Identity::new(b), Identity::new([3; 32]));
    b[31] = 4;
    assert_ne!(Identity::new(b), Identity::new([3; 32]));
}
