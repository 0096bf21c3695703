use vstd::prelude::*;
use vstd::bytes::{
    lemma_auto_spec_u64_to_from_le_bytes, spec_u64_from_le_bytes, spec_u64_to_le_bytes,
    u64_from_le_bytes, u64_to_le_bytes,
};
use vstd::slice::slice_subrange;

use crate::error::LedgerError;

verus! {

/// Tag byte of `Initialize`.
pub const TAG_INITIALIZE: u8 = 0;

/// Tag byte of `Deposit`.
pub const TAG_DEPOSIT: u8 = 1;

/// Tag byte of `Withdraw`, which is followed by an eight-byte little-endian amount.
pub const TAG_WITHDRAW: u8 = 2;

/// The three operations of the ledger.
#[derive(Clone, Copy, Debug, PartialEq, Eq, Structural)]
pub enum DepositInstruction {
    /// Write a zero stored balance into an empty slot.
    Initialize,
    /// Move the depositor's whole native amount into the slot and credit it.
    Deposit,
    /// Move `amount` out of the slot to the requester and debit it.
    Withdraw { amount: u64 },
}

/// What a byte buffer decodes to: the tag selects the operation, `Withdraw` reads
/// its amount from the eight bytes after the tag, and later bytes are ignored.
pub open spec fn decode(input: Seq<u8>) -> Result<DepositInstruction, LedgerError> {
    if input.len() == 0 {
        Err(LedgerError::InvalidInstructionData)
    } else if input[0] == TAG_INITIALIZE {
        Ok(DepositInstruction::Initialize)
    } else if input[0] == TAG_DEPOSIT {
        Ok(DepositInstruction::Deposit)
    } else if input[0] == TAG_WITHDRAW && input.len() >= 9 {
        Ok(DepositInstruction::Withdraw { amount: spec_u64_from_le_bytes(input.subrange(1, 9)) })
    } else {
        Err(LedgerError::InvalidInstructionData)
    }
}

/// The canonical wire bytes of an instruction: its tag, then for `Withdraw` the
/// amount in little-endian order.
pub open spec fn encode(ix: DepositInstruction) -> Seq<u8> {
    match ix {
        DepositInstruction::Initialize => seq![TAG_INITIALIZE],
        DepositInstruction::Deposit => seq![TAG_DEPOSIT],
        DepositInstruction::Withdraw { amount } => seq![TAG_WITHDRAW] + spec_u64_to_le_bytes(amount),
    }
}

impl DepositInstruction {
    /// Decodes instruction bytes; fails with `InvalidInstructionData` on an empty
    /// buffer, an unknown tag, or a `Withdraw` with fewer than eight amount bytes.
    pub fn unpack(input: &[u8]) -> (r: Result<DepositInstruction, LedgerError>)
        ensures
            r == decode(input@),
    {
        if input.len() == 0 {
            return Err(LedgerError::InvalidInstructionData);
        }
        let tag = input[0];
        if tag == TAG_INITIALIZE {
            Ok(DepositInstruction::Initialize)
        } else if tag == TAG_DEPOSIT {
            Ok(DepositInstruction::Deposit)
        } else if tag == TAG_WITHDRAW && input.len() >= 9 {
            let amount = u64_from_le_bytes(slice_subrange(input, 1, 9));
            Ok(DepositInstruction::Withdraw { amount })
        } else {
            Err(LedgerError::InvalidInstructionData)
        }
    }

    /// Encodes the instruction in its canonical wire form.
    pub fn pack(&self) -> (r: Vec<u8>)
        ensures
            r@ == encode(*self),
    {
        match self {
            DepositInstruction::Initialize => vec![TAG_INITIALIZE],
            DepositInstruction::Deposit => vec![TAG_DEPOSIT],
            DepositInstruction::Withdraw { amount } => {
                let mut out = vec![TAG_WITHDRAW];
                let mut bytes = u64_to_le_bytes(*amount);
                out.append(&mut bytes);
                assert(out@ =~= encode(*self));
                out
            },
        }
    }
}

/// An instruction that carries a leaf of bytes for a Merkle tree.
#[derive(Clone, Debug, PartialEq)]
pub enum MTreeInstruction {
    InsertLeaf { data: Vec<u8> },
}

/// Decoding the canonical encoding of an instruction gives that instruction back.
pub proof fn lemma_decode_encode(ix: DepositInstruction)
    ensures
        decode(encode(ix)) == Ok::<DepositInstruction, LedgerError>(ix),
{
    lemma_auto_spec_u64_to_from_le_bytes();
    if let DepositInstruction::Withdraw { amount } = ix {
        assert(encode(ix).subrange(1, 9) =~= spec_u64_to_le_bytes(amount));
    }
}

} // verus!
