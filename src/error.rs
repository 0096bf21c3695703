use vstd::prelude::*;

verus! {

/// Every way an invocation of the ledger can fail.
#[derive(Clone, Copy, Debug, PartialEq, Eq, Structural)]
pub enum LedgerError {
    /// The instruction bytes are empty, truncated, or carry an unknown tag.
    InvalidInstructionData,
    /// A withdrawal asked for more than the stored balance.
    InsufficientFunds,
    /// The target slot is not owned by the program.
    IncorrectProgramId,
    /// A withdrawal was requested without a signing requester.
    MissingRequiredSignature,
    /// Initialize was requested on a slot whose data is not empty.
    AccountAlreadyInitialized,
    /// The target slot holds no stored balance yet.
    UninitializedAccount,
    /// Fewer slots were supplied than the operation needs.
    NotEnoughAccountKeys,
    /// An addition or subtraction left the 64-bit range.
    ArithmeticOverflow,
}

/// The host reports a built-in error as its index shifted into the upper 32 bits.
pub const BUILTIN_UNIT: u64 = 0x1_0000_0000;

impl LedgerError {
    /// The index of each error in the host's table of built-in errors.
    pub open spec fn builtin_index(self) -> u64 {
        match self {
            LedgerError::InvalidInstructionData => 3,
            LedgerError::InsufficientFunds => 6,
            LedgerError::IncorrectProgramId => 7,
            LedgerError::MissingRequiredSignature => 8,
            LedgerError::AccountAlreadyInitialized => 9,
            LedgerError::UninitializedAccount => 10,
            LedgerError::NotEnoughAccountKeys => 11,
            LedgerError::ArithmeticOverflow => 24,
        }
    }

    /// The numeric code under which the host reports this error.
    pub fn code(&self) -> (r: u64)
        ensures
            r == self.builtin_index() * BUILTIN_UNIT,
    {
        let index: u64 = match self {
            LedgerError::InvalidInstructionData => 3,
            LedgerError::InsufficientFunds => 6,
            LedgerError::IncorrectProgramId => 7,
            LedgerError::MissingRequiredSignature => 8,
            LedgerError::AccountAlreadyInitialized => 9,
            LedgerError::UninitializedAccount => 10,
            LedgerError::NotEnoughAccountKeys => 11,
            LedgerError::ArithmeticOverflow => 24,
        };
        index * BUILTIN_UNIT
    }
}

/// Errors of the program's own, reported to the host as custom codes.
#[derive(Clone, Copy, Debug, PartialEq, Eq, Structural)]
pub enum MTreeError {
    Test,
}

impl MTreeError {
    /// The custom code of the error: its position in the enumeration.
    pub fn code(&self) -> (r: u32)
        ensures
            r == 0,
    {
        match self {
            MTreeError::Test => 0,
        }
    }

    /// The human-readable description of the error.
    pub fn message(&self) -> (r: &'static str)
        ensures
            r@ == "unimplemented"@,
    {
        match self {
            MTreeError::Test => "unimplemented",
        }
    }
}

} // verus!
