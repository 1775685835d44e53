//! The failures a transition can report.

use vstd::prelude::*;
use vstd::std_specs::convert::FromSpecImpl;

verus! {

/// Why the exchange refused an instruction.
#[derive(Clone, Copy, Debug, PartialEq, Eq, Structural)]
pub enum DexError {
    /// The instruction bytes decode to no instruction.
    InvalidInstructionData,
    /// A record is missing, uninitialized or belongs elsewhere.
    InvalidAccountData,
    /// The caller may not perform this operation.
    AccountNotAuthorized,
    /// A balance is too small for the operation.
    InsufficientFunds,
    /// No such order.
    OrderNotFound,
    /// The limit price is not on the market's price grid.
    InvalidOrderPrice,
    /// The quantity is below the market's minimum.
    InvalidOrderSize,
    /// The book accepts no further orders.
    OrderBookFull,
    /// A token account does not fit the operation.
    InvalidTokenAccount,
    /// A computed amount does not fit in 64 bits.
    ArithmeticOverflow,
}

impl DexError {
    /// The stable number under which the host reports this failure.
    pub open spec fn spec_code(self) -> u32 {
        match self {
            DexError::InvalidInstructionData => 0,
            DexError::InvalidAccountData => 1,
            DexError::AccountNotAuthorized => 2,
            DexError::InsufficientFunds => 3,
            DexError::OrderNotFound => 4,
            DexError::InvalidOrderPrice => 5,
            DexError::InvalidOrderSize => 6,
            DexError::OrderBookFull => 7,
            DexError::InvalidTokenAccount => 8,
            DexError::ArithmeticOverflow => 9,
        }
    }

    /// The stable number under which the host reports this failure.
    #[verifier::when_used_as_spec(spec_code)]
    pub fn code(self) -> (code: u32)
        ensures
            code == self.spec_code(),
    {
        match self {
            DexError::InvalidInstructionData => 0,
            DexError::InvalidAccountData => 1,
            DexError::AccountNotAuthorized => 2,
            DexError::InsufficientFunds => 3,
            DexError::OrderNotFound => 4,
            DexError::InvalidOrderPrice => 5,
            DexError::InvalidOrderSize => 6,
            DexError::OrderBookFull => 7,
            DexError::InvalidTokenAccount => 8,
            DexError::ArithmeticOverflow => 9,
        }
    }

    /// The text shown for this failure.
    pub open spec fn spec_message(self) -> Seq<char> {
        match self {
            DexError::InvalidInstructionData => "Invalid instruction data"@,
            DexError::InvalidAccountData => "Invalid account data"@,
            DexError::AccountNotAuthorized => "Account not authorized"@,
            DexError::InsufficientFunds => "Insufficient funds"@,
            DexError::OrderNotFound => "Order not found"@,
            DexError::InvalidOrderPrice => "Invalid order price"@,
            DexError::InvalidOrderSize => "Invalid order size"@,
            DexError::OrderBookFull => "Order book is full"@,
            DexError::InvalidTokenAccount => "Invalid token account"@,
            DexError::ArithmeticOverflow => "Arithmetic overflow"@,
        }
    }

    /// The text shown for this failure.
    pub fn message(&self) -> (text: String)
        ensures
            text@ == self.spec_message(),
    {
        match self {
            DexError::InvalidInstructionData => "Invalid instruction data".to_string(),
            DexError::InvalidAccountData => "Invalid account data".to_string(),
            DexError::AccountNotAuthorized => "Account not authorized".to_string(),
            DexError::InsufficientFunds => "Insufficient funds".to_string(),
            DexError::OrderNotFound => "Order not found".to_string(),
            DexError::InvalidOrderPrice => "Invalid order price".to_string(),
            DexError::InvalidOrderSize => "Invalid order size".to_string(),
            DexError::OrderBookFull => "Order book is full".to_string(),
            DexError::InvalidTokenAccount => "Invalid token account".to_string(),
            DexError::ArithmeticOverflow => "Arithmetic overflow".to_string(),
        }
    }
}

/// What a transition hands back to the host when it fails: one of the
/// exchange's own failures under its code, or one of two kinds of the
/// host for what the exchange's own kinds do not cover.
#[derive(Clone, Copy, Debug, PartialEq, Eq, Structural)]
pub enum ProgramError {
    /// A failure of the exchange, by the code of its `DexError`.
    Custom(u32),
    /// The token program named by the caller is not the token program.
    IncorrectProgramId,
    /// The instruction names fewer accounts than its operation reads.
    NotEnoughAccountKeys,
}

impl From<DexError> for ProgramError {
    fn from(e: DexError) -> (error: ProgramError) {
        ProgramError::Custom(e.code())
    }
}

impl FromSpecImpl<DexError> for ProgramError {
    open spec fn obeys_from_spec() -> bool {
        true
    }

    open spec fn from_spec(e: DexError) -> ProgramError {
        ProgramError::Custom(e.spec_code())
    }
}

/// The host-level error for a failure of the exchange. `msg_str` says where
/// the failure arose and does not change the result.
pub fn return_dex_error(error: DexError, msg_str: &str) -> (program_error: ProgramError)
    ensures
        program_error == ProgramError::Custom(error.spec_code()),
{
    ProgramError::from(error)
}

} // verus!
