use solana_rust_dex::error::{return_dex_error, DexError, ProgramError};

fn every_error() -> Vec<(DexError, u32, &'static str)> {
    vec![
        (DexError::InvalidInstructionData, 0, "Invalid instruction data"),
        (DexError::InvalidAccountData, 1, "Invalid account data"),
        (DexError::AccountNotAuthorized, 2, "Account not authorized"),
        (DexError::InsufficientFunds, 3, "Insufficient funds"),
        (DexError::OrderNotFound, 4, "Order not found"),
        (DexError::InvalidOrderPrice, 5, "Invalid order price"),
        (DexError::InvalidOrderSize, 6, "Invalid order size"),
        (DexError::OrderBookFull, 7, "Order book is full"),
        (DexError::InvalidTokenAccount, 8, "Invalid token account"),
        (DexError::ArithmeticOverflow, 9, "Arithmetic overflow"),
    ]
}

#[test]
fn every_error_has_its_code() {
    for (error, code, _) in every_error() {
        assert_eq!(error.code(), code);
    }
}

#[test]
fn every_error_has_its_message() {
    for (error, _, message) in every_error() {
        assert_eq!(error.message(), message);
    }
}

#[test]
fn an_error_of_the_exchange_becomes_a_custom_error() {
    for (error, code, _) in every_error() {
        assert_eq!(ProgramError::from(error), ProgramError::Custom(code));
        assert_eq!(return_dex_error(error, "context"), ProgramError::Custom(code));
    }
}

#[test]
fn the_context_does_not_change_the_error() {
    assert_eq!(
        return_dex_error(DexError::InvalidOrderSize, "Order size below minimum"),
        return_dex_error(DexError::InvalidOrderSize, ""),
    );
    assert_eq!(return_dex_error(DexError::InvalidOrderSize, ""), ProgramError::Custom(6));
}

#[test]
fn the_hosts_own_kinds_are_no_custom_errors() {
    for (error, _, _) in every_error() {
        assert_ne!(ProgramError::from(error), ProgramError::NotEnoughAccountKeys);
        assert_ne!(ProgramError::from(error), ProgramError::IncorrectProgramId);
    }
}
