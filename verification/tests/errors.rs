use vesting_contract::errors::VestingErrorCode;

#[test]
fn error_index_follows_declaration_order() {
    let all = [
        VestingErrorCode::InsufficientFunds,
        VestingErrorCode::InsufficientWithdrawalAmount,
        VestingErrorCode::MinimumAmountHigherZero,
        VestingErrorCode::MinimumAmountNotMet,
        VestingErrorCode::ArithmeticOverflow,
        VestingErrorCode::DivisionByZero,
        VestingErrorCode::InteractingWithCanceledSession,
        VestingErrorCode::UnathorizedToExecute,
        VestingErrorCode::InvalidMeta,
        VestingErrorCode::UnsupportedTokenExtension,
    ];
    for (position, code) in all.iter().enumerate() {
        assert_eq!(code.index(), position as u32);
    }
}

#[test]
fn error_messages_are_the_declared_texts() {
    assert_eq!(VestingErrorCode::InsufficientFunds.message(), "Insufficient funds");
    assert_eq!(
        VestingErrorCode::InsufficientWithdrawalAmount.message(),
        "Not Enough token was released to withdraw"
    );
    assert_eq!(VestingErrorCode::MinimumAmountHigherZero.message(), "Amount can not be zero");
    assert_eq!(VestingErrorCode::MinimumAmountNotMet.message(), "Minimum amount not met");
    assert_eq!(VestingErrorCode::ArithmeticOverflow.message(), "Arithmetic overflow occurred");
    assert_eq!(VestingErrorCode::DivisionByZero.message(), "Division by zero attempted");
    assert_eq!(
        VestingErrorCode::InteractingWithCanceledSession.message(),
        "Interacting with canceled session"
    );
    assert_eq!(
        VestingErrorCode::UnathorizedToExecute.message(),
        "Unathorized to execute this operation"
    );
    assert_eq!(VestingErrorCode::InvalidMeta.message(), "Invalid metadata received");
    assert_eq!(
        VestingErrorCode::UnsupportedTokenExtension.message(),
        "Received valued token implements a token extension not supported by the vesting app"
    );
}
