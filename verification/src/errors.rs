use vstd::prelude::*;

verus! {

/// The ways an operation of the vesting engine can be refused.
#[derive(Clone, Copy, Debug, PartialEq, Eq, Structural)]
pub enum VestingErrorCode {
    InsufficientFunds,
    InsufficientWithdrawalAmount,
    MinimumAmountHigherZero,
    MinimumAmountNotMet,
    ArithmeticOverflow,
    DivisionByZero,
    InteractingWithCanceledSession,
    UnathorizedToExecute,
    InvalidMeta,
    UnsupportedTokenExtension,
}

impl VestingErrorCode {
    /// Position of the variant in the declaration, counted from zero.
    pub open spec fn spec_index(self) -> u32 {
        match self {
            VestingErrorCode::InsufficientFunds => 0,
            VestingErrorCode::InsufficientWithdrawalAmount => 1,
            VestingErrorCode::MinimumAmountHigherZero => 2,
            VestingErrorCode::MinimumAmountNotMet => 3,
            VestingErrorCode::ArithmeticOverflow => 4,
            VestingErrorCode::DivisionByZero => 5,
            VestingErrorCode::InteractingWithCanceledSession => 6,
            VestingErrorCode::UnathorizedToExecute => 7,
            VestingErrorCode::InvalidMeta => 8,
            VestingErrorCode::UnsupportedTokenExtension => 9,
        }
    }

    /// The number under which the variant is reported as a custom program error.
    pub fn index(self) -> (code: u32)
        ensures
            code == self.spec_index(),
    {
        match self {
            VestingErrorCode::InsufficientFunds => 0,
            VestingErrorCode::InsufficientWithdrawalAmount => 1,
            VestingErrorCode::MinimumAmountHigherZero => 2,
            VestingErrorCode::MinimumAmountNotMet => 3,
            VestingErrorCode::ArithmeticOverflow => 4,
            VestingErrorCode::DivisionByZero => 5,
            VestingErrorCode::InteractingWithCanceledSession => 6,
            VestingErrorCode::UnathorizedToExecute => 7,
            VestingErrorCode::InvalidMeta => 8,
            VestingErrorCode::UnsupportedTokenExtension => 9,
        }
    }

    /// The text that describes the error.
    pub open spec fn spec_message(self) -> Seq<char> {
        match self {
            VestingErrorCode::InsufficientFunds => "Insufficient funds"@,
            VestingErrorCode::InsufficientWithdrawalAmount => "Not Enough token was released to withdraw"@,
            VestingErrorCode::MinimumAmountHigherZero => "Amount can not be zero"@,
            VestingErrorCode::MinimumAmountNotMet => "Minimum amount not met"@,
            VestingErrorCode::ArithmeticOverflow => "Arithmetic overflow occurred"@,
            VestingErrorCode::DivisionByZero => "Division by zero attempted"@,
            VestingErrorCode::InteractingWithCanceledSession => "Interacting with canceled session"@,
            VestingErrorCode::UnathorizedToExecute => "Unathorized to execute this operation"@,
            VestingErrorCode::InvalidMeta => "Invalid metadata received"@,
            VestingErrorCode::UnsupportedTokenExtension => "Received valued token implements a token extension not supported by the vesting app"@,
        }
    }

    /// The text that describes the error.
    pub fn message(&self) -> (text: String)
        ensures
            text@ == self.spec_message(),
    {
        match self {
            VestingErrorCode::InsufficientFunds => "Insufficient funds".to_owned(),
            VestingErrorCode::InsufficientWithdrawalAmount => "Not Enough token was released to withdraw".to_owned(),
            VestingErrorCode::MinimumAmountHigherZero => "Amount can not be zero".to_owned(),
            VestingErrorCode::MinimumAmountNotMet => "Minimum amount not met".to_owned(),
            VestingErrorCode::ArithmeticOverflow => "Arithmetic overflow occurred".to_owned(),
            VestingErrorCode::DivisionByZero => "Division by zero attempted".to_owned(),
            VestingErrorCode::InteractingWithCanceledSession => "Interacting with canceled session".to_owned(),
            VestingErrorCode::UnathorizedToExecute => "Unathorized to execute this operation".to_owned(),
            VestingErrorCode::InvalidMeta => "Invalid metadata received".to_owned(),
            VestingErrorCode::UnsupportedTokenExtension => "Received valued token implements a token extension not supported by the vesting app".to_owned(),
        }
    }
}

} // verus!
