use vstd::prelude::*;

verus! {

/// Why a transition of the escrow was refused.
#[derive(Clone, Copy, Debug, PartialEq, Eq, Structural)]
pub enum ErrorCode {
    /// The rental period has not elapsed yet.
    RentalPeriodNotOver,
    /// The taker cannot cover rent and deposit.
    InsufficientFunds,
    /// The transition is not allowed from the record's current phase.
    InvalidStateTransition,
    /// The asset account does not hold exactly one unit.
    AssetNotSingleton,
    /// No custodian address could be derived for the program.
    CustodianUnavailable,
}

impl ErrorCode {
    /// The description that `message` returns.
    pub open spec fn spec_message(&self) -> Seq<char> {
        match self {
            ErrorCode::RentalPeriodNotOver => "Rental period is not over yet."@,
            ErrorCode::InsufficientFunds => "Insufficient funds to pay for rent and deposit."@,
            ErrorCode::InvalidStateTransition => "The escrow is not in a state that allows this."@,
            ErrorCode::AssetNotSingleton => "The asset account must hold exactly one unit."@,
            ErrorCode::CustodianUnavailable => "No custodian address could be derived."@,
        }
    }

    /// A human-readable description of the error.
    pub fn message(&self) -> (r: &'static str)
        ensures
            r@ == self.spec_message(),
    {
        match self {
            ErrorCode::RentalPeriodNotOver => "Rental period is not over yet.",
            ErrorCode::InsufficientFunds => "Insufficient funds to pay for rent and deposit.",
            ErrorCode::InvalidStateTransition => "The escrow is not in a state that allows this.",
            ErrorCode::AssetNotSingleton => "The asset account must hold exactly one unit.",
            ErrorCode::CustodianUnavailable => "No custodian address could be derived.",
        }
    }
}

} // verus!
