//! Typed failures of the engine.
use vstd::prelude::*;

verus! {

/// Why an operation was refused. No operation changes any state when it
/// returns one of these.
#[derive(Clone, Copy, Debug, PartialEq, Eq, Structural)]
pub enum ErrorCode {
    /// No leverage tier admits the requested leverage and position size.
    TierExceeded,
    /// The leverage is zero.
    InvalidLeverage,
    /// The position size is zero.
    InvalidPositionSize,
    /// The price is zero.
    InvalidPrice,
    /// A result is larger than its integer type can hold.
    CalculationOverflow,
    /// A result would fall below zero.
    CalculationUnderflow,
    /// A margin decrease exceeds the margin locked for the position.
    CannotReduceMargin,
    /// The position has already been closed or liquidated.
    PositionAlreadyClosed,
    /// No position carries the given id.
    PositionNotFound,
    /// No account exists for the given owner.
    UserNotFound,
    /// The caller is not the owner of the position.
    Unauthorized,
    /// The id offered for a new position already names a position.
    PositionIdTaken,
}

impl ErrorCode {
    /// The message that accompanies the error.
    pub fn message(&self) -> (text: &'static str)
        ensures
            text@ == error_text(*self),
    {
        match self {
            ErrorCode::TierExceeded => "Leverage or position size exceeds limits",
            ErrorCode::InvalidLeverage => "Invalid leverage",
            ErrorCode::InvalidPositionSize => "Invalid position size",
            ErrorCode::InvalidPrice => "Invalid price",
            ErrorCode::CalculationOverflow => "Calculation overflow",
            ErrorCode::CalculationUnderflow => "Calculation underflow",
            ErrorCode::CannotReduceMargin => "Cannot reduce margin",
            ErrorCode::PositionAlreadyClosed => "Position already closed",
            ErrorCode::PositionNotFound => "Position not found",
            ErrorCode::UserNotFound => "User not found",
            ErrorCode::Unauthorized => "Unauthorized",
            ErrorCode::PositionIdTaken => "Position id already in use",
        }
    }
}

/// The text of each error.
pub open spec fn error_text(code: ErrorCode) -> Seq<char> {
    match code {
        ErrorCode::TierExceeded => "Leverage or position size exceeds limits"@,
        ErrorCode::InvalidLeverage => "Invalid leverage"@,
        ErrorCode::InvalidPositionSize => "Invalid position size"@,
        ErrorCode::InvalidPrice => "Invalid price"@,
        ErrorCode::CalculationOverflow => "Calculation overflow"@,
        ErrorCode::CalculationUnderflow => "Calculation underflow"@,
        ErrorCode::CannotReduceMargin => "Cannot reduce margin"@,
        ErrorCode::PositionAlreadyClosed => "Position already closed"@,
        ErrorCode::PositionNotFound => "Position not found"@,
        ErrorCode::UserNotFound => "User not found"@,
        ErrorCode::Unauthorized => "Unauthorized"@,
        ErrorCode::PositionIdTaken => "Position id already in use"@,
    }
}

} // verus!
