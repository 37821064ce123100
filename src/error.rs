use vstd::prelude::*;

verus! {

/// The ways an operation of the exchange can fail. A failed operation leaves
/// every record it was given unchanged and asks for no transfer.
#[derive(Clone, Copy, Debug, PartialEq, Eq, Structural)]
pub enum ErrorCode {
    /// The quoted output is below the caller's floor.
    SlippageExceeded,
    /// The order's expiration lies before the current time.
    OrderExpired,
    /// The offered price is below the order's target price.
    PriceNotMet,
    /// A flash borrow was not repaid in full.
    FlashRepaymentFailed,
    /// An intermediate value does not fit in 64 bits.
    ArithmeticOverflow,
    /// A reserve would go below zero, or the pool is empty on the input side.
    InsufficientReserve,
    /// The transfer service reported a failure.
    TransferFailed,
    /// Trading is paused.
    ExchangePaused,
    /// An amount that must be positive is zero.
    InvalidAmount,
    /// The fee rate exceeds one thousand thousandths.
    InvalidFeeRate,
}

impl ErrorCode {
    /// A short human-readable description of the error.
    pub fn message(&self) -> (r: &'static str) {
        match self {
            ErrorCode::SlippageExceeded => "Slippage exceeded",
            ErrorCode::OrderExpired => "Order expired",
            ErrorCode::PriceNotMet => "Price conditions not met",
            ErrorCode::FlashRepaymentFailed => "Flash swap failed, tokens not returned",
            ErrorCode::ArithmeticOverflow => "Arithmetic overflow",
            ErrorCode::InsufficientReserve => "Insufficient reserve",
            ErrorCode::TransferFailed => "Token transfer failed",
            ErrorCode::ExchangePaused => "Exchange is paused",
            ErrorCode::InvalidAmount => "Amount must be positive",
            ErrorCode::InvalidFeeRate => "Fee rate above one thousand thousandths",
        }
    }
}

} // verus!
