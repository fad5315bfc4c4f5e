//! Reasons for which an operation of the price engine fails.

use vstd::prelude::*;

verus! {

/// Why a call failed. A failed call leaves every value it was given unchanged.
#[derive(Clone, Copy, Debug, PartialEq, Eq, Structural)]
pub enum ErrorCode {
    /// No bucket carries both a price and a volume, so there is nothing to average.
    NoTwapAvailable,
    /// The amount to reclaim is above the policy's maximum.
    ExceedsMaxBuybackAmount,
    /// The bytes handed over by the swap source hold no price and volume.
    InvalidRaydiumData,
    /// The bytes handed over by the transfer hook hold no price and volume.
    TransferHookDataParseFailed,
    /// A sum or product left the range of the integer type that holds it.
    ArithmeticOverflow,
}

impl ErrorCode {
    /// The text that goes with the error.
    pub open spec fn text(self) -> Seq<char> {
        match self {
            ErrorCode::NoTwapAvailable => "No TWAP available yet"@,
            ErrorCode::ExceedsMaxBuybackAmount => "Reclaim amount exceeds maximum buyback amount"@,
            ErrorCode::InvalidRaydiumData => "Invalid Raydium transaction data"@,
            ErrorCode::TransferHookDataParseFailed => "Transfer hook data parsing failed"@,
            ErrorCode::ArithmeticOverflow => "Arithmetic overflow"@,
        }
    }

    /// What to tell the caller.
    pub fn message(&self) -> (text: &'static str)
        ensures
            text@ == self.text(),
    {
        match self {
            ErrorCode::NoTwapAvailable => "No TWAP available yet",
            ErrorCode::ExceedsMaxBuybackAmount => "Reclaim amount exceeds maximum buyback amount",
            ErrorCode::InvalidRaydiumData => "Invalid Raydium transaction data",
            ErrorCode::TransferHookDataParseFailed => "Transfer hook data parsing failed",
            ErrorCode::ArithmeticOverflow => "Arithmetic overflow",
        }
    }
}

} // verus!
