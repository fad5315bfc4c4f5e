//! Reasons for which an operation of the escrow fails.

use vstd::prelude::*;

verus! {

/// Why a call failed.
#[derive(Clone, Copy, Debug, PartialEq, Eq, Structural)]
pub enum CustomError {
    InvalidAsset,
    InvalidAuthority,
    GenericError,
    NotEnoughFractions,
    InvalidSupply,
}

impl CustomError {
    /// The text that goes with the error.
    pub open spec fn text(self) -> Seq<char> {
        match self {
            CustomError::InvalidAsset => "Invalid asset id"@,
            CustomError::InvalidAuthority => "Invalid authority provided!"@,
            CustomError::GenericError => "GenericError!"@,
            CustomError::NotEnoughFractions => "Not enough fractions to reclaim asset"@,
            CustomError::InvalidSupply => "Invalid total supply"@,
        }
    }

    /// What to tell the caller.
    pub fn message(&self) -> (text: &'static str)
        ensures
            text@ == self.text(),
    {
        match self {
            CustomError::InvalidAsset => "Invalid asset id",
            CustomError::InvalidAuthority => "Invalid authority provided!",
            CustomError::GenericError => "GenericError!",
            CustomError::NotEnoughFractions => "Not enough fractions to reclaim asset",
            CustomError::InvalidSupply => "Invalid total supply",
        }
    }
}

} // verus!
