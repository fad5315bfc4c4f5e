//! Seeds and markers of the escrow's accounts.

use vstd::prelude::*;
use vstd::string::StringSliceAdditionalSpecFns;

verus! {

/// First seed of the account that holds the state of one fractionalized asset.
pub const FRACTIONS_PREFIX: &'static str = "fractions";

/// First seed of the account that holds what a buyback pays.
pub const BUYBACK_ESCROW_PREFIX: &'static str = "buyback_escrow";

/// Seed of the account that holds the escrow's settings.
pub const CONFIG_PREFIX: &'static str = "config";

/// First seed of the account that creates mints.
pub const MINT_CREATOR_PREFIX: &'static str = "mint_creator";

/// First seed of the account that verifies creators.
pub const VERIFICATION_CREATOR_PREFIX: &'static str = "verification_creator";

/// Marks the program that manages compressed assets.
#[derive(Clone, Copy, Debug)]
pub struct MplBubblegumProgramAccount;

/// Marks the program that stores compressed accounts.
#[derive(Clone, Copy, Debug)]
pub struct SplAccountCompressionProgramAccount;

/// Marks the program that logs without doing anything else.
#[derive(Clone, Copy, Debug)]
pub struct NoopProgramAccount;

/// The account that creates mints.
pub struct MintCreator;

impl MintCreator {
    /// The seeds with which the account signs: its prefix, then `bump`.
    pub fn get_signer_seeds<'a>(bump: &'a [u8]) -> (seeds: [&'a [u8]; 2])
        ensures
            seeds@.len() == 2,
            seeds@[0]@ == MINT_CREATOR_PREFIX.spec_bytes(),
            seeds@[1]@ == bump@,
    {
        [MINT_CREATOR_PREFIX.as_bytes(), bump]
    }
}

/// The account that verifies creators.
pub struct VerificationCreator;

impl VerificationCreator {
    /// The seeds with which the account signs: its prefix, then `bump`.
    pub fn get_signer_seeds<'a>(bump: &'a [u8]) -> (seeds: [&'a [u8]; 2])
        ensures
            seeds@.len() == 2,
            seeds@[0]@ == VERIFICATION_CREATOR_PREFIX.spec_bytes(),
            seeds@[1]@ == bump@,
    {
        [VERIFICATION_CREATOR_PREFIX.as_bytes(), bump]
    }
}

} // verus!
