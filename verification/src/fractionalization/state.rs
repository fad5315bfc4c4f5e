//! What the escrow stores: its settings, and the state of each fractionalized
//! asset.

use vstd::prelude::*;
use vstd::string::StringSliceAdditionalSpecFns;
use crate::fractionalization::constants::FRACTIONS_PREFIX;
use crate::fractionalization::errors::CustomError;
use crate::fractionalization::instructions::InitFractionalizationDataArgs;
use crate::pubkey::Pubkey;

verus! {

/// One whole in basis points.
pub const UNIT_BASIS_POINTS: u64 = 10_000;

/// The settings of the escrow.
#[derive(Clone, Copy, Debug, PartialEq, Eq)]
pub struct Config {
    /// Who may change the settings.
    pub authority: Pubkey,
    /// The token in which buybacks are paid.
    pub usdc_address: Pubkey,
}

/// A change of the settings: each field that is given replaces the setting.
#[derive(Clone, Copy, Debug, PartialEq, Eq)]
pub struct UpdateConfigArgs {
    pub authority: Option<Pubkey>,
    pub usdc_address: Option<Pubkey>,
}

/// The setting after a change: the new value where one is given, else the
/// current one.
pub open spec fn changed_setting(current: Pubkey, change: Option<Pubkey>) -> Pubkey {
    match change {
        Some(value) => value,
        None => current,
    }
}

impl Config {
    /// Bytes that the stored settings take: a tag of 8 bytes and two addresses.
    pub const MAX_SIZE: usize = 8 + 32 + 32;

    /// Sets both settings.
    pub fn init(&mut self, authority: Pubkey, usdc_address: Pubkey)
        ensures
            *final(self) == (Config { authority, usdc_address }),
    {
        *self = Config { authority, usdc_address }
    }

    /// Accepts `key` where it is the authority's.
    pub fn validate_authority(&self, key: Pubkey) -> (valid: Result<(), CustomError>)
        ensures
            key@ == self.authority@ ==> valid == Ok::<(), CustomError>(()),
            key@ != self.authority@ ==> valid == Err::<(), CustomError>(
                CustomError::InvalidAuthority,
            ),
    {
        if key.equals(&self.authority) {
            Ok(())
        } else {
            Err(CustomError::InvalidAuthority)
        }
    }

    /// Replaces each setting for which `args` gives a value.
    pub fn update_config(&mut self, args: UpdateConfigArgs)
        ensures
            final(self).authority == changed_setting(old(self).authority, args.authority),
            final(self).usdc_address == changed_setting(
                old(self).usdc_address,
                args.usdc_address,
            ),
    {
        let authority = match args.authority {
            Some(authority) => authority,
            None => self.authority,
        };
        let usdc_address = match args.usdc_address {
            Some(usdc_address) => usdc_address,
            None => self.usdc_address,
        };
        *self = Config { authority, usdc_address }
    }
}

/// Whether the fractions of an asset are out or the asset was reclaimed.
#[derive(Clone, Copy, Debug, PartialEq, Eq, Structural)]
pub enum FractionStatus {
    Active,
    Reclaimed,
}

/// The state of one fractionalized asset.
#[derive(Clone, Copy, Debug, PartialEq, Eq)]
pub struct FractionalizationData {
    /// Seed byte of the account that holds this state.
    pub bump: [u8; 1],
    /// The asset.
    pub asset_id: Pubkey,
    /// The tree in which the asset is stored.
    pub merkle_tree: Pubkey,
    /// Number of fractions that were minted.
    pub fractions_supply: u64,
    /// When the state was created, in seconds.
    pub fractionalization_time: i64,
    /// The mint of the fractions.
    pub fractions_token_id: Pubkey,
    pub status: FractionStatus,
}

impl FractionalizationData {
    /// Bytes that the stored state takes.
    pub const MAX_SIZE: usize = 8 + 1 + 32 + 32 + 8 + 8 + 32 + 2;

    /// The seeds from which the address of the state's account is derived: the
    /// prefix, then the asset's address.
    pub fn get_signer_seeds<'a>(&'a self) -> (seeds: [&'a [u8]; 2])
        ensures
            seeds@.len() == 2,
            seeds@[0]@ == FRACTIONS_PREFIX.spec_bytes(),
            seeds@[1]@ == self.asset_id@,
    {
        [FRACTIONS_PREFIX.as_bytes(), self.asset_id.as_ref()]
    }

    /// Starts the state of an asset at time `unix_timestamp`: no fractions yet,
    /// no mint yet, active.
    pub fn init_fraction(
        &mut self,
        args: &InitFractionalizationDataArgs,
        asset_id: Pubkey,
        bump: u8,
        unix_timestamp: i64,
    )
        ensures
            final(self).bump@ == seq![bump],
            final(self).asset_id == asset_id,
            final(self).merkle_tree == args.merkle_tree,
            final(self).fractions_supply == 0,
            final(self).fractionalization_time == unix_timestamp,
            final(self).fractions_token_id@ == Seq::new(32, |i: int| 0u8),
            final(self).status == FractionStatus::Active,
    {
        let fractions_token_id = Pubkey::default();
        assert(fractions_token_id@ =~= Seq::new(32, |i: int| 0u8));
        *self = FractionalizationData {
            bump: [bump],
            asset_id,
            merkle_tree: args.merkle_tree,
            fractions_supply: 0,
            fractionalization_time: unix_timestamp,
            fractions_token_id,
            status: FractionStatus::Active,
        }
    }
}

} // verus!
