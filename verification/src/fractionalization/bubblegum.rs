//! The arguments of the program that manages compressed assets, as plain data.

use vstd::prelude::*;
use crate::pubkey::Pubkey;

verus! {

/// What kind of token an asset is.
#[derive(Clone, Copy, Debug, PartialEq, Eq, Structural)]
pub enum MplTokenStandard {
    NonFungible,
    FungibleAsset,
    Fungible,
    NonFungibleEdition,
}

/// Which token program an asset belongs to.
#[derive(Clone, Copy, Debug, PartialEq, Eq, Structural)]
pub enum MplTokenProgramVersion {
    Original,
    Token2022,
}

/// How an asset is used up.
#[derive(Clone, Copy, Debug, PartialEq, Eq, Structural)]
pub enum MplUseMethod {
    Burn,
    Multiple,
    Single,
}

/// How often an asset may be used.
#[derive(Clone, Copy, Debug, PartialEq, Eq, Structural)]
pub struct MplUses {
    pub use_method: MplUseMethod,
    pub remaining: u64,
    pub total: u64,
}

/// The collection that an asset belongs to.
#[derive(Clone, Copy, Debug, PartialEq, Eq)]
pub struct MplCollection {
    pub verified: bool,
    pub key: Pubkey,
}

/// One creator of an asset and the share of the royalties, in percent.
#[derive(Clone, Copy, Debug, PartialEq, Eq)]
pub struct MplCreator {
    pub address: Pubkey,
    pub verified: bool,
    pub share: u8,
}

/// The metadata of a compressed asset.
#[derive(Clone, Debug, PartialEq, Eq)]
pub struct MetadataArgs {
    pub name: String,
    pub symbol: String,
    pub uri: String,
    pub seller_fee_basis_points: u16,
    pub primary_sale_happened: bool,
    pub is_mutable: bool,
    pub edition_nonce: Option<u8>,
    pub token_standard: Option<MplTokenStandard>,
    pub collection: Option<MplCollection>,
    pub uses: Option<MplUses>,
    pub token_program_version: MplTokenProgramVersion,
    pub creators: Vec<MplCreator>,
}

/// What is to change in the metadata of a compressed asset: each field that is
/// given.
#[derive(Clone, Debug, PartialEq, Eq)]
pub struct UpdateArgs {
    pub name: Option<String>,
    pub symbol: Option<String>,
    pub uri: Option<String>,
    pub creators: Option<Vec<MplCreator>>,
    pub seller_fee_basis_points: Option<u16>,
    pub primary_sale_happened: Option<bool>,
    pub is_mutable: Option<bool>,
}

/// What a transfer of a compressed asset is given.
#[derive(Clone, Copy, Debug, PartialEq, Eq)]
pub struct TransferInstructionArgs {
    pub root: [u8; 32],
    pub data_hash: [u8; 32],
    pub creator_hash: [u8; 32],
    pub nonce: u64,
    pub index: u32,
}

/// What an update of the metadata of a compressed asset is given.
#[derive(Clone, Debug, PartialEq, Eq)]
pub struct UpdateMetadataInstructionArgs {
    pub root: [u8; 32],
    pub nonce: u64,
    pub index: u32,
    pub current_metadata: MetadataArgs,
    pub update_args: UpdateArgs,
}

} // verus!
