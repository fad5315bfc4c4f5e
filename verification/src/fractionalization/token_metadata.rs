//! The arguments of the program that keeps the metadata of tokens, as plain
//! data.

use vstd::prelude::*;
use crate::pubkey::Pubkey;

verus! {

/// What kind of token a mint is.
#[derive(Clone, Copy, Debug, PartialEq, Eq, Structural)]
pub enum MetadataTokenStandard {
    NonFungible,
    FungibleAsset,
    Fungible,
    NonFungibleEdition,
    ProgrammableNonFungible,
    ProgrammableNonFungibleEdition,
}

/// What a collection records of itself.
#[derive(Clone, Copy, Debug, PartialEq, Eq)]
pub enum MetadataCollectionDetails {
    V1 { size: u64 },
    V2 { padding: [u8; 8] },
}

/// How many prints of a token may be made.
#[derive(Clone, Copy, Debug, PartialEq, Eq, Structural)]
pub enum MetadataPrintSupply {
    Zero,
    Limited(u64),
    Unlimited,
}

/// How a token is used up.
#[derive(Clone, Copy, Debug, PartialEq, Eq, Structural)]
pub enum MetadataUseMethod {
    Burn,
    Multiple,
    Single,
}

/// How often a token may be used.
#[derive(Clone, Copy, Debug, PartialEq, Eq, Structural)]
pub struct MetadataUses {
    pub use_method: MetadataUseMethod,
    pub remaining: u64,
    pub total: u64,
}

/// The collection that a token belongs to.
#[derive(Clone, Copy, Debug, PartialEq, Eq)]
pub struct MetadataCollection {
    pub verified: bool,
    pub key: Pubkey,
}

/// One creator of a token and the share of the royalties, in percent.
#[derive(Clone, Copy, Debug, PartialEq, Eq)]
pub struct MetadataCreator {
    pub address: Pubkey,
    pub verified: bool,
    pub share: u8,
}

/// What creating the metadata of a mint is given.
#[derive(Clone, Debug, PartialEq, Eq)]
pub struct CreateV1InstructionArgs {
    pub name: String,
    pub symbol: String,
    pub uri: String,
    pub seller_fee_basis_points: u16,
    pub creators: Option<Vec<MetadataCreator>>,
    pub primary_sale_happened: bool,
    pub is_mutable: bool,
    pub token_standard: MetadataTokenStandard,
    pub collection: Option<MetadataCollection>,
    pub uses: Option<MetadataUses>,
    pub collection_details: Option<MetadataCollectionDetails>,
    pub rule_set: Option<Pubkey>,
    pub decimals: Option<u8>,
    pub print_supply: Option<MetadataPrintSupply>,
}

/// The metadata of a token.
#[derive(Clone, Debug, PartialEq, Eq)]
pub struct DataV2 {
    pub name: String,
    pub symbol: String,
    pub uri: String,
    pub seller_fee_basis_points: u16,
    pub creators: Option<Vec<MetadataCreator>>,
    pub collection: Option<MetadataCollection>,
    pub uses: Option<MetadataUses>,
}

} // verus!
