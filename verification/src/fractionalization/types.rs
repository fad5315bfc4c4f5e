//! The arguments of the escrow's operations as they arrive, and what they
//! become for the programs that the escrow calls.

use vstd::prelude::*;
use crate::fractionalization::bubblegum::{
    MetadataArgs,
    MplCollection,
    MplCreator,
    MplTokenProgramVersion,
    MplTokenStandard,
    TransferInstructionArgs,
    UpdateArgs,
    UpdateMetadataInstructionArgs,
};
use crate::fractionalization::errors::CustomError;
use crate::fractionalization::token_metadata::{
    CreateV1InstructionArgs,
    MetadataCollection,
    MetadataCreator,
    MetadataTokenStandard,
};
use crate::pubkey::Pubkey;

verus! {

/// Where a compressed asset sits in its tree, and the hashes of its leaf.
#[derive(Clone, Copy, Debug, PartialEq, Eq)]
pub struct AnchorTransferInstructionArgs {
    pub root: [u8; 32],
    pub data_hash: [u8; 32],
    pub creator_hash: [u8; 32],
    pub nonce: u64,
    pub index: u32,
}

impl AnchorTransferInstructionArgs {
    /// The same arguments for the transfer. This never fails.
    pub fn into_transfer_instruction_args(&self) -> (args: Result<
        TransferInstructionArgs,
        CustomError,
    >)
        ensures
            args == Ok::<TransferInstructionArgs, CustomError>(
                TransferInstructionArgs {
                    root: self.root,
                    data_hash: self.data_hash,
                    creator_hash: self.creator_hash,
                    nonce: self.nonce,
                    index: self.index,
                },
            ),
    {
        Ok(
            TransferInstructionArgs {
                root: self.root,
                data_hash: self.data_hash,
                creator_hash: self.creator_hash,
                nonce: self.nonce,
                index: self.index,
            },
        )
    }
}

/// One creator of an asset and the share of the royalties, in percent.
#[derive(Clone, Copy, Debug, PartialEq, Eq)]
pub struct Creator {
    pub address: Pubkey,
    pub verified: bool,
    /// The percentage share, not basis points.
    pub share: u8,
}

impl Creator {
    /// The creator as the program for compressed assets knows it.
    pub open spec fn mpl(self) -> MplCreator {
        MplCreator { address: self.address, verified: self.verified, share: self.share }
    }

    /// The creator for the program that manages compressed assets.
    pub fn to_mpl_creator(&self) -> (creator: MplCreator)
        ensures
            creator == self.mpl(),
    {
        MplCreator { address: self.address, verified: self.verified, share: self.share }
    }

    /// The creator for the program that keeps the metadata of tokens.
    pub fn to_metadata_creator(&self) -> (creator: MetadataCreator)
        ensures
            creator == (MetadataCreator {
                address: self.address,
                share: self.share,
                verified: self.verified,
            }),
    {
        MetadataCreator { address: self.address, share: self.share, verified: self.verified }
    }
}

/// The collection that an asset belongs to.
#[derive(Clone, Copy, Debug, PartialEq, Eq)]
pub struct AnchorCollection {
    pub verified: bool,
    pub key: Pubkey,
}

impl AnchorCollection {
    /// The collection as the program for compressed assets knows it.
    pub open spec fn mpl(self) -> MplCollection {
        MplCollection { verified: self.verified, key: self.key }
    }

    /// The collection for the program that keeps the metadata of tokens.
    pub fn to_metadata_collection(self) -> (collection: MetadataCollection)
        ensures
            collection == (MetadataCollection { key: self.key, verified: self.verified }),
    {
        MetadataCollection { key: self.key, verified: self.verified }
    }

    /// The collection for the program that manages compressed assets.
    pub fn to_mpl_collection(self) -> (collection: MplCollection)
        ensures
            collection == self.mpl(),
    {
        MplCollection { verified: self.verified, key: self.key }
    }
}

/// One creator as an update of the metadata names it.
#[derive(Clone, Copy, Debug, PartialEq, Eq)]
pub struct AnchorCreator {
    pub address: Pubkey,
    pub verified: bool,
    pub share: u8,
}

impl AnchorCreator {
    /// The creator as the program for compressed assets knows it.
    pub open spec fn mpl(self) -> MplCreator {
        MplCreator { address: self.address, verified: self.verified, share: self.share }
    }

    /// The creator for the program that manages compressed assets.
    pub fn to_mpl_creator(self) -> (creator: MplCreator)
        ensures
            creator == self.mpl(),
    {
        MplCreator { address: self.address, verified: self.verified, share: self.share }
    }
}

/// Where a compressed asset sits in its tree, without the hashes of its leaf.
#[derive(Clone, Copy, Debug, PartialEq, Eq)]
pub struct PartialAnchorTransferInstructionArgs {
    pub root: [u8; 32],
    pub nonce: u64,
    pub index: u32,
}

/// The metadata of an asset as the escrow is given it.
#[derive(Clone, Debug, PartialEq, Eq)]
pub struct AnchorMetadataArgs {
    /// The name of the asset.
    pub name: String,
    /// The symbol for the asset.
    pub symbol: String,
    /// Where the description of the asset is found.
    pub uri: String,
    /// Royalty that goes to the creators in secondary sales, in basis points.
    pub seller_fee_basis_points: u16,
    pub primary_sale_happened: bool,
    pub is_mutable: bool,
    pub collection: Option<AnchorCollection>,
    pub creators: Vec<Creator>,
}

/// The collection as the program for compressed assets knows it, where there
/// is one.
pub open spec fn mpl_collection(collection: Option<AnchorCollection>) -> Option<MplCollection> {
    match collection {
        Some(c) => Some(c.mpl()),
        None => None,
    }
}

impl AnchorMetadataArgs {
    /// The metadata for the program that manages compressed assets: a token of
    /// the first token program that is not fungible, without an edition and
    /// without uses.
    pub fn to_mpl_metadata_args(self) -> (args: MetadataArgs)
        ensures
            args.name == self.name,
            args.symbol == self.symbol,
            args.uri == self.uri,
            args.seller_fee_basis_points == self.seller_fee_basis_points,
            args.primary_sale_happened == self.primary_sale_happened,
            args.is_mutable == self.is_mutable,
            args.edition_nonce == None::<u8>,
            args.token_standard == Some(MplTokenStandard::NonFungible),
            args.uses is None,
            args.token_program_version == MplTokenProgramVersion::Original,
            args.collection == mpl_collection(self.collection),
            args.creators@ == self.creators@.map_values(|c: Creator| c.mpl()),
    {
        let creators = mpl_creators(&self.creators);
        let collection = match self.collection {
            Some(collection) => Some(collection.to_mpl_collection()),
            None => None,
        };
        MetadataArgs {
            name: self.name,
            symbol: self.symbol,
            uri: self.uri,
            seller_fee_basis_points: self.seller_fee_basis_points,
            primary_sale_happened: self.primary_sale_happened,
            is_mutable: self.is_mutable,
            edition_nonce: None,
            token_standard: Some(MplTokenStandard::NonFungible),
            uses: None,
            token_program_version: MplTokenProgramVersion::Original,
            collection,
            creators,
        }
    }

    /// The arguments for creating the metadata of the mint of the fractions: a
    /// fungible asset of six decimals, without creators, collection or uses.
    pub fn to_metadata_create_cpi_args(self) -> (args: CreateV1InstructionArgs)
        ensures
            args.name == self.name,
            args.symbol == self.symbol,
            args.uri == self.uri,
            args.seller_fee_basis_points == self.seller_fee_basis_points,
            args.creators is None,
            args.primary_sale_happened == self.primary_sale_happened,
            args.is_mutable == self.is_mutable,
            args.token_standard == MetadataTokenStandard::FungibleAsset,
            args.collection is None,
            args.uses is None,
            args.collection_details is None,
            args.rule_set is None,
            args.decimals == Some(6u8),
            args.print_supply is None,
    {
        CreateV1InstructionArgs {
            name: self.name,
            symbol: self.symbol,
            uri: self.uri,
            seller_fee_basis_points: self.seller_fee_basis_points,
            creators: None,
            primary_sale_happened: self.primary_sale_happened,
            is_mutable: self.is_mutable,
            token_standard: MetadataTokenStandard::FungibleAsset,
            collection: None,
            uses: None,
            collection_details: None,
            rule_set: None,
            decimals: Some(6),
            print_supply: None,
        }
    }
}

/// What is to change in the metadata of an asset, as the escrow is given it.
#[derive(Clone, Debug, PartialEq, Eq)]
pub struct AnchorUpdateArgs {
    pub name: Option<String>,
    pub symbol: Option<String>,
    pub uri: Option<String>,
    pub creators: Option<Vec<AnchorCreator>>,
    pub seller_fee_basis_points: Option<u16>,
    pub primary_sale_happened: Option<bool>,
    pub is_mutable: Option<bool>,
}

/// The creators of an update as the program for compressed assets knows
/// them, where the update names any.
pub open spec fn mpl_update_creators(creators: Option<Vec<AnchorCreator>>) -> Option<
    Seq<MplCreator>,
> {
    match creators {
        Some(list) => Some(list@.map_values(|c: AnchorCreator| c.mpl())),
        None => None,
    }
}

/// The creators that a change names, as a sequence.
pub open spec fn creators_of(creators: Option<Vec<MplCreator>>) -> Option<Seq<MplCreator>> {
    match creators {
        Some(list) => Some(list@),
        None => None,
    }
}

impl AnchorUpdateArgs {
    /// The change for the program that manages compressed assets.
    pub fn to_mpl_update_args(self) -> (args: UpdateArgs)
        ensures
            args.name == self.name,
            args.symbol == self.symbol,
            args.uri == self.uri,
            creators_of(args.creators) == mpl_update_creators(self.creators),
            args.seller_fee_basis_points == self.seller_fee_basis_points,
            args.primary_sale_happened == self.primary_sale_happened,
            args.is_mutable == self.is_mutable,
    {
        let creators = match self.creators {
            Some(creators) => {
                let mpl_creators = mpl_update_creator_list(&creators);
                Some(mpl_creators)
            },
            None => None,
        };
        UpdateArgs {
            name: self.name,
            symbol: self.symbol,
            uri: self.uri,
            creators,
            seller_fee_basis_points: self.seller_fee_basis_points,
            primary_sale_happened: self.primary_sale_happened,
            is_mutable: self.is_mutable,
        }
    }
}

/// What an update of the metadata of an asset is given by the escrow's caller.
#[derive(Clone, Debug, PartialEq, Eq)]
pub struct AnchorUpdateMetadataInstructionArgs {
    pub root: [u8; 32],
    pub nonce: u64,
    pub index: u32,
    pub current_metadata: AnchorMetadataArgs,
    pub update_args: AnchorUpdateArgs,
}

impl AnchorUpdateMetadataInstructionArgs {
    /// The update for the program that manages compressed assets.
    pub fn to_mpl_update_metadata_instruction_args(self) -> (args: UpdateMetadataInstructionArgs)
        ensures
            args.root == self.root,
            args.nonce == self.nonce,
            args.index == self.index,
            args.current_metadata.name == self.current_metadata.name,
            args.current_metadata.symbol == self.current_metadata.symbol,
            args.current_metadata.uri == self.current_metadata.uri,
            args.current_metadata.seller_fee_basis_points
                == self.current_metadata.seller_fee_basis_points,
            args.current_metadata.primary_sale_happened
                == self.current_metadata.primary_sale_happened,
            args.current_metadata.is_mutable == self.current_metadata.is_mutable,
            args.current_metadata.edition_nonce == None::<u8>,
            args.current_metadata.token_standard == Some(MplTokenStandard::NonFungible),
            args.current_metadata.uses is None,
            args.current_metadata.token_program_version == MplTokenProgramVersion::Original,
            args.current_metadata.collection == mpl_collection(self.current_metadata.collection),
            args.current_metadata.creators@ == self.current_metadata.creators@.map_values(
                |c: Creator| c.mpl(),
            ),
            args.update_args.name == self.update_args.name,
            args.update_args.symbol == self.update_args.symbol,
            args.update_args.uri == self.update_args.uri,
            creators_of(args.update_args.creators) == mpl_update_creators(
                self.update_args.creators,
            ),
            args.update_args.seller_fee_basis_points == self.update_args.seller_fee_basis_points,
            args.update_args.primary_sale_happened == self.update_args.primary_sale_happened,
            args.update_args.is_mutable == self.update_args.is_mutable,
    {
        UpdateMetadataInstructionArgs {
            root: self.root,
            nonce: self.nonce,
            index: self.index,
            current_metadata: self.current_metadata.to_mpl_metadata_args(),
            update_args: self.update_args.to_mpl_update_args(),
        }
    }
}

/// What is known of a leaf of a tree of compressed assets.
#[derive(Clone, Copy, Debug, PartialEq, Eq)]
pub struct LeafData {
    pub index: u32,
    pub nonce: u64,
    pub root: [u8; 32],
    pub hash: [u8; 32],
    pub creator_hash: [u8; 32],
}

/// A leaf of a tree of compressed assets.
#[derive(Clone, Copy, Debug, PartialEq, Eq)]
pub enum LeafSchemaMpl {
    V1 {
        id: Pubkey,
        owner: Pubkey,
        delegate: Pubkey,
        nonce: u64,
        data_hash: [u8; 32],
        creator_hash: [u8; 32],
    },
}

/// The part of the metadata of an asset that names it.
#[derive(Clone, Debug, PartialEq, Eq)]
pub struct PartialAnchorMetadataArgs {
    /// The name of the asset.
    pub name: String,
    /// The symbol for the asset.
    pub symbol: String,
    /// Where the description of the asset is found.
    pub uri: String,
}

/// Each creator of the list for the program that manages compressed assets.
fn mpl_creators(creators: &Vec<Creator>) -> (converted: Vec<MplCreator>)
    ensures
        converted@ == creators@.map_values(|c: Creator| c.mpl()),
{
    let mut converted: Vec<MplCreator> = Vec::new();
    let mut i: usize = 0;
    while i < creators.len()
        invariant
            i <= creators.len(),
            converted@ == creators@.take(i as int).map_values(|c: Creator| c.mpl()),
        decreases creators.len() - i,
    {
        converted.push(creators[i].to_mpl_creator());
        assert(creators@.take(i + 1).map_values(|c: Creator| c.mpl()) =~= creators@.take(
            i as int,
        ).map_values(|c: Creator| c.mpl()).push(creators@[i as int].mpl()));
        i = i + 1;
    }
    assert(creators@.take(creators.len() as int) =~= creators@);
    converted
}

/// Each creator of an update for the program that manages compressed assets.
fn mpl_update_creator_list(creators: &Vec<AnchorCreator>) -> (converted: Vec<MplCreator>)
    ensures
        converted@ == creators@.map_values(|c: AnchorCreator| c.mpl()),
{
    let mut converted: Vec<MplCreator> = Vec::new();
    let mut i: usize = 0;
    while i < creators.len()
        invariant
            i <= creators.len(),
            converted@ == creators@.take(i as int).map_values(|c: AnchorCreator| c.mpl()),
        decreases creators.len() - i,
    {
        converted.push(creators[i].to_mpl_creator());
        assert(creators@.take(i + 1).map_values(|c: AnchorCreator| c.mpl()) =~= creators@.take(
            i as int,
        ).map_values(|c: AnchorCreator| c.mpl()).push(creators@[i as int].mpl()));
        i = i + 1;
    }
    assert(creators@.take(creators.len() as int) =~= creators@);
    converted
}

} // verus!
