//! The hashes that stand for the metadata and the creators of a compressed
//! asset in its leaf.

use vstd::prelude::*;
use mpl_bubblegum::hash as outside_hash;
use mpl_bubblegum::types as outside;
use crate::fractionalization::bubblegum::{
    MetadataArgs,
    MplCollection,
    MplCreator,
    MplTokenProgramVersion,
    MplTokenStandard,
    MplUseMethod,
    MplUses,
    TransferInstructionArgs,
};
use crate::fractionalization::errors::CustomError;
use crate::fractionalization::types::PartialAnchorTransferInstructionArgs;

verus! {

/// The metadata of a compressed asset with its texts and its creators as
/// sequences.
pub struct MetadataArgsView {
    pub name: Seq<char>,
    pub symbol: Seq<char>,
    pub uri: Seq<char>,
    pub seller_fee_basis_points: u16,
    pub primary_sale_happened: bool,
    pub is_mutable: bool,
    pub edition_nonce: Option<u8>,
    pub token_standard: Option<MplTokenStandard>,
    pub collection: Option<MplCollection>,
    pub uses: Option<MplUses>,
    pub token_program_version: MplTokenProgramVersion,
    pub creators: Seq<MplCreator>,
}

impl View for MetadataArgs {
    type V = MetadataArgsView;

    open spec fn view(&self) -> MetadataArgsView {
        MetadataArgsView {
            name: self.name@,
            symbol: self.symbol@,
            uri: self.uri@,
            seller_fee_basis_points: self.seller_fee_basis_points,
            primary_sale_happened: self.primary_sale_happened,
            is_mutable: self.is_mutable,
            edition_nonce: self.edition_nonce,
            token_standard: self.token_standard,
            collection: self.collection,
            uses: self.uses,
            token_program_version: self.token_program_version,
            creators: self.creators@,
        }
    }
}

/// What `mpl_bubblegum::hash::hash_creators` returns for a list of creators:
/// 32 bytes.
pub uninterp spec fn creators_hash(creators: Seq<MplCreator>) -> Seq<u8>;

/// What `mpl_bubblegum::hash::hash_metadata` returns for the metadata of an
/// asset: 32 bytes, or nothing where the metadata cannot be written out.
pub uninterp spec fn metadata_hash(metadata: MetadataArgsView) -> Option<Seq<u8>>;

/// `std::io::Error`, the reason for which writing out the metadata failed.
#[verifier::external_type_specification]
#[verifier::external_body]
pub struct ExIoError(std::io::Error);

/// `mpl_bubblegum::types::TokenStandard`, the kind of a token as the hashing
/// takes it.
#[verifier::external_type_specification]
#[verifier::external_body]
pub struct ExTokenStandard(mpl_bubblegum::types::TokenStandard);

/// `mpl_bubblegum::types::TokenProgramVersion`, the version of the token
/// program as the hashing takes it.
#[verifier::external_type_specification]
#[verifier::external_body]
pub struct ExTokenProgramVersion(mpl_bubblegum::types::TokenProgramVersion);

/// `mpl_bubblegum::types::Uses`, the uses of an asset as the hashing takes
/// them.
#[verifier::external_type_specification]
#[verifier::external_body]
pub struct ExUses(mpl_bubblegum::types::Uses);

/// Builds the `mpl_bubblegum::types::TokenStandard` of the same name, variant
/// for variant. Nothing is claimed of the result; only `hash_metadata` uses
/// it.
#[verifier::external_body]
fn outside_token_standard(standard: MplTokenStandard) -> outside::TokenStandard {
    match standard {
        MplTokenStandard::NonFungible => outside::TokenStandard::NonFungible,
        MplTokenStandard::FungibleAsset => outside::TokenStandard::FungibleAsset,
        MplTokenStandard::Fungible => outside::TokenStandard::Fungible,
        MplTokenStandard::NonFungibleEdition => outside::TokenStandard::NonFungibleEdition,
    }
}

/// Builds the `mpl_bubblegum::types::TokenProgramVersion` of the same name,
/// variant for variant. Nothing is claimed of the result; only
/// `hash_metadata` uses it.
#[verifier::external_body]
fn outside_token_program_version(
    version: MplTokenProgramVersion,
) -> outside::TokenProgramVersion {
    match version {
        MplTokenProgramVersion::Original => outside::TokenProgramVersion::Original,
        MplTokenProgramVersion::Token2022 => outside::TokenProgramVersion::Token2022,
    }
}

/// Builds the `mpl_bubblegum::types::Uses` with the same fields. Nothing is
/// claimed of the result; only `hash_metadata` uses it.
#[verifier::external_body]
fn outside_uses(uses: MplUses) -> outside::Uses {
    outside::Uses {
        use_method: match uses.use_method {
            MplUseMethod::Burn => outside::UseMethod::Burn,
            MplUseMethod::Multiple => outside::UseMethod::Multiple,
            MplUseMethod::Single => outside::UseMethod::Single,
        },
        remaining: uses.remaining,
        total: uses.total,
    }
}

/// Calls `mpl_bubblegum::hash::hash_creators` on the same creators, which
/// hashes, for each creator in turn, the address, the verified flag as one
/// byte and the share. The claim: the result is a function of the list alone,
/// named `creators_hash`.
#[verifier::external_body]
fn hash_creators(creators: &Vec<MplCreator>) -> (hash: [u8; 32])
    ensures
        hash@ == creators_hash(creators@),
{
    let list: Vec<outside::Creator> = creators.iter().map(
        |c| outside::Creator {
            address: c.address.bytes.into(),
            verified: c.verified,
            share: c.share,
        },
    ).collect();
    outside_hash::hash_creators(&list)
}

/// Calls `mpl_bubblegum::hash::hash_metadata` on the same metadata, which
/// writes the metadata out field by field, hashes the bytes, and hashes the
/// result once more together with the seller fee. The claim: whether it fails
/// and what it returns are functions of the metadata alone, named
/// `metadata_hash`.
#[verifier::external_body]
fn hash_metadata(metadata: &MetadataArgs) -> (hash: Result<[u8; 32], std::io::Error>)
    ensures
        hash is Ok <==> metadata_hash(metadata@) is Some,
        hash is Ok ==> hash.unwrap()@ == metadata_hash(metadata@).unwrap(),
{
    let m = metadata.clone();
    outside_hash::hash_metadata(&outside::MetadataArgs {
        name: m.name, symbol: m.symbol, uri: m.uri,
        seller_fee_basis_points: m.seller_fee_basis_points,
        primary_sale_happened: m.primary_sale_happened, is_mutable: m.is_mutable,
        edition_nonce: m.edition_nonce,
        token_standard: m.token_standard.map(outside_token_standard),
        collection: m.collection.map(|c| outside::Collection { verified: c.verified, key: c.key.bytes.into() }),
        uses: m.uses.map(outside_uses),
        token_program_version: outside_token_program_version(m.token_program_version),
        creators: m.creators.iter().map(|c| outside::Creator { address: c.address.bytes.into(), verified: c.verified, share: c.share }).collect(),
    })
}

impl PartialAnchorTransferInstructionArgs {
    /// The arguments of a transfer with the two hashes filled in.
    pub fn with_hashes(self, data_hash: [u8; 32], creator_hash: [u8; 32]) -> (args:
        TransferInstructionArgs)
        ensures
            args == (TransferInstructionArgs {
                root: self.root,
                data_hash,
                creator_hash,
                nonce: self.nonce,
                index: self.index,
            }),
    {
        TransferInstructionArgs {
            root: self.root,
            data_hash,
            creator_hash,
            nonce: self.nonce,
            index: self.index,
        }
    }

    /// The arguments of a transfer of the asset with this metadata: the hashes
    /// of its leaf are those of the metadata and of its creators. Fails where
    /// the metadata cannot be written out.
    pub fn into_transfer_instruction_args(self, metadata: &MetadataArgs) -> (args: Result<
        TransferInstructionArgs,
        CustomError,
    >)
        ensures
            metadata_hash(metadata@) is None ==> args == Err::<
                TransferInstructionArgs,
                CustomError,
            >(CustomError::GenericError),
            metadata_hash(metadata@) is Some ==> args is Ok && args.unwrap().root == self.root
                && args.unwrap().data_hash@ == metadata_hash(metadata@).unwrap()
                && args.unwrap().creator_hash@ == creators_hash(metadata.creators@)
                && args.unwrap().nonce == self.nonce && args.unwrap().index == self.index,
    {
        match hash_metadata(metadata) {
            Err(_) => Err(CustomError::GenericError),
            Ok(data_hash) => {
                let creator_hash = hash_creators(&metadata.creators);
                Ok(self.with_hashes(data_hash, creator_hash))
            },
        }
    }
}

} // verus!
