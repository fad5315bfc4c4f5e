//! The calls that the escrow makes to other programs, as plain data: which
//! account plays which part, what is handed over, in which order the accounts
//! go along and with which seeds the escrow signs.

use vstd::prelude::*;
use crate::fractionalization::bubblegum::TransferInstructionArgs;
use crate::fractionalization::token_metadata::{
    CreateV1InstructionArgs,
    DataV2,
    MetadataCollectionDetails,
};
use crate::pubkey::Pubkey;

verus! {

/// An account as a call names it.
#[derive(Clone, Copy, Debug, PartialEq, Eq)]
pub struct AccountMeta {
    pub pubkey: Pubkey,
    pub is_signer: bool,
    pub is_writable: bool,
}

/// The seeds with which the account of an asset's state signs: a prefix, an
/// address and the seed byte.
#[derive(Clone, Copy, Debug, PartialEq, Eq)]
pub struct PdaSeeds {
    pub prefix: &'static str,
    pub address: Pubkey,
    pub bump: u8,
}

/// The accounts of a transfer of a compressed asset. The flag beside an
/// address says whether that account signs.
#[derive(Clone, Copy, Debug, PartialEq, Eq)]
pub struct Transfer {
    pub tree_config: Pubkey,
    pub leaf_owner: (Pubkey, bool),
    pub leaf_delegate: (Pubkey, bool),
    pub new_leaf_owner: Pubkey,
    pub merkle_tree: Pubkey,
    pub log_wrapper: Pubkey,
    pub compression_program: Pubkey,
    pub system_program: Pubkey,
}

/// A transfer of a compressed asset.
#[derive(Clone, Debug, PartialEq, Eq)]
pub struct TransferCall {
    pub accounts: Transfer,
    pub args: TransferInstructionArgs,
    /// The accounts of the proof, as the call names them.
    pub remaining_accounts: Vec<AccountMeta>,
    /// All accounts in the order in which they go along.
    pub account_infos: Vec<Pubkey>,
    /// The seeds with which the escrow signs, where it does.
    pub signer_seeds: Option<PdaSeeds>,
}

/// The accounts of minting tokens.
#[derive(Clone, Copy, Debug, PartialEq, Eq)]
pub struct MintTo {
    pub mint: Pubkey,
    pub to: Pubkey,
    pub authority: Pubkey,
}

/// Minting `amount` tokens, signed by the escrow.
#[derive(Clone, Copy, Debug, PartialEq, Eq)]
pub struct MintToCall {
    pub program: Pubkey,
    pub accounts: MintTo,
    pub amount: u64,
    pub signer_seeds: PdaSeeds,
}

/// The accounts of burning tokens.
#[derive(Clone, Copy, Debug, PartialEq, Eq)]
pub struct Burn {
    pub mint: Pubkey,
    pub from: Pubkey,
    pub authority: Pubkey,
}

/// Burning `amount` tokens.
#[derive(Clone, Copy, Debug, PartialEq, Eq)]
pub struct BurnCall {
    pub program: Pubkey,
    pub accounts: Burn,
    pub amount: u64,
}

/// The accounts of creating the metadata of a mint. The flag beside an address
/// says whether that account signs.
#[derive(Clone, Copy, Debug, PartialEq, Eq)]
pub struct CreateV1 {
    pub metadata: Pubkey,
    pub master_edition: Option<Pubkey>,
    pub mint: (Pubkey, bool),
    pub authority: Pubkey,
    pub payer: Pubkey,
    pub update_authority: (Pubkey, bool),
    pub system_program: Pubkey,
    pub sysvar_instructions: Pubkey,
    pub spl_token_program: Option<Pubkey>,
}

/// Creating the metadata of a mint, signed by the escrow.
#[derive(Clone, Debug, PartialEq, Eq)]
pub struct CreateV1Call {
    pub accounts: CreateV1,
    pub args: CreateV1InstructionArgs,
    /// All accounts in the order in which they go along.
    pub account_infos: Vec<Pubkey>,
    pub signer_seeds: PdaSeeds,
}

/// The accounts of creating the metadata account of a mint.
#[derive(Clone, Copy, Debug, PartialEq, Eq)]
pub struct CreateMetadataAccountsV3 {
    pub payer: Pubkey,
    pub update_authority: Pubkey,
    pub mint: Pubkey,
    pub metadata: Pubkey,
    pub mint_authority: Pubkey,
    pub system_program: Pubkey,
    pub rent: Pubkey,
}

/// Creating the metadata account of a mint, signed by the escrow.
#[derive(Clone, Debug, PartialEq, Eq)]
pub struct CreateMetadataCall {
    pub program: Pubkey,
    pub accounts: CreateMetadataAccountsV3,
    pub data: DataV2,
    pub is_mutable: bool,
    pub update_authority_is_signer: bool,
    pub collection_details: Option<MetadataCollectionDetails>,
    pub signer_seeds: PdaSeeds,
}

/// An account that a call only reads and that does not sign.
pub open spec fn readonly(pubkey: Pubkey) -> AccountMeta {
    AccountMeta { pubkey, is_signer: false, is_writable: false }
}

impl AccountMeta {
    /// An account that a call only reads.
    pub fn new_readonly(pubkey: Pubkey, is_signer: bool) -> (meta: AccountMeta)
        ensures
            meta == (AccountMeta { pubkey, is_signer, is_writable: false }),
    {
        AccountMeta { pubkey, is_signer, is_writable: false }
    }
}

/// Names each account of a proof as one that the call only reads.
pub fn readonly_metas(proof_accounts: &Vec<Pubkey>) -> (metas: Vec<AccountMeta>)
    ensures
        metas@ == proof_accounts@.map_values(|key: Pubkey| readonly(key)),
{
    let mut metas: Vec<AccountMeta> = Vec::new();
    let mut i: usize = 0;
    while i < proof_accounts.len()
        invariant
            i <= proof_accounts.len(),
            metas@ == proof_accounts@.take(i as int).map_values(|key: Pubkey| readonly(key)),
        decreases proof_accounts.len() - i,
    {
        metas.push(AccountMeta::new_readonly(proof_accounts[i], false));
        assert(proof_accounts@.take(i + 1).map_values(|key: Pubkey| readonly(key))
            =~= proof_accounts@.take(i as int).map_values(|key: Pubkey| readonly(key)).push(
            readonly(proof_accounts@[i as int]),
        ));
        i = i + 1;
    }
    assert(proof_accounts@.take(proof_accounts.len() as int) =~= proof_accounts@);
    metas
}

/// Puts the accounts of a proof behind the accounts that a call names itself.
pub fn with_proof_accounts(named: Vec<Pubkey>, proof_accounts: &Vec<Pubkey>) -> (all: Vec<Pubkey>)
    ensures
        all@ == named@ + proof_accounts@,
{
    let ghost first = named@;
    let mut all = named;
    let mut i: usize = 0;
    while i < proof_accounts.len()
        invariant
            i <= proof_accounts.len(),
            all@ == first + proof_accounts@.take(i as int),
        decreases proof_accounts.len() - i,
    {
        all.push(proof_accounts[i]);
        assert(first + proof_accounts@.take(i + 1) =~= (first + proof_accounts@.take(
            i as int,
        )).push(proof_accounts@[i as int]));
        i = i + 1;
    }
    assert(proof_accounts@.take(proof_accounts.len() as int) =~= proof_accounts@);
    all
}

} // verus!
