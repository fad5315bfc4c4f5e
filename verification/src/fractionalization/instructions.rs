//! What the escrow's operations are given, and what they decide before
//! anything is transferred, minted or burnt.

use vstd::prelude::*;
use vstd::string::StringExecFns;
use crate::fractionalization::bubblegum::TransferInstructionArgs;
use crate::fractionalization::constants::FRACTIONS_PREFIX;
use crate::fractionalization::cpi::{
    readonly,
    readonly_metas,
    with_proof_accounts,
    Burn,
    BurnCall,
    CreateMetadataAccountsV3,
    CreateMetadataCall,
    CreateV1,
    CreateV1Call,
    MintTo,
    MintToCall,
    PdaSeeds,
    Transfer,
    TransferCall,
};
use crate::fractionalization::errors::CustomError;
use crate::fractionalization::state::{
    changed_setting,
    Config,
    FractionStatus,
    FractionalizationData,
    UpdateConfigArgs,
};
use crate::fractionalization::token_metadata::{
    CreateV1InstructionArgs,
    DataV2,
    MetadataTokenStandard,
};
use crate::fractionalization::types::AnchorTransferInstructionArgs;
use crate::fractionalization::validation::{ValidatableContext, ValidateAccounts};
use crate::pubkey::Pubkey;

verus! {

/// Balance of fractions above which their holder may reclaim the asset:
/// 800_000 fractions of six decimals.
pub const RECLAIM_THRESHOLD: u64 = 800_000_000_000;

/// Decimals of a mint of fractions.
pub const FRACTION_DECIMALS: u8 = 6;

/// What creating the settings is given: nothing.
#[derive(Clone, Copy, Debug, PartialEq, Eq)]
pub struct InitializeConfigArgs {}

/// What starting the state of an asset is given.
#[derive(Clone, Debug, PartialEq, Eq)]
pub struct InitFractionalizationDataArgs {
    pub merkle_tree: Pubkey,
    pub fractionalization_time: i64,
    pub asset_symbol: String,
}

/// What creating the mint of the fractions is given.
#[derive(Clone, Debug, PartialEq, Eq)]
pub struct InitTokenParams {
    pub merkle_tree: Pubkey,
    pub asset_id: Pubkey,
    pub tree_root: Pubkey,
    pub name: String,
    pub symbol: String,
    pub uri: String,
}

/// What fractionalizing an asset is given.
#[derive(Clone, Copy, Debug, PartialEq, Eq)]
pub struct FractionalizeArgs {
    pub transfer_cnft_args: AnchorTransferInstructionArgs,
    pub fractions_supply: u64,
}

/// What a buyback is given.
#[derive(Clone, Copy, Debug, PartialEq, Eq)]
pub struct BuybackSwapArgs {
    pub transfer_cnft_args: AnchorTransferInstructionArgs,
    pub merkle_tree: Pubkey,
    pub fractions_supply: u64,
    pub fractionalization_time: i64,
}

/// What reclaiming an asset is given.
#[derive(Clone, Copy, Debug, PartialEq, Eq)]
pub struct ReclaimArgs {
    pub transfer_instruction_args: AnchorTransferInstructionArgs,
}

/// Creates the settings.
pub fn handle_initialize_config(
    config: &mut Config,
    authority: Pubkey,
    usdc_address: Pubkey,
    _args: InitializeConfigArgs,
)
    ensures
        *final(config) == (Config { authority, usdc_address }),
{
    config.init(authority, usdc_address);
}

/// Changes the settings.
pub fn handle_update_config(config: &mut Config, args: UpdateConfigArgs)
    ensures
        final(config).authority == changed_setting(old(config).authority, args.authority),
        final(config).usdc_address == changed_setting(
            old(config).usdc_address,
            args.usdc_address,
        ),
{
    config.update_config(args);
}

/// A buyback changes nothing yet and always succeeds.
pub fn handle_buyback_swap(_args: BuybackSwapArgs) -> (done: Result<(), CustomError>)
    ensures
        done == Ok::<(), CustomError>(()),
{
    Ok(())
}

/// The addresses of the accounts that fractionalizing an asset is given.
#[derive(Clone, Copy, Debug, PartialEq, Eq)]
pub struct FractionalizeAccounts {
    pub payer: Pubkey,
    pub asset_id: Pubkey,
    pub tree_config: Pubkey,
    pub merkle_tree: Pubkey,
    pub fractions: Pubkey,
    pub fractions_mint: Pubkey,
    pub payer_fractions_ata: Pubkey,
    pub log_wrapper: Pubkey,
    pub compression_program: Pubkey,
    pub bubblegum_program: Pubkey,
    pub token_program: Pubkey,
    pub associated_token_program: Pubkey,
    pub system_program: Pubkey,
}

/// What fractionalizing an asset does: the asset goes to the escrow, then the
/// fractions are minted.
#[derive(Clone, Debug, PartialEq, Eq)]
pub struct FractionalizePlan {
    pub transfer: TransferCall,
    pub mint_to: MintToCall,
}

/// The addresses of the accounts that reclaiming an asset is given, the state
/// of the asset, and the balance of fractions of the payer.
#[derive(Clone, Copy, Debug, PartialEq, Eq)]
pub struct ReclaimAccounts {
    pub payer: Pubkey,
    pub fractions: Pubkey,
    pub fractions_data: FractionalizationData,
    pub fractions_mint: Pubkey,
    pub payer_fractions_ata: Pubkey,
    pub payer_fractions_amount: u64,
    pub tree_config: Pubkey,
    pub merkle_tree: Pubkey,
    pub log_wrapper: Pubkey,
    pub compression_program: Pubkey,
    pub bubblegum_program: Pubkey,
    pub system_program: Pubkey,
    pub token_program: Pubkey,
}

/// What reclaiming an asset does: the fractions are burnt, then the asset
/// goes back.
#[derive(Clone, Debug, PartialEq, Eq)]
pub struct ReclaimPlan {
    pub burn: BurnCall,
    pub transfer: TransferCall,
}

/// The addresses of the accounts that starting the state of an asset is given.
#[derive(Clone, Copy, Debug, PartialEq, Eq)]
pub struct InitFractionalizationDataAccounts {
    pub payer: Pubkey,
    pub asset_id: Pubkey,
    pub fractions: Pubkey,
    pub fractions_mint: Pubkey,
    pub fractions_metadata: Pubkey,
    pub token_metadata_program: Pubkey,
    pub system_program: Pubkey,
    pub sysvar_instructions: Pubkey,
    pub token_program: Pubkey,
}

/// The addresses of the accounts that creating the mint of the fractions is
/// given.
#[derive(Clone, Copy, Debug, PartialEq, Eq)]
pub struct InitToken {
    pub payer: Pubkey,
    pub asset_id: Pubkey,
    pub fractions: Pubkey,
    pub metadata: Pubkey,
    pub fractions_mint: Pubkey,
    pub rent: Pubkey,
    pub system_program: Pubkey,
    pub token_program: Pubkey,
    pub token_metadata_program: Pubkey,
}

/// The seeds of the account that holds the state of `asset_id`.
pub open spec fn fractions_seeds(asset_id: Pubkey, bump: u8) -> PdaSeeds {
    PdaSeeds { prefix: FRACTIONS_PREFIX, address: asset_id, bump }
}

impl FractionalizeAccounts {
    /// The accounts of the transfer that takes the asset into the escrow: the
    /// payer owns the leaf and signs, the state's account is the new owner.
    pub open spec fn escrow_transfer(self) -> Transfer {
        Transfer {
            tree_config: self.tree_config,
            leaf_owner: (self.payer, true),
            leaf_delegate: (self.payer, true),
            new_leaf_owner: self.fractions,
            merkle_tree: self.merkle_tree,
            log_wrapper: self.log_wrapper,
            compression_program: self.compression_program,
            system_program: self.system_program,
        }
    }

    /// The accounts that go along with that transfer, before those of the
    /// proof.
    pub open spec fn escrow_transfer_accounts(self) -> Seq<Pubkey> {
        seq![
            self.tree_config,
            self.payer,
            self.payer,
            self.fractions,
            self.merkle_tree,
            self.log_wrapper,
            self.compression_program,
            self.system_program,
        ]
    }

    /// The transfer that takes the asset into the escrow. The payer signs,
    /// the escrow does not.
    pub fn transfer_cnft_to_fractions_escrow(
        &self,
        args: TransferInstructionArgs,
        proof_accounts: &Vec<Pubkey>,
    ) -> (call: TransferCall)
        ensures
            call.accounts == self.escrow_transfer(),
            call.args == args,
            call.remaining_accounts@ == proof_accounts@.map_values(|key: Pubkey| readonly(key)),
            call.account_infos@ == self.escrow_transfer_accounts() + proof_accounts@,
            call.signer_seeds is None,
    {
        let accounts = Transfer {
            tree_config: self.tree_config,
            leaf_owner: (self.payer, true),
            leaf_delegate: (self.payer, true),
            new_leaf_owner: self.fractions,
            merkle_tree: self.merkle_tree,
            log_wrapper: self.log_wrapper,
            compression_program: self.compression_program,
            system_program: self.system_program,
        };
        let mut named: Vec<Pubkey> = Vec::new();
        named.push(self.tree_config);
        named.push(self.payer);
        named.push(self.payer);
        named.push(self.fractions);
        named.push(self.merkle_tree);
        named.push(self.log_wrapper);
        named.push(self.compression_program);
        named.push(self.system_program);
        assert(named@ =~= self.escrow_transfer_accounts());
        TransferCall {
            accounts,
            args,
            remaining_accounts: readonly_metas(proof_accounts),
            account_infos: with_proof_accounts(named, proof_accounts),
            signer_seeds: None,
        }
    }
}

/// Fractionalizes an asset: transfers it into the escrow with the remaining
/// accounts as its proof, then mints `fractions_supply` fractions to the
/// payer, signed by the account of the asset's state.
pub fn handle_fractionalize(
    accounts: &FractionalizeAccounts,
    fractions_bump: u8,
    args: FractionalizeArgs,
    remaining_accounts: &Vec<Pubkey>,
) -> (plan: FractionalizePlan)
    ensures
        plan.transfer.accounts == accounts.escrow_transfer(),
        plan.transfer.args == (TransferInstructionArgs {
            root: args.transfer_cnft_args.root,
            data_hash: args.transfer_cnft_args.data_hash,
            creator_hash: args.transfer_cnft_args.creator_hash,
            nonce: args.transfer_cnft_args.nonce,
            index: args.transfer_cnft_args.index,
        }),
        plan.transfer.remaining_accounts@ == remaining_accounts@.map_values(
            |key: Pubkey| readonly(key),
        ),
        plan.transfer.account_infos@ == accounts.escrow_transfer_accounts() + remaining_accounts@,
        plan.transfer.signer_seeds is None,
        plan.mint_to == (MintToCall {
            program: accounts.token_program,
            accounts: MintTo {
                mint: accounts.fractions_mint,
                to: accounts.payer_fractions_ata,
                authority: accounts.fractions,
            },
            amount: args.fractions_supply,
            signer_seeds: fractions_seeds(accounts.asset_id, fractions_bump),
        }),
{
    let bubblegum_transfer_args = TransferInstructionArgs {
        root: args.transfer_cnft_args.root,
        data_hash: args.transfer_cnft_args.data_hash,
        creator_hash: args.transfer_cnft_args.creator_hash,
        nonce: args.transfer_cnft_args.nonce,
        index: args.transfer_cnft_args.index,
    };
    let transfer = accounts.transfer_cnft_to_fractions_escrow(
        bubblegum_transfer_args,
        remaining_accounts,
    );
    let mint_to = MintToCall {
        program: accounts.token_program,
        accounts: MintTo {
            mint: accounts.fractions_mint,
            to: accounts.payer_fractions_ata,
            authority: accounts.fractions,
        },
        amount: args.fractions_supply,
        signer_seeds: PdaSeeds {
            prefix: FRACTIONS_PREFIX,
            address: accounts.asset_id,
            bump: fractions_bump,
        },
    };
    FractionalizePlan { transfer, mint_to }
}

/// The address of each account of a proof.
pub open spec fn proof_keys(proof_accounts: Seq<(Pubkey, bool, bool)>) -> Seq<Pubkey> {
    proof_accounts.map_values(|account: (Pubkey, bool, bool)| account.0)
}

impl ReclaimAccounts {
    /// The accounts of the transfer that gives the asset back: the account of
    /// the asset's state owns the leaf and signs, the payer is the new owner.
    pub open spec fn reclaim_transfer(self) -> Transfer {
        Transfer {
            tree_config: self.tree_config,
            leaf_owner: (self.fractions, true),
            leaf_delegate: (self.fractions, true),
            new_leaf_owner: self.payer,
            merkle_tree: self.merkle_tree,
            log_wrapper: self.log_wrapper,
            compression_program: self.compression_program,
            system_program: self.system_program,
        }
    }

    /// The accounts that go along with that transfer, before those of the
    /// proof.
    pub open spec fn reclaim_transfer_accounts(self) -> Seq<Pubkey> {
        seq![
            self.tree_config,
            self.fractions,
            self.fractions,
            self.payer,
            self.merkle_tree,
            self.log_wrapper,
            self.compression_program,
            self.system_program,
        ]
    }

    /// The transfer that gives the asset back to the payer, signed by the
    /// account of the asset's state. Of each account of the proof only the
    /// address is used: the call reads it and it does not sign.
    pub fn transfer_cnft_to_reclaimer(
        &self,
        args: AnchorTransferInstructionArgs,
        proof_accounts: &Vec<(Pubkey, bool, bool)>,
    ) -> (call: TransferCall)
        ensures
            call.accounts == self.reclaim_transfer(),
            call.args == (TransferInstructionArgs {
                root: args.root,
                data_hash: args.data_hash,
                creator_hash: args.creator_hash,
                nonce: args.nonce,
                index: args.index,
            }),
            call.remaining_accounts@ == proof_keys(proof_accounts@).map_values(
                |key: Pubkey| readonly(key),
            ),
            call.account_infos@ == self.reclaim_transfer_accounts() + proof_keys(proof_accounts@),
            call.signer_seeds == Some(
                fractions_seeds(self.fractions_data.asset_id, self.fractions_data.bump@[0]),
            ),
    {
        let transfer_args = TransferInstructionArgs {
            root: args.root,
            data_hash: args.data_hash,
            creator_hash: args.creator_hash,
            nonce: args.nonce,
            index: args.index,
        };
        let keys = keys_of(proof_accounts);
        let accounts = Transfer {
            tree_config: self.tree_config,
            leaf_owner: (self.fractions, true),
            leaf_delegate: (self.fractions, true),
            new_leaf_owner: self.payer,
            merkle_tree: self.merkle_tree,
            log_wrapper: self.log_wrapper,
            compression_program: self.compression_program,
            system_program: self.system_program,
        };
        let mut named: Vec<Pubkey> = Vec::new();
        named.push(self.tree_config);
        named.push(self.fractions);
        named.push(self.fractions);
        named.push(self.payer);
        named.push(self.merkle_tree);
        named.push(self.log_wrapper);
        named.push(self.compression_program);
        named.push(self.system_program);
        assert(named@ =~= self.reclaim_transfer_accounts());
        let asset_id = self.fractions_data.asset_id;
        let bump = self.fractions_data.bump[0];
        TransferCall {
            accounts,
            args: transfer_args,
            remaining_accounts: readonly_metas(&keys),
            account_infos: with_proof_accounts(named, &keys),
            signer_seeds: Some(PdaSeeds { prefix: FRACTIONS_PREFIX, address: asset_id, bump }),
        }
    }

    /// Burning `amount` fractions of the payer, who signs.
    pub fn burn_fractions(&self, amount: u64) -> (call: BurnCall)
        ensures
            call == (BurnCall {
                program: self.token_program,
                accounts: Burn {
                    mint: self.fractions_mint,
                    from: self.payer_fractions_ata,
                    authority: self.payer,
                },
                amount,
            }),
    {
        BurnCall {
            program: self.token_program,
            accounts: Burn {
                mint: self.fractions_mint,
                from: self.payer_fractions_ata,
                authority: self.payer,
            },
            amount,
        }
    }

}

impl ValidateAccounts for ReclaimAccounts {
    type Args = ReclaimArgs;

    /// Accepts the accounts. Nothing is checked yet.
    fn validate(&self, _args: &ReclaimArgs) -> (valid: Result<(), CustomError>)
        ensures
            valid == Ok::<(), CustomError>(()),
    {
        Ok(())
    }
}

/// Reclaims an asset: the holder of more than 800_000 fractions burns all of
/// them and gets the asset back, with the remaining accounts as its proof;
/// anyone else is refused.
pub fn handle_reclaim(
    ctx: ValidatableContext<ReclaimAccounts>,
    args: ReclaimArgs,
    remaining_accounts: &Vec<Pubkey>,
) -> (plan: Result<ReclaimPlan, CustomError>)
    ensures
        reclaim_planned(ctx.0, args, remaining_accounts@, plan),
{
    let accounts = ctx.get_ctx();
    let user_balance = accounts.payer_fractions_amount;
    if user_balance <= RECLAIM_THRESHOLD {
        return Err(CustomError::NotEnoughFractions);
    }
    let burn = accounts.burn_fractions(user_balance);
    let proof_accounts = unflagged(remaining_accounts);
    let transfer = accounts.transfer_cnft_to_reclaimer(
        args.transfer_instruction_args,
        &proof_accounts,
    );
    Ok(ReclaimPlan { burn, transfer })
}

/// What a reclaim with these accounts comes to.
pub open spec fn reclaim_planned(
    accounts: ReclaimAccounts,
    args: ReclaimArgs,
    remaining_accounts: Seq<Pubkey>,
    plan: Result<ReclaimPlan, CustomError>,
) -> bool {
    &&& accounts.payer_fractions_amount <= 800_000_000_000 ==> plan == Err::<
        ReclaimPlan,
        CustomError,
    >(CustomError::NotEnoughFractions)
    &&& accounts.payer_fractions_amount > 800_000_000_000 ==> {
        &&& plan is Ok
        &&& plan.unwrap().burn == (BurnCall {
            program: accounts.token_program,
            accounts: Burn {
                mint: accounts.fractions_mint,
                from: accounts.payer_fractions_ata,
                authority: accounts.payer,
            },
            amount: accounts.payer_fractions_amount,
        })
        &&& plan.unwrap().transfer.accounts == accounts.reclaim_transfer()
        &&& plan.unwrap().transfer.args == (TransferInstructionArgs {
            root: args.transfer_instruction_args.root,
            data_hash: args.transfer_instruction_args.data_hash,
            creator_hash: args.transfer_instruction_args.creator_hash,
            nonce: args.transfer_instruction_args.nonce,
            index: args.transfer_instruction_args.index,
        })
        &&& plan.unwrap().transfer.remaining_accounts@ == remaining_accounts.map_values(
            |key: Pubkey| readonly(key),
        )
        &&& plan.unwrap().transfer.account_infos@ == accounts.reclaim_transfer_accounts()
            + remaining_accounts
        &&& plan.unwrap().transfer.signer_seeds == Some(
            fractions_seeds(accounts.fractions_data.asset_id, accounts.fractions_data.bump@[0]),
        )
    }
}

impl InitFractionalizationDataAccounts {
    /// The accounts of creating the metadata of the mint of the fractions: the
    /// account of the asset's state is the authority of the mint and signs as
    /// the one who may update the metadata; there is no master edition.
    pub open spec fn create_metadata(self) -> CreateV1 {
        CreateV1 {
            metadata: self.fractions_metadata,
            master_edition: None,
            mint: (self.fractions_mint, false),
            authority: self.fractions,
            payer: self.payer,
            update_authority: (self.fractions, true),
            system_program: self.system_program,
            sysvar_instructions: self.sysvar_instructions,
            spl_token_program: Some(self.token_program),
        }
    }

    /// The accounts that go along with creating the metadata.
    pub open spec fn create_metadata_accounts(self) -> Seq<Pubkey> {
        seq![
            self.token_metadata_program,
            self.fractions_metadata,
            self.fractions_mint,
            self.fractions,
            self.payer,
            self.fractions,
            self.sysvar_instructions,
            self.system_program,
            self.token_program,
        ]
    }
}

/// Starts the state of an asset at time `unix_timestamp` and creates the
/// metadata of the mint of its fractions: a fungible token of six decimals
/// that is named after the asset's symbol and can be changed later.
pub fn handle_init_fractionalization_data(
    accounts: &InitFractionalizationDataAccounts,
    fractions: &mut FractionalizationData,
    fractions_bump: u8,
    unix_timestamp: i64,
    args: InitFractionalizationDataArgs,
) -> (call: CreateV1Call)
    ensures
        final(fractions).bump@ == seq![fractions_bump],
        final(fractions).asset_id == accounts.asset_id,
        final(fractions).merkle_tree == args.merkle_tree,
        final(fractions).fractions_supply == 0,
        final(fractions).fractionalization_time == unix_timestamp,
        final(fractions).fractions_token_id@ == Seq::new(32, |i: int| 0u8),
        final(fractions).status == FractionStatus::Active,
        call.accounts == accounts.create_metadata(),
        call.args.name@ == "Fract "@ + args.asset_symbol@,
        call.args.symbol@ == "f"@ + args.asset_symbol@,
        call.args.uri@ == ""@,
        call.args.seller_fee_basis_points == 0,
        call.args.creators is None,
        call.args.primary_sale_happened == false,
        call.args.is_mutable == true,
        call.args.token_standard == MetadataTokenStandard::Fungible,
        call.args.collection is None,
        call.args.uses is None,
        call.args.collection_details is None,
        call.args.rule_set is None,
        call.args.decimals == Some(6u8),
        call.args.print_supply is None,
        call.account_infos@ == accounts.create_metadata_accounts(),
        call.signer_seeds == fractions_seeds(accounts.asset_id, fractions_bump),
{
    let asset_key = accounts.asset_id;
    fractions.init_fraction(&args, asset_key, fractions_bump, unix_timestamp);
    let create_args = CreateV1InstructionArgs {
        name: String::from_str("Fract ").concat(args.asset_symbol.as_str()),
        symbol: String::from_str("f").concat(args.asset_symbol.as_str()),
        uri: String::from_str(""),
        seller_fee_basis_points: 0,
        creators: None,
        primary_sale_happened: false,
        is_mutable: true,
        token_standard: MetadataTokenStandard::Fungible,
        collection: None,
        uses: None,
        collection_details: None,
        rule_set: None,
        decimals: Some(FRACTION_DECIMALS),
        print_supply: None,
    };
    let create = CreateV1 {
        metadata: accounts.fractions_metadata,
        master_edition: None,
        mint: (accounts.fractions_mint, false),
        authority: accounts.fractions,
        payer: accounts.payer,
        update_authority: (accounts.fractions, true),
        system_program: accounts.system_program,
        sysvar_instructions: accounts.sysvar_instructions,
        spl_token_program: Some(accounts.token_program),
    };
    let mut account_infos: Vec<Pubkey> = Vec::new();
    account_infos.push(accounts.token_metadata_program);
    account_infos.push(accounts.fractions_metadata);
    account_infos.push(accounts.fractions_mint);
    account_infos.push(accounts.fractions);
    account_infos.push(accounts.payer);
    account_infos.push(accounts.fractions);
    account_infos.push(accounts.sysvar_instructions);
    account_infos.push(accounts.system_program);
    account_infos.push(accounts.token_program);
    assert(account_infos@ =~= accounts.create_metadata_accounts());
    CreateV1Call {
        accounts: create,
        args: create_args,
        account_infos,
        signer_seeds: PdaSeeds {
            prefix: FRACTIONS_PREFIX,
            address: accounts.asset_id,
            bump: fractions_bump,
        },
    }
}

/// Creates the metadata account of the mint of the fractions with the name,
/// symbol and address that the caller gives: without royalties, creators,
/// collection or uses, open to later changes, and with the account of the
/// asset's state as the signing authority of both mint and metadata.
pub fn handle_init_mint_metadata(
    accounts: &InitToken,
    fractions_bump: u8,
    metadata: InitTokenParams,
) -> (call: CreateMetadataCall)
    ensures
        call.program == accounts.token_metadata_program,
        call.accounts == (CreateMetadataAccountsV3 {
            payer: accounts.payer,
            update_authority: accounts.fractions,
            mint: accounts.fractions_mint,
            metadata: accounts.metadata,
            mint_authority: accounts.fractions,
            system_program: accounts.system_program,
            rent: accounts.rent,
        }),
        call.data.name == metadata.name,
        call.data.symbol == metadata.symbol,
        call.data.uri == metadata.uri,
        call.data.seller_fee_basis_points == 0,
        call.data.creators is None,
        call.data.collection is None,
        call.data.uses is None,
        call.is_mutable == true,
        call.update_authority_is_signer == true,
        call.collection_details is None,
        call.signer_seeds == fractions_seeds(accounts.asset_id, fractions_bump),
{
    let token_data = DataV2 {
        name: metadata.name,
        symbol: metadata.symbol,
        uri: metadata.uri,
        seller_fee_basis_points: 0,
        creators: None,
        collection: None,
        uses: None,
    };
    CreateMetadataCall {
        program: accounts.token_metadata_program,
        accounts: CreateMetadataAccountsV3 {
            payer: accounts.payer,
            update_authority: accounts.fractions,
            mint: accounts.fractions_mint,
            metadata: accounts.metadata,
            mint_authority: accounts.fractions,
            system_program: accounts.system_program,
            rent: accounts.rent,
        },
        data: token_data,
        is_mutable: true,
        update_authority_is_signer: true,
        collection_details: None,
        signer_seeds: PdaSeeds {
            prefix: FRACTIONS_PREFIX,
            address: accounts.asset_id,
            bump: fractions_bump,
        },
    }
}

/// The address of each account of a proof.
fn keys_of(proof_accounts: &Vec<(Pubkey, bool, bool)>) -> (keys: Vec<Pubkey>)
    ensures
        keys@ == proof_keys(proof_accounts@),
{
    let mut keys: Vec<Pubkey> = Vec::new();
    let mut i: usize = 0;
    while i < proof_accounts.len()
        invariant
            i <= proof_accounts.len(),
            keys@ == proof_keys(proof_accounts@.take(i as int)),
        decreases proof_accounts.len() - i,
    {
        keys.push(proof_accounts[i].0);
        assert(proof_keys(proof_accounts@.take(i + 1)) =~= proof_keys(
            proof_accounts@.take(i as int),
        ).push(proof_accounts@[i as int].0));
        i = i + 1;
    }
    assert(proof_accounts@.take(proof_accounts.len() as int) =~= proof_accounts@);
    keys
}

/// Each account of a proof as one that neither signs nor is written.
fn unflagged(accounts: &Vec<Pubkey>) -> (proof_accounts: Vec<(Pubkey, bool, bool)>)
    ensures
        proof_keys(proof_accounts@) == accounts@,
{
    let mut proof_accounts: Vec<(Pubkey, bool, bool)> = Vec::new();
    let mut i: usize = 0;
    while i < accounts.len()
        invariant
            i <= accounts.len(),
            proof_keys(proof_accounts@) == accounts@.take(i as int),
        decreases accounts.len() - i,
    {
        let ghost before = proof_accounts@;
        proof_accounts.push((accounts[i], false, false));
        assert(proof_keys(before.push((accounts@[i as int], false, false))) =~= proof_keys(
            before,
        ).push(accounts@[i as int]));
        assert(accounts@.take(i + 1) =~= accounts@.take(i as int).push(accounts@[i as int]));
        i = i + 1;
    }
    assert(accounts@.take(accounts.len() as int) =~= accounts@);
    proof_accounts
}

} // verus!
