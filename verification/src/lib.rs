//! A program in which an admin escrows master edition NFTs of three kinds (strength,
//! agility, intelligence), users mint editions of them with chosen attributes (health,
//! mana, power), and users stake editions to earn reputation points.
use vstd::prelude::*;

pub mod accounts;
pub mod constants;
pub mod error;
pub mod laws;
pub mod metadata;
pub mod process;
pub mod pubkey;
pub mod reputation;
pub mod states;

pub use accounts::{AccountMeta, Instruction, TokenAccount, TokenMintTo, TokenTransfer};
pub use error::Errors;
pub use process::{
    EscrowMasterNft, EscrowMasterNftArgs, InitUserReputation, MintEdition, MintEditionArgs,
    MintEditionPlan, Stake,
};
pub use pubkey::Pubkey;
pub use states::{NftAttribute, NftKind, ReputationPointInfo, StakeInfo};

verus! {

/// Escrows a master edition to the program address and records its kind: checks the
/// accounts, then records the master edition and returns the transfer to carry out.
pub fn escrow_master_nft(
    accounts: &mut EscrowMasterNft,
    nft_type_bump: u8,
    args: EscrowMasterNftArgs,
) -> (r: Result<TokenTransfer, Errors>)
    ensures
        match old(accounts).constraint_error() {
            Some(e) => r == Err::<TokenTransfer, Errors>(e) && *final(accounts) == *old(accounts),
            None => {
                &&& r == Ok::<TokenTransfer, Errors>(old(accounts).spec_transfer())
                &&& *final(accounts) == old(accounts).escrowed(nft_type_bump, args)
                &&& r->Ok_0.from == old(accounts).admin_token_account.key
                &&& r->Ok_0.to == old(accounts).nft_authority_token_account.key
                &&& r->Ok_0.authority == old(accounts).admin
                &&& r->Ok_0.amount == 1
                &&& final(accounts).nft_type.nft_mint == old(accounts).nft_mint
                &&& final(accounts).nft_type.nft_kind == args.kind
                &&& final(accounts).nft_type.bump == nft_type_bump
            },
        },
{
    match accounts.validate() {
        Ok(()) => Ok(accounts.process(nft_type_bump, args)),
        Err(e) => Err(e),
    }
}

/// Mints an edition of an escrowed master edition: checks the accounts, then records
/// the edition and returns what remains to carry out (see `MintEdition::process`).
pub fn mint_edition(
    accounts: &mut MintEdition,
    nft_attribute_bump: u8,
    args: MintEditionArgs,
    program_id: &Pubkey,
) -> (r: Result<Option<MintEditionPlan>, Errors>)
    requires
        old(accounts).constraint_error() is None ==> old(accounts).master_edition_data@.len() >= 9,
    ensures
        match old(accounts).constraint_error() {
            Some(e) => r == Err::<Option<MintEditionPlan>, Errors>(e) && *final(accounts) == *old(
                accounts,
            ),
            None => match r {
                Err(e) => {
                    &&& e == Errors::MathOverflow
                    &&& old(accounts).supply() == u64::MAX
                    &&& *final(accounts) == *old(accounts)
                },
                Ok(None) => {
                    &&& old(accounts).supply() < u64::MAX
                    &&& !old(accounts).addresses_exist(
                        program_id@,
                        (old(accounts).supply() + 1) as u64,
                    )
                    &&& *final(accounts) == *old(accounts)
                },
                Ok(Some(plan)) => {
                    &&& old(accounts).supply() < u64::MAX
                    &&& old(accounts).addresses_exist(
                        program_id@,
                        (old(accounts).supply() + 1) as u64,
                    )
                    &&& plan.authority_bump == process::mint_edition::authority_address(
                        program_id@,
                    ).unwrap().1
                    &&& plan.edition_instruction.program_id@ == metadata::token_metadata_program_id()
                    &&& plan.mint_to == old(accounts).spec_mint_to()
                    &&& old(accounts).is_edition_instruction(
                        plan.edition_instruction,
                        (old(accounts).supply() + 1) as u64,
                    )
                    &&& plan.edition_accounts@ == old(accounts).spec_edition_accounts()
                    &&& *final(accounts) == old(accounts).minted(nft_attribute_bump, args)
                    &&& final(accounts).nft_attribute.health == args.health
                    &&& final(accounts).nft_attribute.mana == args.mana
                    &&& final(accounts).nft_attribute.power == args.power
                    &&& final(accounts).nft_attribute.nft_kind == old(accounts).nft_kind.nft_kind
                    &&& final(accounts).nft_attribute.user_wallet == old(accounts).user_wallet
                    &&& final(accounts).nft_attribute.nft_mint == old(accounts).new_mint
                    &&& plan.mint_to.mint == old(accounts).new_mint
                    &&& plan.mint_to.to == old(accounts).user_token_account.key
                    &&& plan.mint_to.authority == old(accounts).user_wallet
                    &&& plan.mint_to.amount == 1
                },
            },
        },
{
    match accounts.validate() {
        Ok(()) => accounts.process(nft_attribute_bump, args, program_id),
        Err(e) => Err(e),
    }
}

/// Opens the user's reputation record at zero points.
pub fn init_user_reputation(accounts: &mut InitUserReputation, reputation_info_bump: u8) -> (r:
    Result<(), Errors>)
    ensures
        r is Ok,
        *final(accounts) == old(accounts).opened(reputation_info_bump),
        final(accounts).reputation_info.user_wallet == old(accounts).user_wallet,
        final(accounts).reputation_info.reputation_point == 0,
        final(accounts).reputation_info.bump == reputation_info_bump,
{
    accounts.process(reputation_info_bump)
}

/// Stakes an edition: checks the accounts, then records the stake, adds the edition's
/// point to the user's reputation and returns the transfer to carry out.
pub fn stake(accounts: &mut Stake, stake_info_bump: u8) -> (r: Result<TokenTransfer, Errors>)
    requires
        old(accounts).constraint_error() is None ==> old(accounts).point_fits(),
    ensures
        match old(accounts).constraint_error() {
            Some(e) => r == Err::<TokenTransfer, Errors>(e) && *final(accounts) == *old(accounts),
            None => match r {
                Ok(t) => {
                    &&& reputation::is_known_kind(old(accounts).nft_attribute.nft_kind)
                    &&& t == old(accounts).spec_transfer()
                    &&& *final(accounts) == old(accounts).staked(stake_info_bump)
                    &&& final(accounts).reputation_info.reputation_point
                        >= old(accounts).reputation_info.reputation_point
                    &&& old(accounts).nft_attribute.nft_kind <= 2
                    &&& t.from == old(accounts).user_token_account.key
                    &&& t.to == old(accounts).nft_authority_token_account.key
                    &&& t.authority == old(accounts).user_wallet
                    &&& t.amount == 1
                    &&& final(accounts).stake_info.user_wallet == old(accounts).user_wallet
                    &&& final(accounts).stake_info.nft_mint == old(accounts).nft_mint
                    &&& final(accounts).reputation_info.reputation_point == old(
                        accounts,
                    ).reputation_info.reputation_point + old(accounts).nft_attribute.health + old(
                        accounts,
                    ).nft_attribute.mana + old(accounts).nft_attribute.power + (if old(
                        accounts,
                    ).nft_attribute.nft_kind == 0 {
                        old(accounts).nft_attribute.health
                    } else if old(accounts).nft_attribute.nft_kind == 1 {
                        old(accounts).nft_attribute.power
                    } else {
                        old(accounts).nft_attribute.mana
                    })
                },
                Err(e) => {
                    &&& !reputation::is_known_kind(old(accounts).nft_attribute.nft_kind)
                    &&& e == Errors::InvalidNftKind
                    &&& *final(accounts) == *old(accounts)
                },
            },
        },
{
    match accounts.validate() {
        Ok(()) => accounts.process(stake_info_bump),
        Err(e) => Err(e),
    }
}

} // verus!
