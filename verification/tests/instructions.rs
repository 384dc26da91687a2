use solana_challenge::constants::{AGILITY, INTELLIGENCE, STRENGTH};
use solana_challenge::{
    escrow_master_nft, init_user_reputation, stake, EscrowMasterNft, EscrowMasterNftArgs, Errors,
    InitUserReputation, NftAttribute, NftKind, Pubkey, ReputationPointInfo, Stake, StakeInfo,
    TokenAccount, TokenTransfer,
};

fn key(n: u8) -> Pubkey {
    Pubkey::new([n; 32])
}

fn zero_key() -> Pubkey {
    key(0)
}

const ADMIN: u8 = 1;
const MASTER_MINT: u8 = 2;
const AUTHORITY: u8 = 3;
const USER: u8 = 4;
const EDITION_MINT: u8 = 5;
const ADMIN_TOKEN: u8 = 6;
const VAULT_TOKEN: u8 = 7;
const USER_TOKEN: u8 = 8;
const OTHER: u8 = 9;

fn escrow_accounts() -> EscrowMasterNft {
    EscrowMasterNft {
        admin: key(ADMIN),
        nft_mint: key(MASTER_MINT),
        admin_token_account: TokenAccount {
            key: key(ADMIN_TOKEN),
            mint: key(MASTER_MINT),
            owner: key(ADMIN),
        },
        nft_authority: key(AUTHORITY),
        nft_authority_token_account: TokenAccount {
            key: key(VAULT_TOKEN),
            mint: key(MASTER_MINT),
            owner: key(AUTHORITY),
        },
        nft_type: NftKind { nft_mint: zero_key(), nft_kind: 0, bump: 0 },
    }
}

fn attribute(kind: u8, health: u32, mana: u32, power: u32) -> NftAttribute {
    NftAttribute {
        user_wallet: key(USER),
        nft_mint: key(EDITION_MINT),
        health,
        mana,
        power,
        nft_kind: kind,
        bump: 250,
    }
}

fn stake_accounts(attr: NftAttribute, reputation_point: u32) -> Stake {
    Stake {
        user_wallet: key(USER),
        nft_mint: key(EDITION_MINT),
        user_token_account: TokenAccount {
            key: key(USER_TOKEN),
            mint: key(EDITION_MINT),
            owner: key(USER),
        },
        nft_authority: key(AUTHORITY),
        nft_authority_token_account: TokenAccount {
            key: key(VAULT_TOKEN),
            mint: key(EDITION_MINT),
            owner: key(AUTHORITY),
        },
        stake_info: StakeInfo { user_wallet: zero_key(), nft_mint: zero_key(), bump: 0 },
        nft_attribute: attr,
        reputation_info: ReputationPointInfo {
            user_wallet: key(USER),
            reputation_point,
            bump: 251,
        },
    }
}

#[test]
fn escrow_records_mint_and_kind() {
    let mut accounts = escrow_accounts();
    let r = escrow_master_nft(&mut accounts, 254, EscrowMasterNftArgs { kind: AGILITY });
    assert_eq!(
        r,
        Ok(TokenTransfer { from: key(ADMIN_TOKEN), to: key(VAULT_TOKEN), authority: key(ADMIN), amount: 1 })
    );
    assert_eq!(accounts.nft_type, NftKind { nft_mint: key(MASTER_MINT), nft_kind: AGILITY, bump: 254 });
}

#[test]
fn escrow_records_any_kind_as_given() {
    let mut accounts = escrow_accounts();
    let r = escrow_master_nft(&mut accounts, 7, EscrowMasterNftArgs { kind: 9 });
    assert!(r.is_ok());
    assert_eq!(accounts.nft_type.nft_kind, 9);
}

#[test]
fn escrow_refuses_admin_token_of_other_mint() {
    let mut accounts = escrow_accounts();
    accounts.admin_token_account.mint = key(OTHER);
    let before = accounts;
    let r = escrow_master_nft(&mut accounts, 254, EscrowMasterNftArgs { kind: STRENGTH });
    assert_eq!(r, Err(Errors::InvalidTokenMint));
    assert_eq!(accounts, before);
}

#[test]
fn escrow_refuses_admin_token_of_other_owner() {
    let mut accounts = escrow_accounts();
    accounts.admin_token_account.owner = key(OTHER);
    let r = escrow_master_nft(&mut accounts, 254, EscrowMasterNftArgs { kind: STRENGTH });
    assert_eq!(r, Err(Errors::InvalidTokenOwner));
}

#[test]
fn escrow_refuses_vault_of_other_mint_or_owner() {
    let mut accounts = escrow_accounts();
    accounts.nft_authority_token_account.mint = key(OTHER);
    let r = escrow_master_nft(&mut accounts, 254, EscrowMasterNftArgs { kind: STRENGTH });
    assert_eq!(r, Err(Errors::InvalidTokenMint));
    let mut accounts = escrow_accounts();
    accounts.nft_authority_token_account.owner = key(OTHER);
    let r = escrow_master_nft(&mut accounts, 254, EscrowMasterNftArgs { kind: STRENGTH });
    assert_eq!(r, Err(Errors::InvalidTokenOwner));
}

#[test]
fn escrow_reports_first_failing_constraint() {
    let mut accounts = escrow_accounts();
    accounts.admin_token_account.owner = key(OTHER);
    accounts.nft_authority_token_account.mint = key(OTHER);
    let r = escrow_master_nft(&mut accounts, 254, EscrowMasterNftArgs { kind: STRENGTH });
    assert_eq!(r, Err(Errors::InvalidTokenOwner));
}

#[test]
fn init_opens_reputation_at_zero() {
    let mut accounts = InitUserReputation {
        user_wallet: key(USER),
        reputation_info: ReputationPointInfo { user_wallet: zero_key(), reputation_point: 77, bump: 0 },
    };
    assert_eq!(init_user_reputation(&mut accounts, 253), Ok(()));
    assert_eq!(
        accounts.reputation_info,
        ReputationPointInfo { user_wallet: key(USER), reputation_point: 0, bump: 253 }
    );
}

#[test]
fn stake_adds_point_and_records_stake() {
    let mut accounts = stake_accounts(attribute(STRENGTH, 10, 20, 30), 5);
    let r = stake(&mut accounts, 249);
    assert_eq!(
        r,
        Ok(TokenTransfer { from: key(USER_TOKEN), to: key(VAULT_TOKEN), authority: key(USER), amount: 1 })
    );
    assert_eq!(accounts.reputation_info.reputation_point, 75);
    assert_eq!(
        accounts.stake_info,
        StakeInfo { user_wallet: key(USER), nft_mint: key(EDITION_MINT), bump: 249 }
    );
}

#[test]
fn stake_of_intelligence_edition() {
    let mut accounts = stake_accounts(attribute(INTELLIGENCE, 10, 20, 30), 0);
    assert!(stake(&mut accounts, 249).is_ok());
    assert_eq!(accounts.reputation_info.reputation_point, 80);
}

#[test]
fn stake_refuses_unknown_kind_and_changes_nothing() {
    let mut accounts = stake_accounts(attribute(3, 10, 20, 30), 5);
    let before = accounts;
    assert_eq!(stake(&mut accounts, 249), Err(Errors::InvalidNftKind));
    assert_eq!(accounts, before);
}

#[test]
fn stake_refuses_attribute_of_other_user() {
    let mut accounts = stake_accounts(attribute(STRENGTH, 1, 1, 1), 0);
    accounts.nft_attribute.user_wallet = key(OTHER);
    let before = accounts;
    assert_eq!(stake(&mut accounts, 249), Err(Errors::AccessDenied));
    assert_eq!(accounts, before);
}

#[test]
fn stake_refuses_reputation_of_other_user() {
    let mut accounts = stake_accounts(attribute(STRENGTH, 1, 1, 1), 0);
    accounts.reputation_info.user_wallet = key(OTHER);
    assert_eq!(stake(&mut accounts, 249), Err(Errors::AccessDenied));
}

#[test]
fn stake_refuses_token_accounts_that_do_not_match() {
    let mut accounts = stake_accounts(attribute(STRENGTH, 1, 1, 1), 0);
    accounts.user_token_account.mint = key(OTHER);
    assert_eq!(stake(&mut accounts, 249), Err(Errors::InvalidTokenMint));
    let mut accounts = stake_accounts(attribute(STRENGTH, 1, 1, 1), 0);
    accounts.user_token_account.owner = key(OTHER);
    assert_eq!(stake(&mut accounts, 249), Err(Errors::InvalidTokenOwner));
    let mut accounts = stake_accounts(attribute(STRENGTH, 1, 1, 1), 0);
    accounts.nft_authority_token_account.mint = key(OTHER);
    assert_eq!(stake(&mut accounts, 249), Err(Errors::InvalidTokenMint));
    let mut accounts = stake_accounts(attribute(STRENGTH, 1, 1, 1), 0);
    accounts.nft_authority_token_account.owner = key(OTHER);
    assert_eq!(stake(&mut accounts, 249), Err(Errors::InvalidTokenOwner));
}

#[test]
fn point_limit_is_reported() {
    let accounts = stake_accounts(attribute(STRENGTH, u32::MAX / 2, 0, 1), 0);
    assert!(accounts.point_within_limit());
    let accounts = stake_accounts(attribute(STRENGTH, u32::MAX / 2, 0, 2), 0);
    assert!(!accounts.point_within_limit());
    let accounts = stake_accounts(attribute(AGILITY, 0, 0, 1), u32::MAX - 2);
    assert!(accounts.point_within_limit());
    let accounts = stake_accounts(attribute(AGILITY, 0, 0, 2), u32::MAX - 2);
    assert!(!accounts.point_within_limit());
    let accounts = stake_accounts(attribute(5, u32::MAX, u32::MAX, u32::MAX), u32::MAX);
    assert!(accounts.point_within_limit());
}

#[test]
fn reputation_is_sum_of_staked_points_in_any_order() {
    let editions = [
        attribute(STRENGTH, 1, 2, 3),
        attribute(AGILITY, 4, 5, 6),
        attribute(INTELLIGENCE, 7, 8, 9),
    ];
    let total = (2 + 2 + 3) + (4 + 5 + 12) + (7 + 16 + 9);
    for order in [[0, 1, 2], [2, 0, 1], [1, 2, 0]] {
        let mut init = InitUserReputation {
            user_wallet: key(USER),
            reputation_info: ReputationPointInfo { user_wallet: zero_key(), reputation_point: 0, bump: 0 },
        };
        init_user_reputation(&mut init, 251).unwrap();
        let mut reputation = init.reputation_info;
        for i in order {
            let mut accounts = stake_accounts(editions[i], 0);
            accounts.reputation_info = reputation;
            stake(&mut accounts, 249).unwrap();
            reputation = accounts.reputation_info;
        }
        assert_eq!(reputation.reputation_point, total);
    }
}

#[test]
fn edition_point_follows_master_kind_through_escrow_mint_and_stake() {
    // the admin escrows an agility master edition
    let mut escrow = escrow_accounts();
    escrow_master_nft(&mut escrow, 254, EscrowMasterNftArgs { kind: AGILITY }).unwrap();
    // the recorded kind becomes the kind of the minted edition's record
    let minted = NftAttribute { nft_kind: escrow.nft_type.nft_kind, ..attribute(0, 3, 4, 5) };
    let mut accounts = stake_accounts(minted, 100);
    stake(&mut accounts, 249).unwrap();
    assert_eq!(accounts.reputation_info.reputation_point, 100 + 3 + 4 + 2 * 5);
}

#[test]
fn point_lies_between_attribute_sum_and_twice_it() {
    for kind in [STRENGTH, AGILITY, INTELLIGENCE] {
        let p = solana_challenge::reputation::nft_point(kind, 11, 13, 17).unwrap();
        assert!(41 <= p && p <= 82);
    }
}

#[test]
fn stake_by_someone_else_is_refused() {
    let mut accounts = stake_accounts(attribute(STRENGTH, 1, 1, 1), 0);
    accounts.user_wallet = key(OTHER);
    accounts.user_token_account.owner = key(OTHER);
    accounts.reputation_info.user_wallet = key(OTHER);
    let before = accounts;
    assert_eq!(stake(&mut accounts, 249), Err(Errors::AccessDenied));
    assert_eq!(accounts, before);
}
