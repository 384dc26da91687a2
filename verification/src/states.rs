use vstd::prelude::*;

use crate::pubkey::Pubkey;

verus! {

/// The record of an escrowed master edition: which mint it is and its kind.
#[derive(Clone, Copy, Debug, PartialEq, Eq)]
pub struct NftKind {
    /// Master edition nft mint address
    pub nft_mint: Pubkey,
    /// 0: strength, 1: agility, 2: intelligence
    pub nft_kind: u8,
    pub bump: u8,
}

/// The record of a minted edition: its owner, mint, attributes and kind.
#[derive(Clone, Copy, Debug, PartialEq, Eq)]
pub struct NftAttribute {
    pub user_wallet: Pubkey,
    pub nft_mint: Pubkey,
    pub health: u32,
    pub mana: u32,
    pub power: u32,
    /// 0: strength, 1: agility, 2: intelligence
    pub nft_kind: u8,
    pub bump: u8,
}

/// The record of a staked edition.
#[derive(Clone, Copy, Debug, PartialEq, Eq)]
pub struct StakeInfo {
    pub user_wallet: Pubkey,
    pub nft_mint: Pubkey,
    pub bump: u8,
}

/// A user's reputation point, the sum of the points of the editions the user staked.
#[derive(Clone, Copy, Debug, PartialEq, Eq)]
pub struct ReputationPointInfo {
    pub user_wallet: Pubkey,
    pub reputation_point: u32,
    pub bump: u8,
}

} // verus!
