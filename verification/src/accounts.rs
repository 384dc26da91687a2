use vstd::prelude::*;

use crate::pubkey::Pubkey;

verus! {

/// What an instruction reads of an SPL token account: its address, its mint and its owner.
#[derive(Clone, Copy, Debug, PartialEq, Eq)]
pub struct TokenAccount {
    pub key: Pubkey,
    pub mint: Pubkey,
    pub owner: Pubkey,
}

/// A transfer of `amount` tokens from one token account to another, signed by `authority`.
#[derive(Clone, Copy, Debug, PartialEq, Eq)]
pub struct TokenTransfer {
    pub from: Pubkey,
    pub to: Pubkey,
    pub authority: Pubkey,
    pub amount: u64,
}

/// A mint of `amount` new tokens of `mint` into the token account `to`, signed by `authority`.
#[derive(Clone, Copy, Debug, PartialEq, Eq)]
pub struct TokenMintTo {
    pub mint: Pubkey,
    pub to: Pubkey,
    pub authority: Pubkey,
    pub amount: u64,
}

/// An account that an instruction touches, and how.
#[derive(Clone, Copy, Debug, PartialEq, Eq)]
pub struct AccountMeta {
    pub pubkey: Pubkey,
    pub is_signer: bool,
    pub is_writable: bool,
}

/// An instruction to another program: the program, the accounts it touches and its data.
#[derive(Clone, Debug, PartialEq, Eq)]
pub struct Instruction {
    pub program_id: Pubkey,
    pub accounts: Vec<AccountMeta>,
    pub data: Vec<u8>,
}

/// `m` names the account `key`, with the given signer and writable flags.
pub open spec fn meta_is(m: AccountMeta, key: Seq<u8>, is_signer: bool, is_writable: bool) -> bool {
    &&& m.pubkey@ == key
    &&& m.is_signer == is_signer
    &&& m.is_writable == is_writable
}

/// The transfer of exactly one token, the only amount this program ever moves.
pub open spec fn one_token_transfer(from: Pubkey, to: Pubkey, authority: Pubkey) -> TokenTransfer {
    TokenTransfer { from, to, authority, amount: 1 }
}

} // verus!
