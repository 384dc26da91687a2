use vstd::prelude::*;

use crate::accounts::{one_token_transfer, TokenAccount, TokenTransfer};
use crate::error::Errors;
use crate::pubkey::Pubkey;
use crate::reputation::{attribute_point, is_known_kind, nft_point, staked_reputation};
use crate::states::{NftAttribute, ReputationPointInfo, StakeInfo};

verus! {

/// The accounts of the instruction that stakes an edition into the program's escrow.
#[derive(Clone, Copy, Debug, PartialEq, Eq)]
pub struct Stake {
    pub user_wallet: Pubkey,
    /// edition nft mint
    pub nft_mint: Pubkey,
    /// the user's token account of the edition
    pub user_token_account: TokenAccount,
    pub nft_authority: Pubkey,
    /// the escrow's token account of the edition
    pub nft_authority_token_account: TokenAccount,
    /// the stake record, filled in by this instruction
    pub stake_info: StakeInfo,
    pub nft_attribute: NftAttribute,
    pub reputation_info: ReputationPointInfo,
}

impl Stake {
    /// The first account constraint that fails, in the order the accounts are listed.
    pub open spec fn constraint_error(&self) -> Option<Errors> {
        if self.user_token_account.mint@ != self.nft_mint@ {
            Some(Errors::InvalidTokenMint)
        } else if self.user_token_account.owner@ != self.user_wallet@ {
            Some(Errors::InvalidTokenOwner)
        } else if self.nft_authority_token_account.mint@ != self.nft_mint@ {
            Some(Errors::InvalidTokenMint)
        } else if self.nft_authority_token_account.owner@ != self.nft_authority@ {
            Some(Errors::InvalidTokenOwner)
        } else if self.nft_attribute.user_wallet@ != self.user_wallet@ {
            Some(Errors::AccessDenied)
        } else if self.reputation_info.user_wallet@ != self.user_wallet@ {
            Some(Errors::AccessDenied)
        } else {
            None
        }
    }

    /// Staking this edition keeps the reputation point within `u32`.
    pub open spec fn point_fits(&self) -> bool {
        is_known_kind(self.nft_attribute.nft_kind) ==> staked_reputation(
            self.reputation_info.reputation_point as int,
            self.nft_attribute,
        ) <= u32::MAX
    }

    /// The transfer of the staked edition into the escrow.
    pub open spec fn spec_transfer(&self) -> TokenTransfer {
        one_token_transfer(
            self.user_token_account.key,
            self.nft_authority_token_account.key,
            self.user_wallet,
        )
    }

    /// The accounts after a successful stake.
    pub open spec fn staked(&self, bump: u8) -> Stake {
        Stake {
            stake_info: StakeInfo { user_wallet: self.user_wallet, nft_mint: self.nft_mint, bump },
            reputation_info: ReputationPointInfo {
                reputation_point: staked_reputation(
                    self.reputation_info.reputation_point as int,
                    self.nft_attribute,
                ) as u32,
                ..self.reputation_info
            },
            ..*self
        }
    }

    /// Tells whether staking this edition keeps the reputation point within `u32`.
    pub fn point_within_limit(&self) -> (b: bool)
        ensures
            b == self.point_fits(),
    {
        match nft_point(
            self.nft_attribute.nft_kind,
            self.nft_attribute.health,
            self.nft_attribute.mana,
            self.nft_attribute.power,
        ) {
            Ok(p) => self.reputation_info.reputation_point as u64 + p <= u32::MAX as u64,
            Err(_) => true,
        }
    }

    /// Checks the account constraints of the instruction.
    pub fn validate(&self) -> (r: Result<(), Errors>)
        ensures
            match self.constraint_error() {
                Some(e) => r == Err::<(), Errors>(e),
                None => r is Ok,
            },
    {
        if !self.user_token_account.mint.same_key(&self.nft_mint) {
            return Err(Errors::InvalidTokenMint);
        }
        if !self.user_token_account.owner.same_key(&self.user_wallet) {
            return Err(Errors::InvalidTokenOwner);
        }
        if !self.nft_authority_token_account.mint.same_key(&self.nft_mint) {
            return Err(Errors::InvalidTokenMint);
        }
        if !self.nft_authority_token_account.owner.same_key(&self.nft_authority) {
            return Err(Errors::InvalidTokenOwner);
        }
        if !self.nft_attribute.user_wallet.same_key(&self.user_wallet) {
            return Err(Errors::AccessDenied);
        }
        if !self.reputation_info.user_wallet.same_key(&self.user_wallet) {
            return Err(Errors::AccessDenied);
        }
        Ok(())
    }

    /// Stakes the edition: it moves into the escrow, the stake is recorded and the
    /// edition's point is added to the user's reputation. An edition of an unknown
    /// kind is refused and nothing changes.
    pub fn process(&mut self, bump: u8) -> (r: Result<TokenTransfer, Errors>)
        requires
            old(self).point_fits(),
        ensures
            match r {
                Ok(t) => {
                    &&& is_known_kind(old(self).nft_attribute.nft_kind)
                    &&& t == old(self).spec_transfer()
                    &&& *final(self) == old(self).staked(bump)
                    &&& final(self).reputation_info.reputation_point == old(
                        self,
                    ).reputation_info.reputation_point + attribute_point(old(self).nft_attribute)
                    &&& final(self).reputation_info.reputation_point
                        >= old(self).reputation_info.reputation_point
                    &&& old(self).nft_attribute.nft_kind <= 2
                    &&& t.from == old(self).user_token_account.key
                    &&& t.to == old(self).nft_authority_token_account.key
                    &&& t.authority == old(self).user_wallet
                    &&& t.amount == 1
                    &&& final(self).stake_info.user_wallet == old(self).user_wallet
                    &&& final(self).stake_info.nft_mint == old(self).nft_mint
                    &&& final(self).stake_info.bump == bump
                    &&& final(self).reputation_info.reputation_point == old(
                        self,
                    ).reputation_info.reputation_point + old(self).nft_attribute.health + old(
                        self,
                    ).nft_attribute.mana + old(self).nft_attribute.power + (if old(
                        self,
                    ).nft_attribute.nft_kind == 0 {
                        old(self).nft_attribute.health
                    } else if old(self).nft_attribute.nft_kind == 1 {
                        old(self).nft_attribute.power
                    } else {
                        old(self).nft_attribute.mana
                    })
                    &&& final(self).reputation_info.user_wallet == old(self).reputation_info.user_wallet
                },
                Err(e) => {
                    &&& !is_known_kind(old(self).nft_attribute.nft_kind)
                    &&& e == Errors::InvalidNftKind
                    &&& *final(self) == *old(self)
                },
            },
    {
        let transfer = TokenTransfer {
            from: self.user_token_account.key,
            to: self.nft_authority_token_account.key,
            authority: self.user_wallet,
            amount: 1,
        };
        let point = match nft_point(
            self.nft_attribute.nft_kind,
            self.nft_attribute.health,
            self.nft_attribute.mana,
            self.nft_attribute.power,
        ) {
            Ok(p) => p,
            Err(e) => return Err(e),
        };
        self.stake_info = StakeInfo { user_wallet: self.user_wallet, nft_mint: self.nft_mint, bump };
        let total = self.reputation_info.reputation_point as u64 + point;
        self.reputation_info.reputation_point = total as u32;
        Ok(transfer)
    }
}

} // verus!
