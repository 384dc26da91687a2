use vstd::prelude::*;

use crate::accounts::{one_token_transfer, TokenAccount, TokenTransfer};
use crate::error::Errors;
use crate::pubkey::Pubkey;
use crate::states::NftKind;

verus! {

/// The accounts of the instruction by which the admin escrows a master edition
/// and records its kind.
#[derive(Clone, Copy, Debug, PartialEq, Eq)]
pub struct EscrowMasterNft {
    /// admin wallet that escrows the master edition
    pub admin: Pubkey,
    /// master edition nft mint
    pub nft_mint: Pubkey,
    /// the admin's token account of the master edition
    pub admin_token_account: TokenAccount,
    pub nft_authority: Pubkey,
    /// the escrow's token account of the master edition
    pub nft_authority_token_account: TokenAccount,
    /// the kind record, filled in by this instruction
    pub nft_type: NftKind,
}

/// The arguments of the escrow instruction.
#[derive(Clone, Copy, Debug, PartialEq, Eq)]
pub struct EscrowMasterNftArgs {
    /// master edition nft kind: 0 strength, 1 agility, 2 intelligence
    pub kind: u8,
}

impl EscrowMasterNft {
    /// The first account constraint that fails, in the order the accounts are listed.
    pub open spec fn constraint_error(&self) -> Option<Errors> {
        if self.admin_token_account.mint@ != self.nft_mint@ {
            Some(Errors::InvalidTokenMint)
        } else if self.admin_token_account.owner@ != self.admin@ {
            Some(Errors::InvalidTokenOwner)
        } else if self.nft_authority_token_account.mint@ != self.nft_mint@ {
            Some(Errors::InvalidTokenMint)
        } else if self.nft_authority_token_account.owner@ != self.nft_authority@ {
            Some(Errors::InvalidTokenOwner)
        } else {
            None
        }
    }

    /// The transfer of the master edition into the escrow.
    pub open spec fn spec_transfer(&self) -> TokenTransfer {
        one_token_transfer(
            self.admin_token_account.key,
            self.nft_authority_token_account.key,
            self.admin,
        )
    }

    /// The accounts after the master edition is escrowed.
    pub open spec fn escrowed(&self, bump: u8, args: EscrowMasterNftArgs) -> EscrowMasterNft {
        EscrowMasterNft {
            nft_type: NftKind { nft_mint: self.nft_mint, nft_kind: args.kind, bump },
            ..*self
        }
    }

    /// Checks the account constraints of the instruction.
    pub fn validate(&self) -> (r: Result<(), Errors>)
        ensures
            match self.constraint_error() {
                Some(e) => r == Err::<(), Errors>(e),
                None => r is Ok,
            },
    {
        if !self.admin_token_account.mint.same_key(&self.nft_mint) {
            return Err(Errors::InvalidTokenMint);
        }
        if !self.admin_token_account.owner.same_key(&self.admin) {
            return Err(Errors::InvalidTokenOwner);
        }
        if !self.nft_authority_token_account.mint.same_key(&self.nft_mint) {
            return Err(Errors::InvalidTokenMint);
        }
        if !self.nft_authority_token_account.owner.same_key(&self.nft_authority) {
            return Err(Errors::InvalidTokenOwner);
        }
        Ok(())
    }

    /// Escrows the master edition and records its mint and kind. The kind is recorded
    /// as given; an unknown kind is refused later, when an edition of it is staked.
    pub fn process(&mut self, bump: u8, args: EscrowMasterNftArgs) -> (t: TokenTransfer)
        ensures
            t == old(self).spec_transfer(),
            *final(self) == old(self).escrowed(bump, args),
            t.from == old(self).admin_token_account.key,
            t.to == old(self).nft_authority_token_account.key,
            t.authority == old(self).admin,
            t.amount == 1,
            final(self).nft_type.nft_mint == old(self).nft_mint,
            final(self).nft_type.nft_kind == args.kind,
            final(self).nft_type.bump == bump,
    {
        let transfer = TokenTransfer {
            from: self.admin_token_account.key,
            to: self.nft_authority_token_account.key,
            authority: self.admin,
            amount: 1,
        };
        self.nft_type = NftKind { nft_mint: self.nft_mint, nft_kind: args.kind, bump };
        transfer
    }
}

} // verus!
