use vstd::prelude::*;

use crate::accounts::{Instruction, TokenAccount, TokenMintTo};
use crate::constants::NFT_AUTHORITY;
use crate::error::Errors;
use crate::metadata::{
    edition_marker, edition_marker_seeds_of, lemma_bytes_deep_view, is_mint_new_edition_instruction,
    master_edition_supply, mint_new_edition_instruction, supply_off_master_edition,
    token_metadata_program, token_metadata_program_id,
};
use crate::pubkey::{program_address, try_find_program_address, Pubkey};
use crate::states::{NftAttribute, NftKind};
use vstd::slice::slice_to_vec;
use vstd::string::StringSliceAdditionalSpecFns;

verus! {

/// The accounts of the instruction by which a user mints an edition of an escrowed
/// master edition and records the edition's attributes.
#[derive(Clone, Debug, PartialEq, Eq)]
pub struct MintEdition {
    /// user wallet
    pub user_wallet: Pubkey,
    /// master edition nft mint address
    pub master_edtion_nft_mint: Pubkey,
    /// the user's token account for the edition
    pub user_token_account: TokenAccount,
    /// the master edition account of the token metadata program
    pub master_edition: Pubkey,
    /// the data of the master edition account
    pub master_edition_data: Vec<u8>,
    pub master_edition_metadata: Pubkey,
    pub edition_marker: Pubkey,
    pub new_metadata: Pubkey,
    pub new_edition: Pubkey,
    pub new_mint: Pubkey,
    pub token_metadata_program: Pubkey,
    /// the kind record of the master edition
    pub nft_kind: NftKind,
    pub nft_authority: Pubkey,
    /// the escrow's token account of the master edition
    pub master_edtion_nft_vault: TokenAccount,
    /// the attribute record of the new edition, filled in by this instruction
    pub nft_attribute: NftAttribute,
    pub system_program: Pubkey,
    pub token_program: Pubkey,
}

/// The arguments of the mint instruction: the attributes of the new edition.
#[derive(Clone, Copy, Debug, PartialEq, Eq)]
pub struct MintEditionArgs {
    pub health: u32,
    pub mana: u32,
    pub power: u32,
}

/// What the caller carries out for a mint, in this order: first `mint_to`, whose failure
/// fails the instruction; then `edition_instruction`, handed the accounts
/// `edition_accounts` and signed by the program address of the seed `NFT_AUTHORITY`
/// with the bump seed `authority_bump`; then `MintEdition::settle_edition_call` with the
/// outcome of that second call.
#[derive(Clone, Debug, PartialEq, Eq)]
pub struct MintEditionPlan {
    pub mint_to: TokenMintTo,
    pub edition_instruction: Instruction,
    pub edition_accounts: Vec<Pubkey>,
    pub authority_bump: u8,
}

/// The program address of the seed `NFT_AUTHORITY` under `program_id`, with its bump seed.
pub open spec fn authority_address(program_id: Seq<u8>) -> Option<(Seq<u8>, u8)> {
    program_address(seq![NFT_AUTHORITY.spec_bytes()], program_id)
}

impl MintEdition {
    /// The first account constraint that fails, in the order the accounts are listed.
    pub open spec fn constraint_error(&self) -> Option<Errors> {
        if self.master_edtion_nft_mint@ != self.nft_kind.nft_mint@ {
            Some(Errors::InvalidTokenMint)
        } else if self.user_token_account.owner@ != self.user_wallet@ {
            Some(Errors::InvalidTokenOwner)
        } else if self.token_metadata_program@ != token_metadata_program_id() {
            Some(Errors::InvalidMetadataProgram)
        } else if self.master_edtion_nft_vault.owner@ != self.nft_authority@ {
            Some(Errors::InvalidTokenOwner)
        } else if self.master_edtion_nft_vault.mint@ != self.nft_kind.nft_mint@ {
            Some(Errors::InvalidTokenMint)
        } else {
            None
        }
    }

    /// The supply of the master edition, as its account records it.
    pub open spec fn supply(&self) -> int {
        master_edition_supply(self.master_edition_data@)
    }

    /// The mint of one token of the new edition into the user's token account.
    pub open spec fn spec_mint_to(&self) -> TokenMintTo {
        TokenMintTo {
            mint: self.new_mint,
            to: self.user_token_account.key,
            authority: self.user_wallet,
            amount: 1,
        }
    }

    /// The accounts handed to the edition call, in order.
    pub open spec fn spec_edition_accounts(&self) -> Seq<Pubkey> {
        seq![
            self.token_metadata_program,
            self.new_metadata,
            self.new_edition,
            self.master_edition,
            self.new_mint,
            self.edition_marker,
            self.user_wallet,
            self.nft_authority,
            self.master_edtion_nft_vault.key,
            self.user_wallet,
            self.master_edition_metadata,
            self.master_edtion_nft_mint,
            self.token_program,
            self.system_program,
        ]
    }

    /// The marker account of edition number `edition` of this master edition, with its
    /// bump seed, under the token metadata program.
    pub open spec fn spec_edition_marker(&self, edition: u64) -> Option<(Seq<u8>, u8)> {
        edition_marker(self.token_metadata_program@, self.master_edtion_nft_mint@, edition)
    }

    /// Both program addresses that a mint of edition number `edition` needs exist: the
    /// escrow's, under `program_id`, and the edition marker's.
    pub open spec fn addresses_exist(&self, program_id: Seq<u8>, edition: u64) -> bool {
        &&& authority_address(program_id) is Some
        &&& self.spec_edition_marker(edition) is Some
    }

    /// `ix` mints edition number `edition` of the master edition to the user: the user
    /// pays and owns the new mint, the escrow holds the master edition token.
    pub open spec fn is_edition_instruction(&self, ix: Instruction, edition: u64) -> bool {
        is_mint_new_edition_instruction(
            ix,
            self.token_metadata_program@,
            self.new_metadata@,
            self.new_edition@,
            self.master_edition@,
            self.new_mint@,
            self.user_wallet@,
            self.user_wallet@,
            self.nft_authority@,
            self.master_edtion_nft_vault.key@,
            self.user_wallet@,
            self.master_edition_metadata@,
            self.master_edtion_nft_mint@,
            self.spec_edition_marker(edition).unwrap().0,
            edition,
        )
    }

    /// The attribute record of the new edition: owned by the user, of the master
    /// edition's kind, with the attributes chosen at mint.
    pub open spec fn spec_attribute(&self, bump: u8, args: MintEditionArgs) -> NftAttribute {
        NftAttribute {
            user_wallet: self.user_wallet,
            nft_mint: self.new_mint,
            health: args.health,
            mana: args.mana,
            power: args.power,
            nft_kind: self.nft_kind.nft_kind,
            bump,
        }
    }

    /// The accounts after the edition is minted.
    pub open spec fn minted(&self, bump: u8, args: MintEditionArgs) -> MintEdition {
        MintEdition { nft_attribute: self.spec_attribute(bump, args), ..*self }
    }

    /// Settles the instruction once the edition call of the plan has been made: the
    /// instruction succeeds whether or not that call succeeded, and the attribute record
    /// `process` wrote is kept either way.
    pub fn settle_edition_call(&mut self, edition_call_succeeded: bool) -> (r: Result<(), Errors>)
        ensures
            r is Ok,
            *final(self) == *old(self),
    {
        Ok(())
    }

    /// Checks the account constraints of the instruction.
    pub fn validate(&self) -> (r: Result<(), Errors>)
        ensures
            match self.constraint_error() {
                Some(e) => r == Err::<(), Errors>(e),
                None => r is Ok,
            },
    {
        if !self.master_edtion_nft_mint.same_key(&self.nft_kind.nft_mint) {
            return Err(Errors::InvalidTokenMint);
        }
        if !self.user_token_account.owner.same_key(&self.user_wallet) {
            return Err(Errors::InvalidTokenOwner);
        }
        if !self.token_metadata_program.same_key(&token_metadata_program()) {
            return Err(Errors::InvalidMetadataProgram);
        }
        if !self.master_edtion_nft_vault.owner.same_key(&self.nft_authority) {
            return Err(Errors::InvalidTokenOwner);
        }
        if !self.master_edtion_nft_vault.mint.same_key(&self.nft_kind.nft_mint) {
            return Err(Errors::InvalidTokenMint);
        }
        Ok(())
    }

    /// Mints the next edition of the master edition to the user and records its
    /// attributes. The edition number is the recorded supply plus one; a supply at
    /// `u64::MAX` is refused. `Ok(None)`, with nothing changed, when no bump seed
    /// derives the escrow's program address under `program_id` or the marker account
    /// of the new edition.
    pub fn process(&mut self, pda_bump: u8, args: MintEditionArgs, program_id: &Pubkey) -> (r:
        Result<Option<MintEditionPlan>, Errors>)
        requires
            old(self).master_edition_data@.len() >= 9,
        ensures
            match r {
                Err(e) => {
                    &&& e == Errors::MathOverflow
                    &&& old(self).supply() == u64::MAX
                    &&& *final(self) == *old(self)
                },
                Ok(None) => {
                    &&& old(self).supply() < u64::MAX
                    &&& !old(self).addresses_exist(program_id@, (old(self).supply() + 1) as u64)
                    &&& *final(self) == *old(self)
                },
                Ok(Some(plan)) => {
                    &&& old(self).supply() < u64::MAX
                    &&& old(self).addresses_exist(program_id@, (old(self).supply() + 1) as u64)
                    &&& plan.authority_bump == authority_address(program_id@).unwrap().1
                    &&& plan.mint_to == old(self).spec_mint_to()
                    &&& old(self).is_edition_instruction(
                        plan.edition_instruction,
                        (old(self).supply() + 1) as u64,
                    )
                    &&& plan.edition_accounts@ == old(self).spec_edition_accounts()
                    &&& *final(self) == old(self).minted(pda_bump, args)
                    &&& final(self).nft_attribute.health == args.health
                    &&& final(self).nft_attribute.mana == args.mana
                    &&& final(self).nft_attribute.power == args.power
                    &&& final(self).nft_attribute.nft_kind == old(self).nft_kind.nft_kind
                    &&& final(self).nft_attribute.user_wallet == old(self).user_wallet
                    &&& final(self).nft_attribute.nft_mint == old(self).new_mint
                    &&& final(self).nft_attribute.bump == pda_bump
                    &&& plan.mint_to.mint == old(self).new_mint
                    &&& plan.mint_to.to == old(self).user_token_account.key
                    &&& plan.mint_to.authority == old(self).user_wallet
                    &&& plan.mint_to.amount == 1
                },
            },
    {
        let supply = supply_off_master_edition(self.master_edition_data.as_slice()).unwrap();
        let edition = match supply.checked_add(1) {
            Some(e) => e,
            None => return Err(Errors::MathOverflow),
        };
        let mint_to = TokenMintTo {
            mint: self.new_mint,
            to: self.user_token_account.key,
            authority: self.user_wallet,
            amount: 1,
        };
        let authority_seeds = vec![slice_to_vec(NFT_AUTHORITY.as_bytes())];
        proof {
            lemma_bytes_deep_view(authority_seeds@[0]);
        }
        assert(authority_seeds.deep_view() =~= seq![NFT_AUTHORITY.spec_bytes()]);
        let authority_bump = match try_find_program_address(&authority_seeds, program_id) {
            Some((_, bump)) => bump,
            None => return Ok(None),
        };
        let marker_seeds = edition_marker_seeds_of(
            &self.token_metadata_program,
            &self.master_edtion_nft_mint,
            edition,
        );
        if try_find_program_address(&marker_seeds, &self.token_metadata_program).is_none() {
            return Ok(None);
        }
        let edition_instruction = mint_new_edition_instruction(
            self.token_metadata_program,
            self.new_metadata,
            self.new_edition,
            self.master_edition,
            self.new_mint,
            self.user_wallet,
            self.user_wallet,
            self.nft_authority,
            self.master_edtion_nft_vault.key,
            self.user_wallet,
            self.master_edition_metadata,
            self.master_edtion_nft_mint,
            edition,
        );
        let edition_accounts = vec![
            self.token_metadata_program,
            self.new_metadata,
            self.new_edition,
            self.master_edition,
            self.new_mint,
            self.edition_marker,
            self.user_wallet,
            self.nft_authority,
            self.master_edtion_nft_vault.key,
            self.user_wallet,
            self.master_edition_metadata,
            self.master_edtion_nft_mint,
            self.token_program,
            self.system_program,
        ];
        self.nft_attribute = NftAttribute {
            user_wallet: self.user_wallet,
            nft_mint: self.new_mint,
            health: args.health,
            mana: args.mana,
            power: args.power,
            nft_kind: self.nft_kind.nft_kind,
            bump: pda_bump,
        };
        Ok(Some(MintEditionPlan { mint_to, edition_instruction, edition_accounts, authority_bump }))
    }
}

} // verus!
