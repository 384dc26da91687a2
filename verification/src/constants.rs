use vstd::prelude::*;

verus! {

/// Seed of the program address that holds the escrowed master editions.
pub const NFT_AUTHORITY: &'static str = "nft_authority";

/// Seed (with the master edition mint) of the record of a master edition's kind.
pub const NFT_KIND: &'static str = "nft_kind";

/// Seed (with the edition mint) of the record of an edition's attributes.
pub const ATTRIBUTE: &'static str = "attribute";

/// Seed (with the edition mint) of the record of a stake.
pub const NFT_STAKE: &'static str = "nft_stake";

/// Seed (with the user wallet) of a user's reputation record.
pub const USER_REPUTATION_INFO: &'static str = "user_reputation_info";

/// The kind of a strength master edition.
pub const STRENGTH: u8 = 0;

/// The kind of an agility master edition.
pub const AGILITY: u8 = 1;

/// The kind of an intelligence master edition.
pub const INTELLIGENCE: u8 = 2;

} // verus!
