pub mod escrow_master_nft;
pub mod init_user_reputation;
pub mod mint_edition;
pub mod stake;

pub use escrow_master_nft::{EscrowMasterNft, EscrowMasterNftArgs};
pub use init_user_reputation::InitUserReputation;
pub use mint_edition::{MintEdition, MintEditionArgs, MintEditionPlan};
pub use stake::Stake;
