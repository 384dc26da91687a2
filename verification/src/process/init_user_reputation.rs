use vstd::prelude::*;

use crate::error::Errors;
use crate::pubkey::Pubkey;
use crate::states::ReputationPointInfo;

verus! {

/// The accounts of the instruction that opens a user's reputation record.
#[derive(Clone, Copy, Debug, PartialEq, Eq)]
pub struct InitUserReputation {
    pub user_wallet: Pubkey,
    /// the reputation record, filled in by this instruction
    pub reputation_info: ReputationPointInfo,
}

impl InitUserReputation {
    /// A fresh reputation record of the user: no point yet.
    pub open spec fn opened(&self, bump: u8) -> InitUserReputation {
        InitUserReputation {
            reputation_info: ReputationPointInfo {
                user_wallet: self.user_wallet,
                reputation_point: 0,
                bump,
            },
            ..*self
        }
    }

    /// Opens the user's reputation record at zero points.
    pub fn process(&mut self, bump: u8) -> (r: Result<(), Errors>)
        ensures
            r is Ok,
            *final(self) == old(self).opened(bump),
            final(self).reputation_info.reputation_point == 0,
            final(self).reputation_info.user_wallet == old(self).user_wallet,
            final(self).reputation_info.bump == bump,
            final(self).user_wallet == old(self).user_wallet,
    {
        self.reputation_info = ReputationPointInfo {
            user_wallet: self.user_wallet,
            reputation_point: 0,
            bump,
        };
        Ok(())
    }
}

} // verus!
