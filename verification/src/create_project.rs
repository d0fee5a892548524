use vstd::prelude::*;

use crate::layout::{TAG_LEN, u16_bytes, u8_bytes};
use crate::pubkey::Pubkey;
use crate::traits::FixedSpace;

verus! {

/// A game project: who runs it, its two escrow addresses and their bumps.
#[derive(Clone, Copy, Debug, PartialEq, Eq)]
pub struct SdkProject {
    pub authority: Pubkey,
    /// Holds the item mints' authority and the payments for new items.
    pub escrow: Pubkey,
    /// Holds the item tokens offered on the market.
    pub market_escrow: Pubkey,
    pub uid: Pubkey,
    pub bump: u8,
    pub escrow_bump: u8,
    pub market_escrow_bump: u8,
    pub secondary_sells_tax_percent_basis_points: u16,
    pub subscription_level: u8,
}

impl SdkProject {
    /// The bytes the record is stored as, after its type tag.
    pub open spec fn encoding(self) -> Seq<u8> {
        self.authority@ + self.escrow@ + self.market_escrow@ + self.uid@
            + u8_bytes(self.bump) + u8_bytes(self.escrow_bump) + u8_bytes(self.market_escrow_bump)
            + u16_bytes(self.secondary_sells_tax_percent_basis_points)
            + u8_bytes(self.subscription_level)
    }

    pub open spec fn is_zeroed(self) -> bool {
        &&& self.authority@ == Seq::new(32, |i: int| 0u8)
        &&& self.escrow@ == Seq::new(32, |i: int| 0u8)
        &&& self.market_escrow@ == Seq::new(32, |i: int| 0u8)
        &&& self.uid@ == Seq::new(32, |i: int| 0u8)
        &&& self.bump == 0
        &&& self.escrow_bump == 0
        &&& self.market_escrow_bump == 0
        &&& self.secondary_sells_tax_percent_basis_points == 0
        &&& self.subscription_level == 0
    }
}

impl Default for SdkProject {
    /// A project with every field zero.
    fn default() -> (p: SdkProject)
        ensures
            p.is_zeroed(),
    {
        SdkProject {
            authority: Pubkey::zero(),
            escrow: Pubkey::zero(),
            market_escrow: Pubkey::zero(),
            uid: Pubkey::zero(),
            bump: 0,
            escrow_bump: 0,
            market_escrow_bump: 0,
            secondary_sells_tax_percent_basis_points: 0,
            subscription_level: 0,
        }
    }
}

impl FixedSpace for SdkProject {
    /// Every project record's encoding, with its type tag, fits in this space.
    fn space() -> (n: usize)
        ensures
            n == 146,
            forall|p: SdkProject| #[trigger] p.encoding().len() + TAG_LEN <= n,
    {
        106 + 40
    }
}

/// What creating a project reads and writes: the address that identifies
/// the project, the payer, the project's authority, the new project record
/// and its address, and the project's two escrow addresses.
#[derive(Clone, Copy, Debug, PartialEq, Eq)]
pub struct CreateProject {
    pub uid: Pubkey,
    pub signer: Pubkey,
    pub authority: Pubkey,
    pub project_key: Pubkey,
    pub project: SdkProject,
    pub escrow: Pubkey,
    pub market_escrow: Pubkey,
}

impl CreateProject {
    /// The record a new project holds: the given addresses and bumps, the
    /// other fields as they were.
    pub open spec fn spec_initialized(self, project_bump: u8, escrow_bump: u8, market_escrow_bump: u8) -> SdkProject {
        SdkProject {
            uid: self.uid,
            authority: self.authority,
            escrow: self.escrow,
            market_escrow: self.market_escrow,
            bump: project_bump,
            escrow_bump: escrow_bump,
            market_escrow_bump: market_escrow_bump,
            ..self.project
        }
    }
}

} // verus!
