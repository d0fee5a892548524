use vstd::prelude::*;

use crate::cpi::TokenAccount;
use crate::create_project::SdkProject;
use crate::market_list_item::Listing;
use crate::pubkey::Pubkey;

verus! {

/// The accounts of taking an offer off the market: the seller, the project,
/// the item mint, the listing, the project's market escrow, the listing's
/// escrow token account and the account the items go back to.
#[derive(Clone, Copy, Debug, PartialEq, Eq)]
pub struct CloseListing {
    pub seller: Pubkey,
    pub project: SdkProject,
    pub mint: Pubkey,
    pub listing_info: Listing,
    pub market_escrow: Pubkey,
    pub market_escrow_token_account: TokenAccount,
    pub buyer_item_token_account: TokenAccount,
}

} // verus!
