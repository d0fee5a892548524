use vstd::prelude::*;

use crate::cpi::{EscrowKind, PdaSigner, Plan, TokenAccount, TokenInstruction};
use crate::create_project::SdkProject;
use crate::error::{HandlerError, SdkError};
use crate::market_list_item::Listing;
use crate::pubkey::Pubkey;

verus! {

/// What buying a market offer reads: the buyer, the seller, the project and
/// its address, the item mint, the listing, the project's market escrow, the
/// listing's escrow token account, the payment mint, the seller's payment
/// account, the buyer's payment account and the buyer's item account.
#[derive(Clone, Copy, Debug, PartialEq, Eq)]
pub struct BuyFromListing {
    pub buyer: Pubkey,
    pub seller: Pubkey,
    pub project_key: Pubkey,
    pub project: SdkProject,
    pub mint: Pubkey,
    pub listing_info: Listing,
    pub market_escrow: Pubkey,
    pub market_escrow_token_account: TokenAccount,
    pub payment_token_mint: Pubkey,
    pub seller_payment_token_account: TokenAccount,
    pub payment_buyer_token_account: TokenAccount,
    pub buyer_item_token_account: TokenAccount,
}

impl BuyFromListing {
    /// The market escrow given is the project's.
    pub open spec fn spec_escrow_ok(self) -> bool {
        self.project.market_escrow@ == self.market_escrow@
    }

    /// The accounts given are the ones the listing names: its seller, its
    /// escrow token account, a buyer paying in its payment mint, and a
    /// seller's payment account owned by the seller in that mint.
    pub open spec fn spec_listing_ok(self) -> bool {
        let l = self.listing_info;
        &&& l.seller@ == self.seller@
        &&& l.market_escrow_token_account@ == self.market_escrow_token_account.key@
        &&& l.payment_token_mint@ == self.payment_buyer_token_account.mint@
        &&& self.seller_payment_token_account.owner@ == l.seller@
        &&& self.seller_payment_token_account.mint@ == l.payment_token_mint@
    }

    /// Why the purchase is refused: a market escrow that is not the
    /// project's comes first, then any account that does not match the listing.
    pub open spec fn spec_refusal(self) -> Option<HandlerError> {
        if !self.spec_escrow_ok() {
            Some(HandlerError::Sdk(SdkError::MarketEscrowError))
        } else if !self.spec_listing_ok() {
            Some(HandlerError::Sdk(SdkError::ListingInfoHacked))
        } else {
            None
        }
    }

    /// The project's market escrow, signing with the project's recorded bump.
    pub open spec fn spec_market_signer(self) -> PdaSigner {
        PdaSigner { kind: EscrowKind::MarketEscrow, project: self.project_key, bump: self.project.market_escrow_bump }
    }

    /// An accepted purchase pays the seller the listed price, hands the
    /// listed items from escrow to the buyer, and closes the escrow account
    /// in the seller's favour.
    pub open spec fn spec_calls(self) -> Seq<TokenInstruction> {
        seq![
            TokenInstruction::Transfer {
                from: self.payment_buyer_token_account.key,
                to: self.seller_payment_token_account.key,
                authority: self.buyer,
                amount: self.listing_info.sale_price_total,
                signer: None,
            },
            TokenInstruction::Transfer {
                from: self.market_escrow_token_account.key,
                to: self.buyer_item_token_account.key,
                authority: self.market_escrow,
                amount: self.listing_info.sale_amount,
                signer: Some(self.spec_market_signer()),
            },
            TokenInstruction::CloseAccount {
                account: self.market_escrow_token_account.key,
                destination: self.seller,
                authority: self.market_escrow,
                signer: Some(self.spec_market_signer()),
            },
        ]
    }

    /// Buy the offer the listing describes.
    pub fn handler(&self) -> (plan: Plan)
        ensures
            self.spec_refusal() matches Some(e) ==> plan.result == Err::<(), HandlerError>(e) && plan.calls@.len() == 0,
            self.spec_refusal() is None ==> plan.result is Ok && plan.calls@ == self.spec_calls(),
    {
        let listing_info = &self.listing_info;
        let project = &self.project;

        if !project.market_escrow.same_as(&self.market_escrow) {
            return Plan::refused(HandlerError::Sdk(SdkError::MarketEscrowError));
        }
        if !listing_info.seller.same_as(&self.seller) {
            return Plan::refused(HandlerError::Sdk(SdkError::ListingInfoHacked));
        }
        if !listing_info.market_escrow_token_account.same_as(&self.market_escrow_token_account.key) {
            return Plan::refused(HandlerError::Sdk(SdkError::ListingInfoHacked));
        }
        if !listing_info.payment_token_mint.same_as(&self.payment_buyer_token_account.mint) {
            return Plan::refused(HandlerError::Sdk(SdkError::ListingInfoHacked));
        }
        if !self.seller_payment_token_account.owner.same_as(&listing_info.seller)
            || !self.seller_payment_token_account.mint.same_as(&listing_info.payment_token_mint) {
            return Plan::refused(HandlerError::Sdk(SdkError::ListingInfoHacked));
        }

        let signer = PdaSigner {
            kind: EscrowKind::MarketEscrow,
            project: self.project_key,
            bump: project.market_escrow_bump,
        };
        let mut calls: Vec<TokenInstruction> = Vec::new();
        calls.push(TokenInstruction::Transfer {
            from: self.payment_buyer_token_account.key,
            to: self.seller_payment_token_account.key,
            authority: self.buyer,
            amount: listing_info.sale_price_total,
            signer: None,
        });
        calls.push(TokenInstruction::Transfer {
            from: self.market_escrow_token_account.key,
            to: self.buyer_item_token_account.key,
            authority: self.market_escrow,
            amount: listing_info.sale_amount,
            signer: Some(signer),
        });
        calls.push(TokenInstruction::CloseAccount {
            account: self.market_escrow_token_account.key,
            destination: self.seller,
            authority: self.market_escrow,
            signer: Some(signer),
        });
        Plan::accepted(calls)
    }
}

} // verus!
