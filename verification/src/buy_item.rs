use vstd::prelude::*;

use crate::cpi::{EscrowKind, PdaSigner, Plan, TokenAccount, TokenInstruction};
use crate::create_nft::SdkItemMeta;
use crate::create_project::SdkProject;
use crate::error::{HandlerError, SdkError};
use crate::pubkey::Pubkey;

verus! {

/// What buying new items reads and writes: the buyer, the project and its
/// address, the project's escrow (the item mint's authority), the item mint,
/// the buyer's item and payment token accounts, the project's payment token
/// account, and the item record.
#[derive(Clone, Copy, Debug, PartialEq, Eq)]
pub struct BuyItem {
    pub signer: Pubkey,
    pub project_key: Pubkey,
    pub project: SdkProject,
    pub mint_authority: Pubkey,
    pub mint: Pubkey,
    pub buyer_item_token_account: Pubkey,
    pub buyer_payment_token_account: TokenAccount,
    pub escrow_payment_token_account: TokenAccount,
    pub mint_meta: SdkItemMeta,
}

impl BuyItem {
    /// The price of `items` items, as a number.
    pub open spec fn spec_payment(self, items: u64) -> int {
        self.mint_meta.price * items
    }

    /// Why a purchase of `items` items is refused, checked in this order:
    /// the item is sold out; the price overflows; the buyer has too little;
    /// the buyer's or the escrow's payment account holds the wrong token;
    /// the escrow's payment account is not owned by the project's escrow.
    pub open spec fn spec_refusal(self, items: u64) -> Option<HandlerError> {
        let meta = self.mint_meta;
        if meta.items_count >= meta.max_items {
            Some(HandlerError::Sdk(SdkError::AllItemsAreSold))
        } else if self.spec_payment(items) > u64::MAX {
            Some(HandlerError::Sdk(SdkError::PriceError))
        } else if self.spec_payment(items) > self.buyer_payment_token_account.amount {
            Some(HandlerError::Sdk(SdkError::NotEnoughFunds))
        } else if self.buyer_payment_token_account.mint@ != meta.price_mint@ {
            Some(HandlerError::Deprecated)
        } else if self.escrow_payment_token_account.mint@ != meta.price_mint@ {
            Some(HandlerError::Deprecated)
        } else if self.escrow_payment_token_account.owner@ != self.project.escrow@ {
            Some(HandlerError::Sdk(SdkError::WalletAccountIsWrong))
        } else {
            None
        }
    }

    /// The escrow of the project, signing with the project's recorded bump.
    pub open spec fn spec_escrow_signer(self) -> PdaSigner {
        PdaSigner { kind: EscrowKind::Escrow, project: self.project_key, bump: self.project.escrow_bump }
    }

    /// An accepted purchase pays the price into the project's payment
    /// account, then mints `items` item tokens to the buyer.
    pub open spec fn spec_calls(self, items: u64) -> Seq<TokenInstruction> {
        seq![
            TokenInstruction::Transfer {
                from: self.buyer_payment_token_account.key,
                to: self.escrow_payment_token_account.key,
                authority: self.signer,
                amount: self.spec_payment(items) as u64,
                signer: None,
            },
            TokenInstruction::MintTo {
                mint: self.mint,
                to: self.buyer_item_token_account,
                authority: self.mint_authority,
                amount: items,
                signer: Some(self.spec_escrow_signer()),
            },
        ]
    }

    /// The accounts after an accepted purchase: one more sale counted.
    pub open spec fn spec_after(self) -> BuyItem {
        BuyItem {
            mint_meta: SdkItemMeta { items_count: (self.mint_meta.items_count + 1) as u64, ..self.mint_meta },
            ..self
        }
    }

    /// Buy `items` items of the kind the item record describes.
    pub fn handler(&mut self, items: u64) -> (plan: Plan)
        ensures
            old(self).spec_refusal(items) matches Some(e) ==> plan.result == Err::<(), HandlerError>(e)
                && plan.calls@.len() == 0 && *final(self) == *old(self),
            old(self).spec_refusal(items) is None ==> plan.result is Ok
                && plan.calls@ == old(self).spec_calls(items)
                && *final(self) == old(self).spec_after(),
    {
        let expected_payment = self.mint_meta.price.checked_mul(items);

        if self.mint_meta.items_count >= self.mint_meta.max_items {
            return Plan::refused(HandlerError::Sdk(SdkError::AllItemsAreSold));
        }
        let payment = match expected_payment {
            Some(p) => p,
            None => {
                return Plan::refused(HandlerError::Sdk(SdkError::PriceError));
            },
        };
        if payment > self.buyer_payment_token_account.amount {
            return Plan::refused(HandlerError::Sdk(SdkError::NotEnoughFunds));
        }
        if !self.buyer_payment_token_account.mint.same_as(&self.mint_meta.price_mint) {
            return Plan::refused(HandlerError::Deprecated);
        }
        if !self.escrow_payment_token_account.mint.same_as(&self.mint_meta.price_mint) {
            return Plan::refused(HandlerError::Deprecated);
        }
        if !self.escrow_payment_token_account.owner.same_as(&self.project.escrow) {
            return Plan::refused(HandlerError::Sdk(SdkError::WalletAccountIsWrong));
        }

        self.mint_meta.items_count = self.mint_meta.items_count + 1;

        let mut calls: Vec<TokenInstruction> = Vec::new();
        calls.push(TokenInstruction::Transfer {
            from: self.buyer_payment_token_account.key,
            to: self.escrow_payment_token_account.key,
            authority: self.signer,
            amount: payment,
            signer: None,
        });
        calls.push(TokenInstruction::MintTo {
            mint: self.mint,
            to: self.buyer_item_token_account,
            authority: self.mint_authority,
            amount: items,
            signer: Some(PdaSigner { kind: EscrowKind::Escrow, project: self.project_key, bump: self.project.escrow_bump }),
        });
        Plan::accepted(calls)
    }
}

} // verus!
