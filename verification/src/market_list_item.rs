use vstd::prelude::*;

use crate::cpi::{Plan, TokenInstruction};
use crate::create_project::SdkProject;
use crate::error::{HandlerError, SdkError};
use crate::layout::{TAG_LEN, u64_bytes};
use crate::pubkey::Pubkey;
use crate::traits::FixedSpace;

verus! {

/// An offer on the market: `sale_amount` item tokens of `mint`, held in
/// `market_escrow_token_account`, for `sale_price_total` tokens of
/// `payment_token_mint`, to be paid to `seller`.
#[derive(Clone, Copy, Debug, PartialEq, Eq)]
pub struct Listing {
    pub project: Pubkey,
    pub mint: Pubkey,
    /// The one who may withdraw or edit the offer.
    pub seller: Pubkey,
    pub sale_amount: u64,
    pub sale_price_total: u64,
    /// Recorded as zero; not in use.
    pub sale_expire_at: u64,
    pub payment_token_mint: Pubkey,
    pub market_escrow_token_account: Pubkey,
}

/// The borsh encoding of a listing's fields, in declaration order.
pub open spec fn listing_fields_encoding(
    project: Seq<u8>,
    mint: Seq<u8>,
    seller: Seq<u8>,
    sale_amount: u64,
    sale_price_total: u64,
    sale_expire_at: u64,
    payment_token_mint: Seq<u8>,
    market_escrow_token_account: Seq<u8>,
) -> Seq<u8> {
    project + mint + seller + u64_bytes(sale_amount) + u64_bytes(sale_price_total)
        + u64_bytes(sale_expire_at) + payment_token_mint + market_escrow_token_account
}

/// Calls `borsh::to_vec` on the tuple of a listing's field values. Borsh
/// writes a tuple's elements one after the other, a `[u8; 32]` as its 32
/// bytes and a `u64` as its 8 little-endian bytes (`to_le_bytes`); writing
/// into a `Vec<u8>` does not fail, so the result is always there.
#[verifier::external_body]
fn borsh_to_vec_listing_fields(
    fields: &([u8; 32], [u8; 32], [u8; 32], u64, u64, u64, [u8; 32], [u8; 32]),
) -> (r: Option<Vec<u8>>)
    ensures
        r is Some,
        r matches Some(b) ==> b@ == listing_fields_encoding(
            fields.0@, fields.1@, fields.2@, fields.3, fields.4, fields.5, fields.6@, fields.7@,
        ),
{
    borsh::to_vec(fields).ok()
}

impl Listing {
    /// The bytes the record is stored as, after its type tag.
    pub open spec fn encoding(self) -> Seq<u8> {
        listing_fields_encoding(
            self.project@, self.mint@, self.seller@, self.sale_amount, self.sale_price_total,
            self.sale_expire_at, self.payment_token_mint@, self.market_escrow_token_account@,
        )
    }

    pub proof fn lemma_encoding_len(self)
        ensures
            self.encoding().len() == 184,
    {
    }

    /// The record's bytes, as borsh writes them.
    pub fn to_bytes(&self) -> (b: Vec<u8>)
        ensures
            b@ == self.encoding(),
            b@.len() == 184,
    {
        let fields = (
            self.project.to_bytes(),
            self.mint.to_bytes(),
            self.seller.to_bytes(),
            self.sale_amount,
            self.sale_price_total,
            self.sale_expire_at,
            self.payment_token_mint.to_bytes(),
            self.market_escrow_token_account.to_bytes(),
        );
        proof { self.lemma_encoding_len(); }
        match borsh_to_vec_listing_fields(&fields) {
            Some(b) => b,
            None => Vec::new(),
        }
    }

    pub open spec fn is_zeroed(self) -> bool {
        &&& self.project@ == Seq::new(32, |i: int| 0u8)
        &&& self.mint@ == Seq::new(32, |i: int| 0u8)
        &&& self.seller@ == Seq::new(32, |i: int| 0u8)
        &&& self.sale_amount == 0
        &&& self.sale_price_total == 0
        &&& self.sale_expire_at == 0
        &&& self.payment_token_mint@ == Seq::new(32, |i: int| 0u8)
        &&& self.market_escrow_token_account@ == Seq::new(32, |i: int| 0u8)
    }
}

impl Default for Listing {
    /// A listing with every field zero.
    fn default() -> (l: Listing)
        ensures
            l.is_zeroed(),
    {
        Listing {
            project: Pubkey::zero(),
            mint: Pubkey::zero(),
            seller: Pubkey::zero(),
            sale_amount: 0,
            sale_price_total: 0,
            sale_expire_at: 0,
            payment_token_mint: Pubkey::zero(),
            market_escrow_token_account: Pubkey::zero(),
        }
    }
}

impl FixedSpace for Listing {
    /// The length of the default listing's encoding, plus the type tag;
    /// every listing's encoding has that length.
    fn space() -> (n: usize)
        ensures
            n == 192,
            forall|l: Listing| #[trigger] l.encoding().len() + TAG_LEN == n,
    {
        let pd = Listing::default();
        let serialized_object = pd.to_bytes();
        assert forall|l: Listing| #[trigger] l.encoding().len() + TAG_LEN == 192 by {
            l.lemma_encoding_len();
        }
        return serialized_object.len() + 8;
    }
}

/// What putting items on the market reads and writes: the seller, the
/// project and its address, the item mint, the new listing record, the
/// project's market escrow, the escrow token account made for this listing,
/// the mint the seller wants to be paid in, and the seller's item tokens.
#[derive(Clone, Copy, Debug, PartialEq, Eq)]
pub struct CreateListing {
    pub seller: Pubkey,
    pub project_key: Pubkey,
    pub project: SdkProject,
    pub mint: Pubkey,
    pub listing_info: Listing,
    pub market_escrow: Pubkey,
    pub market_escrow_token_account: Pubkey,
    pub payment_token_mint: Pubkey,
    pub seller_item_token_account: Pubkey,
}

impl CreateListing {
    /// The market escrow given is the project's.
    pub open spec fn spec_escrow_ok(self) -> bool {
        self.project.market_escrow@ == self.market_escrow@
    }

    /// The listing a successful call records.
    pub open spec fn spec_listing(self, total_price: u64, amount: u64) -> Listing {
        Listing {
            project: self.project_key,
            mint: self.mint,
            seller: self.seller,
            sale_amount: amount,
            sale_price_total: total_price,
            sale_expire_at: 0,
            payment_token_mint: self.payment_token_mint,
            market_escrow_token_account: self.market_escrow_token_account,
        }
    }

    /// The seller's `amount` item tokens go into the listing's escrow account.
    pub open spec fn spec_escrow_call(self, amount: u64) -> TokenInstruction {
        TokenInstruction::Transfer {
            from: self.seller_item_token_account,
            to: self.market_escrow_token_account,
            authority: self.seller,
            amount: amount,
            signer: None,
        }
    }

    /// Offer `amount` item tokens for `total_price`: refuse a market escrow
    /// that is not the project's; else move the tokens into escrow and
    /// record the listing. The expiry argument is not used.
    pub fn handler(&mut self, total_price: u64, amount: u64, _expire_at: u64) -> (plan: Plan)
        ensures
            !old(self).spec_escrow_ok() ==> plan.result == Err::<(), HandlerError>(HandlerError::Sdk(SdkError::MarketEscrowError))
                && plan.calls@.len() == 0 && *final(self) == *old(self),
            old(self).spec_escrow_ok() ==> plan.result is Ok
                && plan.calls@ == seq![old(self).spec_escrow_call(amount)]
                && *final(self) == (CreateListing { listing_info: old(self).spec_listing(total_price, amount), ..*old(self) }),
    {
        if !self.project.market_escrow.same_as(&self.market_escrow) {
            return Plan::refused(HandlerError::Sdk(SdkError::MarketEscrowError));
        }
        let mut calls: Vec<TokenInstruction> = Vec::new();
        calls.push(TokenInstruction::Transfer {
            from: self.seller_item_token_account,
            to: self.market_escrow_token_account,
            authority: self.seller,
            amount,
            signer: None,
        });
        self.listing_info.project = self.project_key;
        self.listing_info.mint = self.mint;
        self.listing_info.seller = self.seller;
        self.listing_info.market_escrow_token_account = self.market_escrow_token_account;
        self.listing_info.payment_token_mint = self.payment_token_mint;
        self.listing_info.sale_price_total = total_price;
        self.listing_info.sale_amount = amount;
        self.listing_info.sale_expire_at = 0;
        Plan::accepted(calls)
    }
}

} // verus!
