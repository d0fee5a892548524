use vstd::prelude::*;
use vstd::string::StringSliceAdditionalSpecFns;

use crate::cpi::{Plan, TokenInstruction};
use crate::error::{HandlerError, SdkError};
use crate::layout::{TAG_LEN, bool_bytes, u64_bytes};
use crate::create_project::SdkProject;
use crate::pubkey::Pubkey;
use crate::traits::FixedSpace;

verus! {

/// Longest item id, in bytes, that an item record can hold.
pub const MAX_ITEM_ID_LEN: usize = 32;

/// An item kind of a game: how many may be sold, how many were sold, its
/// id, and its price in tokens of `price_mint`.
#[derive(Clone, Copy, Debug, PartialEq, Eq)]
pub struct SdkItemMeta {
    pub max_items: u64,
    pub items_count: u64,
    pub max_per_user: u64,
    pub item_id: [u8; 32],
    pub price: u64,
    pub price_mint: Pubkey,
    pub inactive: bool,
}

impl SdkItemMeta {
    /// The bytes the record is stored as, after its type tag.
    pub open spec fn encoding(self) -> Seq<u8> {
        u64_bytes(self.max_items) + u64_bytes(self.items_count) + u64_bytes(self.max_per_user)
            + self.item_id@ + u64_bytes(self.price) + self.price_mint@ + bool_bytes(self.inactive)
    }

    pub open spec fn is_zeroed(self) -> bool {
        &&& self.max_items == 0
        &&& self.items_count == 0
        &&& self.max_per_user == 0
        &&& self.item_id@ == Seq::new(32, |i: int| 0u8)
        &&& self.price == 0
        &&& self.price_mint@ == Seq::new(32, |i: int| 0u8)
        &&& !self.inactive
    }
}

impl Default for SdkItemMeta {
    /// An item record with every field zero and the item active.
    fn default() -> (m: SdkItemMeta)
        ensures
            m.is_zeroed(),
    {
        let m = SdkItemMeta {
            max_items: 0,
            items_count: 0,
            max_per_user: 0,
            item_id: [0u8; 32],
            price: 0,
            price_mint: Pubkey::zero(),
            inactive: false,
        };
        assert(m.item_id@ =~= Seq::new(32, |i: int| 0u8));
        m
    }
}

impl FixedSpace for SdkItemMeta {
    /// Every item record's encoding, with its type tag, takes exactly this space.
    fn space() -> (n: usize)
        ensures
            n == 105,
            forall|m: SdkItemMeta| #[trigger] m.encoding().len() + TAG_LEN == n,
    {
        104 + 1
    }
}

/// A second name for an item's mint.
#[derive(Clone, Copy, Debug, PartialEq, Eq)]
pub struct SdkItemAlias {
    pub mint: Pubkey,
}

impl Default for SdkItemAlias {
    fn default() -> (a: SdkItemAlias)
        ensures
            a.mint@ == Seq::new(32, |i: int| 0u8),
    {
        SdkItemAlias { mint: Pubkey::zero() }
    }
}

/// What creating an item reads and writes: the project, the new item record,
/// the new mint, the payer, the project's escrow (the mint's authority) and
/// the mint of the tokens the item is paid in.
#[derive(Clone, Copy, Debug, PartialEq, Eq)]
pub struct CreateItem {
    pub project: SdkProject,
    pub meta: SdkItemMeta,
    pub mint: Pubkey,
    pub authority: Pubkey,
    pub mint_authority: Pubkey,
    pub price_mint: Pubkey,
}

/// The 32 id bytes after writing `id` over the start of `old`.
pub open spec fn spec_write_id(old: Seq<u8>, id: Seq<u8>) -> Seq<u8> {
    Seq::new(32, |i: int| if i < id.len() { id[i] } else { old[i] })
}

impl CreateItem {
    /// The mint an item creation sets up first: no decimals, the project's
    /// escrow as authority, no freeze authority.
    pub open spec fn spec_mint_call(self) -> TokenInstruction {
        TokenInstruction::InitializeMint {
            mint: self.mint,
            decimals: 0,
            mint_authority: self.mint_authority,
            freeze_authority: None,
        }
    }

    /// Whether `meta` is the item record after a successful creation with
    /// these arguments: the limits and price given, nothing sold, the price
    /// mint of the call, the id written over the start of the old id bytes.
    pub open spec fn spec_created(self, meta: SdkItemMeta, id: Seq<u8>, max_items: u64, max_per_user: u64, price_per_item: u64) -> bool {
        &&& meta.max_items == max_items
        &&& meta.max_per_user == max_per_user
        &&& meta.items_count == 0
        &&& meta.price == price_per_item
        &&& meta.price_mint == self.price_mint
        &&& meta.item_id@ == spec_write_id(self.meta.item_id@, id)
        &&& meta.inactive == self.meta.inactive
    }

    /// Set up the item record from the arguments, or refuse an id longer
    /// than the record holds; the record is left as it was when refused.
    pub(crate) fn fill_meta(&mut self, item_id: &str, max_items: u64, max_per_user: u64, price_per_item: u64) -> (r: Result<(), HandlerError>)
        ensures
            item_id.spec_bytes().len() > MAX_ITEM_ID_LEN ==> r == Err::<(), HandlerError>(HandlerError::Sdk(SdkError::ObjectIdTooLong))
                && *final(self) == *old(self),
            item_id.spec_bytes().len() <= MAX_ITEM_ID_LEN ==> r is Ok
                && old(self).spec_created(final(self).meta, item_id.spec_bytes(), max_items, max_per_user, price_per_item)
                && *final(self) == (CreateItem { meta: final(self).meta, ..*old(self) }),
    {
        if item_id.len() > MAX_ITEM_ID_LEN {
            return Err(HandlerError::Sdk(SdkError::ObjectIdTooLong));
        }
        let bytes = item_id.as_bytes();
        let n = bytes.len();
        let ghost old_id = self.meta.item_id@;
        let mut id = self.meta.item_id;
        let mut idx: usize = 0;
        while idx < n
            invariant
                n == bytes@.len(),
                n <= 32,
                idx <= n,
                id@.len() == 32,
                old_id.len() == 32,
                forall|j: int| 0 <= j < idx ==> id@[j] == bytes@[j],
                forall|j: int| idx <= j < 32 ==> id@[j] == old_id[j],
            decreases n - idx,
        {
            id[idx] = bytes[idx];
            idx = idx + 1;
        }
        assert(id@ =~= spec_write_id(old_id, bytes@));
        self.meta.max_items = max_items;
        self.meta.max_per_user = max_per_user;
        self.meta.items_count = 0;
        self.meta.price = price_per_item;
        self.meta.price_mint = self.price_mint;
        self.meta.item_id = id;
        Ok(())
    }
}

} // verus!
