//! Properties that hold across the program's instructions.
use vstd::prelude::*;

use crate::buy_item::BuyItem;
use crate::cpi::{EscrowKind, PdaSigner, Plan, TokenInstruction, escrow_seed, market_escrow_seed};
use crate::execution::{Ending, first_failure, spec_commit};
use crate::layout::u64_bytes;
use vstd::arithmetic::power2::pow2;
use crate::create_nft::{CreateItem, SdkItemMeta};
use crate::create_project::{CreateProject, SdkProject};
use crate::market_list_item::Listing;
use crate::error::{HandlerError, SdkError};
use crate::market_buy_item::BuyFromListing;
use crate::market_list_item::CreateListing;

verus! {

/// A purchase of new items is accepted only while items remain: it counts
/// one more sale, and the count never passes the item's limit.
pub proof fn lemma_purchase_stays_within_supply(acc: BuyItem, items: u64)
    requires
        acc.spec_refusal(items) is None,
    ensures
        acc.mint_meta.items_count < acc.mint_meta.max_items,
        acc.spec_after().mint_meta.items_count == acc.mint_meta.items_count + 1,
        acc.spec_after().mint_meta.max_items == acc.mint_meta.max_items,
        acc.spec_after().mint_meta.items_count <= acc.spec_after().mint_meta.max_items,
{
}

/// Keeping the count within the limit is an invariant of item purchases:
/// whatever the purchase decides, a record within its limit stays so.
pub proof fn lemma_supply_bound_is_invariant(acc: BuyItem, items: u64)
    requires
        acc.mint_meta.items_count <= acc.mint_meta.max_items,
    ensures
        ({
            let next = if acc.spec_refusal(items) is None { acc.spec_after() } else { acc };
            next.mint_meta.items_count <= next.mint_meta.max_items
        }),
{
}

/// An accepted purchase of new items charges exactly the price times the
/// number of items, which the buyer holds, in the item's payment token, into
/// an account the project's escrow owns; and it mints exactly that number of
/// items to the buyer, signed by the project's escrow.
pub proof fn lemma_purchase_charges_price_and_mints_items(acc: BuyItem, items: u64)
    requires
        acc.spec_refusal(items) is None,
    ensures
        acc.spec_calls(items).len() == 2,
        acc.spec_calls(items)[0] matches TokenInstruction::Transfer { from, to, amount, .. }
            && from == acc.buyer_payment_token_account.key
            && to == acc.escrow_payment_token_account.key
            && amount == acc.mint_meta.price * items
            && amount <= acc.buyer_payment_token_account.amount,
        acc.buyer_payment_token_account.mint@ == acc.mint_meta.price_mint@,
        acc.escrow_payment_token_account.mint@ == acc.mint_meta.price_mint@,
        acc.escrow_payment_token_account.owner@ == acc.project.escrow@,
        acc.spec_calls(items)[1] matches TokenInstruction::MintTo { to, amount, signer, .. }
            && to == acc.buyer_item_token_account
            && amount == items
            && signer == Some(acc.spec_escrow_signer()),
        acc.spec_escrow_signer().kind is Escrow,
        acc.spec_escrow_signer().project == acc.project_key,
        acc.spec_escrow_signer().bump == acc.project.escrow_bump,
{
}

/// Buying an offer delivers what listing it recorded: the seller is paid
/// the listed price, and the listed number of items leaves the very escrow
/// account that the listing filled with them, for the buyer.
pub proof fn lemma_listing_then_purchase(
    list: CreateListing,
    total_price: u64,
    amount: u64,
    buy: BuyFromListing,
)
    requires
        list.spec_escrow_ok(),
        buy.listing_info == list.spec_listing(total_price, amount),
        buy.spec_refusal() is None,
    ensures
        list.spec_escrow_call(amount) matches TokenInstruction::Transfer { to, amount: a, .. }
            && to@ == buy.market_escrow_token_account.key@ && a == amount,
        buy.spec_calls()[0] matches TokenInstruction::Transfer { to, amount: a, .. }
            && to == buy.seller_payment_token_account.key && a == total_price,
        buy.seller_payment_token_account.owner@ == list.seller@,
        buy.seller_payment_token_account.mint@ == list.payment_token_mint@,
        buy.spec_calls()[1] matches TokenInstruction::Transfer { from, to, amount: a, .. }
            && from@ == list.market_escrow_token_account@
            && to == buy.buyer_item_token_account.key && a == amount,
        buy.spec_calls()[2] matches TokenInstruction::CloseAccount { account, destination, .. }
            && account@ == list.market_escrow_token_account@ && destination@ == list.seller@,
{
}

/// Creating an item in a fresh record stores its id so that it reads back:
/// the id's bytes first, zero bytes after.
pub proof fn lemma_item_id_reads_back(
    ctx: CreateItem,
    meta: SdkItemMeta,
    id: Seq<u8>,
    max_items: u64,
    max_per_user: u64,
    price_per_item: u64,
)
    requires
        ctx.meta.is_zeroed(),
        id.len() <= 32,
        ctx.spec_created(meta, id, max_items, max_per_user, price_per_item),
    ensures
        meta.item_id@.take(id.len() as int) == id,
        forall|i: int| id.len() <= i < 32 ==> meta.item_id@[i] == 0,
{
    assert(meta.item_id@.take(id.len() as int) =~= id);
}

/// Each of the program's errors has a number of its own.
pub proof fn lemma_error_codes_distinct(a: SdkError, b: SdkError)
    ensures
        a.spec_code() == b.spec_code() ==> a == b,
{
}

/// Each way an instruction is refused is reported under a number of its own.
pub proof fn lemma_refusal_codes_distinct(a: HandlerError, b: HandlerError)
    ensures
        a.spec_code() == b.spec_code() ==> a == b,
{
}

/// Buying a market offer stops at the first token call that fails and ends
/// with its error: a failed payment leaves the items in escrow and the
/// escrow account open; a failed item transfer leaves the escrow account
/// open. Only when all three calls succeed does the purchase succeed.
pub proof fn lemma_market_purchase_stops_at_failed_call<E>(
    buy: BuyFromListing,
    plan: Plan,
    outcomes: Seq<Result<(), E>>,
)
    requires
        buy.spec_refusal() is None,
        plan.result is Ok,
        plan.calls@ == buy.spec_calls(),
        outcomes.len() == 3,
    ensures
        outcomes[0] is Err ==> plan.spec_made(outcomes) == 1 && plan.spec_ending(outcomes) == Ending::CallFailed(0),
        outcomes[0] is Ok && outcomes[1] is Err ==> plan.spec_made(outcomes) == 2
            && plan.spec_ending(outcomes) == Ending::CallFailed(1),
        outcomes[0] is Ok && outcomes[1] is Ok && outcomes[2] is Err ==> plan.spec_made(outcomes) == 3
            && plan.spec_ending(outcomes) == Ending::CallFailed(2),
        outcomes[0] is Ok && outcomes[1] is Ok && outcomes[2] is Ok ==> plan.spec_made(outcomes) == 3
            && plan.spec_ending(outcomes) == Ending::Succeeded,
{
    reveal_with_fuel(first_failure, 4);
}

/// Buying new items stops at the first token call that fails and ends with
/// its error: a failed payment mints nothing. The sale is counted only when
/// both calls succeed.
pub proof fn lemma_item_purchase_stops_at_failed_call<E>(
    acc: BuyItem,
    items: u64,
    plan: Plan,
    outcomes: Seq<Result<(), E>>,
)
    requires
        acc.spec_refusal(items) is None,
        plan.result is Ok,
        plan.calls@ == acc.spec_calls(items),
        outcomes.len() == 2,
    ensures
        outcomes[0] is Err ==> plan.spec_made(outcomes) == 1 && plan.spec_ending(outcomes) == Ending::CallFailed(0),
        outcomes[0] is Ok && outcomes[1] is Err ==> plan.spec_made(outcomes) == 2
            && plan.spec_ending(outcomes) == Ending::CallFailed(1),
        outcomes[0] is Ok && outcomes[1] is Ok ==> plan.spec_made(outcomes) == 2
            && plan.spec_ending(outcomes) == Ending::Succeeded,
        spec_commit(acc.mint_meta, acc.spec_after().mint_meta, plan.spec_ending(outcomes))
            == if outcomes[0] is Ok && outcomes[1] is Ok { acc.spec_after().mint_meta } else { acc.mint_meta },
{
    reveal_with_fuel(first_failure, 3);
}

/// Listing items keeps its record only once the items are in escrow: if
/// the transfer into escrow fails, the listing ends with that call's error
/// and the listing record stays as it was.
pub proof fn lemma_listing_kept_only_after_escrow<E>(
    list: CreateListing,
    total_price: u64,
    amount: u64,
    plan: Plan,
    outcomes: Seq<Result<(), E>>,
)
    requires
        list.spec_escrow_ok(),
        plan.result is Ok,
        plan.calls@ == seq![list.spec_escrow_call(amount)],
        outcomes.len() == 1,
    ensures
        outcomes[0] is Err ==> plan.spec_ending(outcomes) == Ending::CallFailed(0)
            && spec_commit(list.listing_info, list.spec_listing(total_price, amount), plan.spec_ending(outcomes))
                == list.listing_info,
        outcomes[0] is Ok ==> plan.spec_ending(outcomes) == Ending::Succeeded
            && spec_commit(list.listing_info, list.spec_listing(total_price, amount), plan.spec_ending(outcomes))
                == list.spec_listing(total_price, amount),
{
    reveal_with_fuel(first_failure, 2);
}

/// Creating an item keeps the item record only once the mint is set up: if
/// setting up the mint fails, creation ends with that call's error and the
/// record stays as it was, whatever the id.
pub proof fn lemma_item_kept_only_after_mint<E>(
    ctx: CreateItem,
    meta: SdkItemMeta,
    plan: Plan,
    outcomes: Seq<Result<(), E>>,
)
    requires
        plan.calls@ == seq![ctx.spec_mint_call()],
        outcomes.len() == 1,
    ensures
        outcomes[0] is Err ==> plan.spec_ending(outcomes) == Ending::CallFailed(0)
            && spec_commit(ctx.meta, meta, plan.spec_ending(outcomes)) == ctx.meta,
        outcomes[0] is Ok && plan.result is Ok ==> plan.spec_ending(outcomes) == Ending::Succeeded
            && spec_commit(ctx.meta, meta, plan.spec_ending(outcomes)) == meta,
        outcomes[0] is Ok && plan.result is Err ==> plan.spec_ending(outcomes) == Ending::Refused(plan.result->Err_0)
            && spec_commit(ctx.meta, meta, plan.spec_ending(outcomes)) == ctx.meta,
{
    reveal_with_fuel(first_failure, 2);
}

/// What a purchase of new items decides, from the accounts alone. It is
/// refused, in this order, when the item is sold out; when the price of the
/// items does not fit in 64 bits; when the buyer holds less than that price;
/// when the buyer's or the escrow's payment account holds another token than
/// the item's price mint; when the escrow's payment account is not owned by
/// the project's escrow. Otherwise the buyer's payment account pays the
/// price into the escrow's payment account with the buyer's consent; the
/// item's own mint, with the given mint authority signing as the project's
/// escrow under the project's recorded bump, mints the items into the
/// buyer's item account; and exactly one more sale is counted.
pub proof fn lemma_item_purchase_decision(acc: BuyItem, items: u64)
    ensures
        acc.mint_meta.items_count >= acc.mint_meta.max_items
            ==> acc.spec_refusal(items) == Some(HandlerError::Sdk(SdkError::AllItemsAreSold)),
        acc.mint_meta.items_count < acc.mint_meta.max_items
            && acc.mint_meta.price * items > u64::MAX
            ==> acc.spec_refusal(items) == Some(HandlerError::Sdk(SdkError::PriceError)),
        acc.mint_meta.items_count < acc.mint_meta.max_items
            && acc.mint_meta.price * items <= u64::MAX
            && acc.mint_meta.price * items > acc.buyer_payment_token_account.amount
            ==> acc.spec_refusal(items) == Some(HandlerError::Sdk(SdkError::NotEnoughFunds)),
        acc.mint_meta.items_count < acc.mint_meta.max_items
            && acc.mint_meta.price * items <= acc.buyer_payment_token_account.amount
            && acc.buyer_payment_token_account.mint@ != acc.mint_meta.price_mint@
            ==> acc.spec_refusal(items) == Some(HandlerError::Deprecated),
        acc.mint_meta.items_count < acc.mint_meta.max_items
            && acc.mint_meta.price * items <= acc.buyer_payment_token_account.amount
            && acc.buyer_payment_token_account.mint@ == acc.mint_meta.price_mint@
            && acc.escrow_payment_token_account.mint@ != acc.mint_meta.price_mint@
            ==> acc.spec_refusal(items) == Some(HandlerError::Deprecated),
        acc.mint_meta.items_count < acc.mint_meta.max_items
            && acc.mint_meta.price * items <= acc.buyer_payment_token_account.amount
            && acc.buyer_payment_token_account.mint@ == acc.mint_meta.price_mint@
            && acc.escrow_payment_token_account.mint@ == acc.mint_meta.price_mint@
            && acc.escrow_payment_token_account.owner@ != acc.project.escrow@
            ==> acc.spec_refusal(items) == Some(HandlerError::Sdk(SdkError::WalletAccountIsWrong)),
        acc.spec_refusal(items) is None <==> (
            acc.mint_meta.items_count < acc.mint_meta.max_items
            && acc.mint_meta.price * items <= acc.buyer_payment_token_account.amount
            && acc.buyer_payment_token_account.mint@ == acc.mint_meta.price_mint@
            && acc.escrow_payment_token_account.mint@ == acc.mint_meta.price_mint@
            && acc.escrow_payment_token_account.owner@ == acc.project.escrow@),
        acc.spec_refusal(items) is None ==> acc.spec_calls(items) == seq![
            TokenInstruction::Transfer {
                from: acc.buyer_payment_token_account.key,
                to: acc.escrow_payment_token_account.key,
                authority: acc.signer,
                amount: (acc.mint_meta.price * items) as u64,
                signer: None,
            },
            TokenInstruction::MintTo {
                mint: acc.mint,
                to: acc.buyer_item_token_account,
                authority: acc.mint_authority,
                amount: items,
                signer: Some(PdaSigner { kind: EscrowKind::Escrow, project: acc.project_key, bump: acc.project.escrow_bump }),
            },
        ],
        acc.spec_after() == (BuyItem {
            mint_meta: SdkItemMeta { items_count: (acc.mint_meta.items_count + 1) as u64, ..acc.mint_meta },
            ..acc
        }),
{
}

/// What buying a market offer decides, from the accounts alone. It is
/// refused with the market-escrow error exactly when the market escrow given
/// is not, byte for byte, the project's; otherwise with the listing error
/// exactly when the seller, the escrow token account, the buyer's payment
/// mint, or the seller's payment account (owner and mint) is not the one the
/// listing names. Otherwise the buyer's payment account pays the listed
/// price into the seller's payment account with the buyer's consent; the
/// escrow token account hands the listed amount to the buyer's item account;
/// and the escrow token account is closed in the seller's favour; the last
/// two signed by the market escrow under the project's recorded bump.
pub proof fn lemma_market_purchase_decision(buy: BuyFromListing)
    ensures
        buy.project.market_escrow@ != buy.market_escrow@
            ==> buy.spec_refusal() == Some(HandlerError::Sdk(SdkError::MarketEscrowError)),
        buy.project.market_escrow@ == buy.market_escrow@ && !(
            buy.listing_info.seller@ == buy.seller@
            && buy.listing_info.market_escrow_token_account@ == buy.market_escrow_token_account.key@
            && buy.listing_info.payment_token_mint@ == buy.payment_buyer_token_account.mint@
            && buy.seller_payment_token_account.owner@ == buy.listing_info.seller@
            && buy.seller_payment_token_account.mint@ == buy.listing_info.payment_token_mint@)
            ==> buy.spec_refusal() == Some(HandlerError::Sdk(SdkError::ListingInfoHacked)),
        buy.spec_refusal() is None <==> (
            buy.project.market_escrow@ == buy.market_escrow@
            && buy.listing_info.seller@ == buy.seller@
            && buy.listing_info.market_escrow_token_account@ == buy.market_escrow_token_account.key@
            && buy.listing_info.payment_token_mint@ == buy.payment_buyer_token_account.mint@
            && buy.seller_payment_token_account.owner@ == buy.listing_info.seller@
            && buy.seller_payment_token_account.mint@ == buy.listing_info.payment_token_mint@),
        buy.spec_calls() == seq![
            TokenInstruction::Transfer {
                from: buy.payment_buyer_token_account.key,
                to: buy.seller_payment_token_account.key,
                authority: buy.buyer,
                amount: buy.listing_info.sale_price_total,
                signer: None,
            },
            TokenInstruction::Transfer {
                from: buy.market_escrow_token_account.key,
                to: buy.buyer_item_token_account.key,
                authority: buy.market_escrow,
                amount: buy.listing_info.sale_amount,
                signer: Some(PdaSigner {
                    kind: EscrowKind::MarketEscrow,
                    project: buy.project_key,
                    bump: buy.project.market_escrow_bump,
                }),
            },
            TokenInstruction::CloseAccount {
                account: buy.market_escrow_token_account.key,
                destination: buy.seller,
                authority: buy.market_escrow,
                signer: Some(PdaSigner {
                    kind: EscrowKind::MarketEscrow,
                    project: buy.project_key,
                    bump: buy.project.market_escrow_bump,
                }),
            },
        ],
{
}

/// What listing items decides, from the accounts alone: it is refused
/// exactly when the market escrow given is not, byte for byte, the
/// project's; otherwise the seller's item account moves the amount into the
/// listing's escrow token account with the seller's consent, and the listing
/// records the project's address, the item mint, the seller, the amount and
/// the price given, no expiry, the payment mint and the escrow token account.
pub proof fn lemma_listing_decision(list: CreateListing, total_price: u64, amount: u64)
    ensures
        list.spec_escrow_ok() <==> list.project.market_escrow@ == list.market_escrow@,
        list.spec_escrow_call(amount) == (TokenInstruction::Transfer {
            from: list.seller_item_token_account,
            to: list.market_escrow_token_account,
            authority: list.seller,
            amount: amount,
            signer: None,
        }),
        list.spec_listing(total_price, amount) == (Listing {
            project: list.project_key,
            mint: list.mint,
            seller: list.seller,
            sale_amount: amount,
            sale_price_total: total_price,
            sale_expire_at: 0,
            payment_token_mint: list.payment_token_mint,
            market_escrow_token_account: list.market_escrow_token_account,
        }),
{
}

/// What creating an item records: the mint it sets up is the given mint,
/// with no decimals, the given mint authority and no freeze authority; the
/// item record then holds the limits and price given, no sales, the price
/// mint given, the id's bytes over the start of the old id bytes, and the
/// old active flag.
pub proof fn lemma_item_creation_decision(
    ctx: CreateItem,
    meta: SdkItemMeta,
    id: Seq<u8>,
    max_items: u64,
    max_per_user: u64,
    price_per_item: u64,
)
    ensures
        ctx.spec_mint_call() == (TokenInstruction::InitializeMint {
            mint: ctx.mint,
            decimals: 0,
            mint_authority: ctx.mint_authority,
            freeze_authority: None,
        }),
        ctx.spec_created(meta, id, max_items, max_per_user, price_per_item) <==> {
            &&& meta.max_items == max_items
            &&& meta.max_per_user == max_per_user
            &&& meta.items_count == 0
            &&& meta.price == price_per_item
            &&& meta.price_mint == ctx.price_mint
            &&& meta.inactive == ctx.meta.inactive
            &&& meta.item_id@.len() == 32
            &&& forall|i: int| 0 <= i < 32 ==> #[trigger] meta.item_id@[i]
                == if i < id.len() { id[i] } else { ctx.meta.item_id@[i] }
        },
{
    if ctx.spec_created(meta, id, max_items, max_per_user, price_per_item) {
    } else {
        if meta.max_items == max_items && meta.max_per_user == max_per_user && meta.items_count == 0
            && meta.price == price_per_item && meta.price_mint == ctx.price_mint
            && meta.inactive == ctx.meta.inactive
            && (forall|i: int| 0 <= i < 32 ==> #[trigger] meta.item_id@[i]
                == if i < id.len() { id[i] } else { ctx.meta.item_id@[i] }) {
            assert(meta.item_id@ =~= crate::create_nft::spec_write_id(ctx.meta.item_id@, id));
        }
    }
}

/// What creating a project records: the identity, authority, escrow and
/// market escrow addresses given, and the three bumps given, each in its own
/// field; the tax rate and subscription level stay as they were.
pub proof fn lemma_project_creation_decision(ctx: CreateProject, project_bump: u8, escrow_bump: u8, market_escrow_bump: u8)
    ensures
        ctx.spec_initialized(project_bump, escrow_bump, market_escrow_bump) == (SdkProject {
            authority: ctx.authority,
            escrow: ctx.escrow,
            market_escrow: ctx.market_escrow,
            uid: ctx.uid,
            bump: project_bump,
            escrow_bump: escrow_bump,
            market_escrow_bump: market_escrow_bump,
            secondary_sells_tax_percent_basis_points: ctx.project.secondary_sells_tax_percent_basis_points,
            subscription_level: ctx.project.subscription_level,
        }),
{
}

/// The escrows sign with the seeds `b"escrow"` and `b"market_escrow"`.
pub proof fn lemma_escrow_seed_names()
    ensures
        escrow_seed() == seq!['e' as u8, 's' as u8, 'c' as u8, 'r' as u8, 'o' as u8, 'w' as u8],
        market_escrow_seed() == seq![
            'm' as u8, 'a' as u8, 'r' as u8, 'k' as u8, 'e' as u8, 't' as u8, '_' as u8,
            'e' as u8, 's' as u8, 'c' as u8, 'r' as u8, 'o' as u8, 'w' as u8,
        ],
{
}

/// The program's errors are numbered from 6000 in declaration order, and
/// the framework's deprecated error is 5000.
pub proof fn lemma_error_code_values()
    ensures
        SdkError::WalletAccountIsWrong.spec_code() == 6000,
        SdkError::PriceError.spec_code() == 6001,
        SdkError::AllItemsAreSold.spec_code() == 6002,
        SdkError::NotEnoughFunds.spec_code() == 6003,
        SdkError::ObjectIdTooLong.spec_code() == 6004,
        SdkError::MarketEscrowError.spec_code() == 6005,
        SdkError::ListingInfoHacked.spec_code() == 6006,
        HandlerError::Deprecated.spec_code() == 5000,
        forall|e: SdkError| #[trigger] HandlerError::Sdk(e).spec_code() == e.spec_code(),
{
}

/// A listing is stored as its fields one after the other: the project, mint
/// and seller addresses at bytes 0, 32 and 64; the amount, price and expiry
/// as 8 little-endian bytes each at 96, 104 and 112; the payment mint and
/// escrow token account addresses at 120 and 152.
pub proof fn lemma_listing_layout(l: Listing)
    ensures
        l.encoding().len() == 184,
        l.encoding().subrange(0, 32) == l.project@,
        l.encoding().subrange(32, 64) == l.mint@,
        l.encoding().subrange(64, 96) == l.seller@,
        l.encoding().subrange(96, 104) == u64_bytes(l.sale_amount),
        l.encoding().subrange(104, 112) == u64_bytes(l.sale_price_total),
        l.encoding().subrange(112, 120) == u64_bytes(l.sale_expire_at),
        l.encoding().subrange(120, 152) == l.payment_token_mint@,
        l.encoding().subrange(152, 184) == l.market_escrow_token_account@,
{
    let e = l.encoding();
    assert(e.subrange(0, 32) =~= l.project@);
    assert(e.subrange(32, 64) =~= l.mint@);
    assert(e.subrange(64, 96) =~= l.seller@);
    assert(e.subrange(96, 104) =~= u64_bytes(l.sale_amount));
    assert(e.subrange(104, 112) =~= u64_bytes(l.sale_price_total));
    assert(e.subrange(112, 120) =~= u64_bytes(l.sale_expire_at));
    assert(e.subrange(120, 152) =~= l.payment_token_mint@);
    assert(e.subrange(152, 184) =~= l.market_escrow_token_account@);
}

/// A 64-bit number is written as 8 bytes, least significant first: byte `i`
/// is the number shifted down by `8 * i` bits, modulo 256.
pub proof fn lemma_u64_little_endian(v: u64)
    ensures
        u64_bytes(v).len() == 8,
        forall|i: int| 0 <= i < 8 ==> #[trigger] u64_bytes(v)[i] as int == (v as int / pow2((8 * i) as nat) as int) % 256,
{
}

/// The messages reported with the program's errors.
pub proof fn lemma_error_messages()
    ensures
        SdkError::WalletAccountIsWrong.spec_message() == "wallet error is wrong"@,
        SdkError::PriceError.spec_message() == "price multiplication error"@,
        SdkError::AllItemsAreSold.spec_message() == "items are sold"@,
        SdkError::NotEnoughFunds.spec_message() == "not enough funds"@,
        SdkError::ObjectIdTooLong.spec_message() == "object uid length exceeded"@,
        SdkError::MarketEscrowError.spec_message() == "market escrow hacked!"@,
        SdkError::ListingInfoHacked.spec_message() == "listing info hacked!"@,
{
}

/// An instruction's new record is kept exactly when it succeeded; when it
/// refused or a call failed, the record from before is kept.
pub proof fn lemma_commit_keeps_only_successes<T>(before: T, after: T, ending: Ending)
    ensures
        ending == Ending::Succeeded ==> spec_commit(before, after, ending) == after,
        ending != Ending::Succeeded ==> spec_commit(before, after, ending) == before,
{
}

} // verus!
