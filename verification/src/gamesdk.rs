//! The program's instructions.
use vstd::prelude::*;
use vstd::string::StringSliceAdditionalSpecFns;

use crate::buy_item::BuyItem;
use crate::cpi::{Plan, TokenInstruction};
use crate::create_nft::{CreateItem, MAX_ITEM_ID_LEN};
use crate::create_project::CreateProject;
use crate::error::{HandlerError, SdkError};
use crate::market_buy_item::BuyFromListing;
use crate::market_list_item::CreateListing;

verus! {

/// Offer `amount` item tokens on the market for `total_price`.
pub fn market_list(ctx: &mut CreateListing, total_price: u64, amount: u64, expire_at: u64) -> (plan: Plan)
    ensures
        !old(ctx).spec_escrow_ok() ==> plan.result == Err::<(), HandlerError>(HandlerError::Sdk(SdkError::MarketEscrowError))
            && plan.calls@.len() == 0 && *final(ctx) == *old(ctx),
        old(ctx).spec_escrow_ok() ==> plan.result is Ok
            && plan.calls@ == seq![old(ctx).spec_escrow_call(amount)]
            && *final(ctx) == (CreateListing { listing_info: old(ctx).spec_listing(total_price, amount), ..*old(ctx) }),
{
    ctx.handler(total_price, amount, expire_at)
}

/// Buy a market offer.
pub fn market_buy(ctx: &BuyFromListing) -> (plan: Plan)
    ensures
        ctx.spec_refusal() matches Some(e) ==> plan.result == Err::<(), HandlerError>(e) && plan.calls@.len() == 0,
        ctx.spec_refusal() is None ==> plan.result is Ok && plan.calls@ == ctx.spec_calls(),
{
    ctx.handler()
}

/// Buy `items` new items from the game.
pub fn buy_game_item(ctx: &mut BuyItem, items: u64) -> (plan: Plan)
    ensures
        old(ctx).spec_refusal(items) matches Some(e) ==> plan.result == Err::<(), HandlerError>(e)
            && plan.calls@.len() == 0 && *final(ctx) == *old(ctx),
        old(ctx).spec_refusal(items) is None ==> plan.result is Ok
            && plan.calls@ == old(ctx).spec_calls(items)
            && *final(ctx) == old(ctx).spec_after(),
{
    ctx.handler(items)
}

/// Record a new project's identity, authority, escrows and bumps.
pub fn create_game_project(
    ctx: &mut CreateProject,
    project_bump: u8,
    escrow_bump: u8,
    market_escrow_bump: u8,
) -> (r: Result<(), HandlerError>)
    ensures
        r is Ok,
        *final(ctx) == (CreateProject {
            project: old(ctx).spec_initialized(project_bump, escrow_bump, market_escrow_bump),
            ..*old(ctx)
        }),
{
    let new_project = &mut ctx.project;
    new_project.uid = ctx.uid;
    new_project.authority = ctx.authority;
    new_project.escrow = ctx.escrow;
    new_project.market_escrow = ctx.market_escrow;
    new_project.bump = project_bump;
    new_project.escrow_bump = escrow_bump;
    new_project.market_escrow_bump = market_escrow_bump;
    Ok(())
}

/// Create a new item kind: set up its mint, then record its limits, price
/// and id, refusing an id longer than the record holds.
pub fn create_item(
    ctx: &mut CreateItem,
    item_id: &str,
    max_items: u64,
    max_per_user: u64,
    price_per_item: u64,
) -> (plan: Plan)
    ensures
        plan.calls@ == seq![old(ctx).spec_mint_call()],
        item_id.spec_bytes().len() > MAX_ITEM_ID_LEN ==> plan.result == Err::<(), HandlerError>(HandlerError::Sdk(SdkError::ObjectIdTooLong))
            && *final(ctx) == *old(ctx),
        item_id.spec_bytes().len() <= MAX_ITEM_ID_LEN ==> plan.result is Ok
            && old(ctx).spec_created(final(ctx).meta, item_id.spec_bytes(), max_items, max_per_user, price_per_item)
            && *final(ctx) == (CreateItem { meta: final(ctx).meta, ..*old(ctx) }),
{
    let mut calls: Vec<TokenInstruction> = Vec::new();
    calls.push(TokenInstruction::InitializeMint {
        mint: ctx.mint,
        decimals: 0,
        mint_authority: ctx.mint_authority,
        freeze_authority: None,
    });
    let result = ctx.fill_meta(item_id, max_items, max_per_user, price_per_item);
    Plan { calls, result }
}

} // verus!
