use mato_onchain_sdk::buy_item::BuyItem;
use mato_onchain_sdk::cpi::{EscrowKind, PdaSigner, TokenAccount, TokenInstruction};
use mato_onchain_sdk::create_nft::{CreateItem, SdkItemMeta};
use mato_onchain_sdk::create_project::{CreateProject, SdkProject};
use mato_onchain_sdk::error::{HandlerError, SdkError};
use mato_onchain_sdk::execution::{commit, Ending};
use mato_onchain_sdk::gamesdk::{buy_game_item, create_game_project, create_item, market_buy, market_list};
use mato_onchain_sdk::market_buy_item::BuyFromListing;
use mato_onchain_sdk::market_list_item::{CreateListing, Listing};
use mato_onchain_sdk::pubkey::Pubkey;

fn key(b: u8) -> Pubkey {
    Pubkey::new_from_array([b; 32])
}

const BUYER: u8 = 1;
const PROJECT: u8 = 2;
const ESCROW: u8 = 3;
const ITEM_MINT: u8 = 4;
const PRICE_MINT: u8 = 5;
const BUYER_ITEMS: u8 = 6;
const BUYER_PAY: u8 = 7;
const ESCROW_PAY: u8 = 8;
const MARKET_ESCROW: u8 = 9;
const SELLER: u8 = 10;
const LISTING_TACC: u8 = 11;
const SELLER_ITEMS: u8 = 12;
const SELLER_PAY: u8 = 13;

fn project() -> SdkProject {
    let mut p = SdkProject::default();
    p.escrow = key(ESCROW);
    p.market_escrow = key(MARKET_ESCROW);
    p.escrow_bump = 250;
    p.market_escrow_bump = 249;
    p
}

fn buy_accounts(price: u64, max_items: u64, items_count: u64, balance: u64) -> BuyItem {
    let mut meta = SdkItemMeta::default();
    meta.max_items = max_items;
    meta.items_count = items_count;
    meta.price = price;
    meta.price_mint = key(PRICE_MINT);
    BuyItem {
        signer: key(BUYER),
        project_key: key(PROJECT),
        project: project(),
        mint_authority: key(ESCROW),
        mint: key(ITEM_MINT),
        buyer_item_token_account: key(BUYER_ITEMS),
        buyer_payment_token_account: TokenAccount { key: key(BUYER_PAY), mint: key(PRICE_MINT), owner: key(BUYER), amount: balance },
        escrow_payment_token_account: TokenAccount { key: key(ESCROW_PAY), mint: key(PRICE_MINT), owner: key(ESCROW), amount: 0 },
        mint_meta: meta,
    }
}

#[test]
fn buy_game_item_pays_and_mints() {
    let mut acc = buy_accounts(5, 10, 3, 100);
    let plan = buy_game_item(&mut acc, 4);
    assert_eq!(plan.result, Ok(()));
    assert_eq!(acc.mint_meta.items_count, 4);
    assert_eq!(
        plan.calls,
        vec![
            TokenInstruction::Transfer { from: key(BUYER_PAY), to: key(ESCROW_PAY), authority: key(BUYER), amount: 20, signer: None },
            TokenInstruction::MintTo {
                mint: key(ITEM_MINT),
                to: key(BUYER_ITEMS),
                authority: key(ESCROW),
                amount: 4,
                signer: Some(PdaSigner { kind: EscrowKind::Escrow, project: key(PROJECT), bump: 250 }),
            },
        ]
    );
}

#[test]
fn buy_game_item_whole_balance() {
    let mut acc = buy_accounts(25, 10, 0, 100);
    let plan = buy_game_item(&mut acc, 4);
    assert_eq!(plan.result, Ok(()));
    assert_eq!(plan.calls.len(), 2);
}

fn refused(acc: &mut BuyItem, items: u64, e: HandlerError) {
    let before = *acc;
    let plan = buy_game_item(acc, items);
    assert_eq!(plan.result, Err(e));
    assert!(plan.calls.is_empty());
    assert_eq!(*acc, before);
}

#[test]
fn buy_game_item_sold_out() {
    let mut acc = buy_accounts(5, 3, 3, 100);
    refused(&mut acc, 1, HandlerError::Sdk(SdkError::AllItemsAreSold));
}

#[test]
fn buy_game_item_sold_out_checked_before_price() {
    let mut acc = buy_accounts(u64::MAX, 3, 3, 100);
    refused(&mut acc, 2, HandlerError::Sdk(SdkError::AllItemsAreSold));
}

#[test]
fn buy_game_item_price_overflow() {
    let mut acc = buy_accounts(u64::MAX, 3, 0, 100);
    refused(&mut acc, 2, HandlerError::Sdk(SdkError::PriceError));
}

#[test]
fn buy_game_item_not_enough_funds() {
    let mut acc = buy_accounts(5, 10, 0, 19);
    refused(&mut acc, 4, HandlerError::Sdk(SdkError::NotEnoughFunds));
}

#[test]
fn buy_game_item_buyer_pays_in_wrong_token() {
    let mut acc = buy_accounts(5, 10, 0, 100);
    acc.buyer_payment_token_account.mint = key(99);
    refused(&mut acc, 1, HandlerError::Deprecated);
}

#[test]
fn buy_game_item_escrow_takes_wrong_token() {
    let mut acc = buy_accounts(5, 10, 0, 100);
    acc.escrow_payment_token_account.mint = key(99);
    refused(&mut acc, 1, HandlerError::Deprecated);
}

#[test]
fn buy_game_item_escrow_account_not_owned_by_escrow() {
    let mut acc = buy_accounts(5, 10, 0, 100);
    acc.escrow_payment_token_account.owner = key(99);
    refused(&mut acc, 1, HandlerError::Sdk(SdkError::WalletAccountIsWrong));
}

#[test]
fn buy_game_item_never_passes_supply() {
    let mut acc = buy_accounts(1, 2, 0, 1000);
    assert_eq!(buy_game_item(&mut acc, 1).result, Ok(()));
    assert_eq!(buy_game_item(&mut acc, 5).result, Ok(()));
    assert_eq!(acc.mint_meta.items_count, 2);
    refused(&mut acc, 1, HandlerError::Sdk(SdkError::AllItemsAreSold));
    assert!(acc.mint_meta.items_count <= acc.mint_meta.max_items);
}

fn list_accounts() -> CreateListing {
    CreateListing {
        seller: key(SELLER),
        project_key: key(PROJECT),
        project: project(),
        mint: key(ITEM_MINT),
        listing_info: Listing::default(),
        market_escrow: key(MARKET_ESCROW),
        market_escrow_token_account: key(LISTING_TACC),
        payment_token_mint: key(PRICE_MINT),
        seller_item_token_account: key(SELLER_ITEMS),
    }
}

#[test]
fn market_list_records_offer() {
    let mut ctx = list_accounts();
    let plan = market_list(&mut ctx, 300, 7, 123456);
    assert_eq!(plan.result, Ok(()));
    assert_eq!(
        plan.calls,
        vec![TokenInstruction::Transfer { from: key(SELLER_ITEMS), to: key(LISTING_TACC), authority: key(SELLER), amount: 7, signer: None }]
    );
    assert_eq!(
        ctx.listing_info,
        Listing {
            project: key(PROJECT),
            mint: key(ITEM_MINT),
            seller: key(SELLER),
            sale_amount: 7,
            sale_price_total: 300,
            sale_expire_at: 0,
            payment_token_mint: key(PRICE_MINT),
            market_escrow_token_account: key(LISTING_TACC),
        }
    );
}

#[test]
fn market_list_wrong_market_escrow() {
    let mut ctx = list_accounts();
    ctx.market_escrow = key(99);
    let before = ctx;
    let plan = market_list(&mut ctx, 300, 7, 0);
    assert_eq!(plan.result, Err(HandlerError::Sdk(SdkError::MarketEscrowError)));
    assert!(plan.calls.is_empty());
    assert_eq!(ctx, before);
}

fn buy_listing_accounts(listing: Listing) -> BuyFromListing {
    BuyFromListing {
        buyer: key(BUYER),
        seller: key(SELLER),
        project_key: key(PROJECT),
        project: project(),
        mint: key(ITEM_MINT),
        listing_info: listing,
        market_escrow: key(MARKET_ESCROW),
        market_escrow_token_account: TokenAccount { key: key(LISTING_TACC), mint: key(ITEM_MINT), owner: key(MARKET_ESCROW), amount: 7 },
        payment_token_mint: key(PRICE_MINT),
        seller_payment_token_account: TokenAccount { key: key(SELLER_PAY), mint: key(PRICE_MINT), owner: key(SELLER), amount: 0 },
        payment_buyer_token_account: TokenAccount { key: key(BUYER_PAY), mint: key(PRICE_MINT), owner: key(BUYER), amount: 1000 },
        buyer_item_token_account: TokenAccount { key: key(BUYER_ITEMS), mint: key(ITEM_MINT), owner: key(BUYER), amount: 0 },
    }
}

fn listed() -> Listing {
    let mut ctx = list_accounts();
    assert_eq!(market_list(&mut ctx, 300, 7, 0).result, Ok(()));
    ctx.listing_info
}

#[test]
fn market_buy_after_listing_pays_seller_and_delivers_items() {
    let ctx = buy_listing_accounts(listed());
    let plan = market_buy(&ctx);
    assert_eq!(plan.result, Ok(()));
    let signer = Some(PdaSigner { kind: EscrowKind::MarketEscrow, project: key(PROJECT), bump: 249 });
    assert_eq!(
        plan.calls,
        vec![
            TokenInstruction::Transfer { from: key(BUYER_PAY), to: key(SELLER_PAY), authority: key(BUYER), amount: 300, signer: None },
            TokenInstruction::Transfer { from: key(LISTING_TACC), to: key(BUYER_ITEMS), authority: key(MARKET_ESCROW), amount: 7, signer },
            TokenInstruction::CloseAccount { account: key(LISTING_TACC), destination: key(SELLER), authority: key(MARKET_ESCROW), signer },
        ]
    );
}

fn buy_refused(ctx: &BuyFromListing, e: SdkError) {
    let plan = market_buy(ctx);
    assert_eq!(plan.result, Err(HandlerError::Sdk(e)));
    assert!(plan.calls.is_empty());
}

#[test]
fn market_buy_wrong_market_escrow() {
    let mut ctx = buy_listing_accounts(listed());
    ctx.market_escrow = key(99);
    ctx.seller = key(98);
    buy_refused(&ctx, SdkError::MarketEscrowError);
}

#[test]
fn market_buy_wrong_seller() {
    let mut ctx = buy_listing_accounts(listed());
    ctx.seller = key(98);
    buy_refused(&ctx, SdkError::ListingInfoHacked);
}

#[test]
fn market_buy_wrong_escrow_token_account() {
    let mut ctx = buy_listing_accounts(listed());
    ctx.market_escrow_token_account.key = key(98);
    buy_refused(&ctx, SdkError::ListingInfoHacked);
}

#[test]
fn market_buy_buyer_pays_in_wrong_token() {
    let mut ctx = buy_listing_accounts(listed());
    ctx.payment_buyer_token_account.mint = key(98);
    buy_refused(&ctx, SdkError::ListingInfoHacked);
}

#[test]
fn market_buy_seller_payment_account_not_sellers() {
    let mut ctx = buy_listing_accounts(listed());
    ctx.seller_payment_token_account.owner = key(98);
    buy_refused(&ctx, SdkError::ListingInfoHacked);
}

#[test]
fn market_buy_seller_payment_account_wrong_token() {
    let mut ctx = buy_listing_accounts(listed());
    ctx.seller_payment_token_account.mint = key(98);
    buy_refused(&ctx, SdkError::ListingInfoHacked);
}

#[test]
fn create_game_project_records_addresses_and_bumps() {
    let mut ctx = CreateProject {
        uid: key(20),
        signer: key(21),
        authority: key(22),
        project_key: key(PROJECT),
        project: SdkProject::default(),
        escrow: key(ESCROW),
        market_escrow: key(MARKET_ESCROW),
    };
    assert_eq!(create_game_project(&mut ctx, 255, 254, 253), Ok(()));
    let p = ctx.project;
    assert_eq!(p.uid, key(20));
    assert_eq!(p.authority, key(22));
    assert_eq!(p.escrow, key(ESCROW));
    assert_eq!(p.market_escrow, key(MARKET_ESCROW));
    assert_eq!((p.bump, p.escrow_bump, p.market_escrow_bump), (255, 254, 253));
    assert_eq!(p.secondary_sells_tax_percent_basis_points, 0);
    assert_eq!(p.subscription_level, 0);
}

fn item_accounts() -> CreateItem {
    CreateItem {
        project: project(),
        meta: SdkItemMeta::default(),
        mint: key(ITEM_MINT),
        authority: key(21),
        mint_authority: key(ESCROW),
        price_mint: key(PRICE_MINT),
    }
}

#[test]
fn create_item_records_item() {
    let mut ctx = item_accounts();
    let plan = create_item(&mut ctx, "sword", 100, 2, 15);
    assert_eq!(
        plan.calls,
        vec![TokenInstruction::InitializeMint { mint: key(ITEM_MINT), decimals: 0, mint_authority: key(ESCROW), freeze_authority: None }]
    );
    assert_eq!(plan.result, Ok(()));
    let m = ctx.meta;
    assert_eq!(m.max_items, 100);
    assert_eq!(m.max_per_user, 2);
    assert_eq!(m.items_count, 0);
    assert_eq!(m.price, 15);
    assert_eq!(m.price_mint, key(PRICE_MINT));
    assert_eq!(&m.item_id[..5], b"sword");
    assert_eq!(&m.item_id[5..], &[0u8; 27]);
}

#[test]
fn create_item_id_of_exactly_32_bytes() {
    let mut ctx = item_accounts();
    let id = "abcdefghijklmnopqrstuvwxyz012345";
    let plan = create_item(&mut ctx, id, 1, 1, 1);
    assert_eq!(plan.result, Ok(()));
    assert_eq!(&ctx.meta.item_id[..], id.as_bytes());
}

#[test]
fn create_item_id_too_long() {
    let mut ctx = item_accounts();
    let before = ctx;
    let plan = create_item(&mut ctx, "abcdefghijklmnopqrstuvwxyz0123456", 1, 1, 1);
    assert_eq!(plan.calls.len(), 1);
    assert_eq!(plan.result, Err(HandlerError::Sdk(SdkError::ObjectIdTooLong)));
    assert_eq!(ctx, before);
}

#[test]
fn create_item_multibyte_id_counts_bytes() {
    let mut ctx = item_accounts();
    // 17 characters of 2 bytes each: 34 bytes, though only 17 characters.
    let plan = create_item(&mut ctx, "ééééééééééééééééé", 1, 1, 1);
    assert_eq!(plan.result, Err(HandlerError::Sdk(SdkError::ObjectIdTooLong)));
}

#[test]
fn failed_escrow_transfer_keeps_listing_record() {
    let mut ctx = list_accounts();
    let before = ctx.listing_info;
    let plan = market_list(&mut ctx, 300, 7, 0);
    let outcomes: Vec<Result<(), &str>> = vec![Err("insufficient item tokens")];
    assert_eq!(plan.next_call(&outcomes), None);
    let ending = plan.settle(&outcomes);
    assert_eq!(ending, Ending::CallFailed(0));
    assert_eq!(commit(before, ctx.listing_info, ending), before);
}

#[test]
fn failed_payment_mints_nothing_and_counts_no_sale() {
    let mut acc = buy_accounts(5, 10, 3, 100);
    let before = acc.mint_meta;
    let plan = buy_game_item(&mut acc, 4);
    let mut outcomes: Vec<Result<(), &str>> = Vec::new();
    let first = plan.next_call(&outcomes).unwrap();
    assert!(matches!(first, TokenInstruction::Transfer { amount: 20, .. }));
    outcomes.push(Err("payment failed"));
    assert_eq!(plan.next_call(&outcomes), None);
    let ending = plan.settle(&outcomes);
    assert_eq!(ending, Ending::CallFailed(0));
    assert_eq!(commit(before, acc.mint_meta, ending).items_count, 3);
}

#[test]
fn failed_mint_setup_keeps_item_record() {
    let mut ctx = item_accounts();
    let before = ctx.meta;
    let plan = create_item(&mut ctx, "sword", 100, 2, 15);
    let outcomes: Vec<Result<(), &str>> = vec![Err("mint in use")];
    let ending = plan.settle(&outcomes);
    assert_eq!(ending, Ending::CallFailed(0));
    assert_eq!(commit(before, ctx.meta, ending), before);
}
