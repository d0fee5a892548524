use mato_onchain_sdk::cpi::{EscrowKind, PdaSigner};
use mato_onchain_sdk::create_nft::{SdkItemAlias, SdkItemMeta};
use mato_onchain_sdk::create_project::SdkProject;
use mato_onchain_sdk::error::{HandlerError, SdkError};
use mato_onchain_sdk::market_list_item::Listing;
use mato_onchain_sdk::pubkey::Pubkey;
use mato_onchain_sdk::traits::FixedSpace;

fn key(b: u8) -> Pubkey {
    Pubkey::new_from_array([b; 32])
}

#[test]
fn pubkey_same_as_compares_every_byte() {
    let a = key(7);
    let mut bytes = [7u8; 32];
    assert!(a.same_as(&Pubkey::new_from_array(bytes)));
    bytes[31] = 8;
    assert!(!a.same_as(&Pubkey::new_from_array(bytes)));
    bytes[31] = 7;
    bytes[0] = 0;
    assert!(!a.same_as(&Pubkey::new_from_array(bytes)));
    assert_eq!(Pubkey::zero().to_bytes(), [0u8; 32]);
}

#[test]
fn error_codes_follow_declaration_order() {
    assert_eq!(SdkError::WalletAccountIsWrong.code(), 6000);
    assert_eq!(SdkError::PriceError.code(), 6001);
    assert_eq!(SdkError::AllItemsAreSold.code(), 6002);
    assert_eq!(SdkError::NotEnoughFunds.code(), 6003);
    assert_eq!(SdkError::ObjectIdTooLong.code(), 6004);
    assert_eq!(SdkError::MarketEscrowError.code(), 6005);
    assert_eq!(SdkError::ListingInfoHacked.code(), 6006);
    assert_eq!(HandlerError::Deprecated.code(), 5000);
    assert_eq!(HandlerError::Sdk(SdkError::PriceError).code(), 6001);
}

#[test]
fn error_messages() {
    assert_eq!(SdkError::WalletAccountIsWrong.message(), "wallet error is wrong");
    assert_eq!(SdkError::PriceError.message(), "price multiplication error");
    assert_eq!(SdkError::AllItemsAreSold.message(), "items are sold");
    assert_eq!(SdkError::NotEnoughFunds.message(), "not enough funds");
    assert_eq!(SdkError::ObjectIdTooLong.message(), "object uid length exceeded");
    assert_eq!(SdkError::MarketEscrowError.message(), "market escrow hacked!");
    assert_eq!(SdkError::ListingInfoHacked.message(), "listing info hacked!");
}

#[test]
fn error_codes_are_distinct() {
    let all = [
        HandlerError::Sdk(SdkError::WalletAccountIsWrong),
        HandlerError::Sdk(SdkError::PriceError),
        HandlerError::Sdk(SdkError::AllItemsAreSold),
        HandlerError::Sdk(SdkError::NotEnoughFunds),
        HandlerError::Sdk(SdkError::ObjectIdTooLong),
        HandlerError::Sdk(SdkError::MarketEscrowError),
        HandlerError::Sdk(SdkError::ListingInfoHacked),
        HandlerError::Deprecated,
    ];
    for i in 0..all.len() {
        for j in 0..all.len() {
            assert_eq!(all[i].code() == all[j].code(), i == j);
        }
    }
}

#[test]
fn escrow_signer_seeds() {
    let s = PdaSigner { kind: EscrowKind::Escrow, project: key(9), bump: 254 };
    let seeds = s.seeds();
    assert_eq!(seeds.len(), 3);
    assert_eq!(seeds[0], b"escrow".to_vec());
    assert_eq!(seeds[1], vec![9u8; 32]);
    assert_eq!(seeds[2], vec![254u8]);
}

#[test]
fn market_escrow_signer_seeds() {
    let s = PdaSigner { kind: EscrowKind::MarketEscrow, project: key(3), bump: 1 };
    let seeds = s.seeds();
    assert_eq!(seeds[0], b"market_escrow".to_vec());
    assert_eq!(seeds[1], vec![3u8; 32]);
    assert_eq!(seeds[2], vec![1u8]);
}

#[test]
fn listing_space_is_borsh_length_plus_tag() {
    assert_eq!(Listing::space(), 192);
    let fields = ([0u8; 32], [0u8; 32], [0u8; 32], 0u64, 0u64, 0u64, [0u8; 32], [0u8; 32]);
    assert_eq!(borsh::to_vec(&fields).unwrap().len() + 8, Listing::space());
}

#[test]
fn listing_bytes_match_borsh() {
    let l = Listing {
        project: key(1),
        mint: key(2),
        seller: key(3),
        sale_amount: 0x0102030405060708,
        sale_price_total: 500,
        sale_expire_at: 0,
        payment_token_mint: key(4),
        market_escrow_token_account: key(5),
    };
    let bytes = l.to_bytes();
    let expected = borsh::to_vec(&(
        [1u8; 32], [2u8; 32], [3u8; 32], 0x0102030405060708u64, 500u64, 0u64, [4u8; 32], [5u8; 32],
    ))
    .unwrap();
    assert_eq!(bytes, expected);
    assert_eq!(bytes.len(), 184);
    assert_eq!(&bytes[96..104], &[8u8, 7, 6, 5, 4, 3, 2, 1]);
    assert_eq!(&bytes[104..112], &[244u8, 1, 0, 0, 0, 0, 0, 0]);
}

#[test]
fn item_record_space_fits_exactly() {
    assert_eq!(SdkItemMeta::space(), 105);
    let m = SdkItemMeta::default();
    let fields = (m.max_items, m.items_count, m.max_per_user, m.item_id, m.price, m.price_mint.to_bytes(), m.inactive);
    assert_eq!(borsh::to_vec(&fields).unwrap().len() + 8, SdkItemMeta::space());
}

#[test]
fn project_record_fits_its_space() {
    assert_eq!(SdkProject::space(), 146);
    let p = SdkProject::default();
    let fields = (
        p.authority.to_bytes(), p.escrow.to_bytes(), p.market_escrow.to_bytes(), p.uid.to_bytes(),
        p.bump, p.escrow_bump, p.market_escrow_bump, p.secondary_sells_tax_percent_basis_points,
        p.subscription_level,
    );
    let len = borsh::to_vec(&fields).unwrap().len();
    assert_eq!(len, 134);
    assert!(len + 8 <= SdkProject::space());
}

#[test]
fn defaults_are_zero() {
    let m = SdkItemMeta::default();
    assert_eq!(m.max_items, 0);
    assert_eq!(m.items_count, 0);
    assert_eq!(m.max_per_user, 0);
    assert_eq!(m.item_id, [0u8; 32]);
    assert_eq!(m.price, 0);
    assert!(!m.inactive);
    let l = Listing::default();
    assert_eq!(l.sale_amount, 0);
    assert_eq!(l.seller.to_bytes(), [0u8; 32]);
    assert_eq!(SdkItemAlias::default().mint.to_bytes(), [0u8; 32]);
    assert_eq!(SdkProject::default().subscription_level, 0);
}

