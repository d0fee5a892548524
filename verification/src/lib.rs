//! Verified core of the MATO game-item marketplace program: the account
//! records, the checks each instruction performs, and the token operations
//! it asks the token program to carry out.

pub mod pubkey;
pub mod error;
pub mod cpi;
pub mod traits;
pub mod layout;
pub mod create_project;
pub mod create_nft;
pub mod market_list_item;
pub mod buy_item;
pub mod market_buy_item;
pub mod market_delist_item;
pub mod gamesdk;
pub mod laws;
pub mod execution;
