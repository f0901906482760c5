//! Settlement engine for a marketplace of non-fungible collectible items.
//!
//! The library lists items for fixed-price sale or timed auction, accepts
//! bids, and settles a sale by emitting the ordered transfer instructions
//! that move the item and split the proceeds between royalty recipients
//! and the seller.

mod asset;
mod error;
mod execute;
mod laws;
mod msgs;
mod query;
mod rates;
mod state;

pub use crate::asset::native_balance_matches;
pub use crate::asset::Asset;
pub use crate::asset::AssetInfo;
pub use crate::asset::Coin;
pub use crate::asset::TransferInstruction;
pub use crate::error::ContractError;
pub use crate::execute::MarketResponse;
pub use crate::execute::Settlement;
pub use crate::msgs::Cw20HookMsg;
pub use crate::msgs::Cw721HookMsg;
pub use crate::msgs::InstantiateMsg;
pub use crate::query::QueryMsg;
pub use crate::query::QueryResponse;
pub use crate::rates::mul_rate;
pub use crate::rates::RATE_ONE;
pub use crate::state::AuctionInfo;
pub use crate::state::BlockInfo;
pub use crate::state::CollectionInfo;
pub use crate::state::Config;
pub use crate::state::Expiration;
pub use crate::state::MarketContract;
pub use crate::state::Order;
pub use crate::state::Royalty;
pub use crate::state::SellerIndexEntry;
