//! The payloads of the engine's external interface that the host hands
//! in after decoding: setup parameters, and the payloads carried by
//! item-deposit and token-deposit notifications.

use vstd::prelude::*;

use crate::asset::Asset;
use crate::state::Expiration;

verus! {

/// Setup parameters. Rates are numerators over
/// [`RATE_ONE`](crate::rates::RATE_ONE).
#[derive(Debug)]
pub struct InstantiateMsg {
    pub owner: String,
    pub min_increase: u128,
    pub max_auction_duration_block: u64,
    pub max_auction_duration_second: u64,
    pub auction_cancel_fee_rate: u128,
}

/// What an item deposit asks for: a fixed-price listing or an auction
/// listing of the deposited item.
#[derive(Debug)]
pub enum Cw721HookMsg {
    MakeFixedPriceOrder { price: Asset },
    MakeAuctionOrder { start_price: Asset, expiration: Expiration, fixed_price: Option<Asset> },
}

/// What a token deposit asks for: the deposited tokens buy an order
/// outright, bid on it, or pay the fee for cancelling it.
#[derive(Debug)]
pub enum Cw20HookMsg {
    ExecuteOrder { order_id: u64 },
    Bid { order_id: u64 },
    CancelOrder { order_id: u64 },
}

} // verus!
