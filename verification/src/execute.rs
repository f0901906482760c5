//! The mutating operations of the engine: setup, configuration and
//! catalog management, listing, bidding, settlement and cancellation.

use vstd::prelude::*;

use crate::error::ContractError;
use crate::msgs::{Cw20HookMsg, Cw721HookMsg, InstantiateMsg};
use crate::rates::{checked_mul_rate, mul_rate, rate_mul, RATE_ONE};
use crate::state::{
    clone_asset_infos, clone_royalties, collection_wf, collections_unique, order_wf, royalty_sum,
    spec_collection_at, spec_collection_idx, spec_has_collection, spec_has_order, spec_order_idx,
    spec_supports, AuctionInfo, BlockInfo, CollectionInfo, Config, Expiration, MarketContract,
    Order, Royalty, SellerIndexEntry,
};
use crate::asset::{
    asset_eq, asset_info_eq, native_balance_matches, native_funds_match, Asset, AssetInfo, Coin,
    TransferInstruction,
};

verus! {

/// Nanoseconds in one second, for deadlines given as wall-clock times.
pub const NANOS_PER_SECOND: u64 = 1_000_000_000;

/// Whether an asset kind occurs in the given list of supported kinds.
fn supports_asset(kinds: &Vec<AssetInfo>, info: &AssetInfo) -> (r: bool)
    ensures
        r == spec_supports(kinds@, *info),
{
    let n: usize = kinds.len();
    let mut i: usize = 0;
    while i < n
        invariant
            0 <= i <= n,
            n == kinds@.len(),
            forall|k: int| 0 <= k < i ==> !asset_info_eq(#[trigger] kinds@[k], *info),
        decreases n - i,
    {
        if kinds[i] == *info {
            return true;
        }
        i = i + 1;
    }
    false
}

/// Why a requested auction deadline is refused, if it is: an unbounded
/// deadline, one already in the past, or one farther away than the
/// configured maximum (in blocks for height deadlines, in whole seconds
/// for time deadlines).
pub open spec fn spec_expiration_refusal(
    expiration: Expiration,
    block: BlockInfo,
    config: Config,
) -> Option<ContractError> {
    match expiration {
        Expiration::Never => Some(ContractError::Never {}),
        Expiration::AtHeight(h) => if block.height >= h {
            Some(ContractError::Expired {})
        } else if h - block.height > config.max_auction_duration_block {
            Some(ContractError::MaxDuration {})
        } else {
            None
        },
        Expiration::AtTime(t) => if block.time_nanos >= t {
            Some(ContractError::Expired {})
        } else if t / NANOS_PER_SECOND - block.time_nanos / NANOS_PER_SECOND
            > config.max_auction_duration_second {
            Some(ContractError::MaxDuration {})
        } else {
            None
        },
    }
}

/// What a successful fixed-price listing does and exactly when it fails:
/// the collection must exist and support the price's kind; on success the
/// order is appended with the next id, mirrored in the seller index, and
/// the counter moves up by one.
pub open spec fn make_fixed_price_post(
    pre: MarketContract,
    post: MarketContract,
    r: Result<u64, ContractError>,
    sender: String,
    nft_address: String,
    token_id: String,
    price: Asset,
) -> bool {
    match r {
        Ok(id) => {
            &&& spec_has_collection(pre.collections@, nft_address@)
            &&& spec_supports(
                spec_collection_at(pre.collections@, nft_address@).support_assets@,
                price.info,
            )
            &&& id == pre.order_index
            &&& post.order_index == pre.order_index + 1
            &&& post.orders@ == pre.orders@.push(
                Order {
                    id,
                    seller_address: sender,
                    nft_address,
                    token_id,
                    price: Some(price),
                    auction_info: None,
                },
            )
            &&& post.seller_index@ == pre.seller_index@.push(
                SellerIndexEntry { seller_address: sender, order_id: id },
            )
            &&& post.collections@ == pre.collections@
            &&& post.config == pre.config
        },
        Err(e) => {
            &&& post == pre
            &&& if !spec_has_collection(pre.collections@, nft_address@) {
                e == ContractError::CollectionNotFound {}
            } else {
                &&& !spec_supports(
                    spec_collection_at(pre.collections@, nft_address@).support_assets@,
                    price.info,
                )
                &&& e == ContractError::Unsupport {}
            }
        },
    }
}

/// What a successful auction listing does and exactly when it fails: on
/// top of the fixed-price conditions, an optional buyout price must share
/// the starting bid's kind and the deadline must be acceptable; on
/// success the order is appended carrying the unbid auction state.
pub open spec fn make_auction_post(
    pre: MarketContract,
    post: MarketContract,
    r: Result<u64, ContractError>,
    block: BlockInfo,
    sender: String,
    nft_address: String,
    token_id: String,
    start_price: Asset,
    expiration: Expiration,
    fixed_price: Option<Asset>,
) -> bool {
    match r {
        Ok(id) => {
            &&& spec_has_collection(pre.collections@, nft_address@)
            &&& (fixed_price matches Some(fp) ==> asset_info_eq(fp.info, start_price.info))
            &&& spec_supports(
                spec_collection_at(pre.collections@, nft_address@).support_assets@,
                start_price.info,
            )
            &&& spec_expiration_refusal(expiration, block, pre.config) is None
            &&& id == pre.order_index
            &&& post.order_index == pre.order_index + 1
            &&& post.orders@ == pre.orders@.push(
                Order {
                    id,
                    seller_address: sender,
                    nft_address,
                    token_id,
                    price: fixed_price,
                    auction_info: Some(
                        AuctionInfo { highest_bid: start_price, bidder: None, expiration },
                    ),
                },
            )
            &&& post.seller_index@ == pre.seller_index@.push(
                SellerIndexEntry { seller_address: sender, order_id: id },
            )
            &&& post.collections@ == pre.collections@
            &&& post.config == pre.config
        },
        Err(e) => {
            &&& post == pre
            &&& if !spec_has_collection(pre.collections@, nft_address@) {
                e == ContractError::CollectionNotFound {}
            } else if fixed_price matches Some(fp) && !asset_info_eq(fp.info, start_price.info) {
                e == ContractError::AssetInfoMismatch {}
            } else if !spec_supports(
                spec_collection_at(pre.collections@, nft_address@).support_assets@,
                start_price.info,
            ) {
                e == ContractError::Unsupport {}
            } else {
                &&& spec_expiration_refusal(expiration, block, pre.config) matches Some(err)
                    && e == err
            }
        },
    }
}

/// The minimum amount the next bid on an auction must reach: the current
/// highest bid scaled by one plus the minimum-increase rate, rounded down.
pub open spec fn spec_min_bid(highest: u128, config: Config) -> int {
    rate_mul(highest as int, RATE_ONE + config.min_increase)
}

/// What a successful bid does and exactly when it fails: the order must
/// be an open, unexpired auction, a native bid must match the attached
/// funds exactly, the kind must match the running bid's kind, and the
/// amount must reach the minimum; on success the previous bid (if any)
/// is refunded and the auction state carries the new bid and bidder.
pub open spec fn bid_post(
    pre: MarketContract,
    post: MarketContract,
    r: Result<Seq<TransferInstruction>, ContractError>,
    block: BlockInfo,
    sender: String,
    order_id: u64,
    bid_price: Asset,
    funds: Seq<Coin>,
) -> bool {
    match r {
        Ok(instrs) => {
            &&& spec_has_order(pre.orders@, order_id)
            &&& ({
                let idx = spec_order_idx(pre.orders@, order_id);
                let order = pre.orders@[idx];
                &&& order.auction_info matches Some(ai)
                &&& native_funds_match(bid_price, funds)
                &&& asset_info_eq(bid_price.info, ai.highest_bid.info)
                &&& !ai.expiration.spec_expired(block)
                &&& spec_min_bid(ai.highest_bid.amount, pre.config) <= u128::MAX
                &&& bid_price.amount >= spec_min_bid(ai.highest_bid.amount, pre.config)
                &&& instrs == (match ai.bidder {
                    Some(b) => seq![
                        TransferInstruction::Fund { asset: ai.highest_bid, recipient: b },
                    ],
                    None => Seq::<TransferInstruction>::empty(),
                })
                &&& post.orders@ == pre.orders@.update(
                    idx,
                    Order {
                        id: order.id,
                        seller_address: order.seller_address,
                        nft_address: order.nft_address,
                        token_id: order.token_id,
                        price: order.price,
                        auction_info: Some(
                            AuctionInfo {
                                highest_bid: bid_price,
                                bidder: Some(sender),
                                expiration: ai.expiration,
                            },
                        ),
                    },
                )
            })
            &&& post.seller_index@ == pre.seller_index@
            &&& post.collections@ == pre.collections@
            &&& post.config == pre.config
            &&& post.order_index == pre.order_index
        },
        Err(e) => {
            &&& post == pre
            &&& if !spec_has_order(pre.orders@, order_id) {
                e == ContractError::OrderNotFound {}
            } else {
                let order = pre.orders@[spec_order_idx(pre.orders@, order_id)];
                if order.auction_info is None {
                    e == ContractError::NotAuction {}
                } else {
                    let ai = order.auction_info->0;
                    if !native_funds_match(bid_price, funds) {
                        e == ContractError::TokenMismatch {}
                    } else if !asset_info_eq(bid_price.info, ai.highest_bid.info) {
                        e == ContractError::AssetInfoMismatch {}
                    } else if ai.expiration.spec_expired(block) {
                        e == ContractError::Expired {}
                    } else if spec_min_bid(ai.highest_bid.amount, pre.config) > u128::MAX {
                        e == ContractError::Overflow {}
                    } else {
                        &&& bid_price.amount < spec_min_bid(ai.highest_bid.amount, pre.config)
                        &&& e == ContractError::MinPrice {
                            min_bid_amount: spec_min_bid(ai.highest_bid.amount, pre.config) as u128,
                        }
                    }
                }
            }
        },
    }
}

/// The ordered transfer instructions and the seller's remainder that a
/// successful execution or auction settlement produces.
#[derive(Debug)]
pub struct Settlement {
    pub instructions: Vec<TransferInstruction>,
    pub remainder: u128,
}

/// What a mutating operation reached through a token deposit produced.
#[derive(Debug)]
pub enum MarketResponse {
    BidPlaced { instructions: Vec<TransferInstruction> },
    Settled { instructions: Vec<TransferInstruction>, remainder: u128 },
    Cancelled { instructions: Vec<TransferInstruction> },
}

/// The sum of the royalty payouts a price produces against a royalty
/// list, each payout rounded down separately.
pub open spec fn payout_total(amount: u128, rs: Seq<Royalty>) -> int
    decreases rs.len(),
{
    if rs.len() == 0 {
        0
    } else {
        payout_total(amount, rs.drop_last()) + rate_mul(
            amount as int,
            rs.last().royalty_rate as int,
        )
    }
}

/// The royalty payouts never exceed the amount scaled by the summed rates.
pub proof fn lemma_payout_total_bounds(amount: u128, rs: Seq<Royalty>)
    ensures
        0 <= payout_total(amount, rs) <= rate_mul(amount as int, royalty_sum(rs)),
    decreases rs.len(),
{
    if rs.len() == 0 {
        assert(rate_mul(amount as int, 0) == 0) by {
            vstd::arithmetic::div_mod::lemma_div_of0(RATE_ONE as int);
        }
    } else {
        lemma_payout_total_bounds(amount, rs.drop_last());
        crate::state::lemma_royalty_sum_nonneg(rs.drop_last());
        assert(0 <= rate_mul(amount as int, rs.last().royalty_rate as int)) by {
            vstd::arithmetic::mul::lemma_mul_nonnegative(
                amount as int,
                rs.last().royalty_rate as int,
            );
            vstd::arithmetic::div_mod::lemma_div_pos_is_pos(
                amount * rs.last().royalty_rate,
                RATE_ONE as int,
            );
        }
        crate::rates::lemma_rate_mul_superadditive(
            amount as int,
            royalty_sum(rs.drop_last()),
            rs.last().royalty_rate as int,
        );
    }
}

/// Conservation of value: with royalty rates summing to at most one, the
/// payouts never exceed the price, so the seller's remainder is exact and
/// nonnegative, and payouts plus remainder equal the price.
pub proof fn lemma_payout_total_le_amount(amount: u128, rs: Seq<Royalty>)
    requires
        royalty_sum(rs) <= RATE_ONE,
    ensures
        0 <= payout_total(amount, rs) <= amount,
{
    lemma_payout_total_bounds(amount, rs);
    crate::state::lemma_royalty_sum_nonneg(rs);
    crate::rates::lemma_rate_mul_le_amount(amount as int, royalty_sum(rs));
}

/// The royalty payout instructions a settlement emits, one per royalty
/// entry, in the collection's stored order.
pub open spec fn spec_royalty_instrs(price: Asset, rs: Seq<Royalty>) -> Seq<TransferInstruction> {
    Seq::new(
        rs.len(),
        |i: int|
            TransferInstruction::Fund {
                asset: Asset {
                    info: price.info,
                    amount: rate_mul(price.amount as int, rs[i].royalty_rate as int) as u128,
                },
                recipient: rs[i].address,
            },
    )
}

/// The seller's remainder: the price minus all royalty payouts.
pub open spec fn spec_remainder(price: Asset, rs: Seq<Royalty>) -> int {
    price.amount - payout_total(price.amount, rs)
}

/// The instruction that hands the order's item to a recipient.
pub open spec fn spec_item_transfer(order: Order, recipient: String) -> TransferInstruction {
    TransferInstruction::Item {
        nft_address: order.nft_address,
        token_id: order.token_id,
        recipient,
    }
}

/// The refund of an order's standing bid, if the order is an auction
/// with a bidder; empty otherwise.
pub open spec fn spec_bid_refund(order: Order) -> Seq<TransferInstruction> {
    match order.auction_info {
        Some(ai) => match ai.bidder {
            Some(b) => seq![TransferInstruction::Fund { asset: ai.highest_bid, recipient: b }],
            None => Seq::<TransferInstruction>::empty(),
        },
        None => Seq::<TransferInstruction>::empty(),
    }
}

/// The full ordered instruction list of a settlement: the standing bid's
/// refund (unless the auction itself is being settled), the item to the
/// buyer, one payout per royalty entry in list order, and the remainder
/// to the seller.
pub open spec fn spec_settlement(
    order: Order,
    buyer: String,
    price: Asset,
    rs: Seq<Royalty>,
    include_refund: bool,
) -> Seq<TransferInstruction> {
    (if include_refund {
        spec_bid_refund(order)
    } else {
        Seq::<TransferInstruction>::empty()
    }).push(spec_item_transfer(order, buyer)) + spec_royalty_instrs(price, rs) + seq![
        TransferInstruction::Fund {
            asset: Asset { info: price.info, amount: spec_remainder(price, rs) as u128 },
            recipient: order.seller_address,
        },
    ]
}

/// What a successful fixed-price purchase does and exactly when it
/// fails: the order must carry a fixed price and the payment must equal
/// it exactly — a token payment is compared as an asset, a native payment
/// against the attached funds; on success the order is settled at the
/// fixed price with the buyout superseding any running auction (the
/// standing bid is refunded first), and the order is removed.
pub open spec fn execute_order_post(
    pre: MarketContract,
    post: MarketContract,
    r: Result<(Seq<TransferInstruction>, u128), ContractError>,
    sender: String,
    order_id: u64,
    payment: Option<Asset>,
    funds: Seq<Coin>,
) -> bool {
    match r {
        Ok((instrs, remainder)) => {
            &&& spec_has_order(pre.orders@, order_id)
            &&& ({
                let idx = spec_order_idx(pre.orders@, order_id);
                let order = pre.orders@[idx];
                let rs = spec_collection_at(pre.collections@, order.nft_address@).royalties@;
                &&& order.price matches Some(price)
                &&& (match payment {
                    Some(a) => asset_eq(price, a),
                    None => native_funds_match(price, funds),
                })
                &&& instrs == spec_settlement(order, sender, price, rs, true)
                &&& remainder == spec_remainder(price, rs)
                &&& post.orders@ == pre.orders@.remove(idx)
                &&& post.seller_index@ == pre.seller_index@.remove(idx)
            })
            &&& post.collections@ == pre.collections@
            &&& post.config == pre.config
            &&& post.order_index == pre.order_index
        },
        Err(e) => {
            &&& post == pre
            &&& if !spec_has_order(pre.orders@, order_id) {
                e == ContractError::OrderNotFound {}
            } else {
                let order = pre.orders@[spec_order_idx(pre.orders@, order_id)];
                if order.price is None {
                    e == ContractError::NoFixedPrice {}
                } else {
                    &&& (match payment {
                        Some(a) => !asset_eq(order.price->0, a),
                        None => !native_funds_match(order.price->0, funds),
                    })
                    &&& e == ContractError::TokenMismatch {}
                }
            }
        },
    }
}

/// What a successful auction settlement does and exactly when it fails:
/// the order must be an auction whose deadline has passed; with a bidder
/// the order is settled at the highest bid, without one the item simply
/// returns to the seller and no funds move; the order is removed either
/// way.
pub open spec fn execute_auction_post(
    pre: MarketContract,
    post: MarketContract,
    r: Result<(Seq<TransferInstruction>, u128), ContractError>,
    block: BlockInfo,
    order_id: u64,
) -> bool {
    match r {
        Ok((instrs, remainder)) => {
            &&& spec_has_order(pre.orders@, order_id)
            &&& ({
                let idx = spec_order_idx(pre.orders@, order_id);
                let order = pre.orders@[idx];
                &&& order.auction_info matches Some(ai)
                &&& ai.expiration.spec_expired(block)
                &&& (match ai.bidder {
                    Some(b) => {
                        let rs = spec_collection_at(
                            pre.collections@,
                            order.nft_address@,
                        ).royalties@;
                        &&& instrs == spec_settlement(order, b, ai.highest_bid, rs, false)
                        &&& remainder == spec_remainder(ai.highest_bid, rs)
                    },
                    None => {
                        &&& instrs == seq![spec_item_transfer(order, order.seller_address)]
                        &&& remainder == ai.highest_bid.amount
                    },
                })
                &&& post.orders@ == pre.orders@.remove(idx)
                &&& post.seller_index@ == pre.seller_index@.remove(idx)
            })
            &&& post.collections@ == pre.collections@
            &&& post.config == pre.config
            &&& post.order_index == pre.order_index
        },
        Err(e) => {
            &&& post == pre
            &&& if !spec_has_order(pre.orders@, order_id) {
                e == ContractError::OrderNotFound {}
            } else {
                let order = pre.orders@[spec_order_idx(pre.orders@, order_id)];
                if order.auction_info is None {
                    e == ContractError::NotAuction {}
                } else {
                    &&& !(order.auction_info->0).expiration.spec_expired(block)
                    &&& e == ContractError::NotExpired {}
                }
            }
        },
    }
}

/// Whether a supplied cancellation fee is exactly the fee due: a native
/// fee is checked against the attached funds, a token fee against the
/// explicitly supplied asset; a zero fee demands that nothing be
/// supplied (or an exactly-zero coin of the right denomination).
pub open spec fn spec_cancel_fee_matches(
    fee_asset: Asset,
    supplied: Option<Asset>,
    funds: Seq<Coin>,
) -> bool {
    match fee_asset.info {
        AssetInfo::NativeToken { .. } => native_funds_match(fee_asset, funds),
        AssetInfo::Token { .. } => match supplied {
            Some(cf) => asset_eq(cf, fee_asset),
            None => fee_asset.amount == 0,
        },
    }
}

/// Executable mirror of [`spec_cancel_fee_matches`].
fn cancel_fee_matches(fee_asset: &Asset, supplied: &Option<Asset>, funds: &Vec<Coin>) -> (r:
    bool)
    ensures
        r == spec_cancel_fee_matches(*fee_asset, *supplied, funds@),
{
    match &fee_asset.info {
        AssetInfo::NativeToken { .. } => native_balance_matches(fee_asset, funds),
        AssetInfo::Token { .. } => match supplied {
            Some(cf) => *cf == *fee_asset,
            None => fee_asset.amount == 0,
        },
    }
}

/// What a successful cancellation does and exactly when it fails: only
/// the seller may cancel; an expired auction cannot be cancelled; a
/// bid-bearing auction demands exactly the cancellation fee, which is
/// folded into the bidder's refund of the standing bid; the item returns
/// to the seller and the order is removed.
pub open spec fn cancel_order_post(
    pre: MarketContract,
    post: MarketContract,
    r: Result<Seq<TransferInstruction>, ContractError>,
    block: BlockInfo,
    sender: String,
    order_id: u64,
    cancel_fee: Option<Asset>,
    funds: Seq<Coin>,
) -> bool {
    match r {
        Ok(instrs) => {
            &&& spec_has_order(pre.orders@, order_id)
            &&& ({
                let idx = spec_order_idx(pre.orders@, order_id);
                let order = pre.orders@[idx];
                &&& sender@ == order.seller_address@
                &&& (match order.auction_info {
                    None => instrs == seq![spec_item_transfer(order, order.seller_address)],
                    Some(ai) => {
                        &&& !ai.expiration.spec_expired(block)
                        &&& (match ai.bidder {
                            None => instrs == seq![
                                spec_item_transfer(order, order.seller_address),
                            ],
                            Some(b) => {
                                let fee = rate_mul(
                                    ai.highest_bid.amount as int,
                                    pre.config.auction_cancel_fee_rate as int,
                                );
                                &&& spec_cancel_fee_matches(
                                    Asset { info: ai.highest_bid.info, amount: fee as u128 },
                                    cancel_fee,
                                    funds,
                                )
                                &&& ai.highest_bid.amount + fee <= u128::MAX
                                &&& instrs == seq![
                                    TransferInstruction::Fund {
                                        asset: Asset {
                                            info: ai.highest_bid.info,
                                            amount: (ai.highest_bid.amount + fee) as u128,
                                        },
                                        recipient: b,
                                    },
                                    spec_item_transfer(order, order.seller_address),
                                ]
                            },
                        })
                    },
                })
                &&& post.orders@ == pre.orders@.remove(idx)
                &&& post.seller_index@ == pre.seller_index@.remove(idx)
            })
            &&& post.collections@ == pre.collections@
            &&& post.config == pre.config
            &&& post.order_index == pre.order_index
        },
        Err(e) => {
            &&& post == pre
            &&& if !spec_has_order(pre.orders@, order_id) {
                e == ContractError::OrderNotFound {}
            } else {
                let order = pre.orders@[spec_order_idx(pre.orders@, order_id)];
                if sender@ != order.seller_address@ {
                    e == ContractError::Unauthorized {}
                } else {
                    &&& order.auction_info matches Some(ai)
                    &&& if ai.expiration.spec_expired(block) {
                        e == ContractError::Expired {}
                    } else {
                        &&& ai.bidder matches Some(b)
                        &&& ({
                            let fee = rate_mul(
                                ai.highest_bid.amount as int,
                                pre.config.auction_cancel_fee_rate as int,
                            );
                            if !spec_cancel_fee_matches(
                                Asset { info: ai.highest_bid.info, amount: fee as u128 },
                                cancel_fee,
                                funds,
                            ) {
                                e == ContractError::CancelFeeMismatch {
                                    fee_asset: Asset {
                                        info: ai.highest_bid.info,
                                        amount: fee as u128,
                                    },
                                }
                            } else {
                                &&& ai.highest_bid.amount + fee > u128::MAX
                                &&& e == ContractError::Overflow {}
                            }
                        })
                    }
                }
            }
        },
    }
}

/// The sum of a royalty list's rates, or `None` when the sum does not
/// even fit in 128 bits (and so certainly exceeds one).
fn royalty_rate_total(rs: &Vec<Royalty>) -> (r: Option<u128>)
    ensures
        match r {
            Some(v) => v == royalty_sum(rs@),
            None => royalty_sum(rs@) > u128::MAX,
        },
{
    let n: usize = rs.len();
    let mut total: u128 = 0;
    let mut i: usize = 0;
    proof {
        assert(rs@.take(0int) =~= Seq::<Royalty>::empty());
    }
    while i < n
        invariant
            0 <= i <= n,
            n == rs@.len(),
            total == royalty_sum(rs@.take(i as int)),
        decreases n - i,
    {
        proof {
            assert(rs@.take(i + 1int).drop_last() =~= rs@.take(i as int));
            assert(rs@.take(i + 1int).last() == rs@[i as int]);
        }
        match total.checked_add(rs[i].royalty_rate) {
            Some(t) => {
                total = t;
            },
            None => {
                proof {
                    crate::state::lemma_royalty_sum_take_le(rs@, i + 1int);
                }
                return None;
            },
        }
        i = i + 1;
    }
    proof {
        assert(rs@.take(n as int) =~= rs@);
    }
    Some(total)
}

impl MarketContract {
    /// Sets the engine up: checks the cancellation-fee rate, stores the
    /// configuration, and starts the order id counter at one.
    pub fn instantiate(msg: InstantiateMsg) -> (r: Result<MarketContract, ContractError>)
        requires
            msg.min_increase <= RATE_ONE,
        ensures
            match r {
                Ok(m) => {
                    &&& msg.auction_cancel_fee_rate <= RATE_ONE
                    &&& m.wf()
                    &&& m.config == (Config {
                        owner: msg.owner,
                        min_increase: msg.min_increase,
                        max_auction_duration_block: msg.max_auction_duration_block,
                        max_auction_duration_second: msg.max_auction_duration_second,
                        auction_cancel_fee_rate: msg.auction_cancel_fee_rate,
                    })
                    &&& m.collections@.len() == 0
                    &&& m.orders@.len() == 0
                    &&& m.seller_index@.len() == 0
                    &&& m.order_index == 1
                },
                Err(e) => {
                    &&& msg.auction_cancel_fee_rate > RATE_ONE
                    &&& e == ContractError::InvalidFeeRate {}
                },
            },
    {
        if msg.auction_cancel_fee_rate > RATE_ONE {
            return Err(ContractError::InvalidFeeRate {});
        }
        Ok(
            MarketContract {
                config: Config {
                    owner: msg.owner,
                    min_increase: msg.min_increase,
                    max_auction_duration_block: msg.max_auction_duration_block,
                    max_auction_duration_second: msg.max_auction_duration_second,
                    auction_cancel_fee_rate: msg.auction_cancel_fee_rate,
                },
                collections: Vec::new(),
                orders: Vec::new(),
                seller_index: Vec::new(),
                order_index: 1,
            },
        )
    }

    /// Updates the configuration, field by field, for the owner only;
    /// the owner itself is transferable through the same path.
    pub fn update_config(
        &mut self,
        sender: &String,
        owner: Option<String>,
        min_increase: Option<u128>,
        max_auction_duration_block: Option<u64>,
        max_auction_duration_second: Option<u64>,
        auction_cancel_fee_rate: Option<u128>,
    ) -> (r: Result<(), ContractError>)
        requires
            old(self).wf(),
            min_increase matches Some(v) ==> v <= RATE_ONE,
        ensures
            final(self).wf(),
            match r {
                Ok(()) => {
                    &&& sender@ == old(self).config.owner@
                    &&& (auction_cancel_fee_rate matches Some(f) ==> f <= RATE_ONE)
                    &&& final(self).config.owner == (match owner {
                        Some(o) => o,
                        None => old(self).config.owner,
                    })
                    &&& final(self).config.min_increase == (match min_increase {
                        Some(v) => v,
                        None => old(self).config.min_increase,
                    })
                    &&& final(self).config.max_auction_duration_block == (
                    match max_auction_duration_block {
                        Some(v) => v,
                        None => old(self).config.max_auction_duration_block,
                    })
                    &&& final(self).config.max_auction_duration_second == (
                    match max_auction_duration_second {
                        Some(v) => v,
                        None => old(self).config.max_auction_duration_second,
                    })
                    &&& final(self).config.auction_cancel_fee_rate == (match auction_cancel_fee_rate {
                        Some(v) => v,
                        None => old(self).config.auction_cancel_fee_rate,
                    })
                    &&& final(self).collections@ == old(self).collections@
                    &&& final(self).orders@ == old(self).orders@
                    &&& final(self).seller_index@ == old(self).seller_index@
                    &&& final(self).order_index == old(self).order_index
                },
                Err(e) => {
                    &&& *final(self) == *old(self)
                    &&& if sender@ != old(self).config.owner@ {
                        e == ContractError::Unauthorized {}
                    } else {
                        &&& auction_cancel_fee_rate matches Some(f) && f > RATE_ONE
                        &&& e == ContractError::InvalidFeeRate {}
                    }
                },
            },
    {
        if !(*sender == self.config.owner) {
            return Err(ContractError::Unauthorized {});
        }
        if let Some(f) = auction_cancel_fee_rate {
            if f > RATE_ONE {
                return Err(ContractError::InvalidFeeRate {});
            }
            self.config.auction_cancel_fee_rate = f;
        }
        if let Some(o) = owner {
            self.config.owner = o;
        }
        if let Some(v) = min_increase {
            self.config.min_increase = v;
        }
        if let Some(v) = max_auction_duration_block {
            self.config.max_auction_duration_block = v;
        }
        if let Some(v) = max_auction_duration_second {
            self.config.max_auction_duration_second = v;
        }
        Ok(())
    }

    /// Adds a collection record, for the owner only: at most one record
    /// per collection address, royalty rates summing to at most one.
    pub fn add_collection(
        &mut self,
        sender: &String,
        nft_address: String,
        support_assets: Vec<AssetInfo>,
        royalties: Vec<Royalty>,
    ) -> (r: Result<(), ContractError>)
        requires
            old(self).wf(),
        ensures
            final(self).wf(),
            match r {
                Ok(()) => {
                    &&& sender@ == old(self).config.owner@
                    &&& !spec_has_collection(old(self).collections@, nft_address@)
                    &&& royalty_sum(royalties@) <= RATE_ONE
                    &&& final(self).collections@ == old(self).collections@.push(
                        CollectionInfo { nft_address, support_assets, royalties },
                    )
                    &&& final(self).config == old(self).config
                    &&& final(self).orders@ == old(self).orders@
                    &&& final(self).seller_index@ == old(self).seller_index@
                    &&& final(self).order_index == old(self).order_index
                },
                Err(e) => {
                    &&& *final(self) == *old(self)
                    &&& if sender@ != old(self).config.owner@ {
                        e == ContractError::Unauthorized {}
                    } else if spec_has_collection(old(self).collections@, nft_address@) {
                        e == ContractError::CollectionExist {}
                    } else {
                        &&& royalty_sum(royalties@) > RATE_ONE
                        &&& e == ContractError::InvalidRoyaltyRate {}
                    }
                },
            },
    {
        if !(*sender == self.config.owner) {
            return Err(ContractError::Unauthorized {});
        }
        if let Some(_i) = self.find_collection(&nft_address) {
            return Err(ContractError::CollectionExist {});
        }
        let valid_sum: bool = match royalty_rate_total(&royalties) {
            Some(total) => total <= RATE_ONE,
            None => false,
        };
        if !valid_sum {
            return Err(ContractError::InvalidRoyaltyRate {});
        }
        let ghost pre = *self;
        self.collections.push(CollectionInfo { nft_address, support_assets, royalties });
        proof {
            let post = self.collections@;
            assert forall|i: int| 0 <= i < self.orders@.len() implies spec_has_collection(
                post,
                (#[trigger] self.orders@[i]).nft_address@,
            ) by {
                let k = spec_collection_idx(pre.collections@, self.orders@[i].nft_address@);
                assert(post[k].nft_address@ == self.orders@[i].nft_address@);
            }
        }
        Ok(())
    }

    /// Replaces a collection's supported asset kinds and/or royalty list,
    /// for the owner only. Emptying the supported kinds is the way to
    /// delist a collection; the record itself is never deleted.
    pub fn update_collection(
        &mut self,
        sender: &String,
        nft_address: &String,
        support_assets: Option<Vec<AssetInfo>>,
        royalties: Option<Vec<Royalty>>,
    ) -> (r: Result<(), ContractError>)
        requires
            old(self).wf(),
        ensures
            final(self).wf(),
            match r {
                Ok(()) => {
                    &&& sender@ == old(self).config.owner@
                    &&& spec_has_collection(old(self).collections@, nft_address@)
                    &&& (royalties matches Some(v) ==> royalty_sum(v@) <= RATE_ONE)
                    &&& ({
                        let idx = spec_collection_idx(old(self).collections@, nft_address@);
                        let was = old(self).collections@[idx];
                        &&& final(self).collections@.len() == old(self).collections@.len()
                        &&& forall|k: int|
                            0 <= k < final(self).collections@.len() && k != idx
                                ==> final(self).collections@[k] == old(self).collections@[k]
                        &&& final(self).collections@[idx].nft_address@ == was.nft_address@
                        &&& final(self).collections@[idx].support_assets@ == (match support_assets {
                            Some(v) => v@,
                            None => was.support_assets@,
                        })
                        &&& final(self).collections@[idx].royalties@ == (match royalties {
                            Some(v) => v@,
                            None => was.royalties@,
                        })
                    })
                    &&& final(self).config == old(self).config
                    &&& final(self).orders@ == old(self).orders@
                    &&& final(self).seller_index@ == old(self).seller_index@
                    &&& final(self).order_index == old(self).order_index
                },
                Err(e) => {
                    &&& *final(self) == *old(self)
                    &&& if sender@ != old(self).config.owner@ {
                        e == ContractError::Unauthorized {}
                    } else if !spec_has_collection(old(self).collections@, nft_address@) {
                        e == ContractError::CollectionNotFound {}
                    } else {
                        &&& royalties matches Some(v) && royalty_sum(v@) > RATE_ONE
                        &&& e == ContractError::InvalidRoyaltyRate {}
                    }
                },
            },
    {
        if !(*sender == self.config.owner) {
            return Err(ContractError::Unauthorized {});
        }
        let i = match self.find_collection(nft_address) {
            Some(i) => i,
            None => {
                return Err(ContractError::CollectionNotFound {});
            },
        };
        if let Some(rs) = &royalties {
            let valid_sum: bool = match royalty_rate_total(rs) {
                Some(total) => total <= RATE_ONE,
                None => false,
            };
            if !valid_sum {
                return Err(ContractError::InvalidRoyaltyRate {});
            }
        }
        let ghost pre = *self;
        let updated = CollectionInfo {
            nft_address: self.collections[i].nft_address.clone(),
            support_assets: match support_assets {
                Some(v) => v,
                None => clone_asset_infos(&self.collections[i].support_assets),
            },
            royalties: match royalties {
                Some(v) => v,
                None => clone_royalties(&self.collections[i].royalties),
            },
        };
        self.collections.set(i, updated);
        proof {
            assert(collections_unique(self.collections@));
            assert forall|k: int| 0 <= k < self.orders@.len() implies spec_has_collection(
                self.collections@,
                (#[trigger] self.orders@[k]).nft_address@,
            ) by {
                let j = spec_collection_idx(pre.collections@, self.orders@[k].nft_address@);
                assert(self.collections@[j].nft_address@ == self.orders@[k].nft_address@);
            }
            assert forall|k: int|
                0 <= k < self.collections@.len() implies collection_wf(
                #[trigger] self.collections@[k],
            ) by {
                if k != i {
                    assert(self.collections@[k] == pre.collections@[k]);
                }
            }
        }
        Ok(())
    }

    /// Creates a fixed-price listing for an item the custody collaborator
    /// has already escrowed. The price's kind must be supported by the
    /// item's collection.
    pub fn make_fixed_price_order(
        &mut self,
        sender: String,
        nft_address: String,
        token_id: String,
        price: Asset,
    ) -> (r: Result<u64, ContractError>)
        requires
            old(self).wf(),
            old(self).order_index < u64::MAX,
        ensures
            final(self).wf(),
            make_fixed_price_post(
                *old(self),
                *final(self),
                r,
                sender,
                nft_address,
                token_id,
                price,
            ),
    {
        let ci = match self.find_collection(&nft_address) {
            Some(i) => i,
            None => {
                return Err(ContractError::CollectionNotFound {});
            },
        };
        if !supports_asset(&self.collections[ci].support_assets, &price.info) {
            return Err(ContractError::Unsupport {});
        }
        let id = self.order_index;
        let ghost pre = *self;
        self.orders.push(
            Order {
                id,
                seller_address: sender.clone(),
                nft_address,
                token_id,
                price: Some(price),
                auction_info: None,
            },
        );
        self.seller_index.push(SellerIndexEntry { seller_address: sender, order_id: id });
        self.order_index = id + 1;
        proof {
            self.lemma_wf_after_push(pre);
        }
        Ok(id)
    }

    /// Creates an auction listing for an item the custody collaborator
    /// has already escrowed, with a starting price, a deadline, and an
    /// optional immediate-buyout price of the same kind.
    pub fn make_auction_order(
        &mut self,
        block: &BlockInfo,
        sender: String,
        nft_address: String,
        token_id: String,
        start_price: Asset,
        expiration: Expiration,
        fixed_price: Option<Asset>,
    ) -> (r: Result<u64, ContractError>)
        requires
            old(self).wf(),
            old(self).order_index < u64::MAX,
        ensures
            final(self).wf(),
            make_auction_post(
                *old(self),
                *final(self),
                r,
                *block,
                sender,
                nft_address,
                token_id,
                start_price,
                expiration,
                fixed_price,
            ),
    {
        let ci = match self.find_collection(&nft_address) {
            Some(i) => i,
            None => {
                return Err(ContractError::CollectionNotFound {});
            },
        };
        if let Some(fp) = &fixed_price {
            if !(fp.info == start_price.info) {
                return Err(ContractError::AssetInfoMismatch {});
            }
        }
        if !supports_asset(&self.collections[ci].support_assets, &start_price.info) {
            return Err(ContractError::Unsupport {});
        }
        match expiration {
            Expiration::Never => {
                return Err(ContractError::Never {});
            },
            Expiration::AtHeight(h) => {
                if block.height >= h {
                    return Err(ContractError::Expired {});
                }
                if h - block.height > self.config.max_auction_duration_block {
                    return Err(ContractError::MaxDuration {});
                }
            },
            Expiration::AtTime(t) => {
                if block.time_nanos >= t {
                    return Err(ContractError::Expired {});
                }
                let t_seconds: u64 = t / NANOS_PER_SECOND;
                let now_seconds: u64 = block.time_nanos / NANOS_PER_SECOND;
                proof {
                    vstd::arithmetic::div_mod::lemma_div_is_ordered(
                        block.time_nanos as int,
                        t as int,
                        NANOS_PER_SECOND as int,
                    );
                }
                if t_seconds - now_seconds > self.config.max_auction_duration_second {
                    return Err(ContractError::MaxDuration {});
                }
            },
        }
        let id = self.order_index;
        let ghost pre = *self;
        self.orders.push(
            Order {
                id,
                seller_address: sender.clone(),
                nft_address,
                token_id,
                price: fixed_price,
                auction_info: Some(
                    AuctionInfo { highest_bid: start_price, bidder: None, expiration },
                ),
            },
        );
        self.seller_index.push(SellerIndexEntry { seller_address: sender, order_id: id });
        self.order_index = id + 1;
        proof {
            self.lemma_wf_after_push(pre);
        }
        Ok(id)
    }

    /// Applies a bid to an open auction: refunds the outbid bidder if one
    /// exists and records the new highest bid and bidder. The order stays
    /// open.
    pub fn bid(
        &mut self,
        block: &BlockInfo,
        sender: String,
        order_id: u64,
        bid_price: Asset,
        funds: &Vec<Coin>,
    ) -> (r: Result<Vec<TransferInstruction>, ContractError>)
        requires
            old(self).wf(),
        ensures
            final(self).wf(),
            bid_post(
                *old(self),
                *final(self),
                match r {
                    Ok(v) => Ok(v@),
                    Err(e) => Err(e),
                },
                *block,
                sender,
                order_id,
                bid_price,
                funds@,
            ),
    {
        let idx = match self.find_order(order_id) {
            Some(i) => i,
            None => {
                return Err(ContractError::OrderNotFound {});
            },
        };
        let ai = match &self.orders[idx].auction_info {
            Some(a) => a.clone(),
            None => {
                return Err(ContractError::NotAuction {});
            },
        };
        if !native_balance_matches(&bid_price, funds) {
            return Err(ContractError::TokenMismatch {});
        }
        if !(bid_price.info == ai.highest_bid.info) {
            return Err(ContractError::AssetInfoMismatch {});
        }
        if ai.expiration.is_expired(block) {
            return Err(ContractError::Expired {});
        }
        let rate: u128 = RATE_ONE + self.config.min_increase;
        let min_bid = match checked_mul_rate(ai.highest_bid.amount, rate) {
            Some(m) => m,
            None => {
                return Err(ContractError::Overflow {});
            },
        };
        if min_bid > bid_price.amount {
            return Err(ContractError::MinPrice { min_bid_amount: min_bid });
        }
        let ghost pre = *self;
        let updated = Order {
            id: self.orders[idx].id,
            seller_address: self.orders[idx].seller_address.clone(),
            nft_address: self.orders[idx].nft_address.clone(),
            token_id: self.orders[idx].token_id.clone(),
            price: match &self.orders[idx].price {
                Some(p) => Some(p.clone()),
                None => None,
            },
            auction_info: Some(
                AuctionInfo {
                    highest_bid: bid_price,
                    bidder: Some(sender),
                    expiration: ai.expiration,
                },
            ),
        };
        self.orders.set(idx, updated);
        proof {
            self.lemma_wf_after_update(pre, idx as int);
        }
        let mut instrs: Vec<TransferInstruction> = Vec::new();
        match ai.bidder {
            Some(b) => {
                instrs.push(TransferInstruction::Fund { asset: ai.highest_bid, recipient: b });
                proof {
                    let ghost spec_ai = pre.orders@[idx as int].auction_info->0;
                    assert(instrs@ =~= seq![
                        TransferInstruction::Fund {
                            asset: spec_ai.highest_bid,
                            recipient: spec_ai.bidder->0,
                        },
                    ]);
                }
            },
            None => {
                proof {
                    assert(instrs@ =~= Seq::<TransferInstruction>::empty());
                }
            },
        }
        Ok(instrs)
    }

    /// Handles an item-deposit notification: the custody collaborator has
    /// escrowed `token_id` of collection `nft_address` on `sender`'s
    /// behalf, and the decoded payload says which kind of listing to make.
    pub fn receive_nft(
        &mut self,
        block: &BlockInfo,
        nft_address: String,
        sender: String,
        token_id: String,
        msg: Cw721HookMsg,
    ) -> (r: Result<u64, ContractError>)
        requires
            old(self).wf(),
            old(self).order_index < u64::MAX,
        ensures
            final(self).wf(),
            match msg {
                Cw721HookMsg::MakeFixedPriceOrder { price } => make_fixed_price_post(
                    *old(self),
                    *final(self),
                    r,
                    sender,
                    nft_address,
                    token_id,
                    price,
                ),
                Cw721HookMsg::MakeAuctionOrder { start_price, expiration, fixed_price } => (
                make_auction_post(
                    *old(self),
                    *final(self),
                    r,
                    *block,
                    sender,
                    nft_address,
                    token_id,
                    start_price,
                    expiration,
                    fixed_price,
                )),
            },
    {
        match msg {
            Cw721HookMsg::MakeFixedPriceOrder { price } => self.make_fixed_price_order(
                sender,
                nft_address,
                token_id,
                price,
            ),
            Cw721HookMsg::MakeAuctionOrder { start_price, expiration, fixed_price } => self
                .make_auction_order(
                block,
                sender,
                nft_address,
                token_id,
                start_price,
                expiration,
                fixed_price,
            ),
        }
    }

    /// Handles a token-deposit notification: the fungible-asset
    /// collaborator has escrowed `amount` tokens of its own contract on
    /// `sender`'s behalf, and the decoded payload says whether they buy
    /// an order, bid on one, or pay a cancellation fee.
    pub fn receive_token(
        &mut self,
        block: &BlockInfo,
        token_contract: String,
        sender: String,
        amount: u128,
        msg: Cw20HookMsg,
    ) -> (r: Result<MarketResponse, ContractError>)
        requires
            old(self).wf(),
        ensures
            final(self).wf(),
            ({
                let asset = Asset { info: AssetInfo::Token { contract_addr: token_contract }, amount };
                match msg {
                    Cw20HookMsg::ExecuteOrder { order_id } => {
                        &&& (r matches Ok(resp) ==> resp matches MarketResponse::Settled { .. })
                        &&& execute_order_post(
                            *old(self),
                            *final(self),
                            match r {
                                Ok(MarketResponse::Settled { instructions, remainder }) => Ok(
                                    (instructions@, remainder),
                                ),
                                Ok(_) => Ok((Seq::<TransferInstruction>::empty(), 0)),
                                Err(e) => Err(e),
                            },
                            sender,
                            order_id,
                            Some(asset),
                            Seq::<Coin>::empty(),
                        )
                    },
                    Cw20HookMsg::Bid { order_id } => {
                        &&& (r matches Ok(resp) ==> resp matches MarketResponse::BidPlaced { .. })
                        &&& bid_post(
                            *old(self),
                            *final(self),
                            match r {
                                Ok(MarketResponse::BidPlaced { instructions }) => Ok(instructions@),
                                Ok(_) => Ok(Seq::<TransferInstruction>::empty()),
                                Err(e) => Err(e),
                            },
                            *block,
                            sender,
                            order_id,
                            asset,
                            Seq::<Coin>::empty(),
                        )
                    },
                    Cw20HookMsg::CancelOrder { order_id } => {
                        &&& (r matches Ok(resp) ==> resp matches MarketResponse::Cancelled { .. })
                        &&& cancel_order_post(
                            *old(self),
                            *final(self),
                            match r {
                                Ok(MarketResponse::Cancelled { instructions }) => Ok(instructions@),
                                Ok(_) => Ok(Seq::<TransferInstruction>::empty()),
                                Err(e) => Err(e),
                            },
                            *block,
                            sender,
                            order_id,
                            Some(asset),
                            Seq::<Coin>::empty(),
                        )
                    },
                }
            }),
    {
        let asset = Asset { info: AssetInfo::Token { contract_addr: token_contract }, amount };
        let no_funds: Vec<Coin> = Vec::new();
        proof {
            assert(no_funds@ =~= Seq::<Coin>::empty());
        }
        match msg {
            Cw20HookMsg::ExecuteOrder { order_id } => match self.execute_order(
                sender,
                order_id,
                Some(asset),
                &no_funds,
            ) {
                Ok(s) => Ok(
                    MarketResponse::Settled {
                        instructions: s.instructions,
                        remainder: s.remainder,
                    },
                ),
                Err(e) => Err(e),
            },
            Cw20HookMsg::Bid { order_id } => match self.bid(
                block,
                sender,
                order_id,
                asset,
                &no_funds,
            ) {
                Ok(instructions) => Ok(MarketResponse::BidPlaced { instructions }),
                Err(e) => Err(e),
            },
            Cw20HookMsg::CancelOrder { order_id } => match self.cancel_order(
                block,
                &sender,
                order_id,
                Some(asset),
                &no_funds,
            ) {
                Ok(instructions) => Ok(MarketResponse::Cancelled { instructions }),
                Err(e) => Err(e),
            },
        }
    }

    /// Buys an order outright at its fixed price: checks the payment,
    /// refunds any standing bid, transfers the item to the buyer, pays
    /// the royalties and the seller's remainder, and removes the order.
    pub fn execute_order(
        &mut self,
        sender: String,
        order_id: u64,
        payment: Option<Asset>,
        funds: &Vec<Coin>,
    ) -> (r: Result<Settlement, ContractError>)
        requires
            old(self).wf(),
        ensures
            final(self).wf(),
            execute_order_post(
                *old(self),
                *final(self),
                match r {
                    Ok(s) => Ok((s.instructions@, s.remainder)),
                    Err(e) => Err(e),
                },
                sender,
                order_id,
                payment,
                funds@,
            ),
    {
        let idx = match self.find_order(order_id) {
            Some(i) => i,
            None => {
                return Err(ContractError::OrderNotFound {});
            },
        };
        let price = match &self.orders[idx].price {
            Some(p) => p.clone(),
            None => {
                return Err(ContractError::NoFixedPrice {});
            },
        };
        match &payment {
            Some(a) => {
                if !(price == *a) {
                    return Err(ContractError::TokenMismatch {});
                }
            },
            None => {
                if !native_balance_matches(&price, funds) {
                    return Err(ContractError::TokenMismatch {});
                }
            },
        }
        let (instructions, remainder) = self.settle_order(idx, &sender, &price, true);
        Ok(Settlement { instructions, remainder })
    }

    /// Settles an auction after its deadline: with a bidder, the item
    /// goes to the bidder and the highest bid is split between royalties
    /// and the seller; without one, the item returns to the seller and no
    /// funds move. The order is removed.
    pub fn execute_auction(&mut self, block: &BlockInfo, order_id: u64) -> (r: Result<
        Settlement,
        ContractError,
    >)
        requires
            old(self).wf(),
        ensures
            final(self).wf(),
            execute_auction_post(
                *old(self),
                *final(self),
                match r {
                    Ok(s) => Ok((s.instructions@, s.remainder)),
                    Err(e) => Err(e),
                },
                *block,
                order_id,
            ),
    {
        let idx = match self.find_order(order_id) {
            Some(i) => i,
            None => {
                return Err(ContractError::OrderNotFound {});
            },
        };
        let ai = match &self.orders[idx].auction_info {
            Some(a) => a.clone(),
            None => {
                return Err(ContractError::NotAuction {});
            },
        };
        if !ai.expiration.is_expired(block) {
            return Err(ContractError::NotExpired {});
        }
        match ai.bidder {
            Some(b) => {
                let (instructions, remainder) = self.settle_order(idx, &b, &ai.highest_bid, false);
                Ok(Settlement { instructions, remainder })
            },
            None => {
                let ghost pre = *self;
                let order = self.orders.remove(idx);
                let _entry = self.seller_index.remove(idx);
                proof {
                    self.lemma_wf_after_remove(pre, idx as int);
                }
                let mut instructions: Vec<TransferInstruction> = Vec::new();
                instructions.push(
                    TransferInstruction::Item {
                        nft_address: order.nft_address,
                        token_id: order.token_id,
                        recipient: order.seller_address,
                    },
                );
                proof {
                    let order0 = pre.orders@[idx as int];
                    assert(instructions@ =~= seq![
                        spec_item_transfer(order0, order0.seller_address),
                    ]);
                }
                Ok(Settlement { instructions, remainder: ai.highest_bid.amount })
            },
        }
    }

    /// Cancels an order, for its seller only: refunds any standing bid
    /// together with exactly the cancellation fee the seller supplies,
    /// returns the item to the seller, and removes the order. An expired
    /// auction must be settled instead.
    pub fn cancel_order(
        &mut self,
        block: &BlockInfo,
        sender: &String,
        order_id: u64,
        cancel_fee: Option<Asset>,
        funds: &Vec<Coin>,
    ) -> (r: Result<Vec<TransferInstruction>, ContractError>)
        requires
            old(self).wf(),
        ensures
            final(self).wf(),
            cancel_order_post(
                *old(self),
                *final(self),
                match r {
                    Ok(v) => Ok(v@),
                    Err(e) => Err(e),
                },
                *block,
                *sender,
                order_id,
                cancel_fee,
                funds@,
            ),
    {
        let idx = match self.find_order(order_id) {
            Some(i) => i,
            None => {
                return Err(ContractError::OrderNotFound {});
            },
        };
        if !(self.orders[idx].seller_address == *sender) {
            return Err(ContractError::Unauthorized {});
        }
        let mut refund: Option<TransferInstruction> = None;
        if let Some(ai) = &self.orders[idx].auction_info {
            if ai.expiration.is_expired(block) {
                return Err(ContractError::Expired {});
            }
            if let Some(b) = &ai.bidder {
                let fee = mul_rate(ai.highest_bid.amount, self.config.auction_cancel_fee_rate);
                let fee_asset = Asset { info: ai.highest_bid.info.clone(), amount: fee };
                if !cancel_fee_matches(&fee_asset, &cancel_fee, funds) {
                    return Err(ContractError::CancelFeeMismatch { fee_asset });
                }
                let total = match ai.highest_bid.amount.checked_add(fee) {
                    Some(t) => t,
                    None => {
                        return Err(ContractError::Overflow {});
                    },
                };
                refund = Some(
                    TransferInstruction::Fund {
                        asset: Asset { info: ai.highest_bid.info.clone(), amount: total },
                        recipient: b.clone(),
                    },
                );
            }
        }
        let ghost pre = *self;
        let order = self.orders.remove(idx);
        let _entry = self.seller_index.remove(idx);
        proof {
            self.lemma_wf_after_remove(pre, idx as int);
        }
        let mut instrs: Vec<TransferInstruction> = Vec::new();
        if let Some(f) = refund {
            instrs.push(f);
        }
        instrs.push(
            TransferInstruction::Item {
                nft_address: order.nft_address,
                token_id: order.token_id,
                recipient: order.seller_address,
            },
        );
        proof {
            let order0 = pre.orders@[idx as int];
            match order0.auction_info {
                None => {
                    assert(instrs@ =~= seq![spec_item_transfer(order0, order0.seller_address)]);
                },
                Some(ai) => {
                    match ai.bidder {
                        None => {
                            assert(instrs@ =~= seq![
                                spec_item_transfer(order0, order0.seller_address),
                            ]);
                        },
                        Some(b) => {
                            let fee = rate_mul(
                                ai.highest_bid.amount as int,
                                pre.config.auction_cancel_fee_rate as int,
                            );
                            assert(instrs@ =~= seq![
                                TransferInstruction::Fund {
                                    asset: Asset {
                                        info: ai.highest_bid.info,
                                        amount: (ai.highest_bid.amount + fee) as u128,
                                    },
                                    recipient: b,
                                },
                                spec_item_transfer(order0, order0.seller_address),
                            ]);
                        },
                    }
                },
            }
        }
        Ok(instrs)
    }

    /// Removes the order at `idx` and emits the settlement instructions:
    /// the standing bid's refund (unless the auction itself is settled),
    /// the item to the buyer, the royalty payouts in list order, and the
    /// remainder to the seller. Returns the instructions and the
    /// remainder.
    fn settle_order(&mut self, idx: usize, buyer: &String, price: &Asset, include_refund: bool) -> (r:
        (Vec<TransferInstruction>, u128))
        requires
            old(self).wf(),
            idx < old(self).orders@.len(),
        ensures
            final(self).wf(),
            ({
                let order = old(self).orders@[idx as int];
                let rs = spec_collection_at(old(self).collections@, order.nft_address@).royalties@;
                &&& r.0@ == spec_settlement(order, *buyer, *price, rs, include_refund)
                &&& r.1 == spec_remainder(*price, rs)
                &&& 0 <= spec_remainder(*price, rs) <= price.amount
                &&& final(self).orders@ == old(self).orders@.remove(idx as int)
                &&& final(self).seller_index@ == old(self).seller_index@.remove(idx as int)
                &&& final(self).collections@ == old(self).collections@
                &&& final(self).config == old(self).config
                &&& final(self).order_index == old(self).order_index
            }),
    {
        let ghost pre = *self;
        let order = self.orders.remove(idx);
        let _entry = self.seller_index.remove(idx);
        proof {
            self.lemma_wf_after_remove(pre, idx as int);
        }
        let mut instrs: Vec<TransferInstruction> = Vec::new();
        if include_refund {
            if let Some(ai) = &order.auction_info {
                if let Some(b) = &ai.bidder {
                    instrs.push(
                        TransferInstruction::Fund {
                            asset: ai.highest_bid.clone(),
                            recipient: b.clone(),
                        },
                    );
                }
            }
        }
        proof {
            assert(instrs@ =~= (if include_refund {
                spec_bid_refund(order)
            } else {
                Seq::<TransferInstruction>::empty()
            }));
        }
        instrs.push(
            TransferInstruction::Item {
                nft_address: order.nft_address.clone(),
                token_id: order.token_id.clone(),
                recipient: buyer.clone(),
            },
        );
        let ci = match self.find_collection(&order.nft_address) {
            Some(i) => i,
            None => {
                proof {
                    assert(spec_has_collection(pre.collections@, order.nft_address@));
                }
                vstd::pervasive::unreached()
            },
        };
        let ghost rs = self.collections@[ci as int].royalties@;
        proof {
            assert(collection_wf(self.collections@[ci as int]));
            assert(rs.take(0int) =~= Seq::<Royalty>::empty());
        }
        let ghost prefix = instrs@;
        let n: usize = self.collections[ci].royalties.len();
        let mut remain: u128 = price.amount;
        let mut k: usize = 0;
        while k < n
            invariant
                0 <= k <= n,
                ci < self.collections@.len(),
                n == rs.len(),
                rs == self.collections@[ci as int].royalties@,
                royalty_sum(rs) <= RATE_ONE,
                remain == price.amount - payout_total(price.amount, rs.take(k as int)),
                0 <= payout_total(price.amount, rs.take(k as int)) <= price.amount,
                instrs@ == prefix + spec_royalty_instrs(*price, rs.take(k as int)),
            decreases n - k,
        {
            let ghost taken = rs.take(k as int);
            let ghost taken_next = rs.take(k + 1int);
            proof {
                assert(taken_next.drop_last() =~= taken);
                assert(taken_next.last() == rs[k as int]);
                crate::state::lemma_royalty_rate_le_sum(rs, k as int);
                crate::state::lemma_royalty_sum_nonneg(rs);
            }
            let rate = self.collections[ci].royalties[k].royalty_rate;
            let payout = mul_rate(price.amount, rate);
            instrs.push(
                TransferInstruction::Fund {
                    asset: Asset { info: price.info.clone(), amount: payout },
                    recipient: self.collections[ci].royalties[k].address.clone(),
                },
            );
            proof {
                lemma_payout_total_bounds(price.amount, taken_next);
                crate::state::lemma_royalty_sum_take_le(rs, k + 1int);
                crate::state::lemma_royalty_sum_nonneg(taken_next);
                crate::rates::lemma_rate_mul_le_amount(price.amount as int, royalty_sum(taken_next));
                assert(payout_total(price.amount, taken_next) <= price.amount);
                assert(instrs@ =~= prefix + spec_royalty_instrs(*price, taken_next));
            }
            remain = remain - payout;
            k = k + 1;
        }
        proof {
            assert(rs.take(n as int) =~= rs);
        }
        instrs.push(
            TransferInstruction::Fund {
                asset: Asset { info: price.info.clone(), amount: remain },
                recipient: order.seller_address.clone(),
            },
        );
        proof {
            let order0 = pre.orders@[idx as int];
            let rs0 = spec_collection_at(pre.collections@, order0.nft_address@).royalties@;
            assert(rs0 == rs);
            assert(instrs@ =~= spec_settlement(order0, *buyer, *price, rs0, include_refund));
        }
        (instrs, remain)
    }

    /// The invariant survives taking one order out of the ledger together
    /// with its seller-index entry.
    proof fn lemma_wf_after_remove(self, pre: MarketContract, idx: int)
        requires
            pre.wf(),
            0 <= idx < pre.orders@.len(),
            self.orders@ == pre.orders@.remove(idx),
            self.seller_index@ == pre.seller_index@.remove(idx),
            self.collections@ == pre.collections@,
            self.config == pre.config,
            self.order_index == pre.order_index,
        ensures
            self.wf(),
    {
        let orders = self.orders@;
        assert(forall|k: int| 0 <= k < idx ==> orders[k] == pre.orders@[k]);
        assert(forall|k: int|
            idx <= k < orders.len() ==> orders[k] == pre.orders@[k + 1]);
        assert forall|i: int, j: int| 0 <= i < j < orders.len() implies (
        #[trigger] orders[i]).id < (#[trigger] orders[j]).id by {
            let i0 = if i < idx { i } else { i + 1 };
            let j0 = if j < idx { j } else { j + 1 };
            assert(pre.orders@[i0].id < pre.orders@[j0].id);
        }
        assert forall|i: int| 0 <= i < orders.len() implies ((#[trigger] orders[i]).id
            < self.order_index && order_wf(orders[i]) && spec_has_collection(
            self.collections@,
            orders[i].nft_address@,
        )) by {
            let i0 = if i < idx { i } else { i + 1 };
            assert(orders[i] == pre.orders@[i0]);
            assert(spec_has_collection(pre.collections@, pre.orders@[i0].nft_address@));
        }
        assert forall|i: int| 0 <= i < orders.len() implies ((#[trigger] self.seller_index@[i]).order_id
            == orders[i].id && self.seller_index@[i].seller_address@
            == orders[i].seller_address@) by {
            let i0 = if i < idx { i } else { i + 1 };
            assert(self.seller_index@[i] == pre.seller_index@[i0]);
            assert(orders[i] == pre.orders@[i0]);
        }
    }

    /// The invariant survives replacing one order with another that keeps
    /// its id, seller and collection and stays well formed.
    proof fn lemma_wf_after_update(self, pre: MarketContract, idx: int)
        requires
            pre.wf(),
            0 <= idx < pre.orders@.len(),
            self.orders@ == pre.orders@.update(idx, self.orders@[idx]),
            self.orders@[idx].id == pre.orders@[idx].id,
            self.orders@[idx].seller_address@ == pre.orders@[idx].seller_address@,
            self.orders@[idx].nft_address@ == pre.orders@[idx].nft_address@,
            order_wf(self.orders@[idx]),
            self.seller_index@ == pre.seller_index@,
            self.collections@ == pre.collections@,
            self.config == pre.config,
            self.order_index == pre.order_index,
        ensures
            self.wf(),
    {
        let orders = self.orders@;
        assert(forall|k: int|
            0 <= k < orders.len() && k != idx ==> orders[k] == pre.orders@[k]);
        assert forall|i: int, j: int| 0 <= i < j < orders.len() implies (
        #[trigger] orders[i]).id < (#[trigger] orders[j]).id by {
            assert(pre.orders@[i].id < pre.orders@[j].id);
        }
        assert forall|i: int| 0 <= i < orders.len() implies spec_has_collection(
            self.collections@,
            (#[trigger] orders[i]).nft_address@,
        ) by {
            assert(spec_has_collection(pre.collections@, pre.orders@[i].nft_address@));
        }
    }

    /// The invariant survives appending one well-formed order with the
    /// fresh id, mirrored in the seller index, with the counter moved one
    /// past it.
    proof fn lemma_wf_after_push(self, pre: MarketContract)
        requires
            pre.wf(),
            pre.order_index < u64::MAX,
            self.orders@.len() == pre.orders@.len() + 1,
            self.orders@ == pre.orders@.push(self.orders@.last()),
            self.orders@.last().id == pre.order_index,
            order_wf(self.orders@.last()),
            spec_has_collection(pre.collections@, self.orders@.last().nft_address@),
            self.seller_index@ == pre.seller_index@.push(
                SellerIndexEntry {
                    seller_address: self.orders@.last().seller_address,
                    order_id: pre.order_index,
                },
            ),
            self.collections@ == pre.collections@,
            self.config == pre.config,
            self.order_index == pre.order_index + 1,
        ensures
            self.wf(),
    {
        let orders = self.orders@;
        let n = pre.orders@.len() as int;
        assert(forall|i: int| 0 <= i < n ==> orders[i] == pre.orders@[i]);
        assert forall|i: int, j: int| 0 <= i < j < orders.len() implies (
        #[trigger] orders[i]).id < (#[trigger] orders[j]).id by {
            if j < n {
                assert(pre.orders@[i].id < pre.orders@[j].id);
            } else {
                assert(pre.orders@[i].id < pre.order_index);
            }
        }
        assert forall|i: int| 0 <= i < orders.len() implies spec_has_collection(
            self.collections@,
            (#[trigger] orders[i]).nft_address@,
        ) by {
            if i < n {
                assert(spec_has_collection(pre.collections@, pre.orders@[i].nft_address@));
            }
        }
        assert(self.seller_index@.len() == orders.len());
    }
}

} // verus!
