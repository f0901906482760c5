//! The engine's cross-cutting guarantees, stated once over the same
//! spec functions that the operations' contracts use, and proved from
//! them: conservation of value in settlement, monotonic bidding, the
//! finality of removal, and the behaviour of the order id counter.

use vstd::prelude::*;

use crate::asset::{Asset, Coin, TransferInstruction};
use crate::error::ContractError;
use crate::execute::{
    bid_post, cancel_order_post, execute_auction_post, execute_order_post, lemma_payout_total_le_amount,
    make_auction_post, make_fixed_price_post, payout_total, spec_min_bid, spec_remainder,
};
use crate::rates::RATE_ONE;
use crate::state::{
    orders_sorted, royalty_sum, spec_has_order, spec_order_at, spec_order_idx, BlockInfo,
    Expiration, MarketContract, Order, Royalty,
};

verus! {

/// Conservation of value: for every settlement price and every royalty
/// list whose rates sum to at most one, the royalty payouts plus the
/// seller's remainder equal the price exactly, and the payouts alone
/// never exceed it.
pub proof fn lemma_value_conservation(price: Asset, rs: Seq<Royalty>)
    requires
        royalty_sum(rs) <= RATE_ONE,
    ensures
        0 <= payout_total(price.amount, rs) <= price.amount,
        payout_total(price.amount, rs) + spec_remainder(price, rs) == price.amount,
{
    lemma_payout_total_le_amount(price.amount, rs);
}

/// The total amount of funds a list of transfer instructions moves; the
/// item transfer moves no funds.
pub open spec fn instr_fund_total(instrs: Seq<TransferInstruction>) -> int
    decreases instrs.len(),
{
    if instrs.len() == 0 {
        0
    } else {
        instr_fund_total(instrs.drop_last()) + (match instrs.last() {
            TransferInstruction::Fund { asset, .. } => asset.amount as int,
            TransferInstruction::Item { .. } => 0,
        })
    }
}

/// The royalty payout instructions move exactly the payout total.
proof fn lemma_royalty_instrs_total(price: Asset, rs: Seq<Royalty>)
    requires
        royalty_sum(rs) <= RATE_ONE,
    ensures
        instr_fund_total(crate::execute::spec_royalty_instrs(price, rs)) == payout_total(
            price.amount,
            rs,
        ),
    decreases rs.len(),
{
    let instrs = crate::execute::spec_royalty_instrs(price, rs);
    if rs.len() > 0 {
        assert(instrs.drop_last() =~= crate::execute::spec_royalty_instrs(price, rs.drop_last()));
        crate::state::lemma_royalty_sum_nonneg(rs.drop_last());
        crate::state::lemma_royalty_rate_le_sum(rs, rs.len() - 1);
        crate::rates::lemma_rate_mul_le_amount(
            price.amount as int,
            rs.last().royalty_rate as int,
        );
        lemma_royalty_instrs_total(price, rs.drop_last());
    }
}

/// Conservation over the emitted instruction list itself: past the bid
/// refund (if any) and the item transfer, a settlement's fund transfers
/// — the royalty payouts and the seller's remainder — move exactly the
/// price, never more and never less.
pub proof fn lemma_settlement_instructions_conserve_value(
    order: Order,
    buyer: String,
    price: Asset,
    rs: Seq<Royalty>,
    include_refund: bool,
)
    requires
        royalty_sum(rs) <= RATE_ONE,
    ensures
        ({
            let instrs = crate::execute::spec_settlement(order, buyer, price, rs, include_refund);
            let split_start = (if include_refund {
                crate::execute::spec_bid_refund(order).len() as int
            } else {
                0
            }) + 1;
            instr_fund_total(instrs.skip(split_start)) == price.amount
        }),
{
    let instrs = crate::execute::spec_settlement(order, buyer, price, rs, include_refund);
    let split_start = (if include_refund {
        crate::execute::spec_bid_refund(order).len() as int
    } else {
        0
    }) + 1;
    let payouts = crate::execute::spec_royalty_instrs(price, rs);
    lemma_payout_total_le_amount(price.amount, rs);
    let tail = TransferInstruction::Fund {
        asset: Asset { info: price.info, amount: spec_remainder(price, rs) as u128 },
        recipient: order.seller_address,
    };
    assert(instrs.skip(split_start) =~= payouts.push(tail));
    assert(payouts.push(tail).drop_last() =~= payouts);
    lemma_royalty_instrs_total(price, rs);
}

/// Appending an order makes exactly its id findable on top of the old ones.
pub proof fn lemma_has_order_push(orders: Seq<Order>, o: Order, id: u64)
    ensures
        spec_has_order(orders.push(o), id) <==> (spec_has_order(orders, id) || o.id == id),
{
    let pushed = orders.push(o);
    if spec_has_order(orders, id) {
        let i = spec_order_idx(orders, id);
        assert(pushed[i].id == id);
    }
    if o.id == id {
        assert(pushed[orders.len() as int].id == id);
    }
    if spec_has_order(pushed, id) && o.id != id {
        let i = spec_order_idx(pushed, id);
        assert(pushed[i].id == id);
        assert(orders[i].id == id);
    }
}

/// Replacing an order by one with the same id leaves findability unchanged.
pub proof fn lemma_has_order_update(orders: Seq<Order>, i: int, o: Order, id: u64)
    requires
        0 <= i < orders.len(),
        o.id == orders[i].id,
    ensures
        spec_has_order(orders.update(i, o), id) <==> spec_has_order(orders, id),
{
    let updated = orders.update(i, o);
    if spec_has_order(orders, id) {
        let k = spec_order_idx(orders, id);
        assert(updated[k].id == id);
    }
    if spec_has_order(updated, id) {
        let k = spec_order_idx(updated, id);
        assert(updated[k].id == id);
        assert(orders[k].id == id);
    }
}

/// Taking an order out of a sorted ledger makes exactly its id
/// unfindable and leaves every other id as it was.
pub proof fn lemma_has_order_remove(orders: Seq<Order>, i: int, id: u64)
    requires
        orders_sorted(orders),
        0 <= i < orders.len(),
    ensures
        spec_has_order(orders.remove(i), id) <==> (spec_has_order(orders, id) && orders[i].id
            != id),
{
    let removed = orders.remove(i);
    assert(forall|k: int| 0 <= k < i ==> removed[k] == orders[k]);
    assert(forall|k: int| i <= k < removed.len() ==> removed[k] == orders[k + 1]);
    if spec_has_order(removed, id) {
        let k = spec_order_idx(removed, id);
        assert(removed[k].id == id);
        let k0 = if k < i {
            k
        } else {
            k + 1
        };
        assert(orders[k0].id == id);
        if orders[i].id == id {
            if k0 < i {
                assert(orders[k0].id < orders[i].id);
            } else {
                assert(orders[i].id < orders[k0].id);
            }
        }
    }
    if spec_has_order(orders, id) && orders[i].id != id {
        let k0 = spec_order_idx(orders, id);
        assert(orders[k0].id == id);
        if k0 < i {
            assert(removed[k0].id == id);
        } else {
            assert(removed[k0 - 1].id == id);
        }
    }
}

/// Monotonic bidding: an accepted bid reaches at least the previous
/// highest bid scaled by one plus the minimum-increase rate (rounded
/// down), and afterwards the order's auction carries the new bid.
pub proof fn lemma_monotonic_bidding(
    pre: MarketContract,
    post: MarketContract,
    instrs: Seq<TransferInstruction>,
    block: BlockInfo,
    sender: String,
    order_id: u64,
    bid_price: Asset,
    funds: Seq<Coin>,
)
    requires
        pre.wf(),
        bid_post(pre, post, Ok(instrs), block, sender, order_id, bid_price, funds),
    ensures
        spec_has_order(post.orders@, order_id),
        bid_price.amount >= spec_min_bid(
            (spec_order_at(pre.orders@, order_id).auction_info->0).highest_bid.amount,
            pre.config,
        ),
        (spec_order_at(post.orders@, order_id).auction_info->0).highest_bid == bid_price,
        (spec_order_at(post.orders@, order_id).auction_info->0).bidder == Some(sender),
{
    let idx = spec_order_idx(pre.orders@, order_id);
    crate::state::lemma_order_idx_of(pre.orders@, idx);
    let updated = post.orders@[idx];
    assert(updated.id == order_id);
    assert forall|i: int, j: int| 0 <= i < j < post.orders@.len() implies (
    #[trigger] post.orders@[i]).id < (#[trigger] post.orders@[j]).id by {
        assert(pre.orders@[i].id < pre.orders@[j].id);
    }
    crate::state::lemma_order_idx_of(post.orders@, idx);
}

/// Removal is final under bidding: an id absent from a well-formed state
/// stays absent, and a bid aimed at it is refused as not found.
pub proof fn lemma_removal_final_bid(
    pre: MarketContract,
    post: MarketContract,
    r: Result<Seq<TransferInstruction>, ContractError>,
    block: BlockInfo,
    sender: String,
    order_id: u64,
    bid_price: Asset,
    funds: Seq<Coin>,
    gone: u64,
)
    requires
        pre.wf(),
        bid_post(pre, post, r, block, sender, order_id, bid_price, funds),
        !spec_has_order(pre.orders@, gone),
    ensures
        !spec_has_order(post.orders@, gone),
        order_id == gone ==> r == Err::<Seq<TransferInstruction>, ContractError>(
            ContractError::OrderNotFound {},
        ),
{
    if r is Ok {
        let idx = spec_order_idx(pre.orders@, order_id);
        lemma_has_order_update(pre.orders@, idx, post.orders@[idx], gone);
    }
}

/// Removal is final under fixed-price execution: an id absent from a
/// well-formed state stays absent, and an execution aimed at it is
/// refused as not found.
pub proof fn lemma_removal_final_execute_order(
    pre: MarketContract,
    post: MarketContract,
    r: Result<(Seq<TransferInstruction>, u128), ContractError>,
    sender: String,
    order_id: u64,
    payment: Option<Asset>,
    funds: Seq<Coin>,
    gone: u64,
)
    requires
        pre.wf(),
        execute_order_post(pre, post, r, sender, order_id, payment, funds),
        !spec_has_order(pre.orders@, gone),
    ensures
        !spec_has_order(post.orders@, gone),
        order_id == gone ==> r == Err::<(Seq<TransferInstruction>, u128), ContractError>(
            ContractError::OrderNotFound {},
        ),
{
    if r is Ok {
        let idx = spec_order_idx(pre.orders@, order_id);
        crate::state::lemma_order_idx_of(pre.orders@, spec_order_idx(pre.orders@, order_id));
        lemma_has_order_remove(pre.orders@, idx, gone);
    }
}

/// Removal is final under auction settlement, as under execution.
pub proof fn lemma_removal_final_execute_auction(
    pre: MarketContract,
    post: MarketContract,
    r: Result<(Seq<TransferInstruction>, u128), ContractError>,
    block: BlockInfo,
    order_id: u64,
    gone: u64,
)
    requires
        pre.wf(),
        execute_auction_post(pre, post, r, block, order_id),
        !spec_has_order(pre.orders@, gone),
    ensures
        !spec_has_order(post.orders@, gone),
        order_id == gone ==> r == Err::<(Seq<TransferInstruction>, u128), ContractError>(
            ContractError::OrderNotFound {},
        ),
{
    if r is Ok {
        let idx = spec_order_idx(pre.orders@, order_id);
        lemma_has_order_remove(pre.orders@, idx, gone);
    }
}

/// Removal is final under cancellation, as under execution.
pub proof fn lemma_removal_final_cancel(
    pre: MarketContract,
    post: MarketContract,
    r: Result<Seq<TransferInstruction>, ContractError>,
    block: BlockInfo,
    sender: String,
    order_id: u64,
    cancel_fee: Option<Asset>,
    funds: Seq<Coin>,
    gone: u64,
)
    requires
        pre.wf(),
        cancel_order_post(pre, post, r, block, sender, order_id, cancel_fee, funds),
        !spec_has_order(pre.orders@, gone),
    ensures
        !spec_has_order(post.orders@, gone),
        order_id == gone ==> r == Err::<Seq<TransferInstruction>, ContractError>(
            ContractError::OrderNotFound {},
        ),
{
    if r is Ok {
        let idx = spec_order_idx(pre.orders@, order_id);
        lemma_has_order_remove(pre.orders@, idx, gone);
    }
}

/// A removed id is never reissued by a listing either: the counter sits
/// above every id ever issued, a new listing takes the counter's value
/// and moves it up by one, and a failed listing moves nothing.
pub proof fn lemma_counter_fixed_price(
    pre: MarketContract,
    post: MarketContract,
    r: Result<u64, ContractError>,
    sender: String,
    nft_address: String,
    token_id: String,
    price: Asset,
    gone: u64,
)
    requires
        pre.wf(),
        make_fixed_price_post(pre, post, r, sender, nft_address, token_id, price),
        !spec_has_order(pre.orders@, gone),
        gone < pre.order_index,
    ensures
        !spec_has_order(post.orders@, gone),
        r matches Ok(id) ==> id == pre.order_index && !spec_has_order(pre.orders@, id)
            && post.order_index == pre.order_index + 1,
        r is Err ==> post.order_index == pre.order_index,
{
    match r {
        Ok(id) => {
            lemma_has_order_push(pre.orders@, post.orders@.last(), gone);
            if spec_has_order(pre.orders@, id) {
                let k = spec_order_idx(pre.orders@, id);
                assert(pre.orders@[k].id < pre.order_index);
            }
        },
        Err(_) => {},
    }
}

/// The counter behaves the same under auction listings.
pub proof fn lemma_counter_auction(
    pre: MarketContract,
    post: MarketContract,
    r: Result<u64, ContractError>,
    block: BlockInfo,
    sender: String,
    nft_address: String,
    token_id: String,
    start_price: Asset,
    expiration: Expiration,
    fixed_price: Option<Asset>,
    gone: u64,
)
    requires
        pre.wf(),
        make_auction_post(
            pre,
            post,
            r,
            block,
            sender,
            nft_address,
            token_id,
            start_price,
            expiration,
            fixed_price,
        ),
        !spec_has_order(pre.orders@, gone),
        gone < pre.order_index,
    ensures
        !spec_has_order(post.orders@, gone),
        r matches Ok(id) ==> id == pre.order_index && !spec_has_order(pre.orders@, id)
            && post.order_index == pre.order_index + 1,
        r is Err ==> post.order_index == pre.order_index,
{
    match r {
        Ok(id) => {
            lemma_has_order_push(pre.orders@, post.orders@.last(), gone);
            if spec_has_order(pre.orders@, id) {
                let k = spec_order_idx(pre.orders@, id);
                assert(pre.orders@[k].id < pre.order_index);
            }
        },
        Err(_) => {},
    }
}

} // verus!
