//! The read operations of the engine: configuration, single records,
//! paginated listings, and the cancellation fee currently due.

use vstd::prelude::*;

use crate::asset::Asset;
use crate::error::ContractError;
use crate::rates::{mul_rate, rate_mul};
use crate::state::{
    spec_collection_idx, spec_has_collection, spec_has_order, spec_order_at, spec_order_idx,
    CollectionInfo, Config, MarketContract, Order,
};

verus! {

/// The page size used when a listing query names none.
pub const DEFAULT_LIMIT: u32 = 10;

/// The largest page size a listing query may ask for.
pub const MAX_LIMIT: u32 = 30;

/// A read request against the engine's state.
#[derive(Debug)]
pub enum QueryMsg {
    Config {},
    CollectionInfo { nft_address: String },
    CollectionInfos { start_after: Option<String>, limit: Option<u32> },
    Order { order_id: u64 },
    Orders { seller_address: Option<String>, start_after: Option<u64>, limit: Option<u32> },
    CancelFee { order_id: u64 },
}

/// The answer to a read request.
#[derive(Debug)]
pub enum QueryResponse {
    Config(Config),
    CollectionInfo(CollectionInfo),
    CollectionInfos(Vec<CollectionInfo>),
    Order(Order),
    Orders(Vec<Order>),
    CancelFee(Asset),
}

/// The first page of a listing: the whole sequence when it is no longer
/// than the page size, else its first `n` elements.
pub open spec fn spec_page<A>(s: Seq<A>, n: int) -> Seq<A> {
    if s.len() <= n {
        s
    } else {
        s.take(n)
    }
}

/// The page size a query resolves to: the asked-for limit capped at
/// [`MAX_LIMIT`], or [`DEFAULT_LIMIT`] when none was asked for.
pub open spec fn spec_limit(limit: Option<u32>) -> int {
    match limit {
        Some(l) => if l <= MAX_LIMIT {
            l as int
        } else {
            MAX_LIMIT as int
        },
        None => DEFAULT_LIMIT as int,
    }
}

/// Whether an order passes a listing query's filter: id strictly past
/// the exclusive start, and the seller's address where one is named.
pub open spec fn spec_order_match(o: Order, seller: Option<String>, start_after: Option<u64>) -> bool {
    &&& (match start_after {
        Some(s) => o.id > s,
        None => true,
    })
    &&& (match seller {
        Some(a) => o.seller_address@ == a@,
        None => true,
    })
}

/// The orders passing a listing query's filter, in ledger order (that
/// is, ascending by id).
pub open spec fn spec_filtered_orders(
    orders: Seq<Order>,
    seller: Option<String>,
    start_after: Option<u64>,
) -> Seq<Order>
    decreases orders.len(),
{
    if orders.len() == 0 {
        Seq::<Order>::empty()
    } else {
        let rest = spec_filtered_orders(orders.drop_last(), seller, start_after);
        if spec_order_match(orders.last(), seller, start_after) {
            rest.push(orders.last())
        } else {
            rest
        }
    }
}

/// The catalog entries a listing query walks: everything strictly after
/// the stored record named by the exclusive start, or the whole catalog
/// when none is named (or none matches). The catalog is kept in
/// insertion order, so pages follow that order.
pub open spec fn spec_collections_after(
    cs: Seq<CollectionInfo>,
    start_after: Option<String>,
) -> Seq<CollectionInfo> {
    match start_after {
        Some(a) => if spec_has_collection(cs, a@) {
            cs.skip(spec_collection_idx(cs, a@) + 1)
        } else {
            cs
        },
        None => cs,
    }
}

/// Two collection records hold the same data.
pub open spec fn collection_data_eq(a: CollectionInfo, b: CollectionInfo) -> bool {
    &&& a.nft_address@ == b.nft_address@
    &&& a.support_assets@ == b.support_assets@
    &&& a.royalties@ == b.royalties@
}

impl MarketContract {
    /// A copy of the current configuration.
    pub fn get_config(&self) -> (r: Config)
        ensures
            r == self.config,
    {
        self.config.clone()
    }

    /// A copy of the collection record with the given address.
    pub fn get_collection_info(&self, nft_address: &String) -> (r: Result<
        CollectionInfo,
        ContractError,
    >)
        requires
            self.wf(),
        ensures
            match r {
                Ok(c) => {
                    &&& spec_has_collection(self.collections@, nft_address@)
                    &&& collection_data_eq(
                        c,
                        self.collections@[spec_collection_idx(self.collections@, nft_address@)],
                    )
                },
                Err(e) => {
                    &&& !spec_has_collection(self.collections@, nft_address@)
                    &&& e == ContractError::CollectionNotFound {}
                },
            },
    {
        match self.find_collection(nft_address) {
            Some(i) => Ok(self.collections[i].clone()),
            None => Err(ContractError::CollectionNotFound {}),
        }
    }

    /// A copy of the open order with the given id.
    pub fn get_order(&self, order_id: u64) -> (r: Result<Order, ContractError>)
        requires
            self.wf(),
        ensures
            match r {
                Ok(o) => {
                    &&& spec_has_order(self.orders@, order_id)
                    &&& o == spec_order_at(self.orders@, order_id)
                },
                Err(e) => {
                    &&& !spec_has_order(self.orders@, order_id)
                    &&& e == ContractError::OrderNotFound {}
                },
            },
    {
        match self.find_order(order_id) {
            Some(i) => Ok(self.orders[i].clone()),
            None => Err(ContractError::OrderNotFound {}),
        }
    }

    /// One page of open orders, ascending by id, starting strictly
    /// after the given id. When a seller is named, the auxiliary seller
    /// index answers which entries are that seller's.
    pub fn orders(
        &self,
        seller_address: Option<String>,
        start_after: Option<u64>,
        limit: Option<u32>,
    ) -> (r: Vec<Order>)
        requires
            self.wf(),
        ensures
            r@ == spec_page(
                spec_filtered_orders(self.orders@, seller_address, start_after),
                spec_limit(limit),
            ),
    {
        let cap: u32 = match limit {
            Some(l) => if l <= MAX_LIMIT {
                l
            } else {
                MAX_LIMIT
            },
            None => DEFAULT_LIMIT,
        };
        let cap: usize = cap as usize;
        let mut res: Vec<Order> = Vec::new();
        let n: usize = self.orders.len();
        let mut i: usize = 0;
        proof {
            assert(self.orders@.take(0int) =~= Seq::<Order>::empty());
            assert(res@ =~= spec_page(
                spec_filtered_orders(self.orders@.take(0int), seller_address, start_after),
                cap as int,
            ));
        }
        while i < n
            invariant
                self.wf(),
                0 <= i <= n,
                n == self.orders@.len(),
                cap == spec_limit(limit),
                res@ == spec_page(
                    spec_filtered_orders(self.orders@.take(i as int), seller_address, start_after),
                    cap as int,
                ),
            decreases n - i,
        {
            let ghost taken = self.orders@.take(i as int);
            let ghost taken_next = self.orders@.take(i + 1int);
            proof {
                assert(taken_next.drop_last() =~= taken);
                assert(taken_next.last() == self.orders@[i as int]);
            }
            let o = &self.orders[i];
            let id_ok: bool = match start_after {
                Some(s) => o.id > s,
                None => true,
            };
            let seller_ok: bool = match &seller_address {
                Some(a) => self.seller_index[i].seller_address == *a,
                None => true,
            };
            if id_ok && seller_ok && res.len() < cap {
                res.push(o.clone());
            }
            proof {
                let fnow = spec_filtered_orders(taken, seller_address, start_after);
                let fnext = spec_filtered_orders(taken_next, seller_address, start_after);
                if spec_order_match(self.orders@[i as int], seller_address, start_after) {
                    assert(fnext == fnow.push(self.orders@[i as int]));
                    if fnow.len() < cap {
                        assert(spec_page(fnext, cap as int) =~= spec_page(fnow, cap as int).push(
                            self.orders@[i as int],
                        ));
                    } else {
                        assert(spec_page(fnext, cap as int) =~= spec_page(fnow, cap as int));
                    }
                } else {
                    assert(fnext == fnow);
                }
            }
            i = i + 1;
        }
        proof {
            assert(self.orders@.take(n as int) =~= self.orders@);
        }
        res
    }

    /// One page of collection records, in the catalog's stored order,
    /// starting strictly after the named record.
    pub fn collection_infos(&self, start_after: Option<String>, limit: Option<u32>) -> (r: Vec<
        CollectionInfo,
    >)
        requires
            self.wf(),
        ensures
            ({
                let expected = spec_page(
                    spec_collections_after(self.collections@, start_after),
                    spec_limit(limit),
                );
                &&& r@.len() == expected.len()
                &&& forall|k: int|
                    0 <= k < r@.len() ==> collection_data_eq(#[trigger] r@[k], expected[k])
            }),
    {
        let cap: u32 = match limit {
            Some(l) => if l <= MAX_LIMIT {
                l
            } else {
                MAX_LIMIT
            },
            None => DEFAULT_LIMIT,
        };
        let cap: usize = cap as usize;
        let n: usize = self.collections.len();
        let start: usize = match &start_after {
            Some(a) => match self.find_collection(a) {
                Some(i) => i + 1,
                None => 0,
            },
            None => 0,
        };
        let ghost walked = spec_collections_after(self.collections@, start_after);
        proof {
            assert(walked =~= self.collections@.skip(start as int));
        }
        let mut res: Vec<CollectionInfo> = Vec::new();
        let mut i: usize = start;
        while i < n && res.len() < cap
            invariant
                start <= i <= n,
                n == self.collections@.len(),
                cap == spec_limit(limit),
                walked == self.collections@.skip(start as int),
                res@.len() == vstd::math::min((i - start) as int, cap as int),
                res@.len() <= cap,
                forall|k: int|
                    0 <= k < res@.len() ==> collection_data_eq(
                        #[trigger] res@[k],
                        self.collections@[start + k],
                    ),
            decreases n - i,
        {
            res.push(self.collections[i].clone());
            i = i + 1;
        }
        proof {
            let expected = spec_page(walked, spec_limit(limit));
            assert(expected.len() == res@.len()) by {
                assert(walked.len() == n - start);
            }
            assert(forall|k: int|
                0 <= k < res@.len() ==> expected[k] == self.collections@[start + k]);
        }
        res
    }

    /// The cancellation fee due right now for an order: the current
    /// highest bid scaled by the configured rate for an auction, zero
    /// (in the fixed price's kind) for a plain sale.
    pub fn cancel_fee(&self, order_id: u64) -> (r: Result<Asset, ContractError>)
        requires
            self.wf(),
        ensures
            match r {
                Ok(fee) => {
                    &&& spec_has_order(self.orders@, order_id)
                    &&& ({
                        let order = spec_order_at(self.orders@, order_id);
                        match order.auction_info {
                            Some(ai) => fee == (Asset {
                                info: ai.highest_bid.info,
                                amount: rate_mul(
                                    ai.highest_bid.amount as int,
                                    self.config.auction_cancel_fee_rate as int,
                                ) as u128,
                            }),
                            None => fee == (Asset { info: (order.price->0).info, amount: 0 }),
                        }
                    })
                },
                Err(e) => {
                    &&& !spec_has_order(self.orders@, order_id)
                    &&& e == ContractError::OrderNotFound {}
                },
            },
    {
        let idx = match self.find_order(order_id) {
            Some(i) => i,
            None => {
                return Err(ContractError::OrderNotFound {});
            },
        };
        match &self.orders[idx].auction_info {
            Some(ai) => Ok(
                Asset {
                    info: ai.highest_bid.info.clone(),
                    amount: mul_rate(ai.highest_bid.amount, self.config.auction_cancel_fee_rate),
                },
            ),
            None => match &self.orders[idx].price {
                Some(p) => Ok(Asset { info: p.info.clone(), amount: 0 }),
                None => vstd::pervasive::unreached(),
            },
        }
    }

    /// Answers one read request.
    pub fn query(&self, msg: QueryMsg) -> (r: Result<QueryResponse, ContractError>)
        requires
            self.wf(),
        ensures
            match msg {
                QueryMsg::Config {} => r matches Ok(QueryResponse::Config(c)) && c == self.config,
                QueryMsg::CollectionInfo { nft_address } => (match r {
                    Ok(QueryResponse::CollectionInfo(c)) => {
                        &&& spec_has_collection(self.collections@, nft_address@)
                        &&& collection_data_eq(
                            c,
                            self.collections@[spec_collection_idx(
                                self.collections@,
                                nft_address@,
                            )],
                        )
                    },
                    Err(e) => {
                        &&& !spec_has_collection(self.collections@, nft_address@)
                        &&& e == ContractError::CollectionNotFound {}
                    },
                    _ => false,
                }),
                QueryMsg::CollectionInfos { start_after, limit } => (match r {
                    Ok(QueryResponse::CollectionInfos(v)) => {
                        let expected = spec_page(
                            spec_collections_after(self.collections@, start_after),
                            spec_limit(limit),
                        );
                        &&& v@.len() == expected.len()
                        &&& forall|k: int|
                            0 <= k < v@.len() ==> collection_data_eq(#[trigger] v@[k], expected[k])
                    },
                    _ => false,
                }),
                QueryMsg::Order { order_id } => (match r {
                    Ok(QueryResponse::Order(o)) => {
                        &&& spec_has_order(self.orders@, order_id)
                        &&& o == spec_order_at(self.orders@, order_id)
                    },
                    Err(e) => {
                        &&& !spec_has_order(self.orders@, order_id)
                        &&& e == ContractError::OrderNotFound {}
                    },
                    _ => false,
                }),
                QueryMsg::Orders { seller_address, start_after, limit } => (match r {
                    Ok(QueryResponse::Orders(v)) => v@ == spec_page(
                        spec_filtered_orders(self.orders@, seller_address, start_after),
                        spec_limit(limit),
                    ),
                    _ => false,
                }),
                QueryMsg::CancelFee { order_id } => (match r {
                    Ok(QueryResponse::CancelFee(fee)) => {
                        &&& spec_has_order(self.orders@, order_id)
                        &&& ({
                            let order = spec_order_at(self.orders@, order_id);
                            match order.auction_info {
                                Some(ai) => fee == (Asset {
                                    info: ai.highest_bid.info,
                                    amount: rate_mul(
                                        ai.highest_bid.amount as int,
                                        self.config.auction_cancel_fee_rate as int,
                                    ) as u128,
                                }),
                                None => fee == (Asset {
                                    info: (order.price->0).info,
                                    amount: 0,
                                }),
                            }
                        })
                    },
                    Err(e) => {
                        &&& !spec_has_order(self.orders@, order_id)
                        &&& e == ContractError::OrderNotFound {}
                    },
                    _ => false,
                }),
            },
    {
        match msg {
            QueryMsg::Config {} => Ok(QueryResponse::Config(self.get_config())),
            QueryMsg::CollectionInfo { nft_address } => match self.get_collection_info(
                &nft_address,
            ) {
                Ok(c) => Ok(QueryResponse::CollectionInfo(c)),
                Err(e) => Err(e),
            },
            QueryMsg::CollectionInfos { start_after, limit } => Ok(
                QueryResponse::CollectionInfos(self.collection_infos(start_after, limit)),
            ),
            QueryMsg::Order { order_id } => match self.get_order(order_id) {
                Ok(o) => Ok(QueryResponse::Order(o)),
                Err(e) => Err(e),
            },
            QueryMsg::Orders { seller_address, start_after, limit } => Ok(
                QueryResponse::Orders(self.orders(seller_address, start_after, limit)),
            ),
            QueryMsg::CancelFee { order_id } => match self.cancel_fee(order_id) {
                Ok(fee) => Ok(QueryResponse::CancelFee(fee)),
                Err(e) => Err(e),
            },
        }
    }
}

} // verus!
