//! The engine's state: global configuration, the catalog of collections,
//! and the order ledger with its auxiliary seller index.

use vstd::prelude::*;

use crate::asset::{asset_eq, Asset, AssetInfo};
use crate::rates::RATE_ONE;

verus! {

/// A concrete deadline: a block height, a wall-clock time in nanoseconds,
/// or no deadline at all.
#[derive(Clone, Copy, Debug, PartialEq, Eq, Structural)]
pub enum Expiration {
    AtHeight(u64),
    AtTime(u64),
    Never,
}

/// The position of the chain at the moment of a call: the current block
/// height and the current wall-clock time in nanoseconds.
#[derive(Clone, Copy, Debug, PartialEq, Eq, Structural)]
pub struct BlockInfo {
    pub height: u64,
    pub time_nanos: u64,
}

impl Expiration {
    /// Whether the deadline has passed at the given block. A deadline of
    /// `Never` never passes.
    pub open spec fn spec_expired(self, block: BlockInfo) -> bool {
        match self {
            Expiration::AtHeight(height) => block.height >= height,
            Expiration::AtTime(time) => block.time_nanos >= time,
            Expiration::Never => false,
        }
    }

    /// Executable mirror of [`Self::spec_expired`].
    pub fn is_expired(&self, block: &BlockInfo) -> (r: bool)
        ensures
            r == self.spec_expired(*block),
    {
        match self {
            Expiration::AtHeight(height) => block.height >= *height,
            Expiration::AtTime(time) => block.time_nanos >= *time,
            Expiration::Never => false,
        }
    }
}

/// The global configuration: the owner, the minimum bid-increase rate,
/// the maximum auction duration in blocks and in seconds, and the
/// cancellation-fee rate. Rates are numerators over [`RATE_ONE`].
#[derive(Debug)]
pub struct Config {
    pub owner: String,
    pub min_increase: u128,
    pub max_auction_duration_block: u64,
    pub max_auction_duration_second: u64,
    pub auction_cancel_fee_rate: u128,
}

impl Config {
    /// Both configured rates are fractions in `[0, 1]`.
    pub open spec fn wf(&self) -> bool {
        self.min_increase <= RATE_ONE && self.auction_cancel_fee_rate <= RATE_ONE
    }
}

impl Clone for Config {
    fn clone(&self) -> (res: Self)
        ensures
            res == *self,
    {
        Config {
            owner: self.owner.clone(),
            min_increase: self.min_increase,
            max_auction_duration_block: self.max_auction_duration_block,
            max_auction_duration_second: self.max_auction_duration_second,
            auction_cancel_fee_rate: self.auction_cancel_fee_rate,
        }
    }
}

/// One royalty recipient of a collection, with its rate as a numerator
/// over [`RATE_ONE`].
#[derive(Debug)]
pub struct Royalty {
    pub address: String,
    pub royalty_rate: u128,
}

impl Clone for Royalty {
    fn clone(&self) -> (res: Self)
        ensures
            res == *self,
    {
        Royalty { address: self.address.clone(), royalty_rate: self.royalty_rate }
    }
}

/// Two royalty entries are equal: same recipient and same rate.
pub open spec fn royalty_eq(a: Royalty, b: Royalty) -> bool {
    a.address@ == b.address@ && a.royalty_rate == b.royalty_rate
}

impl PartialEq for Royalty {
    fn eq(&self, other: &Self) -> (r: bool) {
        self.address == other.address && self.royalty_rate == other.royalty_rate
    }
}

impl vstd::std_specs::cmp::PartialEqSpecImpl for Royalty {
    open spec fn obeys_eq_spec() -> bool {
        true
    }

    open spec fn eq_spec(&self, other: &Self) -> bool {
        royalty_eq(*self, *other)
    }
}

/// The sum of the royalty rates of a list, as a mathematical integer.
pub open spec fn royalty_sum(rs: Seq<Royalty>) -> int
    decreases rs.len(),
{
    if rs.len() == 0 {
        0
    } else {
        royalty_sum(rs.drop_last()) + rs.last().royalty_rate
    }
}

/// A royalty sum is never negative.
pub proof fn lemma_royalty_sum_nonneg(rs: Seq<Royalty>)
    ensures
        0 <= royalty_sum(rs),
    decreases rs.len(),
{
    if rs.len() > 0 {
        lemma_royalty_sum_nonneg(rs.drop_last());
    }
}

/// The sum over a prefix never exceeds the sum over the whole list.
pub proof fn lemma_royalty_sum_take_le(rs: Seq<Royalty>, i: int)
    requires
        0 <= i <= rs.len(),
    ensures
        royalty_sum(rs.take(i)) <= royalty_sum(rs),
    decreases rs.len(),
{
    if i == rs.len() {
        assert(rs.take(i) =~= rs);
    } else {
        assert(rs.take(i) =~= rs.drop_last().take(i));
        lemma_royalty_sum_take_le(rs.drop_last(), i);
    }
}

/// Each single rate is bounded by the sum of all rates.
pub proof fn lemma_royalty_rate_le_sum(rs: Seq<Royalty>, i: int)
    requires
        0 <= i < rs.len(),
    ensures
        rs[i].royalty_rate <= royalty_sum(rs),
    decreases rs.len(),
{
    if i == rs.len() - 1 {
        lemma_royalty_sum_nonneg(rs.drop_last());
    } else {
        lemma_royalty_rate_le_sum(rs.drop_last(), i);
    }
}

/// Per-collection configuration: the collection's address, the asset
/// kinds it accepts, and its ordered royalty list.
#[derive(Debug)]
pub struct CollectionInfo {
    pub nft_address: String,
    pub support_assets: Vec<AssetInfo>,
    pub royalties: Vec<Royalty>,
}

/// A collection's royalty rates sum to at most one.
pub open spec fn collection_wf(c: CollectionInfo) -> bool {
    royalty_sum(c.royalties@) <= RATE_ONE
}

/// Whether an asset kind occurs in a list of supported kinds.
pub open spec fn spec_supports(kinds: Seq<AssetInfo>, info: AssetInfo) -> bool {
    exists|i: int|
        0 <= i < kinds.len() && crate::asset::asset_info_eq(#[trigger] kinds[i], info)
}

impl Clone for CollectionInfo {
    fn clone(&self) -> (res: Self)
        ensures
            res.nft_address == self.nft_address,
            res.support_assets@ == self.support_assets@,
            res.royalties@ == self.royalties@,
    {
        CollectionInfo {
            nft_address: self.nft_address.clone(),
            support_assets: clone_asset_infos(&self.support_assets),
            royalties: clone_royalties(&self.royalties),
        }
    }
}

/// An element-wise copy of a list of asset kinds.
pub(crate) fn clone_asset_infos(v: &Vec<AssetInfo>) -> (res: Vec<AssetInfo>)
    ensures
        res@ == v@,
{
    let mut res: Vec<AssetInfo> = Vec::new();
    let n: usize = v.len();
    let mut i: usize = 0;
    while i < n
        invariant
            0 <= i <= n,
            n == v@.len(),
            res@ == v@.take(i as int),
        decreases n - i,
    {
        res.push(v[i].clone());
        proof {
            assert(v@.take(i + 1 as int) =~= v@.take(i as int).push(v@[i as int]));
        }
        i = i + 1;
    }
    proof {
        assert(v@.take(n as int) =~= v@);
    }
    res
}

/// An element-wise copy of a royalty list.
pub(crate) fn clone_royalties(v: &Vec<Royalty>) -> (res: Vec<Royalty>)
    ensures
        res@ == v@,
{
    let mut res: Vec<Royalty> = Vec::new();
    let n: usize = v.len();
    let mut i: usize = 0;
    while i < n
        invariant
            0 <= i <= n,
            n == v@.len(),
            res@ == v@.take(i as int),
        decreases n - i,
    {
        res.push(v[i].clone());
        proof {
            assert(v@.take(i + 1 as int) =~= v@.take(i as int).push(v@[i as int]));
        }
        i = i + 1;
    }
    proof {
        assert(v@.take(n as int) =~= v@);
    }
    res
}

/// The live state of one auction: the highest bid so far (the starting
/// price while nobody has bid), the bidder if any, and the deadline.
#[derive(Debug)]
pub struct AuctionInfo {
    pub highest_bid: Asset,
    pub bidder: Option<String>,
    pub expiration: Expiration,
}

impl Clone for AuctionInfo {
    fn clone(&self) -> (res: Self)
        ensures
            res == *self,
    {
        AuctionInfo {
            highest_bid: self.highest_bid.clone(),
            bidder: match &self.bidder {
                Some(b) => Some(b.clone()),
                None => None,
            },
            expiration: self.expiration,
        }
    }
}

/// Two auction states are equal: same bid, same bidder, same deadline.
pub open spec fn auction_info_eq(a: AuctionInfo, b: AuctionInfo) -> bool {
    &&& asset_eq(a.highest_bid, b.highest_bid)
    &&& match (a.bidder, b.bidder) {
        (Some(x), Some(y)) => x@ == y@,
        (None, None) => true,
        _ => false,
    }
    &&& a.expiration == b.expiration
}

impl PartialEq for AuctionInfo {
    fn eq(&self, other: &Self) -> (r: bool) {
        self.highest_bid == other.highest_bid && (match (&self.bidder, &other.bidder) {
            (Some(x), Some(y)) => *x == *y,
            (None, None) => true,
            _ => false,
        }) && self.expiration == other.expiration
    }
}

impl vstd::std_specs::cmp::PartialEqSpecImpl for AuctionInfo {
    open spec fn obeys_eq_spec() -> bool {
        true
    }

    open spec fn eq_spec(&self, other: &Self) -> bool {
        auction_info_eq(*self, *other)
    }
}

/// One open listing: the seller's offer of one item, as a fixed-price
/// sale, an auction, or an auction with a buyout price.
#[derive(Debug)]
pub struct Order {
    pub id: u64,
    pub seller_address: String,
    pub nft_address: String,
    pub token_id: String,
    pub price: Option<Asset>,
    pub auction_info: Option<AuctionInfo>,
}

/// An order carries a fixed price, an auction, or both — never neither.
pub open spec fn order_wf(o: Order) -> bool {
    o.price is Some || o.auction_info is Some
}

impl Clone for Order {
    fn clone(&self) -> (res: Self)
        ensures
            res == *self,
    {
        Order {
            id: self.id,
            seller_address: self.seller_address.clone(),
            nft_address: self.nft_address.clone(),
            token_id: self.token_id.clone(),
            price: match &self.price {
                Some(p) => Some(p.clone()),
                None => None,
            },
            auction_info: match &self.auction_info {
                Some(a) => Some(a.clone()),
                None => None,
            },
        }
    }
}

/// Two orders are equal: all fields equal, addresses by their text.
pub open spec fn order_eq(a: Order, b: Order) -> bool {
    &&& a.id == b.id
    &&& a.seller_address@ == b.seller_address@
    &&& a.nft_address@ == b.nft_address@
    &&& a.token_id@ == b.token_id@
    &&& match (a.price, b.price) {
        (Some(x), Some(y)) => asset_eq(x, y),
        (None, None) => true,
        _ => false,
    }
    &&& match (a.auction_info, b.auction_info) {
        (Some(x), Some(y)) => auction_info_eq(x, y),
        (None, None) => true,
        _ => false,
    }
}

impl PartialEq for Order {
    fn eq(&self, other: &Self) -> (r: bool) {
        self.id == other.id && self.seller_address == other.seller_address
            && self.nft_address == other.nft_address && self.token_id == other.token_id
            && self.price == other.price && self.auction_info == other.auction_info
    }
}

impl vstd::std_specs::cmp::PartialEqSpecImpl for Order {
    open spec fn obeys_eq_spec() -> bool {
        true
    }

    open spec fn eq_spec(&self, other: &Self) -> bool {
        order_eq(*self, *other)
    }
}

/// One entry of the auxiliary seller index: a seller's address paired
/// with the id of one of that seller's open orders.
#[derive(Debug)]
pub struct SellerIndexEntry {
    pub seller_address: String,
    pub order_id: u64,
}

impl Clone for SellerIndexEntry {
    fn clone(&self) -> (res: Self)
        ensures
            res == *self,
    {
        SellerIndexEntry { seller_address: self.seller_address.clone(), order_id: self.order_id }
    }
}

/// Whether the ledger holds an order with the given id.
pub open spec fn spec_has_order(orders: Seq<Order>, id: u64) -> bool {
    exists|i: int| 0 <= i < orders.len() && (#[trigger] orders[i]).id == id
}

/// The position of the order with the given id.
pub open spec fn spec_order_idx(orders: Seq<Order>, id: u64) -> int {
    choose|i: int| 0 <= i < orders.len() && (#[trigger] orders[i]).id == id
}

/// The order with the given id.
pub open spec fn spec_order_at(orders: Seq<Order>, id: u64) -> Order {
    orders[spec_order_idx(orders, id)]
}

/// The ledger with the order of the given id taken out.
pub open spec fn spec_remove_order(orders: Seq<Order>, id: u64) -> Seq<Order> {
    orders.remove(spec_order_idx(orders, id))
}

/// Order ids strictly increase along the ledger.
pub open spec fn orders_sorted(orders: Seq<Order>) -> bool {
    forall|i: int, j: int|
        0 <= i < j < orders.len() ==> (#[trigger] orders[i]).id < (#[trigger] orders[j]).id
}

/// In a sorted ledger the id of the order at position `i` is found at
/// exactly that position.
pub proof fn lemma_order_idx_of(orders: Seq<Order>, i: int)
    requires
        orders_sorted(orders),
        0 <= i < orders.len(),
    ensures
        spec_has_order(orders, orders[i].id),
        spec_order_idx(orders, orders[i].id) == i,
{
    let id = orders[i].id;
    assert(spec_has_order(orders, id));
    let k = spec_order_idx(orders, id);
    assert(0 <= k < orders.len() && orders[k].id == id);
    if k < i {
        assert(orders[k].id < orders[i].id);
    } else if i < k {
        assert(orders[i].id < orders[k].id);
    }
}

/// Whether the catalog holds a collection with the given address.
pub open spec fn spec_has_collection(cs: Seq<CollectionInfo>, addr: Seq<char>) -> bool {
    exists|i: int| 0 <= i < cs.len() && (#[trigger] cs[i]).nft_address@ == addr
}

/// The position of the collection with the given address.
pub open spec fn spec_collection_idx(cs: Seq<CollectionInfo>, addr: Seq<char>) -> int {
    choose|i: int| 0 <= i < cs.len() && (#[trigger] cs[i]).nft_address@ == addr
}

/// The collection with the given address.
pub open spec fn spec_collection_at(cs: Seq<CollectionInfo>, addr: Seq<char>) -> CollectionInfo {
    cs[spec_collection_idx(cs, addr)]
}

/// Collection addresses are pairwise distinct.
pub open spec fn collections_unique(cs: Seq<CollectionInfo>) -> bool {
    forall|i: int, j: int|
        0 <= i < j < cs.len() ==> (#[trigger] cs[i]).nft_address@ != (
        #[trigger] cs[j]).nft_address@
}

/// In a duplicate-free catalog the address of the collection at position
/// `i` is found at exactly that position.
pub proof fn lemma_collection_idx_of(cs: Seq<CollectionInfo>, i: int)
    requires
        collections_unique(cs),
        0 <= i < cs.len(),
    ensures
        spec_has_collection(cs, cs[i].nft_address@),
        spec_collection_idx(cs, cs[i].nft_address@) == i,
{
    let addr = cs[i].nft_address@;
    assert(spec_has_collection(cs, addr));
    let k = spec_collection_idx(cs, addr);
    assert(0 <= k < cs.len() && cs[k].nft_address@ == addr);
    if k < i {
        assert(cs[k].nft_address@ != cs[i].nft_address@);
    } else if i < k {
        assert(cs[i].nft_address@ != cs[k].nft_address@);
    }
}

/// The seller index mirrors the ledger entry for entry: same order ids,
/// same sellers, in the same positions.
pub open spec fn seller_index_matches(orders: Seq<Order>, index: Seq<SellerIndexEntry>) -> bool {
    &&& index.len() == orders.len()
    &&& forall|i: int|
        0 <= i < orders.len() ==> (#[trigger] index[i]).order_id == orders[i].id
            && index[i].seller_address@ == orders[i].seller_address@
}

/// The whole engine state: configuration, catalog, order ledger with its
/// seller index, and the id counter for the next listing.
#[derive(Debug)]
pub struct MarketContract {
    pub config: Config,
    pub collections: Vec<CollectionInfo>,
    pub orders: Vec<Order>,
    pub seller_index: Vec<SellerIndexEntry>,
    pub order_index: u64,
}

impl MarketContract {
    /// The state invariant: valid configuration; ledger sorted by id with
    /// every id below the counter; every order well formed, backed by an
    /// existing collection, and mirrored in the seller index; catalog
    /// addresses unique with royalty sums of at most one.
    pub open spec fn wf(&self) -> bool {
        &&& self.config.wf()
        &&& 1 <= self.order_index
        &&& orders_sorted(self.orders@)
        &&& forall|i: int|
            0 <= i < self.orders@.len() ==> (#[trigger] self.orders@[i]).id < self.order_index
        &&& forall|i: int| 0 <= i < self.orders@.len() ==> order_wf(#[trigger] self.orders@[i])
        &&& forall|i: int|
            0 <= i < self.orders@.len() ==> spec_has_collection(
                self.collections@,
                (#[trigger] self.orders@[i]).nft_address@,
            )
        &&& collections_unique(self.collections@)
        &&& forall|i: int|
            0 <= i < self.collections@.len() ==> collection_wf(#[trigger] self.collections@[i])
        &&& seller_index_matches(self.orders@, self.seller_index@)
    }

    /// The position of the order with the given id, or `None` when no
    /// open order carries it.
    pub(crate) fn find_order(&self, order_id: u64) -> (r: Option<usize>)
        requires
            orders_sorted(self.orders@),
        ensures
            match r {
                Some(i) => {
                    &&& spec_has_order(self.orders@, order_id)
                    &&& i == spec_order_idx(self.orders@, order_id)
                    &&& i < self.orders@.len()
                    &&& self.orders@[i as int].id == order_id
                },
                None => !spec_has_order(self.orders@, order_id),
            },
    {
        let n: usize = self.orders.len();
        let mut i: usize = 0;
        while i < n
            invariant
                0 <= i <= n,
                n == self.orders@.len(),
                orders_sorted(self.orders@),
                forall|k: int| 0 <= k < i ==> (#[trigger] self.orders@[k]).id != order_id,
            decreases n - i,
        {
            if self.orders[i].id == order_id {
                proof {
                    lemma_order_idx_of(self.orders@, i as int);
                }
                return Some(i);
            }
            i = i + 1;
        }
        None
    }

    /// The position of the collection with the given address, or `None`
    /// when the catalog has no record of it.
    pub(crate) fn find_collection(&self, nft_address: &String) -> (r: Option<usize>)
        requires
            collections_unique(self.collections@),
        ensures
            match r {
                Some(i) => {
                    &&& spec_has_collection(self.collections@, nft_address@)
                    &&& i == spec_collection_idx(self.collections@, nft_address@)
                    &&& i < self.collections@.len()
                    &&& self.collections@[i as int].nft_address@ == nft_address@
                },
                None => !spec_has_collection(self.collections@, nft_address@),
            },
    {
        let n: usize = self.collections.len();
        let mut i: usize = 0;
        while i < n
            invariant
                0 <= i <= n,
                n == self.collections@.len(),
                collections_unique(self.collections@),
                forall|k: int|
                    0 <= k < i ==> (#[trigger] self.collections@[k]).nft_address@ != nft_address@,
            decreases n - i,
        {
            if self.collections[i].nft_address == *nft_address {
                proof {
                    lemma_collection_idx_of(self.collections@, i as int);
                }
                return Some(i);
            }
            i = i + 1;
        }
        None
    }
}

} // verus!
