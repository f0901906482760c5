//! The closed error taxonomy of the engine. Every failing operation
//! aborts with one of these errors and leaves the state unchanged.

use vstd::prelude::*;

use crate::asset::{asset_eq, Asset};

verus! {

/// Why an operation was refused.
#[derive(Debug)]
pub enum ContractError {
    /// No open order carries the asked-for id.
    OrderNotFound {},
    /// No collection record carries the asked-for address.
    CollectionNotFound {},
    /// A collection record for this address already exists.
    CollectionExist {},
    /// The caller is neither the owner nor the seller the operation demands.
    Unauthorized {},
    /// The asset kind is not supported by the collection.
    Unsupport {},
    /// The royalty rates of a collection sum to more than one.
    InvalidRoyaltyRate {},
    /// The cancellation fee rate exceeds one.
    InvalidFeeRate {},
    /// The order has no fixed-price option.
    NoFixedPrice {},
    /// The order is not an auction.
    NotAuction {},
    /// The payment does not match the price, in kind or in amount.
    TokenMismatch {},
    /// Two assets that must share a kind do not.
    AssetInfoMismatch {},
    /// The deadline has already passed, or lies in the past at creation.
    Expired {},
    /// The auction would run longer than the configured maximum.
    MaxDuration {},
    /// An unbounded deadline was supplied.
    Never {},
    /// The auction cannot be settled before its deadline.
    NotExpired {},
    /// The supplied cancellation fee is not exactly the fee due.
    CancelFeeMismatch { fee_asset: Asset },
    /// The bid is below the required minimum, which is reported.
    MinPrice { min_bid_amount: u128 },
    /// A computed amount does not fit in 128 bits.
    Overflow {},
}

/// Two errors are equal: the same variant with equal payload.
pub open spec fn error_eq(a: ContractError, b: ContractError) -> bool {
    match (a, b) {
        (ContractError::OrderNotFound {}, ContractError::OrderNotFound {}) => true,
        (ContractError::CollectionNotFound {}, ContractError::CollectionNotFound {}) => true,
        (ContractError::CollectionExist {}, ContractError::CollectionExist {}) => true,
        (ContractError::Unauthorized {}, ContractError::Unauthorized {}) => true,
        (ContractError::Unsupport {}, ContractError::Unsupport {}) => true,
        (ContractError::InvalidRoyaltyRate {}, ContractError::InvalidRoyaltyRate {}) => true,
        (ContractError::InvalidFeeRate {}, ContractError::InvalidFeeRate {}) => true,
        (ContractError::NoFixedPrice {}, ContractError::NoFixedPrice {}) => true,
        (ContractError::NotAuction {}, ContractError::NotAuction {}) => true,
        (ContractError::TokenMismatch {}, ContractError::TokenMismatch {}) => true,
        (ContractError::AssetInfoMismatch {}, ContractError::AssetInfoMismatch {}) => true,
        (ContractError::Expired {}, ContractError::Expired {}) => true,
        (ContractError::MaxDuration {}, ContractError::MaxDuration {}) => true,
        (ContractError::Never {}, ContractError::Never {}) => true,
        (ContractError::NotExpired {}, ContractError::NotExpired {}) => true,
        (
            ContractError::CancelFeeMismatch { fee_asset: x },
            ContractError::CancelFeeMismatch { fee_asset: y },
        ) => asset_eq(x, y),
        (
            ContractError::MinPrice { min_bid_amount: x },
            ContractError::MinPrice { min_bid_amount: y },
        ) => x == y,
        (ContractError::Overflow {}, ContractError::Overflow {}) => true,
        _ => false,
    }
}

impl Clone for ContractError {
    fn clone(&self) -> (res: Self)
        ensures
            res == *self,
    {
        match self {
            ContractError::OrderNotFound {} => ContractError::OrderNotFound {},
            ContractError::CollectionNotFound {} => ContractError::CollectionNotFound {},
            ContractError::CollectionExist {} => ContractError::CollectionExist {},
            ContractError::Unauthorized {} => ContractError::Unauthorized {},
            ContractError::Unsupport {} => ContractError::Unsupport {},
            ContractError::InvalidRoyaltyRate {} => ContractError::InvalidRoyaltyRate {},
            ContractError::InvalidFeeRate {} => ContractError::InvalidFeeRate {},
            ContractError::NoFixedPrice {} => ContractError::NoFixedPrice {},
            ContractError::NotAuction {} => ContractError::NotAuction {},
            ContractError::TokenMismatch {} => ContractError::TokenMismatch {},
            ContractError::AssetInfoMismatch {} => ContractError::AssetInfoMismatch {},
            ContractError::Expired {} => ContractError::Expired {},
            ContractError::MaxDuration {} => ContractError::MaxDuration {},
            ContractError::Never {} => ContractError::Never {},
            ContractError::NotExpired {} => ContractError::NotExpired {},
            ContractError::CancelFeeMismatch { fee_asset } => ContractError::CancelFeeMismatch {
                fee_asset: fee_asset.clone(),
            },
            ContractError::MinPrice { min_bid_amount } => ContractError::MinPrice {
                min_bid_amount: *min_bid_amount,
            },
            ContractError::Overflow {} => ContractError::Overflow {},
        }
    }
}

impl PartialEq for ContractError {
    fn eq(&self, other: &Self) -> (r: bool) {
        match (self, other) {
            (ContractError::OrderNotFound {}, ContractError::OrderNotFound {}) => true,
            (ContractError::CollectionNotFound {}, ContractError::CollectionNotFound {}) => true,
            (ContractError::CollectionExist {}, ContractError::CollectionExist {}) => true,
            (ContractError::Unauthorized {}, ContractError::Unauthorized {}) => true,
            (ContractError::Unsupport {}, ContractError::Unsupport {}) => true,
            (ContractError::InvalidRoyaltyRate {}, ContractError::InvalidRoyaltyRate {}) => true,
            (ContractError::InvalidFeeRate {}, ContractError::InvalidFeeRate {}) => true,
            (ContractError::NoFixedPrice {}, ContractError::NoFixedPrice {}) => true,
            (ContractError::NotAuction {}, ContractError::NotAuction {}) => true,
            (ContractError::TokenMismatch {}, ContractError::TokenMismatch {}) => true,
            (ContractError::AssetInfoMismatch {}, ContractError::AssetInfoMismatch {}) => true,
            (ContractError::Expired {}, ContractError::Expired {}) => true,
            (ContractError::MaxDuration {}, ContractError::MaxDuration {}) => true,
            (ContractError::Never {}, ContractError::Never {}) => true,
            (ContractError::NotExpired {}, ContractError::NotExpired {}) => true,
            (
                ContractError::CancelFeeMismatch { fee_asset: x },
                ContractError::CancelFeeMismatch { fee_asset: y },
            ) => *x == *y,
            (
                ContractError::MinPrice { min_bid_amount: x },
                ContractError::MinPrice { min_bid_amount: y },
            ) => *x == *y,
            (ContractError::Overflow {}, ContractError::Overflow {}) => true,
            _ => false,
        }
    }
}

impl vstd::std_specs::cmp::PartialEqSpecImpl for ContractError {
    open spec fn obeys_eq_spec() -> bool {
        true
    }

    open spec fn eq_spec(&self, other: &Self) -> bool {
        error_eq(*self, *other)
    }
}

} // verus!
