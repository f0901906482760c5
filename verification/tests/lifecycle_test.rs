use market::{
    Asset, AssetInfo, BlockInfo, Coin, ContractError, Cw721HookMsg, Expiration, InstantiateMsg,
    MarketContract, Royalty, TransferInstruction, RATE_ONE,
};

fn mock_block() -> BlockInfo {
    BlockInfo { height: 12_345, time_nanos: 1_571_797_419_879_305_533 }
}

fn setup(auction_cancel_fee_rate: u128, royalties: Vec<Royalty>) -> MarketContract {
    let instantiate_msg = InstantiateMsg {
        owner: "owner".to_string(),
        min_increase: 10 * RATE_ONE / 100,
        max_auction_duration_block: 100,
        max_auction_duration_second: 1000,
        auction_cancel_fee_rate,
    };
    let mut market = MarketContract::instantiate(instantiate_msg).unwrap();
    let uusd = AssetInfo::NativeToken { denom: "uusd".to_string() };
    let mir = AssetInfo::Token { contract_addr: "mir_addr".to_string() };
    let owner = "owner".to_string();
    market
        .add_collection(&owner, "spaceship".to_string(), vec![uusd, mir], royalties)
        .unwrap();
    market
}

fn list_fixed(market: &mut MarketContract, token_id: &str, amount: u128) -> u64 {
    let price = Asset {
        info: AssetInfo::NativeToken { denom: "uusd".to_string() },
        amount,
    };
    market
        .receive_nft(
            &mock_block(),
            "spaceship".to_string(),
            "seller".to_string(),
            token_id.to_string(),
            Cw721HookMsg::MakeFixedPriceOrder { price },
        )
        .unwrap()
}

#[test]
fn order_ids_strictly_increase_and_are_never_reused() {
    let mut market = setup(0, vec![]);
    let seller = "seller".to_string();
    let no_funds: Vec<Coin> = vec![];

    let first = list_fixed(&mut market, "no1", 1000);
    assert_eq!(1, first);
    assert_eq!(2, market.order_index);

    // cancel the first order, then list again: the freed id never returns
    market.cancel_order(&mock_block(), &seller, first, None, &no_funds).unwrap();
    let second = list_fixed(&mut market, "no2", 1000);
    assert_eq!(2, second);
    assert_eq!(3, market.order_index);

    // execute the second order, list again: still counting upward
    let funds = vec![Coin { denom: "uusd".to_string(), amount: 1000 }];
    market.execute_order("buyer".to_string(), second, None, &funds).unwrap();
    let third = list_fixed(&mut market, "no3", 1000);
    assert_eq!(3, third);
    assert_eq!(4, market.order_index);

    // every attempt against a removed id fails as not found
    assert!(matches!(market.get_order(1), Err(ContractError::OrderNotFound {})));
    assert!(matches!(
        market.execute_order("buyer".to_string(), 1, None, &funds),
        Err(ContractError::OrderNotFound {})
    ));
    assert!(matches!(
        market.execute_auction(&mock_block(), 2),
        Err(ContractError::OrderNotFound {})
    ));
    assert!(matches!(
        market.cancel_order(&mock_block(), &seller, 2, None, &no_funds),
        Err(ContractError::OrderNotFound {})
    ));
    let bid = Asset { info: AssetInfo::NativeToken { denom: "uusd".to_string() }, amount: 5 };
    assert!(matches!(
        market.bid(&mock_block(), "bidder".to_string(), 1, bid, &no_funds),
        Err(ContractError::OrderNotFound {})
    ));
}

#[test]
fn royalty_rounding_still_conserves_the_price() {
    // two rates of one third each: the payouts round down and the seller
    // keeps the leftover units
    let third = RATE_ONE / 3;
    let market_royalties = vec![
        Royalty { address: "a".to_string(), royalty_rate: third },
        Royalty { address: "b".to_string(), royalty_rate: third },
    ];
    let mut market = setup(0, market_royalties);

    let id = list_fixed(&mut market, "no1", 100);
    let funds = vec![Coin { denom: "uusd".to_string(), amount: 100 }];
    let res = market.execute_order("buyer".to_string(), id, None, &funds).unwrap();

    let uusd = AssetInfo::NativeToken { denom: "uusd".to_string() };
    assert_eq!(
        res.instructions,
        vec![
            TransferInstruction::Item {
                nft_address: "spaceship".to_string(),
                token_id: "no1".to_string(),
                recipient: "buyer".to_string(),
            },
            TransferInstruction::Fund {
                asset: Asset { info: uusd.clone(), amount: 33 },
                recipient: "a".to_string(),
            },
            TransferInstruction::Fund {
                asset: Asset { info: uusd.clone(), amount: 33 },
                recipient: "b".to_string(),
            },
            TransferInstruction::Fund {
                asset: Asset { info: uusd.clone(), amount: 34 },
                recipient: "seller".to_string(),
            },
        ]
    );
    assert_eq!(34, res.remainder);
    // payouts plus remainder give back the price exactly
    assert_eq!(33 + 33 + res.remainder, 100);
}

#[test]
fn bid_floor_is_reported_exactly() {
    let mut market = setup(0, vec![]);

    let start_price = Asset {
        info: AssetInfo::NativeToken { denom: "uusd".to_string() },
        amount: 100_000_000,
    };
    market
        .receive_nft(
            &mock_block(),
            "spaceship".to_string(),
            "seller".to_string(),
            "no1".to_string(),
            Cw721HookMsg::MakeAuctionOrder {
                start_price,
                expiration: Expiration::AtHeight(12_400),
                fixed_price: None,
            },
        )
        .unwrap();

    // a bid of 101,000,000 is below the floor of 110,000,000 and the
    // floor itself is reported
    let bid = Asset {
        info: AssetInfo::NativeToken { denom: "uusd".to_string() },
        amount: 101_000_000,
    };
    let funds = vec![Coin { denom: "uusd".to_string(), amount: 101_000_000 }];
    let res = market.bid(&mock_block(), "bidder".to_string(), 1, bid, &funds);
    match res {
        Err(ContractError::MinPrice { min_bid_amount }) => {
            assert_eq!(110_000_000, min_bid_amount)
        },
        _ => panic!("Must return min price error"),
    }

    // the floor itself is accepted
    let bid = Asset {
        info: AssetInfo::NativeToken { denom: "uusd".to_string() },
        amount: 110_000_000,
    };
    let funds = vec![Coin { denom: "uusd".to_string(), amount: 110_000_000 }];
    market.bid(&mock_block(), "bidder".to_string(), 1, bid, &funds).unwrap();
}

#[test]
fn cancel_fee_must_match_to_the_unit() {
    let mut market = setup(5 * RATE_ONE / 1000, vec![]);
    let seller = "seller".to_string();

    let start_price = Asset {
        info: AssetInfo::NativeToken { denom: "uusd".to_string() },
        amount: 100_000_000,
    };
    market
        .receive_nft(
            &mock_block(),
            "spaceship".to_string(),
            seller.clone(),
            "no1".to_string(),
            Cw721HookMsg::MakeAuctionOrder {
                start_price,
                expiration: Expiration::AtHeight(12_400),
                fixed_price: None,
            },
        )
        .unwrap();

    let bid = Asset {
        info: AssetInfo::NativeToken { denom: "uusd".to_string() },
        amount: 120_000_000,
    };
    let funds = vec![Coin { denom: "uusd".to_string(), amount: 120_000_000 }];
    market.bid(&mock_block(), "bidder".to_string(), 1, bid, &funds).unwrap();

    // the fee due is 0.5% of the standing bid
    let fee = market.cancel_fee(1).unwrap();
    assert_eq!(600_000, fee.amount);

    // one unit under and one unit over both fail
    for wrong in [599_999u128, 600_001u128] {
        let wrong_funds = vec![Coin { denom: "uusd".to_string(), amount: wrong }];
        let res = market.cancel_order(&mock_block(), &seller, 1, None, &wrong_funds);
        match res {
            Err(ContractError::CancelFeeMismatch { fee_asset }) => {
                assert_eq!(600_000, fee_asset.amount)
            },
            _ => panic!("Must return cancel fee mismatch error"),
        }
    }

    // the exact fee cancels, and the bidder receives bid plus fee
    let exact_funds = vec![Coin { denom: "uusd".to_string(), amount: 600_000 }];
    let res = market.cancel_order(&mock_block(), &seller, 1, None, &exact_funds).unwrap();
    assert_eq!(
        res[0],
        TransferInstruction::Fund {
            asset: Asset {
                info: AssetInfo::NativeToken { denom: "uusd".to_string() },
                amount: 120_600_000,
            },
            recipient: "bidder".to_string(),
        }
    );
    assert!(matches!(market.get_order(1), Err(ContractError::OrderNotFound {})));
}

#[test]
fn auction_duration_boundaries_are_inclusive() {
    let mut market = setup(0, vec![]);
    let start_price = Asset {
        info: AssetInfo::NativeToken { denom: "uusd".to_string() },
        amount: 1000,
    };

    // exactly the configured maximum of 100 blocks ahead is accepted
    market
        .receive_nft(
            &mock_block(),
            "spaceship".to_string(),
            "seller".to_string(),
            "no1".to_string(),
            Cw721HookMsg::MakeAuctionOrder {
                start_price: start_price.clone(),
                expiration: Expiration::AtHeight(12_345 + 100),
                fixed_price: None,
            },
        )
        .unwrap();

    // one block farther is rejected
    let res = market.receive_nft(
        &mock_block(),
        "spaceship".to_string(),
        "seller".to_string(),
        "no2".to_string(),
        Cw721HookMsg::MakeAuctionOrder {
            start_price: start_price.clone(),
            expiration: Expiration::AtHeight(12_345 + 101),
            fixed_price: None,
        },
    );
    assert!(matches!(res, Err(ContractError::MaxDuration {})));

    // the duration of a time deadline counts in whole seconds: exactly
    // 1000 seconds ahead is accepted, 1001 is rejected
    let now = mock_block().time_nanos;
    let second: u64 = 1_000_000_000;
    market
        .receive_nft(
            &mock_block(),
            "spaceship".to_string(),
            "seller".to_string(),
            "no3".to_string(),
            Cw721HookMsg::MakeAuctionOrder {
                start_price: start_price.clone(),
                expiration: Expiration::AtTime(now + 1000 * second),
                fixed_price: None,
            },
        )
        .unwrap();

    let res = market.receive_nft(
        &mock_block(),
        "spaceship".to_string(),
        "seller".to_string(),
        "no4".to_string(),
        Cw721HookMsg::MakeAuctionOrder {
            start_price,
            expiration: Expiration::AtTime(now + 1001 * second),
            fixed_price: None,
        },
    );
    assert!(matches!(res, Err(ContractError::MaxDuration {})));
}

#[test]
fn order_listing_pages_by_id_and_seller() {
    let mut market = setup(0, vec![]);

    for token in ["no1", "no2", "no3", "no4"] {
        list_fixed(&mut market, token, 1000);
    }
    // one more order by another seller
    let price = Asset {
        info: AssetInfo::NativeToken { denom: "uusd".to_string() },
        amount: 1000,
    };
    market
        .receive_nft(
            &mock_block(),
            "spaceship".to_string(),
            "other_seller".to_string(),
            "no5".to_string(),
            Cw721HookMsg::MakeFixedPriceOrder { price },
        )
        .unwrap();

    // a page of two, ascending by id
    let page = market.orders(None, None, Some(2));
    assert_eq!(2, page.len());
    assert_eq!(1, page[0].id);
    assert_eq!(2, page[1].id);

    // the next page starts strictly after the last id seen
    let page = market.orders(None, Some(2), Some(2));
    assert_eq!(2, page.len());
    assert_eq!(3, page[0].id);
    assert_eq!(4, page[1].id);

    // filtering by seller
    let page = market.orders(Some("other_seller".to_string()), None, None);
    assert_eq!(1, page.len());
    assert_eq!(5, page[0].id);
    assert_eq!("other_seller".to_string(), page[0].seller_address);

    // the default page size is ten
    for token in [
        "no6", "no7", "no8", "no9", "no10", "no11", "no12", "no13", "no14", "no15",
    ] {
        list_fixed(&mut market, token, 1000);
    }
    let page = market.orders(None, None, None);
    assert_eq!(10, page.len());
}

#[test]
fn collection_listing_pages_in_catalog_order() {
    let mut market = setup(0, vec![]);
    let owner = "owner".to_string();
    let uusd = AssetInfo::NativeToken { denom: "uusd".to_string() };
    market
        .add_collection(&owner, "base_a".to_string(), vec![uusd.clone()], vec![])
        .unwrap();
    market
        .add_collection(&owner, "base_b".to_string(), vec![uusd.clone()], vec![])
        .unwrap();

    let page = market.collection_infos(None, Some(2));
    assert_eq!(2, page.len());
    assert_eq!("spaceship".to_string(), page[0].nft_address);
    assert_eq!("base_a".to_string(), page[1].nft_address);

    let page = market.collection_infos(Some("base_a".to_string()), None);
    assert_eq!(1, page.len());
    assert_eq!("base_b".to_string(), page[0].nft_address);
}
