use market::{
    Asset, AssetInfo, BlockInfo, Coin, ContractError, Cw721HookMsg, Expiration, InstantiateMsg,
    MarketContract, QueryMsg, QueryResponse, Royalty, RATE_ONE,
};

fn mock_block() -> BlockInfo {
    BlockInfo { height: 12_345, time_nanos: 1_571_797_419_879_305_533 }
}

fn setup(auction_cancel_fee_rate: u128) -> MarketContract {
    let instantiate_msg = InstantiateMsg {
        owner: "owner".to_string(),
        min_increase: 10 * RATE_ONE / 100,
        max_auction_duration_block: 100,
        max_auction_duration_second: 1000,
        auction_cancel_fee_rate,
    };
    let mut market = MarketContract::instantiate(instantiate_msg).unwrap();
    let uusd = AssetInfo::NativeToken { denom: "uusd".to_string() };
    let owner = "owner".to_string();
    market
        .add_collection(
            &owner,
            "spaceship".to_string(),
            vec![uusd],
            vec![Royalty { address: "nft_designer".to_string(), royalty_rate: 2 * RATE_ONE / 100 }],
        )
        .unwrap();
    market
}

fn uusd_asset(amount: u128) -> Asset {
    Asset { info: AssetInfo::NativeToken { denom: "uusd".to_string() }, amount }
}

#[test]
fn fee_rate_above_one_is_rejected() {
    let res = MarketContract::instantiate(InstantiateMsg {
        owner: "owner".to_string(),
        min_increase: 0,
        max_auction_duration_block: 100,
        max_auction_duration_second: 1000,
        auction_cancel_fee_rate: RATE_ONE + 1,
    });
    assert!(matches!(res, Err(ContractError::InvalidFeeRate {})));

    let mut market = setup(0);
    let owner = "owner".to_string();
    let res = market.update_config(&owner, None, None, None, None, Some(RATE_ONE + 1));
    assert!(matches!(res, Err(ContractError::InvalidFeeRate {})));
}

#[test]
fn unbounded_deadline_is_rejected() {
    let mut market = setup(0);
    let res = market.receive_nft(
        &mock_block(),
        "spaceship".to_string(),
        "seller".to_string(),
        "no1".to_string(),
        Cw721HookMsg::MakeAuctionOrder {
            start_price: uusd_asset(1000),
            expiration: Expiration::Never,
            fixed_price: None,
        },
    );
    assert!(matches!(res, Err(ContractError::Never {})));
}

#[test]
fn listing_for_an_unknown_collection_is_rejected() {
    let mut market = setup(0);
    let res = market.receive_nft(
        &mock_block(),
        "unknown".to_string(),
        "seller".to_string(),
        "no1".to_string(),
        Cw721HookMsg::MakeFixedPriceOrder { price: uusd_asset(1000) },
    );
    assert!(matches!(res, Err(ContractError::CollectionNotFound {})));

    let owner = "owner".to_string();
    let unknown = "unknown".to_string();
    let res = market.update_collection(&owner, &unknown, None, None);
    assert!(matches!(res, Err(ContractError::CollectionNotFound {})));
}

#[test]
fn buying_a_pure_auction_outright_is_rejected() {
    let mut market = setup(0);
    market
        .receive_nft(
            &mock_block(),
            "spaceship".to_string(),
            "seller".to_string(),
            "no1".to_string(),
            Cw721HookMsg::MakeAuctionOrder {
                start_price: uusd_asset(1000),
                expiration: Expiration::AtHeight(12_400),
                fixed_price: None,
            },
        )
        .unwrap();
    let funds = vec![Coin { denom: "uusd".to_string(), amount: 1000 }];
    let res = market.execute_order("buyer".to_string(), 1, None, &funds);
    assert!(matches!(res, Err(ContractError::NoFixedPrice {})));
}

#[test]
fn cancelling_an_expired_auction_is_rejected() {
    let mut market = setup(0);
    let seller = "seller".to_string();
    market
        .receive_nft(
            &mock_block(),
            "spaceship".to_string(),
            seller.clone(),
            "no1".to_string(),
            Cw721HookMsg::MakeAuctionOrder {
                start_price: uusd_asset(1000),
                expiration: Expiration::AtHeight(12_400),
                fixed_price: None,
            },
        )
        .unwrap();
    let mut block = mock_block();
    block.height = 12_400;
    let no_funds: Vec<Coin> = vec![];
    let res = market.cancel_order(&block, &seller, 1, None, &no_funds);
    assert!(matches!(res, Err(ContractError::Expired {})));
}

#[test]
fn oversized_amounts_fail_with_overflow() {
    // a bid floor that no longer fits in 128 bits
    let mut market = setup(0);
    market
        .receive_nft(
            &mock_block(),
            "spaceship".to_string(),
            "seller".to_string(),
            "no1".to_string(),
            Cw721HookMsg::MakeAuctionOrder {
                start_price: uusd_asset(u128::MAX),
                expiration: Expiration::AtHeight(12_400),
                fixed_price: None,
            },
        )
        .unwrap();
    let funds = vec![Coin { denom: "uusd".to_string(), amount: u128::MAX }];
    let res = market.bid(&mock_block(), "bidder".to_string(), 1, uusd_asset(u128::MAX), &funds);
    assert!(matches!(res, Err(ContractError::Overflow {})));

    // a bid refund plus a 100% cancellation fee that no longer fits
    let mut market = setup(RATE_ONE);
    let seller = "seller".to_string();
    market
        .receive_nft(
            &mock_block(),
            "spaceship".to_string(),
            seller.clone(),
            "no1".to_string(),
            Cw721HookMsg::MakeAuctionOrder {
                start_price: uusd_asset(1000),
                expiration: Expiration::AtHeight(12_400),
                fixed_price: None,
            },
        )
        .unwrap();
    let funds = vec![Coin { denom: "uusd".to_string(), amount: u128::MAX }];
    market.bid(&mock_block(), "bidder".to_string(), 1, uusd_asset(u128::MAX), &funds).unwrap();
    let fee_funds = vec![Coin { denom: "uusd".to_string(), amount: u128::MAX }];
    let res = market.cancel_order(&mock_block(), &seller, 1, None, &fee_funds);
    assert!(matches!(res, Err(ContractError::Overflow {})));
}

#[test]
fn queries_answer_from_the_ledger() {
    let mut market = setup(0);
    market
        .receive_nft(
            &mock_block(),
            "spaceship".to_string(),
            "seller".to_string(),
            "no1".to_string(),
            Cw721HookMsg::MakeFixedPriceOrder { price: uusd_asset(1000) },
        )
        .unwrap();

    match market.query(QueryMsg::Config {}).unwrap() {
        QueryResponse::Config(c) => assert_eq!("owner".to_string(), c.owner),
        _ => panic!("Must answer with the configuration"),
    }

    match market.query(QueryMsg::Order { order_id: 1 }).unwrap() {
        QueryResponse::Order(o) => assert_eq!("no1".to_string(), o.token_id),
        _ => panic!("Must answer with the order"),
    }

    let res = market.query(QueryMsg::Order { order_id: 9 });
    assert!(matches!(res, Err(ContractError::OrderNotFound {})));

    match market.query(QueryMsg::CollectionInfo { nft_address: "spaceship".to_string() }).unwrap()
    {
        QueryResponse::CollectionInfo(c) => assert_eq!("spaceship".to_string(), c.nft_address),
        _ => panic!("Must answer with the collection"),
    }

    // a fixed-price order owes no cancellation fee
    match market.query(QueryMsg::CancelFee { order_id: 1 }).unwrap() {
        QueryResponse::CancelFee(fee) => assert_eq!(0, fee.amount),
        _ => panic!("Must answer with the fee"),
    }

    match market
        .query(QueryMsg::Orders { seller_address: None, start_after: None, limit: None })
        .unwrap()
    {
        QueryResponse::Orders(v) => assert_eq!(1, v.len()),
        _ => panic!("Must answer with the orders"),
    }

    match market
        .query(QueryMsg::CollectionInfos { start_after: None, limit: None })
        .unwrap()
    {
        QueryResponse::CollectionInfos(v) => assert_eq!(1, v.len()),
        _ => panic!("Must answer with the collections"),
    }
}
