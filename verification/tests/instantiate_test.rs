use market::{InstantiateMsg, MarketContract, RATE_ONE};

#[test]
fn instantiate_test() {
    let instantiate_msg = InstantiateMsg {
        owner: "owner".to_string(),
        min_increase: 10 * RATE_ONE / 100,
        max_auction_duration_block: 100,
        max_auction_duration_second: 1000,
        auction_cancel_fee_rate: 5 * RATE_ONE / 1000,
    };

    let market = MarketContract::instantiate(instantiate_msg).unwrap();

    let config = market.get_config();

    assert_eq!("owner".to_string(), config.owner);
    assert_eq!(10 * RATE_ONE / 100, config.min_increase);
    assert_eq!(100, config.max_auction_duration_block);
    assert_eq!(1000, config.max_auction_duration_second);

    assert_eq!(1, market.order_index);
}
