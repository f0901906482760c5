use market::{
    AssetInfo, ContractError, InstantiateMsg, MarketContract, Royalty, RATE_ONE,
};

fn setup() -> MarketContract {
    let instantiate_msg = InstantiateMsg {
        owner: "owner".to_string(),
        min_increase: 10 * RATE_ONE / 100,
        max_auction_duration_block: 100,
        max_auction_duration_second: 1000,
        auction_cancel_fee_rate: 5 * RATE_ONE / 1000,
    };
    MarketContract::instantiate(instantiate_msg).unwrap()
}

#[test]
fn update_config_test() {
    let mut market = setup();

    // update config, owner change
    let owner = "owner".to_string();
    market
        .update_config(&owner, Some("next_owner".to_string()), None, None, None, None)
        .unwrap();

    // check owner changed
    assert_eq!("next_owner".to_string(), market.config.owner);

    // former owner try to update config
    let res = market.update_config(&owner, Some("owner".to_string()), None, None, None, None);

    match res {
        Err(ContractError::Unauthorized {}) => assert!(true),
        _ => panic!("Must return unauthorized error"),
    }

    // update config. other options
    let next_owner = "next_owner".to_string();
    market
        .update_config(
            &next_owner,
            None,
            Some(5 * RATE_ONE / 100),
            Some(123),
            Some(1234),
            Some(3 * RATE_ONE / 1000),
        )
        .unwrap();

    assert_eq!(5 * RATE_ONE / 100, market.config.min_increase);
    assert_eq!(123, market.config.max_auction_duration_block);
    assert_eq!(1234, market.config.max_auction_duration_second);
}

#[test]
fn add_and_update_collection_test() {
    let mut market = setup();

    // some assetinfos
    let uusd = AssetInfo::NativeToken { denom: "uusd".to_string() };
    let mir = AssetInfo::Token { contract_addr: "mir_addr".to_string() };

    // some royalties
    let normal_user_royalty = Royalty {
        address: "normal_user".to_string(),
        royalty_rate: RATE_ONE,
    };

    let nft_designer_royalty = Royalty {
        address: "nft_designer".to_string(),
        royalty_rate: 2 * RATE_ONE / 100,
    };

    let nft_pm_royalty = Royalty {
        address: "nft_pm".to_string(),
        royalty_rate: 3 * RATE_ONE / 100,
    };

    let nft_designer_royalty_invalid = Royalty {
        address: "nft_designer".to_string(),
        royalty_rate: 60 * RATE_ONE / 100,
    };

    let nft_pm_royalty_invalid = Royalty {
        address: "nft_pm".to_string(),
        royalty_rate: 80 * RATE_ONE / 100,
    };

    // normal user(not the owner) try to add collection
    let normal_user = "normal_user".to_string();
    let res = market.add_collection(
        &normal_user,
        "spaceship".to_string(),
        vec![uusd.clone()],
        vec![normal_user_royalty],
    );

    match res {
        Err(ContractError::Unauthorized {}) => assert!(true),
        _ => panic!("Must return unauthorized error"),
    }

    // try to add collection with invalid royalty rate
    let owner = "owner".to_string();
    let res = market.add_collection(
        &owner,
        "spaceship".to_string(),
        vec![uusd.clone(), mir.clone()],
        vec![nft_designer_royalty_invalid.clone(), nft_pm_royalty_invalid.clone()],
    );

    match res {
        Err(ContractError::InvalidRoyaltyRate {}) => assert!(true),
        _ => panic!("Must return invalid royalty rate error"),
    }

    // add collection
    market
        .add_collection(
            &owner,
            "spaceship".to_string(),
            vec![uusd.clone(), mir.clone()],
            vec![nft_designer_royalty.clone(), nft_pm_royalty.clone()],
        )
        .unwrap();

    let spaceship = "spaceship".to_string();
    let collection = market.get_collection_info(&spaceship).unwrap();

    assert_eq!("spaceship".to_string(), collection.nft_address);
    assert_eq!(vec![uusd.clone(), mir.clone()], collection.support_assets);
    assert_eq!(
        vec![nft_designer_royalty.clone(), nft_pm_royalty.clone()],
        collection.royalties
    );

    // try to add collection that already exist
    let res = market.add_collection(
        &owner,
        "spaceship".to_string(),
        vec![uusd.clone(), mir.clone()],
        vec![nft_designer_royalty.clone(), nft_pm_royalty.clone()],
    );

    match res {
        Err(ContractError::CollectionExist {}) => assert!(true),
        _ => panic!("Must return collection exist error"),
    }

    // who is not the owner try to update collection
    let nft_designer = "nft_designer".to_string();
    let res = market.update_collection(
        &nft_designer,
        &spaceship,
        Some(vec![uusd.clone(), mir.clone()]),
        Some(vec![nft_designer_royalty.clone()]),
    );

    match res {
        Err(ContractError::Unauthorized {}) => assert!(true),
        _ => panic!("Must return unauthorized error"),
    }

    // try to update collection with invalid royalty rate
    let res = market.update_collection(
        &owner,
        &spaceship,
        None,
        Some(vec![nft_designer_royalty_invalid, nft_pm_royalty_invalid]),
    );

    match res {
        Err(ContractError::InvalidRoyaltyRate {}) => assert!(true),
        _ => panic!("Must return invalid royalty rate error"),
    }

    // update collection
    market
        .update_collection(
            &owner,
            &spaceship,
            Some(vec![uusd.clone()]),
            Some(vec![nft_designer_royalty.clone()]),
        )
        .unwrap();

    let collection = market.get_collection_info(&spaceship).unwrap();

    assert_eq!("spaceship".to_string(), collection.nft_address);
    assert_eq!(vec![uusd], collection.support_assets);
    assert_eq!(vec![nft_designer_royalty], collection.royalties);
}
