use cosmwasm_std::Decimal;
use mirror_oracle::contract::{
    handle, init, query, query_asset, query_config, query_price, try_feed_price,
    try_register_asset, try_update_config, Env, HandleMsg, InitMsg, QueryMsg, QueryResponse,
};
use mirror_oracle::error::{ContractError, Entity};
use mirror_oracle::state::{same_identity, Asset, OracleStore, Price};
use std::str::FromStr;

fn id(s: &str) -> Vec<u8> {
    s.as_bytes().to_vec()
}

fn mock_env(sender: &str) -> Env {
    Env { sender: id(sender), block_time: 1_571_797_419 }
}

fn initialized() -> OracleStore {
    let mut deps = OracleStore::new();
    init(&mut deps, InitMsg { owner: id("owner0000"), base_denom: "base0000".to_string() });
    deps
}

#[test]
fn proper_initialization() {
    let mut deps = OracleStore::new();

    let msg = InitMsg { owner: id("owner0000"), base_denom: "base0000".to_string() };
    init(&mut deps, msg);

    let value = query_config(&deps).unwrap();
    assert_eq!(id("owner0000"), value.owner);
    assert_eq!("base0000", value.base_denom.as_str());
}

#[test]
fn update_config() {
    let mut deps = initialized();

    // update owner
    let msg = HandleMsg::UpdateConfig { owner: Some(id("owner0001")) };
    let res = handle(&mut deps, mock_env("owner0000"), msg).unwrap();
    assert_eq!(0, res.log.len());

    let value = query_config(&deps).unwrap();
    assert_eq!(id("owner0001"), value.owner);
    assert_eq!("base0000", value.base_denom.as_str());

    // the former owner is no longer authorized
    let msg = HandleMsg::UpdateConfig { owner: None };
    let res = handle(&mut deps, mock_env("owner0000"), msg);
    match res {
        Err(ContractError::Unauthorized) => {}
        _ => panic!("Must return unauthorized error"),
    }
}

#[test]
fn feed_price() {
    let mut deps = initialized();

    // update price of an unregistered symbol
    let msg = HandleMsg::FeedPrice {
        symbol: "uusd".to_string(),
        price: Decimal::from_str("1.2").unwrap(),
        price_multiplier: None,
    };
    let res = handle(&mut deps, mock_env("addr0000"), msg).unwrap_err();
    match res {
        ContractError::NotFound(Entity::Asset) => {}
        _ => panic!("DO NOT ENTER HERE"),
    }

    let msg = HandleMsg::RegisterAsset {
        symbol: "mAPPL".to_string(),
        feeder: id("addr0000"),
        token: id("asset0000"),
    };
    let _res = handle(&mut deps, mock_env("addr0000"), msg).unwrap();

    let value: Asset = query_asset(&deps, "mAPPL".to_string()).unwrap();
    assert_eq!(
        value,
        Asset { symbol: "mAPPL".to_string(), feeder: id("addr0000"), token: id("asset0000") }
    );

    let value: Price = query_price(&deps, "mAPPL".to_string()).unwrap();
    assert_eq!(
        value,
        Price { price: Decimal::zero(), price_multiplier: Decimal::one(), last_update_time: 0u64 }
    );

    let msg = HandleMsg::FeedPrice {
        symbol: "mAPPL".to_string(),
        price: Decimal::from_str("1.2").unwrap(),
        price_multiplier: None,
    };
    let env = mock_env("addr0000");
    let time = env.block_time;
    let _res = handle(&mut deps, env, msg).unwrap();
    let value: Price = query_price(&deps, "mAPPL".to_string()).unwrap();
    assert_eq!(
        value,
        Price {
            price: Decimal::from_str("1.2").unwrap(),
            price_multiplier: Decimal::one(),
            last_update_time: time,
        }
    );

    // Unauthorized try
    let msg = HandleMsg::FeedPrice {
        symbol: "mAPPL".to_string(),
        price: Decimal::from_str("1.2").unwrap(),
        price_multiplier: None,
    };
    let res = handle(&mut deps, mock_env("addr0001"), msg);
    match res {
        Err(ContractError::Unauthorized) => {}
        _ => panic!("Must return unauthorized error"),
    }
}

#[test]
fn config_missing_before_init() {
    let deps = OracleStore::new();
    assert_eq!(query_config(&deps), Err(ContractError::NotFound(Entity::Config)));
    let res = try_update_config(&mut OracleStore::new(), mock_env("owner0000"), None);
    assert_eq!(res, Err(ContractError::NotFound(Entity::Config)));
}

fn queries() -> Vec<QueryMsg> {
    vec![
        QueryMsg::Config,
        QueryMsg::Asset { symbol: "mAPPL".to_string() },
        QueryMsg::Price { symbol: "mAPPL".to_string() },
        QueryMsg::Price { symbol: "mGOOG".to_string() },
    ]
}

#[test]
fn queries_answer_the_same_twice() {
    let mut deps = initialized();
    try_register_asset(&mut deps, mock_env("any"), "mAPPL".to_string(), id("addr0000"), id("asset0000"))
        .unwrap();
    for (first, second) in queries().into_iter().zip(queries()) {
        assert_eq!(query(&deps, first), query(&deps, second));
    }
    assert_eq!(
        query(&deps, QueryMsg::Asset { symbol: "mGOOG".to_string() }),
        Err(ContractError::NotFound(Entity::Asset))
    );
    assert_eq!(
        query(&deps, QueryMsg::Price { symbol: "mGOOG".to_string() }),
        Err(ContractError::NotFound(Entity::Price))
    );
    match query(&deps, QueryMsg::Config) {
        Ok(QueryResponse::Config(c)) => assert_eq!(c.owner, id("owner0000")),
        _ => panic!("config expected"),
    }
}

#[test]
fn update_config_rejects_other_caller_and_keeps_config() {
    let mut deps = initialized();
    let res = try_update_config(&mut deps, mock_env("addr0000"), Some(id("addr0000")));
    assert_eq!(res, Err(ContractError::Unauthorized));
    let value = query_config(&deps).unwrap();
    assert_eq!(value.owner, id("owner0000"));
    assert_eq!(value.base_denom, "base0000");
}

#[test]
fn update_config_without_owner_is_a_check() {
    let mut deps = initialized();
    let res = try_update_config(&mut deps, mock_env("owner0000"), None).unwrap();
    assert!(res.log.is_empty());
    assert_eq!(query_config(&deps).unwrap().owner, id("owner0000"));
}

#[test]
fn register_twice_fails_and_keeps_first() {
    let mut deps = initialized();
    try_register_asset(&mut deps, mock_env("x"), "mAPPL".to_string(), id("addr0000"), id("asset0000"))
        .unwrap();
    try_feed_price(
        &mut deps,
        mock_env("addr0000"),
        "mAPPL".to_string(),
        Decimal::from_str("3.5").unwrap(),
        Some(Decimal::from_str("2").unwrap()),
    )
    .unwrap();
    let res = try_register_asset(
        &mut deps,
        mock_env("owner0000"),
        "mAPPL".to_string(),
        id("addr0009"),
        id("asset0009"),
    );
    assert_eq!(res, Err(ContractError::AlreadyExists));
    let asset = query_asset(&deps, "mAPPL".to_string()).unwrap();
    assert_eq!(asset.feeder, id("addr0000"));
    assert_eq!(asset.token, id("asset0000"));
    let price = query_price(&deps, "mAPPL".to_string()).unwrap();
    assert_eq!(price.price, Decimal::from_str("3.5").unwrap());
    assert_eq!(price.price_multiplier, Decimal::from_str("2").unwrap());
}

#[test]
fn register_pairs_asset_and_initial_price() {
    let mut deps = OracleStore::new();
    try_register_asset(&mut deps, mock_env("anyone"), "mTSLA".to_string(), id("feeder1"), id("token1"))
        .unwrap();
    try_register_asset(&mut deps, mock_env("anyone"), "mAMZN".to_string(), id("feeder2"), id("token2"))
        .unwrap();
    let asset = query_asset(&deps, "mTSLA".to_string()).unwrap();
    assert_eq!(asset, Asset { symbol: "mTSLA".to_string(), feeder: id("feeder1"), token: id("token1") });
    let price = query_price(&deps, "mAMZN".to_string()).unwrap();
    assert_eq!(
        price,
        Price { price: Decimal::zero(), price_multiplier: Decimal::one(), last_update_time: 0 }
    );
}

#[test]
fn feed_rejected_leaves_price() {
    let mut deps = initialized();
    try_register_asset(&mut deps, mock_env("x"), "mAPPL".to_string(), id("addr0000"), id("asset0000"))
        .unwrap();
    let res = try_feed_price(
        &mut deps,
        mock_env("owner0000"),
        "mAPPL".to_string(),
        Decimal::from_str("9").unwrap(),
        Some(Decimal::from_str("9").unwrap()),
    );
    assert_eq!(res, Err(ContractError::Unauthorized));
    assert_eq!(
        query_price(&deps, "mAPPL".to_string()).unwrap(),
        Price { price: Decimal::zero(), price_multiplier: Decimal::one(), last_update_time: 0 }
    );
}

#[test]
fn feed_multiplier_carries_over() {
    let mut deps = initialized();
    try_register_asset(&mut deps, mock_env("x"), "mAPPL".to_string(), id("addr0000"), id("asset0000"))
        .unwrap();
    let env = Env { sender: id("addr0000"), block_time: 100 };
    try_feed_price(
        &mut deps,
        env,
        "mAPPL".to_string(),
        Decimal::from_str("1.5").unwrap(),
        Some(Decimal::from_str("0.25").unwrap()),
    )
    .unwrap();
    let env = Env { sender: id("addr0000"), block_time: 200 };
    try_feed_price(&mut deps, env, "mAPPL".to_string(), Decimal::from_str("1.75").unwrap(), None)
        .unwrap();
    assert_eq!(
        query_price(&deps, "mAPPL".to_string()).unwrap(),
        Price {
            price: Decimal::from_str("1.75").unwrap(),
            price_multiplier: Decimal::from_str("0.25").unwrap(),
            last_update_time: 200,
        }
    );
}

#[test]
fn feed_log_holds_action_and_price_text() {
    let mut deps = initialized();
    try_register_asset(&mut deps, mock_env("x"), "mAPPL".to_string(), id("addr0000"), id("asset0000"))
        .unwrap();
    let res = try_feed_price(
        &mut deps,
        mock_env("addr0000"),
        "mAPPL".to_string(),
        Decimal::from_str("1.2").unwrap(),
        None,
    )
    .unwrap();
    assert_eq!(res.log.len(), 2);
    assert_eq!(res.log[0].key, "action");
    assert_eq!(res.log[0].value, "price_feed");
    assert_eq!(res.log[1].key, "price");
    assert_eq!(res.log[1].value, "1.2");
}

#[test]
fn scenario_owner_change_register_and_feed() {
    let mut deps = initialized();
    let c = query_config(&deps).unwrap();
    assert_eq!((c.owner, c.base_denom.as_str()), (id("owner0000"), "base0000"));
    try_update_config(&mut deps, mock_env("owner0000"), Some(id("owner0001"))).unwrap();
    assert_eq!(query_config(&deps).unwrap().owner, id("owner0001"));
    assert_eq!(
        try_update_config(&mut deps, mock_env("owner0000"), None),
        Err(ContractError::Unauthorized)
    );
    try_register_asset(&mut deps, mock_env("anyone"), "mAPPL".to_string(), id("addr0000"), id("asset0000"))
        .unwrap();
    assert_eq!(
        query_price(&deps, "mAPPL".to_string()).unwrap(),
        Price { price: Decimal::zero(), price_multiplier: Decimal::one(), last_update_time: 0 }
    );
    let env = Env { sender: id("addr0000"), block_time: 12345 };
    try_feed_price(&mut deps, env, "mAPPL".to_string(), Decimal::from_str("1.2").unwrap(), None)
        .unwrap();
    assert_eq!(
        query_price(&deps, "mAPPL".to_string()).unwrap(),
        Price {
            price: Decimal::from_str("1.2").unwrap(),
            price_multiplier: Decimal::one(),
            last_update_time: 12345,
        }
    );
    assert_eq!(
        try_feed_price(
            &mut deps,
            mock_env("addr0001"),
            "mAPPL".to_string(),
            Decimal::from_str("1.2").unwrap(),
            None
        ),
        Err(ContractError::Unauthorized)
    );
}

#[test]
fn identities_compare_bytewise() {
    assert!(same_identity(&id("addr0000"), &id("addr0000")));
    assert!(!same_identity(&id("addr0000"), &id("addr0001")));
    assert!(!same_identity(&id("addr"), &id("addr0000")));
    assert!(same_identity(&Vec::new(), &Vec::new()));
}
