use myore::fees::{
    read_fee, request_body, strategy_for_host, strategy_for_url, FeeStrategy, FeeUrlError,
};
use myore::json::{Json, Number};
use myore::miner::Miner;
use myore::prices::{
    get_ore_price_usd, get_solana_price_usd, COINGECKO_API_URL, DEXSCREENER_API_URL,
};

fn miner(url: Option<&str>, max: Option<u64>) -> Miner {
    Miner {
        signer: [1; 32],
        fee_payer: [1; 32],
        priority_fee: None,
        dynamic_fee: true,
        dynamic_fee_url: url.map(|u| u.to_string()),
        dynamic_fee_max: max,
        dynamic_fee_strategy: None,
    }
}

fn float(value: f64) -> Json {
    Json::Number(Number { unsigned: None, float_bits: Some(value.to_bits()) })
}

fn whole(value: u64) -> Json {
    Json::Number(Number { unsigned: Some(value), float_bits: Some((value as f64).to_bits()) })
}

fn object(members: Vec<(&str, Json)>) -> Json {
    Json::Object(members.into_iter().map(|(name, value)| (name.to_string(), value)).collect())
}

fn to_value(json: &Json) -> serde_json::Value {
    match json {
        Json::Null => serde_json::Value::Null,
        Json::Bool(b) => serde_json::Value::from(*b),
        Json::Number(n) => serde_json::Value::from(n.unsigned.unwrap()),
        Json::Text(s) => serde_json::Value::from(s.as_str()),
        Json::Array(items) => serde_json::Value::Array(items.iter().map(to_value).collect()),
        Json::Object(members) => serde_json::Value::Object(
            members.iter().map(|(name, value)| (name.clone(), to_value(value))).collect(),
        ),
    }
}

#[test]
fn services_are_told_by_their_host() {
    assert!(strategy_for_host("mainnet.helius-rpc.com") == Some(FeeStrategy::Helius));
    assert!(strategy_for_host("me.rpcpool.com") == Some(FeeStrategy::Triton));
    assert!(strategy_for_host("rpcpool.com.helius-rpc.com") == Some(FeeStrategy::Helius));
    assert!(strategy_for_host("api.mainnet-beta.solana.com") == None);
}

#[test]
fn services_are_told_by_their_url() {
    assert!(strategy_for_url("https://mainnet.HELIUS-rpc.com/?api-key=x")
        == Ok(Some(FeeStrategy::Helius)));
    assert!(strategy_for_url("https://example.com/helius-rpc.com") == Ok(None));
    assert!(strategy_for_url("not a url") == Err(FeeUrlError::Invalid));
    assert!(strategy_for_url("mailto:a@helius-rpc.com") == Err(FeeUrlError::NoHost));
}

#[test]
fn the_set_url_is_asked_before_that_of_the_node() {
    let node = "https://x.rpcpool.com/";
    let fallback = miner(None, None).dynamic_fee_request(node);
    match fallback {
        Ok(Some(request)) => {
            assert!(request.strategy == FeeStrategy::Triton);
            assert_eq!(request.url, node);
        }
        _ => panic!("no request"),
    }
    let chosen = miner(Some("https://x.helius-rpc.com/"), None).dynamic_fee_request(node);
    match chosen {
        Ok(Some(request)) => {
            assert!(request.strategy == FeeStrategy::Helius);
            assert_eq!(request.url, "https://x.helius-rpc.com/");
        }
        _ => panic!("no request"),
    }
    assert!(matches!(miner(Some("https://example.com"), None).dynamic_fee_request(node), Ok(None)));
    assert!(matches!(
        miner(Some("nonsense"), None).dynamic_fee_request(node),
        Err(FeeUrlError::Invalid)
    ));
}

#[test]
fn the_request_for_helius_is_complete() {
    let body = to_value(&request_body(FeeStrategy::Helius));
    assert_eq!(body["jsonrpc"], "2.0");
    assert_eq!(body["id"], "priority-fee-estimate");
    assert_eq!(body["method"], "getPriorityFeeEstimate");
    assert_eq!(body.as_object().unwrap().len(), 4);
    assert_eq!(body["params"].as_array().unwrap().len(), 1);
    assert_eq!(body["params"][0]["options"]["recommended"], true);
    let keys = body["params"][0]["accountKeys"].as_array().unwrap();
    assert_eq!(keys.len(), 9);
    assert_eq!(keys[0], "oreV2ZymfyeXgNgBdqMkumTqqAprVqgBWQfoYkrtKWQ");
    for i in 0..8 {
        assert_eq!(keys[i + 1], ore_api::consts::BUS_ADDRESSES[i].to_string());
    }
}

#[test]
fn the_request_for_triton_is_complete() {
    let body = to_value(&request_body(FeeStrategy::Triton));
    assert_eq!(body["id"], "priority-fee-estimate");
    assert_eq!(body["method"], "getRecentPrioritizationFees");
    assert_eq!(body["params"].as_array().unwrap().len(), 2);
    assert_eq!(body["params"][0].as_array().unwrap().len(), 9);
    assert_eq!(body["params"][0][0], ore_api::ID.to_string());
    assert_eq!(body["params"][1]["percentile"], 5000);
    assert_eq!(5000f64.to_bits(), myore::fees::PERCENTILE_BITS);
}

#[test]
fn a_helius_estimate_loses_its_fraction() {
    let response = object(vec![(
        "result",
        object(vec![("priorityFeeEstimate", float(10_082.955))]),
    )]);
    assert_eq!(read_fee(FeeStrategy::Helius, &response), Some(10_082));
    assert_eq!(read_fee(FeeStrategy::Triton, &response), None);
    assert!(miner(None, None).dynamic_fee(FeeStrategy::Helius, &response) == Ok(10_082));
    assert!(miner(None, Some(5000)).dynamic_fee(FeeStrategy::Helius, &response) == Ok(5000));
    assert!(miner(None, Some(20_000)).dynamic_fee(FeeStrategy::Helius, &response) == Ok(10_082));
}

#[test]
fn the_last_triton_fee_counts() {
    let response = object(vec![(
        "result",
        Json::Array(vec![
            object(vec![("slot", whole(1)), ("prioritizationFee", whole(10))]),
            object(vec![("slot", whole(2)), ("prioritizationFee", whole(30))]),
        ]),
    )]);
    assert_eq!(read_fee(FeeStrategy::Triton, &response), Some(30));
    assert!(miner(None, Some(7)).dynamic_fee(FeeStrategy::Triton, &response) == Ok(7));
}

#[test]
fn a_response_without_a_fee_is_refused() {
    let responses = vec![
        Json::Null,
        Json::Bool(true),
        object(vec![]),
        object(vec![("result", Json::Array(vec![]))]),
        object(vec![("result", object(vec![("priorityFeeEstimate", Json::Text("5".to_string()))]))]),
        object(vec![("result", Json::Array(vec![object(vec![("prioritizationFee", float(1.5))])]))]),
    ];
    for response in &responses {
        for strategy in [FeeStrategy::Helius, FeeStrategy::Triton] {
            assert_eq!(read_fee(strategy, response), None);
            assert!(miner(None, None).dynamic_fee(strategy, response).is_err());
        }
    }
}

#[test]
fn prices_are_found_or_zero() {
    let sol = object(vec![("solana", object(vec![("usd", float(143.25))]))]);
    assert_eq!(f64::from_bits(get_solana_price_usd(&sol)), 143.25);
    assert_eq!(f64::from_bits(get_ore_price_usd(&sol)), 0.0);
    let ore = object(vec![("pair", object(vec![("priceUsd", float(61.5))]))]);
    assert_eq!(f64::from_bits(get_ore_price_usd(&ore)), 61.5);
    let text = object(vec![("pair", object(vec![("priceUsd", Json::Text("61.5".to_string()))]))]);
    assert_eq!(f64::from_bits(get_ore_price_usd(&text)), 0.0);
    assert_eq!(f64::from_bits(get_solana_price_usd(&Json::Null)), 0.0);
}

#[test]
fn prices_come_from_two_services() {
    assert!(COINGECKO_API_URL.starts_with("https://api.coingecko.com/"));
    assert!(DEXSCREENER_API_URL.starts_with("https://api.dexscreener.com/"));
}
