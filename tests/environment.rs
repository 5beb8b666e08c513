use trade_client::environment::{
    chain_id_to_network_name, get_network_config, get_network_config_by_chain_id, Config,
    NetworkConfig,
};
use trade_client::liquidity_pool::{subscribe_trades_request, LiquidityPoolId};
use trade_client::envelope::{RequestContent, SubscriptionTopic};

fn network(ws: &str) -> NetworkConfig {
    NetworkConfig {
        ws: ws.to_string(),
        subgraph: String::new(),
        usd: [0u8; 20],
        beacon: String::new(),
        account: String::new(),
        treasury: String::new(),
        liquidity_token_factory: String::new(),
        liquidity_pool: String::new(),
    }
}

fn config() -> Config {
    Config {
        arbitrum_sepolia: network("sepolia"),
        arbitrum_one: network("one"),
        base: network("base"),
    }
}

#[test]
fn chain_names() {
    assert_eq!(chain_id_to_network_name(42161).as_deref(), Some("arbitrum-one"));
    assert_eq!(chain_id_to_network_name(421614).as_deref(), Some("arbitrum-sepolia"));
    assert_eq!(chain_id_to_network_name(8453).as_deref(), Some("base"));
    assert_eq!(chain_id_to_network_name(1), None);
}

#[test]
fn network_lookup_ignores_case() {
    let cfg = config();
    assert_eq!(get_network_config(&cfg, "BASE").unwrap().ws, "base");
    assert_eq!(get_network_config(&cfg, "Arbitrum-One").unwrap().ws, "one");
    assert!(get_network_config(&cfg, "mainnet").is_none());
    assert_eq!(get_network_config_by_chain_id(&cfg, 421614).unwrap().ws, "sepolia");
    assert!(get_network_config_by_chain_id(&cfg, 10).is_none());
}

#[test]
fn pool_id_forms() {
    let id = LiquidityPoolId::from_hex_str("deadbeef").unwrap();
    assert_eq!(&id.as_bytes()[28..], &[0xde, 0xad, 0xbe, 0xef]);
    assert_eq!(id, LiquidityPoolId::from_bytes(&[0xde, 0xad, 0xbe, 0xef]));
    assert_eq!(
        id.to_address_string(),
        "0x00000000000000000000000000000000deadbeef"
    );
    assert_eq!(id.to_address()[16..], [0xde, 0xad, 0xbe, 0xef]);
    assert!(LiquidityPoolId::from_hex_str("xyz").is_err());
}

#[test]
fn subscribe_trades() {
    let request = subscribe_trades_request("ff").unwrap();
    assert!(request.id.is_none());
    match request.content {
        RequestContent::Subscribe(SubscriptionTopic::LiquidityPoolTrade(id)) => {
            assert_eq!(id.0[31], 0xff);
        }
        _ => panic!("not a trade subscription"),
    }
    assert!(subscribe_trades_request("not hex").is_none());
}

#[test]
fn hex_ids_accept_prefix_and_either_case() {
    let a = LiquidityPoolId::from_hex_str("0xDEADbeef").unwrap();
    assert_eq!(a, LiquidityPoolId::from_hex_str("deadbeef").unwrap());
    assert_eq!(LiquidityPoolId::from_hex_str("abc").unwrap().0[30..], [0x0a, 0xbc]);
    assert_eq!(LiquidityPoolId::from_hex_str("").unwrap().0, [0u8; 32]);
    assert!(LiquidityPoolId::from_hex_str(&"1".repeat(65)).is_err());
}
