use trade_client::liquidity_pool::{MarketSide, TimestampedValue};
use bigdecimal::BigDecimal;
use trade_client::pair::{Pair, MAX_SYMBOL_LEN};

#[test]
fn creation() {
    let pair = Pair::new("ETH", "USD").unwrap();
    assert_eq!(pair.get_base_symbol(), "ETH");
    assert_eq!(pair.get_quote_symbol(), "USD");
    let pair = Pair::new("USD", "CAD").unwrap();
    assert_eq!(pair.get_base_symbol(), "USD");
    assert_eq!(pair.get_quote_symbol(), "CAD");
    let pair = Pair::new("JPY", "USD").unwrap();
    assert_eq!(pair.get_base_symbol(), "JPY");
    assert_eq!(pair.get_quote_symbol(), "USD");
}

#[test]
fn equality() {
    assert_eq!(
        Pair::new("ETH", "USD").unwrap(),
        Pair::new("ETH", "USD").unwrap()
    );
    assert_ne!(
        Pair::new("ETH", "USD").unwrap(),
        Pair::new("AUD", "USD").unwrap()
    );
}

#[test]
fn symbol_of_exactly_max_len_is_accepted() {
    let long = "ABCDEFGHIJKLMNOP";
    assert_eq!(long.len(), MAX_SYMBOL_LEN);
    let pair = Pair::new(long, "USD").unwrap();
    assert_eq!(pair.get_base_symbol(), long);
}

#[test]
fn symbol_too_long_is_rejected() {
    assert!(Pair::new("ABCDEFGHIJKLMNOPQ", "USD").is_err());
    assert!(Pair::new("ETH", "ABCDEFGHIJKLMNOPQ").is_err());
}

#[test]
fn multibyte_symbol_round_trips() {
    let pair = Pair::new("€UR", "¥").unwrap();
    assert_eq!(pair.get_base_symbol(), "€UR");
    assert_eq!(pair.get_quote_symbol(), "¥");
}

#[test]
fn parse_and_render() {
    let pair = Pair::from_str("ETH/USD").unwrap();
    assert_eq!(pair, Pair::new("ETH", "USD").unwrap());
    assert_eq!(pair.to_string(), "ETH/USD");
}

#[test]
fn parse_rejects_wrong_slash_count() {
    assert!(Pair::from_str("ETHUSD").is_err());
    assert!(Pair::from_str("ETH/USD/CAD").is_err());
    assert!(Pair::from_str("ABCDEFGHIJKLMNOPQ/USD").is_err());
}

#[test]
fn bytes32_is_padded_text() {
    let pair = Pair::new("ETH", "USD").unwrap();
    let b = pair.as_bytes32();
    assert_eq!(&b[..7], b"ETH/USD");
    assert!(b[7..].iter().all(|x| *x == 0));
}

#[test]
fn pool_side_keeps_value_and_time() {
    let v = TimestampedValue::new(MarketSide { long: BigDecimal::from(3), short: BigDecimal::from(4) }, 9);
    assert_eq!(v.long().value, BigDecimal::from(3));
    assert_eq!(v.short().value, BigDecimal::from(4));
    assert_eq!(v.short().timestamp, 9);
}
