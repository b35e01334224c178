//! The two leaf components on their own: decimal parsing of a usage
//! value, and market classification of a label.

use api_weights::market::{market_of, MarketType};
use api_weights::parse::parse_weight;

#[test]
fn parses_plain_decimals() {
    assert_eq!(parse_weight("10"), Some(10));
    assert_eq!(parse_weight("0"), Some(0));
    assert_eq!(parse_weight("00042"), Some(42));
    assert_eq!(parse_weight("1200"), Some(1200));
}

#[test]
fn parses_signed_decimals() {
    assert_eq!(parse_weight("+7"), Some(7));
    assert_eq!(parse_weight("-5"), Some(-5));
    assert_eq!(parse_weight("-0"), Some(0));
}

#[test]
fn accepts_exactly_the_i32_range() {
    assert_eq!(parse_weight("2147483647"), Some(i32::MAX));
    assert_eq!(parse_weight("2147483648"), None);
    assert_eq!(parse_weight("-2147483648"), Some(i32::MIN));
    assert_eq!(parse_weight("-2147483649"), None);
    assert_eq!(parse_weight("99999999999999999999999999"), None);
}

#[test]
fn rejects_malformed_numbers() {
    assert_eq!(parse_weight(""), None);
    assert_eq!(parse_weight("+"), None);
    assert_eq!(parse_weight("-"), None);
    assert_eq!(parse_weight("fast"), None);
    assert_eq!(parse_weight("12a"), None);
    assert_eq!(parse_weight("a12"), None);
    assert_eq!(parse_weight(" 12"), None);
    assert_eq!(parse_weight("12 "), None);
    assert_eq!(parse_weight("1.5"), None);
    assert_eq!(parse_weight("+-3"), None);
    assert_eq!(parse_weight("--3"), None);
}

#[test]
fn classifies_by_spot_prefix() {
    assert_eq!(market_of("spot_depth"), MarketType::Spot);
    assert_eq!(market_of("spot"), MarketType::Spot);
    assert_eq!(market_of("spotter"), MarketType::Spot);
    assert_eq!(market_of("futures_trades"), MarketType::Futures);
    assert_eq!(market_of("Spot_depth"), MarketType::Futures);
    assert_eq!(market_of("spo"), MarketType::Futures);
    assert_eq!(market_of(""), MarketType::Futures);
    assert_eq!(market_of("empty"), MarketType::Futures);
}
