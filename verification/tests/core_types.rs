use mdws::asset::AssetClass;
use mdws::decimal::{
    checked_add, checked_div, checked_mul, checked_sub, compare, eq, le, lt, max, to_text_fixed4,
    Decimal, DecimalOrder,
};
use mdws::symbol_map::{PairMap, TextMap};
use mdws::text::{
    join, parse_comma_list, parse_u16, str_eq, str_lt, to_lowercase, to_uppercase, trim_text,
    u64_to_text, IntErrorKind,
};

fn d(num: i64, scale: u32) -> Decimal {
    Decimal::new(num, scale)
}

#[test]
fn decimal_addition_aligns_scales() {
    let r = checked_add(d(15, 1), d(225, 2)).unwrap();
    assert_eq!(r.to_string(), "3.75");
    assert_eq!(r.mantissa(), 375);
    assert_eq!(r.scale(), 2);
}

#[test]
fn decimal_subtraction_of_equal_values_is_zero() {
    let r = checked_sub(d(1234, 2), d(1234, 2)).unwrap();
    assert!(r.is_zero());
    assert_eq!(r.scale(), 2);
}

#[test]
fn decimal_product_and_quotient() {
    assert_eq!(checked_mul(d(10, 0), d(110, 0)).unwrap().to_string(), "1100");
    assert_eq!(checked_mul(d(25, 2), d(4, 0)).unwrap().to_string(), "1.00");
    assert_eq!(checked_div(d(1000, 0), d(1, 1)).unwrap().to_string(), "10000");
    assert_eq!(checked_div(d(1, 0), d(4, 0)).unwrap().to_string(), "0.25");
}

#[test]
fn decimal_division_by_zero_is_refused() {
    assert!(checked_div(d(5, 0), Decimal::zero()).is_none());
    assert!(checked_div(Decimal::zero(), d(7, 0)).unwrap().is_zero());
}

#[test]
fn decimal_overflow_is_refused() {
    let big = Decimal::from_i128_with_scale(79_228_162_514_264_337_593_543_950_335, 0);
    assert!(checked_add(big, Decimal::one()).is_none());
    assert!(checked_mul(big, d(2, 0)).is_none());
    assert!(Decimal::try_from_i128_with_scale(79_228_162_514_264_337_593_543_950_336, 0).is_none());
}

#[test]
fn decimal_comparisons_go_by_value() {
    assert!(eq(d(10, 1), d(1, 0)));
    assert!(d(10, 1) == d(100, 2));
    assert!(lt(d(99, 2), d(1, 0)));
    assert!(le(d(1, 0), d(100, 2)));
    assert!(!lt(d(1, 0), d(100, 2)));
    assert!(matches!(compare(d(-5, 0), d(3, 0)), DecimalOrder::Less));
    assert!(matches!(compare(d(30, 1), d(3, 0)), DecimalOrder::Equal));
    assert_eq!(max(d(2, 0), d(25, 1)).to_string(), "2.5");
}

#[test]
fn decimal_prints_with_four_decimals() {
    assert_eq!(to_text_fixed4(d(95, 0)), "95.0000");
    assert_eq!(to_text_fixed4(d(123456, 5)), "1.2345");
    assert_eq!(d(-42, 1).neg().to_string(), "4.2");
    assert_eq!(Decimal::default().to_string(), "0");
    assert_eq!(Decimal::from_usize(12).to_string(), "12");
}

#[test]
fn port_numbers_parse_like_u16() {
    assert_eq!(parse_u16("5552"), Ok(5552));
    assert_eq!(parse_u16("65535"), Ok(65535));
    assert_eq!(parse_u16("+7"), Ok(7));
    assert_eq!(parse_u16(""), Err(IntErrorKind::Empty));
    assert_eq!(parse_u16("65536"), Err(IntErrorKind::PosOverflow));
    assert_eq!(parse_u16("12a"), Err(IntErrorKind::InvalidDigit));
    assert_eq!(parse_u16("-1"), Err(IntErrorKind::InvalidDigit));
    assert_eq!(IntErrorKind::InvalidDigit.message(), "invalid digit found in string");
}

#[test]
fn comma_lists_are_trimmed_and_skip_empty_items() {
    assert_eq!(parse_comma_list(" BTCUSD, ethusd ,,SOLUSD "), vec!["BTCUSD", "ethusd", "SOLUSD"]);
    assert!(parse_comma_list("").is_empty());
    assert!(parse_comma_list(" , ,").is_empty());
}

#[test]
fn text_helpers() {
    assert_eq!(trim_text("  AAPL \t"), "AAPL");
    assert!(str_eq("abc", "abc"));
    assert!(!str_eq("abc", "abd"));
    assert!(str_lt("AAPL", "MSFT"));
    assert!(str_lt("EUR", "EURUSD"));
    assert!(!str_lt("b", "a"));
    assert_eq!(to_lowercase("FoReX"), "forex");
    assert_eq!(to_uppercase("btcusd"), "BTCUSD");
    assert_eq!(u64_to_text(0), "0");
    assert_eq!(u64_to_text(18_446_744_073_709_551_615), "18446744073709551615");
    let parts = vec!["a".to_string(), "b".to_string(), "c".to_string()];
    assert_eq!(join(&parts, ", "), "a, b, c");
    assert_eq!(join(&Vec::new(), ", "), "");
}

#[test]
fn asset_class_names_round_trip() {
    for c in [AssetClass::Crypto, AssetClass::Forex, AssetClass::Equity] {
        assert_eq!(AssetClass::from_str(&c.to_string()), Ok(c));
    }
    assert_eq!(AssetClass::Crypto.measurement(), "crypto");
    assert_eq!(AssetClass::from_str("CRYPTO_DATA"), Ok(AssetClass::Crypto));
    assert_eq!(AssetClass::from_str("Equity"), Ok(AssetClass::Equity));
    assert_eq!(AssetClass::from_str("bonds"), Err("Unknown AssetClass: bonds".to_string()));
}

#[test]
fn text_map_reads_back_writes() {
    let mut m: TextMap<u32> = TextMap::new();
    m.insert("EUR".to_string(), 1);
    m.insert("USD".to_string(), 2);
    m.insert("EUR".to_string(), 3);
    assert_eq!(m.len(), 2);
    assert_eq!(m.get("EUR"), Some(&3));
    assert_eq!(m.get("USD"), Some(&2));
    assert_eq!(m.get("JPY"), None);
    assert_eq!(m.key_at(0), "EUR");
    assert_eq!(m.remove("EUR"), Some(3));
    assert_eq!(m.remove("EUR"), None);
    assert!(!m.contains_key("EUR"));
    assert_eq!(m.key_at(0), "USD");
    let c = m.clone();
    assert_eq!(c.get("USD"), Some(&2));
}

#[test]
fn pair_map_keys_by_both_texts() {
    let mut m: PairMap<i32> = PairMap::new();
    m.insert("AAPL".to_string(), "MSFT".to_string(), 7);
    assert_eq!(m.get("AAPL", "MSFT"), Some(&7));
    assert_eq!(m.get("MSFT", "AAPL"), None);
    m.insert("AAPL".to_string(), "MSFT".to_string(), 8);
    assert_eq!(m.len(), 1);
    assert_eq!(m.clone().get("AAPL", "MSFT"), Some(&8));
}

#[test]
fn decimal_prints_sign_and_leading_zeros() {
    assert_eq!(d(-5, 3).to_string(), "-0.005");
    assert_eq!(d(-5, 3).abs().to_string(), "0.005");
    assert_eq!(to_text_fixed4(d(-5, 3)), "-0.0050");
    assert_eq!(to_text_fixed4(d(7, 0)), "7.0000");
}
