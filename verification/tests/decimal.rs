use manga_sources::decimal::{
    digits_to_u64, i64_chars, parse_decimal, parse_i32, parse_u64, u64_chars, Decimal,
};

fn cs(s: &str) -> Vec<char> {
    s.chars().collect()
}

fn st(v: Vec<char>) -> String {
    v.iter().collect()
}

fn dec(mantissa: i64, scale: u8) -> Decimal {
    Decimal { mantissa, scale }
}

#[test]
fn writes_integers_in_decimal() {
    assert_eq!(st(u64_chars(0)), "0");
    assert_eq!(st(u64_chars(7)), "7");
    assert_eq!(st(u64_chars(1234567890)), "1234567890");
    assert_eq!(st(u64_chars(u64::MAX)), "18446744073709551615");
    assert_eq!(st(i64_chars(-42)), "-42");
    assert_eq!(st(i64_chars(i64::MIN)), "-9223372036854775808");
    assert_eq!(st(i64_chars(i64::MAX)), "9223372036854775807");
}

#[test]
fn reads_runs_of_digits_up_to_a_limit() {
    assert_eq!(digits_to_u64(&cs("0012"), 100), Some(12));
    assert_eq!(digits_to_u64(&cs("100"), 100), Some(100));
    assert_eq!(digits_to_u64(&cs("101"), 100), None);
    assert_eq!(digits_to_u64(&cs("1a"), 100), None);
    assert_eq!(digits_to_u64(&cs(""), 100), Some(0));
    assert_eq!(digits_to_u64(&cs("18446744073709551615"), u64::MAX), Some(u64::MAX));
    assert_eq!(digits_to_u64(&cs("18446744073709551616"), u64::MAX), None);
    assert_eq!(digits_to_u64(&cs("１２"), 100), None);
}

#[test]
fn reads_unsigned_integers() {
    assert_eq!(parse_u64("1024"), Some(1024));
    assert_eq!(parse_u64("+7"), Some(7));
    assert_eq!(parse_u64("-7"), None);
    assert_eq!(parse_u64(""), None);
    assert_eq!(parse_u64("+"), None);
    assert_eq!(parse_u64("12px"), None);
    assert_eq!(parse_u64(" 12"), None);
    assert_eq!(parse_u64("99999999999999999999"), None);
}

#[test]
fn reads_signed_integers() {
    assert_eq!(parse_i32("35"), Some(35));
    assert_eq!(parse_i32("-35"), Some(-35));
    assert_eq!(parse_i32("+35"), Some(35));
    assert_eq!(parse_i32("2147483647"), Some(i32::MAX));
    assert_eq!(parse_i32("2147483648"), None);
    assert_eq!(parse_i32("-2147483648"), Some(i32::MIN));
    assert_eq!(parse_i32("-2147483649"), None);
    assert_eq!(parse_i32("-"), None);
    assert_eq!(parse_i32("3.5"), None);
}

#[test]
fn reads_decimals() {
    assert_eq!(parse_decimal(&cs("12")), Some(dec(12, 0)));
    assert_eq!(parse_decimal(&cs("12.5")), Some(dec(125, 1)));
    assert_eq!(parse_decimal(&cs("0.25")), Some(dec(25, 2)));
    assert_eq!(parse_decimal(&cs(".5")), Some(dec(5, 1)));
    assert_eq!(parse_decimal(&cs("5.")), Some(dec(5, 0)));
    assert_eq!(parse_decimal(&cs("-1.50")), Some(dec(-150, 2)));
    assert_eq!(parse_decimal(&cs("+3")), Some(dec(3, 0)));
    assert_eq!(parse_decimal(&cs("007")), Some(dec(7, 0)));
}

#[test]
fn rejects_what_is_no_decimal() {
    assert_eq!(parse_decimal(&cs("")), None);
    assert_eq!(parse_decimal(&cs(".")), None);
    assert_eq!(parse_decimal(&cs("-")), None);
    assert_eq!(parse_decimal(&cs("1.2.3")), None);
    assert_eq!(parse_decimal(&cs("1e3")), None);
    assert_eq!(parse_decimal(&cs("12a")), None);
    assert_eq!(parse_decimal(&cs(" 12")), None);
    assert_eq!(parse_decimal(&cs("--1")), None);
}

#[test]
fn decimals_have_limits() {
    assert_eq!(
        parse_decimal(&cs("999999999999999999")),
        Some(dec(999_999_999_999_999_999, 0))
    );
    assert_eq!(parse_decimal(&cs("1000000000000000000")), None);
    assert_eq!(parse_decimal(&cs("0.000000000000000001")), Some(dec(1, 18)));
    assert_eq!(parse_decimal(&cs("0.0000000000000000001")), None);
}

#[test]
fn orders_by_value_across_scales() {
    assert!(dec(5, 0).less_than(&dec(51, 1)));
    assert!(dec(51, 1).less_than(&dec(52, 1)));
    assert!(!dec(50, 1).less_than(&dec(5, 0)));
    assert!(dec(50, 1).same_value(&dec(5, 0)));
    assert!(dec(-1, 0).less_than(&dec(0, 0)));
    assert!(dec(0, 3).is_zero());
    assert_eq!(dec(5, 0).sort_key(), 5_000_000_000_000_000_000);
    assert_eq!(dec(125, 1).sort_key(), 12_500_000_000_000_000_000);
    assert_eq!(dec(-1, 0).sort_key(), -1_000_000_000_000_000_000);
    assert_eq!(dec(1, 18).sort_key(), 1);
    assert_eq!(Decimal::whole(9), dec(9, 0));
}

#[test]
fn writes_decimals_in_shortest_form() {
    assert_eq!(st(dec(12, 0).to_chars()), "12");
    assert_eq!(st(dec(125, 1).to_chars()), "12.5");
    assert_eq!(st(dec(1250, 2).to_chars()), "12.5");
    assert_eq!(st(dec(1200, 2).to_chars()), "12");
    assert_eq!(st(dec(5, 2).to_chars()), "0.05");
    assert_eq!(st(dec(0, 0).to_chars()), "0");
    assert_eq!(st(dec(0, 4).to_chars()), "0");
    assert_eq!(st(dec(-15, 1).to_chars()), "-1.5");
    assert_eq!(st(dec(1, 18).to_chars()), "0.000000000000000001");
}
