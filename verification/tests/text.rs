use ss_discord_bot::text::decimal;

#[test]
fn decimal_renders_zero() {
    assert_eq!(decimal(0), "0");
}

#[test]
fn decimal_renders_single_and_multiple_digits() {
    assert_eq!(decimal(7), "7");
    assert_eq!(decimal(10), "10");
    assert_eq!(decimal(1234567890), "1234567890");
}

#[test]
fn decimal_renders_largest_value() {
    assert_eq!(decimal(u64::MAX), u64::MAX.to_string());
}
