use ocpp_session::text::decimal_string;

#[test]
fn decimal_string_of_single_digits() {
    let digits = vec!["0", "1", "2", "3", "4", "5", "6", "7", "8", "9"];
    for (value, text) in digits.iter().enumerate() {
        assert_eq!(decimal_string(value as i64), *text);
    }
}

#[test]
fn decimal_string_of_plain_numbers() {
    assert_eq!(decimal_string(10), "10");
    assert_eq!(decimal_string(240), "240");
    assert_eq!(decimal_string(1_024_000), "1024000");
    assert_eq!(decimal_string(1_000_000_007), "1000000007");
}

#[test]
fn decimal_string_of_negative_numbers() {
    assert_eq!(decimal_string(-1), "-1");
    assert_eq!(decimal_string(-15), "-15");
    assert_eq!(decimal_string(-214_748_364), "-214748364");
}

#[test]
fn decimal_string_at_the_limits() {
    assert_eq!(decimal_string(i64::MAX), "9223372036854775807");
    assert_eq!(decimal_string(i64::MIN), "-9223372036854775808");
    assert_eq!(decimal_string(i64::MIN + 1), "-9223372036854775807");
}

#[test]
fn decimal_string_agrees_with_std() {
    let mut value: i64 = 1;
    while value < 1_000_000_000_000_000 {
        assert_eq!(decimal_string(value), value.to_string());
        assert_eq!(decimal_string(-value), (-value).to_string());
        assert_eq!(decimal_string(value - 1), (value - 1).to_string());
        value = value * 7 + 3;
    }
}
