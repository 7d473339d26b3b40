use ws_broadcast::config::parse_decimal;
use ws_broadcast::config::ConfigError;
use ws_broadcast::config::HubConfig;
use ws_broadcast::config::DEFAULT_CAPACITY;
use ws_broadcast::config::DEFAULT_PORT;

fn settled(port: Option<&str>, capacity: Option<&str>) -> Result<(u16, usize), ConfigError> {
    HubConfig::from_settings(port, capacity).map(|config| (config.port(), config.capacity()))
}

#[test]
fn defaults_are_port_9400_and_capacity_100() {
    assert_eq!(DEFAULT_PORT, 9400);
    assert_eq!(DEFAULT_CAPACITY, 100);
    assert_eq!(settled(None, None), Ok((9400, 100)));
    let config = HubConfig::default();
    assert_eq!((config.port(), config.capacity()), (9400, 100));
}

#[test]
fn settings_are_read_as_decimal_numbers() {
    assert_eq!(settled(Some("8080"), Some("3")), Ok((8080, 3)));
    assert_eq!(settled(Some("0"), None), Ok((0, 100)));
    assert_eq!(settled(Some("65535"), Some("1")), Ok((65535, 1)));
    assert_eq!(settled(None, Some("250")), Ok((9400, 250)));
    assert_eq!(settled(Some("+80"), Some("+0016")), Ok((80, 16)));
    assert_eq!(settled(Some("00080"), None), Ok((80, 100)));
}

#[test]
fn bad_port_is_refused() {
    for text in ["", "+", "-1", "65536", "99999999999999999999999", "80a", " 80", "80 ", "0x50", "8_0", "++80", "\u{0661}\u{0662}"] {
        assert_eq!(settled(Some(text), None), Err(ConfigError::BadPort), "port {:?}", text);
    }
}

#[test]
fn bad_capacity_is_refused() {
    for text in ["0", "+0", "000", "", "-5", "ten", "1.5", "1e3", " 7", "99999999999999999999999"] {
        assert_eq!(settled(None, Some(text)), Err(ConfigError::BadCapacity), "capacity {:?}", text);
    }
}

#[test]
fn bad_port_is_reported_before_bad_capacity() {
    assert_eq!(settled(Some("x"), Some("0")), Err(ConfigError::BadPort));
    assert_eq!(settled(Some("1"), Some("0")), Err(ConfigError::BadCapacity));
}

#[test]
fn config_from_numbers_refuses_zero_capacity() {
    assert!(matches!(HubConfig::new(1, 0), Err(ConfigError::BadCapacity)));
    let config = HubConfig::new(7, 9).expect("a positive capacity");
    assert_eq!((config.port(), config.capacity()), (7, 9));
}

#[test]
fn parse_decimal_exact_values() {
    assert_eq!(parse_decimal("0"), Some(0));
    assert_eq!(parse_decimal("7"), Some(7));
    assert_eq!(parse_decimal("1234567890"), Some(1234567890));
    assert_eq!(parse_decimal("+42"), Some(42));
    assert_eq!(parse_decimal("0000000000000000000000000009"), Some(9));
    assert_eq!(parse_decimal("18446744073709551615"), Some(u64::MAX));
}

#[test]
fn parse_decimal_refuses_what_is_no_number() {
    assert_eq!(parse_decimal(""), None);
    assert_eq!(parse_decimal("+"), None);
    assert_eq!(parse_decimal("-"), None);
    assert_eq!(parse_decimal("-3"), None);
    assert_eq!(parse_decimal("3-"), None);
    assert_eq!(parse_decimal("+-3"), None);
    assert_eq!(parse_decimal("12 "), None);
    assert_eq!(parse_decimal("1,000"), None);
    assert_eq!(parse_decimal("\u{ff11}"), None);
}

#[test]
fn parse_decimal_refuses_what_does_not_fit() {
    assert_eq!(parse_decimal("18446744073709551616"), None);
    assert_eq!(parse_decimal("18446744073709551620"), None);
    assert_eq!(parse_decimal("184467440737095516150"), None);
    assert_eq!(parse_decimal("99999999999999999999"), None);
    assert_eq!(parse_decimal("99999999999999999999x"), None);
}

#[test]
fn parse_decimal_agrees_with_the_standard_parser() {
    let samples = [
        "", "+", "-", "0", "+0", "-0", "1", "+1", "-1", "007", "65535", "65536", "4294967295",
        "4294967296", "18446744073709551615", "18446744073709551616", "1a", "a1", " 1", "1 ",
        "+ 1", "++1", "1+", "١٢٣", "1_000", "0b1", "１２",
    ];
    for text in samples {
        assert_eq!(parse_decimal(text), text.parse::<u64>().ok(), "text {:?}", text);
    }
}

#[test]
fn config_errors_describe_themselves() {
    assert_eq!(
        ConfigError::BadPort.describe(),
        "the port must be a decimal number from 0 to 65535"
    );
    assert_eq!(
        ConfigError::BadCapacity.describe(),
        "the channel capacity must be a positive decimal number"
    );
}
