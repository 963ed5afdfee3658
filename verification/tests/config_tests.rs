use inframint::config::ValidatorConfig;
use inframint::error::ValidatorError;
use inframint::settings::{
    required_text, setting, signed_from, signed_or, text_or, unsigned_from, unsigned_or, Setting,
};

fn given(pairs: &[(&str, &str)]) -> Vec<Setting> {
    pairs
        .iter()
        .map(|(key, value)| Setting { key: key.to_string(), value: value.to_string() })
        .collect()
}

fn addresses() -> Vec<(&'static str, &'static str)> {
    vec![
        ("redis_url", "redis://localhost:6379"),
        ("sui_rpc_url", "https://sui-testnet.rpc.com"),
        ("contract_address", "0x123"),
    ]
}

fn config_error(outcome: Result<ValidatorConfig, ValidatorError>) -> String {
    match outcome {
        Err(ValidatorError::ConfigError(words)) => words,
        Err(other) => panic!("a configuration error was expected, not {:?}", other),
        Ok(_) => panic!("a configuration error was expected"),
    }
}

fn unsigned(text: &str) -> Option<u64> {
    unsigned_or(&given(&[("field", text)]), "field", 42, u64::MAX).ok()
}

fn signed(text: &str) -> Option<i64> {
    signed_or(&given(&[("field", text)]), "field", 42).ok()
}

#[test]
fn unsigned_numbers_are_read_as_the_settings_source_reads_them() {
    assert_eq!(unsigned("0"), Some(0));
    assert_eq!(unsigned("7"), Some(7));
    assert_eq!(unsigned("300"), Some(300));
    assert_eq!(unsigned("50051"), Some(50051));
    assert_eq!(unsigned("007"), Some(7));
    assert_eq!(unsigned("+300"), Some(300));
    assert_eq!(unsigned("18446744073709551615"), Some(u64::MAX));
    // the words for yes and no stand for one and nought
    assert_eq!(unsigned("true"), Some(1));
    assert_eq!(unsigned("ON"), Some(1));
    assert_eq!(unsigned("Yes"), Some(1));
    assert_eq!(unsigned("false"), Some(0));
    assert_eq!(unsigned("off"), Some(0));
    assert_eq!(unsigned("No"), Some(0));
}

#[test]
fn unsigned_numbers_are_refused_where_the_text_stands_for_none() {
    assert_eq!(unsigned(""), None);
    assert_eq!(unsigned("-"), None);
    assert_eq!(unsigned("-5"), None);
    assert_eq!(unsigned("-0"), None);
    assert_eq!(unsigned(" 5"), None);
    assert_eq!(unsigned("5 "), None);
    assert_eq!(unsigned("12a"), None);
    assert_eq!(unsigned("a12"), None);
    assert_eq!(unsigned("1.5"), None);
    assert_eq!(unsigned("maybe"), None);
    assert_eq!(unsigned("18446744073709551616"), None);
    assert_eq!(unsigned("99999999999999999999999999999999999999999999"), None);
}

#[test]
fn signed_numbers_are_read_as_the_settings_source_reads_them() {
    assert_eq!(signed("0"), Some(0));
    assert_eq!(signed("3600"), Some(3600));
    assert_eq!(signed("+5"), Some(5));
    assert_eq!(signed("-5"), Some(-5));
    assert_eq!(signed("-0"), Some(0));
    assert_eq!(signed("9223372036854775807"), Some(i64::MAX));
    assert_eq!(signed("-9223372036854775808"), Some(i64::MIN));
    assert_eq!(signed("yes"), Some(1));
    assert_eq!(signed("OFF"), Some(0));
    assert_eq!(signed(""), None);
    assert_eq!(signed("-"), None);
    assert_eq!(signed("--5"), None);
    assert_eq!(signed("5-"), None);
    assert_eq!(signed("1.5"), None);
    assert_eq!(signed("9223372036854775808"), None);
    assert_eq!(signed("-9223372036854775809"), None);
}

#[test]
fn numbers_of_fields_are_held_to_the_size_of_the_field() {
    assert!(matches!(unsigned_from(Some(65535), "grpc_port", 65535), Ok(65535)));
    assert!(matches!(unsigned_from(Some(0), "grpc_port", 65535), Ok(0)));
    assert!(matches!(
        unsigned_from(Some(65536), "grpc_port", 65535),
        Err(ValidatorError::ConfigError(words)) if words == "invalid value for `grpc_port`"
    ));
    assert!(matches!(
        unsigned_from(None, "grpc_port", 65535),
        Err(ValidatorError::ConfigError(words)) if words == "invalid value for `grpc_port`"
    ));
    assert!(matches!(unsigned_from(Some(u64::MAX), "cache_ttl", u64::MAX), Ok(u64::MAX)));
    assert!(matches!(signed_from(Some(-7), "auth.jwt_expiry"), Ok(-7)));
    assert!(matches!(
        signed_from(None, "auth.jwt_expiry"),
        Err(ValidatorError::ConfigError(words)) if words == "invalid value for `auth.jwt_expiry`"
    ));
}

#[test]
fn settings_later_entries_override_earlier_ones() {
    let settings = given(&[("a", "1"), ("b", "2"), ("a", "3")]);
    assert_eq!(setting(&settings, "a"), Some("3".to_string()));
    assert_eq!(setting(&settings, "b"), Some("2".to_string()));
    assert_eq!(setting(&settings, "c"), None);
    assert_eq!(setting(&Vec::new(), "a"), None);
}

#[test]
fn settings_fields_fall_back_to_defaults() {
    let settings = given(&[("host", "example.org"), ("port", "8080"), ("broken", "80x")]);
    assert_eq!(text_or(&settings, "host", "0.0.0.0"), "example.org");
    assert_eq!(text_or(&settings, "other", "0.0.0.0"), "0.0.0.0");
    assert!(matches!(required_text(&settings, "host"), Ok(text) if text == "example.org"));
    assert!(matches!(
        required_text(&settings, "other"),
        Err(ValidatorError::ConfigError(words)) if words == "missing field `other`"
    ));
    assert!(matches!(unsigned_or(&settings, "port", 8000, 65535), Ok(8080)));
    assert!(matches!(unsigned_or(&settings, "absent", 8000, 65535), Ok(8000)));
    assert!(matches!(
        unsigned_or(&settings, "port", 8000, 100),
        Err(ValidatorError::ConfigError(words)) if words == "invalid value for `port`"
    ));
    assert!(matches!(
        unsigned_or(&settings, "broken", 8000, 65535),
        Err(ValidatorError::ConfigError(words)) if words == "invalid value for `broken`"
    ));
    assert!(matches!(signed_or(&settings, "port", 3600), Ok(8080)));
    assert!(matches!(signed_or(&settings, "absent", -3600), Ok(-3600)));
    assert!(matches!(
        signed_or(&settings, "broken", 3600),
        Err(ValidatorError::ConfigError(words)) if words == "invalid value for `broken`"
    ));
}

#[test]
fn validator_config_takes_its_defaults() {
    let config = ValidatorConfig::from_env(&given(&addresses())).expect("a configuration");
    assert_eq!(config.redis_url, "redis://localhost:6379");
    assert_eq!(config.sui_rpc_url, "https://sui-testnet.rpc.com");
    assert_eq!(config.contract_address, "0x123");
    assert_eq!(config.cache_ttl, 300);
    assert_eq!(config.rate_limit_window, 60);
    assert_eq!(config.rate_limit_max, 1000);
    assert_eq!(config.grpc_port, 50051);
}

#[test]
fn validator_config_takes_what_is_set() {
    let mut pairs = addresses();
    pairs.push(("cache_ttl", "+30"));
    pairs.push(("rate_limit_window", "1"));
    pairs.push(("rate_limit_max", "2"));
    pairs.push(("grpc_port", "6000"));
    pairs.push(("redis_url", "redis://cache:6379"));
    pairs.push(("unknown", "ignored"));
    let config = ValidatorConfig::from_env(&given(&pairs)).expect("a configuration");
    assert_eq!(config.redis_url, "redis://cache:6379");
    assert_eq!(config.cache_ttl, 30);
    assert_eq!(config.rate_limit_window, 1);
    assert_eq!(config.rate_limit_max, 2);
    assert_eq!(config.grpc_port, 6000);
}

#[test]
fn validator_config_reports_the_first_missing_address() {
    assert_eq!(config_error(ValidatorConfig::from_env(&Vec::new())), "missing field `redis_url`");
    assert_eq!(
        config_error(ValidatorConfig::from_env(&given(&[("redis_url", "r")]))),
        "missing field `sui_rpc_url`"
    );
    assert_eq!(
        config_error(ValidatorConfig::from_env(&given(&[("redis_url", "r"), ("sui_rpc_url", "s")]))),
        "missing field `contract_address`"
    );
    // a missing address is reported before an unreadable number
    assert_eq!(
        config_error(ValidatorConfig::from_env(&given(&[("cache_ttl", "soon")]))),
        "missing field `redis_url`"
    );
}

#[test]
fn validator_config_reports_numbers_that_cannot_be_read_or_do_not_fit() {
    let mut pairs = addresses();
    pairs.push(("cache_ttl", "soon"));
    assert_eq!(
        config_error(ValidatorConfig::from_env(&given(&pairs))),
        "invalid value for `cache_ttl`"
    );
    let mut pairs = addresses();
    pairs.push(("grpc_port", "65536"));
    assert_eq!(
        config_error(ValidatorConfig::from_env(&given(&pairs))),
        "invalid value for `grpc_port`"
    );
    let mut pairs = addresses();
    pairs.push(("rate_limit_max", "-1"));
    assert_eq!(
        config_error(ValidatorConfig::from_env(&given(&pairs))),
        "invalid value for `rate_limit_max`"
    );
    let mut pairs = addresses();
    pairs.push(("rate_limit_window", "18446744073709551616"));
    pairs.push(("grpc_port", "65536"));
    assert_eq!(
        config_error(ValidatorConfig::from_env(&given(&pairs))),
        "invalid value for `rate_limit_window`"
    );
    let mut pairs = addresses();
    pairs.push(("grpc_port", "65535"));
    pairs.push(("cache_ttl", "18446744073709551615"));
    let config = ValidatorConfig::from_env(&given(&pairs)).expect("a configuration");
    assert_eq!(config.grpc_port, 65535);
    assert_eq!(config.cache_ttl, u64::MAX);
}
