use purple_exporter::config::{
    clamp_query_rate, config_from_args, config_from_env, parse_bool, parse_u64,
};

#[test]
fn parse_u64_plain_and_signed() {
    assert_eq!(parse_u64("60"), Some(60));
    assert_eq!(parse_u64("+60"), Some(60));
    assert_eq!(parse_u64("0"), Some(0));
    assert_eq!(parse_u64("18446744073709551615"), Some(u64::MAX));
}

#[test]
fn parse_u64_rejects_junk_and_overflow() {
    assert_eq!(parse_u64(""), None);
    assert_eq!(parse_u64("+"), None);
    assert_eq!(parse_u64("abc"), None);
    assert_eq!(parse_u64("12x"), None);
    assert_eq!(parse_u64("-5"), None);
    assert_eq!(parse_u64("18446744073709551616"), None);
}

#[test]
fn parse_bool_exact_words_only() {
    assert_eq!(parse_bool("true"), Some(true));
    assert_eq!(parse_bool("false"), Some(false));
    assert_eq!(parse_bool("True"), None);
    assert_eq!(parse_bool(""), None);
    assert_eq!(parse_bool("1"), None);
}

#[test]
fn requested_rate_below_floor_is_clamped() {
    assert_eq!(clamp_query_rate(60), 300);
    assert_eq!(clamp_query_rate(0), 300);
    assert_eq!(clamp_query_rate(300), 300);
    assert_eq!(clamp_query_rate(900), 900);
}

#[test]
fn env_config_defaults() {
    let c = config_from_env(String::from("10.0.0.7"), None, None, None);
    assert_eq!(c.sensor_ip, "10.0.0.7");
    assert_eq!(c.query_rate, 300);
    assert_eq!(c.port, "9184");
    assert!(!c.adjust);
}

#[test]
fn env_config_explicit_values() {
    let c = config_from_env(
        String::from("10.0.0.7"),
        Some(String::from("900")),
        Some(String::from("9100")),
        Some(String::from("true")),
    );
    assert_eq!(c.query_rate, 900);
    assert_eq!(c.port, "9100");
    assert!(c.adjust);
}

#[test]
fn env_config_clamps_low_rate() {
    let c = config_from_env(String::from("10.0.0.7"), Some(String::from("60")), None, None);
    assert_eq!(c.query_rate, 300);
}

#[test]
fn env_config_bad_rate_and_flag_fall_back() {
    let c = config_from_env(
        String::from("10.0.0.7"),
        Some(String::from("fast")),
        None,
        Some(String::from("yes")),
    );
    assert_eq!(c.query_rate, 300);
    assert!(!c.adjust);
}

#[test]
fn args_config_requires_sensor() {
    assert!(config_from_args(None, None, None, None).is_none());
    let c = config_from_args(
        Some(String::from("60")),
        Some(String::from("10.0.0.9")),
        None,
        Some(String::from("true")),
    )
    .unwrap();
    assert_eq!(c.sensor_ip, "10.0.0.9");
    assert_eq!(c.query_rate, 300);
    assert_eq!(c.port, "9184");
    assert!(c.adjust);
}
