use entropy_krypton_core::decimal::parse_decimal;
use entropy_krypton_core::{
    ConfigParseError, Ratio, SentryConfig, SentryDecision, SentryEngine, SentrySignals,
};

#[test]
fn parse_canonical_names() {
    let text = r#"{
        "entropy_limit": 1.0,
        "jitter_limit": 0.5,
        "load_limit": 0.85,
        "hard_excess_factor": 2.0
    }"#;
    let config = SentryConfig::from_json_str(text).unwrap();
    assert_eq!(config.entropy_limit, Ratio::new(10, 10));
    assert_eq!(config.jitter_limit, Ratio::new(5, 10));
    assert_eq!(config.load_limit, Ratio::new(85, 100));
    assert_eq!(config.hard_excess_factor, Ratio::new(20, 10));
}

#[test]
fn parse_alias_names() {
    let text = r#"{
        "max_entropy_score": 1.0,
        "max_jitter_score": 0.5,
        "max_load_score": 0.85,
        "hard_excess_factor": 2.0
    }"#;
    let config = SentryConfig::from_json_str(text).unwrap();
    assert_eq!(config.entropy_limit, Ratio::new(10, 10));
    assert_eq!(config.jitter_limit, Ratio::new(5, 10));
    assert_eq!(config.load_limit, Ratio::new(85, 100));
    assert_eq!(config.hard_excess_factor, Ratio::new(20, 10));
}

#[test]
fn parse_integer_members() {
    let text = r#"{"entropy_limit":1,"jitter_limit":2,"load_limit":3,"hard_excess_factor":4}"#;
    let config = SentryConfig::from_json_str(text).unwrap();
    assert_eq!(config.entropy_limit, Ratio::new(1, 1));
    assert_eq!(config.hard_excess_factor, Ratio::new(4, 1));
}

#[test]
fn parse_negative_limit() {
    let text = r#"{"entropy_limit":-1.5,"jitter_limit":0.5,"load_limit":0.85,"hard_excess_factor":2.0}"#;
    let config = SentryConfig::from_json_str(text).unwrap();
    assert_eq!(config.entropy_limit, Ratio::new(-15, 10));
    // A non-positive limit disables its dimension.
    let engine = SentryEngine::new(config);
    let signals = SentrySignals::from_raw(Ratio::new(1000, 1), Ratio::new(0, 1), Ratio::new(0, 1));
    assert_eq!(engine.decide("job-neg", &signals), SentryDecision::Keep);
}

#[test]
fn malformed_document_is_reported() {
    assert_eq!(
        SentryConfig::from_json_str("not a document"),
        Err(ConfigParseError::Malformed)
    );
}

#[test]
fn missing_member_is_reported() {
    assert_eq!(
        SentryConfig::from_json_str(r#"{"entropy_limit":1.0}"#),
        Err(ConfigParseError::MissingField)
    );
}

#[test]
fn non_number_member_is_reported() {
    let text = r#"{"entropy_limit":"high","jitter_limit":0.5,"load_limit":0.85,"hard_excess_factor":2.0}"#;
    assert_eq!(
        SentryConfig::from_json_str(text),
        Err(ConfigParseError::InvalidNumber)
    );
}

#[test]
fn huge_member_is_out_of_range() {
    let text = r#"{"entropy_limit":10000000,"jitter_limit":0.5,"load_limit":0.85,"hard_excess_factor":2.0}"#;
    assert_eq!(
        SentryConfig::from_json_str(text),
        Err(ConfigParseError::OutOfRange)
    );
}

#[test]
fn too_precise_member_is_out_of_range() {
    let text = r#"{"entropy_limit":0.12345678,"jitter_limit":0.5,"load_limit":0.85,"hard_excess_factor":2.0}"#;
    assert_eq!(
        SentryConfig::from_json_str(text),
        Err(ConfigParseError::OutOfRange)
    );
}

#[test]
fn exponent_printed_member_is_invalid() {
    // serde_json prints 0.000001 as "1e-6", which falls outside the
    // plain-decimal grammar, although the same value written as the text
    // "0.000001" would be within the exact range.
    let text = r#"{"entropy_limit":0.000001,"jitter_limit":0.5,"load_limit":0.85,"hard_excess_factor":2.0}"#;
    assert_eq!(
        SentryConfig::from_json_str(text),
        Err(ConfigParseError::InvalidNumber)
    );
}

#[test]
fn loaded_config_drives_decisions() {
    let text = r#"{"entropy_limit":0.5,"jitter_limit":0.5,"load_limit":0.8,"hard_excess_factor":2.0}"#;
    let config = SentryConfig::from_json_str(text).unwrap();
    let engine = SentryEngine::new(config);
    let signals = SentrySignals::from_raw(Ratio::new(82, 1), Ratio::new(0, 1), Ratio::new(2, 1));
    assert_eq!(engine.decide("job-loaded", &signals), SentryDecision::Kill);
}

#[test]
fn decimal_texts_parse_exactly() {
    assert_eq!(parse_decimal(&b"0.85".to_vec()), Ok(Ratio::new(85, 100)));
    assert_eq!(parse_decimal(&b"2".to_vec()), Ok(Ratio::new(2, 1)));
    assert_eq!(parse_decimal(&b"-1.5".to_vec()), Ok(Ratio::new(-15, 10)));
    assert_eq!(parse_decimal(&b"007".to_vec()), Ok(Ratio::new(7, 1)));
    assert_eq!(parse_decimal(&b"1000000".to_vec()), Ok(Ratio::new(1_000_000, 1)));
    assert_eq!(parse_decimal(&b"0.000001".to_vec()), Ok(Ratio::new(1, 1_000_000)));
}

#[test]
fn broken_decimal_texts_are_invalid() {
    assert_eq!(parse_decimal(&b"".to_vec()), Err(ConfigParseError::InvalidNumber));
    assert_eq!(parse_decimal(&b"-".to_vec()), Err(ConfigParseError::InvalidNumber));
    assert_eq!(parse_decimal(&b".5".to_vec()), Err(ConfigParseError::InvalidNumber));
    assert_eq!(parse_decimal(&b"5.".to_vec()), Err(ConfigParseError::InvalidNumber));
    assert_eq!(parse_decimal(&b"1.2.3".to_vec()), Err(ConfigParseError::InvalidNumber));
    assert_eq!(parse_decimal(&b"1e3".to_vec()), Err(ConfigParseError::InvalidNumber));
    assert_eq!(parse_decimal(&b" 1".to_vec()), Err(ConfigParseError::InvalidNumber));
}

#[test]
fn oversized_decimal_texts_are_out_of_range() {
    assert_eq!(parse_decimal(&b"1000001".to_vec()), Err(ConfigParseError::OutOfRange));
    assert_eq!(parse_decimal(&b"-1000001".to_vec()), Err(ConfigParseError::OutOfRange));
    assert_eq!(parse_decimal(&b"0.0000001".to_vec()), Err(ConfigParseError::OutOfRange));
}

#[test]
fn default_config_values() {
    let config = SentryConfig::default();
    assert_eq!(config.entropy_limit, Ratio::new(1, 1));
    assert_eq!(config.jitter_limit, Ratio::new(1, 2));
    assert_eq!(config.load_limit, Ratio::new(17, 20));
    assert_eq!(config.hard_excess_factor, Ratio::new(2, 1));
}
