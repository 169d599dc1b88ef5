use clevis_pin_trustee::error::ConfigError;
use clevis_pin_trustee::retry::{NumRetries, DEFAULT_TRIES};

#[test]
fn default_policy_is_ten_attempts() {
    assert_eq!(DEFAULT_TRIES, 10);
    assert_eq!(NumRetries::default_policy(), NumRetries::Finite(10));
    assert_eq!(NumRetries::or_default(&None), NumRetries::Finite(10));
}

#[test]
fn named_policy_is_kept() {
    assert_eq!(NumRetries::or_default(&Some(NumRetries::Finite(3))), NumRetries::Finite(3));
    assert_eq!(NumRetries::or_default(&Some(NumRetries::Infinity)), NumRetries::Infinity);
}

#[test]
fn unsigned_numbers() {
    assert_eq!(NumRetries::from_u64(1), Ok(NumRetries::Finite(1)));
    assert_eq!(NumRetries::from_u64(4294967295), Ok(NumRetries::Finite(u32::MAX)));
    assert_eq!(NumRetries::from_u64(0), Err(ConfigError::RetriesTooSmall(0)));
    assert_eq!(NumRetries::from_u64(4294967296), Err(ConfigError::RetriesTooLarge(4294967296)));
    assert_eq!(NumRetries::from_u64(u64::MAX), Err(ConfigError::RetriesTooLarge(u64::MAX)));
}

#[test]
fn signed_numbers() {
    assert_eq!(NumRetries::from_i64(7), Ok(NumRetries::Finite(7)));
    assert_eq!(NumRetries::from_i64(0), Err(ConfigError::RetriesTooSmall(0)));
    assert_eq!(NumRetries::from_i64(-1), Err(ConfigError::RetriesTooSmall(-1)));
    assert_eq!(NumRetries::from_i64(i64::MIN), Err(ConfigError::RetriesTooSmall(i64::MIN)));
    assert_eq!(NumRetries::from_i64(4294967296), Err(ConfigError::RetriesTooLarge(4294967296)));
}

#[test]
fn words() {
    assert_eq!(NumRetries::from_text("infinity"), Ok(NumRetries::Infinity));
    assert_eq!(
        NumRetries::from_text("forever"),
        Err(ConfigError::RetriesNotInfinity("forever".to_string()))
    );
    assert_eq!(
        NumRetries::from_text("Infinity"),
        Err(ConfigError::RetriesNotInfinity("Infinity".to_string()))
    );
    assert_eq!(NumRetries::from_text(""), Err(ConfigError::RetriesNotInfinity(String::new())));
}

#[test]
fn word_of_the_unbounded_policy_reads_back() {
    assert_eq!(NumRetries::infinity_word(), "infinity");
    assert_eq!(NumRetries::from_text(NumRetries::infinity_word()), Ok(NumRetries::Infinity));
}

#[test]
fn retry_error_messages() {
    assert_eq!(ConfigError::RetriesTooSmall(0).message(), "number must be at least 1, got: 0");
    assert_eq!(ConfigError::RetriesTooSmall(-12).message(), "number must be at least 1, got: -12");
    assert_eq!(
        ConfigError::RetriesTooSmall(i64::MIN).message(),
        "number must be at least 1, got: -9223372036854775808"
    );
    assert_eq!(
        ConfigError::RetriesTooLarge(4294967296).message(),
        "number too large: 4294967296"
    );
    assert_eq!(
        ConfigError::RetriesNotInfinity("never".to_string()).message(),
        "expected 'infinity', got: 'never'"
    );
}
