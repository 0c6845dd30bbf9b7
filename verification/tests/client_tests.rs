use std::time::Duration;
use wusul::error::WusulError;
use wusul::http_client::Method;
use wusul::{Wusul, WusulConfig};

#[test]
fn test_client_creation() {
    let client = Wusul::new("test_account".to_string(), "test_secret".to_string());
    assert!(client.is_ok());
}

#[test]
fn test_client_empty_account_id() {
    let client = Wusul::new("".to_string(), "test_secret".to_string());
    assert!(client.is_err());

    if let Err(WusulError::ConfigError(msg)) = client {
        assert!(msg.contains("Account ID"));
    } else {
        panic!("Expected ConfigError");
    }
}

#[test]
fn test_client_empty_shared_secret() {
    let client = Wusul::new("test_account".to_string(), "".to_string());
    assert!(client.is_err());

    if let Err(WusulError::ConfigError(msg)) = client {
        assert!(msg.contains("Shared secret"));
    } else {
        panic!("Expected ConfigError");
    }
}

#[test]
fn lib_test_client_with_custom_config() {
    let config = WusulConfig::new("test_account".to_string(), "test_secret".to_string())
        .with_base_url("https://api.staging.wusul.io".to_string())
        .with_timeout(Duration::from_secs(60));

    let client = Wusul::with_config(config);
    assert!(client.is_ok());
}

#[test]
fn test_config_builder() {
    let config = WusulConfig::new("account".to_string(), "secret".to_string())
        .with_base_url("https://custom.api".to_string())
        .with_timeout(Duration::from_secs(45));

    assert_eq!(config.account_id, "account");
    assert_eq!(config.shared_secret, "secret");
    assert_eq!(config.base_url, "https://custom.api");
    assert_eq!(config.timeout, Duration::from_secs(45));
}

#[test]
fn config_overrides_replace_one_field_each() {
    let base = WusulConfig::new("account".to_string(), "secret".to_string());
    assert_eq!(base.base_url, "https://api.wusul.io");
    assert_eq!(base.timeout, Duration::from_secs(30));

    let with_url = base.clone().with_base_url("https://custom.api".to_string());
    assert_eq!(with_url.account_id, "account");
    assert_eq!(with_url.shared_secret, "secret");
    assert_eq!(with_url.base_url, "https://custom.api");
    assert_eq!(with_url.timeout, Duration::from_secs(30));

    let with_timeout = base.with_timeout(Duration::from_millis(1500));
    assert_eq!(with_timeout.account_id, "account");
    assert_eq!(with_timeout.shared_secret, "secret");
    assert_eq!(with_timeout.base_url, "https://api.wusul.io");
    assert_eq!(with_timeout.timeout, Duration::from_millis(1500));
}

#[test]
fn empty_account_id_is_reported_before_an_empty_secret() {
    match Wusul::new(String::new(), String::new()) {
        Err(WusulError::ConfigError(message)) => assert_eq!(message, "Account ID is required"),
        _ => panic!("Expected ConfigError"),
    }
    match Wusul::new("account".to_string(), String::new()) {
        Err(WusulError::ConfigError(message)) => assert_eq!(message, "Shared secret is required"),
        _ => panic!("Expected ConfigError"),
    }
}

#[test]
fn client_takes_over_the_configuration() {
    let config = WusulConfig::new("test_account".to_string(), "test_secret".to_string())
        .with_base_url("https://api.staging.wusul.io".to_string())
        .with_timeout(Duration::from_secs(60));
    let client = Wusul::with_config(config).unwrap();
    assert_eq!(client.http.account_id(), "test_account");
    assert_eq!(client.http.base_url(), "https://api.staging.wusul.io");
    assert_eq!(client.timeout(), Duration::from_secs(60));
    // a single character is enough for either field
    assert!(Wusul::new("a".to_string(), "s".to_string()).is_ok());
}

#[test]
fn health_is_a_signed_get_without_parameters() {
    let client = Wusul::new("test_account".to_string(), "test_secret".to_string()).unwrap();
    let request = client.health().unwrap();
    assert_eq!(request.method, Method::Get);
    assert_eq!(request.url, "https://api.wusul.io/health");
    assert!(request.query.is_empty());
    assert!(request.body.is_none());
    assert_eq!(
        request.headers,
        vec![
            ("X-ACCT-ID".to_string(), "test_account".to_string()),
            (
                "X-PAYLOAD-SIG".to_string(),
                "1a639c51a6760704e973d38e459427bf8c0c42d2bf0da27aaf69dd7474f1ab1d".to_string()
            ),
            ("Content-Type".to_string(), "application/json".to_string()),
        ]
    );
}
