use oast_client::config::{ClientConfig, ClientOpts, DEFAULT_TIMEOUT_SECS};
use oast_client::error::ClientError;

#[test]
fn default_timeout_is_thirty_seconds() {
    assert_eq!(DEFAULT_TIMEOUT_SECS, 30);
}

#[test]
fn default_options_have_no_server_and_thirty_seconds() {
    let opts = ClientOpts::default();
    assert_eq!(opts.server, None);
    assert_eq!(opts.timeout, Some(30));
}

#[test]
fn overlay_without_values_gives_the_defaults() {
    let opts = ClientOpts::overlay(None, None);
    assert_eq!(opts.server, None);
    assert_eq!(opts.timeout, Some(30));
}

#[test]
fn overlay_takes_what_the_caller_supplied() {
    let opts = ClientOpts::overlay(Some("oast.example".to_string()), Some(10));
    assert_eq!(opts.server, Some("oast.example".to_string()));
    assert_eq!(opts.timeout, Some(10));
    let only_server = ClientOpts::overlay(Some("oast.example".to_string()), None);
    assert_eq!(only_server.server, Some("oast.example".to_string()));
    assert_eq!(only_server.timeout, Some(30));
    let only_timeout = ClientOpts::overlay(None, Some(5));
    assert_eq!(only_timeout.server, None);
    assert_eq!(only_timeout.timeout, Some(5));
}

#[test]
fn resolve_applies_the_default_timeout() {
    let config = match (ClientOpts { server: None, timeout: None }).resolve() {
        Ok(config) => config,
        Err(_) => panic!("the defaults must resolve"),
    };
    assert_eq!(config.timeout_secs(), 30);
    assert_eq!(config.server_name(), None);
}

#[test]
fn resolve_keeps_server_and_timeout() {
    let opts = ClientOpts { server: Some("oast.example".to_string()), timeout: Some(10) };
    let config = match opts.resolve() {
        Ok(config) => config,
        Err(_) => panic!("a positive timeout must resolve"),
    };
    assert_eq!(config.timeout_secs(), 10);
    assert_eq!(config.server_name(), Some("oast.example".to_string()));
}

#[test]
fn resolve_refuses_a_zero_timeout() {
    let opts = ClientOpts { server: None, timeout: Some(0) };
    assert!(matches!(opts.resolve(), Err(ClientError::RegistrationFailed)));
}

#[test]
fn resolve_accepts_the_extreme_timeouts() {
    let smallest = ClientOpts { server: None, timeout: Some(1) }.resolve();
    assert_eq!(smallest.map(|c| c.timeout_secs()).ok(), Some(1));
    let largest = ClientOpts { server: None, timeout: Some(u64::MAX) }.resolve();
    assert_eq!(largest.map(|c| c.timeout_secs()).ok(), Some(u64::MAX));
}

#[test]
fn new_config_refuses_zero_and_keeps_the_rest() {
    assert!(matches!(ClientConfig::new(None, 0), Err(ClientError::RegistrationFailed)));
    let config = match ClientConfig::new(Some("srv".to_string()), 2) {
        Ok(config) => config,
        Err(_) => panic!("a positive timeout must be accepted"),
    };
    assert_eq!(config.server_name(), Some("srv".to_string()));
    assert_eq!(config.timeout_secs(), 2);
}

#[test]
fn error_messages_are_distinct() {
    assert_eq!(ClientError::RegistrationFailed.message(), "registration with the server failed");
    assert_eq!(ClientError::PollFailed.message(), "polling the server failed");
    assert_eq!(ClientError::DecodeError.message(), "a log entry lacks a required field");
}
