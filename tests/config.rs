use alpaca_stream::config::Config;

#[test]
fn config_with_both_keys_builds() {
    let c = Config::builder()
        .alpaca_api_key("k".to_string())
        .alpaca_secret_key("s".to_string())
        .enable_real_trading(true)
        .build()
        .unwrap();
    assert_eq!(c.alpaca_api_key, "k");
    assert_eq!(c.alpaca_secret_key, "s");
    assert!(c.enable_real_trading);
}

#[test]
fn config_defaults_to_paper_trading() {
    let c = Config::builder()
        .alpaca_api_key("k".to_string())
        .alpaca_secret_key("s".to_string())
        .build()
        .unwrap();
    assert!(!c.enable_real_trading);
}

#[test]
fn config_without_api_key_fails() {
    let r = Config::builder().alpaca_secret_key("s".to_string()).build();
    assert_eq!(r.err(), Some("API key must be set"));
    let r = Config::builder().build();
    assert_eq!(r.err(), Some("API key must be set"));
}

#[test]
fn config_without_secret_fails() {
    let r = Config::builder().alpaca_api_key("k".to_string()).build();
    assert_eq!(r.err(), Some("Secret key must be set"));
}
