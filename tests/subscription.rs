use alpaca_stream::endpoint::FeedType;
use alpaca_stream::subscription::{SubscriptionParamsBuilder, SubscriptionRequestBuilder};

#[test]
fn trades_only_request() {
    let r = SubscriptionRequestBuilder::new().trades(&["AAPL"]).build();
    assert_eq!(r.action, "subscribe");
    assert_eq!(r.trades, vec!["AAPL"]);
    assert!(r.quotes.is_empty());
    assert!(r.bars.is_empty());
    assert!(r.updated_bars.is_empty());
    assert!(r.daily_bars.is_empty());
    assert!(r.orderbooks.is_empty());
}

#[test]
fn empty_request_is_legal() {
    let r = SubscriptionRequestBuilder::new().build();
    assert_eq!(r.action, "subscribe");
    assert!(r.trades.is_empty() && r.quotes.is_empty() && r.orderbooks.is_empty());
}

#[test]
fn building_twice_gives_equal_requests() {
    let b = SubscriptionRequestBuilder::new().trades(&["AAPL"]).quotes(&["MSFT", "TSLA"]);
    let r1 = b.clone().build();
    let r2 = b.build();
    assert_eq!(r1, r2);
}

#[test]
fn setters_overwrite_and_keep_other_channels() {
    let r = SubscriptionRequestBuilder::new()
        .bars(&["SPY"])
        .trades(&["AAPL", "MSFT"])
        .trades(&["GOOG"])
        .updated_bars(&["QQQ"])
        .daily_bars(&["IWM"])
        .orderbooks(&["BTC/USD"])
        .build();
    assert_eq!(r.trades, vec!["GOOG"]);
    assert_eq!(r.bars, vec!["SPY"]);
    assert_eq!(r.updated_bars, vec!["QQQ"]);
    assert_eq!(r.daily_bars, vec!["IWM"]);
    assert_eq!(r.orderbooks, vec!["BTC/USD"]);
    assert!(r.quotes.is_empty());
}

#[test]
fn symbols_pass_through_verbatim() {
    let r = SubscriptionRequestBuilder::new().quotes(&["", "not a ticker", "*"]).build();
    assert_eq!(r.quotes, vec!["", "not a ticker", "*"]);
}

#[test]
fn subscription_message_text() {
    let r = SubscriptionRequestBuilder::new().trades(&["AAPL"]).quotes(&["MSFT", "TSLA"]).build();
    assert_eq!(
        r.to_message(),
        "{\"action\":\"subscribe\",\"trades\":[\"AAPL\"],\"quotes\":[\"MSFT\",\"TSLA\"],\
         \"bars\":[],\"updated_bars\":[],\"daily_bars\":[],\"orderbooks\":[]}"
    );
}

#[test]
fn subscription_message_escapes_symbols() {
    let r = SubscriptionRequestBuilder::new().bars(&["a\"b\\c"]).build();
    let text = r.to_message();
    assert!(text.contains("\"bars\":[\"a\\\"b\\\\c\"]"));
    let v: serde_json::Value = serde_json::from_str(&text).unwrap();
    assert_eq!(v["bars"][0], "a\"b\\c");
    assert_eq!(v["action"], "subscribe");
}

#[test]
fn params_builder_carries_feed_and_channels() {
    let p = SubscriptionParamsBuilder::new()
        .feed_type(FeedType::Crypto)
        .trades(&["BTC/USD"])
        .quotes(&["ETH/USD"])
        .bars(&["SOL/USD"])
        .updated_bars(&["BTC/USD"])
        .daily_bars(&["ETH/USD"])
        .orderbooks(&["BTC/USD"])
        .build();
    assert_eq!(p.feed_type, FeedType::Crypto);
    assert_eq!(p.subscription_request.action, "subscribe");
    assert_eq!(p.subscription_request.trades, vec!["BTC/USD"]);
    assert_eq!(p.subscription_request.quotes, vec!["ETH/USD"]);
    assert_eq!(p.subscription_request.bars, vec!["SOL/USD"]);
    assert_eq!(p.subscription_request.updated_bars, vec!["BTC/USD"]);
    assert_eq!(p.subscription_request.daily_bars, vec!["ETH/USD"]);
    assert_eq!(p.subscription_request.orderbooks, vec!["BTC/USD"]);
}
