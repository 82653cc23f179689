use alpaca_stream::event::{DecodeError, EventType, Price, RawRecord};

fn price(x: f64) -> Price {
    Price { bits: x.to_bits() }
}

fn record(kind: &str, symbol: &str) -> RawRecord {
    RawRecord {
        kind: Some(kind.to_string()),
        symbol: Some(symbol.to_string()),
        timestamp: Some("2024-01-01T00:00:00Z".to_string()),
        price: None,
        size: None,
        bid_price: None,
        bid_size: None,
        ask_price: None,
        ask_size: None,
        open: None,
        high: None,
        low: None,
        close: None,
        volume: None,
        bids: None,
        asks: None,
    }
}

#[test]
fn empty_frame_is_an_error() {
    let r = EventType::from_records(vec![]);
    assert_eq!(r, Err(DecodeError::EmptyEventList));
    assert_eq!(DecodeError::EmptyEventList.message(), "empty event list");
}

#[test]
fn quote_with_missing_sizes() {
    let mut q = record("q", "AAPL");
    q.bid_price = Some(price(100.0));
    q.ask_price = Some(price(100.5));
    let out = EventType::from_records(vec![Some(q)]).unwrap();
    assert_eq!(out.len(), 1);
    match &out[0] {
        Ok(EventType::Quote { symbol, bid_price, ask_price, bid_size, ask_size, timestamp }) => {
            assert_eq!(symbol, "AAPL");
            assert_eq!(f64::from_bits(bid_price.bits), 100.0);
            assert_eq!(f64::from_bits(ask_price.bits), 100.5);
            assert_eq!(*bid_size, 0);
            assert_eq!(*ask_size, 0);
            assert_eq!(timestamp, "2024-01-01T00:00:00Z");
        }
        other => panic!("expected a quote, got {:?}", other),
    }
}

#[test]
fn unknown_discriminator_fails_only_its_record() {
    let x = record("x", "AAPL");
    let out = EventType::from_records(vec![Some(x)]).unwrap();
    assert_eq!(out, vec![Err(DecodeError::UnknownEventType)]);
    assert_eq!(DecodeError::UnknownEventType.message(), "unknown event type");
}

#[test]
fn failures_are_per_record() {
    let mut b = record("b", "SPY");
    b.open = Some(price(1.5));
    b.volume = Some(7);
    let out = EventType::from_records(vec![Some(record("zz", "A")), None, Some(b)]).unwrap();
    assert_eq!(out.len(), 3);
    assert_eq!(out[0], Err(DecodeError::UnknownEventType));
    assert_eq!(out[1], Err(DecodeError::MalformedRecord));
    match &out[2] {
        Ok(EventType::Bar { symbol, open, high, volume, .. }) => {
            assert_eq!(symbol, "SPY");
            assert_eq!(f64::from_bits(open.bits), 1.5);
            assert_eq!(high.bits, 0);
            assert_eq!(*volume, 7);
        }
        other => panic!("expected a bar, got {:?}", other),
    }
}

#[test]
fn missing_symbol_or_discriminator() {
    let mut no_symbol = record("t", "X");
    no_symbol.symbol = None;
    let mut no_kind = record("t", "X");
    no_kind.kind = None;
    let mut no_time = record("q", "X");
    no_time.timestamp = None;
    let out =
        EventType::from_records(vec![Some(no_symbol), Some(no_kind), Some(no_time)]).unwrap();
    assert_eq!(out, vec![Err(DecodeError::MissingField); 3]);
}

#[test]
fn trade_record() {
    let mut t = record("t", "AAPL");
    t.price = Some(price(126.55));
    t.size = Some(100);
    let out = EventType::from_record(Some(t));
    assert_eq!(
        out,
        Ok(EventType::Trade {
            symbol: "AAPL".to_string(),
            price: price(126.55),
            volume: 100,
            timestamp: "2024-01-01T00:00:00Z".to_string(),
        })
    );
}

#[test]
fn updated_and_daily_bars() {
    let mut u = record("u", "SPY");
    u.close = Some(price(2.0));
    let mut d = record("d", "SPY");
    d.low = Some(price(0.5));
    match EventType::from_record(Some(u)) {
        Ok(EventType::UpdatedBar { close, open, .. }) => {
            assert_eq!(f64::from_bits(close.bits), 2.0);
            assert_eq!(open, Price::zero());
        }
        other => panic!("expected an updated bar, got {:?}", other),
    }
    match EventType::from_record(Some(d)) {
        Ok(EventType::DailyBar { low, volume, .. }) => {
            assert_eq!(f64::from_bits(low.bits), 0.5);
            assert_eq!(volume, 0);
        }
        other => panic!("expected a daily bar, got {:?}", other),
    }
}

#[test]
fn order_book_keeps_level_order() {
    let mut o = record("o", "BTC/USD");
    o.bids = Some(vec![(price(10.0), 1), (price(11.0), 2)]);
    match EventType::from_record(Some(o)) {
        Ok(EventType::OrderBook { symbol, bids, asks, .. }) => {
            assert_eq!(symbol, "BTC/USD");
            assert_eq!(bids, vec![(price(10.0), 1), (price(11.0), 2)]);
            assert!(asks.is_empty());
        }
        other => panic!("expected an order book, got {:?}", other),
    }
}

#[test]
fn malformed_frame() {
    assert_eq!(EventType::from_frame(None), Err(DecodeError::MalformedFrame));
    assert_eq!(EventType::from_frame(Some(vec![])), Err(DecodeError::EmptyEventList));
    assert_eq!(DecodeError::MalformedFrame.message(), "malformed frame");
    assert_eq!(DecodeError::MalformedRecord.message(), "malformed record");
    assert_eq!(DecodeError::MissingField.message(), "missing field");
}

#[test]
fn price_zero_is_positive_zero() {
    assert_eq!(f64::from_bits(Price::zero().bits), 0.0);
    assert!(f64::from_bits(Price::zero().bits).is_sign_positive());
}
