use alpaca_stream::config::Config;
use alpaca_stream::endpoint::FeedType;
use alpaca_stream::session::{
    auth_message, ConnectionState, FailureReason, FramePayload, Session, SessionAction,
    SessionEvent,
};
use alpaca_stream::subscription::SubscriptionParamsBuilder;
use alpaca_stream::text::contains_text;

fn new_session() -> Session {
    let config = Config::builder()
        .alpaca_api_key("key".to_string())
        .alpaca_secret_key("secret".to_string())
        .build()
        .unwrap();
    let params = SubscriptionParamsBuilder::new().feed_type(FeedType::Stocks).trades(&["AAPL"]).build();
    Session::new(&config, &params)
}

const SUBSCRIBE: &str = "{\"action\":\"subscribe\",\"trades\":[\"AAPL\"],\"quotes\":[],\"bars\":[],\
                         \"updated_bars\":[],\"daily_bars\":[],\"orderbooks\":[]}";

fn count_subscriptions(actions: &[SessionAction]) -> usize {
    actions.iter().filter(|a| matches!(a, SessionAction::SendSubscription(_))).count()
}

#[test]
fn auth_message_text() {
    assert_eq!(auth_message("k", "s"), "{\"action\":\"auth\",\"key\":\"k\",\"secret\":\"s\"}");
    assert_eq!(auth_message("a\"b", ""), "{\"action\":\"auth\",\"key\":\"a\\\"b\",\"secret\":\"\"}");
}

#[test]
fn endpoint_of_new_session() {
    let mut s = new_session();
    let u = s.endpoint().expect("endpoint");
    assert_eq!(u.as_str(), "wss://stream.data.alpaca.markets/v2/iex");
    assert_eq!(s.state(), ConnectionState::Opening);
}

#[test]
fn non_upgrade_status_fails_without_subscribing() {
    let mut s = new_session();
    let mut actions = vec![s.step(SessionEvent::Connected(200))];
    assert_eq!(s.state(), ConnectionState::Failed(FailureReason::Connection));
    assert_eq!(actions[0], SessionAction::Stop);
    actions.push(s.step(SessionEvent::Text("[{\"T\":\"success\"}]".to_string())));
    actions.push(s.step(SessionEvent::Connected(101)));
    assert_eq!(count_subscriptions(&actions), 0);
    assert_eq!(s.state(), ConnectionState::Failed(FailureReason::Connection));
    assert_eq!(FailureReason::Connection.reason(), "connection");
}

#[test]
fn transport_error_fails_connection() {
    let mut s = new_session();
    assert_eq!(s.step(SessionEvent::TransportError), SessionAction::Stop);
    assert_eq!(s.state(), ConnectionState::Failed(FailureReason::Connection));
}

#[test]
fn unauthorized_reply_is_rejected() {
    let mut s = new_session();
    let a0 = s.step(SessionEvent::Connected(101));
    assert_eq!(
        a0,
        SessionAction::SendAuth("{\"action\":\"auth\",\"key\":\"key\",\"secret\":\"secret\"}".to_string())
    );
    assert_eq!(s.state(), ConnectionState::Authenticating);
    let a1 = s.step(SessionEvent::Text(
        "[{\"T\":\"error\",\"code\":401,\"msg\":\"unauthorized\"}]".to_string(),
    ));
    assert_eq!(a1, SessionAction::Stop);
    assert_eq!(s.state(), ConnectionState::Failed(FailureReason::AuthRejected));
    let a2 = s.step(SessionEvent::Text("[{\"T\":\"success\"}]".to_string()));
    assert_eq!(count_subscriptions(&[a0, a1, a2]), 0);
    assert_eq!(FailureReason::AuthRejected.reason(), "auth-rejected");
}

#[test]
fn success_reply_subscribes_exactly_once() {
    let mut s = new_session();
    let mut actions = vec![s.step(SessionEvent::Connected(101))];
    actions.push(s.step(SessionEvent::Text(
        "[{\"T\":\"success\",\"msg\":\"authenticated\"}]".to_string(),
    )));
    assert_eq!(s.state(), ConnectionState::Ready);
    assert_eq!(actions[1], SessionAction::SendSubscription(SUBSCRIBE.to_string()));
    actions.push(s.step(SessionEvent::Text("[{\"T\":\"success\"}]".to_string())));
    actions.push(s.step(SessionEvent::Binary(b"[]".to_vec())));
    actions.push(s.step(SessionEvent::Control));
    actions.push(s.step(SessionEvent::Closed));
    assert_eq!(count_subscriptions(&actions), 1);
    assert_eq!(
        actions[2],
        SessionAction::Decode(FramePayload::Text("[{\"T\":\"success\"}]".to_string()))
    );
    assert_eq!(actions[3], SessionAction::Decode(FramePayload::Binary(b"[]".to_vec())));
    assert_eq!(actions[4], SessionAction::Wait);
    assert_eq!(actions[5], SessionAction::Stop);
    assert_eq!(s.state(), ConnectionState::Closed);
}

#[test]
fn ambiguous_replies_fail_the_handshake() {
    for event in [
        SessionEvent::Text("[{\"T\":\"subscription\"}]".to_string()),
        SessionEvent::Binary(vec![1, 2, 3]),
        SessionEvent::Control,
        SessionEvent::Closed,
        SessionEvent::TimedOut,
    ] {
        let mut s = new_session();
        s.step(SessionEvent::Connected(101));
        assert_eq!(s.step(event), SessionAction::Stop);
        assert_eq!(s.state(), ConnectionState::Failed(FailureReason::AuthAmbiguous));
    }
    assert_eq!(FailureReason::AuthAmbiguous.reason(), "auth-ambiguous");
}

#[test]
fn rejection_marker_wins_over_success() {
    let mut s = new_session();
    s.step(SessionEvent::Connected(101));
    s.step(SessionEvent::Text("success? no: error".to_string()));
    assert_eq!(s.state(), ConnectionState::Failed(FailureReason::AuthRejected));
}

#[test]
fn substring_search() {
    assert!(contains_text("an unauthorized request", "unauthorized"));
    assert!(contains_text("error", "error"));
    assert!(contains_text("abc", ""));
    assert!(!contains_text("err", "error"));
    assert!(!contains_text("succes s", "success"));
    assert!(contains_text("ünïcödé success", "success"));
}
