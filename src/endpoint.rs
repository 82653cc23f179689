//! Endpoints: the stream URL of a feed kind in a trading mode, and the
//! URLs and headers of the order and asset service.

use vstd::prelude::*;

use crate::config::Config;

verus! {

/// The family of market data a stream connection carries.
#[derive(Clone, Copy, Debug, PartialEq, Eq, Structural)]
pub enum FeedType {
    Stocks,
    Crypto,
    News,
    Options,
    Test,
}

/// Host of the production stream servers.
pub open spec fn live_host() -> Seq<char> {
    "stream.data.alpaca.markets"@
}

/// Host of the sandbox stream servers, used by paper trading.
pub open spec fn sandbox_host() -> Seq<char> {
    "stream.data.sandbox.alpaca.markets"@
}

/// The host a feed is streamed from. Equities and the test feed use the
/// production host in both modes; the other feeds use the sandbox host
/// when real trading is disabled.
pub open spec fn stream_host(feed: FeedType, real_trading: bool) -> Seq<char> {
    match feed {
        FeedType::Stocks | FeedType::Test => live_host(),
        _ => if real_trading { live_host() } else { sandbox_host() },
    }
}

/// The path of a feed's stream on its host.
pub open spec fn stream_path(feed: FeedType) -> Seq<char> {
    match feed {
        FeedType::Stocks => "/v2/iex"@,
        FeedType::Crypto => "/v1beta3/crypto/us"@,
        FeedType::News => "/v1beta1/news"@,
        FeedType::Options => "/v1beta1/iex"@,
        FeedType::Test => "/v2/test"@,
    }
}

/// The stream URL of a feed in a trading mode.
pub open spec fn ws_url(feed: FeedType, real_trading: bool) -> Seq<char> {
    "wss://"@ + stream_host(feed, real_trading) + stream_path(feed)
}

/// A character allowed in a host name label.
pub open spec fn is_label_char(c: char) -> bool {
    ('a' <= c && c <= 'z') || ('0' <= c && c <= '9') || c == '-'
}

/// A DNS host name: labels of lower-case letters, digits and hyphens,
/// separated by single dots, with no empty label.
pub open spec fn is_host_name(h: Seq<char>) -> bool {
    &&& h.len() > 0
    &&& h[0] != '.'
    &&& h[h.len() - 1] != '.'
    &&& forall|i: int| 0 <= i < h.len() ==> is_label_char(#[trigger] h[i]) || h[i] == '.'
    &&& forall|i: int| 0 <= i < h.len() - 1 && #[trigger] h[i] == '.' ==> h[i + 1] != '.'
}

/// An absolute path made of unreserved characters and slashes.
pub open spec fn is_abs_path(p: Seq<char>) -> bool {
    &&& p.len() > 0
    &&& p[0] == '/'
    &&& forall|i: int|
        0 <= i < p.len() ==> is_label_char(#[trigger] p[i]) || p[i] == '/' || p[i] == '.'
            || p[i] == '_'
}

/// A syntactically valid secure websocket URL: the `wss` scheme, a host
/// name and an absolute path.
pub open spec fn is_ws_url(s: Seq<char>) -> bool {
    exists|h: Seq<char>, p: Seq<char>|
        #![trigger is_host_name(h), is_abs_path(p)]
        s == "wss://"@ + h + p && is_host_name(h) && is_abs_path(p)
}

fn host_for(feed: FeedType, real_trading: bool) -> (r: &'static str)
    ensures
        r@ == stream_host(feed, real_trading),
{
    match feed {
        FeedType::Stocks | FeedType::Test => "stream.data.alpaca.markets",
        _ => if real_trading {
            "stream.data.alpaca.markets"
        } else {
            "stream.data.sandbox.alpaca.markets"
        },
    }
}

fn path_for(feed: FeedType) -> (r: &'static str)
    ensures
        r@ == stream_path(feed),
{
    match feed {
        FeedType::Stocks => "/v2/iex",
        FeedType::Crypto => "/v1beta3/crypto/us",
        FeedType::News => "/v1beta1/news",
        FeedType::Options => "/v1beta1/iex",
        FeedType::Test => "/v2/test",
    }
}

proof fn lemma_hosts_well_formed()
    ensures
        is_host_name(live_host()),
        is_host_name(sandbox_host()),
{
    reveal_strlit("stream.data.alpaca.markets");
    reveal_strlit("stream.data.sandbox.alpaca.markets");
}

proof fn lemma_paths_well_formed(feed: FeedType)
    ensures
        is_abs_path(stream_path(feed)),
{
    reveal_strlit("/v2/iex");
    reveal_strlit("/v1beta3/crypto/us");
    reveal_strlit("/v1beta1/news");
    reveal_strlit("/v1beta1/iex");
    reveal_strlit("/v2/test");
}

/// Every feed kind and trading mode resolves to a non-empty, syntactically
/// valid websocket URL; being a function of its two inputs, resolution
/// gives the same URL on every call.
pub proof fn lemma_ws_url_well_formed(feed: FeedType, real_trading: bool)
    ensures
        ws_url(feed, real_trading).len() > 0,
        is_ws_url(ws_url(feed, real_trading)),
{
    lemma_hosts_well_formed();
    lemma_paths_well_formed(feed);
    let h = stream_host(feed, real_trading);
    let p = stream_path(feed);
    assert(is_host_name(h) && is_abs_path(p));
}

proof fn reveal_endpoint_texts()
    ensures
        "wss://"@.len() == 6,
        live_host().len() == 26,
        sandbox_host().len() == 34,
        "/v2/iex"@.len() == 7,
        "/v1beta3/crypto/us"@.len() == 18,
        "/v1beta1/news"@.len() == 13,
        "/v1beta1/iex"@.len() == 12,
        "/v2/test"@.len() == 8,
{
    reveal_strlit("wss://");
    reveal_strlit("stream.data.alpaca.markets");
    reveal_strlit("stream.data.sandbox.alpaca.markets");
    reveal_strlit("/v2/iex");
    reveal_strlit("/v1beta3/crypto/us");
    reveal_strlit("/v1beta1/news");
    reveal_strlit("/v1beta1/iex");
    reveal_strlit("/v2/test");
}

/// Distinct feed kinds resolve to distinct URLs, in either trading mode.
pub proof fn lemma_feeds_have_distinct_urls(f: FeedType, g: FeedType, real_trading: bool)
    requires
        f != g,
    ensures
        ws_url(f, real_trading) != ws_url(g, real_trading),
{
    reveal_endpoint_texts();
    assert(ws_url(f, real_trading).len() != ws_url(g, real_trading).len());
}

/// The trading mode selects the host of the crypto, news and options
/// feeds, and leaves the equities and test feeds on one host.
pub proof fn lemma_mode_selects_host(feed: FeedType)
    ensures
        (ws_url(feed, true) == ws_url(feed, false)) <==> (feed == FeedType::Stocks || feed
            == FeedType::Test),
{
    reveal_endpoint_texts();
    if !(feed == FeedType::Stocks || feed == FeedType::Test) {
        assert(ws_url(feed, true).len() != ws_url(feed, false).len());
    }
}

/// Resolves the stream URL of a feed kind in a trading mode.
pub fn get_ws_url(feed_type: FeedType, enable_real_trading: bool) -> (r: String)
    ensures
        r@ == ws_url(feed_type, enable_real_trading),
{
    let mut url = String::from_str("wss://");
    url.append(host_for(feed_type, enable_real_trading));
    url.append(path_for(feed_type));
    url
}

/// A parsed URL, carried through to the transport.
#[verifier::external_type_specification]
#[verifier::external_body]
pub struct ExUrl(url::Url);

/// Why the URL parser refused a text; only told apart from success here.
#[verifier::external_type_specification]
#[verifier::external_body]
pub struct ExUrlParseError(url::ParseError);

/// Whether `url::Url::parse` accepts the text as an absolute URL.
pub uninterp spec fn url_parse_accepts(s: Seq<char>) -> bool;

/// Relies on `url::Url::parse`: whether it succeeds depends on the text
/// alone.
#[verifier::external_body]
fn parse_url(s: &str) -> (r: Result<url::Url, url::ParseError>)
    ensures
        r is Ok <==> url_parse_accepts(s@),
{
    url::Url::parse(s)
}

/// The parsed stream URL of a feed kind in a trading mode, or `None` where
/// the URL parser refuses it.
pub fn stream_url(feed_type: FeedType, enable_real_trading: bool) -> (r: Option<url::Url>)
    ensures
        r is Some <==> url_parse_accepts(ws_url(feed_type, enable_real_trading)),
{
    let text = get_ws_url(feed_type, enable_real_trading);
    match parse_url(text.as_str()) {
        Ok(u) => Some(u),
        Err(_) => None,
    }
}

/// The base URL of the order and asset service: the live service when real
/// trading is enabled, else the paper-trading service.
pub open spec fn rest_base(enable_real_trading: bool) -> Seq<char> {
    if enable_real_trading {
        "https://api.alpaca.markets"@
    } else {
        "https://paper-api.alpaca.markets"@
    }
}

pub fn rest_base_url(enable_real_trading: bool) -> (r: &'static str)
    ensures
        r@ == rest_base(enable_real_trading),
{
    if enable_real_trading {
        "https://api.alpaca.markets"
    } else {
        "https://paper-api.alpaca.markets"
    }
}

/// The URL at which orders are placed.
pub fn orders_url(base_url: &str) -> (r: String)
    ensures
        r@ == base_url@ + "/v2/orders"@,
{
    let mut url = String::from_str(base_url);
    url.append("/v2/orders");
    url
}

/// The URL at which an asset is looked up.
pub fn asset_url(base_url: &str, symbol: &str) -> (r: String)
    ensures
        r@ == base_url@ + "/v2/assets/"@ + symbol@,
{
    let mut url = String::from_str(base_url);
    url.append("/v2/assets/");
    url.append(symbol);
    url
}

/// The header that carries the API key.
pub const KEY_HEADER: &'static str = "APCA-API-KEY-ID";

/// The header that carries the API secret.
pub const SECRET_HEADER: &'static str = "APCA-API-SECRET-KEY";

/// The headers of every request to the order and asset service: the two
/// credentials, and JSON as the accepted reply.
pub fn request_headers(config: &Config) -> (r: Vec<(&'static str, String)>)
    ensures
        r@.len() == 3,
        r@[0].0@ == KEY_HEADER@ && r@[0].1@ == config.alpaca_api_key@,
        r@[1].0@ == SECRET_HEADER@ && r@[1].1@ == config.alpaca_secret_key@,
        r@[2].0@ == "accept"@ && r@[2].1@ == "application/json"@,
{
    let mut headers: Vec<(&'static str, String)> = Vec::new();
    headers.push((KEY_HEADER, config.alpaca_api_key.clone()));
    headers.push((SECRET_HEADER, config.alpaca_secret_key.clone()));
    headers.push(("accept", String::from_str("application/json")));
    headers
}

} // verus!
