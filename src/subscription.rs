//! Subscription requests: which symbols to stream on which channel.

use vstd::prelude::*;

use crate::endpoint::FeedType;
use crate::json::{append_json_array, json_array, json_string_text, quote_json};

verus! {

/// The symbol lists of the six channels of a subscription.
pub struct Channels {
    pub trades: Seq<&'static str>,
    pub quotes: Seq<&'static str>,
    pub bars: Seq<&'static str>,
    pub updated_bars: Seq<&'static str>,
    pub daily_bars: Seq<&'static str>,
    pub orderbooks: Seq<&'static str>,
}

impl Channels {
    /// These channels with the `trades` list replaced.
    pub open spec fn with_trades(self, xs: Seq<&'static str>) -> Channels {
        Channels { trades: xs, ..self }
    }

    /// These channels with the `quotes` list replaced.
    pub open spec fn with_quotes(self, xs: Seq<&'static str>) -> Channels {
        Channels { quotes: xs, ..self }
    }

    /// These channels with the `bars` list replaced.
    pub open spec fn with_bars(self, xs: Seq<&'static str>) -> Channels {
        Channels { bars: xs, ..self }
    }

    /// These channels with the `updated_bars` list replaced.
    pub open spec fn with_updated_bars(self, xs: Seq<&'static str>) -> Channels {
        Channels { updated_bars: xs, ..self }
    }

    /// These channels with the `daily_bars` list replaced.
    pub open spec fn with_daily_bars(self, xs: Seq<&'static str>) -> Channels {
        Channels { daily_bars: xs, ..self }
    }

    /// These channels with the `orderbooks` list replaced.
    pub open spec fn with_orderbooks(self, xs: Seq<&'static str>) -> Channels {
        Channels { orderbooks: xs, ..self }
    }
}

/// Channels with no symbol on any of them.
pub open spec fn no_channels() -> Channels {
    Channels {
        trades: Seq::empty(),
        quotes: Seq::empty(),
        bars: Seq::empty(),
        updated_bars: Seq::empty(),
        daily_bars: Seq::empty(),
        orderbooks: Seq::empty(),
    }
}

/// The message that declares interest in a set of channels.
#[derive(Clone, Debug, PartialEq, Eq)]
pub struct SubscriptionRequest {
    /// Always "subscribe"
    pub action: &'static str,
    /// Array of ticker symbols ex. ["AAPL"] or ["BTC"]
    pub trades: Vec<&'static str>,
    pub quotes: Vec<&'static str>,
    pub bars: Vec<&'static str>,
    pub updated_bars: Vec<&'static str>,
    pub daily_bars: Vec<&'static str>,
    pub orderbooks: Vec<&'static str>,
}

impl SubscriptionRequest {
    /// The channel lists of the request.
    pub open spec fn channels(&self) -> Channels {
        Channels {
            trades: self.trades@,
            quotes: self.quotes@,
            bars: self.bars@,
            updated_bars: self.updated_bars@,
            daily_bars: self.daily_bars@,
            orderbooks: self.orderbooks@,
        }
    }
}

/// The JSON text of a subscription request, fields in declaration order.
pub open spec fn subscription_message(action: Seq<char>, c: Channels) -> Seq<char> {
    "{\"action\":"@ + json_string_text(action) + ",\"trades\":"@ + json_array(c.trades)
        + ",\"quotes\":"@ + json_array(c.quotes) + ",\"bars\":"@ + json_array(c.bars)
        + ",\"updated_bars\":"@ + json_array(c.updated_bars) + ",\"daily_bars\":"@
        + json_array(c.daily_bars) + ",\"orderbooks\":"@ + json_array(c.orderbooks) + "}"@
}

impl SubscriptionRequest {
    /// The request as the JSON text sent on the stream.
    pub fn to_message(&self) -> (r: String)
        ensures
            r@ == subscription_message(self.action@, self.channels()),
    {
        let mut out = String::from_str("{\"action\":");
        let action = quote_json(self.action);
        out.append(action.as_str());
        out.append(",\"trades\":");
        append_json_array(&mut out, &self.trades);
        out.append(",\"quotes\":");
        append_json_array(&mut out, &self.quotes);
        out.append(",\"bars\":");
        append_json_array(&mut out, &self.bars);
        out.append(",\"updated_bars\":");
        append_json_array(&mut out, &self.updated_bars);
        out.append(",\"daily_bars\":");
        append_json_array(&mut out, &self.daily_bars);
        out.append(",\"orderbooks\":");
        append_json_array(&mut out, &self.orderbooks);
        out.append("}");
        out
    }
}

/// Accumulates the channel lists of a subscription request.
#[derive(Clone, Debug)]
pub struct SubscriptionRequestBuilder {
    trades: Vec<&'static str>,
    quotes: Vec<&'static str>,
    bars: Vec<&'static str>,
    updated_bars: Vec<&'static str>,
    daily_bars: Vec<&'static str>,
    orderbooks: Vec<&'static str>,
}

impl View for SubscriptionRequestBuilder {
    type V = Channels;

    closed spec fn view(&self) -> Channels {
        Channels {
            trades: self.trades@,
            quotes: self.quotes@,
            bars: self.bars@,
            updated_bars: self.updated_bars@,
            daily_bars: self.daily_bars@,
            orderbooks: self.orderbooks@,
        }
    }
}

impl SubscriptionRequestBuilder {
    pub fn new() -> (r: Self)
        ensures
            r@ == no_channels(),
    {
        SubscriptionRequestBuilder {
            trades: Vec::new(),
            quotes: Vec::new(),
            bars: Vec::new(),
            updated_bars: Vec::new(),
            daily_bars: Vec::new(),
            orderbooks: Vec::new(),
        }
    }

    pub fn trades(self, trades: &[&'static str]) -> (r: Self)
        ensures
            r@ == self@.with_trades(trades@),
    {
        let mut b = self;
        b.trades = vstd::slice::slice_to_vec(trades);
        b
    }

    pub fn quotes(self, quotes: &[&'static str]) -> (r: Self)
        ensures
            r@ == self@.with_quotes(quotes@),
    {
        let mut b = self;
        b.quotes = vstd::slice::slice_to_vec(quotes);
        b
    }

    pub fn bars(self, bars: &[&'static str]) -> (r: Self)
        ensures
            r@ == self@.with_bars(bars@),
    {
        let mut b = self;
        b.bars = vstd::slice::slice_to_vec(bars);
        b
    }

    pub fn updated_bars(self, updated_bars: &[&'static str]) -> (r: Self)
        ensures
            r@ == self@.with_updated_bars(updated_bars@),
    {
        let mut b = self;
        b.updated_bars = vstd::slice::slice_to_vec(updated_bars);
        b
    }

    pub fn daily_bars(self, daily_bars: &[&'static str]) -> (r: Self)
        ensures
            r@ == self@.with_daily_bars(daily_bars@),
    {
        let mut b = self;
        b.daily_bars = vstd::slice::slice_to_vec(daily_bars);
        b
    }

    pub fn orderbooks(self, orderbooks: &[&'static str]) -> (r: Self)
        ensures
            r@ == self@.with_orderbooks(orderbooks@),
    {
        let mut b = self;
        b.orderbooks = vstd::slice::slice_to_vec(orderbooks);
        b
    }

    pub fn build(self) -> (r: SubscriptionRequest)
        ensures
            r.action@ == "subscribe"@,
            r.channels() == self@,
    {
        SubscriptionRequest {
            action: "subscribe",
            trades: self.trades,
            quotes: self.quotes,
            bars: self.bars,
            updated_bars: self.updated_bars,
            daily_bars: self.daily_bars,
            orderbooks: self.orderbooks,
        }
    }
}

/// Setting only the trades channel on a fresh builder leaves every other
/// channel empty, and the trades list is exactly the symbols given.
pub proof fn lemma_trades_only(xs: Seq<&'static str>)
    ensures
        no_channels().with_trades(xs).trades == xs,
        no_channels().with_trades(xs).quotes.len() == 0,
        no_channels().with_trades(xs).bars.len() == 0,
        no_channels().with_trades(xs).updated_bars.len() == 0,
        no_channels().with_trades(xs).daily_bars.len() == 0,
        no_channels().with_trades(xs).orderbooks.len() == 0,
{
}

/// Building twice from one builder state, with no setter call between,
/// gives two requests with equal action and equal channel lists.
pub proof fn lemma_build_idempotent(
    b: SubscriptionRequestBuilder,
    r1: SubscriptionRequest,
    r2: SubscriptionRequest,
)
    requires
        r1.action@ == "subscribe"@ && r1.channels() == b@,
        r2.action@ == "subscribe"@ && r2.channels() == b@,
    ensures
        r1.action@ == r2.action@,
        r1.trades@ == r2.trades@,
        r1.quotes@ == r2.quotes@,
        r1.bars@ == r2.bars@,
        r1.updated_bars@ == r2.updated_bars@,
        r1.daily_bars@ == r2.daily_bars@,
        r1.orderbooks@ == r2.orderbooks@,
{
}

/// A feed kind together with the subscription request to send on it.
pub struct SubscriptionParams {
    pub feed_type: FeedType,
    pub subscription_request: SubscriptionRequest,
}

/// What a parameters builder holds so far.
pub struct ParamsDraft {
    pub feed_type: Option<FeedType>,
    pub channels: Channels,
}

/// Accumulates a feed kind and channel lists.
#[derive(Clone, Debug)]
pub struct SubscriptionParamsBuilder {
    feed_type: Option<FeedType>,
    subscription_request: SubscriptionRequestBuilder,
}

impl View for SubscriptionParamsBuilder {
    type V = ParamsDraft;

    closed spec fn view(&self) -> ParamsDraft {
        ParamsDraft { feed_type: self.feed_type, channels: self.subscription_request@ }
    }
}

impl SubscriptionParamsBuilder {
    pub fn new() -> (r: Self)
        ensures
            r@ == (ParamsDraft { feed_type: None, channels: no_channels() }),
    {
        SubscriptionParamsBuilder {
            feed_type: None,
            subscription_request: SubscriptionRequestBuilder::new(),
        }
    }

    pub fn feed_type(self, feed_type: FeedType) -> (r: Self)
        ensures
            r@ == (ParamsDraft { feed_type: Some(feed_type), channels: self@.channels }),
    {
        SubscriptionParamsBuilder {
            feed_type: Some(feed_type),
            subscription_request: self.subscription_request,
        }
    }

    pub fn trades(self, trades: &[&'static str]) -> (r: Self)
        ensures
            r@ == (ParamsDraft {
                feed_type: self@.feed_type,
                channels: self@.channels.with_trades(trades@),
            }),
    {
        SubscriptionParamsBuilder {
            feed_type: self.feed_type,
            subscription_request: self.subscription_request.trades(trades),
        }
    }

    pub fn quotes(self, quotes: &[&'static str]) -> (r: Self)
        ensures
            r@ == (ParamsDraft {
                feed_type: self@.feed_type,
                channels: self@.channels.with_quotes(quotes@),
            }),
    {
        SubscriptionParamsBuilder {
            feed_type: self.feed_type,
            subscription_request: self.subscription_request.quotes(quotes),
        }
    }

    pub fn bars(self, bars: &[&'static str]) -> (r: Self)
        ensures
            r@ == (ParamsDraft {
                feed_type: self@.feed_type,
                channels: self@.channels.with_bars(bars@),
            }),
    {
        SubscriptionParamsBuilder {
            feed_type: self.feed_type,
            subscription_request: self.subscription_request.bars(bars),
        }
    }

    pub fn updated_bars(self, updated_bars: &[&'static str]) -> (r: Self)
        ensures
            r@ == (ParamsDraft {
                feed_type: self@.feed_type,
                channels: self@.channels.with_updated_bars(updated_bars@),
            }),
    {
        SubscriptionParamsBuilder {
            feed_type: self.feed_type,
            subscription_request: self.subscription_request.updated_bars(updated_bars),
        }
    }

    pub fn daily_bars(self, daily_bars: &[&'static str]) -> (r: Self)
        ensures
            r@ == (ParamsDraft {
                feed_type: self@.feed_type,
                channels: self@.channels.with_daily_bars(daily_bars@),
            }),
    {
        SubscriptionParamsBuilder {
            feed_type: self.feed_type,
            subscription_request: self.subscription_request.daily_bars(daily_bars),
        }
    }

    pub fn orderbooks(self, orderbooks: &[&'static str]) -> (r: Self)
        ensures
            r@ == (ParamsDraft {
                feed_type: self@.feed_type,
                channels: self@.channels.with_orderbooks(orderbooks@),
            }),
    {
        SubscriptionParamsBuilder {
            feed_type: self.feed_type,
            subscription_request: self.subscription_request.orderbooks(orderbooks),
        }
    }

    /// Completes the parameters; a feed kind must have been set.
    pub fn build(self) -> (r: SubscriptionParams)
        requires
            self@.feed_type is Some,
        ensures
            r.feed_type == self@.feed_type->Some_0,
            r.subscription_request.action@ == "subscribe"@,
            r.subscription_request.channels() == self@.channels,
    {
        SubscriptionParams {
            feed_type: self.feed_type.unwrap(),
            subscription_request: self.subscription_request.build(),
        }
    }
}

} // verus!
