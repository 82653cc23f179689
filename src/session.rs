//! The connection's protocol state machine: the handshake that opens and
//! authenticates a stream, then the session that subscribes once and hands
//! every data frame to the decoder.
//!
//! The machine performs no I/O. Its owner connects the transport, sends
//! what each action asks for, and feeds back what the transport reports as
//! the next event.

use vstd::prelude::*;

use crate::config::Config;
use crate::endpoint::{stream_url, url_parse_accepts, ws_url, FeedType};
use crate::json::{json_string_text, quote_json};
use crate::subscription::{subscription_message, SubscriptionParams};
use crate::text::{contains, contains_text};

verus! {

/// Why a connection failed. Every failure is fatal and is not retried.
#[derive(Clone, Copy, Debug, PartialEq, Eq, Structural)]
pub enum FailureReason {
    /// The transport could not be established or was not upgraded.
    Connection,
    /// The server rejected the credentials.
    AuthRejected,
    /// The reply to the credentials did not classify, or never came.
    AuthAmbiguous,
}

impl FailureReason {
    /// The short name of the reason.
    pub fn reason(&self) -> (r: &'static str)
        ensures
            r@ == self.reason_spec(),
    {
        match self {
            FailureReason::Connection => "connection",
            FailureReason::AuthRejected => "auth-rejected",
            FailureReason::AuthAmbiguous => "auth-ambiguous",
        }
    }

    pub open spec fn reason_spec(&self) -> Seq<char> {
        match self {
            FailureReason::Connection => "connection"@,
            FailureReason::AuthRejected => "auth-rejected"@,
            FailureReason::AuthAmbiguous => "auth-ambiguous"@,
        }
    }
}

/// Where a connection stands.
#[derive(Clone, Copy, Debug, PartialEq, Eq, Structural)]
pub enum ConnectionState {
    Opening,
    Authenticating,
    Ready,
    Failed(FailureReason),
    Closed,
}

/// What the transport reports.
#[derive(Clone, Debug, PartialEq, Eq)]
pub enum SessionEvent {
    /// The transport connected and answered the upgrade request with this
    /// HTTP status.
    Connected(u16),
    /// The transport could not be established, or failed.
    TransportError,
    /// A text frame arrived.
    Text(String),
    /// A binary frame arrived.
    Binary(Vec<u8>),
    /// A control frame (ping, pong or a raw frame) arrived.
    Control,
    /// The transport closed, or its frames ended.
    Closed,
    /// No reply to the credentials arrived in time.
    TimedOut,
}

/// The payload of a data frame, in either framing.
#[derive(Clone, Debug, PartialEq, Eq)]
pub enum FramePayload {
    Text(String),
    Binary(Vec<u8>),
}

/// What the owner of the transport is to do next.
#[derive(Clone, Debug, PartialEq, Eq)]
pub enum SessionAction {
    /// Send this authentication message.
    SendAuth(String),
    /// Send this subscription message.
    SendSubscription(String),
    /// Decode this frame and yield its outcome.
    Decode(FramePayload),
    /// Nothing to send; wait for the next event.
    Wait,
    /// The session is over; close the transport.
    Stop,
}

/// The abstract form of an event: text and bytes as sequences.
pub enum EventView {
    Connected(u16),
    TransportError,
    Text(Seq<char>),
    Binary(Seq<u8>),
    Control,
    Closed,
    TimedOut,
}

/// The abstract form of a frame payload.
pub enum PayloadView {
    Text(Seq<char>),
    Binary(Seq<u8>),
}

/// The abstract form of an action.
pub enum ActionView {
    SendAuth(Seq<char>),
    SendSubscription(Seq<char>),
    Decode(PayloadView),
    Wait,
    Stop,
}

impl View for SessionEvent {
    type V = EventView;

    open spec fn view(&self) -> EventView {
        match self {
            SessionEvent::Connected(s) => EventView::Connected(*s),
            SessionEvent::TransportError => EventView::TransportError,
            SessionEvent::Text(t) => EventView::Text(t@),
            SessionEvent::Binary(b) => EventView::Binary(b@),
            SessionEvent::Control => EventView::Control,
            SessionEvent::Closed => EventView::Closed,
            SessionEvent::TimedOut => EventView::TimedOut,
        }
    }
}

impl View for FramePayload {
    type V = PayloadView;

    open spec fn view(&self) -> PayloadView {
        match self {
            FramePayload::Text(t) => PayloadView::Text(t@),
            FramePayload::Binary(b) => PayloadView::Binary(b@),
        }
    }
}

impl View for SessionAction {
    type V = ActionView;

    open spec fn view(&self) -> ActionView {
        match self {
            SessionAction::SendAuth(m) => ActionView::SendAuth(m@),
            SessionAction::SendSubscription(m) => ActionView::SendSubscription(m@),
            SessionAction::Decode(p) => ActionView::Decode(p@),
            SessionAction::Wait => ActionView::Wait,
            SessionAction::Stop => ActionView::Stop,
        }
    }
}

/// The abstract state of a session.
pub struct SessionView {
    pub state: ConnectionState,
    pub feed_type: FeedType,
    pub enable_real_trading: bool,
    /// The authentication message, until it is sent.
    pub auth_message: Option<Seq<char>>,
    /// The subscription message, until it is sent.
    pub subscription_message: Option<Seq<char>>,
}

/// The text of the authentication message.
pub open spec fn auth_message_text(key: Seq<char>, secret: Seq<char>) -> Seq<char> {
    "{\"action\":\"auth\",\"key\":"@ + json_string_text(key) + ",\"secret\":"@
        + json_string_text(secret) + "}"@
}

/// Builds the authentication message for a key and secret.
pub fn auth_message(key: &str, secret: &str) -> (r: String)
    ensures
        r@ == auth_message_text(key@, secret@),
{
    let mut out = String::from_str("{\"action\":\"auth\",\"key\":");
    let k = quote_json(key);
    out.append(k.as_str());
    out.append(",\"secret\":");
    let s = quote_json(secret);
    out.append(s.as_str());
    out.append("}");
    out
}

/// How the reply to the credentials classifies.
pub enum AuthReply {
    Rejected,
    Accepted,
    Unclassified,
}

/// An explicit rejection marker wins over a success marker; a reply with
/// neither does not classify.
pub open spec fn classify_reply(t: Seq<char>) -> AuthReply {
    if contains(t, "unauthorized"@) || contains(t, "error"@) {
        AuthReply::Rejected
    } else if contains(t, "success"@) {
        AuthReply::Accepted
    } else {
        AuthReply::Unclassified
    }
}

/// A message taken out of its slot, or the empty text where none is left.
pub open spec fn text_or_empty(m: Option<Seq<char>>) -> Seq<char> {
    match m {
        Some(t) => t,
        None => Seq::empty(),
    }
}

/// The status that acknowledges the protocol switch.
pub const SWITCHING_PROTOCOLS: u16 = 101;

/// One transition: the next state of the session, and the action to take.
pub open spec fn next(v: SessionView, e: EventView) -> (SessionView, ActionView) {
    let fail = |r: FailureReason| (SessionView { state: ConnectionState::Failed(r), ..v }, ActionView::Stop);
    match v.state {
        ConnectionState::Opening => match e {
            EventView::Connected(status) => if status == SWITCHING_PROTOCOLS {
                (
                    SessionView {
                        state: ConnectionState::Authenticating,
                        auth_message: None,
                        ..v
                    },
                    ActionView::SendAuth(text_or_empty(v.auth_message)),
                )
            } else {
                fail(FailureReason::Connection)
            },
            _ => fail(FailureReason::Connection),
        },
        ConnectionState::Authenticating => match e {
            EventView::Text(t) => match classify_reply(t) {
                AuthReply::Rejected => fail(FailureReason::AuthRejected),
                AuthReply::Accepted => (
                    SessionView {
                        state: ConnectionState::Ready,
                        subscription_message: None,
                        ..v
                    },
                    ActionView::SendSubscription(text_or_empty(v.subscription_message)),
                ),
                AuthReply::Unclassified => fail(FailureReason::AuthAmbiguous),
            },
            _ => fail(FailureReason::AuthAmbiguous),
        },
        ConnectionState::Ready => match e {
            EventView::Text(t) => (v, ActionView::Decode(PayloadView::Text(t))),
            EventView::Binary(b) => (v, ActionView::Decode(PayloadView::Binary(b))),
            EventView::Closed | EventView::TransportError => (
                SessionView { state: ConnectionState::Closed, ..v },
                ActionView::Stop,
            ),
            _ => (v, ActionView::Wait),
        },
        _ => (v, ActionView::Stop),
    }
}

/// Runs the machine over a sequence of events: the state it ends in, and
/// the actions it takes, one per event.
pub open spec fn run(v: SessionView, es: Seq<EventView>) -> (SessionView, Seq<ActionView>)
    decreases es.len(),
{
    if es.len() == 0 {
        (v, Seq::empty())
    } else {
        let step = next(v, es[0]);
        let rest = run(step.0, es.drop_first());
        (rest.0, seq![step.1] + rest.1)
    }
}

/// The run over `e` followed by `es` starts with the transition on `e`.
proof fn lemma_run_cons(v: SessionView, e: EventView, es: Seq<EventView>)
    ensures
        run(v, seq![e] + es) == ({
            let step = next(v, e);
            let rest = run(step.0, es);
            (rest.0, seq![step.1] + rest.1)
        }),
{
    assert((seq![e] + es)[0] == e);
    assert((seq![e] + es).drop_first() =~= es);
}

/// A run takes one action per event.
proof fn lemma_run_len(v: SessionView, es: Seq<EventView>)
    ensures
        run(v, es).1.len() == es.len(),
    decreases es.len(),
{
    if es.len() > 0 {
        lemma_run_len(next(v, es[0]).0, es.drop_first());
    }
}

/// Once a session is ready, failed or closed, it sends neither message
/// again and never goes back to the handshake.
proof fn lemma_no_send_after_handshake(v: SessionView, es: Seq<EventView>)
    requires
        v.state == ConnectionState::Ready || v.state is Failed || v.state
            == ConnectionState::Closed,
    ensures
        forall|i: int|
            0 <= i < run(v, es).1.len() ==> !(#[trigger] run(v, es).1[i] is SendSubscription)
                && !(run(v, es).1[i] is SendAuth),
        run(v, es).0.state == ConnectionState::Ready || run(v, es).0.state is Failed || run(
            v,
            es,
        ).0.state == ConnectionState::Closed,
    decreases es.len(),
{
    if es.len() > 0 {
        let step = next(v, es[0]);
        lemma_no_send_after_handshake(step.0, es.drop_first());
        let acts = run(v, es).1;
        assert forall|i: int| 0 <= i < acts.len() implies !(#[trigger] acts[i] is SendSubscription)
            && !(acts[i] is SendAuth) by {
            if i > 0 {
                assert(acts[i] == run(step.0, es.drop_first()).1[i - 1]);
            }
        }
    }
}

/// A failed session stays failed, with the same reason, and only stops.
proof fn lemma_failed_stays(v: SessionView, es: Seq<EventView>)
    requires
        v.state is Failed,
    ensures
        run(v, es).0.state == v.state,
    decreases es.len(),
{
    if es.len() > 0 {
        lemma_failed_stays(next(v, es[0]).0, es.drop_first());
    }
}

/// A transport that answers the upgrade request with any status but
/// `101 Switching Protocols` fails the session with a connection failure,
/// whatever comes after, and the subscription message is never sent.
pub proof fn lemma_no_upgrade_fails(v: SessionView, status: u16, rest: Seq<EventView>)
    requires
        v.state == ConnectionState::Opening,
        status != SWITCHING_PROTOCOLS,
    ensures
        run(v, seq![EventView::Connected(status)] + rest).0.state == ConnectionState::Failed(
            FailureReason::Connection,
        ),
        forall|i: int|
            0 <= i < run(v, seq![EventView::Connected(status)] + rest).1.len()
                ==> !(#[trigger] run(v, seq![EventView::Connected(status)] + rest).1[i] is SendSubscription),
{
    let e = EventView::Connected(status);
    lemma_run_cons(v, e, rest);
    let v1 = next(v, e).0;
    lemma_failed_stays(v1, rest);
    lemma_no_send_after_handshake(v1, rest);
    let acts = run(v, seq![e] + rest).1;
    assert forall|i: int| 0 <= i < acts.len() implies !(#[trigger] acts[i] is SendSubscription) by {
        if i > 0 {
            assert(acts[i] == run(v1, rest).1[i - 1]);
        }
    }
}

/// A transport that upgrades, and whose first message carries the
/// `unauthorized` marker, fails the session as rejected, whatever comes
/// after, and the subscription message is never sent.
pub proof fn lemma_unauthorized_rejected(v: SessionView, reply: Seq<char>, rest: Seq<EventView>)
    requires
        v.state == ConnectionState::Opening,
        contains(reply, "unauthorized"@),
    ensures
        ({
            let es = seq![EventView::Connected(SWITCHING_PROTOCOLS), EventView::Text(reply)] + rest;
            &&& run(v, es).0.state == ConnectionState::Failed(FailureReason::AuthRejected)
            &&& forall|i: int|
                0 <= i < run(v, es).1.len() ==> !(#[trigger] run(v, es).1[i] is SendSubscription)
        }),
{
    let e0 = EventView::Connected(SWITCHING_PROTOCOLS);
    let e1 = EventView::Text(reply);
    let es = seq![e0, e1] + rest;
    assert(es =~= seq![e0] + (seq![e1] + rest));
    lemma_run_cons(v, e0, seq![e1] + rest);
    let v1 = next(v, e0).0;
    lemma_run_cons(v1, e1, rest);
    let v2 = next(v1, e1).0;
    lemma_failed_stays(v2, rest);
    lemma_no_send_after_handshake(v2, rest);
    let acts = run(v, es).1;
    assert forall|i: int| 0 <= i < acts.len() implies !(#[trigger] acts[i] is SendSubscription) by {
        if i > 1 {
            assert(acts[i] == run(v2, rest).1[i - 2]);
        }
    }
}

/// A transport that upgrades, and whose first message carries the success
/// marker and no rejection marker, makes the session ready; the
/// subscription message is sent exactly once, right then, before any frame
/// is handed to the decoder.
pub proof fn lemma_success_subscribes_once(v: SessionView, reply: Seq<char>, rest: Seq<EventView>)
    requires
        v.state == ConnectionState::Opening,
        contains(reply, "success"@),
        !contains(reply, "unauthorized"@),
        !contains(reply, "error"@),
    ensures
        ({
            let es = seq![EventView::Connected(SWITCHING_PROTOCOLS), EventView::Text(reply)] + rest;
            let acts = run(v, es).1;
            &&& run(v, seq![EventView::Connected(SWITCHING_PROTOCOLS), EventView::Text(reply)]).0.state
                == ConnectionState::Ready
            &&& acts.len() == es.len()
            &&& acts[0] == ActionView::SendAuth(text_or_empty(v.auth_message))
            &&& acts[1] == ActionView::SendSubscription(text_or_empty(v.subscription_message))
            &&& forall|i: int| 2 <= i < acts.len() ==> !(#[trigger] acts[i] is SendSubscription)
        }),
{
    let e0 = EventView::Connected(SWITCHING_PROTOCOLS);
    let e1 = EventView::Text(reply);
    let es = seq![e0, e1] + rest;
    assert(es =~= seq![e0] + (seq![e1] + rest));
    lemma_run_cons(v, e0, seq![e1] + rest);
    let v1 = next(v, e0).0;
    lemma_run_cons(v1, e1, rest);
    let v2 = next(v1, e1).0;
    assert(v2.state == ConnectionState::Ready);
    lemma_run_len(v2, rest);
    lemma_no_send_after_handshake(v2, rest);
    let acts = run(v, es).1;
    assert forall|i: int| 2 <= i < acts.len() implies !(#[trigger] acts[i] is SendSubscription) by {
        assert(acts[i] == run(v2, rest).1[i - 2]);
    }
    let hs = seq![e0, e1];
    assert(hs =~= seq![e0] + (seq![e1] + Seq::empty()));
    lemma_run_cons(v, e0, seq![e1] + Seq::empty());
    lemma_run_cons(v1, e1, Seq::empty());
}

/// The action a ready session takes on a data frame.
pub open spec fn decode_action(e: EventView) -> ActionView {
    match e {
        EventView::Text(t) => ActionView::Decode(PayloadView::Text(t)),
        EventView::Binary(b) => ActionView::Decode(PayloadView::Binary(b)),
        _ => ActionView::Wait,
    }
}

/// A ready session hands every data frame, text or binary, to the decoder,
/// one action per frame and in the order the frames arrive; whatever the
/// frames hold, the session stays ready.
pub proof fn lemma_frames_decoded_in_order(v: SessionView, es: Seq<EventView>)
    requires
        v.state == ConnectionState::Ready,
        forall|i: int| 0 <= i < es.len() ==> #[trigger] es[i] is Text || es[i] is Binary,
    ensures
        run(v, es).0 == v,
        run(v, es).1 == es.map_values(|e: EventView| decode_action(e)),
    decreases es.len(),
{
    if es.len() > 0 {
        let rest = es.drop_first();
        assert forall|i: int| 0 <= i < rest.len() implies #[trigger] rest[i] is Text
            || rest[i] is Binary by {
            assert(rest[i] == es[i + 1]);
        }
        lemma_frames_decoded_in_order(v, rest);
        assert(run(v, es).1 =~= es.map_values(|e: EventView| decode_action(e)));
    }
}

/// A stream session, from the opening of its transport to its end.
pub struct Session {
    state: ConnectionState,
    feed_type: FeedType,
    enable_real_trading: bool,
    auth_message: Option<String>,
    subscription_message: Option<String>,
}

impl View for Session {
    type V = SessionView;

    closed spec fn view(&self) -> SessionView {
        SessionView {
            state: self.state,
            feed_type: self.feed_type,
            enable_real_trading: self.enable_real_trading,
            auth_message: match self.auth_message {
                Some(m) => Some(m@),
                None => None,
            },
            subscription_message: match self.subscription_message {
                Some(m) => Some(m@),
                None => None,
            },
        }
    }
}

fn take_text(slot: &mut Option<String>) -> (r: String)
    ensures
        *final(slot) == None::<String>,
        r@ == text_or_empty(
            match *old(slot) {
                Some(m) => Some(m@),
                None => None,
            },
        ),
{
    match slot.take() {
        Some(m) => m,
        None => String::new(),
    }
}

impl Session {
    /// A session in the `Opening` state for the given settings and
    /// subscription, holding the two messages it will send.
    pub fn new(config: &Config, params: &SubscriptionParams) -> (r: Session)
        ensures
            r@ == (SessionView {
                state: ConnectionState::Opening,
                feed_type: params.feed_type,
                enable_real_trading: config.enable_real_trading,
                auth_message: Some(
                    auth_message_text(config.alpaca_api_key@, config.alpaca_secret_key@),
                ),
                subscription_message: Some(
                    subscription_message(
                        params.subscription_request.action@,
                        params.subscription_request.channels(),
                    ),
                ),
            }),
    {
        Session {
            state: ConnectionState::Opening,
            feed_type: params.feed_type,
            enable_real_trading: config.enable_real_trading,
            auth_message: Some(
                auth_message(config.alpaca_api_key.as_str(), config.alpaca_secret_key.as_str()),
            ),
            subscription_message: Some(params.subscription_request.to_message()),
        }
    }

    /// Where the session stands.
    pub fn state(&self) -> (r: ConnectionState)
        ensures
            r == self@.state,
    {
        self.state
    }

    /// The URL to connect to. Where the session is not opening, or the
    /// URL parser refuses the stream URL, there is none; in the second
    /// case the session fails with a connection failure.
    pub fn endpoint(&mut self) -> (r: Option<url::Url>)
        ensures
            r is Some <==> old(self)@.state == ConnectionState::Opening && url_parse_accepts(
                ws_url(old(self)@.feed_type, old(self)@.enable_real_trading),
            ),
            final(self)@ == (if old(self)@.state == ConnectionState::Opening && r is None {
                SessionView { state: ConnectionState::Failed(FailureReason::Connection), ..old(self)@ }
            } else {
                old(self)@
            }),
    {
        if self.state != ConnectionState::Opening {
            return None;
        }
        let u = stream_url(self.feed_type, self.enable_real_trading);
        if u.is_none() {
            self.state = ConnectionState::Failed(FailureReason::Connection);
        }
        u
    }

    /// Takes one event and says what to do next.
    pub fn step(&mut self, event: SessionEvent) -> (a: SessionAction)
        ensures
            (final(self)@, a@) == next(old(self)@, event@),
    {
        match self.state {
            ConnectionState::Opening => match event {
                SessionEvent::Connected(status) if status == SWITCHING_PROTOCOLS => {
                    self.state = ConnectionState::Authenticating;
                    SessionAction::SendAuth(take_text(&mut self.auth_message))
                },
                _ => {
                    self.state = ConnectionState::Failed(FailureReason::Connection);
                    SessionAction::Stop
                },
            },
            ConnectionState::Authenticating => match event {
                SessionEvent::Text(t) => {
                    if contains_text(t.as_str(), "unauthorized") || contains_text(
                        t.as_str(),
                        "error",
                    ) {
                        self.state = ConnectionState::Failed(FailureReason::AuthRejected);
                        SessionAction::Stop
                    } else if contains_text(t.as_str(), "success") {
                        self.state = ConnectionState::Ready;
                        SessionAction::SendSubscription(take_text(&mut self.subscription_message))
                    } else {
                        self.state = ConnectionState::Failed(FailureReason::AuthAmbiguous);
                        SessionAction::Stop
                    }
                },
                _ => {
                    self.state = ConnectionState::Failed(FailureReason::AuthAmbiguous);
                    SessionAction::Stop
                },
            },
            ConnectionState::Ready => match event {
                SessionEvent::Text(t) => SessionAction::Decode(FramePayload::Text(t)),
                SessionEvent::Binary(b) => SessionAction::Decode(FramePayload::Binary(b)),
                SessionEvent::Closed | SessionEvent::TransportError => {
                    self.state = ConnectionState::Closed;
                    SessionAction::Stop
                },
                _ => SessionAction::Wait,
            },
            _ => SessionAction::Stop,
        }
    }
}

} // verus!
