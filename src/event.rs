//! Decoding of inbound wire records into typed market events.

use vstd::prelude::*;

verus! {

/// A price, held as the bit pattern of an IEEE-754 binary64 number.
#[derive(Clone, Copy, Debug, PartialEq, Eq, Structural)]
pub struct Price {
    pub bits: u64,
}

impl Price {
    /// The price zero: the binary64 value +0.0, whose bits are all clear.
    pub fn zero() -> (r: Price)
        ensures
            r.bits == 0,
    {
        Price { bits: 0 }
    }
}

/// One level of an order book: a price and the size offered at it.
pub type BookLevel = (Price, u64);

/// A typed market-data event.
#[derive(Clone, Debug, PartialEq)]
pub enum EventType {
    Trade { symbol: String, price: Price, volume: u64, timestamp: String },
    Quote {
        symbol: String,
        bid_price: Price,
        ask_price: Price,
        bid_size: u64,
        ask_size: u64,
        timestamp: String,
    },
    Bar {
        symbol: String,
        open: Price,
        high: Price,
        low: Price,
        close: Price,
        volume: u64,
        timestamp: String,
    },
    UpdatedBar {
        symbol: String,
        open: Price,
        high: Price,
        low: Price,
        close: Price,
        volume: u64,
        timestamp: String,
    },
    DailyBar {
        symbol: String,
        open: Price,
        high: Price,
        low: Price,
        close: Price,
        volume: u64,
        timestamp: String,
    },
    OrderBook { symbol: String, bids: Vec<BookLevel>, asks: Vec<BookLevel>, timestamp: String },
}

/// One record of an inbound frame, with the fields of every record shape;
/// a field the record does not carry is `None`. The wire key of each field
/// is given beside it.
pub struct RawRecord {
    /// `T`: the one-letter discriminator.
    pub kind: Option<String>,
    /// `S`
    pub symbol: Option<String>,
    /// `t`
    pub timestamp: Option<String>,
    /// `p`
    pub price: Option<Price>,
    /// `s`
    pub size: Option<u64>,
    /// `bp`
    pub bid_price: Option<Price>,
    /// `bs`
    pub bid_size: Option<u64>,
    /// `ap`
    pub ask_price: Option<Price>,
    /// `as`
    pub ask_size: Option<u64>,
    /// `o`
    pub open: Option<Price>,
    /// `h`
    pub high: Option<Price>,
    /// `l`
    pub low: Option<Price>,
    /// `c`
    pub close: Option<Price>,
    /// `v`
    pub volume: Option<u64>,
    /// `bids`
    pub bids: Option<Vec<BookLevel>>,
    /// `asks`
    pub asks: Option<Vec<BookLevel>>,
}

/// Why a frame, or one record of it, could not be decoded.
#[derive(Clone, Copy, Debug, PartialEq, Eq, Structural)]
pub enum DecodeError {
    /// The frame held an empty array of records.
    EmptyEventList,
    /// The frame was not a JSON array of records.
    MalformedFrame,
    /// A record did not have the shape of a wire record.
    MalformedRecord,
    /// A record lacked its discriminator, symbol or timestamp.
    MissingField,
    /// A record's discriminator names no known event type.
    UnknownEventType,
}

impl DecodeError {
    /// A short description of the error.
    pub fn message(&self) -> (r: &'static str)
        ensures
            r@ == self.message_spec(),
    {
        match self {
            DecodeError::EmptyEventList => "empty event list",
            DecodeError::MalformedFrame => "malformed frame",
            DecodeError::MalformedRecord => "malformed record",
            DecodeError::MissingField => "missing field",
            DecodeError::UnknownEventType => "unknown event type",
        }
    }

    pub open spec fn message_spec(&self) -> Seq<char> {
        match self {
            DecodeError::EmptyEventList => "empty event list"@,
            DecodeError::MalformedFrame => "malformed frame"@,
            DecodeError::MalformedRecord => "malformed record"@,
            DecodeError::MissingField => "missing field"@,
            DecodeError::UnknownEventType => "unknown event type"@,
        }
    }
}

/// A price field, zero when absent.
pub open spec fn price_or_zero(p: Option<Price>) -> Price {
    match p {
        Some(x) => x,
        None => Price { bits: 0 },
    }
}

/// A size field, zero when absent.
pub open spec fn size_or_zero(s: Option<u64>) -> u64 {
    match s {
        Some(x) => x,
        None => 0,
    }
}

/// An order-book side, empty when absent.
pub open spec fn levels_or_empty(l: Option<Vec<BookLevel>>) -> Seq<BookLevel> {
    match l {
        Some(v) => v@,
        None => Seq::empty(),
    }
}

/// The discriminators of the six event types.
pub open spec fn is_known_kind(k: Seq<char>) -> bool {
    k == seq!['t'] || k == seq!['q'] || k == seq!['b'] || k == seq!['u'] || k == seq!['d']
        || k == seq!['o']
}

/// `ev` is the event of kind `k` that record `r` carries, with absent
/// numeric fields read as zero and absent book sides as empty.
pub open spec fn event_of(k: Seq<char>, r: RawRecord, ev: EventType) -> bool {
    let symbol = r.symbol->Some_0;
    let timestamp = r.timestamp->Some_0;
    let open = price_or_zero(r.open);
    let high = price_or_zero(r.high);
    let low = price_or_zero(r.low);
    let close = price_or_zero(r.close);
    let volume = size_or_zero(r.volume);
    if k == seq!['t'] {
        ev == EventType::Trade {
            symbol,
            price: price_or_zero(r.price),
            volume: size_or_zero(r.size),
            timestamp,
        }
    } else if k == seq!['q'] {
        ev == EventType::Quote {
            symbol,
            bid_price: price_or_zero(r.bid_price),
            ask_price: price_or_zero(r.ask_price),
            bid_size: size_or_zero(r.bid_size),
            ask_size: size_or_zero(r.ask_size),
            timestamp,
        }
    } else if k == seq!['b'] {
        ev == EventType::Bar { symbol, open, high, low, close, volume, timestamp }
    } else if k == seq!['u'] {
        ev == EventType::UpdatedBar { symbol, open, high, low, close, volume, timestamp }
    } else if k == seq!['d'] {
        ev == EventType::DailyBar { symbol, open, high, low, close, volume, timestamp }
    } else {
        &&& ev matches EventType::OrderBook { symbol: s, bids, asks, timestamp: t }
        &&& s == symbol && t == timestamp
        &&& bids@ == levels_or_empty(r.bids)
        &&& asks@ == levels_or_empty(r.asks)
    }
}

/// `out` is the outcome of decoding one record: the record's event, or the
/// error that the record alone causes.
pub open spec fn record_outcome(rec: Option<RawRecord>, out: Result<EventType, DecodeError>) -> bool {
    match rec {
        None => out == Err::<EventType, DecodeError>(DecodeError::MalformedRecord),
        Some(r) => match r.kind {
            None => out == Err::<EventType, DecodeError>(DecodeError::MissingField),
            Some(k) => if !is_known_kind(k@) {
                out == Err::<EventType, DecodeError>(DecodeError::UnknownEventType)
            } else if r.symbol is None || r.timestamp is None {
                out == Err::<EventType, DecodeError>(DecodeError::MissingField)
            } else {
                out matches Ok(ev) && event_of(k@, r, ev)
            },
        },
    }
}

/// The one character of a one-character string.
fn sole_char(s: &String) -> (r: Option<char>)
    ensures
        r == (if s@.len() == 1 {
            Some(s@[0])
        } else {
            None::<char>
        }),
{
    let t = s.as_str();
    if t.unicode_len() == 1 {
        Some(t.get_char(0))
    } else {
        None
    }
}

fn price_field(p: Option<Price>) -> (r: Price)
    ensures
        r == price_or_zero(p),
{
    match p {
        Some(x) => x,
        None => Price::zero(),
    }
}

fn size_field(s: Option<u64>) -> (r: u64)
    ensures
        r == size_or_zero(s),
{
    match s {
        Some(x) => x,
        None => 0,
    }
}

fn levels_field(l: Option<Vec<BookLevel>>) -> (r: Vec<BookLevel>)
    ensures
        r@ == levels_or_empty(l),
{
    match l {
        Some(v) => v,
        None => Vec::new(),
    }
}

impl EventType {
    /// Decodes one record of a frame.
    pub fn from_record(rec: Option<RawRecord>) -> (out: Result<EventType, DecodeError>)
        ensures
            record_outcome(rec, out),
    {
        let r = match rec {
            None => return Err(DecodeError::MalformedRecord),
            Some(r) => r,
        };
        let tag = match &r.kind {
            None => return Err(DecodeError::MissingField),
            Some(k) => sole_char(k),
        };
        let c = match tag {
            Some(c) if c == 't' || c == 'q' || c == 'b' || c == 'u' || c == 'd' || c == 'o' => c,
            _ => return Err(DecodeError::UnknownEventType),
        };
        assert(r.kind->Some_0@ =~= seq![c]);
        let RawRecord {
            kind: _,
            symbol,
            timestamp,
            price,
            size,
            bid_price,
            bid_size,
            ask_price,
            ask_size,
            open,
            high,
            low,
            close,
            volume,
            bids,
            asks,
        } = r;
        let (symbol, timestamp) = match (symbol, timestamp) {
            (Some(s), Some(t)) => (s, t),
            _ => return Err(DecodeError::MissingField),
        };
        let ev = if c == 't' {
            EventType::Trade {
                symbol,
                price: price_field(price),
                volume: size_field(size),
                timestamp,
            }
        } else if c == 'q' {
            EventType::Quote {
                symbol,
                bid_price: price_field(bid_price),
                ask_price: price_field(ask_price),
                bid_size: size_field(bid_size),
                ask_size: size_field(ask_size),
                timestamp,
            }
        } else if c == 'b' {
            EventType::Bar {
                symbol,
                open: price_field(open),
                high: price_field(high),
                low: price_field(low),
                close: price_field(close),
                volume: size_field(volume),
                timestamp,
            }
        } else if c == 'u' {
            EventType::UpdatedBar {
                symbol,
                open: price_field(open),
                high: price_field(high),
                low: price_field(low),
                close: price_field(close),
                volume: size_field(volume),
                timestamp,
            }
        } else if c == 'd' {
            EventType::DailyBar {
                symbol,
                open: price_field(open),
                high: price_field(high),
                low: price_field(low),
                close: price_field(close),
                volume: size_field(volume),
                timestamp,
            }
        } else {
            EventType::OrderBook {
                symbol,
                bids: levels_field(bids),
                asks: levels_field(asks),
                timestamp,
            }
        };
        Ok(ev)
    }

    /// Decodes the records of one frame, each on its own: a record that
    /// fails gives an error in its place and the others still decode. A
    /// frame with no record is itself an error.
    pub fn from_records(records: Vec<Option<RawRecord>>) -> (r: Result<
        Vec<Result<EventType, DecodeError>>,
        DecodeError,
    >)
        ensures
            r is Err <==> records@.len() == 0,
            r is Err ==> r->Err_0 == DecodeError::EmptyEventList,
            r matches Ok(outs) ==> outs@.len() == records@.len() && forall|i: int|
                0 <= i < records@.len() ==> record_outcome(records@[i], #[trigger] outs@[i]),
    {
        if records.len() == 0 {
            return Err(DecodeError::EmptyEventList);
        }
        let ghost all = records@;
        let mut outs: Vec<Result<EventType, DecodeError>> = Vec::new();
        for rec in it: records.into_iter()
            invariant
                it.seq() == all,
                outs@.len() == it.index(),
                forall|j: int| 0 <= j < it.index() ==> record_outcome(all[j], #[trigger] outs@[j]),
        {
            outs.push(EventType::from_record(rec));
        }
        Ok(outs)
    }

    /// Decodes a frame given as its records, or as `None` where the frame
    /// was not a JSON array of records.
    pub fn from_frame(frame: Option<Vec<Option<RawRecord>>>) -> (r: Result<
        Vec<Result<EventType, DecodeError>>,
        DecodeError,
    >)
        ensures
            frame is None ==> r == Err::<Vec<Result<EventType, DecodeError>>, DecodeError>(
                DecodeError::MalformedFrame,
            ),
            frame matches Some(records) ==> {
                &&& r is Err <==> records@.len() == 0
                &&& r is Err ==> r->Err_0 == DecodeError::EmptyEventList
                &&& r matches Ok(outs) ==> outs@.len() == records@.len() && forall|i: int|
                    0 <= i < records@.len() ==> record_outcome(records@[i], #[trigger] outs@[i])
            },
    {
        match frame {
            None => Err(DecodeError::MalformedFrame),
            Some(records) => EventType::from_records(records),
        }
    }
}

} // verus!
