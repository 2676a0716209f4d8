use vstd::prelude::*;

verus! {

/// The market a quote belongs to.
#[derive(Clone, Copy, Debug, PartialEq, Eq, Structural)]
pub enum MarginType {
    Spot,
    UsdtMargin,
}

/// The wire code of a market kind, as carried in a quote record.
pub open spec fn margin_code(m: MarginType) -> i32 {
    match m {
        MarginType::Spot => 0,
        MarginType::UsdtMargin => 1,
    }
}

impl From<MarginType> for i32 {
    fn from(m: MarginType) -> (code: i32) {
        match m {
            MarginType::Spot => 0,
            MarginType::UsdtMargin => 1,
        }
    }
}

impl vstd::std_specs::convert::FromSpecImpl<MarginType> for i32 {
    open spec fn obeys_from_spec() -> bool {
        true
    }

    open spec fn from_spec(m: MarginType) -> i32 {
        margin_code(m)
    }
}

/// Distinct market kinds are carried under distinct codes.
pub proof fn margin_code_injective(a: MarginType, b: MarginType)
    ensures
        margin_code(a) == margin_code(b) <==> a == b,
{
}

/// One quote of a pair as the book keeps it: the market kind's code, the time
/// of the quote in milliseconds since the epoch, and the best bid and ask
/// prices as the exchange wrote them.
pub struct PairBookTicker {
    pub margin_type: i32,
    pub timestamp: u64,
    pub bid: String,
    pub ask: String,
}

impl View for PairBookTicker {
    /// The code, the time stamp, and the bid and ask prices' characters.
    type V = (i32, u64, Seq<char>, Seq<char>);

    open spec fn view(&self) -> (i32, u64, Seq<char>, Seq<char>) {
        (self.margin_type, self.timestamp, self.bid@, self.ask@)
    }
}

/// The payload of a spot book-ticker stream message.
pub struct BnSpotBookTickerData {
    pub id: u64,
    pub pair: String,
    pub bid_price: String,
    pub bid_size: String,
    pub ask_price: String,
    pub ask_size: String,
}

/// A spot book-ticker stream message: the stream's name and its payload.
pub struct BnSpotBookTickerMessage {
    pub stream: String,
    pub data: BnSpotBookTickerData,
}

/// The payload of a USDT-margined book-ticker stream message.
pub struct BnUmBookTickerData {
    pub event: String,
    pub id: u64,
    pub pair: String,
    pub bid_price: String,
    pub bid_size: String,
    pub ask_price: String,
    pub ask_size: String,
    pub trade_time: u64,
    pub event_time: u64,
}

/// A USDT-margined book-ticker stream message: the stream's name and its payload.
pub struct BnUmBookTickerMessage {
    pub stream: String,
    pub data: BnUmBookTickerData,
}

/// Reads the system clock with `std::time::SystemTime::now`, converts the
/// reading with chrono's `From<SystemTime> for DateTime<Utc>` (which also takes
/// readings before the epoch, as negative times), and calls
/// `DateTime::timestamp_millis` on it: the current time in milliseconds since
/// the epoch, negative before it. It reads the clock, so nothing is stated of
/// the value. The conversion refuses only readings beyond about 262,000 years
/// from the epoch, which the system clock, kept in signed 64-bit nanoseconds,
/// cannot hold.
#[verifier::external_body]
pub(crate) fn now_millis() -> (ms: i64) {
    chrono::DateTime::<chrono::Utc>::from(std::time::SystemTime::now()).timestamp_millis()
}

/// `ms` is a reading of the millisecond clock: a value that a call of
/// `now_millis` handed back.
pub closed spec fn clock_read(ms: i64) -> bool {
    call_ensures(now_millis, (), ms)
}

/// Reads the millisecond clock; the reading is marked as such.
pub(crate) fn read_clock() -> (ms: i64)
    ensures
        clock_read(ms),
{
    let clock = now_millis;
    clock()
}

/// The quote of a spot message received when the clock read `now_ms`.
pub open spec fn spot_ticker_of(msg: BnSpotBookTickerMessage, now_ms: i64) -> PairBookTicker {
    PairBookTicker {
        margin_type: margin_code(MarginType::Spot),
        timestamp: now_ms as u64,
        bid: msg.data.bid_price,
        ask: msg.data.ask_price,
    }
}

/// The quote of a USDT-margined message: stamped with its event time.
pub open spec fn um_ticker_of(msg: BnUmBookTickerMessage) -> PairBookTicker {
    PairBookTicker {
        margin_type: margin_code(MarginType::UsdtMargin),
        timestamp: msg.data.event_time,
        bid: msg.data.bid_price,
        ask: msg.data.ask_price,
    }
}

/// The book entry of a spot message received when the clock read `now_ms`:
/// keyed by the message's pair, stamped with that time (as an unsigned count of
/// milliseconds), carrying the message's bid and ask prices.
pub fn spot_book_entry(msg: &BnSpotBookTickerMessage, now_ms: i64) -> (entry: (String, PairBookTicker))
    ensures
        entry.0 == msg.data.pair,
        entry.1 == spot_ticker_of(*msg, now_ms),
        entry.1.margin_type == margin_code(MarginType::Spot),
        entry.1.timestamp == now_ms as u64,
        entry.1.bid@ == msg.data.bid_price@,
        entry.1.ask@ == msg.data.ask_price@,
{
    let ticker = PairBookTicker {
        margin_type: i32::from(MarginType::Spot),
        timestamp: now_ms as u64,
        bid: msg.data.bid_price.clone(),
        ask: msg.data.ask_price.clone(),
    };
    (msg.data.pair.clone(), ticker)
}

/// The book entry of a USDT-margined message: keyed by the message's pair,
/// stamped with the message's event time, carrying its bid and ask prices.
pub fn um_book_entry(msg: &BnUmBookTickerMessage) -> (entry: (String, PairBookTicker))
    ensures
        entry.0 == msg.data.pair,
        entry.1 == um_ticker_of(*msg),
        entry.1.margin_type == margin_code(MarginType::UsdtMargin),
        entry.1.timestamp == msg.data.event_time,
        entry.1.bid@ == msg.data.bid_price@,
        entry.1.ask@ == msg.data.ask_price@,
{
    let ticker = PairBookTicker {
        margin_type: i32::from(MarginType::UsdtMargin),
        timestamp: msg.data.event_time,
        bid: msg.data.bid_price.clone(),
        ask: msg.data.ask_price.clone(),
    };
    (msg.data.pair.clone(), ticker)
}

} // verus!
