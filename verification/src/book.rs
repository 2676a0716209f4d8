use vstd::prelude::*;

use std::sync::Arc;

use dashmap::DashMap;

use crate::ticker::{
    clock_read, read_clock, spot_book_entry, spot_ticker_of, um_book_entry, um_ticker_of, BnSpotBookTickerMessage, BnUmBookTickerMessage,
    PairBookTicker,
};

verus! {

#[verifier::external_type_specification]
#[verifier::external_body]
#[verifier::reject_recursive_types(K)]
#[verifier::reject_recursive_types(V)]
#[verifier::reject_recursive_types(S)]
pub struct ExDashMap<K, V, S>(dashmap::DashMap<K, V, S>);

/// Quotes a book marks stale once they are older than this many milliseconds.
pub const STALE_AFTER_MS: i128 = 60000;

/// The capacity a book was made with: the number of entries it was asked to
/// hold room for when it was created.
pub uninterp spec fn made_with_capacity(book: DashMap<String, PairBookTicker>) -> nat;

/// What a book holds at a moment of its life: pair name to quote. Moment 0 is
/// its creation; each write moves it to the next moment. Tasks write the same
/// book at once through shared references, so a book's value fixes only its
/// history, and every read or write is stated to happen at some moment of it.
pub uninterp spec fn book_at(book: DashMap<String, PairBookTicker>, moment: nat) -> Map<
    Seq<char>,
    (i32, u64, Seq<char>, Seq<char>),
>;

/// The time stamp of the quote held under `pair`, if any.
pub open spec fn stamp_in(contents: Map<Seq<char>, (i32, u64, Seq<char>, Seq<char>)>, pair: Seq<char>) -> Option<u64> {
    if contents.contains_key(pair) {
        Some(contents[pair].1)
    } else {
        None
    }
}

/// A book that holds no quote.
pub open spec fn no_quotes() -> Map<Seq<char>, (i32, u64, Seq<char>, Seq<char>)> {
    Map::empty()
}

/// `replaced` is what `contents` held under `pair`: the quote there, or none.
pub open spec fn held_before(replaced: Option<PairBookTicker>, contents: Map<Seq<char>, (i32, u64, Seq<char>, Seq<char>)>, pair: Seq<char>) -> bool {
    match replaced {
        Some(q) => contents.contains_key(pair) && contents[pair] == q@,
        None => !contents.contains_key(pair),
    }
}

/// At moment `m` the book took `ticker` under `pair`: its contents at the next
/// moment are those at `m` with `ticker` under `pair`, and `replaced` is what it
/// held under `pair` at `m`.
pub open spec fn inserted_at(
    book: DashMap<String, PairBookTicker>,
    m: nat,
    pair: Seq<char>,
    ticker: (i32, u64, Seq<char>, Seq<char>),
    replaced: Option<PairBookTicker>,
) -> bool {
    &&& book_at(book, m + 1) == book_at(book, m).insert(pair, ticker)
    &&& held_before(replaced, book_at(book, m), pair)
}

/// Calls `DashMap::with_capacity`: a new concurrent map with room for
/// `capacity` entries, empty at its creation.
#[verifier::external_body]
fn new_book(capacity: usize) -> (book: DashMap<String, PairBookTicker>)
    ensures
        made_with_capacity(book) == capacity as nat,
        book_at(book, 0) == no_quotes(),
{
    DashMap::with_capacity(capacity)
}

/// Calls `DashMap::insert`, which locks the shard of `pair`, stores `ticker`
/// under it and hands back the quote it replaced. So at some moment the book
/// goes from its contents then to those contents with `ticker` under `pair`,
/// and the replaced quote is what it held under `pair` just before.
#[verifier::external_body]
fn book_insert(book: &DashMap<String, PairBookTicker>, pair: String, ticker: PairBookTicker) -> (replaced: Option<PairBookTicker>)
    ensures
        exists|m: nat| #[trigger] inserted_at(*book, m, pair@, ticker@, replaced),
{
    book.insert(pair, ticker)
}

/// Calls `DashMap::get`, which locks the shard of `pair` and reads it, and
/// hands out the time stamp of the quote found under `pair`, if any: the stamp
/// the book held under `pair` at some moment.
#[verifier::external_body]
fn book_timestamp(book: &DashMap<String, PairBookTicker>, pair: &String) -> (t: Option<u64>)
    ensures
        exists|m: nat| t == stamp_in(#[trigger] book_at(*book, m), pair@),
{
    book.get(pair).map(|quote| quote.timestamp)
}

/// The shared quote book of the spot market, keyed by pair.
pub struct SpotBookTickers {
    pub data: Arc<DashMap<String, PairBookTicker>>,
}

impl SpotBookTickers {
    /// A new spot book with room for `capacity` pairs, empty at its creation.
    pub fn with_capacity(capacity: usize) -> (res: Self)
        ensures
            made_with_capacity(*res.data) == capacity as nat,
            book_at(*res.data, 0) == no_quotes(),
    {
        SpotBookTickers { data: Arc::new(new_book(capacity)) }
    }
}

/// The shared quote book of the USDT-margined market, keyed by pair.
pub struct UsdtMarginBookTickers {
    pub data: Arc<DashMap<String, PairBookTicker>>,
}

impl UsdtMarginBookTickers {
    /// A new USDT-margined book with room for `capacity` pairs, empty at its
    /// creation.
    pub fn with_capacity(capacity: usize) -> (res: Self)
        ensures
            made_with_capacity(*res.data) == capacity as nat,
            book_at(*res.data, 0) == no_quotes(),
    {
        UsdtMarginBookTickers { data: Arc::new(new_book(capacity)) }
    }
}

/// Both quote books.
pub struct AllBookTickers {
    pub spot: SpotBookTickers,
    pub usdt_margin: UsdtMarginBookTickers,
}

impl Default for AllBookTickers {
    /// Two new books, each made with room for 256 pairs and empty at creation.
    fn default() -> (all: Self)
        ensures
            made_with_capacity(*all.spot.data) == 256,
            made_with_capacity(*all.usdt_margin.data) == 256,
            book_at(*all.spot.data, 0) == no_quotes(),
            book_at(*all.usdt_margin.data, 0) == no_quotes(),
    {
        AllBookTickers {
            spot: SpotBookTickers::with_capacity(256),
            usdt_margin: UsdtMarginBookTickers::with_capacity(256),
        }
    }
}

/// Stores the quote of a spot message in the spot book under the message's
/// pair, stamped with the clock as read during the call.
pub fn record_spot(book: &SpotBookTickers, msg: &BnSpotBookTickerMessage)
    ensures
        exists|now_ms: i64, m: nat|
            #![trigger spot_ticker_of(*msg, now_ms), book_at(*book.data, m)]
            clock_read(now_ms) && book_at(*book.data, m).contains_key(msg.data.pair@) && book_at(
                *book.data,
                m,
            )[msg.data.pair@] == spot_ticker_of(*msg, now_ms)@,
{
    let now = read_clock();
    let (pair, ticker) = spot_book_entry(msg, now);
    let replaced = book_insert(&book.data, pair, ticker);
    let ghost m = choose|m: nat| #[trigger] inserted_at(*book.data, m, msg.data.pair@, spot_ticker_of(*msg, now)@, replaced);
    assert(book_at(*book.data, (m + 1) as nat).contains_key(msg.data.pair@));
}

/// Stores the quote of a USDT-margined message in its book under the
/// message's pair, stamped with the message's event time.
pub fn record_usdt_margin(book: &UsdtMarginBookTickers, msg: &BnUmBookTickerMessage)
    ensures
        exists|m: nat|
            #![trigger book_at(*book.data, m)]
            book_at(*book.data, m).contains_key(msg.data.pair@) && book_at(*book.data, m)[msg.data.pair@]
                == um_ticker_of(*msg)@,
{
    let (pair, ticker) = um_book_entry(msg);
    let replaced = book_insert(&book.data, pair, ticker);
    let ghost m = choose|m: nat| #[trigger] inserted_at(*book.data, m, msg.data.pair@, um_ticker_of(*msg)@, replaced);
    assert(book_at(*book.data, (m + 1) as nat).contains_key(msg.data.pair@));
}

/// How recent the quote of a pair is.
#[derive(Clone, Copy, Debug, PartialEq, Eq, Structural)]
pub enum Freshness {
    /// The book holds no quote for the pair.
    Missing,
    /// The quote is this many milliseconds old, no more than `STALE_AFTER_MS`.
    Fresh(i128),
    /// The quote is this many milliseconds old, more than `STALE_AFTER_MS`.
    Stale(i128),
}

/// The freshness of a quote stamped `timestamp` (none if the pair has no quote)
/// when the clock reads `now_ms`.
pub open spec fn freshness_of(timestamp: Option<u64>, now_ms: i64) -> Freshness {
    match timestamp {
        None => Freshness::Missing,
        Some(t) => {
            let lag = now_ms - t;
            if lag > STALE_AFTER_MS {
                Freshness::Stale(lag as i128)
            } else {
                Freshness::Fresh(lag as i128)
            }
        },
    }
}

/// The freshness of a quote stamped `timestamp` (none if the pair has no quote)
/// when the clock reads `now_ms`: its age is `now_ms - timestamp`, and it is
/// stale when that age exceeds `STALE_AFTER_MS`.
pub fn classify_quote(timestamp: Option<u64>, now_ms: i64) -> (f: Freshness)
    ensures
        f == freshness_of(timestamp, now_ms),
{
    match timestamp {
        None => Freshness::Missing,
        Some(t) => {
            let now = now_ms as i128;
            let event = t as i128;
            let lag = now.checked_sub(event).unwrap_or_default();
            if lag > STALE_AFTER_MS {
                Freshness::Stale(lag)
            } else {
                Freshness::Fresh(lag)
            }
        },
    }
}

/// The audit of one pair: its name and how recent its quote is.
pub struct SymbolAudit {
    pub symbol: String,
    pub freshness: Freshness,
}

/// The audit of `symbols` when the book gave the quote time stamps `stamps`
/// (none where it held no quote), with the clock at `now_ms`: one entry per
/// pair, in order, naming the pair and giving the freshness of its stamp.
pub open spec fn audit_of(symbols: Seq<String>, stamps: Seq<Option<u64>>, now_ms: i64) -> Seq<SymbolAudit> {
    Seq::new(
        symbols.len(),
        |i: int| SymbolAudit { symbol: symbols[i], freshness: freshness_of(stamps[i], now_ms) },
    )
}

/// Pairs every symbol with the freshness of its looked-up time stamp:
/// `res[i]` names `symbols[i]` and gives the freshness of `stamps[i]` at
/// `now_ms`.
pub fn audit_of_stamps(symbols: &Vec<String>, stamps: &Vec<Option<u64>>, now_ms: i64) -> (res: Vec<SymbolAudit>)
    requires
        stamps@.len() == symbols@.len(),
    ensures
        res@ == audit_of(symbols@, stamps@, now_ms),
{
    let mut res: Vec<SymbolAudit> = Vec::new();
    let mut i: usize = 0;
    while i < symbols.len()
        invariant
            stamps@.len() == symbols@.len(),
            i <= symbols.len(),
            res@ == audit_of(symbols@.take(i as int), stamps@, now_ms),
        decreases symbols.len() - i,
    {
        let freshness = classify_quote(stamps[i], now_ms);
        res.push(SymbolAudit { symbol: symbols[i].clone(), freshness });
        assert(res@ =~= audit_of(symbols@.take(i + 1), stamps@, now_ms));
        i = i + 1;
    }
    assert(symbols@.take(symbols.len() as int) =~= symbols@);
    res
}

/// The stamps `stamps` are what `book` held under the pairs `symbols`, each
/// at some moment of its own.
pub open spec fn stamps_read_from(book: DashMap<String, PairBookTicker>, symbols: Seq<String>, stamps: Seq<Option<u64>>) -> bool {
    &&& stamps.len() == symbols.len()
    &&& forall|i: int|
        0 <= i < stamps.len() ==> exists|m: nat| #[trigger] stamps[i] == stamp_in(book_at(book, m), symbols[i]@)
}

/// Audits every pair of `symbols` against `book` with the clock at `now_ms`:
/// one entry per pair, in order, each the freshness of the quote the book held
/// for that pair when it was looked up.
pub fn audit_book(symbols: &Vec<String>, book: &DashMap<String, PairBookTicker>, now_ms: i64) -> (res: Vec<SymbolAudit>)
    ensures
        exists|stamps: Seq<Option<u64>>|
            stamps_read_from(*book, symbols@, stamps) && res@ == #[trigger] audit_of(symbols@, stamps, now_ms),
{
    let mut stamps: Vec<Option<u64>> = Vec::new();
    let mut i: usize = 0;
    while i < symbols.len()
        invariant
            i <= symbols.len(),
            stamps_read_from(*book, symbols@.take(i as int), stamps@),
        decreases symbols.len() - i,
    {
        let t = book_timestamp(book, &symbols[i]);
        let ghost prev = stamps@;
        stamps.push(t);
        assert forall|j: int| 0 <= j < stamps@.len() implies exists|m: nat| #[trigger] stamps@[j]
            == stamp_in(book_at(*book, m), symbols@.take(i + 1)[j]@) by {
            assert(symbols@.take(i + 1)[j] == symbols@[j]);
            if j < i {
                assert(stamps@[j] == prev[j]);
                assert(symbols@.take(i as int)[j] == symbols@[j]);
            }
        }
        i = i + 1;
    }
    assert(symbols@.take(symbols.len() as int) =~= symbols@);
    audit_of_stamps(symbols, &stamps, now_ms)
}

/// Audits every pair of `symbols` against `book` with the clock read once, now.
pub fn audit_book_now(symbols: &Vec<String>, book: &DashMap<String, PairBookTicker>) -> (res: Vec<SymbolAudit>)
    ensures
        exists|now_ms: i64, stamps: Seq<Option<u64>>|
            #![trigger clock_read(now_ms), audit_of(symbols@, stamps, now_ms)]
            clock_read(now_ms) && stamps_read_from(*book, symbols@, stamps) && res@ == audit_of(
                symbols@,
                stamps,
                now_ms,
            ),
{
    let now = read_clock();
    audit_book(symbols, book, now)
}

/// A quote is missing exactly when the book holds none; a held quote is stale
/// exactly when its age exceeds `STALE_AFTER_MS`, and its reported age is the
/// clock minus its time stamp.
pub proof fn freshness_law(timestamp: Option<u64>, now_ms: i64)
    ensures
        (freshness_of(timestamp, now_ms) is Missing) <==> timestamp is None,
        timestamp matches Some(t) ==> ((freshness_of(timestamp, now_ms) is Stale) <==> now_ms - t > STALE_AFTER_MS),
        timestamp matches Some(t) ==> (freshness_of(timestamp, now_ms) matches Freshness::Fresh(lag) ==> lag == now_ms - t),
        timestamp matches Some(t) ==> (freshness_of(timestamp, now_ms) matches Freshness::Stale(lag) ==> lag == now_ms - t),
{
}

/// Entry `i` of an audit names `symbols[i]` and, for the stamp read for it at
/// the clock reading `now_ms`: no stamp gives Missing; a stamp `t` gives the age
/// `now_ms - t`, Stale when that age exceeds 60000 ms and Fresh otherwise.
pub proof fn audit_entry_law(symbols: Seq<String>, stamps: Seq<Option<u64>>, now_ms: i64, i: int)
    requires
        0 <= i < symbols.len(),
        stamps.len() == symbols.len(),
    ensures
        audit_of(symbols, stamps, now_ms).len() == symbols.len(),
        audit_of(symbols, stamps, now_ms)[i].symbol == symbols[i],
        stamps[i] is None ==> audit_of(symbols, stamps, now_ms)[i].freshness == Freshness::Missing,
        stamps[i] matches Some(t) ==> (now_ms - t > 60000 ==> audit_of(symbols, stamps, now_ms)[i].freshness
            == Freshness::Stale((now_ms - t) as i128)),
        stamps[i] matches Some(t) ==> (now_ms - t <= 60000 ==> audit_of(symbols, stamps, now_ms)[i].freshness
            == Freshness::Fresh((now_ms - t) as i128)),
{
}

/// A spot quote stamped with a clock reading at or after the epoch is fresh,
/// with age zero, when audited at that same reading.
pub proof fn spot_quote_fresh_at_its_reading(msg: BnSpotBookTickerMessage, now_ms: i64)
    requires
        now_ms >= 0,
    ensures
        freshness_of(Some(spot_ticker_of(msg, now_ms).timestamp), now_ms) == Freshness::Fresh(0),
{
}

/// A quote that is stale stays stale as the clock moves on.
pub proof fn staleness_persists(t: u64, earlier_ms: i64, later_ms: i64)
    requires
        earlier_ms <= later_ms,
        freshness_of(Some(t), earlier_ms) is Stale,
    ensures
        freshness_of(Some(t), later_ms) is Stale,
{
}

/// A USDT-margined quote built from a message is fresh, with age zero, when
/// audited at the message's own event time.
pub proof fn stored_quote_fresh_at_its_event_time(msg: BnUmBookTickerMessage)
    requires
        msg.data.event_time <= i64::MAX,
    ensures
        freshness_of(Some(um_ticker_of(msg).timestamp), msg.data.event_time as i64) == Freshness::Fresh(0),
{
}

} // verus!
