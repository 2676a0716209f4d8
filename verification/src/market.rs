use vstd::prelude::*;

verus! {

/// The exchange-information reply: the markets it lists.
pub struct BinanceResponse<T> {
    pub symbols: Vec<T>,
}

/// One USDT-margined futures market as the exchange describes it.
pub struct UsdtMarginMarket {
    pub symbol: String,
    pub pair: String,
    pub contract_type: String,
    pub delivery_date: u64,
    pub onboard_date: u64,
    pub status: String,
    pub maint_margin_percent: String,
    pub required_margin_percent: String,
    pub base_asset: String,
    pub quote_asset: String,
    pub margin_asset: String,
    pub price_precision: i64,
    pub quantity_precision: i64,
    pub base_asset_precision: i64,
    pub quote_precision: i64,
    pub underlying_type: String,
    pub trigger_protect: String,
    pub order_types: Vec<String>,
    pub time_in_force: Vec<String>,
}

/// A market that is open for trading.
pub open spec fn is_trading() -> spec_fn(UsdtMarginMarket) -> bool {
    |m: UsdtMarginMarket| m.status@ == "TRADING"@
}

/// The symbol under which a market is quoted.
pub open spec fn symbol_of() -> spec_fn(UsdtMarginMarket) -> String {
    |m: UsdtMarginMarket| m.symbol
}

/// Calls `http::StatusCode::from_u16` on the code, then `StatusCode::is_success`
/// on the status it gives. The crate documents `is_success` as "within 200-299";
/// `from_u16` accepts exactly the codes from 100 to 999 and refuses the others,
/// none of which is a success code.
#[verifier::external_body]
fn status_is_success(code: u16) -> (ok: bool)
    ensures
        ok == (200 <= code <= 299),
{
    match http::StatusCode::from_u16(code) {
        Ok(status) => status.is_success(),
        Err(_) => false,
    }
}

/// Whether an HTTP reply with this status code carries usable data: the code
/// is a success code (200 to 299).
pub fn reply_succeeded(status: u16) -> (ok: bool)
    ensures
        ok == (200 <= status <= 299),
{
    status_is_success(status)
}

/// The markets of an exchange-information reply that are open for trading,
/// in the order the reply lists them.
pub fn trading_markets(resp: BinanceResponse<UsdtMarginMarket>) -> (res: Vec<UsdtMarginMarket>)
    ensures
        res@ == resp.symbols@.filter(is_trading()),
{
    let trading = String::from_str("TRADING");
    let ghost all = resp.symbols@;
    let mut res: Vec<UsdtMarginMarket> = Vec::new();
    for m in it: resp.symbols.into_iter()
        invariant
            it.seq() == all,
            trading@ == "TRADING"@,
            res@ == all.take(it.index() as int).filter(is_trading()),
    {
        proof {
            assert(all.take(it.index() + 1).drop_last() =~= all.take(it.index() as int));
            reveal_with_fuel(Seq::filter, 1);
        }
        if m.status == trading {
            res.push(m);
        }
    }
    assert(all.take(all.len() as int) =~= all);
    res
}

/// The symbols of the given markets, one for each market, in order.
pub fn um_get_symbols(markets: &Vec<UsdtMarginMarket>) -> (res: Vec<String>)
    ensures
        res@ == markets@.map_values(symbol_of()),
{
    let mut res: Vec<String> = Vec::new();
    let mut i: usize = 0;
    while i < markets.len()
        invariant
            i <= markets.len(),
            res@ == markets@.take(i as int).map_values(symbol_of()),
        decreases markets.len() - i,
    {
        let s = markets[i].symbol.clone();
        res.push(s);
        assert(markets@.take(i + 1).map_values(symbol_of()) =~= markets@.take(i as int).map_values(
            symbol_of(),
        ).push(markets@[i as int].symbol));
        i = i + 1;
    }
    assert(markets@.take(markets.len() as int) =~= markets@);
    res
}

/// The markets kept from a reply are open for trading, every market of the
/// reply that is open for trading is kept, and nothing else is.
pub proof fn trading_markets_law(listed: Seq<UsdtMarginMarket>)
    ensures
        forall|i: int|
            0 <= i < listed.filter(is_trading()).len() ==> #[trigger] listed.filter(
                is_trading(),
            )[i].status@ == "TRADING"@,
        forall|i: int|
            0 <= i < listed.len() && listed[i].status@ == "TRADING"@ ==> listed.filter(
                is_trading(),
            ).contains(#[trigger] listed[i]),
        listed.filter(is_trading()).len() <= listed.len(),
{
    broadcast use vstd::seq_lib::group_filter_ensures;
    assert forall|i: int| 0 <= i < listed.filter(is_trading()).len() implies #[trigger] listed.filter(
        is_trading(),
    )[i].status@ == "TRADING"@ by {
        assert(is_trading()(listed.filter(is_trading())[i]));
    }
    assert forall|i: int| 0 <= i < listed.len() && listed[i].status@ == "TRADING"@ implies listed.filter(
        is_trading(),
    ).contains(#[trigger] listed[i]) by {
        assert(is_trading()(listed[i]));
    }
}

/// Every symbol taken from the trading markets of a reply is the symbol of a
/// market that the reply lists as open for trading.
pub proof fn trading_symbols_law(listed: Seq<UsdtMarginMarket>, i: int)
    requires
        0 <= i < listed.filter(is_trading()).map_values(symbol_of()).len(),
    ensures
        exists|j: int|
            0 <= j < listed.len() && #[trigger] listed[j].symbol == listed.filter(
                is_trading(),
            ).map_values(symbol_of())[i] && listed[j].status@ == "TRADING"@,
{
    broadcast use vstd::seq_lib::group_filter_ensures;
    let kept = listed.filter(is_trading());
    assert(is_trading()(kept[i]));
    filter_member_is_listed(listed, i);
    let j = choose|j: int| 0 <= j < listed.len() && #[trigger] listed[j] == kept[i];
    assert(kept.map_values(symbol_of())[i] == kept[i].symbol);
    assert(listed[j].symbol == kept.map_values(symbol_of())[i]);
}

/// Markets that are not open for trading, inserted anywhere into a reply (or
/// removed from it), leave the trading markets of the reply unchanged.
pub proof fn non_trading_markets_do_not_matter(
    before: Seq<UsdtMarginMarket>,
    extra: Seq<UsdtMarginMarket>,
    after: Seq<UsdtMarginMarket>,
)
    requires
        forall|i: int| 0 <= i < extra.len() ==> #[trigger] extra[i].status@ != "TRADING"@,
    ensures
        (before + extra + after).filter(is_trading()) == (before + after).filter(is_trading()),
{
    Seq::filter_distributes_over_add(before + extra, after, is_trading());
    Seq::filter_distributes_over_add(before, extra, is_trading());
    Seq::filter_distributes_over_add(before, after, is_trading());
    assert(extra.all(|m: UsdtMarginMarket| !is_trading()(m)));
    extra.lemma_all_neg_filter_empty(is_trading());
    assert(before.filter(is_trading()) + extra.filter(is_trading()) =~= before.filter(is_trading()));
}

proof fn filter_member_is_listed(listed: Seq<UsdtMarginMarket>, i: int)
    requires
        0 <= i < listed.filter(is_trading()).len(),
    ensures
        exists|j: int| 0 <= j < listed.len() && #[trigger] listed[j] == listed.filter(is_trading())[i],
    decreases listed.len(),
{
    reveal(Seq::filter);
    let rest = listed.drop_last();
    if i < rest.filter(is_trading()).len() {
        filter_member_is_listed(rest, i);
        let j = choose|j: int| 0 <= j < rest.len() && #[trigger] rest[j] == rest.filter(is_trading())[i];
        assert(listed[j] == rest[j]);
    } else {
        assert(listed[listed.len() - 1] == listed.filter(is_trading())[i]);
    }
}

} // verus!
