use vstd::prelude::*;

verus! {

/// Host of the USDT-margined futures market stream.
pub const UM_STREAM_HOST: &'static str = "fstream-mm.binance.com";

/// Host of the public futures stream.
pub const FUTURES_STREAM_HOST: &'static str = "fstream.binance.com";

/// The characters that `str::to_lowercase` gives for the given characters.
pub uninterp spec fn lowercase_of(s: Seq<char>) -> Seq<char>;

/// Calls `str::to_lowercase` from std. Its result is named `lowercase_of` of the
/// argument's characters: the Unicode lowercase mapping, which the standard library
/// applies without regard to locale, is not written out here.
#[verifier::external_body]
fn lowercase(s: &str) -> (res: String)
    ensures
        res@ == lowercase_of(s@),
{
    s.to_lowercase()
}

/// Keeps every character but the underscore.
pub open spec fn not_underscore() -> spec_fn(char) -> bool {
    |c: char| c != '_'
}

/// A pair name as a stream name: lower case, with no underscore.
pub open spec fn stream_pair_of(pair: Seq<char>) -> Seq<char> {
    lowercase_of(pair).filter(not_underscore())
}

/// The address of the book-ticker stream of `pair` on `host`.
pub open spec fn book_ticker_url_of(host: Seq<char>, pair: Seq<char>) -> Seq<char> {
    "wss://"@ + host + "/stream?streams="@ + stream_pair_of(pair) + "@bookTicker"@
}

/// Removes every underscore from `s`, keeping the other characters in order.
pub fn strip_underscores(s: &str) -> (res: String)
    ensures
        res@ == s@.filter(not_underscore()),
{
    let n = s.unicode_len();
    let mut res = String::new();
    let mut i: usize = 0;
    while i < n
        invariant
            n == s@.len(),
            i <= n,
            res@ == s@.take(i as int).filter(not_underscore()),
        decreases n - i,
    {
        let c = s.get_char(i);
        proof {
            assert(s@.take(i + 1).drop_last() =~= s@.take(i as int));
            reveal_with_fuel(Seq::filter, 1);
        }
        if c != '_' {
            let piece = s.substring_char(i, i + 1);
            res.append(piece);
            assert(piece@ =~= seq![c]);
        }
        i = i + 1;
    }
    assert(s@.take(n as int) =~= s@);
    res
}

/// The stream name of a trading pair: `pair` in lower case, underscores removed
/// ("XRP_USDT" becomes "xrpusdt").
pub fn stream_pair(pair: &str) -> (res: String)
    ensures
        res@ == stream_pair_of(pair@),
{
    let lower = lowercase(pair);
    strip_underscores(lower.as_str())
}

/// The address of the book-ticker stream of `pair` on `host`:
/// `wss://{host}/stream?streams={stream pair}@bookTicker`.
pub fn book_ticker_url(host: &str, pair: &str) -> (res: String)
    ensures
        res@ == book_ticker_url_of(host@, pair@),
        res@ == "wss://"@ + host@ + "/stream?streams="@ + stream_pair_of(pair@) + "@bookTicker"@,
{
    let name = stream_pair(pair);
    let mut res = String::from_str("wss://");
    res.append(host);
    res.append("/stream?streams=");
    res.append(name.as_str());
    res.append("@bookTicker");
    res
}

/// The TLS endpoint of `host`: `{host}:443`.
pub fn tls_endpoint(host: &str) -> (res: String)
    ensures
        res@ == host@ + ":443"@,
{
    let mut res = String::from_str(host);
    res.append(":443");
    res
}

/// A stream name never holds an underscore.
pub proof fn stream_pair_has_no_underscore(pair: Seq<char>, i: int)
    requires
        0 <= i < stream_pair_of(pair).len(),
    ensures
        stream_pair_of(pair)[i] != '_',
{
    broadcast use vstd::seq_lib::group_filter_ensures;
    assert(not_underscore()(stream_pair_of(pair)[i]));
}

/// Removing underscores from a single character drops it exactly when it is an
/// underscore, and keeps it otherwise.
pub proof fn strip_single_char(c: char)
    ensures
        seq![c].filter(not_underscore()) == (if c == '_' {
            Seq::<char>::empty()
        } else {
            seq![c]
        }),
{
    reveal_with_fuel(Seq::filter, 2);
    assert(seq![c].drop_last() =~= Seq::<char>::empty());
}

/// Removing underscores from two pieces put together gives the two results put
/// together: the characters kept stay in their order.
pub proof fn strip_distributes(a: Seq<char>, b: Seq<char>)
    ensures
        (a + b).filter(not_underscore()) == a.filter(not_underscore()) + b.filter(not_underscore()),
{
    Seq::filter_distributes_over_add(a, b, not_underscore());
}

/// A text without underscores is left as it is.
pub proof fn strip_keeps_text_without_underscores(s: Seq<char>)
    requires
        forall|i: int| 0 <= i < s.len() ==> s[i] != '_',
    ensures
        s.filter(not_underscore()) == s,
    decreases s.len(),
{
    reveal_with_fuel(Seq::filter, 1);
    if s.len() > 0 {
        strip_keeps_text_without_underscores(s.drop_last());
        assert(s.drop_last().push(s.last()) =~= s);
    }
}

/// The stream part of a stream address, between `/stream?streams=` and
/// `@bookTicker`, is the pair's stream name; the address begins with
/// `wss://`, the host and `/stream?streams=`, and ends with `@bookTicker`.
pub proof fn book_ticker_url_parts(host: Seq<char>, pair: Seq<char>)
    ensures
        ({
            let url = book_ticker_url_of(host, pair);
            let start: int = 22 + host.len() as int;
            &&& url.len() == start + stream_pair_of(pair).len() + 11
            &&& url.subrange(0, 6) == "wss://"@
            &&& url.subrange(6, 6 + host.len() as int) == host
            &&& url.subrange(6 + host.len() as int, start) == "/stream?streams="@
            &&& url.subrange(start, url.len() - 11) == stream_pair_of(pair)
            &&& url.subrange(url.len() - 11, url.len() as int) == "@bookTicker"@
        }),
{
    reveal_strlit("wss://");
    reveal_strlit("/stream?streams=");
    reveal_strlit("@bookTicker");
    let url = book_ticker_url_of(host, pair);
    let start: int = 22 + host.len() as int;
    let name = stream_pair_of(pair);
    assert(url.subrange(0, 6) =~= "wss://"@);
    assert(url.subrange(6, 6 + host.len() as int) =~= host);
    assert(url.subrange(6 + host.len() as int, start) =~= "/stream?streams="@);
    assert(url.subrange(start, url.len() - 11) =~= name);
    assert(url.subrange(url.len() - 11, url.len() as int) =~= "@bookTicker"@);
}

} // verus!
