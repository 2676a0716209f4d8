use bn_bookticker::session::{on_channel_event, on_socket_event, ChannelEvent, ChannelStep, SocketEvent, SocketStep};
use bn_bookticker::stream::{
    book_ticker_url, stream_pair, strip_underscores, tls_endpoint, FUTURES_STREAM_HOST, UM_STREAM_HOST,
};

#[test]
fn stream_pair_lowers_and_drops_underscores() {
    assert_eq!(stream_pair("XRP_USDT"), "xrpusdt");
    assert_eq!(stream_pair("ETHUSDT"), "ethusdt");
    assert_eq!(stream_pair("btc_usdt_250627"), "btcusdt250627");
    assert_eq!(stream_pair(""), "");
    assert_eq!(stream_pair("___"), "");
}

#[test]
fn strip_underscores_keeps_other_characters_in_order() {
    assert_eq!(strip_underscores("a_b__c_"), "abc");
    assert_eq!(strip_underscores("ABC"), "ABC");
    assert_eq!(strip_underscores("_é_x"), "éx");
}

#[test]
fn book_ticker_url_of_usdt_margin_stream() {
    assert_eq!(
        book_ticker_url(UM_STREAM_HOST, "BTC_USDT"),
        "wss://fstream-mm.binance.com/stream?streams=btcusdt@bookTicker"
    );
    assert_eq!(
        book_ticker_url(FUTURES_STREAM_HOST, "xrpusdt"),
        "wss://fstream.binance.com/stream?streams=xrpusdt@bookTicker"
    );
}

#[test]
fn tls_endpoint_appends_port() {
    assert_eq!(tls_endpoint(FUTURES_STREAM_HOST), "fstream.binance.com:443");
}

#[test]
fn socket_text_is_forwarded() {
    match on_socket_event(SocketEvent::Text("{\"a\":1}".to_string())) {
        SocketStep::Forward(t) => assert_eq!(t, "{\"a\":1}"),
        _ => panic!("text frame not forwarded"),
    }
}

#[test]
fn socket_close_and_failure_end_with_error() {
    assert!(matches!(on_socket_event(SocketEvent::Close), SocketStep::Finish(Err(()))));
    assert!(matches!(on_socket_event(SocketEvent::Failed), SocketStep::Finish(Err(()))));
}

#[test]
fn socket_end_ends_cleanly() {
    assert!(matches!(on_socket_event(SocketEvent::Ended), SocketStep::Finish(Ok(()))));
}

#[test]
fn socket_other_frames_are_passed_over() {
    assert!(matches!(on_socket_event(SocketEvent::Binary(4)), SocketStep::Continue));
    assert!(matches!(on_socket_event(SocketEvent::Ping(0)), SocketStep::Continue));
    assert!(matches!(on_socket_event(SocketEvent::Pong(2)), SocketStep::Continue));
    assert!(matches!(on_socket_event(SocketEvent::Other), SocketStep::Continue));
}

#[test]
fn channel_events() {
    match on_channel_event(ChannelEvent::Message("m".to_string())) {
        ChannelStep::Handle(m) => assert_eq!(m, "m"),
        _ => panic!("message not handled"),
    }
    assert!(matches!(on_channel_event(ChannelEvent::Closed), ChannelStep::Stop));
    assert!(matches!(on_channel_event(ChannelEvent::Lagged(3)), ChannelStep::Skip));
}

fn run_session(events: Vec<SocketEvent>) -> (Vec<String>, Option<Result<(), ()>>) {
    let mut sent = Vec::new();
    for event in events {
        match on_socket_event(event) {
            SocketStep::Forward(t) => sent.push(t),
            SocketStep::Continue => {}
            SocketStep::Finish(r) => return (sent, Some(r)),
        }
    }
    (sent, None)
}

#[test]
fn quiet_frames_change_nothing_in_a_session() {
    let plain = vec![
        SocketEvent::Text("a".to_string()),
        SocketEvent::Text("b".to_string()),
        SocketEvent::Close,
        SocketEvent::Text("c".to_string()),
    ];
    let noisy = vec![
        SocketEvent::Ping(1),
        SocketEvent::Text("a".to_string()),
        SocketEvent::Binary(3),
        SocketEvent::Pong(0),
        SocketEvent::Text("b".to_string()),
        SocketEvent::Other,
        SocketEvent::Close,
        SocketEvent::Text("c".to_string()),
    ];
    let expected = (vec!["a".to_string(), "b".to_string()], Some(Err(())));
    assert_eq!(run_session(plain), expected);
    assert_eq!(run_session(noisy), expected);
}
