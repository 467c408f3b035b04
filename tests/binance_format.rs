use market_feed::binance::{
    decimal, taker_side, BinanceParser, MessageKind, BINANCE_WSS_BASE_ENDPOINT,
    BINANCE_WSS_FALLBACK_ENDPOINT,
};
use market_feed::market_data::TradeSide;
use market_feed::message_parser::{MessageParser, DEFAULT_MAX_CONNECTION_SECS};
use market_feed::streams::Stream;
use market_feed::timeframe::Timeframe;

#[test]
fn test_trade_side_equality() {
    assert_eq!(TradeSide::Buy, TradeSide::Buy);
    assert_ne!(TradeSide::Buy, TradeSide::Sell);
}

#[test]
fn test_format_subscribe_candles() {
    let parser = BinanceParser::new();
    let stream = Stream::candles("BTCUSDT", Timeframe::M1);
    let msg = parser.format_subscribe(&stream);

    assert!(msg.contains("SUBSCRIBE"));
    assert!(msg.contains("btcusdt@kline_1m"));
}

#[test]
fn test_format_subscribe_trades() {
    let parser = BinanceParser::new();
    let stream = Stream::trades("ETHUSDT");
    let msg = parser.format_subscribe(&stream);

    assert!(msg.contains("SUBSCRIBE"));
    assert!(msg.contains("ethusdt@trade"));
}

#[test]
fn test_format_unsubscribe_candles() {
    let parser = BinanceParser::new();
    let stream = Stream::candles("BTCUSDT", Timeframe::M5);
    let msg = parser.format_unsubscribe(&stream);

    assert!(msg.contains("UNSUBSCRIBE"));
    assert!(msg.contains("btcusdt@kline_5m"));
}

#[test]
fn subscribe_message_is_exact() {
    let parser = BinanceParser::new();
    let msg = parser.format_subscribe(&Stream::candles("BTCUSDT", Timeframe::H4));
    assert_eq!(msg, r#"{"method":"SUBSCRIBE","params":["btcusdt@kline_4h"],"id":1}"#);
}

#[test]
fn unsubscribe_message_is_exact() {
    let parser = BinanceParser::new();
    let msg = parser.format_unsubscribe(&Stream::trades("EthUsdt"));
    assert_eq!(msg, r#"{"method":"UNSUBSCRIBE","params":["ethusdt@trade"],"id":1}"#);
}

#[test]
fn channel_names_of_every_stream_kind() {
    let parser = BinanceParser::new();
    let cases = vec![
        (Stream::Funding { symbol: "BTCUSDT".to_string() }, "btcusdt@markPrice"),
        (Stream::MarkPrice { symbol: "BTCUSDT".to_string() }, "btcusdt@markPrice"),
        (Stream::order_book("BTCUSDT", 20), "btcusdt@depth20"),
        (Stream::OpenInterest { symbol: "BTCUSDT".to_string() }, "btcusdt@openInterest"),
        (Stream::Liquidations { symbol: "BTCUSDT".to_string() }, "btcusdt@forceOrder"),
    ];
    for (stream, channel) in cases {
        let expected = format!(r#"{{"method":"SUBSCRIBE","params":["{}"],"id":1}}"#, channel);
        assert_eq!(parser.format_subscribe(&stream), expected);
    }
}

#[test]
fn decimal_depths() {
    assert_eq!(decimal(0), "0");
    assert_eq!(decimal(5), "5");
    assert_eq!(decimal(10), "10");
    assert_eq!(decimal(1000), "1000");
    assert_eq!(decimal(u16::MAX), "65535");
}

#[test]
fn binance_connection_parameters() {
    let parser = BinanceParser::default();
    assert_eq!(parser.endpoint(), BINANCE_WSS_BASE_ENDPOINT);
    assert_eq!(parser.fallback_endpoint(), Some(BINANCE_WSS_FALLBACK_ENDPOINT));
    assert_eq!(parser.name(), "Binance");
    assert_eq!(parser.max_connection_duration_secs(), DEFAULT_MAX_CONNECTION_SECS);
    assert_eq!(DEFAULT_MAX_CONNECTION_SECS, 23 * 60 * 60);
}

#[test]
fn message_kind_of_kline_and_trade() {
    let parser = BinanceParser::new();
    let kline = r#"{"e":"kline","E":1638747660000,"s":"BTCUSDT","k":{"i":"1m"}}"#;
    let trade = r#"{"e":"trade","E":1672515782136,"s":"BNBBTC","t":12345}"#;
    assert_eq!(parser.message_kind(kline), MessageKind::Kline);
    assert_eq!(parser.message_kind(trade), MessageKind::Trade);
}

#[test]
fn message_kind_of_control_messages() {
    let parser = BinanceParser::new();
    assert_eq!(parser.message_kind(r#"{"result":null,"id":1}"#), MessageKind::Other);
    assert_eq!(parser.message_kind(r#"{"e":"unknown","data":"something"}"#), MessageKind::Other);
    assert_eq!(parser.message_kind(""), MessageKind::Other);
    assert_eq!(parser.message_kind("not json at all"), MessageKind::Other);
}

#[test]
fn kline_interval_labels() {
    let parser = BinanceParser::new();
    assert_eq!(parser.kline_interval("5m"), Some(Timeframe::M5));
    assert_eq!(parser.kline_interval("2m"), None);
}

#[test]
fn taker_side_from_buyer_maker_flag() {
    assert_eq!(taker_side(true), TradeSide::Sell);
    assert_eq!(taker_side(false), TradeSide::Buy);
}
