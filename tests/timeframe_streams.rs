use market_feed::streams::Stream;
use market_feed::text::{contains_text, text_equals};
use market_feed::timeframe::Timeframe;

#[test]
fn timeframe_seconds_and_minutes() {
    let expected = [
        (Timeframe::M1, 60),
        (Timeframe::M5, 300),
        (Timeframe::M15, 900),
        (Timeframe::M30, 1800),
        (Timeframe::H1, 3600),
        (Timeframe::H4, 14400),
        (Timeframe::D1, 86400),
        (Timeframe::W1, 604800),
    ];
    for (tf, secs) in expected {
        assert_eq!(tf.to_seconds(), secs);
        assert_eq!(tf.to_minutes(), secs / 60);
    }
}

#[test]
fn timeframe_labels_round_trip() {
    let all = [
        Timeframe::M1,
        Timeframe::M5,
        Timeframe::M15,
        Timeframe::M30,
        Timeframe::H1,
        Timeframe::H4,
        Timeframe::D1,
        Timeframe::W1,
    ];
    let labels = ["1m", "5m", "15m", "30m", "1h", "4h", "1d", "1w"];
    for (tf, label) in all.iter().zip(labels.iter()) {
        assert_eq!(tf.as_str(), *label);
        assert_eq!(Timeframe::from_str(label), Some(*tf));
    }
}

#[test]
fn timeframe_rejects_unknown_labels() {
    assert_eq!(Timeframe::from_str(""), None);
    assert_eq!(Timeframe::from_str("1M"), None);
    assert_eq!(Timeframe::from_str("1m "), None);
    assert_eq!(Timeframe::from_str("60"), None);
}

#[test]
fn stream_constructors_and_symbol() {
    let c = Stream::candles("BTCUSDT", Timeframe::M1);
    assert_eq!(c.symbol(), "BTCUSDT");
    assert!(matches!(c, Stream::Candles { ref symbol, interval: Timeframe::M1 } if symbol == "BTCUSDT"));
    let t = Stream::trades("ETHUSDT");
    assert_eq!(t.symbol(), "ETHUSDT");
    let b = Stream::order_book("SOLUSDT", 10);
    assert_eq!(b.symbol(), "SOLUSDT");
    assert!(matches!(b, Stream::OrderBook { depth: 10, .. }));
}

#[test]
fn stream_equality_is_structural() {
    assert_eq!(Stream::candles("BTCUSDT", Timeframe::M1), Stream::candles("BTCUSDT", Timeframe::M1));
    assert_ne!(Stream::candles("BTCUSDT", Timeframe::M1), Stream::candles("BTCUSDT", Timeframe::M5));
    assert_ne!(Stream::candles("BTCUSDT", Timeframe::M1), Stream::candles("ETHUSDT", Timeframe::M1));
    assert_ne!(Stream::trades("BTCUSDT"), Stream::Funding { symbol: "BTCUSDT".to_string() });
    assert_ne!(Stream::order_book("BTCUSDT", 5), Stream::order_book("BTCUSDT", 10));
    let s = Stream::order_book("BTCUSDT", 5);
    assert_eq!(s.clone(), s);
}

#[test]
fn text_helpers() {
    assert!(text_equals("abc", "abc"));
    assert!(!text_equals("abc", "abd"));
    assert!(!text_equals("abc", "ab"));
    assert!(contains_text("hello world", "o w"));
    assert!(contains_text("abc", ""));
    assert!(!contains_text("abc", "abcd"));
    assert!(!contains_text("abc", "cb"));
}
