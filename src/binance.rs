//! Binance: endpoints, subscription messages and message classification.

use vstd::prelude::*;

use crate::market_data::TradeSide;
use crate::message_parser::{MessageParser, DEFAULT_MAX_CONNECTION_SECS};
use crate::streams::{Stream, StreamSpec};
use crate::text::{contains_text, occurs_in};
use crate::timeframe::Timeframe;

verus! {

pub const BINANCE_WSS_BASE_ENDPOINT: &'static str = "wss://stream.binance.com:443/ws";

pub const BINANCE_WSS_FALLBACK_ENDPOINT: &'static str = "wss://stream.binance.com:9443/ws";

pub const BINANCE_API_BASE_ENDPOINT: &'static str = "wss://ws-api.binance.com:443/ws-api/v3";

pub const BINANCE_API_FALLBACK_ENDPOINT: &'static str = "wss://ws-api.binance.com:9443/ws-api/v3";

/// Marker of a kline event in a Binance message.
pub const KLINE_TAG: &'static str = "\"e\":\"kline\"";

/// Marker of a trade event in a Binance message.
pub const TRADE_TAG: &'static str = "\"e\":\"trade\"";

/// What `str::to_lowercase` makes of a character sequence.
pub uninterp spec fn lower_of(s: Seq<char>) -> Seq<char>;

/// Relies on `str::to_lowercase`: the result depends on the characters alone.
#[verifier::external_body]
fn lowercase(s: &str) -> (r: String)
    ensures
        r@ == lower_of(s@),
{
    s.to_lowercase()
}

/// The character of a decimal digit.
pub open spec fn digit_char(d: nat) -> char {
    if d == 0 {
        '0'
    } else if d == 1 {
        '1'
    } else if d == 2 {
        '2'
    } else if d == 3 {
        '3'
    } else if d == 4 {
        '4'
    } else if d == 5 {
        '5'
    } else if d == 6 {
        '6'
    } else if d == 7 {
        '7'
    } else if d == 8 {
        '8'
    } else {
        '9'
    }
}

/// Decimal notation of `n`, without leading zeros.
pub open spec fn decimal_text(n: nat) -> Seq<char>
    decreases n,
{
    if n < 10 {
        seq![digit_char(n)]
    } else {
        decimal_text(n / 10).push(digit_char(n % 10))
    }
}

/// The Binance channel name of `stream`, given its symbol already lowercased.
pub open spec fn channel_name(lower_symbol: Seq<char>, stream: StreamSpec) -> Seq<char> {
    match stream {
        StreamSpec::Candles { interval, .. } => lower_symbol + "@kline_"@ + interval.label(),
        StreamSpec::Trades { .. } => lower_symbol + "@trade"@,
        StreamSpec::Funding { .. } => lower_symbol + "@markPrice"@,
        StreamSpec::MarkPrice { .. } => lower_symbol + "@markPrice"@,
        StreamSpec::OrderBook { depth, .. } => lower_symbol + "@depth"@ + decimal_text(
            depth as nat,
        ),
        StreamSpec::OpenInterest { .. } => lower_symbol + "@openInterest"@,
        StreamSpec::Liquidations { .. } => lower_symbol + "@forceOrder"@,
    }
}

/// A Binance control message calling `method` on one channel.
pub open spec fn control_text(method: Seq<char>, channel: Seq<char>) -> Seq<char> {
    "{\"method\":\""@ + method + "\",\"params\":[\""@ + channel + "\"],\"id\":1}"@
}

/// The Binance channel of `stream`, with its symbol lowercased.
pub open spec fn stream_channel_text(stream: StreamSpec) -> Seq<char> {
    channel_name(lower_of(stream.symbol()), stream)
}

/// How a raw Binance message is to be handled.
#[derive(Debug, Clone, Copy, PartialEq, Eq, Structural)]
pub enum MessageKind {
    /// A candlestick update.
    Kline,
    /// A trade.
    Trade,
    /// A control, acknowledgement or unknown message.
    Other,
}

/// The kind of a raw message: kline if it carries the kline marker, else trade
/// if it carries the trade marker, else other.
pub open spec fn message_kind_of(msg: Seq<char>) -> MessageKind {
    if occurs_in(msg, KLINE_TAG@) {
        MessageKind::Kline
    } else if occurs_in(msg, TRADE_TAG@) {
        MessageKind::Trade
    } else {
        MessageKind::Other
    }
}

/// The text of one decimal digit.
fn digit_str(d: u16) -> (r: &'static str)
    requires
        d < 10,
    ensures
        r@ == seq![digit_char(d as nat)],
{
    proof {
        reveal_strlit("0");
        reveal_strlit("1");
        reveal_strlit("2");
        reveal_strlit("3");
        reveal_strlit("4");
        reveal_strlit("5");
        reveal_strlit("6");
        reveal_strlit("7");
        reveal_strlit("8");
        reveal_strlit("9");
    }
    if d == 0 {
        "0"
    } else if d == 1 {
        "1"
    } else if d == 2 {
        "2"
    } else if d == 3 {
        "3"
    } else if d == 4 {
        "4"
    } else if d == 5 {
        "5"
    } else if d == 6 {
        "6"
    } else if d == 7 {
        "7"
    } else if d == 8 {
        "8"
    } else {
        "9"
    }
}

/// Decimal notation of `n`.
pub fn decimal(n: u16) -> (r: String)
    ensures
        r@ == decimal_text(n as nat),
    decreases n,
{
    if n < 10 {
        String::from_str(digit_str(n))
    } else {
        let mut s = decimal(n / 10);
        s.append(digit_str(n % 10));
        s
    }
}

/// Builds the channel name of `stream` from its lowercased symbol.
pub fn channel_for(lower_symbol: &str, stream: &Stream) -> (r: String)
    ensures
        r@ == channel_name(lower_symbol@, stream@),
{
    let mut s = String::from_str(lower_symbol);
    match stream {
        Stream::Candles { interval, .. } => {
            s.append("@kline_");
            s.append(interval.as_str());
        },
        Stream::Trades { .. } => {
            s.append("@trade");
        },
        Stream::Funding { .. } => {
            s.append("@markPrice");
        },
        Stream::MarkPrice { .. } => {
            s.append("@markPrice");
        },
        Stream::OrderBook { depth, .. } => {
            s.append("@depth");
            let d = decimal(*depth);
            s.append(d.as_str());
        },
        Stream::OpenInterest { .. } => {
            s.append("@openInterest");
        },
        Stream::Liquidations { .. } => {
            s.append("@forceOrder");
        },
    }
    s
}

/// Builds a control message calling `method` on `channel`.
pub fn control_message(method: &str, channel: &str) -> (r: String)
    ensures
        r@ == control_text(method@, channel@),
{
    let mut s = String::from_str("{\"method\":\"");
    s.append(method);
    s.append("\",\"params\":[\"");
    s.append(channel);
    s.append("\"],\"id\":1}");
    s
}

/// The side of the taker: when the buyer was the maker, the taker sold.
pub fn taker_side(is_buyer_maker: bool) -> (r: TradeSide)
    ensures
        r == (if is_buyer_maker {
            TradeSide::Sell
        } else {
            TradeSide::Buy
        }),
{
    if is_buyer_maker {
        TradeSide::Sell
    } else {
        TradeSide::Buy
    }
}

/// The Binance parsing capability.
#[derive(Debug, Clone, Copy)]
pub struct BinanceParser;

impl BinanceParser {
    pub fn new() -> (r: BinanceParser)
        ensures
            r == BinanceParser,
    {
        BinanceParser
    }

    /// Classifies a raw message by its event marker.
    pub fn message_kind(&self, msg: &str) -> (r: MessageKind)
        ensures
            r == message_kind_of(msg@),
    {
        if contains_text(msg, KLINE_TAG) {
            MessageKind::Kline
        } else if contains_text(msg, TRADE_TAG) {
            MessageKind::Trade
        } else {
            MessageKind::Other
        }
    }

    /// Parses the interval label of a kline message.
    pub fn kline_interval(&self, label: &str) -> (r: Option<Timeframe>)
        ensures
            r == Timeframe::from_label(label@),
    {
        Timeframe::from_str(label)
    }

    /// The channel of `stream`, with its symbol lowercased.
    fn stream_channel(&self, stream: &Stream) -> (r: String)
        ensures
            r@ == stream_channel_text(stream@),
    {
        let lower = lowercase(stream.symbol());
        channel_for(lower.as_str(), stream)
    }
}

impl Default for BinanceParser {
    fn default() -> (r: BinanceParser)
        ensures
            r == BinanceParser,
    {
        BinanceParser::new()
    }
}

impl MessageParser for BinanceParser {
    open spec fn endpoint_text(&self) -> Seq<char> {
        BINANCE_WSS_BASE_ENDPOINT@
    }

    open spec fn fallback_text(&self) -> Option<Seq<char>> {
        Some(BINANCE_WSS_FALLBACK_ENDPOINT@)
    }

    open spec fn subscribe_text(&self, stream: StreamSpec) -> Seq<char> {
        control_text("SUBSCRIBE"@, stream_channel_text(stream))
    }

    open spec fn unsubscribe_text(&self, stream: StreamSpec) -> Seq<char> {
        control_text("UNSUBSCRIBE"@, stream_channel_text(stream))
    }

    open spec fn name_text(&self) -> Seq<char> {
        "Binance"@
    }

    open spec fn session_limit_secs(&self) -> u64 {
        DEFAULT_MAX_CONNECTION_SECS
    }

    fn endpoint(&self) -> (r: &str) {
        BINANCE_WSS_BASE_ENDPOINT
    }

    fn fallback_endpoint(&self) -> (r: Option<&str>) {
        Some(BINANCE_WSS_FALLBACK_ENDPOINT)
    }

    fn format_subscribe(&self, stream: &Stream) -> (r: String) {
        let channel = self.stream_channel(stream);
        control_message("SUBSCRIBE", channel.as_str())
    }

    fn format_unsubscribe(&self, stream: &Stream) -> (r: String) {
        let channel = self.stream_channel(stream);
        control_message("UNSUBSCRIBE", channel.as_str())
    }

    fn name(&self) -> (r: &'static str) {
        "Binance"
    }

    fn max_connection_duration_secs(&self) -> (r: u64) {
        DEFAULT_MAX_CONNECTION_SECS
    }
}

} // verus!
