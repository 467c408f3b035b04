//! Stream descriptors: what a client can subscribe to.

use vstd::prelude::*;

use crate::timeframe::Timeframe;

verus! {

/// A desired subscription. Two descriptors are the same subscription exactly
/// when they are structurally equal.
#[derive(Debug)]
pub enum Stream {
    /// Candlestick (kline) data.
    Candles { symbol: String, interval: Timeframe },
    /// Real-time trades.
    Trades { symbol: String },
    /// Funding rate (futures).
    Funding { symbol: String },
    /// Mark price (futures).
    MarkPrice { symbol: String },
    /// Order book depth.
    OrderBook { symbol: String, depth: u16 },
    /// Open interest (futures).
    OpenInterest { symbol: String },
    /// Liquidations (futures).
    Liquidations { symbol: String },
}

/// The mathematical value of a [`Stream`]: symbols as character sequences.
pub enum StreamSpec {
    Candles { symbol: Seq<char>, interval: Timeframe },
    Trades { symbol: Seq<char> },
    Funding { symbol: Seq<char> },
    MarkPrice { symbol: Seq<char> },
    OrderBook { symbol: Seq<char>, depth: u16 },
    OpenInterest { symbol: Seq<char> },
    Liquidations { symbol: Seq<char> },
}

impl StreamSpec {
    pub open spec fn symbol(self) -> Seq<char> {
        match self {
            StreamSpec::Candles { symbol, .. } => symbol,
            StreamSpec::Trades { symbol } => symbol,
            StreamSpec::Funding { symbol } => symbol,
            StreamSpec::MarkPrice { symbol } => symbol,
            StreamSpec::OrderBook { symbol, .. } => symbol,
            StreamSpec::OpenInterest { symbol } => symbol,
            StreamSpec::Liquidations { symbol } => symbol,
        }
    }
}

impl View for Stream {
    type V = StreamSpec;

    open spec fn view(&self) -> StreamSpec {
        match self {
            Stream::Candles { symbol, interval } => StreamSpec::Candles {
                symbol: symbol@,
                interval: *interval,
            },
            Stream::Trades { symbol } => StreamSpec::Trades { symbol: symbol@ },
            Stream::Funding { symbol } => StreamSpec::Funding { symbol: symbol@ },
            Stream::MarkPrice { symbol } => StreamSpec::MarkPrice { symbol: symbol@ },
            Stream::OrderBook { symbol, depth } => StreamSpec::OrderBook {
                symbol: symbol@,
                depth: *depth,
            },
            Stream::OpenInterest { symbol } => StreamSpec::OpenInterest { symbol: symbol@ },
            Stream::Liquidations { symbol } => StreamSpec::Liquidations { symbol: symbol@ },
        }
    }
}

impl Stream {
    /// Creates a candles subscription.
    pub fn candles(symbol: &str, interval: Timeframe) -> (r: Stream)
        ensures
            r@ == (StreamSpec::Candles { symbol: symbol@, interval }),
    {
        Stream::Candles { symbol: String::from_str(symbol), interval }
    }

    /// Creates a trades subscription.
    pub fn trades(symbol: &str) -> (r: Stream)
        ensures
            r@ == (StreamSpec::Trades { symbol: symbol@ }),
    {
        Stream::Trades { symbol: String::from_str(symbol) }
    }

    /// Creates an order-book subscription; the depth must be positive.
    pub fn order_book(symbol: &str, depth: u16) -> (r: Stream)
        requires
            depth > 0,
        ensures
            r@ == (StreamSpec::OrderBook { symbol: symbol@, depth }),
    {
        Stream::OrderBook { symbol: String::from_str(symbol), depth }
    }

    /// Returns the symbol this stream is about.
    pub fn symbol(&self) -> (r: &str)
        ensures
            r@ == self@.symbol(),
    {
        match self {
            Stream::Candles { symbol, .. } => symbol.as_str(),
            Stream::Trades { symbol } => symbol.as_str(),
            Stream::Funding { symbol } => symbol.as_str(),
            Stream::MarkPrice { symbol } => symbol.as_str(),
            Stream::OrderBook { symbol, .. } => symbol.as_str(),
            Stream::OpenInterest { symbol } => symbol.as_str(),
            Stream::Liquidations { symbol } => symbol.as_str(),
        }
    }
}

impl Clone for Stream {
    fn clone(&self) -> (r: Stream)
        ensures
            r@ == self@,
    {
        match self {
            Stream::Candles { symbol, interval } => Stream::Candles {
                symbol: symbol.clone(),
                interval: *interval,
            },
            Stream::Trades { symbol } => Stream::Trades { symbol: symbol.clone() },
            Stream::Funding { symbol } => Stream::Funding { symbol: symbol.clone() },
            Stream::MarkPrice { symbol } => Stream::MarkPrice { symbol: symbol.clone() },
            Stream::OrderBook { symbol, depth } => Stream::OrderBook {
                symbol: symbol.clone(),
                depth: *depth,
            },
            Stream::OpenInterest { symbol } => Stream::OpenInterest { symbol: symbol.clone() },
            Stream::Liquidations { symbol } => Stream::Liquidations { symbol: symbol.clone() },
        }
    }
}

impl PartialEq for Stream {
    fn eq(&self, other: &Stream) -> (r: bool) {
        match (self, other) {
            (
                Stream::Candles { symbol: a, interval: i },
                Stream::Candles { symbol: b, interval: j },
            ) => *a == *b && *i == *j,
            (Stream::Trades { symbol: a }, Stream::Trades { symbol: b }) => *a == *b,
            (Stream::Funding { symbol: a }, Stream::Funding { symbol: b }) => *a == *b,
            (Stream::MarkPrice { symbol: a }, Stream::MarkPrice { symbol: b }) => *a == *b,
            (
                Stream::OrderBook { symbol: a, depth: d },
                Stream::OrderBook { symbol: b, depth: e },
            ) => *a == *b && *d == *e,
            (Stream::OpenInterest { symbol: a }, Stream::OpenInterest { symbol: b }) => *a == *b,
            (Stream::Liquidations { symbol: a }, Stream::Liquidations { symbol: b }) => *a == *b,
            _ => false,
        }
    }
}

impl vstd::std_specs::cmp::PartialEqSpecImpl for Stream {
    open spec fn obeys_eq_spec() -> bool {
        true
    }

    open spec fn eq_spec(&self, other: &Stream) -> bool {
        self@ == other@
    }
}

impl Eq for Stream {

}

} // verus!
