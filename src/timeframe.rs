//! Candle intervals.

use vstd::prelude::*;

use crate::text::text_equals;

verus! {

/// The interval of a candlestick.
#[derive(Debug, Clone, Copy, PartialEq, Eq, Hash, Structural)]
pub enum Timeframe {
    M1,
    M5,
    M15,
    M30,
    H1,
    H4,
    D1,
    W1,
}

impl Timeframe {
    /// Length of the interval in seconds.
    pub open spec fn seconds(self) -> u64 {
        match self {
            Timeframe::M1 => 60,
            Timeframe::M5 => 300,
            Timeframe::M15 => 900,
            Timeframe::M30 => 1800,
            Timeframe::H1 => 3600,
            Timeframe::H4 => 14400,
            Timeframe::D1 => 86400,
            Timeframe::W1 => 604800,
        }
    }

    /// The short label of the interval ("1m", "4h", ...).
    pub open spec fn label(self) -> Seq<char> {
        match self {
            Timeframe::M1 => "1m"@,
            Timeframe::M5 => "5m"@,
            Timeframe::M15 => "15m"@,
            Timeframe::M30 => "30m"@,
            Timeframe::H1 => "1h"@,
            Timeframe::H4 => "4h"@,
            Timeframe::D1 => "1d"@,
            Timeframe::W1 => "1w"@,
        }
    }

    /// The interval whose label is `s`, if any.
    pub open spec fn from_label(s: Seq<char>) -> Option<Timeframe> {
        if s == "1m"@ {
            Some(Timeframe::M1)
        } else if s == "5m"@ {
            Some(Timeframe::M5)
        } else if s == "15m"@ {
            Some(Timeframe::M15)
        } else if s == "30m"@ {
            Some(Timeframe::M30)
        } else if s == "1h"@ {
            Some(Timeframe::H1)
        } else if s == "4h"@ {
            Some(Timeframe::H4)
        } else if s == "1d"@ {
            Some(Timeframe::D1)
        } else if s == "1w"@ {
            Some(Timeframe::W1)
        } else {
            None
        }
    }

    /// Returns the duration of this timeframe in seconds.
    pub fn to_seconds(&self) -> (r: u64)
        ensures
            r == self.seconds(),
    {
        match self {
            Timeframe::M1 => 60,
            Timeframe::M5 => 5 * 60,
            Timeframe::M15 => 15 * 60,
            Timeframe::M30 => 30 * 60,
            Timeframe::H1 => 60 * 60,
            Timeframe::H4 => 4 * 60 * 60,
            Timeframe::D1 => 24 * 60 * 60,
            Timeframe::W1 => 7 * 24 * 60 * 60,
        }
    }

    /// Returns the duration of this timeframe in whole minutes.
    pub fn to_minutes(&self) -> (r: u64)
        ensures
            r == self.seconds() / 60,
    {
        self.to_seconds() / 60
    }

    /// Returns the short label of this timeframe; parsing it gives this
    /// timeframe back.
    pub fn as_str(&self) -> (r: &'static str)
        ensures
            r@ == self.label(),
            Timeframe::from_label(r@) == Some(*self),
    {
        proof {
            reveal_strlit("1m");
            reveal_strlit("5m");
            reveal_strlit("15m");
            reveal_strlit("30m");
            reveal_strlit("1h");
            reveal_strlit("4h");
            reveal_strlit("1d");
            reveal_strlit("1w");
            assert("1m"@[0] == '1' && "1m"@[1] == 'm');
            assert("5m"@[0] == '5' && "5m"@[1] == 'm');
            assert("1h"@[0] == '1' && "1h"@[1] == 'h');
            assert("4h"@[0] == '4' && "4h"@[1] == 'h');
            assert("1d"@[0] == '1' && "1d"@[1] == 'd');
            assert("1w"@[0] == '1' && "1w"@[1] == 'w');
            assert("15m"@[0] == '1' && "30m"@[0] == '3');
        }
        match self {
            Timeframe::M1 => "1m",
            Timeframe::M5 => "5m",
            Timeframe::M15 => "15m",
            Timeframe::M30 => "30m",
            Timeframe::H1 => "1h",
            Timeframe::H4 => "4h",
            Timeframe::D1 => "1d",
            Timeframe::W1 => "1w",
        }
    }

    /// Parses a label such as "1m", "5m" or "1h"; any other text gives `None`.
    pub fn from_str(value: &str) -> (r: Option<Timeframe>)
        ensures
            r == Timeframe::from_label(value@),
    {
        if text_equals(value, "1m") {
            Some(Timeframe::M1)
        } else if text_equals(value, "5m") {
            Some(Timeframe::M5)
        } else if text_equals(value, "15m") {
            Some(Timeframe::M15)
        } else if text_equals(value, "30m") {
            Some(Timeframe::M30)
        } else if text_equals(value, "1h") {
            Some(Timeframe::H1)
        } else if text_equals(value, "4h") {
            Some(Timeframe::H4)
        } else if text_equals(value, "1d") {
            Some(Timeframe::D1)
        } else if text_equals(value, "1w") {
            Some(Timeframe::W1)
        } else {
            None
        }
    }
}

} // verus!
