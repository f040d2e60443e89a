//! The typed events the two feeds deliver. Prices and sizes arrive as
//! JSON numbers; the library keeps each as the text of its canonical
//! rendering, so the verified core holds no floating point.

use crate::trading::order::Order;
use vstd::prelude::*;

verus! {

/// Data feed options for stock market data streams.
#[derive(Debug, Clone, Copy, PartialEq, Eq, Structural)]
pub enum Feed {
    Iex,
    Sip,
    DelayedSip,
    Test,
}

impl Feed {
    /// The token the API expects for this feed.
    pub open spec fn spec_str(self) -> Seq<char> {
        match self {
            Feed::Iex => "iex"@,
            Feed::Sip => "sip"@,
            Feed::DelayedSip => "delayed_sip"@,
            Feed::Test => "test"@,
        }
    }

    /// The feed written as the API's token.
    pub fn as_text(&self) -> (r: String)
        ensures
            r@ == self.spec_str(),
    {
        match self {
            Feed::Iex => "iex".to_owned(),
            Feed::Sip => "sip".to_owned(),
            Feed::DelayedSip => "delayed_sip".to_owned(),
            Feed::Test => "test".to_owned(),
        }
    }
}

/// A real-time trade message from the stock or crypto stream. `p` and
/// `s` hold the trade price and size as number text.
#[derive(Debug, Clone)]
pub struct StreamTrade {
    pub msg_type: String,
    pub symbol: String,
    pub i: Option<i64>,
    pub x: Option<String>,
    pub p: String,
    pub s: String,
    pub t: String,
    pub c: Option<Vec<String>>,
    pub z: Option<String>,
}

/// A real-time quote message. Bid and ask prices and sizes hold number
/// text.
#[derive(Debug, Clone)]
pub struct StreamQuote {
    pub msg_type: String,
    pub symbol: String,
    pub bx: Option<String>,
    pub bp: String,
    pub bs: String,
    pub ax: Option<String>,
    pub ap: String,
    pub ask_size: String,
    pub t: String,
    pub c: Option<Vec<String>>,
    pub z: Option<String>,
}

/// A real-time bar message (minute, daily, or updated). Open, high, low,
/// close and the volume-weighted average hold number text; the trade and
/// volume counts are integers.
#[derive(Debug, Clone)]
pub struct StreamBar {
    pub bar_type: String,
    pub symbol: String,
    pub o: String,
    pub h: String,
    pub l: String,
    pub c: String,
    pub v: u32,
    pub t: String,
    pub n: u32,
    pub vw: String,
}

/// A trading status message (halts, resumptions, and the like).
#[derive(Debug, Clone)]
pub struct StreamStatus {
    pub msg_type: String,
    pub symbol: String,
    pub sc: Option<String>,
    pub sm: Option<String>,
    pub rc: Option<String>,
    pub rm: Option<String>,
    pub t: String,
    pub z: Option<String>,
}

/// All possible messages from a market data stream.
#[derive(Debug, Clone)]
pub enum MarketDataMessage {
    Trade(StreamTrade),
    Quote(StreamQuote),
    Bar(StreamBar),
    DailyBar(StreamBar),
    UpdatedBar(StreamBar),
    Status(StreamStatus),
}

/// A trade update message from the account stream.
#[derive(Debug)]
pub struct TradeUpdate {
    pub event: String,
    pub order: Order,
    pub timestamp: Option<String>,
    pub price: Option<String>,
    pub qty: Option<String>,
    pub position_qty: Option<String>,
}

} // verus!
