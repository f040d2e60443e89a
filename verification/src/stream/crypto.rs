//! The crypto market-data stream: a builder collecting the five symbol
//! lists a session subscribes to. Each setter replaces its whole list.

use crate::stream::codec::spec_subscribe;
use crate::stream::codec::encode_subscribe;
use crate::strutil::to_owned_vec;
use vstd::prelude::*;

verus! {

/// Builder for a crypto market data stream subscription: five
/// independent symbol lists, each allowed to be empty.
pub struct CryptoStream {
    pub trades: Vec<String>,
    pub quotes: Vec<String>,
    pub bars: Vec<String>,
    pub daily_bars: Vec<String>,
    pub updated_bars: Vec<String>,
}

impl CryptoStream {
    /// The subscribe message this subscription sends: all five lists
    /// verbatim, empty ones included.
    pub open spec fn spec_subscribe_message(self) -> Seq<char> {
        spec_subscribe(self.trades@, self.quotes@, self.bars@, self.daily_bars@, self.updated_bars@)
    }

    /// A fresh subscription with all five lists empty.
    pub fn new() -> (r: Self)
        ensures
            r.trades@.len() == 0,
            r.quotes@.len() == 0,
            r.bars@.len() == 0,
            r.daily_bars@.len() == 0,
            r.updated_bars@.len() == 0,
    {
        CryptoStream {
            trades: Vec::new(),
            quotes: Vec::new(),
            bars: Vec::new(),
            daily_bars: Vec::new(),
            updated_bars: Vec::new(),
        }
    }

    /// Replaces the trade symbol list.
    pub fn subscribe_trades(self, symbols: Vec<&str>) -> (r: Self)
        ensures
            r.trades@.len() == symbols@.len(),
            forall|i: int| 0 <= i < symbols@.len() ==> r.trades@[i]@ == symbols@[i]@,
            r == (Self { trades: r.trades, ..self }),
    {
        Self { trades: to_owned_vec(symbols), ..self }
    }

    /// Replaces the quote symbol list.
    pub fn subscribe_quotes(self, symbols: Vec<&str>) -> (r: Self)
        ensures
            r.quotes@.len() == symbols@.len(),
            forall|i: int| 0 <= i < symbols@.len() ==> r.quotes@[i]@ == symbols@[i]@,
            r == (Self { quotes: r.quotes, ..self }),
    {
        Self { quotes: to_owned_vec(symbols), ..self }
    }

    /// Replaces the minute-bar symbol list.
    pub fn subscribe_bars(self, symbols: Vec<&str>) -> (r: Self)
        ensures
            r.bars@.len() == symbols@.len(),
            forall|i: int| 0 <= i < symbols@.len() ==> r.bars@[i]@ == symbols@[i]@,
            r == (Self { bars: r.bars, ..self }),
    {
        Self { bars: to_owned_vec(symbols), ..self }
    }

    /// Replaces the daily-bar symbol list.
    pub fn subscribe_daily_bars(self, symbols: Vec<&str>) -> (r: Self)
        ensures
            r.daily_bars@.len() == symbols@.len(),
            forall|i: int| 0 <= i < symbols@.len() ==> r.daily_bars@[i]@ == symbols@[i]@,
            r == (Self { daily_bars: r.daily_bars, ..self }),
    {
        Self { daily_bars: to_owned_vec(symbols), ..self }
    }

    /// Replaces the updated-bar symbol list.
    pub fn subscribe_updated_bars(self, symbols: Vec<&str>) -> (r: Self)
        ensures
            r.updated_bars@.len() == symbols@.len(),
            forall|i: int| 0 <= i < symbols@.len() ==> r.updated_bars@[i]@ == symbols@[i]@,
            r == (Self { updated_bars: r.updated_bars, ..self }),
    {
        Self { updated_bars: to_owned_vec(symbols), ..self }
    }

    /// The fixed endpoint of the crypto market-data feed.
    pub fn feed_url() -> (r: String)
        ensures
            r@ == "wss://stream.data.alpaca.markets/v1beta3/crypto/us"@,
    {
        "wss://stream.data.alpaca.markets/v1beta3/crypto/us".to_owned()
    }

    /// Writes the subscribe message for this subscription.
    pub fn subscribe_message(&self) -> (r: String)
        ensures
            r@ == self.spec_subscribe_message(),
    {
        encode_subscribe(&self.trades, &self.quotes, &self.bars, &self.daily_bars, &self.updated_bars)
    }
}

} // verus!
