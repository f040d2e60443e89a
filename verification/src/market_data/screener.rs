//! Screeners: the most active stocks and the biggest movers.

use crate::strutil::push_i64;
use crate::strutil::push_opt;
use crate::strutil::opt_field;
use crate::strutil::spec_dec_int;
use vstd::prelude::*;
use vstd::string::StringExecFns;

verus! {

/// One of the most active stocks.
#[derive(Debug, Clone)]
pub struct ActiveStock {
    pub symbol: String,
    pub volume: u64,
    pub trade_count: u64,
}

/// The most-active ranking and when it was computed.
#[derive(Debug, Clone)]
pub struct ActiveStocksResponse {
    pub most_actives: Vec<ActiveStock>,
    pub last_updated: String,
}

/// Which market a movers ranking covers.
#[derive(Debug, Clone, Copy, PartialEq, Eq, Structural)]
pub enum MarketType {
    Stocks,
    Crypto,
}

impl MarketType {
    /// The word the API uses for this market.
    pub open spec fn spec_word(self) -> Seq<char> {
        match self {
            MarketType::Stocks => "stocks"@,
            MarketType::Crypto => "crypto"@,
        }
    }

    /// The market as the API's path word.
    pub fn word(&self) -> (r: String)
        ensures
            r@ == self.spec_word(),
    {
        match self {
            MarketType::Stocks => "stocks".to_owned(),
            MarketType::Crypto => "crypto".to_owned(),
        }
    }
}

/// Query for the most active stocks.
pub struct ActiveStocksQuery {
    pub url: String,
    pub by: Option<String>,
    pub top: Option<i32>,
}

impl ActiveStocksQuery {
    /// The full request URL this query stands for.
    pub open spec fn spec_url(self) -> Seq<char> {
        self.url@ + "?"@ + opt_field("&by="@, self.by) + (match self.top {
            Some(n) => "&top="@ + spec_dec_int(n as int),
            None => Seq::empty(),
        })
    }

    /// A fresh query against the most-actives endpoint.
    pub fn new() -> (r: Self)
        ensures
            r.url@ == "https://data.alpaca.markets/v1beta1/screener/stocks/most-actives"@,
            r.by is None,
            r.top is None,
    {
        ActiveStocksQuery {
            url: "https://data.alpaca.markets/v1beta1/screener/stocks/most-actives".to_owned(),
            by: None,
            top: None,
        }
    }

    /// Sets the measure the ranking goes by.
    pub fn rank_by(self, measure: &str) -> (r: Self)
        ensures
            r.by matches Some(s) && s@ == measure@,
            r == (Self { by: r.by, ..self }),
    {
        Self { by: Some(measure.to_owned()), ..self }
    }

    /// Caps how many symbols the ranking holds.
    pub fn top(self, top: i32) -> (r: Self)
        ensures
            r.top == Some(top),
            r == (Self { top: r.top, ..self }),
    {
        Self { top: Some(top), ..self }
    }

    /// Writes the request URL, query parameters in their fixed order.
    pub fn build(&self) -> (r: String)
        ensures
            r@ == self.spec_url(),
    {
        let mut q = self.url.clone();
        q.append("?");
        push_opt(&mut q, "&by=", &self.by);
        if let Some(n) = self.top {
            q.append("&top=");
            push_i64(&mut q, n as i64);
        }
        assert(q@ =~= self.spec_url());
        q
    }
}

/// Query for the biggest gainers and losers of one market.
pub struct TopMoversQuery {
    pub url: String,
    pub top: Option<i32>,
}

impl TopMoversQuery {
    /// The full request URL this query stands for.
    pub open spec fn spec_url(self) -> Seq<char> {
        self.url@ + "?"@ + (match self.top {
            Some(n) => "&top="@ + spec_dec_int(n as int),
            None => Seq::empty(),
        })
    }

    /// A fresh query against the movers endpoint of the chosen market.
    pub fn new(market_type: MarketType) -> (r: Self)
        ensures
            r.url@ == "https://data.alpaca.markets/v1beta1/screener/"@ + market_type.spec_word()
                + "/movers"@,
            r.top is None,
    {
        let mut url: String = "https://data.alpaca.markets/v1beta1/screener/".to_owned();
        let w = market_type.word();
        url.append(w.as_str());
        url.append("/movers");
        TopMoversQuery { url, top: None }
    }

    /// Caps how many symbols each list holds.
    pub fn top(self, top: i32) -> (r: Self)
        ensures
            r.top == Some(top),
            r == (Self { top: r.top, ..self }),
    {
        Self { top: Some(top), ..self }
    }

    /// Writes the request URL, query parameters in their fixed order.
    pub fn build(&self) -> (r: String)
        ensures
            r@ == self.spec_url(),
    {
        let mut q = self.url.clone();
        q.append("?");
        if let Some(n) = self.top {
            q.append("&top=");
            push_i64(&mut q, n as i64);
        }
        assert(q@ =~= self.spec_url());
        q
    }
}

} // verus!
