//! Stock quotes: historical and latest.

use crate::strutil::opt_field;
use crate::strutil::push_bool;
use crate::strutil::push_i64;
use crate::strutil::push_join;
use crate::strutil::push_opt;
use crate::strutil::push_sort;
use crate::strutil::spec_bool;
use crate::strutil::spec_dec_int;
use crate::strutil::spec_join;
use crate::strutil::spec_sort;
use crate::strutil::to_owned_vec;
use vstd::prelude::*;
use vstd::string::StringExecFns;

verus! {

/// Query for historical stock quotes over a span of time.
pub struct HistoricalQuotesQuery {
    pub url: String,
    pub symbols: Vec<String>,
    pub start: Option<String>,
    pub end: Option<String>,
    pub feed: Option<String>,
    pub currency: Option<String>,
    pub limit: Option<i32>,
    pub asof: Option<String>,
    pub sort_asc: bool,
    pub sort_desc: bool,
}

impl HistoricalQuotesQuery {
    /// The full request URL this query stands for.
    pub open spec fn spec_url(self) -> Seq<char> {
        self.url@ + "?symbols="@ + spec_join(self.symbols@) + opt_field("&start="@, self.start) + opt_field("&end="@, self.end) + opt_field("&feed="@, self.feed) + opt_field("&currency="@, self.currency) + (match self.limit {
            Some(n) => "&limit="@ + spec_dec_int(n as int),
            None => Seq::empty(),
        }) + opt_field("&asof="@, self.asof) + spec_sort(self.sort_asc, self.sort_desc)
    }

    /// A fresh query over the given symbols.
    pub fn new(symbols: Vec<&str>) -> (r: Self)
        ensures
            r.url@ == "https://data.alpaca.markets/v2/stocks/quotes"@,
            r.symbols@.len() == symbols@.len(),
            forall|i: int| 0 <= i < symbols@.len() ==> r.symbols@[i]@ == symbols@[i]@,
            r.start is None,
            r.end is None,
            r.feed is None,
            r.currency is None,
            r.limit is None,
            r.asof is None,
            !r.sort_asc,
            !r.sort_desc,
    {
        HistoricalQuotesQuery {
            url: "https://data.alpaca.markets/v2/stocks/quotes".to_owned(),
            symbols: to_owned_vec(symbols),
            start: None,
            end: None,
            feed: None,
            currency: None,
            limit: None,
            asof: None,
            sort_asc: false,
            sort_desc: false,
        }
    }

    /// Sets the first timestamp of the span.
    pub fn start(self, start: &str) -> (r: Self)
        ensures
            r.start matches Some(s) && s@ == start@,
            r == (Self { start: r.start, ..self }),
    {
        Self { start: Some(start.to_owned()), ..self }
    }

    /// Sets the last timestamp of the span.
    pub fn end(self, end: &str) -> (r: Self)
        ensures
            r.end matches Some(s) && s@ == end@,
            r == (Self { end: r.end, ..self }),
    {
        Self { end: Some(end.to_owned()), ..self }
    }

    /// Sets which data feed serves the request.
    pub fn feed(self, feed: &str) -> (r: Self)
        ensures
            r.feed matches Some(s) && s@ == feed@,
            r == (Self { feed: r.feed, ..self }),
    {
        Self { feed: Some(feed.to_owned()), ..self }
    }

    /// Sets the currency prices are quoted in.
    pub fn currency(self, currency: &str) -> (r: Self)
        ensures
            r.currency matches Some(s) && s@ == currency@,
            r == (Self { currency: r.currency, ..self }),
    {
        Self { currency: Some(currency.to_owned()), ..self }
    }

    /// Caps how many entries come back.
    pub fn limit(self, limit: i32) -> (r: Self)
        ensures
            r.limit == Some(limit),
            r == (Self { limit: r.limit, ..self }),
    {
        Self { limit: Some(limit), ..self }
    }

    /// Evaluates symbols as of the given date.
    pub fn asof(self, asof: &str) -> (r: Self)
        ensures
            r.asof matches Some(s) && s@ == asof@,
            r == (Self { asof: r.asof, ..self }),
    {
        Self { asof: Some(asof.to_owned()), ..self }
    }

    /// Asks for newest first.
    pub fn sort_desc(self) -> (r: Self)
        ensures
            r.sort_desc,
            !r.sort_asc,
            r == (Self { sort_asc: r.sort_asc, sort_desc: r.sort_desc, ..self }),
    {
        Self { sort_desc: true, sort_asc: false, ..self }
    }

    /// Asks for oldest first.
    pub fn sort_asc(self) -> (r: Self)
        ensures
            r.sort_asc,
            !r.sort_desc,
            r == (Self { sort_asc: r.sort_asc, sort_desc: r.sort_desc, ..self }),
    {
        Self { sort_asc: true, sort_desc: false, ..self }
    }

    /// Writes the request URL, query parameters in their fixed order.
    pub fn build(&self) -> (r: String)
        ensures
            r@ == self.spec_url(),
    {
        let mut q = self.url.clone();
        q.append("?symbols=");
        push_join(&mut q, &self.symbols);
        push_opt(&mut q, "&start=", &self.start);
        push_opt(&mut q, "&end=", &self.end);
        push_opt(&mut q, "&feed=", &self.feed);
        push_opt(&mut q, "&currency=", &self.currency);
        if let Some(n) = self.limit {
            q.append("&limit=");
            push_i64(&mut q, n as i64);
        }
        push_opt(&mut q, "&asof=", &self.asof);
        push_sort(&mut q, self.sort_asc, self.sort_desc);
        assert(q@ =~= self.spec_url());
        q
    }
}

/// Query for the latest stock quote of each symbol.
pub struct LatestQuotesQuery {
    pub url: String,
    pub symbols: Vec<String>,
    pub feed: Option<String>,
    pub currency: Option<String>,
}

impl LatestQuotesQuery {
    /// The full request URL this query stands for.
    pub open spec fn spec_url(self) -> Seq<char> {
        self.url@ + "?symbols="@ + spec_join(self.symbols@) + opt_field("&feed="@, self.feed) + opt_field("&currency="@, self.currency)
    }

    /// A fresh query over the given symbols.
    pub fn new(symbols: Vec<&str>) -> (r: Self)
        ensures
            r.url@ == "https://data.alpaca.markets/v2/stocks/quotes/latest"@,
            r.symbols@.len() == symbols@.len(),
            forall|i: int| 0 <= i < symbols@.len() ==> r.symbols@[i]@ == symbols@[i]@,
            r.feed is None,
            r.currency is None,
    {
        LatestQuotesQuery {
            url: "https://data.alpaca.markets/v2/stocks/quotes/latest".to_owned(),
            symbols: to_owned_vec(symbols),
            feed: None,
            currency: None,
        }
    }

    /// Sets which data feed serves the request.
    pub fn feed(self, feed: &str) -> (r: Self)
        ensures
            r.feed matches Some(s) && s@ == feed@,
            r == (Self { feed: r.feed, ..self }),
    {
        Self { feed: Some(feed.to_owned()), ..self }
    }

    /// Sets the currency prices are quoted in.
    pub fn currency(self, currency: &str) -> (r: Self)
        ensures
            r.currency matches Some(s) && s@ == currency@,
            r == (Self { currency: r.currency, ..self }),
    {
        Self { currency: Some(currency.to_owned()), ..self }
    }

    /// Writes the request URL, query parameters in their fixed order.
    pub fn build(&self) -> (r: String)
        ensures
            r@ == self.spec_url(),
    {
        let mut q = self.url.clone();
        q.append("?symbols=");
        push_join(&mut q, &self.symbols);
        push_opt(&mut q, "&feed=", &self.feed);
        push_opt(&mut q, "&currency=", &self.currency);
        assert(q@ =~= self.spec_url());
        q
    }
}

} // verus!
