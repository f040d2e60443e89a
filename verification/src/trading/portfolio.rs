//! Portfolio history: the query builder for the account's equity and
//! profit-and-loss series.

use crate::strutil::opt_field;
use crate::strutil::push_opt;
use crate::strutil::spec_join;
use crate::strutil::push_join;
use crate::strutil::to_owned_vec;
use crate::timeframe::TimeFrame;
use crate::trading::AccountType;
use vstd::prelude::*;
use vstd::string::StringExecFns;

verus! {

/// Query for the account's portfolio history.
pub struct PortfolioHistoryQuery {
    pub url: String,
    pub period: Option<String>,
    pub timeframe: Option<TimeFrame>,
    pub intraday_reporting: Option<String>,
    pub start: Option<String>,
    pub end: Option<String>,
    pub pnl_reset: Option<String>,
    pub date_end: Option<String>,
    pub extended_hours: Option<String>,
    pub cashflow_types: Option<Vec<String>>,
}

impl PortfolioHistoryQuery {
    /// The full request URL this query stands for.
    pub open spec fn spec_url(self) -> Seq<char> {
        self.url@ + "?"@ + opt_field("&period="@, self.period) + (match self.timeframe {
            Some(tf) => "&timeframe="@ + tf.spec_str(),
            None => Seq::empty(),
        }) + opt_field("&intraday_reporting="@, self.intraday_reporting) + opt_field(
            "&start="@,
            self.start,
        ) + opt_field("&end="@, self.end) + opt_field("&pnl_reset="@, self.pnl_reset) + opt_field(
            "&date_end="@,
            self.date_end,
        ) + opt_field("&extended_hours="@, self.extended_hours) + (match self.cashflow_types {
            Some(ts) => "&cashflow_types="@ + spec_join(ts@),
            None => Seq::empty(),
        })
    }

    /// A fresh query against the portfolio history endpoint of the
    /// chosen account.
    pub fn new(account_type: AccountType) -> (r: Self)
        ensures
            (account_type matches AccountType::Live ==> r.url@
                == "https://api.alpaca.markets/v2/account/portfolio/history"@),
            (account_type matches AccountType::Paper ==> r.url@
                == "https://paper-api.alpaca.markets/v2/account/portfolio/history"@),
            r.period is None,
            r.timeframe is None,
            r.intraday_reporting is None,
            r.start is None,
            r.end is None,
            r.pnl_reset is None,
            r.date_end is None,
            r.extended_hours is None,
            r.cashflow_types is None,
    {
        PortfolioHistoryQuery {
            url: match account_type {
                AccountType::Live => "https://api.alpaca.markets/v2/account/portfolio/history".to_owned(),
                AccountType::Paper => "https://paper-api.alpaca.markets/v2/account/portfolio/history".to_owned(),
            },
            period: None,
            timeframe: None,
            intraday_reporting: None,
            start: None,
            end: None,
            pnl_reset: None,
            date_end: None,
            extended_hours: None,
            cashflow_types: None,
        }
    }

    /// Sets the period the history spans.
    pub fn period(self, period: &str) -> (r: Self)
        ensures
            r.period matches Some(s) && s@ == period@,
            r == (Self { period: r.period, ..self }),
    {
        Self { period: Some(period.to_owned()), ..self }
    }

    /// Sets the width of one history step.
    pub fn timeframe(self, timeframe: TimeFrame) -> (r: Self)
        ensures
            r.timeframe == Some(timeframe),
            r == (Self { timeframe: r.timeframe, ..self }),
    {
        Self { timeframe: Some(timeframe), ..self }
    }

    /// Sets how intraday figures are reported.
    pub fn intraday_reporting(self, intraday_reporting: &str) -> (r: Self)
        ensures
            r.intraday_reporting matches Some(s) && s@ == intraday_reporting@,
            r == (Self { intraday_reporting: r.intraday_reporting, ..self }),
    {
        Self { intraday_reporting: Some(intraday_reporting.to_owned()), ..self }
    }

    /// Sets the first timestamp of the span.
    pub fn start(self, start: &str) -> (r: Self)
        ensures
            r.start matches Some(s) && s@ == start@,
            r == (Self { start: r.start, ..self }),
    {
        Self { start: Some(start.to_owned()), ..self }
    }

    /// Sets the last timestamp of the span.
    pub fn end(self, end: &str) -> (r: Self)
        ensures
            r.end matches Some(s) && s@ == end@,
            r == (Self { end: r.end, ..self }),
    {
        Self { end: Some(end.to_owned()), ..self }
    }

    /// Sets when profit and loss resets.
    pub fn pnl_reset(self, pnl_reset: &str) -> (r: Self)
        ensures
            r.pnl_reset matches Some(s) && s@ == pnl_reset@,
            r == (Self { pnl_reset: r.pnl_reset, ..self }),
    {
        Self { pnl_reset: Some(pnl_reset.to_owned()), ..self }
    }

    /// Sets the last date of the span.
    pub fn date_end(self, date_end: &str) -> (r: Self)
        ensures
            r.date_end matches Some(s) && s@ == date_end@,
            r == (Self { date_end: r.date_end, ..self }),
    {
        Self { date_end: Some(date_end.to_owned()), ..self }
    }

    /// Sets whether extended hours count.
    pub fn extended_hours(self, extended_hours: &str) -> (r: Self)
        ensures
            r.extended_hours matches Some(s) && s@ == extended_hours@,
            r == (Self { extended_hours: r.extended_hours, ..self }),
    {
        Self { extended_hours: Some(extended_hours.to_owned()), ..self }
    }

    /// Picks which cashflow kinds the history carries.
    pub fn cashflow_types(self, cashflow_types: Vec<&str>) -> (r: Self)
        ensures
            r.cashflow_types matches Some(ts) && ts@.len() == cashflow_types@.len() && (forall|
                i: int,
            |
                0 <= i < ts@.len() ==> ts@[i]@ == cashflow_types@[i]@),
            r == (Self { cashflow_types: r.cashflow_types, ..self }),
    {
        Self { cashflow_types: Some(to_owned_vec(cashflow_types)), ..self }
    }

    /// Writes the request URL, query parameters in their fixed order.
    pub fn build(&self) -> (r: String)
        ensures
            r@ == self.spec_url(),
    {
        let mut q = self.url.clone();
        q.append("?");
        push_opt(&mut q, "&period=", &self.period);
        if let Some(tf) = &self.timeframe {
            q.append("&timeframe=");
            let t = tf.as_text();
            q.append(t.as_str());
        }
        push_opt(&mut q, "&intraday_reporting=", &self.intraday_reporting);
        push_opt(&mut q, "&start=", &self.start);
        push_opt(&mut q, "&end=", &self.end);
        push_opt(&mut q, "&pnl_reset=", &self.pnl_reset);
        push_opt(&mut q, "&date_end=", &self.date_end);
        push_opt(&mut q, "&extended_hours=", &self.extended_hours);
        if let Some(ts) = &self.cashflow_types {
            q.append("&cashflow_types=");
            push_join(&mut q, ts);
        }
        assert(q@ =~= self.spec_url());
        q
    }
}

} // verus!
