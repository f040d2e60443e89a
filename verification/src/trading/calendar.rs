//! The market calendar endpoint: which days the market is open, and when.

use crate::strutil::opt_field;
use crate::strutil::push_opt;
use crate::trading::AccountType;
use vstd::prelude::*;
use vstd::string::StringExecFns;

verus! {

/// One day of the market calendar.
#[derive(Debug, Clone)]
pub struct CalendarDay {
    pub date: String,
    pub open: String,
    pub close: String,
    pub settlement_date: String,
}

/// Query for the market calendar over a span of dates.
pub struct CalendarQuery {
    pub url: String,
    pub start: Option<String>,
    pub end: Option<String>,
    pub date_type: Option<String>,
}

impl CalendarQuery {
    /// The full request URL this query stands for.
    pub open spec fn spec_url(self) -> Seq<char> {
        self.url@ + "?"@ + opt_field("&start="@, self.start) + opt_field("&end="@, self.end)
            + opt_field("&date_type="@, self.date_type)
    }

    /// A fresh query against the calendar endpoint of the chosen account.
    pub fn new(account_type: AccountType) -> (r: Self)
        ensures
            (account_type matches AccountType::Live ==> r.url@
                == "https://api.alpaca.markets/v2/calendar"@),
            (account_type matches AccountType::Paper ==> r.url@
                == "https://paper-api.alpaca.markets/v2/calendar"@),
            r.start is None,
            r.end is None,
            r.date_type is None,
    {
        CalendarQuery {
            url: match account_type {
                AccountType::Live => "https://api.alpaca.markets/v2/calendar".to_owned(),
                AccountType::Paper => "https://paper-api.alpaca.markets/v2/calendar".to_owned(),
            },
            start: None,
            end: None,
            date_type: None,
        }
    }

    /// Sets the first date of the span.
    pub fn start(self, start: &str) -> (r: Self)
        ensures
            r.start matches Some(s) && s@ == start@,
            r.url == self.url,
            r.end == self.end,
            r.date_type == self.date_type,
    {
        Self { start: Some(start.to_owned()), ..self }
    }

    /// Sets the last date of the span.
    pub fn end(self, end: &str) -> (r: Self)
        ensures
            r.end matches Some(s) && s@ == end@,
            r.url == self.url,
            r.start == self.start,
            r.date_type == self.date_type,
    {
        Self { end: Some(end.to_owned()), ..self }
    }

    /// Sets which kind of date the span bounds refer to.
    pub fn date_type(self, date_type: &str) -> (r: Self)
        ensures
            r.date_type matches Some(s) && s@ == date_type@,
            r.url == self.url,
            r.start == self.start,
            r.end == self.end,
    {
        Self { date_type: Some(date_type.to_owned()), ..self }
    }

    /// Writes the request URL, query parameters in their fixed order.
    pub fn build(&self) -> (r: String)
        ensures
            r@ == self.spec_url(),
    {
        let mut q = self.url.clone();
        q.append("?");
        push_opt(&mut q, "&start=", &self.start);
        push_opt(&mut q, "&end=", &self.end);
        push_opt(&mut q, "&date_type=", &self.date_type);
        assert(q@ =~= self.spec_url());
        q
    }
}

} // verus!
