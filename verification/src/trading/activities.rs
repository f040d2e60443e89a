//! Account activity history: a pageable list of fills, dividends and
//! other account events.

use crate::strutil::opt_field;
use crate::strutil::opt_int_field;
use crate::strutil::push_opt;
use crate::strutil::push_u64;
use crate::strutil::spec_join;
use crate::strutil::push_join;
use crate::strutil::to_owned_vec;
use crate::trading::AccountType;
use vstd::prelude::*;
use vstd::string::StringExecFns;

verus! {

/// One account activity entry.
#[derive(Debug, Clone)]
pub struct TradeActivity {
    pub activity_type: Option<String>,
    pub id: String,
    pub cum_qty: Option<String>,
    pub leaves_qty: Option<String>,
    pub price: Option<String>,
    pub qty: Option<String>,
    pub side: Option<String>,
    pub symbol: Option<String>,
    pub transaction_time: Option<String>,
    pub order_id: Option<String>,
    pub kind: Option<String>,
    pub order_status: Option<String>,
    pub date: Option<String>,
    pub net_amount: Option<String>,
    pub per_share_amount: Option<String>,
    pub group_id: Option<String>,
    pub status: Option<String>,
}

/// Query for account activities. Picking activity types clears a chosen
/// category and the other way round: the endpoint accepts only one of
/// the two filters.
pub struct ActivitiesQuery {
    pub url: String,
    pub activity_types: Option<Vec<String>>,
    pub category: Option<String>,
    pub date: Option<String>,
    pub until: Option<String>,
    pub after: Option<String>,
    pub direction: Option<String>,
    pub page_size: Option<usize>,
    pub limit: Option<usize>,
}

impl ActivitiesQuery {
    /// The full request URL this query stands for.
    pub open spec fn spec_url(self) -> Seq<char> {
        self.url@ + "?"@ + (match self.activity_types {
            Some(ts) => "&activity_types="@ + spec_join(ts@),
            None => Seq::empty(),
        }) + opt_field("&category="@, self.category) + opt_field("&date="@, self.date) + opt_field(
            "&until="@,
            self.until,
        ) + opt_field("&after="@, self.after) + opt_field("&direction="@, self.direction)
            + opt_int_field(
            "&page_size="@,
            match self.page_size {
                Some(n) => Some(n as int),
                None => None,
            },
        )
    }

    /// A fresh query against the activities endpoint of the chosen
    /// account.
    pub fn new(account_type: AccountType) -> (r: Self)
        ensures
            (account_type matches AccountType::Live ==> r.url@
                == "https://api.alpaca.markets/v2/account/activities"@),
            (account_type matches AccountType::Paper ==> r.url@
                == "https://paper-api.alpaca.markets/v2/account/activities"@),
            r.activity_types is None,
            r.category is None,
            r.date is None,
            r.until is None,
            r.after is None,
            r.direction is None,
            r.page_size is None,
            r.limit is None,
    {
        ActivitiesQuery {
            url: match account_type {
                AccountType::Live => "https://api.alpaca.markets/v2/account/activities".to_owned(),
                AccountType::Paper => "https://paper-api.alpaca.markets/v2/account/activities".to_owned(),
            },
            activity_types: None,
            category: None,
            date: None,
            until: None,
            after: None,
            direction: None,
            page_size: None,
            limit: None,
        }
    }

    /// Filters by the given activity types and clears the category.
    pub fn activity_types(self, activity_types: Vec<&str>) -> (r: Self)
        ensures
            r.activity_types matches Some(ts) && ts@.len() == activity_types@.len() && (forall|
                i: int,
            |
                0 <= i < ts@.len() ==> ts@[i]@ == activity_types@[i]@),
            r.category is None,
            r.url == self.url,
            r.date == self.date,
            r.until == self.until,
            r.after == self.after,
            r.direction == self.direction,
            r.page_size == self.page_size,
            r.limit == self.limit,
    {
        Self { activity_types: Some(to_owned_vec(activity_types)), category: None, ..self }
    }

    /// Filters by one category and clears the activity types.
    pub fn category(self, category: &str) -> (r: Self)
        ensures
            r.category matches Some(s) && s@ == category@,
            r.activity_types is None,
            r.url == self.url,
            r.date == self.date,
            r.until == self.until,
            r.after == self.after,
            r.direction == self.direction,
            r.page_size == self.page_size,
            r.limit == self.limit,
    {
        Self { category: Some(category.to_owned()), activity_types: None, ..self }
    }

    /// Keeps only activities of one date.
    pub fn date(self, date: &str) -> (r: Self)
        ensures
            r.date matches Some(s) && s@ == date@,
            r.url == self.url,
            r.activity_types == self.activity_types,
            r.category == self.category,
            r.until == self.until,
            r.after == self.after,
            r.direction == self.direction,
            r.page_size == self.page_size,
            r.limit == self.limit,
    {
        Self { date: Some(date.to_owned()), ..self }
    }

    /// Keeps only activities before the given time.
    pub fn until(self, until: &str) -> (r: Self)
        ensures
            r.until matches Some(s) && s@ == until@,
            r.url == self.url,
            r.activity_types == self.activity_types,
            r.category == self.category,
            r.date == self.date,
            r.after == self.after,
            r.direction == self.direction,
            r.page_size == self.page_size,
            r.limit == self.limit,
    {
        Self { until: Some(until.to_owned()), ..self }
    }

    /// Keeps only activities after the given time.
    pub fn after(self, after: &str) -> (r: Self)
        ensures
            r.after matches Some(s) && s@ == after@,
            r.url == self.url,
            r.activity_types == self.activity_types,
            r.category == self.category,
            r.date == self.date,
            r.until == self.until,
            r.direction == self.direction,
            r.page_size == self.page_size,
            r.limit == self.limit,
    {
        Self { after: Some(after.to_owned()), ..self }
    }

    /// Sets the paging direction.
    pub fn direction(self, direction: &str) -> (r: Self)
        ensures
            r.direction matches Some(s) && s@ == direction@,
            r.url == self.url,
            r.activity_types == self.activity_types,
            r.category == self.category,
            r.date == self.date,
            r.until == self.until,
            r.after == self.after,
            r.page_size == self.page_size,
            r.limit == self.limit,
    {
        Self { direction: Some(direction.to_owned()), ..self }
    }

    /// Sets how many entries one page holds.
    pub fn page_size(self, page_size: usize) -> (r: Self)
        ensures
            r.page_size == Some(page_size),
            r.url == self.url,
            r.activity_types == self.activity_types,
            r.category == self.category,
            r.date == self.date,
            r.until == self.until,
            r.after == self.after,
            r.direction == self.direction,
            r.limit == self.limit,
    {
        Self { page_size: Some(page_size), ..self }
    }

    /// Caps how many entries are fetched over all pages.
    pub fn limit(self, limit: usize) -> (r: Self)
        ensures
            r.limit == Some(limit),
            r.url == self.url,
            r.activity_types == self.activity_types,
            r.category == self.category,
            r.date == self.date,
            r.until == self.until,
            r.after == self.after,
            r.direction == self.direction,
            r.page_size == self.page_size,
    {
        Self { limit: Some(limit), ..self }
    }

    /// Writes the request URL, query parameters in their fixed order.
    /// The overall `limit` caps paging and is not a query parameter.
    pub fn build(&self) -> (r: String)
        ensures
            r@ == self.spec_url(),
    {
        let mut q = self.url.clone();
        q.append("?");
        if let Some(ts) = &self.activity_types {
            q.append("&activity_types=");
            push_join(&mut q, ts);
        }
        push_opt(&mut q, "&category=", &self.category);
        push_opt(&mut q, "&date=", &self.date);
        push_opt(&mut q, "&until=", &self.until);
        push_opt(&mut q, "&after=", &self.after);
        push_opt(&mut q, "&direction=", &self.direction);
        if let Some(n) = self.page_size {
            q.append("&page_size=");
            push_u64(&mut q, n as u64);
        }
        assert(q@ =~= self.spec_url());
        q
    }
}

} // verus!
