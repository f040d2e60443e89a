//! Fetching orders: the list query and the single-order route.

use crate::strutil::opt_field;
use crate::strutil::push_opt;
use crate::strutil::push_u64;
use crate::strutil::push_bool;
use crate::strutil::spec_bool;
use crate::strutil::spec_dec;
use crate::strutil::spec_join;
use crate::strutil::push_join;
use crate::strutil::to_owned_vec;
use crate::trading::AccountType;
use vstd::prelude::*;
use vstd::string::StringExecFns;

verus! {

/// Query for the account's orders.
pub struct GetOrdersQuery {
    pub url: String,
    pub status: Option<String>,
    pub limit: Option<usize>,
    pub after: Option<String>,
    pub until: Option<String>,
    pub direction: Option<String>,
    pub nested: Option<bool>,
    pub symbols: Option<Vec<String>>,
    pub side: Option<String>,
}

impl GetOrdersQuery {
    /// The full request URL this query stands for.
    pub open spec fn spec_url(self) -> Seq<char> {
        self.url@ + "?"@ + opt_field("&status="@, self.status) + (match self.limit {
            Some(n) => "&limit="@ + spec_dec(n as nat),
            None => Seq::empty(),
        }) + opt_field("&after="@, self.after) + opt_field("&until="@, self.until) + opt_field(
            "&direction="@,
            self.direction,
        ) + (match self.nested {
            Some(b) => "&nested="@ + spec_bool(b),
            None => Seq::empty(),
        }) + (match self.symbols {
            Some(ts) => "&symbols="@ + spec_join(ts@),
            None => Seq::empty(),
        }) + opt_field("&side="@, self.side)
    }

    /// A fresh query against the orders endpoint of the chosen account.
    pub fn new(account_type: AccountType) -> (r: Self)
        ensures
            (account_type matches AccountType::Live ==> r.url@
                == "https://api.alpaca.markets/v2/orders"@),
            (account_type matches AccountType::Paper ==> r.url@
                == "https://paper-api.alpaca.markets/v2/orders"@),
            r.status is None,
            r.limit is None,
            r.after is None,
            r.until is None,
            r.direction is None,
            r.nested is None,
            r.symbols is None,
            r.side is None,
    {
        GetOrdersQuery {
            url: match account_type {
                AccountType::Live => "https://api.alpaca.markets/v2/orders".to_owned(),
                AccountType::Paper => "https://paper-api.alpaca.markets/v2/orders".to_owned(),
            },
            status: None,
            limit: None,
            after: None,
            until: None,
            direction: None,
            nested: None,
            symbols: None,
            side: None,
        }
    }

    /// Keeps only orders of the given status.
    pub fn status(self, status: &str) -> (r: Self)
        ensures
            r.status matches Some(s) && s@ == status@,
            r == (Self { status: r.status, ..self }),
    {
        Self { status: Some(status.to_owned()), ..self }
    }

    /// Caps how many orders come back.
    pub fn limit(self, limit: usize) -> (r: Self)
        ensures
            r.limit == Some(limit),
            r == (Self { limit: r.limit, ..self }),
    {
        Self { limit: Some(limit), ..self }
    }

    /// Keeps only orders submitted after the given time.
    pub fn after(self, after: &str) -> (r: Self)
        ensures
            r.after matches Some(s) && s@ == after@,
            r == (Self { after: r.after, ..self }),
    {
        Self { after: Some(after.to_owned()), ..self }
    }

    /// Keeps only orders submitted before the given time.
    pub fn until(self, until: &str) -> (r: Self)
        ensures
            r.until matches Some(s) && s@ == until@,
            r == (Self { until: r.until, ..self }),
    {
        Self { until: Some(until.to_owned()), ..self }
    }

    /// Sets the sort direction.
    pub fn direction(self, direction: &str) -> (r: Self)
        ensures
            r.direction matches Some(s) && s@ == direction@,
            r == (Self { direction: r.direction, ..self }),
    {
        Self { direction: Some(direction.to_owned()), ..self }
    }

    /// Asks for bracket legs nested under their parent.
    pub fn nested(self, nested: bool) -> (r: Self)
        ensures
            r.nested == Some(nested),
            r == (Self { nested: r.nested, ..self }),
    {
        Self { nested: Some(nested), ..self }
    }

    /// Keeps only orders over the given symbols.
    pub fn symbols(self, symbols: Vec<&str>) -> (r: Self)
        ensures
            r.symbols matches Some(ts) && ts@.len() == symbols@.len() && (forall|i: int|
                0 <= i < ts@.len() ==> ts@[i]@ == symbols@[i]@),
            r == (Self { symbols: r.symbols, ..self }),
    {
        Self { symbols: Some(to_owned_vec(symbols)), ..self }
    }

    /// Keeps only buys or only sells.
    pub fn side(self, side: &str) -> (r: Self)
        ensures
            r.side matches Some(s) && s@ == side@,
            r == (Self { side: r.side, ..self }),
    {
        Self { side: Some(side.to_owned()), ..self }
    }

    /// The route of one order by id, with the nested flag.
    pub fn order_route(&self, id: &str, nested: bool) -> (r: String)
        ensures
            r@ == self.url@ + "/"@ + id@ + "?&nested="@ + spec_bool(nested),
    {
        let mut q = self.url.clone();
        q.append("/");
        q.append(id);
        q.append("?&nested=");
        push_bool(&mut q, nested);
        assert(q@ =~= self.url@ + "/"@ + id@ + "?&nested="@ + spec_bool(nested));
        q
    }

    /// Writes the request URL, query parameters in their fixed order.
    pub fn build(&self) -> (r: String)
        ensures
            r@ == self.spec_url(),
    {
        let mut q = self.url.clone();
        q.append("?");
        push_opt(&mut q, "&status=", &self.status);
        if let Some(n) = self.limit {
            q.append("&limit=");
            push_u64(&mut q, n as u64);
        }
        push_opt(&mut q, "&after=", &self.after);
        push_opt(&mut q, "&until=", &self.until);
        push_opt(&mut q, "&direction=", &self.direction);
        if let Some(b) = self.nested {
            q.append("&nested=");
            push_bool(&mut q, b);
        }
        if let Some(ts) = &self.symbols {
            q.append("&symbols=");
            push_join(&mut q, ts);
        }
        push_opt(&mut q, "&side=", &self.side);
        assert(q@ =~= self.spec_url());
        q
    }
}

} // verus!
