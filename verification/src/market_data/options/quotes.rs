//! Option quotes: the latest quote per contract.

use crate::strutil::opt_field;
use crate::strutil::push_bool;
use crate::strutil::push_i64;
use crate::strutil::push_join;
use crate::strutil::push_opt;
use crate::strutil::push_sort;
use crate::strutil::spec_bool;
use crate::strutil::spec_dec_int;
use crate::strutil::spec_join;
use crate::strutil::spec_sort;
use crate::strutil::to_owned_vec;
use vstd::prelude::*;
use vstd::string::StringExecFns;

verus! {

/// Query for the latest option quote of each contract.
pub struct LatestOptionQuotesQuery {
    pub url: String,
    pub symbols: Vec<String>,
    pub feed: Option<String>,
}

impl LatestOptionQuotesQuery {
    /// The full request URL this query stands for.
    pub open spec fn spec_url(self) -> Seq<char> {
        self.url@ + "?symbols="@ + spec_join(self.symbols@) + opt_field("&feed="@, self.feed)
    }

    /// A fresh query over the given symbols.
    pub fn new(symbols: Vec<&str>) -> (r: Self)
        ensures
            r.url@ == "https://data.alpaca.markets/v1beta1/options/quotes/latest"@,
            r.symbols@.len() == symbols@.len(),
            forall|i: int| 0 <= i < symbols@.len() ==> r.symbols@[i]@ == symbols@[i]@,
            r.feed is None,
    {
        LatestOptionQuotesQuery {
            url: "https://data.alpaca.markets/v1beta1/options/quotes/latest".to_owned(),
            symbols: to_owned_vec(symbols),
            feed: None,
        }
    }

    /// Sets which data feed serves the request.
    pub fn feed(self, feed: &str) -> (r: Self)
        ensures
            r.feed matches Some(s) && s@ == feed@,
            r == (Self { feed: r.feed, ..self }),
    {
        Self { feed: Some(feed.to_owned()), ..self }
    }

    /// Writes the request URL, query parameters in their fixed order.
    pub fn build(&self) -> (r: String)
        ensures
            r@ == self.spec_url(),
    {
        let mut q = self.url.clone();
        q.append("?symbols=");
        push_join(&mut q, &self.symbols);
        push_opt(&mut q, "&feed=", &self.feed);
        assert(q@ =~= self.spec_url());
        q
    }
}

} // verus!
