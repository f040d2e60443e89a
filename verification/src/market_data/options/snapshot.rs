//! Option snapshots: greeks and latest state per contract.

use crate::strutil::opt_field;
use crate::strutil::push_bool;
use crate::strutil::push_i64;
use crate::strutil::push_join;
use crate::strutil::push_opt;
use crate::strutil::push_sort;
use crate::strutil::spec_bool;
use crate::strutil::spec_dec_int;
use crate::strutil::spec_join;
use crate::strutil::spec_sort;
use crate::strutil::to_owned_vec;
use vstd::prelude::*;
use vstd::string::StringExecFns;

verus! {

/// Query for the latest option snapshot of each contract.
pub struct OptionSnapshotQuery {
    pub url: String,
    pub symbols: Vec<String>,
    pub feed: Option<String>,
    pub updated_since: Option<String>,
    pub limit: Option<i32>,
}

impl OptionSnapshotQuery {
    /// The full request URL this query stands for.
    pub open spec fn spec_url(self) -> Seq<char> {
        self.url@ + "?symbols="@ + spec_join(self.symbols@) + opt_field("&feed="@, self.feed) + opt_field("&updated_since="@, self.updated_since) + (match self.limit {
            Some(n) => "&limit="@ + spec_dec_int(n as int),
            None => Seq::empty(),
        })
    }

    /// A fresh query over the given symbols.
    pub fn new(symbols: Vec<&str>) -> (r: Self)
        ensures
            r.url@ == "https://data.alpaca.markets/v1beta1/options/snapshots"@,
            r.symbols@.len() == symbols@.len(),
            forall|i: int| 0 <= i < symbols@.len() ==> r.symbols@[i]@ == symbols@[i]@,
            r.feed is None,
            r.updated_since is None,
            r.limit is None,
    {
        OptionSnapshotQuery {
            url: "https://data.alpaca.markets/v1beta1/options/snapshots".to_owned(),
            symbols: to_owned_vec(symbols),
            feed: None,
            updated_since: None,
            limit: None,
        }
    }

    /// Sets which data feed serves the request.
    pub fn feed(self, feed: &str) -> (r: Self)
        ensures
            r.feed matches Some(s) && s@ == feed@,
            r == (Self { feed: r.feed, ..self }),
    {
        Self { feed: Some(feed.to_owned()), ..self }
    }

    /// Keeps only entries updated since the given time.
    pub fn updated_since(self, updated_since: &str) -> (r: Self)
        ensures
            r.updated_since matches Some(s) && s@ == updated_since@,
            r == (Self { updated_since: r.updated_since, ..self }),
    {
        Self { updated_since: Some(updated_since.to_owned()), ..self }
    }

    /// Caps how many entries come back.
    pub fn limit(self, limit: i32) -> (r: Self)
        ensures
            r.limit == Some(limit),
            r == (Self { limit: r.limit, ..self }),
    {
        Self { limit: Some(limit), ..self }
    }

    /// Writes the request URL, query parameters in their fixed order.
    pub fn build(&self) -> (r: String)
        ensures
            r@ == self.spec_url(),
    {
        let mut q = self.url.clone();
        q.append("?symbols=");
        push_join(&mut q, &self.symbols);
        push_opt(&mut q, "&feed=", &self.feed);
        push_opt(&mut q, "&updated_since=", &self.updated_since);
        if let Some(n) = self.limit {
            q.append("&limit=");
            push_i64(&mut q, n as i64);
        }
        assert(q@ =~= self.spec_url());
        q
    }
}

} // verus!
