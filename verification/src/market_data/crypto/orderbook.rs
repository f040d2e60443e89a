//! Crypto order books: the latest book of each symbol.

use crate::strutil::opt_field;
use crate::strutil::push_bool;
use crate::strutil::push_i64;
use crate::strutil::push_join;
use crate::strutil::push_opt;
use crate::strutil::push_sort;
use crate::strutil::spec_bool;
use crate::strutil::spec_dec_int;
use crate::strutil::spec_join;
use crate::strutil::spec_sort;
use crate::strutil::to_owned_vec;
use vstd::prelude::*;
use vstd::string::StringExecFns;

verus! {

/// Query for the latest crypto order book of each symbol.
pub struct OrderbookQuery {
    pub url: String,
    pub symbols: Vec<String>,

}

impl OrderbookQuery {
    /// The full request URL this query stands for.
    pub open spec fn spec_url(self) -> Seq<char> {
        self.url@ + "?symbols="@ + spec_join(self.symbols@)
    }

    /// A fresh query over the given symbols.
    pub fn new(symbols: Vec<&str>) -> (r: Self)
        ensures
            r.url@ == "https://data.alpaca.markets/v1beta3/crypto/us/latest/orderbooks"@,
            r.symbols@.len() == symbols@.len(),
            forall|i: int| 0 <= i < symbols@.len() ==> r.symbols@[i]@ == symbols@[i]@,

    {
        OrderbookQuery {
            url: "https://data.alpaca.markets/v1beta3/crypto/us/latest/orderbooks".to_owned(),
            symbols: to_owned_vec(symbols),

        }
    }


    /// Writes the request URL, query parameters in their fixed order.
    pub fn build(&self) -> (r: String)
        ensures
            r@ == self.spec_url(),
    {
        let mut q = self.url.clone();
        q.append("?symbols=");
        push_join(&mut q, &self.symbols);

        assert(q@ =~= self.spec_url());
        q
    }
}

} // verus!
