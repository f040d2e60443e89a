//! The trade-updates stream: order lifecycle events of one account,
//! live or paper.

use crate::trading::AccountType;
use vstd::prelude::*;

verus! {

/// Builder for the trade updates (account events) stream.
pub struct TradeUpdateStream {
    pub account_type: AccountType,
}

impl TradeUpdateStream {
    /// A fresh stream over the chosen account.
    pub fn new(account_type: AccountType) -> (r: Self)
        ensures
            r.account_type == account_type,
    {
        TradeUpdateStream { account_type }
    }

    /// The fixed endpoint of the account's event stream.
    pub fn feed_url(&self) -> (r: String)
        ensures
            (self.account_type matches AccountType::Paper ==> r@
                == "wss://paper-api.alpaca.markets/stream"@),
            (self.account_type matches AccountType::Live ==> r@
                == "wss://api.alpaca.markets/stream"@),
    {
        match self.account_type {
            AccountType::Paper => "wss://paper-api.alpaca.markets/stream".to_owned(),
            AccountType::Live => "wss://api.alpaca.markets/stream".to_owned(),
        }
    }
}

} // verus!
