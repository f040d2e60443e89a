//! The market clock endpoint: whether the market is open right now.

use vstd::prelude::*;

verus! {

/// The market clock snapshot the API returns.
#[derive(Debug, Clone)]
pub struct MarketClock {
    pub timestamp: String,
    pub is_open: bool,
    pub next_open: String,
    pub next_close: String,
}

/// The clock endpoint of the chosen account.
pub fn clock_url(account_type: &crate::trading::AccountType) -> (r: String)
    ensures
        (account_type matches crate::trading::AccountType::Live ==> r@
            == "https://api.alpaca.markets/v2/clock"@),
        (account_type matches crate::trading::AccountType::Paper ==> r@
            == "https://paper-api.alpaca.markets/v2/clock"@),
{
    match account_type {
        crate::trading::AccountType::Live => "https://api.alpaca.markets/v2/clock".to_owned(),
        crate::trading::AccountType::Paper => "https://paper-api.alpaca.markets/v2/clock".to_owned(),
    }
}

} // verus!
