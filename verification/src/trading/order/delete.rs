//! Deleting orders: the per-order outcome of a bulk delete.

use crate::trading::AccountType;
use vstd::prelude::*;

verus! {

/// What the bulk delete reports for one order.
#[derive(Debug, Clone)]
pub struct DeleteOrderResult {
    pub id: String,
    pub status: i32,
}

/// The orders endpoint of the chosen account.
pub fn orders_url(account_type: &AccountType) -> (r: String)
    ensures
        (account_type matches AccountType::Live ==> r@ == "https://api.alpaca.markets/v2/orders"@),
        (account_type matches AccountType::Paper ==> r@
            == "https://paper-api.alpaca.markets/v2/orders"@),
{
    match account_type {
        AccountType::Live => "https://api.alpaca.markets/v2/orders".to_owned(),
        AccountType::Paper => "https://paper-api.alpaca.markets/v2/orders".to_owned(),
    }
}

} // verus!
