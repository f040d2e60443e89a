//! Open positions: the position snapshot and the routes that fetch and
//! close positions.

use crate::trading::AccountType;
use crate::trading::order::Order;
use vstd::prelude::*;
use vstd::string::StringExecFns;

verus! {

/// What closing one position reports.
#[derive(Debug)]
pub struct ClosedPosition {
    pub symbol: String,
    pub status: i32,
    pub body: Order,
}

/// One open position.
#[derive(Debug, Clone)]
pub struct Position {
    pub asset_id: String,
    pub symbol: String,
    pub exchange: String,
    pub asset_class: String,
    pub avg_entry_price: String,
    pub qty: String,
    pub qty_available: String,
    pub side: String,
    pub market_value: String,
    pub cost_basis: String,
    pub unrealized_pl: String,
    pub unrealized_plpc: String,
    pub unrealized_intraday_pl: String,
    pub unrealized_intraday_plpc: String,
    pub current_price: String,
    pub lastday_price: String,
    pub change_today: String,
}

/// Query against the positions endpoint of one account.
pub struct PositionsQuery {
    pub url: String,
}

impl PositionsQuery {
    /// A fresh query against the positions endpoint of the chosen
    /// account.
    pub fn new(account_type: AccountType) -> (r: Self)
        ensures
            (account_type matches AccountType::Live ==> r.url@
                == "https://api.alpaca.markets/v2/positions"@),
            (account_type matches AccountType::Paper ==> r.url@
                == "https://paper-api.alpaca.markets/v2/positions"@),
    {
        PositionsQuery {
            url: match account_type {
                AccountType::Live => "https://api.alpaca.markets/v2/positions".to_owned(),
                AccountType::Paper => "https://paper-api.alpaca.markets/v2/positions".to_owned(),
            },
        }
    }

    /// The route of one position, by symbol or by asset id.
    pub fn position_route(&self, id_or_symbol: &str) -> (r: String)
        ensures
            r@ == self.url@ + "/"@ + id_or_symbol@,
    {
        let mut q = self.url.clone();
        q.append("/");
        q.append(id_or_symbol);
        assert(q@ =~= self.url@ + "/"@ + id_or_symbol@);
        q
    }
}

} // verus!
