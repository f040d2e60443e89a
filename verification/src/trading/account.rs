//! The trading account endpoint: one snapshot of the account's state.

use std::collections::HashMap;
use vstd::prelude::*;

verus! {

/// The account snapshot the trading API returns.
#[derive(Debug, Clone)]
pub struct Account {
    pub id: String,
    pub admin_configurations: HashMap<String, String>,
    pub user_configurations: Option<HashMap<String, String>>,
    pub account_number: String,
    pub status: String,
    pub crypto_status: String,
    pub currency: String,
    pub buying_power: String,
    pub regt_buying_power: String,
    pub daytrading_buying_power: String,
    pub options_buying_power: String,
    pub effective_buying_power: String,
    pub non_marginable_buying_power: String,
    pub bod_dtbp: String,
    pub cash: String,
    pub accrued_fees: String,
    pub pending_transfer_in: Option<String>,
    pub portfolio_value: String,
    pub pattern_day_trader: bool,
    pub trading_blocked: bool,
    pub transfers_blocked: bool,
    pub account_blocked: bool,
    pub created_at: String,
    pub trade_suspended_by_user: bool,
    pub multiplier: String,
    pub shorting_enabled: bool,
    pub equity: String,
    pub last_equity: String,
    pub long_market_value: String,
    pub short_market_value: String,
    pub initial_margin: String,
    pub maintenance_margin: String,
    pub last_maintenance_margin: String,
    pub sma: String,
    pub daytrade_count: i32,
    pub balance_asof: String,
    pub crypto_tier: usize,
    pub options_trading_level: usize,
    pub intraday_adjustments: String,
    pub pending_reg_taf_fees: String,
}

impl Account {
    /// The paper account endpoint.
    pub fn paper_url() -> (r: String)
        ensures
            r@ == "https://paper-api.alpaca.markets/v2/account"@,
    {
        "https://paper-api.alpaca.markets/v2/account".to_owned()
    }

    /// The live account endpoint.
    pub fn live_url() -> (r: String)
        ensures
            r@ == "https://api.alpaca.markets/v2/account"@,
    {
        "https://api.alpaca.markets/v2/account".to_owned()
    }
}

} // verus!
