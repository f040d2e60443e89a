//! Trading-account endpoints: account, orders, positions, assets,
//! activities, calendar, clock and portfolio history.

pub mod account;
pub mod activities;
pub mod assets;
pub mod calendar;
pub mod clock;
pub mod order;
pub mod portfolio;
pub mod positions;

use vstd::prelude::*;

verus! {

/// Whether a request is aimed at the live account or the paper
/// (simulated) account; each account-scoped endpoint has one base URL
/// for either.
pub enum AccountType {
    Live,
    Paper,
}

} // verus!
