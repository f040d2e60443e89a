//! Market-data endpoints: bars, trades, quotes, snapshots, order books,
//! news and screeners, for stocks, crypto and options.

pub mod crypto;
pub mod news;
pub mod options;
pub mod screener;
pub mod stocks;
