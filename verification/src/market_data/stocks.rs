//! Stock market data: auctions, bars, quotes, snapshots and trades.

mod auctions;
pub use auctions::HistoricalAuctionsQuery;

mod bars;
pub use bars::HistoricalBarsQuery;
pub use bars::LatestBarsQuery;

mod quotes;
pub use quotes::HistoricalQuotesQuery;
pub use quotes::LatestQuotesQuery;

mod snapshot;
pub use snapshot::SnapshotsQuery;

mod trades;
pub use trades::HistoricalTradesQuery;
pub use trades::LatestTradesQuery;
