//! Option market data: bars, quotes, snapshots and trades per contract.

mod bars;
pub use bars::HistoricalOptionBarsQuery;

mod quotes;
pub use quotes::LatestOptionQuotesQuery;

mod snapshot;
pub use snapshot::OptionSnapshotQuery;

mod trades;
pub use trades::HistoricalOptionTradesQuery;
pub use trades::LatestOptionTradesQuery;
