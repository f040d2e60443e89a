//! Crypto market data: bars, order books, quotes, snapshots and trades.

mod bars;
pub use bars::HistoricalCryptoBarsQuery;
pub use bars::LatestCryptoBarsQuery;

mod orderbook;
pub use orderbook::OrderbookQuery;

mod quotes;
pub use quotes::HistoricalCryptoQuotesQuery;
pub use quotes::LatestCryptoQuotesQuery;

mod snapshot;
pub use snapshot::SnapshotsQuery;

mod trades;
pub use trades::HistoricalCryptoTradesQuery;
pub use trades::LatestCryptoTradesQuery;
