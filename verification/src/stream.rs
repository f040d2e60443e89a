//! The real-time streaming subsystem: wire codec, authentication
//! handshakes, subscription builders and the session loops for the two
//! socket feeds (market data and account trade updates).

pub mod codec;
pub mod error;
pub mod json;
pub mod crypto;
pub mod order_json;
pub mod session;
pub mod trade_updates;
pub mod transport;
pub mod types;

pub use crypto::CryptoStream;
pub use error::StreamError;
pub use trade_updates::TradeUpdateStream;
pub use types::Feed;
pub use types::MarketDataMessage;
pub use types::StreamBar;
pub use types::StreamQuote;
pub use types::StreamStatus;
pub use types::StreamTrade;
pub use types::TradeUpdate;
