//! A client library for a trading brokerage's HTTP and socket APIs:
//! typed, verified builders for the REST endpoints, and the real-time
//! streaming subsystem — transport model, wire codec, authentication
//! handshakes, subscriptions and session loops — with its protocol
//! behaviour stated in contracts and proved.

pub mod market_data;
pub mod stream;
pub mod strutil;
pub mod timeframe;
pub mod trading;
pub mod trend;

pub use timeframe::TimeFrame;
pub use trend::Trend;
