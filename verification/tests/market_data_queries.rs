use alpaca_api_client::TimeFrame;
use alpaca_api_client::market_data::crypto::HistoricalCryptoBarsQuery;
use alpaca_api_client::market_data::crypto::HistoricalCryptoQuotesQuery;
use alpaca_api_client::market_data::crypto::HistoricalCryptoTradesQuery;
use alpaca_api_client::market_data::crypto::LatestCryptoBarsQuery;
use alpaca_api_client::market_data::crypto::LatestCryptoQuotesQuery;
use alpaca_api_client::market_data::crypto::LatestCryptoTradesQuery;
use alpaca_api_client::market_data::crypto::OrderbookQuery;
use alpaca_api_client::market_data::crypto::SnapshotsQuery;
use alpaca_api_client::market_data::news::NewsQuery;
use alpaca_api_client::market_data::options::HistoricalOptionBarsQuery;
use alpaca_api_client::market_data::options::HistoricalOptionTradesQuery;
use alpaca_api_client::market_data::options::LatestOptionQuotesQuery;
use alpaca_api_client::market_data::options::LatestOptionTradesQuery;
use alpaca_api_client::market_data::options::OptionSnapshotQuery;
use alpaca_api_client::market_data::screener::ActiveStocksQuery;
use alpaca_api_client::market_data::screener::MarketType;
use alpaca_api_client::market_data::screener::TopMoversQuery;
use alpaca_api_client::market_data::stocks::HistoricalAuctionsQuery;
use alpaca_api_client::market_data::stocks::HistoricalBarsQuery;
use alpaca_api_client::market_data::stocks::HistoricalQuotesQuery;
use alpaca_api_client::market_data::stocks::HistoricalTradesQuery;
use alpaca_api_client::market_data::stocks::LatestBarsQuery;
use alpaca_api_client::market_data::stocks::LatestQuotesQuery;
use alpaca_api_client::market_data::stocks::LatestTradesQuery;

#[test]
fn test_historical_crypto_bars_query() {
    let test_symbol = "BTC/USD";
    let route = HistoricalCryptoBarsQuery::new(vec![test_symbol], TimeFrame::OneDay).build();
    assert_eq!(
        route,
        "https://data.alpaca.markets/v1beta3/crypto/us/bars?symbols=BTC/USD&timeframe=1D"
    );
}

#[test]
fn test_latest_crypto_bars_query() {
    let test_symbol = "BTC/USD";
    let route = LatestCryptoBarsQuery::new(vec![test_symbol]).build();
    assert_eq!(
        route,
        "https://data.alpaca.markets/v1beta3/crypto/us/latest/bars?symbols=BTC/USD"
    );
}

#[test]
fn test_crypto_orderbook_query() {
    let test_symbol = "BTC/USD";
    let route = OrderbookQuery::new(vec![test_symbol]).build();
    assert_eq!(
        route,
        "https://data.alpaca.markets/v1beta3/crypto/us/latest/orderbooks?symbols=BTC/USD"
    );
}

#[test]
fn test_historical_crypto_quotes_query() {
    let test_symbol = "BTC/USD";
    let route = HistoricalCryptoQuotesQuery::new(vec![test_symbol]).build();
    assert_eq!(
        route,
        "https://data.alpaca.markets/v1beta3/crypto/us/quotes?symbols=BTC/USD"
    );
}

#[test]
fn test_latest_crypto_quotes_query() {
    let test_symbol = "BTC/USD";
    let route = LatestCryptoQuotesQuery::new(vec![test_symbol]).build();
    assert_eq!(
        route,
        "https://data.alpaca.markets/v1beta3/crypto/us/latest/quotes?symbols=BTC/USD"
    );
}

#[test]
fn test_crypto_snapshots_query() {
    let symbols = vec!["BTC/USD"];
    let route = SnapshotsQuery::new(symbols).build();
    assert_eq!(
        route,
        "https://data.alpaca.markets/v1beta3/crypto/us/snapshots?symbols=BTC/USD"
    );
}

#[test]
fn test_historical_crypto_trade_query() {
    let route = HistoricalCryptoTradesQuery::new(vec!["BTC/USD"]).build();
    assert_eq!(
        route,
        "https://data.alpaca.markets/v1beta3/crypto/us/trades?symbols=BTC/USD"
    );
}

#[test]
fn test_latest_crypto_trade_query() {
    let route = LatestCryptoTradesQuery::new(vec!["BTC/USD"]).build();
    assert_eq!(
        route,
        "https://data.alpaca.markets/v1beta3/crypto/us/latest/trades?symbols=BTC/USD"
    );
}

#[test]
fn test_news_query() {
    let symbols = vec!["AAPL"];
    let route = NewsQuery::new(symbols)
        .include_content(true)
        .exclude_contentless(true)
        .limit(10)
        .sort_desc(true)
        .build();
    assert_eq!(
        route,
        "https://data.alpaca.markets/v1beta1/news?symbols=AAPL&limit=10&include_content=true&exclude_contentless=true&sort=desc"
    );
}

#[test]
fn test_historical_option_bars_query() {
    let test_symbol = "AAPL261218C00200000";
    let route = HistoricalOptionBarsQuery::new(vec![test_symbol], TimeFrame::OneDay).build();
    assert_eq!(
        route,
        "https://data.alpaca.markets/v1beta1/options/bars?symbols=AAPL261218C00200000&timeframe=1D"
    );
}

#[test]
fn test_latest_option_quotes_query() {
    let route = LatestOptionQuotesQuery::new(vec!["AAPL241220C00300000"])
        .feed("indicative")
        .build();
    assert_eq!(
        route,
        "https://data.alpaca.markets/v1beta1/options/quotes/latest?symbols=AAPL241220C00300000&feed=indicative"
    );
}

#[test]
fn test_option_snapshot_query() {
    let route = OptionSnapshotQuery::new(vec!["AAPL241220C00300000"]).build();
    assert_eq!(
        route,
        "https://data.alpaca.markets/v1beta1/options/snapshots?symbols=AAPL241220C00300000"
    );
}

#[test]
fn test_historical_option_trade_query() {
    let route = HistoricalOptionTradesQuery::new(vec!["AAPL261218C00200000"])
        .limit(10)
        .build();
    assert_eq!(
        route,
        "https://data.alpaca.markets/v1beta1/options/trades?symbols=AAPL261218C00200000&limit=10"
    );
}

#[test]
fn test_latest_option_trade_query() {
    let route = LatestOptionTradesQuery::new(vec!["AAPL261218C00200000"])
        .feed("indicative")
        .build();
    assert_eq!(
        route,
        "https://data.alpaca.markets/v1beta1/options/trades/latest?symbols=AAPL261218C00200000&feed=indicative"
    );
}

#[test]
fn test_active_stocks_query() {
    let route = ActiveStocksQuery::new().rank_by("volume").top(5).build();
    assert_eq!(
        route,
        "https://data.alpaca.markets/v1beta1/screener/stocks/most-actives?&by=volume&top=5"
    );
}

#[test]
fn test_top_movers_query() {
    let route = TopMoversQuery::new(MarketType::Stocks).top(5).build();
    assert_eq!(
        route,
        "https://data.alpaca.markets/v1beta1/screener/stocks/movers?&top=5"
    );
}

#[test]
fn test_historical_auction_query() {
    let route = HistoricalAuctionsQuery::new(vec!["AAPL"]).feed("sip").build();
    assert_eq!(
        route,
        "https://data.alpaca.markets/v2/stocks/auctions?symbols=AAPL&feed=sip"
    );
}

#[test]
fn test_historical_bar_query() {
    let route = HistoricalBarsQuery::new(vec!["AAPL"], TimeFrame::OneDay)
        .start("2022-02-01")
        .end("2022-03-10")
        .feed("iex")
        .limit(2)
        .build();
    assert_eq!(
        route,
        "https://data.alpaca.markets/v2/stocks/bars?symbols=AAPL&timeframe=1D&start=2022-02-01&end=2022-03-10&limit=2&feed=iex"
    );
}

#[test]
fn test_latest_bar_query() {
    let route = LatestBarsQuery::new(vec!["AAPL", "TSLA"]).feed("iex").build();
    assert_eq!(
        route,
        "https://data.alpaca.markets/v2/stocks/bars/latest?symbols=AAPL,TSLA&feed=iex"
    );
}

#[test]
fn test_historical_quotes_query() {
    let route = HistoricalQuotesQuery::new(vec!["AAPL"]).feed("sip").limit(5).build();
    assert_eq!(
        route,
        "https://data.alpaca.markets/v2/stocks/quotes?symbols=AAPL&feed=sip&limit=5"
    );
}

#[test]
fn test_latest_quotes_query() {
    let route = LatestQuotesQuery::new(vec!["AAPL"]).feed("iex").build();
    assert_eq!(
        route,
        "https://data.alpaca.markets/v2/stocks/quotes/latest?symbols=AAPL&feed=iex"
    );
}

#[test]
fn snapshot_test_snapshot_query() {
    let route = alpaca_api_client::market_data::stocks::SnapshotsQuery::new(vec!["AAPL"])
        .feed("iex")
        .build();
    assert_eq!(
        route,
        "https://data.alpaca.markets/v2/stocks/snapshots?symbols=AAPL&feed=iex"
    );
}

#[test]
fn snapshots_test_snapshot_query() {
    let route = alpaca_api_client::market_data::stocks::SnapshotsQuery::new(vec!["AAPL"])
        .feed("iex")
        .build();
    assert_eq!(
        route,
        "https://data.alpaca.markets/v2/stocks/snapshots?symbols=AAPL&feed=iex"
    );
}

#[test]
fn test_historical_trade_query() {
    let route = HistoricalTradesQuery::new(vec!["AAPL"]).feed("sip").build();
    assert_eq!(
        route,
        "https://data.alpaca.markets/v2/stocks/trades?symbols=AAPL&feed=sip"
    );
}

#[test]
fn test_latest_trade_query() {
    let route = LatestTradesQuery::new(vec!["AAPL"]).build();
    assert_eq!(
        route,
        "https://data.alpaca.markets/v2/stocks/trades/latest?symbols=AAPL"
    );
}

#[test]
fn test_timeframe_parse() {
    assert_eq!(TimeFrame::parse("1Min"), Some(TimeFrame::OneMinute));
    assert_eq!(TimeFrame::parse("1T"), Some(TimeFrame::OneMinute));
    assert_eq!(TimeFrame::parse("4Hour"), Some(TimeFrame::FourHours));
    assert_eq!(TimeFrame::parse("4H"), Some(TimeFrame::FourHours));
    assert_eq!(TimeFrame::parse("1Day"), Some(TimeFrame::OneDay));
    assert_eq!(TimeFrame::parse("1D"), Some(TimeFrame::OneDay));
    assert_eq!(TimeFrame::parse("1Month"), Some(TimeFrame::OneMonth));
    assert_eq!(TimeFrame::parse("2D"), None);
    assert_eq!(TimeFrame::parse(""), None);
}
