use alpaca_api_client::trading::AccountType;
use alpaca_api_client::trading::account::Account;
use alpaca_api_client::trading::activities::ActivitiesQuery;
use alpaca_api_client::trading::assets::AssetsQuery;
use alpaca_api_client::trading::assets::OptionContractsQuery;
use alpaca_api_client::trading::calendar::CalendarQuery;
use alpaca_api_client::trading::clock::clock_url;
use alpaca_api_client::trading::order::OrderSide;
use alpaca_api_client::trading::order::create::CreateOrderQuery;
use alpaca_api_client::trading::order::create::OrderClass;
use alpaca_api_client::trading::order::create::OrderType;
use alpaca_api_client::trading::order::create::StopLoss;
use alpaca_api_client::trading::order::create::TakeProfit;
use alpaca_api_client::trading::order::create::TimeInForce;
use alpaca_api_client::trading::order::delete::orders_url;
use alpaca_api_client::trading::order::get::GetOrdersQuery;
use alpaca_api_client::trading::order::replace::ReplaceOrderQuery;
use alpaca_api_client::trading::portfolio::PortfolioHistoryQuery;
use alpaca_api_client::trading::positions::PositionsQuery;

#[test]
fn test_get_calendar_query() {
    let route = CalendarQuery::new(AccountType::Paper).build();
    assert_eq!(route, "https://paper-api.alpaca.markets/v2/calendar?");
}

#[test]
fn test_get_activities_query() {
    let route = ActivitiesQuery::new(AccountType::Paper).build();
    assert_eq!(route, "https://paper-api.alpaca.markets/v2/account/activities?");
}

#[test]
fn test_all_assets_query() {
    let route = AssetsQuery::new(AccountType::Paper).status("active").build();
    assert_eq!(route, "https://paper-api.alpaca.markets/v2/assets?&status=active");
}

#[test]
fn test_get_asset_by_id() {
    let route = AssetsQuery::new(AccountType::Paper).asset_route("AAPL");
    assert_eq!(route, "https://paper-api.alpaca.markets/v2/assets/AAPL");
}

#[test]
fn test_get_asset_by_symbol() {
    let route = AssetsQuery::new(AccountType::Paper).asset_route("AAPL");
    assert_eq!(route, "https://paper-api.alpaca.markets/v2/assets/AAPL");
}

#[test]
fn test_all_option_contracts_query() {
    let route = OptionContractsQuery::new(AccountType::Paper).limit(10).build();
    assert_eq!(route, "https://paper-api.alpaca.markets/v2/options/contracts?&limit=10");
}

#[test]
fn test_get_option_contract_by_id() {
    let route = OptionContractsQuery::new(AccountType::Paper)
        .contract_route("79fd0e4b-255c-4016-91f8-4c5304a16c76");
    assert_eq!(
        route,
        "https://paper-api.alpaca.markets/v2/options/contracts/79fd0e4b-255c-4016-91f8-4c5304a16c76"
    );
}

#[test]
fn test_get_option_contract_by_symbol() {
    let route = OptionContractsQuery::new(AccountType::Paper).contract_route("A240920C00105000");
    assert_eq!(
        route,
        "https://paper-api.alpaca.markets/v2/options/contracts/A240920C00105000"
    );
}

#[test]
fn test_get_market_clock() {
    let route = clock_url(&AccountType::Paper);
    assert_eq!(route, "https://paper-api.alpaca.markets/v2/clock");
}

#[test]
fn test_get_paper_account() {
    assert_eq!(Account::paper_url(), "https://paper-api.alpaca.markets/v2/account");
}

#[test]
fn test_get_live_account() {
    assert_eq!(Account::live_url(), "https://api.alpaca.markets/v2/account");
}

#[test]
fn test_create_order() {
    let order = CreateOrderQuery::new("AAPL", OrderSide::Buy, OrderType::Market, TimeInForce::Day)
        .qty("1");
    assert_eq!(
        order.body_json(),
        r#"{"symbol":"AAPL","side":"buy","type":"market","time_in_force":"day","extend_hours":false,"qty":"1"}"#
    );
    assert_eq!(
        order.order_url(&AccountType::Paper),
        "https://paper-api.alpaca.markets/v2/orders"
    );
}

#[test]
fn test_create_market_order() {
    let order = CreateOrderQuery::new("AAPL", OrderSide::Buy, OrderType::Market, TimeInForce::Day)
        .qty("1");
    assert_eq!(
        order.body_json(),
        r#"{"symbol":"AAPL","side":"buy","type":"market","time_in_force":"day","extend_hours":false,"qty":"1"}"#
    );
}

#[test]
fn test_create_limit_order() {
    let order = CreateOrderQuery::new(
        "AAPL",
        OrderSide::Buy,
        OrderType::Limit,
        TimeInForce::GoodTilCanceled,
    )
    .limit_price("100")
    .qty("1");
    assert_eq!(
        order.body_json(),
        r#"{"symbol":"AAPL","side":"buy","type":"limit","time_in_force":"gtc","extend_hours":false,"qty":"1","limit_price":"100"}"#
    );
}

#[test]
fn test_create_stop_order() {
    let order = CreateOrderQuery::new(
        "AAPL",
        OrderSide::Buy,
        OrderType::Stop,
        TimeInForce::GoodTilCanceled,
    )
    .stop_price("100")
    .qty("1");
    assert_eq!(
        order.body_json(),
        r#"{"symbol":"AAPL","side":"buy","type":"stop","time_in_force":"gtc","extend_hours":false,"qty":"1","stop_price":"100"}"#
    );
}

#[test]
fn test_create_stop_limit_order() {
    let order = CreateOrderQuery::new(
        "AAPL",
        OrderSide::Buy,
        OrderType::StopLimit,
        TimeInForce::GoodTilCanceled,
    )
    .stop_price("100")
    .limit_price("200")
    .qty("1");
    assert_eq!(
        order.body_json(),
        r#"{"symbol":"AAPL","side":"buy","type":"stop_limit","time_in_force":"gtc","extend_hours":false,"qty":"1","limit_price":"200","stop_price":"100"}"#
    );
}

#[test]
fn test_create_trailing_stop_order() {
    let order = CreateOrderQuery::new(
        "AAPL",
        OrderSide::Buy,
        OrderType::TrailingStop,
        TimeInForce::GoodTilCanceled,
    )
    .qty("1")
    .trail_percent("10");
    assert_eq!(
        order.body_json(),
        r#"{"symbol":"AAPL","side":"buy","type":"trailing_stop","time_in_force":"gtc","extend_hours":false,"qty":"1","trail_percent":"10"}"#
    );
}

#[test]
fn test_create_bracket_order() {
    let order = CreateOrderQuery::new(
        "AAPL",
        OrderSide::Buy,
        OrderType::Market,
        TimeInForce::GoodTilCanceled,
    )
    .qty("1")
    .order_class(OrderClass::Bracket)
    .take_profit(TakeProfit::new("300"))
    .stop_loss(StopLoss::new("200", "199"));
    assert_eq!(
        order.body_json(),
        r#"{"symbol":"AAPL","side":"buy","type":"market","time_in_force":"gtc","extend_hours":false,"qty":"1","order_class":"bracket","take_profit":{"limit_price":"300"},"stop_loss":{"stop_price":"200","limit_price":"199"}}"#
    );
}

#[test]
fn test_create_oco_order() {
    let order = CreateOrderQuery::new(
        "AAPL",
        OrderSide::Buy,
        OrderType::Limit,
        TimeInForce::GoodTilCanceled,
    )
    .qty("1")
    .order_class(OrderClass::OneCancelsOther)
    .take_profit(TakeProfit::new("199"))
    .stop_loss(StopLoss::new("200", "201"));
    assert_eq!(
        order.body_json(),
        r#"{"symbol":"AAPL","side":"buy","type":"limit","time_in_force":"gtc","extend_hours":false,"qty":"1","order_class":"oco","take_profit":{"limit_price":"199"},"stop_loss":{"stop_price":"200","limit_price":"201"}}"#
    );
}

#[test]
fn test_create_oto_order() {
    let order = CreateOrderQuery::new(
        "AAPL",
        OrderSide::Buy,
        OrderType::Market,
        TimeInForce::GoodTilCanceled,
    )
    .qty("1")
    .order_class(OrderClass::OneTriggersOther)
    .stop_loss(StopLoss::new("200", "189"));
    assert_eq!(
        order.body_json(),
        r#"{"symbol":"AAPL","side":"buy","type":"market","time_in_force":"gtc","extend_hours":false,"qty":"1","order_class":"oto","stop_loss":{"stop_price":"200","limit_price":"189"}}"#
    );
}

#[test]
fn test_delete_all_orders() {
    let route = orders_url(&AccountType::Paper);
    assert_eq!(route, "https://paper-api.alpaca.markets/v2/orders");
}

#[test]
fn test_get_all_orders_query() {
    let route = GetOrdersQuery::new(AccountType::Paper)
        .status("closed")
        .limit(5)
        .build();
    assert_eq!(
        route,
        "https://paper-api.alpaca.markets/v2/orders?&status=closed&limit=5"
    );
}

#[test]
fn test_replace_order() {
    let query = ReplaceOrderQuery::new("615bbc4d-966c-470e-bc37-fd0ae3218927").qty("2");
    assert_eq!(
        query.order_route(&AccountType::Paper),
        "https://paper-api.alpaca.markets/v2/orders/615bbc4d-966c-470e-bc37-fd0ae3218927"
    );
    assert_eq!(query.body_json(), r#"{"qty":"2"}"#);
}

#[test]
fn test_get_portfolio_history() {
    let route = PortfolioHistoryQuery::new(AccountType::Paper).build();
    assert_eq!(
        route,
        "https://paper-api.alpaca.markets/v2/account/portfolio/history?"
    );
}

#[test]
fn test_get_all_positions_query() {
    let query = PositionsQuery::new(AccountType::Paper);
    assert_eq!(query.url, "https://paper-api.alpaca.markets/v2/positions");
}

#[test]
fn test_get_position_by_symbol() {
    let route = PositionsQuery::new(AccountType::Paper).position_route("AAPL");
    assert_eq!(route, "https://paper-api.alpaca.markets/v2/positions/AAPL");
}

#[test]
fn test_get_position_by_id() {
    let route = PositionsQuery::new(AccountType::Paper)
        .position_route("b0b6dd9d-8b9b-48a9-ba46-b9d54906e415");
    assert_eq!(
        route,
        "https://paper-api.alpaca.markets/v2/positions/b0b6dd9d-8b9b-48a9-ba46-b9d54906e415"
    );
}
