//! Creating orders: the builder and the exact JSON body it posts.

use crate::strutil::opt_json_member;
use crate::strutil::push_json_string;
use crate::strutil::push_opt_member;
use crate::strutil::push_bool;
use crate::strutil::spec_bool;
use crate::strutil::spec_json_str;
use crate::trading::AccountType;
use crate::trading::order::OrderSide;
use vstd::prelude::*;
use vstd::string::StringExecFns;

verus! {

/// The kinds of order the API accepts.
#[derive(Debug, Clone, Copy, PartialEq, Eq, Structural)]
pub enum OrderType {
    Market,
    Limit,
    Stop,
    StopLimit,
    TrailingStop,
}

impl OrderType {
    /// The word the API uses for this kind.
    pub open spec fn spec_word(self) -> Seq<char> {
        match self {
            OrderType::Market => "market"@,
            OrderType::Limit => "limit"@,
            OrderType::Stop => "stop"@,
            OrderType::StopLimit => "stop_limit"@,
            OrderType::TrailingStop => "trailing_stop"@,
        }
    }

    /// The kind as the API's body word.
    pub fn word(&self) -> (r: String)
        ensures
            r@ == self.spec_word(),
    {
        match self {
            OrderType::Market => "market".to_owned(),
            OrderType::Limit => "limit".to_owned(),
            OrderType::Stop => "stop".to_owned(),
            OrderType::StopLimit => "stop_limit".to_owned(),
            OrderType::TrailingStop => "trailing_stop".to_owned(),
        }
    }
}

/// How long an order stays working.
#[derive(Debug, Clone, Copy, PartialEq, Eq, Structural)]
pub enum TimeInForce {
    Day,
    GoodTilCanceled,
    OpeningOrder,
    ClosingOrder,
    ImmediateOrCancel,
    FillOrKill,
}

impl TimeInForce {
    /// The word the API uses for this duration.
    pub open spec fn spec_word(self) -> Seq<char> {
        match self {
            TimeInForce::Day => "day"@,
            TimeInForce::GoodTilCanceled => "gtc"@,
            TimeInForce::OpeningOrder => "opg"@,
            TimeInForce::ClosingOrder => "cls"@,
            TimeInForce::ImmediateOrCancel => "ioc"@,
            TimeInForce::FillOrKill => "fok"@,
        }
    }

    /// The duration as the API's body word.
    pub fn word(&self) -> (r: String)
        ensures
            r@ == self.spec_word(),
    {
        match self {
            TimeInForce::Day => "day".to_owned(),
            TimeInForce::GoodTilCanceled => "gtc".to_owned(),
            TimeInForce::OpeningOrder => "opg".to_owned(),
            TimeInForce::ClosingOrder => "cls".to_owned(),
            TimeInForce::ImmediateOrCancel => "ioc".to_owned(),
            TimeInForce::FillOrKill => "fok".to_owned(),
        }
    }
}

/// Whether an order stands alone or belongs to a bracket-style group.
#[derive(Debug, Clone, Copy, PartialEq, Eq, Structural)]
pub enum OrderClass {
    Simple,
    Bracket,
    OneCancelsOther,
    OneTriggersOther,
}

impl OrderClass {
    /// The word the API uses for this class; a simple order has none.
    pub open spec fn spec_word(self) -> Seq<char> {
        match self {
            OrderClass::Simple => ""@,
            OrderClass::Bracket => "bracket"@,
            OrderClass::OneCancelsOther => "oco"@,
            OrderClass::OneTriggersOther => "oto"@,
        }
    }

    /// The class as the API's body word.
    pub fn word(&self) -> (r: String)
        ensures
            r@ == self.spec_word(),
    {
        match self {
            OrderClass::Simple => "".to_owned(),
            OrderClass::Bracket => "bracket".to_owned(),
            OrderClass::OneCancelsOther => "oco".to_owned(),
            OrderClass::OneTriggersOther => "oto".to_owned(),
        }
    }
}

/// The take-profit leg of a bracket order.
#[derive(Debug, Clone)]
pub struct TakeProfit {
    pub limit_price: String,
}

impl TakeProfit {
    /// A take-profit leg at the given limit price.
    pub fn new(limit_price: &str) -> (r: Self)
        ensures
            r.limit_price@ == limit_price@,
    {
        TakeProfit { limit_price: limit_price.to_owned() }
    }
}

/// The stop-loss leg of a bracket order.
#[derive(Debug, Clone)]
pub struct StopLoss {
    pub stop_price: String,
    pub limit_price: String,
}

impl StopLoss {
    /// A stop-loss leg with the given stop and limit prices.
    pub fn new(stop_price: &str, limit_price: &str) -> (r: Self)
        ensures
            r.stop_price@ == stop_price@,
            r.limit_price@ == limit_price@,
    {
        StopLoss { stop_price: stop_price.to_owned(), limit_price: limit_price.to_owned() }
    }
}

/// Builder for one new order. The side, kind and duration are fixed at
/// creation; everything else is optional.
pub struct CreateOrderQuery {
    pub symbol: String,
    pub side: String,
    pub kind: String,
    pub time_in_force: String,
    pub extend_hours: bool,
    pub qty: Option<String>,
    pub notional: Option<String>,
    pub limit_price: Option<String>,
    pub stop_price: Option<String>,
    pub trail_price: Option<String>,
    pub trail_percent: Option<String>,
    pub client_order_id: Option<String>,
    pub order_class: Option<String>,
    pub take_profit: Option<TakeProfit>,
    pub stop_loss: Option<StopLoss>,
}

impl CreateOrderQuery {
    /// The members fixed at creation, in declaration order.
    pub open spec fn spec_head(self) -> Seq<char> {
        "{\"symbol\":"@ + spec_json_str(self.symbol@) + ",\"side\":"@ + spec_json_str(self.side@)
            + ",\"type\":"@ + spec_json_str(self.kind@) + ",\"time_in_force\":"@ + spec_json_str(
            self.time_in_force@,
        ) + ",\"extend_hours\":"@ + spec_bool(self.extend_hours)
    }

    /// The optional members that are set, in declaration order.
    pub open spec fn spec_tail(self) -> Seq<char> {
        opt_json_member(",\"qty\":"@, self.qty) + opt_json_member(",\"notional\":"@, self.notional)
            + opt_json_member(",\"limit_price\":"@, self.limit_price) + opt_json_member(
            ",\"stop_price\":"@,
            self.stop_price,
        ) + opt_json_member(",\"trail_price\":"@, self.trail_price) + opt_json_member(
            ",\"trail_percent\":"@,
            self.trail_percent,
        ) + opt_json_member(",\"client_order_id\":"@, self.client_order_id) + opt_json_member(
            ",\"order_class\":"@,
            self.order_class,
        )
    }

    /// The bracket legs that are attached, and the closing brace.
    pub open spec fn spec_legs(self) -> Seq<char> {
        (match self.take_profit {
            Some(tp) => ",\"take_profit\":{\"limit_price\":"@ + spec_json_str(tp.limit_price@)
                + "}"@,
            None => Seq::empty(),
        }) + (match self.stop_loss {
            Some(sl) => ",\"stop_loss\":{\"stop_price\":"@ + spec_json_str(sl.stop_price@)
                + ",\"limit_price\":"@ + spec_json_str(sl.limit_price@) + "}"@,
            None => Seq::empty(),
        }) + "}"@
    }

    /// The exact JSON body this order posts: members in declaration
    /// order, absent options left out.
    pub open spec fn spec_body(self) -> Seq<char> {
        self.spec_head() + self.spec_tail() + self.spec_legs()
    }

    /// A fresh order for the given symbol, side, kind and duration.
    pub fn new(symbol: &str, side: OrderSide, order_type: OrderType, time_in_force: TimeInForce)
        -> (r: Self)
        ensures
            r.symbol@ == symbol@,
            r.side@ == side.spec_word(),
            r.kind@ == order_type.spec_word(),
            r.time_in_force@ == time_in_force.spec_word(),
            !r.extend_hours,
            r.qty is None,
            r.notional is None,
            r.limit_price is None,
            r.stop_price is None,
            r.trail_price is None,
            r.trail_percent is None,
            r.client_order_id is None,
            r.order_class is None,
            r.take_profit is None,
            r.stop_loss is None,
    {
        CreateOrderQuery {
            symbol: symbol.to_owned(),
            side: side.word(),
            kind: order_type.word(),
            time_in_force: time_in_force.word(),
            extend_hours: false,
            qty: None,
            notional: None,
            limit_price: None,
            stop_price: None,
            trail_price: None,
            trail_percent: None,
            client_order_id: None,
            order_class: None,
            take_profit: None,
            stop_loss: None,
        }
    }

    /// Sets the quantity of shares.
    pub fn qty(self, qty: &str) -> (r: Self)
        ensures
            r.qty matches Some(s) && s@ == qty@,
            r == (Self { qty: r.qty, ..self }),
    {
        Self { qty: Some(qty.to_owned()), ..self }
    }

    /// Sets the notional amount instead of a quantity.
    pub fn notional(self, notional: &str) -> (r: Self)
        ensures
            r.notional matches Some(s) && s@ == notional@,
            r == (Self { notional: r.notional, ..self }),
    {
        Self { notional: Some(notional.to_owned()), ..self }
    }

    /// Sets the limit price.
    pub fn limit_price(self, limit_price: &str) -> (r: Self)
        ensures
            r.limit_price matches Some(s) && s@ == limit_price@,
            r == (Self { limit_price: r.limit_price, ..self }),
    {
        Self { limit_price: Some(limit_price.to_owned()), ..self }
    }

    /// Sets the stop price.
    pub fn stop_price(self, stop_price: &str) -> (r: Self)
        ensures
            r.stop_price matches Some(s) && s@ == stop_price@,
            r == (Self { stop_price: r.stop_price, ..self }),
    {
        Self { stop_price: Some(stop_price.to_owned()), ..self }
    }

    /// Sets the trailing-stop price offset.
    pub fn trail_price(self, trail_price: &str) -> (r: Self)
        ensures
            r.trail_price matches Some(s) && s@ == trail_price@,
            r == (Self { trail_price: r.trail_price, ..self }),
    {
        Self { trail_price: Some(trail_price.to_owned()), ..self }
    }

    /// Sets the trailing-stop percent offset.
    pub fn trail_percent(self, trail_percent: &str) -> (r: Self)
        ensures
            r.trail_percent matches Some(s) && s@ == trail_percent@,
            r == (Self { trail_percent: r.trail_percent, ..self }),
    {
        Self { trail_percent: Some(trail_percent.to_owned()), ..self }
    }

    /// Sets whether the order may trade in extended hours.
    pub fn extend_hours(self, extend_hours: bool) -> (r: Self)
        ensures
            r.extend_hours == extend_hours,
            r == (Self { extend_hours: r.extend_hours, ..self }),
    {
        Self { extend_hours: extend_hours, ..self }
    }

    /// Sets the caller's own order id.
    pub fn client_order_id(self, client_order_id: &str) -> (r: Self)
        ensures
            r.client_order_id matches Some(s) && s@ == client_order_id@,
            r == (Self { client_order_id: r.client_order_id, ..self }),
    {
        Self { client_order_id: Some(client_order_id.to_owned()), ..self }
    }

    /// Sets the order class.
    pub fn order_class(self, order_class: OrderClass) -> (r: Self)
        ensures
            r.order_class matches Some(s) && s@ == order_class.spec_word(),
            r == (Self { order_class: r.order_class, ..self }),
    {
        Self { order_class: Some(order_class.word()), ..self }
    }

    /// Attaches a take-profit leg.
    pub fn take_profit(self, take_profit: TakeProfit) -> (r: Self)
        ensures
            r.take_profit == Some(take_profit),
            r == (Self { take_profit: r.take_profit, ..self }),
    {
        Self { take_profit: Some(take_profit), ..self }
    }

    /// Attaches a stop-loss leg.
    pub fn stop_loss(self, stop_loss: StopLoss) -> (r: Self)
        ensures
            r.stop_loss == Some(stop_loss),
            r == (Self { stop_loss: r.stop_loss, ..self }),
    {
        Self { stop_loss: Some(stop_loss), ..self }
    }

    /// The orders endpoint of the chosen account.
    pub fn order_url(&self, account_type: &AccountType) -> (r: String)
        ensures
            (account_type matches AccountType::Live ==> r@
                == "https://api.alpaca.markets/v2/orders"@),
            (account_type matches AccountType::Paper ==> r@
                == "https://paper-api.alpaca.markets/v2/orders"@),
    {
        match account_type {
            AccountType::Live => "https://api.alpaca.markets/v2/orders".to_owned(),
            AccountType::Paper => "https://paper-api.alpaca.markets/v2/orders".to_owned(),
        }
    }

    /// Writes the JSON body this order posts.
    pub fn body_json(&self) -> (r: String)
        ensures
            r@ == self.spec_body(),
    {
        let mut b: String = "{\"symbol\":".to_owned();
        push_json_string(&mut b, self.symbol.as_str());
        b.append(",\"side\":");
        push_json_string(&mut b, self.side.as_str());
        b.append(",\"type\":");
        push_json_string(&mut b, self.kind.as_str());
        b.append(",\"time_in_force\":");
        push_json_string(&mut b, self.time_in_force.as_str());
        b.append(",\"extend_hours\":");
        push_bool(&mut b, self.extend_hours);
        assert(b@ == self.spec_head());
        self.push_tail(&mut b);
        self.push_legs(&mut b);
        b
    }

    fn push_tail(&self, b: &mut String)
        ensures
            final(b)@ == old(b)@ + self.spec_tail(),
    {
        push_opt_member(b, ",\"qty\":", &self.qty);
        push_opt_member(b, ",\"notional\":", &self.notional);
        push_opt_member(b, ",\"limit_price\":", &self.limit_price);
        push_opt_member(b, ",\"stop_price\":", &self.stop_price);
        push_opt_member(b, ",\"trail_price\":", &self.trail_price);
        push_opt_member(b, ",\"trail_percent\":", &self.trail_percent);
        push_opt_member(b, ",\"client_order_id\":", &self.client_order_id);
        push_opt_member(b, ",\"order_class\":", &self.order_class);
        assert(final(b)@ =~= old(b)@ + self.spec_tail());
    }

    fn push_legs(&self, b: &mut String)
        ensures
            final(b)@ == old(b)@ + self.spec_legs(),
    {
        if let Some(tp) = &self.take_profit {
            b.append(",\"take_profit\":{\"limit_price\":");
            push_json_string(b, tp.limit_price.as_str());
            b.append("}");
        }
        if let Some(sl) = &self.stop_loss {
            b.append(",\"stop_loss\":{\"stop_price\":");
            push_json_string(b, sl.stop_price.as_str());
            b.append(",\"limit_price\":");
            push_json_string(b, sl.limit_price.as_str());
            b.append("}");
        }
        b.append("}");
        assert(final(b)@ =~= old(b)@ + self.spec_legs());
    }
}

} // verus!
